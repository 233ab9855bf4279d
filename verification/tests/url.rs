use pbinfo::problem_url;
use pbinfo::search_url;
use pbinfo::url::url_encode;

#[test]
fn problem_url_ends_with_the_number() {
    assert_eq!(problem_url(1691), "https://www.pbinfo.ro/probleme/1691");
    assert_eq!(problem_url(0), "https://www.pbinfo.ro/probleme/0");
}

#[test]
fn search_url_holds_the_name_in_lower_case() {
    assert_eq!(search_url("arbore1"), "https://www.pbinfo.ro/php/ajax-search.php?term=arbore1");
    assert_eq!(search_url("Arbore1"), "https://www.pbinfo.ro/php/ajax-search.php?term=arbore1");
    assert_eq!(search_url("SUMA"), "https://www.pbinfo.ro/php/ajax-search.php?term=suma");
}

#[test]
fn search_url_encodes_the_name() {
    assert_eq!(
        search_url("Suma Ă&b"),
        "https://www.pbinfo.ro/php/ajax-search.php?term=suma%20%C4%83%26b"
    );
    assert_eq!(search_url(""), "https://www.pbinfo.ro/php/ajax-search.php?term=");
}

#[test]
fn url_encode_keeps_unreserved_bytes() {
    let plain = "ABCXYZabcxyz0189-._~";
    assert_eq!(url_encode(plain), plain);
}

#[test]
fn url_encode_escapes_the_rest() {
    assert_eq!(url_encode(" "), "%20");
    assert_eq!(url_encode("#"), "%23");
    assert_eq!(url_encode("%"), "%25");
    assert_eq!(url_encode("a/b?c=d"), "a%2Fb%3Fc%3Dd");
    assert_eq!(url_encode("\n"), "%0A");
    assert_eq!(url_encode("ă"), "%C4%83");
    assert_eq!(url_encode("ș"), "%C8%99");
    assert_eq!(url_encode("€"), "%E2%82%AC");
    assert_eq!(url_encode("😀"), "%F0%9F%98%80");
    assert_eq!(url_encode("@[`{"), "%40%5B%60%7B");
}
