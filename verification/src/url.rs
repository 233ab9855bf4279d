//! The addresses under which the site answers.

use vstd::prelude::*;
use vstd::string::*;
use vstd::utf8::encode_utf8;
use crate::decimal::decimal;
use crate::decimal::decimal_text;
use crate::text::lowercase;
use crate::text::string_of;
use crate::text::to_lowercase;

verus! {

/// The address of the page of a problem, up to the number of the problem.
pub const PROBLEM_ADDRESS: &'static str = "https://www.pbinfo.ro/probleme/";

/// The address of the search, up to the name that is looked for.
pub const SEARCH_ADDRESS: &'static str = "https://www.pbinfo.ro/php/ajax-search.php?term=";

/// Whether the byte `b` may stand in an address as it is: a letter or a
/// digit of ASCII, or one of `-`, `.`, `_` and `~`.
pub open spec fn is_unreserved(b: u8) -> bool {
    ||| 'A' as u8 <= b <= 'Z' as u8
    ||| 'a' as u8 <= b <= 'z' as u8
    ||| '0' as u8 <= b <= '9' as u8
    ||| b == '-' as u8
    ||| b == '.' as u8
    ||| b == '_' as u8
    ||| b == '~' as u8
}

/// The digit of base sixteen that stands for `n`, a number below sixteen.
pub open spec fn hex_digit(n: u8) -> char {
    if n < 10 {
        (n + '0' as u8) as char
    } else {
        (n - 10 + 'A' as u8) as char
    }
}

/// How the byte `b` stands in an address: as it is where it is unreserved,
/// else as a percent sign and its two digits of base sixteen.
pub open spec fn escaped(b: u8) -> Seq<char> {
    if is_unreserved(b) {
        seq![b as char]
    } else {
        seq!['%', hex_digit(b / 16), hex_digit(b % 16)]
    }
}

/// How `bytes` stand in an address, byte after byte.
pub open spec fn percent_encoded(bytes: Seq<u8>) -> Seq<char>
    decreases bytes.len(),
{
    if bytes.len() == 0 {
        Seq::empty()
    } else {
        percent_encoded(bytes.drop_last()) + escaped(bytes.last())
    }
}

/// How the text `s` stands in an address: its bytes in UTF-8, percent-encoded.
pub open spec fn url_encoded(s: Seq<char>) -> Seq<char> {
    percent_encoded(encode_utf8(s))
}

/// The digit of base sixteen that stands for `n`.
fn hex(n: u8) -> (c: char)
    requires
        n < 16,
    ensures
        c == hex_digit(n),
{
    if n < 10 {
        (n + 48u8) as char
    } else {
        (n - 10 + 65u8) as char
    }
}

/// Whether the byte `b` may stand in an address as it is.
fn unreserved(b: u8) -> (r: bool)
    ensures
        r == is_unreserved(b),
{
    (b >= 65u8 && b <= 90u8) || (b >= 97u8 && b <= 122u8) || (b >= 48u8 && b <= 57u8) || b == 45u8
        || b == 46u8 || b == 95u8 || b == 126u8
}

/// How the text `s` stands in an address.
pub fn url_encode(s: &str) -> (encoded: String)
    ensures
        encoded@ == url_encoded(s@),
{
    let bytes = s.as_bytes();
    let mut out: Vec<char> = Vec::new();
    let mut i: usize = 0;
    proof {
        assert(bytes@.take(0) == Seq::<u8>::empty());
    }
    while i < bytes.len()
        invariant
            i <= bytes.len(),
            bytes@ == encode_utf8(s@),
            out@ == percent_encoded(bytes@.take(i as int)),
        decreases bytes.len() - i,
    {
        let b = bytes[i];
        proof {
            assert(bytes@.take(i + 1).drop_last() == bytes@.take(i as int));
            assert(bytes@.take(i + 1).last() == b);
        }
        if unreserved(b) {
            out.push(b as char);
        } else {
            out.push('%');
            out.push(hex(b / 16));
            out.push(hex(b % 16));
        }
        i = i + 1;
    }
    proof {
        assert(bytes@.take(bytes.len() as int) == bytes@);
    }
    string_of(&out)
}

/// The address of the page of problem `id`.
pub open spec fn problem_address(id: usize) -> Seq<char> {
    PROBLEM_ADDRESS@ + decimal(id as nat)
}

/// The address of the search for `name`: the name goes in lower case.
pub open spec fn search_address(name: Seq<char>) -> Seq<char> {
    SEARCH_ADDRESS@ + url_encoded(lowercase(name))
}

/// The address of the page of problem `id`.
pub fn problem_url(id: usize) -> (url: String)
    ensures
        url@ == problem_address(id),
{
    PROBLEM_ADDRESS.to_owned().concat(decimal_text(id).as_str())
}

/// The address of the search for `name`.
pub fn search_url(name: &str) -> (url: String)
    ensures
        url@ == search_address(name@),
{
    let name = to_lowercase(name);
    SEARCH_ADDRESS.to_owned().concat(url_encode(name.as_str()).as_str())
}

} // verus!
