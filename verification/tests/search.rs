use pbinfo::search::examine;
use pbinfo::extract_id_from_json;
use pbinfo::PbInfoError;
use pbinfo::PbInfoProblem;
use pbinfo::SearchRecord;
use pbinfo::SearchReply;

const BAD_LABEL: &str =
    "The JSON 'label' attribute should be of the form `'Problema #{id}: <strong>{name}</strong>'`";

fn json_error(message: &str) -> PbInfoError {
    PbInfoError::JSONError(message.to_owned())
}

fn record(value: &str, label: &str) -> SearchRecord {
    SearchRecord { value: Some(value.to_owned()), label: Some(label.to_owned()) }
}

fn arbore_records() -> Vec<SearchRecord> {
    vec![
        record("Arbore", "Problema #641: <strong>Arbore</strong>"),
        record("Arbore1", "Problema #1691: <strong>Arbore1</strong>"),
        record("arbore2", "Problema #1692: <strong>arbore2</strong>"),
    ]
}

#[test]
fn label_id_stands_between_the_marks() {
    assert_eq!(extract_id_from_json("Problema #1691: <strong>Arbore1</strong>"), Ok(1691));
    assert_eq!(extract_id_from_json("Problema #0:"), Ok(0));
    assert_eq!(extract_id_from_json("Problema 12"), Ok(12));
    assert_eq!(extract_id_from_json("  \tProblema \n #7: x"), Ok(7));
    assert_eq!(extract_id_from_json("Problema #16:91# rest"), Ok(1691));
    assert_eq!(extract_id_from_json("Problema #+5:"), Ok(5));
}

#[test]
fn label_of_another_form_is_an_error() {
    for label in ["", "   ", "Problema", "Problema ", "problema #1:", "Problema#1: x", "Problema #:",
        "Problema #x1:", "Problema # 1:", "Problema #-1:", "Problema #1.5:",
        "Problema #99999999999999999999999999: x", "Proema #1691: x", "#1691: Problema"]
    {
        assert_eq!(extract_id_from_json(label), Err(json_error(BAD_LABEL)), "{:?}", label);
    }
}

#[test]
fn examine_passes_over_another_name() {
    let label = Some("Problema #1: x".to_owned());
    assert_eq!(examine("arbore", "arbore1", &label), Ok(None));
    assert_eq!(examine("arbore", "Arbore", &label), Ok(None));
    assert_eq!(examine("arbore", "arbore1", &None), Ok(None));
}

#[test]
fn examine_reads_the_label_of_the_same_name() {
    assert_eq!(examine("arbore", "arbore", &Some("Problema #641: x".to_owned())), Ok(Some(641)));
    assert_eq!(
        examine("arbore", "arbore", &None),
        Err(json_error("JSON should contain the 'label' attribute"))
    );
    assert_eq!(
        examine("arbore", "arbore", &Some("Arbore #641".to_owned())),
        Err(json_error(BAD_LABEL))
    );
}

#[test]
fn name_is_found_whatever_its_case() {
    let reply = SearchReply::Records(arbore_records());
    assert_eq!(PbInfoProblem::fetch_problem_by_name("arbore1", &reply), Ok(1691));
    assert_eq!(PbInfoProblem::fetch_problem_by_name("ARBORE1", &reply), Ok(1691));
    assert_eq!(PbInfoProblem::fetch_problem_by_name("Arbore", &reply), Ok(641));
    assert_eq!(PbInfoProblem::fetch_problem_by_name("ARBORE2", &reply), Ok(1692));
}

#[test]
fn first_record_of_the_name_counts() {
    let reply = SearchReply::Records(vec![
        record("Suma", "Problema #1: <strong>Suma</strong>"),
        record("suma", "Problema #2: <strong>suma</strong>"),
    ]);
    assert_eq!(PbInfoProblem::fetch_problem_by_name("SUMA", &reply), Ok(1));
}

#[test]
fn unknown_name_lists_every_record_in_order() {
    let reply = SearchReply::Records(arbore_records());
    assert_eq!(
        PbInfoProblem::fetch_problem_by_name("Arbo", &reply),
        Err(PbInfoError::UnknownName(
            "arbo".to_owned(),
            vec!["Arbore".to_owned(), "Arbore1".to_owned(), "arbore2".to_owned()],
        ))
    );
}

#[test]
fn unknown_name_with_no_record_lists_nothing() {
    let reply = SearchReply::Records(vec![]);
    assert_eq!(
        PbInfoProblem::fetch_problem_by_name("Nimic", &reply),
        Err(PbInfoError::UnknownName("nimic".to_owned(), vec![]))
    );
}

#[test]
fn reply_that_is_no_list_is_an_error() {
    assert_eq!(
        PbInfoProblem::fetch_problem_by_name("arbore", &SearchReply::Malformed),
        Err(json_error("Could not parse JSON response"))
    );
}

#[test]
fn record_without_a_name_ends_the_search() {
    let mut records = arbore_records();
    records[1].value = None;
    let reply = SearchReply::Records(records);
    let no_value = Err(json_error("JSON should contain the 'value' attribute"));
    assert_eq!(PbInfoProblem::fetch_problem_by_name("arbore2", &reply), no_value);
    assert_eq!(PbInfoProblem::fetch_problem_by_name("nimic", &reply), no_value);
    assert_eq!(PbInfoProblem::fetch_problem_by_name("arbore", &reply), Ok(641));
}

#[test]
fn record_of_the_name_needs_a_label() {
    let mut records = arbore_records();
    records[1].label = None;
    let reply = SearchReply::Records(records);
    assert_eq!(
        PbInfoProblem::fetch_problem_by_name("arbore1", &reply),
        Err(json_error("JSON should contain the 'label' attribute"))
    );
    assert_eq!(PbInfoProblem::fetch_problem_by_name("arbore2", &reply), Ok(1692));
}

#[test]
fn record_of_the_name_needs_a_number_in_its_label() {
    let reply = SearchReply::Records(vec![
        record("Arbore", "<strong>Arbore</strong>"),
        record("arbore", "Problema #641: <strong>Arbore</strong>"),
    ]);
    assert_eq!(PbInfoProblem::fetch_problem_by_name("arbore", &reply), Err(json_error(BAD_LABEL)));
}
