use pbinfo::extract_author;
use pbinfo::extract_difficulty;
use pbinfo::extract_grade;
use pbinfo::extract_input_source;
use pbinfo::extract_memory_limit;
use pbinfo::extract_output_source;
use pbinfo::extract_source;
use pbinfo::extract_time_limit;
use pbinfo::page::assemble;
use pbinfo::page::level_from;
use pbinfo::page::locate;
use pbinfo::page::piece;
use pbinfo::Difficulty;
use pbinfo::Fragments;
use pbinfo::IOSource;
use pbinfo::PbInfoError;
use pbinfo::PbInfoProblem;

const TITLE: &str = "<title>Problema Arbore1 | www.pbinfo.ro</title>";

const STATEMENT: &str = "<h1>Cerința</h1>\n<p>Se dă un arbore.</p>\n<h1>Date de intrare</h1>";

const TABLE: &str = r#"
	<tr>
		<th>Postată de</th>
	</tr>
	<tr>
		<td>
			<span class="pbi-widget-user pbi-widget-user-span">Candale Silviu (silviu)</span>
		</td>
		<td class="center">
			11		</td>
		<td>
			<span style="background: url('/img/32-fisier.png') no-repeat 3px center;background-size:16px;padding-left:34px;"> arbore1.in / arbore1.out </span> 		</td>
		<td>
			0.5 secunde
		</td>
		<td>
			<span title="Memorie totală">64 MB</span> / <span  title="Dimensiunea stivei">32 MB</span>
		</td>
		<td>
			ONI 2016, clasele XI-XII		</td>
		<td>
			<div class="center">-</div>		</td>
		<td class="center">
			concurs		</td>
		<td>
			<div class="center"><a href="/detalii-evaluare/35494272">100</a></div>
		</td>
	</tr>
"#;

fn page_of(title: &str, statement: &str, table: &str) -> String {
    format!(
        "<html><head>{}</head><body><article>{}</article><aside></article>\n<table class=\"table table-bordered\">{}</table><table class=\"table table-bordered\">second</table></body></html>",
        title, statement, table
    )
}

fn page() -> String {
    page_of(TITLE, STATEMENT, TABLE)
}

fn regex_error(message: &str) -> PbInfoError {
    PbInfoError::RegexError(message.to_owned())
}

fn expected(id: usize) -> PbInfoProblem {
    PbInfoProblem {
        id,
        name: "arbore1".to_owned(),
        text: STATEMENT.to_owned(),
        meta_text: TABLE.to_owned(),
        input_source: IOSource::File("arbore1.in".to_owned()),
        output_source: IOSource::File("arbore1.out".to_owned()),
        grade: 11,
        time_limit: Some("0.5 secunde".to_owned()),
        memory_limit: Some("64 MB / 32 MB".to_owned()),
        difficulty: Some(Difficulty::Contest),
        author: None,
        source: Some("ONI 2016, clasele XI-XII".to_owned()),
    }
}

#[test]
fn piece_is_the_first_group_of_the_first_match() {
    assert_eq!(piece("a=1 b=2", r"\w=(\d)", "missing"), Ok("1".to_owned()));
    assert_eq!(piece("nothing", r"\w=(\d)", "missing"), Err(regex_error("missing")));
    assert_eq!(piece("a=1", r"\w=\d", "missing"), Err(regex_error("missing")));
}

#[test]
fn locate_finds_the_three_pieces() {
    assert_eq!(
        locate(&page()),
        Ok(Fragments {
            name: "arbore1".to_owned(),
            text: STATEMENT.to_owned(),
            meta_text: TABLE.to_owned(),
        })
    );
}

#[test]
fn locate_puts_the_name_in_lower_case() {
    let shouting = page_of("<title>Problema SUMA_Ă | www.pbinfo.ro</title>", STATEMENT, TABLE);
    assert_eq!(locate(&shouting).unwrap().name, "suma_ă");
}

#[test]
fn locate_stops_the_statement_at_the_nearest_end() {
    let pieces = locate(&page()).unwrap();
    assert!(!pieces.text.contains("</article>"));
    assert!(!pieces.text.contains("<aside>"));
}

#[test]
fn locate_takes_the_first_table() {
    assert!(!locate(&page()).unwrap().meta_text.contains("second"));
}

#[test]
fn locate_names_the_first_piece_that_is_missing() {
    let no_name = Err(regex_error("Failed to locate the problem name in the HTML"));
    let no_text = Err(regex_error("Failed to locate the problem text in the HTML"));
    let no_table = Err(regex_error("Failed to locate the problem metadata in the HTML"));
    assert_eq!(locate(""), no_name);
    assert_eq!(locate(&page_of("<title>problema x | www.pbinfo.ro</title>", STATEMENT, TABLE)), no_name);
    assert_eq!(locate(&page_of("<title>Problema două cuvinte | www.pbinfo.ro</title>", "", "")), no_name);
    assert_eq!(locate(&page_of(TITLE, "<h1>Cerinta</h1>", TABLE)), no_text);
    assert_eq!(locate(&page_of(TITLE, "", "")), no_text);
    assert_eq!(locate(&format!("{}<article>{}</article>", TITLE, STATEMENT)), no_table);
    assert_eq!(
        locate(&format!("{}<article>{}</article><table>{}</table>", TITLE, STATEMENT, TABLE)),
        no_table
    );
}

#[test]
fn page_that_was_found_gives_the_problem() {
    assert_eq!(PbInfoProblem::fetch_problem_by_id(1691, 200, &page()), Ok(expected(1691)));
    assert_eq!(PbInfoProblem::fetch_problem_by_id(0, 200, &page()), Ok(expected(0)));
}

#[test]
fn page_that_was_not_found_gives_the_id_back() {
    assert_eq!(PbInfoProblem::fetch_problem_by_id(1691, 404, ""), Err(PbInfoError::UnknownId(1691)));
    assert_eq!(PbInfoProblem::fetch_problem_by_id(7, 404, &page()), Err(PbInfoError::UnknownId(7)));
    assert_eq!(
        PbInfoProblem::fetch_problem_by_id(usize::MAX, 404, ""),
        Err(PbInfoError::UnknownId(usize::MAX))
    );
}

#[test]
fn any_other_status_is_named_in_the_error() {
    for status in [0u16, 100, 201, 301, 403, 405, 500, 503, 65535] {
        assert_eq!(
            PbInfoProblem::fetch_problem_by_id(1691, status, &page()),
            Err(PbInfoError::NetworkError(format!(
                "Encountered an error when trying to fetch the problem. HTTP status code {}",
                status
            )))
        );
    }
}

#[test]
fn page_without_its_pieces_is_an_error() {
    assert_eq!(
        PbInfoProblem::fetch_problem_by_id(1, 200, "<html></html>"),
        Err(regex_error("Failed to locate the problem name in the HTML"))
    );
}

#[test]
fn first_field_that_cannot_be_read_decides() {
    let pieces = |table: &str| Fragments {
        name: "x".to_owned(),
        text: "text".to_owned(),
        meta_text: table.to_owned(),
    };
    assert_eq!(
        assemble(1, pieces("")),
        Err(regex_error("Failed to locate the input source in the HTML"))
    );
    let span = "<span style=\"background: url(x)\">tastatură / ecran</span>";
    assert_eq!(assemble(1, pieces(span)), Err(regex_error("Failed to locate the grade in the HTML")));
    let bad_grade = TABLE.replace("11", "XI");
    assert_eq!(
        assemble(1, pieces(&bad_grade)),
        Err(regex_error("Could not convert the grade into usize"))
    );
    let bad_level = TABLE.replace("concurs", "imposibilă");
    assert_eq!(
        assemble(1, pieces(&bad_level)),
        Err(regex_error("Could not convert the difficulty into a known level"))
    );
    let both = bad_grade.replace("concurs", "imposibilă");
    assert_eq!(
        assemble(1, pieces(&both)),
        Err(regex_error("Could not convert the grade into usize"))
    );
}

#[test]
fn assemble_keeps_the_pieces() {
    let pieces = Fragments {
        name: "nume".to_owned(),
        text: "enunț".to_owned(),
        meta_text: TABLE.replace("arbore1.in / arbore1.out", "tastatură / ecran").replace("0.5 secunde", "-"),
    };
    let problem = assemble(42, pieces.clone()).unwrap();
    assert_eq!(problem.id, 42);
    assert_eq!(problem.name, pieces.name);
    assert_eq!(problem.text, pieces.text);
    assert_eq!(problem.meta_text, pieces.meta_text);
    assert_eq!(problem.input_source, IOSource::Std);
    assert_eq!(problem.output_source, IOSource::Std);
    assert_eq!(problem.time_limit, None);
}

#[test]
fn level_from_reads_the_word() {
    assert_eq!(level_from(&Some("medie".to_owned())), Some(Difficulty::Medium));
    assert_eq!(level_from(&Some("altceva".to_owned())), None);
    assert_eq!(level_from(&None), None);
}

#[test]
fn fields_read_again_from_the_kept_table_are_the_same() {
    let problem = PbInfoProblem::fetch_problem_by_id(1691, 200, &page()).unwrap();
    let table = problem.meta_text.as_str();
    assert_eq!(extract_input_source(table), Ok(problem.input_source.clone()));
    assert_eq!(extract_output_source(table), Ok(problem.output_source.clone()));
    assert_eq!(extract_grade(table), Ok(problem.grade));
    assert_eq!(extract_time_limit(table), Ok(problem.time_limit.clone()));
    assert_eq!(extract_memory_limit(table), Ok(problem.memory_limit.clone()));
    assert_eq!(extract_source(table), Ok(problem.source.clone()));
    assert_eq!(extract_author(table), Ok(problem.author.clone()));
    assert_eq!(
        extract_difficulty(table),
        Ok(problem.difficulty.map(|level| level.word().to_owned()))
    );
    let again = assemble(
        problem.id,
        Fragments {
            name: problem.name.clone(),
            text: problem.text.clone(),
            meta_text: problem.meta_text.clone(),
        },
    );
    assert_eq!(again, Ok(problem));
}

#[test]
fn fetched_problem_never_holds_the_mark() {
    let table = TABLE.replace("0.5 secunde", " - ").replace("ONI 2016, clasele XI-XII", "-");
    let problem = PbInfoProblem::fetch_problem_by_id(5, 200, &page_of(TITLE, STATEMENT, &table)).unwrap();
    assert_eq!(problem.time_limit, None);
    assert_eq!(problem.source, None);
    assert_eq!(problem.author, None);
    assert!(problem.grade > 0);
}
