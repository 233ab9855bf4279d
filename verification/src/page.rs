//! The page of a problem: the pieces it is made of, and the problem that
//! they describe.

use vstd::prelude::*;
use vstd::string::*;
use crate::decimal::decimal;
use crate::decimal::decimal_text;
use crate::error::agrees;
use crate::error::ErrorView;
use crate::error::PbInfoError;
use crate::extract::author_in;
use crate::extract::difficulty_in;
use crate::extract::extract_author;
use crate::extract::extract_difficulty;
use crate::extract::extract_grade;
use crate::extract::extract_input_source;
use crate::extract::extract_memory_limit;
use crate::extract::extract_output_source;
use crate::extract::extract_source;
use crate::extract::extract_time_limit;
use crate::extract::grade_in;
use crate::extract::input_source_in;
use crate::extract::lemma_optional_never_absent;
use crate::extract::memory_limit_in;
use crate::extract::output_source_in;
use crate::extract::require;
use crate::extract::required;
use crate::extract::source_in;
use crate::extract::time_limit_in;
use crate::extract::AUTHOR_CELL;
use crate::extract::ROW_PATTERN;
use crate::extract::SOURCE_CELL;
use crate::extract::TIME_LIMIT_CELL;
use crate::pattern::found_group;
use crate::pattern::search;
use crate::pattern::searched;
use crate::problem::level_named;
use crate::problem::Difficulty;
use crate::problem::PbInfoProblem;
use crate::problem::ProblemView;
use crate::problem::SourceView;
use crate::text::lowercase;
use crate::text::to_lowercase;

verus! {

/// The title of the page, with the name of the problem as its group.
pub const TITLE_PATTERN: &'static str = r"<title>Problema ([\w]+) \| www.pbinfo.ro</title>";

/// The statement, as the group: from its first heading up to the nearest end of the article.
pub const TEXT_PATTERN: &'static str = r"(<h1>Cerința</h1>[\s\S]*?)</article>";

/// The first table that describes a problem, with what is inside it as the group.
pub const TABLE_PATTERN: &'static str = r#"<table class="table table-bordered">([\s\S]*?)</table>"#;

/// Said when the page has no title that names a problem.
pub const NO_NAME: &'static str = "Failed to locate the problem name in the HTML";

/// Said when the page has no statement.
pub const NO_TEXT: &'static str = "Failed to locate the problem text in the HTML";

/// Said when the page has no table that describes the problem.
pub const NO_TABLE: &'static str = "Failed to locate the problem metadata in the HTML";

/// What an error begins with when the site answered neither with the page
/// nor by saying that there is none. The status code follows.
pub const BAD_STATUS: &'static str =
    "Encountered an error when trying to fetch the problem. HTTP status code ";

/// The status code of a reply that carries the page.
pub const STATUS_OK: u16 = 200;

/// The status code of a reply which says that there is no such page.
pub const STATUS_NOT_FOUND: u16 = 404;

/// The three pieces of a page that a problem is read from.
#[derive(Debug, PartialEq, Eq, Clone)]
pub struct Fragments {
    /// The name of the problem, in lower case.
    pub name: String,
    /// The HTML of the statement.
    pub text: String,
    /// The HTML inside the table that describes the problem.
    pub meta_text: String,
}

/// [`Fragments`] as the contracts see them.
pub struct FragmentsView {
    pub name: Seq<char>,
    pub text: Seq<char>,
    pub meta_text: Seq<char>,
}

impl View for Fragments {
    type V = FragmentsView;

    open spec fn view(&self) -> FragmentsView {
        FragmentsView { name: self.name@, text: self.text@, meta_text: self.meta_text@ }
    }
}

impl DeepView for Fragments {
    type V = FragmentsView;

    open spec fn deep_view(&self) -> FragmentsView {
        self@
    }
}

/// The first group of the first match of `pattern` in `page`, or the error
/// that says `missing`.
pub open spec fn piece_in(page: Seq<char>, pattern: Seq<char>, missing: Seq<char>) -> Result<Seq<char>, ErrorView> {
    match searched(pattern, page) {
        Ok(found) => required(found, 1, missing),
        Err(error) => Err(error),
    }
}

/// The pieces of `page`: the name from its title, in lower case, then the
/// statement, then the table. The first one that is missing decides the error.
pub open spec fn fragments_in(page: Seq<char>) -> Result<FragmentsView, ErrorView> {
    match piece_in(page, TITLE_PATTERN@, NO_NAME@) {
        Ok(name) => match piece_in(page, TEXT_PATTERN@, NO_TEXT@) {
            Ok(text) => match piece_in(page, TABLE_PATTERN@, NO_TABLE@) {
                Ok(meta_text) => Ok(FragmentsView { name: lowercase(name), text, meta_text }),
                Err(error) => Err(error),
            },
            Err(error) => Err(error),
        },
        Err(error) => Err(error),
    }
}

/// The level that the word of a difficulty names.
pub open spec fn level_of(word: Option<Seq<char>>) -> Option<Difficulty> {
    match word {
        Some(word) => level_named(word),
        None => None,
    }
}

/// The problem number `id` that `pieces` describe. The fields are read from
/// the table in the order input source, output source, grade, time limit,
/// memory limit, source, author, difficulty, and the first one that cannot
/// be read decides the error.
pub open spec fn assembled(id: usize, pieces: FragmentsView) -> Result<ProblemView, ErrorView> {
    let table = pieces.meta_text;
    match input_source_in(table) {
        Ok(input_source) => match output_source_in(table) {
            Ok(output_source) => match grade_in(table) {
                Ok(grade) => match time_limit_in(table) {
                    Ok(time_limit) => match memory_limit_in(table) {
                        Ok(memory_limit) => match source_in(table) {
                            Ok(source) => match author_in(table) {
                                Ok(author) => match difficulty_in(table) {
                                    Ok(word) => Ok(
                                        ProblemView {
                                            id,
                                            name: pieces.name,
                                            text: pieces.text,
                                            meta_text: pieces.meta_text,
                                            input_source,
                                            output_source,
                                            grade,
                                            time_limit,
                                            memory_limit,
                                            difficulty: level_of(word),
                                            author,
                                            source,
                                        },
                                    ),
                                    Err(error) => Err(error),
                                },
                                Err(error) => Err(error),
                            },
                            Err(error) => Err(error),
                        },
                        Err(error) => Err(error),
                    },
                    Err(error) => Err(error),
                },
                Err(error) => Err(error),
            },
            Err(error) => Err(error),
        },
        Err(error) => Err(error),
    }
}

/// Every problem that is read from the pieces of a page is well formed.
pub proof fn lemma_assembled_wf(id: usize, pieces: FragmentsView)
    ensures
        assembled(id, pieces) matches Ok(problem) ==> problem.wf(),
{
    let table = pieces.meta_text;
    if let Ok(found) = searched(ROW_PATTERN@, table) {
        if let Some(cell) = found_group(found, TIME_LIMIT_CELL as int) {
            lemma_optional_never_absent(cell);
        }
        if let Some(cell) = found_group(found, SOURCE_CELL as int) {
            lemma_optional_never_absent(cell);
        }
        if let Some(cell) = found_group(found, AUTHOR_CELL as int) {
            lemma_optional_never_absent(cell);
        }
    }
}

/// What the reply to the request for the page of problem `id` means: the
/// problem that the page describes where the status is [`STATUS_OK`], no
/// such problem where it is [`STATUS_NOT_FOUND`], and for any other status
/// an error that names it.
pub open spec fn fetched(id: usize, status: u16, page: Seq<char>) -> Result<ProblemView, ErrorView> {
    if status == STATUS_OK {
        match fragments_in(page) {
            Ok(pieces) => assembled(id, pieces),
            Err(error) => Err(error),
        }
    } else if status == STATUS_NOT_FOUND {
        Err(ErrorView::UnknownId(id))
    } else {
        Err(ErrorView::NetworkError(BAD_STATUS@ + decimal(status as nat)))
    }
}

/// Where the site says that there is no such page, the error holds the
/// number that was asked for, whatever the reply carries.
pub proof fn lemma_not_found_keeps_id(id: usize, page: Seq<char>)
    ensures
        fetched(id, STATUS_NOT_FOUND, page) == Err::<ProblemView, ErrorView>(ErrorView::UnknownId(id)),
{
}

/// Reading the fields again from the table that a fetched problem keeps
/// gives the fields that the problem holds, and putting the problem together
/// again from its own pieces gives the same problem.
pub proof fn lemma_fields_read_again(id: usize, status: u16, page: Seq<char>)
    requires
        fetched(id, status, page) is Ok,
    ensures
        ({
            let problem = fetched(id, status, page)->Ok_0;
            let table = problem.meta_text;
            &&& input_source_in(table) == Ok::<SourceView, ErrorView>(problem.input_source)
            &&& output_source_in(table) == Ok::<SourceView, ErrorView>(problem.output_source)
            &&& grade_in(table) == Ok::<usize, ErrorView>(problem.grade)
            &&& time_limit_in(table) == Ok::<Option<Seq<char>>, ErrorView>(problem.time_limit)
            &&& memory_limit_in(table) == Ok::<Option<Seq<char>>, ErrorView>(problem.memory_limit)
            &&& source_in(table) == Ok::<Option<Seq<char>>, ErrorView>(problem.source)
            &&& author_in(table) == Ok::<Option<Seq<char>>, ErrorView>(problem.author)
            &&& difficulty_in(table) matches Ok(word) && level_of(word) == problem.difficulty
            &&& assembled(
                problem.id,
                FragmentsView { name: problem.name, text: problem.text, meta_text: table },
            ) == Ok::<ProblemView, ErrorView>(problem)
        }),
{
}

/// The first group of the first match of `pattern` in `page`.
pub fn piece(page: &str, pattern: &str, missing: &str) -> (text: Result<String, PbInfoError>)
    ensures
        agrees(text, piece_in(page@, pattern@, missing@)),
{
    match search(pattern, page) {
        Ok(found) => match require(&found, 1, missing) {
            Ok(text) => Ok(text.to_owned()),
            Err(error) => Err(error),
        },
        Err(error) => Err(error),
    }
}

/// The pieces of `page` that a problem is read from.
pub fn locate(page: &str) -> (pieces: Result<Fragments, PbInfoError>)
    ensures
        agrees(pieces, fragments_in(page@)),
{
    let name = match piece(page, TITLE_PATTERN, NO_NAME) {
        Ok(name) => to_lowercase(name.as_str()),
        Err(error) => {
            return Err(error);
        },
    };
    let text = match piece(page, TEXT_PATTERN, NO_TEXT) {
        Ok(text) => text,
        Err(error) => {
            return Err(error);
        },
    };
    let meta_text = match piece(page, TABLE_PATTERN, NO_TABLE) {
        Ok(meta_text) => meta_text,
        Err(error) => {
            return Err(error);
        },
    };
    Ok(Fragments { name, text, meta_text })
}

/// The level that the word of a difficulty names.
pub fn level_from(word: &Option<String>) -> (level: Option<Difficulty>)
    ensures
        level == level_of(word.deep_view()),
{
    match word {
        Some(word) => Difficulty::from_word(word.as_str()),
        None => None,
    }
}

/// The problem number `id` that `pieces` describe.
pub fn assemble(id: usize, pieces: Fragments) -> (problem: Result<PbInfoProblem, PbInfoError>)
    ensures
        agrees(problem, assembled(id, pieces@)),
{
    let table = pieces.meta_text.as_str();
    let input_source = match extract_input_source(table) {
        Ok(source) => source,
        Err(error) => {
            return Err(error);
        },
    };
    let output_source = match extract_output_source(table) {
        Ok(source) => source,
        Err(error) => {
            return Err(error);
        },
    };
    let grade = match extract_grade(table) {
        Ok(grade) => grade,
        Err(error) => {
            return Err(error);
        },
    };
    let time_limit = match extract_time_limit(table) {
        Ok(limit) => limit,
        Err(error) => {
            return Err(error);
        },
    };
    let memory_limit = match extract_memory_limit(table) {
        Ok(limit) => limit,
        Err(error) => {
            return Err(error);
        },
    };
    let source = match extract_source(table) {
        Ok(source) => source,
        Err(error) => {
            return Err(error);
        },
    };
    let author = match extract_author(table) {
        Ok(author) => author,
        Err(error) => {
            return Err(error);
        },
    };
    let difficulty = match extract_difficulty(table) {
        Ok(word) => level_from(&word),
        Err(error) => {
            return Err(error);
        },
    };
    Ok(
        PbInfoProblem {
            id,
            name: pieces.name,
            text: pieces.text,
            meta_text: pieces.meta_text,
            input_source,
            output_source,
            grade,
            time_limit,
            memory_limit,
            difficulty,
            author,
            source,
        },
    )
}

impl PbInfoProblem {
    /// The problem number `id`, from the reply to the request for its page:
    /// `status` is the status code of the reply and `page` the HTML that it
    /// carries.
    pub fn fetch_problem_by_id(id: usize, status: u16, page: &str) -> (problem: Result<PbInfoProblem, PbInfoError>)
        ensures
            agrees(problem, fetched(id, status, page@)),
            problem matches Ok(p) ==> p@.wf(),
    {
        if status == STATUS_OK {
            match locate(page) {
                Ok(pieces) => {
                    proof {
                        lemma_assembled_wf(id, pieces@);
                    }
                    assemble(id, pieces)
                },
                Err(error) => Err(error),
            }
        } else if status == STATUS_NOT_FOUND {
            Err(PbInfoError::UnknownId(id))
        } else {
            let code = decimal_text(status as usize);
            Err(PbInfoError::NetworkError(BAD_STATUS.to_owned().concat(code.as_str())))
        }
    }
}

} // verus!
