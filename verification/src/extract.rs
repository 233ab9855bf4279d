//! The fields of a problem, each read from the HTML of the table that
//! describes the problem.
//!
//! Every field has two readers. The one named `extract_..` takes the HTML
//! and searches it. The one named `.._from` takes what the search found, so
//! each rule can be followed on values written out by hand.

use vstd::prelude::*;
use vstd::string::*;
use crate::decimal::parse_number;
use crate::decimal::parsed;
use crate::error::agrees;
use crate::error::regex_error;
use crate::error::ErrorView;
use crate::error::PbInfoError;
use crate::pattern::found_group;
use crate::pattern::found_text;
use crate::pattern::group;
use crate::pattern::group_text;
use crate::pattern::search;
use crate::pattern::search_all;
use crate::pattern::searched;
use crate::pattern::searched_all;
use crate::pattern::Groups;
use crate::problem::level_named;
use crate::problem::ABSENT;
use crate::problem::Difficulty;
use crate::problem::IOSource;
use crate::problem::SourceView;
use crate::text::leading_spaces;
use crate::text::lemma_leading_spaces_are_spaces;
use crate::text::lemma_shown_without_tags;
use crate::text::lemma_trailing_spaces_are_spaces;
use crate::text::same_text;
use crate::text::shown;
use crate::text::strip_tags;
use crate::text::trim;
use crate::text::trim_start;
use crate::text::trimmed;

verus! {

/// The row of the table: eight cells one after the other, each a group.
pub const ROW_PATTERN: &'static str =
    r#"<td[ \S]*?>([\s\S]*?)</td>\s*?<td[ \S]*?>([\s\S]*?)</td>\s*?<td[ \S]*?>([\s\S]*?)</td>\s*?<td[ \S]*?>([\s\S]*?)</td>\s*?<td[ \S]*?>([\s\S]*?)</td>\s*?<td[ \S]*?>([\s\S]*?)</td>\s*?<td[ \S]*?>([\s\S]*?)</td>\s*?<td[ \S]*?>([\s\S]*?)</td>"#;

/// The span that names the input and the output, each a group.
pub const IO_PATTERN: &'static str =
    r#"<span style="background: url\(.*?>\s*([\w\.ă]+) / ([\w\.ă]+)\s*</span>"#;

/// One quantity of memory inside the cell of the memory limit.
pub const QUANTITY_PATTERN: &'static str = r">([\w -]*)<";

/// The cell of the grade.
pub const GRADE_CELL: usize = 2;

/// The cell of the time limit.
pub const TIME_LIMIT_CELL: usize = 4;

/// The cell of the memory limit.
pub const MEMORY_LIMIT_CELL: usize = 5;

/// The cell of the source.
pub const SOURCE_CELL: usize = 6;

/// The cell of the author.
pub const AUTHOR_CELL: usize = 7;

/// The cell of the difficulty.
pub const DIFFICULTY_CELL: usize = 8;

/// What stands for the keyboard where the input is named.
pub const KEYBOARD: &'static str = "tastatură";

/// What stands for the screen where the output is named.
pub const SCREEN: &'static str = "ecran";

/// What stands between the two quantities of a memory limit.
pub const BETWEEN_QUANTITIES: &'static str = " / ";

/// Said when no span names the input.
pub const NO_INPUT_SOURCE: &'static str = "Failed to locate the input source in the HTML";

/// Said when no span names the output.
pub const NO_OUTPUT_SOURCE: &'static str = "Failed to locate the output source in the HTML";

/// Said when the row has no cell for the grade.
pub const NO_GRADE: &'static str = "Failed to locate the grade in the HTML";

/// Said when the cell of the grade holds no grade.
pub const BAD_GRADE: &'static str = "Could not convert the grade into usize";

/// Said when the row has no cell for the time limit.
pub const NO_TIME_LIMIT: &'static str = "Failed to locate the time limit in the HTML";

/// Said when the row has no cell for the memory limit.
pub const NO_MEMORY_LIMIT: &'static str = "Failed to locate the memory limit in the HTML";

/// Said when the row has no cell for the source.
pub const NO_SOURCE: &'static str = "Failed to locate the source in the HTML";

/// Said when the row has no cell for the author.
pub const NO_AUTHOR: &'static str = "Failed to locate the author in the HTML";

/// Said when the row has no cell for the difficulty.
pub const NO_DIFFICULTY: &'static str = "Failed to locate the difficulty in the HTML";

/// Said when the cell of the difficulty holds a word that names no level.
pub const BAD_DIFFICULTY: &'static str = "Could not convert the difficulty into a known level";

/// The text of group `index` in what a search found, or the error that says
/// `missing` where there is none.
pub open spec fn required(found: Option<Groups>, index: int, missing: Seq<char>) -> Result<Seq<char>, ErrorView> {
    match found_group(found, index) {
        Some(text) => Ok(text),
        None => Err(ErrorView::RegexError(missing)),
    }
}

/// The text of group `index` in what a search found.
pub fn require<'a>(found: &'a Option<Vec<Option<String>>>, index: usize, missing: &str) -> (text: Result<&'a str, PbInfoError>)
    ensures
        agrees(text, required(found.deep_view(), index as int, missing@)),
{
    match found_text(found, index) {
        Some(text) => Ok(text),
        None => Err(regex_error(missing)),
    }
}

/// The source that `name` stands for, where `standard` is the word for the
/// keyboard or the screen: that word means [`IOSource::Std`], and any other
/// text is the name of a file.
pub open spec fn source_named(name: Seq<char>, standard: Seq<char>) -> SourceView {
    if trimmed(name) == standard {
        SourceView::Std
    } else {
        SourceView::File(trimmed(name))
    }
}

/// The source that `name` stands for.
pub fn source_from(name: &str, standard: &str) -> (source: IOSource)
    ensures
        source@ == source_named(name@, standard@),
{
    let name = trim(name);
    if same_text(name, standard) {
        IOSource::Std
    } else {
        IOSource::File(name.to_owned())
    }
}

/// The input source in what a search for [`IO_PATTERN`] found: its first group.
pub open spec fn input_source_of(found: Option<Groups>) -> Result<SourceView, ErrorView> {
    match required(found, 1, NO_INPUT_SOURCE@) {
        Ok(name) => Ok(source_named(name, KEYBOARD@)),
        Err(error) => Err(error),
    }
}

/// The output source in what a search for [`IO_PATTERN`] found: its second group.
pub open spec fn output_source_of(found: Option<Groups>) -> Result<SourceView, ErrorView> {
    match required(found, 2, NO_OUTPUT_SOURCE@) {
        Ok(name) => Ok(source_named(name, SCREEN@)),
        Err(error) => Err(error),
    }
}

/// The input source that `text` names.
pub open spec fn input_source_in(text: Seq<char>) -> Result<SourceView, ErrorView> {
    match searched(IO_PATTERN@, text) {
        Ok(found) => input_source_of(found),
        Err(error) => Err(error),
    }
}

/// The output source that `text` names.
pub open spec fn output_source_in(text: Seq<char>) -> Result<SourceView, ErrorView> {
    match searched(IO_PATTERN@, text) {
        Ok(found) => output_source_of(found),
        Err(error) => Err(error),
    }
}

/// The input source in what a search for [`IO_PATTERN`] found.
pub fn input_source_from(found: &Option<Vec<Option<String>>>) -> (source: Result<IOSource, PbInfoError>)
    ensures
        agrees(source, input_source_of(found.deep_view())),
{
    match require(found, 1, NO_INPUT_SOURCE) {
        Ok(name) => Ok(source_from(name, KEYBOARD)),
        Err(error) => Err(error),
    }
}

/// The output source in what a search for [`IO_PATTERN`] found.
pub fn output_source_from(found: &Option<Vec<Option<String>>>) -> (source: Result<IOSource, PbInfoError>)
    ensures
        agrees(source, output_source_of(found.deep_view())),
{
    match require(found, 2, NO_OUTPUT_SOURCE) {
        Ok(name) => Ok(source_from(name, SCREEN)),
        Err(error) => Err(error),
    }
}

/// Where the problem reads its input from: the keyboard or a file.
pub fn extract_input_source(string: &str) -> (source: Result<IOSource, PbInfoError>)
    ensures
        agrees(source, input_source_in(string@)),
{
    match search(IO_PATTERN, string) {
        Ok(found) => input_source_from(&found),
        Err(error) => Err(error),
    }
}

/// Where the problem writes its output to: the screen or a file.
pub fn extract_output_source(string: &str) -> (source: Result<IOSource, PbInfoError>)
    ensures
        agrees(source, output_source_in(string@)),
{
    match search(IO_PATTERN, string) {
        Ok(found) => output_source_from(&found),
        Err(error) => Err(error),
    }
}

/// The grade in what a search for [`ROW_PATTERN`] found: the number in the
/// second cell, which is at least one.
pub open spec fn grade_of(found: Option<Groups>) -> Result<usize, ErrorView> {
    match required(found, GRADE_CELL as int, NO_GRADE@) {
        Ok(cell) => match parsed(trimmed(cell)) {
            Some(grade) => if grade > 0 {
                Ok(grade)
            } else {
                Err(ErrorView::RegexError(BAD_GRADE@))
            },
            None => Err(ErrorView::RegexError(BAD_GRADE@)),
        },
        Err(error) => Err(error),
    }
}

/// The grade that `text` gives.
pub open spec fn grade_in(text: Seq<char>) -> Result<usize, ErrorView> {
    match searched(ROW_PATTERN@, text) {
        Ok(found) => grade_of(found),
        Err(error) => Err(error),
    }
}

/// The grade in what a search for [`ROW_PATTERN`] found.
pub fn grade_from(found: &Option<Vec<Option<String>>>) -> (grade: Result<usize, PbInfoError>)
    ensures
        agrees(grade, grade_of(found.deep_view())),
{
    match require(found, GRADE_CELL, NO_GRADE) {
        Ok(cell) => match parse_number(trim(cell)) {
            Some(grade) => if grade > 0 {
                Ok(grade)
            } else {
                Err(regex_error(BAD_GRADE))
            },
            None => Err(regex_error(BAD_GRADE)),
        },
        Err(error) => Err(error),
    }
}

/// The school grade that the problem is meant for.
pub fn extract_grade(string: &str) -> (grade: Result<usize, PbInfoError>)
    ensures
        agrees(grade, grade_in(string@)),
{
    match search(ROW_PATTERN, string) {
        Ok(found) => grade_from(&found),
        Err(error) => Err(error),
    }
}

/// What a cell says: nothing where all that it shows, tags left out, is
/// [`ABSENT`] with white space around it; else what the cell holds, trimmed.
pub open spec fn optional(cell: Seq<char>) -> Option<Seq<char>> {
    if trimmed(shown(cell)) == ABSENT@ {
        None
    } else {
        Some(trimmed(cell))
    }
}

/// What a cell says.
pub fn optional_text(cell: &str) -> (value: Option<String>)
    ensures
        value.deep_view() == optional(cell@),
{
    let text = strip_tags(cell);
    if same_text(trim(text.as_str()), ABSENT) {
        None
    } else {
        Some(trim(cell).to_owned())
    }
}

/// A cell never says the mark of a missing value: one that holds the mark,
/// with or without white space around it, says nothing.
pub proof fn lemma_optional_never_absent(cell: Seq<char>)
    ensures
        optional(cell) != Some(ABSENT@),
        trimmed(cell) == ABSENT@ ==> optional(cell) is None,
{
    if trimmed(cell) == ABSENT@ {
        reveal_strlit("-");
        lemma_leading_spaces_are_spaces(cell);
        let start = trim_start(cell);
        lemma_trailing_spaces_are_spaces(start);
        let before = leading_spaces(cell) as int;
        assert(trimmed(cell).len() == 1);
        assert(trimmed(cell)[0] == '-');
        assert forall|i: int| 0 <= i < cell.len() implies #[trigger] cell[i] != '<' by {
            if i >= before {
                assert(cell[i] == start[i - before]);
                if i == before {
                    assert(start[0] == trimmed(cell)[0]);
                }
            }
        }
        lemma_shown_without_tags(cell);
    }
}

/// What cell `index` says in what a search for [`ROW_PATTERN`] found.
pub open spec fn optional_cell_of(found: Option<Groups>, index: int, missing: Seq<char>) -> Result<Option<Seq<char>>, ErrorView> {
    match required(found, index, missing) {
        Ok(cell) => Ok(optional(cell)),
        Err(error) => Err(error),
    }
}

/// What cell `index` of the row in `text` says.
pub open spec fn optional_cell_in(text: Seq<char>, index: int, missing: Seq<char>) -> Result<Option<Seq<char>>, ErrorView> {
    match searched(ROW_PATTERN@, text) {
        Ok(found) => optional_cell_of(found, index, missing),
        Err(error) => Err(error),
    }
}

/// What cell `index` says in what a search for [`ROW_PATTERN`] found.
pub fn optional_cell_from(found: &Option<Vec<Option<String>>>, index: usize, missing: &str) -> (value: Result<Option<String>, PbInfoError>)
    ensures
        agrees(value, optional_cell_of(found.deep_view(), index as int, missing@)),
{
    match require(found, index, missing) {
        Ok(cell) => Ok(optional_text(cell)),
        Err(error) => Err(error),
    }
}

/// What cell `index` of the row in `string` says.
pub fn extract_optional_cell(string: &str, index: usize, missing: &str) -> (value: Result<Option<String>, PbInfoError>)
    ensures
        agrees(value, optional_cell_in(string@, index as int, missing@)),
{
    match search(ROW_PATTERN, string) {
        Ok(found) => optional_cell_from(&found, index, missing),
        Err(error) => Err(error),
    }
}

/// The time limit that `text` gives: what its fourth cell says.
pub open spec fn time_limit_in(text: Seq<char>) -> Result<Option<Seq<char>>, ErrorView> {
    optional_cell_in(text, TIME_LIMIT_CELL as int, NO_TIME_LIMIT@)
}

/// The source that `text` gives: what its sixth cell says.
pub open spec fn source_in(text: Seq<char>) -> Result<Option<Seq<char>>, ErrorView> {
    optional_cell_in(text, SOURCE_CELL as int, NO_SOURCE@)
}

/// The author that `text` gives: what its seventh cell says.
pub open spec fn author_in(text: Seq<char>) -> Result<Option<Seq<char>>, ErrorView> {
    optional_cell_in(text, AUTHOR_CELL as int, NO_AUTHOR@)
}

/// The time within which a solution has to run, if the problem sets one.
pub fn extract_time_limit(string: &str) -> (limit: Result<Option<String>, PbInfoError>)
    ensures
        agrees(limit, time_limit_in(string@)),
{
    extract_optional_cell(string, TIME_LIMIT_CELL, NO_TIME_LIMIT)
}

/// Where the problem was first set, if that is known.
pub fn extract_source(string: &str) -> (source: Result<Option<String>, PbInfoError>)
    ensures
        agrees(source, source_in(string@)),
{
    extract_optional_cell(string, SOURCE_CELL, NO_SOURCE)
}

/// Who wrote the problem, if that is known.
pub fn extract_author(string: &str) -> (author: Result<Option<String>, PbInfoError>)
    ensures
        agrees(author, author_in(string@)),
{
    extract_optional_cell(string, AUTHOR_CELL, NO_AUTHOR)
}

/// The difficulty in what a search for [`ROW_PATTERN`] found: what the
/// eighth cell says, which has to be a word that names a level.
pub open spec fn difficulty_of(found: Option<Groups>) -> Result<Option<Seq<char>>, ErrorView> {
    match optional_cell_of(found, DIFFICULTY_CELL as int, NO_DIFFICULTY@) {
        Ok(Some(word)) => if level_named(word) is Some {
            Ok(Some(word))
        } else {
            Err(ErrorView::RegexError(BAD_DIFFICULTY@))
        },
        Ok(None) => Ok(None),
        Err(error) => Err(error),
    }
}

/// The difficulty that `text` gives.
pub open spec fn difficulty_in(text: Seq<char>) -> Result<Option<Seq<char>>, ErrorView> {
    match searched(ROW_PATTERN@, text) {
        Ok(found) => difficulty_of(found),
        Err(error) => Err(error),
    }
}

/// The difficulty in what a search for [`ROW_PATTERN`] found.
pub fn difficulty_from(found: &Option<Vec<Option<String>>>) -> (word: Result<Option<String>, PbInfoError>)
    ensures
        agrees(word, difficulty_of(found.deep_view())),
{
    match optional_cell_from(found, DIFFICULTY_CELL, NO_DIFFICULTY) {
        Ok(Some(word)) => if Difficulty::from_word(word.as_str()).is_some() {
            Ok(Some(word))
        } else {
            Err(regex_error(BAD_DIFFICULTY))
        },
        Ok(None) => Ok(None),
        Err(error) => Err(error),
    }
}

/// The word for how hard the problem is, if the problem is rated.
pub fn extract_difficulty(string: &str) -> (word: Result<Option<String>, PbInfoError>)
    ensures
        agrees(word, difficulty_in(string@)),
{
    match search(ROW_PATTERN, string) {
        Ok(found) => difficulty_from(&found),
        Err(error) => Err(error),
    }
}

/// The quantity that one match of [`QUANTITY_PATTERN`] holds: its first
/// group, trimmed. A match without that group holds an empty quantity.
pub open spec fn quantity(groups: Groups) -> Seq<char> {
    match group(groups, 1) {
        Some(text) => trimmed(text),
        None => Seq::empty(),
    }
}

/// The memory limit that the quantities found in a cell make up: the two of
/// them with [`BETWEEN_QUANTITIES`] in between; where only one was found,
/// [`ABSENT`] in place of the second; nothing for any other number of them.
pub open spec fn memory_limit_of(quantities: Seq<Groups>) -> Option<Seq<char>> {
    if quantities.len() == 2 {
        Some(quantity(quantities[0]) + BETWEEN_QUANTITIES@ + quantity(quantities[1]))
    } else if quantities.len() == 1 {
        Some(quantity(quantities[0]) + BETWEEN_QUANTITIES@ + ABSENT@)
    } else {
        None
    }
}

/// The cell of the memory limit in what a search for [`ROW_PATTERN`] found.
pub open spec fn memory_cell_of(found: Option<Groups>) -> Result<Seq<char>, ErrorView> {
    required(found, MEMORY_LIMIT_CELL as int, NO_MEMORY_LIMIT@)
}

/// The memory limit that `text` gives: the quantities in its fifth cell.
pub open spec fn memory_limit_in(text: Seq<char>) -> Result<Option<Seq<char>>, ErrorView> {
    match searched(ROW_PATTERN@, text) {
        Ok(found) => match memory_cell_of(found) {
            Ok(cell) => match searched_all(QUANTITY_PATTERN@, cell) {
                Ok(quantities) => Ok(memory_limit_of(quantities)),
                Err(error) => Err(error),
            },
            Err(error) => Err(error),
        },
        Err(error) => Err(error),
    }
}

/// The quantity that one match of [`QUANTITY_PATTERN`] holds.
pub fn quantity_from(groups: &Vec<Option<String>>) -> (text: &str)
    ensures
        text@ == quantity(groups.deep_view()),
{
    match group_text(groups, 1) {
        Some(text) => trim(text),
        None => {
            proof {
                reveal_strlit("");
            }
            ""
        },
    }
}

/// The memory limit that the quantities found in a cell make up.
pub fn memory_limit_from(quantities: &Vec<Vec<Option<String>>>) -> (limit: Option<String>)
    ensures
        limit.deep_view() == memory_limit_of(quantities.deep_view()),
{
    if quantities.len() == 2 {
        let total = quantity_from(&quantities[0]);
        let stack = quantity_from(&quantities[1]);
        Some(total.to_owned().concat(BETWEEN_QUANTITIES).concat(stack))
    } else if quantities.len() == 1 {
        let total = quantity_from(&quantities[0]);
        Some(total.to_owned().concat(BETWEEN_QUANTITIES).concat(ABSENT))
    } else {
        None
    }
}

/// The cell of the memory limit in what a search for [`ROW_PATTERN`] found.
pub fn memory_cell_from<'a>(found: &'a Option<Vec<Option<String>>>) -> (cell: Result<&'a str, PbInfoError>)
    ensures
        agrees(cell, memory_cell_of(found.deep_view())),
{
    require(found, MEMORY_LIMIT_CELL, NO_MEMORY_LIMIT)
}

/// The memory that a solution may use, in all and on the stack, if the
/// problem says so.
pub fn extract_memory_limit(string: &str) -> (limit: Result<Option<String>, PbInfoError>)
    ensures
        agrees(limit, memory_limit_in(string@)),
{
    let found = match search(ROW_PATTERN, string) {
        Ok(found) => found,
        Err(error) => {
            return Err(error);
        },
    };
    let cell = match memory_cell_from(&found) {
        Ok(cell) => cell,
        Err(error) => {
            return Err(error);
        },
    };
    match search_all(QUANTITY_PATTERN, cell) {
        Ok(quantities) => Ok(memory_limit_from(&quantities)),
        Err(error) => Err(error),
    }
}

} // verus!
