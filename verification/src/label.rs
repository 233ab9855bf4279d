//! The label of a search result, which names a problem by its number.

use vstd::prelude::*;
use vstd::string::*;
use crate::decimal::parse_number;
use crate::decimal::parsed;
use crate::error::agrees;
use crate::error::json_error;
use crate::error::ErrorView;
use crate::error::PbInfoError;
use crate::text::after_first_word;
use crate::text::chars_of;
use crate::text::first_word;
use crate::text::same_text;
use crate::text::string_of;
use crate::text::trim;
use crate::text::trimmed;
use crate::text::word_bounds;

verus! {

/// The word that a label begins with.
pub const KEYWORD: &'static str = "Problema";

/// Said when a label is not of the expected form.
pub const BAD_LABEL: &'static str =
    "The JSON 'label' attribute should be of the form `'Problema #{id}: <strong>{name}</strong>'`";

/// Whether `c` is one of the two marks that stand around the number in a label.
pub open spec fn is_mark(c: char) -> bool {
    c == '#' || c == ':'
}

/// `s` without the marks in it.
pub open spec fn without_marks(s: Seq<char>) -> Seq<char> {
    s.filter(|c: char| !is_mark(c))
}

/// The number of the problem that `label` names. The first word of the label
/// has to be [`KEYWORD`]; the second, once its marks are taken out and it is
/// trimmed, has to write a number.
pub open spec fn label_id(label: Seq<char>) -> Option<usize> {
    let keyword = first_word(label);
    let number = first_word(after_first_word(label));
    if keyword == KEYWORD@ && number.len() > 0 {
        parsed(trimmed(without_marks(number)))
    } else {
        None
    }
}

/// The number of the problem that `label` names, or the error that a label
/// of another form gives.
pub open spec fn id_in(label: Seq<char>) -> Result<usize, ErrorView> {
    match label_id(label) {
        Some(id) => Ok(id),
        None => Err(ErrorView::JSONError(BAD_LABEL@)),
    }
}

/// The characters of `chars` between `from` and `to` that are no marks.
fn unmarked(chars: &Vec<char>, from: usize, to: usize) -> (kept: Vec<char>)
    requires
        from <= to <= chars.len(),
    ensures
        kept@ == without_marks(chars@.subrange(from as int, to as int)),
{
    let ghost word = chars@.subrange(from as int, to as int);
    let mut kept: Vec<char> = Vec::new();
    let mut i: usize = from;
    proof {
        reveal(Seq::filter);
        assert(word.take(0) == Seq::<char>::empty());
    }
    while i < to
        invariant
            from <= i <= to <= chars.len(),
            word == chars@.subrange(from as int, to as int),
            kept@ == without_marks(word.take(i - from)),
        decreases to - i,
    {
        let c = chars[i];
        proof {
            reveal(Seq::filter);
            assert(word.take(i - from + 1).drop_last() == word.take(i - from));
            assert(word.take(i - from + 1).last() == c);
        }
        if c != '#' && c != ':' {
            kept.push(c);
        }
        i = i + 1;
    }
    proof {
        assert(word.take(to - from) == word);
    }
    kept
}

/// The number of the problem that a label of the form
/// `Problema #{id}: <strong>{name}</strong>` names.
pub fn extract_id_from_json(string: &str) -> (id: Result<usize, PbInfoError>)
    ensures
        agrees(id, id_in(string@)),
{
    let chars = chars_of(string);
    let (begin, end) = word_bounds(&chars, 0);
    proof {
        assert(chars@.skip(0) == chars@);
    }
    if !same_text(string.substring_char(begin, end), KEYWORD) {
        return Err(json_error(BAD_LABEL));
    }
    let (from, to) = word_bounds(&chars, end);
    if from == to {
        return Err(json_error(BAD_LABEL));
    }
    let number = string_of(&unmarked(&chars, from, to));
    match parse_number(trim(number.as_str())) {
        Some(id) => Ok(id),
        None => Err(json_error(BAD_LABEL)),
    }
}

} // verus!
