//! Searches with regular expressions. The `regex` crate runs them; what it
//! finds is handed on as plain strings.

use vstd::prelude::*;
use crate::error::agrees;
use crate::error::ErrorView;
use crate::error::PbInfoError;

verus! {

/// `regex::Error`, which says why a pattern did not compile. It is handed on
/// unopened.
#[verifier::external_type_specification]
#[verifier::external_body]
pub struct ExPatternError(regex::Error);

/// What one match captured: for each group of the pattern, in the order of
/// the opening brackets, the text that the group matched, or nothing where
/// the group took no part in the match. Group 0 is the whole match.
pub type Groups = Seq<Option<Seq<char>>>;

/// Whether `regex::Regex::new` accepts `pattern`: whether the pattern is
/// well formed and compiles within the size that the crate allows by default.
pub uninterp spec fn pattern_compiles(pattern: Seq<char>) -> bool;

/// What `regex::Regex::captures` returns for `text` once `pattern` is
/// compiled: the groups of the leftmost match, or nothing where `text` holds
/// no match.
pub uninterp spec fn first_match(pattern: Seq<char>, text: Seq<char>) -> Option<Seq<Option<Seq<char>>>>;

/// What `regex::Regex::captures_iter` hands out for `text` once `pattern` is
/// compiled: the groups of each match, the matches from left to right.
pub uninterp spec fn all_matches(pattern: Seq<char>, text: Seq<char>) -> Seq<Seq<Option<Seq<char>>>>;

/// Compiles `pattern` with `regex::Regex::new` and looks for its first match
/// in `text` with `Regex::captures`. Fails exactly when the pattern does not
/// compile. Otherwise the result is what `captures` found, each group
/// (`Captures::iter`) copied out as a string (`Match::as_str`).
#[verifier::external_body]
pub(crate) fn captures(pattern: &str, text: &str) -> (found: Result<Option<Vec<Option<String>>>, regex::Error>)
    ensures
        found is Ok <==> pattern_compiles(pattern@),
        found matches Ok(groups) ==> groups.deep_view() == first_match(pattern@, text@),
{
    let compiled = regex::Regex::new(pattern)?;
    Ok(compiled.captures(text).map(|m| m.iter().map(|g| g.map(|t| t.as_str().to_owned())).collect()))
}

/// Compiles `pattern` with `regex::Regex::new` and collects every match in
/// `text` that `Regex::captures_iter` hands out. Fails exactly when the
/// pattern does not compile. Otherwise the result holds the matches in the
/// order in which they came, each group (`Captures::iter`) copied out as a
/// string (`Match::as_str`).
#[verifier::external_body]
pub(crate) fn captures_iter(pattern: &str, text: &str) -> (found: Result<Vec<Vec<Option<String>>>, regex::Error>)
    ensures
        found is Ok <==> pattern_compiles(pattern@),
        found matches Ok(matches) ==> matches.deep_view() == all_matches(pattern@, text@),
{
    let compiled = regex::Regex::new(pattern)?;
    Ok(compiled.captures_iter(text).map(|m| m.iter().map(|g| g.map(|t| t.as_str().to_owned())).collect()).collect())
}

/// What an error says when a pattern of the library does not compile.
pub const INVALID_PATTERN: &'static str = "The pattern is not a valid regular expression";

/// The outcome of looking for the first match of `pattern` in `text`.
pub open spec fn searched(pattern: Seq<char>, text: Seq<char>) -> Result<Option<Groups>, ErrorView> {
    if pattern_compiles(pattern) {
        Ok(first_match(pattern, text))
    } else {
        Err(ErrorView::Error(INVALID_PATTERN@))
    }
}

/// The outcome of looking for every match of `pattern` in `text`.
pub open spec fn searched_all(pattern: Seq<char>, text: Seq<char>) -> Result<Seq<Groups>, ErrorView> {
    if pattern_compiles(pattern) {
        Ok(all_matches(pattern, text))
    } else {
        Err(ErrorView::Error(INVALID_PATTERN@))
    }
}

/// The text that group `index` of a match captured, if the pattern has such
/// a group and it took part in the match.
pub open spec fn group(groups: Groups, index: int) -> Option<Seq<char>> {
    if 0 <= index < groups.len() {
        groups[index]
    } else {
        None
    }
}

/// The text that group `index` captured in what a search found, if it found
/// a match and the group took part in it.
pub open spec fn found_group(found: Option<Groups>, index: int) -> Option<Seq<char>> {
    match found {
        Some(groups) => group(groups, index),
        None => None,
    }
}

/// Looks for the first match of `pattern` in `text`.
pub fn search(pattern: &str, text: &str) -> (found: Result<Option<Vec<Option<String>>>, PbInfoError>)
    ensures
        agrees(found, searched(pattern@, text@)),
{
    match captures(pattern, text) {
        Ok(groups) => Ok(groups),
        Err(_) => Err(PbInfoError::Error(INVALID_PATTERN.to_owned())),
    }
}

/// Looks for every match of `pattern` in `text`.
pub fn search_all(pattern: &str, text: &str) -> (found: Result<Vec<Vec<Option<String>>>, PbInfoError>)
    ensures
        agrees(found, searched_all(pattern@, text@)),
{
    match captures_iter(pattern, text) {
        Ok(matches) => Ok(matches),
        Err(_) => Err(PbInfoError::Error(INVALID_PATTERN.to_owned())),
    }
}

/// The text that group `index` of a match captured.
pub fn group_text(groups: &Vec<Option<String>>, index: usize) -> (text: Option<&str>)
    ensures
        text.deep_view() == group(groups.deep_view(), index as int),
{
    if index < groups.len() {
        match &groups[index] {
            Some(text) => Some(text.as_str()),
            None => None,
        }
    } else {
        None
    }
}

/// The text that group `index` captured in what a search found.
pub fn found_text(found: &Option<Vec<Option<String>>>, index: usize) -> (text: Option<&str>)
    ensures
        text.deep_view() == found_group(found.deep_view(), index as int),
{
    match found {
        Some(groups) => group_text(groups, index),
        None => None,
    }
}

} // verus!
