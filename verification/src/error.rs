//! The ways in which looking up a problem can fail.

use vstd::prelude::*;

verus! {

/// Why a problem could not be had.
#[derive(Debug, PartialEq, Eq, Clone)]
pub enum PbInfoError {
    /// No problem has this identifier.
    UnknownId(usize),
    /// No problem has this name. The second field lists the names that the
    /// search offered in its place, in the order in which it offered them.
    UnknownName(String, Vec<String>),
    /// The site answered with something else than the page asked for.
    NetworkError(String),
    /// The reply to a search is not of the expected shape.
    JSONError(String),
    /// The HTML lacks a piece that should be in it, or holds a value
    /// that does not convert to its type.
    RegexError(String),
    /// A failure of no other kind.
    Error(String),
}

/// A [`PbInfoError`] as the contracts see it.
pub enum ErrorView {
    UnknownId(usize),
    UnknownName(Seq<char>, Seq<Seq<char>>),
    NetworkError(Seq<char>),
    JSONError(Seq<char>),
    RegexError(Seq<char>),
    Error(Seq<char>),
}

impl View for PbInfoError {
    type V = ErrorView;

    open spec fn view(&self) -> ErrorView {
        match self {
            PbInfoError::UnknownId(id) => ErrorView::UnknownId(*id),
            PbInfoError::UnknownName(name, offered) => ErrorView::UnknownName(
                name@,
                offered.deep_view(),
            ),
            PbInfoError::NetworkError(message) => ErrorView::NetworkError(message@),
            PbInfoError::JSONError(message) => ErrorView::JSONError(message@),
            PbInfoError::RegexError(message) => ErrorView::RegexError(message@),
            PbInfoError::Error(message) => ErrorView::Error(message@),
        }
    }
}

impl DeepView for PbInfoError {
    type V = ErrorView;

    open spec fn deep_view(&self) -> ErrorView {
        self@
    }
}

/// Whether `result` is the outcome `model`: the same value where it
/// succeeded, the same error where it failed.
pub open spec fn agrees<T: DeepView>(
    result: Result<T, PbInfoError>,
    model: Result<T::V, ErrorView>,
) -> bool {
    match (result, model) {
        (Ok(value), Ok(expected)) => value.deep_view() == expected,
        (Err(error), Err(expected)) => error@ == expected,
        _ => false,
    }
}

/// An error which says that a piece of the HTML is missing or cannot be read.
pub fn regex_error(message: &str) -> (error: PbInfoError)
    ensures
        error@ == ErrorView::RegexError(message@),
{
    PbInfoError::RegexError(message.to_owned())
}

/// An error which says that the reply to a search has the wrong shape.
pub fn json_error(message: &str) -> (error: PbInfoError)
    ensures
        error@ == ErrorView::JSONError(message@),
{
    PbInfoError::JSONError(message.to_owned())
}

} // verus!
