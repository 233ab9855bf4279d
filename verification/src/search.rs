//! Finding a problem by its name among the results of a search.

use vstd::prelude::*;
use vstd::string::*;
use crate::error::agrees;
use crate::error::json_error;
use crate::error::ErrorView;
use crate::error::PbInfoError;
use crate::label::extract_id_from_json;
use crate::label::id_in;
use crate::problem::PbInfoProblem;
use crate::text::lowercase;
use crate::text::same_text;
use crate::text::to_lowercase;

verus! {

/// Said when the reply to a search could not be decoded.
pub const BAD_REPLY: &'static str = "Could not parse JSON response";

/// Said when a result of a search has no name.
pub const NO_VALUE: &'static str = "JSON should contain the 'value' attribute";

/// Said when the result that was looked for has no label.
pub const NO_LABEL: &'static str = "JSON should contain the 'label' attribute";

/// One result of a search, as the site sent it.
#[derive(Debug, PartialEq, Eq, Clone)]
pub struct SearchRecord {
    /// The name of a problem, if the result has one.
    pub value: Option<String>,
    /// The label of the problem, which holds its number, if the result has one.
    pub label: Option<String>,
}

/// A [`SearchRecord`] as the contracts see it.
pub struct RecordView {
    pub value: Option<Seq<char>>,
    pub label: Option<Seq<char>>,
}

impl View for SearchRecord {
    type V = RecordView;

    open spec fn view(&self) -> RecordView {
        RecordView { value: self.value.deep_view(), label: self.label.deep_view() }
    }
}

impl DeepView for SearchRecord {
    type V = RecordView;

    open spec fn deep_view(&self) -> RecordView {
        self@
    }
}

/// The reply to a search.
#[derive(Debug, PartialEq, Eq, Clone)]
pub enum SearchReply {
    /// The results, in the order in which the site sent them.
    Records(Vec<SearchRecord>),
    /// Something that could not be decoded as a list of results.
    Malformed,
}

/// A [`SearchReply`] as the contracts see it.
pub enum ReplyView {
    Records(Seq<RecordView>),
    Malformed,
}

impl View for SearchReply {
    type V = ReplyView;

    open spec fn view(&self) -> ReplyView {
        match self {
            SearchReply::Records(records) => ReplyView::Records(records.deep_view()),
            SearchReply::Malformed => ReplyView::Malformed,
        }
    }
}

/// What a result means for the search for `name`, where `key` is the name
/// of the result in the form by which names are compared. A result of
/// another name is passed over. The result of that name ends the search: with
/// the number in its label, or with an error where it has no label or no
/// number can be read from it.
pub open spec fn examined(name: Seq<char>, key: Seq<char>, label: Option<Seq<char>>) -> Result<Option<usize>, ErrorView> {
    if key == name {
        match label {
            Some(label) => match id_in(label) {
                Ok(id) => Ok(Some(id)),
                Err(error) => Err(error),
            },
            None => Err(ErrorView::JSONError(NO_LABEL@)),
        }
    } else {
        Ok(None)
    }
}

/// The outcome of going through `records` in search of `name`, which is in
/// lower case, after the names in `passed` were passed over. A result
/// without a name ends the search with an error. So does the end of the list:
/// the error then holds `name` and every name that was passed over.
pub open spec fn scanned(name: Seq<char>, records: Seq<RecordView>, passed: Seq<Seq<char>>) -> Result<usize, ErrorView>
    decreases records.len(),
{
    if records.len() == 0 {
        Err(ErrorView::UnknownName(name, passed))
    } else {
        match records[0].value {
            Some(value) => match examined(name, lowercase(value), records[0].label) {
                Ok(Some(id)) => Ok(id),
                Ok(None) => scanned(name, records.drop_first(), passed.push(value)),
                Err(error) => Err(error),
            },
            None => Err(ErrorView::JSONError(NO_VALUE@)),
        }
    }
}

/// The number of the problem called `name` according to `reply`. Names are
/// compared in lower case, and the first result of that name counts.
pub open spec fn resolved(name: Seq<char>, reply: ReplyView) -> Result<usize, ErrorView> {
    match reply {
        ReplyView::Records(records) => scanned(lowercase(name), records, Seq::empty()),
        ReplyView::Malformed => Err(ErrorView::JSONError(BAD_REPLY@)),
    }
}

/// The names of `records`, in order. It is meant for records that all have one.
pub open spec fn names(records: Seq<RecordView>) -> Seq<Seq<char>> {
    Seq::new(records.len(), |i: int| records[i].value->0)
}

/// Whether no record of `records` lacks a name or is called `name`, where
/// names are compared in lower case.
pub open spec fn none_named(name: Seq<char>, records: Seq<RecordView>) -> bool {
    forall|i: int|
        0 <= i < records.len() ==> (#[trigger] records[i]).value is Some && lowercase(
            records[i].value->0,
        ) != lowercase(name)
}

/// Going through records of which none is called `name` ends with the error
/// that holds the names passed over before and then theirs, in order.
proof fn lemma_scanned_without_match(name: Seq<char>, records: Seq<RecordView>, passed: Seq<Seq<char>>)
    requires
        forall|i: int|
            0 <= i < records.len() ==> (#[trigger] records[i]).value is Some && lowercase(
                records[i].value->0,
            ) != name,
    ensures
        scanned(name, records, passed) == Err::<usize, ErrorView>(
            ErrorView::UnknownName(name, passed + names(records)),
        ),
    decreases records.len(),
{
    if records.len() == 0 {
        assert(passed + names(records) == passed);
    } else {
        let first = records[0];
        let rest = records.drop_first();
        assert forall|i: int| 0 <= i < rest.len() implies (#[trigger] rest[i]).value is Some
            && lowercase(rest[i].value->0) != name by {
            assert(rest[i] == records[i + 1]);
        }
        lemma_scanned_without_match(name, rest, passed.push(first.value->0));
        assert(passed.push(first.value->0) + names(rest) == passed + names(records)) by {
            let left = passed.push(first.value->0) + names(rest);
            let right = passed + names(records);
            assert(left.len() == right.len());
            assert forall|k: int| 0 <= k < left.len() implies left[k] == right[k] by {
                if k > passed.len() {
                    assert(rest[k - passed.len() - 1] == records[k - passed.len()]);
                }
            }
        }
    }
}

/// Where every result has a name and none is called `name`, upper and lower
/// case set aside, the search fails with the error for an unknown name,
/// which holds `name` in lower case and the name of every result, in the
/// order of the reply.
pub proof fn lemma_unknown_name_lists_all(name: Seq<char>, records: Seq<RecordView>)
    requires
        none_named(name, records),
    ensures
        resolved(name, ReplyView::Records(records)) == Err::<usize, ErrorView>(
            ErrorView::UnknownName(lowercase(name), names(records)),
        ),
{
    lemma_scanned_without_match(lowercase(name), records, Seq::empty());
    assert(Seq::<Seq<char>>::empty() + names(records) == names(records));
}

/// What a result means for the search for `name`.
pub fn examine(name: &str, key: &str, label: &Option<String>) -> (outcome: Result<Option<usize>, PbInfoError>)
    ensures
        agrees(outcome, examined(name@, key@, label.deep_view())),
{
    if same_text(key, name) {
        match label {
            Some(label) => match extract_id_from_json(label.as_str()) {
                Ok(id) => Ok(Some(id)),
                Err(error) => Err(error),
            },
            None => Err(json_error(NO_LABEL)),
        }
    } else {
        Ok(None)
    }
}

impl PbInfoProblem {
    /// The number of the problem called `name`, from the reply to the search
    /// for that name. The problem itself is then had from
    /// [`PbInfoProblem::fetch_problem_by_id`].
    pub fn fetch_problem_by_name(name: &str, reply: &SearchReply) -> (id: Result<usize, PbInfoError>)
        ensures
            agrees(id, resolved(name@, reply@)),
    {
        let lowered = to_lowercase(name);
        let records = match reply {
            SearchReply::Records(records) => records,
            SearchReply::Malformed => {
                return Err(json_error(BAD_REPLY));
            },
        };
        let mut passed: Vec<String> = Vec::new();
        let mut i: usize = 0;
        proof {
            assert(records.deep_view().skip(0) == records.deep_view());
            assert(passed.deep_view() == Seq::<Seq<char>>::empty());
        }
        while i < records.len()
            invariant
                i <= records.len(),
                lowered@ == lowercase(name@),
                reply@ == ReplyView::Records(records.deep_view()),
                scanned(lowered@, records.deep_view(), Seq::empty()) == scanned(
                    lowered@,
                    records.deep_view().skip(i as int),
                    passed.deep_view(),
                ),
            decreases records.len() - i,
        {
            let record = &records[i];
            let ghost rest = records.deep_view().skip(i as int);
            let ghost before = passed.deep_view();
            proof {
                assert(rest[0] == record@);
                assert(rest.drop_first() == records.deep_view().skip(i + 1));
            }
            let value = match &record.value {
                Some(value) => value,
                None => {
                    return Err(json_error(NO_VALUE));
                },
            };
            let key = to_lowercase(value.as_str());
            match examine(lowered.as_str(), key.as_str(), &record.label) {
                Ok(Some(id)) => {
                    return Ok(id);
                },
                Ok(None) => {
                    passed.push(value.clone());
                    proof {
                        assert(passed.deep_view() == before.push(value@));
                    }
                },
                Err(error) => {
                    return Err(error);
                },
            }
            i = i + 1;
        }
        Err(PbInfoError::UnknownName(lowered, passed))
    }
}

} // verus!
