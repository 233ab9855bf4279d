//! A problem and the parts it is made of.

use vstd::prelude::*;
use crate::text::same_text;

verus! {

/// Where a problem reads its input from, or writes its output to.
#[derive(Debug, PartialEq, Eq, Clone)]
pub enum IOSource {
    /// A file of this name.
    File(String),
    /// The keyboard, for input; the screen, for output.
    Std,
}

/// An [`IOSource`] as the contracts see it.
pub enum SourceView {
    File(Seq<char>),
    Std,
}

impl View for IOSource {
    type V = SourceView;

    open spec fn view(&self) -> SourceView {
        match self {
            IOSource::File(name) => SourceView::File(name@),
            IOSource::Std => SourceView::Std,
        }
    }
}

impl DeepView for IOSource {
    type V = SourceView;

    open spec fn deep_view(&self) -> SourceView {
        self@
    }
}

/// How hard a problem is.
#[derive(Debug, PartialEq, Eq, Clone, Copy)]
pub enum Difficulty {
    Easy,
    Medium,
    Difficult,
    Contest,
}

impl View for Difficulty {
    type V = Difficulty;

    open spec fn view(&self) -> Difficulty {
        *self
    }
}

impl DeepView for Difficulty {
    type V = Difficulty;

    open spec fn deep_view(&self) -> Difficulty {
        *self
    }
}

/// The word for an easy problem.
pub const EASY: &'static str = "ușoară";

/// The word for a problem of medium difficulty.
pub const MEDIUM: &'static str = "medie";

/// The word for a difficult problem.
pub const DIFFICULT: &'static str = "dificilă";

/// The word for a problem set at a contest.
pub const CONTEST: &'static str = "concurs";

/// The word that the site writes for `level`.
pub open spec fn level_word(level: Difficulty) -> Seq<char> {
    match level {
        Difficulty::Easy => EASY@,
        Difficulty::Medium => MEDIUM@,
        Difficulty::Difficult => DIFFICULT@,
        Difficulty::Contest => CONTEST@,
    }
}

/// The level that `word` names. Only the four words of the site name one.
pub open spec fn level_named(word: Seq<char>) -> Option<Difficulty> {
    if word == EASY@ {
        Some(Difficulty::Easy)
    } else if word == MEDIUM@ {
        Some(Difficulty::Medium)
    } else if word == DIFFICULT@ {
        Some(Difficulty::Difficult)
    } else if word == CONTEST@ {
        Some(Difficulty::Contest)
    } else {
        None
    }
}

/// Each level is the one that its own word names.
pub proof fn lemma_level_word_names_level(level: Difficulty)
    ensures
        level_named(level_word(level)) == Some(level),
{
    reveal_strlit("ușoară");
    reveal_strlit("medie");
    reveal_strlit("dificilă");
    reveal_strlit("concurs");
    assert(EASY@.len() == 6);
    assert(MEDIUM@.len() == 5);
    assert(DIFFICULT@.len() == 8);
    assert(CONTEST@.len() == 7);
}

impl Difficulty {
    /// The word that the site writes for this level.
    pub fn word(&self) -> (word: &'static str)
        ensures
            word@ == level_word(*self),
    {
        match self {
            Difficulty::Easy => EASY,
            Difficulty::Medium => MEDIUM,
            Difficulty::Difficult => DIFFICULT,
            Difficulty::Contest => CONTEST,
        }
    }

    /// The level that `word` names, if it names one.
    pub fn from_word(word: &str) -> (level: Option<Difficulty>)
        ensures
            level == level_named(word@),
    {
        if same_text(word, EASY) {
            Some(Difficulty::Easy)
        } else if same_text(word, MEDIUM) {
            Some(Difficulty::Medium)
        } else if same_text(word, DIFFICULT) {
            Some(Difficulty::Difficult)
        } else if same_text(word, CONTEST) {
            Some(Difficulty::Contest)
        } else {
            None
        }
    }
}

/// What a cell of the table holds when the problem has no such value.
pub const ABSENT: &'static str = "-";

/// A problem of the site.
#[derive(Debug, PartialEq, Eq, Clone)]
pub struct PbInfoProblem {
    /// The number of the problem.
    pub id: usize,
    /// The name of the problem, in lower case.
    pub name: String,
    /// The HTML of the statement.
    pub text: String,
    /// The HTML of the table that describes the problem, from which the
    /// fields below were read.
    pub meta_text: String,
    pub input_source: IOSource,
    pub output_source: IOSource,
    /// The school grade that the problem is meant for.
    pub grade: usize,
    pub time_limit: Option<String>,
    pub memory_limit: Option<String>,
    pub difficulty: Option<Difficulty>,
    pub author: Option<String>,
    pub source: Option<String>,
}

/// A [`PbInfoProblem`] as the contracts see it.
pub struct ProblemView {
    pub id: usize,
    pub name: Seq<char>,
    pub text: Seq<char>,
    pub meta_text: Seq<char>,
    pub input_source: SourceView,
    pub output_source: SourceView,
    pub grade: usize,
    pub time_limit: Option<Seq<char>>,
    pub memory_limit: Option<Seq<char>>,
    pub difficulty: Option<Difficulty>,
    pub author: Option<Seq<char>>,
    pub source: Option<Seq<char>>,
}

impl View for PbInfoProblem {
    type V = ProblemView;

    open spec fn view(&self) -> ProblemView {
        ProblemView {
            id: self.id,
            name: self.name@,
            text: self.text@,
            meta_text: self.meta_text@,
            input_source: self.input_source@,
            output_source: self.output_source@,
            grade: self.grade,
            time_limit: self.time_limit.deep_view(),
            memory_limit: self.memory_limit.deep_view(),
            difficulty: self.difficulty,
            author: self.author.deep_view(),
            source: self.source.deep_view(),
        }
    }
}

impl DeepView for PbInfoProblem {
    type V = ProblemView;

    open spec fn deep_view(&self) -> ProblemView {
        self@
    }
}

impl ProblemView {
    /// What holds of every problem that was read from a page: the grade is
    /// at least one, and no field holds the mark of a missing value.
    pub open spec fn wf(self) -> bool {
        &&& self.grade > 0
        &&& self.time_limit != Some(ABSENT@)
        &&& self.source != Some(ABSENT@)
        &&& self.author != Some(ABSENT@)
    }
}

} // verus!
