//! Metadata of a competitive-programming problem, read from the HTML of its page.
//!
//! Nothing here touches the network. The caller sends the requests whose
//! addresses [`problem_url`] and [`search_url`] give, and hands the replies to
//! [`PbInfoProblem::fetch_problem_by_id`] and
//! [`PbInfoProblem::fetch_problem_by_name`].

pub mod decimal;
pub mod error;
pub mod extract;
pub mod label;
pub mod page;
pub mod pattern;
pub mod problem;
pub mod search;
pub mod text;
pub mod url;

pub use crate::error::PbInfoError;
pub use crate::extract::extract_author;
pub use crate::extract::extract_difficulty;
pub use crate::extract::extract_grade;
pub use crate::extract::extract_input_source;
pub use crate::extract::extract_memory_limit;
pub use crate::extract::extract_output_source;
pub use crate::extract::extract_source;
pub use crate::extract::extract_time_limit;
pub use crate::label::extract_id_from_json;
pub use crate::page::Fragments;
pub use crate::problem::Difficulty;
pub use crate::problem::IOSource;
pub use crate::problem::PbInfoProblem;
pub use crate::search::SearchRecord;
pub use crate::search::SearchReply;
pub use crate::url::problem_url;
pub use crate::url::search_url;
