//! Track-and-trace state of a supply-chain daemon, the errors it reports,
//! and the decisions its REST API makes on top of them.
//!
//! The track-and-trace tables keep every version of every entity: a row is
//! the current version while its `end_commit_num` equals [`MAX_COMMIT_NUM`],
//! and writing a new version first closes the current ones at the new
//! version's start commit.
use vstd::prelude::*;

pub mod versioned;
pub mod table;
pub mod models;
pub mod track_and_trace;
pub mod laws;
pub mod event_error;
pub mod rest_api_error;
pub mod agents;

verus! {

/// The `end_commit_num` of a row that is still the current version.
pub const MAX_COMMIT_NUM: i64 = 9223372036854775807i64;

/// The message `prefix` followed by `detail`.
pub fn prefixed(prefix: &str, detail: &str) -> (r: String)
    ensures
        r@ == prefix@ + detail@,
{
    String::from_str(prefix).concat(detail)
}

} // verus!
