//! Error taxonomy of the report builder.
//!
//! A `StoreError` is a failure of the query-execution capability itself;
//! a `SchedulingError` is the concurrency substrate failing to run a
//! subtask to completion. Both are always attributable to one
//! (account, direction) subtask and are reported, never propagated as a
//! failure of the whole report.

use vstd::prelude::*;

verus! {

/// Which account role a fetch matches: `Incoming` matches the receipt's
/// receiver account, `Outgoing` the receipt's predecessor account.
#[derive(Clone, Copy, Debug, PartialEq, Eq, Structural)]
pub enum Direction {
    Incoming,
    Outgoing,
}

/// Why the store failed to answer a query.
#[derive(Clone, Copy, Debug, PartialEq, Eq, Structural)]
pub enum StoreError {
    ConnectionLost,
    MalformedQuery,
    Timeout,
}

/// A subtask-level failure: either the store call failed, or the subtask
/// itself was never run to completion.
#[derive(Clone, Copy, Debug, PartialEq, Eq, Structural)]
pub enum TtaError {
    DatabaseError(StoreError),
    SchedulingError,
}

/// One recorded subtask failure of a report, with the account and the
/// direction the failing subtask was fetching.
#[derive(Clone, Debug, PartialEq, Eq)]
pub struct Failure {
    pub account: String,
    pub direction: Direction,
    pub error: TtaError,
}

pub ghost struct FailureV {
    pub account: Seq<char>,
    pub direction: Direction,
    pub error: TtaError,
}

impl View for Failure {
    type V = FailureV;

    open spec fn view(&self) -> FailureV {
        FailureV { account: self.account@, direction: self.direction, error: self.error }
    }
}

/// The views of a sequence of failures, element by element.
pub open spec fn failure_views(s: Seq<Failure>) -> Seq<FailureV> {
    s.map_values(|f: Failure| f@)
}

pub proof fn lemma_failure_views_push(s: Seq<Failure>, f: Failure)
    ensures
        failure_views(s.push(f)) == failure_views(s).push(f@),
{
    assert(failure_views(s.push(f)) =~= failure_views(s).push(f@));
}

} // verus!
