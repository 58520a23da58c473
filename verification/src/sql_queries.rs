//! The query gateway: one correlated read over the store's joined tables.
//!
//! `SqlClient` holds the store's observable content as a snapshot: the flat
//! joined rows the correlated read ranges over, plus the per-(account,
//! direction) faults the store would answer with. A fetch either fails with
//! the store's error or returns exactly the rows the query's conditions
//! select: a successful execution outcome, the requested account in the
//! requested role on the receipt, and a block timestamp inside the half-open
//! range. The real connection pool and the wire protocol live outside the
//! library; they hand rows and faults in through this snapshot's shape.

use vstd::prelude::*;

use crate::errors::{Direction, StoreError};
use crate::records::{names, record_views, TransactionRecord, TransactionRecordV};
use crate::time::{in_report_range, nanos_in_range};

verus! {

/// A fault the store answers with when a query touches `account` in the
/// role given by `direction`.
#[derive(Clone, Debug, PartialEq, Eq)]
pub struct Fault {
    pub account: String,
    pub direction: Direction,
    pub error: StoreError,
}

pub ghost struct FaultV {
    pub account: Seq<char>,
    pub direction: Direction,
    pub error: StoreError,
}

impl View for Fault {
    type V = FaultV;

    open spec fn view(&self) -> FaultV {
        FaultV { account: self.account@, direction: self.direction, error: self.error }
    }
}

/// The views of a sequence of faults, element by element.
pub open spec fn fault_views(s: Seq<Fault>) -> Seq<FaultV> {
    s.map_values(|f: Fault| f@)
}

/// The store as the gateway observes it: the joined rows a read ranges
/// over, and the faults pending against (account, direction) pairs.
#[derive(Clone, Debug)]
pub struct SqlClient {
    rows: Vec<TransactionRecord>,
    faults: Vec<Fault>,
}

pub ghost struct SqlClientV {
    pub rows: Seq<TransactionRecordV>,
    pub faults: Seq<FaultV>,
}

impl View for SqlClient {
    type V = SqlClientV;

    closed spec fn view(&self) -> SqlClientV {
        SqlClientV { rows: record_views(self.rows@), faults: fault_views(self.faults@) }
    }
}

/// The row's execution outcome is present and in the fixed success set.
pub open spec fn successful_outcome(r: TransactionRecordV) -> bool {
    match r.execution_outcome {
        Some(eo) => eo.status == "SUCCESS_RECEIPT_ID"@ || eo.status == "SUCCESS_VALUE"@,
        None => false,
    }
}

/// The row's including block is present and its timestamp falls in the
/// half-open range `[start_sec, end_sec)`.
pub open spec fn record_in_range(r: TransactionRecordV, start_sec: u64, end_sec: u64) -> bool {
    match r.block {
        Some(b) => in_report_range(b.block_timestamp, start_sec, end_sec),
        None => false,
    }
}

/// The account the query matches on the receipt: the predecessor for an
/// outgoing fetch, the receiver for an incoming one. A row without a
/// receipt matches neither direction.
pub open spec fn role_account(r: TransactionRecordV, direction: Direction) -> Option<Seq<char>> {
    match r.receipt {
        Some(rc) => match direction {
            Direction::Outgoing => Some(rc.predecessor_account_id),
            Direction::Incoming => Some(rc.receiver_account_id),
        },
        None => None,
    }
}

/// The query's conditions on one row: a successful outcome, a block
/// timestamp inside the half-open range, and the account in the requested
/// role among the requested accounts.
pub open spec fn record_match(
    r: TransactionRecordV,
    accounts: Seq<Seq<char>>,
    start_sec: u64,
    end_sec: u64,
    direction: Direction,
) -> bool {
    &&& successful_outcome(r)
    &&& record_in_range(r, start_sec, end_sec)
    &&& match role_account(r, direction) {
        Some(a) => accounts.contains(a),
        None => false,
    }
}

/// Exactly the rows a fetch returns, in store order: the subsequence of
/// `rows` whose members meet the query's conditions.
pub open spec fn matching_rows(
    rows: Seq<TransactionRecordV>,
    accounts: Seq<Seq<char>>,
    start_sec: u64,
    end_sec: u64,
    direction: Direction,
) -> Seq<TransactionRecordV>
    decreases rows.len(),
{
    if rows.len() == 0 {
        Seq::empty()
    } else {
        let rest = matching_rows(rows.drop_last(), accounts, start_sec, end_sec, direction);
        if record_match(rows.last(), accounts, start_sec, end_sec, direction) {
            rest.push(rows.last())
        } else {
            rest
        }
    }
}

/// What an outgoing fetch returns over the given rows.
pub open spec fn outgoing_rows(
    rows: Seq<TransactionRecordV>,
    accounts: Seq<Seq<char>>,
    start_sec: u64,
    end_sec: u64,
) -> Seq<TransactionRecordV> {
    matching_rows(rows, accounts, start_sec, end_sec, Direction::Outgoing)
}

/// What an incoming fetch returns over the given rows.
pub open spec fn incoming_rows(
    rows: Seq<TransactionRecordV>,
    accounts: Seq<Seq<char>>,
    start_sec: u64,
    end_sec: u64,
) -> Seq<TransactionRecordV> {
    matching_rows(rows, accounts, start_sec, end_sec, Direction::Incoming)
}

/// The first pending fault that a query for `accounts` in role `direction`
/// runs into, if any.
pub open spec fn query_fault(
    faults: Seq<FaultV>,
    accounts: Seq<Seq<char>>,
    direction: Direction,
) -> Option<StoreError>
    decreases faults.len(),
{
    if faults.len() == 0 {
        None
    } else if faults[0].direction == direction && accounts.contains(faults[0].account) {
        Some(faults[0].error)
    } else {
        query_fault(faults.drop_first(), accounts, direction)
    }
}

/// Whether one of the given account names is `name`.
fn contains_account(accounts: &Vec<String>, name: &String) -> (b: bool)
    ensures
        b == names(accounts@).contains(name@),
{
    let mut i: usize = 0;
    while i < accounts.len()
        invariant
            i <= accounts.len(),
            forall|k: int| 0 <= k < i ==> accounts@[k]@ != name@,
        decreases accounts.len() - i,
    {
        if accounts[i] == *name {
            proof {
                assert(names(accounts@)[i as int] == name@);
            }
            return true;
        }
        i = i + 1;
    }
    proof {
        assert forall|j: int| 0 <= j < names(accounts@).len() implies names(accounts@)[j]
            != name@ by {
            assert(names(accounts@)[j] == accounts@[j]@);
        }
    }
    false
}

/// Whether a status string is in the fixed success set.
fn is_success_status(status: &String) -> (b: bool)
    ensures
        b == (status@ == "SUCCESS_RECEIPT_ID"@ || status@ == "SUCCESS_VALUE"@),
{
    let receipt_id: String = "SUCCESS_RECEIPT_ID".to_owned();
    let value: String = "SUCCESS_VALUE".to_owned();
    *status == receipt_id || *status == value
}

/// Decides the query's conditions on one row.
fn record_matches(
    r: &TransactionRecord,
    accounts: &Vec<String>,
    start_sec: u64,
    end_sec: u64,
    direction: Direction,
) -> (b: bool)
    ensures
        b == record_match(r@, names(accounts@), start_sec, end_sec, direction),
{
    let ok_status = match &r.execution_outcome {
        Some(eo) => is_success_status(&eo.status),
        None => false,
    };
    let ok_range = match &r.block {
        Some(bl) => nanos_in_range(bl.block_timestamp, start_sec, end_sec),
        None => false,
    };
    let ok_account = match &r.receipt {
        Some(rc) => match direction {
            Direction::Outgoing => contains_account(accounts, &rc.predecessor_account_id),
            Direction::Incoming => contains_account(accounts, &rc.receiver_account_id),
        },
        None => false,
    };
    ok_status && ok_range && ok_account
}

impl SqlClient {
    /// A gateway over the given store content.
    pub fn new(rows: Vec<TransactionRecord>, faults: Vec<Fault>) -> (c: SqlClient)
        ensures
            c@.rows == record_views(rows@),
            c@.faults == fault_views(faults@),
    {
        SqlClient { rows, faults }
    }

    /// The first pending fault this query would run into, if any.
    fn find_query_fault(&self, accounts: &Vec<String>, direction: Direction) -> (r: Option<
        StoreError,
    >)
        ensures
            r == query_fault(self@.faults, names(accounts@), direction),
    {
        let ghost fv = self@.faults;
        let ghost accs = names(accounts@);
        proof {
            assert(fv.skip(0) =~= fv);
        }
        let mut i: usize = 0;
        while i < self.faults.len()
            invariant
                i <= self.faults.len(),
                fv == fault_views(self.faults@),
                accs == names(accounts@),
                query_fault(fv.skip(i as int), accs, direction) == query_fault(fv, accs, direction),
            decreases self.faults.len() - i,
        {
            proof {
                assert(fv.skip(i as int)[0] == fv[i as int]);
                assert(fv[i as int] == self.faults@[i as int]@);
            }
            let matches_direction = self.faults[i].direction == direction;
            let matches_account = contains_account(accounts, &self.faults[i].account);
            if matches_direction && matches_account {
                return Some(self.faults[i].error);
            }
            proof {
                assert(fv.skip(i as int).drop_first() =~= fv.skip(i + 1 as int));
            }
            i = i + 1;
        }
        proof {
            assert(fv.skip(self.faults@.len() as int) =~= Seq::<FaultV>::empty());
        }
        None
    }

    /// One correlated read: the store's pending fault for this query if
    /// there is one, otherwise exactly the rows the query's conditions
    /// select, in store order.
    fn fetch(&self, accounts: &Vec<String>, start_sec: u64, end_sec: u64, direction: Direction)
        -> (r: Result<Vec<TransactionRecord>, StoreError>)
        ensures
            match r {
                Ok(rows) => query_fault(self@.faults, names(accounts@), direction) is None
                    && record_views(rows@) == matching_rows(
                    self@.rows,
                    names(accounts@),
                    start_sec,
                    end_sec,
                    direction,
                ),
                Err(e) => query_fault(self@.faults, names(accounts@), direction) == Some(e),
            },
    {
        if let Some(e) = self.find_query_fault(accounts, direction) {
            return Err(e);
        }
        let ghost all = self@.rows;
        let ghost accs = names(accounts@);
        let mut out: Vec<TransactionRecord> = Vec::new();
        let mut i: usize = 0;
        while i < self.rows.len()
            invariant
                i <= self.rows.len(),
                all == record_views(self.rows@),
                accs == names(accounts@),
                query_fault(self@.faults, names(accounts@), direction) is None,
                record_views(out@) == matching_rows(
                    all.take(i as int),
                    accs,
                    start_sec,
                    end_sec,
                    direction,
                ),
            decreases self.rows.len() - i,
        {
            proof {
                assert(all[i as int] == self.rows@[i as int]@);
                assert(all.take(i + 1 as int).drop_last() =~= all.take(i as int));
                assert(all.take(i + 1 as int).last() == all[i as int]);
            }
            let keep = record_matches(&self.rows[i], accounts, start_sec, end_sec, direction);
            if keep {
                let d = self.rows[i].duplicate();
                proof {
                    crate::records::lemma_record_views_push(out@, d);
                }
                out.push(d);
            }
            i = i + 1;
        }
        proof {
            assert(all.take(all.len() as int) =~= all);
        }
        Ok(out)
    }

    /// Rows where the requested accounts originated the flow: the receipt's
    /// predecessor account is one of `accounts`. `start_sec` is inclusive,
    /// `end_sec` exclusive; only successfully executed rows are returned,
    /// and an empty account set yields an empty sequence, not an error.
    pub fn get_outgoing_txns(&self, accounts: &Vec<String>, start_sec: u64, end_sec: u64) -> (r:
        Result<Vec<TransactionRecord>, StoreError>)
        ensures
            match r {
                Ok(rows) => query_fault(self@.faults, names(accounts@), Direction::Outgoing)
                    is None && record_views(rows@) == outgoing_rows(
                    self@.rows,
                    names(accounts@),
                    start_sec,
                    end_sec,
                ),
                Err(e) => query_fault(self@.faults, names(accounts@), Direction::Outgoing) == Some(
                    e,
                ),
            },
    {
        self.fetch(accounts, start_sec, end_sec, Direction::Outgoing)
    }

    /// Rows where the requested accounts received the flow: the receipt's
    /// receiver account is one of `accounts`. `start_sec` is inclusive,
    /// `end_sec` exclusive; only successfully executed rows are returned,
    /// and an empty account set yields an empty sequence, not an error.
    pub fn get_incoming_txns(&self, accounts: &Vec<String>, start_sec: u64, end_sec: u64) -> (r:
        Result<Vec<TransactionRecord>, StoreError>)
        ensures
            match r {
                Ok(rows) => query_fault(self@.faults, names(accounts@), Direction::Incoming)
                    is None && record_views(rows@) == incoming_rows(
                    self@.rows,
                    names(accounts@),
                    start_sec,
                    end_sec,
                ),
                Err(e) => query_fault(self@.faults, names(accounts@), Direction::Incoming) == Some(
                    e,
                ),
            },
    {
        self.fetch(accounts, start_sec, end_sec, Direction::Incoming)
    }
}

} // verus!
