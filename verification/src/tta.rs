//! The aggregator: fan work out per account and per direction, then merge
//! partial results and partial failures into one report.
//!
//! For every account two subtasks exist, one incoming and one outgoing
//! fetch, each over the singleton set holding that account (room is left to
//! expand a subtask to associated accounts, but no expansion rule is
//! defined). Every subtask reaches a terminal state: a successful one
//! contributes its rows to the merged sequence unmodified, a failing one
//! contributes exactly one recorded failure, and neither cancels nor
//! affects its siblings. Building the report never fails as a whole.

use vstd::prelude::*;

use crate::errors::{
    failure_views, lemma_failure_views_push, Direction, Failure, FailureV, StoreError, TtaError,
};
use crate::records::{
    duplicate_records, lemma_record_views_add, names, record_views, TransactionRecord,
    TransactionRecordV,
};
use crate::sql_queries::{incoming_rows, matching_rows, outgoing_rows, query_fault, SqlClient, SqlClientV};

verus! {

/// One schedulable unit of work: fetch one direction for one account.
#[derive(Clone, Debug, PartialEq, Eq)]
pub struct TaskKey {
    pub account: String,
    pub direction: Direction,
}

pub ghost struct TaskKeyV {
    pub account: Seq<char>,
    pub direction: Direction,
}

impl View for TaskKey {
    type V = TaskKeyV;

    open spec fn view(&self) -> TaskKeyV {
        TaskKeyV { account: self.account@, direction: self.direction }
    }
}

/// The views of a sequence of task keys, element by element.
pub open spec fn task_key_views(s: Seq<TaskKey>) -> Seq<TaskKeyV> {
    s.map_values(|k: TaskKey| k@)
}

/// The subtasks spawned for the given accounts: for each account, in
/// order, one incoming and one outgoing fetch.
pub open spec fn task_keys(accounts: Seq<Seq<char>>) -> Seq<TaskKeyV>
    decreases accounts.len(),
{
    if accounts.len() == 0 {
        Seq::empty()
    } else {
        task_keys(accounts.drop_last()) + seq![
            TaskKeyV { account: accounts.last(), direction: Direction::Incoming },
            TaskKeyV { account: accounts.last(), direction: Direction::Outgoing },
        ]
    }
}

/// The store fault one subtask's query runs into, if any.
pub open spec fn task_fault(store: SqlClientV, key: TaskKeyV) -> Option<StoreError> {
    query_fault(store.faults, seq![key.account], key.direction)
}

/// The rows one subtask's query returns when no fault is pending.
pub open spec fn task_rows(
    store: SqlClientV,
    key: TaskKeyV,
    start_sec: u64,
    end_sec: u64,
) -> Seq<TransactionRecordV> {
    matching_rows(store.rows, seq![key.account], start_sec, end_sec, key.direction)
}

/// The failure recorded for a subtask whose query faulted.
pub open spec fn task_failure(store: SqlClientV, key: TaskKeyV) -> FailureV {
    FailureV {
        account: key.account,
        direction: key.direction,
        error: TtaError::DatabaseError(task_fault(store, key)->Some_0),
    }
}

/// The union, in task order, of the rows of the successful subtasks.
pub open spec fn merged_rows(
    store: SqlClientV,
    keys: Seq<TaskKeyV>,
    start_sec: u64,
    end_sec: u64,
) -> Seq<TransactionRecordV>
    decreases keys.len(),
{
    if keys.len() == 0 {
        Seq::empty()
    } else {
        merged_rows(store, keys.drop_last(), start_sec, end_sec) + (if task_fault(
            store,
            keys.last(),
        ) is Some {
            Seq::empty()
        } else {
            task_rows(store, keys.last(), start_sec, end_sec)
        })
    }
}

/// The failures, in task order, of the subtasks whose queries faulted.
pub open spec fn merged_failures(
    store: SqlClientV,
    keys: Seq<TaskKeyV>,
    start_sec: u64,
    end_sec: u64,
) -> Seq<FailureV>
    decreases keys.len(),
{
    if keys.len() == 0 {
        Seq::empty()
    } else {
        merged_failures(store, keys.drop_last(), start_sec, end_sec) + (if task_fault(
            store,
            keys.last(),
        ) is Some {
            seq![task_failure(store, keys.last())]
        } else {
            Seq::empty()
        })
    }
}

/// The merged row sequence of a whole report.
pub open spec fn report_rows(
    store: SqlClientV,
    accounts: Seq<Seq<char>>,
    start_sec: u64,
    end_sec: u64,
) -> Seq<TransactionRecordV> {
    merged_rows(store, task_keys(accounts), start_sec, end_sec)
}

/// The failure list of a whole report.
pub open spec fn report_failures(
    store: SqlClientV,
    accounts: Seq<Seq<char>>,
    start_sec: u64,
    end_sec: u64,
) -> Seq<FailureV> {
    merged_failures(store, task_keys(accounts), start_sec, end_sec)
}

/// The merged report: every row of every successful subtask, unmodified
/// and without deduplication, plus one recorded failure per failed
/// subtask.
#[derive(Clone, Debug, PartialEq, Eq)]
pub struct Report {
    pub rows: Vec<TransactionRecord>,
    pub failures: Vec<Failure>,
}

/// The rows contributed by a sequence of terminal subtask outcomes.
pub open spec fn ok_rows(
    results: Seq<(TaskKeyV, Result<Seq<TransactionRecordV>, TtaError>)>,
) -> Seq<TransactionRecordV>
    decreases results.len(),
{
    if results.len() == 0 {
        Seq::empty()
    } else {
        ok_rows(results.drop_last()) + (match results.last().1 {
            Ok(rows) => rows,
            Err(_) => Seq::empty(),
        })
    }
}

/// The failures contributed by a sequence of terminal subtask outcomes.
pub open spec fn err_failures(
    results: Seq<(TaskKeyV, Result<Seq<TransactionRecordV>, TtaError>)>,
) -> Seq<FailureV>
    decreases results.len(),
{
    if results.len() == 0 {
        Seq::empty()
    } else {
        err_failures(results.drop_last()) + (match results.last().1 {
            Ok(_) => Seq::empty(),
            Err(e) => seq![
                FailureV {
                    account: results.last().0.account,
                    direction: results.last().0.direction,
                    error: e,
                },
            ],
        })
    }
}

/// The views of a sequence of terminal subtask outcomes.
pub open spec fn outcome_views(s: Seq<(TaskKey, Result<Vec<TransactionRecord>, TtaError>)>) -> Seq<
    (TaskKeyV, Result<Seq<TransactionRecordV>, TtaError>),
> {
    s.map_values(
        |p: (TaskKey, Result<Vec<TransactionRecord>, TtaError>)|
            (
                p.0@,
                match p.1 {
                    Ok(v) => Ok(record_views(v@)),
                    Err(e) => Err(e),
                },
            ),
    )
}

/// The subtasks to spawn for the given accounts: one incoming and one
/// outgoing fetch per account, in account order.
pub fn plan_subtasks(accounts: &Vec<String>) -> (r: Vec<TaskKey>)
    ensures
        task_key_views(r@) == task_keys(names(accounts@)),
{
    let ghost nm = names(accounts@);
    let mut out: Vec<TaskKey> = Vec::new();
    let mut a: usize = 0;
    proof {
        assert(task_key_views(out@) =~= task_keys(nm.take(0)));
    }
    while a < accounts.len()
        invariant
            a <= accounts.len(),
            nm == names(accounts@),
            task_key_views(out@) == task_keys(nm.take(a as int)),
        decreases accounts.len() - a,
    {
        proof {
            assert(nm.take(a + 1 as int).drop_last() =~= nm.take(a as int));
            assert(nm.take(a + 1 as int).last() == accounts@[a as int]@);
        }
        let incoming = TaskKey { account: accounts[a].clone(), direction: Direction::Incoming };
        let outgoing = TaskKey { account: accounts[a].clone(), direction: Direction::Outgoing };
        out.push(incoming);
        out.push(outgoing);
        proof {
            assert(task_key_views(out@) =~= task_keys(nm.take(a + 1 as int)));
        }
        a = a + 1;
    }
    proof {
        assert(nm.take(nm.len() as int) =~= nm);
    }
    out
}

/// Merges terminal subtask outcomes into one report: the rows of the
/// successful outcomes in the given order, unmodified, and one failure per
/// failed outcome, keyed by the subtask's account and direction.
pub fn merge_results(results: &Vec<(TaskKey, Result<Vec<TransactionRecord>, TtaError>)>) -> (r:
    Report)
    ensures
        record_views(r.rows@) == ok_rows(outcome_views(results@)),
        failure_views(r.failures@) == err_failures(outcome_views(results@)),
{
    let ghost ov = outcome_views(results@);
    let mut rows: Vec<TransactionRecord> = Vec::new();
    let mut failures: Vec<Failure> = Vec::new();
    let mut i: usize = 0;
    proof {
        assert(record_views(rows@) =~= ok_rows(ov.take(0)));
        assert(failure_views(failures@) =~= err_failures(ov.take(0)));
    }
    while i < results.len()
        invariant
            i <= results.len(),
            ov == outcome_views(results@),
            record_views(rows@) == ok_rows(ov.take(i as int)),
            failure_views(failures@) == err_failures(ov.take(i as int)),
        decreases results.len() - i,
    {
        proof {
            assert(ov.take(i + 1 as int).drop_last() =~= ov.take(i as int));
            assert(ov.take(i + 1 as int).last() == ov[i as int]);
            assert(ov[i as int].0 == results@[i as int].0@);
        }
        let pair = &results[i];
        match &pair.1 {
            Ok(v) => {
                let mut d = duplicate_records(v);
                proof {
                    lemma_record_views_add(rows@, d@);
                }
                rows.append(&mut d);
            },
            Err(e) => {
                let f = Failure {
                    account: pair.0.account.clone(),
                    direction: pair.0.direction,
                    error: *e,
                };
                proof {
                    lemma_failure_views_push(failures@, f);
                    assert(err_failures(ov.take(i as int)).push(f@) =~= err_failures(
                        ov.take(i as int),
                    ) + seq![f@]);
                }
                failures.push(f);
            },
        }
        i = i + 1;
    }
    proof {
        assert(ov.take(ov.len() as int) =~= ov);
    }
    Report { rows, failures }
}

/// The aggregator. Its observable state is the store snapshot its gateway
/// reads from.
#[derive(Clone, Debug)]
pub struct TTA {
    sql_client: SqlClient,
}

impl View for TTA {
    type V = SqlClientV;

    closed spec fn view(&self) -> SqlClientV {
        self.sql_client@
    }
}

impl TTA {
    /// An aggregator over the given gateway.
    pub fn new(sql_client: SqlClient) -> (t: TTA)
        ensures
            t@ == sql_client@,
    {
        TTA { sql_client }
    }

    /// One incoming subtask: the gateway's incoming fetch, its store error
    /// recorded as a database failure.
    pub fn handle_incoming_txns(&self, accounts: &Vec<String>, start_sec: u64, end_sec: u64) -> (r:
        Result<Vec<TransactionRecord>, TtaError>)
        ensures
            match r {
                Ok(rows) => query_fault(self@.faults, names(accounts@), Direction::Incoming)
                    is None && record_views(rows@) == incoming_rows(
                    self@.rows,
                    names(accounts@),
                    start_sec,
                    end_sec,
                ),
                Err(e) => query_fault(self@.faults, names(accounts@), Direction::Incoming)
                    is Some && e == TtaError::DatabaseError(
                    query_fault(self@.faults, names(accounts@), Direction::Incoming)->Some_0,
                ),
            },
    {
        match self.sql_client.get_incoming_txns(accounts, start_sec, end_sec) {
            Ok(txns) => Ok(txns),
            Err(e) => Err(TtaError::DatabaseError(e)),
        }
    }

    /// One outgoing subtask: the gateway's outgoing fetch, its store error
    /// recorded as a database failure.
    pub fn handle_outgoing_txns(&self, accounts: &Vec<String>, start_sec: u64, end_sec: u64) -> (r:
        Result<Vec<TransactionRecord>, TtaError>)
        ensures
            match r {
                Ok(rows) => query_fault(self@.faults, names(accounts@), Direction::Outgoing)
                    is None && record_views(rows@) == outgoing_rows(
                    self@.rows,
                    names(accounts@),
                    start_sec,
                    end_sec,
                ),
                Err(e) => query_fault(self@.faults, names(accounts@), Direction::Outgoing)
                    is Some && e == TtaError::DatabaseError(
                    query_fault(self@.faults, names(accounts@), Direction::Outgoing)->Some_0,
                ),
            },
    {
        match self.sql_client.get_outgoing_txns(accounts, start_sec, end_sec) {
            Ok(txns) => Ok(txns),
            Err(e) => Err(TtaError::DatabaseError(e)),
        }
    }

    /// Builds the whole report for the accounts and the half-open range
    /// `[start_sec, end_sec)`: every subtask of the plan reaches a terminal
    /// state, the successful rows are merged unmodified and in task order,
    /// and each failed subtask is recorded with its account and direction.
    /// The operation itself never fails; an empty account set yields an
    /// empty report with no failures.
    pub fn get_txns_report(&self, accounts: &Vec<String>, start_sec: u64, end_sec: u64) -> (r:
        Result<Report, TtaError>)
        ensures
            r is Ok,
            record_views(r->Ok_0.rows@) == report_rows(
                self@,
                names(accounts@),
                start_sec,
                end_sec,
            ),
            failure_views(r->Ok_0.failures@) == report_failures(
                self@,
                names(accounts@),
                start_sec,
                end_sec,
            ),
    {
        let plan = plan_subtasks(accounts);
        let ghost kv = task_keys(names(accounts@));
        let mut rows: Vec<TransactionRecord> = Vec::new();
        let mut failures: Vec<Failure> = Vec::new();
        let mut i: usize = 0;
        proof {
            assert(record_views(rows@) =~= merged_rows(self@, kv.take(0), start_sec, end_sec));
            assert(failure_views(failures@) =~= merged_failures(
                self@,
                kv.take(0),
                start_sec,
                end_sec,
            ));
        }
        while i < plan.len()
            invariant
                i <= plan.len(),
                kv == task_key_views(plan@),
                record_views(rows@) == merged_rows(self@, kv.take(i as int), start_sec, end_sec),
                failure_views(failures@) == merged_failures(
                    self@,
                    kv.take(i as int),
                    start_sec,
                    end_sec,
                ),
            decreases plan.len() - i,
        {
            proof {
                assert(kv.take(i + 1 as int).drop_last() =~= kv.take(i as int));
                assert(kv.take(i + 1 as int).last() == kv[i as int]);
                assert(kv[i as int] == plan@[i as int]@);
            }
            let mut single: Vec<String> = Vec::new();
            single.push(plan[i].account.clone());
            proof {
                assert(names(single@) =~= seq![kv[i as int].account]);
            }
            let outcome = match plan[i].direction {
                Direction::Incoming => self.handle_incoming_txns(&single, start_sec, end_sec),
                Direction::Outgoing => self.handle_outgoing_txns(&single, start_sec, end_sec),
            };
            match outcome {
                Ok(mut fetched) => {
                    proof {
                        lemma_record_views_add(rows@, fetched@);
                    }
                    rows.append(&mut fetched);
                },
                Err(e) => {
                    let f = Failure {
                        account: plan[i].account.clone(),
                        direction: plan[i].direction,
                        error: e,
                    };
                    proof {
                        lemma_failure_views_push(failures@, f);
                        assert(merged_failures(self@, kv.take(i as int), start_sec, end_sec).push(
                            f@,
                        ) =~= merged_failures(self@, kv.take(i as int), start_sec, end_sec)
                            + seq![f@]);
                    }
                    failures.push(f);
                },
            }
            i = i + 1;
        }
        proof {
            assert(kv.take(kv.len() as int) =~= kv);
        }
        Ok(Report { rows, failures })
    }
}

} // verus!
