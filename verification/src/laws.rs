//! Laws of the report builder, stated and proved over the same spec
//! functions the executable contracts use.

use vstd::prelude::*;

use crate::errors::{Direction, FailureV, TtaError};
use crate::records::TransactionRecordV;
use crate::sql_queries::{matching_rows, record_in_range, record_match, role_account, successful_outcome, SqlClientV};
use crate::time::{in_report_range, second_of};
use crate::tta::{
    err_failures, merged_failures, merged_rows, ok_rows, report_failures, report_rows,
    task_failure, task_fault, task_keys, task_rows, TaskKeyV,
};

verus! {

/// Every row a fetch returns meets the query's conditions.
pub proof fn lemma_matching_rows_sound(
    rows: Seq<TransactionRecordV>,
    accounts: Seq<Seq<char>>,
    start_sec: u64,
    end_sec: u64,
    direction: Direction,
)
    ensures
        forall|i: int|
            0 <= i < matching_rows(rows, accounts, start_sec, end_sec, direction).len()
                ==> record_match(
                #[trigger] matching_rows(rows, accounts, start_sec, end_sec, direction)[i],
                accounts,
                start_sec,
                end_sec,
                direction,
            ),
    decreases rows.len(),
{
    if rows.len() == 0 {
    } else {
        lemma_matching_rows_sound(rows.drop_last(), accounts, start_sec, end_sec, direction);
        let rest = matching_rows(rows.drop_last(), accounts, start_sec, end_sec, direction);
        let m = matching_rows(rows, accounts, start_sec, end_sec, direction);
        assert forall|i: int| 0 <= i < m.len() implies record_match(
            m[i],
            accounts,
            start_sec,
            end_sec,
            direction,
        ) by {
            if record_match(rows.last(), accounts, start_sec, end_sec, direction) {
                assert(m == rest.push(rows.last()));
                if i < rest.len() {
                    assert(m[i] == rest[i]);
                } else {
                    assert(m[i] == rows.last());
                }
            } else {
                assert(m == rest);
            }
        }
    }
}

/// A row that meets the query's conditions is returned.
pub proof fn lemma_matching_rows_complete(
    rows: Seq<TransactionRecordV>,
    accounts: Seq<Seq<char>>,
    start_sec: u64,
    end_sec: u64,
    direction: Direction,
    i: int,
)
    requires
        0 <= i < rows.len(),
        record_match(rows[i], accounts, start_sec, end_sec, direction),
    ensures
        matching_rows(rows, accounts, start_sec, end_sec, direction).contains(rows[i]),
    decreases rows.len(),
{
    let rest = matching_rows(rows.drop_last(), accounts, start_sec, end_sec, direction);
    let m = matching_rows(rows, accounts, start_sec, end_sec, direction);
    if i == rows.len() - 1 {
        assert(m == rest.push(rows.last()));
        assert(m[m.len() - 1] == rows[i]);
    } else {
        lemma_matching_rows_complete(
            rows.drop_last(),
            accounts,
            start_sec,
            end_sec,
            direction,
            i,
        );
        let j: int = choose|j: int| 0 <= j < rest.len() && rest[j] == rows[i];
        if record_match(rows.last(), accounts, start_sec, end_sec, direction) {
            assert(m == rest.push(rows.last()));
            assert(m[j] == rows[i]);
        } else {
            assert(m == rest);
        }
    }
}

/// Rows whose execution outcome is missing or outside the fixed success
/// set never appear in a fetch's output.
pub proof fn lemma_fetch_only_successful(
    rows: Seq<TransactionRecordV>,
    accounts: Seq<Seq<char>>,
    start_sec: u64,
    end_sec: u64,
    direction: Direction,
)
    ensures
        forall|i: int|
            0 <= i < matching_rows(rows, accounts, start_sec, end_sec, direction).len()
                ==> successful_outcome(
                #[trigger] matching_rows(rows, accounts, start_sec, end_sec, direction)[i],
            ),
{
    lemma_matching_rows_sound(rows, accounts, start_sec, end_sec, direction);
}

/// No cross-contamination between directions: every returned row carries a
/// receipt whose account in the requested role is one of the requested
/// accounts — the predecessor for an outgoing fetch, the receiver for an
/// incoming one.
pub proof fn lemma_fetch_direction_purity(
    rows: Seq<TransactionRecordV>,
    accounts: Seq<Seq<char>>,
    start_sec: u64,
    end_sec: u64,
    direction: Direction,
)
    ensures
        forall|i: int|
            0 <= i < matching_rows(rows, accounts, start_sec, end_sec, direction).len()
                ==> match role_account(
                #[trigger] matching_rows(rows, accounts, start_sec, end_sec, direction)[i],
                direction,
            ) {
                Some(a) => accounts.contains(a),
                None => false,
            },
{
    lemma_matching_rows_sound(rows, accounts, start_sec, end_sec, direction);
}

/// The half-open range law on the timestamp alone: a block timestamp of
/// exactly `start_sec` lies in the range (when the range is non-empty), a
/// block timestamp of exactly `end_sec` does not.
pub proof fn lemma_half_open_boundary(nanos: u64, start_sec: u64, end_sec: u64)
    ensures
        nanos == start_sec * 1_000_000_000 && start_sec < end_sec ==> in_report_range(
            nanos,
            start_sec,
            end_sec,
        ),
        nanos == end_sec * 1_000_000_000 ==> !in_report_range(nanos, start_sec, end_sec),
{
    if nanos == start_sec * 1_000_000_000 {
        assert(second_of(nanos) == start_sec) by (nonlinear_arith)
            requires
                nanos == start_sec * 1_000_000_000,
        ;
    }
    if nanos == end_sec * 1_000_000_000 {
        assert(second_of(nanos) == end_sec) by (nonlinear_arith)
            requires
                nanos == end_sec * 1_000_000_000,
        ;
    }
}

/// The half-open range law at the fetch: a row otherwise selected whose
/// block timestamp is exactly `start_sec` is returned; one whose block
/// timestamp is exactly `end_sec` is not.
pub proof fn lemma_boundary_membership(
    rows: Seq<TransactionRecordV>,
    accounts: Seq<Seq<char>>,
    start_sec: u64,
    end_sec: u64,
    direction: Direction,
    i: int,
)
    requires
        0 <= i < rows.len(),
        successful_outcome(rows[i]),
        match role_account(rows[i], direction) {
            Some(a) => accounts.contains(a),
            None => false,
        },
        rows[i].block is Some,
    ensures
        rows[i].block->Some_0.block_timestamp == start_sec * 1_000_000_000 && start_sec < end_sec
            ==> matching_rows(rows, accounts, start_sec, end_sec, direction).contains(rows[i]),
        rows[i].block->Some_0.block_timestamp == end_sec * 1_000_000_000 ==> !matching_rows(
            rows,
            accounts,
            start_sec,
            end_sec,
            direction,
        ).contains(rows[i]),
{
    let nanos = rows[i].block->Some_0.block_timestamp;
    lemma_half_open_boundary(nanos, start_sec, end_sec);
    if nanos == start_sec * 1_000_000_000 && start_sec < end_sec {
        assert(record_match(rows[i], accounts, start_sec, end_sec, direction));
        lemma_matching_rows_complete(rows, accounts, start_sec, end_sec, direction, i);
    }
    if nanos == end_sec * 1_000_000_000 {
        assert(!record_in_range(rows[i], start_sec, end_sec));
        lemma_matching_rows_sound(rows, accounts, start_sec, end_sec, direction);
        let m = matching_rows(rows, accounts, start_sec, end_sec, direction);
        if m.contains(rows[i]) {
            let j: int = choose|j: int| 0 <= j < m.len() && m[j] == rows[i];
            assert(record_match(m[j], accounts, start_sec, end_sec, direction));
        }
    }
}

/// The plan spawns exactly two subtasks per account — one incoming, one
/// outgoing, in account order — and no others.
pub proof fn lemma_fanout_count(accounts: Seq<Seq<char>>)
    ensures
        task_keys(accounts).len() == 2 * accounts.len(),
        forall|i: int|
            0 <= i < accounts.len() ==> #[trigger] task_keys(accounts)[2 * i] == (TaskKeyV {
                account: accounts[i],
                direction: Direction::Incoming,
            }),
        forall|i: int|
            0 <= i < accounts.len() ==> #[trigger] task_keys(accounts)[2 * i + 1] == (TaskKeyV {
                account: accounts[i],
                direction: Direction::Outgoing,
            }),
    decreases accounts.len(),
{
    if accounts.len() == 0 {
    } else {
        lemma_fanout_count(accounts.drop_last());
        let left = task_keys(accounts.drop_last());
        let all = task_keys(accounts);
        assert forall|i: int| 0 <= i < accounts.len() implies #[trigger] all[2 * i] == (TaskKeyV {
            account: accounts[i],
            direction: Direction::Incoming,
        }) && all[2 * i + 1] == (TaskKeyV {
            account: accounts[i],
            direction: Direction::Outgoing,
        }) by {
            if i < accounts.len() - 1 {
                assert(all[2 * i] == left[2 * i]);
                assert(all[2 * i + 1] == left[2 * i + 1]);
                assert(accounts.drop_last()[i] == accounts[i]);
            } else {
                assert(all[2 * i] == all[left.len() as int]);
                assert(all[2 * i + 1] == all[left.len() as int + 1]);
            }
        }
    }
}

/// A single failing subtask is isolated: the report's failure list is
/// exactly that subtask's failure, and the merged rows are exactly those
/// of the plan with the failing subtask left out — siblings are neither
/// cancelled nor diminished.
pub proof fn lemma_single_fault_isolation(
    store: SqlClientV,
    keys: Seq<TaskKeyV>,
    start_sec: u64,
    end_sec: u64,
    j: int,
)
    requires
        0 <= j < keys.len(),
        task_fault(store, keys[j]) is Some,
        forall|i: int| 0 <= i < keys.len() && i != j ==> task_fault(store, #[trigger] keys[i]) is None,
    ensures
        merged_failures(store, keys, start_sec, end_sec) == seq![task_failure(store, keys[j])],
        merged_rows(store, keys, start_sec, end_sec) == merged_rows(
            store,
            keys.remove(j),
            start_sec,
            end_sec,
        ),
    decreases keys.len(),
{
    let last = keys.last();
    if j == keys.len() - 1 {
        lemma_no_fault_no_failures(store, keys.drop_last(), start_sec, end_sec);
        assert(merged_failures(store, keys, start_sec, end_sec) =~= seq![
            task_failure(store, keys[j]),
        ]);
        assert(keys.remove(j) =~= keys.drop_last());
    } else {
        lemma_single_fault_isolation(store, keys.drop_last(), start_sec, end_sec, j);
        assert(keys.drop_last()[j] == keys[j]);
        assert(merged_failures(store, keys, start_sec, end_sec) =~= seq![
            task_failure(store, keys[j]),
        ]);
        assert(keys.remove(j).drop_last() =~= keys.drop_last().remove(j));
        assert(keys.remove(j).last() == last);
    }
}

/// A plan none of whose subtasks faults records no failures.
pub proof fn lemma_no_fault_no_failures(
    store: SqlClientV,
    keys: Seq<TaskKeyV>,
    start_sec: u64,
    end_sec: u64,
)
    requires
        forall|i: int| 0 <= i < keys.len() ==> task_fault(store, #[trigger] keys[i]) is None,
    ensures
        merged_failures(store, keys, start_sec, end_sec) == Seq::<FailureV>::empty(),
    decreases keys.len(),
{
    if keys.len() == 0 {
    } else {
        assert(keys[keys.len() - 1] == keys.last());
        lemma_no_fault_no_failures(store, keys.drop_last(), start_sec, end_sec);
        assert(merged_failures(store, keys, start_sec, end_sec) =~= Seq::<FailureV>::empty());
    }
}

/// The merge invents nothing: every row of the merged report was selected
/// by some subtask's query, so a row whose execution outcome is missing or
/// unsuccessful never appears in a report either.
pub proof fn lemma_report_only_successful(
    store: SqlClientV,
    keys: Seq<TaskKeyV>,
    start_sec: u64,
    end_sec: u64,
)
    ensures
        forall|i: int|
            0 <= i < merged_rows(store, keys, start_sec, end_sec).len() ==> successful_outcome(
                #[trigger] merged_rows(store, keys, start_sec, end_sec)[i],
            ),
    decreases keys.len(),
{
    if keys.len() == 0 {
    } else {
        lemma_report_only_successful(store, keys.drop_last(), start_sec, end_sec);
        lemma_matching_rows_sound(
            store.rows,
            seq![keys.last().account],
            start_sec,
            end_sec,
            keys.last().direction,
        );
        let m = merged_rows(store, keys, start_sec, end_sec);
        let left = merged_rows(store, keys.drop_last(), start_sec, end_sec);
        assert forall|i: int| 0 <= i < m.len() implies successful_outcome(m[i]) by {
            if i < left.len() {
                assert(m[i] == left[i]);
            } else {
                let tr = task_rows(store, keys.last(), start_sec, end_sec);
                assert(m[i] == tr[i - left.len()]);
                assert(record_match(
                    tr[i - left.len()],
                    seq![keys.last().account],
                    start_sec,
                    end_sec,
                    keys.last().direction,
                ));
            }
        }
    }
}

/// Building the report twice from identical inputs against an unchanged
/// store yields the same row sequence and the same failure list: the
/// report's contract pins both down as functions of the inputs alone.
pub proof fn lemma_report_idempotent(
    store: SqlClientV,
    accounts: Seq<Seq<char>>,
    start_sec: u64,
    end_sec: u64,
    rows1: Seq<TransactionRecordV>,
    failures1: Seq<FailureV>,
    rows2: Seq<TransactionRecordV>,
    failures2: Seq<FailureV>,
)
    requires
        rows1 == report_rows(store, accounts, start_sec, end_sec),
        failures1 == report_failures(store, accounts, start_sec, end_sec),
        rows2 == report_rows(store, accounts, start_sec, end_sec),
        failures2 == report_failures(store, accounts, start_sec, end_sec),
    ensures
        rows1 == rows2,
        failures1 == failures2,
{
}

/// An empty account set yields an empty report with no failures.
pub proof fn lemma_empty_accounts(store: SqlClientV, start_sec: u64, end_sec: u64)
    ensures
        report_rows(store, Seq::empty(), start_sec, end_sec) == Seq::<TransactionRecordV>::empty(),
        report_failures(store, Seq::empty(), start_sec, end_sec) == Seq::<FailureV>::empty(),
{
    assert(task_keys(Seq::empty()) =~= Seq::<TaskKeyV>::empty());
}

/// The terminal outcome of every subtask of a plan, in task order: the
/// recorded database failure where the store faults, the fetched rows
/// everywhere else.
pub open spec fn task_outcomes(
    store: SqlClientV,
    keys: Seq<TaskKeyV>,
    start_sec: u64,
    end_sec: u64,
) -> Seq<(TaskKeyV, Result<Seq<TransactionRecordV>, TtaError>)>
    decreases keys.len(),
{
    if keys.len() == 0 {
        Seq::empty()
    } else {
        task_outcomes(store, keys.drop_last(), start_sec, end_sec) + seq![
            (
                keys.last(),
                match task_fault(store, keys.last()) {
                    Some(e) => Err(TtaError::DatabaseError(e)),
                    None => Ok(task_rows(store, keys.last(), start_sec, end_sec)),
                },
            ),
        ]
    }
}

/// Merging the terminal outcomes of a plan's subtasks — however they were
/// run — gives exactly the report built for that plan: the scatter/gather
/// composition and the sequential composition agree.
pub proof fn lemma_merge_matches_report(
    store: SqlClientV,
    keys: Seq<TaskKeyV>,
    start_sec: u64,
    end_sec: u64,
)
    ensures
        ok_rows(task_outcomes(store, keys, start_sec, end_sec)) == merged_rows(
            store,
            keys,
            start_sec,
            end_sec,
        ),
        err_failures(task_outcomes(store, keys, start_sec, end_sec)) == merged_failures(
            store,
            keys,
            start_sec,
            end_sec,
        ),
    decreases keys.len(),
{
    if keys.len() == 0 {
    } else {
        lemma_merge_matches_report(store, keys.drop_last(), start_sec, end_sec);
        let outs = task_outcomes(store, keys, start_sec, end_sec);
        assert(outs.drop_last() =~= task_outcomes(store, keys.drop_last(), start_sec, end_sec));
        assert(outs.last().0 == keys.last());
    }
}

} // verus!
