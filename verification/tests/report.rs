use tta::errors::{Direction, Failure, StoreError, TtaError};
use tta::records::{
    BlockInfo, ExecutionOutcome, ReceiptAction, ReceiptInfo, TransactionAction, TransactionInfo,
    TransactionRecord,
};
use tta::sql_queries::{Fault, SqlClient};
use tta::time::query_bounds;
use tta::tta::{merge_results, plan_subtasks, TaskKey, TTA};

const DAY_START: u64 = 1672531200; // 2023-01-01T00:00:00Z
const DAY_END: u64 = 1672617600; // 2023-01-02T00:00:00Z
const NANOS: u64 = 1_000_000_000;

fn record(hash: &str, predecessor: &str, receiver: &str, nanos: u64, status: &str) -> TransactionRecord {
    TransactionRecord {
        transaction: TransactionInfo {
            transaction_hash: hash.to_string(),
            included_in_block_hash: "blockhash".to_string(),
            included_in_chunk_hash: "chunkhash".to_string(),
            index_in_chunk: 0,
            block_timestamp: nanos,
            signer_account_id: predecessor.to_string(),
            signer_public_key: "ed25519:key".to_string(),
            nonce: 7,
            receiver_account_id: receiver.to_string(),
            signature: "ed25519:sig".to_string(),
            status: "SUCCESS_RECEIPT_ID".to_string(),
            converted_into_receipt_id: Some(format!("{}-receipt", hash)),
            receipt_conversion_gas_burnt: Some(424555062500),
            receipt_conversion_tokens_burnt: Some(42455506250000000000),
        },
        receipt: Some(ReceiptInfo {
            receipt_id: format!("{}-receipt", hash),
            included_in_block_hash: "blockhash".to_string(),
            included_in_chunk_hash: "chunkhash".to_string(),
            index_in_chunk: 0,
            included_in_block_timestamp: nanos,
            predecessor_account_id: predecessor.to_string(),
            receiver_account_id: receiver.to_string(),
            receipt_kind: "ACTION".to_string(),
            originated_from_transaction_hash: hash.to_string(),
        }),
        transaction_action: Some(TransactionAction {
            transaction_hash: hash.to_string(),
            index_in_transaction: 0,
            action_kind: "TRANSFER".to_string(),
            args: "{\"deposit\":\"1\"}".to_string(),
        }),
        receipt_action: Some(ReceiptAction {
            receipt_id: format!("{}-receipt", hash),
            index_in_action_receipt: 0,
            args: "{\"deposit\":\"1\"}".to_string(),
            receipt_predecessor_account_id: predecessor.to_string(),
            receipt_receiver_account_id: receiver.to_string(),
            receipt_included_in_block_timestamp: nanos,
            action_kind: "TRANSFER".to_string(),
        }),
        block: Some(BlockInfo {
            block_height: 85376002,
            block_hash: "blockhash".to_string(),
            prev_block_hash: "prevhash".to_string(),
            block_timestamp: nanos,
            gas_price: 100000000,
            author_account_id: "validator.near".to_string(),
        }),
        execution_outcome: Some(ExecutionOutcome {
            receipt_id: format!("{}-receipt", hash),
            executed_in_block_hash: "blockhash".to_string(),
            executed_in_block_timestamp: nanos,
            index_in_chunk: 0,
            gas_burnt: 424555062500,
            tokens_burnt: 42455506250000000000,
            executor_account_id: receiver.to_string(),
            shard_id: 3,
            status: status.to_string(),
        }),
    }
}

fn accounts(names: &[&str]) -> Vec<String> {
    names.iter().map(|n| n.to_string()).collect()
}

#[test]
fn scenario_alice_one_outgoing_row() {
    let rows = vec![record(
        "txhash1",
        "alice.near",
        "bob.near",
        DAY_START * NANOS + 3600 * NANOS,
        "SUCCESS_VALUE",
    )];
    let client = SqlClient::new(rows, Vec::new());
    let alice = accounts(&["alice.near"]);

    let outgoing = client.get_outgoing_txns(&alice, DAY_START, DAY_END).unwrap();
    assert_eq!(outgoing.len(), 1);
    assert_eq!(outgoing[0].transaction.transaction_hash, "txhash1");

    let incoming = client.get_incoming_txns(&alice, DAY_START, DAY_END).unwrap();
    assert_eq!(incoming.len(), 0);

    let report = TTA::new(client).get_txns_report(&alice, DAY_START, DAY_END).unwrap();
    assert_eq!(report.rows.len(), 1);
    assert!(report.failures.is_empty());
}

#[test]
fn unsuccessful_outcomes_never_appear() {
    let rows = vec![
        record("txfail", "alice.near", "bob.near", DAY_START * NANOS + NANOS, "FAILURE"),
        record("txpend", "bob.near", "alice.near", DAY_START * NANOS + NANOS, "UNKNOWN"),
    ];
    let client = SqlClient::new(rows, Vec::new());
    let both = accounts(&["alice.near", "bob.near"]);

    assert!(client.get_outgoing_txns(&both, DAY_START, DAY_END).unwrap().is_empty());
    assert!(client.get_incoming_txns(&both, DAY_START, DAY_END).unwrap().is_empty());
}

#[test]
fn missing_receipt_matches_no_direction() {
    let mut row = record("txnorcpt", "alice.near", "bob.near", DAY_START * NANOS, "SUCCESS_VALUE");
    row.receipt = None;
    let client = SqlClient::new(vec![row], Vec::new());
    let everyone = accounts(&["alice.near", "bob.near"]);

    assert!(client.get_outgoing_txns(&everyone, DAY_START, DAY_END).unwrap().is_empty());
    assert!(client.get_incoming_txns(&everyone, DAY_START, DAY_END).unwrap().is_empty());
}

#[test]
fn directions_do_not_cross_contaminate() {
    let nanos = DAY_START * NANOS + 60 * NANOS;
    let rows = vec![
        record("tx_from_alice", "alice.near", "bob.near", nanos, "SUCCESS_RECEIPT_ID"),
        record("tx_to_alice", "bob.near", "alice.near", nanos, "SUCCESS_VALUE"),
    ];
    let client = SqlClient::new(rows, Vec::new());
    let alice = accounts(&["alice.near"]);

    let outgoing = client.get_outgoing_txns(&alice, DAY_START, DAY_END).unwrap();
    assert_eq!(outgoing.len(), 1);
    assert_eq!(outgoing[0].transaction.transaction_hash, "tx_from_alice");
    assert_eq!(
        outgoing[0].receipt.as_ref().unwrap().predecessor_account_id,
        "alice.near"
    );

    let incoming = client.get_incoming_txns(&alice, DAY_START, DAY_END).unwrap();
    assert_eq!(incoming.len(), 1);
    assert_eq!(incoming[0].transaction.transaction_hash, "tx_to_alice");
    assert_eq!(incoming[0].receipt.as_ref().unwrap().receiver_account_id, "alice.near");
}

#[test]
fn range_start_included_end_excluded() {
    let rows = vec![
        record("tx_at_start", "alice.near", "bob.near", DAY_START * NANOS, "SUCCESS_VALUE"),
        record("tx_at_end", "alice.near", "bob.near", DAY_END * NANOS, "SUCCESS_VALUE"),
    ];
    let client = SqlClient::new(rows, Vec::new());
    let alice = accounts(&["alice.near"]);

    let outgoing = client.get_outgoing_txns(&alice, DAY_START, DAY_END).unwrap();
    assert_eq!(outgoing.len(), 1);
    assert_eq!(outgoing[0].transaction.transaction_hash, "tx_at_start");
}

#[test]
fn one_failing_subtask_is_isolated() {
    let nanos = DAY_START * NANOS + 2 * NANOS;
    let rows = vec![
        record("tx_from_alice", "alice.near", "carol.near", nanos, "SUCCESS_VALUE"),
        record("tx_from_bob", "bob.near", "carol.near", nanos, "SUCCESS_VALUE"),
    ];
    let faults = vec![Fault {
        account: "bob.near".to_string(),
        direction: Direction::Incoming,
        error: StoreError::ConnectionLost,
    }];
    let tta = TTA::new(SqlClient::new(rows, faults));
    let both = accounts(&["alice.near", "bob.near"]);

    let report = tta.get_txns_report(&both, DAY_START, DAY_END).unwrap();
    assert_eq!(
        report.failures,
        vec![Failure {
            account: "bob.near".to_string(),
            direction: Direction::Incoming,
            error: TtaError::DatabaseError(StoreError::ConnectionLost),
        }]
    );
    let hashes: Vec<&str> = report
        .rows
        .iter()
        .map(|r| r.transaction.transaction_hash.as_str())
        .collect();
    assert_eq!(hashes, vec!["tx_from_alice", "tx_from_bob"]);
}

#[test]
fn plan_spawns_two_subtasks_per_account() {
    let plan = plan_subtasks(&accounts(&["alice.near", "bob.near"]));
    assert_eq!(
        plan,
        vec![
            TaskKey { account: "alice.near".to_string(), direction: Direction::Incoming },
            TaskKey { account: "alice.near".to_string(), direction: Direction::Outgoing },
            TaskKey { account: "bob.near".to_string(), direction: Direction::Incoming },
            TaskKey { account: "bob.near".to_string(), direction: Direction::Outgoing },
        ]
    );
}

#[test]
fn empty_account_set_yields_empty_report() {
    let rows = vec![record(
        "txhash1",
        "alice.near",
        "bob.near",
        DAY_START * NANOS,
        "SUCCESS_VALUE",
    )];
    let client = SqlClient::new(rows, Vec::new());
    let none: Vec<String> = Vec::new();

    assert!(client.get_outgoing_txns(&none, DAY_START, DAY_END).unwrap().is_empty());
    let report = TTA::new(client).get_txns_report(&none, DAY_START, DAY_END).unwrap();
    assert!(report.rows.is_empty());
    assert!(report.failures.is_empty());
}

#[test]
fn identical_inputs_yield_identical_reports() {
    let nanos = DAY_START * NANOS + 42 * NANOS;
    let rows = vec![
        record("tx1", "alice.near", "bob.near", nanos, "SUCCESS_VALUE"),
        record("tx2", "bob.near", "alice.near", nanos, "SUCCESS_RECEIPT_ID"),
    ];
    let faults = vec![Fault {
        account: "alice.near".to_string(),
        direction: Direction::Outgoing,
        error: StoreError::Timeout,
    }];
    let tta = TTA::new(SqlClient::new(rows, faults));
    let both = accounts(&["alice.near", "bob.near"]);

    let first = tta.get_txns_report(&both, DAY_START, DAY_END).unwrap();
    let second = tta.get_txns_report(&both, DAY_START, DAY_END).unwrap();
    assert_eq!(first, second);
}

#[test]
fn every_store_error_surfaces_per_direction() {
    let cases = [
        (StoreError::ConnectionLost, Direction::Incoming),
        (StoreError::MalformedQuery, Direction::Outgoing),
        (StoreError::Timeout, Direction::Incoming),
    ];
    for (error, direction) in cases {
        let faults = vec![Fault { account: "alice.near".to_string(), direction, error }];
        let client = SqlClient::new(Vec::new(), faults);
        let alice = accounts(&["alice.near"]);
        let got = match direction {
            Direction::Incoming => client.get_incoming_txns(&alice, DAY_START, DAY_END),
            Direction::Outgoing => client.get_outgoing_txns(&alice, DAY_START, DAY_END),
        };
        assert_eq!(got.unwrap_err(), error);
    }
}

#[test]
fn subtask_failure_carries_database_error() {
    let faults = vec![Fault {
        account: "alice.near".to_string(),
        direction: Direction::Incoming,
        error: StoreError::MalformedQuery,
    }];
    let tta = TTA::new(SqlClient::new(Vec::new(), faults));
    let alice = accounts(&["alice.near"]);
    let got = tta.handle_incoming_txns(&alice, DAY_START, DAY_END);
    assert_eq!(got.unwrap_err(), TtaError::DatabaseError(StoreError::MalformedQuery));
    let ok = tta.handle_outgoing_txns(&alice, DAY_START, DAY_END);
    assert!(ok.unwrap().is_empty());
}

#[test]
fn merge_keeps_rows_and_records_failures() {
    let nanos = DAY_START * NANOS + 9 * NANOS;
    let row_a = record("tx_a", "alice.near", "bob.near", nanos, "SUCCESS_VALUE");
    let row_b = record("tx_b", "bob.near", "alice.near", nanos, "SUCCESS_VALUE");
    let results = vec![
        (
            TaskKey { account: "alice.near".to_string(), direction: Direction::Incoming },
            Ok(vec![row_a.clone()]),
        ),
        (
            TaskKey { account: "alice.near".to_string(), direction: Direction::Outgoing },
            Err(TtaError::SchedulingError),
        ),
        (
            TaskKey { account: "bob.near".to_string(), direction: Direction::Incoming },
            Ok(vec![row_b.clone()]),
        ),
    ];
    let report = merge_results(&results);
    assert_eq!(report.rows, vec![row_a, row_b]);
    assert_eq!(
        report.failures,
        vec![Failure {
            account: "alice.near".to_string(),
            direction: Direction::Outgoing,
            error: TtaError::SchedulingError,
        }]
    );
}

#[test]
fn bounds_render_as_utc_seconds() {
    let (start, end) = query_bounds(DAY_START, DAY_END);
    assert_eq!(start, "2023-01-01T00:00:00Z");
    assert_eq!(end, "2023-01-02T00:00:00Z");

    let (epoch, later) = query_bounds(0, 1700000000);
    assert_eq!(epoch, "1970-01-01T00:00:00Z");
    assert_eq!(later, "2023-11-14T22:13:20Z");
}
