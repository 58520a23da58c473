//! Data model of the report: one flat row per (transaction, receipt, action,
//! block, outcome) combination returned by the query gateway.
//!
//! The sub-records beside the transaction itself are optional: the join is a
//! left join, so a transaction that has not yet produced a receipt, block
//! inclusion or execution outcome carries `None` there. All values are
//! read-only snapshots of historical ledger state. Timestamps are nanoseconds
//! since the Unix epoch; gas and token quantities are kept as 128-bit
//! integers so that no precision is lost.

use vstd::prelude::*;

verus! {

/// Signing record of a transaction, the root of an execution trace.
#[derive(Clone, Debug, PartialEq, Eq)]
pub struct TransactionInfo {
    pub transaction_hash: String,
    pub included_in_block_hash: String,
    pub included_in_chunk_hash: String,
    pub index_in_chunk: u64,
    pub block_timestamp: u64,
    pub signer_account_id: String,
    pub signer_public_key: String,
    pub nonce: u64,
    pub receiver_account_id: String,
    pub signature: String,
    pub status: String,
    pub converted_into_receipt_id: Option<String>,
    pub receipt_conversion_gas_burnt: Option<u128>,
    pub receipt_conversion_tokens_burnt: Option<u128>,
}

pub ghost struct TransactionInfoV {
    pub transaction_hash: Seq<char>,
    pub included_in_block_hash: Seq<char>,
    pub included_in_chunk_hash: Seq<char>,
    pub index_in_chunk: u64,
    pub block_timestamp: u64,
    pub signer_account_id: Seq<char>,
    pub signer_public_key: Seq<char>,
    pub nonce: u64,
    pub receiver_account_id: Seq<char>,
    pub signature: Seq<char>,
    pub status: Seq<char>,
    pub converted_into_receipt_id: Option<Seq<char>>,
    pub receipt_conversion_gas_burnt: Option<u128>,
    pub receipt_conversion_tokens_burnt: Option<u128>,
}

impl View for TransactionInfo {
    type V = TransactionInfoV;

    open spec fn view(&self) -> TransactionInfoV {
        TransactionInfoV {
            transaction_hash: self.transaction_hash@,
            included_in_block_hash: self.included_in_block_hash@,
            included_in_chunk_hash: self.included_in_chunk_hash@,
            index_in_chunk: self.index_in_chunk,
            block_timestamp: self.block_timestamp,
            signer_account_id: self.signer_account_id@,
            signer_public_key: self.signer_public_key@,
            nonce: self.nonce,
            receiver_account_id: self.receiver_account_id@,
            signature: self.signature@,
            status: self.status@,
            converted_into_receipt_id: match self.converted_into_receipt_id {
                Some(s) => Some(s@),
                None => None,
            },
            receipt_conversion_gas_burnt: self.receipt_conversion_gas_burnt,
            receipt_conversion_tokens_burnt: self.receipt_conversion_tokens_burnt,
        }
    }
}

impl TransactionInfo {
    /// An owned copy whose view equals this record's view.
    pub fn duplicate(&self) -> (r: TransactionInfo)
        ensures
            r@ == self@,
    {
        TransactionInfo {
            transaction_hash: self.transaction_hash.clone(),
            included_in_block_hash: self.included_in_block_hash.clone(),
            included_in_chunk_hash: self.included_in_chunk_hash.clone(),
            index_in_chunk: self.index_in_chunk,
            block_timestamp: self.block_timestamp,
            signer_account_id: self.signer_account_id.clone(),
            signer_public_key: self.signer_public_key.clone(),
            nonce: self.nonce,
            receiver_account_id: self.receiver_account_id.clone(),
            signature: self.signature.clone(),
            status: self.status.clone(),
            converted_into_receipt_id: match &self.converted_into_receipt_id {
                Some(s) => Some(s.clone()),
                None => None,
            },
            receipt_conversion_gas_burnt: self.receipt_conversion_gas_burnt,
            receipt_conversion_tokens_burnt: self.receipt_conversion_tokens_burnt,
        }
    }
}

/// Receipt derived from a transaction, either by conversion or by
/// originating from it.
#[derive(Clone, Debug, PartialEq, Eq)]
pub struct ReceiptInfo {
    pub receipt_id: String,
    pub included_in_block_hash: String,
    pub included_in_chunk_hash: String,
    pub index_in_chunk: u64,
    pub included_in_block_timestamp: u64,
    pub predecessor_account_id: String,
    pub receiver_account_id: String,
    pub receipt_kind: String,
    pub originated_from_transaction_hash: String,
}

pub ghost struct ReceiptInfoV {
    pub receipt_id: Seq<char>,
    pub included_in_block_hash: Seq<char>,
    pub included_in_chunk_hash: Seq<char>,
    pub index_in_chunk: u64,
    pub included_in_block_timestamp: u64,
    pub predecessor_account_id: Seq<char>,
    pub receiver_account_id: Seq<char>,
    pub receipt_kind: Seq<char>,
    pub originated_from_transaction_hash: Seq<char>,
}

impl View for ReceiptInfo {
    type V = ReceiptInfoV;

    open spec fn view(&self) -> ReceiptInfoV {
        ReceiptInfoV {
            receipt_id: self.receipt_id@,
            included_in_block_hash: self.included_in_block_hash@,
            included_in_chunk_hash: self.included_in_chunk_hash@,
            index_in_chunk: self.index_in_chunk,
            included_in_block_timestamp: self.included_in_block_timestamp,
            predecessor_account_id: self.predecessor_account_id@,
            receiver_account_id: self.receiver_account_id@,
            receipt_kind: self.receipt_kind@,
            originated_from_transaction_hash: self.originated_from_transaction_hash@,
        }
    }
}

impl ReceiptInfo {
    /// An owned copy whose view equals this record's view.
    pub fn duplicate(&self) -> (r: ReceiptInfo)
        ensures
            r@ == self@,
    {
        ReceiptInfo {
            receipt_id: self.receipt_id.clone(),
            included_in_block_hash: self.included_in_block_hash.clone(),
            included_in_chunk_hash: self.included_in_chunk_hash.clone(),
            index_in_chunk: self.index_in_chunk,
            included_in_block_timestamp: self.included_in_block_timestamp,
            predecessor_account_id: self.predecessor_account_id.clone(),
            receiver_account_id: self.receiver_account_id.clone(),
            receipt_kind: self.receipt_kind.clone(),
            originated_from_transaction_hash: self.originated_from_transaction_hash.clone(),
        }
    }
}

/// One action contained in a transaction, keyed by (transaction hash, index).
#[derive(Clone, Debug, PartialEq, Eq)]
pub struct TransactionAction {
    pub transaction_hash: String,
    pub index_in_transaction: u64,
    pub action_kind: String,
    pub args: String,
}

pub ghost struct TransactionActionV {
    pub transaction_hash: Seq<char>,
    pub index_in_transaction: u64,
    pub action_kind: Seq<char>,
    pub args: Seq<char>,
}

impl View for TransactionAction {
    type V = TransactionActionV;

    open spec fn view(&self) -> TransactionActionV {
        TransactionActionV {
            transaction_hash: self.transaction_hash@,
            index_in_transaction: self.index_in_transaction,
            action_kind: self.action_kind@,
            args: self.args@,
        }
    }
}

impl TransactionAction {
    /// An owned copy whose view equals this record's view.
    pub fn duplicate(&self) -> (r: TransactionAction)
        ensures
            r@ == self@,
    {
        TransactionAction {
            transaction_hash: self.transaction_hash.clone(),
            index_in_transaction: self.index_in_transaction,
            action_kind: self.action_kind.clone(),
            args: self.args.clone(),
        }
    }
}

/// One action of the receipt, keyed by (receipt id, index). The predecessor
/// and receiver accounts of the owning receipt are repeated on the action
/// row, as the store lays them out.
#[derive(Clone, Debug, PartialEq, Eq)]
pub struct ReceiptAction {
    pub receipt_id: String,
    pub index_in_action_receipt: u64,
    pub args: String,
    pub receipt_predecessor_account_id: String,
    pub receipt_receiver_account_id: String,
    pub receipt_included_in_block_timestamp: u64,
    pub action_kind: String,
}

pub ghost struct ReceiptActionV {
    pub receipt_id: Seq<char>,
    pub index_in_action_receipt: u64,
    pub args: Seq<char>,
    pub receipt_predecessor_account_id: Seq<char>,
    pub receipt_receiver_account_id: Seq<char>,
    pub receipt_included_in_block_timestamp: u64,
    pub action_kind: Seq<char>,
}

impl View for ReceiptAction {
    type V = ReceiptActionV;

    open spec fn view(&self) -> ReceiptActionV {
        ReceiptActionV {
            receipt_id: self.receipt_id@,
            index_in_action_receipt: self.index_in_action_receipt,
            args: self.args@,
            receipt_predecessor_account_id: self.receipt_predecessor_account_id@,
            receipt_receiver_account_id: self.receipt_receiver_account_id@,
            receipt_included_in_block_timestamp: self.receipt_included_in_block_timestamp,
            action_kind: self.action_kind@,
        }
    }
}

impl ReceiptAction {
    /// An owned copy whose view equals this record's view.
    pub fn duplicate(&self) -> (r: ReceiptAction)
        ensures
            r@ == self@,
    {
        ReceiptAction {
            receipt_id: self.receipt_id.clone(),
            index_in_action_receipt: self.index_in_action_receipt,
            args: self.args.clone(),
            receipt_predecessor_account_id: self.receipt_predecessor_account_id.clone(),
            receipt_receiver_account_id: self.receipt_receiver_account_id.clone(),
            receipt_included_in_block_timestamp: self.receipt_included_in_block_timestamp,
            action_kind: self.action_kind.clone(),
        }
    }
}

/// Block that included the receipt.
#[derive(Clone, Debug, PartialEq, Eq)]
pub struct BlockInfo {
    pub block_height: u64,
    pub block_hash: String,
    pub prev_block_hash: String,
    pub block_timestamp: u64,
    pub gas_price: u128,
    pub author_account_id: String,
}

pub ghost struct BlockInfoV {
    pub block_height: u64,
    pub block_hash: Seq<char>,
    pub prev_block_hash: Seq<char>,
    pub block_timestamp: u64,
    pub gas_price: u128,
    pub author_account_id: Seq<char>,
}

impl View for BlockInfo {
    type V = BlockInfoV;

    open spec fn view(&self) -> BlockInfoV {
        BlockInfoV {
            block_height: self.block_height,
            block_hash: self.block_hash@,
            prev_block_hash: self.prev_block_hash@,
            block_timestamp: self.block_timestamp,
            gas_price: self.gas_price,
            author_account_id: self.author_account_id@,
        }
    }
}

impl BlockInfo {
    /// An owned copy whose view equals this record's view.
    pub fn duplicate(&self) -> (r: BlockInfo)
        ensures
            r@ == self@,
    {
        BlockInfo {
            block_height: self.block_height,
            block_hash: self.block_hash.clone(),
            prev_block_hash: self.prev_block_hash.clone(),
            block_timestamp: self.block_timestamp,
            gas_price: self.gas_price,
            author_account_id: self.author_account_id.clone(),
        }
    }
}

/// Final execution outcome recorded for the receipt.
#[derive(Clone, Debug, PartialEq, Eq)]
pub struct ExecutionOutcome {
    pub receipt_id: String,
    pub executed_in_block_hash: String,
    pub executed_in_block_timestamp: u64,
    pub index_in_chunk: u64,
    pub gas_burnt: u128,
    pub tokens_burnt: u128,
    pub executor_account_id: String,
    pub shard_id: u64,
    pub status: String,
}

pub ghost struct ExecutionOutcomeV {
    pub receipt_id: Seq<char>,
    pub executed_in_block_hash: Seq<char>,
    pub executed_in_block_timestamp: u64,
    pub index_in_chunk: u64,
    pub gas_burnt: u128,
    pub tokens_burnt: u128,
    pub executor_account_id: Seq<char>,
    pub shard_id: u64,
    pub status: Seq<char>,
}

impl View for ExecutionOutcome {
    type V = ExecutionOutcomeV;

    open spec fn view(&self) -> ExecutionOutcomeV {
        ExecutionOutcomeV {
            receipt_id: self.receipt_id@,
            executed_in_block_hash: self.executed_in_block_hash@,
            executed_in_block_timestamp: self.executed_in_block_timestamp,
            index_in_chunk: self.index_in_chunk,
            gas_burnt: self.gas_burnt,
            tokens_burnt: self.tokens_burnt,
            executor_account_id: self.executor_account_id@,
            shard_id: self.shard_id,
            status: self.status@,
        }
    }
}

impl ExecutionOutcome {
    /// An owned copy whose view equals this record's view.
    pub fn duplicate(&self) -> (r: ExecutionOutcome)
        ensures
            r@ == self@,
    {
        ExecutionOutcome {
            receipt_id: self.receipt_id.clone(),
            executed_in_block_hash: self.executed_in_block_hash.clone(),
            executed_in_block_timestamp: self.executed_in_block_timestamp,
            index_in_chunk: self.index_in_chunk,
            gas_burnt: self.gas_burnt,
            tokens_burnt: self.tokens_burnt,
            executor_account_id: self.executor_account_id.clone(),
            shard_id: self.shard_id,
            status: self.status.clone(),
        }
    }
}

/// One joined row of the report: a transaction together with at most one
/// receipt, one action of each kind, the including block and the execution
/// outcome. A transaction with several actions appears on several rows;
/// folding rows into one logical record per transaction is the consumer's
/// responsibility, not this library's.
#[derive(Clone, Debug, PartialEq, Eq)]
pub struct TransactionRecord {
    pub transaction: TransactionInfo,
    pub receipt: Option<ReceiptInfo>,
    pub transaction_action: Option<TransactionAction>,
    pub receipt_action: Option<ReceiptAction>,
    pub block: Option<BlockInfo>,
    pub execution_outcome: Option<ExecutionOutcome>,
}

pub ghost struct TransactionRecordV {
    pub transaction: TransactionInfoV,
    pub receipt: Option<ReceiptInfoV>,
    pub transaction_action: Option<TransactionActionV>,
    pub receipt_action: Option<ReceiptActionV>,
    pub block: Option<BlockInfoV>,
    pub execution_outcome: Option<ExecutionOutcomeV>,
}

impl View for TransactionRecord {
    type V = TransactionRecordV;

    open spec fn view(&self) -> TransactionRecordV {
        TransactionRecordV {
            transaction: self.transaction@,
            receipt: match self.receipt {
                Some(r) => Some(r@),
                None => None,
            },
            transaction_action: match self.transaction_action {
                Some(a) => Some(a@),
                None => None,
            },
            receipt_action: match self.receipt_action {
                Some(a) => Some(a@),
                None => None,
            },
            block: match self.block {
                Some(b) => Some(b@),
                None => None,
            },
            execution_outcome: match self.execution_outcome {
                Some(o) => Some(o@),
                None => None,
            },
        }
    }
}

impl TransactionRecord {
    /// An owned copy whose view equals this record's view.
    pub fn duplicate(&self) -> (r: TransactionRecord)
        ensures
            r@ == self@,
    {
        TransactionRecord {
            transaction: self.transaction.duplicate(),
            receipt: match &self.receipt {
                Some(r) => Some(r.duplicate()),
                None => None,
            },
            transaction_action: match &self.transaction_action {
                Some(a) => Some(a.duplicate()),
                None => None,
            },
            receipt_action: match &self.receipt_action {
                Some(a) => Some(a.duplicate()),
                None => None,
            },
            block: match &self.block {
                Some(b) => Some(b.duplicate()),
                None => None,
            },
            execution_outcome: match &self.execution_outcome {
                Some(o) => Some(o.duplicate()),
                None => None,
            },
        }
    }
}

/// The views of a sequence of rows, element by element.
pub open spec fn record_views(s: Seq<TransactionRecord>) -> Seq<TransactionRecordV> {
    s.map_values(|r: TransactionRecord| r@)
}

/// The views of a sequence of account names, element by element.
pub open spec fn names(s: Seq<String>) -> Seq<Seq<char>> {
    s.map_values(|a: String| a@)
}

pub proof fn lemma_record_views_push(s: Seq<TransactionRecord>, r: TransactionRecord)
    ensures
        record_views(s.push(r)) == record_views(s).push(r@),
{
    assert(record_views(s.push(r)) =~= record_views(s).push(r@));
}

pub proof fn lemma_record_views_add(a: Seq<TransactionRecord>, b: Seq<TransactionRecord>)
    ensures
        record_views(a + b) == record_views(a) + record_views(b),
{
    assert(record_views(a + b) =~= record_views(a) + record_views(b));
}

/// An owned copy of a whole row sequence, view for view.
pub fn duplicate_records(rows: &Vec<TransactionRecord>) -> (r: Vec<TransactionRecord>)
    ensures
        record_views(r@) == record_views(rows@),
{
    let mut out: Vec<TransactionRecord> = Vec::new();
    let mut i: usize = 0;
    while i < rows.len()
        invariant
            i <= rows.len(),
            record_views(out@) == record_views(rows@.take(i as int)),
        decreases rows.len() - i,
    {
        let d = rows[i].duplicate();
        proof {
            lemma_record_views_push(out@, d);
            assert(rows@.take(i as int).push(rows@[i as int]) =~= rows@.take(i + 1 as int));
            lemma_record_views_push(rows@.take(i as int), rows@[i as int]);
        }
        out.push(d);
        i = i + 1;
    }
    proof {
        assert(rows@.take(rows@.len() as int) =~= rows@);
    }
    out
}

} // verus!
