//! A report builder for blockchain transaction traces: for a set of
//! accounts and a half-open time range, it collects every joined row in
//! which an account took part, incoming (as the receipt's receiver) or
//! outgoing (as the receipt's predecessor), and merges the per-subtask
//! results and failures into one report. The query gateway's selection,
//! the fan-out plan and the merge are verified; the live store connection
//! and the task runtime sit outside the library and only carry values.

pub mod errors;
pub mod laws;
pub mod records;
pub mod sql_queries;
pub mod time;
pub mod tta;
