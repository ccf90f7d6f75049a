//! Read-after-write verification for records logged to ClickHouse.
//!
//! The store takes inserts into a queue and keeps several physical rows under one key, so a
//! test that wrote a record cannot simply read it back. This library says what to ask of the
//! store and what to make of its replies:
//!
//! - `catalog` has one verification query for each kind of record, and `lifecycle` the one
//!   operation that writes, which marks a datapoint stale. Each gives a `plan`: the
//!   statements to send, in order, what the failure of each means, and how the last reply
//!   is read.
//! - `query` builds the text of a read from its conditions and its policy on duplicate
//!   rows; `ident` and `escape` say how identities and free text get into a `statement`.
//! - `run` carries a plan out, one statement at a time. It holds no connection: the caller
//!   sends the pending statement and records the reply.
//! - `rows` reads a reply as a single row, as one row on each line, or strictly, as a row
//!   of a known shape; `json` is where `serde_json` comes in.
//! - `address` says where to connect.

pub mod address;
pub mod catalog;
pub mod escape;
pub mod ident;
pub mod json;
pub mod lifecycle;
pub mod plan;
pub mod query;
pub mod rows;
pub mod run;
pub mod statement;
pub mod text;

pub use address::get_clickhouse;
pub use catalog::{
    select_batch_model_inference_clickhouse, select_batch_model_inferences_clickhouse,
    select_chat_datapoint_clickhouse, select_chat_inference_clickhouse,
    select_feedback_by_target_id_clickhouse, select_feedback_clickhouse,
    select_feedback_tags_clickhouse, select_human_static_evaluation_feedback_clickhouse,
    select_inference_tags_clickhouse, select_json_datapoint_clickhouse,
    select_json_inference_clickhouse, select_latest_batch_request_clickhouse,
    select_model_inference_clickhouse, select_model_inferences_clickhouse,
    StaticEvaluationHumanFeedback,
};
pub use escape::escape_string_for_clickhouse_comparison;
pub use ident::RecordId;
pub use lifecycle::stale_datapoint_clickhouse;
pub use plan::{clickhouse_flush_async_insert, Expect, OnFailure, Plan, Settings, Step};
pub use run::{Outcome, Run};
pub use statement::{Binding, Statement};
