use clickhouse_readback::ident::RecordId;
use clickhouse_readback::lifecycle::stale_datapoint_clickhouse;
use clickhouse_readback::plan::{Expect, OnFailure, Settings};

const ID: u128 = 0x0196c682_3a1b_7c4d_9e2f_5a6b7c8d9e0f;

const CHAT_INSERT: &str = "INSERT INTO ChatInferenceDatapoint (dataset_name, function_name, id, episode_id, input, output, tool_params, tags, auxiliary, is_deleted, source_inference_id, staled_at, updated_at) SELECT dataset_name, function_name, id, episode_id, input, output, tool_params, tags, auxiliary, is_deleted, source_inference_id, now64() as staled_at, now64() as updated_at FROM ChatInferenceDatapoint FINAL WHERE id = '0196c682-3a1b-7c4d-9e2f-5a6b7c8d9e0f'";

const JSON_INSERT: &str = "INSERT INTO JsonInferenceDatapoint (dataset_name, function_name, id, episode_id, input, output, output_schema, tags, auxiliary, is_deleted, source_inference_id, staled_at, updated_at) SELECT dataset_name, function_name, id, episode_id, input, output, output_schema, tags, auxiliary, is_deleted, source_inference_id, now64() as staled_at, now64() as updated_at FROM JsonInferenceDatapoint FINAL WHERE id = '0196c682-3a1b-7c4d-9e2f-5a6b7c8d9e0f'";

#[test]
fn stale_mark_inserts_into_both_tables_with_the_flush_between() {
    let settings = Settings { async_ingestion_flush_enabled: true };
    let plan = stale_datapoint_clickhouse(&settings, RecordId::from_u128(ID));
    assert_eq!(plan.expect, Expect::Nothing);
    assert_eq!(plan.steps.len(), 3);
    assert_eq!(plan.steps[0].statement.text, CHAT_INSERT);
    assert_eq!(plan.steps[0].on_failure, OnFailure::Ignore);
    assert_eq!(plan.steps[1].statement.text, "SYSTEM FLUSH ASYNC INSERT QUEUE");
    assert_eq!(plan.steps[1].on_failure, OnFailure::Warn);
    assert_eq!(plan.steps[2].statement.text, JSON_INSERT);
    assert_eq!(plan.steps[2].on_failure, OnFailure::Ignore);
    for step in &plan.steps {
        assert!(step.statement.bindings.is_empty());
    }
}

#[test]
fn stale_mark_without_a_queue_has_the_two_inserts() {
    let settings = Settings { async_ingestion_flush_enabled: false };
    let plan = stale_datapoint_clickhouse(&settings, RecordId::from_u128(ID));
    assert_eq!(plan.expect, Expect::Nothing);
    assert_eq!(plan.steps.len(), 2);
    assert_eq!(plan.steps[0].statement.text, CHAT_INSERT);
    assert_eq!(plan.steps[0].on_failure, OnFailure::Ignore);
    assert_eq!(plan.steps[1].statement.text, JSON_INSERT);
    assert_eq!(plan.steps[1].on_failure, OnFailure::Ignore);
}

#[test]
fn stale_mark_copies_every_column_but_the_stamps() {
    let settings = Settings { async_ingestion_flush_enabled: false };
    let plan = stale_datapoint_clickhouse(&settings, RecordId::from_u128(ID));
    for step in &plan.steps {
        let text = &step.statement.text;
        let inserted = &text[text.find(" (").unwrap() + 2..text.find(") SELECT ").unwrap()];
        let selected = &text[text.find(") SELECT ").unwrap() + 9..text.find(" FROM ").unwrap()];
        let inserted: Vec<&str> = inserted.split(", ").collect();
        let selected: Vec<&str> = selected.split(", ").collect();
        assert_eq!(inserted.len(), 13);
        assert_eq!(selected.len(), 13);
        assert_eq!(inserted[..11], selected[..11]);
        assert_eq!(inserted[11..], ["staled_at", "updated_at"]);
        assert_eq!(selected[11..], ["now64() as staled_at", "now64() as updated_at"]);
    }
}

#[test]
fn stale_mark_asks_the_same_each_time() {
    let settings = Settings { async_ingestion_flush_enabled: true };
    let first = stale_datapoint_clickhouse(&settings, RecordId::from_u128(ID));
    let second = stale_datapoint_clickhouse(&settings, RecordId::from_u128(ID));
    assert_eq!(first.steps.len(), second.steps.len());
    for (a, b) in first.steps.iter().zip(second.steps.iter()) {
        assert_eq!(a.statement.text, b.statement.text);
        assert_eq!(a.on_failure, b.on_failure);
    }
}
