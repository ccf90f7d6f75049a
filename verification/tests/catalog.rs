use clickhouse_readback::catalog::{
    select_batch_model_inference_clickhouse, select_batch_model_inferences_clickhouse,
    select_chat_datapoint_clickhouse, select_chat_inference_clickhouse,
    select_feedback_by_target_id_clickhouse, select_feedback_clickhouse,
    select_feedback_tags_clickhouse, select_human_static_evaluation_feedback_clickhouse,
    select_inference_tags_clickhouse, select_json_datapoint_clickhouse,
    select_json_inference_clickhouse, select_latest_batch_request_clickhouse,
    select_model_inference_clickhouse, select_model_inferences_clickhouse,
    StaticEvaluationHumanFeedback,
};
use clickhouse_readback::ident::RecordId;
use clickhouse_readback::lifecycle::stale_datapoint_clickhouse;
use clickhouse_readback::plan::{
    clickhouse_flush_async_insert, Expect, OnFailure, Plan, Settings, Step,
};

const ID: u128 = 0x0196c682_3a1b_7c4d_9e2f_5a6b7c8d9e0f;
const ID_TEXT: &str = "0196c682-3a1b-7c4d-9e2f-5a6b7c8d9e0f";
const FLUSH: &str = "SYSTEM FLUSH ASYNC INSERT QUEUE";

fn id() -> RecordId {
    RecordId::from_u128(ID)
}

fn queued() -> Settings {
    Settings { async_ingestion_flush_enabled: true }
}

fn direct() -> Settings {
    Settings { async_ingestion_flush_enabled: false }
}

/// Checks a read that comes after a flush, and returns the bindings of its statement.
fn flushed_read(plan: &Plan, text: &str, expect: Expect) -> Vec<(String, String)> {
    assert_eq!(plan.steps.len(), 2);
    assert_eq!(plan.steps[0].statement.text, FLUSH);
    assert!(plan.steps[0].statement.bindings.is_empty());
    assert_eq!(plan.steps[0].on_failure, OnFailure::Warn);
    assert_eq!(plan.steps[1].statement.text, text);
    assert_eq!(plan.steps[1].on_failure, OnFailure::Abort);
    assert_eq!(plan.expect, expect);
    plan.steps[1].statement.bindings.iter().map(|b| (b.name.clone(), b.value.clone())).collect()
}

/// Checks a read that stands alone, and returns the bindings of its statement.
fn lone_read(plan: &Plan, text: &str, expect: Expect) -> Vec<(String, String)> {
    assert_eq!(plan.steps.len(), 1);
    assert_eq!(plan.steps[0].statement.text, text);
    assert_eq!(plan.steps[0].on_failure, OnFailure::Abort);
    assert_eq!(plan.expect, expect);
    plan.steps[0].statement.bindings.iter().map(|b| (b.name.clone(), b.value.clone())).collect()
}

fn pair(name: &str, value: &str) -> (String, String) {
    (name.to_string(), value.to_string())
}

#[test]
fn flush_is_the_queue_command_with_a_warning() {
    let plan = clickhouse_flush_async_insert();
    assert_eq!(plan.expect, Expect::Nothing);
    assert_eq!(plan.steps.len(), 1);
    assert_eq!(plan.steps[0].statement.text, "SYSTEM FLUSH ASYNC INSERT QUEUE");
    assert!(plan.steps[0].statement.bindings.is_empty());
    assert_eq!(plan.steps[0].on_failure, OnFailure::Warn);
    let step = Step::flush();
    assert_eq!(step.statement.text, "SYSTEM FLUSH ASYNC INSERT QUEUE");
    assert!(step.statement.bindings.is_empty());
    assert_eq!(step.on_failure, OnFailure::Warn);
}

#[test]
fn chat_datapoint_is_read_by_id_from_the_collapsed_view() {
    let text = format!(
        "SELECT * FROM ChatInferenceDatapoint FINAL WHERE id = '{ID_TEXT}' LIMIT 1 FORMAT JSONEachRow"
    );
    let plan = select_chat_datapoint_clickhouse(&queued(), id());
    assert!(flushed_read(&plan, &text, Expect::OneRow).is_empty());
    let plan = select_chat_datapoint_clickhouse(&direct(), id());
    assert!(lone_read(&plan, &text, Expect::OneRow).is_empty());
}

#[test]
fn json_datapoint_is_read_by_id_from_the_collapsed_view() {
    let text = format!(
        "SELECT * FROM JsonInferenceDatapoint FINAL WHERE id = '{ID_TEXT}' LIMIT 1 FORMAT JSONEachRow"
    );
    let plan = select_json_datapoint_clickhouse(&queued(), id());
    assert!(flushed_read(&plan, &text, Expect::OneRow).is_empty());
    let plan = select_json_datapoint_clickhouse(&direct(), id());
    assert!(lone_read(&plan, &text, Expect::OneRow).is_empty());
}

#[test]
fn chat_inference_is_read_by_id_capped() {
    let text = format!("SELECT * FROM ChatInference WHERE id = '{ID_TEXT}' LIMIT 1 FORMAT JSONEachRow");
    let plan = select_chat_inference_clickhouse(&queued(), id());
    assert!(flushed_read(&plan, &text, Expect::OneRow).is_empty());
    let plan = select_chat_inference_clickhouse(&direct(), id());
    assert!(lone_read(&plan, &text, Expect::OneRow).is_empty());
}

#[test]
fn json_inference_is_read_by_id_capped() {
    let text = format!("SELECT * FROM JsonInference WHERE id = '{ID_TEXT}' LIMIT 1 FORMAT JSONEachRow");
    let plan = select_json_inference_clickhouse(&queued(), id());
    assert!(flushed_read(&plan, &text, Expect::OneRow).is_empty());
    let plan = select_json_inference_clickhouse(&direct(), id());
    assert!(lone_read(&plan, &text, Expect::OneRow).is_empty());
}

#[test]
fn model_inference_is_read_by_inference_id_capped() {
    let text = format!(
        "SELECT * FROM ModelInference WHERE inference_id = '{ID_TEXT}' LIMIT 1 FORMAT JSONEachRow"
    );
    let plan = select_model_inference_clickhouse(&queued(), id());
    assert!(flushed_read(&plan, &text, Expect::OneRow).is_empty());
    let plan = select_model_inference_clickhouse(&direct(), id());
    assert!(lone_read(&plan, &text, Expect::OneRow).is_empty());
}

#[test]
fn model_inferences_are_read_without_a_cap() {
    let text =
        format!("SELECT * FROM ModelInference WHERE inference_id = '{ID_TEXT}' FORMAT JSONEachRow");
    let plan = select_model_inferences_clickhouse(&queued(), id());
    assert!(flushed_read(&plan, &text, Expect::AllRows).is_empty());
    let plan = select_model_inferences_clickhouse(&direct(), id());
    assert!(lone_read(&plan, &text, Expect::AllRows).is_empty());
}

#[test]
fn inference_tag_binds_its_three_texts() {
    let text = format!(
        "SELECT * FROM InferenceTag WHERE function_name = {{function_name:String}} AND key = {{tag_key:String}} AND value = {{tag_value:String}} AND inference_id = '{ID_TEXT}' FORMAT JSONEachRow"
    );
    let plan = select_inference_tags_clickhouse(&queued(), "write_haiku", "user's", "a\\b", id());
    let expected =
        vec![pair("function_name", "write_haiku"), pair("tag_key", "user's"), pair("tag_value", "a\\b")];
    assert_eq!(flushed_read(&plan, &text, Expect::OneRow), expected);
    let plan = select_inference_tags_clickhouse(&direct(), "write_haiku", "user's", "a\\b", id());
    assert_eq!(lone_read(&plan, &text, Expect::OneRow), expected);
}

#[test]
fn batch_model_inference_goes_through_the_join_and_never_flushes() {
    let text = format!(
        "SELECT bmi.* FROM BatchModelInference bmi INNER JOIN BatchIdByInferenceId bid ON bmi.inference_id = bid.inference_id WHERE bid.inference_id = '{ID_TEXT}' FORMAT JSONEachRow"
    );
    let plan = select_batch_model_inference_clickhouse(id());
    assert!(lone_read(&plan, &text, Expect::OneRow).is_empty());
}

#[test]
fn batch_model_inferences_are_read_by_batch_and_never_flush() {
    let text = format!(
        "SELECT bmi.* FROM BatchModelInference bmi WHERE bmi.batch_id = '{ID_TEXT}' FORMAT JSONEachRow"
    );
    let plan = select_batch_model_inferences_clickhouse(id());
    assert!(lone_read(&plan, &text, Expect::AllRows).is_empty());
}

#[test]
fn latest_batch_request_is_the_most_recent_by_timestamp() {
    let text = format!(
        "SELECT * FROM BatchRequest WHERE batch_id = '{ID_TEXT}' ORDER BY timestamp DESC LIMIT 1 FORMAT JSONEachRow"
    );
    let plan = select_latest_batch_request_clickhouse(id());
    assert!(lone_read(&plan, &text, Expect::OneRow).is_empty());
}

#[test]
fn feedback_is_read_from_the_named_table() {
    let text = format!("SELECT * FROM BooleanMetricFeedback WHERE id = '{ID_TEXT}' FORMAT JSONEachRow");
    let plan = select_feedback_clickhouse(&queued(), "BooleanMetricFeedback", id());
    assert!(flushed_read(&plan, &text, Expect::OneRow).is_empty());
    let plan = select_feedback_clickhouse(&direct(), "BooleanMetricFeedback", id());
    assert!(lone_read(&plan, &text, Expect::OneRow).is_empty());
}

#[test]
fn feedback_by_target_with_a_metric_binds_its_name() {
    let text = format!(
        "SELECT * FROM FloatMetricFeedback WHERE target_id = '{ID_TEXT}' AND metric_name = {{metric_name:String}} FORMAT JSONEachRow"
    );
    let plan =
        select_feedback_by_target_id_clickhouse(&queued(), "FloatMetricFeedback", id(), Some("accuracy"));
    assert_eq!(flushed_read(&plan, &text, Expect::OneRow), vec![pair("metric_name", "accuracy")]);
    let plan =
        select_feedback_by_target_id_clickhouse(&direct(), "FloatMetricFeedback", id(), Some("accuracy"));
    assert_eq!(lone_read(&plan, &text, Expect::OneRow), vec![pair("metric_name", "accuracy")]);
}

#[test]
fn feedback_by_target_without_a_metric_says_nothing_of_it() {
    let text =
        format!("SELECT * FROM FloatMetricFeedback WHERE target_id = '{ID_TEXT}' FORMAT JSONEachRow");
    let plan = select_feedback_by_target_id_clickhouse(&queued(), "FloatMetricFeedback", id(), None);
    assert!(flushed_read(&plan, &text, Expect::OneRow).is_empty());
    assert!(!plan.steps[1].statement.text.contains("metric_name"));
    let plan = select_feedback_by_target_id_clickhouse(&direct(), "FloatMetricFeedback", id(), None);
    assert!(lone_read(&plan, &text, Expect::OneRow).is_empty());
}

#[test]
fn feedback_tag_binds_its_three_texts() {
    let text = "SELECT * FROM FeedbackTag WHERE metric_name = {metric_name:String} AND key = {tag_key:String} AND value = {tag_value:String} FORMAT JSONEachRow";
    let plan = select_feedback_tags_clickhouse(&queued(), "accuracy", "key", "value");
    let expected = vec![pair("metric_name", "accuracy"), pair("tag_key", "key"), pair("tag_value", "value")];
    assert_eq!(flushed_read(&plan, text, Expect::OneRow), expected);
    let plan = select_feedback_tags_clickhouse(&direct(), "accuracy", "key", "value");
    assert_eq!(lone_read(&plan, text, Expect::OneRow), expected);
}

#[test]
fn human_feedback_binds_all_three_values_and_escapes_the_output() {
    let text = "SELECT * FROM StaticEvaluationHumanFeedback WHERE metric_name = {metric_name:String} AND datapoint_id = {datapoint_id:UUID} AND output = {output:String} FORMAT JSONEachRow";
    let output = "[{\"type\":\"text\",\"text\":\"it's a \\\"haiku\\\"\"}]";
    let plan = select_human_static_evaluation_feedback_clickhouse("exact_match", id(), output);
    let bindings = lone_read(&plan, text, Expect::OneShapedRow);
    assert_eq!(
        bindings,
        vec![
            pair("metric_name", "exact_match"),
            pair("datapoint_id", ID_TEXT),
            pair("output", "[{\"type\":\"text\",\"text\":\"it\\'s a \\\\\"haiku\\\\\"\"}]"),
        ]
    );
}

#[test]
fn human_feedback_statement_is_the_same_for_every_output() {
    let plain = select_human_static_evaluation_feedback_clickhouse("m", id(), "plain");
    let hostile = select_human_static_evaluation_feedback_clickhouse("m", id(), "' OR 1 = 1 --");
    assert_eq!(plain.steps[0].statement.text, hostile.steps[0].statement.text);
    assert_eq!(hostile.steps[0].statement.bindings[2].value, "\\' OR 1 = 1 --");
}

#[test]
fn reads_of_different_identities_differ() {
    let one = select_json_inference_clickhouse(&direct(), RecordId::from_u128(1));
    let two = select_json_inference_clickhouse(&direct(), RecordId::from_u128(2));
    assert_ne!(one.steps[0].statement.text, two.steps[0].statement.text);
}

#[test]
fn human_feedback_record_holds_its_five_fields() {
    let record = StaticEvaluationHumanFeedback {
        metric_name: "exact_match".to_string(),
        datapoint_id: id(),
        output: "{}".to_string(),
        value: "true".to_string(),
        feedback_id: RecordId::from_u128(7),
    };
    let copy = record.clone();
    assert_eq!(copy, record);
    assert_eq!(copy.datapoint_id.canonical(), ID_TEXT);
    assert_eq!(copy.feedback_id.as_u128(), 7);
}

#[test]
fn catalog_is_reached_from_the_root_of_the_library() {
    let plan = clickhouse_readback::select_chat_inference_clickhouse(&direct(), id());
    let same = select_chat_inference_clickhouse(&direct(), id());
    assert_eq!(plan.steps[0].statement.text, same.steps[0].statement.text);
    assert_eq!(clickhouse_readback::escape_string_for_clickhouse_comparison("a'b"), "a\\'b");
    let marked = clickhouse_readback::stale_datapoint_clickhouse(&direct(), id());
    assert_eq!(marked.steps.len(), 2);
}

#[test]
fn datapoint_reads_name_the_view_that_the_stale_mark_copies_from() {
    let marked = stale_datapoint_clickhouse(&direct(), id());
    let reads = [
        select_chat_datapoint_clickhouse(&direct(), id()),
        select_json_datapoint_clickhouse(&direct(), id()),
    ];
    for (read, insert) in reads.iter().zip(marked.steps.iter()) {
        let read = &read.steps[0].statement.text;
        let insert = &insert.statement.text;
        let view = &insert[insert.find(" FROM ").unwrap()..];
        assert!(view.contains(" FINAL WHERE id = '"));
        assert_eq!(read, &format!("SELECT *{view} LIMIT 1 FORMAT JSONEachRow"));
    }
}

#[test]
fn only_the_datapoint_reads_are_of_the_collapsed_view() {
    let others = [
        select_chat_inference_clickhouse(&direct(), id()),
        select_json_inference_clickhouse(&direct(), id()),
        select_model_inference_clickhouse(&direct(), id()),
        select_model_inferences_clickhouse(&direct(), id()),
        select_latest_batch_request_clickhouse(id()),
        select_batch_model_inference_clickhouse(id()),
        select_batch_model_inferences_clickhouse(id()),
        select_feedback_clickhouse(&direct(), "CommentFeedback", id()),
    ];
    for plan in &others {
        assert!(!plan.steps[0].statement.text.contains(" FINAL"));
    }
}
