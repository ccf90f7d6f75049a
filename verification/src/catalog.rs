//! The verification queries, one for each kind of record.

use crate::escape::{escape_string_for_clickhouse_comparison, escaped};
use crate::ident::{
    hyphenated, id_number, lemma_hyphenated_alphabet, lemma_hyphenated_injective, RecordId,
};
use crate::plan::{read_plan, Expect, Plan, Settings};
use crate::lifecycle::{chat_datapoint_columns, json_datapoint_columns, restamp_head, restamp_text};
use crate::query::{
    all_bindings, conjunction, current_version, one_row_cap, row_format, select_text, view_clause,
    Condition, ConditionView, ReadPolicy, Select, SelectView,
};
use crate::statement::distinct_names;
use crate::text::optional_text;
use vstd::prelude::*;
use vstd::string::StringExecFns;

verus! {

/// A human judgement of one output, as the store holds it.
#[derive(Clone, Debug, PartialEq, Eq)]
pub struct StaticEvaluationHumanFeedback {
    pub metric_name: String,
    pub datapoint_id: RecordId,
    pub output: String,
    pub value: String,
    pub feedback_id: RecordId,
}

/// The read of every column of `source` where `column` is the identity.
pub open spec fn keyed_read(
    source: Seq<char>,
    column: Seq<char>,
    id: u128,
    policy: ReadPolicy,
) -> SelectView {
    SelectView {
        projection: "*"@,
        source,
        conditions: seq![ConditionView::IdIs { column, id }],
        policy,
    }
}

/// The read of the current version of the chat datapoint with the identity.
pub open spec fn chat_datapoint_read(id: u128) -> SelectView {
    keyed_read("ChatInferenceDatapoint"@, "id"@, id, ReadPolicy::Collapsed)
}

/// The read of the current version of the structured-output datapoint with the identity.
pub open spec fn json_datapoint_read(id: u128) -> SelectView {
    keyed_read("JsonInferenceDatapoint"@, "id"@, id, ReadPolicy::Collapsed)
}

/// The read of the tags with the given key and value that belong to `owner` (the column
/// `owner_column`), and to the identity where one is given.
pub open spec fn tag_read(
    source: Seq<char>,
    owner_column: Seq<char>,
    owner: Seq<char>,
    key: Seq<char>,
    value: Seq<char>,
    id: Option<u128>,
) -> SelectView {
    let texts = seq![
        ConditionView::TextIs { column: owner_column, name: owner_column, value: owner },
        ConditionView::TextIs { column: "key"@, name: "tag_key"@, value: key },
        ConditionView::TextIs { column: "value"@, name: "tag_value"@, value },
    ];
    SelectView {
        projection: "*"@,
        source,
        conditions: match id {
            Some(id) => texts.push(ConditionView::IdIs { column: "inference_id"@, id }),
            None => texts,
        },
        policy: ReadPolicy::Every,
    }
}

/// The read of the batch rows that belong to an inference, found through the table that
/// maps an inference to its batch.
pub open spec fn batch_row_of_inference_read(inference_id: u128) -> SelectView {
    SelectView {
        projection: "bmi.*"@,
        source: "BatchModelInference bmi INNER JOIN BatchIdByInferenceId bid ON bmi.inference_id = bid.inference_id"@,
        conditions: seq![ConditionView::IdIs { column: "bid.inference_id"@, id: inference_id }],
        policy: ReadPolicy::Every,
    }
}

/// The read of the batch rows of a batch.
pub open spec fn batch_rows_read(batch_id: u128) -> SelectView {
    SelectView {
        projection: "bmi.*"@,
        source: "BatchModelInference bmi"@,
        conditions: seq![ConditionView::IdIs { column: "bmi.batch_id"@, id: batch_id }],
        policy: ReadPolicy::Every,
    }
}

/// The read of the feedback given on a target, for one metric where one is named and for
/// any metric where none is.
pub open spec fn feedback_by_target_read(
    table_name: Seq<char>,
    target_id: u128,
    metric_name: Option<Seq<char>>,
) -> SelectView {
    let target = seq![ConditionView::IdIs { column: "target_id"@, id: target_id }];
    SelectView {
        projection: "*"@,
        source: table_name,
        conditions: match metric_name {
            Some(metric_name) => target.push(
                ConditionView::TextIs {
                    column: "metric_name"@,
                    name: "metric_name"@,
                    value: metric_name,
                },
            ),
            None => target,
        },
        policy: ReadPolicy::Every,
    }
}

/// The read of the human judgement of one output for a datapoint under a metric. The output
/// is compared in its escaped form.
pub open spec fn human_feedback_read(
    metric_name: Seq<char>,
    datapoint_id: u128,
    output: Seq<char>,
) -> SelectView {
    SelectView {
        projection: "*"@,
        source: "StaticEvaluationHumanFeedback"@,
        conditions: seq![
            ConditionView::TextIs {
                column: "metric_name"@,
                name: "metric_name"@,
                value: metric_name,
            },
            ConditionView::IdBound {
                column: "datapoint_id"@,
                name: "datapoint_id"@,
                id: datapoint_id,
            },
            ConditionView::TextIs { column: "output"@, name: "output"@, value: escaped(output) },
        ],
        policy: ReadPolicy::Every,
    }
}

/// The read of a table by an identity column.
fn keyed(source: &str, column: &str, id: RecordId, policy: ReadPolicy) -> (select: Select)
    ensures
        select@ == keyed_read(source@, column@, id.value, policy),
{
    let mut conditions: Vec<Condition> = Vec::new();
    conditions.push(Condition::IdIs { column: String::from_str(column), id });
    let select = Select {
        projection: String::from_str("*"),
        source: String::from_str(source),
        conditions,
        policy,
    };
    assert(select@.conditions =~= keyed_read(source@, column@, id.value, policy).conditions);
    select
}

/// The read of a tag table.
fn tagged(
    source: &str,
    owner_column: &str,
    owner: &str,
    key: &str,
    value: &str,
    id: Option<RecordId>,
) -> (select: Select)
    ensures
        select@ == tag_read(source@, owner_column@, owner@, key@, value@, id_number(id)),
{
    let mut conditions: Vec<Condition> = Vec::new();
    conditions.push(
        Condition::TextIs {
            column: String::from_str(owner_column),
            name: String::from_str(owner_column),
            value: String::from_str(owner),
        },
    );
    conditions.push(
        Condition::TextIs {
            column: String::from_str("key"),
            name: String::from_str("tag_key"),
            value: String::from_str(key),
        },
    );
    conditions.push(
        Condition::TextIs {
            column: String::from_str("value"),
            name: String::from_str("tag_value"),
            value: String::from_str(value),
        },
    );
    match id {
        Some(id) => {
            conditions.push(Condition::IdIs { column: String::from_str("inference_id"), id });
        },
        None => {},
    }
    let select = Select {
        projection: String::from_str("*"),
        source: String::from_str(source),
        conditions,
        policy: ReadPolicy::Every,
    };
    assert(select@.conditions =~= tag_read(
        source@,
        owner_column@,
        owner@,
        key@,
        value@,
        id_number(id),
    ).conditions);
    select
}

/// The chat datapoint with the given identity, in its current version. A datapoint has a
/// row for each version that was written, and the store keeps the superseded ones for a
/// while: the read is of the collapsed view, where the latest stands alone.
pub fn select_chat_datapoint_clickhouse(
    settings: &Settings,
    inference_id: RecordId,
) -> (plan: Plan)
    ensures
        plan@ == read_plan(
            settings.async_ingestion_flush_enabled,
            chat_datapoint_read(inference_id.value),
            Expect::OneRow,
        ),
{
    let select = keyed("ChatInferenceDatapoint", "id", inference_id, ReadPolicy::Collapsed);
    Plan::read(settings.async_ingestion_flush_enabled, &select, Expect::OneRow)
}

/// The structured-output datapoint with the given identity, in its current version. A
/// datapoint has a row for each version that was written, and the store keeps the
/// superseded ones for a while: the read is of the collapsed view, where the latest stands
/// alone.
pub fn select_json_datapoint_clickhouse(
    settings: &Settings,
    inference_id: RecordId,
) -> (plan: Plan)
    ensures
        plan@ == read_plan(
            settings.async_ingestion_flush_enabled,
            json_datapoint_read(inference_id.value),
            Expect::OneRow,
        ),
{
    let select = keyed("JsonInferenceDatapoint", "id", inference_id, ReadPolicy::Collapsed);
    Plan::read(settings.async_ingestion_flush_enabled, &select, Expect::OneRow)
}

/// The chat inference with the given identity. Polling a batch can write an inference
/// twice: one row is asked for.
pub fn select_chat_inference_clickhouse(
    settings: &Settings,
    inference_id: RecordId,
) -> (plan: Plan)
    ensures
        plan@ == read_plan(
            settings.async_ingestion_flush_enabled,
            keyed_read("ChatInference"@, "id"@, inference_id.value, ReadPolicy::AnyOne),
            Expect::OneRow,
        ),
{
    let select = keyed("ChatInference", "id", inference_id, ReadPolicy::AnyOne);
    Plan::read(settings.async_ingestion_flush_enabled, &select, Expect::OneRow)
}

/// The structured-output inference with the given identity. Polling a batch can write an
/// inference twice: one row is asked for.
pub fn select_json_inference_clickhouse(
    settings: &Settings,
    inference_id: RecordId,
) -> (plan: Plan)
    ensures
        plan@ == read_plan(
            settings.async_ingestion_flush_enabled,
            keyed_read("JsonInference"@, "id"@, inference_id.value, ReadPolicy::AnyOne),
            Expect::OneRow,
        ),
{
    let select = keyed("JsonInference", "id", inference_id, ReadPolicy::AnyOne);
    Plan::read(settings.async_ingestion_flush_enabled, &select, Expect::OneRow)
}

/// One model call of the inference with the given identity. An inference has a row for each
/// of its model calls, and polling a batch can write one twice: one row is asked for.
pub fn select_model_inference_clickhouse(
    settings: &Settings,
    inference_id: RecordId,
) -> (plan: Plan)
    ensures
        plan@ == read_plan(
            settings.async_ingestion_flush_enabled,
            keyed_read("ModelInference"@, "inference_id"@, inference_id.value, ReadPolicy::AnyOne),
            Expect::OneRow,
        ),
{
    let select = keyed("ModelInference", "inference_id", inference_id, ReadPolicy::AnyOne);
    Plan::read(settings.async_ingestion_flush_enabled, &select, Expect::OneRow)
}

/// Every model call of the inference with the given identity.
pub fn select_model_inferences_clickhouse(
    settings: &Settings,
    inference_id: RecordId,
) -> (plan: Plan)
    ensures
        plan@ == read_plan(
            settings.async_ingestion_flush_enabled,
            keyed_read("ModelInference"@, "inference_id"@, inference_id.value, ReadPolicy::Every),
            Expect::AllRows,
        ),
{
    let select = keyed("ModelInference", "inference_id", inference_id, ReadPolicy::Every);
    Plan::read(settings.async_ingestion_flush_enabled, &select, Expect::AllRows)
}

/// The tag of an inference of a function with the given key and value. The three texts are
/// bound, not written into the statement.
pub fn select_inference_tags_clickhouse(
    settings: &Settings,
    function_name: &str,
    tag_key: &str,
    tag_value: &str,
    inference_id: RecordId,
) -> (plan: Plan)
    ensures
        plan@ == read_plan(
            settings.async_ingestion_flush_enabled,
            tag_read(
                "InferenceTag"@,
                "function_name"@,
                function_name@,
                tag_key@,
                tag_value@,
                Some(inference_id.value),
            ),
            Expect::OneRow,
        ),
{
    let select = tagged(
        "InferenceTag",
        "function_name",
        function_name,
        tag_key,
        tag_value,
        Some(inference_id),
    );
    Plan::read(settings.async_ingestion_flush_enabled, &select, Expect::OneRow)
}

/// The batch row of the inference with the given identity. Batch tables are written
/// directly, so no flush comes first.
pub fn select_batch_model_inference_clickhouse(inference_id: RecordId) -> (plan: Plan)
    ensures
        plan@ == read_plan(
            false,
            batch_row_of_inference_read(inference_id.value),
            Expect::OneRow,
        ),
{
    let mut conditions: Vec<Condition> = Vec::new();
    conditions.push(
        Condition::IdIs { column: String::from_str("bid.inference_id"), id: inference_id },
    );
    let select = Select {
        projection: String::from_str("bmi.*"),
        source: String::from_str(
            "BatchModelInference bmi INNER JOIN BatchIdByInferenceId bid ON bmi.inference_id = bid.inference_id",
        ),
        conditions,
        policy: ReadPolicy::Every,
    };
    assert(select@.conditions =~= batch_row_of_inference_read(inference_id.value).conditions);
    Plan::read(false, &select, Expect::OneRow)
}

/// Every batch row of the batch with the given identity. Batch tables are written directly,
/// so no flush comes first.
pub fn select_batch_model_inferences_clickhouse(batch_id: RecordId) -> (plan: Plan)
    ensures
        plan@ == read_plan(false, batch_rows_read(batch_id.value), Expect::AllRows),
{
    let mut conditions: Vec<Condition> = Vec::new();
    conditions.push(Condition::IdIs { column: String::from_str("bmi.batch_id"), id: batch_id });
    let select = Select {
        projection: String::from_str("bmi.*"),
        source: String::from_str("BatchModelInference bmi"),
        conditions,
        policy: ReadPolicy::Every,
    };
    assert(select@.conditions =~= batch_rows_read(batch_id.value).conditions);
    Plan::read(false, &select, Expect::AllRows)
}

/// The latest state of the batch request with the given identity. Each change of state
/// writes a row: the one with the latest timestamp is asked for. Batch tables are written
/// directly, so no flush comes first.
pub fn select_latest_batch_request_clickhouse(batch_id: RecordId) -> (plan: Plan)
    ensures
        plan@ == read_plan(
            false,
            keyed_read("BatchRequest"@, "batch_id"@, batch_id.value, ReadPolicy::MostRecent),
            Expect::OneRow,
        ),
{
    let select = keyed("BatchRequest", "batch_id", batch_id, ReadPolicy::MostRecent);
    Plan::read(false, &select, Expect::OneRow)
}

/// The feedback with the given identity in the feedback table of the given name.
pub fn select_feedback_clickhouse(
    settings: &Settings,
    table_name: &str,
    feedback_id: RecordId,
) -> (plan: Plan)
    ensures
        plan@ == read_plan(
            settings.async_ingestion_flush_enabled,
            keyed_read(table_name@, "id"@, feedback_id.value, ReadPolicy::Every),
            Expect::OneRow,
        ),
{
    let select = keyed(table_name, "id", feedback_id, ReadPolicy::Every);
    Plan::read(settings.async_ingestion_flush_enabled, &select, Expect::OneRow)
}

/// The feedback given on the target with the given identity, in the feedback table of the
/// given name. Where a metric is named, its name is bound and the feedback must be for that
/// metric; where none is, the statement says nothing of the metric. Feedback tables take
/// queued inserts, so the flush comes first as for every read of one.
pub fn select_feedback_by_target_id_clickhouse(
    settings: &Settings,
    table_name: &str,
    target_id: RecordId,
    metric_name: Option<&str>,
) -> (plan: Plan)
    ensures
        plan@ == read_plan(
            settings.async_ingestion_flush_enabled,
            feedback_by_target_read(table_name@, target_id.value, optional_text(metric_name)),
            Expect::OneRow,
        ),
{
    let mut conditions: Vec<Condition> = Vec::new();
    conditions.push(Condition::IdIs { column: String::from_str("target_id"), id: target_id });
    match metric_name {
        Some(metric_name) => {
            conditions.push(
                Condition::TextIs {
                    column: String::from_str("metric_name"),
                    name: String::from_str("metric_name"),
                    value: String::from_str(metric_name),
                },
            );
        },
        None => {},
    }
    let select = Select {
        projection: String::from_str("*"),
        source: String::from_str(table_name),
        conditions,
        policy: ReadPolicy::Every,
    };
    assert(select@.conditions =~= feedback_by_target_read(
        table_name@,
        target_id.value,
        optional_text(metric_name),
    ).conditions);
    Plan::read(settings.async_ingestion_flush_enabled, &select, Expect::OneRow)
}

/// The tag of the feedback on a metric with the given key and value. The three texts are
/// bound, not written into the statement.
pub fn select_feedback_tags_clickhouse(
    settings: &Settings,
    metric_name: &str,
    tag_key: &str,
    tag_value: &str,
) -> (plan: Plan)
    ensures
        plan@ == read_plan(
            settings.async_ingestion_flush_enabled,
            tag_read("FeedbackTag"@, "metric_name"@, metric_name@, tag_key@, tag_value@, None),
            Expect::OneRow,
        ),
{
    let select = tagged("FeedbackTag", "metric_name", metric_name, tag_key, tag_value, None);
    Plan::read(settings.async_ingestion_flush_enabled, &select, Expect::OneRow)
}

/// The human judgement of `output` for the datapoint under the metric. The reply is a row
/// of a known shape, which the caller decodes; the three values are bound, the output in
/// its escaped form.
pub fn select_human_static_evaluation_feedback_clickhouse(
    metric_name: &str,
    datapoint_id: RecordId,
    output: &str,
) -> (plan: Plan)
    ensures
        plan@ == read_plan(
            false,
            human_feedback_read(metric_name@, datapoint_id.value, output@),
            Expect::OneShapedRow,
        ),
{
    let mut conditions: Vec<Condition> = Vec::new();
    conditions.push(
        Condition::TextIs {
            column: String::from_str("metric_name"),
            name: String::from_str("metric_name"),
            value: String::from_str(metric_name),
        },
    );
    conditions.push(
        Condition::IdBound {
            column: String::from_str("datapoint_id"),
            name: String::from_str("datapoint_id"),
            id: datapoint_id,
        },
    );
    conditions.push(
        Condition::TextIs {
            column: String::from_str("output"),
            name: String::from_str("output"),
            value: escape_string_for_clickhouse_comparison(output),
        },
    );
    let select = Select {
        projection: String::from_str("*"),
        source: String::from_str("StaticEvaluationHumanFeedback"),
        conditions,
        policy: ReadPolicy::Every,
    };
    assert(select@.conditions =~= human_feedback_read(
        metric_name@,
        datapoint_id.value,
        output@,
    ).conditions);
    Plan::read(false, &select, Expect::OneShapedRow)
}

/// A read by identity asks for that identity and no other: two such reads of one table
/// with the same text have the same identity.
pub proof fn lemma_keyed_reads_differ(
    source: Seq<char>,
    column: Seq<char>,
    a: u128,
    b: u128,
    policy: ReadPolicy,
)
    requires
        select_text(keyed_read(source, column, a, policy)) == select_text(
            keyed_read(source, column, b, policy),
        ),
    ensures
        a == b,
{
    reveal_with_fuel(conjunction, 2);
    lemma_hyphenated_alphabet(a);
    lemma_hyphenated_alphabet(b);
    let front = "SELECT "@ + "*"@ + " FROM "@ + source + view_clause(policy) + " WHERE "@ + column
        + " = '"@;
    let with_a = select_text(keyed_read(source, column, a, policy));
    let with_b = select_text(keyed_read(source, column, b, policy));
    assert(with_a.subrange(front.len() as int, front.len() as int + 36) =~= hyphenated(a));
    assert(with_b.subrange(front.len() as int, front.len() as int + 36) =~= hyphenated(b));
    lemma_hyphenated_injective(a, b);
}

/// Both datapoint reads are reads of the current version. Each names, right after its
/// table, the collapsed view, in which the latest version of a datapoint stands alone, and
/// narrows it to the identity; marking the datapoint stale copies from that same view
/// narrowed to that same identity. So a read after the mark is answered with the version
/// that the mark wrote, whether or not the store has yet removed the one before it.
pub proof fn lemma_datapoint_reads_the_current_version(id: u128)
    ensures
        select_text(chat_datapoint_read(id)) == "SELECT "@ + "*"@ + current_version(
            "ChatInferenceDatapoint"@,
            id,
        ) + one_row_cap() + row_format(),
        select_text(json_datapoint_read(id)) == "SELECT "@ + "*"@ + current_version(
            "JsonInferenceDatapoint"@,
            id,
        ) + one_row_cap() + row_format(),
        restamp_text("ChatInferenceDatapoint"@, chat_datapoint_columns(), id) == restamp_head(
            "ChatInferenceDatapoint"@,
            chat_datapoint_columns(),
        ) + current_version("ChatInferenceDatapoint"@, id),
        restamp_text("JsonInferenceDatapoint"@, json_datapoint_columns(), id) == restamp_head(
            "JsonInferenceDatapoint"@,
            json_datapoint_columns(),
        ) + current_version("JsonInferenceDatapoint"@, id),
{
    reveal_with_fuel(conjunction, 2);
}

/// The texts of a tag read are bound under three names, no two of them the same.
pub proof fn lemma_tag_read_names(
    source: Seq<char>,
    owner_column: Seq<char>,
    owner: Seq<char>,
    key: Seq<char>,
    value: Seq<char>,
    id: Option<u128>,
)
    requires
        owner_column != "tag_key"@,
        owner_column != "tag_value"@,
    ensures
        all_bindings(tag_read(source, owner_column, owner, key, value, id).conditions).len() == 3,
        distinct_names(
            all_bindings(tag_read(source, owner_column, owner, key, value, id).conditions),
        ),
{
    reveal_with_fuel(all_bindings, 5);
    reveal_strlit("tag_key");
    reveal_strlit("tag_value");
    let conditions = tag_read(source, owner_column, owner, key, value, id).conditions;
    let three = conditions.take(3);
    assert(all_bindings(three)[0].name == owner_column);
    assert(all_bindings(three)[1].name == "tag_key"@);
    assert(all_bindings(three)[2].name == "tag_value"@);
    assert(all_bindings(conditions) =~= all_bindings(three));
}

/// The three values of the read of a human judgement are bound under three names, no two
/// of them the same.
pub proof fn lemma_human_feedback_read_names(
    metric_name: Seq<char>,
    datapoint_id: u128,
    output: Seq<char>,
)
    ensures
        all_bindings(human_feedback_read(metric_name, datapoint_id, output).conditions).len() == 3,
        distinct_names(all_bindings(human_feedback_read(metric_name, datapoint_id, output).conditions)),
{
    reveal_with_fuel(all_bindings, 4);
    reveal_strlit("metric_name");
    reveal_strlit("datapoint_id");
    reveal_strlit("output");
    let conditions = human_feedback_read(metric_name, datapoint_id, output).conditions;
    let bound = all_bindings(conditions);
    assert(bound[0].name == "metric_name"@);
    assert(bound[1].name == "datapoint_id"@);
    assert(bound[2].name == "output"@);
}

} // verus!
