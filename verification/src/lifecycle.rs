//! Marking a datapoint stale: a new version of its row, stamped by the store.

use crate::ident::RecordId;
use crate::query::current_version;
use crate::plan::{flush_step, Expect, OnFailure, Plan, PlanView, Settings, Step, StepView};
use crate::statement::{plain_statement, Statement};
use vstd::prelude::*;
use vstd::string::StringExecFns;

verus! {

/// The names in order, with a comma and a blank between two of them.
pub open spec fn listed(names: Seq<Seq<char>>) -> Seq<char>
    decreases names.len(),
{
    if names.len() == 0 {
        Seq::empty()
    } else if names.len() == 1 {
        names[0]
    } else {
        listed(names.drop_last()) + ", "@ + names.last()
    }
}

/// The names of a list, each as plain text.
pub open spec fn names_view(names: Seq<&str>) -> Seq<Seq<char>> {
    names.map_values(|n: &str| n@)
}

/// The two columns that say when a version was marked stale and when it was written.
pub open spec fn stamp_columns() -> Seq<Seq<char>> {
    seq!["staled_at"@, "updated_at"@]
}

/// What the new version gets in the two stamp columns: the store's time at the insert.
pub open spec fn stamp_values() -> Seq<Seq<char>> {
    seq!["now64() as staled_at"@, "now64() as updated_at"@]
}

/// The insert that gives the record with the identity a new version in `table`: the
/// `carried` columns are copied from the record's current version, which the collapsed view
/// of the table picks among the versions there are, and the two stamp columns are set anew. Where the table has no
/// such record, the insert writes nothing.
pub open spec fn restamp_text(table: Seq<char>, carried: Seq<Seq<char>>, id: u128) -> Seq<char> {
    restamp_head(table, carried) + current_version(table, id)
}

/// The front of the insert: the columns that the new version has, and what goes into each.
pub open spec fn restamp_head(table: Seq<char>, carried: Seq<Seq<char>>) -> Seq<char> {
    "INSERT INTO "@ + table + " ("@ + listed(carried + stamp_columns()) + ") SELECT "@ + listed(
        carried + stamp_values(),
    )
}

/// The insert as a step: its failure is passed over, for a datapoint is in one of the two
/// datapoint tables and the insert into the other has nothing to copy.
pub open spec fn restamp_step(table: Seq<char>, carried: Seq<Seq<char>>, id: u128) -> StepView {
    StepView {
        statement: plain_statement(restamp_text(table, carried, id)),
        on_failure: OnFailure::Ignore,
    }
}

/// The columns of a chat datapoint that a new version takes over.
pub open spec fn chat_datapoint_columns() -> Seq<Seq<char>> {
    seq![
        "dataset_name"@,
        "function_name"@,
        "id"@,
        "episode_id"@,
        "input"@,
        "output"@,
        "tool_params"@,
        "tags"@,
        "auxiliary"@,
        "is_deleted"@,
        "source_inference_id"@,
    ]
}

/// The columns of a structured-output datapoint that a new version takes over.
pub open spec fn json_datapoint_columns() -> Seq<Seq<char>> {
    seq![
        "dataset_name"@,
        "function_name"@,
        "id"@,
        "episode_id"@,
        "input"@,
        "output"@,
        "output_schema"@,
        "tags"@,
        "auxiliary"@,
        "is_deleted"@,
        "source_inference_id"@,
    ]
}

/// The plan that marks a datapoint stale: the insert into the chat table, then the flush
/// where the store queues inserts, then the insert into the structured-output table.
pub open spec fn stale_plan(flush: bool, id: u128) -> PlanView {
    let chat = restamp_step("ChatInferenceDatapoint"@, chat_datapoint_columns(), id);
    let json = restamp_step("JsonInferenceDatapoint"@, json_datapoint_columns(), id);
    PlanView {
        steps: if flush {
            seq![chat, flush_step(), json]
        } else {
            seq![chat, json]
        },
        expect: Expect::Nothing,
    }
}

/// Appends the names to `text`, with a comma and a blank between two of them.
fn write_listed(text: &mut String, names: &Vec<&str>)
    ensures
        final(text)@ == old(text)@ + listed(names_view(names@)),
{
    let ghost all = names_view(names@);
    let mut i: usize = 0;
    while i < names.len()
        invariant
            i <= names.len(),
            all == names_view(names@),
            text@ == old(text)@ + listed(all.take(i as int)),
        decreases names.len() - i,
    {
        proof {
            let next = all.take(i + 1);
            assert(next.drop_last() == all.take(i as int));
        }
        if i > 0 {
            text.append(", ");
        }
        text.append(names[i]);
        i = i + 1;
    }
    assert(all.take(i as int) == all);
}

/// The names of `carried`, then `first`, then `second`.
fn with_two<'a>(carried: &Vec<&'a str>, first: &'a str, second: &'a str) -> (all: Vec<&'a str>)
    ensures
        names_view(all@) == names_view(carried@) + seq![first@, second@],
{
    let mut all: Vec<&'a str> = Vec::new();
    let mut i: usize = 0;
    while i < carried.len()
        invariant
            i <= carried.len(),
            all@ == carried@.take(i as int),
        decreases carried.len() - i,
    {
        all.push(carried[i]);
        i = i + 1;
    }
    all.push(first);
    all.push(second);
    all
}

/// The step that gives the record a new version in `table`.
fn restamp(table: &str, carried: &Vec<&str>, id: RecordId) -> (step: Step)
    ensures
        step@ == restamp_step(table@, names_view(carried@), id.value),
{
    let columns = with_two(carried, "staled_at", "updated_at");
    let values = with_two(carried, "now64() as staled_at", "now64() as updated_at");
    let canonical = id.canonical();
    let mut text = String::from_str("INSERT INTO ");
    text.append(table);
    text.append(" (");
    write_listed(&mut text, &columns);
    text.append(") SELECT ");
    write_listed(&mut text, &values);
    text.append(" FROM ");
    text.append(table);
    text.append(" FINAL");
    text.append(" WHERE ");
    text.append("id");
    text.append(" = '");
    text.append(canonical.as_str());
    text.append("'");
    assert(text@ =~= restamp_text(table@, names_view(carried@), id.value));
    Step { statement: Statement::plain(text), on_failure: OnFailure::Ignore }
}

/// The plan that marks the datapoint with the given identity stale. Each of the two
/// datapoint tables gets an insert that copies the datapoint's current version and stamps
/// the copy with the store's time; the store lets the latest version stand for the
/// datapoint. The datapoint is in one of the two tables, so one insert writes a row and the
/// other none: neither can fail the operation, and nothing is read back.
pub fn stale_datapoint_clickhouse(settings: &Settings, datapoint_id: RecordId) -> (plan: Plan)
    ensures
        plan@ == stale_plan(settings.async_ingestion_flush_enabled, datapoint_id.value),
{
    let chat_columns = vec![
        "dataset_name",
        "function_name",
        "id",
        "episode_id",
        "input",
        "output",
        "tool_params",
        "tags",
        "auxiliary",
        "is_deleted",
        "source_inference_id",
    ];
    let json_columns = vec![
        "dataset_name",
        "function_name",
        "id",
        "episode_id",
        "input",
        "output",
        "output_schema",
        "tags",
        "auxiliary",
        "is_deleted",
        "source_inference_id",
    ];
    assert(names_view(chat_columns@) =~= chat_datapoint_columns());
    assert(names_view(json_columns@) =~= json_datapoint_columns());
    let mut steps: Vec<Step> = Vec::new();
    steps.push(restamp("ChatInferenceDatapoint", &chat_columns, datapoint_id));
    if settings.async_ingestion_flush_enabled {
        steps.push(Step::flush());
    }
    steps.push(restamp("JsonInferenceDatapoint", &json_columns, datapoint_id));
    let plan = Plan { steps, expect: Expect::Nothing };
    assert(plan@.steps =~= stale_plan(
        settings.async_ingestion_flush_enabled,
        datapoint_id.value,
    ).steps);
    plan
}

/// A new version differs from the one it copies in the two stamps alone: the insert names
/// as many columns as it selects, every column before the stamps is selected under its own
/// name, and the stamps come last, each set to the store's time.
pub proof fn lemma_restamp_overrides_stamps_only(carried: Seq<Seq<char>>)
    ensures
        (carried + stamp_columns()).len() == (carried + stamp_values()).len(),
        forall|i: int|
            0 <= i < carried.len() ==> (carried + stamp_columns())[i] == (carried + stamp_values())[i],
        (carried + stamp_columns()).skip(carried.len() as int) == stamp_columns(),
        (carried + stamp_values()).skip(carried.len() as int) == stamp_values(),
{
}

} // verus!
