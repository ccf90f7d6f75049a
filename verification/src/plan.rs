//! Plans: the statements of one operation, in order, with what a failure of each means
//! and how the last reply is read.

use crate::query::{select_statement, Select, SelectView};
use crate::statement::{plain_statement, Statement, StatementView};
use vstd::prelude::*;
use vstd::string::StringExecFns;

verus! {

/// What is decided once, when the layer is set up.
#[derive(Clone, Copy, Debug, PartialEq, Eq, Structural)]
pub struct Settings {
    /// Whether the store takes inserts into a queue, so that a read of a table written that
    /// way must first have the queue flushed.
    pub async_ingestion_flush_enabled: bool,
}

/// What the failure of a statement means for the operation it belongs to.
#[derive(Clone, Copy, Debug, PartialEq, Eq, Structural)]
pub enum OnFailure {
    /// The operation fails with it.
    Abort,
    /// It is reported as a warning, and the operation goes on.
    Warn,
    /// It is passed over in silence, and the operation goes on.
    Ignore,
}

/// How the reply to the last statement of a plan is read.
#[derive(Clone, Copy, Debug, PartialEq, Eq, Structural)]
pub enum Expect {
    /// Not at all: the operation only writes.
    Nothing,
    /// As a single row.
    OneRow,
    /// As one row on each line.
    AllRows,
    /// As a single row of a known shape, which the caller decodes.
    OneShapedRow,
}

/// One statement of a plan.
#[derive(Debug)]
pub struct Step {
    pub statement: Statement,
    pub on_failure: OnFailure,
}

/// A `Step` as plain values.
pub struct StepView {
    pub statement: StatementView,
    pub on_failure: OnFailure,
}

impl View for Step {
    type V = StepView;

    open spec fn view(&self) -> StepView {
        StepView { statement: self.statement@, on_failure: self.on_failure }
    }
}

/// What one operation asks of the store.
#[derive(Debug)]
pub struct Plan {
    pub steps: Vec<Step>,
    pub expect: Expect,
}

/// A `Plan` as plain values.
pub struct PlanView {
    pub steps: Seq<StepView>,
    pub expect: Expect,
}

/// The steps of a list, each as plain values.
pub open spec fn steps_view(steps: Seq<Step>) -> Seq<StepView> {
    steps.map_values(|s: Step| s@)
}

impl View for Plan {
    type V = PlanView;

    open spec fn view(&self) -> PlanView {
        PlanView { steps: steps_view(self.steps@), expect: self.expect }
    }
}

/// The command that makes the store write out every queued insert.
pub open spec fn flush_command() -> Seq<char> {
    "SYSTEM FLUSH ASYNC INSERT QUEUE"@
}

/// The flush as a step: its failure is a warning and nothing more.
pub open spec fn flush_step() -> StepView {
    StepView { statement: plain_statement(flush_command()), on_failure: OnFailure::Warn }
}

/// The plan of a flush on its own.
pub open spec fn flush_plan() -> PlanView {
    PlanView { steps: seq![flush_step()], expect: Expect::Nothing }
}

/// A read as a step: its failure is the failure of the operation.
pub open spec fn read_step(select: SelectView) -> StepView {
    StepView { statement: select_statement(select), on_failure: OnFailure::Abort }
}

/// The plan of a read: the flush first where it is called for, then the read itself.
pub open spec fn read_plan(flush_first: bool, select: SelectView, expect: Expect) -> PlanView {
    PlanView {
        steps: if flush_first {
            seq![flush_step(), read_step(select)]
        } else {
            seq![read_step(select)]
        },
        expect,
    }
}

impl Step {
    /// The step that flushes the store's queue of inserts.
    pub fn flush() -> (step: Step)
        ensures
            step@ == flush_step(),
    {
        Step {
            statement: Statement::plain(String::from_str("SYSTEM FLUSH ASYNC INSERT QUEUE")),
            on_failure: OnFailure::Warn,
        }
    }
}

/// The plan that flushes the store's queue of inserts, so that what was written before is
/// seen by the reads that come after. The flush is owed to nobody: where it fails, the
/// caller is warned and the operation is complete all the same.
pub fn clickhouse_flush_async_insert() -> (plan: Plan)
    ensures
        plan@ == flush_plan(),
{
    let mut steps: Vec<Step> = Vec::new();
    steps.push(Step::flush());
    let plan = Plan { steps, expect: Expect::Nothing };
    assert(plan@.steps =~= flush_plan().steps);
    plan
}

impl Plan {
    /// The plan that reads `select` and takes the reply as `expect` says, after a flush
    /// where `flush_first` asks for one.
    pub fn read(flush_first: bool, select: &Select, expect: Expect) -> (plan: Plan)
        ensures
            plan@ == read_plan(flush_first, select@, expect),
    {
        let mut steps: Vec<Step> = Vec::new();
        if flush_first {
            steps.push(Step::flush());
        }
        steps.push(Step { statement: select.render(), on_failure: OnFailure::Abort });
        let plan = Plan { steps, expect };
        assert(plan@.steps =~= read_plan(flush_first, select@, expect).steps);
        plan
    }
}

} // verus!
