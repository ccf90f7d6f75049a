//! Carrying out a plan: which statement goes to the store next, what its reply means for
//! the operation, and how the operation ends. The caller holds the connection: it sends the
//! statement that is pending and records what came back, until none is pending.

use crate::json::json_document;
use crate::lifecycle::stale_plan;
use crate::plan::{flush_plan, read_plan, Expect, OnFailure, Plan, PlanView, StepView};
use crate::query::SelectView;
use crate::rows::{
    decode_rows, decode_single_row, every_line_is_a_document, kept_rows, lemma_kept_rows_count,
    lines_of, present, single_row,
};
use crate::statement::{optional_statement, Statement, StatementView};
use crate::text::optional_string;
use serde_json::Value;
use vstd::prelude::*;
use vstd::string::StringExecFns;

verus! {

/// How an operation ended.
#[derive(Debug)]
pub enum Outcome {
    /// Every statement was sent and the plan expects nothing back.
    Completed,
    /// The store has no such record, or none that can be read.
    Absent,
    /// The record's row.
    Row(Value),
    /// The record's rows, at least one.
    Rows(Vec<Value>),
    /// The text of a reply that is not empty and must have a known shape, for the caller
    /// to decode.
    Unshaped(String),
    /// A statement whose failure fails the operation has failed, with this message.
    Failed(String),
}

/// An `Outcome` as plain values.
pub enum OutcomeView {
    Completed,
    Absent,
    Row(Value),
    Rows(Seq<Value>),
    Unshaped(Seq<char>),
    Failed(Seq<char>),
}

impl View for Outcome {
    type V = OutcomeView;

    open spec fn view(&self) -> OutcomeView {
        match self {
            Outcome::Completed => OutcomeView::Completed,
            Outcome::Absent => OutcomeView::Absent,
            Outcome::Row(row) => OutcomeView::Row(*row),
            Outcome::Rows(rows) => OutcomeView::Rows(rows@),
            Outcome::Unshaped(text) => OutcomeView::Unshaped(text@),
            Outcome::Failed(message) => OutcomeView::Failed(message@),
        }
    }
}

/// What came back for a statement: the text of the reply, or the message of the failure.
pub type Reply = Result<Seq<char>, Seq<char>>;

/// The state of an operation under way.
pub struct RunView {
    /// What the operation asks of the store.
    pub plan: PlanView,
    /// How many statements are dealt with.
    pub done: nat,
    /// The failure that ended the operation, if one did.
    pub failure: Option<Seq<char>>,
    /// The text of the reply to the last statement that was dealt with, empty where it
    /// failed or none was.
    pub reply: Seq<char>,
}

/// The state of an operation before its first statement.
pub open spec fn started(plan: PlanView) -> RunView {
    RunView { plan, done: 0, failure: None, reply: Seq::empty() }
}

/// The step whose statement goes to the store next, or `None` where the operation is over:
/// after a failure that ends it, and after the last step.
pub open spec fn pending_step(run: RunView) -> Option<StepView> {
    if run.failure is None && run.done < run.plan.steps.len() {
        Some(run.plan.steps[run.done as int])
    } else {
        None
    }
}

/// The statement that goes to the store next, or `None` where the operation is over.
pub open spec fn pending_statement(run: RunView) -> Option<StatementView> {
    match pending_step(run) {
        Some(step) => Some(step.statement),
        None => None,
    }
}

/// The state after the reply to the pending statement. A reply with a text moves on to the
/// next step, and so does a failure that the step lets pass, which leaves no text; a failure
/// of a step that cannot fail ends the operation. With no statement pending nothing changes.
pub open spec fn advanced(run: RunView, reply: Reply) -> RunView {
    match pending_step(run) {
        None => run,
        Some(step) => match reply {
            Ok(text) => RunView { done: run.done + 1, reply: text, ..run },
            Err(message) => match step.on_failure {
                OnFailure::Abort => RunView { failure: Some(message), ..run },
                _ => RunView { done: run.done + 1, reply: Seq::empty(), ..run },
            },
        },
    }
}

/// The warning that the reply to the pending statement calls for: one where the statement
/// failed and its step asks for a warning, else none.
pub open spec fn warning_for(run: RunView, reply: Reply) -> Option<Seq<char>> {
    match (pending_step(run), reply) {
        (Some(step), Err(message)) => if step.on_failure == OnFailure::Warn {
            Some("Failed to run `"@ + step.statement.text + "`: "@ + message)
        } else {
            None
        },
        _ => None,
    }
}

/// The state after the replies, each taken for the statement pending when it came.
pub open spec fn replayed(run: RunView, replies: Seq<Reply>) -> RunView
    decreases replies.len(),
{
    if replies.len() == 0 {
        run
    } else {
        advanced(replayed(run, replies.drop_last()), replies.last())
    }
}

/// The replies to a read: the one to the flush where there was one, then the one to the
/// read's own statement.
pub open spec fn read_replies(flush_first: bool, flushed: Reply, answered: Reply) -> Seq<Reply> {
    if flush_first {
        seq![flushed, answered]
    } else {
        seq![answered]
    }
}

/// How a read ends on the reply to its own statement: with the failure where it failed,
/// else with what the text of the reply gives.
pub open spec fn answer_outcome(expect: Expect, answered: Reply) -> OutcomeView {
    match answered {
        Ok(text) => read_as(expect, text),
        Err(message) => OutcomeView::Failed(message),
    }
}

/// What the text of the last reply gives, read as the plan expects.
pub open spec fn read_as(expect: Expect, text: Seq<char>) -> OutcomeView {
    match expect {
        Expect::Nothing => OutcomeView::Completed,
        Expect::OneRow => match single_row(text) {
            Some(row) => OutcomeView::Row(row),
            None => OutcomeView::Absent,
        },
        Expect::AllRows => match present(kept_rows(lines_of(text))) {
            Some(rows) => OutcomeView::Rows(rows),
            None => OutcomeView::Absent,
        },
        Expect::OneShapedRow => if text.len() == 0 {
            OutcomeView::Absent
        } else {
            OutcomeView::Unshaped(text)
        },
    }
}

/// How the operation ended, or `None` while a statement is pending.
pub open spec fn concluded(run: RunView) -> Option<OutcomeView> {
    if pending_step(run) is Some {
        None
    } else {
        Some(
            match run.failure {
                Some(message) => OutcomeView::Failed(message),
                None => read_as(run.plan.expect, run.reply),
            },
        )
    }
}

/// A reply as plain text.
pub open spec fn reply_view(reply: Result<String, String>) -> Reply {
    match reply {
        Ok(text) => Ok(text@),
        Err(message) => Err(message@),
    }
}

/// An optional outcome as plain values.
pub open spec fn outcome_view(outcome: Option<Outcome>) -> Option<OutcomeView> {
    match outcome {
        Some(outcome) => Some(outcome@),
        None => None,
    }
}

/// An operation under way.
#[derive(Debug)]
pub struct Run {
    plan: Plan,
    done: usize,
    failure: Option<String>,
    reply: String,
}

impl View for Run {
    type V = RunView;

    closed spec fn view(&self) -> RunView {
        RunView {
            plan: self.plan@,
            done: self.done as nat,
            failure: optional_string(self.failure),
            reply: self.reply@,
        }
    }
}

impl Run {
    /// Takes up a plan.
    pub fn begin(plan: Plan) -> (run: Run)
        ensures
            run@ == started(plan@),
    {
        Run { plan, done: 0, failure: None, reply: String::new() }
    }

    /// The statement to send next, or `None` where the operation is over.
    pub fn pending(&self) -> (next: Option<&Statement>)
        ensures
            optional_statement(next) == pending_statement(self@),
    {
        if self.failure.is_none() && self.done < self.plan.steps.len() {
            Some(&self.plan.steps[self.done].statement)
        } else {
            None
        }
    }

    /// Takes what came back for the pending statement, `Ok` with the text of the reply or
    /// `Err` with the message of the failure, and returns the warning to report, if the
    /// reply calls for one. With no statement pending the reply is dropped.
    pub fn record(&mut self, reply: Result<String, String>) -> (warning: Option<String>)
        ensures
            final(self)@ == advanced(old(self)@, reply_view(reply)),
            optional_string(warning) == warning_for(old(self)@, reply_view(reply)),
    {
        if self.failure.is_some() || self.done >= self.plan.steps.len() {
            return None;
        }
        match reply {
            Ok(text) => {
                self.reply = text;
                self.done = self.done + 1;
                None
            },
            Err(message) => {
                match self.plan.steps[self.done].on_failure {
                    OnFailure::Abort => {
                        self.failure = Some(message);
                        None
                    },
                    OnFailure::Warn => {
                        let mut warning = String::from_str("Failed to run `");
                        warning.append(self.plan.steps[self.done].statement.text.as_str());
                        warning.append("`: ");
                        warning.append(message.as_str());
                        self.reply = String::new();
                        self.done = self.done + 1;
                        Some(warning)
                    },
                    OnFailure::Ignore => {
                        self.reply = String::new();
                        self.done = self.done + 1;
                        None
                    },
                }
            },
        }
    }

    /// How the operation ended, or `None` while a statement is pending.
    pub fn finish(self) -> (outcome: Option<Outcome>)
        ensures
            outcome_view(outcome) == concluded(self@),
    {
        if self.failure.is_none() && self.done < self.plan.steps.len() {
            return None;
        }
        match self.failure {
            Some(message) => Some(Outcome::Failed(message)),
            None => match self.plan.expect {
                Expect::Nothing => Some(Outcome::Completed),
                Expect::OneRow => match decode_single_row(self.reply.as_str()) {
                    Some(row) => Some(Outcome::Row(row)),
                    None => Some(Outcome::Absent),
                },
                Expect::AllRows => match decode_rows(self.reply.as_str()) {
                    Some(rows) => Some(Outcome::Rows(rows)),
                    None => Some(Outcome::Absent),
                },
                Expect::OneShapedRow => if self.reply.as_str().is_empty() {
                    Some(Outcome::Absent)
                } else {
                    Some(Outcome::Unshaped(self.reply))
                },
            },
        }
    }
}

/// The flush is advisory: a read ends as the reply to its own statement says, whatever
/// became of the flush before it. A failure of the read's statement fails the read with
/// the failure's message, and the text of a reply is read as the plan expects. Until the
/// read's statement is answered the read has not ended.
pub proof fn lemma_read_ends_as_answered(
    flush_first: bool,
    select: SelectView,
    expect: Expect,
    flushed: Reply,
    answered: Reply,
)
    ensures
        concluded(started(read_plan(flush_first, select, expect))) is None,
        flush_first ==> concluded(
            replayed(started(read_plan(flush_first, select, expect)), seq![flushed]),
        ) is None,
        concluded(
            replayed(
                started(read_plan(flush_first, select, expect)),
                read_replies(flush_first, flushed, answered),
            ),
        ) == Some(answer_outcome(expect, answered)),
{
    reveal_with_fuel(replayed, 3);
}

/// The flush never fails its caller: once its statement is answered, with a text or with a
/// failure, the flush is complete.
pub proof fn lemma_flush_never_fails(answered: Reply)
    ensures
        concluded(started(flush_plan())) is None,
        concluded(replayed(started(flush_plan()), seq![answered])) == Some(OutcomeView::Completed),
{
    reveal_with_fuel(replayed, 2);
}

/// A read of every row hands back as many rows as the reply has lines, where each line is
/// a JSON document and there is a line at all.
pub proof fn lemma_every_row_is_counted(text: Seq<char>)
    ensures
        lines_of(text).len() > 0 && every_line_is_a_document(lines_of(text)) ==> read_as(
            Expect::AllRows,
            text,
        ) == OutcomeView::Rows(kept_rows(lines_of(text))) && kept_rows(lines_of(text)).len()
            == lines_of(text).len(),
{
    lemma_kept_rows_count(lines_of(text));
}

/// A record that was written is found: a read of a single row whose statement is answered
/// with the text of one JSON document ends with the value that the text denotes, and with
/// nothing else.
pub proof fn lemma_answered_row_is_found(
    flush_first: bool,
    select: SelectView,
    flushed: Reply,
    text: Seq<char>,
    row: Value,
)
    ensures
        text.len() > 0 && json_document(text) == Some(row) ==> concluded(
            replayed(
                started(read_plan(flush_first, select, Expect::OneRow)),
                read_replies(flush_first, flushed, Ok(text)),
            ),
        ) == Some(OutcomeView::Row(row)),
{
    lemma_read_ends_as_answered(flush_first, select, Expect::OneRow, flushed, Ok(text));
}

/// A record that was never written is absent: an operation that reads, was not ended by a
/// failure and got an empty reply to its last statement ends without a record, never with
/// an error and never with an empty list.
pub proof fn lemma_empty_reply_is_absent(run: RunView)
    requires
        pending_step(run) is None,
        run.failure is None,
        run.reply.len() == 0,
        run.plan.expect != Expect::Nothing,
    ensures
        concluded(run) == Some(OutcomeView::Absent),
{
}

/// A read that finds nothing ends without a record, whatever became of the flush.
pub proof fn lemma_unwritten_record_is_absent(
    flush_first: bool,
    select: SelectView,
    expect: Expect,
    flushed: Reply,
)
    requires
        expect != Expect::Nothing,
    ensures
        concluded(
            replayed(
                started(read_plan(flush_first, select, expect)),
                read_replies(flush_first, flushed, Ok(Seq::empty())),
            ),
        ) == Some(OutcomeView::Absent),
{
    lemma_read_ends_as_answered(flush_first, select, expect, flushed, Ok(Seq::empty()));
}

/// Reading a reply never fails: whatever the text, and however many rows it has, a read
/// that was answered ends with rows, without a record, or with the text for the caller to
/// decode.
pub proof fn lemma_reading_never_fails(expect: Expect, text: Seq<char>)
    ensures
        !(read_as(expect, text) is Failed),
        expect != Expect::Nothing ==> !(read_as(expect, text) is Completed),
        read_as(expect, text) matches OutcomeView::Rows(rows) ==> rows.len() > 0,
{
}

/// Marking a datapoint stale cannot fail: when each of its statements has been answered,
/// with a text or with a failure, the operation is complete. So it is with the insert into
/// the table that has no such datapoint, and so it is where the datapoint was marked
/// before.
pub proof fn lemma_stale_mark_completes(flush: bool, id: u128, replies: Seq<Reply>)
    requires
        replies.len() == stale_plan(flush, id).steps.len(),
    ensures
        concluded(replayed(started(stale_plan(flush, id)), replies)) == Some(
            OutcomeView::Completed,
        ),
{
    reveal_with_fuel(replayed, 4);
}

/// An operation sends no more statements than its plan has steps: after as many replies
/// it is over, whatever they were.
pub proof fn lemma_run_ends(plan: PlanView, replies: Seq<Reply>)
    ensures
        replayed(started(plan), replies).plan == plan,
        replayed(started(plan), replies).done <= replies.len(),
        replayed(started(plan), replies).done <= plan.steps.len(),
        replayed(started(plan), replies).failure is None && replies.len() <= plan.steps.len()
            ==> replayed(started(plan), replies).done == replies.len(),
        replies.len() >= plan.steps.len() ==> concluded(replayed(started(plan), replies)) is Some,
    decreases replies.len(),
{
    if replies.len() > 0 {
        lemma_run_ends(plan, replies.drop_last());
    }
}

} // verus!
