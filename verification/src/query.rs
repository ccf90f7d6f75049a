//! Reads: what a query selects, by which keys, and how many rows it lets through.

use crate::ident::{hyphenated, RecordId};
use crate::statement::{bindings_view, Binding, BindingView, Statement, StatementView};
use vstd::prelude::*;
use vstd::string::StringExecFns;

verus! {

/// How a read deals with several physical rows under one key.
#[derive(Clone, Copy, Debug, PartialEq, Eq, Structural)]
pub enum ReadPolicy {
    /// Every matching row is wanted.
    Every,
    /// The rows under the key are copies of one another (a write that was repeated): any one
    /// of them will do, and the read is capped at one row.
    AnyOne,
    /// The rows under the key are versions: the one with the latest timestamp counts, and
    /// the read is ordered by timestamp, latest first, and capped at one row.
    MostRecent,
    /// The rows under the key are versions of one record, in a table where a later write
    /// supersedes an earlier one and the store removes what is superseded when it gets to
    /// it. The read is of the collapsed view of the table, in which the latest version
    /// alone stands for the record, and is capped at one row.
    Collapsed,
}

/// One exact-match test on a key column.
#[derive(Debug)]
pub enum Condition {
    /// The column equals the identity, whose canonical text stands in the statement as a literal.
    IdIs { column: String, id: RecordId },
    /// The column equals a text, which is bound to the placeholder `name`.
    TextIs { column: String, name: String, value: String },
    /// The column equals the identity, whose canonical text is bound to the placeholder `name`.
    IdBound { column: String, name: String, id: RecordId },
}

/// A `Condition` as plain values.
pub enum ConditionView {
    IdIs { column: Seq<char>, id: u128 },
    TextIs { column: Seq<char>, name: Seq<char>, value: Seq<char> },
    IdBound { column: Seq<char>, name: Seq<char>, id: u128 },
}

impl View for Condition {
    type V = ConditionView;

    open spec fn view(&self) -> ConditionView {
        match self {
            Condition::IdIs { column, id } => ConditionView::IdIs { column: column@, id: id.value },
            Condition::TextIs { column, name, value } => ConditionView::TextIs {
                column: column@,
                name: name@,
                value: value@,
            },
            Condition::IdBound { column, name, id } => ConditionView::IdBound {
                column: column@,
                name: name@,
                id: id.value,
            },
        }
    }
}

/// A read: which columns of which rows, and under which policy.
#[derive(Debug)]
pub struct Select {
    pub projection: String,
    pub source: String,
    pub conditions: Vec<Condition>,
    pub policy: ReadPolicy,
}

/// A `Select` as plain values.
pub struct SelectView {
    pub projection: Seq<char>,
    pub source: Seq<char>,
    pub conditions: Seq<ConditionView>,
    pub policy: ReadPolicy,
}

/// The conditions of a list, each as plain values.
pub open spec fn conditions_view(conditions: Seq<Condition>) -> Seq<ConditionView> {
    conditions.map_values(|c: Condition| c@)
}

impl View for Select {
    type V = SelectView;

    open spec fn view(&self) -> SelectView {
        SelectView {
            projection: self.projection@,
            source: self.source@,
            conditions: conditions_view(self.conditions@),
            policy: self.policy,
        }
    }
}

/// The text of one condition.
pub open spec fn condition_text(condition: ConditionView) -> Seq<char> {
    match condition {
        ConditionView::IdIs { column, id } => column + " = '"@ + hyphenated(id) + "'"@,
        ConditionView::TextIs { column, name, value } => column + " = {"@ + name + ":String}"@,
        ConditionView::IdBound { column, name, id } => column + " = {"@ + name + ":UUID}"@,
    }
}

/// What one condition binds: nothing where the identity stands in the text, else one value.
pub open spec fn condition_bindings(condition: ConditionView) -> Seq<BindingView> {
    match condition {
        ConditionView::IdIs { column, id } => Seq::empty(),
        ConditionView::TextIs { column, name, value } => seq![BindingView { name, value }],
        ConditionView::IdBound { column, name, id } => seq![
            BindingView { name, value: hyphenated(id) },
        ],
    }
}

/// The conditions' texts in order, with ` AND ` between two of them.
pub open spec fn conjunction(conditions: Seq<ConditionView>) -> Seq<char>
    decreases conditions.len(),
{
    if conditions.len() == 0 {
        Seq::empty()
    } else if conditions.len() == 1 {
        condition_text(conditions[0])
    } else {
        conjunction(conditions.drop_last()) + " AND "@ + condition_text(conditions.last())
    }
}

/// What the conditions bind, in their order.
pub open spec fn all_bindings(conditions: Seq<ConditionView>) -> Seq<BindingView>
    decreases conditions.len(),
{
    if conditions.len() == 0 {
        Seq::empty()
    } else {
        all_bindings(conditions.drop_last()) + condition_bindings(conditions.last())
    }
}

/// The filter of a read: nothing without conditions, else ` WHERE ` and their conjunction.
pub open spec fn filter_clause(conditions: Seq<ConditionView>) -> Seq<char> {
    if conditions.len() == 0 {
        Seq::empty()
    } else {
        " WHERE "@ + conjunction(conditions)
    }
}

/// What makes a read one of the collapsed view: it follows the source.
pub open spec fn collapsed_view() -> Seq<char> {
    " FINAL"@
}

/// What a policy adds to the source of a read.
pub open spec fn view_clause(policy: ReadPolicy) -> Seq<char> {
    match policy {
        ReadPolicy::Collapsed => collapsed_view(),
        _ => Seq::empty(),
    }
}

/// The collapsed view of `table`, narrowed to the record with the identity: what a
/// statement says to read the current version of that record and no superseded one.
pub open spec fn current_version(table: Seq<char>, id: u128) -> Seq<char> {
    " FROM "@ + table + collapsed_view() + " WHERE "@ + "id"@ + " = '"@ + hyphenated(id) + "'"@
}

/// The cap that ends the text of a read under a policy that lets one row through.
pub open spec fn one_row_cap() -> Seq<char> {
    " LIMIT 1"@
}

/// What a policy adds to the text of a read.
pub open spec fn policy_clause(policy: ReadPolicy) -> Seq<char> {
    match policy {
        ReadPolicy::Every => Seq::empty(),
        ReadPolicy::AnyOne => one_row_cap(),
        ReadPolicy::MostRecent => " ORDER BY timestamp DESC"@ + one_row_cap(),
        ReadPolicy::Collapsed => one_row_cap(),
    }
}

/// The format in which every read asks for its rows: one JSON object on each line.
pub open spec fn row_format() -> Seq<char> {
    " FORMAT JSONEachRow"@
}

/// The text of a read.
pub open spec fn select_text(select: SelectView) -> Seq<char> {
    "SELECT "@ + select.projection + " FROM "@ + select.source + view_clause(select.policy)
        + filter_clause(select.conditions) + policy_clause(select.policy) + row_format()
}

/// The statement of a read: its text, and what its conditions bind.
pub open spec fn select_statement(select: SelectView) -> StatementView {
    StatementView { text: select_text(select), bindings: all_bindings(select.conditions) }
}

/// Appends the text of `condition` to `text` and what it binds to `bindings`.
fn write_condition(condition: &Condition, text: &mut String, bindings: &mut Vec<Binding>)
    ensures
        final(text)@ == old(text)@ + condition_text(condition@),
        bindings_view(final(bindings)@) == bindings_view(old(bindings)@) + condition_bindings(
            condition@,
        ),
{
    match condition {
        Condition::IdIs { column, id } => {
            let canonical = id.canonical();
            text.append(column.as_str());
            text.append(" = '");
            text.append(canonical.as_str());
            text.append("'");
        },
        Condition::TextIs { column, name, value } => {
            text.append(column.as_str());
            text.append(" = {");
            text.append(name.as_str());
            text.append(":String}");
            let binding = Binding { name: name.clone(), value: value.clone() };
            bindings.push(binding);
        },
        Condition::IdBound { column, name, id } => {
            text.append(column.as_str());
            text.append(" = {");
            text.append(name.as_str());
            text.append(":UUID}");
            let binding = Binding { name: name.clone(), value: id.canonical() };
            bindings.push(binding);
        },
    }
}

impl Select {
    /// The statement that asks the store for this read.
    pub fn render(&self) -> (statement: Statement)
        ensures
            statement@ == select_statement(self@),
    {
        let mut text = String::from_str("SELECT ");
        text.append(self.projection.as_str());
        text.append(" FROM ");
        text.append(self.source.as_str());
        match self.policy {
            ReadPolicy::Collapsed => {
                text.append(" FINAL");
            },
            _ => {},
        }
        let ghost head = text@;
        let ghost conditions = conditions_view(self.conditions@);
        let mut bindings: Vec<Binding> = Vec::new();
        let mut i: usize = 0;
        while i < self.conditions.len()
            invariant
                i <= self.conditions.len(),
                conditions == conditions_view(self.conditions@),
                text@ == head + filter_clause(conditions.take(i as int)),
                bindings_view(bindings@) == all_bindings(conditions.take(i as int)),
            decreases self.conditions.len() - i,
        {
            proof {
                let next = conditions.take(i + 1);
                assert(next.drop_last() == conditions.take(i as int));
            }
            if i == 0 {
                text.append(" WHERE ");
            } else {
                text.append(" AND ");
            }
            write_condition(&self.conditions[i], &mut text, &mut bindings);
            i = i + 1;
        }
        assert(conditions.take(i as int) == conditions);
        match self.policy {
            ReadPolicy::Every => {},
            ReadPolicy::AnyOne => {
                text.append(" LIMIT 1");
            },
            ReadPolicy::Collapsed => {
                text.append(" LIMIT 1");
            },
            ReadPolicy::MostRecent => {
                text.append(" ORDER BY timestamp DESC");
                text.append(" LIMIT 1");
            },
        }
        text.append(" FORMAT JSONEachRow");
        let statement = Statement { text, bindings };
        assert(statement@.text =~= select_text(self@));
        statement
    }
}

/// A read under a policy that lets one row through ends in the cap and the row format:
/// however many rows the key has, the store hands back at most one.
pub proof fn lemma_capped_read_ends_in_cap(select: SelectView)
    requires
        select.policy != ReadPolicy::Every,
    ensures
        select_text(select).len() >= (one_row_cap() + row_format()).len(),
        select_text(select).skip(
            select_text(select).len() - (one_row_cap() + row_format()).len(),
        ) == one_row_cap() + row_format(),
{
    let tail = one_row_cap() + row_format();
    let front = "SELECT "@ + select.projection + " FROM "@ + select.source + view_clause(
        select.policy,
    ) + filter_clause(select.conditions) + (if select.policy == ReadPolicy::MostRecent {
        " ORDER BY timestamp DESC"@
    } else {
        Seq::empty()
    });
    assert(select_text(select) =~= front + tail);
    assert((front + tail).skip(front.len() as int) =~= tail);
}

/// A read of the collapsed view names the view right after its source, before any
/// condition, and a read under another policy does not name it there: whether the store
/// answers with the latest version or with whatever physical rows it holds is settled by
/// the policy alone.
pub proof fn lemma_collapsed_read_names_the_view(select: SelectView)
    ensures
        select.policy == ReadPolicy::Collapsed ==> select_text(select) == "SELECT "@
            + select.projection + " FROM "@ + select.source + collapsed_view() + filter_clause(
            select.conditions,
        ) + one_row_cap() + row_format(),
        select.policy != ReadPolicy::Collapsed ==> select_text(select) == "SELECT "@
            + select.projection + " FROM "@ + select.source + filter_clause(select.conditions)
            + policy_clause(select.policy) + row_format(),
{
    assert("SELECT "@ + select.projection + " FROM "@ + select.source + Seq::<char>::empty()
        =~= "SELECT "@ + select.projection + " FROM "@ + select.source);
}

/// Whether two conditions differ at most in the value that they bind.
pub open spec fn same_but_bound_value(a: ConditionView, b: ConditionView) -> bool {
    match (a, b) {
        (
            ConditionView::TextIs { column: column_a, name: name_a, value: value_a },
            ConditionView::TextIs { column: column_b, name: name_b, value: value_b },
        ) => column_a == column_b && name_a == name_b,
        (
            ConditionView::IdBound { column: column_a, name: name_a, id: id_a },
            ConditionView::IdBound { column: column_b, name: name_b, id: id_b },
        ) => column_a == column_b && name_a == name_b,
        _ => a == b,
    }
}

/// A bound value stays out of the text: two reads that differ in nothing but the values
/// that their conditions bind have the same text, whatever characters those values hold.
pub proof fn lemma_text_ignores_bound_values(a: SelectView, b: SelectView)
    requires
        a.projection == b.projection,
        a.source == b.source,
        a.policy == b.policy,
        a.conditions.len() == b.conditions.len(),
        forall|i: int|
            0 <= i < a.conditions.len() ==> same_but_bound_value(
                #[trigger] a.conditions[i],
                b.conditions[i],
            ),
    ensures
        select_text(a) == select_text(b),
{
    lemma_conjunction_ignores_bound_values(a.conditions, b.conditions);
}

/// Two lists of conditions that differ in nothing but the values that they bind have the
/// same conjunction.
proof fn lemma_conjunction_ignores_bound_values(a: Seq<ConditionView>, b: Seq<ConditionView>)
    requires
        a.len() == b.len(),
        forall|i: int| 0 <= i < a.len() ==> same_but_bound_value(#[trigger] a[i], b[i]),
    ensures
        conjunction(a) == conjunction(b),
    decreases a.len(),
{
    if a.len() > 1 {
        assert forall|i: int| 0 <= i < a.drop_last().len() implies same_but_bound_value(
            #[trigger] a.drop_last()[i],
            b.drop_last()[i],
        ) by {
            assert(same_but_bound_value(a[i], b[i]));
        }
        lemma_conjunction_ignores_bound_values(a.drop_last(), b.drop_last());
    }
}

/// Each condition binds at most one value: a read binds no more values than it has
/// conditions.
pub proof fn lemma_bindings_follow_conditions(conditions: Seq<ConditionView>)
    ensures
        all_bindings(conditions).len() <= conditions.len(),
    decreases conditions.len(),
{
    if conditions.len() > 0 {
        lemma_bindings_follow_conditions(conditions.drop_last());
    }
}

} // verus!
