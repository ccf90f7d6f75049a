//! Statements: the text that goes to the store, and the values bound to its placeholders.

use vstd::prelude::*;

verus! {

/// A value bound by name to a placeholder of a statement.
#[derive(Debug)]
pub struct Binding {
    pub name: String,
    pub value: String,
}

/// A `Binding` as plain text.
pub struct BindingView {
    pub name: Seq<char>,
    pub value: Seq<char>,
}

impl View for Binding {
    type V = BindingView;

    open spec fn view(&self) -> BindingView {
        BindingView { name: self.name@, value: self.value@ }
    }
}

/// What the store is asked to execute.
#[derive(Debug)]
pub struct Statement {
    pub text: String,
    pub bindings: Vec<Binding>,
}

/// A `Statement` as plain text.
pub struct StatementView {
    pub text: Seq<char>,
    pub bindings: Seq<BindingView>,
}

/// The bindings of a list, each as plain text.
pub open spec fn bindings_view(bindings: Seq<Binding>) -> Seq<BindingView> {
    bindings.map_values(|b: Binding| b@)
}

impl View for Statement {
    type V = StatementView;

    open spec fn view(&self) -> StatementView {
        StatementView { text: self.text@, bindings: bindings_view(self.bindings@) }
    }
}

/// A statement that may be missing, as plain text.
pub open spec fn optional_statement(statement: Option<&Statement>) -> Option<StatementView> {
    match statement {
        Some(statement) => Some(statement@),
        None => None,
    }
}

/// Whether no two of the bindings have the same name, so that they can be handed to the
/// store as a mapping from names to values and none is lost.
pub open spec fn distinct_names(bindings: Seq<BindingView>) -> bool {
    forall|i: int, j: int|
        0 <= i < j < bindings.len() ==> (#[trigger] bindings[i]).name != (#[trigger] bindings[j]).name
}

/// The statement that has `text` and binds nothing.
pub open spec fn plain_statement(text: Seq<char>) -> StatementView {
    StatementView { text, bindings: Seq::empty() }
}

impl Statement {
    /// A statement without placeholders.
    pub fn plain(text: String) -> (statement: Statement)
        ensures
            statement@ == plain_statement(text@),
    {
        let statement = Statement { text, bindings: Vec::new() };
        assert(bindings_view(statement.bindings@) =~= Seq::empty());
        statement
    }
}

} // verus!
