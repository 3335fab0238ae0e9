//! Parameterized statements: SQL text with positional placeholders and the
//! values bound to them, in order.

use vstd::prelude::*;

verus! {

/// A value as the store receives it. Every bindable value reduces to one of
/// these storage classes.
#[derive(Clone, Debug, PartialEq, Eq)]
pub enum Param {
    /// Text.
    Text(String),
    /// A 32-bit integer.
    Int(i32),
    /// A 64-bit integer.
    Int64(i64),
    /// A double-precision number, as its IEEE 754 bit pattern.
    Double(u64),
}

/// The mathematical model of a [`Param`].
pub enum ParamView {
    Text(Seq<char>),
    Int(i32),
    Int64(i64),
    Double(u64),
}

impl DeepView for Param {
    type V = ParamView;

    open spec fn deep_view(&self) -> ParamView {
        match self {
            Param::Text(text) => ParamView::Text(text@),
            Param::Int(value) => ParamView::Int(*value),
            Param::Int64(value) => ParamView::Int64(*value),
            Param::Double(bits) => ParamView::Double(*bits),
        }
    }
}

impl View for Param {
    type V = ParamView;

    open spec fn view(&self) -> ParamView {
        self.deep_view()
    }
}

/// SQL text together with the parameters bound so far. The n-th parameter
/// fills the n-th positional placeholder.
#[derive(Clone, Debug)]
pub struct Statement {
    pub sql: String,
    pub params: Vec<Param>,
}

/// The mathematical model of a [`Statement`].
pub struct StatementView {
    pub sql: Seq<char>,
    pub params: Seq<ParamView>,
}

impl StatementView {
    /// A statement without parameters.
    pub open spec fn unbound(sql: Seq<char>) -> StatementView {
        StatementView { sql, params: Seq::empty() }
    }

    /// This statement with `param` bound to the next placeholder.
    pub open spec fn bind(self, param: ParamView) -> StatementView {
        StatementView { sql: self.sql, params: self.params.push(param) }
    }
}

impl View for Statement {
    type V = StatementView;

    open spec fn view(&self) -> StatementView {
        StatementView { sql: self.sql@, params: self.params.deep_view() }
    }
}

impl Statement {
    /// A statement with the given text and nothing bound.
    pub fn new(sql: String) -> (statement: Statement)
        ensures
            statement@ == StatementView::unbound(sql@),
    {
        let statement = Statement { sql, params: Vec::new() };
        assert(statement.params.deep_view() =~= Seq::empty());
        statement
    }

    /// Binds `param` to the next positional placeholder.
    pub fn bind(self, param: Param) -> (bound: Statement)
        ensures
            bound@ == self@.bind(param@),
    {
        let mut bound = self;
        bound.params.push(param);
        assert(bound.params.deep_view() =~= self.params.deep_view().push(param@));
        bound
    }
}

} // verus!
