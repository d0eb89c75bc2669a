use vstd::prelude::*;
use crate::data::Column;

verus! {

/// An untyped, syntactic scalar from the parsed expression tree, prior to
/// type resolution.
#[derive(Debug)]
pub enum Literal {
    Integer(i64),
    Text(String),
}

/// The comparison and logical operators a condition tree can carry.  Only
/// `Equal`, `NotEqual` and `In` are evaluable comparisons, and only `And` and
/// `Or` are evaluable logical operators; every other operator makes the
/// evaluator fail with `Unimplemented`.
#[derive(Clone, Copy, Debug, PartialEq, Eq, Structural)]
pub enum Operator {
    Equal,
    NotEqual,
    And,
    Or,
    In,
    Greater,
    GreaterOrEqual,
    Less,
    LessOrEqual,
    Like,
    NotLike,
    Is,
    Not,
}

/// A SELECT statement to be executed by the storage collaborator.  The
/// evaluator never looks inside it: it only hands it, together with the
/// current scope, to the store.
#[derive(Clone, Copy, Debug, PartialEq, Eq, Structural)]
pub struct SelectStatement {
    pub id: u64,
}

/// A base term of a condition expression: a column reference, a literal, a
/// literal list (legal only as the right-hand side of a membership test), or
/// a nested SELECT.
#[derive(Debug)]
pub enum ConditionBase {
    Field(Column),
    Literal(Literal),
    LiteralList(Vec<Literal>),
    NestedSelect(SelectStatement),
}

/// An operator applied to a left and a right sub-expression.
#[derive(Debug)]
pub struct ConditionTree {
    pub operator: Operator,
    pub left: Box<ConditionExpression>,
    pub right: Box<ConditionExpression>,
}

/// The recursive predicate tree consumed by the evaluator.  Arithmetic
/// sub-expressions are recognized but never evaluable by this core.
#[derive(Debug)]
pub enum ConditionExpression {
    ComparisonOp(ConditionTree),
    LogicalOp(ConditionTree),
    NegationOp(Box<ConditionExpression>),
    Bracketed(Box<ConditionExpression>),
    Arithmetic,
    Base(ConditionBase),
}

} // verus!
