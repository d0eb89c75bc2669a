use vstd::prelude::*;
use crate::ast::Literal;

verus! {

/// The name of a table supplying rows to a scope frame.
#[derive(Debug)]
pub struct Table {
    pub name: String,
}

/// The name of a column; a row's values align positionally with a column list.
#[derive(Debug)]
pub struct Column {
    pub name: String,
}

/// A typed scalar produced by storage, already type-resolved.
#[derive(Debug)]
pub enum Value {
    I64(i64),
    Str(String),
}

/// An ordered sequence of values aligned positionally with a column list.
#[derive(Debug)]
pub struct Row {
    pub values: Vec<Value>,
}

impl Clone for Value {
    fn clone(&self) -> (res: Self)
        ensures
            res == *self,
    {
        match self {
            Value::I64(i) => Value::I64(*i),
            Value::Str(s) => Value::Str(s.clone()),
        }
    }
}

/// Scalar equality between two stored values: same type and same content.
pub open spec fn spec_value_eq(a: Value, b: Value) -> bool {
    match (a, b) {
        (Value::I64(x), Value::I64(y)) => x == y,
        (Value::Str(x), Value::Str(y)) => x@ == y@,
        _ => false,
    }
}

/// Equality between an untyped literal and a stored value: an integer literal
/// equals an integer value with the same magnitude, a text literal equals a
/// string value with the same characters, and nothing else is equal.
pub open spec fn spec_literal_value_eq(l: Literal, v: Value) -> bool {
    match (l, v) {
        (Literal::Integer(x), Value::I64(y)) => x == y,
        (Literal::Text(x), Value::Str(y)) => x@ == y@,
        _ => false,
    }
}

/// Equality between two parse-time literals: same kind and same content.
pub open spec fn spec_literal_eq(a: Literal, b: Literal) -> bool {
    match (a, b) {
        (Literal::Integer(x), Literal::Integer(y)) => x == y,
        (Literal::Text(x), Literal::Text(y)) => x@ == y@,
        _ => false,
    }
}

pub fn value_eq(a: &Value, b: &Value) -> (r: bool)
    ensures
        r == spec_value_eq(*a, *b),
{
    match (a, b) {
        (Value::I64(x), Value::I64(y)) => *x == *y,
        (Value::Str(x), Value::Str(y)) => *x == *y,
        _ => false,
    }
}

pub fn literal_value_eq(l: &Literal, v: &Value) -> (r: bool)
    ensures
        r == spec_literal_value_eq(*l, *v),
{
    match (l, v) {
        (Literal::Integer(x), Value::I64(y)) => *x == *y,
        (Literal::Text(x), Value::Str(y)) => *x == *y,
        _ => false,
    }
}

pub fn literal_eq(a: &Literal, b: &Literal) -> (r: bool)
    ensures
        r == spec_literal_eq(*a, *b),
{
    match (a, b) {
        (Literal::Integer(x), Literal::Integer(y)) => *x == *y,
        (Literal::Text(x), Literal::Text(y)) => *x == *y,
        _ => false,
    }
}

} // verus!
