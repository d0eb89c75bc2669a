use vstd::prelude::*;

verus! {

/// An opaque failure reported by the storage collaborator while it executes a
/// nested SELECT.  The evaluator never inspects the code: it passes the error
/// through unchanged.
#[derive(Clone, Copy, Debug, PartialEq, Eq, Structural)]
pub struct StoreError {
    pub code: u64,
}

/// Every way a predicate evaluation can fail.
///
/// - `FieldNotFound`: a column reference resolved in no frame of the scope chain.
/// - `NestedSelectRowNotFound`: a scalar-context nested SELECT produced no value.
/// - `UnreachableConditionBase`: a literal list stood where a scalar was expected.
/// - `Unimplemented`: the expression shape or operator is outside the evaluable subset.
/// - `Storage`: the storage collaborator failed; its error is passed through unchanged.
#[derive(Clone, Copy, Debug, PartialEq, Eq, Structural)]
pub enum FilterError {
    FieldNotFound,
    NestedSelectRowNotFound,
    UnreachableConditionBase,
    Unimplemented,
    Storage(StoreError),
}

impl FilterError {
    /// The diagnostic text that layers above this core surface for the
    /// failure.
    pub fn message(&self) -> (r: String)
        ensures
            r@ == match *self {
                FilterError::FieldNotFound => "field not found"@,
                FilterError::NestedSelectRowNotFound => "nested select row not found"@,
                FilterError::UnreachableConditionBase => "UnreachableConditionBase"@,
                FilterError::Unimplemented => "unimplemented"@,
                FilterError::Storage(_) => "storage error"@,
            },
    {
        match self {
            FilterError::FieldNotFound => "field not found".to_owned(),
            FilterError::NestedSelectRowNotFound => "nested select row not found".to_owned(),
            FilterError::UnreachableConditionBase => "UnreachableConditionBase".to_owned(),
            FilterError::Unimplemented => "unimplemented".to_owned(),
            FilterError::Storage(_) => "storage error".to_owned(),
        }
    }
}

} // verus!
