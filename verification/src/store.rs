use vstd::prelude::*;
use crate::ast::SelectStatement;
use crate::context::{FilterContext, ScopeFrame};
use crate::data::Row;
use crate::errors::StoreError;

verus! {

/// Read access to storage: the one capability this core consumes.  An
/// implementation executes a SELECT statement, optionally bound to an outer
/// scope for correlated references, and yields its result rows in order;
/// each element is either a row or a storage failure met while enumerating.
///
/// `select_results` is the implementation's own model of that answer: a
/// function of the statement and of the mathematical content of the outer
/// scope.  `run_select` must return exactly that sequence.  The core promises
/// nothing else about it: every result sequence, including one that is empty
/// or made of failures, is handled by the evaluator.  Implementations must be
/// reentrant: the core may call `run_select` while answering another
/// `run_select`'s filtering.
pub trait Store {
    open spec fn select_results(
        &self,
        statement: SelectStatement,
        outer: Option<Seq<ScopeFrame>>,
    ) -> Seq<Result<Row, StoreError>> {
        arbitrary()
    }

    fn run_select<'a>(
        &self,
        statement: &SelectStatement,
        outer: Option<&'a FilterContext<'a>>,
    ) -> (r: Vec<Result<Row, StoreError>>)
        ensures
            r@ == self.select_results(
                *statement,
                match outer {
                    Option::Some(c) => Option::Some(c.frames()),
                    Option::None => Option::None,
                },
            ),
    ;
}

} // verus!
