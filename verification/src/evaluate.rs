use vstd::prelude::*;
use crate::ast::{ConditionBase, ConditionExpression, ConditionTree, Operator};
use crate::context::{
    BlendContext, FilterContext, ScopeFrame, frames_wf, lemma_frames_wf_push, opt_frames,
    spec_resolve,
};
use crate::data::Row;
use crate::errors::{FilterError, StoreError};
use crate::parsed::{
    Parsed, ParsedList, ParsedListV, ParsedV, spec_exists_in, spec_parsedv_eq,
};
use crate::store::Store;

verus! {

/// The scalar a nested SELECT in scalar position denotes: the first value of
/// the first result row.  No rows, or a first row without values, is a
/// missing scalar; a storage failure in first position is surfaced.
pub open spec fn spec_first_row_value(rows: Seq<Result<Row, StoreError>>) -> Result<
    ParsedV,
    FilterError,
> {
    if rows.len() == 0 {
        Result::Err(FilterError::NestedSelectRowNotFound)
    } else {
        match rows[0] {
            Result::Err(e) => Result::Err(FilterError::Storage(e)),
            Result::Ok(row) => if row.values@.len() == 0 {
                Result::Err(FilterError::NestedSelectRowNotFound)
            } else {
                Result::Ok(ParsedV::Value(row.values@[0]))
            },
        }
    }
}

/// What a base term denotes in scalar position: a field reference resolves
/// against the scope, a literal stands as itself, a nested SELECT is run
/// under the current scope and yields its first value, and a literal list is
/// an internal-invariant violation.
pub open spec fn spec_parse_base<S: Store>(
    storage: &S,
    frames: Seq<ScopeFrame>,
    base: ConditionBase,
) -> Result<ParsedV, FilterError> {
    match base {
        ConditionBase::Field(column) => match spec_resolve(frames, column.name@) {
            Option::Some(v) => Result::Ok(ParsedV::Value(v)),
            Option::None => Result::Err(FilterError::FieldNotFound),
        },
        ConditionBase::Literal(literal) => Result::Ok(ParsedV::Literal(literal)),
        ConditionBase::NestedSelect(statement) => spec_first_row_value(
            storage.select_results(statement, Option::Some(frames)),
        ),
        ConditionBase::LiteralList(_) => Result::Err(FilterError::UnreachableConditionBase),
    }
}

/// What an expression denotes in scalar position: only a base term does;
/// every other node shape is outside the evaluable subset.
pub open spec fn spec_parse_expr<S: Store>(
    storage: &S,
    frames: Seq<ScopeFrame>,
    expr: ConditionExpression,
) -> Result<ParsedV, FilterError> {
    match expr {
        ConditionExpression::Base(base) => spec_parse_base(storage, frames, base),
        _ => Result::Err(FilterError::Unimplemented),
    }
}

/// What an expression denotes as the right-hand side of a membership test: a
/// field or literal is a single operand, a literal list is the listed
/// literals, and a nested SELECT is deferred together with the current scope.
pub open spec fn spec_parse_in_expr<S: Store>(
    storage: &S,
    frames: Seq<ScopeFrame>,
    expr: ConditionExpression,
) -> Result<ParsedListV, FilterError> {
    match expr {
        ConditionExpression::Base(base) => match base {
            ConditionBase::Field(column) => match spec_resolve(frames, column.name@) {
                Option::Some(v) => Result::Ok(ParsedListV::Parsed(ParsedV::Value(v))),
                Option::None => Result::Err(FilterError::FieldNotFound),
            },
            ConditionBase::Literal(literal) => Result::Ok(
                ParsedListV::Parsed(ParsedV::Literal(literal)),
            ),
            ConditionBase::LiteralList(literals) => Result::Ok(
                ParsedListV::LiteralList(literals@),
            ),
            ConditionBase::NestedSelect(statement) => Result::Ok(
                ParsedListV::Select(statement, frames),
            ),
        },
        _ => Result::Err(FilterError::Unimplemented),
    }
}

/// The verdict of a predicate expression under a scope: comparisons parse
/// both operands and test equality or membership, logical nodes evaluate
/// both operands unconditionally and combine them, negation inverts,
/// bracketing is a no-op, and everything else is outside the evaluable
/// subset.  Errors surface left operand first.
pub open spec fn spec_check_expr<S: Store>(
    storage: &S,
    frames: Seq<ScopeFrame>,
    expr: ConditionExpression,
) -> Result<bool, FilterError>
    decreases expr,
{
    match expr {
        ConditionExpression::ComparisonOp(tree) => spec_check_tree(storage, frames, tree),
        ConditionExpression::LogicalOp(tree) => spec_check_tree(storage, frames, tree),
        ConditionExpression::NegationOp(inner) => match spec_check_expr(storage, frames, *inner) {
            Result::Ok(b) => Result::Ok(!b),
            Result::Err(e) => Result::Err(e),
        },
        ConditionExpression::Bracketed(inner) => spec_check_expr(storage, frames, *inner),
        ConditionExpression::Arithmetic => Result::Err(FilterError::Unimplemented),
        ConditionExpression::Base(_) => Result::Err(FilterError::Unimplemented),
    }
}

/// The verdict of one operator applied to its two sub-expressions.  Both
/// operands of `And` and `Or` are evaluated whatever the first yields: a
/// right-hand error surfaces even when the left operand already determines
/// the boolean.
pub open spec fn spec_check_tree<S: Store>(
    storage: &S,
    frames: Seq<ScopeFrame>,
    tree: ConditionTree,
) -> Result<bool, FilterError>
    decreases tree,
{
    match tree.operator {
        Operator::Equal => match (
            spec_parse_expr(storage, frames, *tree.left),
            spec_parse_expr(storage, frames, *tree.right),
        ) {
            (Result::Err(e), _) => Result::Err(e),
            (Result::Ok(_), Result::Err(e)) => Result::Err(e),
            (Result::Ok(l), Result::Ok(r)) => Result::Ok(spec_parsedv_eq(l, r)),
        },
        Operator::NotEqual => match (
            spec_parse_expr(storage, frames, *tree.left),
            spec_parse_expr(storage, frames, *tree.right),
        ) {
            (Result::Err(e), _) => Result::Err(e),
            (Result::Ok(_), Result::Err(e)) => Result::Err(e),
            (Result::Ok(l), Result::Ok(r)) => Result::Ok(!spec_parsedv_eq(l, r)),
        },
        Operator::And => match (
            spec_check_expr(storage, frames, *tree.left),
            spec_check_expr(storage, frames, *tree.right),
        ) {
            (Result::Err(e), _) => Result::Err(e),
            (Result::Ok(_), Result::Err(e)) => Result::Err(e),
            (Result::Ok(l), Result::Ok(r)) => Result::Ok(l && r),
        },
        Operator::Or => match (
            spec_check_expr(storage, frames, *tree.left),
            spec_check_expr(storage, frames, *tree.right),
        ) {
            (Result::Err(e), _) => Result::Err(e),
            (Result::Ok(_), Result::Err(e)) => Result::Err(e),
            (Result::Ok(l), Result::Ok(r)) => Result::Ok(l || r),
        },
        Operator::In => match (
            spec_parse_expr(storage, frames, *tree.left),
            spec_parse_in_expr(storage, frames, *tree.right),
        ) {
            (Result::Err(e), _) => Result::Err(e),
            (Result::Ok(_), Result::Err(e)) => Result::Err(e),
            (Result::Ok(l), Result::Ok(r)) => spec_exists_in(storage, l, r),
        },
        _ => Result::Err(FilterError::Unimplemented),
    }
}

/// Convert a base term into a single comparison operand.
fn parse_base<'a, S: Store>(
    storage: &S,
    filter_context: &'a FilterContext<'a>,
    base: &'a ConditionBase,
) -> (r: Result<Parsed<'a>, FilterError>)
    requires
        frames_wf(filter_context.frames()),
    ensures
        match r {
            Result::Ok(p) => spec_parse_base(storage, filter_context.frames(), *base)
                == Result::<ParsedV, FilterError>::Ok(p@),
            Result::Err(e) => spec_parse_base(storage, filter_context.frames(), *base)
                == Result::<ParsedV, FilterError>::Err(e),
        },
{
    match base {
        ConditionBase::Field(column) => match filter_context.get_value(&column.name) {
            Result::Ok(value) => Result::Ok(Parsed::ValueRef(value)),
            Result::Err(e) => Result::Err(e),
        },
        ConditionBase::Literal(literal) => Result::Ok(Parsed::LiteralRef(literal)),
        ConditionBase::NestedSelect(statement) => {
            let rows = storage.run_select(statement, Option::Some(filter_context));
            if rows.len() == 0 {
                Result::Err(FilterError::NestedSelectRowNotFound)
            } else {
                match &rows[0] {
                    Result::Err(e) => Result::Err(FilterError::Storage(*e)),
                    Result::Ok(row) => if row.values.len() == 0 {
                        Result::Err(FilterError::NestedSelectRowNotFound)
                    } else {
                        Result::Ok(Parsed::Value(row.values[0].clone()))
                    },
                }
            }
        },
        ConditionBase::LiteralList(_) => Result::Err(FilterError::UnreachableConditionBase),
    }
}

/// Parse an expression standing in scalar position.
pub fn parse_expr<'a, S: Store>(
    storage: &S,
    filter_context: &'a FilterContext<'a>,
    expr: &'a ConditionExpression,
) -> (r: Result<Parsed<'a>, FilterError>)
    requires
        frames_wf(filter_context.frames()),
    ensures
        match r {
            Result::Ok(p) => spec_parse_expr(storage, filter_context.frames(), *expr)
                == Result::<ParsedV, FilterError>::Ok(p@),
            Result::Err(e) => spec_parse_expr(storage, filter_context.frames(), *expr)
                == Result::<ParsedV, FilterError>::Err(e),
        },
{
    match expr {
        ConditionExpression::Base(base) => parse_base(storage, filter_context, base),
        _ => Result::Err(FilterError::Unimplemented),
    }
}

/// Parse an expression standing as the right-hand side of a membership test.
pub fn parse_in_expr<'a, S: Store>(
    storage: &S,
    filter_context: &'a FilterContext<'a>,
    expr: &'a ConditionExpression,
) -> (r: Result<ParsedList<'a>, FilterError>)
    requires
        frames_wf(filter_context.frames()),
    ensures
        match r {
            Result::Ok(l) => spec_parse_in_expr(storage, filter_context.frames(), *expr)
                == Result::<ParsedListV, FilterError>::Ok(l@),
            Result::Err(e) => spec_parse_in_expr(storage, filter_context.frames(), *expr)
                == Result::<ParsedListV, FilterError>::Err(e),
        },
{
    match expr {
        ConditionExpression::Base(base) => match base {
            ConditionBase::Field(column) => match filter_context.get_value(&column.name) {
                Result::Ok(value) => Result::Ok(ParsedList::Parsed(Parsed::ValueRef(value))),
                Result::Err(e) => Result::Err(e),
            },
            ConditionBase::Literal(literal) => Result::Ok(
                ParsedList::Parsed(Parsed::LiteralRef(literal)),
            ),
            ConditionBase::LiteralList(literals) => Result::Ok(ParsedList::LiteralRef(literals)),
            ConditionBase::NestedSelect(statement) => Result::Ok(
                ParsedList::Value { statement, filter_context },
            ),
        },
        _ => Result::Err(FilterError::Unimplemented),
    }
}

/// Evaluate one operator node: parse or evaluate both sides, left first,
/// then compare, combine or test membership.
fn check_tree<'a, S: Store>(
    storage: &S,
    filter_context: &'a FilterContext<'a>,
    tree: &'a ConditionTree,
) -> (r: Result<bool, FilterError>)
    requires
        frames_wf(filter_context.frames()),
    ensures
        r == spec_check_tree(storage, filter_context.frames(), *tree),
    decreases *tree,
{
    match tree.operator {
        Operator::Equal => {
            let lp = match parse_expr(storage, filter_context, &tree.left) {
                Result::Ok(p) => p,
                Result::Err(e) => {
                    return Result::Err(e);
                },
            };
            let rp = match parse_expr(storage, filter_context, &tree.right) {
                Result::Ok(p) => p,
                Result::Err(e) => {
                    return Result::Err(e);
                },
            };
            Result::Ok(lp == rp)
        },
        Operator::NotEqual => {
            let lp = match parse_expr(storage, filter_context, &tree.left) {
                Result::Ok(p) => p,
                Result::Err(e) => {
                    return Result::Err(e);
                },
            };
            let rp = match parse_expr(storage, filter_context, &tree.right) {
                Result::Ok(p) => p,
                Result::Err(e) => {
                    return Result::Err(e);
                },
            };
            Result::Ok(lp != rp)
        },
        Operator::And => {
            let lb = match check_expr(storage, filter_context, &tree.left) {
                Result::Ok(b) => b,
                Result::Err(e) => {
                    return Result::Err(e);
                },
            };
            let rb = match check_expr(storage, filter_context, &tree.right) {
                Result::Ok(b) => b,
                Result::Err(e) => {
                    return Result::Err(e);
                },
            };
            Result::Ok(lb && rb)
        },
        Operator::Or => {
            let lb = match check_expr(storage, filter_context, &tree.left) {
                Result::Ok(b) => b,
                Result::Err(e) => {
                    return Result::Err(e);
                },
            };
            let rb = match check_expr(storage, filter_context, &tree.right) {
                Result::Ok(b) => b,
                Result::Err(e) => {
                    return Result::Err(e);
                },
            };
            Result::Ok(lb || rb)
        },
        Operator::In => {
            let lp = match parse_expr(storage, filter_context, &tree.left) {
                Result::Ok(p) => p,
                Result::Err(e) => {
                    return Result::Err(e);
                },
            };
            let list = match parse_in_expr(storage, filter_context, &tree.right) {
                Result::Ok(l) => l,
                Result::Err(e) => {
                    return Result::Err(e);
                },
            };
            lp.exists_in(storage, list)
        },
        _ => Result::Err(FilterError::Unimplemented),
    }
}

/// Evaluate a predicate expression against a scope chain.
pub fn check_expr<'a, S: Store>(
    storage: &S,
    filter_context: &'a FilterContext<'a>,
    expr: &'a ConditionExpression,
) -> (r: Result<bool, FilterError>)
    requires
        frames_wf(filter_context.frames()),
    ensures
        r == spec_check_expr(storage, filter_context.frames(), *expr),
    decreases *expr,
{
    match expr {
        ConditionExpression::ComparisonOp(tree) => check_tree(storage, filter_context, tree),
        ConditionExpression::LogicalOp(tree) => check_tree(storage, filter_context, tree),
        ConditionExpression::NegationOp(inner) => match check_expr(
            storage,
            filter_context,
            inner,
        ) {
            Result::Ok(b) => Result::Ok(!b),
            Result::Err(e) => Result::Err(e),
        },
        ConditionExpression::Bracketed(inner) => check_expr(storage, filter_context, inner),
        ConditionExpression::Arithmetic => Result::Err(FilterError::Unimplemented),
        ConditionExpression::Base(_) => Result::Err(FilterError::Unimplemented),
    }
}

/// The verdict of a predicate against a join-row chain under an optional
/// outer scope: each join frame in turn becomes the innermost scope frame,
/// and the predicate is evaluated once the chain is exhausted.
pub open spec fn spec_check_blended_expr<S: Store>(
    storage: &S,
    outer: Option<Seq<ScopeFrame>>,
    blend: BlendContext<'_>,
    expr: ConditionExpression,
) -> Result<bool, FilterError>
    decreases blend,
{
    let frames = seq![
        ScopeFrame { table: *blend.table, columns: *blend.columns, row: *blend.row },
    ] + (match outer {
        Option::Some(f) => f,
        Option::None => Seq::empty(),
    });
    match blend.next {
        Option::Some(nb) => spec_check_blended_expr(storage, Option::Some(frames), *nb, expr),
        Option::None => spec_check_expr(storage, frames, expr),
    }
}

/// Fold a join-row chain, frame by frame, onto the outer scope, then
/// evaluate the predicate against the folded scope.
pub fn check_blended_expr<'a, S: Store>(
    storage: &S,
    filter_context: Option<&'a FilterContext<'a>>,
    blend_context: &'a BlendContext<'a>,
    expr: &'a ConditionExpression,
) -> (r: Result<bool, FilterError>)
    requires
        blend_context.wf(),
        frames_wf(opt_frames(filter_context)),
    ensures
        r == spec_check_blended_expr(
            storage,
            match filter_context {
                Option::Some(c) => Option::Some(c.frames()),
                Option::None => Option::None,
            },
            *blend_context,
            *expr,
        ),
    decreases *blend_context,
{
    let fc = FilterContext::new(
        blend_context.table,
        blend_context.columns,
        blend_context.row,
        filter_context,
    );
    proof {
        let ghost frame0 = ScopeFrame {
            table: *blend_context.table,
            columns: *blend_context.columns,
            row: *blend_context.row,
        };
        assert(fc.frames() == seq![frame0] + opt_frames(filter_context));
        lemma_frames_wf_push(frame0, opt_frames(filter_context));
        assert(fc.frames() =~= seq![frame0] + (match (match filter_context {
            Option::Some(c) => Option::Some(c.frames()),
            Option::None => Option::None::<Seq<ScopeFrame>>,
        }) {
            Option::Some(f) => f,
            Option::None => Seq::empty(),
        }));
    }
    match blend_context.next {
        Option::Some(nb) => check_blended_expr(storage, Option::Some(&fc), nb, expr),
        Option::None => check_expr(storage, &fc, expr),
    }
}

/// Negation inverts: whenever a predicate evaluates to a boolean without
/// error, its negation evaluates to the opposite boolean.
pub proof fn lemma_negation_inverts<S: Store>(
    storage: &S,
    frames: Seq<ScopeFrame>,
    neg: ConditionExpression,
    inner: ConditionExpression,
    b: bool,
)
    requires
        neg matches ConditionExpression::NegationOp(i) && *i == inner,
        spec_check_expr(storage, frames, inner) == Result::<bool, FilterError>::Ok(b),
    ensures
        spec_check_expr(storage, frames, neg) == Result::<bool, FilterError>::Ok(!b),
{
}

/// Bracketing is a no-op: a bracketed predicate evaluates exactly as the
/// predicate it wraps, verdicts and errors alike.
pub proof fn lemma_bracketing_is_noop<S: Store>(
    storage: &S,
    frames: Seq<ScopeFrame>,
    wrapped: ConditionExpression,
    inner: ConditionExpression,
)
    requires
        wrapped matches ConditionExpression::Bracketed(i) && *i == inner,
    ensures
        spec_check_expr(storage, frames, wrapped) == spec_check_expr(storage, frames, inner),
{
}

/// `And` and `Or` evaluate both operands unconditionally: a right-hand error
/// surfaces even when the left operand alone already determines the result.
pub proof fn lemma_logical_operands_both_evaluated<S: Store>(
    storage: &S,
    frames: Seq<ScopeFrame>,
    expr: ConditionExpression,
    tree: ConditionTree,
    e: FilterError,
)
    requires
        expr matches ConditionExpression::LogicalOp(t) && t == tree,
        tree.operator == Operator::And || tree.operator == Operator::Or,
        spec_check_expr(storage, frames, *tree.left) is Ok,
        spec_check_expr(storage, frames, *tree.right) == Result::<bool, FilterError>::Err(e),
    ensures
        spec_check_expr(storage, frames, expr) == Result::<bool, FilterError>::Err(e),
{
    assert(spec_check_tree(storage, frames, tree) == Result::<bool, FilterError>::Err(e));
}

/// Any operator outside the evaluable subset -- `Equal`, `NotEqual`, `In`,
/// `And`, `Or` -- makes the node fail with `Unimplemented`, never yield a
/// wrong boolean.
pub proof fn lemma_unsupported_operator_rejected<S: Store>(
    storage: &S,
    frames: Seq<ScopeFrame>,
    expr: ConditionExpression,
    tree: ConditionTree,
)
    requires
        (expr matches ConditionExpression::ComparisonOp(t) && t == tree) || (
        expr matches ConditionExpression::LogicalOp(t) && t == tree),
        tree.operator != Operator::Equal,
        tree.operator != Operator::NotEqual,
        tree.operator != Operator::In,
        tree.operator != Operator::And,
        tree.operator != Operator::Or,
    ensures
        spec_check_expr(storage, frames, expr) == Result::<bool, FilterError>::Err(
            FilterError::Unimplemented,
        ),
{
    assert(spec_check_tree(storage, frames, tree) == Result::<bool, FilterError>::Err(
        FilterError::Unimplemented,
    ));
}

} // verus!

