use vstd::prelude::*;
use crate::ast::ConditionExpression;
use crate::context::{
    BlendContext, FilterContext, ScopeFrame, frames_wf, lemma_frames_wf_push, opt_frames,
};
use crate::data::{Column, Row, Table};
use crate::errors::FilterError;
use crate::evaluate::{check_blended_expr, check_expr, spec_check_blended_expr, spec_check_expr};
use crate::store::Store;

verus! {

/// One of the two public entry points: evaluates a WHERE clause against a
/// single table's candidate rows, under an optional pre-existing outer scope
/// for correlated subqueries.  A filter without a WHERE clause accepts every
/// row.
pub struct Filter<'a, S: Store> {
    pub storage: &'a S,
    pub where_clause: Option<&'a ConditionExpression>,
    pub context: Option<&'a FilterContext<'a>>,
}

impl<'a, S: Store> Filter<'a, S> {
    pub fn new(
        storage: &'a S,
        where_clause: Option<&'a ConditionExpression>,
        context: Option<&'a FilterContext<'a>>,
    ) -> (r: Self)
        ensures
            r == (Filter { storage, where_clause, context }),
    {
        Filter { storage, where_clause, context }
    }

    /// The verdict `check` owes: the WHERE clause evaluated under a scope
    /// whose innermost frame is the candidate row and whose enclosing frames
    /// are the filter's outer context; `Ok(true)` when there is no clause.
    pub open spec fn spec_check(&self, table: Table, columns: Vec<Column>, row: Row) -> Result<
        bool,
        FilterError,
    > {
        match self.where_clause {
            Option::Some(expr) => spec_check_expr(
                self.storage,
                seq![ScopeFrame { table, columns, row }] + opt_frames(self.context),
                *expr,
            ),
            Option::None => Result::Ok(true),
        }
    }

    /// Decide whether one candidate row of `table` satisfies the WHERE
    /// clause.
    pub fn check(&self, table: &Table, columns: &Vec<Column>, row: &Row) -> (r: Result<
        bool,
        FilterError,
    >)
        requires
            columns@.len() == row.values@.len(),
            frames_wf(opt_frames(self.context)),
        ensures
            r == self.spec_check(*table, *columns, *row),
    {
        let context = FilterContext::new(table, columns, row, self.context);
        proof {
            let ghost frame0 = ScopeFrame { table: *table, columns: *columns, row: *row };
            lemma_frames_wf_push(frame0, opt_frames(self.context));
            assert(context.frames() == seq![frame0] + opt_frames(self.context));
        }
        match self.where_clause {
            Option::Some(expr) => check_expr(self.storage, &context, expr),
            Option::None => Result::Ok(true),
        }
    }

    /// The verdict `check_blended` owes: the WHERE clause evaluated against
    /// the join-row chain, folded onto the filter's outer context.
    pub open spec fn spec_check_blended(&self, blend_context: BlendContext<'_>) -> Result<
        bool,
        FilterError,
    > {
        match self.where_clause {
            Option::Some(expr) => spec_check_blended_expr(
                self.storage,
                match self.context {
                    Option::Some(c) => Option::Some(c.frames()),
                    Option::None => Option::None,
                },
                blend_context,
                *expr,
            ),
            Option::None => Result::Ok(true),
        }
    }

    /// Decide whether a row assembled from joined tables satisfies the WHERE
    /// clause.
    pub fn check_blended(&self, blend_context: &'a BlendContext<'a>) -> (r: Result<
        bool,
        FilterError,
    >)
        requires
            blend_context.wf(),
            frames_wf(opt_frames(self.context)),
        ensures
            r == self.spec_check_blended(*blend_context),
    {
        match self.where_clause {
            Option::Some(expr) => check_blended_expr(self.storage, self.context, blend_context, expr),
            Option::None => Result::Ok(true),
        }
    }
}

/// The second public entry point: a filter paired with a join-row chain, so
/// that a WHERE clause can reference columns from any joined table and any
/// enclosing correlated scope uniformly.
pub struct BlendedFilter<'a, S: Store> {
    pub filter: &'a Filter<'a, S>,
    pub context: Option<&'a BlendContext<'a>>,
}

impl<'a, S: Store> BlendedFilter<'a, S> {
    pub fn new(filter: &'a Filter<'a, S>, context: Option<&'a BlendContext<'a>>) -> (r: Self)
        ensures
            r == (BlendedFilter { filter, context }),
    {
        BlendedFilter { filter, context }
    }

    /// The verdict `check` owes: the candidate row becomes the innermost
    /// scope frame over the filter's outer context; the join chain, if one
    /// is attached, is folded on top of that scope; and the WHERE clause is
    /// evaluated against the result.  `Ok(true)` when there is no clause.
    pub open spec fn spec_check(&self, table: Table, columns: Vec<Column>, row: Row) -> Result<
        bool,
        FilterError,
    > {
        match self.filter.where_clause {
            Option::Some(expr) => match self.context {
                Option::Some(bc) => spec_check_blended_expr(
                    self.filter.storage,
                    Option::Some(
                        seq![ScopeFrame { table, columns, row }] + opt_frames(self.filter.context),
                    ),
                    *bc,
                    *expr,
                ),
                Option::None => spec_check_expr(
                    self.filter.storage,
                    seq![ScopeFrame { table, columns, row }] + opt_frames(self.filter.context),
                    *expr,
                ),
            },
            Option::None => Result::Ok(true),
        }
    }

    /// Decide whether one candidate row, together with the attached join
    /// chain, satisfies the WHERE clause.
    pub fn check(&self, table: &Table, columns: &Vec<Column>, row: &Row) -> (r: Result<
        bool,
        FilterError,
    >)
        requires
            columns@.len() == row.values@.len(),
            frames_wf(opt_frames(self.filter.context)),
            match self.context {
                Option::Some(bc) => bc.wf(),
                Option::None => true,
            },
        ensures
            r == self.spec_check(*table, *columns, *row),
    {
        let filter_context = FilterContext::new(table, columns, row, self.filter.context);
        proof {
            let ghost frame0 = ScopeFrame { table: *table, columns: *columns, row: *row };
            lemma_frames_wf_push(frame0, opt_frames(self.filter.context));
            assert(filter_context.frames() == seq![frame0] + opt_frames(self.filter.context));
        }
        match self.filter.where_clause {
            Option::Some(expr) => match self.context {
                Option::Some(bc) => check_blended_expr(
                    self.filter.storage,
                    Option::Some(&filter_context),
                    bc,
                    expr,
                ),
                Option::None => check_expr(self.filter.storage, &filter_context, expr),
            },
            Option::None => Result::Ok(true),
        }
    }
}

/// A blended filter with no join chain attached decides exactly as its
/// underlying filter does: the two entry points share one evaluator.
pub proof fn lemma_blended_without_chain_matches_filter<'a, S: Store>(
    blended: BlendedFilter<'a, S>,
    table: Table,
    columns: Vec<Column>,
    row: Row,
)
    requires
        blended.context is None,
    ensures
        blended.spec_check(table, columns, row) == blended.filter.spec_check(table, columns, row),
{
}

} // verus!
