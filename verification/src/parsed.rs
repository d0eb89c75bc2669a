use vstd::prelude::*;
use crate::ast::{Literal, SelectStatement};
use crate::context::{FilterContext, ScopeFrame};
use crate::data::{
    Row, Value, literal_eq, literal_value_eq, spec_literal_eq, spec_literal_value_eq,
    spec_value_eq, value_eq,
};
use crate::errors::{FilterError, StoreError};
use crate::store::Store;

verus! {

/// One operand of a comparison, under any of the three representations that
/// must compare uniformly: a parse-time literal, a value resolved out of a
/// row, or a value materialized from a nested SELECT.
pub enum Parsed<'a> {
    LiteralRef(&'a Literal),
    ValueRef(&'a Value),
    Value(Value),
}

/// The right-hand side of a set-membership test: an inline literal list, a
/// nested SELECT still to be enumerated under a captured scope, or a single
/// scalar operand.
pub enum ParsedList<'a> {
    LiteralRef(&'a Vec<Literal>),
    Value { statement: &'a SelectStatement, filter_context: &'a FilterContext<'a> },
    Parsed(Parsed<'a>),
}

/// What a `Parsed` operand denotes: borrowing is forgotten, and a resolved
/// and a materialized value denote alike.
pub enum ParsedV {
    Literal(Literal),
    Value(Value),
}

/// What a `ParsedList` denotes: the listed literals, or the statement to
/// enumerate together with the scope it captured, or a single operand.
pub enum ParsedListV {
    LiteralList(Seq<Literal>),
    Select(SelectStatement, Seq<ScopeFrame>),
    Parsed(ParsedV),
}

impl<'a> View for Parsed<'a> {
    type V = ParsedV;

    open spec fn view(&self) -> ParsedV {
        match *self {
            Parsed::LiteralRef(l) => ParsedV::Literal(*l),
            Parsed::ValueRef(v) => ParsedV::Value(*v),
            Parsed::Value(v) => ParsedV::Value(v),
        }
    }
}

impl<'a> View for ParsedList<'a> {
    type V = ParsedListV;

    open spec fn view(&self) -> ParsedListV {
        match *self {
            ParsedList::LiteralRef(ls) => ParsedListV::LiteralList(ls@),
            ParsedList::Value { statement, filter_context } => ParsedListV::Select(
                *statement,
                filter_context.frames(),
            ),
            ParsedList::Parsed(p) => ParsedListV::Parsed(p@),
        }
    }
}

/// Cross-representation equality of two operands: literal against literal,
/// value against value, and literal against value under the storage type
/// system's scalar rule, whichever side each representation stands on.
pub open spec fn spec_parsedv_eq(a: ParsedV, b: ParsedV) -> bool {
    match (a, b) {
        (ParsedV::Literal(x), ParsedV::Literal(y)) => spec_literal_eq(x, y),
        (ParsedV::Literal(x), ParsedV::Value(y)) => spec_literal_value_eq(x, y),
        (ParsedV::Value(x), ParsedV::Literal(y)) => spec_literal_value_eq(y, x),
        (ParsedV::Value(x), ParsedV::Value(y)) => spec_value_eq(x, y),
    }
}

/// Equality of two operands, whatever representation each side uses.
pub open spec fn spec_parsed_eq(a: Parsed<'_>, b: Parsed<'_>) -> bool {
    spec_parsedv_eq(a@, b@)
}

/// Whether some literal at index `i` or later equals the needle.
pub open spec fn spec_list_contains(needle: ParsedV, lits: Seq<Literal>, i: int) -> bool
    decreases lits.len() - i,
{
    if i < 0 || i >= lits.len() {
        false
    } else {
        spec_parsedv_eq(ParsedV::Literal(lits[i]), needle) || spec_list_contains(
            needle,
            lits,
            i + 1,
        )
    }
}

/// The verdict of scanning a nested SELECT's results from index `i` on:
/// a storage failure is surfaced at once; a row without a first value is a
/// missing scalar; the first row whose first value equals the needle stops
/// the scan with `true`; exhaustion means `false`.
pub open spec fn spec_scan_rows(
    needle: ParsedV,
    rows: Seq<Result<Row, StoreError>>,
    i: int,
) -> Result<bool, FilterError>
    decreases rows.len() - i,
{
    if i < 0 || i >= rows.len() {
        Result::Ok(false)
    } else {
        match rows[i] {
            Result::Err(e) => Result::Err(FilterError::Storage(e)),
            Result::Ok(row) => if row.values@.len() == 0 {
                Result::Err(FilterError::NestedSelectRowNotFound)
            } else if spec_parsedv_eq(ParsedV::Value(row.values@[0]), needle) {
                Result::Ok(true)
            } else {
                spec_scan_rows(needle, rows, i + 1)
            },
        }
    }
}

/// The verdict of a set-membership test of `needle` against `list`.
pub open spec fn spec_exists_in<S: Store>(
    storage: &S,
    needle: ParsedV,
    list: ParsedListV,
) -> Result<bool, FilterError> {
    match list {
        ParsedListV::Parsed(p) => Result::Ok(spec_parsedv_eq(p, needle)),
        ParsedListV::LiteralList(lits) => Result::Ok(spec_list_contains(needle, lits, 0)),
        ParsedListV::Select(statement, frames) => spec_scan_rows(
            needle,
            storage.select_results(statement, Option::Some(frames)),
            0,
        ),
    }
}

/// Equality of two operands, written operand-agnostically: any of the three
/// representations may stand on either side.
impl<'a> PartialEq for Parsed<'a> {
    fn eq(&self, other: &Parsed<'a>) -> (r: bool) {
        match (self, other) {
            (Parsed::LiteralRef(lr), Parsed::LiteralRef(lr2)) => literal_eq(lr, lr2),
            (Parsed::LiteralRef(lr), Parsed::ValueRef(vr)) => literal_value_eq(lr, vr),
            (Parsed::LiteralRef(lr), Parsed::Value(v)) => literal_value_eq(lr, v),
            (Parsed::Value(v), Parsed::LiteralRef(lr)) => literal_value_eq(lr, v),
            (Parsed::Value(v), Parsed::ValueRef(vr)) => value_eq(v, vr),
            (Parsed::Value(v), Parsed::Value(v2)) => value_eq(v, v2),
            (Parsed::ValueRef(vr), Parsed::LiteralRef(lr)) => literal_value_eq(lr, vr),
            (Parsed::ValueRef(vr), Parsed::ValueRef(vr2)) => value_eq(vr, vr2),
            (Parsed::ValueRef(vr), Parsed::Value(v)) => value_eq(vr, v),
        }
    }
}

/// What `==` on two operands means in contracts: cross-representation
/// equality.
impl<'a> vstd::std_specs::cmp::PartialEqSpecImpl for Parsed<'a> {
    open spec fn obeys_eq_spec() -> bool {
        true
    }

    open spec fn eq_spec(&self, other: &Parsed<'a>) -> bool {
        spec_parsed_eq(*self, *other)
    }
}

/// Cross-representation equality is symmetric: which side holds the literal,
/// the stored value or the owned value never changes the verdict.
pub proof fn lemma_parsed_eq_symmetric(a: Parsed<'_>, b: Parsed<'_>)
    ensures
        spec_parsed_eq(a, b) == spec_parsed_eq(b, a),
{
}

/// Membership in an empty literal list is false for every needle.
pub proof fn lemma_membership_in_empty_list(needle: ParsedV)
    ensures
        !spec_list_contains(needle, Seq::<Literal>::empty(), 0),
{
}

impl<'a> Parsed<'a> {
    /// Set-membership test of this operand against a haystack: a single
    /// operand is an equality test; a literal list is scanned for an equal
    /// literal; a nested SELECT is enumerated under its captured scope,
    /// stopping at the first equal first-column value.
    #[verifier::loop_isolation(false)]
    pub fn exists_in<S: Store>(&self, storage: &S, list: ParsedList<'a>) -> (r: Result<
        bool,
        FilterError,
    >)
        ensures
            r == spec_exists_in(storage, self@, list@),
    {
        match &list {
            ParsedList::Parsed(parsed) => Result::Ok(parsed == self),
            ParsedList::LiteralRef(literals) => {
                let n = literals.len();
                let mut i: usize = 0;
                while i < n
                    invariant
                        i <= n,
                        n == literals@.len(),
                        spec_list_contains(self@, literals@, 0) == spec_list_contains(
                            self@,
                            literals@,
                            i as int,
                        ),
                    decreases n - i,
                {
                    if &Parsed::LiteralRef(&literals[i]) == self {
                        proof {
                            assert(spec_parsedv_eq(ParsedV::Literal(literals@[i as int]), self@));
                            assert(spec_list_contains(self@, literals@, i as int));
                        }
                        return Result::Ok(true);
                    }
                    i += 1;
                }
                Result::Ok(false)
            },
            ParsedList::Value { statement, filter_context } => {
                let rows = storage.run_select(*statement, Option::Some(*filter_context));
                let n = rows.len();
                let mut i: usize = 0;
                while i < n
                    invariant
                        i <= n,
                        n == rows@.len(),
                        rows@ == storage.select_results(
                            **statement,
                            Option::Some((*filter_context).frames()),
                        ),
                        spec_scan_rows(self@, rows@, 0) == spec_scan_rows(self@, rows@, i as int),
                    decreases n - i,
                {
                    match &rows[i] {
                        Result::Err(e) => {
                            proof {
                                assert(spec_scan_rows(self@, rows@, i as int)
                                    == Result::<bool, FilterError>::Err(FilterError::Storage(*e)));
                            }
                            return Result::Err(FilterError::Storage(*e));
                        },
                        Result::Ok(row) => {
                            if row.values.len() == 0 {
                                proof {
                                    assert(spec_scan_rows(self@, rows@, i as int)
                                        == Result::<bool, FilterError>::Err(
                                        FilterError::NestedSelectRowNotFound,
                                    ));
                                }
                                return Result::Err(FilterError::NestedSelectRowNotFound);
                            }
                            let candidate = Parsed::Value(row.values[0].clone());
                            if &candidate == self {
                                return Result::Ok(true);
                            }
                        },
                    }
                    i += 1;
                }
                Result::Ok(false)
            },
        }
    }
}

} // verus!
