use sql_filter::ast::{
    ConditionBase, ConditionExpression, ConditionTree, Literal, Operator, SelectStatement,
};
use sql_filter::context::{BlendContext, FilterContext};
use sql_filter::data::{Column, Row, Table, Value};
use sql_filter::errors::{FilterError, StoreError};
use sql_filter::filter::{BlendedFilter, Filter};
use sql_filter::parsed::Parsed;
use sql_filter::store::Store;

fn table(name: &str) -> Table {
    Table { name: name.to_string() }
}

fn cols(names: &[&str]) -> Vec<Column> {
    names.iter().map(|n| Column { name: n.to_string() }).collect()
}

fn row_i64(vals: &[i64]) -> Row {
    Row { values: vals.iter().map(|v| Value::I64(*v)).collect() }
}

fn lit_int(i: i64) -> ConditionExpression {
    ConditionExpression::Base(ConditionBase::Literal(Literal::Integer(i)))
}

fn field(name: &str) -> ConditionExpression {
    ConditionExpression::Base(ConditionBase::Field(Column { name: name.to_string() }))
}

fn nested(id: u64) -> ConditionExpression {
    ConditionExpression::Base(ConditionBase::NestedSelect(SelectStatement { id }))
}

fn int_list(vals: &[i64]) -> ConditionExpression {
    ConditionExpression::Base(ConditionBase::LiteralList(
        vals.iter().map(|v| Literal::Integer(*v)).collect(),
    ))
}

fn cmp(op: Operator, l: ConditionExpression, r: ConditionExpression) -> ConditionExpression {
    ConditionExpression::ComparisonOp(ConditionTree {
        operator: op,
        left: Box::new(l),
        right: Box::new(r),
    })
}

fn logical(op: Operator, l: ConditionExpression, r: ConditionExpression) -> ConditionExpression {
    ConditionExpression::LogicalOp(ConditionTree {
        operator: op,
        left: Box::new(l),
        right: Box::new(r),
    })
}

/// Statement ids the in-memory store understands.
const CORRELATED_ENROLLMENT: u64 = 1;
const ERRORING_SELECT: u64 = 2;
const EMPTY_SELECT: u64 = 3;
const ALL_ENROLLMENT: u64 = 4;
const VALUELESS_ROW_SELECT: u64 = 5;
const MATCH_BEFORE_ERROR_SELECT: u64 = 6;

/// An in-memory store over one `enrollment` id column.  The correlated
/// statement resolves `student_id` from the outer scope, as a real engine
/// would while executing the subquery's own WHERE clause.
struct MemStore {
    enrollment_ids: Vec<i64>,
}

impl Store for MemStore {
    fn run_select<'a>(
        &self,
        statement: &SelectStatement,
        outer: Option<&'a FilterContext<'a>>,
    ) -> Vec<Result<Row, StoreError>> {
        match statement.id {
            CORRELATED_ENROLLMENT => {
                let scope = outer.expect("correlated select needs an outer scope");
                match scope.get_value(&"student_id".to_string()) {
                    Ok(Value::I64(target)) => self
                        .enrollment_ids
                        .iter()
                        .filter(|id| *id == target)
                        .map(|id| Ok(Row { values: vec![Value::I64(*id)] }))
                        .collect(),
                    _ => vec![Err(StoreError { code: 99 })],
                }
            }
            ERRORING_SELECT => vec![Err(StoreError { code: 7 })],
            EMPTY_SELECT => vec![],
            ALL_ENROLLMENT => self
                .enrollment_ids
                .iter()
                .map(|id| Ok(Row { values: vec![Value::I64(*id)] }))
                .collect(),
            VALUELESS_ROW_SELECT => vec![Ok(Row { values: vec![] })],
            MATCH_BEFORE_ERROR_SELECT => vec![
                Ok(Row { values: vec![Value::I64(7)] }),
                Err(StoreError { code: 8 }),
            ],
            _ => vec![Err(StoreError { code: 100 })],
        }
    }
}

fn student_store() -> MemStore {
    MemStore { enrollment_ids: vec![7, 9] }
}

fn check_one(where_clause: &ConditionExpression, student_id: i64) -> Result<bool, FilterError> {
    let store = student_store();
    let filter = Filter::new(&store, Some(where_clause), None);
    filter.check(&table("student"), &cols(&["student_id"]), &row_i64(&[student_id]))
}

#[test]
fn no_where_clause_accepts_every_row() {
    let store = student_store();
    let filter: Filter<MemStore> = Filter::new(&store, None, None);
    let r = filter.check(&table("student"), &cols(&["student_id"]), &row_i64(&[1]));
    assert_eq!(r, Ok(true));
}

#[test]
fn equal_field_literal_match() {
    let expr = cmp(Operator::Equal, field("student_id"), lit_int(7));
    assert_eq!(check_one(&expr, 7), Ok(true));
}

#[test]
fn equal_field_literal_mismatch() {
    let expr = cmp(Operator::Equal, field("student_id"), lit_int(8));
    assert_eq!(check_one(&expr, 7), Ok(false));
}

#[test]
fn not_equal_negates_equality() {
    let expr = cmp(Operator::NotEqual, field("student_id"), lit_int(8));
    assert_eq!(check_one(&expr, 7), Ok(true));
    let expr2 = cmp(Operator::NotEqual, field("student_id"), lit_int(7));
    assert_eq!(check_one(&expr2, 7), Ok(false));
}

#[test]
fn negation_inverts_verdict() {
    let hit = || cmp(Operator::Equal, field("student_id"), lit_int(7));
    let miss = || cmp(Operator::Equal, field("student_id"), lit_int(8));
    assert_eq!(check_one(&ConditionExpression::NegationOp(Box::new(hit())), 7), Ok(false));
    assert_eq!(check_one(&ConditionExpression::NegationOp(Box::new(miss())), 7), Ok(true));
}

#[test]
fn bracketing_is_a_noop() {
    let hit = cmp(Operator::Equal, field("student_id"), lit_int(7));
    let miss = cmp(Operator::Equal, field("student_id"), lit_int(8));
    assert_eq!(
        check_one(&ConditionExpression::Bracketed(Box::new(hit)), 7),
        Ok(true)
    );
    assert_eq!(
        check_one(&ConditionExpression::Bracketed(Box::new(miss)), 7),
        Ok(false)
    );
}

#[test]
fn cross_representation_equality_is_symmetric() {
    let lit = Literal::Integer(42);
    let val = Value::I64(42);
    let other = Value::I64(43);
    let owned = Value::I64(42);
    let a = Parsed::LiteralRef(&lit);
    let b = Parsed::ValueRef(&val);
    let c = Parsed::Value(owned);
    let d = Parsed::ValueRef(&other);
    assert!(a == b && b == a);
    assert!(a == c && c == a);
    assert!(b == c && c == b);
    assert_eq!(a == d, d == a);
    assert!(a != d);
}

#[test]
fn and_evaluates_right_operand_even_when_left_is_false() {
    let left_false = cmp(Operator::Equal, lit_int(1), lit_int(2));
    let erroring = cmp(Operator::Equal, lit_int(1), nested(ERRORING_SELECT));
    let expr = logical(Operator::And, left_false, erroring);
    assert_eq!(check_one(&expr, 7), Err(FilterError::Storage(StoreError { code: 7 })));
}

#[test]
fn or_evaluates_right_operand_even_when_left_is_true() {
    let left_true = cmp(Operator::Equal, lit_int(1), lit_int(1));
    let erroring = cmp(Operator::Equal, lit_int(1), nested(ERRORING_SELECT));
    let expr = logical(Operator::Or, left_true, erroring);
    assert_eq!(check_one(&expr, 7), Err(FilterError::Storage(StoreError { code: 7 })));
}

#[test]
fn and_or_combine_boolean_verdicts() {
    let t = || cmp(Operator::Equal, lit_int(1), lit_int(1));
    let f = || cmp(Operator::Equal, lit_int(1), lit_int(2));
    assert_eq!(check_one(&logical(Operator::And, t(), t()), 7), Ok(true));
    assert_eq!(check_one(&logical(Operator::And, t(), f()), 7), Ok(false));
    assert_eq!(check_one(&logical(Operator::Or, f(), t()), 7), Ok(true));
    assert_eq!(check_one(&logical(Operator::Or, f(), f()), 7), Ok(false));
}

#[test]
fn set_membership_over_literal_list() {
    let hit = cmp(Operator::In, lit_int(2), int_list(&[1, 2, 3]));
    let miss = cmp(Operator::In, lit_int(5), int_list(&[1, 2, 3]));
    let empty = cmp(Operator::In, lit_int(2), int_list(&[]));
    assert_eq!(check_one(&hit, 7), Ok(true));
    assert_eq!(check_one(&miss, 7), Ok(false));
    assert_eq!(check_one(&empty, 7), Ok(false));
}

#[test]
fn set_membership_against_single_field() {
    let expr = cmp(Operator::In, lit_int(7), field("student_id"));
    assert_eq!(check_one(&expr, 7), Ok(true));
    assert_eq!(check_one(&expr, 8), Ok(false));
}

#[test]
fn correlated_nested_select_membership() {
    let expr = cmp(Operator::In, field("student_id"), nested(CORRELATED_ENROLLMENT));
    assert_eq!(check_one(&expr, 7), Ok(true));
    assert_eq!(check_one(&expr, 8), Ok(false));
}

#[test]
fn membership_scan_surfaces_storage_error() {
    let expr = cmp(Operator::In, field("student_id"), nested(ERRORING_SELECT));
    assert_eq!(check_one(&expr, 7), Err(FilterError::Storage(StoreError { code: 7 })));
}

#[test]
fn membership_scan_stops_at_first_match_before_later_error() {
    let expr = cmp(Operator::In, field("student_id"), nested(MATCH_BEFORE_ERROR_SELECT));
    assert_eq!(check_one(&expr, 7), Ok(true));
    assert_eq!(check_one(&expr, 8), Err(FilterError::Storage(StoreError { code: 8 })));
}

#[test]
fn unsupported_operator_is_rejected() {
    let expr = cmp(Operator::Less, field("student_id"), lit_int(9));
    assert_eq!(check_one(&expr, 7), Err(FilterError::Unimplemented));
}

#[test]
fn arithmetic_and_bare_base_are_rejected() {
    assert_eq!(check_one(&ConditionExpression::Arithmetic, 7), Err(FilterError::Unimplemented));
    assert_eq!(check_one(&lit_int(1), 7), Err(FilterError::Unimplemented));
}

#[test]
fn absent_field_reports_field_not_found() {
    let expr = cmp(Operator::Equal, field("absent"), lit_int(7));
    assert_eq!(check_one(&expr, 7), Err(FilterError::FieldNotFound));
}

#[test]
fn absent_field_in_every_scope_frame_reports_field_not_found() {
    let store = student_store();
    let outer_table = table("school");
    let outer_cols = cols(&["school_id"]);
    let outer_row = row_i64(&[1]);
    let outer = FilterContext::new(&outer_table, &outer_cols, &outer_row, None);
    let expr = cmp(Operator::Equal, field("absent"), lit_int(7));
    let filter = Filter::new(&store, Some(&expr), Some(&outer));
    let r = filter.check(&table("student"), &cols(&["student_id"]), &row_i64(&[7]));
    assert_eq!(r, Err(FilterError::FieldNotFound));
}

#[test]
fn outer_scope_frame_resolves_missing_column() {
    let store = student_store();
    let outer_table = table("school");
    let outer_cols = cols(&["school_id"]);
    let outer_row = row_i64(&[3]);
    let outer = FilterContext::new(&outer_table, &outer_cols, &outer_row, None);
    let expr = cmp(Operator::Equal, field("school_id"), lit_int(3));
    let filter = Filter::new(&store, Some(&expr), Some(&outer));
    let r = filter.check(&table("student"), &cols(&["student_id"]), &row_i64(&[7]));
    assert_eq!(r, Ok(true));
}

#[test]
fn scalar_nested_select_with_no_rows_is_an_error() {
    let expr = cmp(Operator::Equal, field("student_id"), nested(EMPTY_SELECT));
    assert_eq!(check_one(&expr, 7), Err(FilterError::NestedSelectRowNotFound));
}

#[test]
fn scalar_nested_select_takes_first_row_only() {
    let store = MemStore { enrollment_ids: vec![7, 9] };
    let expr = cmp(Operator::Equal, lit_int(7), nested(ALL_ENROLLMENT));
    let filter = Filter::new(&store, Some(&expr), None);
    let r = filter.check(&table("student"), &cols(&["student_id"]), &row_i64(&[7]));
    assert_eq!(r, Ok(true));

    let reordered = MemStore { enrollment_ids: vec![9, 7] };
    let filter2 = Filter::new(&reordered, Some(&expr), None);
    let r2 = filter2.check(&table("student"), &cols(&["student_id"]), &row_i64(&[7]));
    assert_eq!(r2, Ok(false));
}

#[test]
fn scalar_nested_select_with_valueless_row_is_an_error() {
    let expr = cmp(Operator::Equal, field("student_id"), nested(VALUELESS_ROW_SELECT));
    assert_eq!(check_one(&expr, 7), Err(FilterError::NestedSelectRowNotFound));
}

#[test]
fn literal_list_in_scalar_position_is_unreachable() {
    let expr = cmp(Operator::Equal, field("student_id"), int_list(&[1, 2]));
    assert_eq!(check_one(&expr, 7), Err(FilterError::UnreachableConditionBase));
}

#[test]
fn text_and_integer_scalars_do_not_mix() {
    let store = student_store();
    let expr = cmp(
        Operator::Equal,
        field("name"),
        ConditionExpression::Base(ConditionBase::Literal(Literal::Text("ada".to_string()))),
    );
    let filter = Filter::new(&store, Some(&expr), None);
    let name_row = Row { values: vec![Value::Str("ada".to_string())] };
    let r = filter.check(&table("student"), &cols(&["name"]), &name_row);
    assert_eq!(r, Ok(true));
    let mixed = cmp(Operator::Equal, field("name"), lit_int(1));
    let filter2 = Filter::new(&store, Some(&mixed), None);
    let r2 = filter2.check(&table("student"), &cols(&["name"]), &name_row);
    assert_eq!(r2, Ok(false));
}

#[test]
fn blended_filter_resolves_columns_of_every_joined_table() {
    let store = student_store();
    let class_table = table("class");
    let class_cols = cols(&["class_id"]);
    let class_row = row_i64(&[3]);
    let joined = BlendContext::new(&class_table, &class_cols, &class_row, None);
    let expr = logical(
        Operator::And,
        cmp(Operator::Equal, field("class_id"), lit_int(3)),
        cmp(Operator::Equal, field("student_id"), lit_int(7)),
    );
    let filter = Filter::new(&store, Some(&expr), None);
    let blended = BlendedFilter::new(&filter, Some(&joined));
    let r = blended.check(&table("student"), &cols(&["student_id"]), &row_i64(&[7]));
    assert_eq!(r, Ok(true));
    let r2 = blended.check(&table("student"), &cols(&["student_id"]), &row_i64(&[8]));
    assert_eq!(r2, Ok(false));
}

#[test]
fn blended_filter_without_join_chain_behaves_like_filter() {
    let store = student_store();
    let expr = cmp(Operator::Equal, field("student_id"), lit_int(7));
    let filter = Filter::new(&store, Some(&expr), None);
    let blended = BlendedFilter::new(&filter, None);
    let r = blended.check(&table("student"), &cols(&["student_id"]), &row_i64(&[7]));
    assert_eq!(r, Ok(true));
}

#[test]
fn check_blended_folds_join_chain_onto_scope() {
    let store = student_store();
    let student_table = table("student");
    let student_cols = cols(&["student_id"]);
    let student_row = row_i64(&[7]);
    let class_table = table("class");
    let class_cols = cols(&["class_id"]);
    let class_row = row_i64(&[3]);
    let inner = BlendContext::new(&student_table, &student_cols, &student_row, None);
    let chain = BlendContext::new(&class_table, &class_cols, &class_row, Some(&inner));
    let expr = logical(
        Operator::And,
        cmp(Operator::Equal, field("class_id"), lit_int(3)),
        cmp(Operator::Equal, field("student_id"), lit_int(7)),
    );
    let filter = Filter::new(&store, Some(&expr), None);
    let r = filter.check_blended(&chain);
    assert_eq!(r, Ok(true));
}

#[test]
fn correlated_select_reenters_scope_of_current_row() {
    // The subquery's WHERE references the row currently being filtered:
    // only ids present in `enrollment` pass.
    let store = MemStore { enrollment_ids: vec![2, 4, 6] };
    let expr = cmp(Operator::In, field("student_id"), nested(CORRELATED_ENROLLMENT));
    let filter = Filter::new(&store, Some(&expr), None);
    let passing: Vec<i64> = (1..=6)
        .filter(|id| {
            filter
                .check(&table("student"), &cols(&["student_id"]), &row_i64(&[*id]))
                .unwrap()
        })
        .collect();
    assert_eq!(passing, vec![2, 4, 6]);
}

#[test]
fn error_messages_match_their_kinds() {
    assert_eq!(FilterError::NestedSelectRowNotFound.message(), "nested select row not found");
    assert_eq!(FilterError::UnreachableConditionBase.message(), "UnreachableConditionBase");
    assert_eq!(FilterError::Unimplemented.message(), "unimplemented");
    assert_eq!(FilterError::FieldNotFound.message(), "field not found");
    assert_eq!(FilterError::Storage(StoreError { code: 1 }).message(), "storage error");
}
