use columnar::TypeMismatch;
use columnar::array::{
    Array, ArrayBuilder, ArrayImpl, ArrayKind, BoolArray, I32Array, I32ArrayBuilder, I64Array,
    I64ArrayBuilder, StringArray, StringArrayBuilder,
};
use columnar::expr::cmp::{ExprCmpEq, ExprCmpGe, ExprCmpLe, ExprCmpNe};
use columnar::expr::string::ExprStrContains;
use columnar::expr::vectorize::BinaryExpression;
use columnar::expr::{BinaryExpression as ClosureExpression, ExprError, Expression};

fn erased_i32(slots: &[Option<i32>]) -> ArrayImpl {
    let mut b = I32ArrayBuilder::with_capacity(slots.len());
    for s in slots {
        b.push(*s);
    }
    b.finish().erase()
}

fn erased_i64(slots: &[Option<i64>]) -> ArrayImpl {
    let mut b = I64ArrayBuilder::with_capacity(slots.len());
    for s in slots {
        b.push(*s);
    }
    b.finish().erase()
}

fn erased_string(slots: &[Option<&str>]) -> ArrayImpl {
    let mut b = StringArrayBuilder::with_capacity(slots.len());
    for s in slots {
        b.push(*s);
    }
    b.finish().erase()
}

fn bool_slots(out: &ArrayImpl) -> Vec<Option<bool>> {
    let a: &BoolArray = BoolArray::try_narrow(out).unwrap();
    let mut v = Vec::new();
    for i in 0..a.len() {
        v.push(a.get(i));
    }
    v
}

#[test]
fn less_than_int32_propagates_nulls() {
    let lhs = erased_i32(&[Some(1), None, Some(3)]);
    let rhs = erased_i32(&[Some(10), Some(20), Some(3)]);
    let expr: BinaryExpression<I32Array, I32Array, BoolArray, _> =
        BinaryExpression::new(ExprCmpLe::<I32Array, I32Array, I32Array>::new());
    let out = expr.eval_batch(&lhs, &rhs).unwrap();
    assert_eq!(out.tag(), ArrayKind::Bool);
    assert_eq!(bool_slots(&out), vec![Some(true), None, Some(false)]);
}

#[test]
fn equal_int32() {
    let lhs = erased_i32(&[Some(5), Some(5)]);
    let rhs = erased_i32(&[Some(5), Some(6)]);
    let expr: BinaryExpression<I32Array, I32Array, BoolArray, _> =
        BinaryExpression::new(ExprCmpEq::<I32Array, I32Array, I32Array>::new());
    let out = expr.eval_batch(&lhs, &rhs).unwrap();
    assert_eq!(bool_slots(&out), vec![Some(true), Some(false)]);
}

#[test]
fn contains_text_propagates_nulls() {
    let lhs = erased_string(&[Some("hello"), None]);
    let rhs = erased_string(&[Some("ell"), Some("x")]);
    let expr: BinaryExpression<StringArray, StringArray, BoolArray, _> =
        BinaryExpression::new(ExprStrContains);
    let out = expr.eval_batch(&lhs, &rhs).unwrap();
    assert_eq!(bool_slots(&out), vec![Some(true), None]);
}

#[test]
fn contains_empty_needle_is_true() {
    let lhs = erased_string(&[Some("abc"), Some("")]);
    let rhs = erased_string(&[Some(""), Some("")]);
    let expr: BinaryExpression<StringArray, StringArray, BoolArray, _> =
        BinaryExpression::new(ExprStrContains);
    let out = expr.eval_batch(&lhs, &rhs).unwrap();
    assert_eq!(bool_slots(&out), vec![Some(true), Some(true)]);
}

#[test]
fn contains_is_not_symmetric() {
    let lhs = erased_string(&[Some("ell")]);
    let rhs = erased_string(&[Some("hello")]);
    let expr: BinaryExpression<StringArray, StringArray, BoolArray, _> =
        BinaryExpression::new(ExprStrContains);
    let out = expr.eval_batch(&lhs, &rhs).unwrap();
    assert_eq!(bool_slots(&out), vec![Some(false)]);
}

#[test]
fn greater_and_not_equal_int64() {
    let lhs = erased_i64(&[Some(9), Some(2), None]);
    let rhs = erased_i64(&[Some(3), Some(2), Some(1)]);
    let ge: BinaryExpression<I64Array, I64Array, BoolArray, _> =
        BinaryExpression::new(ExprCmpGe::<I64Array, I64Array, I64Array>::new());
    let out = ge.eval_batch(&lhs, &rhs).unwrap();
    assert_eq!(bool_slots(&out), vec![Some(true), Some(true), None]);
    let ne: BinaryExpression<I64Array, I64Array, BoolArray, _> =
        BinaryExpression::new(ExprCmpNe::<I64Array, I64Array, I64Array>::new());
    let out = ne.eval_batch(&lhs, &rhs).unwrap();
    assert_eq!(bool_slots(&out), vec![Some(true), Some(false), None]);
}

#[test]
fn widening_compare_int32_against_int64() {
    let lhs = erased_i32(&[Some(7), Some(-1)]);
    let rhs = erased_i64(&[Some(1 << 40), Some(-2)]);
    let expr: BinaryExpression<I32Array, I64Array, BoolArray, _> =
        BinaryExpression::new(ExprCmpLe::<I32Array, I64Array, I64Array>::new());
    let out = expr.eval_batch(&lhs, &rhs).unwrap();
    assert_eq!(bool_slots(&out), vec![Some(true), Some(false)]);
}

#[test]
fn eval_batch_reports_first_mismatching_input() {
    let lhs = erased_string(&[Some("a")]);
    let rhs = erased_i32(&[Some(1)]);
    let expr: BinaryExpression<I32Array, I32Array, BoolArray, _> =
        BinaryExpression::new(ExprCmpLe::<I32Array, I32Array, I32Array>::new());
    let r = expr.eval_batch(&lhs, &rhs);
    assert_eq!(
        r.err().unwrap(),
        TypeMismatch(ArrayKind::Int32, ArrayKind::String)
    );
    let r = expr.eval_batch(&rhs, &lhs);
    assert_eq!(
        r.err().unwrap(),
        TypeMismatch(ArrayKind::Int32, ArrayKind::String)
    );
}

#[test]
fn eval_expr_checks_arity() {
    let a = erased_i32(&[Some(1)]);
    let b = erased_i32(&[Some(2)]);
    let c = erased_i32(&[Some(3)]);
    let expr: BinaryExpression<I32Array, I32Array, BoolArray, _> =
        BinaryExpression::new(ExprCmpLe::<I32Array, I32Array, I32Array>::new());
    let r = expr.eval_expr(&[&a, &b, &c]);
    assert_eq!(r.err().unwrap(), ExprError::ArityMismatch);
    let r = expr.eval_expr(&[&a]);
    assert_eq!(r.err().unwrap(), ExprError::ArityMismatch);
    let r = expr.eval_expr(&[]);
    assert_eq!(r.err().unwrap(), ExprError::ArityMismatch);
}

#[test]
fn eval_expr_delegates_to_the_binary_step() {
    let a = erased_i32(&[Some(1), None]);
    let b = erased_i32(&[Some(0), Some(2)]);
    let expr: BinaryExpression<I32Array, I32Array, BoolArray, _> =
        BinaryExpression::new(ExprCmpGe::<I32Array, I32Array, I32Array>::new());
    let out = expr.eval_expr(&[&a, &b]).unwrap();
    assert_eq!(bool_slots(&out), vec![Some(true), None]);

    let s = erased_string(&[Some("x"), Some("y")]);
    let r = expr.eval_expr(&[&s, &b]);
    assert_eq!(
        r.err().unwrap(),
        ExprError::TypeMismatch(TypeMismatch(ArrayKind::Int32, ArrayKind::String))
    );
}

#[test]
fn closure_expression_adds_slotwise() {
    let lhs = erased_i32(&[Some(1), None, Some(30)]);
    let rhs = erased_i32(&[Some(2), Some(20), None]);
    let expr: ClosureExpression<I32Array, I32Array, I32Array, _> =
        ClosureExpression::new(|a: i32, b: i32| a.wrapping_add(b));
    let out = expr.eval(&lhs, &rhs).unwrap();
    assert_eq!(out.tag(), ArrayKind::Int32);
    let a: &I32Array = I32Array::try_narrow(&out).unwrap();
    assert_eq!(a.len(), 3);
    assert_eq!(a.get(0), Some(3));
    assert_eq!(a.get(1), None);
    assert_eq!(a.get(2), None);
}

#[test]
fn closure_expression_reports_type_mismatch() {
    let lhs = erased_i64(&[Some(1)]);
    let rhs = erased_i32(&[Some(2)]);
    let expr: ClosureExpression<I32Array, I32Array, I32Array, _> =
        ClosureExpression::new(|a: i32, b: i32| a.wrapping_add(b));
    let r = expr.eval(&lhs, &rhs);
    assert_eq!(
        r.err().unwrap(),
        TypeMismatch(ArrayKind::Int32, ArrayKind::Int64)
    );
}

#[test]
fn evaluating_the_same_columns_twice_is_repeatable() {
    let lhs = erased_i32(&[Some(1), None, Some(3)]);
    let rhs = erased_i32(&[Some(2), Some(2), None]);
    let expr: BinaryExpression<I32Array, I32Array, BoolArray, _> =
        BinaryExpression::new(ExprCmpLe::<I32Array, I32Array, I32Array>::new());
    let first = expr.eval_batch(&lhs, &rhs).unwrap();
    let second = expr.eval_batch(&lhs, &rhs).unwrap();
    assert_eq!(bool_slots(&first), bool_slots(&second));
    assert_eq!(bool_slots(&first), vec![Some(true), None, None]);
}

#[test]
fn greater_or_equal_holds_at_equal_operands() {
    let lhs = erased_i32(&[Some(5), Some(4), Some(6)]);
    let rhs = erased_i32(&[Some(5), Some(5), Some(5)]);
    let expr: BinaryExpression<I32Array, I32Array, BoolArray, _> =
        BinaryExpression::new(ExprCmpGe::<I32Array, I32Array, I32Array>::new());
    let out = expr.eval_batch(&lhs, &rhs).unwrap();
    assert_eq!(bool_slots(&out), vec![Some(true), Some(false), Some(true)]);
}
