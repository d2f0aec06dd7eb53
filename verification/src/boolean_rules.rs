//! How an operator with a boolean result is simplified once its operands are.

use crate::expressions::{BinaryExpression, UnaryExpression};
use crate::field::Field;
use crate::typed::{BooleanExpression, FieldElementExpression, UExpression, UExpressionInner};
use vstd::prelude::*;

verus! {

/// `l < r` on field elements: computed when both are literals, by their
/// representatives.
pub open spec fn folded_field_lt<T: Field>(
    l: FieldElementExpression<T>,
    r: FieldElementExpression<T>,
) -> BooleanExpression<T> {
    match (l, r) {
        (FieldElementExpression::Number(n1), FieldElementExpression::Number(n2)) => BooleanExpression::from_value(
            n1.value.value() < n2.value.value(),
        ),
        (e1, e2) => BooleanExpression::FieldLt(BinaryExpression::new(e1, e2)),
    }
}

/// `l <= r` on field elements: computed when both are literals.
pub open spec fn folded_field_le<T: Field>(
    l: FieldElementExpression<T>,
    r: FieldElementExpression<T>,
) -> BooleanExpression<T> {
    match (l, r) {
        (FieldElementExpression::Number(n1), FieldElementExpression::Number(n2)) => BooleanExpression::from_value(
            n1.value.value() <= n2.value.value(),
        ),
        (e1, e2) => BooleanExpression::FieldLe(BinaryExpression::new(e1, e2)),
    }
}

/// `l < r` on unsigned integers: computed when both are literals.
pub open spec fn folded_uint_lt<T>(l: UExpression<T>, r: UExpression<T>) -> BooleanExpression<T> {
    match (l.inner, r.inner) {
        (UExpressionInner::Value(n1), UExpressionInner::Value(n2)) => BooleanExpression::from_value(
            n1.value < n2.value,
        ),
        _ => BooleanExpression::UintLt(BinaryExpression::new(l, r)),
    }
}

/// `l <= r` on unsigned integers: computed when both are literals.
pub open spec fn folded_uint_le<T>(l: UExpression<T>, r: UExpression<T>) -> BooleanExpression<T> {
    match (l.inner, r.inner) {
        (UExpressionInner::Value(n1), UExpressionInner::Value(n2)) => BooleanExpression::from_value(
            n1.value <= n2.value,
        ),
        _ => BooleanExpression::UintLe(BinaryExpression::new(l, r)),
    }
}

/// `l || r`: computed when both are literals; a literal `true` decides, a
/// literal `false` is dropped.
pub open spec fn folded_or<T>(l: BooleanExpression<T>, r: BooleanExpression<T>) -> BooleanExpression<T> {
    match (l, r) {
        (BooleanExpression::Value(v1), BooleanExpression::Value(v2)) => BooleanExpression::from_value(
            v1.value || v2.value,
        ),
        (e, BooleanExpression::Value(v)) => if v.value {
            BooleanExpression::from_value(true)
        } else {
            e
        },
        (BooleanExpression::Value(v), e) => if v.value {
            BooleanExpression::from_value(true)
        } else {
            e
        },
        (e1, e2) => BooleanExpression::Or(BinaryExpression::new(e1, e2)),
    }
}

/// `l && r`: computed when both are literals; a literal `false` decides, a
/// literal `true` is dropped.
pub open spec fn folded_and<T>(l: BooleanExpression<T>, r: BooleanExpression<T>) -> BooleanExpression<T> {
    match (l, r) {
        (BooleanExpression::Value(v1), BooleanExpression::Value(v2)) => BooleanExpression::from_value(
            v1.value && v2.value,
        ),
        (e, BooleanExpression::Value(v)) => if v.value {
            e
        } else {
            BooleanExpression::from_value(false)
        },
        (BooleanExpression::Value(v), e) => if v.value {
            e
        } else {
            BooleanExpression::from_value(false)
        },
        (e1, e2) => BooleanExpression::And(BinaryExpression::new(e1, e2)),
    }
}

/// `!e`: computed for a literal.
pub open spec fn folded_not<T>(e: BooleanExpression<T>) -> BooleanExpression<T> {
    match e {
        BooleanExpression::Value(v) => BooleanExpression::from_value(!v.value),
        e => BooleanExpression::Not(UnaryExpression::new(e)),
    }
}

pub fn fold_field_lt<T: Field>(l: FieldElementExpression<T>, r: FieldElementExpression<T>) -> (out:
    BooleanExpression<T>)
    ensures
        out == folded_field_lt(l, r),
{
    match (l, r) {
        (FieldElementExpression::Number(n1), FieldElementExpression::Number(n2)) => BooleanExpression::from_value(
            n1.value.lt(&n2.value),
        ),
        (e1, e2) => BooleanExpression::FieldLt(BinaryExpression::new(e1, e2)),
    }
}

pub fn fold_field_le<T: Field>(l: FieldElementExpression<T>, r: FieldElementExpression<T>) -> (out:
    BooleanExpression<T>)
    ensures
        out == folded_field_le(l, r),
{
    match (l, r) {
        (FieldElementExpression::Number(n1), FieldElementExpression::Number(n2)) => BooleanExpression::from_value(
            n1.value.le(&n2.value),
        ),
        (e1, e2) => BooleanExpression::FieldLe(BinaryExpression::new(e1, e2)),
    }
}

/// The value of `e` where it is a literal.
pub fn literal<T>(e: &UExpression<T>) -> (r: Option<u128>)
    ensures
        r == (if e.inner is Value {
            Some(e.inner->Value_0.value)
        } else {
            None
        }),
{
    match &e.inner {
        UExpressionInner::Value(v) => Some(v.value),
        _ => None,
    }
}

pub fn fold_uint_lt<T>(l: UExpression<T>, r: UExpression<T>) -> (out: BooleanExpression<T>)
    ensures
        out == folded_uint_lt(l, r),
{
    match (literal(&l), literal(&r)) {
        (Some(n1), Some(n2)) => BooleanExpression::from_value(n1 < n2),
        _ => BooleanExpression::UintLt(BinaryExpression::new(l, r)),
    }
}

pub fn fold_uint_le<T>(l: UExpression<T>, r: UExpression<T>) -> (out: BooleanExpression<T>)
    ensures
        out == folded_uint_le(l, r),
{
    match (literal(&l), literal(&r)) {
        (Some(n1), Some(n2)) => BooleanExpression::from_value(n1 <= n2),
        _ => BooleanExpression::UintLe(BinaryExpression::new(l, r)),
    }
}

pub fn fold_or<T>(l: BooleanExpression<T>, r: BooleanExpression<T>) -> (out: BooleanExpression<T>)
    ensures
        out == folded_or(l, r),
{
    match (l, r) {
        (BooleanExpression::Value(v1), BooleanExpression::Value(v2)) => BooleanExpression::from_value(
            v1.value || v2.value,
        ),
        (e, BooleanExpression::Value(v)) => if v.value {
            BooleanExpression::from_value(true)
        } else {
            e
        },
        (BooleanExpression::Value(v), e) => if v.value {
            BooleanExpression::from_value(true)
        } else {
            e
        },
        (e1, e2) => BooleanExpression::Or(BinaryExpression::new(e1, e2)),
    }
}

pub fn fold_and<T>(l: BooleanExpression<T>, r: BooleanExpression<T>) -> (out: BooleanExpression<T>)
    ensures
        out == folded_and(l, r),
{
    match (l, r) {
        (BooleanExpression::Value(v1), BooleanExpression::Value(v2)) => BooleanExpression::from_value(
            v1.value && v2.value,
        ),
        (e, BooleanExpression::Value(v)) => if v.value {
            e
        } else {
            BooleanExpression::from_value(false)
        },
        (BooleanExpression::Value(v), e) => if v.value {
            e
        } else {
            BooleanExpression::from_value(false)
        },
        (e1, e2) => BooleanExpression::And(BinaryExpression::new(e1, e2)),
    }
}

pub fn fold_not<T>(e: BooleanExpression<T>) -> (out: BooleanExpression<T>)
    ensures
        out == folded_not(e),
{
    match e {
        BooleanExpression::Value(v) => BooleanExpression::from_value(!v.value),
        e => BooleanExpression::Not(UnaryExpression::new(e)),
    }
}

} // verus!
