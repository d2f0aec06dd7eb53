//! How an operator on field elements is simplified once its operands are.

use crate::common::Span;
use crate::error::Error;
use crate::expressions::{BinaryExpression, UnaryExpression, ValueExpression};
use crate::field::{
    field_add, field_div, field_is_zero, field_mul, field_neg, field_pow, field_sub, Field,
};
use crate::typed::{FieldElementExpression, UExpression, UExpressionInner};
use crate::types::UBitwidth;
use vstd::arithmetic::div_mod::lemma_small_mod;
use vstd::prelude::*;

verus! {

/// `l + r`: computed when both are literals. The result stands where the
/// operator stood.
pub open spec fn folded_add<T: Field>(
    span: Option<Span>,
    l: FieldElementExpression<T>,
    r: FieldElementExpression<T>,
) -> FieldElementExpression<T> {
    match (l, r) {
        (FieldElementExpression::Number(n1), FieldElementExpression::Number(n2)) => FieldElementExpression::Number(
            ValueExpression { span, value: field_add(n1.value, n2.value) },
        ),
        (e1, e2) => FieldElementExpression::Add(BinaryExpression::with_span(e1, e2, span)),
    }
}

/// `l - r`: computed when both are literals.
pub open spec fn folded_sub<T: Field>(
    span: Option<Span>,
    l: FieldElementExpression<T>,
    r: FieldElementExpression<T>,
) -> FieldElementExpression<T> {
    match (l, r) {
        (FieldElementExpression::Number(n1), FieldElementExpression::Number(n2)) => FieldElementExpression::Number(
            ValueExpression { span, value: field_sub(n1.value, n2.value) },
        ),
        (e1, e2) => FieldElementExpression::Sub(BinaryExpression::with_span(e1, e2, span)),
    }
}

/// `l * r`: computed when both are literals.
pub open spec fn folded_mult<T: Field>(
    span: Option<Span>,
    l: FieldElementExpression<T>,
    r: FieldElementExpression<T>,
) -> FieldElementExpression<T> {
    match (l, r) {
        (FieldElementExpression::Number(n1), FieldElementExpression::Number(n2)) => FieldElementExpression::Number(
            ValueExpression { span, value: field_mul(n1.value, n2.value) },
        ),
        (e1, e2) => FieldElementExpression::Mult(BinaryExpression::with_span(e1, e2, span)),
    }
}

/// `l / r`: computed when both are literals and `r` is not zero.
pub open spec fn folded_div<T: Field>(
    span: Option<Span>,
    l: FieldElementExpression<T>,
    r: FieldElementExpression<T>,
) -> FieldElementExpression<T> {
    match (l, r) {
        (FieldElementExpression::Number(n1), FieldElementExpression::Number(n2)) => if field_is_zero(
            n2.value,
        ) {
            FieldElementExpression::Div(
                BinaryExpression::with_span(
                    FieldElementExpression::Number(n1),
                    FieldElementExpression::Number(n2),
                    span,
                ),
            )
        } else {
            FieldElementExpression::Number(
                ValueExpression { span, value: field_div(n1.value, n2.value) },
            )
        },
        (e1, e2) => FieldElementExpression::Div(BinaryExpression::with_span(e1, e2, span)),
    }
}

/// `-e`: computed for a literal.
pub open spec fn folded_neg<T: Field>(e: FieldElementExpression<T>) -> FieldElementExpression<T> {
    match e {
        FieldElementExpression::Number(n) => FieldElementExpression::from_value(field_neg(n.value)),
        e => FieldElementExpression::Neg(UnaryExpression::new(e)),
    }
}

/// `+e`: a literal stays as it is.
pub open spec fn folded_pos<T: Field>(e: FieldElementExpression<T>) -> FieldElementExpression<T> {
    match e {
        FieldElementExpression::Number(n) => FieldElementExpression::Number(n),
        e => FieldElementExpression::Pos(UnaryExpression::new(e)),
    }
}

/// `l ** r`: the exponent has to be a literal. Anything to the power zero is
/// one; a literal base is raised to the exponent.
pub open spec fn folded_pow<T: Field>(l: FieldElementExpression<T>, r: UExpression<T>) -> Result<
    FieldElementExpression<T>,
    Error,
> {
    match r.inner {
        UExpressionInner::Value(n2) => if n2.value == 0 {
            Ok(FieldElementExpression::from_value(T::from_value(1)))
        } else {
            match l {
                FieldElementExpression::Number(n1) => Ok(
                    FieldElementExpression::from_value(field_pow(n1.value, n2.value as nat)),
                ),
                e1 => Ok(
                    FieldElementExpression::Pow(
                        BinaryExpression::new(
                            e1,
                            UExpression::from_value(n2.value).annotate(UBitwidth::B32),
                        ),
                    ),
                ),
            }
        },
        _ => Err(Error::NonConstantExponent),
    }
}

pub fn fold_add<T: Field>(
    span: Option<Span>,
    l: FieldElementExpression<T>,
    r: FieldElementExpression<T>,
) -> (out: FieldElementExpression<T>)
    ensures
        out == folded_add(span, l, r),
{
    match (l, r) {
        (FieldElementExpression::Number(n1), FieldElementExpression::Number(n2)) => FieldElementExpression::Number(
            ValueExpression { span, value: n1.value.add(&n2.value) },
        ),
        (e1, e2) => FieldElementExpression::Add(BinaryExpression::with_span(e1, e2, span)),
    }
}

pub fn fold_sub<T: Field>(
    span: Option<Span>,
    l: FieldElementExpression<T>,
    r: FieldElementExpression<T>,
) -> (out: FieldElementExpression<T>)
    ensures
        out == folded_sub(span, l, r),
{
    match (l, r) {
        (FieldElementExpression::Number(n1), FieldElementExpression::Number(n2)) => FieldElementExpression::Number(
            ValueExpression { span, value: n1.value.sub(&n2.value) },
        ),
        (e1, e2) => FieldElementExpression::Sub(BinaryExpression::with_span(e1, e2, span)),
    }
}

pub fn fold_mult<T: Field>(
    span: Option<Span>,
    l: FieldElementExpression<T>,
    r: FieldElementExpression<T>,
) -> (out: FieldElementExpression<T>)
    ensures
        out == folded_mult(span, l, r),
{
    match (l, r) {
        (FieldElementExpression::Number(n1), FieldElementExpression::Number(n2)) => FieldElementExpression::Number(
            ValueExpression { span, value: n1.value.mul(&n2.value) },
        ),
        (e1, e2) => FieldElementExpression::Mult(BinaryExpression::with_span(e1, e2, span)),
    }
}

pub fn fold_div<T: Field>(
    span: Option<Span>,
    l: FieldElementExpression<T>,
    r: FieldElementExpression<T>,
) -> (out: FieldElementExpression<T>)
    ensures
        out == folded_div(span, l, r),
{
    match (l, r) {
        (FieldElementExpression::Number(n1), FieldElementExpression::Number(n2)) => if n2.value.is_zero() {
            FieldElementExpression::Div(
                BinaryExpression::with_span(
                    FieldElementExpression::Number(n1),
                    FieldElementExpression::Number(n2),
                    span,
                ),
            )
        } else {
            FieldElementExpression::Number(ValueExpression { span, value: n1.value.div(&n2.value) })
        },
        (e1, e2) => FieldElementExpression::Div(BinaryExpression::with_span(e1, e2, span)),
    }
}

pub fn fold_neg<T: Field>(e: FieldElementExpression<T>) -> (out: FieldElementExpression<T>)
    ensures
        out == folded_neg(e),
{
    match e {
        FieldElementExpression::Number(n) => {
            proof {
                T::lemma_modulus();
            }
            FieldElementExpression::from_value(T::from_u128(0).sub(&n.value))
        },
        e => FieldElementExpression::Neg(UnaryExpression::new(e)),
    }
}

pub fn fold_pos<T: Field>(e: FieldElementExpression<T>) -> (out: FieldElementExpression<T>)
    ensures
        out == folded_pos(e),
{
    match e {
        FieldElementExpression::Number(n) => FieldElementExpression::Number(n),
        e => FieldElementExpression::Pos(UnaryExpression::new(e)),
    }
}

pub fn fold_pow<T: Field>(l: FieldElementExpression<T>, r: UExpression<T>) -> (out: Result<
    FieldElementExpression<T>,
    Error,
>)
    ensures
        out == folded_pow(l, r),
{
    match r.inner {
        UExpressionInner::Value(n2) => if n2.value == 0 {
            proof {
                T::lemma_modulus();
                lemma_small_mod(1, T::modulus());
            }
            Ok(FieldElementExpression::from_value(T::from_u128(1)))
        } else {
            match l {
                FieldElementExpression::Number(n1) => Ok(
                    FieldElementExpression::from_value(n1.value.pow(n2.value)),
                ),
                e1 => Ok(
                    FieldElementExpression::Pow(
                        BinaryExpression::new(
                            e1,
                            UExpression::from_value(n2.value).annotate(UBitwidth::B32),
                        ),
                    ),
                ),
            }
        },
        _ => Err(Error::NonConstantExponent),
    }
}

} // verus!
