//! How an operator on unsigned integers is simplified once its operands are.
//!
//! All arithmetic is that of the naturals, reduced modulo `2^w` for a type of
//! `w` bits. Each rule is stated as a specification and computed by the
//! function of the same name without the `_spec` ending.

use crate::expressions::{BinaryExpression, UnaryExpression};
use crate::field::Field;
use crate::typed::{UExpression, UExpressionInner};
use crate::types::UBitwidth;
use vstd::arithmetic::div_mod::{
    lemma_add_mod_noop, lemma_mod_add_multiples_vanish, lemma_mul_mod_noop, lemma_small_mod,
    lemma_sub_mod_noop,
};
use vstd::prelude::*;

verus! {

/// `v1 + v2` in a type of `bw` bits.
pub open spec fn sum(bw: UBitwidth, v1: u128, v2: u128) -> u128 {
    ((v1 + v2) % (bw.range() as int)) as u128
}

/// `v1 - v2` in a type of `bw` bits, wrapping around below zero.
pub open spec fn difference(bw: UBitwidth, v1: u128, v2: u128) -> u128 {
    ((v1 - v2) % (bw.range() as int)) as u128
}

/// `v1 - v2` in a type of `bw` bits, stopping at zero.
pub open spec fn floor_difference(bw: UBitwidth, v1: u128, v2: u128) -> u128 {
    if v1 >= v2 {
        ((v1 - v2) % (bw.range() as int)) as u128
    } else {
        0
    }
}

/// `v1 * v2` in a type of `bw` bits.
pub open spec fn product(bw: UBitwidth, v1: u128, v2: u128) -> u128 {
    ((v1 * v2) % (bw.range() as int)) as u128
}

/// `v1 / v2` in a type of `bw` bits, for a divisor other than zero.
pub open spec fn quotient(bw: UBitwidth, v1: u128, v2: u128) -> u128 {
    ((v1 / v2) as int % (bw.range() as int)) as u128
}

/// `v1 % v2` in a type of `bw` bits, for a divisor other than zero.
pub open spec fn remainder(bw: UBitwidth, v1: u128, v2: u128) -> u128 {
    ((v1 % v2) as int % (bw.range() as int)) as u128
}

/// `v` with its binary digits moved down by `by` places.
pub open spec fn shift_right(v: u128, by: u128) -> u128 {
    if by < 128 {
        v >> by
    } else {
        0
    }
}

/// `v` with its binary digits moved up by `by` places, cut to `bw` bits.
pub open spec fn shift_left(bw: UBitwidth, v: u128, by: u128) -> u128 {
    if by < 128 {
        (v << by) & ((bw.range() - 1) as u128)
    } else {
        0
    }
}

/// `!v`, cut to `bw` bits.
pub open spec fn complement(bw: UBitwidth, v: u128) -> u128 {
    (!v) & ((bw.range() - 1) as u128)
}

/// `-v` in a type of `bw` bits.
pub open spec fn negation(bw: UBitwidth, v: u128) -> u128 {
    ((0 - v) % (bw.range() as int)) as u128
}

pub fn compute_sum(bw: UBitwidth, v1: u128, v2: u128) -> (r: u128)
    ensures
        r == sum(bw, v1, v2),
{
    let m = bw.modulus();
    proof {
        lemma_add_mod_noop(v1 as int, v2 as int, m as int);
    }
    ((v1 % m) + (v2 % m)) % m
}

pub fn compute_difference(bw: UBitwidth, v1: u128, v2: u128) -> (r: u128)
    ensures
        r == difference(bw, v1, v2),
{
    let m = bw.modulus();
    proof {
        let mi = m as int;
        lemma_sub_mod_noop(v1 as int, v2 as int, mi);
        lemma_mod_add_multiples_vanish((v1 % m) as int - (v2 % m) as int, mi);
        assert(((v1 % m) + m - (v2 % m)) as int == mi + ((v1 % m) as int - (v2 % m) as int));
    }
    ((v1 % m) + m - (v2 % m)) % m
}

pub fn compute_floor_difference(bw: UBitwidth, v1: u128, v2: u128) -> (r: u128)
    ensures
        r == floor_difference(bw, v1, v2),
{
    let m = bw.modulus();
    if v1 >= v2 {
        (v1 - v2) % m
    } else {
        0
    }
}

pub fn compute_product(bw: UBitwidth, v1: u128, v2: u128) -> (r: u128)
    ensures
        r == product(bw, v1, v2),
{
    let m = bw.modulus();
    let a = v1 % m;
    let b = v2 % m;
    proof {
        lemma_mul_mod_noop(v1 as int, v2 as int, m as int);
        assert(a * b <= 0xffff_ffff_ffff_ffff * 0xffff_ffff_ffff_ffff) by (nonlinear_arith)
            requires
                a <= 0xffff_ffff_ffff_ffff,
                b <= 0xffff_ffff_ffff_ffff,
        ;
    }
    (a * b) % m
}

pub fn compute_quotient(bw: UBitwidth, v1: u128, v2: u128) -> (r: u128)
    requires
        v2 != 0,
    ensures
        r == quotient(bw, v1, v2),
{
    let m = bw.modulus();
    (v1 / v2) % m
}

pub fn compute_remainder(bw: UBitwidth, v1: u128, v2: u128) -> (r: u128)
    requires
        v2 != 0,
    ensures
        r == remainder(bw, v1, v2),
{
    let m = bw.modulus();
    (v1 % v2) % m
}

pub fn compute_shift_right(v: u128, by: u128) -> (r: u128)
    ensures
        r == shift_right(v, by),
{
    if by < 128 {
        v >> by
    } else {
        0
    }
}

pub fn compute_shift_left(bw: UBitwidth, v: u128, by: u128) -> (r: u128)
    ensures
        r == shift_left(bw, v, by),
{
    let m = bw.modulus();
    if by < 128 {
        (v << by) & (m - 1)
    } else {
        0
    }
}

pub fn compute_complement(bw: UBitwidth, v: u128) -> (r: u128)
    ensures
        r == complement(bw, v),
{
    let m = bw.modulus();
    (!v) & (m - 1)
}

pub fn compute_negation(bw: UBitwidth, v: u128) -> (r: u128)
    ensures
        r == negation(bw, v),
{
    let m = bw.modulus();
    proof {
        let mi = m as int;
        lemma_sub_mod_noop(0, v as int, mi);
        lemma_small_mod(0, m as nat);
        lemma_mod_add_multiples_vanish(0 - (v % m) as int, mi);
        assert((m - (v % m)) as int == mi + (0 - (v % m) as int));
    }
    (m - (v % m)) % m
}


/// The node of an operator over two operands of `bw` bits.
pub open spec fn node<T, Op>(bw: UBitwidth, l: UExpressionInner<T>, r: UExpressionInner<T>) -> BinaryExpression<
    Op,
    UExpression<T>,
    UExpression<T>,
    UExpression<T>,
> {
    BinaryExpression::new(l.annotate(bw), r.annotate(bw))
}

/// `l + r`: computed when both are literals; a literal zero is dropped; a
/// literal operand moves to the right.
pub open spec fn folded_add<T>(bw: UBitwidth, l: UExpressionInner<T>, r: UExpressionInner<T>) -> UExpressionInner<T> {
    match (l, r) {
        (UExpressionInner::Value(v1), UExpressionInner::Value(v2)) => UExpression::from_value(
            sum(bw, v1.value, v2.value),
        ),
        (e, UExpressionInner::Value(v)) => if v.value == 0 {
            e
        } else {
            UExpressionInner::Add(node(bw, e, UExpression::from_value(v.value)))
        },
        (UExpressionInner::Value(v), e) => if v.value == 0 {
            e
        } else {
            UExpressionInner::Add(node(bw, e, UExpression::from_value(v.value)))
        },
        (e1, e2) => UExpressionInner::Add(node(bw, e1, e2)),
    }
}

/// `l - r`: computed when both are literals; a literal zero on the right is
/// dropped.
pub open spec fn folded_sub<T>(bw: UBitwidth, l: UExpressionInner<T>, r: UExpressionInner<T>) -> UExpressionInner<T> {
    match (l, r) {
        (UExpressionInner::Value(v1), UExpressionInner::Value(v2)) => UExpression::from_value(
            difference(bw, v1.value, v2.value),
        ),
        (e, UExpressionInner::Value(v)) => if v.value == 0 {
            e
        } else {
            UExpressionInner::Sub(node(bw, e, UExpression::from_value(v.value)))
        },
        (e1, e2) => UExpressionInner::Sub(node(bw, e1, e2)),
    }
}

/// `l - r` that stops at zero: computed when both are literals; a literal
/// zero on the right is dropped.
pub open spec fn folded_floor_sub<T>(
    bw: UBitwidth,
    l: UExpressionInner<T>,
    r: UExpressionInner<T>,
) -> UExpressionInner<T> {
    match (l, r) {
        (UExpressionInner::Value(v1), UExpressionInner::Value(v2)) => UExpression::from_value(
            floor_difference(bw, v1.value, v2.value),
        ),
        (e, UExpressionInner::Value(v)) => if v.value == 0 {
            e
        } else {
            UExpressionInner::FloorSub(node(bw, e, UExpressionInner::Value(v)))
        },
        (e1, e2) => UExpressionInner::FloorSub(node(bw, e1, e2)),
    }
}

/// `l * r`: computed when both are literals; zero times anything is zero, one
/// times anything is that thing; a literal operand moves to the right.
pub open spec fn folded_mult<T>(bw: UBitwidth, l: UExpressionInner<T>, r: UExpressionInner<T>) -> UExpressionInner<T> {
    match (l, r) {
        (UExpressionInner::Value(v1), UExpressionInner::Value(v2)) => UExpression::from_value(
            product(bw, v1.value, v2.value),
        ),
        (e, UExpressionInner::Value(v)) => if v.value == 0 {
            UExpression::from_value(0)
        } else if v.value == 1 {
            e
        } else {
            UExpressionInner::Mult(node(bw, e, UExpression::from_value(v.value)))
        },
        (UExpressionInner::Value(v), e) => if v.value == 0 {
            UExpression::from_value(0)
        } else if v.value == 1 {
            e
        } else {
            UExpressionInner::Mult(node(bw, e, UExpression::from_value(v.value)))
        },
        (e1, e2) => UExpressionInner::Mult(node(bw, e1, e2)),
    }
}

/// `l / r`: computed when both are literals and `r` is not zero; division by
/// a literal one is dropped.
pub open spec fn folded_div<T>(bw: UBitwidth, l: UExpressionInner<T>, r: UExpressionInner<T>) -> UExpressionInner<T> {
    match (l, r) {
        (e, UExpressionInner::Value(v)) => if e is Value && v.value != 0 {
            UExpression::from_value(quotient(bw, e->Value_0.value, v.value))
        } else if v.value == 1 {
            e
        } else {
            UExpressionInner::Div(node(bw, e, UExpression::from_value(v.value)))
        },
        (e1, e2) => UExpressionInner::Div(node(bw, e1, e2)),
    }
}

/// `l % r`: computed when both are literals and `r` is not zero; the
/// remainder by a literal one is zero.
pub open spec fn folded_rem<T>(bw: UBitwidth, l: UExpressionInner<T>, r: UExpressionInner<T>) -> UExpressionInner<T> {
    match (l, r) {
        (e, UExpressionInner::Value(v)) => if e is Value && v.value != 0 {
            UExpression::from_value(remainder(bw, e->Value_0.value, v.value))
        } else if v.value == 1 {
            UExpression::from_value(0)
        } else {
            UExpressionInner::Rem(node(bw, e, UExpression::from_value(v.value)))
        },
        (e1, e2) => UExpressionInner::Rem(node(bw, e1, e2)),
    }
}

/// The node of a shift: the amount is always of 32 bits.
pub open spec fn shift_node<T, Op>(
    bw: UBitwidth,
    l: UExpressionInner<T>,
    by: UExpressionInner<T>,
) -> BinaryExpression<Op, UExpression<T>, UExpression<T>, UExpression<T>> {
    BinaryExpression::new(l.annotate(bw), by.annotate(UBitwidth::B32))
}

/// `l >> by`: computed when both are literals.
pub open spec fn folded_right_shift<T>(
    bw: UBitwidth,
    l: UExpressionInner<T>,
    by: UExpressionInner<T>,
) -> UExpressionInner<T> {
    match (l, by) {
        (UExpressionInner::Value(v), UExpressionInner::Value(n)) => UExpression::from_value(
            shift_right(v.value, n.value),
        ),
        (e, n) => UExpressionInner::RightShift(shift_node(bw, e, n)),
    }
}

/// `l << by`: computed when both are literals.
pub open spec fn folded_left_shift<T>(
    bw: UBitwidth,
    l: UExpressionInner<T>,
    by: UExpressionInner<T>,
) -> UExpressionInner<T> {
    match (l, by) {
        (UExpressionInner::Value(v), UExpressionInner::Value(n)) => UExpression::from_value(
            shift_left(bw, v.value, n.value),
        ),
        (e, n) => UExpressionInner::LeftShift(shift_node(bw, e, n)),
    }
}

/// `l ^ r`: computed when both are literals; a literal zero is dropped; the
/// same tree on both sides gives zero.
pub open spec fn folded_xor<T>(bw: UBitwidth, l: UExpressionInner<T>, r: UExpressionInner<T>) -> UExpressionInner<T> {
    match (l, r) {
        (UExpressionInner::Value(v1), UExpressionInner::Value(v2)) => UExpression::from_value(
            v1.value ^ v2.value,
        ),
        (e1, e2) => if e1 is Value && e1->Value_0.value == 0 {
            e2
        } else if e2 is Value && e2->Value_0.value == 0 {
            e1
        } else if e1 == e2 {
            UExpression::from_value(0)
        } else {
            UExpressionInner::Xor(node(bw, e1, e2))
        },
    }
}

/// `l & r`: computed when both are literals; zero and anything is zero.
pub open spec fn folded_and<T>(bw: UBitwidth, l: UExpressionInner<T>, r: UExpressionInner<T>) -> UExpressionInner<T> {
    match (l, r) {
        (UExpressionInner::Value(v1), UExpressionInner::Value(v2)) => UExpression::from_value(
            v1.value & v2.value,
        ),
        (e1, e2) => if (e1 is Value && e1->Value_0.value == 0) || (e2 is Value
            && e2->Value_0.value == 0) {
            UExpression::from_value(0)
        } else {
            UExpressionInner::And(node(bw, e1, e2))
        },
    }
}

/// `!e`: computed for a literal.
pub open spec fn folded_not<T>(bw: UBitwidth, e: UExpressionInner<T>) -> UExpressionInner<T> {
    match e {
        UExpressionInner::Value(v) => UExpression::from_value(complement(bw, v.value)),
        e => UExpressionInner::Not(UnaryExpression::new(e.annotate(bw))),
    }
}

/// `-e`: computed for a literal.
pub open spec fn folded_neg<T>(bw: UBitwidth, e: UExpressionInner<T>) -> UExpressionInner<T> {
    match e {
        UExpressionInner::Value(v) => UExpression::from_value(negation(bw, v.value)),
        e => UExpressionInner::Neg(UnaryExpression::new(e.annotate(bw))),
    }
}

/// `+e`: a literal stays as it is.
pub open spec fn folded_pos<T>(bw: UBitwidth, e: UExpressionInner<T>) -> UExpressionInner<T> {
    match e {
        UExpressionInner::Value(v) => UExpression::from_value(v.value),
        e => UExpressionInner::Pos(UnaryExpression::new(e.annotate(bw))),
    }
}

pub fn make_node<T, Op>(bw: UBitwidth, l: UExpressionInner<T>, r: UExpressionInner<T>) -> (n:
    BinaryExpression<Op, UExpression<T>, UExpression<T>, UExpression<T>>)
    ensures
        n == node::<T, Op>(bw, l, r),
{
    BinaryExpression::new(l.annotate(bw), r.annotate(bw))
}

pub fn fold_add<T>(bw: UBitwidth, l: UExpressionInner<T>, r: UExpressionInner<T>) -> (out:
    UExpressionInner<T>)
    ensures
        out == folded_add(bw, l, r),
{
    match (l, r) {
        (UExpressionInner::Value(v1), UExpressionInner::Value(v2)) => UExpression::from_value(
            compute_sum(bw, v1.value, v2.value),
        ),
        (e, UExpressionInner::Value(v)) => if v.value == 0 {
            e
        } else {
            UExpressionInner::Add(make_node(bw, e, UExpression::from_value(v.value)))
        },
        (UExpressionInner::Value(v), e) => if v.value == 0 {
            e
        } else {
            UExpressionInner::Add(make_node(bw, e, UExpression::from_value(v.value)))
        },
        (e1, e2) => UExpressionInner::Add(make_node(bw, e1, e2)),
    }
}

pub fn fold_sub<T>(bw: UBitwidth, l: UExpressionInner<T>, r: UExpressionInner<T>) -> (out:
    UExpressionInner<T>)
    ensures
        out == folded_sub(bw, l, r),
{
    match (l, r) {
        (UExpressionInner::Value(v1), UExpressionInner::Value(v2)) => UExpression::from_value(
            compute_difference(bw, v1.value, v2.value),
        ),
        (e, UExpressionInner::Value(v)) => if v.value == 0 {
            e
        } else {
            UExpressionInner::Sub(make_node(bw, e, UExpression::from_value(v.value)))
        },
        (e1, e2) => UExpressionInner::Sub(make_node(bw, e1, e2)),
    }
}

pub fn fold_floor_sub<T>(bw: UBitwidth, l: UExpressionInner<T>, r: UExpressionInner<T>) -> (out:
    UExpressionInner<T>)
    ensures
        out == folded_floor_sub(bw, l, r),
{
    match (l, r) {
        (UExpressionInner::Value(v1), UExpressionInner::Value(v2)) => UExpression::from_value(
            compute_floor_difference(bw, v1.value, v2.value),
        ),
        (e, UExpressionInner::Value(v)) => if v.value == 0 {
            e
        } else {
            UExpressionInner::FloorSub(make_node(bw, e, UExpressionInner::Value(v)))
        },
        (e1, e2) => UExpressionInner::FloorSub(make_node(bw, e1, e2)),
    }
}

pub fn fold_mult<T>(bw: UBitwidth, l: UExpressionInner<T>, r: UExpressionInner<T>) -> (out:
    UExpressionInner<T>)
    ensures
        out == folded_mult(bw, l, r),
{
    match (l, r) {
        (UExpressionInner::Value(v1), UExpressionInner::Value(v2)) => UExpression::from_value(
            compute_product(bw, v1.value, v2.value),
        ),
        (e, UExpressionInner::Value(v)) => if v.value == 0 {
            UExpression::from_value(0)
        } else if v.value == 1 {
            e
        } else {
            UExpressionInner::Mult(make_node(bw, e, UExpression::from_value(v.value)))
        },
        (UExpressionInner::Value(v), e) => if v.value == 0 {
            UExpression::from_value(0)
        } else if v.value == 1 {
            e
        } else {
            UExpressionInner::Mult(make_node(bw, e, UExpression::from_value(v.value)))
        },
        (e1, e2) => UExpressionInner::Mult(make_node(bw, e1, e2)),
    }
}

pub fn fold_div<T>(bw: UBitwidth, l: UExpressionInner<T>, r: UExpressionInner<T>) -> (out:
    UExpressionInner<T>)
    ensures
        out == folded_div(bw, l, r),
{
    match (l, r) {
        (UExpressionInner::Value(v1), UExpressionInner::Value(v)) => if v.value != 0 {
            UExpression::from_value(compute_quotient(bw, v1.value, v.value))
        } else {
            UExpressionInner::Div(
                make_node(bw, UExpressionInner::Value(v1), UExpression::from_value(v.value)),
            )
        },
        (e, UExpressionInner::Value(v)) => if v.value == 1 {
            e
        } else {
            UExpressionInner::Div(make_node(bw, e, UExpression::from_value(v.value)))
        },
        (e1, e2) => UExpressionInner::Div(make_node(bw, e1, e2)),
    }
}

pub fn fold_rem<T>(bw: UBitwidth, l: UExpressionInner<T>, r: UExpressionInner<T>) -> (out:
    UExpressionInner<T>)
    ensures
        out == folded_rem(bw, l, r),
{
    match (l, r) {
        (UExpressionInner::Value(v1), UExpressionInner::Value(v)) => if v.value != 0 {
            UExpression::from_value(compute_remainder(bw, v1.value, v.value))
        } else {
            UExpressionInner::Rem(
                make_node(bw, UExpressionInner::Value(v1), UExpression::from_value(v.value)),
            )
        },
        (e, UExpressionInner::Value(v)) => if v.value == 1 {
            UExpression::from_value(0)
        } else {
            UExpressionInner::Rem(make_node(bw, e, UExpression::from_value(v.value)))
        },
        (e1, e2) => UExpressionInner::Rem(make_node(bw, e1, e2)),
    }
}

pub fn fold_right_shift<T>(bw: UBitwidth, l: UExpressionInner<T>, by: UExpressionInner<T>) -> (out:
    UExpressionInner<T>)
    ensures
        out == folded_right_shift(bw, l, by),
{
    match (l, by) {
        (UExpressionInner::Value(v), UExpressionInner::Value(n)) => UExpression::from_value(
            compute_shift_right(v.value, n.value),
        ),
        (e, n) => UExpressionInner::RightShift(
            BinaryExpression::new(e.annotate(bw), n.annotate(UBitwidth::B32)),
        ),
    }
}

pub fn fold_left_shift<T>(bw: UBitwidth, l: UExpressionInner<T>, by: UExpressionInner<T>) -> (out:
    UExpressionInner<T>)
    ensures
        out == folded_left_shift(bw, l, by),
{
    match (l, by) {
        (UExpressionInner::Value(v), UExpressionInner::Value(n)) => UExpression::from_value(
            compute_shift_left(bw, v.value, n.value),
        ),
        (e, n) => UExpressionInner::LeftShift(
            BinaryExpression::new(e.annotate(bw), n.annotate(UBitwidth::B32)),
        ),
    }
}

/// Whether `e` is the literal zero.
pub fn is_zero<T>(e: &UExpressionInner<T>) -> (r: bool)
    ensures
        r == (*e is Value && e->Value_0.value == 0),
{
    match e {
        UExpressionInner::Value(v) => v.value == 0,
        _ => false,
    }
}

pub fn fold_xor<T: Field>(bw: UBitwidth, l: UExpressionInner<T>, r: UExpressionInner<T>) -> (out:
    UExpressionInner<T>)
    ensures
        out == folded_xor(bw, l, r),
{
    match (l, r) {
        (UExpressionInner::Value(v1), UExpressionInner::Value(v2)) => UExpression::from_value(
            v1.value ^ v2.value,
        ),
        (e1, e2) => if is_zero(&e1) {
            e2
        } else if is_zero(&e2) {
            e1
        } else if e1.same(&e2) {
            UExpression::from_value(0)
        } else {
            UExpressionInner::Xor(make_node(bw, e1, e2))
        },
    }
}

pub fn fold_and<T>(bw: UBitwidth, l: UExpressionInner<T>, r: UExpressionInner<T>) -> (out:
    UExpressionInner<T>)
    ensures
        out == folded_and(bw, l, r),
{
    match (l, r) {
        (UExpressionInner::Value(v1), UExpressionInner::Value(v2)) => UExpression::from_value(
            v1.value & v2.value,
        ),
        (e1, e2) => if is_zero(&e1) || is_zero(&e2) {
            UExpression::from_value(0)
        } else {
            UExpressionInner::And(make_node(bw, e1, e2))
        },
    }
}

pub fn fold_not<T>(bw: UBitwidth, e: UExpressionInner<T>) -> (out: UExpressionInner<T>)
    ensures
        out == folded_not(bw, e),
{
    match e {
        UExpressionInner::Value(v) => UExpression::from_value(compute_complement(bw, v.value)),
        e => UExpressionInner::Not(UnaryExpression::new(e.annotate(bw))),
    }
}

pub fn fold_neg<T>(bw: UBitwidth, e: UExpressionInner<T>) -> (out: UExpressionInner<T>)
    ensures
        out == folded_neg(bw, e),
{
    match e {
        UExpressionInner::Value(v) => UExpression::from_value(compute_negation(bw, v.value)),
        e => UExpressionInner::Neg(UnaryExpression::new(e.annotate(bw))),
    }
}

pub fn fold_pos<T>(bw: UBitwidth, e: UExpressionInner<T>) -> (out: UExpressionInner<T>)
    ensures
        out == folded_pos(bw, e),
{
    match e {
        UExpressionInner::Value(v) => UExpression::from_value(v.value),
        e => UExpressionInner::Pos(UnaryExpression::new(e.annotate(bw))),
    }
}

} // verus!
