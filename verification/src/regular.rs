//! The expressions for which the pass is proved to be idempotent.
//!
//! The operands of an operator on unsigned integers have the width of the
//! operator; the amount of a shift, the index of a selection and the exponent
//! of a power have 32 bits; no struct and no tuple is written out as a
//! literal.

use crate::expressions::BinaryExpression;
use crate::list::List;
use crate::typed::{
    ArrayExpression, ArrayExpressionInner, BooleanExpression, ElementExpression,
    FieldElementExpression, MemberExpression, SelectExpression, StructExpression,
    StructExpressionInner, TupleExpression, TupleExpressionInner, TypedExpression,
    TypedExpressionOrSpread, UExpression, UExpressionInner,
};
use crate::types::UBitwidth;
use vstd::prelude::*;

verus! {

pub open spec fn regular_expression<T>(e: TypedExpression<T>) -> bool
    decreases e,
{
    match e {
        TypedExpression::Boolean(b) => regular_boolean(b),
        TypedExpression::FieldElement(f) => regular_field(f),
        TypedExpression::Uint(u) => regular_uint(u),
        TypedExpression::Array(a) => regular_array(a),
        TypedExpression::Struct(s) => regular_struct(s),
        TypedExpression::Tuple(t) => regular_tuple(t),
    }
}

pub open spec fn regular_select<T>(s: SelectExpression<T>) -> bool
    decreases s,
{
    regular_array(*s.array) && regular_uint(*s.index) && s.index.bitwidth == UBitwidth::B32
}

pub open spec fn regular_member<T>(m: MemberExpression<T>) -> bool
    decreases m,
{
    regular_struct(*m.struc)
}

pub open spec fn regular_element<T>(m: ElementExpression<T>) -> bool
    decreases m,
{
    regular_tuple(*m.tuple)
}

pub open spec fn regular_field<T>(e: FieldElementExpression<T>) -> bool
    decreases e,
{
    match e {
        FieldElementExpression::Number(_) => true,
        FieldElementExpression::Identifier(_) => true,
        FieldElementExpression::Add(b) => regular_field(*b.left) && regular_field(*b.right),
        FieldElementExpression::Sub(b) => regular_field(*b.left) && regular_field(*b.right),
        FieldElementExpression::Mult(b) => regular_field(*b.left) && regular_field(*b.right),
        FieldElementExpression::Div(b) => regular_field(*b.left) && regular_field(*b.right),
        FieldElementExpression::Pow(b) => regular_field(*b.left) && regular_uint(*b.right)
            && b.right.bitwidth == UBitwidth::B32,
        FieldElementExpression::Neg(u) => regular_field(*u.inner),
        FieldElementExpression::Pos(u) => regular_field(*u.inner),
        FieldElementExpression::Conditional(x) => regular_boolean(*x.condition) && regular_field(
            *x.consequence,
        ) && regular_field(*x.alternative),
        FieldElementExpression::Select(s) => regular_select(s),
        FieldElementExpression::Member(m) => regular_member(m),
        FieldElementExpression::Element(m) => regular_element(m),
    }
}

pub open spec fn regular_boolean<T>(e: BooleanExpression<T>) -> bool
    decreases e,
{
    match e {
        BooleanExpression::Value(_) => true,
        BooleanExpression::Identifier(_) => true,
        BooleanExpression::FieldLt(b) => regular_field(*b.left) && regular_field(*b.right),
        BooleanExpression::FieldLe(b) => regular_field(*b.left) && regular_field(*b.right),
        BooleanExpression::UintLt(b) => regular_uint(*b.left) && regular_uint(*b.right),
        BooleanExpression::UintLe(b) => regular_uint(*b.left) && regular_uint(*b.right),
        BooleanExpression::FieldEq(b) => regular_field(*b.left) && regular_field(*b.right),
        BooleanExpression::BoolEq(b) => regular_boolean(*b.left) && regular_boolean(*b.right),
        BooleanExpression::ArrayEq(b) => regular_array(*b.left) && regular_array(*b.right),
        BooleanExpression::StructEq(b) => regular_struct(*b.left) && regular_struct(*b.right),
        BooleanExpression::TupleEq(b) => regular_tuple(*b.left) && regular_tuple(*b.right),
        BooleanExpression::UintEq(b) => regular_uint(*b.left) && regular_uint(*b.right),
        BooleanExpression::Or(b) => regular_boolean(*b.left) && regular_boolean(*b.right),
        BooleanExpression::And(b) => regular_boolean(*b.left) && regular_boolean(*b.right),
        BooleanExpression::Not(u) => regular_boolean(*u.inner),
        BooleanExpression::Conditional(x) => regular_boolean(*x.condition) && regular_boolean(
            *x.consequence,
        ) && regular_boolean(*x.alternative),
        BooleanExpression::Select(s) => regular_select(s),
        BooleanExpression::Member(m) => regular_member(m),
        BooleanExpression::Element(m) => regular_element(m),
    }
}

pub open spec fn regular_uint<T>(e: UExpression<T>) -> bool
    decreases e,
{
    regular_uint_inner(e.bitwidth, e.inner)
}

/// Both operands of an operator of `bw` bits are regular and of `bw` bits.
pub open spec fn regular_operands<T, Op>(
    bw: UBitwidth,
    b: BinaryExpression<Op, UExpression<T>, UExpression<T>, UExpression<T>>,
) -> bool
    decreases b,
{
    b.left.bitwidth == bw && b.right.bitwidth == bw && regular_uint(*b.left) && regular_uint(
        *b.right,
    )
}

pub open spec fn regular_uint_inner<T>(bw: UBitwidth, e: UExpressionInner<T>) -> bool
    decreases e,
{
    match e {
        UExpressionInner::Value(_) => true,
        UExpressionInner::Identifier(_) => true,
        UExpressionInner::Add(b) => regular_operands(bw, b),
        UExpressionInner::Sub(b) => regular_operands(bw, b),
        UExpressionInner::FloorSub(b) => regular_operands(bw, b),
        UExpressionInner::Mult(b) => regular_operands(bw, b),
        UExpressionInner::Div(b) => regular_operands(bw, b),
        UExpressionInner::Rem(b) => regular_operands(bw, b),
        UExpressionInner::Xor(b) => regular_operands(bw, b),
        UExpressionInner::And(b) => regular_operands(bw, b),
        UExpressionInner::Or(b) => regular_operands(bw, b),
        UExpressionInner::LeftShift(b) => b.left.bitwidth == bw && b.right.bitwidth
            == UBitwidth::B32 && regular_uint(*b.left) && regular_uint(*b.right),
        UExpressionInner::RightShift(b) => b.left.bitwidth == bw && b.right.bitwidth
            == UBitwidth::B32 && regular_uint(*b.left) && regular_uint(*b.right),
        UExpressionInner::Not(u) => u.inner.bitwidth == bw && regular_uint(*u.inner),
        UExpressionInner::Neg(u) => u.inner.bitwidth == bw && regular_uint(*u.inner),
        UExpressionInner::Pos(u) => u.inner.bitwidth == bw && regular_uint(*u.inner),
        UExpressionInner::Conditional(x) => regular_boolean(*x.condition) && x.consequence.bitwidth
            == bw && x.alternative.bitwidth == bw && regular_uint(*x.consequence) && regular_uint(
            *x.alternative,
        ),
        UExpressionInner::Select(s) => regular_select(s),
        UExpressionInner::Member(m) => regular_member(m),
        UExpressionInner::Element(m) => regular_element(m),
    }
}

pub open spec fn regular_array<T>(e: ArrayExpression<T>) -> bool
    decreases e,
{
    match e.inner {
        ArrayExpressionInner::Value(v) => regular_elements(v.value),
        ArrayExpressionInner::Identifier(_) => true,
        ArrayExpressionInner::Conditional(x) => regular_boolean(*x.condition) && regular_array(
            *x.consequence,
        ) && regular_array(*x.alternative),
        ArrayExpressionInner::Select(s) => regular_select(s),
        ArrayExpressionInner::Member(m) => regular_member(m),
        ArrayExpressionInner::Element(m) => regular_element(m),
    }
}

pub open spec fn regular_elements<T>(l: List<TypedExpressionOrSpread<T>>) -> bool
    decreases l,
{
    match l {
        List::Nil => true,
        List::Cons(n) => (match n.head {
            TypedExpressionOrSpread::Expression(e) => regular_expression(e),
            TypedExpressionOrSpread::Spread(s) => regular_array(s.array),
        }) && regular_elements(n.tail),
    }
}

pub open spec fn regular_struct<T>(e: StructExpression<T>) -> bool
    decreases e,
{
    match e.inner {
        StructExpressionInner::Value(_) => false,
        StructExpressionInner::Identifier(_) => true,
        StructExpressionInner::Conditional(x) => regular_boolean(*x.condition) && regular_struct(
            *x.consequence,
        ) && regular_struct(*x.alternative),
        StructExpressionInner::Select(s) => regular_select(s),
        StructExpressionInner::Member(m) => regular_member(m),
        StructExpressionInner::Element(m) => regular_element(m),
    }
}

pub open spec fn regular_tuple<T>(e: TupleExpression<T>) -> bool
    decreases e,
{
    match e.inner {
        TupleExpressionInner::Value(_) => false,
        TupleExpressionInner::Identifier(_) => true,
        TupleExpressionInner::Conditional(x) => regular_boolean(*x.condition) && regular_tuple(
            *x.consequence,
        ) && regular_tuple(*x.alternative),
        TupleExpressionInner::Select(s) => regular_select(s),
        TupleExpressionInner::Member(m) => regular_member(m),
        TupleExpressionInner::Element(m) => regular_element(m),
    }
}

} // verus!
