//! What constant propagation makes of an expression, as a function of the
//! expression and of the variables whose values are known.
//!
//! Operands are simplified first, left to right, and the first error ends the
//! pass. The operator is then simplified by the rule of its family.

use crate::aggregate_rules::{
    checked_element, checked_member, equality, folded_conditional, folded_element,
    folded_identifier, folded_member, folded_select, spliced,
};
use crate::boolean_rules;
use crate::error::Error;
use crate::expressions::{BinaryExpression, ValueExpression};
use crate::field::Field;
use crate::field_rules;
use crate::list::List;
use crate::outcome::{
    array_of_conditional, array_of_element, array_of_identifier, array_of_member, array_of_select,
    boolean_of_conditional, boolean_of_element, boolean_of_identifier, boolean_of_member,
    boolean_of_select, field_of_conditional, field_of_element, field_of_identifier,
    field_of_member, field_of_select, struct_of_conditional, struct_of_element,
    struct_of_identifier, struct_of_member, struct_of_select, tuple_of_conditional,
    tuple_of_element, tuple_of_identifier, tuple_of_member, tuple_of_select, uint_of_conditional,
    uint_of_element, uint_of_identifier, uint_of_member, uint_of_select,
};
use crate::typed::{
    ArrayExpression, ArrayExpressionInner, BooleanExpression, ElementExpression,
    ElementOrExpression, Family, FieldElementExpression, MemberExpression, MemberOrExpression,
    SelectExpression, SelectOrExpression, StructExpression, StructExpressionInner,
    TupleExpression, TupleExpressionInner, TypedExpression, TypedExpressionOrSpread, TypedSpread,
    UExpression, UExpressionInner,
};
use crate::types::{StructMember, Type, UBitwidth};
use crate::uint_rules;
use vstd::prelude::*;

verus! {

/// The known values of variables: from the number of a variable to its value.
pub type Known<T> = Map<u64, TypedExpression<T>>;

/// Both results, or the first error.
pub open spec fn both<A, B>(a: Result<A, Error>, b: Result<B, Error>) -> Result<(A, B), Error> {
    match a {
        Err(e) => Err(e),
        Ok(x) => match b {
            Err(e) => Err(e),
            Ok(y) => Ok((x, y)),
        },
    }
}

/// All three results, or the first error.
pub open spec fn all_three<A, B, C>(
    a: Result<A, Error>,
    b: Result<B, Error>,
    c: Result<C, Error>,
) -> Result<(A, B, C), Error> {
    match a {
        Err(e) => Err(e),
        Ok(x) => match b {
            Err(e) => Err(e),
            Ok(y) => match c {
                Err(e) => Err(e),
                Ok(z) => Ok((x, y, z)),
            },
        },
    }
}

pub open spec fn folded_expression<T: Field>(c: Known<T>, e: TypedExpression<T>) -> Result<
    TypedExpression<T>,
    Error,
>
    decreases e,
{
    match e {
        TypedExpression::Boolean(b) => match folded_boolean(c, b) {
            Ok(b) => Ok(TypedExpression::Boolean(b)),
            Err(e) => Err(e),
        },
        TypedExpression::FieldElement(f) => match folded_field(c, f) {
            Ok(f) => Ok(TypedExpression::FieldElement(f)),
            Err(e) => Err(e),
        },
        TypedExpression::Uint(u) => match folded_uint(c, u) {
            Ok(u) => Ok(TypedExpression::Uint(u)),
            Err(e) => Err(e),
        },
        TypedExpression::Array(a) => match folded_array(c, a) {
            Ok(a) => Ok(TypedExpression::Array(a)),
            Err(e) => Err(e),
        },
        TypedExpression::Struct(s) => match folded_struct(c, s) {
            Ok(s) => Ok(TypedExpression::Struct(s)),
            Err(e) => Err(e),
        },
        TypedExpression::Tuple(t) => match folded_tuple(c, t) {
            Ok(t) => Ok(TypedExpression::Tuple(t)),
            Err(e) => Err(e),
        },
    }
}

pub open spec fn folded_select_expression<T: Field>(
    c: Known<T>,
    s: SelectExpression<T>,
    family: Family,
) -> Result<SelectOrExpression<T>, Error>
    decreases s,
{
    match both(folded_array(c, *s.array), folded_uint(c, *s.index)) {
        Ok((array, index)) => folded_select(array, index, family),
        Err(e) => Err(e),
    }
}

pub open spec fn folded_member_expression<T: Field>(
    c: Known<T>,
    m: MemberExpression<T>,
    family: Family,
) -> Result<MemberOrExpression<T>, Error>
    decreases m,
{
    match folded_struct(c, *m.struc) {
        Ok(struc) => Ok(folded_member(struc, m.id, family)),
        Err(e) => Err(e),
    }
}

pub open spec fn folded_element_expression<T: Field>(
    c: Known<T>,
    m: ElementExpression<T>,
    family: Family,
) -> Result<ElementOrExpression<T>, Error>
    decreases m,
{
    match folded_tuple(c, *m.tuple) {
        Ok(tuple) => Ok(folded_element(tuple, m.index, family)),
        Err(e) => Err(e),
    }
}

pub open spec fn folded_field<T: Field>(c: Known<T>, e: FieldElementExpression<T>) -> Result<
    FieldElementExpression<T>,
    Error,
>
    decreases e,
{
    match e {
        FieldElementExpression::Number(n) => Ok(FieldElementExpression::Number(n)),
        FieldElementExpression::Identifier(id) => Ok(
            field_of_identifier(folded_identifier(c, id, Family::FieldElement)),
        ),
        FieldElementExpression::Add(b) => match both(
            folded_field(c, *b.left),
            folded_field(c, *b.right),
        ) {
            Ok((l, r)) => Ok(field_rules::folded_add(b.span, l, r)),
            Err(e) => Err(e),
        },
        FieldElementExpression::Sub(b) => match both(
            folded_field(c, *b.left),
            folded_field(c, *b.right),
        ) {
            Ok((l, r)) => Ok(field_rules::folded_sub(b.span, l, r)),
            Err(e) => Err(e),
        },
        FieldElementExpression::Mult(b) => match both(
            folded_field(c, *b.left),
            folded_field(c, *b.right),
        ) {
            Ok((l, r)) => Ok(field_rules::folded_mult(b.span, l, r)),
            Err(e) => Err(e),
        },
        FieldElementExpression::Div(b) => match both(
            folded_field(c, *b.left),
            folded_field(c, *b.right),
        ) {
            Ok((l, r)) => Ok(field_rules::folded_div(b.span, l, r)),
            Err(e) => Err(e),
        },
        FieldElementExpression::Pow(b) => match both(
            folded_field(c, *b.left),
            folded_uint(c, *b.right),
        ) {
            Ok((l, r)) => field_rules::folded_pow(l, r),
            Err(e) => Err(e),
        },
        FieldElementExpression::Neg(u) => match folded_field(c, *u.inner) {
            Ok(e) => Ok(field_rules::folded_neg(e)),
            Err(e) => Err(e),
        },
        FieldElementExpression::Pos(u) => match folded_field(c, *u.inner) {
            Ok(e) => Ok(field_rules::folded_pos(e)),
            Err(e) => Err(e),
        },
        FieldElementExpression::Conditional(x) => match all_three(
            folded_boolean(c, *x.condition),
            folded_field(c, *x.consequence),
            folded_field(c, *x.alternative),
        ) {
            Ok((condition, consequence, alternative)) => Ok(
                field_of_conditional(
                    folded_conditional(condition, consequence, alternative, x.kind),
                ),
            ),
            Err(e) => Err(e),
        },
        FieldElementExpression::Select(s) => match folded_select_expression(
            c,
            s,
            Family::FieldElement,
        ) {
            Ok(o) => Ok(field_of_select(o)),
            Err(e) => Err(e),
        },
        FieldElementExpression::Member(m) => match folded_member_expression(
            c,
            m,
            Family::FieldElement,
        ) {
            Ok(o) => Ok(field_of_member(o)),
            Err(e) => Err(e),
        },
        FieldElementExpression::Element(m) => match folded_element_expression(
            c,
            m,
            Family::FieldElement,
        ) {
            Ok(o) => Ok(field_of_element(o)),
            Err(e) => Err(e),
        },
    }
}

/// The boolean that `left == right` is known to be, or the node made by
/// `rebuild`.
pub open spec fn folded_equality<T>(
    left: TypedExpression<T>,
    right: TypedExpression<T>,
    rebuilt: BooleanExpression<T>,
) -> Result<BooleanExpression<T>, Error> {
    match equality(left, right) {
        Err(e) => Err(e),
        Ok(Some(v)) => Ok(BooleanExpression::from_value(v)),
        Ok(None) => Ok(rebuilt),
    }
}

pub open spec fn folded_boolean<T: Field>(c: Known<T>, e: BooleanExpression<T>) -> Result<
    BooleanExpression<T>,
    Error,
>
    decreases e,
{
    match e {
        BooleanExpression::Value(v) => Ok(BooleanExpression::Value(v)),
        BooleanExpression::Identifier(id) => Ok(
            boolean_of_identifier(folded_identifier(c, id, Family::Boolean)),
        ),
        BooleanExpression::FieldLt(b) => match both(
            folded_field(c, *b.left),
            folded_field(c, *b.right),
        ) {
            Ok((l, r)) => Ok(boolean_rules::folded_field_lt(l, r)),
            Err(e) => Err(e),
        },
        BooleanExpression::FieldLe(b) => match both(
            folded_field(c, *b.left),
            folded_field(c, *b.right),
        ) {
            Ok((l, r)) => Ok(boolean_rules::folded_field_le(l, r)),
            Err(e) => Err(e),
        },
        BooleanExpression::UintLt(b) => match both(
            folded_uint(c, *b.left),
            folded_uint(c, *b.right),
        ) {
            Ok((l, r)) => Ok(boolean_rules::folded_uint_lt(l, r)),
            Err(e) => Err(e),
        },
        BooleanExpression::UintLe(b) => match both(
            folded_uint(c, *b.left),
            folded_uint(c, *b.right),
        ) {
            Ok((l, r)) => Ok(boolean_rules::folded_uint_le(l, r)),
            Err(e) => Err(e),
        },
        BooleanExpression::FieldEq(b) => match both(
            folded_field(c, *b.left),
            folded_field(c, *b.right),
        ) {
            Ok((l, r)) => folded_equality(
                TypedExpression::FieldElement(l),
                TypedExpression::FieldElement(r),
                BooleanExpression::FieldEq(BinaryExpression::new(l, r)),
            ),
            Err(e) => Err(e),
        },
        BooleanExpression::BoolEq(b) => match both(
            folded_boolean(c, *b.left),
            folded_boolean(c, *b.right),
        ) {
            Ok((l, r)) => folded_equality(
                TypedExpression::Boolean(l),
                TypedExpression::Boolean(r),
                BooleanExpression::BoolEq(BinaryExpression::new(l, r)),
            ),
            Err(e) => Err(e),
        },
        BooleanExpression::ArrayEq(b) => match both(
            folded_array(c, *b.left),
            folded_array(c, *b.right),
        ) {
            Ok((l, r)) => folded_equality(
                TypedExpression::Array(l),
                TypedExpression::Array(r),
                BooleanExpression::ArrayEq(BinaryExpression::new(l, r)),
            ),
            Err(e) => Err(e),
        },
        BooleanExpression::StructEq(b) => match both(
            folded_struct(c, *b.left),
            folded_struct(c, *b.right),
        ) {
            Ok((l, r)) => folded_equality(
                TypedExpression::Struct(l),
                TypedExpression::Struct(r),
                BooleanExpression::StructEq(BinaryExpression::new(l, r)),
            ),
            Err(e) => Err(e),
        },
        BooleanExpression::TupleEq(b) => match both(
            folded_tuple(c, *b.left),
            folded_tuple(c, *b.right),
        ) {
            Ok((l, r)) => folded_equality(
                TypedExpression::Tuple(l),
                TypedExpression::Tuple(r),
                BooleanExpression::TupleEq(BinaryExpression::new(l, r)),
            ),
            Err(e) => Err(e),
        },
        BooleanExpression::UintEq(b) => match both(
            folded_uint(c, *b.left),
            folded_uint(c, *b.right),
        ) {
            Ok((l, r)) => folded_equality(
                TypedExpression::Uint(l),
                TypedExpression::Uint(r),
                BooleanExpression::UintEq(BinaryExpression::new(l, r)),
            ),
            Err(e) => Err(e),
        },
        BooleanExpression::Or(b) => match both(
            folded_boolean(c, *b.left),
            folded_boolean(c, *b.right),
        ) {
            Ok((l, r)) => Ok(boolean_rules::folded_or(l, r)),
            Err(e) => Err(e),
        },
        BooleanExpression::And(b) => match both(
            folded_boolean(c, *b.left),
            folded_boolean(c, *b.right),
        ) {
            Ok((l, r)) => Ok(boolean_rules::folded_and(l, r)),
            Err(e) => Err(e),
        },
        BooleanExpression::Not(u) => match folded_boolean(c, *u.inner) {
            Ok(e) => Ok(boolean_rules::folded_not(e)),
            Err(e) => Err(e),
        },
        BooleanExpression::Conditional(x) => match all_three(
            folded_boolean(c, *x.condition),
            folded_boolean(c, *x.consequence),
            folded_boolean(c, *x.alternative),
        ) {
            Ok((condition, consequence, alternative)) => Ok(
                boolean_of_conditional(
                    folded_conditional(condition, consequence, alternative, x.kind),
                ),
            ),
            Err(e) => Err(e),
        },
        BooleanExpression::Select(s) => match folded_select_expression(c, s, Family::Boolean) {
            Ok(o) => Ok(boolean_of_select(o)),
            Err(e) => Err(e),
        },
        BooleanExpression::Member(m) => match folded_member_expression(c, m, Family::Boolean) {
            Ok(o) => Ok(boolean_of_member(o)),
            Err(e) => Err(e),
        },
        BooleanExpression::Element(m) => match folded_element_expression(c, m, Family::Boolean) {
            Ok(o) => Ok(boolean_of_element(o)),
            Err(e) => Err(e),
        },
    }
}

pub open spec fn folded_uint<T: Field>(c: Known<T>, e: UExpression<T>) -> Result<
    UExpression<T>,
    Error,
>
    decreases e,
{
    match folded_uint_inner(c, e.bitwidth, e.inner) {
        Ok(inner) => Ok(UExpression { bitwidth: e.bitwidth, inner }),
        Err(e) => Err(e),
    }
}

/// Both operands of an operator on unsigned integers, simplified.
pub open spec fn folded_operands<T: Field, Op>(
    c: Known<T>,
    b: BinaryExpression<Op, UExpression<T>, UExpression<T>, UExpression<T>>,
) -> Result<(UExpressionInner<T>, UExpressionInner<T>), Error>
    decreases b,
{
    match both(folded_uint(c, *b.left), folded_uint(c, *b.right)) {
        Ok((l, r)) => Ok((l.inner, r.inner)),
        Err(e) => Err(e),
    }
}

pub open spec fn folded_uint_inner<T: Field>(
    c: Known<T>,
    bw: UBitwidth,
    e: UExpressionInner<T>,
) -> Result<UExpressionInner<T>, Error>
    decreases e,
{
    match e {
        UExpressionInner::Value(v) => Ok(UExpressionInner::Value(v)),
        UExpressionInner::Identifier(id) => Ok(
            uint_of_identifier(folded_identifier(c, id, Family::Uint(bw))),
        ),
        UExpressionInner::Add(b) => match folded_operands(c, b) {
            Ok((l, r)) => Ok(uint_rules::folded_add(bw, l, r)),
            Err(e) => Err(e),
        },
        UExpressionInner::Sub(b) => match folded_operands(c, b) {
            Ok((l, r)) => Ok(uint_rules::folded_sub(bw, l, r)),
            Err(e) => Err(e),
        },
        UExpressionInner::FloorSub(b) => match folded_operands(c, b) {
            Ok((l, r)) => Ok(uint_rules::folded_floor_sub(bw, l, r)),
            Err(e) => Err(e),
        },
        UExpressionInner::Mult(b) => match folded_operands(c, b) {
            Ok((l, r)) => Ok(uint_rules::folded_mult(bw, l, r)),
            Err(e) => Err(e),
        },
        UExpressionInner::Div(b) => match folded_operands(c, b) {
            Ok((l, r)) => Ok(uint_rules::folded_div(bw, l, r)),
            Err(e) => Err(e),
        },
        UExpressionInner::Rem(b) => match folded_operands(c, b) {
            Ok((l, r)) => Ok(uint_rules::folded_rem(bw, l, r)),
            Err(e) => Err(e),
        },
        UExpressionInner::Xor(b) => match folded_operands(c, b) {
            Ok((l, r)) => Ok(uint_rules::folded_xor(bw, l, r)),
            Err(e) => Err(e),
        },
        UExpressionInner::And(b) => match folded_operands(c, b) {
            Ok((l, r)) => Ok(uint_rules::folded_and(bw, l, r)),
            Err(e) => Err(e),
        },
        UExpressionInner::Or(b) => match both(folded_uint(c, *b.left), folded_uint(c, *b.right)) {
            Ok((l, r)) => Ok(UExpressionInner::Or(BinaryExpression::with_span(l, r, b.span))),
            Err(e) => Err(e),
        },
        UExpressionInner::LeftShift(b) => match folded_operands(c, b) {
            Ok((l, r)) => Ok(uint_rules::folded_left_shift(bw, l, r)),
            Err(e) => Err(e),
        },
        UExpressionInner::RightShift(b) => match folded_operands(c, b) {
            Ok((l, r)) => Ok(uint_rules::folded_right_shift(bw, l, r)),
            Err(e) => Err(e),
        },
        UExpressionInner::Not(u) => match folded_uint(c, *u.inner) {
            Ok(e) => Ok(uint_rules::folded_not(bw, e.inner)),
            Err(e) => Err(e),
        },
        UExpressionInner::Neg(u) => match folded_uint(c, *u.inner) {
            Ok(e) => Ok(uint_rules::folded_neg(bw, e.inner)),
            Err(e) => Err(e),
        },
        UExpressionInner::Pos(u) => match folded_uint(c, *u.inner) {
            Ok(e) => Ok(uint_rules::folded_pos(bw, e.inner)),
            Err(e) => Err(e),
        },
        UExpressionInner::Conditional(x) => match all_three(
            folded_boolean(c, *x.condition),
            folded_uint(c, *x.consequence),
            folded_uint(c, *x.alternative),
        ) {
            Ok((condition, consequence, alternative)) => Ok(
                uint_of_conditional(
                    folded_conditional(condition, consequence, alternative, x.kind),
                ),
            ),
            Err(e) => Err(e),
        },
        UExpressionInner::Select(s) => match folded_select_expression(c, s, Family::Uint(bw)) {
            Ok(o) => Ok(uint_of_select(o)),
            Err(e) => Err(e),
        },
        UExpressionInner::Member(m) => match folded_member_expression(c, m, Family::Uint(bw)) {
            Ok(o) => Ok(uint_of_member(o)),
            Err(e) => Err(e),
        },
        UExpressionInner::Element(m) => match folded_element_expression(c, m, Family::Uint(bw)) {
            Ok(o) => Ok(uint_of_element(o)),
            Err(e) => Err(e),
        },
    }
}

pub open spec fn folded_array<T: Field>(c: Known<T>, e: ArrayExpression<T>) -> Result<
    ArrayExpression<T>,
    Error,
>
    decreases e,
{
    match folded_array_inner(c, e.inner) {
        Ok(inner) => Ok(ArrayExpression { ty: e.ty, inner }),
        Err(e) => Err(e),
    }
}

/// The elements of an array literal, each simplified.
pub open spec fn folded_elements<T: Field>(c: Known<T>, l: List<TypedExpressionOrSpread<T>>) -> Result<
    List<TypedExpressionOrSpread<T>>,
    Error,
>
    decreases l,
{
    match l {
        List::Nil => Ok(List::Nil),
        List::Cons(n) => {
            let head = match n.head {
                TypedExpressionOrSpread::Expression(e) => match folded_expression(c, e) {
                    Ok(e) => Ok(TypedExpressionOrSpread::Expression(e)),
                    Err(e) => Err(e),
                },
                TypedExpressionOrSpread::Spread(s) => match folded_array(c, s.array) {
                    Ok(array) => Ok(TypedExpressionOrSpread::Spread(TypedSpread { array })),
                    Err(e) => Err(e),
                },
            };
            match both(head, folded_elements(c, n.tail)) {
                Ok((head, tail)) => Ok(List::spec_cons(head, tail)),
                Err(e) => Err(e),
            }
        },
    }
}

pub open spec fn folded_array_inner<T: Field>(c: Known<T>, e: ArrayExpressionInner<T>) -> Result<
    ArrayExpressionInner<T>,
    Error,
>
    decreases e,
{
    match e {
        ArrayExpressionInner::Value(v) => match folded_elements(c, v.value) {
            Ok(l) => Ok(ArrayExpressionInner::Value(ValueExpression::new(spliced(l)))),
            Err(e) => Err(e),
        },
        ArrayExpressionInner::Identifier(id) => Ok(
            array_of_identifier(folded_identifier(c, id, Family::Array)),
        ),
        ArrayExpressionInner::Conditional(x) => match all_three(
            folded_boolean(c, *x.condition),
            folded_array(c, *x.consequence),
            folded_array(c, *x.alternative),
        ) {
            Ok((condition, consequence, alternative)) => Ok(
                array_of_conditional(
                    folded_conditional(condition, consequence, alternative, x.kind),
                ),
            ),
            Err(e) => Err(e),
        },
        ArrayExpressionInner::Select(s) => match folded_select_expression(c, s, Family::Array) {
            Ok(o) => Ok(array_of_select(o)),
            Err(e) => Err(e),
        },
        ArrayExpressionInner::Member(m) => match folded_member_expression(c, m, Family::Array) {
            Ok(o) => Ok(array_of_member(o)),
            Err(e) => Err(e),
        },
        ArrayExpressionInner::Element(m) => match folded_element_expression(c, m, Family::Array) {
            Ok(o) => Ok(array_of_element(o)),
            Err(e) => Err(e),
        },
    }
}

pub open spec fn folded_struct<T: Field>(c: Known<T>, e: StructExpression<T>) -> Result<
    StructExpression<T>,
    Error,
>
    decreases e,
{
    match folded_struct_inner(c, e.ty.members, e.inner) {
        Ok(inner) => Ok(StructExpression { ty: e.ty, inner }),
        Err(e) => Err(e),
    }
}

/// The values of a struct literal, each simplified and held against the type
/// of its member. Values beyond the last member are left out.
pub open spec fn folded_members<T: Field>(
    c: Known<T>,
    values: List<TypedExpression<T>>,
    members: List<StructMember>,
) -> Result<List<TypedExpression<T>>, Error>
    decreases values,
{
    match (values, members) {
        (List::Cons(v), List::Cons(m)) => match folded_expression(c, v.head) {
            Err(e) => Err(e),
            Ok(x) => match both(checked_member(x, m.head), folded_members(c, v.tail, m.tail)) {
                Ok((head, tail)) => Ok(List::spec_cons(head, tail)),
                Err(e) => Err(e),
            },
        },
        _ => Ok(List::Nil),
    }
}

pub open spec fn folded_struct_inner<T: Field>(
    c: Known<T>,
    members: List<StructMember>,
    e: StructExpressionInner<T>,
) -> Result<StructExpressionInner<T>, Error>
    decreases e,
{
    match e {
        StructExpressionInner::Value(v) => match folded_members(c, v.value, members) {
            Ok(l) => Ok(StructExpressionInner::Value(ValueExpression::new(l))),
            Err(e) => Err(e),
        },
        StructExpressionInner::Identifier(id) => Ok(
            struct_of_identifier(folded_identifier(c, id, Family::Struct)),
        ),
        StructExpressionInner::Conditional(x) => match all_three(
            folded_boolean(c, *x.condition),
            folded_struct(c, *x.consequence),
            folded_struct(c, *x.alternative),
        ) {
            Ok((condition, consequence, alternative)) => Ok(
                struct_of_conditional(
                    folded_conditional(condition, consequence, alternative, x.kind),
                ),
            ),
            Err(e) => Err(e),
        },
        StructExpressionInner::Select(s) => match folded_select_expression(c, s, Family::Struct) {
            Ok(o) => Ok(struct_of_select(o)),
            Err(e) => Err(e),
        },
        StructExpressionInner::Member(m) => match folded_member_expression(c, m, Family::Struct) {
            Ok(o) => Ok(struct_of_member(o)),
            Err(e) => Err(e),
        },
        StructExpressionInner::Element(m) => match folded_element_expression(
            c,
            m,
            Family::Struct,
        ) {
            Ok(o) => Ok(struct_of_element(o)),
            Err(e) => Err(e),
        },
    }
}

pub open spec fn folded_tuple<T: Field>(c: Known<T>, e: TupleExpression<T>) -> Result<
    TupleExpression<T>,
    Error,
>
    decreases e,
{
    match folded_tuple_inner(c, e.ty.elements, e.inner) {
        Ok(inner) => Ok(TupleExpression { ty: e.ty, inner }),
        Err(e) => Err(e),
    }
}

/// The position after `index`; the count stops at the largest number.
pub open spec fn next_index(index: u32) -> u32 {
    if index < u32::MAX {
        (index + 1) as u32
    } else {
        index
    }
}

/// The values of a tuple literal from position `index` on, each simplified
/// and held against the type of its element. Values beyond the last type are
/// left out.
pub open spec fn folded_tuple_elements<T: Field>(
    c: Known<T>,
    values: List<TypedExpression<T>>,
    types: List<Type>,
    index: u32,
) -> Result<List<TypedExpression<T>>, Error>
    decreases values,
{
    match (values, types) {
        (List::Cons(v), List::Cons(t)) => match folded_expression(c, v.head) {
            Err(e) => Err(e),
            Ok(x) => match both(
                checked_element(x, index, t.head),
                folded_tuple_elements(c, v.tail, t.tail, next_index(index)),
            ) {
                Ok((head, tail)) => Ok(List::spec_cons(head, tail)),
                Err(e) => Err(e),
            },
        },
        _ => Ok(List::Nil),
    }
}

pub open spec fn folded_tuple_inner<T: Field>(
    c: Known<T>,
    types: List<Type>,
    e: TupleExpressionInner<T>,
) -> Result<TupleExpressionInner<T>, Error>
    decreases e,
{
    match e {
        TupleExpressionInner::Value(v) => match folded_tuple_elements(c, v.value, types, 0) {
            Ok(l) => Ok(TupleExpressionInner::Value(ValueExpression::new(l))),
            Err(e) => Err(e),
        },
        TupleExpressionInner::Identifier(id) => Ok(
            tuple_of_identifier(folded_identifier(c, id, Family::Tuple)),
        ),
        TupleExpressionInner::Conditional(x) => match all_three(
            folded_boolean(c, *x.condition),
            folded_tuple(c, *x.consequence),
            folded_tuple(c, *x.alternative),
        ) {
            Ok((condition, consequence, alternative)) => Ok(
                tuple_of_conditional(
                    folded_conditional(condition, consequence, alternative, x.kind),
                ),
            ),
            Err(e) => Err(e),
        },
        TupleExpressionInner::Select(s) => match folded_select_expression(c, s, Family::Tuple) {
            Ok(o) => Ok(tuple_of_select(o)),
            Err(e) => Err(e),
        },
        TupleExpressionInner::Member(m) => match folded_member_expression(c, m, Family::Tuple) {
            Ok(o) => Ok(tuple_of_member(o)),
            Err(e) => Err(e),
        },
        TupleExpressionInner::Element(m) => match folded_element_expression(c, m, Family::Tuple) {
            Ok(o) => Ok(tuple_of_element(o)),
            Err(e) => Err(e),
        },
    }
}

} // verus!
