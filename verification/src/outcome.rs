//! What the outcome of a shared simplification is inside each family of
//! expressions: the node again, or the expression that took its place.

use crate::expressions::IdentifierOrExpression;
use crate::typed::{
    ArrayExpression, ArrayExpressionInner, BooleanExpression, ConditionalOrExpression,
    ElementOrExpression, Family, FieldElementExpression, Identifier, MemberOrExpression,
    SelectOrExpression, StructExpression, StructExpressionInner, TupleExpression,
    TupleExpressionInner, TypedExpression, UExpression, UExpressionInner,
};
use vstd::pervasive::unreached;
use vstd::prelude::*;

verus! {

pub open spec fn field_of_identifier<T>(o: IdentifierOrExpression<Identifier, FieldElementExpression<T>, TypedExpression<T>>) -> FieldElementExpression<T> {
    match o {
        IdentifierOrExpression::Identifier(n) => FieldElementExpression::Identifier(n),
        IdentifierOrExpression::Expression(e) => e->FieldElement_0,
    }
}

pub fn field_from_identifier<T>(o: IdentifierOrExpression<Identifier, FieldElementExpression<T>, TypedExpression<T>>) -> (r: FieldElementExpression<T>)
    requires
        o matches IdentifierOrExpression::Expression(e) ==> e.family() == Family::FieldElement,
    ensures
        r == field_of_identifier(o),
{
    match o {
        IdentifierOrExpression::Identifier(n) => FieldElementExpression::Identifier(n),
        IdentifierOrExpression::Expression(e) => match e {
            TypedExpression::FieldElement(x) => x,
            _ => unreached(),
        },
    }
}

pub open spec fn field_of_select<T>(o: SelectOrExpression<T>) -> FieldElementExpression<T> {
    match o {
        SelectOrExpression::Select(n) => FieldElementExpression::Select(n),
        SelectOrExpression::Expression(e) => e->FieldElement_0,
    }
}

pub fn field_from_select<T>(o: SelectOrExpression<T>) -> (r: FieldElementExpression<T>)
    requires
        o matches SelectOrExpression::Expression(e) ==> e.family() == Family::FieldElement,
    ensures
        r == field_of_select(o),
{
    match o {
        SelectOrExpression::Select(n) => FieldElementExpression::Select(n),
        SelectOrExpression::Expression(e) => match e {
            TypedExpression::FieldElement(x) => x,
            _ => unreached(),
        },
    }
}

pub open spec fn field_of_member<T>(o: MemberOrExpression<T>) -> FieldElementExpression<T> {
    match o {
        MemberOrExpression::Member(n) => FieldElementExpression::Member(n),
        MemberOrExpression::Expression(e) => e->FieldElement_0,
    }
}

pub fn field_from_member<T>(o: MemberOrExpression<T>) -> (r: FieldElementExpression<T>)
    requires
        o matches MemberOrExpression::Expression(e) ==> e.family() == Family::FieldElement,
    ensures
        r == field_of_member(o),
{
    match o {
        MemberOrExpression::Member(n) => FieldElementExpression::Member(n),
        MemberOrExpression::Expression(e) => match e {
            TypedExpression::FieldElement(x) => x,
            _ => unreached(),
        },
    }
}

pub open spec fn field_of_element<T>(o: ElementOrExpression<T>) -> FieldElementExpression<T> {
    match o {
        ElementOrExpression::Element(n) => FieldElementExpression::Element(n),
        ElementOrExpression::Expression(e) => e->FieldElement_0,
    }
}

pub fn field_from_element<T>(o: ElementOrExpression<T>) -> (r: FieldElementExpression<T>)
    requires
        o matches ElementOrExpression::Expression(e) ==> e.family() == Family::FieldElement,
    ensures
        r == field_of_element(o),
{
    match o {
        ElementOrExpression::Element(n) => FieldElementExpression::Element(n),
        ElementOrExpression::Expression(e) => match e {
            TypedExpression::FieldElement(x) => x,
            _ => unreached(),
        },
    }
}

pub open spec fn field_of_conditional<T>(o: ConditionalOrExpression<T, FieldElementExpression<T>>) -> FieldElementExpression<T> {
    match o {
        ConditionalOrExpression::Conditional(n) => FieldElementExpression::Conditional(n),
        ConditionalOrExpression::Expression(e) => e,
    }
}

pub fn field_from_conditional<T>(o: ConditionalOrExpression<T, FieldElementExpression<T>>) -> (r: FieldElementExpression<T>)
    ensures
        r == field_of_conditional(o),
{
    match o {
        ConditionalOrExpression::Conditional(n) => FieldElementExpression::Conditional(n),
        ConditionalOrExpression::Expression(e) => e,
    }
}

pub open spec fn boolean_of_identifier<T>(o: IdentifierOrExpression<Identifier, BooleanExpression<T>, TypedExpression<T>>) -> BooleanExpression<T> {
    match o {
        IdentifierOrExpression::Identifier(n) => BooleanExpression::Identifier(n),
        IdentifierOrExpression::Expression(e) => e->Boolean_0,
    }
}

pub fn boolean_from_identifier<T>(o: IdentifierOrExpression<Identifier, BooleanExpression<T>, TypedExpression<T>>) -> (r: BooleanExpression<T>)
    requires
        o matches IdentifierOrExpression::Expression(e) ==> e.family() == Family::Boolean,
    ensures
        r == boolean_of_identifier(o),
{
    match o {
        IdentifierOrExpression::Identifier(n) => BooleanExpression::Identifier(n),
        IdentifierOrExpression::Expression(e) => match e {
            TypedExpression::Boolean(x) => x,
            _ => unreached(),
        },
    }
}

pub open spec fn boolean_of_select<T>(o: SelectOrExpression<T>) -> BooleanExpression<T> {
    match o {
        SelectOrExpression::Select(n) => BooleanExpression::Select(n),
        SelectOrExpression::Expression(e) => e->Boolean_0,
    }
}

pub fn boolean_from_select<T>(o: SelectOrExpression<T>) -> (r: BooleanExpression<T>)
    requires
        o matches SelectOrExpression::Expression(e) ==> e.family() == Family::Boolean,
    ensures
        r == boolean_of_select(o),
{
    match o {
        SelectOrExpression::Select(n) => BooleanExpression::Select(n),
        SelectOrExpression::Expression(e) => match e {
            TypedExpression::Boolean(x) => x,
            _ => unreached(),
        },
    }
}

pub open spec fn boolean_of_member<T>(o: MemberOrExpression<T>) -> BooleanExpression<T> {
    match o {
        MemberOrExpression::Member(n) => BooleanExpression::Member(n),
        MemberOrExpression::Expression(e) => e->Boolean_0,
    }
}

pub fn boolean_from_member<T>(o: MemberOrExpression<T>) -> (r: BooleanExpression<T>)
    requires
        o matches MemberOrExpression::Expression(e) ==> e.family() == Family::Boolean,
    ensures
        r == boolean_of_member(o),
{
    match o {
        MemberOrExpression::Member(n) => BooleanExpression::Member(n),
        MemberOrExpression::Expression(e) => match e {
            TypedExpression::Boolean(x) => x,
            _ => unreached(),
        },
    }
}

pub open spec fn boolean_of_element<T>(o: ElementOrExpression<T>) -> BooleanExpression<T> {
    match o {
        ElementOrExpression::Element(n) => BooleanExpression::Element(n),
        ElementOrExpression::Expression(e) => e->Boolean_0,
    }
}

pub fn boolean_from_element<T>(o: ElementOrExpression<T>) -> (r: BooleanExpression<T>)
    requires
        o matches ElementOrExpression::Expression(e) ==> e.family() == Family::Boolean,
    ensures
        r == boolean_of_element(o),
{
    match o {
        ElementOrExpression::Element(n) => BooleanExpression::Element(n),
        ElementOrExpression::Expression(e) => match e {
            TypedExpression::Boolean(x) => x,
            _ => unreached(),
        },
    }
}

pub open spec fn boolean_of_conditional<T>(o: ConditionalOrExpression<T, BooleanExpression<T>>) -> BooleanExpression<T> {
    match o {
        ConditionalOrExpression::Conditional(n) => BooleanExpression::Conditional(n),
        ConditionalOrExpression::Expression(e) => e,
    }
}

pub fn boolean_from_conditional<T>(o: ConditionalOrExpression<T, BooleanExpression<T>>) -> (r: BooleanExpression<T>)
    ensures
        r == boolean_of_conditional(o),
{
    match o {
        ConditionalOrExpression::Conditional(n) => BooleanExpression::Conditional(n),
        ConditionalOrExpression::Expression(e) => e,
    }
}

pub open spec fn uint_of_identifier<T>(o: IdentifierOrExpression<Identifier, UExpression<T>, TypedExpression<T>>) -> UExpressionInner<T> {
    match o {
        IdentifierOrExpression::Identifier(n) => UExpressionInner::Identifier(n),
        IdentifierOrExpression::Expression(e) => e->Uint_0.inner,
    }
}

pub fn uint_from_identifier<T>(o: IdentifierOrExpression<Identifier, UExpression<T>, TypedExpression<T>>) -> (r: UExpressionInner<T>)
    requires
        o matches IdentifierOrExpression::Expression(e) ==> e.family() is Uint,
    ensures
        r == uint_of_identifier(o),
{
    match o {
        IdentifierOrExpression::Identifier(n) => UExpressionInner::Identifier(n),
        IdentifierOrExpression::Expression(e) => match e {
            TypedExpression::Uint(x) => x.inner,
            _ => unreached(),
        },
    }
}

pub open spec fn uint_of_select<T>(o: SelectOrExpression<T>) -> UExpressionInner<T> {
    match o {
        SelectOrExpression::Select(n) => UExpressionInner::Select(n),
        SelectOrExpression::Expression(e) => e->Uint_0.inner,
    }
}

pub fn uint_from_select<T>(o: SelectOrExpression<T>) -> (r: UExpressionInner<T>)
    requires
        o matches SelectOrExpression::Expression(e) ==> e.family() is Uint,
    ensures
        r == uint_of_select(o),
{
    match o {
        SelectOrExpression::Select(n) => UExpressionInner::Select(n),
        SelectOrExpression::Expression(e) => match e {
            TypedExpression::Uint(x) => x.inner,
            _ => unreached(),
        },
    }
}

pub open spec fn uint_of_member<T>(o: MemberOrExpression<T>) -> UExpressionInner<T> {
    match o {
        MemberOrExpression::Member(n) => UExpressionInner::Member(n),
        MemberOrExpression::Expression(e) => e->Uint_0.inner,
    }
}

pub fn uint_from_member<T>(o: MemberOrExpression<T>) -> (r: UExpressionInner<T>)
    requires
        o matches MemberOrExpression::Expression(e) ==> e.family() is Uint,
    ensures
        r == uint_of_member(o),
{
    match o {
        MemberOrExpression::Member(n) => UExpressionInner::Member(n),
        MemberOrExpression::Expression(e) => match e {
            TypedExpression::Uint(x) => x.inner,
            _ => unreached(),
        },
    }
}

pub open spec fn uint_of_element<T>(o: ElementOrExpression<T>) -> UExpressionInner<T> {
    match o {
        ElementOrExpression::Element(n) => UExpressionInner::Element(n),
        ElementOrExpression::Expression(e) => e->Uint_0.inner,
    }
}

pub fn uint_from_element<T>(o: ElementOrExpression<T>) -> (r: UExpressionInner<T>)
    requires
        o matches ElementOrExpression::Expression(e) ==> e.family() is Uint,
    ensures
        r == uint_of_element(o),
{
    match o {
        ElementOrExpression::Element(n) => UExpressionInner::Element(n),
        ElementOrExpression::Expression(e) => match e {
            TypedExpression::Uint(x) => x.inner,
            _ => unreached(),
        },
    }
}

pub open spec fn uint_of_conditional<T>(o: ConditionalOrExpression<T, UExpression<T>>) -> UExpressionInner<T> {
    match o {
        ConditionalOrExpression::Conditional(n) => UExpressionInner::Conditional(n),
        ConditionalOrExpression::Expression(e) => e.inner,
    }
}

pub fn uint_from_conditional<T>(o: ConditionalOrExpression<T, UExpression<T>>) -> (r: UExpressionInner<T>)
    ensures
        r == uint_of_conditional(o),
{
    match o {
        ConditionalOrExpression::Conditional(n) => UExpressionInner::Conditional(n),
        ConditionalOrExpression::Expression(e) => e.inner,
    }
}

pub open spec fn array_of_identifier<T>(o: IdentifierOrExpression<Identifier, ArrayExpression<T>, TypedExpression<T>>) -> ArrayExpressionInner<T> {
    match o {
        IdentifierOrExpression::Identifier(n) => ArrayExpressionInner::Identifier(n),
        IdentifierOrExpression::Expression(e) => e->Array_0.inner,
    }
}

pub fn array_from_identifier<T>(o: IdentifierOrExpression<Identifier, ArrayExpression<T>, TypedExpression<T>>) -> (r: ArrayExpressionInner<T>)
    requires
        o matches IdentifierOrExpression::Expression(e) ==> e.family() == Family::Array,
    ensures
        r == array_of_identifier(o),
{
    match o {
        IdentifierOrExpression::Identifier(n) => ArrayExpressionInner::Identifier(n),
        IdentifierOrExpression::Expression(e) => match e {
            TypedExpression::Array(x) => x.inner,
            _ => unreached(),
        },
    }
}

pub open spec fn array_of_select<T>(o: SelectOrExpression<T>) -> ArrayExpressionInner<T> {
    match o {
        SelectOrExpression::Select(n) => ArrayExpressionInner::Select(n),
        SelectOrExpression::Expression(e) => e->Array_0.inner,
    }
}

pub fn array_from_select<T>(o: SelectOrExpression<T>) -> (r: ArrayExpressionInner<T>)
    requires
        o matches SelectOrExpression::Expression(e) ==> e.family() == Family::Array,
    ensures
        r == array_of_select(o),
{
    match o {
        SelectOrExpression::Select(n) => ArrayExpressionInner::Select(n),
        SelectOrExpression::Expression(e) => match e {
            TypedExpression::Array(x) => x.inner,
            _ => unreached(),
        },
    }
}

pub open spec fn array_of_member<T>(o: MemberOrExpression<T>) -> ArrayExpressionInner<T> {
    match o {
        MemberOrExpression::Member(n) => ArrayExpressionInner::Member(n),
        MemberOrExpression::Expression(e) => e->Array_0.inner,
    }
}

pub fn array_from_member<T>(o: MemberOrExpression<T>) -> (r: ArrayExpressionInner<T>)
    requires
        o matches MemberOrExpression::Expression(e) ==> e.family() == Family::Array,
    ensures
        r == array_of_member(o),
{
    match o {
        MemberOrExpression::Member(n) => ArrayExpressionInner::Member(n),
        MemberOrExpression::Expression(e) => match e {
            TypedExpression::Array(x) => x.inner,
            _ => unreached(),
        },
    }
}

pub open spec fn array_of_element<T>(o: ElementOrExpression<T>) -> ArrayExpressionInner<T> {
    match o {
        ElementOrExpression::Element(n) => ArrayExpressionInner::Element(n),
        ElementOrExpression::Expression(e) => e->Array_0.inner,
    }
}

pub fn array_from_element<T>(o: ElementOrExpression<T>) -> (r: ArrayExpressionInner<T>)
    requires
        o matches ElementOrExpression::Expression(e) ==> e.family() == Family::Array,
    ensures
        r == array_of_element(o),
{
    match o {
        ElementOrExpression::Element(n) => ArrayExpressionInner::Element(n),
        ElementOrExpression::Expression(e) => match e {
            TypedExpression::Array(x) => x.inner,
            _ => unreached(),
        },
    }
}

pub open spec fn array_of_conditional<T>(o: ConditionalOrExpression<T, ArrayExpression<T>>) -> ArrayExpressionInner<T> {
    match o {
        ConditionalOrExpression::Conditional(n) => ArrayExpressionInner::Conditional(n),
        ConditionalOrExpression::Expression(e) => e.inner,
    }
}

pub fn array_from_conditional<T>(o: ConditionalOrExpression<T, ArrayExpression<T>>) -> (r: ArrayExpressionInner<T>)
    ensures
        r == array_of_conditional(o),
{
    match o {
        ConditionalOrExpression::Conditional(n) => ArrayExpressionInner::Conditional(n),
        ConditionalOrExpression::Expression(e) => e.inner,
    }
}

pub open spec fn struct_of_identifier<T>(o: IdentifierOrExpression<Identifier, StructExpression<T>, TypedExpression<T>>) -> StructExpressionInner<T> {
    match o {
        IdentifierOrExpression::Identifier(n) => StructExpressionInner::Identifier(n),
        IdentifierOrExpression::Expression(e) => e->Struct_0.inner,
    }
}

pub fn struct_from_identifier<T>(o: IdentifierOrExpression<Identifier, StructExpression<T>, TypedExpression<T>>) -> (r: StructExpressionInner<T>)
    requires
        o matches IdentifierOrExpression::Expression(e) ==> e.family() == Family::Struct,
    ensures
        r == struct_of_identifier(o),
{
    match o {
        IdentifierOrExpression::Identifier(n) => StructExpressionInner::Identifier(n),
        IdentifierOrExpression::Expression(e) => match e {
            TypedExpression::Struct(x) => x.inner,
            _ => unreached(),
        },
    }
}

pub open spec fn struct_of_select<T>(o: SelectOrExpression<T>) -> StructExpressionInner<T> {
    match o {
        SelectOrExpression::Select(n) => StructExpressionInner::Select(n),
        SelectOrExpression::Expression(e) => e->Struct_0.inner,
    }
}

pub fn struct_from_select<T>(o: SelectOrExpression<T>) -> (r: StructExpressionInner<T>)
    requires
        o matches SelectOrExpression::Expression(e) ==> e.family() == Family::Struct,
    ensures
        r == struct_of_select(o),
{
    match o {
        SelectOrExpression::Select(n) => StructExpressionInner::Select(n),
        SelectOrExpression::Expression(e) => match e {
            TypedExpression::Struct(x) => x.inner,
            _ => unreached(),
        },
    }
}

pub open spec fn struct_of_member<T>(o: MemberOrExpression<T>) -> StructExpressionInner<T> {
    match o {
        MemberOrExpression::Member(n) => StructExpressionInner::Member(n),
        MemberOrExpression::Expression(e) => e->Struct_0.inner,
    }
}

pub fn struct_from_member<T>(o: MemberOrExpression<T>) -> (r: StructExpressionInner<T>)
    requires
        o matches MemberOrExpression::Expression(e) ==> e.family() == Family::Struct,
    ensures
        r == struct_of_member(o),
{
    match o {
        MemberOrExpression::Member(n) => StructExpressionInner::Member(n),
        MemberOrExpression::Expression(e) => match e {
            TypedExpression::Struct(x) => x.inner,
            _ => unreached(),
        },
    }
}

pub open spec fn struct_of_element<T>(o: ElementOrExpression<T>) -> StructExpressionInner<T> {
    match o {
        ElementOrExpression::Element(n) => StructExpressionInner::Element(n),
        ElementOrExpression::Expression(e) => e->Struct_0.inner,
    }
}

pub fn struct_from_element<T>(o: ElementOrExpression<T>) -> (r: StructExpressionInner<T>)
    requires
        o matches ElementOrExpression::Expression(e) ==> e.family() == Family::Struct,
    ensures
        r == struct_of_element(o),
{
    match o {
        ElementOrExpression::Element(n) => StructExpressionInner::Element(n),
        ElementOrExpression::Expression(e) => match e {
            TypedExpression::Struct(x) => x.inner,
            _ => unreached(),
        },
    }
}

pub open spec fn struct_of_conditional<T>(o: ConditionalOrExpression<T, StructExpression<T>>) -> StructExpressionInner<T> {
    match o {
        ConditionalOrExpression::Conditional(n) => StructExpressionInner::Conditional(n),
        ConditionalOrExpression::Expression(e) => e.inner,
    }
}

pub fn struct_from_conditional<T>(o: ConditionalOrExpression<T, StructExpression<T>>) -> (r: StructExpressionInner<T>)
    ensures
        r == struct_of_conditional(o),
{
    match o {
        ConditionalOrExpression::Conditional(n) => StructExpressionInner::Conditional(n),
        ConditionalOrExpression::Expression(e) => e.inner,
    }
}

pub open spec fn tuple_of_identifier<T>(o: IdentifierOrExpression<Identifier, TupleExpression<T>, TypedExpression<T>>) -> TupleExpressionInner<T> {
    match o {
        IdentifierOrExpression::Identifier(n) => TupleExpressionInner::Identifier(n),
        IdentifierOrExpression::Expression(e) => e->Tuple_0.inner,
    }
}

pub fn tuple_from_identifier<T>(o: IdentifierOrExpression<Identifier, TupleExpression<T>, TypedExpression<T>>) -> (r: TupleExpressionInner<T>)
    requires
        o matches IdentifierOrExpression::Expression(e) ==> e.family() == Family::Tuple,
    ensures
        r == tuple_of_identifier(o),
{
    match o {
        IdentifierOrExpression::Identifier(n) => TupleExpressionInner::Identifier(n),
        IdentifierOrExpression::Expression(e) => match e {
            TypedExpression::Tuple(x) => x.inner,
            _ => unreached(),
        },
    }
}

pub open spec fn tuple_of_select<T>(o: SelectOrExpression<T>) -> TupleExpressionInner<T> {
    match o {
        SelectOrExpression::Select(n) => TupleExpressionInner::Select(n),
        SelectOrExpression::Expression(e) => e->Tuple_0.inner,
    }
}

pub fn tuple_from_select<T>(o: SelectOrExpression<T>) -> (r: TupleExpressionInner<T>)
    requires
        o matches SelectOrExpression::Expression(e) ==> e.family() == Family::Tuple,
    ensures
        r == tuple_of_select(o),
{
    match o {
        SelectOrExpression::Select(n) => TupleExpressionInner::Select(n),
        SelectOrExpression::Expression(e) => match e {
            TypedExpression::Tuple(x) => x.inner,
            _ => unreached(),
        },
    }
}

pub open spec fn tuple_of_member<T>(o: MemberOrExpression<T>) -> TupleExpressionInner<T> {
    match o {
        MemberOrExpression::Member(n) => TupleExpressionInner::Member(n),
        MemberOrExpression::Expression(e) => e->Tuple_0.inner,
    }
}

pub fn tuple_from_member<T>(o: MemberOrExpression<T>) -> (r: TupleExpressionInner<T>)
    requires
        o matches MemberOrExpression::Expression(e) ==> e.family() == Family::Tuple,
    ensures
        r == tuple_of_member(o),
{
    match o {
        MemberOrExpression::Member(n) => TupleExpressionInner::Member(n),
        MemberOrExpression::Expression(e) => match e {
            TypedExpression::Tuple(x) => x.inner,
            _ => unreached(),
        },
    }
}

pub open spec fn tuple_of_element<T>(o: ElementOrExpression<T>) -> TupleExpressionInner<T> {
    match o {
        ElementOrExpression::Element(n) => TupleExpressionInner::Element(n),
        ElementOrExpression::Expression(e) => e->Tuple_0.inner,
    }
}

pub fn tuple_from_element<T>(o: ElementOrExpression<T>) -> (r: TupleExpressionInner<T>)
    requires
        o matches ElementOrExpression::Expression(e) ==> e.family() == Family::Tuple,
    ensures
        r == tuple_of_element(o),
{
    match o {
        ElementOrExpression::Element(n) => TupleExpressionInner::Element(n),
        ElementOrExpression::Expression(e) => match e {
            TypedExpression::Tuple(x) => x.inner,
            _ => unreached(),
        },
    }
}

pub open spec fn tuple_of_conditional<T>(o: ConditionalOrExpression<T, TupleExpression<T>>) -> TupleExpressionInner<T> {
    match o {
        ConditionalOrExpression::Conditional(n) => TupleExpressionInner::Conditional(n),
        ConditionalOrExpression::Expression(e) => e.inner,
    }
}

pub fn tuple_from_conditional<T>(o: ConditionalOrExpression<T, TupleExpression<T>>) -> (r: TupleExpressionInner<T>)
    ensures
        r == tuple_of_conditional(o),
{
    match o {
        ConditionalOrExpression::Conditional(n) => TupleExpressionInner::Conditional(n),
        ConditionalOrExpression::Expression(e) => e.inner,
    }
}

} // verus!
