//! The simplifications that every family of expressions shares: variables
//! with a known value, conditionals, equality, and access to the parts of
//! array, struct and tuple literals.

use crate::constant::{canonical, is_constant};
use crate::error::{Error, TypeMismatch};
use crate::expressions::{IdentifierExpression, IdentifierOrExpression};
use crate::field::Field;
use crate::list::{List, Node};
use crate::typed::{
    ArrayExpression, ArrayExpressionInner, BooleanExpression, ConditionalExpression,
    ConditionalKind, ConditionalOrExpression, ElementExpression, ElementOrExpression, Family,
    FieldElementExpression, Identifier, MemberExpression, MemberOrExpression, SelectExpression,
    SelectOrExpression, StructExpression, StructExpressionInner, TupleExpression,
    TupleExpressionInner, TypedExpression, TypedExpressionOrSpread, UExpression, UExpressionInner,
};
use crate::types::{ArraySize, StructMember, Type, UBitwidth};
use std::collections::HashMap;
use vstd::prelude::*;

verus! {

/// The values of the variables that are known to be constant.
pub type Constants<T> = HashMap<u64, TypedExpression<T>>;

/// A variable: replaced by its value where that is known and of the family
/// that the variable is used in.
pub open spec fn folded_identifier<T, E>(
    constants: Map<u64, TypedExpression<T>>,
    id: IdentifierExpression<Identifier, E>,
    family: Family,
) -> IdentifierOrExpression<Identifier, E, TypedExpression<T>> {
    if constants.contains_key(id.id.id) && constants[id.id.id].family() == family {
        IdentifierOrExpression::Expression(constants[id.id.id])
    } else {
        IdentifierOrExpression::Identifier(id)
    }
}

pub fn fold_identifier<T: Field, E>(
    constants: &Constants<T>,
    id: IdentifierExpression<Identifier, E>,
    family: Family,
) -> (r: IdentifierOrExpression<Identifier, E, TypedExpression<T>>)
    ensures
        r == folded_identifier(constants@, id, family),
        r matches IdentifierOrExpression::Expression(e) ==> e.family() == family,
{
    match constants.get(&id.id.id) {
        Some(e) => if e.family() == family {
            IdentifierOrExpression::Expression(e.clone())
        } else {
            IdentifierOrExpression::Identifier(id)
        },
        None => IdentifierOrExpression::Identifier(id),
    }
}

/// A conditional: a literal condition picks its branch; two branches that
/// are the same tree need no condition.
pub open spec fn folded_conditional<T, E>(
    condition: BooleanExpression<T>,
    consequence: E,
    alternative: E,
    kind: ConditionalKind,
) -> ConditionalOrExpression<T, E> {
    match condition {
        BooleanExpression::Value(v) => if v.value {
            ConditionalOrExpression::Expression(consequence)
        } else {
            ConditionalOrExpression::Expression(alternative)
        },
        condition => if consequence == alternative {
            ConditionalOrExpression::Expression(consequence)
        } else {
            ConditionalOrExpression::Conditional(
                ConditionalExpression::new(condition, consequence, alternative, kind),
            )
        },
    }
}

/// Computes [`folded_conditional`], given whether the two branches are the
/// same tree.
pub fn fold_conditional<T, E>(
    condition: BooleanExpression<T>,
    consequence: E,
    alternative: E,
    kind: ConditionalKind,
    same_branches: bool,
) -> (r: ConditionalOrExpression<T, E>)
    requires
        same_branches == (consequence == alternative),
    ensures
        r == folded_conditional(condition, consequence, alternative, kind),
{
    match condition {
        BooleanExpression::Value(v) => if v.value {
            ConditionalOrExpression::Expression(consequence)
        } else {
            ConditionalOrExpression::Expression(alternative)
        },
        condition => if same_branches {
            ConditionalOrExpression::Expression(consequence)
        } else {
            ConditionalOrExpression::Conditional(
                ConditionalExpression::new(condition, consequence, alternative, kind),
            )
        },
    }
}

/// `array[index]` as an expression of the family of the array's elements.
pub open spec fn typed_select<T>(array: ArrayExpression<T>, index: UExpression<T>) -> TypedExpression<T> {
    let select = SelectExpression::new(array, index);
    match *array.ty.ty {
        Type::FieldElement => TypedExpression::FieldElement(FieldElementExpression::Select(select)),
        Type::Boolean => TypedExpression::Boolean(BooleanExpression::Select(select)),
        Type::Uint(bitwidth) => TypedExpression::Uint(
            UExpression { bitwidth, inner: UExpressionInner::Select(select) },
        ),
        Type::Array(ty) => TypedExpression::Array(
            ArrayExpression { ty, inner: ArrayExpressionInner::Select(select) },
        ),
        Type::Struct(ty) => TypedExpression::Struct(
            StructExpression { ty, inner: StructExpressionInner::Select(select) },
        ),
        Type::Tuple(ty) => TypedExpression::Tuple(
            TupleExpression { ty, inner: TupleExpressionInner::Select(select) },
        ),
    }
}

pub fn make_typed_select<T: Field>(array: ArrayExpression<T>, index: UExpression<T>) -> (r:
    TypedExpression<T>)
    ensures
        r == typed_select(array, index),
{
    let ty = (*array.ty.ty).clone();
    let select = SelectExpression::new(array, index);
    match ty {
        Type::FieldElement => TypedExpression::FieldElement(FieldElementExpression::Select(select)),
        Type::Boolean => TypedExpression::Boolean(BooleanExpression::Select(select)),
        Type::Uint(bitwidth) => TypedExpression::Uint(
            UExpression { bitwidth, inner: UExpressionInner::Select(select) },
        ),
        Type::Array(ty) => TypedExpression::Array(
            ArrayExpression { ty, inner: ArrayExpressionInner::Select(select) },
        ),
        Type::Struct(ty) => TypedExpression::Struct(
            StructExpression { ty, inner: StructExpressionInner::Select(select) },
        ),
        Type::Tuple(ty) => TypedExpression::Tuple(
            TupleExpression { ty, inner: TupleExpressionInner::Select(select) },
        ),
    }
}

/// The `n`-th element of an array literal, counting through its spreads: a
/// spread of known length stands for that many selections from its array. A
/// spread of unknown length ends the count.
pub open spec fn expression_at<T>(l: List<TypedExpressionOrSpread<T>>, n: nat) -> Option<
    TypedExpression<T>,
>
    decreases l,
{
    match l {
        List::Nil => None,
        List::Cons(node) => match node.head {
            TypedExpressionOrSpread::Expression(e) => if n == 0 {
                Some(e)
            } else {
                expression_at(node.tail, (n - 1) as nat)
            },
            TypedExpressionOrSpread::Spread(s) => match s.array.ty.size {
                ArraySize::Constant(k) => if n < k {
                    Some(typed_select(s.array, UExpression::from_value(n as u128).annotate(UBitwidth::B32)))
                } else {
                    expression_at(node.tail, (n - k) as nat)
                },
                ArraySize::Generic(_) => None,
            },
        },
    }
}

pub fn find_expression_at<T: Field>(l: &List<TypedExpressionOrSpread<T>>, n: u128) -> (r: Option<
    TypedExpression<T>,
>)
    ensures
        r == expression_at(*l, n as nat),
    decreases *l,
{
    match l {
        List::Nil => None,
        List::Cons(node) => match &node.head {
            TypedExpressionOrSpread::Expression(e) => if n == 0 {
                Some(e.clone())
            } else {
                find_expression_at(&node.tail, n - 1)
            },
            TypedExpressionOrSpread::Spread(s) => match s.array.ty.size {
                ArraySize::Constant(k) => if n < k as u128 {
                    Some(
                        make_typed_select(
                            s.array.clone(),
                            UExpression::from_value(n).annotate(UBitwidth::B32),
                        ),
                    )
                } else {
                    find_expression_at(&node.tail, n - k as u128)
                },
                ArraySize::Generic(_) => None,
            },
        },
    }
}

/// `array[index]`, for an expression of `family`. Where the length of the
/// array is known and both are literals, the index has to be below the
/// length, and the element at the index takes the place of the selection.
pub open spec fn folded_select<T>(array: ArrayExpression<T>, index: UExpression<T>, family: Family) -> Result<
    SelectOrExpression<T>,
    Error,
> {
    match array.ty.size {
        ArraySize::Constant(size) => match (array.inner, index.inner) {
            (ArrayExpressionInner::Value(v), UExpressionInner::Value(n)) => if n.value < size {
                match expression_at(v.value, n.value as nat) {
                    Some(e) => if e.family() == family {
                        Ok(SelectOrExpression::Expression(e))
                    } else {
                        Ok(
                            SelectOrExpression::Select(
                                SelectExpression::new(
                                    array,
                                    index.inner.annotate(UBitwidth::B32),
                                ),
                            ),
                        )
                    },
                    None => Ok(
                        SelectOrExpression::Select(
                            SelectExpression::new(array, index.inner.annotate(UBitwidth::B32)),
                        ),
                    ),
                }
            } else {
                Err(Error::OutOfBounds(n.value, size as u128))
            },
            (ArrayExpressionInner::Identifier(_), UExpressionInner::Value(n)) => Ok(
                SelectOrExpression::Select(
                    SelectExpression::new(
                        array,
                        UExpression::from_value(n.value).annotate(UBitwidth::B32),
                    ),
                ),
            ),
            (_, i) => Ok(
                SelectOrExpression::Select(
                    SelectExpression::new(array, i.annotate(UBitwidth::B32)),
                ),
            ),
        },
        ArraySize::Generic(_) => Ok(SelectOrExpression::Select(SelectExpression::new(array, index))),
    }
}

pub fn fold_select<T: Field>(array: ArrayExpression<T>, index: UExpression<T>, family: Family) -> (r:
    Result<SelectOrExpression<T>, Error>)
    ensures
        r == folded_select(array, index, family),
        r matches Ok(SelectOrExpression::Expression(e)) ==> e.family() == family,
{
    match array.ty.size {
        ArraySize::Constant(size) => {
            let found = match (&array.inner, &index.inner) {
                (ArrayExpressionInner::Value(v), UExpressionInner::Value(n)) => {
                    if n.value < size as u128 {
                        match find_expression_at(&v.value, n.value) {
                            Some(e) => if e.family() == family {
                                Some(e)
                            } else {
                                None
                            },
                            None => None,
                        }
                    } else {
                        return Err(Error::OutOfBounds(n.value, size as u128));
                    }
                },
                _ => None,
            };
            match found {
                Some(e) => Ok(SelectOrExpression::Expression(e)),
                None => {
                    let is_identifier = match &array.inner {
                        ArrayExpressionInner::Identifier(_) => true,
                        _ => false,
                    };
                    let UExpression { bitwidth, inner } = index;
                    let i = match inner {
                        UExpressionInner::Value(n) => if is_identifier {
                            UExpression::from_value(n.value)
                        } else {
                            UExpressionInner::Value(n)
                        },
                        i => i,
                    };
                    Ok(
                        SelectOrExpression::Select(
                            SelectExpression::new(array, i.annotate(UBitwidth::B32)),
                        ),
                    )
                },
            }
        },
        ArraySize::Generic(_) => Ok(SelectOrExpression::Select(SelectExpression::new(array, index))),
    }
}

/// The value that a struct literal gives to the member `id`: the value at
/// the position that `id` has among the members of the struct type.
pub open spec fn member_value<T>(
    members: List<StructMember>,
    values: List<TypedExpression<T>>,
    id: u64,
) -> Option<TypedExpression<T>>
    decreases members,
{
    match (members, values) {
        (List::Cons(m), List::Cons(v)) => if m.head.id == id {
            Some(v.head)
        } else {
            member_value(m.tail, v.tail, id)
        },
        _ => None,
    }
}

pub fn find_member_value<T: Field>(
    members: &List<StructMember>,
    values: &List<TypedExpression<T>>,
    id: u64,
) -> (r: Option<TypedExpression<T>>)
    ensures
        r == member_value(*members, *values, id),
    decreases *members,
{
    match (members, values) {
        (List::Cons(m), List::Cons(v)) => if m.head.id == id {
            Some(v.head.clone())
        } else {
            find_member_value(&m.tail, &v.tail, id)
        },
        _ => None,
    }
}

/// `struc.id`, for an expression of `family`: the member of a literal takes
/// the place of the access.
pub open spec fn folded_member<T>(struc: StructExpression<T>, id: u64, family: Family) -> MemberOrExpression<T> {
    match struc.inner {
        StructExpressionInner::Value(v) => match member_value(struc.ty.members, v.value, id) {
            Some(e) => if e.family() == family {
                MemberOrExpression::Expression(e)
            } else {
                MemberOrExpression::Member(MemberExpression::new(struc, id))
            },
            None => MemberOrExpression::Member(MemberExpression::new(struc, id)),
        },
        _ => MemberOrExpression::Member(MemberExpression::new(struc, id)),
    }
}

pub fn fold_member<T: Field>(struc: StructExpression<T>, id: u64, family: Family) -> (r:
    MemberOrExpression<T>)
    ensures
        r == folded_member(struc, id, family),
        r matches MemberOrExpression::Expression(e) ==> e.family() == family,
{
    let found = match &struc.inner {
        StructExpressionInner::Value(v) => match find_member_value(&struc.ty.members, &v.value, id) {
            Some(e) => if e.family() == family {
                Some(e)
            } else {
                None
            },
            None => None,
        },
        _ => None,
    };
    match found {
        Some(e) => MemberOrExpression::Expression(e),
        None => MemberOrExpression::Member(MemberExpression::new(struc, id)),
    }
}

/// The expression at position `n` of a list.
pub open spec fn nth<T>(l: List<TypedExpression<T>>, n: nat) -> Option<TypedExpression<T>>
    decreases l,
{
    match l {
        List::Nil => None,
        List::Cons(node) => if n == 0 {
            Some(node.head)
        } else {
            nth(node.tail, (n - 1) as nat)
        },
    }
}

pub fn find_nth<T: Field>(l: &List<TypedExpression<T>>, n: u128) -> (r: Option<TypedExpression<T>>)
    ensures
        r == nth(*l, n as nat),
    decreases *l,
{
    match l {
        List::Nil => None,
        List::Cons(node) => if n == 0 {
            Some(node.head.clone())
        } else {
            find_nth(&node.tail, n - 1)
        },
    }
}

/// `tuple.index`, for an expression of `family`: the element of a literal
/// takes the place of the access.
pub open spec fn folded_element<T>(tuple: TupleExpression<T>, index: u32, family: Family) -> ElementOrExpression<T> {
    match tuple.inner {
        TupleExpressionInner::Value(v) => match nth(v.value, index as nat) {
            Some(e) => if e.family() == family {
                ElementOrExpression::Expression(e)
            } else {
                ElementOrExpression::Element(ElementExpression::new(tuple, index))
            },
            None => ElementOrExpression::Element(ElementExpression::new(tuple, index)),
        },
        _ => ElementOrExpression::Element(ElementExpression::new(tuple, index)),
    }
}

pub fn fold_element<T: Field>(tuple: TupleExpression<T>, index: u32, family: Family) -> (r:
    ElementOrExpression<T>)
    ensures
        r == folded_element(tuple, index, family),
        r matches ElementOrExpression::Expression(e) ==> e.family() == family,
{
    let found = match &tuple.inner {
        TupleExpressionInner::Value(v) => match find_nth(&v.value, index as u128) {
            Some(e) => if e.family() == family {
                Some(e)
            } else {
                None
            },
            None => None,
        },
        _ => None,
    };
    match found {
        Some(e) => ElementOrExpression::Expression(e),
        None => ElementOrExpression::Element(ElementExpression::new(tuple, index)),
    }
}

/// What is known of `left == right` once both sides are simplified: nothing
/// (`None`), or its value. Sides of different types are an error; the same
/// tree on both sides is equal to itself; two constants are compared in
/// canonical form.
pub open spec fn equality<T>(left: TypedExpression<T>, right: TypedExpression<T>) -> Result<
    Option<bool>,
    Error,
> {
    let t_left = left.get_type();
    let t_right = right.get_type();
    if t_left.is_concrete() && t_right.is_concrete() && t_left != t_right {
        Err(Error::Type(TypeMismatch::Comparison { left: t_left, right: t_right }))
    } else if left == right {
        Ok(Some(true))
    } else if is_constant(left) && is_constant(right) {
        Ok(Some(canonical(left) == canonical(right)))
    } else {
        Ok(None)
    }
}

pub fn decide_equality<T: Field>(left: &TypedExpression<T>, right: &TypedExpression<T>) -> (r: Result<
    Option<bool>,
    Error,
>)
    ensures
        r == equality(*left, *right),
{
    let t_left = left.get_type();
    let t_right = right.get_type();
    if t_left.concrete() && t_right.concrete() && !t_left.same(&t_right) {
        Err(Error::Type(TypeMismatch::Comparison { left: t_left, right: t_right }))
    } else if left.same(right) {
        Ok(Some(true))
    } else if left.is_constant() && right.is_constant() {
        let l = left.clone().into_canonical_constant();
        let r = right.clone().into_canonical_constant();
        Ok(Some(l.same(&r)))
    } else {
        Ok(None)
    }
}

/// Whether `e` spreads an array of length zero.
pub open spec fn is_empty_spread<T>(e: TypedExpressionOrSpread<T>) -> bool {
    e matches TypedExpressionOrSpread::Spread(s) && s.array.ty.size == ArraySize::Constant(0)
}

/// The elements of an array literal whose elements are simplified: a spread
/// over a literal gives way to the elements of that literal, and a spread
/// over an array of length zero is left out.
pub open spec fn spliced<T>(l: List<TypedExpressionOrSpread<T>>) -> List<TypedExpressionOrSpread<T>>
    decreases l,
{
    match l {
        List::Nil => List::Nil,
        List::Cons(n) => match n.head {
            TypedExpressionOrSpread::Spread(s) => match s.array.inner {
                ArrayExpressionInner::Value(v) => without_empty_spreads(v.value).spec_concat(
                    spliced(n.tail),
                ),
                _ => if is_empty_spread(n.head) {
                    spliced(n.tail)
                } else {
                    List::spec_cons(n.head, spliced(n.tail))
                },
            },
            e => List::spec_cons(e, spliced(n.tail)),
        },
    }
}

pub open spec fn without_empty_spreads<T>(l: List<TypedExpressionOrSpread<T>>) -> List<
    TypedExpressionOrSpread<T>,
>
    decreases l,
{
    match l {
        List::Nil => List::Nil,
        List::Cons(n) => if is_empty_spread(n.head) {
            without_empty_spreads(n.tail)
        } else {
            List::spec_cons(n.head, without_empty_spreads(n.tail))
        },
    }
}

pub fn check_empty_spread<T>(e: &TypedExpressionOrSpread<T>) -> (r: bool)
    ensures
        r == is_empty_spread(*e),
{
    match e {
        TypedExpressionOrSpread::Spread(s) => match s.array.ty.size {
            ArraySize::Constant(k) => k == 0,
            ArraySize::Generic(_) => false,
        },
        _ => false,
    }
}

pub fn drop_empty_spreads<T>(l: List<TypedExpressionOrSpread<T>>) -> (r: List<
    TypedExpressionOrSpread<T>,
>)
    ensures
        r == without_empty_spreads(l),
    decreases l,
{
    match l {
        List::Nil => List::Nil,
        List::Cons(n) => {
            let Node { head, tail } = *n;
            if check_empty_spread(&head) {
                drop_empty_spreads(tail)
            } else {
                List::cons(head, drop_empty_spreads(tail))
            }
        },
    }
}

pub fn splice<T>(l: List<TypedExpressionOrSpread<T>>) -> (r: List<TypedExpressionOrSpread<T>>)
    ensures
        r == spliced(l),
    decreases l,
{
    match l {
        List::Nil => List::Nil,
        List::Cons(n) => {
            let Node { head, tail } = *n;
            match head {
                TypedExpressionOrSpread::Spread(s) => {
                    let ArrayExpression { ty, inner } = s.array;
                    match inner {
                        ArrayExpressionInner::Value(v) => drop_empty_spreads(v.value).concat(
                            splice(tail),
                        ),
                        inner => {
                            let e = TypedExpressionOrSpread::Spread(
                                crate::typed::TypedSpread { array: ArrayExpression { ty, inner } },
                            );
                            if check_empty_spread(&e) {
                                splice(tail)
                            } else {
                                List::cons(e, splice(tail))
                            }
                        },
                    }
                },
                e => List::cons(e, splice(tail)),
            }
        },
    }
}

/// A value given to a member of a struct literal has to be of the member's
/// type, where both types are known in full.
pub open spec fn checked_member<T>(v: TypedExpression<T>, member: StructMember) -> Result<
    TypedExpression<T>,
    Error,
> {
    let found = v.get_type();
    if found.is_concrete() && member.ty.is_concrete() && found != member.ty {
        Err(Error::Type(TypeMismatch::StructMember { id: member.id, expected: member.ty, found }))
    } else {
        Ok(v)
    }
}

pub fn check_member<T: Field>(v: TypedExpression<T>, member: &StructMember) -> (r: Result<
    TypedExpression<T>,
    Error,
>)
    ensures
        r == checked_member(v, *member),
{
    let found = v.get_type();
    if found.concrete() && member.ty.concrete() && !found.same(&member.ty) {
        Err(
            Error::Type(
                TypeMismatch::StructMember { id: member.id, expected: member.ty.clone(), found },
            ),
        )
    } else {
        Ok(v)
    }
}

/// A value given to an element of a tuple literal has to be of the element's
/// type, where both types are known in full.
pub open spec fn checked_element<T>(v: TypedExpression<T>, index: u32, ty: Type) -> Result<
    TypedExpression<T>,
    Error,
> {
    let found = v.get_type();
    if found.is_concrete() && ty.is_concrete() && found != ty {
        Err(Error::Type(TypeMismatch::TupleElement { index, expected: ty, found }))
    } else {
        Ok(v)
    }
}

pub fn check_element<T: Field>(v: TypedExpression<T>, index: u32, ty: &Type) -> (r: Result<
    TypedExpression<T>,
    Error,
>)
    ensures
        r == checked_element(v, index, *ty),
{
    let found = v.get_type();
    if found.concrete() && ty.concrete() && !found.same(ty) {
        Err(Error::Type(TypeMismatch::TupleElement { index, expected: ty.clone(), found }))
    } else {
        Ok(v)
    }
}

} // verus!
