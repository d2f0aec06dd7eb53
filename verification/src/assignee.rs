//! The places that an assignment can write to, and the constants behind them.
//!
//! A place is a variable or a path into one: an element of an array, a member
//! of a struct, an element of a tuple. Where the variable at the root of the
//! path has a known value and every step of the path is a literal, the place
//! stands for a part of that value.

use crate::aggregate_rules::{find_member_value, member_value};
use crate::error::Error;
use crate::expressions::ValueExpression;
use crate::field::Field;
use crate::folding::{folded_uint, Known};
use crate::list::{List, Node};
use crate::propagation::Propagator;
use crate::typed::{
    ArrayExpression, ArrayExpressionInner, StructExpression, StructExpressionInner,
    TupleExpression, TupleExpressionInner, TypedAssignee, TypedExpression,
    TypedExpressionOrSpread, UExpressionInner, Variable,
};
use crate::types::{StructMember, Type};
use vstd::prelude::*;

verus! {

/// The variable at the root of a place.
pub open spec fn root<T>(a: TypedAssignee<T>) -> Variable
    decreases a,
{
    match a {
        TypedAssignee::Identifier(v) => v,
        TypedAssignee::Select(base, _) => root(*base),
        TypedAssignee::Member(base, _) => root(*base),
        TypedAssignee::Element(base, _) => root(*base),
    }
}

/// The type of the member `id` among `members`.
pub open spec fn member_type(members: List<StructMember>, id: u64) -> Option<Type>
    decreases members,
{
    match members {
        List::Nil => None,
        List::Cons(n) => if n.head.id == id {
            Some(n.head.ty)
        } else {
            member_type(n.tail, id)
        },
    }
}

/// `values` with the value of the member `id` replaced by `new`, where
/// `members` are the members that the values belong to, in order.
pub open spec fn with_member_value<T>(
    members: List<StructMember>,
    values: List<TypedExpression<T>>,
    id: u64,
    new: TypedExpression<T>,
) -> List<TypedExpression<T>>
    decreases members,
{
    match (members, values) {
        (List::Cons(m), List::Cons(v)) => if m.head.id == id {
            List::spec_cons(new, v.tail)
        } else {
            List::spec_cons(v.head, with_member_value(m.tail, v.tail, id, new))
        },
        _ => values,
    }
}

/// The type of what a place holds, where the types along the path fit the
/// steps of the path.
pub open spec fn assignee_type<T>(a: TypedAssignee<T>) -> Option<Type>
    decreases a,
{
    match a {
        TypedAssignee::Identifier(v) => Some(v.ty),
        TypedAssignee::Select(base, _) => match assignee_type(*base) {
            Some(Type::Array(t)) => Some(*t.ty),
            _ => None,
        },
        TypedAssignee::Member(base, id) => match assignee_type(*base) {
            Some(Type::Struct(s)) => member_type(s.members, id),
            _ => None,
        },
        TypedAssignee::Element(base, index) => match assignee_type(*base) {
            Some(Type::Tuple(t)) => t.elements.spec_nth(index as nat),
            _ => None,
        },
    }
}

/// The place with the indices along its path simplified.
pub open spec fn folded_assignee<T: Field>(c: Known<T>, a: TypedAssignee<T>) -> Result<
    TypedAssignee<T>,
    Error,
>
    decreases a,
{
    match a {
        TypedAssignee::Identifier(v) => Ok(TypedAssignee::Identifier(v)),
        TypedAssignee::Select(base, index) => match folded_assignee(c, *base) {
            Err(e) => Err(e),
            Ok(base) => match folded_uint(c, *index) {
                Err(e) => Err(e),
                Ok(index) => Ok(TypedAssignee::Select(Box::new(base), Box::new(index))),
            },
        },
        TypedAssignee::Member(base, id) => match folded_assignee(c, *base) {
            Err(e) => Err(e),
            Ok(base) => Ok(TypedAssignee::Member(Box::new(base), id)),
        },
        TypedAssignee::Element(base, index) => match folded_assignee(c, *base) {
            Err(e) => Err(e),
            Ok(base) => Ok(TypedAssignee::Element(Box::new(base), index)),
        },
    }
}

/// The part of `value` that one step of a path leads to, if the step can be
/// taken: `value` is a literal of the kind that the step asks for, and it
/// has the position. `holder` is the place that holds `value`.
pub open spec fn part<T>(
    holder: TypedAssignee<T>,
    value: TypedExpression<T>,
    step: TypedAssignee<T>,
) -> Option<TypedExpression<T>> {
    match step {
        TypedAssignee::Identifier(_) => None,
        TypedAssignee::Select(_, index) => match (value, index.inner) {
            (TypedExpression::Array(a), UExpressionInner::Value(n)) => match a.inner {
                ArrayExpressionInner::Value(v) => match v.value.spec_nth(n.value as nat) {
                    Some(TypedExpressionOrSpread::Expression(e)) => Some(e),
                    _ => None,
                },
                _ => None,
            },
            _ => None,
        },
        TypedAssignee::Member(_, id) => match (value, assignee_type(holder)) {
            (TypedExpression::Struct(s), Some(Type::Struct(ty))) => match s.inner {
                StructExpressionInner::Value(v) => member_value(ty.members, v.value, id),
                _ => None,
            },
            _ => None,
        },
        TypedAssignee::Element(_, index) => match value {
            TypedExpression::Tuple(t) => match t.inner {
                TupleExpressionInner::Value(v) => v.value.spec_nth(index as nat),
                _ => None,
            },
            _ => None,
        },
    }
}

/// `value` with the part that one step of a path leads to replaced by `new`.
/// It is used only where [`part`] finds that part.
pub open spec fn with_part<T>(
    holder: TypedAssignee<T>,
    value: TypedExpression<T>,
    step: TypedAssignee<T>,
    new: TypedExpression<T>,
) -> TypedExpression<T> {
    match step {
        TypedAssignee::Identifier(_) => new,
        TypedAssignee::Select(_, index) => match (value, index.inner) {
            (TypedExpression::Array(a), UExpressionInner::Value(n)) => match a.inner {
                ArrayExpressionInner::Value(v) => TypedExpression::Array(
                    ArrayExpression {
                        ty: a.ty,
                        inner: ArrayExpressionInner::Value(
                            ValueExpression {
                                span: v.span,
                                value: v.value.spec_update(
                                    n.value as nat,
                                    TypedExpressionOrSpread::Expression(new),
                                ),
                            },
                        ),
                    },
                ),
                _ => value,
            },
            _ => value,
        },
        TypedAssignee::Member(_, id) => match (value, assignee_type(holder)) {
            (TypedExpression::Struct(s), Some(Type::Struct(ty))) => match s.inner {
                StructExpressionInner::Value(v) => TypedExpression::Struct(
                    StructExpression {
                        ty: s.ty,
                        inner: StructExpressionInner::Value(
                            ValueExpression {
                                span: v.span,
                                value: with_member_value(ty.members, v.value, id, new),
                            },
                        ),
                    },
                ),
                _ => value,
            },
            _ => value,
        },
        TypedAssignee::Element(_, index) => match value {
            TypedExpression::Tuple(t) => match t.inner {
                TupleExpressionInner::Value(v) => TypedExpression::Tuple(
                    TupleExpression {
                        ty: t.ty,
                        inner: TupleExpressionInner::Value(
                            ValueExpression {
                                span: v.span,
                                value: v.value.spec_update(index as nat, new),
                            },
                        ),
                    },
                ),
                _ => value,
            },
            _ => value,
        },
    }
}

/// The place that `a` is a part of, for a place that is not a variable.
pub open spec fn holder<T>(a: TypedAssignee<T>) -> TypedAssignee<T> {
    match a {
        TypedAssignee::Identifier(_) => a,
        TypedAssignee::Select(base, _) => *base,
        TypedAssignee::Member(base, _) => *base,
        TypedAssignee::Element(base, _) => *base,
    }
}

/// The constant that the place stands for, if the variable at its root is
/// known and every step of its path can be taken.
pub open spec fn resolved<T>(c: Known<T>, a: TypedAssignee<T>) -> Option<TypedExpression<T>>
    decreases a,
{
    match a {
        TypedAssignee::Identifier(v) => if c.contains_key(v.id.id) {
            Some(c[v.id.id])
        } else {
            None
        },
        TypedAssignee::Select(base, _) => match resolved(c, *base) {
            Some(value) => part(*base, value, a),
            None => None,
        },
        TypedAssignee::Member(base, _) => match resolved(c, *base) {
            Some(value) => part(*base, value, a),
            None => None,
        },
        TypedAssignee::Element(base, _) => match resolved(c, *base) {
            Some(value) => part(*base, value, a),
            None => None,
        },
    }
}

/// The value of the variable at the root of `a` once `new` has been written
/// to the place `a`. It is used only where [`resolved`] finds the place.
pub open spec fn replaced<T>(c: Known<T>, a: TypedAssignee<T>, new: TypedExpression<T>) -> TypedExpression<T>
    decreases a,
{
    match a {
        TypedAssignee::Identifier(_) => new,
        TypedAssignee::Select(base, _) => match resolved(c, *base) {
            Some(value) => replaced(c, *base, with_part(*base, value, a, new)),
            None => new,
        },
        TypedAssignee::Member(base, _) => match resolved(c, *base) {
            Some(value) => replaced(c, *base, with_part(*base, value, a, new)),
            None => new,
        },
        TypedAssignee::Element(base, _) => match resolved(c, *base) {
            Some(value) => replaced(c, *base, with_part(*base, value, a, new)),
            None => new,
        },
    }
}

impl<T: Field> TypedAssignee<T> {
    /// The variable at the root of the place.
    pub fn root(&self) -> (r: &Variable)
        ensures
            *r == root(*self),
        decreases *self,
    {
        match self {
            TypedAssignee::Identifier(v) => v,
            TypedAssignee::Select(base, _) => base.root(),
            TypedAssignee::Member(base, _) => base.root(),
            TypedAssignee::Element(base, _) => base.root(),
        }
    }

    /// The type of what the place holds.
    pub fn get_type(&self) -> (r: Option<Type>)
        ensures
            r == assignee_type(*self),
        decreases *self,
    {
        match self {
            TypedAssignee::Identifier(v) => Some(v.ty.clone()),
            TypedAssignee::Select(base, _) => match base.get_type() {
                Some(Type::Array(t)) => Some(*t.ty),
                _ => None,
            },
            TypedAssignee::Member(base, id) => match base.get_type() {
                Some(Type::Struct(s)) => find_member_type(&s.members, *id),
                _ => None,
            },
            TypedAssignee::Element(base, index) => match base.get_type() {
                Some(Type::Tuple(t)) => match t.elements.nth(*index as u128) {
                    Some(ty) => Some(ty.clone()),
                    None => None,
                },
                _ => None,
            },
        }
    }
}

/// Takes the part of `value` that the last step of the path `step` leads
/// to, where `holder` is the place that holds `value`.
pub fn take_part<T: Field>(
    holder: &TypedAssignee<T>,
    value: TypedExpression<T>,
    step: &TypedAssignee<T>,
) -> (r: Option<TypedExpression<T>>)
    ensures
        r == part(*holder, value, *step),
{
    match step {
        TypedAssignee::Identifier(_) => None,
        TypedAssignee::Select(_, index) => match (value, &index.inner) {
            (TypedExpression::Array(a), UExpressionInner::Value(n)) => match &a.inner {
                ArrayExpressionInner::Value(v) => match v.value.nth(n.value) {
                    Some(TypedExpressionOrSpread::Expression(e)) => Some(e.clone()),
                    _ => None,
                },
                _ => None,
            },
            _ => None,
        },
        TypedAssignee::Member(_, id) => match (value, holder.get_type()) {
            (TypedExpression::Struct(s), Some(Type::Struct(ty))) => match &s.inner {
                StructExpressionInner::Value(v) => find_member_value(&ty.members, &v.value, *id),
                _ => None,
            },
            _ => None,
        },
        TypedAssignee::Element(_, index) => match value {
            TypedExpression::Tuple(t) => match &t.inner {
                TupleExpressionInner::Value(v) => match v.value.nth(*index as u128) {
                    Some(e) => Some(e.clone()),
                    None => None,
                },
                _ => None,
            },
            _ => None,
        },
    }
}

/// Puts `new` in the place of the part of `value` that the last step of the
/// path `step` leads to.
pub fn put_part<T: Field>(
    holder: &TypedAssignee<T>,
    value: TypedExpression<T>,
    step: &TypedAssignee<T>,
    new: TypedExpression<T>,
) -> (r: TypedExpression<T>)
    ensures
        r == with_part(*holder, value, *step, new),
{
    match step {
        TypedAssignee::Identifier(_) => new,
        TypedAssignee::Select(_, index) => match &index.inner {
            UExpressionInner::Value(n) => match value {
                TypedExpression::Array(a) => {
                    let ArrayExpression { ty, inner } = a;
                    match inner {
                        ArrayExpressionInner::Value(v) => TypedExpression::Array(
                            ArrayExpression {
                                ty,
                                inner: ArrayExpressionInner::Value(
                                    ValueExpression {
                                        span: v.span,
                                        value: v.value.update(
                                            n.value,
                                            TypedExpressionOrSpread::Expression(new),
                                        ),
                                    },
                                ),
                            },
                        ),
                        inner => TypedExpression::Array(ArrayExpression { ty, inner }),
                    }
                },
                value => value,
            },
            _ => value,
        },
        TypedAssignee::Member(_, id) => match holder.get_type() {
            Some(Type::Struct(ty)) => match value {
                TypedExpression::Struct(s) => {
                    let StructExpression { ty: own, inner } = s;
                    match inner {
                        StructExpressionInner::Value(v) => TypedExpression::Struct(
                            StructExpression {
                                ty: own,
                                inner: StructExpressionInner::Value(
                                    ValueExpression {
                                        span: v.span,
                                        value: replace_member_value(
                                            &ty.members,
                                            v.value,
                                            *id,
                                            new,
                                        ),
                                    },
                                ),
                            },
                        ),
                        inner => TypedExpression::Struct(StructExpression { ty: own, inner }),
                    }
                },
                value => value,
            },
            _ => value,
        },
        TypedAssignee::Element(_, index) => match value {
            TypedExpression::Tuple(t) => {
                let TupleExpression { ty, inner } = t;
                match inner {
                    TupleExpressionInner::Value(v) => TypedExpression::Tuple(
                        TupleExpression {
                            ty,
                            inner: TupleExpressionInner::Value(
                                ValueExpression {
                                    span: v.span,
                                    value: v.value.update(*index as u128, new),
                                },
                            ),
                        },
                    ),
                    inner => TypedExpression::Tuple(TupleExpression { ty, inner }),
                }
            },
            value => value,
        },
    }
}

impl<T: Field> Propagator<T> {
    /// Simplifies the indices along the path of a place.
    pub fn fold_assignee(&self, a: TypedAssignee<T>) -> (r: Result<TypedAssignee<T>, Error>)
        ensures
            r == folded_assignee(self.known(), a),
        decreases a,
    {
        match a {
            TypedAssignee::Identifier(v) => Ok(TypedAssignee::Identifier(v)),
            TypedAssignee::Select(base, index) => {
                let base = self.fold_assignee(*base)?;
                let index = self.fold_uint_expression(*index)?;
                Ok(TypedAssignee::Select(Box::new(base), Box::new(index)))
            },
            TypedAssignee::Member(base, id) => {
                let base = self.fold_assignee(*base)?;
                Ok(TypedAssignee::Member(Box::new(base), id))
            },
            TypedAssignee::Element(base, index) => {
                let base = self.fold_assignee(*base)?;
                Ok(TypedAssignee::Element(Box::new(base), index))
            },
        }
    }

    /// The constant that the place stands for, if there is one.
    pub fn resolve(&self, a: &TypedAssignee<T>) -> (r: Option<TypedExpression<T>>)
        ensures
            r == resolved(self.known(), *a),
        decreases *a,
    {
        match a {
            TypedAssignee::Identifier(v) => match self.constants.get(&v.id.id) {
                Some(e) => Some(e.clone()),
                None => None,
            },
            TypedAssignee::Select(base, _) => match self.resolve(base) {
                Some(value) => take_part(base, value, a),
                None => None,
            },
            TypedAssignee::Member(base, _) => match self.resolve(base) {
                Some(value) => take_part(base, value, a),
                None => None,
            },
            TypedAssignee::Element(base, _) => match self.resolve(base) {
                Some(value) => take_part(base, value, a),
                None => None,
            },
        }
    }

    /// The constant that the place stands for together with the variable at
    /// the root of the place, or that variable alone where the place stands
    /// for no constant.
    pub fn try_get_constant_mut(&self, a: &TypedAssignee<T>) -> (r: Result<
        (Variable, TypedExpression<T>),
        Variable,
    >)
        ensures
            match resolved(self.known(), *a) {
                Some(e) => r == Ok::<(Variable, TypedExpression<T>), Variable>((root(*a), e)),
                None => r == Err::<(Variable, TypedExpression<T>), Variable>(root(*a)),
            },
    {
        let v = a.root().clone();
        match self.resolve(a) {
            Some(e) => Ok((v, e)),
            None => Err(v),
        }
    }

    /// The value that the variable at the root of `a` has once `new` has
    /// been written to the place `a`.
    pub fn replace(&self, a: &TypedAssignee<T>, new: TypedExpression<T>) -> (r: TypedExpression<T>)
        ensures
            r == replaced(self.known(), *a, new),
        decreases *a,
    {
        match a {
            TypedAssignee::Identifier(_) => new,
            TypedAssignee::Select(base, _) => match self.resolve(base) {
                Some(value) => self.replace(base, put_part(base, value, a, new)),
                None => new,
            },
            TypedAssignee::Member(base, _) => match self.resolve(base) {
                Some(value) => self.replace(base, put_part(base, value, a, new)),
                None => new,
            },
            TypedAssignee::Element(base, _) => match self.resolve(base) {
                Some(value) => self.replace(base, put_part(base, value, a, new)),
                None => new,
            },
        }
    }
}

pub fn find_member_type(members: &List<StructMember>, id: u64) -> (r: Option<Type>)
    ensures
        r == member_type(*members, id),
    decreases *members,
{
    match members {
        List::Nil => None,
        List::Cons(n) => if n.head.id == id {
            Some(n.head.ty.clone())
        } else {
            find_member_type(&n.tail, id)
        },
    }
}

pub fn replace_member_value<T: Field>(
    members: &List<StructMember>,
    values: List<TypedExpression<T>>,
    id: u64,
    new: TypedExpression<T>,
) -> (r: List<TypedExpression<T>>)
    ensures
        r == with_member_value(*members, values, id, new),
    decreases *members,
{
    match members {
        List::Cons(m) => match values {
            List::Cons(v) => {
                let Node { head, tail } = *v;
                if m.head.id == id {
                    List::cons(new, tail)
                } else {
                    List::cons(head, replace_member_value(&m.tail, tail, id, new))
                }
            },
            List::Nil => List::Nil,
        },
        List::Nil => values,
    }
}

} // verus!
