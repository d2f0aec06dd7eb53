//! Constant propagation over the typed program.
//!
//! The pass walks the statements of the entry point in order and keeps the
//! values of the variables that it has found to be constant. Expressions are
//! rewritten with these values and simplified; a definition of a constant is
//! recorded and not emitted.

use crate::aggregate_rules::{
    check_element, check_member, decide_equality, fold_conditional, fold_element,
    fold_identifier, fold_member, fold_select, splice, Constants,
};
use crate::boolean_rules;
use crate::error::Error;
use crate::expressions::{BinaryExpression, ValueExpression};
use crate::field::Field;
use crate::field_rules;
use crate::folding::{
    folded_array, folded_array_inner, folded_boolean, folded_element_expression, folded_elements,
    folded_expression, folded_field, folded_member_expression, folded_members, folded_operands,
    folded_select_expression, folded_struct, folded_struct_inner, folded_tuple,
    folded_tuple_elements, folded_tuple_inner, folded_uint, folded_uint_inner,
};
use crate::list::{List, Node};
use crate::outcome::{
    array_from_conditional, array_from_element, array_from_identifier, array_from_member,
    array_from_select, boolean_from_conditional, boolean_from_element, boolean_from_identifier,
    boolean_from_member, boolean_from_select, field_from_conditional, field_from_element,
    field_from_identifier, field_from_member, field_from_select, struct_from_conditional,
    struct_from_element, struct_from_identifier, struct_from_member, struct_from_select,
    tuple_from_conditional, tuple_from_element, tuple_from_identifier, tuple_from_member,
    tuple_from_select, uint_from_conditional, uint_from_element, uint_from_identifier,
    uint_from_member, uint_from_select,
};
use crate::typed::{
    ArrayExpression, ArrayExpressionInner, BooleanExpression, ElementExpression,
    ElementOrExpression, Family, FieldElementExpression, MemberExpression, MemberOrExpression,
    SelectExpression, SelectOrExpression, StructExpression, StructExpressionInner,
    TupleExpression, TupleExpressionInner, TypedExpression, TypedExpressionOrSpread, TypedSpread,
    UExpression, UExpressionInner,
};
use crate::assignee::{resolved, root};
use crate::constant::{check_expressions_constant, is_constant};
use crate::embed::evaluate;
use crate::error::TypeMismatch;
use crate::statements::{
    assignment_error, declaration_single_assignment, declarations_single_assignment, flushed,
    folded_call, folded_declaration, folded_declarations, folded_definition,
    folded_expressions, folded_function, folded_modules, folded_program, folded_statement,
    folded_statements, modules_single_assignment, one, program_single_assignment, propagated,
    rebinds, single_assignment, stored,
};
use crate::typed::{
    DefinitionRhs, EmbedCall, TypedAssignee, TypedFunction, TypedFunctionSymbol,
    TypedFunctionSymbolDeclaration, TypedModule, TypedModuleEntry, TypedProgram, TypedStatement,
    Variable, MAIN,
};
use crate::types::{StructMember, Type, UBitwidth};
use crate::uint_rules;
use std::collections::HashMap;
use vstd::pervasive::unreached;
use vstd::prelude::*;

verus! {

/// The state of the pass: the variables known to be constant, each with its
/// value in canonical form.
pub struct Propagator<T> {
    pub constants: Constants<T>,
}

impl<T: Field> Propagator<T> {
    /// A pass that starts from the given known values.
    pub fn with_constants(constants: Constants<T>) -> (r: Self)
        ensures
            r.constants == constants,
    {
        Propagator { constants }
    }

    /// The known values, as a map from the number of a variable.
    pub open spec fn known(&self) -> Map<u64, TypedExpression<T>> {
        self.constants@
    }

    pub fn fold_expression(&self, e: TypedExpression<T>) -> (r: Result<TypedExpression<T>, Error>)
        ensures
            r == folded_expression(self.known(), e),
        decreases e,
    {
        match e {
            TypedExpression::Boolean(b) => Ok(
                TypedExpression::Boolean(self.fold_boolean_expression(b)?),
            ),
            TypedExpression::FieldElement(f) => Ok(
                TypedExpression::FieldElement(self.fold_field_expression(f)?),
            ),
            TypedExpression::Uint(u) => Ok(TypedExpression::Uint(self.fold_uint_expression(u)?)),
            TypedExpression::Array(a) => Ok(TypedExpression::Array(self.fold_array_expression(a)?)),
            TypedExpression::Struct(s) => Ok(
                TypedExpression::Struct(self.fold_struct_expression(s)?),
            ),
            TypedExpression::Tuple(t) => Ok(TypedExpression::Tuple(self.fold_tuple_expression(t)?)),
        }
    }

    pub fn fold_select_expression(&self, s: SelectExpression<T>, family: Family) -> (r: Result<
        SelectOrExpression<T>,
        Error,
    >)
        ensures
            r == folded_select_expression(self.known(), s, family),
            r matches Ok(SelectOrExpression::Expression(e)) ==> e.family() == family,
        decreases s,
    {
        let array = self.fold_array_expression(*s.array)?;
        let index = self.fold_uint_expression(*s.index)?;
        fold_select(array, index, family)
    }

    pub fn fold_member_expression(&self, m: MemberExpression<T>, family: Family) -> (r: Result<
        MemberOrExpression<T>,
        Error,
    >)
        ensures
            r == folded_member_expression(self.known(), m, family),
            r matches Ok(MemberOrExpression::Expression(e)) ==> e.family() == family,
        decreases m,
    {
        let struc = self.fold_struct_expression(*m.struc)?;
        Ok(fold_member(struc, m.id, family))
    }

    pub fn fold_element_expression(&self, m: ElementExpression<T>, family: Family) -> (r: Result<
        ElementOrExpression<T>,
        Error,
    >)
        ensures
            r == folded_element_expression(self.known(), m, family),
            r matches Ok(ElementOrExpression::Expression(e)) ==> e.family() == family,
        decreases m,
    {
        let tuple = self.fold_tuple_expression(*m.tuple)?;
        Ok(fold_element(tuple, m.index, family))
    }

    pub fn fold_field_expression(&self, e: FieldElementExpression<T>) -> (r: Result<
        FieldElementExpression<T>,
        Error,
    >)
        ensures
            r == folded_field(self.known(), e),
        decreases e,
    {
        match e {
            FieldElementExpression::Number(n) => Ok(FieldElementExpression::Number(n)),
            FieldElementExpression::Identifier(id) => Ok(
                field_from_identifier(fold_identifier(&self.constants, id, Family::FieldElement)),
            ),
            FieldElementExpression::Add(b) => {
                let l = self.fold_field_expression(*b.left)?;
                let r = self.fold_field_expression(*b.right)?;
                Ok(field_rules::fold_add(b.span, l, r))
            },
            FieldElementExpression::Sub(b) => {
                let l = self.fold_field_expression(*b.left)?;
                let r = self.fold_field_expression(*b.right)?;
                Ok(field_rules::fold_sub(b.span, l, r))
            },
            FieldElementExpression::Mult(b) => {
                let l = self.fold_field_expression(*b.left)?;
                let r = self.fold_field_expression(*b.right)?;
                Ok(field_rules::fold_mult(b.span, l, r))
            },
            FieldElementExpression::Div(b) => {
                let l = self.fold_field_expression(*b.left)?;
                let r = self.fold_field_expression(*b.right)?;
                Ok(field_rules::fold_div(b.span, l, r))
            },
            FieldElementExpression::Pow(b) => {
                let l = self.fold_field_expression(*b.left)?;
                let r = self.fold_uint_expression(*b.right)?;
                field_rules::fold_pow(l, r)
            },
            FieldElementExpression::Neg(u) => {
                let e = self.fold_field_expression(*u.inner)?;
                Ok(field_rules::fold_neg(e))
            },
            FieldElementExpression::Pos(u) => {
                let e = self.fold_field_expression(*u.inner)?;
                Ok(field_rules::fold_pos(e))
            },
            FieldElementExpression::Conditional(x) => {
                let condition = self.fold_boolean_expression(*x.condition)?;
                let consequence = self.fold_field_expression(*x.consequence)?;
                let alternative = self.fold_field_expression(*x.alternative)?;
                let same = consequence.same(&alternative);
                Ok(
                    field_from_conditional(
                        fold_conditional(condition, consequence, alternative, x.kind, same),
                    ),
                )
            },
            FieldElementExpression::Select(s) => Ok(
                field_from_select(self.fold_select_expression(s, Family::FieldElement)?),
            ),
            FieldElementExpression::Member(m) => Ok(
                field_from_member(self.fold_member_expression(m, Family::FieldElement)?),
            ),
            FieldElementExpression::Element(m) => Ok(
                field_from_element(self.fold_element_expression(m, Family::FieldElement)?),
            ),
        }
    }

    /// Simplifies `left == right`, both sides simplified already. The node to
    /// fall back on is made by the caller from the two sides.
    pub fn fold_eq_expression(
        &self,
        left: TypedExpression<T>,
        right: TypedExpression<T>,
    ) -> (r: Result<Result<bool, (TypedExpression<T>, TypedExpression<T>)>, Error>)
        ensures
            match crate::aggregate_rules::equality(left, right) {
                Err(e) => r == Err::<Result<bool, (TypedExpression<T>, TypedExpression<T>)>, Error>(e),
                Ok(Some(v)) => r == Ok::<Result<bool, (TypedExpression<T>, TypedExpression<T>)>, Error>(Ok(v)),
                Ok(None) => r == Ok::<Result<bool, (TypedExpression<T>, TypedExpression<T>)>, Error>(Err((left, right))),
            },
    {
        match decide_equality(&left, &right)? {
            Some(v) => Ok(Ok(v)),
            None => Ok(Err((left, right))),
        }
    }

    pub fn fold_boolean_expression(&self, e: BooleanExpression<T>) -> (r: Result<
        BooleanExpression<T>,
        Error,
    >)
        ensures
            r == folded_boolean(self.known(), e),
        decreases e,
    {
        match e {
            BooleanExpression::Value(v) => Ok(BooleanExpression::Value(v)),
            BooleanExpression::Identifier(id) => Ok(
                boolean_from_identifier(fold_identifier(&self.constants, id, Family::Boolean)),
            ),
            BooleanExpression::FieldLt(b) => {
                let l = self.fold_field_expression(*b.left)?;
                let r = self.fold_field_expression(*b.right)?;
                Ok(boolean_rules::fold_field_lt(l, r))
            },
            BooleanExpression::FieldLe(b) => {
                let l = self.fold_field_expression(*b.left)?;
                let r = self.fold_field_expression(*b.right)?;
                Ok(boolean_rules::fold_field_le(l, r))
            },
            BooleanExpression::UintLt(b) => {
                let l = self.fold_uint_expression(*b.left)?;
                let r = self.fold_uint_expression(*b.right)?;
                Ok(boolean_rules::fold_uint_lt(l, r))
            },
            BooleanExpression::UintLe(b) => {
                let l = self.fold_uint_expression(*b.left)?;
                let r = self.fold_uint_expression(*b.right)?;
                Ok(boolean_rules::fold_uint_le(l, r))
            },
            BooleanExpression::FieldEq(b) => {
                let l = self.fold_field_expression(*b.left)?;
                let r = self.fold_field_expression(*b.right)?;
                match self.fold_eq_expression(
                    TypedExpression::FieldElement(l),
                    TypedExpression::FieldElement(r),
                )? {
                    Ok(v) => Ok(BooleanExpression::from_value(v)),
                    Err((TypedExpression::FieldElement(l), TypedExpression::FieldElement(r))) => Ok(
                        BooleanExpression::FieldEq(BinaryExpression::new(l, r)),
                    ),
                    Err(_) => unreached(),
                }
            },
            BooleanExpression::BoolEq(b) => {
                let l = self.fold_boolean_expression(*b.left)?;
                let r = self.fold_boolean_expression(*b.right)?;
                match self.fold_eq_expression(
                    TypedExpression::Boolean(l),
                    TypedExpression::Boolean(r),
                )? {
                    Ok(v) => Ok(BooleanExpression::from_value(v)),
                    Err((TypedExpression::Boolean(l), TypedExpression::Boolean(r))) => Ok(
                        BooleanExpression::BoolEq(BinaryExpression::new(l, r)),
                    ),
                    Err(_) => unreached(),
                }
            },
            BooleanExpression::ArrayEq(b) => {
                let l = self.fold_array_expression(*b.left)?;
                let r = self.fold_array_expression(*b.right)?;
                match self.fold_eq_expression(
                    TypedExpression::Array(l),
                    TypedExpression::Array(r),
                )? {
                    Ok(v) => Ok(BooleanExpression::from_value(v)),
                    Err((TypedExpression::Array(l), TypedExpression::Array(r))) => Ok(
                        BooleanExpression::ArrayEq(BinaryExpression::new(l, r)),
                    ),
                    Err(_) => unreached(),
                }
            },
            BooleanExpression::StructEq(b) => {
                let l = self.fold_struct_expression(*b.left)?;
                let r = self.fold_struct_expression(*b.right)?;
                match self.fold_eq_expression(
                    TypedExpression::Struct(l),
                    TypedExpression::Struct(r),
                )? {
                    Ok(v) => Ok(BooleanExpression::from_value(v)),
                    Err((TypedExpression::Struct(l), TypedExpression::Struct(r))) => Ok(
                        BooleanExpression::StructEq(BinaryExpression::new(l, r)),
                    ),
                    Err(_) => unreached(),
                }
            },
            BooleanExpression::TupleEq(b) => {
                let l = self.fold_tuple_expression(*b.left)?;
                let r = self.fold_tuple_expression(*b.right)?;
                match self.fold_eq_expression(
                    TypedExpression::Tuple(l),
                    TypedExpression::Tuple(r),
                )? {
                    Ok(v) => Ok(BooleanExpression::from_value(v)),
                    Err((TypedExpression::Tuple(l), TypedExpression::Tuple(r))) => Ok(
                        BooleanExpression::TupleEq(BinaryExpression::new(l, r)),
                    ),
                    Err(_) => unreached(),
                }
            },
            BooleanExpression::UintEq(b) => {
                let l = self.fold_uint_expression(*b.left)?;
                let r = self.fold_uint_expression(*b.right)?;
                match self.fold_eq_expression(TypedExpression::Uint(l), TypedExpression::Uint(r))? {
                    Ok(v) => Ok(BooleanExpression::from_value(v)),
                    Err((TypedExpression::Uint(l), TypedExpression::Uint(r))) => Ok(
                        BooleanExpression::UintEq(BinaryExpression::new(l, r)),
                    ),
                    Err(_) => unreached(),
                }
            },
            BooleanExpression::Or(b) => {
                let l = self.fold_boolean_expression(*b.left)?;
                let r = self.fold_boolean_expression(*b.right)?;
                Ok(boolean_rules::fold_or(l, r))
            },
            BooleanExpression::And(b) => {
                let l = self.fold_boolean_expression(*b.left)?;
                let r = self.fold_boolean_expression(*b.right)?;
                Ok(boolean_rules::fold_and(l, r))
            },
            BooleanExpression::Not(u) => {
                let e = self.fold_boolean_expression(*u.inner)?;
                Ok(boolean_rules::fold_not(e))
            },
            BooleanExpression::Conditional(x) => {
                let condition = self.fold_boolean_expression(*x.condition)?;
                let consequence = self.fold_boolean_expression(*x.consequence)?;
                let alternative = self.fold_boolean_expression(*x.alternative)?;
                let same = consequence.same(&alternative);
                Ok(
                    boolean_from_conditional(
                        fold_conditional(condition, consequence, alternative, x.kind, same),
                    ),
                )
            },
            BooleanExpression::Select(s) => Ok(
                boolean_from_select(self.fold_select_expression(s, Family::Boolean)?),
            ),
            BooleanExpression::Member(m) => Ok(
                boolean_from_member(self.fold_member_expression(m, Family::Boolean)?),
            ),
            BooleanExpression::Element(m) => Ok(
                boolean_from_element(self.fold_element_expression(m, Family::Boolean)?),
            ),
        }
    }

    pub fn fold_uint_expression(&self, e: UExpression<T>) -> (r: Result<UExpression<T>, Error>)
        ensures
            r == folded_uint(self.known(), e),
        decreases e,
    {
        let UExpression { bitwidth, inner } = e;
        let inner = self.fold_uint_expression_inner(bitwidth, inner)?;
        Ok(UExpression { bitwidth, inner })
    }

    /// Both operands of an operator on unsigned integers, simplified.
    pub fn fold_operands<Op>(
        &self,
        b: BinaryExpression<Op, UExpression<T>, UExpression<T>, UExpression<T>>,
    ) -> (r: Result<(UExpressionInner<T>, UExpressionInner<T>), Error>)
        ensures
            r == folded_operands(self.known(), b),
        decreases b,
    {
        let l = self.fold_uint_expression(*b.left)?;
        let r = self.fold_uint_expression(*b.right)?;
        Ok((l.inner, r.inner))
    }

    pub fn fold_uint_expression_inner(&self, bitwidth: UBitwidth, e: UExpressionInner<T>) -> (r:
        Result<UExpressionInner<T>, Error>)
        ensures
            r == folded_uint_inner(self.known(), bitwidth, e),
        decreases e,
    {
        match e {
            UExpressionInner::Value(v) => Ok(UExpressionInner::Value(v)),
            UExpressionInner::Identifier(id) => Ok(
                uint_from_identifier(fold_identifier(&self.constants, id, Family::Uint(bitwidth))),
            ),
            UExpressionInner::Add(b) => {
                let (l, r) = self.fold_operands(b)?;
                Ok(uint_rules::fold_add(bitwidth, l, r))
            },
            UExpressionInner::Sub(b) => {
                let (l, r) = self.fold_operands(b)?;
                Ok(uint_rules::fold_sub(bitwidth, l, r))
            },
            UExpressionInner::FloorSub(b) => {
                let (l, r) = self.fold_operands(b)?;
                Ok(uint_rules::fold_floor_sub(bitwidth, l, r))
            },
            UExpressionInner::Mult(b) => {
                let (l, r) = self.fold_operands(b)?;
                Ok(uint_rules::fold_mult(bitwidth, l, r))
            },
            UExpressionInner::Div(b) => {
                let (l, r) = self.fold_operands(b)?;
                Ok(uint_rules::fold_div(bitwidth, l, r))
            },
            UExpressionInner::Rem(b) => {
                let (l, r) = self.fold_operands(b)?;
                Ok(uint_rules::fold_rem(bitwidth, l, r))
            },
            UExpressionInner::Xor(b) => {
                let (l, r) = self.fold_operands(b)?;
                Ok(uint_rules::fold_xor(bitwidth, l, r))
            },
            UExpressionInner::And(b) => {
                let (l, r) = self.fold_operands(b)?;
                Ok(uint_rules::fold_and(bitwidth, l, r))
            },
            UExpressionInner::Or(b) => {
                let l = self.fold_uint_expression(*b.left)?;
                let r = self.fold_uint_expression(*b.right)?;
                Ok(UExpressionInner::Or(BinaryExpression::with_span(l, r, b.span)))
            },
            UExpressionInner::LeftShift(b) => {
                let (l, r) = self.fold_operands(b)?;
                Ok(uint_rules::fold_left_shift(bitwidth, l, r))
            },
            UExpressionInner::RightShift(b) => {
                let (l, r) = self.fold_operands(b)?;
                Ok(uint_rules::fold_right_shift(bitwidth, l, r))
            },
            UExpressionInner::Not(u) => {
                let e = self.fold_uint_expression(*u.inner)?;
                Ok(uint_rules::fold_not(bitwidth, e.inner))
            },
            UExpressionInner::Neg(u) => {
                let e = self.fold_uint_expression(*u.inner)?;
                Ok(uint_rules::fold_neg(bitwidth, e.inner))
            },
            UExpressionInner::Pos(u) => {
                let e = self.fold_uint_expression(*u.inner)?;
                Ok(uint_rules::fold_pos(bitwidth, e.inner))
            },
            UExpressionInner::Conditional(x) => {
                let condition = self.fold_boolean_expression(*x.condition)?;
                let consequence = self.fold_uint_expression(*x.consequence)?;
                let alternative = self.fold_uint_expression(*x.alternative)?;
                let same = consequence.same(&alternative);
                Ok(
                    uint_from_conditional(
                        fold_conditional(condition, consequence, alternative, x.kind, same),
                    ),
                )
            },
            UExpressionInner::Select(s) => Ok(
                uint_from_select(self.fold_select_expression(s, Family::Uint(bitwidth))?),
            ),
            UExpressionInner::Member(m) => Ok(
                uint_from_member(self.fold_member_expression(m, Family::Uint(bitwidth))?),
            ),
            UExpressionInner::Element(m) => Ok(
                uint_from_element(self.fold_element_expression(m, Family::Uint(bitwidth))?),
            ),
        }
    }

    pub fn fold_array_expression(&self, e: ArrayExpression<T>) -> (r: Result<
        ArrayExpression<T>,
        Error,
    >)
        ensures
            r == folded_array(self.known(), e),
        decreases e,
    {
        let ArrayExpression { ty, inner } = e;
        let inner = self.fold_array_expression_inner(inner)?;
        Ok(ArrayExpression { ty, inner })
    }

    /// The elements of an array literal, each simplified.
    pub fn fold_elements(&self, l: List<TypedExpressionOrSpread<T>>) -> (r: Result<
        List<TypedExpressionOrSpread<T>>,
        Error,
    >)
        ensures
            r == folded_elements(self.known(), l),
        decreases l,
    {
        match l {
            List::Nil => Ok(List::Nil),
            List::Cons(n) => {
                let Node { head, tail } = *n;
                let head = match head {
                    TypedExpressionOrSpread::Expression(e) => TypedExpressionOrSpread::Expression(
                        self.fold_expression(e)?,
                    ),
                    TypedExpressionOrSpread::Spread(s) => TypedExpressionOrSpread::Spread(
                        TypedSpread { array: self.fold_array_expression(s.array)? },
                    ),
                };
                let tail = self.fold_elements(tail)?;
                Ok(List::cons(head, tail))
            },
        }
    }

    pub fn fold_array_expression_inner(&self, e: ArrayExpressionInner<T>) -> (r: Result<
        ArrayExpressionInner<T>,
        Error,
    >)
        ensures
            r == folded_array_inner(self.known(), e),
        decreases e,
    {
        match e {
            ArrayExpressionInner::Value(v) => {
                let l = self.fold_elements(v.value)?;
                Ok(ArrayExpressionInner::Value(ValueExpression::new(splice(l))))
            },
            ArrayExpressionInner::Identifier(id) => Ok(
                array_from_identifier(fold_identifier(&self.constants, id, Family::Array)),
            ),
            ArrayExpressionInner::Conditional(x) => {
                let condition = self.fold_boolean_expression(*x.condition)?;
                let consequence = self.fold_array_expression(*x.consequence)?;
                let alternative = self.fold_array_expression(*x.alternative)?;
                let same = consequence.same(&alternative);
                Ok(
                    array_from_conditional(
                        fold_conditional(condition, consequence, alternative, x.kind, same),
                    ),
                )
            },
            ArrayExpressionInner::Select(s) => Ok(
                array_from_select(self.fold_select_expression(s, Family::Array)?),
            ),
            ArrayExpressionInner::Member(m) => Ok(
                array_from_member(self.fold_member_expression(m, Family::Array)?),
            ),
            ArrayExpressionInner::Element(m) => Ok(
                array_from_element(self.fold_element_expression(m, Family::Array)?),
            ),
        }
    }

    pub fn fold_struct_expression(&self, e: StructExpression<T>) -> (r: Result<
        StructExpression<T>,
        Error,
    >)
        ensures
            r == folded_struct(self.known(), e),
        decreases e,
    {
        let StructExpression { ty, inner } = e;
        let inner = self.fold_struct_expression_inner(&ty.members, inner)?;
        Ok(StructExpression { ty, inner })
    }

    /// The values of a struct literal, each simplified and held against the
    /// type of its member.
    pub fn fold_members(&self, values: List<TypedExpression<T>>, members: &List<StructMember>) -> (r:
        Result<List<TypedExpression<T>>, Error>)
        ensures
            r == folded_members(self.known(), values, *members),
        decreases values,
    {
        match (values, members) {
            (List::Cons(v), List::Cons(m)) => {
                let Node { head, tail } = *v;
                let x = self.fold_expression(head)?;
                let head = check_member(x, &m.head)?;
                let tail = self.fold_members(tail, &m.tail)?;
                Ok(List::cons(head, tail))
            },
            _ => Ok(List::Nil),
        }
    }

    pub fn fold_struct_expression_inner(
        &self,
        members: &List<StructMember>,
        e: StructExpressionInner<T>,
    ) -> (r: Result<StructExpressionInner<T>, Error>)
        ensures
            r == folded_struct_inner(self.known(), *members, e),
        decreases e,
    {
        match e {
            StructExpressionInner::Value(v) => {
                let l = self.fold_members(v.value, members)?;
                Ok(StructExpressionInner::Value(ValueExpression::new(l)))
            },
            StructExpressionInner::Identifier(id) => Ok(
                struct_from_identifier(fold_identifier(&self.constants, id, Family::Struct)),
            ),
            StructExpressionInner::Conditional(x) => {
                let condition = self.fold_boolean_expression(*x.condition)?;
                let consequence = self.fold_struct_expression(*x.consequence)?;
                let alternative = self.fold_struct_expression(*x.alternative)?;
                let same = consequence.same(&alternative);
                Ok(
                    struct_from_conditional(
                        fold_conditional(condition, consequence, alternative, x.kind, same),
                    ),
                )
            },
            StructExpressionInner::Select(s) => Ok(
                struct_from_select(self.fold_select_expression(s, Family::Struct)?),
            ),
            StructExpressionInner::Member(m) => Ok(
                struct_from_member(self.fold_member_expression(m, Family::Struct)?),
            ),
            StructExpressionInner::Element(m) => Ok(
                struct_from_element(self.fold_element_expression(m, Family::Struct)?),
            ),
        }
    }

    pub fn fold_tuple_expression(&self, e: TupleExpression<T>) -> (r: Result<
        TupleExpression<T>,
        Error,
    >)
        ensures
            r == folded_tuple(self.known(), e),
        decreases e,
    {
        let TupleExpression { ty, inner } = e;
        let inner = self.fold_tuple_expression_inner(&ty.elements, inner)?;
        Ok(TupleExpression { ty, inner })
    }

    /// The values of a tuple literal from position `index` on, each
    /// simplified and held against the type of its element.
    pub fn fold_tuple_elements(
        &self,
        values: List<TypedExpression<T>>,
        types: &List<Type>,
        index: u32,
    ) -> (r: Result<List<TypedExpression<T>>, Error>)
        ensures
            r == folded_tuple_elements(self.known(), values, *types, index),
        decreases values,
    {
        match (values, types) {
            (List::Cons(v), List::Cons(t)) => {
                let Node { head, tail } = *v;
                let x = self.fold_expression(head)?;
                let head = check_element(x, index, &t.head)?;
                let next: u32 = if index < u32::MAX {
                    index + 1
                } else {
                    index
                };
                let tail = self.fold_tuple_elements(tail, &t.tail, next)?;
                Ok(List::cons(head, tail))
            },
            _ => Ok(List::Nil),
        }
    }

    pub fn fold_tuple_expression_inner(&self, types: &List<Type>, e: TupleExpressionInner<T>) -> (r:
        Result<TupleExpressionInner<T>, Error>)
        ensures
            r == folded_tuple_inner(self.known(), *types, e),
        decreases e,
    {
        match e {
            TupleExpressionInner::Value(v) => {
                let l = self.fold_tuple_elements(v.value, types, 0)?;
                Ok(TupleExpressionInner::Value(ValueExpression::new(l)))
            },
            TupleExpressionInner::Identifier(id) => Ok(
                tuple_from_identifier(fold_identifier(&self.constants, id, Family::Tuple)),
            ),
            TupleExpressionInner::Conditional(x) => {
                let condition = self.fold_boolean_expression(*x.condition)?;
                let consequence = self.fold_tuple_expression(*x.consequence)?;
                let alternative = self.fold_tuple_expression(*x.alternative)?;
                let same = consequence.same(&alternative);
                Ok(
                    tuple_from_conditional(
                        fold_conditional(condition, consequence, alternative, x.kind, same),
                    ),
                )
            },
            TupleExpressionInner::Select(s) => Ok(
                tuple_from_select(self.fold_select_expression(s, Family::Tuple)?),
            ),
            TupleExpressionInner::Member(m) => Ok(
                tuple_from_member(self.fold_member_expression(m, Family::Tuple)?),
            ),
            TupleExpressionInner::Element(m) => Ok(
                tuple_from_element(self.fold_element_expression(m, Family::Tuple)?),
            ),
        }
    }
}


/// `first` alone.
pub fn make_one<T>(first: TypedStatement<T>) -> (r: List<TypedStatement<T>>)
    ensures
        r == one(first),
{
    List::cons(first, List::Nil)
}

impl<T: Field> Propagator<T> {
    /// A pass that knows nothing yet.
    pub fn new() -> (r: Self)
        ensures
            r.known() == Map::<u64, TypedExpression<T>>::empty(),
    {
        Propagator { constants: HashMap::new() }
    }

    /// Emits `s`, which writes to the variable `v` something that is not
    /// known, after the last known value of `v` if it had one.
    pub fn flush(&mut self, v: Variable, s: TypedStatement<T>) -> (r: List<TypedStatement<T>>)
        ensures
            final(self).known() == flushed(old(self).known(), v, s).0,
            r == flushed(old(self).known(), v, s).1,
    {
        match self.constants.remove(&v.id.id) {
            Some(value) => List::cons(
                TypedStatement::Definition(
                    TypedAssignee::Identifier(v),
                    DefinitionRhs::Expression(value),
                ),
                List::cons(s, List::Nil),
            ),
            None => {
                assert(self.constants@ =~= old(self).constants@);
                make_one(s)
            },
        }
    }

    /// Whether a constant written to the place `a` can be recorded.
    pub fn can_record(&self, a: &TypedAssignee<T>) -> (r: bool)
        ensures
            r == (*a is Identifier || resolved(self.known(), *a) is Some),
    {
        match a {
            TypedAssignee::Identifier(_) => true,
            a => self.resolve(a).is_some(),
        }
    }

    /// Records that the place `a` holds the constant `value`.
    pub fn record(&mut self, a: TypedAssignee<T>, value: TypedExpression<T>)
        requires
            a is Identifier || resolved(old(self).known(), a) is Some,
        ensures
            final(self).known() == stored(
                old(self).known(),
                a,
                value,
                TypedStatement::PopCallLog,
            ).0,
    {
        match a {
            TypedAssignee::Identifier(v) => {
                self.constants.insert(v.id.id, value);
            },
            a => {
                let updated = self.replace(&a, value);
                let id = a.root().id.id;
                self.constants.insert(id, updated);
            },
        }
    }

    /// The expressions of a list, each simplified.
    pub fn fold_expressions(&self, l: List<TypedExpression<T>>) -> (r: Result<
        List<TypedExpression<T>>,
        Error,
    >)
        ensures
            r == folded_expressions(self.known(), l),
        decreases l,
    {
        match l {
            List::Nil => Ok(List::Nil),
            List::Cons(n) => {
                let Node { head, tail } = *n;
                let head = self.fold_expression(head)?;
                let tail = self.fold_expressions(tail)?;
                Ok(List::cons(head, tail))
            },
        }
    }

    /// `a := e`, both simplified already.
    pub fn fold_definition(&mut self, a: TypedAssignee<T>, e: TypedExpression<T>) -> (r: Result<
        List<TypedStatement<T>>,
        Error,
    >)
        requires
            !(a is Identifier && old(self).known().contains_key(root(a).id.id) && is_constant(e)
                && assignment_error(a, e) is None),
        ensures
            match folded_definition(old(self).known(), a, e) {
                Ok((known, statements)) => r == Ok::<List<TypedStatement<T>>, Error>(statements)
                    && final(self).known() == known,
                Err(error) => r == Err::<List<TypedStatement<T>>, Error>(error) && final(self).known() == old(self).known(),
            },
    {
        match a.get_type() {
            Some(expected) => {
                let found = e.get_type();
                if expected.concrete() && found.concrete() && !expected.same(&found) {
                    return Err(Error::Type(TypeMismatch::Assignment { expected, found }));
                }
            },
            None => {},
        }
        if e.is_constant() && self.can_record(&a) {
            self.record(a, e.into_canonical_constant());
            Ok(List::Nil)
        } else {
            let v = a.root().clone();
            Ok(self.flush(v, TypedStatement::Definition(a, DefinitionRhs::Expression(e))))
        }
    }

    /// `a := call`, the place and the arguments simplified already.
    pub fn fold_call(&mut self, a: TypedAssignee<T>, call: EmbedCall<T>) -> (r: Result<
        List<TypedStatement<T>>,
        Error,
    >)
        ensures
            match folded_call(old(self).known(), a, call) {
                Ok((known, statements)) => r == Ok::<List<TypedStatement<T>>, Error>(statements)
                    && final(self).known() == known,
                Err(error) => r == Err::<List<TypedStatement<T>>, Error>(error) && final(self).known() == old(self).known(),
            },
    {
        let value = if check_expressions_constant(&call.arguments) {
            evaluate(&call)?
        } else {
            None
        };
        match value {
            Some(value) => {
                if self.can_record(&a) {
                    self.record(a, value);
                    Ok(List::Nil)
                } else {
                    let v = a.root().clone();
                    Ok(
                        self.flush(
                            v,
                            TypedStatement::Definition(a, DefinitionRhs::Expression(value)),
                        ),
                    )
                }
            },
            None => {
                let v = a.root().clone();
                Ok(self.flush(v, TypedStatement::Definition(a, DefinitionRhs::EmbedCall(call))))
            },
        }
    }

    pub fn fold_statement(&mut self, s: TypedStatement<T>) -> (r: Result<
        List<TypedStatement<T>>,
        Error,
    >)
        requires
            !rebinds(old(self).known(), s),
        ensures
            match folded_statement(old(self).known(), s) {
                Ok((known, statements)) => r == Ok::<List<TypedStatement<T>>, Error>(statements)
                    && final(self).known() == known,
                Err(error) => r == Err::<List<TypedStatement<T>>, Error>(error) && final(self).known() == old(self).known(),
            },
    {
        match s {
            TypedStatement::Definition(a, DefinitionRhs::Expression(e)) => {
                let a = self.fold_assignee(a)?;
                let e = self.fold_expression(e)?;
                self.fold_definition(a, e)
            },
            TypedStatement::Definition(a, DefinitionRhs::EmbedCall(call)) => {
                let a = self.fold_assignee(a)?;
                let EmbedCall { embed, generics, arguments } = call;
                let arguments = self.fold_expressions(arguments)?;
                self.fold_call(a, EmbedCall { embed, generics, arguments })
            },
            TypedStatement::Assertion(e, tag) => {
                let e = self.fold_boolean_expression(e)?;
                match e {
                    BooleanExpression::Value(v) => if v.value {
                        Err(Error::AssertionFailed(tag))
                    } else {
                        Ok(List::Nil)
                    },
                    e => Ok(make_one(TypedStatement::Assertion(e, tag))),
                }
            },
            TypedStatement::For(v, from, to, body) => {
                let from = self.fold_uint_expression(from)?;
                let to = self.fold_uint_expression(to)?;
                Ok(make_one(TypedStatement::For(v, from, to, body)))
            },
            TypedStatement::Return(e) => {
                let e = self.fold_expression(e)?;
                Ok(make_one(TypedStatement::Return(e)))
            },
            TypedStatement::Log(format, l) => {
                let l = self.fold_expressions(l)?;
                Ok(make_one(TypedStatement::Log(format, l)))
            },
            TypedStatement::PushCallLog(n) => Ok(make_one(TypedStatement::PushCallLog(n))),
            TypedStatement::PopCallLog => Ok(make_one(TypedStatement::PopCallLog)),
        }
    }

    /// The statements of a list in order, each rewritten from what the ones
    /// before it left known.
    pub fn fold_statements(&mut self, l: List<TypedStatement<T>>) -> (r: Result<
        List<TypedStatement<T>>,
        Error,
    >)
        requires
            single_assignment(old(self).known(), l),
        ensures
            match folded_statements(old(self).known(), l) {
                Ok((known, statements)) => r == Ok::<List<TypedStatement<T>>, Error>(statements)
                    && final(self).known() == known,
                Err(error) => r == Err::<List<TypedStatement<T>>, Error>(error),
            },
        decreases l,
    {
        match l {
            List::Nil => Ok(List::Nil),
            List::Cons(n) => {
                let Node { head, tail } = *n;
                let first = self.fold_statement(head)?;
                let rest = self.fold_statements(tail)?;
                Ok(first.concat(rest))
            },
        }
    }

    pub fn fold_function(&mut self, f: TypedFunction<T>) -> (r: Result<TypedFunction<T>, Error>)
        requires
            single_assignment(old(self).known(), f.statements),
        ensures
            match folded_function(old(self).known(), f) {
                Ok((known, g)) => r == Ok::<TypedFunction<T>, Error>(g) && final(self).known()
                    == known,
                Err(error) => r == Err::<TypedFunction<T>, Error>(error),
            },
    {
        let TypedFunction { arguments, statements, outputs } = f;
        let statements = self.fold_statements(statements)?;
        Ok(TypedFunction { arguments, statements, outputs })
    }

    pub fn fold_function_symbol_declaration(&mut self, d: TypedFunctionSymbolDeclaration<T>) -> (r:
        Result<TypedFunctionSymbolDeclaration<T>, Error>)
        requires
            declaration_single_assignment(old(self).known(), d),
        ensures
            match folded_declaration(old(self).known(), d) {
                Ok((known, g)) => r == Ok::<TypedFunctionSymbolDeclaration<T>, Error>(g) && final(self).known() == known,
                Err(error) => r == Err::<TypedFunctionSymbolDeclaration<T>, Error>(error),
            },
    {
        let TypedFunctionSymbolDeclaration { id, symbol } = d;
        match symbol {
            TypedFunctionSymbol::Here(f) => if id == MAIN {
                let f = self.fold_function(f)?;
                Ok(TypedFunctionSymbolDeclaration { id, symbol: TypedFunctionSymbol::Here(f) })
            } else {
                Ok(TypedFunctionSymbolDeclaration { id, symbol: TypedFunctionSymbol::Here(f) })
            },
            symbol => Ok(TypedFunctionSymbolDeclaration { id, symbol }),
        }
    }

    /// The declarations of a module in order.
    pub fn fold_declarations(&mut self, l: List<TypedFunctionSymbolDeclaration<T>>) -> (r: Result<
        List<TypedFunctionSymbolDeclaration<T>>,
        Error,
    >)
        requires
            declarations_single_assignment(old(self).known(), l),
        ensures
            match folded_declarations(old(self).known(), l) {
                Ok((known, g)) => r == Ok::<List<TypedFunctionSymbolDeclaration<T>>, Error>(g)
                    && final(self).known() == known,
                Err(error) => r == Err::<List<TypedFunctionSymbolDeclaration<T>>, Error>(error),
            },
        decreases l,
    {
        match l {
            List::Nil => Ok(List::Nil),
            List::Cons(n) => {
                let Node { head, tail } = *n;
                let head = self.fold_function_symbol_declaration(head)?;
                let tail = self.fold_declarations(tail)?;
                Ok(List::cons(head, tail))
            },
        }
    }

    /// The modules of a program in order: the module `main` rewritten, the
    /// others as they are.
    pub fn fold_modules(&mut self, l: List<TypedModuleEntry<T>>, main: u64) -> (r: Result<
        List<TypedModuleEntry<T>>,
        Error,
    >)
        requires
            modules_single_assignment(old(self).known(), l, main),
        ensures
            match folded_modules(old(self).known(), l, main) {
                Ok((known, g)) => r == Ok::<List<TypedModuleEntry<T>>, Error>(g) && final(self).known() == known,
                Err(error) => r == Err::<List<TypedModuleEntry<T>>, Error>(error),
            },
        decreases l,
    {
        match l {
            List::Nil => Ok(List::Nil),
            List::Cons(n) => {
                let Node { head, tail } = *n;
                let TypedModuleEntry { id, module } = head;
                let head = if id == main {
                    let symbols = self.fold_declarations(module.symbols)?;
                    TypedModuleEntry { id, module: TypedModule { symbols } }
                } else {
                    TypedModuleEntry { id, module }
                };
                let tail = self.fold_modules(tail, main)?;
                Ok(List::cons(head, tail))
            },
        }
    }

    pub fn fold_program(&mut self, p: TypedProgram<T>) -> (r: Result<TypedProgram<T>, Error>)
        requires
            program_single_assignment(old(self).known(), p),
        ensures
            match folded_program(old(self).known(), p) {
                Ok((known, q)) => r == Ok::<TypedProgram<T>, Error>(q) && final(self).known()
                    == known,
                Err(error) => r == Err::<TypedProgram<T>, Error>(error),
            },
    {
        let TypedProgram { modules, main } = p;
        let modules = self.fold_modules(modules, main)?;
        Ok(TypedProgram { modules, main })
    }

    /// Rewrites the entry point of `p` with the constants that it computes.
    pub fn propagate(p: TypedProgram<T>) -> (r: Result<TypedProgram<T>, Error>)
        requires
            program_single_assignment(Map::empty(), p),
        ensures
            r == propagated(p),
    {
        let mut propagator = Propagator::new();
        propagator.fold_program(p)
    }
}


impl<T: Field> Propagator<T> {
    /// Whether `s` defines, as a constant, a variable that is known already.
    pub fn would_rebind(&self, s: &TypedStatement<T>) -> (r: bool)
        ensures
            r == rebinds(self.known(), *s),
    {
        match s {
            TypedStatement::Definition(TypedAssignee::Identifier(v), DefinitionRhs::Expression(e)) => {
                if self.constants.contains_key(&v.id.id) {
                    match self.fold_expression(e.clone()) {
                        Ok(x) => {
                            let found = x.get_type();
                            let mismatch = v.ty.concrete() && found.concrete() && !v.ty.same(&found);
                            x.is_constant() && !mismatch
                        },
                        Err(_) => false,
                    }
                } else {
                    false
                }
            },
            _ => false,
        }
    }

    /// The statements of a list in order, as [`Propagator::fold_statements`]
    /// rewrites them, or nothing where a statement defines as a constant a
    /// variable that is known already.
    pub fn try_fold_statements(&mut self, l: List<TypedStatement<T>>) -> (r: Option<
        Result<List<TypedStatement<T>>, Error>,
    >)
        ensures
            r is Some <==> single_assignment(old(self).known(), l),
            r matches Some(out) ==> match folded_statements(old(self).known(), l) {
                Ok((known, statements)) => out == Ok::<List<TypedStatement<T>>, Error>(statements)
                    && final(self).known() == known,
                Err(error) => out == Err::<List<TypedStatement<T>>, Error>(error),
            },
        decreases l,
    {
        match l {
            List::Nil => Some(Ok(List::Nil)),
            List::Cons(n) => {
                let Node { head, tail } = *n;
                if self.would_rebind(&head) {
                    return None;
                }
                match self.fold_statement(head) {
                    Err(e) => Some(Err(e)),
                    Ok(first) => match self.try_fold_statements(tail) {
                        None => None,
                        Some(Err(e)) => Some(Err(e)),
                        Some(Ok(rest)) => Some(Ok(first.concat(rest))),
                    },
                }
            },
        }
    }

    /// The declarations of a module in order, or nothing where the entry
    /// point defines as a constant a variable that is known already.
    pub fn try_fold_declarations(&mut self, l: List<TypedFunctionSymbolDeclaration<T>>) -> (r:
        Option<Result<List<TypedFunctionSymbolDeclaration<T>>, Error>>)
        ensures
            r is Some <==> declarations_single_assignment(old(self).known(), l),
            r matches Some(out) ==> match folded_declarations(old(self).known(), l) {
                Ok((known, g)) => out == Ok::<List<TypedFunctionSymbolDeclaration<T>>, Error>(g)
                    && final(self).known() == known,
                Err(error) => out == Err::<List<TypedFunctionSymbolDeclaration<T>>, Error>(
                    error,
                ),
            },
        decreases l,
    {
        match l {
            List::Nil => Some(Ok(List::Nil)),
            List::Cons(n) => {
                let Node { head, tail } = *n;
                let TypedFunctionSymbolDeclaration { id, symbol } = head;
                let head = match symbol {
                    TypedFunctionSymbol::Here(f) => if id == MAIN {
                        let TypedFunction { arguments, statements, outputs } = f;
                        match self.try_fold_statements(statements) {
                            None => {
                                return None;
                            },
                            Some(Err(e)) => {
                                return Some(Err(e));
                            },
                            Some(Ok(statements)) => TypedFunctionSymbolDeclaration {
                                id,
                                symbol: TypedFunctionSymbol::Here(
                                    TypedFunction { arguments, statements, outputs },
                                ),
                            },
                        }
                    } else {
                        TypedFunctionSymbolDeclaration { id, symbol: TypedFunctionSymbol::Here(f) }
                    },
                    symbol => TypedFunctionSymbolDeclaration { id, symbol },
                };
                match self.try_fold_declarations(tail) {
                    None => None,
                    Some(Err(e)) => Some(Err(e)),
                    Some(Ok(tail)) => Some(Ok(List::cons(head, tail))),
                }
            },
        }
    }

    /// The modules of a program in order, or nothing where the entry point
    /// defines as a constant a variable that is known already.
    pub fn try_fold_modules(&mut self, l: List<TypedModuleEntry<T>>, main: u64) -> (r: Option<
        Result<List<TypedModuleEntry<T>>, Error>,
    >)
        ensures
            r is Some <==> modules_single_assignment(old(self).known(), l, main),
            r matches Some(out) ==> match folded_modules(old(self).known(), l, main) {
                Ok((known, g)) => out == Ok::<List<TypedModuleEntry<T>>, Error>(g) && final(self).known() == known,
                Err(error) => out == Err::<List<TypedModuleEntry<T>>, Error>(error),
            },
        decreases l,
    {
        match l {
            List::Nil => Some(Ok(List::Nil)),
            List::Cons(n) => {
                let Node { head, tail } = *n;
                let TypedModuleEntry { id, module } = head;
                let head = if id == main {
                    match self.try_fold_declarations(module.symbols) {
                        None => {
                            return None;
                        },
                        Some(Err(e)) => {
                            return Some(Err(e));
                        },
                        Some(Ok(symbols)) => TypedModuleEntry { id, module: TypedModule { symbols } },
                    }
                } else {
                    TypedModuleEntry { id, module }
                };
                match self.try_fold_modules(tail, main) {
                    None => None,
                    Some(Err(e)) => Some(Err(e)),
                    Some(Ok(tail)) => Some(Ok(List::cons(head, tail))),
                }
            },
        }
    }

    /// Rewrites the entry point of `p` with the constants that it computes,
    /// as [`Propagator::propagate`] does. It gives nothing where `p` defines
    /// as a constant a variable that is known already, which a program in
    /// which every variable is assigned once never does.
    pub fn try_propagate(p: TypedProgram<T>) -> (r: Option<Result<TypedProgram<T>, Error>>)
        ensures
            r is Some <==> program_single_assignment(Map::empty(), p),
            r matches Some(out) ==> out == propagated(p),
    {
        let mut propagator = Propagator::new();
        let TypedProgram { modules, main } = p;
        match propagator.try_fold_modules(modules, main) {
            None => None,
            Some(Err(e)) => Some(Err(e)),
            Some(Ok(modules)) => Some(Ok(TypedProgram { modules, main })),
        }
    }
}

} // verus!
