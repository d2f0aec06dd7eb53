//! Idempotence of constant propagation on expressions: what the pass has
//! rewritten, it rewrites to itself.

use crate::aggregate_rules::{
    expression_at, folded_conditional, folded_element, folded_identifier, folded_member,
    folded_select, is_empty_spread, spliced, typed_select, without_empty_spreads,
};
use crate::error::Error;
use crate::expressions::{BinaryExpression, IdentifierExpression, IdentifierOrExpression};
use crate::field::Field;
use crate::folding::{
    folded_array, folded_array_inner, folded_boolean, folded_element_expression,
    folded_elements, folded_expression, folded_field, folded_member_expression,
    folded_operands, folded_select_expression, folded_struct, folded_struct_inner, folded_tuple,
    folded_tuple_inner, folded_uint, folded_uint_inner, Known,
};
use crate::list::List;
use crate::regular::{
    regular_array, regular_boolean, regular_element, regular_elements, regular_expression,
    regular_field, regular_member, regular_operands, regular_select, regular_struct,
    regular_tuple, regular_uint, regular_uint_inner,
};
use crate::typed::{
    ArrayExpression, ArrayExpressionInner, BooleanExpression, ElementExpression,
    ConditionalOrExpression, ElementOrExpression, Family, FieldElementExpression, Identifier, MemberExpression,
    MemberOrExpression, SelectExpression, SelectOrExpression, StructExpression,
    StructExpressionInner, TupleExpression, TupleExpressionInner, TypedExpression,
    TypedExpressionOrSpread, UExpression, UExpressionInner,
};
use crate::operators::{OpAdd, OpAnd, OpDiv, OpFloorSub, OpLsh, OpMul, OpRem, OpRsh, OpSub, OpXor};
use crate::types::UBitwidth;
use crate::uint_rules;
use vstd::prelude::*;

verus! {

/// Whether the pass, knowing `c`, leaves `e` as it is, and every element of
/// an array literal that `e` is.
pub open spec fn fixed<T: Field>(c: Known<T>, e: TypedExpression<T>) -> bool
    decreases e,
{
    match e {
        TypedExpression::Boolean(b) => folded_boolean(c, b) == Ok::<BooleanExpression<T>, Error>(b),
        TypedExpression::FieldElement(f) => folded_field(c, f) == Ok::<
            FieldElementExpression<T>,
            Error,
        >(f),
        TypedExpression::Uint(u) => folded_uint(c, u) == Ok::<UExpression<T>, Error>(u),
        TypedExpression::Array(a) => fixed_array(c, a),
        TypedExpression::Struct(s) => fixed_struct(c, s),
        TypedExpression::Tuple(t) => fixed_tuple(c, t),
    }
}

pub open spec fn fixed_array<T: Field>(c: Known<T>, a: ArrayExpression<T>) -> bool
    decreases a,
{
    folded_array(c, a) == Ok::<ArrayExpression<T>, Error>(a) && match a.inner {
        ArrayExpressionInner::Value(v) => fixed_elements(c, v.value),
        _ => true,
    }
}

pub open spec fn fixed_struct<T: Field>(c: Known<T>, s: StructExpression<T>) -> bool {
    folded_struct(c, s) == Ok::<StructExpression<T>, Error>(s) && !(s.inner is Value)
}

pub open spec fn fixed_tuple<T: Field>(c: Known<T>, t: TupleExpression<T>) -> bool {
    folded_tuple(c, t) == Ok::<TupleExpression<T>, Error>(t) && !(t.inner is Value)
}

/// Whether the pass leaves every element of an array literal as it is: an
/// expression that it leaves alone, or a spread over an array that is no
/// literal and not known to be empty.
pub open spec fn fixed_elements<T: Field>(c: Known<T>, l: List<TypedExpressionOrSpread<T>>) -> bool
    decreases l,
{
    match l {
        List::Nil => true,
        List::Cons(n) => (match n.head {
            TypedExpressionOrSpread::Expression(e) => fixed(c, e),
            TypedExpressionOrSpread::Spread(s) => !(s.array.inner is Value) && !is_empty_spread(
                n.head,
            ) && fixed_array(c, s.array),
        }) && fixed_elements(c, n.tail),
    }
}

/// Whether the pass, knowing `c2`, leaves every value known in `c` as it is.
pub open spec fn settled<T: Field>(c: Known<T>, c2: Known<T>) -> bool {
    forall|id: u64| c.contains_key(id) ==> fixed(c2, #[trigger] c[id])
}

/// The pass leaves alone what is fixed.
pub proof fn lemma_fixed_folds<T: Field>(c: Known<T>, e: TypedExpression<T>)
    requires
        fixed(c, e),
    ensures
        folded_expression(c, e) == Ok::<TypedExpression<T>, Error>(e),
{
}

pub proof fn lemma_fixed_elements<T: Field>(c: Known<T>, l: List<TypedExpressionOrSpread<T>>)
    requires
        fixed_elements(c, l),
    ensures
        folded_elements(c, l) == Ok::<List<TypedExpressionOrSpread<T>>, Error>(l),
        spliced(l) == l,
        without_empty_spreads(l) == l,
    decreases l,
{
    match l {
        List::Nil => {},
        List::Cons(n) => {
            lemma_fixed_elements(c, n.tail);
            match n.head {
                TypedExpressionOrSpread::Expression(e) => {
                    lemma_fixed_folds(c, e);
                },
                TypedExpressionOrSpread::Spread(s) => {
                    assert(fixed_array(c, s.array));
                },
            }
            assert(l == List::spec_cons(n.head, n.tail));
        },
    }
}

pub proof fn lemma_fixed_concat<T: Field>(
    c: Known<T>,
    a: List<TypedExpressionOrSpread<T>>,
    b: List<TypedExpressionOrSpread<T>>,
)
    requires
        fixed_elements(c, a),
        fixed_elements(c, b),
    ensures
        fixed_elements(c, a.spec_concat(b)),
    decreases a,
{
    match a {
        List::Nil => {},
        List::Cons(n) => {
            lemma_fixed_concat(c, n.tail, b);
        },
    }
}

/// What the rule for array literals makes of elements that the pass has
/// rewritten is left alone by the pass.
pub proof fn lemma_spliced_fixed<T: Field>(c: Known<T>, l: List<TypedExpressionOrSpread<T>>)
    requires
        rewritten_elements(c, l),
    ensures
        fixed_elements(c, spliced(l)),
    decreases l,
{
    match l {
        List::Nil => {},
        List::Cons(n) => {
            lemma_spliced_fixed(c, n.tail);
            match n.head {
                TypedExpressionOrSpread::Spread(s) => match s.array.inner {
                    ArrayExpressionInner::Value(v) => {
                        lemma_fixed_elements(c, v.value);
                        lemma_fixed_concat(c, v.value, spliced(n.tail));
                    },
                    _ => {},
                },
                _ => {},
            }
        },
    }
}

/// Whether every element is an expression that the pass leaves alone or a
/// spread over an array that the pass leaves alone.
pub open spec fn rewritten_elements<T: Field>(c: Known<T>, l: List<TypedExpressionOrSpread<T>>) -> bool
    decreases l,
{
    match l {
        List::Nil => true,
        List::Cons(n) => (match n.head {
            TypedExpressionOrSpread::Expression(e) => fixed(c, e),
            TypedExpressionOrSpread::Spread(s) => fixed_array(c, s.array),
        }) && rewritten_elements(c, n.tail),
    }
}


/// The operands of a node that a rule has built are what they were built
/// from, where the pass leaves these alone.
pub proof fn lemma_node_operands<T: Field, Op>(
    c: Known<T>,
    bw: UBitwidth,
    a: UExpressionInner<T>,
    b: UExpressionInner<T>,
)
    requires
        folded_uint_inner(c, bw, a) == Ok::<UExpressionInner<T>, Error>(a),
        folded_uint_inner(c, bw, b) == Ok::<UExpressionInner<T>, Error>(b),
    ensures
        folded_operands(c, uint_rules::node::<T, Op>(bw, a, b)) == Ok::<
            (UExpressionInner<T>, UExpressionInner<T>),
            Error,
        >((a, b)),
{
    assert(folded_uint(c, a.annotate(bw)) == Ok::<UExpression<T>, Error>(a.annotate(bw)));
    assert(folded_uint(c, b.annotate(bw)) == Ok::<UExpression<T>, Error>(b.annotate(bw)));
}

pub proof fn lemma_shift_operands<T: Field, Op>(
    c: Known<T>,
    bw: UBitwidth,
    a: UExpressionInner<T>,
    b: UExpressionInner<T>,
)
    requires
        folded_uint_inner(c, bw, a) == Ok::<UExpressionInner<T>, Error>(a),
        folded_uint_inner(c, UBitwidth::B32, b) == Ok::<UExpressionInner<T>, Error>(b),
    ensures
        folded_operands(c, uint_rules::shift_node::<T, Op>(bw, a, b)) == Ok::<
            (UExpressionInner<T>, UExpressionInner<T>),
            Error,
        >((a, b)),
{
    assert(folded_uint(c, a.annotate(bw)) == Ok::<UExpression<T>, Error>(a.annotate(bw)));
    assert(folded_uint(c, b.annotate(UBitwidth::B32)) == Ok::<UExpression<T>, Error>(
        b.annotate(UBitwidth::B32),
    ));
}

/// A literal is left alone.
pub proof fn lemma_literal_fixed<T: Field>(c: Known<T>, bw: UBitwidth, v: u128)
    ensures
        folded_uint_inner(c, bw, UExpression::<T>::from_value(v)) == Ok::<
            UExpressionInner<T>,
            Error,
        >(UExpression::<T>::from_value(v)),
{
}

pub proof fn lemma_add_fixed<T: Field>(
    c: Known<T>,
    bw: UBitwidth,
    l: UExpressionInner<T>,
    r: UExpressionInner<T>,
)
    requires
        folded_uint_inner(c, bw, l) == Ok::<UExpressionInner<T>, Error>(l),
        folded_uint_inner(c, bw, r) == Ok::<UExpressionInner<T>, Error>(r),
    ensures
        folded_uint_inner(c, bw, uint_rules::folded_add(bw, l, r)) == Ok::<
            UExpressionInner<T>,
            Error,
        >(uint_rules::folded_add(bw, l, r)),
{
    let out = uint_rules::folded_add(bw, l, r);
    if out is Value {
    } else if out == l || out == r {
    } else {
        lemma_node_operands::<T, OpAdd>(c, bw, l, r);
        if r is Value {
            let v = UExpression::<T>::from_value(r->Value_0.value);
            lemma_literal_fixed::<T>(c, bw, r->Value_0.value);
            lemma_node_operands::<T, OpAdd>(c, bw, l, v);
        }
        if l is Value {
            let v = UExpression::<T>::from_value(l->Value_0.value);
            lemma_literal_fixed::<T>(c, bw, l->Value_0.value);
            lemma_node_operands::<T, OpAdd>(c, bw, r, v);
        }
        assert(out is Add);
        let b = out->Add_0;
        assert(folded_operands(c, b) == Ok::<(UExpressionInner<T>, UExpressionInner<T>), Error>(
            (b.left.inner, b.right.inner),
        ));
        assert(uint_rules::folded_add(bw, b.left.inner, b.right.inner) == out);
    }
}

pub proof fn lemma_sub_fixed<T: Field>(
    c: Known<T>,
    bw: UBitwidth,
    l: UExpressionInner<T>,
    r: UExpressionInner<T>,
)
    requires
        folded_uint_inner(c, bw, l) == Ok::<UExpressionInner<T>, Error>(l),
        folded_uint_inner(c, bw, r) == Ok::<UExpressionInner<T>, Error>(r),
    ensures
        folded_uint_inner(c, bw, uint_rules::folded_sub(bw, l, r)) == Ok::<
            UExpressionInner<T>,
            Error,
        >(uint_rules::folded_sub(bw, l, r)),
{
    let out = uint_rules::folded_sub(bw, l, r);
    if out is Value {
    } else if out == l || out == r {
    } else {
        lemma_node_operands::<T, OpSub>(c, bw, l, r);
        if r is Value {
            let v = UExpression::<T>::from_value(r->Value_0.value);
            lemma_literal_fixed::<T>(c, bw, r->Value_0.value);
            lemma_node_operands::<T, OpSub>(c, bw, l, v);
        }
        if l is Value {
            let v = UExpression::<T>::from_value(l->Value_0.value);
            lemma_literal_fixed::<T>(c, bw, l->Value_0.value);
            lemma_node_operands::<T, OpSub>(c, bw, r, v);
        }
        assert(out is Sub);
        let b = out->Sub_0;
        assert(folded_operands(c, b) == Ok::<(UExpressionInner<T>, UExpressionInner<T>), Error>(
            (b.left.inner, b.right.inner),
        ));
        assert(uint_rules::folded_sub(bw, b.left.inner, b.right.inner) == out);
    }
}

pub proof fn lemma_floor_sub_fixed<T: Field>(
    c: Known<T>,
    bw: UBitwidth,
    l: UExpressionInner<T>,
    r: UExpressionInner<T>,
)
    requires
        folded_uint_inner(c, bw, l) == Ok::<UExpressionInner<T>, Error>(l),
        folded_uint_inner(c, bw, r) == Ok::<UExpressionInner<T>, Error>(r),
    ensures
        folded_uint_inner(c, bw, uint_rules::folded_floor_sub(bw, l, r)) == Ok::<
            UExpressionInner<T>,
            Error,
        >(uint_rules::folded_floor_sub(bw, l, r)),
{
    let out = uint_rules::folded_floor_sub(bw, l, r);
    if out is Value {
    } else if out == l || out == r {
    } else {
        lemma_node_operands::<T, OpFloorSub>(c, bw, l, r);
        if r is Value {
            let v = UExpression::<T>::from_value(r->Value_0.value);
            lemma_literal_fixed::<T>(c, bw, r->Value_0.value);
            lemma_node_operands::<T, OpFloorSub>(c, bw, l, v);
        }
        if l is Value {
            let v = UExpression::<T>::from_value(l->Value_0.value);
            lemma_literal_fixed::<T>(c, bw, l->Value_0.value);
            lemma_node_operands::<T, OpFloorSub>(c, bw, r, v);
        }
        assert(out is FloorSub);
        let b = out->FloorSub_0;
        assert(folded_operands(c, b) == Ok::<(UExpressionInner<T>, UExpressionInner<T>), Error>(
            (b.left.inner, b.right.inner),
        ));
        assert(uint_rules::folded_floor_sub(bw, b.left.inner, b.right.inner) == out);
    }
}

pub proof fn lemma_mult_fixed<T: Field>(
    c: Known<T>,
    bw: UBitwidth,
    l: UExpressionInner<T>,
    r: UExpressionInner<T>,
)
    requires
        folded_uint_inner(c, bw, l) == Ok::<UExpressionInner<T>, Error>(l),
        folded_uint_inner(c, bw, r) == Ok::<UExpressionInner<T>, Error>(r),
    ensures
        folded_uint_inner(c, bw, uint_rules::folded_mult(bw, l, r)) == Ok::<
            UExpressionInner<T>,
            Error,
        >(uint_rules::folded_mult(bw, l, r)),
{
    let out = uint_rules::folded_mult(bw, l, r);
    if out is Value {
    } else if out == l || out == r {
    } else {
        lemma_node_operands::<T, OpMul>(c, bw, l, r);
        if r is Value {
            let v = UExpression::<T>::from_value(r->Value_0.value);
            lemma_literal_fixed::<T>(c, bw, r->Value_0.value);
            lemma_node_operands::<T, OpMul>(c, bw, l, v);
        }
        if l is Value {
            let v = UExpression::<T>::from_value(l->Value_0.value);
            lemma_literal_fixed::<T>(c, bw, l->Value_0.value);
            lemma_node_operands::<T, OpMul>(c, bw, r, v);
        }
        assert(out is Mult);
        let b = out->Mult_0;
        assert(folded_operands(c, b) == Ok::<(UExpressionInner<T>, UExpressionInner<T>), Error>(
            (b.left.inner, b.right.inner),
        ));
        assert(uint_rules::folded_mult(bw, b.left.inner, b.right.inner) == out);
    }
}

pub proof fn lemma_div_fixed<T: Field>(
    c: Known<T>,
    bw: UBitwidth,
    l: UExpressionInner<T>,
    r: UExpressionInner<T>,
)
    requires
        folded_uint_inner(c, bw, l) == Ok::<UExpressionInner<T>, Error>(l),
        folded_uint_inner(c, bw, r) == Ok::<UExpressionInner<T>, Error>(r),
    ensures
        folded_uint_inner(c, bw, uint_rules::folded_div(bw, l, r)) == Ok::<
            UExpressionInner<T>,
            Error,
        >(uint_rules::folded_div(bw, l, r)),
{
    let out = uint_rules::folded_div(bw, l, r);
    if out is Value {
    } else if out == l || out == r {
    } else {
        lemma_node_operands::<T, OpDiv>(c, bw, l, r);
        if r is Value {
            let v = UExpression::<T>::from_value(r->Value_0.value);
            lemma_literal_fixed::<T>(c, bw, r->Value_0.value);
            lemma_node_operands::<T, OpDiv>(c, bw, l, v);
        }
        if l is Value {
            let v = UExpression::<T>::from_value(l->Value_0.value);
            lemma_literal_fixed::<T>(c, bw, l->Value_0.value);
            lemma_node_operands::<T, OpDiv>(c, bw, r, v);
        }
        assert(out is Div);
        let b = out->Div_0;
        assert(folded_operands(c, b) == Ok::<(UExpressionInner<T>, UExpressionInner<T>), Error>(
            (b.left.inner, b.right.inner),
        ));
        assert(uint_rules::folded_div(bw, b.left.inner, b.right.inner) == out);
    }
}

pub proof fn lemma_rem_fixed<T: Field>(
    c: Known<T>,
    bw: UBitwidth,
    l: UExpressionInner<T>,
    r: UExpressionInner<T>,
)
    requires
        folded_uint_inner(c, bw, l) == Ok::<UExpressionInner<T>, Error>(l),
        folded_uint_inner(c, bw, r) == Ok::<UExpressionInner<T>, Error>(r),
    ensures
        folded_uint_inner(c, bw, uint_rules::folded_rem(bw, l, r)) == Ok::<
            UExpressionInner<T>,
            Error,
        >(uint_rules::folded_rem(bw, l, r)),
{
    let out = uint_rules::folded_rem(bw, l, r);
    if out is Value {
    } else if out == l || out == r {
    } else {
        lemma_node_operands::<T, OpRem>(c, bw, l, r);
        if r is Value {
            let v = UExpression::<T>::from_value(r->Value_0.value);
            lemma_literal_fixed::<T>(c, bw, r->Value_0.value);
            lemma_node_operands::<T, OpRem>(c, bw, l, v);
        }
        if l is Value {
            let v = UExpression::<T>::from_value(l->Value_0.value);
            lemma_literal_fixed::<T>(c, bw, l->Value_0.value);
            lemma_node_operands::<T, OpRem>(c, bw, r, v);
        }
        assert(out is Rem);
        let b = out->Rem_0;
        assert(folded_operands(c, b) == Ok::<(UExpressionInner<T>, UExpressionInner<T>), Error>(
            (b.left.inner, b.right.inner),
        ));
        assert(uint_rules::folded_rem(bw, b.left.inner, b.right.inner) == out);
    }
}

pub proof fn lemma_xor_fixed<T: Field>(
    c: Known<T>,
    bw: UBitwidth,
    l: UExpressionInner<T>,
    r: UExpressionInner<T>,
)
    requires
        folded_uint_inner(c, bw, l) == Ok::<UExpressionInner<T>, Error>(l),
        folded_uint_inner(c, bw, r) == Ok::<UExpressionInner<T>, Error>(r),
    ensures
        folded_uint_inner(c, bw, uint_rules::folded_xor(bw, l, r)) == Ok::<
            UExpressionInner<T>,
            Error,
        >(uint_rules::folded_xor(bw, l, r)),
{
    let out = uint_rules::folded_xor(bw, l, r);
    if out is Value {
    } else if out == l || out == r {
    } else {
        lemma_node_operands::<T, OpXor>(c, bw, l, r);
        if r is Value {
            let v = UExpression::<T>::from_value(r->Value_0.value);
            lemma_literal_fixed::<T>(c, bw, r->Value_0.value);
            lemma_node_operands::<T, OpXor>(c, bw, l, v);
        }
        if l is Value {
            let v = UExpression::<T>::from_value(l->Value_0.value);
            lemma_literal_fixed::<T>(c, bw, l->Value_0.value);
            lemma_node_operands::<T, OpXor>(c, bw, r, v);
        }
        assert(out is Xor);
        let b = out->Xor_0;
        assert(folded_operands(c, b) == Ok::<(UExpressionInner<T>, UExpressionInner<T>), Error>(
            (b.left.inner, b.right.inner),
        ));
        assert(uint_rules::folded_xor(bw, b.left.inner, b.right.inner) == out);
    }
}

pub proof fn lemma_and_fixed<T: Field>(
    c: Known<T>,
    bw: UBitwidth,
    l: UExpressionInner<T>,
    r: UExpressionInner<T>,
)
    requires
        folded_uint_inner(c, bw, l) == Ok::<UExpressionInner<T>, Error>(l),
        folded_uint_inner(c, bw, r) == Ok::<UExpressionInner<T>, Error>(r),
    ensures
        folded_uint_inner(c, bw, uint_rules::folded_and(bw, l, r)) == Ok::<
            UExpressionInner<T>,
            Error,
        >(uint_rules::folded_and(bw, l, r)),
{
    let out = uint_rules::folded_and(bw, l, r);
    if out is Value {
    } else if out == l || out == r {
    } else {
        lemma_node_operands::<T, OpAnd>(c, bw, l, r);
        if r is Value {
            let v = UExpression::<T>::from_value(r->Value_0.value);
            lemma_literal_fixed::<T>(c, bw, r->Value_0.value);
            lemma_node_operands::<T, OpAnd>(c, bw, l, v);
        }
        if l is Value {
            let v = UExpression::<T>::from_value(l->Value_0.value);
            lemma_literal_fixed::<T>(c, bw, l->Value_0.value);
            lemma_node_operands::<T, OpAnd>(c, bw, r, v);
        }
        assert(out is And);
        let b = out->And_0;
        assert(folded_operands(c, b) == Ok::<(UExpressionInner<T>, UExpressionInner<T>), Error>(
            (b.left.inner, b.right.inner),
        ));
        assert(uint_rules::folded_and(bw, b.left.inner, b.right.inner) == out);
    }
}

pub proof fn lemma_left_shift_fixed<T: Field>(
    c: Known<T>,
    bw: UBitwidth,
    l: UExpressionInner<T>,
    by: UExpressionInner<T>,
)
    requires
        folded_uint_inner(c, bw, l) == Ok::<UExpressionInner<T>, Error>(l),
        folded_uint_inner(c, UBitwidth::B32, by) == Ok::<UExpressionInner<T>, Error>(by),
    ensures
        folded_uint_inner(c, bw, uint_rules::folded_left_shift(bw, l, by)) == Ok::<
            UExpressionInner<T>,
            Error,
        >(uint_rules::folded_left_shift(bw, l, by)),
{
    let out = uint_rules::folded_left_shift(bw, l, by);
    if out is Value {
    } else {
        lemma_shift_operands::<T, OpLsh>(c, bw, l, by);
        assert(out is LeftShift);
        let b = out->LeftShift_0;
        assert(b == uint_rules::shift_node::<T, OpLsh>(bw, l, by));
        assert(folded_operands(c, b) == Ok::<(UExpressionInner<T>, UExpressionInner<T>), Error>(
            (l, by),
        ));
    }
}

pub proof fn lemma_right_shift_fixed<T: Field>(
    c: Known<T>,
    bw: UBitwidth,
    l: UExpressionInner<T>,
    by: UExpressionInner<T>,
)
    requires
        folded_uint_inner(c, bw, l) == Ok::<UExpressionInner<T>, Error>(l),
        folded_uint_inner(c, UBitwidth::B32, by) == Ok::<UExpressionInner<T>, Error>(by),
    ensures
        folded_uint_inner(c, bw, uint_rules::folded_right_shift(bw, l, by)) == Ok::<
            UExpressionInner<T>,
            Error,
        >(uint_rules::folded_right_shift(bw, l, by)),
{
    let out = uint_rules::folded_right_shift(bw, l, by);
    if out is Value {
    } else {
        lemma_shift_operands::<T, OpRsh>(c, bw, l, by);
        assert(out is RightShift);
        let b = out->RightShift_0;
        assert(b == uint_rules::shift_node::<T, OpRsh>(bw, l, by));
        assert(folded_operands(c, b) == Ok::<(UExpressionInner<T>, UExpressionInner<T>), Error>(
            (l, by),
        ));
    }
}

pub proof fn lemma_not_fixed<T: Field>(c: Known<T>, bw: UBitwidth, e: UExpressionInner<T>)
    requires
        folded_uint_inner(c, bw, e) == Ok::<UExpressionInner<T>, Error>(e),
    ensures
        folded_uint_inner(c, bw, uint_rules::folded_not(bw, e)) == Ok::<
            UExpressionInner<T>,
            Error,
        >(uint_rules::folded_not(bw, e)),
{
    let out = uint_rules::folded_not(bw, e);
    if out is Value {
    } else {
        assert(folded_uint(c, e.annotate(bw)) == Ok::<UExpression<T>, Error>(e.annotate(bw)));
        assert(out is Not);
    }
}

pub proof fn lemma_neg_fixed<T: Field>(c: Known<T>, bw: UBitwidth, e: UExpressionInner<T>)
    requires
        folded_uint_inner(c, bw, e) == Ok::<UExpressionInner<T>, Error>(e),
    ensures
        folded_uint_inner(c, bw, uint_rules::folded_neg(bw, e)) == Ok::<
            UExpressionInner<T>,
            Error,
        >(uint_rules::folded_neg(bw, e)),
{
    let out = uint_rules::folded_neg(bw, e);
    if out is Value {
    } else {
        assert(folded_uint(c, e.annotate(bw)) == Ok::<UExpression<T>, Error>(e.annotate(bw)));
        assert(out is Neg);
    }
}

pub proof fn lemma_pos_fixed<T: Field>(c: Known<T>, bw: UBitwidth, e: UExpressionInner<T>)
    requires
        folded_uint_inner(c, bw, e) == Ok::<UExpressionInner<T>, Error>(e),
    ensures
        folded_uint_inner(c, bw, uint_rules::folded_pos(bw, e)) == Ok::<
            UExpressionInner<T>,
            Error,
        >(uint_rules::folded_pos(bw, e)),
{
    let out = uint_rules::folded_pos(bw, e);
    if out is Value {
    } else {
        assert(folded_uint(c, e.annotate(bw)) == Ok::<UExpression<T>, Error>(e.annotate(bw)));
        assert(out is Pos);
    }
}


/// A known value takes the place of a variable once: the pass leaves the
/// value alone, and a variable that it has left alone it leaves alone again.
pub proof fn lemma_identifier_fixed<T: Field, E>(
    c: Known<T>,
    c2: Known<T>,
    id: IdentifierExpression<Identifier, E>,
    family: Family,
)
    requires
        c2.submap_of(c),
        settled(c, c2),
    ensures
        match folded_identifier(c, id, family) {
            IdentifierOrExpression::Expression(k) => fixed(c2, k) && k.family() == family,
            IdentifierOrExpression::Identifier(i) => folded_identifier(c2, i, family)
                == IdentifierOrExpression::<Identifier, E, TypedExpression<T>>::Identifier(i),
        },
{
    if c2.contains_key(id.id.id) {
        assert(c.contains_key(id.id.id));
        assert(c2[id.id.id] == c[id.id.id]);
    }
}

/// A selection from an array that is no literal is left alone.
pub proof fn lemma_typed_select_fixed<T: Field>(c: Known<T>, array: ArrayExpression<T>, n: u128)
    requires
        fixed_array(c, array),
        !(array.inner is Value),
        array.ty.size is Constant,
    ensures
        fixed(c, typed_select(array, UExpression::from_value(n).annotate(UBitwidth::B32))),
{
    let index = UExpression::<T>::from_value(n).annotate(UBitwidth::B32);
    let select = SelectExpression::new(array, index);
    assert(folded_uint(c, index) == Ok::<UExpression<T>, Error>(index));
    assert forall|family: Family| #[trigger]
        folded_select_expression(c, select, family) == Ok::<SelectOrExpression<T>, Error>(
            SelectOrExpression::Select(select),
        ) by {
        assert(folded_select(array, index, family) == Ok::<SelectOrExpression<T>, Error>(
            SelectOrExpression::Select(select),
        ));
    }
    let e = typed_select(array, index);
    match e {
        TypedExpression::FieldElement(f) => {
            assert(folded_select_expression(c, select, Family::FieldElement) == Ok::<
                SelectOrExpression<T>,
                Error,
            >(SelectOrExpression::Select(select)));
        },
        TypedExpression::Boolean(b) => {
            assert(folded_select_expression(c, select, Family::Boolean) == Ok::<
                SelectOrExpression<T>,
                Error,
            >(SelectOrExpression::Select(select)));
        },
        TypedExpression::Uint(u) => {
            assert(folded_select_expression(c, select, Family::Uint(u.bitwidth)) == Ok::<
                SelectOrExpression<T>,
                Error,
            >(SelectOrExpression::Select(select)));
            assert(folded_uint_inner(c, u.bitwidth, u.inner) == Ok::<UExpressionInner<T>, Error>(
                u.inner,
            ));
        },
        TypedExpression::Array(a) => {
            assert(folded_select_expression(c, select, Family::Array) == Ok::<
                SelectOrExpression<T>,
                Error,
            >(SelectOrExpression::Select(select)));
            assert(folded_array_inner(c, a.inner) == Ok::<ArrayExpressionInner<T>, Error>(
                a.inner,
            ));
        },
        TypedExpression::Struct(s) => {
            assert(folded_select_expression(c, select, Family::Struct) == Ok::<
                SelectOrExpression<T>,
                Error,
            >(SelectOrExpression::Select(select)));
            assert(folded_struct_inner(c, s.ty.members, s.inner) == Ok::<
                StructExpressionInner<T>,
                Error,
            >(s.inner));
        },
        TypedExpression::Tuple(t) => {
            assert(folded_select_expression(c, select, Family::Tuple) == Ok::<
                SelectOrExpression<T>,
                Error,
            >(SelectOrExpression::Select(select)));
            assert(folded_tuple_inner(c, t.ty.elements, t.inner) == Ok::<
                TupleExpressionInner<T>,
                Error,
            >(t.inner));
        },
    }
}

/// The elements of an array literal that the pass leaves alone are left
/// alone, each by itself.
pub proof fn lemma_expression_at_fixed<T: Field>(
    c: Known<T>,
    l: List<TypedExpressionOrSpread<T>>,
    n: nat,
)
    requires
        fixed_elements(c, l),
        n <= u128::MAX,
    ensures
        expression_at(l, n) matches Some(e) ==> fixed(c, e),
    decreases l,
{
    match l {
        List::Nil => {},
        List::Cons(node) => match node.head {
            TypedExpressionOrSpread::Expression(e) => {
                if n > 0 {
                    lemma_expression_at_fixed(c, node.tail, (n - 1) as nat);
                }
            },
            TypedExpressionOrSpread::Spread(s) => match s.array.ty.size {
                crate::types::ArraySize::Constant(k) => {
                    if n < k {
                        lemma_typed_select_fixed(c, s.array, n as u128);
                    } else {
                        lemma_expression_at_fixed(c, node.tail, (n - k) as nat);
                    }
                },
                _ => {},
            },
        },
    }
}

/// The rule for selections, applied to operands that the pass leaves alone,
/// gives what the pass leaves alone.
pub proof fn lemma_select_rule_fixed<T: Field>(
    c: Known<T>,
    array: ArrayExpression<T>,
    index: UExpression<T>,
    family: Family,
)
    requires
        fixed_array(c, array),
        folded_uint(c, index) == Ok::<UExpression<T>, Error>(index),
        index.bitwidth == UBitwidth::B32,
    ensures
        match folded_select(array, index, family) {
            Ok(SelectOrExpression::Select(s)) => folded_select_expression(c, s, family) == Ok::<
                SelectOrExpression<T>,
                Error,
            >(SelectOrExpression::Select(s)),
            Ok(SelectOrExpression::Expression(e)) => fixed(c, e) && e.family() == family,
            Err(_) => true,
        },
{
    match folded_select(array, index, family) {
        Ok(SelectOrExpression::Select(s)) => {
            assert(*s.array == array);
            assert(folded_array(c, *s.array) == Ok::<ArrayExpression<T>, Error>(array));
            assert(folded_uint(c, *s.index) == Ok::<UExpression<T>, Error>(*s.index));
            assert(folded_select(array, *s.index, family) == Ok::<SelectOrExpression<T>, Error>(
                SelectOrExpression::Select(s),
            ));
        },
        Ok(SelectOrExpression::Expression(e)) => {
            let v = array.inner->Value_0;
            let n = index.inner->Value_0;
            lemma_expression_at_fixed(c, v.value, n.value as nat);
        },
        Err(_) => {},
    }
}


pub proof fn lemma_expression_idempotent<T: Field>(c: Known<T>, c2: Known<T>, e: TypedExpression<T>)
    requires
        c2.submap_of(c),
        settled(c, c2),
        regular_expression(e),
        folded_expression(c, e) is Ok,
    ensures
        fixed(c2, folded_expression(c, e)->Ok_0),
    decreases e,
{
    match e {
        TypedExpression::Boolean(b) => lemma_boolean_idempotent(c, c2, b),
        TypedExpression::FieldElement(f) => lemma_field_idempotent(c, c2, f),
        TypedExpression::Uint(u) => lemma_uint_idempotent(c, c2, u),
        TypedExpression::Array(a) => lemma_array_idempotent(c, c2, a),
        TypedExpression::Struct(s) => lemma_struct_idempotent(c, c2, s),
        TypedExpression::Tuple(t) => lemma_tuple_idempotent(c, c2, t),
    }
}

pub proof fn lemma_select_idempotent<T: Field>(
    c: Known<T>,
    c2: Known<T>,
    s: SelectExpression<T>,
    family: Family,
)
    requires
        c2.submap_of(c),
        settled(c, c2),
        regular_select(s),
        folded_select_expression(c, s, family) is Ok,
    ensures
        match folded_select_expression(c, s, family)->Ok_0 {
            SelectOrExpression::Select(r) => folded_select_expression(c2, r, family) == Ok::<
                SelectOrExpression<T>,
                Error,
            >(SelectOrExpression::Select(r)),
            SelectOrExpression::Expression(e) => fixed(c2, e) && e.family() == family,
        },
    decreases s,
{
    lemma_array_idempotent(c, c2, *s.array);
    lemma_uint_idempotent(c, c2, *s.index);
    let array = folded_array(c, *s.array)->Ok_0;
    let index = folded_uint(c, *s.index)->Ok_0;
    lemma_select_rule_fixed(c2, array, index, family);
}

pub proof fn lemma_member_idempotent<T: Field>(
    c: Known<T>,
    c2: Known<T>,
    m: MemberExpression<T>,
    family: Family,
)
    requires
        c2.submap_of(c),
        settled(c, c2),
        regular_member(m),
        folded_member_expression(c, m, family) is Ok,
    ensures
        match folded_member_expression(c, m, family)->Ok_0 {
            MemberOrExpression::Member(r) => folded_member_expression(c2, r, family) == Ok::<
                MemberOrExpression<T>,
                Error,
            >(MemberOrExpression::Member(r)),
            MemberOrExpression::Expression(e) => fixed(c2, e) && e.family() == family,
        },
    decreases m,
{
    lemma_struct_idempotent(c, c2, *m.struc);
    let struc = folded_struct(c, *m.struc)->Ok_0;
    let r = MemberExpression::new(struc, m.id);
    assert(folded_member(struc, m.id, family) == MemberOrExpression::Member(r));
    assert(folded_struct(c2, *r.struc) == Ok::<StructExpression<T>, Error>(struc));
}

pub proof fn lemma_element_idempotent<T: Field>(
    c: Known<T>,
    c2: Known<T>,
    m: ElementExpression<T>,
    family: Family,
)
    requires
        c2.submap_of(c),
        settled(c, c2),
        regular_element(m),
        folded_element_expression(c, m, family) is Ok,
    ensures
        match folded_element_expression(c, m, family)->Ok_0 {
            ElementOrExpression::Element(r) => folded_element_expression(c2, r, family) == Ok::<
                ElementOrExpression<T>,
                Error,
            >(ElementOrExpression::Element(r)),
            ElementOrExpression::Expression(e) => fixed(c2, e) && e.family() == family,
        },
    decreases m,
{
    lemma_tuple_idempotent(c, c2, *m.tuple);
    let tuple = folded_tuple(c, *m.tuple)->Ok_0;
    let r = ElementExpression::new(tuple, m.index);
    assert(folded_element(tuple, m.index, family) == ElementOrExpression::Element(r));
    assert(folded_tuple(c2, *r.tuple) == Ok::<TupleExpression<T>, Error>(tuple));
}

pub proof fn lemma_field_idempotent<T: Field>(
    c: Known<T>,
    c2: Known<T>,
    e: FieldElementExpression<T>,
)
    requires
        c2.submap_of(c),
        settled(c, c2),
        regular_field(e),
        folded_field(c, e) is Ok,
    ensures
        folded_field(c2, folded_field(c, e)->Ok_0) == Ok::<FieldElementExpression<T>, Error>(
            folded_field(c, e)->Ok_0,
        ),
    decreases e,
{
    let out = folded_field(c, e)->Ok_0;
    match e {
        FieldElementExpression::Number(n) => {},
        FieldElementExpression::Identifier(id) => {
            lemma_identifier_fixed(c, c2, id, Family::FieldElement);
        },
        FieldElementExpression::Add(b) => {
            lemma_field_idempotent(c, c2, *b.left);
            lemma_field_idempotent(c, c2, *b.right);
            if out is Add {
                assert(folded_field(c2, *(out->Add_0).left) is Ok);
                assert(folded_field(c2, *(out->Add_0).right) is Ok);
            }
        },
        FieldElementExpression::Sub(b) => {
            lemma_field_idempotent(c, c2, *b.left);
            lemma_field_idempotent(c, c2, *b.right);
            if out is Sub {
                assert(folded_field(c2, *(out->Sub_0).left) is Ok);
                assert(folded_field(c2, *(out->Sub_0).right) is Ok);
            }
        },
        FieldElementExpression::Mult(b) => {
            lemma_field_idempotent(c, c2, *b.left);
            lemma_field_idempotent(c, c2, *b.right);
            if out is Mult {
                assert(folded_field(c2, *(out->Mult_0).left) is Ok);
                assert(folded_field(c2, *(out->Mult_0).right) is Ok);
            }
        },
        FieldElementExpression::Div(b) => {
            lemma_field_idempotent(c, c2, *b.left);
            lemma_field_idempotent(c, c2, *b.right);
            if out is Div {
                assert(folded_field(c2, *(out->Div_0).left) is Ok);
                assert(folded_field(c2, *(out->Div_0).right) is Ok);
            }
        },
        FieldElementExpression::Pow(b) => {
            lemma_field_idempotent(c, c2, *b.left);
            lemma_uint_idempotent(c, c2, *b.right);
            if out is Pow {
                assert(folded_field(c2, *(out->Pow_0).left) is Ok);
                assert(folded_uint(c2, *(out->Pow_0).right) == Ok::<UExpression<T>, Error>(
                    *(out->Pow_0).right,
                ));
            }
        },
        FieldElementExpression::Neg(u) => {
            lemma_field_idempotent(c, c2, *u.inner);
            if out is Neg {
                assert(folded_field(c2, *(out->Neg_0).inner) is Ok);
            }
        },
        FieldElementExpression::Pos(u) => {
            lemma_field_idempotent(c, c2, *u.inner);
            if out is Pos {
                assert(folded_field(c2, *(out->Pos_0).inner) is Ok);
            }
        },
        FieldElementExpression::Conditional(x) => {
            lemma_boolean_idempotent(c, c2, *x.condition);
            lemma_field_idempotent(c, c2, *x.consequence);
            lemma_field_idempotent(c, c2, *x.alternative);
            let condition = folded_boolean(c, *x.condition)->Ok_0;
            let consequence = folded_field(c, *x.consequence)->Ok_0;
            let alternative = folded_field(c, *x.alternative)->Ok_0;
            match folded_conditional(condition, consequence, alternative, x.kind) {
                ConditionalOrExpression::Conditional(y) => {
                    assert(folded_boolean(c2, *y.condition) is Ok);
                    assert(folded_field(c2, *y.consequence) is Ok);
                    assert(folded_field(c2, *y.alternative) is Ok);
                },
                ConditionalOrExpression::Expression(_) => {},
            }
        },
        FieldElementExpression::Select(s) => {
            lemma_select_idempotent(c, c2, s, Family::FieldElement);
        },
        FieldElementExpression::Member(m) => {
            lemma_member_idempotent(c, c2, m, Family::FieldElement);
        },
        FieldElementExpression::Element(m) => {
            lemma_element_idempotent(c, c2, m, Family::FieldElement);
        },
    }
}


/// The comparisons, once rewritten, are left alone.
pub proof fn lemma_order_idempotent<T: Field>(c: Known<T>, c2: Known<T>, e: BooleanExpression<T>)
    requires
        c2.submap_of(c),
        settled(c, c2),
        regular_boolean(e),
        folded_boolean(c, e) is Ok,
        e is FieldLt || e is FieldLe || e is UintLt || e is UintLe,
    ensures
        folded_boolean(c2, folded_boolean(c, e)->Ok_0) == Ok::<BooleanExpression<T>, Error>(
            folded_boolean(c, e)->Ok_0,
        ),
    decreases e, 0int,
{
    let out = folded_boolean(c, e)->Ok_0;
    match e {
        BooleanExpression::FieldLt(b) => {
            lemma_field_idempotent(c, c2, *b.left);
            lemma_field_idempotent(c, c2, *b.right);
            if out is FieldLt {
                assert(folded_field(c2, *(out->FieldLt_0).left) is Ok);
                assert(folded_field(c2, *(out->FieldLt_0).right) is Ok);
            }
        },
        BooleanExpression::FieldLe(b) => {
            lemma_field_idempotent(c, c2, *b.left);
            lemma_field_idempotent(c, c2, *b.right);
            if out is FieldLe {
                assert(folded_field(c2, *(out->FieldLe_0).left) is Ok);
                assert(folded_field(c2, *(out->FieldLe_0).right) is Ok);
            }
        },
        BooleanExpression::UintLt(b) => {
            lemma_uint_idempotent(c, c2, *b.left);
            lemma_uint_idempotent(c, c2, *b.right);
            if out is UintLt {
                assert(folded_uint(c2, *(out->UintLt_0).left) is Ok);
                assert(folded_uint(c2, *(out->UintLt_0).right) is Ok);
            }
        },
        BooleanExpression::UintLe(b) => {
            lemma_uint_idempotent(c, c2, *b.left);
            lemma_uint_idempotent(c, c2, *b.right);
            if out is UintLe {
                assert(folded_uint(c2, *(out->UintLe_0).left) is Ok);
                assert(folded_uint(c2, *(out->UintLe_0).right) is Ok);
            }
        },
        _ => {},
    }
}

/// The equalities, once rewritten, are left alone.
pub proof fn lemma_equality_idempotent<T: Field>(c: Known<T>, c2: Known<T>, e: BooleanExpression<T>)
    requires
        c2.submap_of(c),
        settled(c, c2),
        regular_boolean(e),
        folded_boolean(c, e) is Ok,
        e is FieldEq || e is BoolEq || e is ArrayEq || e is StructEq || e is TupleEq || e is UintEq,
    ensures
        folded_boolean(c2, folded_boolean(c, e)->Ok_0) == Ok::<BooleanExpression<T>, Error>(
            folded_boolean(c, e)->Ok_0,
        ),
    decreases e, 0int,
{
    let out = folded_boolean(c, e)->Ok_0;
    match e {
        BooleanExpression::FieldEq(b) => {
            lemma_field_idempotent(c, c2, *b.left);
            lemma_field_idempotent(c, c2, *b.right);
            if out is FieldEq {
                assert(folded_field(c2, *(out->FieldEq_0).left) is Ok);
                assert(folded_field(c2, *(out->FieldEq_0).right) is Ok);
            }
        },
        BooleanExpression::BoolEq(b) => {
            lemma_boolean_idempotent(c, c2, *b.left);
            lemma_boolean_idempotent(c, c2, *b.right);
            if out is BoolEq {
                assert(folded_boolean(c2, *(out->BoolEq_0).left) is Ok);
                assert(folded_boolean(c2, *(out->BoolEq_0).right) is Ok);
            }
        },
        BooleanExpression::ArrayEq(b) => {
            lemma_array_idempotent(c, c2, *b.left);
            lemma_array_idempotent(c, c2, *b.right);
            if out is ArrayEq {
                assert(folded_array(c2, *(out->ArrayEq_0).left) is Ok);
                assert(folded_array(c2, *(out->ArrayEq_0).right) is Ok);
            }
        },
        BooleanExpression::StructEq(b) => {
            lemma_struct_idempotent(c, c2, *b.left);
            lemma_struct_idempotent(c, c2, *b.right);
            if out is StructEq {
                assert(folded_struct(c2, *(out->StructEq_0).left) is Ok);
                assert(folded_struct(c2, *(out->StructEq_0).right) is Ok);
            }
        },
        BooleanExpression::TupleEq(b) => {
            lemma_tuple_idempotent(c, c2, *b.left);
            lemma_tuple_idempotent(c, c2, *b.right);
            if out is TupleEq {
                assert(folded_tuple(c2, *(out->TupleEq_0).left) is Ok);
                assert(folded_tuple(c2, *(out->TupleEq_0).right) is Ok);
            }
        },
        BooleanExpression::UintEq(b) => {
            lemma_uint_idempotent(c, c2, *b.left);
            lemma_uint_idempotent(c, c2, *b.right);
            if out is UintEq {
                assert(folded_uint(c2, *(out->UintEq_0).left) is Ok);
                assert(folded_uint(c2, *(out->UintEq_0).right) is Ok);
            }
        },
        _ => {},
    }
}

pub proof fn lemma_boolean_idempotent<T: Field>(c: Known<T>, c2: Known<T>, e: BooleanExpression<T>)
    requires
        c2.submap_of(c),
        settled(c, c2),
        regular_boolean(e),
        folded_boolean(c, e) is Ok,
    ensures
        folded_boolean(c2, folded_boolean(c, e)->Ok_0) == Ok::<BooleanExpression<T>, Error>(
            folded_boolean(c, e)->Ok_0,
        ),
    decreases e, 1int,
{
    let out = folded_boolean(c, e)->Ok_0;
    match e {
        BooleanExpression::Value(v) => {},
        BooleanExpression::Identifier(id) => {
            lemma_identifier_fixed(c, c2, id, Family::Boolean);
        },
        BooleanExpression::FieldLt(_) | BooleanExpression::FieldLe(_) | BooleanExpression::UintLt(_)
        | BooleanExpression::UintLe(_) => {
            lemma_order_idempotent(c, c2, e);
        },
        BooleanExpression::FieldEq(_) | BooleanExpression::BoolEq(_) | BooleanExpression::ArrayEq(_)
        | BooleanExpression::StructEq(_) | BooleanExpression::TupleEq(_) | BooleanExpression::UintEq(
            _,
        ) => {
            lemma_equality_idempotent(c, c2, e);
        },
        BooleanExpression::Or(b) => {
            lemma_boolean_idempotent(c, c2, *b.left);
            lemma_boolean_idempotent(c, c2, *b.right);
            let l = folded_boolean(c, *b.left)->Ok_0;
            let r = folded_boolean(c, *b.right)->Ok_0;
            if out != l && out != r && out is Or {
                assert(folded_boolean(c2, *(out->Or_0).left) is Ok);
                assert(folded_boolean(c2, *(out->Or_0).right) is Ok);
            }
        },
        BooleanExpression::And(b) => {
            lemma_boolean_idempotent(c, c2, *b.left);
            lemma_boolean_idempotent(c, c2, *b.right);
            let l = folded_boolean(c, *b.left)->Ok_0;
            let r = folded_boolean(c, *b.right)->Ok_0;
            if out != l && out != r && out is And {
                assert(folded_boolean(c2, *(out->And_0).left) is Ok);
                assert(folded_boolean(c2, *(out->And_0).right) is Ok);
            }
        },
        BooleanExpression::Not(u) => {
            lemma_boolean_idempotent(c, c2, *u.inner);
            if out is Not {
                assert(folded_boolean(c2, *(out->Not_0).inner) is Ok);
            }
        },
        BooleanExpression::Conditional(x) => {
            lemma_boolean_idempotent(c, c2, *x.condition);
            lemma_boolean_idempotent(c, c2, *x.consequence);
            lemma_boolean_idempotent(c, c2, *x.alternative);
            let condition = folded_boolean(c, *x.condition)->Ok_0;
            let consequence = folded_boolean(c, *x.consequence)->Ok_0;
            let alternative = folded_boolean(c, *x.alternative)->Ok_0;
            match folded_conditional(condition, consequence, alternative, x.kind) {
                ConditionalOrExpression::Conditional(y) => {
                    assert(folded_boolean(c2, *y.condition) is Ok);
                    assert(folded_boolean(c2, *y.consequence) is Ok);
                    assert(folded_boolean(c2, *y.alternative) is Ok);
                },
                ConditionalOrExpression::Expression(_) => {},
            }
        },
        BooleanExpression::Select(s) => {
            lemma_select_idempotent(c, c2, s, Family::Boolean);
        },
        BooleanExpression::Member(m) => {
            lemma_member_idempotent(c, c2, m, Family::Boolean);
        },
        BooleanExpression::Element(m) => {
            lemma_element_idempotent(c, c2, m, Family::Boolean);
        },
    }
}

pub proof fn lemma_uint_idempotent<T: Field>(c: Known<T>, c2: Known<T>, e: UExpression<T>)
    requires
        c2.submap_of(c),
        settled(c, c2),
        regular_uint(e),
        folded_uint(c, e) is Ok,
    ensures
        folded_uint(c2, folded_uint(c, e)->Ok_0) == Ok::<UExpression<T>, Error>(
            folded_uint(c, e)->Ok_0,
        ),
        folded_uint(c, e)->Ok_0.bitwidth == e.bitwidth,
        folded_uint_inner(c2, e.bitwidth, folded_uint(c, e)->Ok_0.inner) == Ok::<
            UExpressionInner<T>,
            Error,
        >(folded_uint(c, e)->Ok_0.inner),
    decreases e,
{
    lemma_uint_inner_idempotent(c, c2, e.bitwidth, e.inner);
}

/// Both operands of an operator on unsigned integers, once rewritten, are
/// left alone.
pub proof fn lemma_operands_idempotent<T: Field, Op>(
    c: Known<T>,
    c2: Known<T>,
    bw: UBitwidth,
    b: BinaryExpression<Op, UExpression<T>, UExpression<T>, UExpression<T>>,
)
    requires
        c2.submap_of(c),
        settled(c, c2),
        regular_operands(bw, b),
        folded_operands(c, b) is Ok,
    ensures
        folded_uint_inner(c2, bw, folded_operands(c, b)->Ok_0.0) == Ok::<
            UExpressionInner<T>,
            Error,
        >(folded_operands(c, b)->Ok_0.0),
        folded_uint_inner(c2, bw, folded_operands(c, b)->Ok_0.1) == Ok::<
            UExpressionInner<T>,
            Error,
        >(folded_operands(c, b)->Ok_0.1),
    decreases b,
{
    lemma_uint_idempotent(c, c2, *b.left);
    lemma_uint_idempotent(c, c2, *b.right);
}

/// The operands of a shift, once rewritten, are left alone.
pub proof fn lemma_shift_idempotent<T: Field, Op>(
    c: Known<T>,
    c2: Known<T>,
    bw: UBitwidth,
    b: BinaryExpression<Op, UExpression<T>, UExpression<T>, UExpression<T>>,
)
    requires
        c2.submap_of(c),
        settled(c, c2),
        b.left.bitwidth == bw,
        b.right.bitwidth == UBitwidth::B32,
        regular_uint(*b.left),
        regular_uint(*b.right),
        folded_operands(c, b) is Ok,
    ensures
        folded_uint_inner(c2, bw, folded_operands(c, b)->Ok_0.0) == Ok::<
            UExpressionInner<T>,
            Error,
        >(folded_operands(c, b)->Ok_0.0),
        folded_uint_inner(c2, UBitwidth::B32, folded_operands(c, b)->Ok_0.1) == Ok::<
            UExpressionInner<T>,
            Error,
        >(folded_operands(c, b)->Ok_0.1),
    decreases b,
{
    lemma_uint_idempotent(c, c2, *b.left);
    lemma_uint_idempotent(c, c2, *b.right);
}

/// The arithmetic operators, once rewritten, are left alone.
pub proof fn lemma_arithmetic_idempotent<T: Field>(
    c: Known<T>,
    c2: Known<T>,
    bw: UBitwidth,
    e: UExpressionInner<T>,
)
    requires
        c2.submap_of(c),
        settled(c, c2),
        regular_uint_inner(bw, e),
        folded_uint_inner(c, bw, e) is Ok,
        e is Add || e is Sub || e is FloorSub || e is Mult || e is Div || e is Rem || e is Xor || e is And,
    ensures
        folded_uint_inner(c2, bw, folded_uint_inner(c, bw, e)->Ok_0) == Ok::<
            UExpressionInner<T>,
            Error,
        >(folded_uint_inner(c, bw, e)->Ok_0),
    decreases e, 0int,
{
    let out = folded_uint_inner(c, bw, e)->Ok_0;
    match e {
        UExpressionInner::Add(b) => {
            lemma_operands_idempotent(c, c2, bw, b);
            let (l, r) = folded_operands(c, b)->Ok_0;
            lemma_add_fixed(c2, bw, l, r);
        },
        UExpressionInner::Sub(b) => {
            lemma_operands_idempotent(c, c2, bw, b);
            let (l, r) = folded_operands(c, b)->Ok_0;
            lemma_sub_fixed(c2, bw, l, r);
        },
        UExpressionInner::FloorSub(b) => {
            lemma_operands_idempotent(c, c2, bw, b);
            let (l, r) = folded_operands(c, b)->Ok_0;
            lemma_floor_sub_fixed(c2, bw, l, r);
        },
        UExpressionInner::Mult(b) => {
            lemma_operands_idempotent(c, c2, bw, b);
            let (l, r) = folded_operands(c, b)->Ok_0;
            lemma_mult_fixed(c2, bw, l, r);
        },
        UExpressionInner::Div(b) => {
            lemma_operands_idempotent(c, c2, bw, b);
            let (l, r) = folded_operands(c, b)->Ok_0;
            lemma_div_fixed(c2, bw, l, r);
        },
        UExpressionInner::Rem(b) => {
            lemma_operands_idempotent(c, c2, bw, b);
            let (l, r) = folded_operands(c, b)->Ok_0;
            lemma_rem_fixed(c2, bw, l, r);
        },
        UExpressionInner::Xor(b) => {
            lemma_operands_idempotent(c, c2, bw, b);
            let (l, r) = folded_operands(c, b)->Ok_0;
            lemma_xor_fixed(c2, bw, l, r);
        },
        UExpressionInner::And(b) => {
            lemma_operands_idempotent(c, c2, bw, b);
            let (l, r) = folded_operands(c, b)->Ok_0;
            lemma_and_fixed(c2, bw, l, r);
        },
        _ => {},
    }
}

/// The shifts and the operators of one operand, once rewritten, are left alone.
pub proof fn lemma_bitwise_idempotent<T: Field>(
    c: Known<T>,
    c2: Known<T>,
    bw: UBitwidth,
    e: UExpressionInner<T>,
)
    requires
        c2.submap_of(c),
        settled(c, c2),
        regular_uint_inner(bw, e),
        folded_uint_inner(c, bw, e) is Ok,
        e is Or || e is LeftShift || e is RightShift || e is Not || e is Neg || e is Pos,
    ensures
        folded_uint_inner(c2, bw, folded_uint_inner(c, bw, e)->Ok_0) == Ok::<
            UExpressionInner<T>,
            Error,
        >(folded_uint_inner(c, bw, e)->Ok_0),
    decreases e, 0int,
{
    let out = folded_uint_inner(c, bw, e)->Ok_0;
    match e {
        UExpressionInner::Or(b) => {
            lemma_uint_idempotent(c, c2, *b.left);
            lemma_uint_idempotent(c, c2, *b.right);
            assert(folded_uint(c2, *(out->Or_0).left) is Ok);
            assert(folded_uint(c2, *(out->Or_0).right) is Ok);
        },
        UExpressionInner::LeftShift(b) => {
            lemma_shift_idempotent(c, c2, bw, b);
            let (l, r) = folded_operands(c, b)->Ok_0;
            lemma_left_shift_fixed(c2, bw, l, r);
        },
        UExpressionInner::RightShift(b) => {
            lemma_shift_idempotent(c, c2, bw, b);
            let (l, r) = folded_operands(c, b)->Ok_0;
            lemma_right_shift_fixed(c2, bw, l, r);
        },
        UExpressionInner::Not(u) => {
            lemma_uint_idempotent(c, c2, *u.inner);
            lemma_not_fixed(c2, bw, folded_uint(c, *u.inner)->Ok_0.inner);
        },
        UExpressionInner::Neg(u) => {
            lemma_uint_idempotent(c, c2, *u.inner);
            lemma_neg_fixed(c2, bw, folded_uint(c, *u.inner)->Ok_0.inner);
        },
        UExpressionInner::Pos(u) => {
            lemma_uint_idempotent(c, c2, *u.inner);
            lemma_pos_fixed(c2, bw, folded_uint(c, *u.inner)->Ok_0.inner);
        },
        _ => {},
    }
}

pub proof fn lemma_uint_inner_idempotent<T: Field>(
    c: Known<T>,
    c2: Known<T>,
    bw: UBitwidth,
    e: UExpressionInner<T>,
)
    requires
        c2.submap_of(c),
        settled(c, c2),
        regular_uint_inner(bw, e),
        folded_uint_inner(c, bw, e) is Ok,
    ensures
        folded_uint_inner(c2, bw, folded_uint_inner(c, bw, e)->Ok_0) == Ok::<
            UExpressionInner<T>,
            Error,
        >(folded_uint_inner(c, bw, e)->Ok_0),
    decreases e, 1int,
{
    let out = folded_uint_inner(c, bw, e)->Ok_0;
    match e {
        UExpressionInner::Value(v) => {},
        UExpressionInner::Identifier(id) => {
            lemma_identifier_fixed(c, c2, id, Family::Uint(bw));
            match folded_identifier(c, id, Family::Uint(bw)) {
                IdentifierOrExpression::Expression(k) => {
                    let u = k->Uint_0;
                    assert(folded_uint(c2, u) == Ok::<UExpression<T>, Error>(u));
                    assert(folded_uint_inner(c2, u.bitwidth, u.inner) == Ok::<
                        UExpressionInner<T>,
                        Error,
                    >(u.inner));
                },
                _ => {},
            }
        },
        UExpressionInner::Add(_) | UExpressionInner::Sub(_) | UExpressionInner::FloorSub(_)
        | UExpressionInner::Mult(_) | UExpressionInner::Div(_) | UExpressionInner::Rem(_)
        | UExpressionInner::Xor(_) | UExpressionInner::And(_) => {
            lemma_arithmetic_idempotent(c, c2, bw, e);
        },
        UExpressionInner::Or(_) | UExpressionInner::LeftShift(_) | UExpressionInner::RightShift(_)
        | UExpressionInner::Not(_) | UExpressionInner::Neg(_) | UExpressionInner::Pos(_) => {
            lemma_bitwise_idempotent(c, c2, bw, e);
        },
        UExpressionInner::Conditional(x) => {
            lemma_boolean_idempotent(c, c2, *x.condition);
            lemma_uint_idempotent(c, c2, *x.consequence);
            lemma_uint_idempotent(c, c2, *x.alternative);
            let condition = folded_boolean(c, *x.condition)->Ok_0;
            let consequence = folded_uint(c, *x.consequence)->Ok_0;
            let alternative = folded_uint(c, *x.alternative)->Ok_0;
            match folded_conditional(condition, consequence, alternative, x.kind) {
                ConditionalOrExpression::Conditional(y) => {
                    assert(folded_boolean(c2, *y.condition) is Ok);
                    assert(folded_uint(c2, *y.consequence) is Ok);
                    assert(folded_uint(c2, *y.alternative) is Ok);
                },
                ConditionalOrExpression::Expression(_) => {},
            }
        },
        UExpressionInner::Select(s) => {
            lemma_select_idempotent(c, c2, s, Family::Uint(bw));
            match folded_select_expression(c, s, Family::Uint(bw))->Ok_0 {
                SelectOrExpression::Expression(k) => {
                    let u = k->Uint_0;
                    assert(folded_uint(c2, u) == Ok::<UExpression<T>, Error>(u));
                    assert(folded_uint_inner(c2, u.bitwidth, u.inner) == Ok::<
                        UExpressionInner<T>,
                        Error,
                    >(u.inner));
                },
                _ => {},
            }
        },
        UExpressionInner::Member(m) => {
            lemma_member_idempotent(c, c2, m, Family::Uint(bw));
        },
        UExpressionInner::Element(m) => {
            lemma_element_idempotent(c, c2, m, Family::Uint(bw));
        },
    }
}

pub proof fn lemma_array_idempotent<T: Field>(c: Known<T>, c2: Known<T>, e: ArrayExpression<T>)
    requires
        c2.submap_of(c),
        settled(c, c2),
        regular_array(e),
        folded_array(c, e) is Ok,
    ensures
        fixed_array(c2, folded_array(c, e)->Ok_0),
    decreases e,
{
    let out = folded_array_inner(c, e.inner)->Ok_0;
    match e.inner {
        ArrayExpressionInner::Value(v) => {
            lemma_elements_idempotent(c, c2, v.value);
            let l1 = folded_elements(c, v.value)->Ok_0;
            lemma_spliced_fixed(c2, l1);
            lemma_fixed_elements(c2, spliced(l1));
        },
        ArrayExpressionInner::Identifier(id) => {
            lemma_identifier_fixed(c, c2, id, Family::Array);
            match folded_identifier(c, id, Family::Array) {
                IdentifierOrExpression::Expression(k) => {
                    let a = k->Array_0;
                    assert(fixed_array(c2, a));
                    assert(folded_array_inner(c2, a.inner) == Ok::<ArrayExpressionInner<T>, Error>(
                        a.inner,
                    ));
                },
                _ => {},
            }
        },
        ArrayExpressionInner::Conditional(x) => {
            lemma_boolean_idempotent(c, c2, *x.condition);
            lemma_array_idempotent(c, c2, *x.consequence);
            lemma_array_idempotent(c, c2, *x.alternative);
            let condition = folded_boolean(c, *x.condition)->Ok_0;
            let consequence = folded_array(c, *x.consequence)->Ok_0;
            let alternative = folded_array(c, *x.alternative)->Ok_0;
            match folded_conditional(condition, consequence, alternative, x.kind) {
                ConditionalOrExpression::Conditional(y) => {
                    assert(folded_boolean(c2, *y.condition) is Ok);
                    assert(folded_array(c2, *y.consequence) is Ok);
                    assert(folded_array(c2, *y.alternative) is Ok);
                },
                ConditionalOrExpression::Expression(a) => {
                    assert(fixed_array(c2, a));
                    assert(folded_array_inner(c2, a.inner) == Ok::<ArrayExpressionInner<T>, Error>(
                        a.inner,
                    ));
                },
            }
        },
        ArrayExpressionInner::Select(s) => {
            lemma_select_idempotent(c, c2, s, Family::Array);
            match folded_select_expression(c, s, Family::Array)->Ok_0 {
                SelectOrExpression::Expression(k) => {
                    let a = k->Array_0;
                    assert(fixed_array(c2, a));
                    assert(folded_array_inner(c2, a.inner) == Ok::<ArrayExpressionInner<T>, Error>(
                        a.inner,
                    ));
                },
                _ => {},
            }
        },
        ArrayExpressionInner::Member(m) => {
            lemma_member_idempotent(c, c2, m, Family::Array);
        },
        ArrayExpressionInner::Element(m) => {
            lemma_element_idempotent(c, c2, m, Family::Array);
        },
    }
    assert(folded_array_inner(c2, out) == Ok::<ArrayExpressionInner<T>, Error>(out));
}

pub proof fn lemma_elements_idempotent<T: Field>(
    c: Known<T>,
    c2: Known<T>,
    l: List<TypedExpressionOrSpread<T>>,
)
    requires
        c2.submap_of(c),
        settled(c, c2),
        regular_elements(l),
        folded_elements(c, l) is Ok,
    ensures
        rewritten_elements(c2, folded_elements(c, l)->Ok_0),
    decreases l,
{
    match l {
        List::Nil => {},
        List::Cons(n) => {
            lemma_elements_idempotent(c, c2, n.tail);
            match n.head {
                TypedExpressionOrSpread::Expression(e) => {
                    lemma_expression_idempotent(c, c2, e);
                },
                TypedExpressionOrSpread::Spread(s) => {
                    lemma_array_idempotent(c, c2, s.array);
                },
            }
        },
    }
}

pub proof fn lemma_struct_idempotent<T: Field>(c: Known<T>, c2: Known<T>, e: StructExpression<T>)
    requires
        c2.submap_of(c),
        settled(c, c2),
        regular_struct(e),
        folded_struct(c, e) is Ok,
    ensures
        fixed_struct(c2, folded_struct(c, e)->Ok_0),
    decreases e,
{
    let out = folded_struct_inner(c, e.ty.members, e.inner)->Ok_0;
    match e.inner {
        StructExpressionInner::Value(v) => {},
        StructExpressionInner::Identifier(id) => {
            lemma_identifier_fixed(c, c2, id, Family::Struct);
            match folded_identifier(c, id, Family::Struct) {
                IdentifierOrExpression::Expression(k) => {
                    let a = k->Struct_0;
                    assert(fixed_struct(c2, a));
                    assert(folded_struct_inner(c2, a.ty.members, a.inner) == Ok::<
                        StructExpressionInner<T>,
                        Error,
                    >(a.inner));
                },
                _ => {},
            }
        },
        StructExpressionInner::Conditional(x) => {
            lemma_boolean_idempotent(c, c2, *x.condition);
            lemma_struct_idempotent(c, c2, *x.consequence);
            lemma_struct_idempotent(c, c2, *x.alternative);
            let condition = folded_boolean(c, *x.condition)->Ok_0;
            let consequence = folded_struct(c, *x.consequence)->Ok_0;
            let alternative = folded_struct(c, *x.alternative)->Ok_0;
            match folded_conditional(condition, consequence, alternative, x.kind) {
                ConditionalOrExpression::Conditional(y) => {
                    assert(folded_boolean(c2, *y.condition) is Ok);
                    assert(folded_struct(c2, *y.consequence) is Ok);
                    assert(folded_struct(c2, *y.alternative) is Ok);
                },
                ConditionalOrExpression::Expression(a) => {
                    assert(fixed_struct(c2, a));
                    assert(folded_struct_inner(c2, a.ty.members, a.inner) == Ok::<
                        StructExpressionInner<T>,
                        Error,
                    >(a.inner));
                },
            }
        },
        StructExpressionInner::Select(s) => {
            lemma_select_idempotent(c, c2, s, Family::Struct);
            match folded_select_expression(c, s, Family::Struct)->Ok_0 {
                SelectOrExpression::Expression(k) => {
                    let a = k->Struct_0;
                    assert(fixed_struct(c2, a));
                    assert(folded_struct_inner(c2, a.ty.members, a.inner) == Ok::<
                        StructExpressionInner<T>,
                        Error,
                    >(a.inner));
                },
                _ => {},
            }
        },
        StructExpressionInner::Member(m) => {
            lemma_member_idempotent(c, c2, m, Family::Struct);
        },
        StructExpressionInner::Element(m) => {
            lemma_element_idempotent(c, c2, m, Family::Struct);
        },
    }
    assert(!(out is Value));
    assert(folded_struct_inner(c2, e.ty.members, out) == Ok::<StructExpressionInner<T>, Error>(
        out,
    ));
}

pub proof fn lemma_tuple_idempotent<T: Field>(c: Known<T>, c2: Known<T>, e: TupleExpression<T>)
    requires
        c2.submap_of(c),
        settled(c, c2),
        regular_tuple(e),
        folded_tuple(c, e) is Ok,
    ensures
        fixed_tuple(c2, folded_tuple(c, e)->Ok_0),
    decreases e,
{
    let out = folded_tuple_inner(c, e.ty.elements, e.inner)->Ok_0;
    match e.inner {
        TupleExpressionInner::Value(v) => {},
        TupleExpressionInner::Identifier(id) => {
            lemma_identifier_fixed(c, c2, id, Family::Tuple);
            match folded_identifier(c, id, Family::Tuple) {
                IdentifierOrExpression::Expression(k) => {
                    let a = k->Tuple_0;
                    assert(fixed_tuple(c2, a));
                    assert(folded_tuple_inner(c2, a.ty.elements, a.inner) == Ok::<
                        TupleExpressionInner<T>,
                        Error,
                    >(a.inner));
                },
                _ => {},
            }
        },
        TupleExpressionInner::Conditional(x) => {
            lemma_boolean_idempotent(c, c2, *x.condition);
            lemma_tuple_idempotent(c, c2, *x.consequence);
            lemma_tuple_idempotent(c, c2, *x.alternative);
            let condition = folded_boolean(c, *x.condition)->Ok_0;
            let consequence = folded_tuple(c, *x.consequence)->Ok_0;
            let alternative = folded_tuple(c, *x.alternative)->Ok_0;
            match folded_conditional(condition, consequence, alternative, x.kind) {
                ConditionalOrExpression::Conditional(y) => {
                    assert(folded_boolean(c2, *y.condition) is Ok);
                    assert(folded_tuple(c2, *y.consequence) is Ok);
                    assert(folded_tuple(c2, *y.alternative) is Ok);
                },
                ConditionalOrExpression::Expression(a) => {
                    assert(fixed_tuple(c2, a));
                    assert(folded_tuple_inner(c2, a.ty.elements, a.inner) == Ok::<
                        TupleExpressionInner<T>,
                        Error,
                    >(a.inner));
                },
            }
        },
        TupleExpressionInner::Select(s) => {
            lemma_select_idempotent(c, c2, s, Family::Tuple);
            match folded_select_expression(c, s, Family::Tuple)->Ok_0 {
                SelectOrExpression::Expression(k) => {
                    let a = k->Tuple_0;
                    assert(fixed_tuple(c2, a));
                    assert(folded_tuple_inner(c2, a.ty.elements, a.inner) == Ok::<
                        TupleExpressionInner<T>,
                        Error,
                    >(a.inner));
                },
                _ => {},
            }
        },
        TupleExpressionInner::Member(m) => {
            lemma_member_idempotent(c, c2, m, Family::Tuple);
        },
        TupleExpressionInner::Element(m) => {
            lemma_element_idempotent(c, c2, m, Family::Tuple);
        },
    }
    assert(!(out is Value));
    assert(folded_tuple_inner(c2, e.ty.elements, out) == Ok::<TupleExpressionInner<T>, Error>(
        out,
    ));
}

/// Idempotence of the pass on expressions: where the pass rewrites `e` to
/// `r`, it rewrites `r` to `r`. It is stated for the expressions of the kind
/// that [`regular_expression`] describes, and for known values that the pass
/// leaves alone themselves.
pub proof fn lemma_fold_idempotent<T: Field>(c: Known<T>, e: TypedExpression<T>)
    requires
        regular_expression(e),
        settled(c, c),
        folded_expression(c, e) is Ok,
    ensures
        folded_expression(c, folded_expression(c, e)->Ok_0) == folded_expression(c, e),
{
    lemma_expression_idempotent(c, c, e);
    lemma_fixed_folds(c, folded_expression(c, e)->Ok_0);
}

} // verus!
