//! Soundness of constant propagation on expressions: what the pass makes of
//! an expression has the value of the expression, in every environment that
//! gives the known variables their known values.

use crate::aggregate_rules::{
    expression_at, folded_select, is_empty_spread, spliced, without_empty_spreads,
};
use crate::expressions::BinaryExpression;
use crate::field::{difference_mod, power_mod, product_mod, quotient_mod, sum_mod, Field};
use crate::field_rules;
use crate::folding::{
    folded_array, folded_boolean, folded_elements, folded_expression, folded_field,
    folded_operands, folded_select_expression, folded_uint, folded_uint_inner, Known,
};
use crate::list::List;
use crate::operators::{OpAdd, OpAnd, OpDiv, OpFloorSub, OpLsh, OpMul, OpRem, OpRsh, OpSub, OpXor};
use crate::regular::{
    regular_array, regular_boolean, regular_elements, regular_expression, regular_field,
    regular_operands, regular_select, regular_uint, regular_uint_inner,
};
use crate::semantics::{
    array_inner_value, array_value, boolean_value, element_values, field_value, operand_values,
    ranged, selected, uint_inner_value, uint_value, value_of, Environment, Value,
};
use crate::typed::{
    ArrayExpression, ArrayExpressionInner, BooleanExpression, Family, FieldElementExpression,
    Identifier, SelectExpression, SelectOrExpression, TypedExpression, TypedExpressionOrSpread,
    UExpression, UExpressionInner,
};
use crate::types::{ArraySize, UBitwidth};
use crate::uint_rules;
use crate::uint_rules::{
    complement, difference, floor_difference, negation, product, quotient, remainder, shift_left,
    shift_right, sum,
};
use vstd::arithmetic::div_mod::{lemma_mod_bound, lemma_small_mod};
use vstd::arithmetic::power::{lemma_pow0, pow};
use vstd::prelude::*;

verus! {

/// Whether the environment gives every known variable its known value.
pub open spec fn models<T: Field>(env: Environment, c: Known<T>) -> bool {
    forall|id: u64|
        c.contains_key(id) ==> env.contains_key(id) && value_of(env, #[trigger] c[id]) == Some(
            env[id],
        )
}

/// What the rules for unsigned integers rely on.
pub proof fn lemma_uint_identities(bw: UBitwidth, x: u128)
    requires
        x < bw.range(),
    ensures
        sum(bw, x, 0) == x,
        sum(bw, 0, x) == x,
        difference(bw, x, 0) == x,
        floor_difference(bw, x, 0) == x,
        product(bw, x, 0) == 0,
        product(bw, 0, x) == 0,
        product(bw, x, 1) == x,
        product(bw, 1, x) == x,
        quotient(bw, x, 1) == x,
        remainder(bw, x, 1) == 0,
        x ^ 0 == x,
        0 ^ x == x,
        x ^ x == 0,
        x & 0 == 0,
        0 & x == 0,
{
    lemma_small_mod(x as nat, bw.range());
    lemma_small_mod(0, bw.range());
    assert(x ^ 0 == x) by (bit_vector);
    assert(0 ^ x == x) by (bit_vector);
    assert(x ^ x == 0) by (bit_vector);
    assert(x & 0 == 0) by (bit_vector);
    assert(0 & x == 0) by (bit_vector);
    assert(x * 0 == 0);
    assert(0 * x == 0);
    assert(x * 1 == x);
    assert(1 * x == x);
}

pub proof fn lemma_uint_commutes(bw: UBitwidth, x: u128, y: u128)
    ensures
        sum(bw, x, y) == sum(bw, y, x),
        product(bw, x, y) == product(bw, y, x),
{
    assert(x * y == y * x) by (nonlinear_arith);
}

/// The values of the operands of a node that a rule has built.
pub proof fn lemma_node_values<T: Field, Op>(
    env: Environment,
    bw: UBitwidth,
    a: UExpressionInner<T>,
    b: UExpressionInner<T>,
)
    requires
        uint_inner_value(env, bw, a) is Some,
        uint_inner_value(env, bw, b) is Some,
    ensures
        operand_values(env, uint_rules::node::<T, Op>(bw, a, b)) == Some(
            (
                uint_inner_value(env, bw, a)->Some_0 as u128,
                uint_inner_value(env, bw, b)->Some_0 as u128,
            ),
        ),
{
    assert(uint_value(env, a.annotate(bw)) == uint_inner_value(env, bw, a));
    assert(uint_value(env, b.annotate(bw)) == uint_inner_value(env, bw, b));
}

pub proof fn lemma_shift_values<T: Field, Op>(
    env: Environment,
    bw: UBitwidth,
    a: UExpressionInner<T>,
    b: UExpressionInner<T>,
)
    requires
        uint_inner_value(env, bw, a) is Some,
        uint_inner_value(env, UBitwidth::B32, b) is Some,
    ensures
        operand_values(env, uint_rules::shift_node::<T, Op>(bw, a, b)) == Some(
            (
                uint_inner_value(env, bw, a)->Some_0 as u128,
                uint_inner_value(env, UBitwidth::B32, b)->Some_0 as u128,
            ),
        ),
{
    assert(uint_value(env, a.annotate(bw)) == uint_inner_value(env, bw, a));
    assert(uint_value(env, b.annotate(UBitwidth::B32)) == uint_inner_value(
        env,
        UBitwidth::B32,
        b,
    ));
}

pub proof fn lemma_add_sound<T: Field>(
    env: Environment,
    bw: UBitwidth,
    l: UExpressionInner<T>,
    r: UExpressionInner<T>,
    x: u128,
    y: u128,
)
    requires
        uint_inner_value(env, bw, l) == Some(x as nat),
        uint_inner_value(env, bw, r) == Some(y as nat),
        ranged(bw, (sum(bw, x, y)) as int) is Some,
    ensures
        uint_inner_value(env, bw, uint_rules::folded_add(bw, l, r)) == ranged(
            bw,
            (sum(bw, x, y)) as int,
        ),
{
    lemma_uint_identities(bw, x);
    lemma_uint_identities(bw, y);
    lemma_uint_commutes(bw, x, y);
    let out = uint_rules::folded_add(bw, l, r);
    if out is Add {
        lemma_node_values::<T, OpAdd>(env, bw, l, r);
        if r is Value {
            lemma_node_values::<T, OpAdd>(env, bw, l, UExpression::<T>::from_value(r->Value_0.value));
        }
        if l is Value {
            lemma_node_values::<T, OpAdd>(env, bw, r, UExpression::<T>::from_value(l->Value_0.value));
        }
    }
}

pub proof fn lemma_sub_sound<T: Field>(
    env: Environment,
    bw: UBitwidth,
    l: UExpressionInner<T>,
    r: UExpressionInner<T>,
    x: u128,
    y: u128,
)
    requires
        uint_inner_value(env, bw, l) == Some(x as nat),
        uint_inner_value(env, bw, r) == Some(y as nat),
        ranged(bw, (difference(bw, x, y)) as int) is Some,
    ensures
        uint_inner_value(env, bw, uint_rules::folded_sub(bw, l, r)) == ranged(
            bw,
            (difference(bw, x, y)) as int,
        ),
{
    lemma_uint_identities(bw, x);
    lemma_uint_identities(bw, y);
    lemma_uint_commutes(bw, x, y);
    let out = uint_rules::folded_sub(bw, l, r);
    if out is Sub {
        lemma_node_values::<T, OpSub>(env, bw, l, r);
        if r is Value {
            lemma_node_values::<T, OpSub>(env, bw, l, UExpression::<T>::from_value(r->Value_0.value));
        }
        if l is Value {
            lemma_node_values::<T, OpSub>(env, bw, r, UExpression::<T>::from_value(l->Value_0.value));
        }
    }
}

pub proof fn lemma_floor_sub_sound<T: Field>(
    env: Environment,
    bw: UBitwidth,
    l: UExpressionInner<T>,
    r: UExpressionInner<T>,
    x: u128,
    y: u128,
)
    requires
        uint_inner_value(env, bw, l) == Some(x as nat),
        uint_inner_value(env, bw, r) == Some(y as nat),
        ranged(bw, (floor_difference(bw, x, y)) as int) is Some,
    ensures
        uint_inner_value(env, bw, uint_rules::folded_floor_sub(bw, l, r)) == ranged(
            bw,
            (floor_difference(bw, x, y)) as int,
        ),
{
    lemma_uint_identities(bw, x);
    lemma_uint_identities(bw, y);
    lemma_uint_commutes(bw, x, y);
    let out = uint_rules::folded_floor_sub(bw, l, r);
    if out is FloorSub {
        lemma_node_values::<T, OpFloorSub>(env, bw, l, r);
        if r is Value {
            lemma_node_values::<T, OpFloorSub>(env, bw, l, UExpression::<T>::from_value(r->Value_0.value));
        }
        if l is Value {
            lemma_node_values::<T, OpFloorSub>(env, bw, r, UExpression::<T>::from_value(l->Value_0.value));
        }
    }
}

pub proof fn lemma_mult_sound<T: Field>(
    env: Environment,
    bw: UBitwidth,
    l: UExpressionInner<T>,
    r: UExpressionInner<T>,
    x: u128,
    y: u128,
)
    requires
        uint_inner_value(env, bw, l) == Some(x as nat),
        uint_inner_value(env, bw, r) == Some(y as nat),
        ranged(bw, (product(bw, x, y)) as int) is Some,
    ensures
        uint_inner_value(env, bw, uint_rules::folded_mult(bw, l, r)) == ranged(
            bw,
            (product(bw, x, y)) as int,
        ),
{
    lemma_uint_identities(bw, x);
    lemma_uint_identities(bw, y);
    lemma_uint_commutes(bw, x, y);
    let out = uint_rules::folded_mult(bw, l, r);
    if out is Mult {
        lemma_node_values::<T, OpMul>(env, bw, l, r);
        if r is Value {
            lemma_node_values::<T, OpMul>(env, bw, l, UExpression::<T>::from_value(r->Value_0.value));
        }
        if l is Value {
            lemma_node_values::<T, OpMul>(env, bw, r, UExpression::<T>::from_value(l->Value_0.value));
        }
    }
}

pub proof fn lemma_div_sound<T: Field>(
    env: Environment,
    bw: UBitwidth,
    l: UExpressionInner<T>,
    r: UExpressionInner<T>,
    x: u128,
    y: u128,
)
    requires
        uint_inner_value(env, bw, l) == Some(x as nat),
        uint_inner_value(env, bw, r) == Some(y as nat),
        y != 0,
        ranged(bw, (quotient(bw, x, y)) as int) is Some,
    ensures
        uint_inner_value(env, bw, uint_rules::folded_div(bw, l, r)) == ranged(
            bw,
            (quotient(bw, x, y)) as int,
        ),
{
    lemma_uint_identities(bw, x);
    lemma_uint_identities(bw, y);
    lemma_uint_commutes(bw, x, y);
    let out = uint_rules::folded_div(bw, l, r);
    if out is Div {
        lemma_node_values::<T, OpDiv>(env, bw, l, r);
        if r is Value {
            lemma_node_values::<T, OpDiv>(env, bw, l, UExpression::<T>::from_value(r->Value_0.value));
        }
        if l is Value {
            lemma_node_values::<T, OpDiv>(env, bw, r, UExpression::<T>::from_value(l->Value_0.value));
        }
    }
}

pub proof fn lemma_rem_sound<T: Field>(
    env: Environment,
    bw: UBitwidth,
    l: UExpressionInner<T>,
    r: UExpressionInner<T>,
    x: u128,
    y: u128,
)
    requires
        uint_inner_value(env, bw, l) == Some(x as nat),
        uint_inner_value(env, bw, r) == Some(y as nat),
        y != 0,
        ranged(bw, (remainder(bw, x, y)) as int) is Some,
    ensures
        uint_inner_value(env, bw, uint_rules::folded_rem(bw, l, r)) == ranged(
            bw,
            (remainder(bw, x, y)) as int,
        ),
{
    lemma_uint_identities(bw, x);
    lemma_uint_identities(bw, y);
    lemma_uint_commutes(bw, x, y);
    let out = uint_rules::folded_rem(bw, l, r);
    if out is Rem {
        lemma_node_values::<T, OpRem>(env, bw, l, r);
        if r is Value {
            lemma_node_values::<T, OpRem>(env, bw, l, UExpression::<T>::from_value(r->Value_0.value));
        }
        if l is Value {
            lemma_node_values::<T, OpRem>(env, bw, r, UExpression::<T>::from_value(l->Value_0.value));
        }
    }
}

pub proof fn lemma_xor_sound<T: Field>(
    env: Environment,
    bw: UBitwidth,
    l: UExpressionInner<T>,
    r: UExpressionInner<T>,
    x: u128,
    y: u128,
)
    requires
        uint_inner_value(env, bw, l) == Some(x as nat),
        uint_inner_value(env, bw, r) == Some(y as nat),
        ranged(bw, (x ^ y) as int) is Some,
    ensures
        uint_inner_value(env, bw, uint_rules::folded_xor(bw, l, r)) == ranged(
            bw,
            (x ^ y) as int,
        ),
{
    lemma_uint_identities(bw, x);
    lemma_uint_identities(bw, y);
    lemma_uint_commutes(bw, x, y);
    let out = uint_rules::folded_xor(bw, l, r);
    if out is Xor {
        lemma_node_values::<T, OpXor>(env, bw, l, r);
        if r is Value {
            lemma_node_values::<T, OpXor>(env, bw, l, UExpression::<T>::from_value(r->Value_0.value));
        }
        if l is Value {
            lemma_node_values::<T, OpXor>(env, bw, r, UExpression::<T>::from_value(l->Value_0.value));
        }
    }
}

pub proof fn lemma_and_sound<T: Field>(
    env: Environment,
    bw: UBitwidth,
    l: UExpressionInner<T>,
    r: UExpressionInner<T>,
    x: u128,
    y: u128,
)
    requires
        uint_inner_value(env, bw, l) == Some(x as nat),
        uint_inner_value(env, bw, r) == Some(y as nat),
        ranged(bw, (x & y) as int) is Some,
    ensures
        uint_inner_value(env, bw, uint_rules::folded_and(bw, l, r)) == ranged(
            bw,
            (x & y) as int,
        ),
{
    lemma_uint_identities(bw, x);
    lemma_uint_identities(bw, y);
    lemma_uint_commutes(bw, x, y);
    let out = uint_rules::folded_and(bw, l, r);
    if out is And {
        lemma_node_values::<T, OpAnd>(env, bw, l, r);
        if r is Value {
            lemma_node_values::<T, OpAnd>(env, bw, l, UExpression::<T>::from_value(r->Value_0.value));
        }
        if l is Value {
            lemma_node_values::<T, OpAnd>(env, bw, r, UExpression::<T>::from_value(l->Value_0.value));
        }
    }
}

pub proof fn lemma_left_shift_sound<T: Field>(
    env: Environment,
    bw: UBitwidth,
    l: UExpressionInner<T>,
    r: UExpressionInner<T>,
    x: u128,
    y: u128,
)
    requires
        uint_inner_value(env, bw, l) == Some(x as nat),
        uint_inner_value(env, UBitwidth::B32, r) == Some(y as nat),
        ranged(bw, (shift_left(bw, x, y)) as int) is Some,
    ensures
        uint_inner_value(env, bw, uint_rules::folded_left_shift(bw, l, r)) == ranged(
            bw,
            (shift_left(bw, x, y)) as int,
        ),
{
    let out = uint_rules::folded_left_shift(bw, l, r);
    if out is LeftShift {
        lemma_shift_values::<T, OpLsh>(env, bw, l, r);
    }
}

pub proof fn lemma_right_shift_sound<T: Field>(
    env: Environment,
    bw: UBitwidth,
    l: UExpressionInner<T>,
    r: UExpressionInner<T>,
    x: u128,
    y: u128,
)
    requires
        uint_inner_value(env, bw, l) == Some(x as nat),
        uint_inner_value(env, UBitwidth::B32, r) == Some(y as nat),
        ranged(bw, (shift_right(x, y)) as int) is Some,
    ensures
        uint_inner_value(env, bw, uint_rules::folded_right_shift(bw, l, r)) == ranged(
            bw,
            (shift_right(x, y)) as int,
        ),
{
    let out = uint_rules::folded_right_shift(bw, l, r);
    if out is RightShift {
        lemma_shift_values::<T, OpRsh>(env, bw, l, r);
    }
}

pub proof fn lemma_not_sound<T: Field>(env: Environment, bw: UBitwidth, e: UExpressionInner<T>, x: u128)
    requires
        uint_inner_value(env, bw, e) == Some(x as nat),
        ranged(bw, (complement(bw, x)) as int) is Some,
    ensures
        uint_inner_value(env, bw, uint_rules::folded_not(bw, e)) == ranged(bw, (complement(bw, x)) as int),
{
    let out = uint_rules::folded_not(bw, e);
    if out is Not {
        assert(uint_value(env, e.annotate(bw)) == uint_inner_value(env, bw, e));
    }
}

pub proof fn lemma_neg_sound<T: Field>(env: Environment, bw: UBitwidth, e: UExpressionInner<T>, x: u128)
    requires
        uint_inner_value(env, bw, e) == Some(x as nat),
        ranged(bw, (negation(bw, x)) as int) is Some,
    ensures
        uint_inner_value(env, bw, uint_rules::folded_neg(bw, e)) == ranged(bw, (negation(bw, x)) as int),
{
    let out = uint_rules::folded_neg(bw, e);
    if out is Neg {
        assert(uint_value(env, e.annotate(bw)) == uint_inner_value(env, bw, e));
    }
}

pub proof fn lemma_pos_sound<T: Field>(env: Environment, bw: UBitwidth, e: UExpressionInner<T>, x: u128)
    requires
        uint_inner_value(env, bw, e) == Some(x as nat),
        ranged(bw, (x) as int) is Some,
    ensures
        uint_inner_value(env, bw, uint_rules::folded_pos(bw, e)) == ranged(bw, (x) as int),
{
    let out = uint_rules::folded_pos(bw, e);
    if out is Pos {
        assert(uint_value(env, e.annotate(bw)) == uint_inner_value(env, bw, e));
    }
}


/// The values of the elements of two lists, one after the other.
pub proof fn lemma_values_concat<T: Field>(
    env: Environment,
    a: List<TypedExpressionOrSpread<T>>,
    b: List<TypedExpressionOrSpread<T>>,
)
    requires
        element_values(env, a) is Some,
        element_values(env, b) is Some,
    ensures
        element_values(env, a.spec_concat(b)) == Some(
            element_values(env, a)->Some_0 + element_values(env, b)->Some_0,
        ),
    decreases a,
{
    match a {
        List::Nil => {
            assert(Seq::<Value>::empty() + element_values(env, b)->Some_0 =~= element_values(
                env,
                b,
            )->Some_0);
        },
        List::Cons(n) => {
            lemma_values_concat(env, n.tail, b);
            let head = match n.head {
                TypedExpressionOrSpread::Expression(e) => seq![value_of(env, e)->Some_0],
                TypedExpressionOrSpread::Spread(s) => array_value(env, s.array)->Some_0,
            };
            let rest = element_values(env, n.tail)->Some_0;
            let other = element_values(env, b)->Some_0;
            assert(head + (rest + other) =~= (head + rest) + other);
        },
    }
}

/// Leaving out the spreads of arrays of length zero keeps the values.
pub proof fn lemma_values_without_empty<T: Field>(env: Environment, l: List<TypedExpressionOrSpread<T>>)
    requires
        element_values(env, l) is Some,
    ensures
        element_values(env, without_empty_spreads(l)) == element_values(env, l),
    decreases l,
{
    match l {
        List::Nil => {},
        List::Cons(n) => {
            lemma_values_without_empty(env, n.tail);
            if is_empty_spread(n.head) {
                let s = n.head->Spread_0;
                let w = array_value(env, s.array)->Some_0;
                assert(w.len() == 0);
                assert(w + element_values(env, n.tail)->Some_0 =~= element_values(
                    env,
                    n.tail,
                )->Some_0);
            }
        },
    }
}

/// The rule for array literals keeps the values of the elements.
pub proof fn lemma_values_spliced<T: Field>(env: Environment, l: List<TypedExpressionOrSpread<T>>)
    requires
        element_values(env, l) is Some,
    ensures
        element_values(env, spliced(l)) == element_values(env, l),
    decreases l,
{
    match l {
        List::Nil => {},
        List::Cons(n) => {
            lemma_values_spliced(env, n.tail);
            match n.head {
                TypedExpressionOrSpread::Spread(s) => match s.array.inner {
                    ArrayExpressionInner::Value(v) => {
                        assert(array_inner_value(env, s.array.inner) == element_values(
                            env,
                            v.value,
                        ));
                        lemma_values_without_empty(env, v.value);
                        lemma_values_concat(env, without_empty_spreads(v.value), spliced(n.tail));
                    },
                    _ => {
                        if is_empty_spread(n.head) {
                            let w = array_value(env, s.array)->Some_0;
                            assert(w.len() == 0);
                            assert(w + element_values(env, n.tail)->Some_0 =~= element_values(
                                env,
                                n.tail,
                            )->Some_0);
                        }
                    },
                },
                _ => {},
            }
        },
    }
}

/// Whether `e` has the value `w`, if `w` is a value of the family of `e`.
pub open spec fn agrees<T: Field>(env: Environment, e: TypedExpression<T>, w: Value) -> bool {
    match e {
        TypedExpression::FieldElement(f) => (w matches Value::Field(x) && x < T::modulus())
            ==> field_value(env, f) == Some(w->Field_0),
        TypedExpression::Boolean(b) => w is Boolean ==> boolean_value(env, b) == Some(
            w->Boolean_0,
        ),
        TypedExpression::Uint(u) => (w matches Value::Uint(x) && x < u.bitwidth.range())
            ==> uint_value(env, u) == Some(w->Uint_0),
        TypedExpression::Array(a) => w is Array ==> array_inner_value(env, a.inner) == Some(
            w->Array_0,
        ),
        _ => true,
    }
}

/// The element that the rule for selections finds at a position of an array
/// literal has the value at that position.
pub proof fn lemma_expression_at_value<T: Field>(
    env: Environment,
    l: List<TypedExpressionOrSpread<T>>,
    n: nat,
)
    requires
        element_values(env, l) is Some,
        n < element_values(env, l)->Some_0.len(),
        n <= u128::MAX,
        expression_at(l, n) is Some,
    ensures
        agrees(env, expression_at(l, n)->Some_0, element_values(env, l)->Some_0[n as int]),
    decreases l,
{
    match l {
        List::Nil => {},
        List::Cons(node) => {
            let rest = element_values(env, node.tail)->Some_0;
            match node.head {
                TypedExpressionOrSpread::Expression(e) => {
                    let x = value_of(env, e)->Some_0;
                    assert((seq![x] + rest)[0] == x);
                    if n > 0 {
                        assert((seq![x] + rest)[n as int] == rest[n - 1]);
                        lemma_expression_at_value(env, node.tail, (n - 1) as nat);
                    } else {
                        match e {
                            TypedExpression::Array(a) => {
                                assert(array_value(env, a) is Some);
                            },
                            _ => {},
                        }
                    }
                },
                TypedExpressionOrSpread::Spread(s) => {
                    let w = array_value(env, s.array)->Some_0;
                    match s.array.ty.size {
                        ArraySize::Constant(k) => {
                            assert(w.len() == k);
                            if n < k {
                                assert((w + rest)[n as int] == w[n as int]);
                                let index = UExpression::<T>::from_value(n as u128).annotate(
                                    UBitwidth::B32,
                                );
                                let select = SelectExpression::new(s.array, index);
                                assert(uint_value(env, index) == Some(n));
                                assert(selected(env, select) == Some(w[n as int]));
                            } else {
                                assert((w + rest)[n as int] == rest[n - k]);
                                lemma_expression_at_value(env, node.tail, (n - k) as nat);
                            }
                        },
                        _ => {},
                    }
                },
            }
        },
    }
}


/// Soundness of the pass on expressions: in an environment that gives the
/// known variables their known values, what the pass makes of an expression
/// has the value of the expression.
pub proof fn lemma_expression_sound<T: Field>(c: Known<T>, env: Environment, e: TypedExpression<T>)
    requires
        models(env, c),
        regular_expression(e),
        folded_expression(c, e) is Ok,
        value_of(env, e) is Some,
    ensures
        value_of(env, folded_expression(c, e)->Ok_0) == value_of(env, e),
    decreases e,
{
    match e {
        TypedExpression::Boolean(b) => lemma_boolean_sound(c, env, b),
        TypedExpression::FieldElement(f) => lemma_field_sound(c, env, f),
        TypedExpression::Uint(u) => lemma_uint_sound(c, env, u),
        TypedExpression::Array(a) => lemma_array_sound(c, env, a),
        _ => {},
    }
}

pub proof fn lemma_select_sound<T: Field>(
    c: Known<T>,
    env: Environment,
    s: SelectExpression<T>,
    family: Family,
)
    requires
        models(env, c),
        regular_select(s),
        folded_select_expression(c, s, family) is Ok,
        selected(env, s) is Some,
    ensures
        match folded_select_expression(c, s, family)->Ok_0 {
            SelectOrExpression::Select(r) => selected(env, r) == selected(env, s),
            SelectOrExpression::Expression(e) => agrees(env, e, selected(env, s)->Some_0),
        },
    decreases s,
{
    lemma_array_sound(c, env, *s.array);
    lemma_uint_sound(c, env, *s.index);
    let array = folded_array(c, *s.array)->Ok_0;
    let index = folded_uint(c, *s.index)->Ok_0;
    let a = array_value(env, array)->Some_0;
    let i = uint_value(env, index)->Some_0;
    match folded_select(array, index, family)->Ok_0 {
        SelectOrExpression::Select(r) => {
            assert(*r.array == array);
            assert(uint_value(env, *r.index) == Some(i));
        },
        SelectOrExpression::Expression(e) => {
            let v = array.inner->Value_0;
            let n = index.inner->Value_0;
            assert(n.value == i);
            assert(element_values(env, v.value) == Some(a));
            lemma_expression_at_value(env, v.value, i);
        },
    }
}

/// The value of a field expression is a representative below the order of
/// the field.
pub proof fn lemma_field_ranged<T: Field>(env: Environment, e: FieldElementExpression<T>)
    requires
        field_value(env, e) is Some,
    ensures
        field_value(env, e)->Some_0 < T::modulus(),
    decreases e,
{
    let p = T::modulus();
    T::lemma_modulus();
    match e {
        FieldElementExpression::Add(b) => {
            let x = field_value(env, *b.left)->Some_0;
            let y = field_value(env, *b.right)->Some_0;
            lemma_mod_bound((x + y) as int, p as int);
        },
        FieldElementExpression::Sub(b) => {
            let x = field_value(env, *b.left)->Some_0;
            let y = field_value(env, *b.right)->Some_0;
            lemma_mod_bound(x as int - y as int, p as int);
        },
        FieldElementExpression::Mult(b) => {
            let x = field_value(env, *b.left)->Some_0;
            let y = field_value(env, *b.right)->Some_0;
            lemma_mod_bound((x * y) as int, p as int);
        },
        FieldElementExpression::Div(b) => {
            let x = field_value(env, *b.left)->Some_0;
            let y = field_value(env, *b.right)->Some_0;
            lemma_mod_bound((x * crate::field::inverse_mod(y, p)) as int, p as int);
        },
        FieldElementExpression::Pow(b) => {
            let x = field_value(env, *b.left)->Some_0;
            let y = uint_value(env, *b.right)->Some_0;
            lemma_mod_bound(pow(x as int, y), p as int);
        },
        FieldElementExpression::Neg(u) => {
            let x = field_value(env, *u.inner)->Some_0;
            lemma_mod_bound(0 - x as int, p as int);
        },
        FieldElementExpression::Pos(u) => {
            lemma_field_ranged(env, *u.inner);
        },
        FieldElementExpression::Conditional(x) => {
            if boolean_value(env, *x.condition) == Some(true) {
                lemma_field_ranged(env, *x.consequence);
            } else {
                lemma_field_ranged(env, *x.alternative);
            }
        },
        _ => {},
    }
}

/// The sum of two field expressions keeps its value.
pub proof fn lemma_field_add_sound<T: Field>(
    env: Environment,
    span: Option<crate::common::Span>,
    l: FieldElementExpression<T>,
    r: FieldElementExpression<T>,
)
    requires
        field_value(env, l) is Some,
        field_value(env, r) is Some,
    ensures
        field_value(env, field_rules::folded_add(span, l, r)) == Some(
            sum_mod(field_value(env, l)->Some_0, field_value(env, r)->Some_0, T::modulus()),
        ),
{
    let p = T::modulus();
    T::lemma_modulus();
    let x = field_value(env, l)->Some_0;
    let y = field_value(env, r)->Some_0;
    lemma_mod_bound((x + y) as int, p as int);
    T::lemma_value_from_value(sum_mod(x, y, p));
}

/// The difference of two field expressions keeps its value.
pub proof fn lemma_field_sub_sound<T: Field>(
    env: Environment,
    span: Option<crate::common::Span>,
    l: FieldElementExpression<T>,
    r: FieldElementExpression<T>,
)
    requires
        field_value(env, l) is Some,
        field_value(env, r) is Some,
    ensures
        field_value(env, field_rules::folded_sub(span, l, r)) == Some(
            difference_mod(field_value(env, l)->Some_0, field_value(env, r)->Some_0, T::modulus()),
        ),
{
    let p = T::modulus();
    T::lemma_modulus();
    let x = field_value(env, l)->Some_0;
    let y = field_value(env, r)->Some_0;
    lemma_mod_bound(x as int - y as int, p as int);
    T::lemma_value_from_value(difference_mod(x, y, p));
}

/// The product of two field expressions keeps its value.
pub proof fn lemma_field_mult_sound<T: Field>(
    env: Environment,
    span: Option<crate::common::Span>,
    l: FieldElementExpression<T>,
    r: FieldElementExpression<T>,
)
    requires
        field_value(env, l) is Some,
        field_value(env, r) is Some,
    ensures
        field_value(env, field_rules::folded_mult(span, l, r)) == Some(
            product_mod(field_value(env, l)->Some_0, field_value(env, r)->Some_0, T::modulus()),
        ),
{
    let p = T::modulus();
    T::lemma_modulus();
    let x = field_value(env, l)->Some_0;
    let y = field_value(env, r)->Some_0;
    lemma_mod_bound((x * y) as int, p as int);
    T::lemma_value_from_value(product_mod(x, y, p));
}

/// The quotient of two field expressions keeps its value.
pub proof fn lemma_field_div_sound<T: Field>(
    env: Environment,
    span: Option<crate::common::Span>,
    l: FieldElementExpression<T>,
    r: FieldElementExpression<T>,
)
    requires
        field_value(env, l) is Some,
        field_value(env, r) is Some,
        field_value(env, r)->Some_0 != 0,
    ensures
        field_value(env, field_rules::folded_div(span, l, r)) == Some(
            quotient_mod(field_value(env, l)->Some_0, field_value(env, r)->Some_0, T::modulus()),
        ),
{
    let p = T::modulus();
    T::lemma_modulus();
    let x = field_value(env, l)->Some_0;
    let y = field_value(env, r)->Some_0;
    lemma_field_ranged(env, r);
    lemma_small_mod(y, p);
    lemma_mod_bound((x * crate::field::inverse_mod(y, p)) as int, p as int);
    T::lemma_value_from_value(quotient_mod(x, y, p));
}

/// The power of a field expression keeps its value.
pub proof fn lemma_field_pow_sound<T: Field>(
    env: Environment,
    l: FieldElementExpression<T>,
    r: UExpression<T>,
)
    requires
        field_value(env, l) is Some,
        uint_value(env, r) is Some,
        r.bitwidth == UBitwidth::B32,
        field_rules::folded_pow(l, r) is Ok,
    ensures
        field_value(env, field_rules::folded_pow(l, r)->Ok_0) == Some(
            power_mod(field_value(env, l)->Some_0, uint_value(env, r)->Some_0, T::modulus()),
        ),
{
    let p = T::modulus();
    T::lemma_modulus();
    let x = field_value(env, l)->Some_0;
    let y = uint_value(env, r)->Some_0;
    lemma_mod_bound(pow(x as int, y), p as int);
    T::lemma_value_from_value(power_mod(x, y, p));
    T::lemma_value_from_value(1);
    lemma_pow0(x as int);
    lemma_small_mod(1, p);
    let out = field_rules::folded_pow(l, r)->Ok_0;
    if out is Pow {
        assert(uint_value(env, *(out->Pow_0).right) == Some(y));
    }
}

/// The negation of a field expression keeps its value.
pub proof fn lemma_field_neg_sound<T: Field>(env: Environment, e: FieldElementExpression<T>)
    requires
        field_value(env, e) is Some,
    ensures
        field_value(env, field_rules::folded_neg(e)) == Some(
            difference_mod(0, field_value(env, e)->Some_0, T::modulus()),
        ),
{
    let p = T::modulus();
    T::lemma_modulus();
    let x = field_value(env, e)->Some_0;
    T::lemma_value_from_value(0);
    lemma_mod_bound(0 - x as int, p as int);
    T::lemma_value_from_value(difference_mod(0, x, p));
}

/// The arithmetic operators on field elements keep their values.
pub proof fn lemma_field_arithmetic_sound<T: Field>(
    c: Known<T>,
    env: Environment,
    e: FieldElementExpression<T>,
)
    requires
        models(env, c),
        regular_field(e),
        folded_field(c, e) is Ok,
        field_value(env, e) is Some,
        e is Add || e is Sub || e is Mult || e is Div || e is Pow || e is Neg || e is Pos,
    ensures
        field_value(env, folded_field(c, e)->Ok_0) == field_value(env, e),
    decreases e, 0int,
{
    match e {
        FieldElementExpression::Add(b) => {
            lemma_field_sound(c, env, *b.left);
            lemma_field_sound(c, env, *b.right);
            lemma_field_add_sound(
                env,
                b.span,
                folded_field(c, *b.left)->Ok_0,
                folded_field(c, *b.right)->Ok_0,
            );
        },
        FieldElementExpression::Sub(b) => {
            lemma_field_sound(c, env, *b.left);
            lemma_field_sound(c, env, *b.right);
            lemma_field_sub_sound(
                env,
                b.span,
                folded_field(c, *b.left)->Ok_0,
                folded_field(c, *b.right)->Ok_0,
            );
        },
        FieldElementExpression::Mult(b) => {
            lemma_field_sound(c, env, *b.left);
            lemma_field_sound(c, env, *b.right);
            lemma_field_mult_sound(
                env,
                b.span,
                folded_field(c, *b.left)->Ok_0,
                folded_field(c, *b.right)->Ok_0,
            );
        },
        FieldElementExpression::Div(b) => {
            lemma_field_sound(c, env, *b.left);
            lemma_field_sound(c, env, *b.right);
            lemma_field_div_sound(
                env,
                b.span,
                folded_field(c, *b.left)->Ok_0,
                folded_field(c, *b.right)->Ok_0,
            );
        },
        FieldElementExpression::Pow(b) => {
            lemma_field_sound(c, env, *b.left);
            lemma_uint_sound(c, env, *b.right);
            lemma_field_pow_sound(
                env,
                folded_field(c, *b.left)->Ok_0,
                folded_uint(c, *b.right)->Ok_0,
            );
        },
        FieldElementExpression::Neg(u) => {
            lemma_field_sound(c, env, *u.inner);
            lemma_field_neg_sound(env, folded_field(c, *u.inner)->Ok_0);
        },
        FieldElementExpression::Pos(u) => {
            lemma_field_sound(c, env, *u.inner);
        },
        _ => {},
    }
}

pub proof fn lemma_field_sound<T: Field>(c: Known<T>, env: Environment, e: FieldElementExpression<T>)
    requires
        models(env, c),
        regular_field(e),
        folded_field(c, e) is Ok,
        field_value(env, e) is Some,
    ensures
        field_value(env, folded_field(c, e)->Ok_0) == field_value(env, e),
    decreases e, 1int,
{
    match e {
        FieldElementExpression::Number(n) => {},
        FieldElementExpression::Identifier(id) => {
            if c.contains_key(id.id.id) {
                assert(value_of(env, c[id.id.id]) == Some(env[id.id.id]));
            }
        },
        FieldElementExpression::Add(_) | FieldElementExpression::Sub(_) | FieldElementExpression::Mult(_)
        | FieldElementExpression::Div(_) | FieldElementExpression::Pow(_) | FieldElementExpression::Neg(
            _,
        ) | FieldElementExpression::Pos(_) => {
            lemma_field_arithmetic_sound(c, env, e);
        },
        FieldElementExpression::Conditional(x) => {
            lemma_boolean_sound(c, env, *x.condition);
            if boolean_value(env, *x.condition) == Some(true) {
                lemma_field_sound(c, env, *x.consequence);
            } else {
                lemma_field_sound(c, env, *x.alternative);
            }
        },
        FieldElementExpression::Select(s) => {
            lemma_select_sound(c, env, s, Family::FieldElement);
        },
        _ => {},
    }
}

/// The comparisons keep their values.
pub proof fn lemma_order_sound<T: Field>(c: Known<T>, env: Environment, e: BooleanExpression<T>)
    requires
        models(env, c),
        regular_boolean(e),
        folded_boolean(c, e) is Ok,
        boolean_value(env, e) is Some,
        e is FieldLt || e is FieldLe || e is UintLt || e is UintLe,
    ensures
        boolean_value(env, folded_boolean(c, e)->Ok_0) == boolean_value(env, e),
    decreases e, 0int,
{
    match e {
        BooleanExpression::FieldLt(b) => {
            lemma_field_sound(c, env, *b.left);
            lemma_field_sound(c, env, *b.right);
        },
        BooleanExpression::FieldLe(b) => {
            lemma_field_sound(c, env, *b.left);
            lemma_field_sound(c, env, *b.right);
        },
        BooleanExpression::UintLt(b) => {
            lemma_uint_sound(c, env, *b.left);
            lemma_uint_sound(c, env, *b.right);
        },
        BooleanExpression::UintLe(b) => {
            lemma_uint_sound(c, env, *b.left);
            lemma_uint_sound(c, env, *b.right);
        },
        _ => {},
    }
}

/// The equalities of scalars keep their values.
pub proof fn lemma_equality_sound<T: Field>(c: Known<T>, env: Environment, e: BooleanExpression<T>)
    requires
        models(env, c),
        regular_boolean(e),
        folded_boolean(c, e) is Ok,
        boolean_value(env, e) is Some,
        e is FieldEq || e is BoolEq || e is UintEq,
    ensures
        boolean_value(env, folded_boolean(c, e)->Ok_0) == boolean_value(env, e),
    decreases e, 0int,
{
    match e {
        BooleanExpression::FieldEq(b) => {
            lemma_field_sound(c, env, *b.left);
            lemma_field_sound(c, env, *b.right);
            let l = folded_field(c, *b.left)->Ok_0;
            let r = folded_field(c, *b.right)->Ok_0;
            if l is Number && r is Number {
                let n1 = l->Number_0.value;
                let n2 = r->Number_0.value;
                if n1.value() == n2.value() {
                    T::lemma_value_injective(n1, n2);
                }
            }
        },
        BooleanExpression::BoolEq(b) => {
            lemma_boolean_sound(c, env, *b.left);
            lemma_boolean_sound(c, env, *b.right);
        },
        BooleanExpression::UintEq(b) => {
            lemma_uint_sound(c, env, *b.left);
            lemma_uint_sound(c, env, *b.right);
        },
        _ => {},
    }
}

pub proof fn lemma_boolean_sound<T: Field>(c: Known<T>, env: Environment, e: BooleanExpression<T>)
    requires
        models(env, c),
        regular_boolean(e),
        folded_boolean(c, e) is Ok,
        boolean_value(env, e) is Some,
    ensures
        boolean_value(env, folded_boolean(c, e)->Ok_0) == boolean_value(env, e),
    decreases e, 1int,
{
    match e {
        BooleanExpression::Value(v) => {},
        BooleanExpression::Identifier(id) => {
            if c.contains_key(id.id.id) {
                assert(value_of(env, c[id.id.id]) == Some(env[id.id.id]));
            }
        },
        BooleanExpression::FieldLt(_) | BooleanExpression::FieldLe(_) | BooleanExpression::UintLt(_)
        | BooleanExpression::UintLe(_) => {
            lemma_order_sound(c, env, e);
        },
        BooleanExpression::FieldEq(_) | BooleanExpression::BoolEq(_) | BooleanExpression::UintEq(_) => {
            lemma_equality_sound(c, env, e);
        },
        BooleanExpression::Or(b) => {
            lemma_boolean_sound(c, env, *b.left);
            lemma_boolean_sound(c, env, *b.right);
        },
        BooleanExpression::And(b) => {
            lemma_boolean_sound(c, env, *b.left);
            lemma_boolean_sound(c, env, *b.right);
        },
        BooleanExpression::Not(u) => {
            lemma_boolean_sound(c, env, *u.inner);
        },
        BooleanExpression::Conditional(x) => {
            lemma_boolean_sound(c, env, *x.condition);
            if boolean_value(env, *x.condition) == Some(true) {
                lemma_boolean_sound(c, env, *x.consequence);
            } else {
                lemma_boolean_sound(c, env, *x.alternative);
            }
        },
        BooleanExpression::Select(s) => {
            lemma_select_sound(c, env, s, Family::Boolean);
        },
        _ => {},
    }
}

pub proof fn lemma_uint_sound<T: Field>(c: Known<T>, env: Environment, e: UExpression<T>)
    requires
        models(env, c),
        regular_uint(e),
        folded_uint(c, e) is Ok,
        uint_value(env, e) is Some,
    ensures
        uint_value(env, folded_uint(c, e)->Ok_0) == uint_value(env, e),
        folded_uint(c, e)->Ok_0.bitwidth == e.bitwidth,
        uint_inner_value(env, e.bitwidth, folded_uint(c, e)->Ok_0.inner) == uint_value(env, e),
    decreases e,
{
    lemma_uint_inner_sound(c, env, e.bitwidth, e.inner);
}

/// Both operands of an operator on unsigned integers keep their values.
pub proof fn lemma_operands_sound<T: Field, Op>(
    c: Known<T>,
    env: Environment,
    bw: UBitwidth,
    b: BinaryExpression<Op, UExpression<T>, UExpression<T>, UExpression<T>>,
)
    requires
        models(env, c),
        regular_operands(bw, b),
        folded_operands(c, b) is Ok,
        operand_values(env, b) is Some,
    ensures
        uint_inner_value(env, bw, folded_operands(c, b)->Ok_0.0) == Some(
            operand_values(env, b)->Some_0.0 as nat,
        ),
        uint_inner_value(env, bw, folded_operands(c, b)->Ok_0.1) == Some(
            operand_values(env, b)->Some_0.1 as nat,
        ),
        operand_values(env, b)->Some_0.0 < bw.range(),
        operand_values(env, b)->Some_0.1 < bw.range(),
    decreases b,
{
    lemma_uint_sound(c, env, *b.left);
    lemma_uint_sound(c, env, *b.right);
    lemma_uint_ranged(env, *b.left);
    lemma_uint_ranged(env, *b.right);
}

/// The operands of a shift keep their values.
pub proof fn lemma_shift_sound<T: Field, Op>(
    c: Known<T>,
    env: Environment,
    bw: UBitwidth,
    b: BinaryExpression<Op, UExpression<T>, UExpression<T>, UExpression<T>>,
)
    requires
        models(env, c),
        b.left.bitwidth == bw,
        b.right.bitwidth == UBitwidth::B32,
        regular_uint(*b.left),
        regular_uint(*b.right),
        folded_operands(c, b) is Ok,
        operand_values(env, b) is Some,
    ensures
        uint_inner_value(env, bw, folded_operands(c, b)->Ok_0.0) == Some(
            operand_values(env, b)->Some_0.0 as nat,
        ),
        uint_inner_value(env, UBitwidth::B32, folded_operands(c, b)->Ok_0.1) == Some(
            operand_values(env, b)->Some_0.1 as nat,
        ),
    decreases b,
{
    lemma_uint_sound(c, env, *b.left);
    lemma_uint_sound(c, env, *b.right);
    lemma_uint_ranged(env, *b.left);
    lemma_uint_ranged(env, *b.right);
}

/// The value of an unsigned integer fits in its type.
pub proof fn lemma_uint_ranged<T: Field>(env: Environment, e: UExpression<T>)
    requires
        uint_value(env, e) is Some,
    ensures
        uint_value(env, e)->Some_0 < e.bitwidth.range(),
        e.bitwidth.range() <= 0x1_0000_0000_0000_0000,
{
}

/// The arithmetic operators keep their values.
pub proof fn lemma_arithmetic_sound<T: Field>(
    c: Known<T>,
    env: Environment,
    bw: UBitwidth,
    e: UExpressionInner<T>,
)
    requires
        models(env, c),
        regular_uint_inner(bw, e),
        folded_uint_inner(c, bw, e) is Ok,
        uint_inner_value(env, bw, e) is Some,
        e is Add || e is Sub || e is FloorSub || e is Mult || e is Div || e is Rem || e is Xor || e is And,
    ensures
        uint_inner_value(env, bw, folded_uint_inner(c, bw, e)->Ok_0) == uint_inner_value(
            env,
            bw,
            e,
        ),
    decreases e, 0int,
{
    match e {
        UExpressionInner::Add(b) => {
            lemma_operands_sound(c, env, bw, b);
            let (l, r) = folded_operands(c, b)->Ok_0;
            let (x, y) = operand_values(env, b)->Some_0;
            lemma_add_sound(env, bw, l, r, x, y);
        },
        UExpressionInner::Sub(b) => {
            lemma_operands_sound(c, env, bw, b);
            let (l, r) = folded_operands(c, b)->Ok_0;
            let (x, y) = operand_values(env, b)->Some_0;
            lemma_sub_sound(env, bw, l, r, x, y);
        },
        UExpressionInner::FloorSub(b) => {
            lemma_operands_sound(c, env, bw, b);
            let (l, r) = folded_operands(c, b)->Ok_0;
            let (x, y) = operand_values(env, b)->Some_0;
            lemma_floor_sub_sound(env, bw, l, r, x, y);
        },
        UExpressionInner::Mult(b) => {
            lemma_operands_sound(c, env, bw, b);
            let (l, r) = folded_operands(c, b)->Ok_0;
            let (x, y) = operand_values(env, b)->Some_0;
            lemma_mult_sound(env, bw, l, r, x, y);
        },
        UExpressionInner::Div(b) => {
            lemma_operands_sound(c, env, bw, b);
            let (l, r) = folded_operands(c, b)->Ok_0;
            let (x, y) = operand_values(env, b)->Some_0;
            lemma_div_sound(env, bw, l, r, x, y);
        },
        UExpressionInner::Rem(b) => {
            lemma_operands_sound(c, env, bw, b);
            let (l, r) = folded_operands(c, b)->Ok_0;
            let (x, y) = operand_values(env, b)->Some_0;
            lemma_rem_sound(env, bw, l, r, x, y);
        },
        UExpressionInner::Xor(b) => {
            lemma_operands_sound(c, env, bw, b);
            let (l, r) = folded_operands(c, b)->Ok_0;
            let (x, y) = operand_values(env, b)->Some_0;
            lemma_xor_sound(env, bw, l, r, x, y);
        },
        UExpressionInner::And(b) => {
            lemma_operands_sound(c, env, bw, b);
            let (l, r) = folded_operands(c, b)->Ok_0;
            let (x, y) = operand_values(env, b)->Some_0;
            lemma_and_sound(env, bw, l, r, x, y);
        },
        _ => {},
    }
}

/// The shifts and the operators of one operand keep their values.
pub proof fn lemma_bitwise_sound<T: Field>(
    c: Known<T>,
    env: Environment,
    bw: UBitwidth,
    e: UExpressionInner<T>,
)
    requires
        models(env, c),
        regular_uint_inner(bw, e),
        folded_uint_inner(c, bw, e) is Ok,
        uint_inner_value(env, bw, e) is Some,
        e is Or || e is LeftShift || e is RightShift || e is Not || e is Neg || e is Pos,
    ensures
        uint_inner_value(env, bw, folded_uint_inner(c, bw, e)->Ok_0) == uint_inner_value(
            env,
            bw,
            e,
        ),
    decreases e, 0int,
{
    match e {
        UExpressionInner::Or(b) => {
            lemma_uint_sound(c, env, *b.left);
            lemma_uint_sound(c, env, *b.right);
        },
        UExpressionInner::LeftShift(b) => {
            lemma_shift_sound(c, env, bw, b);
            let (l, r) = folded_operands(c, b)->Ok_0;
            let (x, y) = operand_values(env, b)->Some_0;
            lemma_left_shift_sound(env, bw, l, r, x, y);
        },
        UExpressionInner::RightShift(b) => {
            lemma_shift_sound(c, env, bw, b);
            let (l, r) = folded_operands(c, b)->Ok_0;
            let (x, y) = operand_values(env, b)->Some_0;
            lemma_right_shift_sound(env, bw, l, r, x, y);
        },
        UExpressionInner::Not(u) => {
            lemma_uint_sound(c, env, *u.inner);
            lemma_uint_ranged(env, *u.inner);
            let x = uint_value(env, *u.inner)->Some_0;
            lemma_not_sound(env, bw, folded_uint(c, *u.inner)->Ok_0.inner, x as u128);
        },
        UExpressionInner::Neg(u) => {
            lemma_uint_sound(c, env, *u.inner);
            lemma_uint_ranged(env, *u.inner);
            let x = uint_value(env, *u.inner)->Some_0;
            lemma_neg_sound(env, bw, folded_uint(c, *u.inner)->Ok_0.inner, x as u128);
        },
        UExpressionInner::Pos(u) => {
            lemma_uint_sound(c, env, *u.inner);
            lemma_uint_ranged(env, *u.inner);
            let x = uint_value(env, *u.inner)->Some_0;
            lemma_pos_sound(env, bw, folded_uint(c, *u.inner)->Ok_0.inner, x as u128);
        },
        _ => {},
    }
}

pub proof fn lemma_uint_inner_sound<T: Field>(
    c: Known<T>,
    env: Environment,
    bw: UBitwidth,
    e: UExpressionInner<T>,
)
    requires
        models(env, c),
        regular_uint_inner(bw, e),
        folded_uint_inner(c, bw, e) is Ok,
        uint_inner_value(env, bw, e) is Some,
    ensures
        uint_inner_value(env, bw, folded_uint_inner(c, bw, e)->Ok_0) == uint_inner_value(
            env,
            bw,
            e,
        ),
    decreases e, 1int,
{
    match e {
        UExpressionInner::Value(v) => {},
        UExpressionInner::Identifier(id) => {
            if c.contains_key(id.id.id) {
                assert(value_of(env, c[id.id.id]) == Some(env[id.id.id]));
            }
        },
        UExpressionInner::Add(_) | UExpressionInner::Sub(_) | UExpressionInner::FloorSub(_)
        | UExpressionInner::Mult(_) | UExpressionInner::Div(_) | UExpressionInner::Rem(_)
        | UExpressionInner::Xor(_) | UExpressionInner::And(_) => {
            lemma_arithmetic_sound(c, env, bw, e);
        },
        UExpressionInner::Or(_) | UExpressionInner::LeftShift(_) | UExpressionInner::RightShift(_)
        | UExpressionInner::Not(_) | UExpressionInner::Neg(_) | UExpressionInner::Pos(_) => {
            lemma_bitwise_sound(c, env, bw, e);
        },
        UExpressionInner::Conditional(x) => {
            lemma_boolean_sound(c, env, *x.condition);
            if boolean_value(env, *x.condition) == Some(true) {
                lemma_uint_sound(c, env, *x.consequence);
            } else {
                lemma_uint_sound(c, env, *x.alternative);
            }
        },
        UExpressionInner::Select(s) => {
            lemma_select_sound(c, env, s, Family::Uint(bw));
        },
        _ => {},
    }
}

pub proof fn lemma_array_sound<T: Field>(c: Known<T>, env: Environment, e: ArrayExpression<T>)
    requires
        models(env, c),
        regular_array(e),
        folded_array(c, e) is Ok,
        array_value(env, e) is Some,
    ensures
        array_value(env, folded_array(c, e)->Ok_0) == array_value(env, e),
    decreases e,
{
    match e.inner {
        ArrayExpressionInner::Value(v) => {
            lemma_elements_sound(c, env, v.value);
            lemma_values_spliced(env, folded_elements(c, v.value)->Ok_0);
        },
        ArrayExpressionInner::Identifier(id) => {
            if c.contains_key(id.id.id) {
                assert(value_of(env, c[id.id.id]) == Some(env[id.id.id]));
                match c[id.id.id] {
                    TypedExpression::Array(a) => {
                        assert(array_value(env, a) is Some);
                    },
                    _ => {},
                }
            }
        },
        ArrayExpressionInner::Conditional(x) => {
            lemma_boolean_sound(c, env, *x.condition);
            if boolean_value(env, *x.condition) == Some(true) {
                lemma_array_sound(c, env, *x.consequence);
            } else {
                lemma_array_sound(c, env, *x.alternative);
            }
        },
        ArrayExpressionInner::Select(s) => {
            lemma_select_sound(c, env, s, Family::Array);
        },
        _ => {},
    }
}

pub proof fn lemma_elements_sound<T: Field>(
    c: Known<T>,
    env: Environment,
    l: List<TypedExpressionOrSpread<T>>,
)
    requires
        models(env, c),
        regular_elements(l),
        folded_elements(c, l) is Ok,
        element_values(env, l) is Some,
    ensures
        element_values(env, folded_elements(c, l)->Ok_0) == element_values(env, l),
    decreases l,
{
    match l {
        List::Nil => {},
        List::Cons(n) => {
            lemma_elements_sound(c, env, n.tail);
            match n.head {
                TypedExpressionOrSpread::Expression(e) => {
                    lemma_expression_sound(c, env, e);
                },
                TypedExpressionOrSpread::Spread(s) => {
                    lemma_array_sound(c, env, s.array);
                },
            }
        },
    }
}


} // verus!
