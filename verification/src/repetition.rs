//! Idempotence of constant propagation on programs whose statements assign
//! to whole variables.
//!
//! Where the pass rewrites a program to a second program, and does not fail
//! on the second program, it rewrites the second program to itself.

use crate::constant::{
    array_is_constant, canonical, canonical_array, elements_are_constant, flattened, is_constant,
};
use crate::error::Error;
use crate::expressions::ValueExpression;
use crate::field::Field;
use crate::folding::{
    folded_array_inner, folded_boolean, folded_expression, folded_field, folded_uint,
    folded_uint_inner, Known,
};
use crate::idempotence::{
    fixed, fixed_array, fixed_elements, lemma_fixed_elements, lemma_fixed_folds, settled,
};
use crate::embed::{bit_array, bit_element, bits_be, evaluated, from_bits, to_bits, unpack};
use crate::idempotence::lemma_expression_idempotent;
use crate::list::List;
use crate::regular::regular_expression;
use crate::statements::folded_expressions;
use crate::typed::EmbedCall;
use crate::types::{Type, UBitwidth};
use crate::typed::{
    ArrayExpression, ArrayExpressionInner, BooleanExpression, FieldElementExpression,
    TypedExpression, TypedExpressionOrSpread, UExpression, UExpressionInner,
};
use vstd::prelude::*;

verus! {

/// What is known at the start of the pass: nothing.
pub open spec fn nothing<T: Field>() -> Known<T> {
    Map::empty()
}

/// Whether `k` is a constant that the pass leaves alone.
pub open spec fn good<T: Field>(k: TypedExpression<T>) -> bool {
    is_constant(k) && fixed(nothing(), k)
}

/// Whether every known value is a constant in canonical form that the pass
/// leaves alone.
pub open spec fn all_good<T: Field>(c: Known<T>) -> bool {
    forall|id: u64| c.contains_key(id) ==> good(#[trigger] c[id]) && canonical(c[id]) == c[id]
}

/// The elements of a constant array literal that the pass leaves alone are
/// left alone whatever is known.
pub proof fn lemma_good_elements_anywhere<T: Field>(
    l: List<TypedExpressionOrSpread<T>>,
    c: Known<T>,
)
    requires
        elements_are_constant(l),
        fixed_elements(nothing(), l),
    ensures
        fixed_elements(c, l),
    decreases l,
{
    match l {
        List::Nil => {},
        List::Cons(n) => {
            assert(elements_are_constant(n.tail));
            assert(fixed_elements(nothing::<T>(), n.tail));
            lemma_good_elements_anywhere(n.tail, c);
            match n.head {
                TypedExpressionOrSpread::Expression(e) => {
                    assert(is_constant(e));
                    assert(fixed(nothing::<T>(), e));
                    lemma_good_anywhere(e, c);
                },
                TypedExpressionOrSpread::Spread(s) => {
                    assert(array_is_constant(s.array));
                    assert(!(s.array.inner is Value));
                },
            }
        },
    }
}

/// A constant array that the pass leaves alone is left alone whatever is
/// known.
pub proof fn lemma_good_array_anywhere<T: Field>(a: ArrayExpression<T>, c: Known<T>)
    requires
        array_is_constant(a),
        fixed_array(nothing(), a),
    ensures
        fixed_array(c, a),
    decreases a,
{
    let v = a.inner->Value_0;
    assert(elements_are_constant(v.value));
    assert(fixed_elements(nothing::<T>(), v.value));
    lemma_good_elements_anywhere(v.value, c);
    lemma_fixed_elements(nothing::<T>(), v.value);
    lemma_fixed_elements(c, v.value);
    assert(folded_array_inner(nothing::<T>(), a.inner) == Ok::<ArrayExpressionInner<T>, Error>(
        a.inner,
    ));
    assert(folded_array_inner(c, a.inner) == Ok::<ArrayExpressionInner<T>, Error>(
        ArrayExpressionInner::Value(ValueExpression::new(v.value)),
    ));
    assert(folded_array_inner(nothing::<T>(), a.inner) == Ok::<ArrayExpressionInner<T>, Error>(
        ArrayExpressionInner::Value(ValueExpression::new(v.value)),
    ));
}

/// A constant that the pass leaves alone is left alone whatever is known.
pub proof fn lemma_good_anywhere<T: Field>(k: TypedExpression<T>, c: Known<T>)
    requires
        good(k),
    ensures
        fixed(c, k),
    decreases k,
{
    match k {
        TypedExpression::Boolean(b) => {
            assert(b is Value);
            assert(folded_boolean(c, b) == Ok::<BooleanExpression<T>, Error>(b));
        },
        TypedExpression::FieldElement(f) => {
            assert(f is Number);
            assert(folded_field(c, f) == Ok::<FieldElementExpression<T>, Error>(f));
        },
        TypedExpression::Uint(u) => {
            assert(u.inner is Value);
            assert(folded_uint_inner(c, u.bitwidth, u.inner) == Ok::<UExpressionInner<T>, Error>(
                u.inner,
            ));
            assert(folded_uint(c, u) == Ok::<UExpression<T>, Error>(u));
        },
        TypedExpression::Array(a) => {
            assert(array_is_constant(a));
            assert(fixed_array(nothing::<T>(), a));
            lemma_good_array_anywhere(a, c);
        },
        TypedExpression::Struct(s) => {
            assert(s.inner is Value);
        },
        TypedExpression::Tuple(t) => {
            assert(t.inner is Value);
        },
    }
}

/// Known values that are all constants that the pass leaves alone are left
/// alone whatever is known.
pub proof fn lemma_all_good_settled<T: Field>(c: Known<T>, d: Known<T>)
    requires
        all_good(c),
    ensures
        settled(c, d),
{
    assert forall|id: u64| c.contains_key(id) implies fixed(d, #[trigger] c[id]) by {
        lemma_good_anywhere(c[id], d);
    }
}

/// The canonical form of the elements of a constant array literal that the
/// pass leaves alone is such a list of elements again.
pub proof fn lemma_flattened_good<T: Field>(l: List<TypedExpressionOrSpread<T>>)
    requires
        elements_are_constant(l),
        fixed_elements(nothing(), l),
    ensures
        elements_are_constant(flattened(l)),
        fixed_elements(nothing(), flattened(l)),
    decreases l,
{
    match l {
        List::Nil => {},
        List::Cons(n) => {
            assert(elements_are_constant(n.tail));
            assert(fixed_elements(nothing::<T>(), n.tail));
            lemma_flattened_good(n.tail);
            match n.head {
                TypedExpressionOrSpread::Expression(e) => {
                    assert(is_constant(e));
                    assert(fixed(nothing::<T>(), e));
                    lemma_canonical_good(e);
                    let head = TypedExpressionOrSpread::Expression(canonical(e));
                    assert(flattened(l) == List::spec_cons(head, flattened(n.tail)));
                    assert(is_constant(canonical(e)));
                    assert(fixed(nothing::<T>(), canonical(e)));
                },
                TypedExpressionOrSpread::Spread(s) => {
                    assert(array_is_constant(s.array));
                    assert(!(s.array.inner is Value));
                },
            }
        },
    }
}

/// An array literal over elements that the pass leaves alone is left alone.
pub proof fn lemma_literal_fixed<T: Field>(
    c: Known<T>,
    ty: crate::types::ArrayType,
    l: List<TypedExpressionOrSpread<T>>,
)
    requires
        fixed_elements(c, l),
    ensures
        fixed_array(
            c,
            ArrayExpression { ty, inner: ArrayExpressionInner::Value(ValueExpression::new(l)) },
        ),
{
    lemma_fixed_elements(c, l);
    let inner = ArrayExpressionInner::Value(ValueExpression::new(l));
    assert(folded_array_inner(c, inner) == Ok::<ArrayExpressionInner<T>, Error>(inner));
}

/// The canonical form of a constant that the pass leaves alone is such a
/// constant again.
pub proof fn lemma_canonical_good<T: Field>(k: TypedExpression<T>)
    requires
        good(k),
    ensures
        good(canonical(k)),
    decreases k,
{
    let c = nothing::<T>();
    match k {
        TypedExpression::Boolean(b) => {
            let r = BooleanExpression::<T>::from_value(b->Value_0.value);
            assert(canonical(k) == TypedExpression::Boolean(r));
            assert(folded_boolean(c, r) == Ok::<BooleanExpression<T>, Error>(r));
        },
        TypedExpression::FieldElement(f) => {
            let r = FieldElementExpression::<T>::from_value(f->Number_0.value);
            assert(canonical(k) == TypedExpression::FieldElement(r));
            assert(folded_field(c, r) == Ok::<FieldElementExpression<T>, Error>(r));
        },
        TypedExpression::Uint(u) => {
            let r = UExpression::<T>::from_value(u.inner->Value_0.value).annotate(u.bitwidth);
            assert(canonical(k) == TypedExpression::Uint(r));
            assert(folded_uint_inner(c, r.bitwidth, r.inner) == Ok::<UExpressionInner<T>, Error>(
                r.inner,
            ));
            assert(folded_uint(c, r) == Ok::<UExpression<T>, Error>(r));
        },
        TypedExpression::Array(a) => {
            assert(array_is_constant(a));
            assert(fixed_array(c, a));
            let v = a.inner->Value_0;
            assert(elements_are_constant(v.value));
            assert(fixed_elements(c, v.value));
            lemma_flattened_good(v.value);
            let r = canonical_array(a);
            assert(canonical(k) == TypedExpression::Array(r));
            assert(r == ArrayExpression {
                ty: a.ty,
                inner: ArrayExpressionInner::Value(ValueExpression::new(flattened(v.value))),
            });
            lemma_literal_fixed(c, a.ty, flattened(v.value));
            assert(array_is_constant(r));
        },
        TypedExpression::Struct(s) => {
            assert(s.inner is Value);
        },
        TypedExpression::Tuple(t) => {
            assert(t.inner is Value);
        },
    }
}

/// The binary digits of a number are literals that the pass leaves alone.
pub proof fn lemma_bits_good<T: Field>(value: nat, width: nat)
    ensures
        elements_are_constant(bits_be::<T>(value, width)),
        fixed_elements(nothing(), bits_be::<T>(value, width)),
    decreases width,
{
    if width > 0 {
        lemma_bits_good::<T>(value, (width - 1) as nat);
        let head = bit_element::<T>((value / vstd::arithmetic::power2::pow2((width - 1) as nat))
            % 2 == 1);
        let e = head->Expression_0;
        assert(is_constant(e));
        assert(folded_boolean(nothing::<T>(), e->Boolean_0) == Ok::<BooleanExpression<T>, Error>(
            e->Boolean_0,
        ));
        assert(fixed(nothing::<T>(), e));
        assert(bits_be::<T>(value, width) == List::spec_cons(
            head,
            bits_be::<T>(value, (width - 1) as nat),
        ));
    }
}

/// The array of the binary digits of a number is a constant that the pass
/// leaves alone.
pub proof fn lemma_bit_array_good<T: Field>(value: nat, width: u32)
    ensures
        good(bit_array::<T>(value, width)),
{
    lemma_bits_good::<T>(value, width as nat);
    let l = bits_be::<T>(value, width as nat);
    let ty = crate::types::ArrayType {
        ty: Box::new(Type::Boolean),
        size: crate::types::ArraySize::Constant(width),
    };
    lemma_literal_fixed(nothing::<T>(), ty, l);
    let a = ArrayExpression { ty, inner: ArrayExpressionInner::Value(ValueExpression::new(l)) };
    assert(bit_array::<T>(value, width) == TypedExpression::Array(a));
    assert(array_is_constant(a));
}

/// What packing bits gives is a constant that the pass leaves alone.
pub proof fn lemma_from_bits_good<T: Field>(arguments: List<TypedExpression<T>>, bw: UBitwidth)
    requires
        from_bits(arguments, bw) is Some,
    ensures
        good(from_bits(arguments, bw)->Some_0),
{
    let r = from_bits(arguments, bw)->Some_0;
    let u = r->Uint_0;
    assert(u.inner is Value);
    assert(folded_uint_inner(nothing::<T>(), u.bitwidth, u.inner) == Ok::<
        UExpressionInner<T>,
        Error,
    >(u.inner));
    assert(folded_uint(nothing::<T>(), u) == Ok::<UExpression<T>, Error>(u));
}

/// What unpacking an unsigned integer gives is a constant that the pass
/// leaves alone.
pub proof fn lemma_to_bits_good<T: Field>(arguments: List<TypedExpression<T>>, bw: UBitwidth)
    requires
        to_bits(arguments, bw) is Some,
    ensures
        good(to_bits(arguments, bw)->Some_0),
{
    let u = crate::embed::only(arguments)->Some_0->Uint_0;
    let v = u.inner->Value_0;
    lemma_bit_array_good::<T>(v.value as nat, bw.bits() as u32);
}

/// What unpacking a field element gives is a constant that the pass leaves
/// alone.
pub proof fn lemma_unpack_good<T: Field>(arguments: List<TypedExpression<T>>, generics: List<u32>)
    requires
        unpack(arguments, generics) matches Ok(Some(_)),
    ensures
        good(unpack(arguments, generics)->Ok_0->Some_0),
{
    let n = crate::embed::only(arguments)->Some_0->FieldElement_0->Number_0;
    let bit_width = crate::embed::only_generic(generics)->Some_0;
    lemma_bit_array_good::<T>(n.value.value(), bit_width);
}

/// What the pass computes for a call is a constant that it leaves alone.
pub proof fn lemma_evaluated_good<T: Field>(call: EmbedCall<T>)
    requires
        evaluated(call) matches Ok(Some(_)),
    ensures
        good(evaluated(call)->Ok_0->Some_0),
{
    match call.embed {
        crate::typed::FlatEmbed::U8FromBits => lemma_from_bits_good(call.arguments, UBitwidth::B8),
        crate::typed::FlatEmbed::U16FromBits => lemma_from_bits_good(call.arguments, UBitwidth::B16),
        crate::typed::FlatEmbed::U32FromBits => lemma_from_bits_good(call.arguments, UBitwidth::B32),
        crate::typed::FlatEmbed::U64FromBits => lemma_from_bits_good(call.arguments, UBitwidth::B64),
        crate::typed::FlatEmbed::U8ToBits => lemma_to_bits_good(call.arguments, UBitwidth::B8),
        crate::typed::FlatEmbed::U16ToBits => lemma_to_bits_good(call.arguments, UBitwidth::B16),
        crate::typed::FlatEmbed::U32ToBits => lemma_to_bits_good(call.arguments, UBitwidth::B32),
        crate::typed::FlatEmbed::U64ToBits => lemma_to_bits_good(call.arguments, UBitwidth::B64),
        crate::typed::FlatEmbed::Unpack => lemma_unpack_good(call.arguments, call.generics),
        _ => {},
    }
}

/// Whether every expression of a list is of the kind that
/// [`regular_expression`] describes.
pub open spec fn regular_expressions<T>(l: List<TypedExpression<T>>) -> bool
    decreases l,
{
    match l {
        List::Nil => true,
        List::Cons(n) => regular_expression(n.head) && regular_expressions(n.tail),
    }
}

/// The expressions of a list, once rewritten, are left alone.
pub proof fn lemma_expressions_idempotent<T: Field>(
    c: Known<T>,
    d: Known<T>,
    l: List<TypedExpression<T>>,
)
    requires
        d.submap_of(c),
        settled(c, d),
        regular_expressions(l),
        folded_expressions(c, l) is Ok,
    ensures
        folded_expressions(d, folded_expressions(c, l)->Ok_0) == folded_expressions(c, l),
    decreases l,
{
    match l {
        List::Nil => {},
        List::Cons(n) => {
            assert(folded_expression(c, n.head) is Ok);
            assert(folded_expressions(c, n.tail) is Ok);
            lemma_expression_idempotent(c, d, n.head);
            lemma_fixed_folds(d, folded_expression(c, n.head)->Ok_0);
            lemma_expressions_idempotent(c, d, n.tail);
            let head = folded_expression(c, n.head)->Ok_0;
            let tail = folded_expressions(c, n.tail)->Ok_0;
            assert(folded_expressions(c, l) == Ok::<List<TypedExpression<T>>, Error>(
                List::spec_cons(head, tail),
            ));
        },
    }
}

/// The canonical form of canonical elements is the same elements.
pub proof fn lemma_flattened_idempotent<T: Field>(l: List<TypedExpressionOrSpread<T>>)
    requires
        elements_are_constant(l),
        fixed_elements(nothing(), l),
    ensures
        flattened(flattened(l)) == flattened(l),
    decreases l,
{
    match l {
        List::Nil => {},
        List::Cons(n) => {
            assert(elements_are_constant(n.tail));
            assert(fixed_elements(nothing::<T>(), n.tail));
            lemma_flattened_idempotent(n.tail);
            match n.head {
                TypedExpressionOrSpread::Expression(e) => {
                    assert(is_constant(e));
                    assert(fixed(nothing::<T>(), e));
                    lemma_canonical_idempotent(e);
                    let head = TypedExpressionOrSpread::Expression(canonical(e));
                    assert(flattened(l) == List::spec_cons(head, flattened(n.tail)));
                    assert(flattened(flattened(l)) == List::spec_cons(
                        TypedExpressionOrSpread::Expression(canonical(canonical(e))),
                        flattened(flattened(n.tail)),
                    ));
                },
                TypedExpressionOrSpread::Spread(s) => {
                    assert(array_is_constant(s.array));
                    assert(!(s.array.inner is Value));
                },
            }
        },
    }
}

/// The canonical form of a canonical form is the same canonical form.
pub proof fn lemma_canonical_idempotent<T: Field>(k: TypedExpression<T>)
    requires
        good(k),
    ensures
        canonical(canonical(k)) == canonical(k),
    decreases k,
{
    match k {
        TypedExpression::Boolean(b) => {
            let r = BooleanExpression::<T>::from_value(b->Value_0.value);
            assert(canonical(k) == TypedExpression::Boolean(r));
            assert(canonical(TypedExpression::Boolean(r)) == TypedExpression::Boolean(r));
        },
        TypedExpression::FieldElement(f) => {
            let r = FieldElementExpression::<T>::from_value(f->Number_0.value);
            assert(canonical(k) == TypedExpression::FieldElement(r));
            assert(canonical(TypedExpression::FieldElement(r)) == TypedExpression::FieldElement(
                r,
            ));
        },
        TypedExpression::Uint(u) => {
            let r = UExpression::<T>::from_value(u.inner->Value_0.value).annotate(u.bitwidth);
            assert(canonical(k) == TypedExpression::Uint(r));
            assert(canonical(TypedExpression::Uint(r)) == TypedExpression::Uint(r));
        },
        TypedExpression::Array(a) => {
            assert(array_is_constant(a));
            assert(fixed_array(nothing::<T>(), a));
            let v = a.inner->Value_0;
            assert(elements_are_constant(v.value));
            assert(fixed_elements(nothing::<T>(), v.value));
            lemma_flattened_idempotent(v.value);
            let r = canonical_array(a);
            assert(r == ArrayExpression {
                ty: a.ty,
                inner: ArrayExpressionInner::Value(ValueExpression::new(flattened(v.value))),
            });
            assert(canonical(k) == TypedExpression::Array(r));
            assert(canonical_array(r) == r);
            assert(canonical(TypedExpression::Array(r)) == TypedExpression::Array(r));
        },
        TypedExpression::Struct(s) => {
            assert(s.inner is Value);
        },
        TypedExpression::Tuple(t) => {
            assert(t.inner is Value);
        },
    }
}

/// The canonical form has the type of the expression.
pub proof fn lemma_canonical_type<T: Field>(k: TypedExpression<T>)
    requires
        good(k),
    ensures
        canonical(k).get_type() == k.get_type(),
{
    match k {
        TypedExpression::Boolean(b) => {
            let r = BooleanExpression::<T>::from_value(b->Value_0.value);
            assert(canonical(k) == TypedExpression::Boolean(r));
        },
        TypedExpression::FieldElement(f) => {
            let r = FieldElementExpression::<T>::from_value(f->Number_0.value);
            assert(canonical(k) == TypedExpression::FieldElement(r));
        },
        TypedExpression::Uint(u) => {
            let r = UExpression::<T>::from_value(u.inner->Value_0.value).annotate(u.bitwidth);
            assert(canonical(k) == TypedExpression::Uint(r));
        },
        TypedExpression::Array(a) => {
            assert(array_is_constant(a));
            assert(canonical(k) == TypedExpression::Array(canonical_array(a)));
            assert(canonical_array(a).ty == a.ty);
        },
        TypedExpression::Struct(s) => {
            assert(s.inner is Value);
        },
        TypedExpression::Tuple(t) => {
            assert(t.inner is Value);
        },
    }
}

/// The binary digits of a number are in canonical form.
pub proof fn lemma_bits_canonical<T: Field>(value: nat, width: nat)
    ensures
        flattened(bits_be::<T>(value, width)) == bits_be::<T>(value, width),
    decreases width,
{
    if width > 0 {
        lemma_bits_canonical::<T>(value, (width - 1) as nat);
        let head = bit_element::<T>((value / vstd::arithmetic::power2::pow2((width - 1) as nat))
            % 2 == 1);
        let e = head->Expression_0;
        assert(canonical(e) == e);
        assert(bits_be::<T>(value, width) == List::spec_cons(
            head,
            bits_be::<T>(value, (width - 1) as nat),
        ));
    }
}

/// What the pass computes for a call is in canonical form.
pub proof fn lemma_evaluated_canonical<T: Field>(call: EmbedCall<T>)
    requires
        evaluated(call) matches Ok(Some(_)),
    ensures
        canonical(evaluated(call)->Ok_0->Some_0) == evaluated(call)->Ok_0->Some_0,
{
    let r = evaluated(call)->Ok_0->Some_0;
    match r {
        TypedExpression::Uint(u) => {
            assert(u.inner is Value);
            assert(u.inner->Value_0.span is None);
            assert(canonical(r) == r);
        },
        TypedExpression::Array(a) => {
            let v = a.inner->Value_0;
            assert(a.ty.size is Constant);
            let width = a.ty.size->Constant_0;
            assert(exists|value: nat| v.value == bits_be::<T>(value, width as nat)) by {
                match call.embed {
                    crate::typed::FlatEmbed::Unpack => {
                        let n = crate::embed::only(call.arguments)->Some_0->FieldElement_0->Number_0;
                        assert(v.value == bits_be::<T>(n.value.value(), width as nat));
                    },
                    _ => {
                        let x = crate::embed::only(call.arguments)->Some_0->Uint_0.inner->Value_0;
                        assert(v.value == bits_be::<T>(x.value as nat, width as nat));
                    },
                }
            }
            let value = choose|value: nat| v.value == bits_be::<T>(value, width as nat);
            lemma_bits_canonical::<T>(value, width as nat);
            assert(canonical_array(a) == a);
            assert(canonical(r) == TypedExpression::Array(canonical_array(a)));
        },
        _ => {},
    }
}

} // verus!
