//! The operations that the pass can carry out on constants: packing bits
//! into an unsigned integer, unpacking an integer or a field element into
//! bits. Bits are written most significant first.

use crate::constant::canonical;
use crate::error::Error;
use crate::field::Field;
use crate::list::List;
use crate::typed::{
    ArrayExpression, ArrayExpressionInner, BooleanExpression, EmbedCall, FieldElementExpression,
    FlatEmbed, TypedExpression, TypedExpressionOrSpread, UExpression, UExpressionInner,
};
use crate::types::{Type, UBitwidth};
use vstd::arithmetic::power2::{
    lemma2_to64, lemma_pow2_pos, lemma_pow2_strictly_increases, lemma_pow2_unfold, pow2,
};
use vstd::prelude::*;

verus! {

/// The literal `b` as an element of an array literal.
pub open spec fn bit_element<T>(b: bool) -> TypedExpressionOrSpread<T> {
    TypedExpressionOrSpread::Expression(TypedExpression::Boolean(BooleanExpression::from_value(b)))
}

/// The `width` lowest binary digits of `value`.
pub open spec fn bits_be<T>(value: nat, width: nat) -> List<TypedExpressionOrSpread<T>>
    decreases width,
{
    if width == 0 {
        List::Nil
    } else {
        List::spec_cons(
            bit_element((value / pow2((width - 1) as nat)) % 2 == 1),
            bits_be(value, (width - 1) as nat),
        )
    }
}

/// The array literal of the `width` lowest binary digits of `value`.
pub open spec fn bit_array<T>(value: nat, width: u32) -> TypedExpression<T> {
    TypedExpression::Array(
        ArrayExpression::from_value(bits_be(value, width as nat)).annotate(Type::Boolean, width),
    )
}

/// The number that a list of boolean literals stands for, where the first
/// literal has the weight `2^(width - 1)`. There is none where the list holds
/// anything else or more than `width` literals.
pub open spec fn bits_value<T>(l: List<TypedExpressionOrSpread<T>>, width: nat) -> Option<nat>
    decreases l,
{
    match l {
        List::Nil => Some(0),
        List::Cons(n) => match n.head {
            TypedExpressionOrSpread::Expression(
                TypedExpression::Boolean(BooleanExpression::Value(b)),
            ) => if width == 0 {
                None
            } else {
                match bits_value(n.tail, (width - 1) as nat) {
                    Some(rest) => Some(
                        (if b.value {
                            pow2((width - 1) as nat)
                        } else {
                            0
                        }) + rest,
                    ),
                    None => None,
                }
            },
            _ => None,
        },
    }
}

/// The only argument of a call, if it has exactly one.
pub open spec fn only<T>(arguments: List<TypedExpression<T>>) -> Option<TypedExpression<T>> {
    match arguments {
        List::Cons(n) => if n.tail is Nil {
            Some(n.head)
        } else {
            None
        },
        List::Nil => None,
    }
}

/// The only generic parameter of a call, if it has exactly one.
pub open spec fn only_generic(generics: List<u32>) -> Option<u32> {
    match generics {
        List::Cons(n) => if n.tail is Nil {
            Some(n.head)
        } else {
            None
        },
        List::Nil => None,
    }
}

/// Packing: an array literal of at most `bw` boolean literals gives the
/// unsigned integer of `bw` bits that they spell.
pub open spec fn from_bits<T>(arguments: List<TypedExpression<T>>, bw: UBitwidth) -> Option<
    TypedExpression<T>,
> {
    match only(arguments) {
        Some(argument) => match canonical(argument) {
            TypedExpression::Array(a) => match a.inner {
                ArrayExpressionInner::Value(v) => match bits_value(v.value, bw.bits()) {
                    Some(x) => Some(
                        TypedExpression::Uint(UExpression::from_value(x as u128).annotate(bw)),
                    ),
                    None => None,
                },
                _ => None,
            },
            _ => None,
        },
        None => None,
    }
}

/// Unpacking: an unsigned literal below `2^bw` gives the array of its `bw`
/// binary digits.
pub open spec fn to_bits<T>(arguments: List<TypedExpression<T>>, bw: UBitwidth) -> Option<
    TypedExpression<T>,
> {
    match only(arguments) {
        Some(TypedExpression::Uint(u)) => match u.inner {
            UExpressionInner::Value(v) => if v.value < bw.range() {
                Some(bit_array(v.value as nat, bw.bits() as u32))
            } else {
                None
            },
            _ => None,
        },
        _ => None,
    }
}

/// Unpacking a field literal into `bit_width` binary digits, which fails
/// where the element does not fit.
pub open spec fn unpack<T: Field>(arguments: List<TypedExpression<T>>, generics: List<u32>) -> Result<
    Option<TypedExpression<T>>,
    Error,
> {
    match (only(arguments), only_generic(generics)) {
        (Some(TypedExpression::FieldElement(FieldElementExpression::Number(n))), Some(bit_width)) => if n.value.value()
            < pow2(bit_width as nat) {
            Ok(Some(bit_array(n.value.value(), bit_width)))
        } else {
            Err(Error::ValueTooLarge(bit_width))
        },
        _ => Ok(None),
    }
}

/// What a call with constant arguments is known to return: nothing (`None`)
/// for the operations that the pass does not carry out.
pub open spec fn evaluated<T: Field>(call: EmbedCall<T>) -> Result<Option<TypedExpression<T>>, Error> {
    match call.embed {
        FlatEmbed::U8FromBits => Ok(from_bits(call.arguments, UBitwidth::B8)),
        FlatEmbed::U16FromBits => Ok(from_bits(call.arguments, UBitwidth::B16)),
        FlatEmbed::U32FromBits => Ok(from_bits(call.arguments, UBitwidth::B32)),
        FlatEmbed::U64FromBits => Ok(from_bits(call.arguments, UBitwidth::B64)),
        FlatEmbed::U8ToBits => Ok(to_bits(call.arguments, UBitwidth::B8)),
        FlatEmbed::U16ToBits => Ok(to_bits(call.arguments, UBitwidth::B16)),
        FlatEmbed::U32ToBits => Ok(to_bits(call.arguments, UBitwidth::B32)),
        FlatEmbed::U64ToBits => Ok(to_bits(call.arguments, UBitwidth::B64)),
        FlatEmbed::Unpack => unpack(call.arguments, call.generics),
        _ => Ok(None),
    }
}

/// `2^e` for an exponent up to 64.
pub fn power_of_two(e: u32) -> (r: u128)
    requires
        e <= 64,
    ensures
        r == pow2(e as nat),
        r <= 0x1_0000_0000_0000_0000,
{
    let mut r: u128 = 1;
    let mut i: u32 = 0;
    proof {
        lemma2_to64();
    }
    while i < e
        invariant
            i <= e <= 64,
            r == pow2(i as nat),
            r <= pow2(64),
            pow2(64) == 0x1_0000_0000_0000_0000,
        decreases e - i,
    {
        proof {
            lemma_pow2_unfold((i + 1) as nat);
            if i + 1 < 64 {
                lemma_pow2_strictly_increases((i + 1) as nat, 64);
            }
        }
        r = r * 2;
        i = i + 1;
    }
    r
}

pub fn make_bit_element<T>(b: bool) -> (r: TypedExpressionOrSpread<T>)
    ensures
        r == bit_element::<T>(b),
{
    TypedExpressionOrSpread::Expression(TypedExpression::Boolean(BooleanExpression::from_value(b)))
}

/// The `width` lowest binary digits of `value`.
pub fn integer_bits<T>(value: u128, width: u32) -> (r: List<TypedExpressionOrSpread<T>>)
    requires
        width <= 64,
    ensures
        r == bits_be::<T>(value as nat, width as nat),
    decreases width,
{
    if width == 0 {
        List::Nil
    } else {
        let p = power_of_two(width - 1);
        proof {
            lemma_pow2_pos((width - 1) as nat);
        }
        let bit = (value / p) % 2 == 1;
        List::cons(make_bit_element(bit), integer_bits(value, width - 1))
    }
}

/// The `width` lowest binary digits of the representative of `x`.
pub fn field_bits<T: Field>(x: &T, width: u32) -> (r: List<TypedExpressionOrSpread<T>>)
    ensures
        r == bits_be::<T>(x.value(), width as nat),
    decreases width,
{
    if width == 0 {
        List::Nil
    } else {
        let bit = x.bit((width - 1) as u64);
        List::cons(make_bit_element(bit), field_bits(x, width - 1))
    }
}

/// Computes [`bits_value`] for a `width` up to 64.
pub fn compute_bits_value<T>(l: &List<TypedExpressionOrSpread<T>>, width: u32) -> (r: Option<u128>)
    requires
        width <= 64,
    ensures
        match bits_value(*l, width as nat) {
            Some(x) => r == Some(x as u128) && x < pow2(width as nat),
            None => r.is_none(),
        },
    decreases *l,
{
    match l {
        List::Nil => {
            proof {
                lemma_pow2_pos(width as nat);
            }
            Some(0)
        },
        List::Cons(n) => match &n.head {
            TypedExpressionOrSpread::Expression(
                TypedExpression::Boolean(BooleanExpression::Value(b)),
            ) => if width == 0 {
                None
            } else {
                match compute_bits_value(&n.tail, width - 1) {
                    Some(rest) => {
                        let p = power_of_two(width - 1);
                        proof {
                            lemma_pow2_unfold(width as nat);
                        }
                        if b.value {
                            Some(p + rest)
                        } else {
                            Some(rest)
                        }
                    },
                    None => None,
                }
            },
            _ => None,
        },
    }
}

/// Takes the only argument out of the arguments of a call.
pub fn take_only<T>(arguments: &List<TypedExpression<T>>) -> (r: Option<&TypedExpression<T>>)
    ensures
        match only(*arguments) {
            Some(e) => r == Some(&e),
            None => r.is_none(),
        },
{
    match arguments {
        List::Cons(n) => match &n.tail {
            List::Nil => Some(&n.head),
            _ => None,
        },
        List::Nil => None,
    }
}

pub fn take_only_generic(generics: &List<u32>) -> (r: Option<u32>)
    ensures
        r == only_generic(*generics),
{
    match generics {
        List::Cons(n) => match &n.tail {
            List::Nil => Some(n.head),
            _ => None,
        },
        List::Nil => None,
    }
}

pub fn make_bit_array<T>(bits: List<TypedExpressionOrSpread<T>>, width: u32) -> (r: TypedExpression<T>)
    ensures
        r == TypedExpression::Array(
            ArrayExpression::from_value(bits).annotate(Type::Boolean, width),
        ),
{
    TypedExpression::Array(ArrayExpression::from_value(bits).annotate(Type::Boolean, width))
}

pub fn process_u_from_bits<T: Field>(arguments: &List<TypedExpression<T>>, bw: UBitwidth) -> (r:
    Option<TypedExpression<T>>)
    ensures
        r == from_bits(*arguments, bw),
{
    match take_only(arguments) {
        Some(argument) => match argument.clone().into_canonical_constant() {
            TypedExpression::Array(a) => match &a.inner {
                ArrayExpressionInner::Value(v) => match compute_bits_value(
                    &v.value,
                    bw.to_usize() as u32,
                ) {
                    Some(x) => Some(TypedExpression::Uint(UExpression::from_value(x).annotate(bw))),
                    None => None,
                },
                _ => None,
            },
            _ => None,
        },
        None => None,
    }
}

pub fn process_u_to_bits<T: Field>(arguments: &List<TypedExpression<T>>, bw: UBitwidth) -> (r:
    Option<TypedExpression<T>>)
    ensures
        r == to_bits(*arguments, bw),
{
    match take_only(arguments) {
        Some(TypedExpression::Uint(u)) => match &u.inner {
            UExpressionInner::Value(v) => if v.value < bw.modulus() {
                let width = bw.to_usize() as u32;
                Some(make_bit_array(integer_bits(v.value, width), width))
            } else {
                None
            },
            _ => None,
        },
        _ => None,
    }
}

pub fn process_unpack<T: Field>(arguments: &List<TypedExpression<T>>, generics: &List<u32>) -> (r:
    Result<Option<TypedExpression<T>>, Error>)
    ensures
        r == unpack(*arguments, *generics),
{
    match (take_only(arguments), take_only_generic(generics)) {
        (Some(TypedExpression::FieldElement(FieldElementExpression::Number(n))), Some(bit_width)) => {
            let needed = n.value.bits();
            proof {
                let w = bit_width as nat;
                if needed <= bit_width {
                    if needed < bit_width {
                        lemma_pow2_strictly_increases(needed as nat, w);
                    }
                } else {
                    if bit_width < needed - 1 {
                        lemma_pow2_strictly_increases(w, (needed - 1) as nat);
                    }
                }
            }
            if needed <= bit_width as u64 {
                Ok(Some(make_bit_array(field_bits(&n.value, bit_width), bit_width)))
            } else {
                Err(Error::ValueTooLarge(bit_width))
            }
        },
        _ => Ok(None),
    }
}

/// Carries out a call with constant arguments, where the pass knows how.
pub fn evaluate<T: Field>(call: &EmbedCall<T>) -> (r: Result<Option<TypedExpression<T>>, Error>)
    ensures
        r == evaluated(*call),
{
    match call.embed {
        FlatEmbed::U8FromBits => Ok(process_u_from_bits(&call.arguments, UBitwidth::B8)),
        FlatEmbed::U16FromBits => Ok(process_u_from_bits(&call.arguments, UBitwidth::B16)),
        FlatEmbed::U32FromBits => Ok(process_u_from_bits(&call.arguments, UBitwidth::B32)),
        FlatEmbed::U64FromBits => Ok(process_u_from_bits(&call.arguments, UBitwidth::B64)),
        FlatEmbed::U8ToBits => Ok(process_u_to_bits(&call.arguments, UBitwidth::B8)),
        FlatEmbed::U16ToBits => Ok(process_u_to_bits(&call.arguments, UBitwidth::B16)),
        FlatEmbed::U32ToBits => Ok(process_u_to_bits(&call.arguments, UBitwidth::B32)),
        FlatEmbed::U64ToBits => Ok(process_u_to_bits(&call.arguments, UBitwidth::B64)),
        FlatEmbed::Unpack => process_unpack(&call.arguments, &call.generics),
        _ => Ok(None),
    }
}

} // verus!
