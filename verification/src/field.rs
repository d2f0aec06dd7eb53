//! Prime fields.
//!
//! An element is stored as the eight base-2^32 digits of its canonical
//! representative; the arithmetic is carried out on big numbers and reduced.

use crate::bigint::{big_add, big_modpow, big_mul, big_rem, big_sub, digits_value, le_bytes_value};
use crate::limbs::{limit, Limbs};
use vstd::arithmetic::div_mod::{
    lemma_mod_add_multiples_vanish, lemma_mod_bound, lemma_sub_mod_noop_right,
};
use vstd::arithmetic::power::pow;
use vstd::arithmetic::power2::pow2;
use vstd::prelude::*;

verus! {

/// A prime field whose elements fit in 256 bits.
pub trait Field: Sized + Copy {
    /// The prime that the arithmetic is taken modulo.
    spec fn modulus() -> nat;

    /// The representative of the element among the naturals.
    spec fn value(&self) -> nat;

    /// The element that `v` represents.
    spec fn from_value(v: nat) -> Self;

    proof fn lemma_modulus()
        ensures
            2 < Self::modulus() < limit(),
    ;

    proof fn lemma_value_from_value(v: nat)
        requires
            v < Self::modulus(),
        ensures
            Self::from_value(v).value() == v,
    ;

    /// Two elements with the same representative are the same element.
    proof fn lemma_value_injective(a: Self, b: Self)
        requires
            a.value() == b.value(),
        ensures
            a == b,
    ;

    /// The element that the integer `n` represents.
    fn from_u128(n: u128) -> (r: Self)
        ensures
            r == Self::from_value(n as nat % Self::modulus()),
    ;

    fn add(&self, other: &Self) -> (r: Self)
        ensures
            r == Self::from_value(sum_mod(self.value(), other.value(), Self::modulus())),
    ;

    fn sub(&self, other: &Self) -> (r: Self)
        ensures
            r == Self::from_value(difference_mod(self.value(), other.value(), Self::modulus())),
    ;

    fn mul(&self, other: &Self) -> (r: Self)
        ensures
            r == Self::from_value(product_mod(self.value(), other.value(), Self::modulus())),
    ;

    /// Division by a non-zero element.
    fn div(&self, other: &Self) -> (r: Self)
        requires
            other.value() % Self::modulus() != 0,
        ensures
            r == Self::from_value(quotient_mod(self.value(), other.value(), Self::modulus())),
    ;

    fn pow(&self, exponent: u128) -> (r: Self)
        ensures
            r == Self::from_value(power_mod(self.value(), exponent as nat, Self::modulus())),
    ;

    fn is_zero(&self) -> (r: bool)
        ensures
            r == (self.value() % Self::modulus() == 0),
    ;

    /// Whether the representative of `self` is the smaller one.
    fn lt(&self, other: &Self) -> (r: bool)
        ensures
            r == (self.value() < other.value()),
    ;

    fn le(&self, other: &Self) -> (r: bool)
        ensures
            r == (self.value() <= other.value()),
    ;

    /// Whether the two elements are the same value.
    fn same(&self, other: &Self) -> (r: bool)
        ensures
            r == (*self == *other),
    ;

    /// The binary digit of weight `2^i` of the representative.
    fn bit(&self, i: u64) -> (r: bool)
        ensures
            r == ((self.value() / pow2(i as nat)) % 2 == 1),
    ;

    /// The fewest binary digits that can express the representative.
    fn bits(&self) -> (r: u64)
        ensures
            self.value() < pow2(r as nat),
            r > 0 ==> pow2((r - 1) as nat) <= self.value(),
    ;

    /// The base-256 digits of the representative, least significant first,
    /// without a leading zero digit; zero is the single byte 0.
    fn to_byte_vector(&self) -> (r: Vec<u8>)
        ensures
            le_bytes_value(r@) == self.value(),
            1 <= r@.len() <= 32,
            r@.len() > 1 ==> r@.last() != 0,
    ;
}

pub open spec fn sum_mod(a: nat, b: nat, m: nat) -> nat {
    (a + b) % m
}

pub open spec fn difference_mod(a: nat, b: nat, m: nat) -> nat {
    ((a as int - b as int) % (m as int)) as nat
}

pub open spec fn product_mod(a: nat, b: nat, m: nat) -> nat {
    (a * b) % m
}

pub open spec fn power_mod(a: nat, e: nat, m: nat) -> nat {
    (pow(a as int, e) % (m as int)) as nat
}

/// `1 / b` modulo a prime `m`, for a `b` that `m` does not divide.
pub open spec fn inverse_mod(b: nat, m: nat) -> nat {
    power_mod(b, (m - 2) as nat, m)
}

pub open spec fn quotient_mod(a: nat, b: nat, m: nat) -> nat {
    (a * inverse_mod(b, m)) % m
}

pub open spec fn field_is_zero<T: Field>(a: T) -> bool {
    a.value() % T::modulus() == 0
}

pub open spec fn field_add<T: Field>(a: T, b: T) -> T {
    T::from_value(sum_mod(a.value(), b.value(), T::modulus()))
}

pub open spec fn field_sub<T: Field>(a: T, b: T) -> T {
    T::from_value(difference_mod(a.value(), b.value(), T::modulus()))
}

pub open spec fn field_mul<T: Field>(a: T, b: T) -> T {
    T::from_value(product_mod(a.value(), b.value(), T::modulus()))
}

pub open spec fn field_div<T: Field>(a: T, b: T) -> T {
    T::from_value(quotient_mod(a.value(), b.value(), T::modulus()))
}

pub open spec fn field_pow<T: Field>(a: T, e: nat) -> T {
    T::from_value(power_mod(a.value(), e, T::modulus()))
}

pub open spec fn field_neg<T: Field>(a: T) -> T {
    field_sub(T::from_value(0), a)
}

pub open spec fn field_bit<T: Field>(a: T, i: nat) -> bool {
    (a.value() / pow2(i)) % 2 == 1
}

/// The number behind `d`, reduced modulo `m`.
pub fn reduce(d: &Vec<u32>, m: &Limbs) -> (r: Limbs)
    requires
        m.value() > 0,
    ensures
        r.value() == digits_value(d@) % m.value(),
        r == Limbs::from_nat(digits_value(d@) % m.value()),
{
    let md = m.to_digits();
    let rd = big_rem(d, &md);
    proof {
        lemma_mod_bound(digits_value(d@) as int, m.value() as int);
        m.lemma_value_bound();
    }
    Limbs::from_digits(&rd)
}

pub fn add_mod(a: &Limbs, b: &Limbs, m: &Limbs) -> (r: Limbs)
    requires
        m.value() > 0,
    ensures
        r == Limbs::from_nat(sum_mod(a.value(), b.value(), m.value())),
{
    let s = big_add(&a.to_digits(), &b.to_digits());
    reduce(&s, m)
}

pub fn sub_mod(a: &Limbs, b: &Limbs, m: &Limbs) -> (r: Limbs)
    requires
        m.value() > 0,
    ensures
        r == Limbs::from_nat(difference_mod(a.value(), b.value(), m.value())),
{
    let md = m.to_digits();
    let br = big_rem(&b.to_digits(), &md);
    let s = big_add(&a.to_digits(), &md);
    proof {
        lemma_mod_bound(b.value() as int, m.value() as int);
    }
    let d = big_sub(&s, &br);
    proof {
        let mi = m.value() as int;
        let ai = a.value() as int;
        let bi = b.value() as int;
        lemma_sub_mod_noop_right(ai + mi, bi, mi);
        lemma_mod_add_multiples_vanish(ai - bi, mi);
        assert((ai + mi) - bi == mi + (ai - bi));
        assert(digits_value(d@) == (ai + mi) - (bi % mi));
        lemma_mod_bound(ai - bi, mi);
    }
    reduce(&d, m)
}

pub fn mul_mod(a: &Limbs, b: &Limbs, m: &Limbs) -> (r: Limbs)
    requires
        m.value() > 0,
    ensures
        r == Limbs::from_nat(product_mod(a.value(), b.value(), m.value())),
{
    let s = big_mul(&a.to_digits(), &b.to_digits());
    reduce(&s, m)
}

/// `a` raised to the number behind `e`, modulo `m`.
pub fn pow_mod(a: &Limbs, e: &Vec<u32>, m: &Limbs) -> (r: Limbs)
    requires
        m.value() > 1,
    ensures
        r.value() == power_mod(a.value(), digits_value(e@), m.value()),
        r == Limbs::from_nat(power_mod(a.value(), digits_value(e@), m.value())),
{
    let rd = big_modpow(&a.to_digits(), e, &m.to_digits());
    proof {
        lemma_mod_bound(pow(a.value() as int, digits_value(e@)), m.value() as int);
        m.lemma_value_bound();
    }
    Limbs::from_digits(&rd)
}

/// `a * b^(m - 2)` modulo `m`: the quotient `a / b` where `m` is prime and
/// `b` is not a multiple of it.
pub fn div_mod(a: &Limbs, b: &Limbs, m: &Limbs) -> (r: Limbs)
    requires
        m.value() > 2,
    ensures
        r == Limbs::from_nat(quotient_mod(a.value(), b.value(), m.value())),
{
    let two = Limbs::from_u128(2).to_digits();
    let e = big_sub(&m.to_digits(), &two);
    let inverse = pow_mod(b, &e, m);
    mul_mod(a, &inverse, m)
}

} // verus!
