//! The scalar field of the BN128 curve.

use crate::bigint::{big_bit, big_bits, big_to_bytes_le, lemma_le_bytes_length};
use crate::field::{add_mod, div_mod, mul_mod, pow_mod, reduce, sub_mod, Field};
use crate::limbs::Limbs;
use vstd::prelude::*;

verus! {

/// An element of the field of order
/// 21888242871839275222246405745257275088548364400416034343698204186575808495617.
#[derive(Clone, Copy, PartialEq, Eq, Structural, Debug, Hash)]
pub struct Bn128Field {
    pub limbs: Limbs,
}

/// The order of the field.
pub open spec fn bn128_modulus() -> nat {
    21888242871839275222246405745257275088548364400416034343698204186575808495617nat
}

impl Bn128Field {
    /// The digits of the order of the field.
    pub fn modulus_limbs() -> (m: Limbs)
        ensures
            m.value() == bn128_modulus(),
    {
        Limbs {
            l0: 0xf0000001,
            l1: 0x43e1f593,
            l2: 0x79b97091,
            l3: 0x2833e848,
            l4: 0x8181585d,
            l5: 0xb85045b6,
            l6: 0xe131a029,
            l7: 0x30644e72,
        }
    }

    /// The element that the number behind `limbs` represents.
    pub fn from_limbs(limbs: Limbs) -> (r: Self)
        ensures
            r == Self::from_value(limbs.value() % Self::modulus()),
    {
        let m = Self::modulus_limbs();
        Bn128Field { limbs: reduce(&limbs.to_digits(), &m) }
    }
}

impl Field for Bn128Field {
    open spec fn modulus() -> nat {
        bn128_modulus()
    }

    open spec fn value(&self) -> nat {
        self.limbs.value()
    }

    open spec fn from_value(v: nat) -> Self {
        Bn128Field { limbs: Limbs::from_nat(v) }
    }

    proof fn lemma_modulus() {
    }

    proof fn lemma_value_from_value(v: nat) {
        Limbs::lemma_value_from_nat(v);
    }

    proof fn lemma_value_injective(a: Self, b: Self) {
        a.limbs.lemma_from_nat_value();
        b.limbs.lemma_from_nat_value();
    }

    fn from_u128(n: u128) -> (r: Self) {
        let m = Self::modulus_limbs();
        Bn128Field { limbs: reduce(&Limbs::from_u128(n).to_digits(), &m) }
    }

    fn add(&self, other: &Self) -> (r: Self) {
        let m = Self::modulus_limbs();
        Bn128Field { limbs: add_mod(&self.limbs, &other.limbs, &m) }
    }

    fn sub(&self, other: &Self) -> (r: Self) {
        let m = Self::modulus_limbs();
        Bn128Field { limbs: sub_mod(&self.limbs, &other.limbs, &m) }
    }

    fn mul(&self, other: &Self) -> (r: Self) {
        let m = Self::modulus_limbs();
        Bn128Field { limbs: mul_mod(&self.limbs, &other.limbs, &m) }
    }

    fn div(&self, other: &Self) -> (r: Self) {
        let m = Self::modulus_limbs();
        Bn128Field { limbs: div_mod(&self.limbs, &other.limbs, &m) }
    }

    fn pow(&self, exponent: u128) -> (r: Self) {
        let m = Self::modulus_limbs();
        let e = Limbs::from_u128(exponent).to_digits();
        Bn128Field { limbs: pow_mod(&self.limbs, &e, &m) }
    }

    fn is_zero(&self) -> (r: bool) {
        let m = Self::modulus_limbs();
        let reduced = reduce(&self.limbs.to_digits(), &m);
        let zero = Limbs::from_u128(0);
        proof {
            self.limbs.lemma_from_nat_value();
            zero.lemma_from_nat_value();
        }
        !reduced.lt(&zero) && !zero.lt(&reduced)
    }

    fn lt(&self, other: &Self) -> (r: bool) {
        self.limbs.lt(&other.limbs)
    }

    fn le(&self, other: &Self) -> (r: bool) {
        !other.limbs.lt(&self.limbs)
    }

    fn same(&self, other: &Self) -> (r: bool) {
        *self == *other
    }

    fn bit(&self, i: u64) -> (r: bool) {
        big_bit(&self.limbs.to_digits(), i)
    }

    fn bits(&self) -> (r: u64) {
        big_bits(&self.limbs.to_digits())
    }

    fn to_byte_vector(&self) -> (r: Vec<u8>) {
        let r = big_to_bytes_le(&self.limbs.to_digits());
        proof {
            self.limbs.lemma_value_bound();
            lemma_le_bytes_length(r@);
        }
        r
    }
}

} // verus!
