//! The scalar field of the BLS12-377 curve.

use crate::bigint::{big_bit, big_bits, big_to_bytes_le, lemma_le_bytes_length};
use crate::field::{add_mod, div_mod, mul_mod, pow_mod, reduce, sub_mod, Field};
use crate::limbs::Limbs;
use vstd::prelude::*;

verus! {

/// An element of the field of order
/// 8444461749428370424248824938781546531375899335154063827935233455917409239041.
#[derive(Clone, Copy, PartialEq, Eq, Structural, Debug, Hash)]
pub struct Bls12_377Field {
    pub limbs: Limbs,
}

/// The order of the field.
pub open spec fn bls12_377_modulus() -> nat {
    8444461749428370424248824938781546531375899335154063827935233455917409239041nat
}

impl Bls12_377Field {
    /// The digits of the order of the field.
    pub fn modulus_limbs() -> (m: Limbs)
        ensures
            m.value() == bls12_377_modulus(),
    {
        Limbs {
            l0: 0x1,
            l1: 0xa118000,
            l2: 0xd0000001,
            l3: 0x59aa76fe,
            l4: 0x5c37b001,
            l5: 0x60b44d1e,
            l6: 0x9a2ca556,
            l7: 0x12ab655e,
        }
    }

    /// The element that the number behind `limbs` represents.
    pub fn from_limbs(limbs: Limbs) -> (r: Self)
        ensures
            r == Self::from_value(limbs.value() % Self::modulus()),
    {
        let m = Self::modulus_limbs();
        Bls12_377Field { limbs: reduce(&limbs.to_digits(), &m) }
    }
}

impl Field for Bls12_377Field {
    open spec fn modulus() -> nat {
        bls12_377_modulus()
    }

    open spec fn value(&self) -> nat {
        self.limbs.value()
    }

    open spec fn from_value(v: nat) -> Self {
        Bls12_377Field { limbs: Limbs::from_nat(v) }
    }

    proof fn lemma_modulus() {
    }

    proof fn lemma_value_from_value(v: nat) {
        Limbs::lemma_value_from_nat(v);
    }

    proof fn lemma_value_injective(a: Self, b: Self) {
        a.limbs.lemma_from_nat_value();
        b.limbs.lemma_from_nat_value();
    }

    fn from_u128(n: u128) -> (r: Self) {
        let m = Self::modulus_limbs();
        Bls12_377Field { limbs: reduce(&Limbs::from_u128(n).to_digits(), &m) }
    }

    fn add(&self, other: &Self) -> (r: Self) {
        let m = Self::modulus_limbs();
        Bls12_377Field { limbs: add_mod(&self.limbs, &other.limbs, &m) }
    }

    fn sub(&self, other: &Self) -> (r: Self) {
        let m = Self::modulus_limbs();
        Bls12_377Field { limbs: sub_mod(&self.limbs, &other.limbs, &m) }
    }

    fn mul(&self, other: &Self) -> (r: Self) {
        let m = Self::modulus_limbs();
        Bls12_377Field { limbs: mul_mod(&self.limbs, &other.limbs, &m) }
    }

    fn div(&self, other: &Self) -> (r: Self) {
        let m = Self::modulus_limbs();
        Bls12_377Field { limbs: div_mod(&self.limbs, &other.limbs, &m) }
    }

    fn pow(&self, exponent: u128) -> (r: Self) {
        let m = Self::modulus_limbs();
        let e = Limbs::from_u128(exponent).to_digits();
        Bls12_377Field { limbs: pow_mod(&self.limbs, &e, &m) }
    }

    fn is_zero(&self) -> (r: bool) {
        let m = Self::modulus_limbs();
        let reduced = reduce(&self.limbs.to_digits(), &m);
        let zero = Limbs::from_u128(0);
        proof {
            self.limbs.lemma_from_nat_value();
            zero.lemma_from_nat_value();
        }
        !reduced.lt(&zero) && !zero.lt(&reduced)
    }

    fn lt(&self, other: &Self) -> (r: bool) {
        self.limbs.lt(&other.limbs)
    }

    fn le(&self, other: &Self) -> (r: bool) {
        !other.limbs.lt(&self.limbs)
    }

    fn same(&self, other: &Self) -> (r: bool) {
        *self == *other
    }

    fn bit(&self, i: u64) -> (r: bool) {
        big_bit(&self.limbs.to_digits(), i)
    }

    fn bits(&self) -> (r: u64) {
        big_bits(&self.limbs.to_digits())
    }

    fn to_byte_vector(&self) -> (r: Vec<u8>) {
        let r = big_to_bytes_le(&self.limbs.to_digits());
        proof {
            self.limbs.lemma_value_bound();
            lemma_le_bytes_length(r@);
        }
        r
    }
}

} // verus!
