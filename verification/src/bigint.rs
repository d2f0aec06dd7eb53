//! Arbitrary-precision natural numbers, computed by `num_bigint`.
//!
//! A number crosses this boundary as its base-2^32 digits, least significant
//! first. Each function below makes one call into `num_bigint`; its contract
//! is what that crate documents for the call and is not proved here.

use num_bigint::BigUint;
use vstd::arithmetic::power::{lemma_pow0, lemma_pow1, lemma_pow_adds, lemma_pow_increases, pow};
use vstd::arithmetic::power2::pow2;
use vstd::prelude::*;

verus! {

/// The number whose base-2^32 digits, least significant first, are `d`.
pub open spec fn digits_value(d: Seq<u32>) -> nat
    decreases d.len(),
{
    if d.len() == 0 {
        0
    } else {
        d[0] as nat + 0x1_0000_0000 * digits_value(d.drop_first())
    }
}

/// The number whose base-256 digits, least significant first, are `b`.
pub open spec fn le_bytes_value(b: Seq<u8>) -> nat
    decreases b.len(),
{
    if b.len() == 0 {
        0
    } else {
        b[0] as nat + 256 * le_bytes_value(b.drop_first())
    }
}

/// A number of zero bytes.
pub open spec fn zero_bytes(n: nat) -> Seq<u8> {
    Seq::new(n, |i: int| 0u8)
}

/// Zero bytes stand for zero.
pub proof fn lemma_le_bytes_zero(n: nat)
    ensures
        le_bytes_value(zero_bytes(n)) == 0,
    decreases n,
{
    if n > 0 {
        lemma_le_bytes_zero((n - 1) as nat);
        assert(zero_bytes(n).drop_first() =~= zero_bytes((n - 1) as nat));
    }
}

/// Zero bytes written after the most significant byte do not change the
/// number.
pub proof fn lemma_le_bytes_zero_padding(b: Seq<u8>, n: nat)
    ensures
        le_bytes_value(b + zero_bytes(n)) == le_bytes_value(b),
    decreases b.len(),
{
    if b.len() == 0 {
        assert(b + zero_bytes(n) =~= zero_bytes(n));
        lemma_le_bytes_zero(n);
    } else {
        lemma_le_bytes_zero_padding(b.drop_first(), n);
        assert((b + zero_bytes(n)).drop_first() =~= b.drop_first() + zero_bytes(n));
    }
}

/// `256^32` is `2^256`.
pub proof fn lemma_pow_256_32()
    ensures
        pow(256, 32)
            == 0x1_0000_0000_0000_0000_0000_0000_0000_0000_0000_0000_0000_0000_0000_0000_0000_0000int,
{
    lemma_pow1(256);
    lemma_pow_adds(256, 1, 1);
    assert(pow(256, 2) == 0x1_0000);
    lemma_pow_adds(256, 2, 2);
    assert(pow(256, 4) == 0x1_0000_0000);
    lemma_pow_adds(256, 4, 4);
    assert(pow(256, 8) == 0x1_0000_0000_0000_0000);
    lemma_pow_adds(256, 8, 8);
    assert(pow(256, 16) == 0x1_0000_0000_0000_0000_0000_0000_0000_0000int);
    lemma_pow_adds(256, 16, 16);
}

/// A number is at least its most significant byte times the weight of that
/// byte.
pub proof fn lemma_le_bytes_lower_bound(b: Seq<u8>)
    requires
        b.len() > 0,
    ensures
        le_bytes_value(b) >= b.last() * pow(256, (b.len() - 1) as nat),
    decreases b.len(),
{
    if b.len() == 1 {
        lemma_pow0(256);
        assert(b.drop_first().len() == 0);
        assert(le_bytes_value(b.drop_first()) == 0);
    } else {
        let rest = b.drop_first();
        lemma_le_bytes_lower_bound(rest);
        assert(rest.last() == b.last());
        let w = pow(256, (rest.len() - 1) as nat);
        lemma_pow_adds(256, 1, (rest.len() - 1) as nat);
        lemma_pow1(256);
        assert(pow(256, (b.len() - 1) as nat) == 256 * w);
        let v = le_bytes_value(rest) as int;
        let l = b.last() as int;
        assert(256 * v >= l * (256 * w)) by (nonlinear_arith)
            requires
                v >= l * w,
        ;
    }
}

/// The bytes of a number below `2^256`, written without a leading zero
/// byte, are at most 32.
pub proof fn lemma_le_bytes_length(b: Seq<u8>)
    requires
        le_bytes_value(b)
            < 0x1_0000_0000_0000_0000_0000_0000_0000_0000_0000_0000_0000_0000_0000_0000_0000_0000nat,
        b.len() > 1 ==> b.last() != 0,
    ensures
        b.len() <= 32,
{
    if b.len() > 32 {
        lemma_le_bytes_lower_bound(b);
        lemma_pow_256_32();
        lemma_pow_increases(256, 32, (b.len() - 1) as nat);
        let w = pow(256, (b.len() - 1) as nat);
        let l = b.last() as int;
        assert(l * w >= w) by (nonlinear_arith)
            requires
                l >= 1,
                w >= 0,
        ;
    }
}

/// `BigUint`'s `+`: the sum of the two numbers.
#[verifier::external_body]
pub(crate) fn big_add(a: &Vec<u32>, b: &Vec<u32>) -> (r: Vec<u32>)
    ensures
        digits_value(r@) == digits_value(a@) + digits_value(b@),
{
    (BigUint::new(a.clone()) + BigUint::new(b.clone())).to_u32_digits()
}

/// `BigUint`'s `-`: the difference. The subtraction panics when the result
/// would be negative, so the caller has to show `b <= a`.
#[verifier::external_body]
pub(crate) fn big_sub(a: &Vec<u32>, b: &Vec<u32>) -> (r: Vec<u32>)
    requires
        digits_value(b@) <= digits_value(a@),
    ensures
        digits_value(r@) == digits_value(a@) - digits_value(b@),
{
    (BigUint::new(a.clone()) - BigUint::new(b.clone())).to_u32_digits()
}

/// `BigUint`'s `*`: the product of the two numbers.
#[verifier::external_body]
pub(crate) fn big_mul(a: &Vec<u32>, b: &Vec<u32>) -> (r: Vec<u32>)
    ensures
        digits_value(r@) == digits_value(a@) * digits_value(b@),
{
    (BigUint::new(a.clone()) * BigUint::new(b.clone())).to_u32_digits()
}

/// `BigUint`'s `%`: the remainder of `a` divided by `m`. The division panics
/// on a zero divisor, so the caller has to show `m > 0`.
#[verifier::external_body]
pub(crate) fn big_rem(a: &Vec<u32>, m: &Vec<u32>) -> (r: Vec<u32>)
    requires
        digits_value(m@) > 0,
    ensures
        digits_value(r@) == digits_value(a@) % digits_value(m@),
{
    (BigUint::new(a.clone()) % BigUint::new(m.clone())).to_u32_digits()
}

/// `BigUint::modpow`: `base` raised to `exponent`, reduced modulo `m`. It
/// panics on a zero modulus; the contract is claimed for moduli above 1 only.
#[verifier::external_body]
pub(crate) fn big_modpow(base: &Vec<u32>, exponent: &Vec<u32>, m: &Vec<u32>) -> (r: Vec<u32>)
    requires
        digits_value(m@) > 1,
    ensures
        digits_value(r@) == pow(digits_value(base@) as int, digits_value(exponent@)) % (
        digits_value(m@) as int),
{
    BigUint::new(base.clone()).modpow(
        &BigUint::new(exponent.clone()),
        &BigUint::new(m.clone()),
    ).to_u32_digits()
}

/// `BigUint::bit`: whether the binary digit of weight `2^i` is set.
#[verifier::external_body]
pub(crate) fn big_bit(a: &Vec<u32>, i: u64) -> (r: bool)
    ensures
        r == ((digits_value(a@) / pow2(i as nat)) % 2 == 1),
{
    BigUint::new(a.clone()).bit(i)
}

/// `BigUint::bits`: the fewest binary digits that can express the number,
/// which is zero for the number zero.
#[verifier::external_body]
pub(crate) fn big_bits(a: &Vec<u32>) -> (r: u64)
    ensures
        digits_value(a@) < pow2(r as nat),
        r > 0 ==> pow2((r - 1) as nat) <= digits_value(a@),
{
    BigUint::new(a.clone()).bits()
}

/// `BigUint::to_bytes_le`: the base-256 digits, least significant first,
/// without a leading zero digit; the number zero is the single byte 0.
#[verifier::external_body]
pub(crate) fn big_to_bytes_le(a: &Vec<u32>) -> (r: Vec<u8>)
    ensures
        le_bytes_value(r@) == digits_value(a@),
        r@.len() >= 1,
        r@.len() > 1 ==> r@.last() != 0,
{
    BigUint::new(a.clone()).to_bytes_le()
}

} // verus!
