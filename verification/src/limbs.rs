//! Fixed-width 256-bit naturals, the storage of a field element.

use crate::bigint::digits_value;
use vstd::prelude::*;

verus! {

/// Eight base-2^32 digits, least significant first.
#[derive(Clone, Copy, PartialEq, Eq, Structural, Debug, Hash)]
pub struct Limbs {
    pub l0: u32,
    pub l1: u32,
    pub l2: u32,
    pub l3: u32,
    pub l4: u32,
    pub l5: u32,
    pub l6: u32,
    pub l7: u32,
}

/// 2^256, the first number that eight digits cannot hold.
pub open spec fn limit() -> nat {
    0x1_0000_0000_0000_0000_0000_0000_0000_0000_0000_0000_0000_0000_0000_0000_0000_0000nat
}

/// The digit of weight `2^(32 k)` in `d`, zero beyond its end.
pub open spec fn digit_at(d: Seq<u32>, k: int) -> u32 {
    if 0 <= k < d.len() {
        d[k]
    } else {
        0
    }
}

/// The digits of `d` from position `k` on.
pub open spec fn digits_from(d: Seq<u32>, k: int) -> Seq<u32> {
    if 0 <= k <= d.len() {
        d.skip(k)
    } else {
        Seq::empty()
    }
}

pub proof fn lemma_digits_step(d: Seq<u32>, k: int)
    requires
        0 <= k,
    ensures
        digits_value(digits_from(d, k)) == digit_at(d, k) as nat + 0x1_0000_0000 * digits_value(
            digits_from(d, k + 1),
        ),
{
    if k < d.len() {
        assert(d.skip(k)[0] == d[k]);
        assert(d.skip(k).drop_first() =~= d.skip(k + 1));
    }
}

/// Splitting off the lowest digit of a number.
pub proof fn lemma_low_digit(low: nat, high: nat)
    requires
        low < 0x1_0000_0000,
    ensures
        (low + 0x1_0000_0000 * high) % 0x1_0000_0000 == low,
        (low + 0x1_0000_0000 * high) / 0x1_0000_0000 == high,
{
}

impl Limbs {
    /// The number that the digits stand for.
    pub open spec fn value(self) -> nat {
        self.l0 as nat + 0x1_0000_0000 * self.high(1)
    }

    /// The number that the digits from position `k` on stand for.
    pub open spec fn high(self, k: int) -> nat {
        if k == 1 {
            self.l1 as nat + 0x1_0000_0000 * (self.l2 as nat + 0x1_0000_0000 * (self.l3 as nat
                + 0x1_0000_0000 * (self.l4 as nat + 0x1_0000_0000 * (self.l5 as nat + 0x1_0000_0000
                * (self.l6 as nat + 0x1_0000_0000 * (self.l7 as nat))))))
        } else if k == 2 {
            self.l2 as nat + 0x1_0000_0000 * (self.l3 as nat + 0x1_0000_0000 * (self.l4 as nat
                + 0x1_0000_0000 * (self.l5 as nat + 0x1_0000_0000 * (self.l6 as nat + 0x1_0000_0000
                * (self.l7 as nat)))))
        } else if k == 3 {
            self.l3 as nat + 0x1_0000_0000 * (self.l4 as nat + 0x1_0000_0000 * (self.l5 as nat
                + 0x1_0000_0000 * (self.l6 as nat + 0x1_0000_0000 * (self.l7 as nat))))
        } else if k == 4 {
            self.l4 as nat + 0x1_0000_0000 * (self.l5 as nat + 0x1_0000_0000 * (self.l6 as nat
                + 0x1_0000_0000 * (self.l7 as nat)))
        } else if k == 5 {
            self.l5 as nat + 0x1_0000_0000 * (self.l6 as nat + 0x1_0000_0000 * (self.l7 as nat))
        } else if k == 6 {
            self.l6 as nat + 0x1_0000_0000 * (self.l7 as nat)
        } else {
            self.l7 as nat
        }
    }

    /// The digits of `v`, taken modulo 2^256.
    pub open spec fn from_nat(v: nat) -> Limbs {
        let q1 = v / 0x1_0000_0000;
        let q2 = q1 / 0x1_0000_0000;
        let q3 = q2 / 0x1_0000_0000;
        let q4 = q3 / 0x1_0000_0000;
        let q5 = q4 / 0x1_0000_0000;
        let q6 = q5 / 0x1_0000_0000;
        let q7 = q6 / 0x1_0000_0000;
        Limbs {
            l0: (v % 0x1_0000_0000) as u32,
            l1: (q1 % 0x1_0000_0000) as u32,
            l2: (q2 % 0x1_0000_0000) as u32,
            l3: (q3 % 0x1_0000_0000) as u32,
            l4: (q4 % 0x1_0000_0000) as u32,
            l5: (q5 % 0x1_0000_0000) as u32,
            l6: (q6 % 0x1_0000_0000) as u32,
            l7: (q7 % 0x1_0000_0000) as u32,
        }
    }

    pub open spec fn to_seq(self) -> Seq<u32> {
        seq![self.l0, self.l1, self.l2, self.l3, self.l4, self.l5, self.l6, self.l7]
    }

    pub proof fn lemma_value_bound(self)
        ensures
            self.value() < limit(),
    {
        assert(self.high(6) < 0x1_0000_0000_0000_0000nat);
        assert(self.high(5) < 0x1_0000_0000_0000_0000_0000_0000nat);
        assert(self.high(4) < 0x1_0000_0000_0000_0000_0000_0000_0000_0000nat);
        assert(self.high(3) < 0x1_0000_0000_0000_0000_0000_0000_0000_0000_0000_0000nat);
        assert(self.high(2) < 0x1_0000_0000_0000_0000_0000_0000_0000_0000_0000_0000_0000_0000nat);
        assert(self.high(1)
            < 0x1_0000_0000_0000_0000_0000_0000_0000_0000_0000_0000_0000_0000_0000_0000nat);
    }

    /// A number has one sequence of eight digits only.
    pub proof fn lemma_from_nat_value(self)
        ensures
            Limbs::from_nat(self.value()) == self,
    {
        lemma_low_digit(self.l0 as nat, self.high(1));
        lemma_low_digit(self.l1 as nat, self.high(2));
        lemma_low_digit(self.l2 as nat, self.high(3));
        lemma_low_digit(self.l3 as nat, self.high(4));
        lemma_low_digit(self.l4 as nat, self.high(5));
        lemma_low_digit(self.l5 as nat, self.high(6));
        lemma_low_digit(self.l6 as nat, self.high(7));
    }

    pub proof fn lemma_value_from_nat(v: nat)
        requires
            v < limit(),
        ensures
            Limbs::from_nat(v).value() == v,
    {
        let q1 = v / 0x1_0000_0000;
        let q2 = q1 / 0x1_0000_0000;
        let q3 = q2 / 0x1_0000_0000;
        let q4 = q3 / 0x1_0000_0000;
        let q5 = q4 / 0x1_0000_0000;
        let q6 = q5 / 0x1_0000_0000;
        let q7 = q6 / 0x1_0000_0000;
        assert(q7 < 0x1_0000_0000);
        let r = Limbs::from_nat(v);
        assert(r.high(7) == q7);
        assert(r.high(6) == q6);
        assert(r.high(5) == q5);
        assert(r.high(4) == q4);
        assert(r.high(3) == q3);
        assert(r.high(2) == q2);
        assert(r.high(1) == q1);
    }

    pub proof fn lemma_seq_value(self)
        ensures
            digits_value(self.to_seq()) == self.value(),
    {
        let d = self.to_seq();
        assert(digits_from(d, 0) =~= d);
        lemma_digits_step(d, 0);
        lemma_digits_step(d, 1);
        lemma_digits_step(d, 2);
        lemma_digits_step(d, 3);
        lemma_digits_step(d, 4);
        lemma_digits_step(d, 5);
        lemma_digits_step(d, 6);
        lemma_digits_step(d, 7);
        assert(digits_from(d, 8).len() == 0);
    }

    /// The digits as a vector, for a call into the big-number arithmetic.
    pub fn to_digits(&self) -> (r: Vec<u32>)
        ensures
            r@ == self.to_seq(),
            digits_value(r@) == self.value(),
    {
        let mut r: Vec<u32> = Vec::new();
        r.push(self.l0);
        r.push(self.l1);
        r.push(self.l2);
        r.push(self.l3);
        r.push(self.l4);
        r.push(self.l5);
        r.push(self.l6);
        r.push(self.l7);
        proof {
            assert(r@ =~= self.to_seq());
            self.lemma_seq_value();
        }
        r
    }

    /// Reads back a number below 2^256 from its digits.
    pub fn from_digits(d: &Vec<u32>) -> (r: Limbs)
        requires
            digits_value(d@) < limit(),
        ensures
            r.value() == digits_value(d@),
            r == Limbs::from_nat(digits_value(d@)),
    {
        let n = d.len();
        let r = Limbs {
            l0: if 0 < n { d[0] } else { 0 },
            l1: if 1 < n { d[1] } else { 0 },
            l2: if 2 < n { d[2] } else { 0 },
            l3: if 3 < n { d[3] } else { 0 },
            l4: if 4 < n { d[4] } else { 0 },
            l5: if 5 < n { d[5] } else { 0 },
            l6: if 6 < n { d[6] } else { 0 },
            l7: if 7 < n { d[7] } else { 0 },
        };
        proof {
            let s = d@;
            assert(digits_from(s, 0) =~= s);
            lemma_digits_step(s, 0);
            lemma_digits_step(s, 1);
            lemma_digits_step(s, 2);
            lemma_digits_step(s, 3);
            lemma_digits_step(s, 4);
            lemma_digits_step(s, 5);
            lemma_digits_step(s, 6);
            lemma_digits_step(s, 7);
            assert(r.l0 == digit_at(s, 0) && r.l1 == digit_at(s, 1) && r.l2 == digit_at(s, 2)
                && r.l3 == digit_at(s, 3));
            assert(r.l4 == digit_at(s, 4) && r.l5 == digit_at(s, 5) && r.l6 == digit_at(s, 6)
                && r.l7 == digit_at(s, 7));
            let t8 = digits_value(digits_from(s, 8));
            let t7 = digits_value(digits_from(s, 7));
            let t6 = digits_value(digits_from(s, 6));
            let t5 = digits_value(digits_from(s, 5));
            let t4 = digits_value(digits_from(s, 4));
            let t3 = digits_value(digits_from(s, 3));
            let t2 = digits_value(digits_from(s, 2));
            let t1 = digits_value(digits_from(s, 1));
            assert(t1 < 0x1_0000_0000_0000_0000_0000_0000_0000_0000_0000_0000_0000_0000_0000_0000nat);
            assert(t2 < 0x1_0000_0000_0000_0000_0000_0000_0000_0000_0000_0000_0000_0000nat);
            assert(t3 < 0x1_0000_0000_0000_0000_0000_0000_0000_0000_0000_0000nat);
            assert(t4 < 0x1_0000_0000_0000_0000_0000_0000_0000_0000nat);
            assert(t5 < 0x1_0000_0000_0000_0000_0000_0000nat);
            assert(t6 < 0x1_0000_0000_0000_0000nat);
            assert(t7 < 0x1_0000_0000nat);
            assert(t8 == 0);
            assert(r.high(7) == t7);
            assert(r.high(6) == t6);
            assert(r.high(5) == t5);
            assert(r.high(4) == t4);
            assert(r.high(3) == t3);
            assert(r.high(2) == t2);
            assert(r.high(1) == t1);
            assert(r.value() == digits_value(s));
            r.lemma_from_nat_value();
        }
        r
    }

    /// The digits of a 128-bit number.
    pub fn from_u128(n: u128) -> (r: Limbs)
        ensures
            r.value() == n,
            r == Limbs::from_nat(n as nat),
    {
        let r = Limbs {
            l0: (n % 0x1_0000_0000u128) as u32,
            l1: ((n / 0x1_0000_0000u128) % 0x1_0000_0000u128) as u32,
            l2: ((n / 0x1_0000_0000_0000_0000u128) % 0x1_0000_0000u128) as u32,
            l3: (n / 0x1_0000_0000_0000_0000_0000_0000u128) as u32,
            l4: 0,
            l5: 0,
            l6: 0,
            l7: 0,
        };
        proof {
            let q1 = n / 0x1_0000_0000;
            let q2 = q1 / 0x1_0000_0000;
            let q3 = q2 / 0x1_0000_0000;
            assert(q2 == n / 0x1_0000_0000_0000_0000u128);
            assert(q3 == n / 0x1_0000_0000_0000_0000_0000_0000u128);
            assert(r.high(4) == 0);
            assert(r.high(3) == q3);
            assert(r.high(2) == q2);
            assert(r.high(1) == q1);
            assert(r.value() == n);
            r.lemma_from_nat_value();
        }
        r
    }

    /// Whether `self` stands for a smaller number than `other`.
    pub fn lt(&self, other: &Limbs) -> (r: bool)
        ensures
            r == (self.value() < other.value()),
    {
        if self.l7 != other.l7 {
            self.l7 < other.l7
        } else if self.l6 != other.l6 {
            self.l6 < other.l6
        } else if self.l5 != other.l5 {
            self.l5 < other.l5
        } else if self.l4 != other.l4 {
            self.l4 < other.l4
        } else if self.l3 != other.l3 {
            self.l3 < other.l3
        } else if self.l2 != other.l2 {
            self.l2 < other.l2
        } else if self.l1 != other.l1 {
            self.l1 < other.l1
        } else {
            self.l0 < other.l0
        }
    }
}

} // verus!
