use zokrates_ir::bn128::Bn128Field;
use zokrates_ir::field::Field;
use zokrates_ir::limbs::Limbs;

fn f(n: u128) -> Bn128Field {
    Bn128Field::from_u128(n)
}

/// The order of the field minus `n`.
fn modulus_minus(n: u128) -> Bn128Field {
    f(0).sub(&f(n))
}

#[test]
fn modulus_limbs_spell_the_modulus() {
    let m = Bn128Field::modulus_limbs();
    // 0x30644e72e131a029b85045b68181585d2833e84879b9709143e1f593f0000001
    assert_eq!(
        (m.l7, m.l6, m.l5, m.l4, m.l3, m.l2, m.l1, m.l0),
        (
            0x30644e72, 0xe131a029, 0xb85045b6, 0x8181585d, 0x2833e848, 0x79b97091, 0x43e1f593,
            0xf0000001
        )
    );
    assert_eq!(Bn128Field::from_limbs(m), f(0));
}

#[test]
fn field_addition_wraps_at_the_modulus() {
    assert_eq!(f(2).add(&f(3)), f(5));
    assert_eq!(modulus_minus(1).add(&f(1)), f(0));
    assert_eq!(modulus_minus(1).add(&f(3)), f(2));
}

#[test]
fn field_subtraction_wraps_below_zero() {
    assert_eq!(f(5).sub(&f(3)), f(2));
    let minus_one = f(0).sub(&f(1));
    assert_eq!(
        minus_one.limbs,
        Limbs {
            l0: 0xf0000000,
            l1: 0x43e1f593,
            l2: 0x79b97091,
            l3: 0x2833e848,
            l4: 0x8181585d,
            l5: 0xb85045b6,
            l6: 0xe131a029,
            l7: 0x30644e72,
        }
    );
}

#[test]
fn field_multiplication() {
    assert_eq!(f(6).mul(&f(7)), f(42));
    assert_eq!(modulus_minus(1).mul(&modulus_minus(1)), f(1));
    let big = f(u128::MAX);
    // (2^128 - 1)^2 = 2^256 - 2^129 + 1, reduced modulo the order
    assert_eq!(
        big.mul(&big).limbs,
        Limbs { l0: 0x4ffffffc, l1: 0xac96341c, l2: 0x9f60cd29, l3: 0x36fc7695, l4: 0x7879462c, l5: 0x666ea36f, l6: 0x9a07df2f, l7: 0xe0a77c1 }
    );
    assert_eq!(big.mul(&f(2)).sub(&big), big);
}

#[test]
fn field_division_is_the_inverse_of_multiplication() {
    assert_eq!(f(6).div(&f(2)), f(3));
    assert_eq!(f(1).div(&f(2)).mul(&f(2)), f(1));
    assert_eq!(f(7).div(&f(3)).mul(&f(3)), f(7));
}

#[test]
fn field_power() {
    assert_eq!(f(2).pow(3), f(8));
    assert_eq!(f(2).pow(0), f(1));
    assert_eq!(f(0).pow(0), f(1));
    assert_eq!(f(3).pow(5), f(243));
    // Fermat: a^(p - 1) == 1, so a^(2^128) for a of small order is easy to check
    assert_eq!(modulus_minus(1).pow(2), f(1));
    assert_eq!(modulus_minus(1).pow(u128::MAX), modulus_minus(1));
}

#[test]
fn field_order() {
    assert!(f(2).lt(&f(4)));
    assert!(!f(4).lt(&f(2)));
    assert!(!f(4).lt(&f(4)));
    assert!(f(4).le(&f(4)));
    assert!(f(u128::MAX).lt(&modulus_minus(1)));
    assert!(!modulus_minus(1).le(&f(u128::MAX)));
}

#[test]
fn field_zero_test() {
    assert!(f(0).is_zero());
    assert!(!f(1).is_zero());
    assert!(modulus_minus(1).add(&f(1)).is_zero());
}

#[test]
fn field_equality() {
    assert!(f(5).same(&f(5)));
    assert!(!f(5).same(&f(6)));
}

#[test]
fn field_bits() {
    assert_eq!(f(0).bits(), 0);
    assert_eq!(f(1).bits(), 1);
    assert_eq!(f(17).bits(), 5);
    assert_eq!(modulus_minus(1).bits(), 254);
    assert!(f(17).bit(0));
    assert!(!f(17).bit(1));
    assert!(f(17).bit(4));
    assert!(!f(17).bit(5));
    assert!(!f(17).bit(300));
}

#[test]
fn field_bytes_are_little_endian_without_leading_zeros() {
    assert_eq!(f(0).to_byte_vector(), vec![0]);
    assert_eq!(f(5).to_byte_vector(), vec![5]);
    assert_eq!(f(0x0102).to_byte_vector(), vec![2, 1]);
    assert_eq!(f(1 << 64).to_byte_vector(), vec![0, 0, 0, 0, 0, 0, 0, 0, 1]);
    assert_eq!(modulus_minus(1).to_byte_vector().len(), 32);
    assert_eq!(modulus_minus(1).to_byte_vector()[31], 0x30);
    assert_eq!(modulus_minus(1).to_byte_vector()[0], 0x00);
}

#[test]
fn limbs_and_digits() {
    let l = Limbs::from_u128(0x0000_0001_0000_0002_0000_0003_0000_0004);
    assert_eq!((l.l0, l.l1, l.l2, l.l3, l.l4), (4, 3, 2, 1, 0));
    assert_eq!(l.to_digits(), vec![4, 3, 2, 1, 0, 0, 0, 0]);
    assert_eq!(Limbs::from_digits(&vec![4, 3, 2, 1]), l);
    assert_eq!(Limbs::from_digits(&vec![]), Limbs::from_u128(0));
    assert!(Limbs::from_u128(5).lt(&Limbs::from_u128(1 << 100)));
    assert!(!Limbs::from_u128(1 << 100).lt(&Limbs::from_u128(5)));
}

#[test]
fn other_fields_have_their_own_order() {
    use_bls12_381();
    use_bls12_377();
}

fn use_bls12_381() {
    type F = zokrates_ir::bls12_381::Bls12_381Field;
    let minus_one = F::from_u128(0).sub(&F::from_u128(1));
    // 0x73eda753299d7d483339d80809a1d80553bda402fffe5bfeffffffff00000000
    assert_eq!(minus_one.limbs.l7, 0x73eda753);
    assert_eq!(minus_one.limbs.l0, 0);
    assert_eq!(minus_one.limbs.l1, 0xffffffff);
    assert_eq!(minus_one.add(&F::from_u128(1)), F::from_u128(0));
    assert_eq!(F::from_u128(7).div(&F::from_u128(3)).mul(&F::from_u128(3)), F::from_u128(7));
    assert_eq!(minus_one.bits(), 255);
    assert_eq!(F::from_limbs(F::modulus_limbs()), F::from_u128(0));
}

fn use_bls12_377() {
    type F = zokrates_ir::bls12_377::Bls12_377Field;
    let minus_one = F::from_u128(0).sub(&F::from_u128(1));
    // 0x12ab655e9a2ca55660b44d1e5c37b00159aa76fed00000010a11800000000000
    assert_eq!(minus_one.limbs.l7, 0x12ab655e);
    assert_eq!(minus_one.limbs.l0, 0);
    assert_eq!(minus_one.limbs.l1, 0x0a118000);
    assert_eq!(minus_one.add(&F::from_u128(1)), F::from_u128(0));
    assert_eq!(F::from_u128(7).div(&F::from_u128(3)).mul(&F::from_u128(3)), F::from_u128(7));
    assert_eq!(minus_one.bits(), 253);
    assert_eq!(F::from_limbs(F::modulus_limbs()), F::from_u128(0));
}
