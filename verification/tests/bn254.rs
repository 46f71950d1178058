use zk_std::{Bn254, G1Projective, Uint256};

fn n(v: u128) -> Uint256 {
    Uint256::from_u128(v)
}

fn q() -> Uint256 {
    Bn254::base_modulus()
}

#[test]
fn add_small_values() {
    assert_eq!(Bn254::add(n(2), n(3)), n(5));
}

#[test]
fn add_wraps_at_modulus() {
    let q_minus_one = q().wrapping_sub(&n(1));
    assert_eq!(Bn254::add(q_minus_one, n(1)), n(0));
    assert_eq!(Bn254::add(q_minus_one, n(2)), n(1));
    assert_eq!(Bn254::add(q_minus_one, q_minus_one), q().wrapping_sub(&n(2)));
}

#[test]
fn add_overflowing_256_bits_subtracts_modulus_wrapping() {
    // 2^255 + 2^255 wraps to 0; 0 - q wraps to 2^256 - q.
    let half = Uint256::from_words(1u128 << 127, 0);
    let expected = Uint256::zero().wrapping_sub(&q());
    assert_eq!(Bn254::add(half, half), expected);
}

#[test]
fn add_commutes_on_examples() {
    let a = Uint256::from_words(0x1234, 0xdead_beef);
    let b = q().wrapping_sub(&n(77));
    assert_eq!(Bn254::add(a, b), Bn254::add(b, a));
}

#[test]
fn mul_small_values() {
    assert_eq!(Bn254::mul(n(6), n(7)), n(42));
    assert_eq!(Bn254::mul(n(0), n(7)), n(0));
    assert_eq!(Bn254::mul(n(7), n(0)), n(0));
}

#[test]
fn mul_crosses_128_bits() {
    let a = Uint256::from_words(1, 0); // 2^128
    let b = n(3);
    assert_eq!(Bn254::mul(a, b), Uint256::from_words(3, 0));
}

#[test]
fn mul_minus_one_squared_is_one() {
    let minus_one = q().wrapping_sub(&n(1));
    assert_eq!(Bn254::mul(minus_one, minus_one), n(1));
}

#[test]
fn mul_reduces_large_product() {
    // 2^255 mod q computed as (2^128 * 2^127) mod q, checked against 2^255 - 5q.
    let a = Uint256::from_words(1, 0);
    let b = n(1u128 << 127);
    let two_255 = Uint256::from_words(1u128 << 127, 0);
    let mut expected = two_255;
    while !expected.lt(&q()) {
        expected = expected.wrapping_sub(&q());
    }
    assert_eq!(Bn254::mul(a, b), expected);
}

#[test]
fn mul_of_modulus_is_zero() {
    assert_eq!(Bn254::mul(q(), n(5)), n(0));
}

#[test]
fn pow_small_values() {
    assert_eq!(Bn254::pow(n(2), n(10)), n(1024));
    assert_eq!(Bn254::pow(n(3), n(0)), n(1));
    assert_eq!(Bn254::pow(n(0), n(0)), n(1));
    assert_eq!(Bn254::pow(n(0), n(5)), n(0));
}

#[test]
fn pow_adds_exponents_on_example() {
    let a = n(123_456_789);
    let lhs = Bn254::pow(a, n(77));
    let rhs = Bn254::mul(Bn254::pow(a, n(30)), Bn254::pow(a, n(47)));
    assert_eq!(lhs, rhs);
}

#[test]
fn invert_zero_is_zero() {
    assert_eq!(Bn254::invert(n(0)), n(0));
}

#[test]
fn invert_gives_multiplicative_inverse() {
    for v in [1u128, 2, 3, 42, 1_000_000_007] {
        let inv = Bn254::invert(n(v));
        assert_eq!(Bn254::mul(n(v), inv), n(1));
    }
}

#[test]
fn invert_of_two_is_half_of_q_plus_one() {
    let q_plus_one_half = q().overflowing_add(&n(1)).0.half();
    assert_eq!(Bn254::invert(n(2)), q_plus_one_half);
}

#[test]
fn generator_is_on_curve() {
    assert!(Bn254::is_valid_g1(n(1), n(2)));
}

#[test]
fn origin_and_non_points_are_rejected() {
    assert!(!Bn254::is_valid_g1(n(0), n(0)));
    assert!(!Bn254::is_valid_g1(n(1), n(3)));
    assert!(!Bn254::is_valid_g1(q(), n(2)));
    assert!(!Bn254::is_valid_g1(n(1), q()));
}

#[test]
fn negated_generator_is_on_curve() {
    let minus_two = q().wrapping_sub(&n(2));
    assert!(Bn254::is_valid_g1(n(1), minus_two));
}

#[test]
fn scalar_order_below_base_modulus() {
    assert!(Bn254::scalar_order().lt(&q()));
    assert!(Bn254::is_valid_scalar(Bn254::scalar_order()));
    assert!(!Bn254::is_valid_scalar(q()));
}

#[test]
fn scalar_mul_by_zero_and_one() {
    let p = G1Projective { x: n(1), y: n(2), z: n(1) };
    assert_eq!(Bn254::g1_scalar_mul(p, n(0)), G1Projective::identity());
    assert_eq!(Bn254::g1_scalar_mul(p, n(1)), p);
}

#[test]
fn identity_is_one_one_zero() {
    let id = G1Projective::identity();
    assert_eq!(id.x, n(1));
    assert_eq!(id.y, n(1));
    assert_eq!(id.z, n(0));
}

#[test]
fn cf_select_picks_by_choice() {
    let a = G1Projective { x: n(1), y: n(2), z: n(1) };
    let b = G1Projective::identity();
    assert_eq!(G1Projective::cf_select(true, a, b), a);
    assert_eq!(G1Projective::cf_select(false, a, b), b);
}

#[test]
fn add_associative_on_example() {
    let a = q().wrapping_sub(&n(3));
    let b = Uint256::from_words(0x30644e72e131a029b85045b68181585d, 0x1234);
    let c = n(999);
    assert_eq!(
        Bn254::add(Bn254::add(a, b), c),
        Bn254::add(a, Bn254::add(b, c))
    );
}

#[test]
fn add_zero_and_mul_one() {
    let a = Uint256::from_words(0xabc, 0xdef);
    assert_eq!(Bn254::add(a, n(0)), a);
    assert_eq!(Bn254::mul(a, n(1)), a);
    // 1 times a non-canonical value reduces it.
    let big = Uint256::from_words(u128::MAX, u128::MAX);
    let mut reduced = big;
    while !reduced.lt(&q()) {
        reduced = reduced.wrapping_sub(&q());
    }
    assert_eq!(Bn254::mul(big, n(1)), reduced);
}

#[test]
fn mul_commutes_and_associates_on_example() {
    let a = Uint256::from_words(0x1111_2222, 0x3333_4444_5555);
    let b = q().wrapping_sub(&n(12345));
    let c = Uint256::from_words(u128::MAX, 17);
    assert_eq!(Bn254::mul(a, b), Bn254::mul(b, a));
    assert_eq!(
        Bn254::mul(Bn254::mul(a, b), c),
        Bn254::mul(a, Bn254::mul(b, c))
    );
}

#[test]
fn mul_distributes_over_add_on_example() {
    let a = Uint256::from_words(0x5555, 0x7777);
    let b = q().wrapping_sub(&n(10));
    let c = n(25);
    assert_eq!(
        Bn254::mul(a, Bn254::add(b, c)),
        Bn254::add(Bn254::mul(a, b), Bn254::mul(a, c))
    );
}

#[test]
fn invert_twice_gives_back_the_value() {
    for v in [1u128, 5, 42, 987_654_321] {
        assert_eq!(Bn254::invert(Bn254::invert(n(v))), n(v));
    }
    let big = q().wrapping_sub(&n(1));
    assert_eq!(Bn254::invert(Bn254::invert(big)), big);
}
