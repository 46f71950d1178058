use zk_std::Uint256;

#[test]
fn bytes_round_trip() {
    let mut bytes = [0u8; 32];
    for (i, b) in bytes.iter_mut().enumerate() {
        *b = (i as u8).wrapping_mul(37).wrapping_add(11);
    }
    let x = Uint256::from_be_bytes(&bytes);
    assert_eq!(x.to_be_bytes(), bytes);
}

#[test]
fn from_be_bytes_is_big_endian() {
    let mut bytes = [0u8; 32];
    bytes[31] = 0x2a;
    bytes[15] = 0x01;
    let x = Uint256::from_be_bytes(&bytes);
    assert_eq!(x, Uint256::from_words(1, 0x2a));
}

#[test]
fn all_ones_is_max() {
    let x = Uint256::from_be_bytes(&[0xff; 32]);
    assert_eq!(x, Uint256::from_words(u128::MAX, u128::MAX));
}

#[test]
fn overflowing_add_carries_and_wraps() {
    let a = Uint256::from_words(0, u128::MAX);
    let (s, o) = a.overflowing_add(&Uint256::from_u128(1));
    assert_eq!(s, Uint256::from_words(1, 0));
    assert!(!o);
    let max = Uint256::from_words(u128::MAX, u128::MAX);
    let (s, o) = max.overflowing_add(&Uint256::from_u128(2));
    assert_eq!(s, Uint256::from_u128(1));
    assert!(o);
}

#[test]
fn wrapping_sub_borrows_and_wraps() {
    let a = Uint256::from_words(1, 0);
    assert_eq!(a.wrapping_sub(&Uint256::from_u128(1)), Uint256::from_words(0, u128::MAX));
    let z = Uint256::zero();
    assert_eq!(z.wrapping_sub(&Uint256::from_u128(1)), Uint256::from_words(u128::MAX, u128::MAX));
}

#[test]
fn halves_and_parity() {
    let x = Uint256::from_words(3, 5);
    assert_eq!(x.half(), Uint256::from_words(1, (1u128 << 127) + 2));
    assert!(x.is_odd());
    assert!(!x.half().is_odd());
    assert_eq!(x.half().half(), Uint256::from_words(0, (1u128 << 127) + (1u128 << 126) + 1));
    assert_eq!(x.low_half(), Uint256::from_u128(5));
    assert_eq!(x.high_half(), Uint256::from_u128(3));
}

#[test]
fn comparisons() {
    let a = Uint256::from_words(1, 0);
    let b = Uint256::from_words(0, u128::MAX);
    assert!(b.lt(&a));
    assert!(!a.lt(&b));
    assert!(a.ge(&b));
    assert!(a.ge(&a));
    assert!(Uint256::zero().is_zero());
    assert!(!a.is_zero());
}
