use zk_std::{Bn254, G1Affine, ShieldedAsset, Uint256};

fn bytes(v: u128) -> [u8; 32] {
    Uint256::from_u128(v).to_be_bytes()
}

#[test]
fn transfer_reads_valid_ciphertext_points() {
    // (1, 2) is the generator; (1, q - 2) is its negation.
    let minus_two = Bn254::base_modulus().wrapping_sub(&Uint256::from_u128(2));
    let ct = ShieldedAsset::transfer_shielded(&bytes(1), &bytes(2), &bytes(1), &minus_two.to_be_bytes())
        .expect("both points are on the curve");
    assert_eq!(ct.c1, G1Affine { x: Uint256::from_u128(1), y: Uint256::from_u128(2) });
    assert_eq!(ct.c2, G1Affine { x: Uint256::from_u128(1), y: minus_two });
}

#[test]
fn transfer_rejects_points_off_the_curve() {
    assert!(ShieldedAsset::transfer_shielded(&[0xff; 32], &[0xff; 32], &[0xff; 32], &[0xff; 32]).is_none());
    assert!(ShieldedAsset::transfer_shielded(&bytes(1), &bytes(3), &bytes(1), &bytes(2)).is_none());
    assert!(ShieldedAsset::transfer_shielded(&bytes(1), &bytes(2), &bytes(0), &bytes(0)).is_none());
}
