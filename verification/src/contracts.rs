//! The logic of the two sample contracts: a scalar-range check and a
//! shielded transfer that reads and validates an ElGamal ciphertext.
use crate::bn254::{base_modulus, on_curve, Bn254};
use crate::uint256::{be_value, Uint256};
use vstd::prelude::*;

verus! {

/// An affine point of G1.
#[derive(Clone, Copy, Debug, PartialEq, Eq, Structural)]
pub struct G1Affine {
    pub x: Uint256,
    pub y: Uint256,
}

/// An ElGamal ciphertext: the two points (C1, C2).
#[derive(Clone, Copy, Debug, PartialEq, Eq, Structural)]
pub struct ElGamalCiphertext {
    pub c1: G1Affine,
    pub c2: G1Affine,
}

/// A contract that checks whether a number is a canonical BN254 field element.
pub struct Verifier;

impl Verifier {
    /// Whether `input` lies below the BN254 base-field prime.
    pub fn check(input: Uint256) -> (r: bool)
        ensures
            r == (input@ < base_modulus()),
    {
        Bn254::is_valid_scalar(input)
    }
}

/// A shielded-asset contract whose transfers carry the amount encrypted
/// under a regulator's key.
pub struct ShieldedAsset;

impl ShieldedAsset {
    /// Reads the four ciphertext coordinates, each given as 32 big-endian
    /// bytes, and validates both points as BN254 G1 points. Returns the
    /// ciphertext when both are on the curve, and `None` otherwise. Proof
    /// verification and the state update are not part of this template.
    pub fn transfer_shielded(
        c1_x: &[u8; 32],
        c1_y: &[u8; 32],
        c2_x: &[u8; 32],
        c2_y: &[u8; 32],
    ) -> (ct: Option<ElGamalCiphertext>)
        ensures
            ct is Some <==> on_curve(be_value(c1_x@), be_value(c1_y@)) && on_curve(
                be_value(c2_x@),
                be_value(c2_y@),
            ),
            ct matches Some(ct) ==> {
                &&& ct.c1.x@ == be_value(c1_x@)
                &&& ct.c1.y@ == be_value(c1_y@)
                &&& ct.c2.x@ == be_value(c2_x@)
                &&& ct.c2.y@ == be_value(c2_y@)
            },
    {
        let c1 = G1Affine { x: Uint256::from_be_bytes(c1_x), y: Uint256::from_be_bytes(c1_y) };
        let c2 = G1Affine { x: Uint256::from_be_bytes(c2_x), y: Uint256::from_be_bytes(c2_y) };
        if Bn254::is_valid_g1(c1.x, c1.y) && Bn254::is_valid_g1(c2.x, c2.y) {
            Some(ElGamalCiphertext { c1, c2 })
        } else {
            None
        }
    }
}

} // verus!
