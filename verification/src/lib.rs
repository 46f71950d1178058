//! BN254 field arithmetic and a Poseidon2 sponge for Soroban contracts.
pub mod bn254;
pub mod contracts;
pub mod poseidon2;
pub mod primality;
pub mod prime_certificates_1;
pub mod prime_certificates_2;
pub mod prime_certificates_3;
pub mod uint256;

pub use bn254::{Bn254, G1Projective};
pub use contracts::{ElGamalCiphertext, G1Affine, ShieldedAsset, Verifier};
pub use poseidon2::{hash_to_field, Poseidon2Sponge};
pub use uint256::Uint256;
