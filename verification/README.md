# zk_std

BN254 arithmetic and a Poseidon2 sponge for Soroban contracts, verified with Verus.

- `src/uint256.rs`: 256-bit numbers as two 128-bit words; carry arithmetic,
  comparisons, shifts and big-endian byte conversion, with `ethnum` doing
  wide multiplication and remainder.
- `src/bn254.rs`: addition, multiplication, exponentiation and inversion
  modulo the BN254 base-field prime, the curve-membership check, and the
  algebraic laws of these operations.
- `src/primality.rs`: Bezout's identity, Euclid's lemma and Lucas–Pratt
  certificates, from which primality and Fermat's little theorem follow.
- `src/prime_certificates_*.rs`: the certificates that q is prime, which
  give the inverse law of `Bn254::invert`.
- `src/poseidon2.rs`: the Poseidon2 sponge (t = 3, rate = 2) whose
  permutation runs in the Soroban host.
- `src/contracts.rs`: the logic of the sample contracts.
- `app/lib.rs`: the Soroban contract entry points and host-value conversions.
