use soroban_sdk::Env;
use zk_std::poseidon2::{permute_state, Poseidon2Sponge};
use zk_std::{hash_to_field, Uint256};

fn env() -> Env {
    let e = Env::default();
    e.cost_estimate().budget().reset_unlimited();
    e
}

fn u(hi: u128, lo: u128) -> Uint256 {
    Uint256::from_words(hi, lo)
}

fn n(v: u128) -> Uint256 {
    Uint256::from_u128(v)
}

#[test]
fn known_answer_permutation_of_0_1_2() {
    // poseidon2_permutation([0, 1, 2]) over BN254 Fr
    let env = env();
    let out = permute_state(&env, &[n(0), n(1), n(2)]);

    assert_eq!(
        out[0],
        u(0x0bb61d24daca55eebcb1929a82650f32, 0x8134334da98ea4f847f760054f4a3033)
    );
    assert_eq!(
        out[1],
        u(0x303b6f7c86d043bfcbcc80214f26a302, 0x77a15d3f74ca654992defe7ff8d03570)
    );
    assert_eq!(
        out[2],
        u(0x1ed25194542b12eef8617361c3ba7c52, 0xe660b145994427cc86296242cf766ec8)
    );
}

#[test]
fn hash_to_field_is_deterministic() {
    let env = env();
    let inputs = [n(1), n(2)];
    let a = hash_to_field(&env, &inputs);
    let b = hash_to_field(&env, &inputs);
    assert_eq!(a, b);
}

#[test]
fn different_inputs_give_different_outputs() {
    let env = env();
    let a = hash_to_field(&env, &[n(1)]);
    let b = hash_to_field(&env, &[n(2)]);
    assert_ne!(a, b);
}

#[test]
fn hash_empty_input_does_not_panic() {
    let env = env();
    let out = hash_to_field(&env, &[]);
    assert_ne!(out, n(0));
}

#[test]
fn hash_single_element() {
    let env = env();
    let out = hash_to_field(&env, &[n(42)]);
    assert_ne!(out, n(0));
}

#[test]
fn absorb_three_elements_triggers_two_permutations() {
    // 3 inputs: absorb fills rate=2 (permute), then 1 left → permute on squeeze
    let env = env();
    let inputs = [n(1), n(2), n(3)];
    let out = hash_to_field(&env, &inputs);
    assert_ne!(out, n(0));
}

#[test]
fn absorb_four_elements_fills_two_blocks() {
    let env = env();
    let inputs = [n(10), n(20), n(30), n(40)];
    let out = hash_to_field(&env, &inputs);
    assert_ne!(out, n(0));
}

#[test]
fn order_matters() {
    let env = env();
    let a = hash_to_field(&env, &[n(1), n(2)]);
    let b = hash_to_field(&env, &[n(2), n(1)]);
    assert_ne!(a, b);
}

#[test]
fn empty_input_is_padded_then_permuted() {
    let env = env();
    let out = hash_to_field(&env, &[]);
    let perm = permute_state(&env, &[n(1), n(0), n(0)]);
    assert_eq!(out, perm[0]);
}

#[test]
fn empty_and_zero_inputs_differ() {
    let env = env();
    let mut s1 = Poseidon2Sponge::new(&env);
    let mut s2 = Poseidon2Sponge::new(&env);
    s2.absorb(&[n(0)]);
    assert_ne!(s1.squeeze(), s2.squeeze());
}

#[test]
fn absorbing_in_pieces_matches_absorbing_at_once() {
    let env = env();
    let inputs = [n(5), n(6), n(7)];
    let whole = hash_to_field(&env, &inputs);

    let mut sponge = Poseidon2Sponge::new(&env);
    sponge.absorb(&inputs[..1]);
    sponge.absorb(&inputs[1..]);
    assert_eq!(sponge.squeeze(), whole);
}

#[test]
fn squeeze_after_full_block_does_not_permute() {
    let env = env();
    let block = permute_state(&env, &[n(1), n(2), n(0)]);
    assert_eq!(hash_to_field(&env, &[n(1), n(2)]), block[0]);
}

#[test]
fn single_input_is_padded_in_second_slot() {
    let env = env();
    let expected = permute_state(&env, &[n(42), n(1), n(0)]);
    assert_eq!(hash_to_field(&env, &[n(42)]), expected[0]);
}

#[test]
fn three_inputs_permute_block_then_pad() {
    let env = env();
    let first = permute_state(&env, &[n(1), n(2), n(0)]);
    let padded = [
        zk_std::poseidon2::field_add(&first[0], &n(3)),
        zk_std::poseidon2::field_add(&first[1], &n(1)),
        first[2],
    ];
    let second = permute_state(&env, &padded);
    assert_eq!(hash_to_field(&env, &[n(1), n(2), n(3)]), second[0]);
}

#[test]
fn second_squeeze_returns_the_same_element() {
    let env = env();
    let mut sponge = Poseidon2Sponge::new(&env);
    sponge.absorb(&[n(9)]);
    let a = sponge.squeeze();
    let b = sponge.squeeze();
    assert_eq!(a, b);
}

#[test]
fn permutation_outputs_are_field_elements() {
    let env = env();
    let out = permute_state(&env, &[n(7), n(8), n(9)]);
    let r = zk_std::poseidon2::fr_modulus();
    for x in out.iter() {
        assert!(x.lt(&r));
    }
}

#[test]
fn field_add_reduces_modulo_r() {
    let r = zk_std::poseidon2::fr_modulus();
    let r_minus_one = r.wrapping_sub(&n(1));
    assert_eq!(zk_std::poseidon2::field_add(&r_minus_one, &n(1)), n(0));
    assert_eq!(zk_std::poseidon2::field_add(&r_minus_one, &n(5)), n(4));
    assert_eq!(zk_std::poseidon2::field_add(&n(3), &n(4)), n(7));
}

#[test]
fn mat_diag_and_round_constants_shape() {
    let mat = zk_std::poseidon2::mat_diag();
    assert_eq!(mat, [n(1), n(1), n(2)]);
    let rc = zk_std::poseidon2::round_constants();
    assert_eq!(rc.len(), 64);
    assert_eq!(
        rc[0][0],
        u(0x1d066a255517b7fd8bddd3a93f7804ef, 0x7f8fcde48bb4c37a59a09a1a97052816)
    );
    for row in &rc[4..60] {
        assert_eq!(row[1], n(0));
        assert_eq!(row[2], n(0));
    }
    assert_eq!(
        rc[63][2],
        u(0x0fc1bbceba0590f5abbdffa6d3b35e32, 0x97c021a3a409926d0e2d54dc1c84fda6)
    );
}
