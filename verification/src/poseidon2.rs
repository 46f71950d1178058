//! Poseidon2 sponge over the BN254 scalar field (t = 3, rate = 2, capacity = 1).
//!
//! The permutation itself runs in the Soroban host
//! (`crypto_hazmat().poseidon2_permutation`); the sponge around it (field
//! addition of the inputs into the rate, the block schedule and the final
//! squeeze) is written and proved here.
use crate::bn254::scalar_order;
use crate::uint256::{be_value, word_base, word_space, Uint256};
use soroban_sdk::{Bytes, BytesN, Env, Symbol, Vec as HostVec, U256};
use vstd::prelude::*;

verus! {

/// The Soroban host environment, `soroban_sdk::Env`, carried through as an
/// opaque handle.
#[verifier::external_type_specification]
#[verifier::external_body]
pub struct ExEnv(Env);

/// State width.
pub const T: u32 = 3;

/// S-box degree.
pub const D: u32 = 5;

/// Number of full rounds.
pub const ROUNDS_F: u32 = 8;

/// Number of partial rounds.
pub const ROUNDS_P: u32 = 56;

/// Number of state elements that absorb input.
pub const RATE: u32 = 2;

/// Round constants of the BN254 Poseidon2 instance with t = 3: 4 full rounds,
/// 56 partial rounds (only the first element is nonzero), 4 full rounds.
/// Row i holds the three constants of round i, each as a high and a low
/// 128-bit word.
pub const ROUND_CONSTANT_WORDS: [[u128; 6]; 64] = [
    [
        0x1d066a255517b7fd8bddd3a93f7804ef, 0x7f8fcde48bb4c37a59a09a1a97052816,
        0x29daefb55f6f2dc6ac3f089cebcc6120, 0xb7c6fef31367b68eb7238547d32c1610,
        0x1f2cb1624a78ee001ecbd88ad959d701, 0x2572d76f08ec5c4f9e8b7ad7b0b4e1d1,
    ],
    [
        0x0aad2e79f15735f2bd77c0ed3d14aa27, 0xb11f092a53bbc6e1db0672ded84f31e5,
        0x2252624f8617738cd6f661dd4094375f, 0x37028a98f1dece66091ccf1595b43f28,
        0x1a24913a928b38485a65a84a291da1ff, 0x91c20626524b2b87d49f4f2c9018d735,
    ],
    [
        0x22fc468f1759b74d7bfc427b5f11ebb1, 0x0a41515ddff497b14fd6dae1508fc47a,
        0x1059ca787f1f89ed9cd026e9c9ca107a, 0xe61956ff0b4121d5efd65515617f6e4d,
        0x02be9473358461d8f61f3536d877de98, 0x2123011f0bf6f155a45cbbfae8b981ce,
    ],
    [
        0x0ec96c8e32962d462778a749c82ed623, 0xaba9b669ac5b8736a1ff3a441a5084a4,
        0x292f906e073677405442d9553c45fa3f, 0x5a47a7cdb8c99f9648fb2e4d814df57e,
        0x274982444157b86726c11b9a0f5e39a5, 0xcc611160a394ea460c63f0b2ffe5657e,
    ],
    [0x1a1d063e54b1e764b63e1855bff015b8, 0xcedd192f47308731499573f23597d4b5, 0, 0, 0, 0],
    [0x26abc66f3fdf8e68839d109562590637, 0x08235dccc1aa3793b91b002c5b257c37, 0, 0, 0, 0],
    [0x0c7c64a9d887385381a578cfed5aed37, 0x0754427aabca92a70b3c2b12ff4d7be8, 0, 0, 0, 0],
    [0x1cf5998769e9fab79e17f0b6d08b2d1e, 0xba2ebac30dc386b0edd383831354b495, 0, 0, 0, 0],
    [0x0f5e3a8566be31b7564ca60461e9e08b, 0x19828764a9669bc17aba0b97e66b0109, 0, 0, 0, 0],
    [0x18df6a9d19ea90d895e60e4db0794a01, 0xf359a53a180b7d4b42bf3d7a531c976e, 0, 0, 0, 0],
    [0x04f7bf2c5c0538ac6e4b782c3c6e601a, 0xd0ea1d3a3b9d25ef4e324055fa3123dc, 0, 0, 0, 0],
    [0x29c76ce22255206e3c40058523748531, 0xe770c0584aa2328ce55d54628b89ebe6, 0, 0, 0, 0],
    [0x198d425a45b78e85c053659ab4347f5d, 0x65b1b8e9c6108dbe00e0e945dbc5ff15, 0, 0, 0, 0],
    [0x25ee27ab6296cd5e6af3cc79c598a1da, 0xa7ff7f6878b3c49d49d3a9a90c3fdf74, 0, 0, 0, 0],
    [0x138ea8e0af41a1e024561001c0b6eb15, 0x05845d7d0c55b1b2c0f88687a96d1381, 0, 0, 0, 0],
    [0x306197fb3fab671ef6e7c2cba2eefd0e, 0x42851b5b9811f2ca4013370a01d95687, 0, 0, 0, 0],
    [0x1a0c7d52dc32a4432b66f0b4894d4f1a, 0x21db7565e5b4250486419eaf00e8f620, 0, 0, 0, 0],
    [0x2b46b418de80915f3ff86a8e5c8bdfcc, 0xebfbe5f55163cd6caa52997da2c54a9f, 0, 0, 0, 0],
    [0x12d3e0dc0085873701f8b777b9673af9, 0x613a1af5db48e05bfb46e312b5829f64, 0, 0, 0, 0],
    [0x263390cf74dc3a8870f5002ed21d089f, 0xfb2bf768230f648dba338a5cb19b3a1f, 0, 0, 0, 0],
    [0x0a14f33a5fe668a60ac884b4ca607ad0, 0xf8abb5af40f96f1d7d543db52b003dcd, 0, 0, 0, 0],
    [0x28ead9c586513eab1a5e86509d68b2da, 0x27be3a4f01171a1dd847df829bc683b9, 0, 0, 0, 0],
    [0x1c6ab1c328c3c6430972031f1bdb2ac9, 0x888f0ea1abe71cffea16cda6e1a7416c, 0, 0, 0, 0],
    [0x1fc7e71bc0b819792b2500239f7f8de0, 0x4f6decd608cb98a932346015c5b42c94, 0, 0, 0, 0],
    [0x03e107eb3a42b2ece380e0d860298f17, 0xc0c1e197c952650ee6dd85b93a0ddaa8, 0, 0, 0, 0],
    [0x2d354a251f381a4669c0d52bf88b772c, 0x46452ca57c08697f454505f6941d78cd, 0, 0, 0, 0],
    [0x094af88ab05d94baf687ef14bc566d1c, 0x522551d61606eda3d14b4606826f794b, 0, 0, 0, 0],
    [0x19705b783bf3d2dc19bcaeabf02f8ca5, 0xe1ab5b6f2e3195a9d52b2d249d1396f7, 0, 0, 0, 0],
    [0x09bf4acc3a8bce3f1fcc33fee54fc5b2, 0x8723b16b7d740a3e60cef6852271200e, 0, 0, 0, 0],
    [0x1803f8200db6013c50f83c0c8fab6284, 0x3413732f301f7058543a073f3f3b5e4e, 0, 0, 0, 0],
    [0x0f80afb5046244de30595b160b8d1f38, 0xbf6fb02d4454c0add41f7fef2faf3e5c, 0, 0, 0, 0],
    [0x126ee1f8504f15c3d77f0088c1cfc964, 0xabcfcf643f4a6fea7dc3f98219529d78, 0, 0, 0, 0],
    [0x23c203d10cfcc60f69bfb3d919552ca1, 0x0ffb4ee63175ddf8ef86f991d7d0a591, 0, 0, 0, 0],
    [0x2a2ae15d8b143709ec0d09705fa3a630, 0x3dec1ee4eec2cf747c5a339f7744fb94, 0, 0, 0, 0],
    [0x07b60dee586ed6ef47e5c381ab6343ec, 0xc3d3b3006cb461bbb6b5d89081970b2b, 0, 0, 0, 0],
    [0x27316b559be3edfd885d95c494c1ae3d, 0x8a98a320baa7d152132cfe583c9311bd, 0, 0, 0, 0],
    [0x1d5c49ba157c32b8d8937cb2d3f84311, 0xef834cc2a743ed662f5f9af0c0342e76, 0, 0, 0, 0],
    [0x2f8b124e78163b2f332774e0b850b5ec, 0x09c01bf6979938f67c24bd5940968488, 0, 0, 0, 0],
    [0x1e6843a5457416b6dc5b7aa09a9ce21b, 0x1d4cba6554e51d84665f75260113b3d5, 0, 0, 0, 0],
    [0x11cdf00a35f650c55fca25c9929c8ad9, 0xa68daf9ac6a189ab1f5bc79f21641d4b, 0, 0, 0, 0],
    [0x21632de3d3bbc5e42ef36e588158d6d4, 0x608b2815c77355b7e82b5b9b7eb560bc, 0, 0, 0, 0],
    [0x0de625758452efbd97b27025fbd245e0, 0x255ae48ef2a329e449d7b5c51c18498a, 0, 0, 0, 0],
    [0x2ad253c053e75213e2febfd4d976cc01, 0xdd9e1e1c6f0fb6b09b09546ba0838098, 0, 0, 0, 0],
    [0x1d6b169ed63872dc6ec7681ec39b3be9, 0x3dd49cdd13c813b7d35702e38d60b077, 0, 0, 0, 0],
    [0x1660b740a143664bb9127c4941b67fed, 0x0be3ea70a24d5568c3a54e706cfef7fe, 0, 0, 0, 0],
    [0x0065a92d1de81f34114f4ca2deef76e0, 0xceacdddb12cf879096a29f10376ccbfe, 0, 0, 0, 0],
    [0x1f11f065202535987367f823da7d672c, 0x353ebe2ccbc4869bcf30d50a5871040d, 0, 0, 0, 0],
    [0x26596f5c5dd5a5d1b437ce7b14a2c3dd, 0x3bd1d1a39b6759ba110852d17df0693e, 0, 0, 0, 0],
    [0x16f49bc727e45a2f7bf3056efcf8b6d3, 0x8539c4163a5f1e706743db15af91860f, 0, 0, 0, 0],
    [0x1abe1deb45b3e3119954175efb331bf4, 0x568feaf7ea8b3dc5e1a4e7438dd39e5f, 0, 0, 0, 0],
    [0x0e426ccab66984d1d8993a74ca548b77, 0x9f5db92aaec5f102020d34aea15fba59, 0, 0, 0, 0],
    [0x0e7c30c2e2e8957f4933bd1942053f1f, 0x0071684b902d534fa841924303f6a6c6, 0, 0, 0, 0],
    [0x0812a017ca92cf0a1622708fc7edff1d, 0x6166ded6e3528ead4c76e1f31d3fc69d, 0, 0, 0, 0],
    [0x21a5ade3df2bc1b5bba949d1db960400, 0x68afe5026edd7a9c2e276b47cf010d54, 0, 0, 0, 0],
    [0x01f3035463816c84ad711bf1a058c6c6, 0xbd101945f50e5afe72b1a5233f8749ce, 0, 0, 0, 0],
    [0x0b115572f038c0e2028c2aafc2d06a5e, 0x8bf2f9398dbd0fdf4dcaa82b0f0c1c8b, 0, 0, 0, 0],
    [0x1c38ec0b99b62fd4f0ef255543f50d2e, 0x27fc24db42bc910a3460613b6ef59e2f, 0, 0, 0, 0],
    [0x1c89c6d9666272e8425c3ff1f4ac737b, 0x2f5d314606a297d4b1d0b254d880c53e, 0, 0, 0, 0],
    [0x03326e643580356bf6d44008ae4c042a, 0x21ad4880097a5eb38b71e2311bb88f8f, 0, 0, 0, 0],
    [0x268076b0054fb73f67cee9ea0e51e3ad, 0x50f27a6434b5dceb5bdde2299910a4c9, 0, 0, 0, 0],
    [
        0x1acd63c67fbc9ab1626ed93491bda32e, 0x5da18ea9d8e4f10178d04aa6f8747ad0,
        0x19f8a5d670e8ab66c4e3144be58ef690, 0x1bf93375e2323ec3ca8c86cd2a28b5a5,
        0x1c0dc443519ad7a86efa40d2df10a011, 0x068193ea51f6c92ae1cfbb5f7b9b6893,
    ],
    [
        0x14b39e7aa4068dbe50fe7190e421dc19, 0xfbeab33cb4f6a2c4180e4c3224987d3d,
        0x1d449b71bd826ec58f28c63ea6c561b7, 0xb820fc519f01f021afb1e35e28b0795e,
        0x1ea2c9a89baaddbb60fa97fe60fe9d8e, 0x89de141689d1252276524dc0a9e987fc,
    ],
    [
        0x0478d66d43535a8cb57e9c1c3d6a2bd7, 0x591f9a46a0e9c058134d5cefdb3c7ff1,
        0x19272db71eece6a6f608f3b2717f9cd2, 0x662e26ad86c400b21cde5e4a7b00bebe,
        0x14226537335cab33c749c746f09208ab, 0xb2dd1bd66a87ef75039be846af134166,
    ],
    [
        0x01fd6af15956294f9dfe38c0d976a088, 0xb21c21e4a1c2e823f912f44961f9a9ce,
        0x18e5abedd626ec307bca190b8b2cab1a, 0xaee2e62ed229ba5a5ad8518d4e5f2a57,
        0x0fc1bbceba0590f5abbdffa6d3b35e32, 0x97c021a3a409926d0e2d54dc1c84fda6,
    ],
];

/// The value of the constant in round `i`, position `j`.
pub open spec fn round_constant_value(i: int, j: int) -> nat {
    ROUND_CONSTANT_WORDS[i][2 * j] as nat * word_base() + ROUND_CONSTANT_WORDS[i][2 * j + 1] as nat
}

/// The round-constant matrix, 64 rows of 3 values.
pub open spec fn round_constant_values() -> Seq<Seq<nat>> {
    Seq::new(64, |i: int| Seq::new(3, |j: int| round_constant_value(i, j)))
}

/// The internal-matrix diagonal minus the identity, [1, 1, 2].
pub open spec fn mat_diag_values() -> Seq<nat> {
    seq![1nat, 1nat, 2nat]
}

/// The values of a sequence of numbers.
pub open spec fn values(s: Seq<Uint256>) -> Seq<nat> {
    s.map_values(|x: Uint256| x@)
}

/// The values of a sequence of 32-byte big-endian encodings.
pub open spec fn bytes_values(s: Seq<[u8; 32]>) -> Seq<nat> {
    s.map_values(|b: [u8; 32]| be_value(b@))
}

/// The Soroban host's Poseidon2 permutation, as a function of its arguments.
pub uninterp spec fn poseidon2_permutation_value(
    input: Seq<nat>,
    field: Seq<char>,
    t: u32,
    d: u32,
    rounds_f: u32,
    rounds_p: u32,
    mat_internal_diag_m_1: Seq<nat>,
    round_constants: Seq<Seq<nat>>,
) -> Seq<nat>;

/// The permutation of this instance (BN254, t = 3, d = 5, 8 full and 56
/// partial rounds, the constants above).
pub open spec fn permutation(state: Seq<nat>) -> Seq<nat> {
    poseidon2_permutation_value(
        state,
        "BN254"@,
        T,
        D,
        ROUNDS_F,
        ROUNDS_P,
        mat_diag_values(),
        round_constant_values(),
    )
}

/// Addition modulo r by one conditional subtraction.
pub open spec fn field_add_value(a: nat, b: nat) -> nat {
    if a + b >= scalar_order() {
        (a + b - scalar_order()) as nat
    } else {
        a + b
    }
}

/// Addition modulo r, as a function (the form the recurrences are stated in).
pub open spec fn mod_add() -> spec_fn(nat, nat) -> nat {
    |a: nat, b: nat| (a + b) % scalar_order()
}

/// Addition as the sponge performs it (see `field_add_value`), as a function.
pub open spec fn sponge_add() -> spec_fn(nat, nat) -> nat {
    |a: nat, b: nat| field_add_value(a, b)
}

/// The sponge after absorbing `inputs` one by one, with `plus` as the way an
/// input enters its slot: each input is added into the next rate slot and
/// leaves input pending; a full rate triggers the permutation, after which
/// nothing is pending. The result is (state, rate index, pending).
pub open spec fn absorb_with(
    plus: spec_fn(nat, nat) -> nat,
    state: Seq<nat>,
    rate_idx: nat,
    pending: bool,
    inputs: Seq<nat>,
) -> (Seq<nat>, nat, bool)
    decreases inputs.len(),
{
    if inputs.len() == 0 {
        (state, rate_idx, pending)
    } else {
        let next = state.update(rate_idx as int, plus(state[rate_idx as int], inputs[0]));
        if rate_idx + 1 == RATE {
            absorb_with(plus, permutation(next), 0, false, inputs.drop_first())
        } else {
            absorb_with(plus, next, rate_idx + 1, true, inputs.drop_first())
        }
    }
}

/// The sponge after absorbing `inputs`, as the code adds.
pub open spec fn absorb_value(state: Seq<nat>, rate_idx: nat, pending: bool, inputs: Seq<nat>) -> (
    Seq<nat>,
    nat,
    bool,
) {
    absorb_with(sponge_add(), state, rate_idx, pending, inputs)
}

/// The state after squeezing, with `plus` as the way the pad enters: when
/// input is pending, the pad 1 is added into the next rate slot and the
/// state is permuted; otherwise the state stays as it is.
pub open spec fn squeeze_with(
    plus: spec_fn(nat, nat) -> nat,
    state: Seq<nat>,
    rate_idx: nat,
    pending: bool,
) -> Seq<nat> {
    if pending {
        permutation(state.update(rate_idx as int, plus(state[rate_idx as int], 1)))
    } else {
        state
    }
}

/// The state after squeezing, as the code adds.
pub open spec fn squeeze_value(state: Seq<nat>, rate_idx: nat, pending: bool) -> Seq<nat> {
    squeeze_with(sponge_add(), state, rate_idx, pending)
}

/// The zeroed initial state.
pub open spec fn initial_state() -> Seq<nat> {
    seq![0nat, 0nat, 0nat]
}

/// The digest of `inputs` with `plus` as the addition: absorb them into a
/// fresh sponge (whose empty input counts as pending), squeeze, and take
/// the first element.
pub open spec fn hash_with(plus: spec_fn(nat, nat) -> nat, inputs: Seq<nat>) -> nat {
    let a = absorb_with(plus, initial_state(), 0, true, inputs);
    squeeze_with(plus, a.0, a.1, a.2)[0]
}

/// The digest of `inputs`, as the code adds.
pub open spec fn hash_value(inputs: Seq<nat>) -> nat {
    hash_with(sponge_add(), inputs)
}

/// A sponge state that absorption can continue from: the rate index is in
/// the rate, no slot at or after it holds a value of r or more, and a rate
/// index past 0 means input is pending.
pub open spec fn state_ok(state: Seq<nat>, rate_idx: nat, pending: bool) -> bool {
    &&& state.len() == 3
    &&& rate_idx < RATE
    &&& forall|k: int| rate_idx <= k < 3 ==> state[k] < scalar_order()
    &&& (rate_idx != 0 ==> pending)
}

/// An input that can be added into a slot below r without leaving 256 bits.
pub open spec fn absorbable(x: nat) -> bool {
    x + scalar_order() < word_space()
}

/// Every element of the sequence is a canonical field element (below r).
pub open spec fn all_canonical(s: Seq<nat>) -> bool {
    forall|i: int| 0 <= i < s.len() ==> #[trigger] s[i] < scalar_order()
}

/// Calls the Soroban host's `CryptoHazmat::poseidon2_permutation` on
/// 32-byte big-endian encodings of the state, the internal-matrix diagonal
/// and the round constants, and returns the new state encoded the same way.
/// Claimed: the result is the named function of the argument values, and
/// each output element is below r (the host returns canonical field
/// elements). The host reduces oversized inputs modulo r; that is not
/// stated. `env` does not enter the name: the host's result does not depend
/// on it. Left unsaid: the host charges the call to the environment's
/// budget and fails when that budget is spent.
#[verifier::external_body]
fn host_poseidon2_permutation(
    env: &Env,
    input: &[[u8; 32]; 3],
    field: &str,
    t: u32,
    d: u32,
    rounds_f: u32,
    rounds_p: u32,
    mat: &[[u8; 32]; 3],
    round_constants: &Vec<[[u8; 32]; 3]>,
) -> (out: [[u8; 32]; 3])
    requires
        field@ == "BN254"@,
        t == 3,
        d == 5,
        rounds_f % 2 == 0,
        rounds_f + rounds_p <= u32::MAX,
        round_constants@.len() == rounds_f + rounds_p,
    ensures
        bytes_values(out@) == poseidon2_permutation_value(
            bytes_values(input@),
            field@,
            t,
            d,
            rounds_f,
            rounds_p,
            bytes_values(mat@),
            round_constants@.map_values(|row: [[u8; 32]; 3]| bytes_values(row@)),
        ),
        forall|i: int| 0 <= i < 3 ==> be_value(#[trigger] out@[i]@) < scalar_order(),
{
    let host = |row: &[[u8; 32]; 3]| HostVec::from_array(env, row.map(|b| U256::from_be_bytes(env, &Bytes::from_array(env, &b))));
    let mut rows = HostVec::new(env);
    for row in round_constants.iter() {
        rows.push_back(host(row));
    }
    let hazmat = env.crypto_hazmat();
    let out = hazmat.poseidon2_permutation(&host(input), Symbol::new(env, field), t, d, rounds_f, rounds_p, &host(mat), &rows);
    [0, 1, 2].map(|i| BytesN::<32>::try_from(out.get_unchecked(i).to_be_bytes()).unwrap().to_array())
}

/// `Env::clone` (derived): a copy of the handle to the same host
/// environment. Claimed: the copy equals the original.
#[verifier::external_body]
fn clone_env(env: &Env) -> (r: Env)
    ensures
        r == *env,
{
    env.clone()
}

/// The scalar-field prime r, which the sponge adds modulo.
pub fn fr_modulus() -> (r: Uint256)
    ensures
        r@ == scalar_order(),
{
    Uint256::from_words(0x30644e72e131a029b85045b68181585d, 0x2833e84879b9709143e1f593f0000001)
}

/// Addition modulo r: `(a + b) mod r` for inputs below r.
pub fn field_add(a: &Uint256, b: &Uint256) -> (r: Uint256)
    requires
        a@ + b@ < word_space(),
    ensures
        r@ == field_add_value(a@, b@),
        a@ < scalar_order() && b@ < scalar_order() ==> r@ == (a@ + b@) % scalar_order(),
{
    let sum = a.overflowing_add(b).0;
    let r = fr_modulus();
    proof {
        if a@ < scalar_order() && b@ < scalar_order() {
            if a@ + b@ >= scalar_order() {
                vstd::arithmetic::div_mod::lemma_fundamental_div_mod_converse(
                    (a@ + b@) as int,
                    scalar_order() as int,
                    1,
                    (a@ + b@ - scalar_order()) as int,
                );
            } else {
                vstd::arithmetic::div_mod::lemma_small_mod((a@ + b@) as nat, scalar_order());
            }
        }
    }
    if sum.ge(&r) {
        sum.wrapping_sub(&r)
    } else {
        sum
    }
}

/// The internal-matrix diagonal minus the identity, [1, 1, 2].
pub fn mat_diag() -> (r: [Uint256; 3])
    ensures
        values(r@) == mat_diag_values(),
{
    let r = [Uint256::from_u128(1), Uint256::from_u128(1), Uint256::from_u128(2)];
    assert(values(r@) =~= mat_diag_values());
    r
}

/// The 64 rows of round constants.
pub fn round_constants() -> (rc: Vec<[Uint256; 3]>)
    ensures
        rc@.len() == 64,
        forall|i: int, j: int|
            0 <= i < 64 && 0 <= j < 3 ==> (#[trigger] rc@[i][j])@ == round_constant_value(i, j),
{
    let mut rc: Vec<[Uint256; 3]> = Vec::new();
    let mut i: usize = 0;
    while i < 64
        invariant
            i <= 64,
            rc@.len() == i,
            forall|k: int, j: int|
                0 <= k < i && 0 <= j < 3 ==> (#[trigger] rc@[k][j])@ == round_constant_value(k, j),
        decreases 64 - i,
    {
        let w = ROUND_CONSTANT_WORDS[i];
        rc.push(
            [
                Uint256::from_words(w[0], w[1]),
                Uint256::from_words(w[2], w[3]),
                Uint256::from_words(w[4], w[5]),
            ],
        );
        i = i + 1;
    }
    rc
}

/// The encodings of three numbers.
fn encode_row(row: &[Uint256; 3]) -> (r: [[u8; 32]; 3])
    ensures
        bytes_values(r@) == values(row@),
{
    let r = [row[0].to_be_bytes(), row[1].to_be_bytes(), row[2].to_be_bytes()];
    assert(bytes_values(r@) =~= values(row@));
    r
}

/// Applies the Poseidon2 permutation of this instance to a state.
pub fn permute_state(env: &Env, state: &[Uint256; 3]) -> (r: [Uint256; 3])
    ensures
        values(r@) == permutation(values(state@)),
        forall|i: int| 0 <= i < 3 ==> (#[trigger] r@[i])@ < scalar_order(),
{
    let input = encode_row(state);
    let mat = encode_row(&mat_diag());
    let rc = round_constants();
    let mut rc_bytes: Vec<[[u8; 32]; 3]> = Vec::new();
    let mut i: usize = 0;
    while i < rc.len()
        invariant
            rc@.len() == 64,
            i <= 64,
            rc_bytes@.len() == i,
            forall|k: int, j: int|
                0 <= k < 64 && 0 <= j < 3 ==> (#[trigger] rc@[k][j])@ == round_constant_value(k, j),
            forall|k: int|
                0 <= k < i ==> bytes_values(#[trigger] rc_bytes@[k]@) == round_constant_values()[k],
        decreases 64 - i,
    {
        let row = encode_row(&rc[i]);
        proof {
            assert(values(rc@[i as int]@) =~= round_constant_values()[i as int]);
        }
        rc_bytes.push(row);
        i = i + 1;
    }
    let out = host_poseidon2_permutation(env, &input, "BN254", T, D, ROUNDS_F, ROUNDS_P, &mat, &rc_bytes);
    let r = [
        Uint256::from_be_bytes(&out[0]),
        Uint256::from_be_bytes(&out[1]),
        Uint256::from_be_bytes(&out[2]),
    ];
    proof {
        assert(rc_bytes@.map_values(|row: [[u8; 32]; 3]| bytes_values(row@)) =~= round_constant_values());
        assert(values(r@) =~= bytes_values(out@));
        assert(be_value(out@[0]@) < scalar_order());
        assert(be_value(out@[1]@) < scalar_order());
        assert(be_value(out@[2]@) < scalar_order());
    }
    r
}


/// Poseidon2 sponge over BN254 Fr (t = 3, rate = 2, capacity = 1); each
/// permutation is one host call.
pub struct Poseidon2Sponge {
    env: Env,
    state: [Uint256; 3],
    /// Next rate slot to write into during absorption.
    rate_idx: u32,
    /// Whether input (or, for a fresh sponge, the empty input) has come in
    /// since the last permutation.
    pending: bool,
}

impl Poseidon2Sponge {
    /// The values of the three state elements.
    pub closed spec fn state_values(&self) -> Seq<nat> {
        values(self.state@)
    }

    /// The next rate slot that absorption writes into.
    pub closed spec fn rate_index(&self) -> nat {
        self.rate_idx as nat
    }

    /// Whether input waits for the permutation that squeezing applies.
    pub closed spec fn has_pending(&self) -> bool {
        self.pending
    }

    /// The host environment the sponge permutes in.
    pub closed spec fn env_handle(&self) -> Env {
        self.env
    }

    /// The sponge can go on absorbing.
    pub open spec fn wf(&self) -> bool {
        state_ok(self.state_values(), self.rate_index(), self.has_pending())
    }

    /// A sponge with zeroed state (capacity-zero initialisation) in `env`.
    pub fn new(env: &Env) -> (s: Poseidon2Sponge)
        ensures
            s.state_values() == initial_state(),
            s.rate_index() == 0,
            s.has_pending(),
            s.env_handle() == *env,
            s.wf(),
    {
        let z = Uint256::zero();
        let s = Poseidon2Sponge { env: clone_env(env), state: [z, z, z], rate_idx: 0, pending: true };
        assert(values(s.state@) =~= initial_state());
        s
    }

    /// Absorbs a slice of field elements: each is added modulo r into the
    /// next rate slot, and the state is permuted whenever the rate is full.
    pub fn absorb(&mut self, inputs: &[Uint256])
        requires
            old(self).wf(),
            forall|i: int| 0 <= i < inputs@.len() ==> absorbable((#[trigger] inputs@[i])@),
        ensures
            final(self).wf(),
            final(self).env_handle() == old(self).env_handle(),
            (final(self).state_values(), final(self).rate_index(), final(self).has_pending())
                == absorb_value(
                old(self).state_values(),
                old(self).rate_index(),
                old(self).has_pending(),
                values(inputs@),
            ),
            all_canonical(values(inputs@)) ==> (
                final(self).state_values(),
                final(self).rate_index(),
                final(self).has_pending(),
            ) == absorb_with(
                mod_add(),
                old(self).state_values(),
                old(self).rate_index(),
                old(self).has_pending(),
                values(inputs@),
            ),
    {
        let ghost all = values(inputs@);
        let ghost small = all_canonical(all);
        let ghost goal = absorb_value(self.state_values(), self.rate_index(), self.has_pending(), all);
        let ghost goal_mod = absorb_with(
            mod_add(),
            self.state_values(),
            self.rate_index(),
            self.has_pending(),
            all,
        );
        let ghost env0 = self.env_handle();
        let mut i: usize = 0;
        proof {
            assert(all.skip(0) =~= all);
        }
        while i < inputs.len()
            invariant
                i <= inputs@.len(),
                all == values(inputs@),
                small == all_canonical(all),
                forall|k: int| 0 <= k < inputs@.len() ==> absorbable((#[trigger] inputs@[k])@),
                self.wf(),
                self.env_handle() == env0,
                absorb_value(self.state_values(), self.rate_index(), self.has_pending(), all.skip(i as int))
                    == goal,
                small ==> absorb_with(
                    mod_add(),
                    self.state_values(),
                    self.rate_index(),
                    self.has_pending(),
                    all.skip(i as int),
                ) == goal_mod,
            decreases inputs@.len() - i,
        {
            let ghost (s0, idx0) = (self.state_values(), self.rate_index());
            let idx = self.rate_idx as usize;
            let cur = self.state[idx];
            let input = inputs[i];
            proof {
                assert(absorbable(inputs@[i as int]@));
            }
            let next = field_add(&cur, &input);
            self.state[idx] = next;
            self.rate_idx = self.rate_idx + 1;
            self.pending = true;
            proof {
                let rest = all.skip(i as int);
                assert(rest[0] == input@);
                assert(rest.drop_first() =~= all.skip(i + 1));
                assert(self.state_values() =~= s0.update(
                    idx0 as int,
                    (sponge_add())(s0[idx0 as int], rest[0]),
                ));
                if small {
                    assert(all[i as int] < scalar_order());
                    assert(self.state_values() =~= s0.update(
                        idx0 as int,
                        (mod_add())(s0[idx0 as int], rest[0]),
                    ));
                }
            }
            if self.rate_idx == RATE {
                self.permute();
                self.rate_idx = 0;
                self.pending = false;
            }
            i = i + 1;
        }
        proof {
            assert(all.skip(inputs@.len() as int) =~= Seq::<nat>::empty());
        }
    }

    /// Squeezes one field element. When input is pending, pads it (adds 1
    /// into the next rate slot) and applies the permutation; otherwise the
    /// state is left as it is. Returns the first element of the state.
    pub fn squeeze(&mut self) -> (r: Uint256)
        requires
            old(self).wf(),
        ensures
            final(self).state_values() == squeeze_value(
                old(self).state_values(),
                old(self).rate_index(),
                old(self).has_pending(),
            ),
            squeeze_value(old(self).state_values(), old(self).rate_index(), old(self).has_pending())
                == squeeze_with(
                mod_add(),
                old(self).state_values(),
                old(self).rate_index(),
                old(self).has_pending(),
            ),
            final(self).rate_index() == 0,
            !final(self).has_pending(),
            final(self).env_handle() == old(self).env_handle(),
            final(self).wf(),
            r@ == final(self).state_values()[0],
    {
        let ghost (s0, idx0) = (self.state_values(), self.rate_index());
        if self.pending {
            let idx = self.rate_idx as usize;
            proof {
                assert(self.state_values()[idx0 as int] == self.state@[idx0 as int]@);
                assert(s0[idx0 as int] < scalar_order());
            }
            let padded = field_add(&self.state[idx], &Uint256::from_u128(1));
            self.state[idx] = padded;
            proof {
                assert(self.state_values() =~= s0.update(
                    idx0 as int,
                    (sponge_add())(s0[idx0 as int], 1),
                ));
                assert(self.state_values() =~= s0.update(
                    idx0 as int,
                    (mod_add())(s0[idx0 as int], 1),
                ));
            }
            self.permute();
        }
        self.rate_idx = 0;
        self.pending = false;
        self.state[0]
    }

    fn permute(&mut self)
        ensures
            final(self).state_values() == permutation(old(self).state_values()),
            final(self).rate_idx == old(self).rate_idx,
            final(self).pending == old(self).pending,
            final(self).env_handle() == old(self).env_handle(),
            forall|k: int| 0 <= k < 3 ==> (#[trigger] final(self).state_values()[k]) < scalar_order(),
    {
        self.state = permute_state(&self.env, &self.state);
    }
}

/// Hashes a slice of BN254 Fr field elements to one field element: a fresh
/// sponge absorbs them all and is squeezed once.
pub fn hash_to_field(env: &Env, inputs: &[Uint256]) -> (r: Uint256)
    requires
        forall|i: int| 0 <= i < inputs@.len() ==> absorbable((#[trigger] inputs@[i])@),
    ensures
        r@ == hash_value(values(inputs@)),
        all_canonical(values(inputs@)) ==> r@ == hash_with(mod_add(), values(inputs@)),
{
    let mut sponge = Poseidon2Sponge::new(env);
    sponge.absorb(inputs);
    sponge.squeeze()
}

/// Absorbing `x` and then `y` leaves the sponge as absorbing `x + y` at once.
pub proof fn lemma_absorb_concat(
    plus: spec_fn(nat, nat) -> nat,
    state: Seq<nat>,
    rate_idx: nat,
    pending: bool,
    x: Seq<nat>,
    y: Seq<nat>,
)
    ensures
        ({
            let a = absorb_with(plus, state, rate_idx, pending, x);
            absorb_with(plus, a.0, a.1, a.2, y)
        }) == absorb_with(plus, state, rate_idx, pending, x + y),
    decreases x.len(),
{
    if x.len() == 0 {
        assert(x + y =~= y);
    } else {
        assert((x + y).drop_first() =~= x.drop_first() + y);
        assert((x + y)[0] == x[0]);
        let next = state.update(rate_idx as int, plus(state[rate_idx as int], x[0]));
        if rate_idx + 1 == RATE {
            lemma_absorb_concat(plus, permutation(next), 0, false, x.drop_first(), y);
        } else {
            lemma_absorb_concat(plus, next, rate_idx + 1, true, x.drop_first(), y);
        }
    }
}

/// After absorbing n inputs from rate index i, the rate index is (i + n) mod 2,
/// and input is pending exactly when the last block is partly filled (or,
/// for no input, when it was pending before).
pub proof fn lemma_absorb_rate_index(
    plus: spec_fn(nat, nat) -> nat,
    state: Seq<nat>,
    rate_idx: nat,
    pending: bool,
    inputs: Seq<nat>,
)
    requires
        rate_idx < RATE,
    ensures
        absorb_with(plus, state, rate_idx, pending, inputs).1 == (rate_idx + inputs.len()) % 2,
        absorb_with(plus, state, rate_idx, pending, inputs).2 == if inputs.len() == 0 {
            pending
        } else {
            absorb_with(plus, state, rate_idx, pending, inputs).1 != 0
        },
    decreases inputs.len(),
{
    if inputs.len() > 0 {
        let next = state.update(rate_idx as int, plus(state[rate_idx as int], inputs[0]));
        if rate_idx + 1 == RATE {
            lemma_absorb_rate_index(plus, permutation(next), 0, false, inputs.drop_first());
        } else {
            lemma_absorb_rate_index(plus, next, rate_idx + 1, true, inputs.drop_first());
        }
    }
}

/// Hashing is deterministic: equal inputs give equal digests.
pub proof fn lemma_hash_deterministic(a: Seq<nat>, b: Seq<nat>)
    requires
        a == b,
    ensures
        hash_value(a) == hash_value(b),
{
}

/// The digest of `x + y` is what a fresh sponge gives when it absorbs `x`,
/// then `y`, and is squeezed.
pub proof fn lemma_hash_streaming(x: Seq<nat>, y: Seq<nat>)
    ensures
        hash_value(x + y) == ({
            let a = absorb_value(initial_state(), 0, true, x);
            let b = absorb_value(a.0, a.1, a.2, y);
            squeeze_value(b.0, b.1, b.2)[0]
        }),
{
    lemma_absorb_concat(sponge_add(), initial_state(), 0, true, x, y);
}

/// Padding separates the empty input from [0]: their digests come from
/// permuting [1, 0, 0] and [0, 1, 0], two different states.
pub proof fn lemma_padding_separates_empty_and_zero()
    ensures
        hash_value(seq![]) == permutation(seq![1nat, 0nat, 0nat])[0],
        hash_value(seq![0nat]) == permutation(seq![0nat, 1nat, 0nat])[0],
        seq![1nat, 0nat, 0nat] != seq![0nat, 1nat, 0nat],
{
    let e = Seq::<nat>::empty();
    assert(initial_state().update(0, field_add_value(0, 1)) =~= seq![1nat, 0nat, 0nat]);
    let one = seq![0nat];
    assert(one.drop_first() =~= e);
    let after = initial_state().update(0, field_add_value(0, 0));
    assert(after =~= initial_state());
    assert((sponge_add())(initial_state()[0], one[0]) == field_add_value(0, 0));
    assert(absorb_with(sponge_add(), after, 1, true, e) == (after, 1nat, true));
    assert(absorb_value(initial_state(), 0, true, one) == (after, 1nat, true));
    assert(absorb_value(initial_state(), 0, true, e) == (initial_state(), 0nat, true));
    assert((sponge_add())(after[1], 1) == field_add_value(0, 1));
    assert((sponge_add())(initial_state()[0], 1) == field_add_value(0, 1));
    assert(after.update(1, field_add_value(0, 1)) =~= seq![0nat, 1nat, 0nat]);
    assert(seq![1nat, 0nat, 0nat][0] != seq![0nat, 1nat, 0nat][0]);
}

/// The permutation the sponge applies is the host's Poseidon2 permutation of
/// the state itself, with BN254, t = 3, d = 5, 8 full and 56 partial rounds,
/// the diagonal [1, 1, 2] and the round-constant table.
pub proof fn lemma_permutation_is_host(s: Seq<nat>)
    ensures
        permutation(s) == poseidon2_permutation_value(
            s,
            "BN254"@,
            3,
            5,
            8,
            56,
            seq![1nat, 1nat, 2nat],
            Seq::new(
                64,
                |i: int|
                    Seq::new(
                        3,
                        |j: int|
                            ROUND_CONSTANT_WORDS[i][2 * j] as nat * word_base()
                                + ROUND_CONSTANT_WORDS[i][2 * j + 1] as nat,
                    ),
            ),
        ),
{
    assert(mat_diag_values() =~= seq![1nat, 1nat, 2nat]);
    let rc = Seq::new(
        64,
        |i: int|
            Seq::new(
                3,
                |j: int|
                    ROUND_CONSTANT_WORDS[i][2 * j] as nat * word_base()
                        + ROUND_CONSTANT_WORDS[i][2 * j + 1] as nat,
            ),
    );
    assert forall|i: int| 0 <= i < 64 implies #[trigger] round_constant_values()[i] =~= rc[i] by {}
    assert(round_constant_values() =~= rc);
}

/// Every canonical input enters its rate slot by addition modulo r, and
/// completing the rate block (slot 1) always applies the permutation and
/// resets the rate index; an input in slot 0 leaves input pending.
pub proof fn lemma_absorb_one(s: Seq<nat>, i: nat, pending: bool, x: nat)
    requires
        s.len() == 3,
        i < RATE,
        s[i as int] < scalar_order(),
        x < scalar_order(),
    ensures
        absorb_value(s, i, pending, seq![x]) == absorb_with(mod_add(), s, i, pending, seq![x]),
        absorb_value(s, i, pending, seq![x]) == if i == 1 {
            (permutation(s.update(1, (s[1] + x) % scalar_order())), 0nat, false)
        } else {
            (s.update(0, (s[0] + x) % scalar_order()), 1nat, true)
        },
{
    let one = seq![x];
    assert(one.drop_first() =~= Seq::<nat>::empty());
    let r = scalar_order() as int;
    if s[i as int] + x >= scalar_order() {
        vstd::arithmetic::div_mod::lemma_fundamental_div_mod_converse(
            (s[i as int] + x) as int,
            r,
            1,
            s[i as int] + x - r,
        );
    } else {
        vstd::arithmetic::div_mod::lemma_small_mod((s[i as int] + x) as nat, scalar_order());
    }
    assert((sponge_add())(s[i as int], one[0]) == (mod_add())(s[i as int], one[0]));
    reveal_with_fuel(absorb_with, 2);
}

/// Squeezing with input pending adds the pad 1 into the next rate slot
/// (modulo r) and applies the permutation; with nothing pending the state
/// is left unchanged.
pub proof fn lemma_squeeze_pads(s: Seq<nat>, i: nat)
    requires
        s.len() == 3,
        i < RATE,
        s[i as int] < scalar_order(),
    ensures
        squeeze_value(s, i, true) == squeeze_with(mod_add(), s, i, true),
        squeeze_value(s, i, true) == permutation(s.update(i as int, (s[i as int] + 1) % scalar_order())),
        squeeze_value(s, i, false) == s,
{
    let r = scalar_order() as int;
    if s[i as int] + 1 >= scalar_order() {
        vstd::arithmetic::div_mod::lemma_fundamental_div_mod_converse((s[i as int] + 1) as int, r, 1, 0);
    } else {
        vstd::arithmetic::div_mod::lemma_small_mod((s[i as int] + 1) as nat, scalar_order());
    }
    assert((sponge_add())(s[i as int], 1) == (s[i as int] + 1) % scalar_order());
    assert((mod_add())(s[i as int], 1) == (s[i as int] + 1) % scalar_order());
}

/// The digest of the empty input is the first element of the permuted
/// padded state [1, 0, 0].
pub proof fn lemma_hash_empty()
    ensures
        hash_value(seq![]) == permutation(seq![1nat, 0nat, 0nat])[0],
        hash_with(mod_add(), seq![]) == permutation(seq![1nat, 0nat, 0nat])[0],
{
    lemma_padding_separates_empty_and_zero();
    lemma_squeeze_pads(initial_state(), 0);
    lemma_small_mod_one();
    assert(initial_state().update(0, (0nat + 1) % scalar_order()) =~= seq![1nat, 0nat, 0nat]);
}

proof fn lemma_small_mod_one()
    ensures
        (0nat + 1) % scalar_order() == 1,
        (0nat + 0) % scalar_order() == 0,
{
    vstd::arithmetic::div_mod::lemma_small_mod(1, scalar_order());
    vstd::arithmetic::div_mod::lemma_small_mod(0, scalar_order());
}

/// The digest of one field element x is the first element of the permuted
/// state [x, 1, 0]: x in slot 0, the pad 1 in slot 1.
pub proof fn lemma_hash_single(x: nat)
    requires
        x < scalar_order(),
    ensures
        hash_value(seq![x]) == permutation(seq![x, 1nat, 0nat])[0],
        hash_with(mod_add(), seq![x]) == permutation(seq![x, 1nat, 0nat])[0],
{
    lemma_absorb_one(initial_state(), 0, true, x);
    vstd::arithmetic::div_mod::lemma_small_mod(x, scalar_order());
    let s1 = initial_state().update(0, (0 + x) % scalar_order());
    assert(s1 =~= seq![x, 0nat, 0nat]);
    lemma_squeeze_pads(s1, 1);
    lemma_small_mod_one();
    assert(s1.update(1, (s1[1] + 1) % scalar_order()) =~= seq![x, 1nat, 0nat]);
}

/// The digest of two field elements a, b is the first element of the
/// permuted block [a, b, 0]; a full block needs no further permutation.
pub proof fn lemma_hash_pair(a: nat, b: nat)
    requires
        a < scalar_order(),
        b < scalar_order(),
    ensures
        hash_value(seq![a, b]) == permutation(seq![a, b, 0nat])[0],
        hash_with(mod_add(), seq![a, b]) == permutation(seq![a, b, 0nat])[0],
{
    let x = seq![a];
    let y = seq![b];
    assert(x + y =~= seq![a, b]);
    lemma_absorb_one(initial_state(), 0, true, a);
    vstd::arithmetic::div_mod::lemma_small_mod(a, scalar_order());
    vstd::arithmetic::div_mod::lemma_small_mod(b, scalar_order());
    let s1 = initial_state().update(0, (0 + a) % scalar_order());
    assert(s1 =~= seq![a, 0nat, 0nat]);
    lemma_absorb_one(s1, 1, true, b);
    assert(s1.update(1, (s1[1] + b) % scalar_order()) =~= seq![a, b, 0nat]);
    lemma_absorb_concat(sponge_add(), initial_state(), 0, true, x, y);
    lemma_absorb_concat(mod_add(), initial_state(), 0, true, x, y);
    let p = permutation(seq![a, b, 0nat]);
    assert(squeeze_value(p, 0, false) == p);
}

/// The digest of four field elements a, b, c, d (with the modular addition
/// that `hash_to_field` performs on field elements): the block [a, b, 0] is
/// permuted to s, then c is added into slot 0 and d into slot 1 modulo r
/// and the result is permuted; its first element is the digest.
pub proof fn lemma_hash_two_blocks(a: nat, b: nat, c: nat, d: nat)
    requires
        a < scalar_order(),
        b < scalar_order(),
        c < scalar_order(),
        d < scalar_order(),
    ensures
        hash_with(mod_add(), seq![a, b, c, d]) == ({
            let s = permutation(seq![a, b, 0nat]);
            let t = s.update(0, (s[0] + c) % scalar_order());
            permutation(t.update(1, (t[1] + d) % scalar_order()))[0]
        }),
{
    let r = scalar_order();
    let s = permutation(seq![a, b, 0nat]);
    let first = seq![a, b];
    let second = seq![c, d];
    assert(first + second =~= seq![a, b, c, d]);
    lemma_hash_pair(a, b);
    let ai = seq![a];
    let bi = seq![b];
    assert(ai + bi =~= first);
    lemma_absorb_concat(mod_add(), initial_state(), 0, true, ai, bi);
    lemma_absorb_concat(mod_add(), initial_state(), 0, true, first, second);
    vstd::arithmetic::div_mod::lemma_small_mod(a, r);
    vstd::arithmetic::div_mod::lemma_small_mod(b, r);
    let s1 = initial_state().update(0, (0 + a) % r);
    assert(s1 =~= seq![a, 0nat, 0nat]);
    assert(s1.update(1, (s1[1] + b) % r) =~= seq![a, b, 0nat]);
    reveal_with_fuel(absorb_with, 2);
    assert(absorb_with(mod_add(), initial_state(), 0, true, ai) == (s1, 1nat, true));
    assert(absorb_with(mod_add(), s1, 1, true, bi) == (s, 0nat, false));
    assert(absorb_with(mod_add(), initial_state(), 0, true, first) == (s, 0nat, false));
    let ci = seq![c];
    let di = seq![d];
    assert(ci + di =~= second);
    lemma_absorb_concat(mod_add(), s, 0, false, ci, di);
    let t1 = s.update(0, (s[0] + c) % r);
    assert(absorb_with(mod_add(), s, 0, false, ci) == (t1, 1nat, true));
    let t2 = t1.update(1, (t1[1] + d) % r);
    assert(absorb_with(mod_add(), t1, 1, true, di) == (permutation(t2), 0nat, false));
}

} // verus!
