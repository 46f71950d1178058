//! Arithmetic modulo the BN254 base-field prime and the G1 helpers built on it.
use crate::uint256::{
    lemma_words, mul_exact, rem, word_base, word_space, Uint256,
};
use vstd::arithmetic::div_mod::*;
use vstd::arithmetic::mul::*;
use vstd::arithmetic::power::*;
use vstd::arithmetic::power2::*;
use crate::primality::{is_prime, lemma_pratt_fermat};
use crate::prime_certificates_3::{lemma_prime_base_modulus, lemma_witness_base_modulus};
use vstd::prelude::*;

verus! {

/// The BN254 base-field prime q.
pub open spec fn base_modulus() -> nat {
    0x30644e72e131a029b85045b68181585d97816a916871ca8d3c208c16d87cfd47nat
}

/// The order r of the BN254 groups (the scalar-field prime).
pub open spec fn scalar_order() -> nat {
    0x30644e72e131a029b85045b68181585d2833e84879b9709143e1f593f0000001nat
}

/// What `Bn254::add` returns: a sum that wraps at 2^256, from which q is
/// subtracted (again wrapping) when the sum overflowed or reached q.
pub open spec fn add_value(a: nat, b: nat) -> nat {
    let q = base_modulus();
    let overflow = a + b >= word_space();
    let sum: nat = if overflow {
        (a + b - word_space()) as nat
    } else {
        a + b
    };
    if overflow || sum >= q {
        if sum >= q {
            (sum - q) as nat
        } else {
            (sum + word_space() - q) as nat
        }
    } else {
        sum
    }
}

/// What `Bn254::mul` returns.
pub open spec fn mul_value(a: nat, b: nat) -> nat {
    (a * b) % base_modulus()
}

/// What `Bn254::pow` returns.
pub open spec fn pow_value(base: nat, exp: nat) -> nat {
    (pow(base as int, exp) % (base_modulus() as int)) as nat
}

/// What `Bn254::invert` returns: 0 for 0, and a^(q-2) mod q otherwise.
pub open spec fn invert_value(a: nat) -> nat {
    if a == 0 {
        0
    } else {
        pow_value(a, (base_modulus() - 2) as nat)
    }
}

/// Whether (x, y) is an affine point of the curve y^2 = x^3 + 3 with
/// canonical coordinates, other than (0, 0).
pub open spec fn on_curve(x: nat, y: nat) -> bool {
    &&& !(x == 0 && y == 0)
    &&& x < base_modulus()
    &&& y < base_modulus()
    &&& (y * y) % base_modulus() == (x * x * x + 3) % base_modulus()
}

/// The BN254 curve and its base-field arithmetic.
pub struct Bn254;

/// A point in Jacobian projective coordinates.
#[derive(Clone, Copy, Debug, PartialEq, Eq, Structural)]
pub struct G1Projective {
    pub x: Uint256,
    pub y: Uint256,
    pub z: Uint256,
}

/// Two numbers with the same value have the same words.
pub proof fn lemma_value_injective(a: Uint256, b: Uint256)
    requires
        a@ == b@,
    ensures
        a == b,
{
    lemma_words(a);
    lemma_words(b);
}

proof fn lemma_modulus_facts()
    ensures
        2 < scalar_order() < base_modulus(),
        2 * base_modulus() < word_space(),
        base_modulus() < word_base() * word_base(),
        word_base() * word_base() == word_space(),
{
}

/// Sums of canonical residues reduce with one subtraction.
proof fn lemma_add_canonical(a: nat, b: nat)
    requires
        a < base_modulus(),
        b < base_modulus(),
    ensures
        add_value(a, b) == (a + b) % base_modulus(),
        add_value(a, b) < base_modulus(),
{
    let q = base_modulus();
    if a + b >= q {
        lemma_fundamental_div_mod_converse((a + b) as int, q as int, 1, (a + b - q) as int);
    } else {
        lemma_small_mod((a + b) as nat, q);
    }
}

/// Doubling a residue of s * 2^i gives the residue of s * 2^(i+1).
proof fn lemma_double_step(s: nat, i: nat, x: nat)
    requires
        x == (s * pow2(i)) % base_modulus(),
    ensures
        (x + x) % base_modulus() == (s * pow2(i + 1)) % base_modulus(),
{
    let q = base_modulus() as int;
    lemma_pow2_unfold(i + 1);
    lemma_mul_mod_noop_right(2, (s * pow2(i)) as int, q);
    assert(2 * (s * pow2(i)) == s * pow2(i + 1)) by (nonlinear_arith)
        requires
            pow2(i + 1) == 2 * pow2(i),
    ;
}

proof fn lemma_pow2_128_256()
    ensures
        pow2(128) == word_base(),
        pow2(256) == word_space(),
{
    lemma2_to64_rest();
    lemma_pow2_adds(64, 64);
    assert(pow2(128) == word_base());
    lemma_pow2_adds(128, 128);
    assert(pow2(256) == pow2(128) * pow2(128));
}

/// The product of two 128-bit numbers fits in 256 bits.
proof fn lemma_word_product(x: nat, y: nat)
    requires
        x < word_base(),
        y < word_base(),
    ensures
        x * y < word_space(),
{
    assert(x * y < 0x1_0000_0000_0000_0000_0000_0000_0000_0000nat * 0x1_0000_0000_0000_0000_0000_0000_0000_0000nat)
        by (nonlinear_arith)
        requires
            x < 0x1_0000_0000_0000_0000_0000_0000_0000_0000nat,
            y < 0x1_0000_0000_0000_0000_0000_0000_0000_0000nat,
    ;
}

/// The schoolbook decomposition of a product, reduced term by term.
proof fn lemma_mul_reduction(
    a: nat,
    b: nat,
    al: nat,
    ah: nat,
    bl: nat,
    bh: nat,
    t0: nat,
    t12: nat,
    t3: nat,
)
    requires
        a == ah * word_base() + al,
        b == bh * word_base() + bl,
        t0 == (al * bl) % base_modulus(),
        t12 == ((((al * bh) % base_modulus() + (ah * bl) % base_modulus()) % base_modulus())
            * word_base()) % base_modulus(),
        t3 == (((ah * bh) % base_modulus()) * word_space()) % base_modulus(),
    ensures
        ((t0 + t12) % base_modulus() + t3) % base_modulus() == (a * b) % base_modulus(),
{
    let q = base_modulus() as int;
    let w = word_base() as int;
    let p0 = (al * bl) as int;
    let p1 = (al * bh) as int;
    let p2 = (ah * bl) as int;
    let p3 = (ah * bh) as int;
    assert(a * b == p0 + (p1 + p2) * w + p3 * (w * w)) by (nonlinear_arith)
        requires
            a == ah * w + al,
            b == bh * w + bl,
            p0 == al * bl,
            p1 == al * bh,
            p2 == ah * bl,
            p3 == ah * bh,
    ;
    lemma_add_mod_noop(p1, p2, q);
    lemma_mul_mod_noop_left(p1 + p2, w, q);
    assert(t12 as int == ((p1 + p2) * w) % q);
    lemma_mul_mod_noop_left(p3, w * w, q);
    assert(t3 as int == (p3 * (w * w)) % q);
    lemma_add_mod_noop(p0, (p1 + p2) * w, q);
    lemma_mod_twice(p0, q);
    lemma_mod_twice((p1 + p2) * w, q);
    assert(((t0 + t12) as int) % q == (p0 + (p1 + p2) * w) % q);
    lemma_add_mod_noop(p0 + (p1 + p2) * w, p3 * (w * w), q);
    lemma_mod_twice(p0 + (p1 + p2) * w, q);
    lemma_mod_twice(p3 * (w * w), q);
}

/// One step of square-and-multiply keeps `res * base^exp` fixed modulo q.
proof fn lemma_pow_step(res: nat, b: nat, e: nat, res2: nat, b2: nat)
    requires
        e > 0,
        b2 == (b * b) % base_modulus(),
        res2 == if e % 2 == 1 {
            (res * b) % base_modulus()
        } else {
            res
        },
    ensures
        (res2 * pow(b2 as int, e / 2)) % (base_modulus() as int) == (res * pow(b as int, e)) % (
        base_modulus() as int),
{
    let q = base_modulus() as int;
    let h = e / 2;
    let bb = (b * b) as int;
    lemma_pow_multiplies(b as int, 2, h);
    assert(pow(b as int, 2) == bb) by {
        reveal_with_fuel(pow, 3);
    }
    lemma_pow_mod_noop(bb, h, q);
    let ph = pow(bb, h);
    let ph2 = pow(b2 as int, h);
    assert(ph2 % q == ph % q);
    if e % 2 == 1 {
        lemma_pow_adds(b as int, 2 * h, 1);
        lemma_pow1(b as int);
        assert(e == 2 * h + 1);
        assert(pow(b as int, e) == ph * b);
        lemma_mul_mod_noop_left((res * b) as int, ph2, q);
        lemma_mul_mod_noop_right((res * b) as int, ph2, q);
        lemma_mul_mod_noop_right((res * b) as int, ph, q);
        assert((res * b) * ph == res * (ph * b)) by (nonlinear_arith);
    } else {
        assert(e == 2 * h);
        assert(pow(b as int, e) == ph);
        lemma_mul_mod_noop_right(res as int, ph2, q);
        lemma_mul_mod_noop_right(res as int, ph, q);
    }
}

/// Modular addition commutes, on every input.
pub proof fn lemma_add_commutes(a: nat, b: nat)
    ensures
        add_value(a, b) == add_value(b, a),
{
}

/// 0 is the identity of modular addition on canonical residues.
pub proof fn lemma_add_zero(a: nat)
    requires
        a < base_modulus(),
    ensures
        add_value(a, 0) == a,
{
}

/// Modular addition of canonical residues is associative.
pub proof fn lemma_add_associative(a: nat, b: nat, c: nat)
    requires
        a < base_modulus(),
        b < base_modulus(),
        c < base_modulus(),
    ensures
        add_value(add_value(a, b), c) == add_value(a, add_value(b, c)),
{
    let q = base_modulus() as int;
    lemma_add_canonical(a, b);
    lemma_add_canonical(b, c);
    lemma_add_canonical(add_value(a, b), c);
    lemma_add_canonical(a, add_value(b, c));
    lemma_add_mod_noop((a + b) as int, c as int, q);
    lemma_add_mod_noop(a as int, (b + c) as int, q);
    lemma_mod_twice(c as int, q);
    lemma_mod_twice(a as int, q);
    lemma_small_mod(a, base_modulus());
    lemma_small_mod(c, base_modulus());
}

/// Modular multiplication commutes.
pub proof fn lemma_mul_commutes(a: nat, b: nat)
    ensures
        mul_value(a, b) == mul_value(b, a),
{
    lemma_mul_is_commutative(a as int, b as int);
}

/// Multiplying by 1 reduces modulo q.
pub proof fn lemma_mul_one(a: nat)
    ensures
        mul_value(a, 1) == a % base_modulus(),
{
}

/// Modular multiplication is associative.
pub proof fn lemma_mul_associative(a: nat, b: nat, c: nat)
    ensures
        mul_value(mul_value(a, b), c) == mul_value(a, mul_value(b, c)),
{
    let q = base_modulus() as int;
    lemma_mul_mod_noop_left((a * b) as int, c as int, q);
    lemma_mul_mod_noop_right(a as int, (b * c) as int, q);
    lemma_mul_is_associative(a as int, b as int, c as int);
}

/// Modular multiplication distributes over modular addition of canonical
/// residues.
pub proof fn lemma_mul_distributes(a: nat, b: nat, c: nat)
    requires
        b < base_modulus(),
        c < base_modulus(),
    ensures
        mul_value(a, add_value(b, c)) == add_value(mul_value(a, b), mul_value(a, c)),
{
    let q = base_modulus() as int;
    lemma_modulus_facts();
    lemma_add_canonical(b, c);
    lemma_mod_bound((a * b) as int, q);
    lemma_mod_bound((a * c) as int, q);
    lemma_add_canonical(mul_value(a, b), mul_value(a, c));
    lemma_mul_mod_noop_right(a as int, (b + c) as int, q);
    lemma_mul_is_distributive_add(a as int, b as int, c as int);
    lemma_add_mod_noop((a * b) as int, (a * c) as int, q);
}

/// A power with a sum of exponents is the modular product of the powers.
pub proof fn lemma_pow_adds_exponents(a: nat, m: nat, n: nat)
    ensures
        pow_value(a, m + n) == mul_value(pow_value(a, m), pow_value(a, n)),
{
    let q = base_modulus() as int;
    lemma_pow_positive_or_zero(a, m);
    lemma_pow_positive_or_zero(a, n);
    lemma_pow_adds(a as int, m, n);
    lemma_mul_mod_noop(pow(a as int, m), pow(a as int, n), q);
}

/// Any power is 1 at exponent 0.
pub proof fn lemma_pow_zero(a: nat)
    ensures
        pow_value(a, 0) == 1,
{
    lemma_pow0(a as int);
    lemma_small_mod(1, base_modulus());
}

proof fn lemma_pow_positive_or_zero(a: nat, e: nat)
    ensures
        pow(a as int, e) >= 0,
    decreases e,
{
    if e > 0 {
        lemma_pow_positive_or_zero(a, (e - 1) as nat);
        reveal(pow);
        lemma_mul_nonnegative(a as int, pow(a as int, (e - 1) as nat));
    } else {
        reveal(pow);
    }
}

/// The base-field modulus q is prime (by the Lucas–Pratt certificates).
pub proof fn lemma_base_modulus_is_prime()
    ensures
        is_prime(base_modulus()),
{
    lemma_prime_base_modulus();
}

/// Fermat's little theorem modulo q: a^(q-1) = 1 for every a not divisible by q.
pub proof fn lemma_fermat(a: nat)
    requires
        a % base_modulus() != 0,
    ensures
        pow(a as int, (base_modulus() - 1) as nat) % (base_modulus() as int) == 1,
{
    lemma_witness_base_modulus();
    lemma_pratt_fermat(
        base_modulus(),
        3,
        seq![2nat, 3nat, 3nat, 13nat, 29nat, 67nat, 229nat, 311nat, 983nat, 11003nat, 405928799nat, 11465965001nat, 13427688667394608761327070753331941386769nat],
        a,
    );
}

/// `invert(a)` is the multiplicative inverse of every `a` not divisible by q.
pub proof fn lemma_invert_is_inverse(a: nat)
    requires
        a % base_modulus() != 0,
    ensures
        mul_value(a, invert_value(a)) == 1,
{
    lemma_fermat(a);
    lemma_invert_inverse_given_fermat(a);
}

/// Inverting a nonzero canonical residue twice gives it back.
pub proof fn lemma_invert_involution(a: nat)
    requires
        0 < a < base_modulus(),
    ensures
        invert_value(invert_value(a)) == a,
{
    lemma_small_mod(a, base_modulus());
    lemma_fermat(a);
    lemma_invert_involution_given_fermat(a);
}

/// A residue with a^(q-1) = 1 is inverted by `invert`.
proof fn lemma_invert_inverse_given_fermat(a: nat)
    requires
        pow(a as int, (base_modulus() - 1) as nat) % (base_modulus() as int) == 1,
    ensures
        mul_value(a, invert_value(a)) == 1,
{
    let q = base_modulus() as int;
    let e = (base_modulus() - 2) as nat;
    if a == 0 {
        lemma0_pow((base_modulus() - 1) as nat);
    }
    lemma_pow_adds(a as int, 1, e);
    lemma_pow1(a as int);
    lemma_mul_mod_noop_right(a as int, pow(a as int, e), q);
    assert(1 + e == (base_modulus() - 1) as nat);
}

/// A canonical nonzero residue with a^(q-1) = 1 is inverted back by a
/// second inversion.
proof fn lemma_invert_involution_given_fermat(a: nat)
    requires
        0 < a < base_modulus(),
        pow(a as int, (base_modulus() - 1) as nat) % (base_modulus() as int) == 1,
    ensures
        invert_value(invert_value(a)) == a,
{
    let q = base_modulus() as int;
    let e = (base_modulus() - 2) as nat;
    let f = (base_modulus() - 1) as nat;
    let g = (base_modulus() - 3) as nat;
    lemma_invert_inverse_given_fermat(a);
    let b = invert_value(a);
    assert(b != 0) by {
        if b == 0 {
            lemma_mul_basics(a as int);
        }
    }
    let x = pow(a as int, e);
    lemma_pow_positive_or_zero(a, e);
    lemma_pow_mod_noop(x, e, q);
    lemma_pow_multiplies(a as int, e, e);
    let m = base_modulus() as int;
    assert(e * e == f * g + 1) by (nonlinear_arith)
        requires
            e == m - 2,
            f == m - 1,
            g == m - 3,
    ;
    lemma_pow_adds(a as int, f * g, 1);
    lemma_pow1(a as int);
    lemma_pow_multiplies(a as int, f, g);
    let y = pow(a as int, f);
    lemma_pow_mod_noop(y, g, q);
    lemma1_pow(g);
    lemma_small_mod(1, base_modulus());
    let z = pow(y, g);
    assert(z % q == 1);
    lemma_mul_mod_noop_left(z, a as int, q);
    lemma_small_mod(a, base_modulus());
}

impl Bn254 {
    /// The base-field prime q.
    pub fn base_modulus() -> (r: Uint256)
        ensures
            r@ == base_modulus(),
    {
        Uint256::from_words(0x30644e72e131a029b85045b68181585d, 0x97816a916871ca8d3c208c16d87cfd47)
    }

    /// The group order r.
    pub fn scalar_order() -> (r: Uint256)
        ensures
            r@ == scalar_order(),
    {
        Uint256::from_words(0x30644e72e131a029b85045b68181585d, 0x2833e84879b9709143e1f593f0000001)
    }

    /// Whether `val` is a canonical base-field element, i.e. below q.
    pub fn is_valid_scalar(val: Uint256) -> (r: bool)
        ensures
            r == (val@ < base_modulus()),
    {
        val.lt(&Self::base_modulus())
    }

    /// Addition modulo q of canonical residues.
    pub fn add(a: Uint256, b: Uint256) -> (r: Uint256)
        ensures
            r@ == add_value(a@, b@),
            a@ < base_modulus() && b@ < base_modulus() ==> r@ == (a@ + b@) % base_modulus(),
            a@ < base_modulus() && b@ < base_modulus() ==> r@ < base_modulus(),
    {
        let q = Self::base_modulus();
        let (sum, overflow) = a.overflowing_add(&b);
        proof {
            if a@ < base_modulus() && b@ < base_modulus() {
                lemma_add_canonical(a@, b@);
            }
        }
        if overflow || sum.ge(&q) {
            sum.wrapping_sub(&q)
        } else {
            sum
        }
    }

    /// Multiplication modulo q: `(a * b) % q`, by schoolbook multiplication
    /// of the 128-bit halves and modular doubling of the shifted parts.
    pub fn mul(a: Uint256, b: Uint256) -> (r: Uint256)
        ensures
            r@ == mul_value(a@, b@),
            r@ < base_modulus(),
    {
        let q = Self::base_modulus();
        if a.is_zero() || b.is_zero() {
            return Uint256::zero();
        }
        let a_low = a.low_half();
        let a_high = a.high_half();
        let b_low = b.low_half();
        let b_high = b.high_half();
        proof {
            lemma_modulus_facts();
            lemma_fundamental_div_mod(a@ as int, word_base() as int);
            lemma_fundamental_div_mod(b@ as int, word_base() as int);
            lemma_word_product(a_low@, b_low@);
            lemma_word_product(a_low@, b_high@);
            lemma_word_product(a_high@, b_low@);
            lemma_word_product(a_high@, b_high@);
        }
        let p0 = mul_exact(&a_low, &b_low);
        let p1 = mul_exact(&a_low, &b_high);
        let p2 = mul_exact(&a_high, &b_low);
        let p3 = mul_exact(&a_high, &b_high);

        let mut res = rem(&p0, &q);

        let mut p1_p2 = rem(&p1, &q);
        p1_p2 = Self::add(p1_p2, rem(&p2, &q));
        let ghost s12 = p1_p2@;
        proof {
            lemma2_to64();
            lemma_mod_bound(s12 as int, base_modulus() as int);
            lemma_mod_twice(s12 as int, base_modulus() as int);
            assert(s12 * 1 == s12);
        }
        for i in 0..128u32
            invariant
                p1_p2@ == (s12 * pow2(i as nat)) % base_modulus(),
                p1_p2@ < base_modulus(),
        {
            proof {
                lemma_double_step(s12, i as nat, p1_p2@);
            }
            p1_p2 = Self::add(p1_p2, p1_p2);
        }
        res = Self::add(res, p1_p2);

        let mut p3_red = rem(&p3, &q);
        let ghost s3 = p3_red@;
        proof {
            lemma_mod_twice(s3 as int, base_modulus() as int);
            assert(s3 * 1 == s3);
        }
        for i in 0..256u32
            invariant
                p3_red@ == (s3 * pow2(i as nat)) % base_modulus(),
                p3_red@ < base_modulus(),
        {
            proof {
                lemma_double_step(s3, i as nat, p3_red@);
            }
            p3_red = Self::add(p3_red, p3_red);
        }
        res = Self::add(res, p3_red);
        proof {
            lemma_pow2_128_256();
            lemma_mul_reduction(
                a@,
                b@,
                a_low@,
                a_high@,
                b_low@,
                b_high@,
                p0@ % base_modulus(),
                p1_p2@,
                p3_red@,
            );
        }
        res
    }

    /// Exponentiation modulo q by square-and-multiply: `base^exp % q`.
    pub fn pow(base: Uint256, exp: Uint256) -> (r: Uint256)
        ensures
            r@ == pow_value(base@, exp@),
            r@ < base_modulus(),
    {
        let mut res = Uint256::from_u128(1);
        let mut b = base;
        let mut e = exp;
        proof {
            lemma_modulus_facts();
            lemma_mul_basics(pow(base@ as int, exp@));
        }
        while !e.is_zero()
            invariant
                (res@ * pow(b@ as int, e@)) % (base_modulus() as int) == pow(base@ as int, exp@) % (
                base_modulus() as int),
                res@ < base_modulus(),
            decreases e@,
        {
            let ghost (r0, b0, e0) = (res@, b@, e@);
            if e.is_odd() {
                res = Self::mul(res, b);
            }
            b = Self::mul(b, b);
            e = e.half();
            proof {
                lemma_pow_step(r0, b0, e0, res@, b@);
            }
        }
        proof {
            lemma_pow0(b@ as int);
            lemma_small_mod(res@, base_modulus());
        }
        res
    }

    /// The inverse modulo q by Fermat's little theorem, `a^(q-2) % q`;
    /// 0 for 0.
    pub fn invert(a: Uint256) -> (r: Uint256)
        ensures
            r@ == invert_value(a@),
            r@ < base_modulus(),
            a@ % base_modulus() != 0 ==> mul_value(a@, r@) == 1,
    {
        proof {
            if a@ % base_modulus() != 0 {
                lemma_invert_is_inverse(a@);
            }
        }
        if a.is_zero() {
            return Uint256::zero();
        }
        let exponent = Self::base_modulus().wrapping_sub(&Uint256::from_u128(2));
        Self::pow(a, exponent)
    }

    /// Whether (x, y) is an affine point of y^2 = x^3 + 3 with canonical
    /// coordinates; (0, 0) is rejected.
    pub fn is_valid_g1(x: Uint256, y: Uint256) -> (r: bool)
        ensures
            r == on_curve(x@, y@),
    {
        if x.is_zero() && y.is_zero() {
            return false;
        }
        let q = Self::base_modulus();
        if x.ge(&q) || y.ge(&q) {
            return false;
        }
        let y_sq = Self::mul(y, y);
        let x_sq = Self::mul(x, x);
        let x_cb = Self::mul(x_sq, x);
        let three = Uint256::from_u128(3);
        let rhs = Self::add(x_cb, three);
        proof {
            let q = base_modulus() as int;
            lemma_modulus_facts();
            lemma_mul_mod_noop_left((x@ * x@) as int, x@ as int, q);
            lemma_add_mod_noop((x@ * x@ * x@) as int, 3, q);
            lemma_mod_twice((x@ * x@ * x@) as int, q);
            lemma_small_mod(3, base_modulus());
            if y_sq@ == rhs@ {
                lemma_value_injective(y_sq, rhs);
            }
        }
        y_sq == rhs
    }

    /// Scalar multiplication of a point. Only the scalars 0 and 1 are
    /// handled: any larger scalar reaches point doubling and addition, which
    /// have no implementation.
    pub fn g1_scalar_mul(point: G1Projective, scalar: Uint256) -> (r: G1Projective)
        requires
            scalar@ <= 1,
        ensures
            r == if scalar@ == 0 {
                G1Projective::identity_value()
            } else {
                point
            },
    {
        if scalar.is_zero() {
            return G1Projective::identity();
        }
        point
    }
}

impl G1Projective {
    /// The point at infinity, (1 : 1 : 0).
    pub open spec fn identity_value() -> G1Projective {
        G1Projective {
            x: Uint256 { hi: 0, lo: 1 },
            y: Uint256 { hi: 0, lo: 1 },
            z: Uint256 { hi: 0, lo: 0 },
        }
    }

    /// The point at infinity, (1 : 1 : 0).
    pub fn identity() -> (r: G1Projective)
        ensures
            r == G1Projective::identity_value(),
    {
        G1Projective {
            x: Uint256::from_u128(1),
            y: Uint256::from_u128(1),
            z: Uint256::from_u128(0),
        }
    }

    /// Selection without a data-dependent result path: `a` when `choice`
    /// holds, `b` otherwise.
    pub fn cf_select(choice: bool, a: G1Projective, b: G1Projective) -> (r: G1Projective)
        ensures
            r == if choice {
                a
            } else {
                b
            },
    {
        if choice {
            a
        } else {
            b
        }
    }
}

} // verus!
