//! Elementary number theory for certifying primes: Bezout's identity,
//! Euclid's lemma, and Lucas–Pratt certificates, from which both primality
//! and Fermat's little theorem follow.
use vstd::arithmetic::div_mod::*;
use vstd::arithmetic::mul::*;
use vstd::arithmetic::power::*;
use vstd::prelude::*;
use vstd::relations::injective_on;
use vstd::set_lib::{lemma_int_range, lemma_map_size, lemma_subset_equality, set_int_range};

verus! {

/// `p` is prime: greater than 1, with no divisor strictly between 1 and `p`.
pub open spec fn is_prime(p: nat) -> bool {
    p > 1 && forall|d: nat| 1 < d < p ==> #[trigger] (p % d) != 0
}

/// The product of a sequence of numbers.
pub open spec fn product(s: Seq<nat>) -> nat
    decreases s.len(),
{
    if s.len() == 0 {
        1
    } else {
        s[0] * product(s.drop_first())
    }
}

/// The greatest common divisor, by Euclid's algorithm.
pub open spec fn gcd(a: nat, b: nat) -> nat
    decreases b,
{
    if b == 0 {
        a
    } else {
        proof {
            lemma_mod_bound(a as int, b as int);
        }
        gcd(b, a % b)
    }
}

/// `b^e mod m` by binary square-and-multiply.
pub open spec fn mod_pow(b: nat, e: nat, m: nat) -> nat
    decreases e,
{
    if e == 0 {
        1nat % m
    } else {
        let h = mod_pow(b, e / 2, m);
        if e % 2 == 0 {
            (h * h) % m
        } else {
            ((h * h) % m * b) % m
        }
    }
}

/// A Lucas–Pratt witness that `n` is prime: `g^(n-1) = 1` modulo `n`,
/// `g^((n-1)/f) != 1` for every factor `f` of `n - 1`, and `n - 1` is the
/// product of the given primes.
pub open spec fn pratt_witness(n: nat, g: nat, fs: Seq<nat>) -> bool {
    &&& n > 2
    &&& product(fs) == n - 1
    &&& mod_pow(g, (n - 1) as nat, n) == 1
    &&& forall|i: int|
        0 <= i < fs.len() ==> mod_pow(g, ((n - 1) as nat / fs[i]) as nat, n) != 1 && is_prime(
            #[trigger] fs[i],
        )
}

/// `mod_pow` computes `b^e mod m`.
pub proof fn lemma_mod_pow(b: nat, e: nat, m: nat)
    requires
        m > 0,
    ensures
        mod_pow(b, e, m) == pow(b as int, e) % (m as int),
    decreases e,
{
    let mi = m as int;
    if e == 0 {
        lemma_pow0(b as int);
    } else {
        let h = e / 2;
        lemma_mod_pow(b, h, m);
        let ph = pow(b as int, h);
        lemma_pow_adds(b as int, h, h);
        lemma_mul_mod_noop(ph, ph, mi);
        if e % 2 == 0 {
            assert(e == h + h);
        } else {
            assert(e == (h + h) + 1);
            lemma_pow_adds(b as int, h + h, 1);
            lemma_pow1(b as int);
            lemma_mul_mod_noop_left(ph * ph, b as int, mi);
            lemma_mul_mod_noop_left((ph * ph) % mi, b as int, mi);
            lemma_mod_twice(ph * ph, mi);
        }
    }
}

/// Bezout's identity: `gcd(a, b)` is an integer combination of `a` and `b`.
pub proof fn lemma_bezout(a: nat, b: nat) -> (xy: (int, int))
    ensures
        a * xy.0 + b * xy.1 == gcd(a, b),
    decreases b,
{
    if b == 0 {
        (1, 0)
    } else {
        lemma_mod_bound(a as int, b as int);
        let (x, y) = lemma_bezout(b, a % b);
        let q = (a / b) as int;
        let r = (a % b) as int;
        lemma_fundamental_div_mod(a as int, b as int);
        assert(a * y + b * (x - q * y) == b * x + r * y) by (nonlinear_arith)
            requires
                a == b * q + r,
        ;
        (y, x - q * y)
    }
}

/// The gcd of two numbers, not both 0, is positive and divides both.
pub proof fn lemma_gcd_divides(a: nat, b: nat)
    requires
        a > 0 || b > 0,
    ensures
        gcd(a, b) > 0,
        a % gcd(a, b) == 0,
        b % gcd(a, b) == 0,
    decreases b,
{
    if b == 0 {
        lemma_mod_self_0(a as int);
        lemma_small_mod(0, a);
    } else {
        lemma_mod_bound(a as int, b as int);
        lemma_gcd_divides(b, a % b);
        let g = gcd(b, a % b) as int;
        let q = (a / b) as int;
        let r = (a % b) as int;
        lemma_fundamental_div_mod(a as int, b as int);
        lemma_fundamental_div_mod(b as int, g);
        let k = (b as int) / g;
        assert(b * q == g * (k * q)) by (nonlinear_arith)
            requires
                b == g * k + 0,
        ;
        lemma_mod_multiples_vanish(k * q, r, g);
        assert(a == g * (k * q) + r);
    }
}

/// A positive divisor of a positive number is at most that number.
pub proof fn lemma_divisor_le(n: nat, d: nat)
    requires
        n > 0,
        d > 0,
        n % d == 0,
    ensures
        d <= n,
{
    lemma_fundamental_div_mod(n as int, d as int);
    let k = (n / d) as int;
    assert(n == d * k);
    if k <= 0 {
        lemma_mul_basics(d as int);
        assert(d * k == 0) by (nonlinear_arith)
            requires
                k <= 0,
                k >= 0,
        ;
    }
    lemma_mul_inequality(1, k, d as int);
    lemma_mul_is_commutative(d as int, k);
}

/// A number not divisible by a prime is coprime to it.
pub proof fn lemma_prime_coprime(p: nat, c: nat) -> (xy: (int, int))
    requires
        is_prime(p),
        c % p != 0,
    ensures
        p * xy.0 + c * xy.1 == 1,
{
    let xy = lemma_bezout(p, c);
    lemma_gcd_divides(p, c);
    let g = gcd(p, c);
    lemma_divisor_le(p, g);
    if 1 < g && g < p {
        assert(p % g != 0);
    }
    if g == p {
        assert(c % p == 0);
    }
    xy
}

/// If `u` and `v` are coprime and `v` divides `u * m`, then `v` divides `m`.
pub proof fn lemma_coprime_cancel(u: int, v: nat, m: int, x: int, y: int)
    requires
        v > 0,
        u * x + v * y == 1,
        (u * m) % (v as int) == 0,
    ensures
        m % (v as int) == 0,
{
    let vi = v as int;
    lemma_fundamental_div_mod(u * m, vi);
    let k = (u * m) / vi;
    assert(m == vi * (k * x + m * y)) by (nonlinear_arith)
        requires
            u * x + vi * y == 1,
            u * m == vi * k + 0,
    ;
    lemma_mod_multiples_basic(k * x + m * y, vi);
    lemma_mul_is_commutative(vi, k * x + m * y);
}

/// Euclid's lemma, in the form used for factorizations: a divisor greater
/// than 1 of a product of primes is divisible by one of them.
pub proof fn lemma_prime_factor_of_divisor(c: nat, fs: Seq<nat>) -> (i: int)
    requires
        c > 1,
        product(fs) % c == 0,
        forall|j: int| 0 <= j < fs.len() ==> is_prime(#[trigger] fs[j]),
    ensures
        0 <= i < fs.len(),
        c % fs[i] == 0,
    decreases fs.len(),
{
    if fs.len() == 0 {
        lemma_small_mod(1, c);
        assert(false);
        0
    } else if c % fs[0] == 0 {
        0
    } else {
        let rest = fs.drop_first();
        assert(is_prime(fs[0]));
        let (x, y) = lemma_prime_coprime(fs[0], c);
        lemma_coprime_cancel(fs[0] as int, c, product(rest) as int, x, y);
        assert forall|j: int| 0 <= j < rest.len() implies is_prime(#[trigger] rest[j]) by {
            assert(rest[j] == fs[j + 1]);
        }
        let i = lemma_prime_factor_of_divisor(c, rest);
        assert(rest[i] == fs[i + 1]);
        i + 1
    }
}

/// A power of an element of multiplicative order dividing `d` is 1.
pub proof fn lemma_pow_mod_one(g: nat, d: nat, k: nat, n: nat)
    requires
        n > 1,
        pow(g as int, d) % (n as int) == 1,
    ensures
        pow(g as int, d * k) % (n as int) == 1,
{
    lemma_pow_multiplies(g as int, d, k);
    lemma_pow_mod_noop(pow(g as int, d), k, n as int);
    lemma1_pow(k);
    lemma_small_mod(1, n);
}

proof fn lemma_witness_pow(n: nat, g: nat, fs: Seq<nat>)
    requires
        pratt_witness(n, g, fs),
    ensures
        pow(g as int, (n - 1) as nat) % (n as int) == 1,
        forall|i: int|
            0 <= i < fs.len() ==> pow(g as int, ((n - 1) as nat / #[trigger] fs[i]) as nat) % (
            n as int) != 1,
{
    lemma_mod_pow(g, (n - 1) as nat, n);
    assert forall|i: int| 0 <= i < fs.len() implies pow(
        g as int,
        ((n - 1) as nat / #[trigger] fs[i]) as nat,
    ) % (n as int) != 1 by {
        lemma_mod_pow(g, ((n - 1) as nat / fs[i]) as nat, n);
    }
}

/// Under a witness, no positive exponent below `n - 1` gives 1.
pub proof fn lemma_no_small_order(n: nat, g: nat, fs: Seq<nat>, d: nat)
    requires
        pratt_witness(n, g, fs),
        0 < d < n - 1,
    ensures
        pow(g as int, d) % (n as int) != 1,
    decreases d,
{
    let ni = n as int;
    let m = (n - 1) as nat;
    if pow(g as int, d) % ni == 1 {
        lemma_witness_pow(n, g, fs);
        let r = m % d;
        let k = m / d;
        lemma_fundamental_div_mod(m as int, d as int);
        lemma_mod_bound(m as int, d as int);
        lemma_mul_is_commutative(d as int, k as int);
        assert(m == d * k + r);
        lemma_pow_adds(g as int, d * k, r);
        lemma_pow_mod_one(g, d, k, n);
        let a = pow(g as int, d * k);
        let b = pow(g as int, r);
        lemma_mul_mod_noop_left(a, b, ni);
        lemma_mod_twice(b, ni);
        assert(b % ni == 1);
        if r > 0 {
            lemma_no_small_order(n, g, fs, r);
        } else {
            assert(m == d * k);
            assert(k > 1) by {
                if k <= 1 {
                    lemma_mul_inequality(k as int, 1, d as int);
                }
            }
            lemma_mod_multiples_basic(d as int, k as int);
            lemma_mul_is_commutative(d as int, k as int);
            let i = lemma_prime_factor_of_divisor(k, fs);
            let f = fs[i];
            assert(is_prime(f));
            lemma_fundamental_div_mod(k as int, f as int);
            let j = k / f;
            assert(m == f * (d * j)) by (nonlinear_arith)
                requires
                    m == d * k,
                    k == f * j + 0,
            ;
            lemma_div_multiples_vanish((d * j) as int, f as int);
            assert(m / f == d * j);
            lemma_pow_mod_one(g, d, j, n);
            assert(pow(g as int, (m / fs[i]) as nat) % ni != 1);
        }
    }
}

/// Under a witness, the powers `g^0, ..., g^(n-2)` are distinct modulo `n`.
pub proof fn lemma_powers_distinct(n: nat, g: nat, fs: Seq<nat>, i: nat, j: nat)
    requires
        pratt_witness(n, g, fs),
        i < j < n - 1,
    ensures
        pow(g as int, i) % (n as int) != pow(g as int, j) % (n as int),
{
    let ni = n as int;
    let m = (n - 1) as nat;
    if pow(g as int, i) % ni == pow(g as int, j) % ni {
        lemma_witness_pow(n, g, fs);
        let e = (m - 1) as nat;
        let gi = pow(g as int, i);
        let gj = pow(g as int, j);
        let gd = pow(g as int, (j - i) as nat);
        let w = pow(g as int, i * e);
        lemma_pow_adds(g as int, i, i * e);
        assert(i + i * e == m * i) by (nonlinear_arith)
            requires
                e + 1 == m,
        ;
        lemma_pow_mod_one(g, m, i, n);
        assert((gi * w) % ni == 1);
        lemma_pow_adds(g as int, i, (j - i) as nat);
        assert(gj == gi * gd);
        lemma_mul_mod_noop_left(gj, w, ni);
        lemma_mul_mod_noop_left(gi, w, ni);
        assert((gj * w) % ni == 1);
        assert(gj * w == gd * (gi * w)) by (nonlinear_arith)
            requires
                gj == gi * gd,
        ;
        lemma_mul_mod_noop_right(gd, gi * w, ni);
        lemma_no_small_order(n, g, fs, (j - i) as nat);
    }
}

/// Under a witness, no power of `g` is 0 modulo `n`.
pub proof fn lemma_powers_nonzero(n: nat, g: nat, fs: Seq<nat>, k: nat)
    requires
        pratt_witness(n, g, fs),
        k < n - 1,
    ensures
        pow(g as int, k) % (n as int) != 0,
{
    let ni = n as int;
    let m = (n - 1) as nat;
    lemma_witness_pow(n, g, fs);
    lemma_pow_adds(g as int, k, (m - k) as nat);
    lemma_mul_mod_noop_left(pow(g as int, k), pow(g as int, (m - k) as nat), ni);
}

/// Under a witness, every nonzero residue modulo `n` is a power of `g`.
pub proof fn lemma_powers_cover(n: nat, g: nat, fs: Seq<nat>, x: nat) -> (k: nat)
    requires
        pratt_witness(n, g, fs),
        0 < x < n,
    ensures
        k < n - 1,
        pow(g as int, k) % (n as int) == x,
{
    let ni = n as int;
    let f = |k: int| pow(g as int, k as nat) % ni;
    let dom = set_int_range(0, n - 1);
    let img = dom.map(f);
    lemma_int_range(0, n - 1);
    lemma_int_range(1, n as int);
    assert(injective_on(f, dom)) by {
        assert forall|a: int, b: int| dom.contains(a) && dom.contains(b) && #[trigger] f(a) == #[trigger] f(b) implies a == b by {
            if a < b {
                lemma_powers_distinct(n, g, fs, a as nat, b as nat);
            } else if b < a {
                lemma_powers_distinct(n, g, fs, b as nat, a as nat);
            }
        }
    }
    lemma_map_size(dom, img, f);
    assert(img.subset_of(set_int_range(1, n as int))) by {
        assert forall|y: int| img.contains(y) implies set_int_range(1, n as int).contains(y) by {
            let k = choose|k: int| dom.contains(k) && f(k) == y;
            lemma_powers_nonzero(n, g, fs, k as nat);
            lemma_mod_bound(pow(g as int, k as nat), ni);
        }
    }
    lemma_subset_equality(img, set_int_range(1, n as int));
    assert(set_int_range(1, n as int).contains(x as int));
    assert(img.contains(x as int));
    let k = choose|k: int| dom.contains(k) && f(k) == x;
    k as nat
}

/// Fermat's little theorem for a number with a witness.
pub proof fn lemma_pratt_fermat(n: nat, g: nat, fs: Seq<nat>, a: nat)
    requires
        pratt_witness(n, g, fs),
        a % n != 0,
    ensures
        pow(a as int, (n - 1) as nat) % (n as int) == 1,
{
    let ni = n as int;
    let m = (n - 1) as nat;
    lemma_mod_bound(a as int, ni);
    let k = lemma_powers_cover(n, g, fs, a % n);
    lemma_witness_pow(n, g, fs);
    let gk = pow(g as int, k);
    lemma_pow_mod_noop(a as int, m, ni);
    lemma_pow_mod_noop(gk, m, ni);
    assert(pow((a % n) as int, m) % ni == pow(gk % ni, m) % ni);
    lemma_pow_mod_one(g, m, k, n);
    lemma_pow_multiplies(g as int, k, m);
    lemma_mul_is_commutative(k as int, m as int);
    lemma_pow_multiplies(g as int, m, k);
}

/// A number with a witness is prime.
pub proof fn lemma_pratt_prime(n: nat, g: nat, fs: Seq<nat>)
    requires
        pratt_witness(n, g, fs),
    ensures
        is_prime(n),
{
    assert forall|d: nat| 1 < d < n implies #[trigger] (n % d) != 0 by {
        if n % d == 0 {
            lemma_small_mod(d, n);
            lemma_pratt_fermat(n, g, fs, d);
            let h = pow(d as int, (n - 2) as nat);
            lemma_pow_adds(d as int, 1, (n - 2) as nat);
            lemma_pow1(d as int);
            let p = (d as int) * h;
            assert(p % (n as int) == 1);
            lemma_fundamental_div_mod(p, n as int);
            let t = p / (n as int);
            lemma_fundamental_div_mod(n as int, d as int);
            let s = (n / d) as int;
            assert(p == d * (t * s) + 1) by (nonlinear_arith)
                requires
                    p == n * t + 1,
                    n == d * s + 0,
            ;
            lemma_mod_multiples_vanish(t * s, 1, d as int);
            lemma_small_mod(1, d);
            assert(p == d * h);
            lemma_mod_multiples_basic(h, d as int);
            lemma_mul_is_commutative(h, d as int);
        }
    }
}

} // verus!
