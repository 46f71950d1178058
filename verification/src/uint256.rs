//! 256-bit unsigned integers held as two 128-bit words.
//!
//! The carry and borrow arithmetic, comparisons, shifts and byte conversions
//! are written here and proved against their mathematical meaning; the wide
//! multiplication and the remainder are delegated to `ethnum`.
use vstd::arithmetic::div_mod::*;
use vstd::arithmetic::mul::*;
use vstd::prelude::*;

verus! {

/// 2^128, the weight of the high word.
pub open spec fn word_base() -> nat {
    0x1_0000_0000_0000_0000_0000_0000_0000_0000nat
}

/// 2^256: one more than the largest value a `Uint256` can hold.
pub open spec fn word_space() -> nat {
    0x1_0000_0000_0000_0000_0000_0000_0000_0000_0000_0000_0000_0000_0000_0000_0000_0000nat
}

/// 256^n, the weight of the n-th byte counted from the right.
pub open spec fn byte_weight(n: nat) -> nat
    decreases n,
{
    if n == 0 {
        1
    } else {
        256 * byte_weight((n - 1) as nat)
    }
}

/// The number that a byte string denotes, most significant byte first.
pub open spec fn be_value(bytes: Seq<u8>) -> nat
    decreases bytes.len(),
{
    if bytes.len() == 0 {
        0
    } else {
        be_value(bytes.drop_last()) * 256 + bytes.last() as nat
    }
}

/// A 256-bit unsigned integer: `hi * 2^128 + lo`.
#[derive(Clone, Copy, Debug, PartialEq, Eq, Structural)]
pub struct Uint256 {
    pub hi: u128,
    pub lo: u128,
}

impl View for Uint256 {
    type V = nat;

    open spec fn view(&self) -> nat {
        self.hi as nat * word_base() + self.lo as nat
    }
}

/// The words of a value are its quotient and remainder by 2^128.
pub proof fn lemma_words(x: Uint256)
    ensures
        x@ / word_base() == x.hi,
        x@ % word_base() == x.lo,
{
    lemma_fundamental_div_mod_converse(x@ as int, word_base() as int, x.hi as int, x.lo as int);
}

pub proof fn lemma_byte_weight_monotone(i: nat, j: nat)
    requires
        i <= j,
    ensures
        1 <= byte_weight(i) <= byte_weight(j),
    decreases j,
{
    if j > 0 {
        if i < j {
            lemma_byte_weight_monotone(i, (j - 1) as nat);
        } else {
            lemma_byte_weight_monotone((j - 1) as nat, (j - 1) as nat);
        }
    }
}

pub proof fn lemma_byte_weight_16()
    ensures
        byte_weight(16) == word_base(),
{
    reveal_with_fuel(byte_weight, 17);
}

/// Concatenation of byte strings: the left part is shifted by the length of the right.
pub proof fn lemma_be_value_concat(a: Seq<u8>, b: Seq<u8>)
    ensures
        be_value(a + b) == be_value(a) * byte_weight(b.len()) + be_value(b),
    decreases b.len(),
{
    if b.len() == 0 {
        assert(a + b =~= a);
        assert(be_value(b) == 0);
        assert(byte_weight(0) == 1);
        assert(be_value(a) * 1 == be_value(a));
    } else {
        let b1 = b.drop_last();
        assert((a + b).drop_last() =~= a + b1);
        assert((a + b).last() == b.last());
        lemma_be_value_concat(a, b1);
        assert(be_value(a + b) == be_value(a + b1) * 256 + b.last());
        assert(be_value(b) == be_value(b1) * 256 + b.last());
        assert(byte_weight(b.len()) == 256 * byte_weight(b1.len()));
        let x = be_value(a);
        let w = byte_weight(b1.len());
        let y = be_value(b1);
        let l = b.last() as int;
        assert((x * w + y) * 256 + l == x * (256 * w) + (y * 256 + l)) by (nonlinear_arith);
        assert(be_value(a + b1) == x * w + y);
    }
}

/// Reads 16 big-endian bytes starting at `start` as one 128-bit word.
fn read_word(bytes: &[u8; 32], start: usize) -> (w: u128)
    requires
        start == 0 || start == 16,
    ensures
        w == be_value(bytes@.subrange(start as int, start + 16)),
{
    let mut w: u128 = 0;
    let mut i: usize = 0;
    while i < 16
        invariant
            start == 0 || start == 16,
            i <= 16,
            w == be_value(bytes@.subrange(start as int, start + i)),
            w < byte_weight(i as nat),
        decreases 16 - i,
    {
        proof {
            lemma_byte_weight_monotone((i + 1) as nat, 16);
            lemma_byte_weight_16();
            let s = bytes@.subrange(start as int, start + i + 1);
            assert(s.drop_last() =~= bytes@.subrange(start as int, start + i));
        }
        w = w * 256 + bytes[start + i] as u128;
        i = i + 1;
    }
    w
}

/// Writes `w` as 16 big-endian bytes at `start`, leaving the other bytes alone.
fn write_word(out: &mut [u8; 32], start: usize, w: u128)
    requires
        start == 0 || start == 16,
    ensures
        be_value(final(out)@.subrange(start as int, start + 16)) == w,
        forall|k: int|
            0 <= k < 32 && !(start <= k < start + 16) ==> final(out)@[k] == old(out)@[k],
{
    let mut x: u128 = w;
    let mut k: usize = 0;
    proof {
        lemma_byte_weight_16();
        assert(out@.subrange(start + 16, start + 16) =~= Seq::<u8>::empty());
        assert(be_value(Seq::<u8>::empty()) == 0);
        assert(byte_weight(0) == 1);
        assert(w * 1 == w);
    }
    while k < 16
        invariant
            start == 0 || start == 16,
            k <= 16,
            w == x * byte_weight(k as nat) + be_value(out@.subrange(start + 16 - k, start + 16)),
            x < byte_weight((16 - k) as nat),
            forall|j: int|
                0 <= j < 32 && !(start <= j < start + 16) ==> out@[j] == old(out)@[j],
        decreases 16 - k,
    {
        let ghost prev = out@;
        let b = (x % 256) as u8;
        let pos = start + 15 - k;
        out[pos] = b;
        proof {
            let tail = prev.subrange(start + 16 - k, start + 16);
            assert(out@.subrange(pos as int, start + 16) =~= seq![b] + tail);
            lemma_be_value_concat(seq![b], tail);
            assert(seq![b].drop_last() =~= Seq::<u8>::empty());
            assert(be_value(seq![b]) == b) by {
                reveal_with_fuel(be_value, 2);
            }
            let q = x / 256;
            let bw = byte_weight(k as nat);
            assert(x == q * 256 + b);
            assert(x * bw == q * (256 * bw) + b * bw) by (nonlinear_arith)
                requires
                    x == q * 256 + b,
            ;
            assert(byte_weight((16 - k) as nat) == 256 * byte_weight((16 - k - 1) as nat));
        }
        x = x / 256;
        k = k + 1;
    }
    proof {
        assert(byte_weight(0) == 1);
    }
}

impl Uint256 {
    /// The number 0.
    pub fn zero() -> (r: Uint256)
        ensures
            r@ == 0,
    {
        Uint256 { hi: 0, lo: 0 }
    }

    /// A 128-bit number widened to 256 bits.
    pub fn from_u128(v: u128) -> (r: Uint256)
        ensures
            r@ == v,
    {
        Uint256 { hi: 0, lo: v }
    }

    /// The number `hi * 2^128 + lo`.
    pub fn from_words(hi: u128, lo: u128) -> (r: Uint256)
        ensures
            r@ == hi * word_base() + lo,
            r.hi == hi,
            r.lo == lo,
    {
        Uint256 { hi, lo }
    }

    /// Reads 32 bytes, most significant first.
    pub fn from_be_bytes(bytes: &[u8; 32]) -> (r: Uint256)
        ensures
            r@ == be_value(bytes@),
    {
        let hi = read_word(bytes, 0);
        let lo = read_word(bytes, 16);
        proof {
            assert(bytes@ =~= bytes@.subrange(0, 16) + bytes@.subrange(16, 32));
            lemma_be_value_concat(bytes@.subrange(0, 16), bytes@.subrange(16, 32));
            lemma_byte_weight_16();
        }
        Uint256 { hi, lo }
    }

    /// Writes the number as 32 bytes, most significant first.
    pub fn to_be_bytes(&self) -> (r: [u8; 32])
        ensures
            be_value(r@) == self@,
    {
        let mut out = [0u8;32];
        write_word(&mut out, 16, self.lo);
        let ghost low = out@.subrange(16, 32);
        write_word(&mut out, 0, self.hi);
        proof {
            assert(out@.subrange(16, 32) =~= low);
            assert(out@ =~= out@.subrange(0, 16) + out@.subrange(16, 32));
            lemma_be_value_concat(out@.subrange(0, 16), out@.subrange(16, 32));
            lemma_byte_weight_16();
        }
        out
    }

    /// Whether the number is 0.
    pub fn is_zero(&self) -> (r: bool)
        ensures
            r == (self@ == 0),
    {
        self.hi == 0 && self.lo == 0
    }

    /// Whether `self < other`.
    pub fn lt(&self, other: &Uint256) -> (r: bool)
        ensures
            r == (self@ < other@),
    {
        self.hi < other.hi || (self.hi == other.hi && self.lo < other.lo)
    }

    /// Whether `self >= other`.
    pub fn ge(&self, other: &Uint256) -> (r: bool)
        ensures
            r == (self@ >= other@),
    {
        !self.lt(other)
    }

    /// The low 128 bits, as a 256-bit number: `self mod 2^128`.
    pub fn low_half(&self) -> (r: Uint256)
        ensures
            r@ == self@ % word_base(),
            r@ < word_base(),
    {
        proof {
            lemma_words(*self);
        }
        Uint256 { hi: 0, lo: self.lo }
    }

    /// The high 128 bits, shifted down: `self >> 128`.
    pub fn high_half(&self) -> (r: Uint256)
        ensures
            r@ == self@ / word_base(),
            r@ < word_base(),
    {
        proof {
            lemma_words(*self);
        }
        Uint256 { hi: 0, lo: self.hi }
    }

    /// Whether the number is odd.
    pub fn is_odd(&self) -> (r: bool)
        ensures
            r == (self@ % 2 == 1),
    {
        proof {
            let t = self.lo / 2;
            let u = self.lo % 2;
            assert(self@ == 2 * (self.hi * 0x8000_0000_0000_0000_0000_0000_0000_0000 + t) + u);
            lemma_fundamental_div_mod_converse(
                self@ as int,
                2,
                (self.hi * 0x8000_0000_0000_0000_0000_0000_0000_0000 + t) as int,
                u as int,
            );
        }
        self.lo % 2 == 1
    }

    /// The number halved, rounding down: `self >> 1`.
    pub fn half(&self) -> (r: Uint256)
        ensures
            r@ == self@ / 2,
    {
        let hi = self.hi / 2;
        let lo = self.lo / 2 + (self.hi % 2) * 0x8000_0000_0000_0000_0000_0000_0000_0000;
        proof {
            let q = self.hi / 2;
            let s = self.hi % 2;
            let t = self.lo / 2;
            let u = self.lo % 2;
            assert(self@ == 2 * (q * word_base() + s * 0x8000_0000_0000_0000_0000_0000_0000_0000
                + t) + u);
            lemma_fundamental_div_mod_converse(
                self@ as int,
                2,
                (q * word_base() + s * 0x8000_0000_0000_0000_0000_0000_0000_0000 + t) as int,
                u as int,
            );
        }
        Uint256 { hi, lo }
    }

    /// Addition that wraps at 2^256, with a flag that says whether it wrapped.
    pub fn overflowing_add(&self, other: &Uint256) -> (r: (Uint256, bool))
        ensures
            r.1 == (self@ + other@ >= word_space()),
            r.0@ == if r.1 {
                self@ + other@ - word_space()
            } else {
                self@ + other@ + 0int
            },
    {
        let (lo, carry) = if self.lo <= u128::MAX - other.lo {
            (self.lo + other.lo, 0u128)
        } else {
            (self.lo - (u128::MAX - other.lo) - 1, 1u128)
        };
        let (hi1, c1) = if self.hi <= u128::MAX - other.hi {
            (self.hi + other.hi, false)
        } else {
            (self.hi - (u128::MAX - other.hi) - 1, true)
        };
        let (hi, c2) = if hi1 <= u128::MAX - carry {
            (hi1 + carry, false)
        } else {
            (0u128, true)
        };
        (Uint256 { hi, lo }, c1 || c2)
    }

    /// Subtraction that wraps at 2^256.
    pub fn wrapping_sub(&self, other: &Uint256) -> (r: Uint256)
        ensures
            r@ == if self@ >= other@ {
                self@ - other@
            } else {
                self@ + word_space() - other@
            },
    {
        let (lo, borrow) = if self.lo >= other.lo {
            (self.lo - other.lo, 0u128)
        } else {
            (u128::MAX - (other.lo - self.lo) + 1, 1u128)
        };
        let hi = if self.hi >= other.hi {
            if self.hi - other.hi >= borrow {
                self.hi - other.hi - borrow
            } else {
                u128::MAX
            }
        } else {
            u128::MAX - (other.hi - self.hi) + 1 - borrow
        };
        Uint256 { hi, lo }
    }
}

/// Calls `ethnum::u256`'s `*` (`Mul`) on the two numbers, which go in and
/// come out through `u256::from_words` and `u256::into_words`.
/// Claimed: the result is the exact product. `*` panics on overflow in
/// debug builds and wraps otherwise; `requires` rules overflow out.
#[verifier::external_body]
pub(crate) fn mul_exact(a: &Uint256, b: &Uint256) -> (r: Uint256)
    requires
        a@ * b@ < word_space(),
    ensures
        r@ == a@ * b@,
{
    let x = ethnum::u256::from_words(a.hi, a.lo);
    let y = ethnum::u256::from_words(b.hi, b.lo);
    let (hi, lo) = (x * y).into_words();
    Uint256 { hi, lo }
}

/// Calls `ethnum::u256`'s `%` (`Rem`) on the two numbers, which go in and
/// come out through `u256::from_words` and `u256::into_words`.
/// Claimed: the result is the remainder of `a` divided by `m`. `%` panics
/// on a zero divisor; `requires` rules it out.
#[verifier::external_body]
pub(crate) fn rem(a: &Uint256, m: &Uint256) -> (r: Uint256)
    requires
        m@ != 0,
    ensures
        r@ == a@ % m@,
{
    let x = ethnum::u256::from_words(a.hi, a.lo);
    let y = ethnum::u256::from_words(m.hi, m.lo);
    let (hi, lo) = (x % y).into_words();
    Uint256 { hi, lo }
}

} // verus!
