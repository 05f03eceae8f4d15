//! Single-precision numbers as bit patterns.
use vstd::prelude::*;
use vstd::arithmetic::div_mod::lemma_div_denominator;
use vstd::arithmetic::power2::{
    lemma2_to64, lemma2_to64_rest, lemma_pow2_adds, lemma_pow2_pos, lemma_pow2_strictly_increases, pow2,
};

verus! {

/// A single-precision number: its IEEE 754 bit pattern, and the decimal rendering that messages
/// quote. Whoever reads a config supplies both from one parsed number.
#[derive(Clone, Debug)]
pub struct Single {
    pub bits: u32,
    pub text: String,
}

/// Bit pattern of one.
pub const ONE_BITS: u32 = 0x3f80_0000;

/// The biased exponent field.
pub open spec fn exponent(bits: u32) -> nat {
    ((bits as nat) / 0x80_0000) % 256
}

/// The fraction field.
pub open spec fn fraction(bits: u32) -> nat {
    (bits as nat) % 0x80_0000
}

/// The sign field is set.
pub open spec fn negative(bits: u32) -> bool {
    bits >= 0x8000_0000
}

/// Neither an infinity nor a NaN.
pub open spec fn finite(bits: u32) -> bool {
    exponent(bits) != 255
}

/// Strictly greater than zero, infinity counted, NaN not.
pub open spec fn positive(bits: u32) -> bool {
    0 < bits <= 0x7f80_0000
}

/// Significand of a finite number: its magnitude is `significand * 2^(scale - 149)`.
pub open spec fn significand(bits: u32) -> nat {
    if exponent(bits) == 0 { fraction(bits) } else { fraction(bits) + 0x80_0000 }
}

/// See [`significand`].
pub open spec fn scale(bits: u32) -> nat {
    if exponent(bits) == 0 { 0 } else { (exponent(bits) - 1) as nat }
}

/// How many low binary digits a number has beyond the 24 of a significand.
pub open spec fn excess(n: nat) -> nat
    decreases n,
{
    if n < 0x100_0000 { 0 } else { excess(n / 2) + 1 }
}

/// `n / 2^k`, rounded to nearest with ties to even.
pub open spec fn nearest(n: nat, k: nat) -> nat {
    let q = n / pow2(k);
    let r = n % pow2(k);
    if 2 * r > pow2(k) || (2 * r == pow2(k) && q % 2 == 1) { q + 1 } else { q }
}

/// Floor of `m * 2^(s - 149)`.
pub open spec fn whole_part(m: nat, s: nat) -> nat {
    if s >= 149 { m * pow2((s - 149) as nat) } else { m / pow2((149 - s) as nat) }
}

/// What `(factor * width as f32) as i32` comes to: the width is rounded to single precision, the
/// product is rounded to single precision, the fraction is cut off, a value past the end of `i32`
/// stops there, and a NaN gives zero.
pub open spec fn scaled_width(bits: u32, width: nat) -> int {
    let w = nearest(width, excess(width));
    if exponent(bits) == 255 {
        if fraction(bits) != 0 || w == 0 { 0 }
        else if negative(bits) { i32::MIN as int } else { i32::MAX as int }
    } else {
        let p = significand(bits) * w;
        let m = whole_part(nearest(p, excess(p)), scale(bits) + excess(width) + excess(p));
        if negative(bits) {
            if m > 0x8000_0000 { i32::MIN as int } else { -m }
        } else {
            if m > 0x7fff_ffff { i32::MAX as int } else { m as int }
        }
    }
}

proof fn lemma_pow2_small(k: nat)
    requires k < 64,
    ensures 1 <= pow2(k) <= 0x8000_0000_0000_0000,
{
    lemma2_to64();
    lemma2_to64_rest();
    lemma_pow2_pos(k);
    if k < 63 { lemma_pow2_strictly_increases(k, 63); }
}

/// Twenty-four digits are left once the excess is cut off.
proof fn lemma_excess_cut(n: nat)
    ensures n / pow2(excess(n)) < 0x100_0000,
    decreases n,
{
    lemma2_to64();
    if n >= 0x100_0000 {
        let e = excess(n / 2);
        lemma_excess_cut(n / 2);
        lemma_pow2_adds(1, e);
        lemma_pow2_pos(e);
        lemma_div_denominator(n as int, 2, pow2(e) as int);
    }
}

/// `2^k` for a shift that fits.
fn power(k: u32) -> (r: u64)
    requires k < 64,
    ensures r == pow2(k as nat), r >= 1,
{
    let mut r: u64 = 1;
    let mut i: u32 = 0;
    proof { lemma2_to64(); }
    while i < k
        invariant i <= k < 64, r == pow2(i as nat), r >= 1,
        decreases k - i,
    {
        proof {
            lemma_pow2_small((i + 1) as nat);
            lemma_pow2_adds(1, i as nat);
            lemma2_to64();
        }
        r = r * 2;
        i = i + 1;
    }
    r
}

/// Digits beyond 24, for a number of at most `top` digits.
fn excess_below(n: u64, top: u32) -> (r: u32)
    requires 24 <= top <= 64, n < pow2(top as nat),
    ensures r == excess(n as nat), r + 24 <= top,
    decreases top,
{
    if n < 0x100_0000 {
        0
    } else {
        proof {
            lemma2_to64();
            lemma_pow2_adds(1, (top - 1) as nat);
        }
        let h: u32 = excess_below(n / 2, top - 1);
        h + 1
    }
}

fn excess_of(n: u64) -> (r: u32)
    ensures r == excess(n as nat), r <= 40,
{
    proof { lemma2_to64(); }
    excess_below(n, 64)
}

/// A number cut to 24 digits and rounded.
fn rounded(n: u64, k: u32) -> (r: u64)
    requires k == excess(n as nat), k <= 40,
    ensures r == nearest(n as nat, k as nat), r <= 0x100_0000,
{
    let p: u64 = power(k);
    let q: u64 = n / p;
    let rest: u64 = n % p;
    proof {
        lemma_excess_cut(n as nat);
        lemma2_to64();
        lemma2_to64_rest();
        if k < 40 { lemma_pow2_strictly_increases(k as nat, 40); }
    }
    if 2 * rest > p || (2 * rest == p && q % 2 == 1) { q + 1 } else { q }
}

/// The whole part, or some number past the end of `i32` where it lies past that end.
fn whole_part_of(m: u64, s: u32) -> (r: u64)
    requires m <= 0x100_0000, s <= 400,
    ensures
        r == whole_part(m as nat, s as nat)
            || (r > 0x8000_0000 && whole_part(m as nat, s as nat) > 0x8000_0000),
{
    proof { lemma2_to64(); }
    if s >= 149 {
        let t: u32 = s - 149;
        if m == 0 {
            assert(0 * pow2(t as nat) == 0);
            0
        } else if t >= 32 {
            proof {
                if t > 32 { lemma_pow2_strictly_increases(32, t as nat); }
                let p = pow2(t as nat);
                assert(m * p >= p) by (nonlinear_arith) requires m >= 1, p >= 0;
            }
            0x1_0000_0000
        } else {
            let p: u64 = power(t);
            proof {
                lemma_pow2_strictly_increases(t as nat, 32);
                assert(m * p <= 0x100_0000 * 0x1_0000_0000) by (nonlinear_arith)
                    requires 0 <= m <= 0x100_0000, 0 <= p <= 0x1_0000_0000;
            }
            m * p
        }
    } else {
        let t: u32 = 149 - s;
        if t >= 64 {
            proof {
                if t > 64 { lemma_pow2_strictly_increases(64, t as nat); }
                let p = pow2(t as nat);
                vstd::arithmetic::div_mod::lemma_basic_div(m as int, p as int);
            }
            0
        } else {
            let p: u64 = power(t);
            m / p
        }
    }
}

/// The width that a factor makes of a head: `(factor * width as f32) as i32`.
pub fn scale_width(factor: &Single, width: usize) -> (r: i32)
    ensures r == scaled_width(factor.bits, width as nat),
{
    let bits: u32 = factor.bits;
    let exp: u32 = (bits / 0x80_0000) % 256;
    let frac: u32 = bits % 0x80_0000;
    let k1: u32 = excess_of(width as u64);
    let w: u64 = rounded(width as u64, k1);
    if exp == 255 {
        if frac != 0 || w == 0 {
            return 0;
        }
        return if bits >= 0x8000_0000 { i32::MIN } else { i32::MAX };
    }
    let m: u64 = if exp == 0 { frac as u64 } else { frac as u64 + 0x80_0000 };
    let e: u32 = if exp == 0 { 0 } else { exp - 1 };
    assert(m * w <= 0x100_0000 * 0x100_0000) by (nonlinear_arith)
        requires 0 <= m <= 0x100_0000, 0 <= w <= 0x100_0000;
    let p: u64 = m * w;
    let k2: u32 = excess_of(p);
    let n: u64 = rounded(p, k2);
    let v: u64 = whole_part_of(n, e + k1 + k2);
    if bits >= 0x8000_0000 {
        if v > 0x8000_0000 { i32::MIN } else { (-(v as i64)) as i32 }
    } else {
        if v > 0x7fff_ffff { i32::MAX } else { v as i32 }
    }
}

impl Single {
    /// The same number in the same writing.
    pub open spec fn is_copy_of(self, other: Single) -> bool {
        self.bits == other.bits && self.text@ == other.text@
    }

    /// The same number once more.
    pub fn copy(&self) -> (r: Single)
        ensures r.is_copy_of(*self),
    {
        Single { bits: self.bits, text: self.text.clone() }
    }

    /// Neither an infinity nor a NaN.
    pub fn is_finite(&self) -> (r: bool)
        ensures r == finite(self.bits),
    {
        (self.bits / 0x80_0000) % 256 != 255
    }

    /// Strictly greater than zero.
    pub fn is_positive(&self) -> (r: bool)
        ensures r == positive(self.bits),
    {
        0 < self.bits && self.bits <= 0x7f80_0000
    }

    /// Exactly one.
    pub fn is_one(&self) -> (r: bool)
        ensures r == (self.bits == ONE_BITS),
    {
        self.bits == ONE_BITS
    }
}

} // verus!
