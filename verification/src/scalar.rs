//! Q16.16 fixed-point scalars.
//!
//! A scalar is a `u32` holding `value * 65536`; colors, distances and areas
//! all use this representation.  Products and quotients are computed in
//! 64-bit intermediates and saturate at `u32::MAX`, and every operation has
//! an exact specification.

use vstd::prelude::*;

verus! {

/// One unit (1.0) in Q16.16 fixed point.
pub const SCALE: u32 = 65536;

/// An RGB color with Q16.16 channels.
#[derive(Clone, Copy, Debug, PartialEq, Eq, Structural)]
pub struct Color {
    pub r: u32,
    pub g: u32,
    pub b: u32,
}

impl Color {
    /// All channels zero.
    pub fn black() -> (c: Color)
        ensures
            c == (Color { r: 0u32, g: 0u32, b: 0u32 }),
    {
        Color { r: 0, g: 0, b: 0 }
    }

    /// Whether any channel is nonzero.
    pub open spec fn spec_is_lit(self) -> bool {
        self.r != 0 || self.g != 0 || self.b != 0
    }

    /// Whether any channel is nonzero.
    pub fn is_lit(&self) -> (b: bool)
        ensures
            b == self.spec_is_lit(),
    {
        self.r != 0 || self.g != 0 || self.b != 0
    }

    /// The channel-wise Q16.16 product of two colors.
    pub open spec fn spec_modulate(self, o: Color) -> Color {
        Color {
            r: spec_q_mul(self.r, o.r),
            g: spec_q_mul(self.g, o.g),
            b: spec_q_mul(self.b, o.b),
        }
    }

    /// Multiplies two colors channel by channel in Q16.16.
    pub fn modulate(&self, o: &Color) -> (c: Color)
        ensures
            c == self.spec_modulate(*o),
    {
        Color { r: q_mul(self.r, o.r), g: q_mul(self.g, o.g), b: q_mul(self.b, o.b) }
    }

    /// The color scaled by a Q16.16 scalar on every channel.
    pub open spec fn spec_scale(self, s: u32) -> Color {
        Color { r: spec_q_mul(self.r, s), g: spec_q_mul(self.g, s), b: spec_q_mul(self.b, s) }
    }

    /// Scales every channel by a Q16.16 scalar.
    pub fn scale(&self, s: u32) -> (c: Color)
        ensures
            c == self.spec_scale(s),
    {
        Color { r: q_mul(self.r, s), g: q_mul(self.g, s), b: q_mul(self.b, s) }
    }
}

/// The Q16.16 product `a * b`, saturating at `u32::MAX`.
pub open spec fn spec_q_mul(a: u32, b: u32) -> u32 {
    let p = (a * b) / (SCALE as int);
    if p > u32::MAX { u32::MAX as u32 } else { p as u32 }
}

/// The Q16.16 quotient `a / b`, saturating at `u32::MAX`; zero when `b` is zero.
pub open spec fn spec_q_div(a: u32, b: u32) -> u32 {
    if b == 0 {
        0u32
    } else {
        let q = (a * (SCALE as int)) / (b as int);
        if q > u32::MAX { u32::MAX as u32 } else { q as u32 }
    }
}

/// Fixed-point multiply: `r` is the Q16.16 product of `a` and `b`,
/// saturating at `u32::MAX`.
pub fn q_mul(a: u32, b: u32) -> (r: u32)
    ensures
        r == spec_q_mul(a, b),
{
    proof {
        assert((a as u64) * (b as u64) <= u64::MAX) by (nonlinear_arith)
            requires
                a as u64 <= 0xffff_ffffu64,
                b as u64 <= 0xffff_ffffu64,
        ;
    }
    let p: u64 = (a as u64) * (b as u64) / (SCALE as u64);
    if p > u32::MAX as u64 {
        u32::MAX
    } else {
        p as u32
    }
}

/// Fixed-point divide: `r` is the Q16.16 quotient of `a` by `b`,
/// saturating at `u32::MAX`; division by zero yields zero.
pub fn q_div(a: u32, b: u32) -> (r: u32)
    ensures
        r == spec_q_div(a, b),
{
    if b == 0 {
        0
    } else {
        proof {
            assert((a as u64) * (SCALE as u64) <= u64::MAX) by (nonlinear_arith)
                requires
                    a as u64 <= 0xffff_ffffu64,
            ;
        }
        let q: u64 = (a as u64) * (SCALE as u64) / (b as u64);
        if q > u32::MAX as u64 {
            u32::MAX
        } else {
            q as u32
        }
    }
}

/// Whether `r` is the integer square root of `n`.
pub open spec fn is_isqrt(n: int, r: int) -> bool {
    0 <= r && r * r <= n && n < (r + 1) * (r + 1)
}

/// The integer square root of a nonnegative `n`: the largest integer whose
/// square does not exceed `n`.
pub open spec fn spec_isqrt(n: int) -> int {
    choose|r: int| is_isqrt(n, r)
}

/// The integer square root is unique: any witness is the `spec_isqrt` value.
pub proof fn lemma_isqrt_unique(n: int, r: int)
    requires
        is_isqrt(n, r),
    ensures
        spec_isqrt(n) == r,
{
    assert(is_isqrt(n, spec_isqrt(n)));
    let s = spec_isqrt(n);
    assert(s == r) by (nonlinear_arith)
        requires
            0 <= s,
            s * s <= n,
            n < (s + 1) * (s + 1),
            0 <= r,
            r * r <= n,
            n < (r + 1) * (r + 1),
    ;
}

/// Every nonnegative integer has an integer square root, so `spec_isqrt`
/// denotes it and is itself nonnegative.
pub proof fn lemma_isqrt_exists(n: int)
    requires
        n >= 0,
    ensures
        is_isqrt(n, spec_isqrt(n)),
        spec_isqrt(n) >= 0,
    decreases n,
{
    if n == 0 {
        assert(is_isqrt(0, 0)) by (nonlinear_arith);
        assert(exists|r: int| is_isqrt(n, r));
    } else {
        lemma_isqrt_exists(n - 1);
        let r = spec_isqrt(n - 1);
        if n < (r + 1) * (r + 1) {
            assert(is_isqrt(n, r));
        } else {
            assert(is_isqrt(n, r + 1)) by (nonlinear_arith)
                requires
                    r >= 0,
                    n - 1 < (r + 1) * (r + 1) <= n,
            ;
        }
        assert(exists|w: int| is_isqrt(n, w));
    }
}

/// Integer square root: `r` is the largest integer whose square does not
/// exceed `n`.  Used to take vector magnitudes out of squared form.
pub fn isqrt_u128(n: u128) -> (r: u64)
    ensures
        r as int == spec_isqrt(n as int),
        (r as int) * (r as int) <= n as int,
        (n as int) < ((r as int) + 1) * ((r as int) + 1),
{
    let mut lo: u128 = 0;
    let mut hi: u128 = 0x1_0000_0000_0000_0000;
    proof {
        assert((hi as int) * (hi as int) > u128::MAX as int) by (nonlinear_arith)
            requires
                hi == 0x1_0000_0000_0000_0000u128,
        ;
    }
    while hi - lo > 1
        invariant
            lo < hi <= 0x1_0000_0000_0000_0000,
            (lo as int) * (lo as int) <= n as int,
            (n as int) < (hi as int) * (hi as int),
        decreases hi - lo,
    {
        let mid: u128 = lo + (hi - lo) / 2;
        proof {
            assert(mid * mid <= u128::MAX) by (nonlinear_arith)
                requires
                    mid < 0x1_0000_0000_0000_0000u128,
            ;
        }
        if mid * mid <= n {
            lo = mid;
        } else {
            hi = mid;
        }
    }
    proof {
        assert(hi == lo + 1);
        lemma_isqrt_unique(n as int, lo as int);
    }
    lo as u64
}

} // verus!
