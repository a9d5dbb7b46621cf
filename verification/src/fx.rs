//! The fixed-point scalar underlying all geometry and radiance values.
//!
//! A `Fx` holds a signed Q48.16 value: `raw` counts units of 1/65536.
//! Every operation is total: a result that would fall outside the scalar's
//! range saturates to the nearest bound, and degenerate inputs (a zero
//! divisor, a negative radicand) resolve to zero. The range is symmetric,
//! `[-i64::MAX, i64::MAX]` in raw units: `i64::MIN` is never produced, so
//! negation of any representable value is exact — which is what makes
//! sign-symmetry facts (a flipped normal, an anticommuted cross product)
//! hold without side conditions. Each operation's exact value is given by
//! a spec function over the raw integers, so callers can compute with
//! these numbers symbolically.

use vstd::prelude::*;

verus! {

/// Raw units per 1.0.
pub const FX_ONE_RAW: i64 = 65536;

/// A signed Q48.16 fixed-point number.
#[derive(Clone, Copy, Debug, PartialEq, Eq, Structural)]
pub struct Fx {
    pub raw: i64,
}

/// Saturation of a mathematical integer to the scalar's symmetric range.
pub open spec fn clip(v: int) -> int {
    if v > i64::MAX {
        i64::MAX as int
    } else if v < -(i64::MAX as int) {
        -(i64::MAX as int)
    } else {
        v
    }
}

/// Whether a raw value lies in the scalar's symmetric range. Every
/// operation's result does; only a literal `i64::MIN` smuggled into the
/// raw field falls outside, and its negation would not be exact.
pub open spec fn fx_wf(a: Fx) -> bool {
    a.raw > i64::MIN
}

/// Saturation commutes with negation: the range is symmetric.
pub proof fn lemma_clip_neg(v: int)
    ensures
        clip(-v) == -clip(v),
{
}

/// Absolute value of a mathematical integer.
pub open spec fn iabs(v: int) -> int {
    if v < 0 {
        -v
    } else {
        v
    }
}

/// Division truncated toward zero; zero when the divisor is zero.
pub open spec fn tdiv(a: int, b: int) -> int {
    if b == 0 {
        0
    } else if (a < 0) != (b < 0) {
        -(iabs(a) / iabs(b))
    } else {
        iabs(a) / iabs(b)
    }
}

/// The fixed-point number with raw value `clip(v)`.
pub open spec fn fxr(v: int) -> Fx {
    Fx { raw: clip(v) as i64 }
}

/// Fixed-point sum.
pub open spec fn fadd(a: Fx, b: Fx) -> Fx {
    fxr(a.raw + b.raw)
}

/// Fixed-point difference.
pub open spec fn fsub(a: Fx, b: Fx) -> Fx {
    fxr(a.raw - b.raw)
}

/// Fixed-point negation.
pub open spec fn fneg(a: Fx) -> Fx {
    fxr(-(a.raw as int))
}

/// Fixed-point product.
pub open spec fn fmul(a: Fx, b: Fx) -> Fx {
    fxr(tdiv((a.raw as int) * (b.raw as int), FX_ONE_RAW as int))
}

/// Fixed-point quotient; zero when the divisor is zero.
pub open spec fn fdiv(a: Fx, b: Fx) -> Fx {
    if b.raw == 0 {
        Fx { raw: 0 }
    } else {
        fxr(tdiv((a.raw as int) * (FX_ONE_RAW as int), b.raw as int))
    }
}

/// Fixed-point square root; zero on nonpositive input.
pub open spec fn fsqrt(a: Fx) -> Fx {
    fxr(sqrt_raw(a.raw as int))
}

/// The smaller of two fixed-point numbers.
pub open spec fn fmin(a: Fx, b: Fx) -> Fx {
    if a.raw <= b.raw {
        a
    } else {
        b
    }
}

/// The whole number `n` as a fixed-point value.
pub open spec fn fint(n: int) -> Fx {
    fxr(n * (FX_ONE_RAW as int))
}

impl Fx {
    /// The mathematical value scaled by 65536, as an integer.
    pub open spec fn v(self) -> int {
        self.raw as int
    }

    pub fn zero() -> (r: Fx)
        ensures
            r.raw == 0,
    {
        Fx { raw: 0 }
    }

    pub fn one() -> (r: Fx)
        ensures
            r.raw == FX_ONE_RAW,
    {
        Fx { raw: FX_ONE_RAW }
    }

    /// Builds the number `raw / 65536`, saturated to the scalar's
    /// symmetric range.
    pub fn from_raw(raw: i64) -> (r: Fx)
        ensures
            r.raw == clip(raw as int),
            fx_wf(r),
    {
        if raw == i64::MIN {
            Fx { raw: -i64::MAX }
        } else {
            Fx { raw }
        }
    }

    /// Builds the whole number `n`, saturating at the scalar's range.
    pub fn from_int(n: i64) -> (r: Fx)
        ensures
            r == fint(n as int),
    {
        let wide: i128 = (n as i128) * 65536i128;
        clip_exec(wide)
    }

    /// Builds the whole number `n`, saturating at the scalar's range.
    pub fn from_usize(n: usize) -> (r: Fx)
        ensures
            r == fint(n as int),
    {
        let wide: i128 = (n as i128) * 65536i128;
        clip_exec(wide)
    }

    /// The smaller of two fixed-point numbers.
    pub fn min(self, other: Fx) -> (r: Fx)
        ensures
            r == fmin(self, other),
    {
        if self.raw <= other.raw {
            self
        } else {
            other
        }
    }

    /// Saturating addition.
    pub fn add(self, other: Fx) -> (r: Fx)
        ensures
            r == fadd(self, other),
    {
        let wide: i128 = self.raw as i128 + other.raw as i128;
        clip_exec(wide)
    }

    /// Saturating subtraction.
    pub fn sub(self, other: Fx) -> (r: Fx)
        ensures
            r == fsub(self, other),
    {
        let wide: i128 = self.raw as i128 - other.raw as i128;
        clip_exec(wide)
    }

    /// Saturating negation.
    pub fn neg(self) -> (r: Fx)
        ensures
            r == fneg(self),
    {
        let wide: i128 = -(self.raw as i128);
        clip_exec(wide)
    }
}

/// Saturates a wide intermediate value back into the scalar.
fn clip_exec(wide: i128) -> (r: Fx)
    ensures
        r.raw == clip(wide as int),
{
    if wide > i64::MAX as i128 {
        Fx { raw: i64::MAX }
    } else if wide < -(i64::MAX as i128) {
        Fx { raw: -i64::MAX }
    } else {
        Fx { raw: wide as i64 }
    }
}

/// How a product's sign and magnitude follow from its factors'.
proof fn lemma_mul_parts(x: int, y: int)
    ensures
        iabs(x * y) == iabs(x) * iabs(y),
        (x == 0 || y == 0) ==> x * y == 0,
        (x > 0 && y > 0) ==> x * y > 0,
        (x < 0 && y < 0) ==> x * y > 0,
        (x < 0 && y > 0) ==> x * y < 0,
        (x > 0 && y < 0) ==> x * y < 0,
{
    if x == 0 || y == 0 {
        let a = iabs(x);
        let b = iabs(y);
        assert(x * y == 0 && a * b == 0) by (nonlinear_arith)
            requires
                x == 0 || y == 0,
                a == 0 || b == 0,
        ;
    } else if x > 0 && y > 0 {
        assert(x * y > 0) by (nonlinear_arith)
            requires
                x > 0 && y > 0,
        ;
    } else if x < 0 && y < 0 {
        assert(x * y > 0 && (-x) * (-y) == x * y) by (nonlinear_arith)
            requires
                x < 0 && y < 0,
        ;
    } else if x < 0 {
        assert(x * y < 0 && (-x) * y == -(x * y)) by (nonlinear_arith)
            requires
                x < 0 && y > 0,
        ;
    } else {
        assert(x * y < 0 && x * (-y) == -(x * y)) by (nonlinear_arith)
            requires
                x > 0 && y < 0,
        ;
    }
}

/// Extracts the magnitude of a raw value, widened so negation cannot overflow.
fn magnitude(a: i64) -> (m: u128)
    ensures
        m == iabs(a as int),
{
    if a < 0 {
        let wide: i128 = -(a as i128);
        wide as u128
    } else {
        a as u128
    }
}

/// Reapplies a sign to a magnitude and saturates to the scalar's range.
fn signed_clip(neg: bool, q: u128) -> (r: Fx)
    ensures
        r.raw == clip(if neg { -(q as int) } else { q as int }),
{
    if neg {
        if q > i64::MAX as u128 {
            Fx { raw: -i64::MAX }
        } else {
            Fx { raw: -(q as i64) }
        }
    } else {
        if q > i64::MAX as u128 {
            Fx { raw: i64::MAX }
        } else {
            Fx { raw: q as i64 }
        }
    }
}

impl Fx {
    /// Saturating multiplication: the raw result is the truncated
    /// `a * b / 65536`.
    pub fn mul(self, other: Fx) -> (r: Fx)
        ensures
            r == fmul(self, other),
    {
        let neg: bool = (self.raw < 0) != (other.raw < 0);
        let ma: u128 = magnitude(self.raw);
        let mb: u128 = magnitude(other.raw);
        proof {
            lemma_mul_parts(self.raw as int, other.raw as int);
            assert(ma * mb <= 0x8000000000000000u128 * 0x8000000000000000u128)
                by (nonlinear_arith)
                requires
                    ma <= 0x8000000000000000u128,
                    mb <= 0x8000000000000000u128,
            ;
        }
        let q: u128 = (ma * mb) / 65536u128;
        proof {
            let p = (self.raw as int) * (other.raw as int);
            assert(q == iabs(p) / (FX_ONE_RAW as int));
            if p == 0 {
                assert(tdiv(p, FX_ONE_RAW as int) == 0);
                assert(q == 0);
            }
        }
        signed_clip(neg, q)
    }

    /// Saturating division: the raw result is the truncated
    /// `a * 65536 / b`, and zero when the divisor is zero.
    pub fn div(self, other: Fx) -> (r: Fx)
        ensures
            r == fdiv(self, other),
    {
        if other.raw == 0 {
            return Fx { raw: 0 };
        }
        let neg: bool = (self.raw < 0) != (other.raw < 0);
        let ma: u128 = magnitude(self.raw);
        let mb: u128 = magnitude(other.raw);
        let q: u128 = (ma * 65536u128) / mb;
        proof {
            lemma_mul_parts(self.raw as int, FX_ONE_RAW as int);
            let p = (self.raw as int) * (FX_ONE_RAW as int);
            assert(q == iabs(p) / iabs(other.raw as int));
            if p == 0 {
                assert(tdiv(p, other.raw as int) == 0);
                assert(q == 0);
            }
        }
        signed_clip(neg, q)
    }
}

/// Negating a difference swaps its operands exactly: both sides saturate
/// within the symmetric range.
pub proof fn lemma_fneg_fsub(u: Fx, v: Fx)
    ensures
        fneg(fsub(u, v)) == fsub(v, u),
{
    lemma_clip_neg((u.raw as int) - (v.raw as int));
}

/// A product commutes.
pub proof fn lemma_fmul_comm(a: Fx, b: Fx)
    ensures
        fmul(a, b) == fmul(b, a),
{
    assert((a.raw as int) * (b.raw as int) == (b.raw as int) * (a.raw as int))
        by (nonlinear_arith);
}

/// Truncating division is odd in its dividend.
proof fn lemma_tdiv_neg(a: int, b: int)
    ensures
        tdiv(-a, b) == -tdiv(a, b),
{
}

/// Multiplying by a negated factor negates the product exactly, provided
/// the factor's negation is representable.
pub proof fn lemma_fneg_fmul(a: Fx, b: Fx)
    requires
        fx_wf(b),
    ensures
        fmul(a, fneg(b)) == fneg(fmul(a, b)),
{
    let p = (a.raw as int) * (b.raw as int);
    assert((a.raw as int) * (-(b.raw as int)) == -p) by (nonlinear_arith)
        requires
            p == (a.raw as int) * (b.raw as int),
    ;
    lemma_tdiv_neg(p, FX_ONE_RAW as int);
    lemma_clip_neg(tdiv(p, FX_ONE_RAW as int));
}

/// Negation distributes over a sum of representable negations.
pub proof fn lemma_fneg_fadd(x: Fx, y: Fx)
    requires
        fx_wf(x),
        fx_wf(y),
    ensures
        fadd(fneg(x), fneg(y)) == fneg(fadd(x, y)),
{
    lemma_clip_neg((x.raw as int) + (y.raw as int));
}

/// Integer square root, rounded down; zero on nonpositive input.
pub open spec fn sqrt_floor(n: int) -> int
    decreases n,
{
    if n <= 0 {
        0
    } else {
        let s = sqrt_floor(n - 1);
        if (s + 1) * (s + 1) <= n {
            s + 1
        } else {
            s
        }
    }
}

/// `sqrt_floor(n)` is the unique integer whose square brackets `n`.
pub proof fn lemma_sqrt_floor_bounds(n: int)
    requires
        n >= 0,
    ensures
        sqrt_floor(n) >= 0,
        sqrt_floor(n) * sqrt_floor(n) <= n,
        n < (sqrt_floor(n) + 1) * (sqrt_floor(n) + 1),
    decreases n,
{
    if n == 0 {
        assert(sqrt_floor(0) == 0);
    } else {
        lemma_sqrt_floor_bounds(n - 1);
        let s = sqrt_floor(n - 1);
        if (s + 1) * (s + 1) <= n {
            assert(n - 1 < (s + 1) * (s + 1));
            assert(n == (s + 1) * (s + 1));
            assert((s + 2) * (s + 2) > n) by (nonlinear_arith)
                requires
                    s >= 0,
                    n == (s + 1) * (s + 1),
            ;
        }
    }
}

/// Any integer whose square brackets `n` is `sqrt_floor(n)`.
pub proof fn lemma_sqrt_floor_unique(n: int, r: int)
    requires
        n >= 0,
        r >= 0,
        r * r <= n,
        n < (r + 1) * (r + 1),
    ensures
        r == sqrt_floor(n),
{
    lemma_sqrt_floor_bounds(n);
    let s = sqrt_floor(n);
    if r < s {
        assert((r + 1) * (r + 1) <= s * s) by (nonlinear_arith)
            requires
                0 <= r,
                r + 1 <= s,
        ;
    }
    if s < r {
        assert((s + 1) * (s + 1) <= r * r) by (nonlinear_arith)
            requires
                0 <= s,
                s + 1 <= r,
        ;
    }
}

/// Integer square root of a wide unsigned value, by bisection.
fn isqrt(n: u128) -> (r: u64)
    requires
        n < 0x40000000000000000000000000000000u128,
    ensures
        r as int == sqrt_floor(n as int),
{
    proof {
        assert(0x8000000000000000u64 as int * (0x8000000000000000u64 as int)
            == 0x40000000000000000000000000000000u128 as int) by (nonlinear_arith);
    }
    let mut lo: u64 = 0;
    let mut hi: u64 = 0x8000000000000000u64;
    while lo + 1 < hi
        invariant
            lo < hi,
            hi <= 0x8000000000000000u64,
            (lo as int) * (lo as int) <= n as int,
            (n as int) < (hi as int) * (hi as int),
        decreases hi - lo,
    {
        let mid: u64 = lo + (hi - lo) / 2;
        proof {
            assert((mid as u128) * (mid as u128)
                <= 0x8000000000000000u128 * 0x8000000000000000u128) by (nonlinear_arith)
                requires
                    mid <= 0x8000000000000000u64,
            ;
        }
        let sq: u128 = (mid as u128) * (mid as u128);
        if sq <= n {
            lo = mid;
        } else {
            hi = mid;
        }
    }
    proof {
        lemma_sqrt_floor_unique(n as int, lo as int);
    }
    lo
}

/// The raw value of the square root of a fixed-point number.
pub open spec fn sqrt_raw(a: int) -> int {
    if a <= 0 {
        0
    } else {
        sqrt_floor(a * (FX_ONE_RAW as int))
    }
}

impl Fx {
    /// Square root, rounded down to the scalar's resolution; zero on
    /// nonpositive input.
    pub fn sqrt(self) -> (r: Fx)
        ensures
            r == fsqrt(self),
            r.raw >= 0,
    {
        if self.raw <= 0 {
            return Fx { raw: 0 };
        }
        let n: u128 = (self.raw as u128) * 65536u128;
        let s: u64 = isqrt(n);
        proof {
            lemma_sqrt_floor_bounds(n as int);
            assert(s as int * (s as int) <= n as int);
            if s as int >= 0x10000000000u64 as int {
                assert(s as int * (s as int) >= 0x10000000000i64 as int * 0x10000000000i64 as int)
                    by (nonlinear_arith)
                    requires
                        s as int >= 0x10000000000i64 as int,
                ;
            }
        }
        Fx { raw: s as i64 }
    }
}

} // verus!
