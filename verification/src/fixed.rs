//! Saturating fixed-point scalars: an `i64` holds a real number scaled by
//! `SCALE`. Every operation clips its result into `[-FX_MAX, FX_MAX]`, so the
//! arithmetic is total and each executable operation is pinned to a spec-level
//! function over `int`.

use vstd::prelude::*;

verus! {

/// One whole unit: a scalar `v` denotes the real number `v / SCALE`.
pub const SCALE: i64 = 65536;

/// Largest representable magnitude (2^46 scaled units).
pub const FX_MAX: i64 = 0x4000_0000_0000;

/// Fixed-point constant 2.
pub const FX_TWO: i64 = 131072;

/// Fixed-point constant 1/2.
pub const FX_HALF: i64 = 32768;

/// A scalar is in range when its magnitude is at most `FX_MAX`.
pub open spec fn fx_ok(a: int) -> bool {
    -(FX_MAX as int) <= a <= FX_MAX as int
}

/// Saturate into the representable range.
pub open spec fn clip(x: int) -> int {
    if x > FX_MAX as int {
        FX_MAX as int
    } else if x < -(FX_MAX as int) {
        -(FX_MAX as int)
    } else {
        x
    }
}

pub open spec fn absi(x: int) -> int {
    if x < 0 {
        -x
    } else {
        x
    }
}

pub open spec fn fxadd(a: int, b: int) -> int {
    clip(a + b)
}

pub open spec fn fxsub(a: int, b: int) -> int {
    clip(a - b)
}

pub open spec fn fxneg(a: int) -> int {
    clip(-a)
}

/// Fixed-point product: exact integer product, scaled back down with the
/// quotient of magnitudes (truncation toward zero), then clipped.
pub open spec fn fxmul(a: int, b: int) -> int {
    let m = (absi(a) * absi(b)) / (SCALE as int);
    if (a < 0) != (b < 0) {
        clip(-m)
    } else {
        clip(m)
    }
}

/// Fixed-point quotient; division by zero is defined as zero.
pub open spec fn fxdiv(a: int, b: int) -> int {
    if b == 0 {
        0
    } else {
        let q = (absi(a) * (SCALE as int)) / absi(b);
        if (a < 0) != (b < 0) {
            clip(-q)
        } else {
            clip(q)
        }
    }
}

/// Integer square root, rounded down.
pub open spec fn sqrt_floor(n: int) -> int
    decreases n,
{
    if n <= 0 {
        0
    } else {
        let p = sqrt_floor(n - 1);
        if (p + 1) * (p + 1) <= n {
            p + 1
        } else {
            p
        }
    }
}

/// Fixed-point square root: non-positive inputs map to zero.
pub open spec fn fxsqrt(a: int) -> int {
    if a <= 0 {
        0
    } else {
        sqrt_floor(a * (SCALE as int))
    }
}

/// `sqrt_floor(n)` brackets `n` between consecutive squares.
pub proof fn lemma_sqrt_floor_bracket(n: int)
    requires
        n >= 0,
    ensures
        sqrt_floor(n) >= 0,
        sqrt_floor(n) * sqrt_floor(n) <= n,
        n < (sqrt_floor(n) + 1) * (sqrt_floor(n) + 1),
    decreases n,
{
    if n > 0 {
        lemma_sqrt_floor_bracket(n - 1);
        let p = sqrt_floor(n - 1);
        if (p + 1) * (p + 1) <= n {
            assert(n - 1 < (p + 1) * (p + 1));
            assert(n < (p + 2) * (p + 2)) by (nonlinear_arith)
                requires
                    p >= 0,
                    n <= (p + 1) * (p + 1),
            ;
        }
    }
}

/// The bracketing characterizes `sqrt_floor(n)` uniquely.
pub proof fn lemma_sqrt_floor_unique(n: int, r: int)
    requires
        n >= 0,
        r >= 0,
        r * r <= n,
        n < (r + 1) * (r + 1),
    ensures
        r == sqrt_floor(n),
{
    lemma_sqrt_floor_bracket(n);
    let s = sqrt_floor(n);
    if r < s {
        assert(false) by (nonlinear_arith)
            requires
                r >= 0,
                r + 1 <= s,
                s * s <= n,
                n < (r + 1) * (r + 1),
        ;
    }
    if s < r {
        assert(false) by (nonlinear_arith)
            requires
                s >= 0,
                s + 1 <= r,
                r * r <= n,
                n < (s + 1) * (s + 1),
        ;
    }
}

/// Multiplying by zero yields zero.
pub proof fn lemma_fxmul_zero(a: int)
    ensures
        fxmul(a, 0) == 0,
        fxmul(0, a) == 0,
{
    assert(absi(a) * 0 == 0) by (nonlinear_arith);
    assert(0 * absi(a) == 0) by (nonlinear_arith);
    assert(0int / (SCALE as int) == 0) by (nonlinear_arith);
}

/// Clipping is an odd function: the range is symmetric.
pub proof fn lemma_clip_odd(x: int)
    ensures
        clip(-x) == -clip(x),
{
}

/// Every clipped result is in range.
pub proof fn lemma_fxdiv_ok(a: int, b: int)
    ensures
        fx_ok(fxdiv(a, b)),
{
}

/// Negating one factor negates the product.
pub proof fn lemma_fxmul_neg_right(a: int, b: int)
    ensures
        fxmul(a, -b) == -fxmul(a, b),
{
    assert(absi(-b) == absi(b));
    if b == 0 {
        lemma_fxmul_zero(a);
    } else {
        let m = (absi(a) * absi(b)) / (SCALE as int);
        assert(m >= 0) by (nonlinear_arith)
            requires
                absi(a) >= 0,
                absi(b) >= 0,
                m == (absi(a) * absi(b)) / (SCALE as int),
        ;
        lemma_clip_odd(m);
    }
}

/// Adding zero to an in-range scalar is the identity.
pub proof fn lemma_fxadd_zero(a: int)
    requires
        fx_ok(a),
    ensures
        fxadd(a, 0) == a,
        fxadd(0, a) == a,
{
}

/// Clip a signed 128-bit intermediate down to a scalar.
fn clip128(x: i128) -> (r: i64)
    ensures
        r as int == clip(x as int),
{
    if x > FX_MAX as i128 {
        FX_MAX
    } else if x < -(FX_MAX as i128) {
        -FX_MAX
    } else {
        x as i64
    }
}

/// Clip a sign-and-magnitude intermediate down to a scalar.
fn clip_sm(neg: bool, m: u128) -> (r: i64)
    ensures
        r as int == clip(if neg { -(m as int) } else { m as int }),
{
    if m > FX_MAX as u128 {
        if neg {
            -FX_MAX
        } else {
            FX_MAX
        }
    } else if neg {
        -(m as i64)
    } else {
        m as i64
    }
}

/// Magnitude of a scalar, as an unsigned value.
fn abs_mag(a: i64) -> (m: u64)
    ensures
        m as int == absi(a as int),
{
    if a >= 0 {
        a as u64
    } else {
        (-(a as i128)) as u64
    }
}

pub fn fx_add(a: i64, b: i64) -> (r: i64)
    ensures
        r as int == fxadd(a as int, b as int),
{
    clip128(a as i128 + b as i128)
}

pub fn fx_sub(a: i64, b: i64) -> (r: i64)
    ensures
        r as int == fxsub(a as int, b as int),
{
    clip128(a as i128 - b as i128)
}

pub fn fx_neg(a: i64) -> (r: i64)
    ensures
        r as int == fxneg(a as int),
{
    clip128(-(a as i128))
}

pub fn fx_mul(a: i64, b: i64) -> (r: i64)
    ensures
        r as int == fxmul(a as int, b as int),
{
    let am: u64 = abs_mag(a);
    let bm: u64 = abs_mag(b);
    proof {
        assert((am as int) * (bm as int) < 0x100000000000000000000000000000000int)
            by (nonlinear_arith)
            requires
                am <= 0xffff_ffff_ffff_ffffu64,
                bm <= 0xffff_ffff_ffff_ffffu64,
        ;
    }
    let p: u128 = (am as u128) * (bm as u128);
    let q: u128 = p / (SCALE as u128);
    clip_sm((a < 0) != (b < 0), q)
}

pub fn fx_div(a: i64, b: i64) -> (r: i64)
    ensures
        r as int == fxdiv(a as int, b as int),
{
    if b == 0 {
        return 0;
    }
    let am: u64 = abs_mag(a);
    let bm: u64 = abs_mag(b);
    let n: u128 = (am as u128) * 65536u128;
    let q: u128 = n / (bm as u128);
    clip_sm((a < 0) != (b < 0), q)
}

pub fn fx_sqrt(a: i64) -> (r: i64)
    ensures
        r as int == fxsqrt(a as int),
{
    if a <= 0 {
        return 0;
    }
    let n: u128 = (a as u128) * 65536u128;
    let mut lo: u128 = 0;
    let mut hi: u128 = 0x100_0000_0000;
    proof {
        assert(n < 0x100_0000_0000u128 * 0x100_0000_0000u128);
    }
    while lo + 1 < hi
        invariant
            lo < hi,
            hi <= 0x100_0000_0000u128,
            (lo as int) * (lo as int) <= n as int,
            (n as int) < (hi as int) * (hi as int),
        decreases hi - lo,
    {
        let mid: u128 = lo + (hi - lo) / 2;
        proof {
            assert((mid as int) * (mid as int) <= 0x100_0000_0000int * 0x100_0000_0000int)
                by (nonlinear_arith)
                requires
                    mid <= 0x100_0000_0000u128,
            ;
        }
        if mid * mid <= n {
            lo = mid;
        } else {
            hi = mid;
        }
    }
    proof {
        lemma_sqrt_floor_unique(n as int, lo as int);
    }
    lo as i64
}

} // verus!
