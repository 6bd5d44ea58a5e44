//! Saturating fixed-point arithmetic.
//!
//! A quantity is stored as an `i64` holding the real value times
//! [`SCALE`], so one unit is a millionth.  Every operation rounds toward
//! zero and saturates at the `i64` range instead of overflowing, which
//! makes each operation a total function: the simulator never panics and
//! never wraps.  The `spec_*` functions below are the mathematical
//! definitions; each executable operation returns exactly its spec.

use vstd::prelude::*;

verus! {

/// Number of fixed-point units per whole unit.
pub const SCALE: i64 = 1_000_000;

/// Largest representable fixed-point value; arithmetic saturates here.
pub const FP_MAX: i64 = 0x7fff_ffff_ffff_ffff;

/// Smallest representable fixed-point value; arithmetic saturates here.
pub const FP_MIN: i64 = -FP_MAX - 1;

/// One half, in fixed-point units.
pub const HALF: i64 = 500_000;

/// Saturate an unbounded integer into the representable range.
pub open spec fn spec_clamp(x: int) -> int {
    if x > FP_MAX as int {
        FP_MAX as int
    } else if x < FP_MIN as int {
        FP_MIN as int
    } else {
        x
    }
}

/// Absolute value of an unbounded integer.
pub open spec fn spec_iabs(a: int) -> int {
    if a >= 0 {
        a
    } else {
        -a
    }
}

/// Division truncating toward zero, as machine division does.
pub open spec fn spec_tdiv(a: int, b: int) -> int
    recommends
        b != 0,
{
    if (a >= 0) == (b >= 0) {
        spec_iabs(a) / spec_iabs(b)
    } else {
        -(spec_iabs(a) / spec_iabs(b))
    }
}

/// Saturating fixed-point addition.
pub open spec fn spec_add(a: int, b: int) -> int {
    spec_clamp(a + b)
}

/// Saturating fixed-point subtraction.
pub open spec fn spec_sub(a: int, b: int) -> int {
    spec_clamp(a - b)
}

/// Saturating fixed-point multiplication, rounding toward zero.
pub open spec fn spec_mul(a: int, b: int) -> int {
    spec_clamp(spec_tdiv(a * b, SCALE as int))
}

/// Saturating fixed-point division, rounding toward zero.  A zero
/// divisor saturates in the direction of the dividend's sign, the way a
/// real-valued quotient grows without bound.
pub open spec fn spec_div(a: int, b: int) -> int {
    if b == 0 {
        if a >= 0 {
            FP_MAX as int
        } else {
            FP_MIN as int
        }
    } else {
        spec_clamp(spec_tdiv(a * SCALE, b))
    }
}

/// Saturating negation (the one unrepresentable case is `-FP_MIN`).
pub open spec fn spec_neg(a: int) -> int {
    spec_clamp(-a)
}

/// Saturating absolute value.
pub open spec fn spec_fabs(a: int) -> int {
    spec_clamp(spec_iabs(a))
}

/// Saturate a wide intermediate result into an `i64`.
pub(crate) fn clamp_i128(x: i128) -> (r: i64)
    ensures
        r as int == spec_clamp(x as int),
{
    if x > FP_MAX as i128 {
        FP_MAX
    } else if x < FP_MIN as i128 {
        FP_MIN
    } else {
        x as i64
    }
}

/// Wide division truncating toward zero, computed on magnitudes so that
/// the rounding direction does not depend on the signs.
pub(crate) fn tdiv_i128(a: i128, b: i128) -> (q: i128)
    requires
        b != 0,
        a != i128::MIN,
        b != i128::MIN,
    ensures
        q as int == spec_tdiv(a as int, b as int),
        spec_iabs(q as int) <= spec_iabs(a as int),
{
    let ma: u128 = if a >= 0 {
        a as u128
    } else {
        (-a) as u128
    };
    let mb: u128 = if b >= 0 {
        b as u128
    } else {
        (-b) as u128
    };
    let mq: u128 = ma / mb;
    proof {
        assert(mb >= 1);
        assert(mq <= ma) by (nonlinear_arith)
            requires
                mb >= 1,
                mq == ma / mb,
        ;
    }
    let q: i128 = if (a >= 0) == (b >= 0) {
        mq as i128
    } else {
        -(mq as i128)
    };
    q
}

/// Saturating fixed-point addition.
pub fn fp_add(a: i64, b: i64) -> (r: i64)
    ensures
        r as int == spec_add(a as int, b as int),
{
    let s: i128 = (a as i128) + (b as i128);
    clamp_i128(s)
}

/// Saturating fixed-point subtraction.
pub fn fp_sub(a: i64, b: i64) -> (r: i64)
    ensures
        r as int == spec_sub(a as int, b as int),
{
    let s: i128 = (a as i128) - (b as i128);
    clamp_i128(s)
}

/// Saturating fixed-point multiplication, rounding toward zero.
pub fn fp_mul(a: i64, b: i64) -> (r: i64)
    ensures
        r as int == spec_mul(a as int, b as int),
{
    proof {
        assert((a as int) * (b as int) <= 0x4000_0000_0000_0000_0000_0000_0000_0000int
            && (a as int) * (b as int) >= -0x4000_0000_0000_0000_0000_0000_0000_0000int)
            by (nonlinear_arith)
            requires
                -0x8000_0000_0000_0000int <= a as int <= 0x7fff_ffff_ffff_ffffint,
                -0x8000_0000_0000_0000int <= b as int <= 0x7fff_ffff_ffff_ffffint,
        ;
    }
    let p: i128 = (a as i128) * (b as i128);
    let q: i128 = tdiv_i128(p, SCALE as i128);
    clamp_i128(q)
}

/// Saturating fixed-point division, rounding toward zero.
pub fn fp_div(a: i64, b: i64) -> (r: i64)
    ensures
        r as int == spec_div(a as int, b as int),
{
    if b == 0 {
        if a >= 0 {
            FP_MAX
        } else {
            FP_MIN
        }
    } else {
        proof {
            assert((a as int) * (SCALE as int) <= 0x8000_0000_0000_0000int * 1_000_000
                && (a as int) * (SCALE as int) >= -0x8000_0000_0000_0000int * 1_000_000)
                by (nonlinear_arith)
                requires
                    -0x8000_0000_0000_0000int <= a as int <= 0x7fff_ffff_ffff_ffffint,
            ;
        }
        let p: i128 = (a as i128) * (SCALE as i128);
        let q: i128 = tdiv_i128(p, b as i128);
        clamp_i128(q)
    }
}

/// Saturating negation.
pub fn fp_neg(a: i64) -> (r: i64)
    ensures
        r as int == spec_neg(a as int),
{
    if a == FP_MIN {
        FP_MAX
    } else {
        -a
    }
}

/// Floor of the square root of a natural number.
pub open spec fn sqrt_floor(n: nat) -> nat
    decreases n,
{
    if n == 0 {
        0
    } else {
        let s = sqrt_floor((n - 1) as nat);
        if (s + 1) * (s + 1) <= n {
            s + 1
        } else {
            s
        }
    }
}

/// `sqrt_floor(n)` is the largest integer whose square is at most `n`.
pub proof fn lemma_sqrt_floor_bounds(n: nat)
    ensures
        sqrt_floor(n) * sqrt_floor(n) <= n,
        n < (sqrt_floor(n) + 1) * (sqrt_floor(n) + 1),
    decreases n,
{
    if n == 0 {
        assert(sqrt_floor(0) == 0);
        assert((sqrt_floor(n) + 1) * (sqrt_floor(n) + 1) == 1) by (nonlinear_arith)
            requires
                sqrt_floor(n) == 0,
        ;
    } else {
        let m = (n - 1) as nat;
        lemma_sqrt_floor_bounds(m);
        let s = sqrt_floor(m);
        if (s + 1) * (s + 1) <= n {
            assert(sqrt_floor(n) == s + 1);
            assert(n <= (s + 1) * (s + 1));
            assert((s + 2) * (s + 2) > (s + 1) * (s + 1)) by (nonlinear_arith);
            assert(n < (s + 2) * (s + 2));
        } else {
            assert(sqrt_floor(n) == s);
            assert(s * s <= n);
            assert(n < (s + 1) * (s + 1));
        }
    }
}

/// Any integer bracketing `n` between consecutive squares is `sqrt_floor(n)`.
pub proof fn lemma_sqrt_floor_unique(n: nat, r: nat)
    requires
        r * r <= n,
        n < (r + 1) * (r + 1),
    ensures
        r == sqrt_floor(n),
{
    lemma_sqrt_floor_bounds(n);
    let s = sqrt_floor(n);
    if r < s {
        assert((r + 1) * (r + 1) <= s * s) by (nonlinear_arith)
            requires
                r + 1 <= s,
        ;
    }
    if s < r {
        assert((s + 1) * (s + 1) <= r * r) by (nonlinear_arith)
            requires
                s + 1 <= r,
        ;
    }
}

/// Floor square root of a wide unsigned integer, by bisection.
pub(crate) fn isqrt_u128(n: u128) -> (r: u128)
    ensures
        r as nat == sqrt_floor(n as nat),
        r * r <= n,
{
    if n == 0 {
        proof {
            assert(sqrt_floor(0) == 0);
        }
        return 0;
    }
    let mut lo: u128 = 0;
    let mut hi: u128 = 0x1_0000_0000_0000_0000;
    proof {
        assert((n as int) < (hi as int) * (hi as int)) by (nonlinear_arith)
            requires
                hi as int == 0x1_0000_0000_0000_0000int,
                n as int <= 0xffff_ffff_ffff_ffff_ffff_ffff_ffff_ffffint,
        ;
    }
    while lo + 1 < hi
        invariant
            lo < hi,
            hi <= 0x1_0000_0000_0000_0000,
            (lo as int) * (lo as int) <= n as int,
            (n as int) < (hi as int) * (hi as int),
        decreases hi - lo,
    {
        let mid: u128 = lo + (hi - lo) / 2;
        proof {
            assert((mid as int) * (mid as int) <= 0xffff_ffff_ffff_ffff_ffff_ffff_ffff_ffffint)
                by (nonlinear_arith)
                requires
                    mid as int <= 0xffff_ffff_ffff_ffffint,
            ;
        }
        if mid * mid <= n {
            lo = mid;
        } else {
            hi = mid;
        }
    }
    proof {
        lemma_sqrt_floor_unique(n as nat, lo as nat);
    }
    lo
}

/// Fixed-point square root, rounding down (zero on a negative argument,
/// which the callers never supply).
pub open spec fn spec_sqrt(x: int) -> int {
    if x <= 0 {
        0
    } else {
        sqrt_floor((x * SCALE) as nat) as int
    }
}

/// Fixed-point square root, rounding down.
pub fn fp_sqrt(x: i64) -> (r: i64)
    ensures
        r as int == spec_sqrt(x as int),
        r >= 0,
{
    if x <= 0 {
        return 0;
    }
    proof {
        assert((x as int) * (SCALE as int) < 0x4_0000_0000_0000_0000_0000_0000int)
            by (nonlinear_arith)
            requires
                0 < x as int <= 0x7fff_ffff_ffff_ffffint,
        ;
    }
    let n: u128 = (x as u128) * (SCALE as u128);
    let r: u128 = isqrt_u128(n);
    proof {
        assert(r as int <= 0x7fff_ffff_ffff_ffffint) by (nonlinear_arith)
            requires
                (r as int) * (r as int) <= n as int,
                (n as int) < 0x4_0000_0000_0000_0000_0000_0000int,
                (r as int) >= 0,
        ;
    }
    r as i64
}

/// Multiplying two non-negative fixed-point values gives a non-negative value.
pub proof fn lemma_mul_nonneg(a: int, b: int)
    requires
        a >= 0,
        b >= 0,
    ensures
        spec_mul(a, b) >= 0,
{
    assert(a * b >= 0) by (nonlinear_arith)
        requires
            a >= 0,
            b >= 0,
    ;
}

/// Saturating absolute value.
pub fn fp_abs(a: i64) -> (r: i64)
    ensures
        r as int == spec_fabs(a as int),
{
    if a == FP_MIN {
        FP_MAX
    } else if a < 0 {
        -a
    } else {
        a
    }
}

} // verus!
