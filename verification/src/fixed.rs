//! Fixed-point scalar arithmetic: saturating products and quotients,
//! an integer square root, and a sine/cosine approximation, each with an
//! exact specification of the value it computes.

use vstd::prelude::*;

verus! {

/// Number of fixed-point steps in one unit: every length, angle and color
/// channel in this crate is an `i64` counted in billionths.
pub const SCALE: i64 = 1_000_000_000;

/// Half a turn (pi radians) in fixed-point angle units.
pub const PI_FIXED: i64 = 3_141_592_653;

/// A quarter turn in fixed-point angle units.
pub const HALF_PI_FIXED: i64 = 1_570_796_326;

/// A full turn in fixed-point angle units.
pub const TWO_PI_FIXED: i64 = 6_283_185_307;

/// The magnitude of an integer.
pub open spec fn spec_abs(x: int) -> int {
    if x < 0 {
        -x
    } else {
        x
    }
}

/// An unbounded integer clamped into the `i64` range.
pub open spec fn spec_sat64(x: int) -> int {
    if x > i64::MAX {
        i64::MAX as int
    } else if x < i64::MIN {
        i64::MIN as int
    } else {
        x
    }
}

/// Division truncating toward zero — the machine behaviour — for a
/// positive divisor.
pub open spec fn spec_tdiv(a: int, b: int) -> int {
    if a >= 0 {
        a / b
    } else {
        -((-a) / b)
    }
}

/// The fixed-point product: the exact product scaled back down,
/// truncated toward zero and saturated.
pub open spec fn spec_fp_mul(a: int, b: int) -> int {
    spec_sat64(spec_tdiv(a * b, SCALE as int))
}

/// The fixed-point quotient: `a` rescaled up and divided by `b`,
/// truncated toward zero and saturated.
pub open spec fn spec_fp_div(a: int, b: int) -> int {
    let q = (spec_abs(a) * SCALE) / spec_abs(b);
    if (a < 0) <==> (b < 0) {
        spec_sat64(q)
    } else {
        spec_sat64(-q)
    }
}

/// Saturate an `i128` into the `i64` range.
pub fn sat64(x: i128) -> (r: i64)
    ensures
        r as int == spec_sat64(x as int),
{
    if x > i64::MAX as i128 {
        i64::MAX
    } else if x < i64::MIN as i128 {
        i64::MIN
    } else {
        x as i64
    }
}

/// The magnitude of an `i64`, wide enough to hold `|i64::MIN|`.
pub fn abs_u128(x: i64) -> (r: u128)
    ensures
        r as int == spec_abs(x as int),
{
    if x >= 0 {
        x as u128
    } else {
        (-(x as i128)) as u128
    }
}

/// Truncating division on `i128`, for a positive divisor.
pub fn tdiv128(a: i128, b: i128) -> (q: i128)
    requires
        b > 0,
        a > i128::MIN,
    ensures
        q == spec_tdiv(a as int, b as int),
{
    if a >= 0 {
        let q: u128 = (a as u128) / (b as u128);
        q as i128
    } else {
        let q: u128 = ((-a) as u128) / (b as u128);
        proof {
            assert((q as int) * (b as int) <= (-a) as int) by (nonlinear_arith)
                requires
                    q as int == ((-a) as int) / (b as int),
                    b > 0,
                    (-a) as int >= 0,
            ;
        }
        -(q as i128)
    }
}

/// The fixed-point product of two `i64` values.
pub fn fp_mul(a: i64, b: i64) -> (r: i64)
    ensures
        r as int == spec_fp_mul(a as int, b as int),
{
    proof {
        assert((a as int) * (b as int) <= 0x8000000000000000 * 0x8000000000000000
            && (a as int) * (b as int) >= -(0x8000000000000000 * 0x8000000000000000))
            by (nonlinear_arith)
            requires
                -0x8000000000000000 <= a as int <= 0x7fffffffffffffff,
                -0x8000000000000000 <= b as int <= 0x7fffffffffffffff,
        ;
    }
    let p: i128 = (a as i128) * (b as i128);
    let q: i128 = tdiv128(p, SCALE as i128);
    sat64(q)
}

/// The fixed-point quotient of two `i64` values.
pub fn fp_div(a: i64, b: i64) -> (r: i64)
    requires
        b != 0,
    ensures
        r as int == spec_fp_div(a as int, b as int),
{
    let ua: u128 = abs_u128(a);
    let ub: u128 = abs_u128(b);
    proof {
        assert((ua as int) * (SCALE as int) < 0x80000000000000000000000000000000)
            by (nonlinear_arith)
            requires
                ua as int <= 0x8000000000000000,
        ;
    }
    let q: u128 = (ua * (SCALE as u128)) / ub;
    proof {
        assert(q as int <= (ua as int) * (SCALE as int)) by (nonlinear_arith)
            requires
                q as int == ((ua as int) * (SCALE as int)) / (ub as int),
                ub as int >= 1,
                ua as int >= 0,
        ;
    }
    let qi: i128 = q as i128;
    if (a < 0) != (b < 0) {
        sat64(-qi)
    } else {
        sat64(qi)
    }
}

/// A fixed-point product with zero on either side is zero.
pub proof fn lemma_fp_mul_zero(x: int)
    ensures
        spec_fp_mul(0, x) == 0,
        spec_fp_mul(x, 0) == 0,
{
    assert(0 * x == 0 && x * 0 == 0) by (nonlinear_arith);
}

/// Scaling up by one unit and dividing by one unit returns the value.
pub proof fn lemma_tdiv_scale_exact(x: int)
    ensures
        spec_tdiv(x * (SCALE as int), SCALE as int) == x,
{
    if x >= 0 {
        assert((x * (SCALE as int)) / (SCALE as int) == x) by (nonlinear_arith)
            requires
                x >= 0,
        ;
    } else {
        assert(-(x * (SCALE as int)) == (-x) * (SCALE as int)) by (nonlinear_arith);
        assert(((-x) * (SCALE as int)) / (SCALE as int) == -x) by (nonlinear_arith)
            requires
                -x >= 0,
        ;
    }
}

/// A fixed-point product of a unit-bounded factor with a nonnegative value
/// stays within that value either way.
pub proof fn lemma_fp_mul_unit_bounded(r: int, k: int)
    requires
        -(SCALE as int) <= r <= SCALE as int,
        0 <= k,
    ensures
        -k <= spec_fp_mul(r, k) <= k,
{
    let s = SCALE as int;
    if r >= 0 {
        assert(0 <= r * k <= s * k) by (nonlinear_arith)
            requires
                0 <= r <= s,
                0 <= k,
        ;
        assert((r * k) / s <= (s * k) / s) by (nonlinear_arith)
            requires
                0 <= r * k <= s * k,
                s > 0,
        ;
        assert((s * k) / s == k) by (nonlinear_arith)
            requires
                s > 0,
                k >= 0,
        ;
        assert((r * k) / s >= 0) by (nonlinear_arith)
            requires
                r * k >= 0,
                s > 0,
        ;
    } else {
        assert(0 <= (-r) * k <= s * k) by (nonlinear_arith)
            requires
                0 < -r <= s,
                0 <= k,
        ;
        assert(-(r * k) == (-r) * k) by (nonlinear_arith);
        assert(((-r) * k) / s <= (s * k) / s) by (nonlinear_arith)
            requires
                0 <= (-r) * k <= s * k,
                s > 0,
        ;
        assert((s * k) / s == k) by (nonlinear_arith)
            requires
                s > 0,
                k >= 0,
        ;
        assert(((-r) * k) / s >= 0) by (nonlinear_arith)
            requires
                (-r) * k >= 0,
                s > 0,
        ;
    }
}

/// Saturating sum of two `i64` values.
pub fn sat_add64(a: i64, b: i64) -> (r: i64)
    ensures
        r as int == spec_sat64(a as int + b as int),
{
    sat64(a as i128 + b as i128)
}

/// Saturating difference of two `i64` values.
pub fn sat_sub64(a: i64, b: i64) -> (r: i64)
    ensures
        r as int == spec_sat64(a as int - b as int),
{
    sat64(a as i128 - b as i128)
}

/// The integer square root: the greatest integer whose square does not
/// exceed the argument.
pub open spec fn spec_isqrt(n: int) -> int
    decreases n,
{
    if n <= 0 {
        0
    } else {
        let p = spec_isqrt(n - 1);
        if (p + 1) * (p + 1) <= n {
            p + 1
        } else {
            p
        }
    }
}

/// The integer square root is characterised by the two bounding squares.
pub proof fn lemma_isqrt_bounds(n: int)
    requires
        n >= 0,
    ensures
        0 <= spec_isqrt(n),
        spec_isqrt(n) * spec_isqrt(n) <= n,
        n < (spec_isqrt(n) + 1) * (spec_isqrt(n) + 1),
    decreases n,
{
    if n == 0 {
    } else {
        lemma_isqrt_bounds(n - 1);
        let p = spec_isqrt(n - 1);
        assert(p * p <= n - 1 < (p + 1) * (p + 1));
        if (p + 1) * (p + 1) <= n {
            assert(n - 1 < (p + 1) * (p + 1));
            assert(n < (p + 2) * (p + 2)) by (nonlinear_arith)
                requires
                    n <= (p + 1) * (p + 1),
                    p >= 0,
            ;
        }
    }
}

/// Any integer bracketed by the squares of `r` and `r + 1` is the square root.
pub proof fn lemma_isqrt_unique(n: int, r: int)
    requires
        n >= 0,
        r >= 0,
        r * r <= n,
        n < (r + 1) * (r + 1),
    ensures
        r == spec_isqrt(n),
{
    lemma_isqrt_bounds(n);
    let s = spec_isqrt(n);
    if r < s {
        assert((r + 1) * (r + 1) <= s * s) by (nonlinear_arith)
            requires
                0 <= r,
                r + 1 <= s,
        ;
    }
    if s < r {
        assert((s + 1) * (s + 1) <= r * r) by (nonlinear_arith)
            requires
                0 <= s,
                s + 1 <= r,
        ;
    }
}

/// The integer square root is monotone.
pub proof fn lemma_isqrt_monotone(n: int, m: int)
    requires
        0 <= n <= m,
    ensures
        spec_isqrt(n) <= spec_isqrt(m),
{
    lemma_isqrt_bounds(n);
    lemma_isqrt_bounds(m);
    if spec_isqrt(m) < spec_isqrt(n) {
        assert((spec_isqrt(m) + 1) * (spec_isqrt(m) + 1) <= spec_isqrt(n) * spec_isqrt(n))
            by (nonlinear_arith)
            requires
                0 <= spec_isqrt(m),
                spec_isqrt(m) + 1 <= spec_isqrt(n),
        ;
    }
}

/// The integer square root inverts a perfect square exactly.
pub proof fn lemma_isqrt_square(v: int)
    requires
        v >= 0,
    ensures
        spec_isqrt(v * v) == v,
{
    assert(v * v >= 0 && v * v < (v + 1) * (v + 1)) by (nonlinear_arith)
        requires
            v >= 0,
    ;
    lemma_isqrt_unique(v * v, v);
}

/// Integer square root of a `u128`, by bisection.
pub fn isqrt_u128(n: u128) -> (r: u128)
    ensures
        r as int == spec_isqrt(n as int),
        r <= 0xffffffffffffffffu128,
{
    let mut lo: u128 = 0;
    let mut hi: u128 = 0xffffffffffffffffu128;
    proof {
        assert((hi as int + 1) * (hi as int + 1) > n as int) by (nonlinear_arith)
            requires
                hi as int + 1 == 0x10000000000000000,
                n as int <= 0xffffffffffffffffffffffffffffffffu128 as int,
        ;
    }
    while lo < hi
        invariant
            lo <= hi <= 0xffffffffffffffffu128,
            (lo as int) * (lo as int) <= n as int,
            (n as int) < (hi as int + 1) * (hi as int + 1),
        decreases hi - lo,
    {
        let mid: u128 = lo + (hi - lo + 1) / 2;
        proof {
            assert(lo < mid <= hi);
            assert((mid as int) * (mid as int) < 0xffffffffffffffffffffffffffffffffu128 as int)
                by (nonlinear_arith)
                requires
                    mid as int <= 0xffffffffffffffff,
            ;
        }
        if mid * mid <= n {
            lo = mid;
        } else {
            hi = mid - 1;
        }
    }
    proof {
        lemma_isqrt_unique(n as int, lo as int);
    }
    lo
}

/// The remainder of truncating division: it has the sign of the dividend and
/// magnitude below the divisor.
pub proof fn lemma_tdiv_rem(a: int, b: int)
    requires
        b > 0,
    ensures
        a >= 0 ==> 0 <= a - spec_tdiv(a, b) * b < b,
        a < 0 ==> -b < a - spec_tdiv(a, b) * b <= 0,
{
    if a >= 0 {
        vstd::arithmetic::div_mod::lemma_fundamental_div_mod(a, b);
        vstd::arithmetic::div_mod::lemma_mod_division_less_than_divisor(a, b);
        assert(a - (a / b) * b == a % b) by (nonlinear_arith)
            requires
                a == b * (a / b) + a % b,
        ;
    } else {
        vstd::arithmetic::div_mod::lemma_fundamental_div_mod(-a, b);
        vstd::arithmetic::div_mod::lemma_mod_division_less_than_divisor(-a, b);
        assert((-a) - ((-a) / b) * b == (-a) % b) by (nonlinear_arith)
            requires
                -a == b * ((-a) / b) + (-a) % b,
        ;
        assert((-((-a) / b)) * b == -(((-a) / b) * b)) by (nonlinear_arith);
    }
}

/// Truncating division on `i64`, for a positive divisor.
pub fn tdiv64(a: i64, b: i64) -> (q: i64)
    requires
        b > 0,
    ensures
        q as int == spec_tdiv(a as int, b as int),
{
    let q: i128 = tdiv128(a as i128, b as i128);
    proof {
        lemma_tdiv_rem(a as int, b as int);
        assert(spec_abs(spec_tdiv(a as int, b as int) * (b as int)) <= spec_abs(a as int) + (
        b as int));
        assert(spec_abs(q as int) <= spec_abs(q as int * (b as int))) by (nonlinear_arith)
            requires
                b as int >= 1,
        ;
    }
    q as i64
}

/// One truncated Taylor step: the running term times `x2`, scaled down and
/// divided by the next factorial quotient.
pub open spec fn spec_taylor_step(t: int, x2: int, k: int) -> int {
    spec_tdiv(spec_fp_mul(t, x2), k)
}

/// The truncated Taylor polynomial for the sine of `x`, `x` in fixed-point
/// radians near zero.
pub open spec fn spec_sin_taylor(x: int) -> int {
    let x2 = spec_fp_mul(x, x);
    let t2 = spec_taylor_step(x, x2, 6);
    let t3 = spec_taylor_step(t2, x2, 20);
    let t4 = spec_taylor_step(t3, x2, 42);
    let t5 = spec_taylor_step(t4, x2, 72);
    let t6 = spec_taylor_step(t5, x2, 110);
    spec_sat64(x - t2 + t3 - t4 + t5 - t6)
}

/// The truncated Taylor polynomial for the cosine of `x`.
pub open spec fn spec_cos_taylor(x: int) -> int {
    let x2 = spec_fp_mul(x, x);
    let u1 = spec_tdiv(x2, 2);
    let u2 = spec_taylor_step(u1, x2, 12);
    let u3 = spec_taylor_step(u2, x2, 30);
    let u4 = spec_taylor_step(u3, x2, 56);
    let u5 = spec_taylor_step(u4, x2, 90);
    spec_sat64(SCALE - u1 + u2 - u3 + u4 - u5)
}

/// An angle reduced into the half-open range from minus a half turn to a
/// half turn.
pub open spec fn spec_reduce_angle(a: int) -> int {
    let r0 = a - spec_tdiv(a, TWO_PI_FIXED as int) * (TWO_PI_FIXED as int);
    if r0 > PI_FIXED {
        r0 - TWO_PI_FIXED
    } else if r0 < -PI_FIXED {
        r0 + TWO_PI_FIXED
    } else {
        r0
    }
}

/// The fixed-point sine: range reduction, quadrant folding, then the Taylor
/// polynomial, clamped into one unit either way.
pub open spec fn spec_fp_sin(a: int) -> int {
    let r = spec_reduce_angle(a);
    let v = if r > HALF_PI_FIXED {
        spec_sin_taylor(PI_FIXED - r)
    } else if r < -HALF_PI_FIXED {
        -spec_sin_taylor(PI_FIXED + r)
    } else {
        spec_sin_taylor(r)
    };
    if v > SCALE as int {
        SCALE as int
    } else if v < -(SCALE as int) {
        -(SCALE as int)
    } else {
        v
    }
}

/// The fixed-point cosine, folded onto the same Taylor polynomial.
pub open spec fn spec_fp_cos(a: int) -> int {
    let r = spec_reduce_angle(a);
    let v = if r > HALF_PI_FIXED {
        -spec_cos_taylor(PI_FIXED - r)
    } else if r < -HALF_PI_FIXED {
        -spec_cos_taylor(-PI_FIXED - r)
    } else {
        spec_cos_taylor(r)
    };
    if v > SCALE as int {
        SCALE as int
    } else if v < -(SCALE as int) {
        -(SCALE as int)
    } else {
        v
    }
}

/// One executable Taylor step, mirroring `spec_taylor_step`.
fn taylor_step(t: i64, x2: i64, k: i64) -> (r: i64)
    requires
        k > 0,
    ensures
        r as int == spec_taylor_step(t as int, x2 as int, k as int),
{
    tdiv64(fp_mul(t, x2), k)
}

/// The executable sine Taylor polynomial.
fn sin_taylor(x: i64) -> (r: i64)
    ensures
        r as int == spec_sin_taylor(x as int),
{
    let x2: i64 = fp_mul(x, x);
    let t2: i64 = taylor_step(x, x2, 6);
    let t3: i64 = taylor_step(t2, x2, 20);
    let t4: i64 = taylor_step(t3, x2, 42);
    let t5: i64 = taylor_step(t4, x2, 72);
    let t6: i64 = taylor_step(t5, x2, 110);
    sat64(x as i128 - t2 as i128 + t3 as i128 - t4 as i128 + t5 as i128 - t6 as i128)
}

/// The executable cosine Taylor polynomial.
fn cos_taylor(x: i64) -> (r: i64)
    ensures
        r as int == spec_cos_taylor(x as int),
{
    let x2: i64 = fp_mul(x, x);
    let u1: i64 = tdiv64(x2, 2);
    let u2: i64 = taylor_step(u1, x2, 12);
    let u3: i64 = taylor_step(u2, x2, 30);
    let u4: i64 = taylor_step(u3, x2, 56);
    let u5: i64 = taylor_step(u4, x2, 90);
    sat64(SCALE as i128 - u1 as i128 + u2 as i128 - u3 as i128 + u4 as i128 - u5 as i128)
}

/// An angle reduced into one turn around zero, mirroring `spec_reduce_angle`.
fn reduce_angle(a: i64) -> (r: i64)
    ensures
        r as int == spec_reduce_angle(a as int),
        -PI_FIXED <= r as int <= PI_FIXED,
{
    let q: i128 = tdiv128(a as i128, TWO_PI_FIXED as i128);
    proof {
        lemma_tdiv_rem(a as int, TWO_PI_FIXED as int);
    }
    let r0: i128 = a as i128 - q * (TWO_PI_FIXED as i128);
    let r0_64: i64 = r0 as i64;
    if r0_64 > PI_FIXED {
        r0_64 - TWO_PI_FIXED
    } else if r0_64 < -PI_FIXED {
        r0_64 + TWO_PI_FIXED
    } else {
        r0_64
    }
}

/// The fixed-point sine of an angle in fixed-point radians.
pub fn fp_sin(a: i64) -> (r: i64)
    ensures
        r as int == spec_fp_sin(a as int),
        -SCALE <= r <= SCALE,
{
    let red: i64 = reduce_angle(a);
    let v: i128 = if red > HALF_PI_FIXED {
        sin_taylor(PI_FIXED - red) as i128
    } else if red < -HALF_PI_FIXED {
        -(sin_taylor(PI_FIXED + red) as i128)
    } else {
        sin_taylor(red) as i128
    };
    if v > SCALE as i128 {
        SCALE
    } else if v < -(SCALE as i128) {
        -SCALE
    } else {
        v as i64
    }
}

/// The fixed-point cosine of an angle in fixed-point radians.
pub fn fp_cos(a: i64) -> (r: i64)
    ensures
        r as int == spec_fp_cos(a as int),
        -SCALE <= r <= SCALE,
{
    let red: i64 = reduce_angle(a);
    let v: i128 = if red > HALF_PI_FIXED {
        -(cos_taylor(PI_FIXED - red) as i128)
    } else if red < -HALF_PI_FIXED {
        -(cos_taylor(-PI_FIXED - red) as i128)
    } else {
        cos_taylor(red) as i128
    };
    if v > SCALE as i128 {
        SCALE
    } else if v < -(SCALE as i128) {
        -SCALE
    } else {
        v as i64
    }
}

} // verus!
