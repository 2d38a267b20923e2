//! Fixed-point scalar arithmetic.
//!
//! Every geometric quantity in this crate is a signed 64-bit fixed-point
//! number with 16 fractional bits: the stored integer is the real value
//! scaled by 65536. All operations are total: instead of overflowing they
//! saturate at the `i64` range, and a division by zero yields the saturated
//! value of the matching sign. Each executable operation is pinned to a
//! spec-level mirror over `int`, so callers reason about exact mathematical
//! values with explicit saturation and truncation.

use vstd::prelude::*;

verus! {

use vstd::arithmetic::div_mod::lemma_div_pos_is_pos;
use vstd::arithmetic::div_mod::lemma_fundamental_div_mod;
use vstd::arithmetic::div_mod::lemma_remainder_lower;
use vstd::arithmetic::mul::lemma_mul_inequality;
use vstd::arithmetic::mul::lemma_mul_upper_bound;

/// One in fixed-point representation: 2^16.
pub const FX_ONE: i64 = 65536;

/// Two in fixed-point representation.
pub const FX_TWO: i64 = 131072;

/// Four in fixed-point representation.
pub const FX_FOUR: i64 = 262144;

/// One half in fixed-point representation.
pub const FX_HALF: i64 = 32768;

/// Pi scaled by 2^16, rounded to the nearest integer.
pub const FX_PI: i64 = 205887;

/// Two pi scaled by 2^16 (kept exactly twice `FX_PI`).
pub const FX_TWO_PI: i64 = 411774;

/// Pi over two scaled by 2^16 (kept exactly half of `FX_PI` rounded up).
pub const FX_HALF_PI: i64 = 102944;

/// The self-intersection offset used when spawning secondary rays,
/// about one thousandth in fixed point.
pub const FX_EPS: i64 = 66;

/// Saturation of a mathematical integer to the `i64` range.
pub open spec fn sat64(x: int) -> int {
    if x > i64::MAX {
        i64::MAX as int
    } else if x < i64::MIN {
        i64::MIN as int
    } else {
        x
    }
}

/// Absolute value of a mathematical integer.
pub open spec fn s_iabs(x: int) -> int {
    if x < 0 {
        -x
    } else {
        x
    }
}

/// Division truncated toward zero, as machine division does it;
/// zero divisors map to zero so the function is total.
pub open spec fn tdiv(x: int, d: int) -> int {
    if d == 0 {
        0
    } else {
        let q = s_iabs(x) / s_iabs(d);
        if (x < 0) != (d < 0) {
            -q
        } else {
            q
        }
    }
}

/// Saturating fixed-point addition.
pub open spec fn s_add(a: int, b: int) -> int {
    sat64(a + b)
}

/// Saturating fixed-point subtraction.
pub open spec fn s_sub(a: int, b: int) -> int {
    sat64(a - b)
}

/// Saturating fixed-point negation.
pub open spec fn s_neg(a: int) -> int {
    sat64(-a)
}

/// Saturating fixed-point absolute value.
pub open spec fn s_abs(a: int) -> int {
    sat64(s_iabs(a))
}

/// Saturating fixed-point multiplication: the exact product rescaled by
/// 2^16 with truncation toward zero, then saturated.
pub open spec fn s_mul(a: int, b: int) -> int {
    sat64(tdiv(a * b, 65536))
}

/// Saturating fixed-point division. A zero divisor saturates by the sign
/// of the dividend, mirroring the signed infinities the real-valued
/// computation would produce.
pub open spec fn s_div(a: int, b: int) -> int {
    if b == 0 {
        if a > 0 {
            i64::MAX as int
        } else if a < 0 {
            i64::MIN as int
        } else {
            0
        }
    } else {
        sat64(tdiv(a * 65536, b))
    }
}

/// Smaller of two scalars.
pub open spec fn s_min(a: int, b: int) -> int {
    if a <= b {
        a
    } else {
        b
    }
}

/// Larger of two scalars.
pub open spec fn s_max(a: int, b: int) -> int {
    if a >= b {
        a
    } else {
        b
    }
}

/// Clamp of a scalar to an interval.
pub open spec fn s_clamp(x: int, lo: int, hi: int) -> int {
    if x < lo {
        lo
    } else if x > hi {
        hi
    } else {
        x
    }
}

/// Integer square root rounded down, defined by digit-by-digit recursion.
pub open spec fn sqrt_floor(n: int) -> int
    decreases n,
{
    if n <= 0 {
        0
    } else {
        let h = 2 * sqrt_floor(n / 4);
        if (h + 1) * (h + 1) <= n {
            h + 1
        } else {
            h
        }
    }
}

/// Fixed-point square root: the root of a non-positive scalar is zero,
/// mirroring how the real-valued computation never feeds a negative
/// radicand onward.
pub open spec fn s_sqrt(x: int) -> int {
    if x <= 0 {
        0
    } else {
        sqrt_floor(x * 65536)
    }
}

/// The defining bounds of the rounded-down square root.
pub proof fn lemma_sqrt_floor_bounds(n: int)
    requires
        n >= 0,
    ensures
        0 <= sqrt_floor(n),
        sqrt_floor(n) * sqrt_floor(n) <= n,
        n < (sqrt_floor(n) + 1) * (sqrt_floor(n) + 1),
    decreases n,
{
    if n <= 0 {
    } else {
        let m = n / 4;
        lemma_sqrt_floor_bounds(m);
        let s = sqrt_floor(m);
        lemma_fundamental_div_mod(n, 4);
        assert(4 * m <= n && n < 4 * m + 4);
        assert((2 * s) * (2 * s) <= n) by (nonlinear_arith)
            requires
                s * s <= m,
                4 * m <= n,
                0 <= s,
        ;
        assert(n < (2 * s + 2) * (2 * s + 2)) by (nonlinear_arith)
            requires
                m < (s + 1) * (s + 1),
                n < 4 * m + 4,
                0 <= s,
        ;
        if (2 * s + 1) * (2 * s + 1) <= n {
            assert(sqrt_floor(n) == 2 * s + 1);
        } else {
            assert(sqrt_floor(n) == 2 * s);
        }
    }
}

/// Two integers bracketing `n` by their squares are equal; used to pin the
/// executable root to `sqrt_floor`.
pub proof fn lemma_sqrt_floor_unique(n: int, r: int)
    requires
        n >= 0,
        r >= 0,
        r * r <= n,
        n < (r + 1) * (r + 1),
    ensures
        r == sqrt_floor(n),
{
    lemma_sqrt_floor_bounds(n);
    let s = sqrt_floor(n);
    if r < s {
        assert((r + 1) * (r + 1) <= s * s) by (nonlinear_arith)
            requires
                r + 1 <= s,
                0 <= r,
        ;
        assert(false);
    }
    if s < r {
        assert((s + 1) * (s + 1) <= r * r) by (nonlinear_arith)
            requires
                s + 1 <= r,
                0 <= s,
        ;
        assert(false);
    }
}

/// A quotient of nonnegative scalars is nonnegative.
pub proof fn lemma_s_div_nonneg(a: int, b: int)
    requires
        0 <= a,
        0 <= b,
    ensures
        0 <= s_div(a, b),
{
    if b != 0 {
        lemma_div_pos_is_pos(a * 65536, b);
    }
}

/// The product of two `i64` values stays within 2^126 in magnitude.
proof fn lemma_i64_product_bound(a: int, b: int)
    by (nonlinear_arith)
    requires
        -0x8000_0000_0000_0000 <= a <= 0x7fff_ffff_ffff_ffff,
        -0x8000_0000_0000_0000 <= b <= 0x7fff_ffff_ffff_ffff,
    ensures
        -0x4000_0000_0000_0000_0000_0000_0000_0000 <= a * b,
        a * b <= 0x4000_0000_0000_0000_0000_0000_0000_0000,
{
}

/// Truncating division on wide intermediates, computed through unsigned
/// magnitudes; the quotient magnitude never exceeds the dividend's.
fn tdiv_i128(x: i128, d: i128) -> (r: i128)
    requires
        d != 0,
        -0x4000_0000_0000_0000_0000_0000_0000_0000 <= x <= 0x4000_0000_0000_0000_0000_0000_0000_0000,
        -0x4000_0000_0000_0000_0000_0000_0000_0000 <= d <= 0x4000_0000_0000_0000_0000_0000_0000_0000,
    ensures
        r == tdiv(x as int, d as int),
        s_iabs(r as int) <= s_iabs(x as int),
{
    let ux: u128 = if x >= 0 { x as u128 } else { (-x) as u128 };
    let ud: u128 = if d >= 0 { d as u128 } else { (-d) as u128 };
    let q: u128 = ux / ud;
    proof {
        lemma_div_pos_is_pos(ux as int, ud as int);
        lemma_remainder_lower(ux as int, ud as int);
        lemma_mul_inequality(1, ud as int, q as int);
        assert((ud as int) * (q as int) == (q as int) * (ud as int)) by (nonlinear_arith);
        assert(q as int <= ux as int);
    }
    let qi: i128 = q as i128;
    if (x < 0) != (d < 0) {
        -qi
    } else {
        qi
    }
}

/// Saturation of a wide intermediate back to `i64`.
fn sat_i128_to_i64(x: i128) -> (r: i64)
    ensures
        r as int == sat64(x as int),
{
    if x > i64::MAX as i128 {
        i64::MAX
    } else if x < i64::MIN as i128 {
        i64::MIN
    } else {
        x as i64
    }
}

/// Saturating fixed-point addition.
pub fn fx_add(a: i64, b: i64) -> (r: i64)
    ensures
        r as int == s_add(a as int, b as int),
{
    sat_i128_to_i64(a as i128 + b as i128)
}

/// Saturating fixed-point subtraction.
pub fn fx_sub(a: i64, b: i64) -> (r: i64)
    ensures
        r as int == s_sub(a as int, b as int),
{
    sat_i128_to_i64(a as i128 - b as i128)
}

/// Saturating fixed-point negation.
pub fn fx_neg(a: i64) -> (r: i64)
    ensures
        r as int == s_neg(a as int),
{
    sat_i128_to_i64(-(a as i128))
}

/// Saturating fixed-point absolute value.
pub fn fx_abs(a: i64) -> (r: i64)
    ensures
        r as int == s_abs(a as int),
{
    if a < 0 {
        fx_neg(a)
    } else {
        a
    }
}

/// Saturating fixed-point multiplication.
pub fn fx_mul(a: i64, b: i64) -> (r: i64)
    ensures
        r as int == s_mul(a as int, b as int),
{
    proof {
        lemma_i64_product_bound(a as int, b as int);
    }
    let p: i128 = (a as i128) * (b as i128);
    sat_i128_to_i64(tdiv_i128(p, 65536))
}

/// Saturating fixed-point division.
pub fn fx_div(a: i64, b: i64) -> (r: i64)
    ensures
        r as int == s_div(a as int, b as int),
{
    if b == 0 {
        if a > 0 {
            i64::MAX
        } else if a < 0 {
            i64::MIN
        } else {
            0
        }
    } else {
        let num: i128 = (a as i128) * 65536;
        sat_i128_to_i64(tdiv_i128(num, b as i128))
    }
}

/// Smaller of two scalars.
pub fn fx_min(a: i64, b: i64) -> (r: i64)
    ensures
        r as int == s_min(a as int, b as int),
{
    if a <= b {
        a
    } else {
        b
    }
}

/// Larger of two scalars.
pub fn fx_max(a: i64, b: i64) -> (r: i64)
    ensures
        r as int == s_max(a as int, b as int),
{
    if a >= b {
        a
    } else {
        b
    }
}

/// Clamp of a scalar to an interval.
pub fn fx_clamp(x: i64, lo: i64, hi: i64) -> (r: i64)
    ensures
        r as int == s_clamp(x as int, lo as int, hi as int),
{
    if x < lo {
        lo
    } else if x > hi {
        hi
    } else {
        x
    }
}

/// A whole number brought into fixed-point representation, saturating.
pub fn fx_from_int(x: i64) -> (r: i64)
    ensures
        r as int == sat64(x * 65536),
{
    sat_i128_to_i64((x as i128) * 65536)
}

/// Integer square root of a wide unsigned value below 2^80, by binary
/// search on the root.
fn isqrt_u128(n: u128) -> (r: u128)
    requires
        n < 0x1_0000_0000_0000_0000_0000,
    ensures
        r as int == sqrt_floor(n as int),
        r * r <= n,
        n < (r + 1) * (r + 1),
{
    let mut lo: u128 = 0;
    let mut hi: u128 = 0x100_0000_0000;
    proof {
        assert((0x100_0000_0000 as int) * (0x100_0000_0000 as int) == 0x1_0000_0000_0000_0000_0000)
            by (nonlinear_arith);
    }
    while lo + 1 < hi
        invariant
            lo < hi <= 0x100_0000_0000,
            lo * lo <= n,
            n < hi * hi,
        decreases hi - lo,
    {
        let mid: u128 = lo + (hi - lo) / 2;
        proof {
            assert((0x100_0000_0000 as int) * (0x100_0000_0000 as int)
                == 0x1_0000_0000_0000_0000_0000) by (nonlinear_arith);
            lemma_mul_upper_bound(mid as int, 0x100_0000_0000, mid as int, 0x100_0000_0000);
        }
        if mid * mid <= n {
            lo = mid;
        } else {
            hi = mid;
        }
    }
    proof {
        lemma_sqrt_floor_unique(n as int, lo as int);
    }
    lo
}

/// Fixed-point square root.
pub fn fx_sqrt(x: i64) -> (r: i64)
    ensures
        r as int == s_sqrt(x as int),
        r >= 0,
{
    if x <= 0 {
        0
    } else {
        let n: u128 = (x as u128) * 65536;
        let r: u128 = isqrt_u128(n);
        proof {
            assert(r * r <= n < 0x1_0000_0000_0000_0000_0000);
            assert(r < 0x100_0000_0000) by (nonlinear_arith)
                requires r * r <= n, n < 0x1_0000_0000_0000_0000_0000;
        }
        r as i64
    }
}

/// Fixed-point power with a whole-number exponent, multiplying from the
/// left as repeated application of `s_mul`.
pub open spec fn s_powi(b: int, n: nat) -> int
    decreases n,
{
    if n == 0 {
        65536
    } else {
        s_mul(s_powi(b, (n - 1) as nat), b)
    }
}

/// Fixed-point power with a whole-number exponent.
pub fn fx_powi(b: i64, n: u32) -> (r: i64)
    ensures
        r as int == s_powi(b as int, n as nat),
{
    let mut acc: i64 = FX_ONE;
    let mut i: u32 = 0;
    while i < n
        invariant
            i <= n,
            acc as int == s_powi(b as int, i as nat),
        decreases n - i,
    {
        acc = fx_mul(acc, b);
        i = i + 1;
    }
    acc
}

/// Truncation of a fixed-point scalar toward zero into a whole number.
pub open spec fn s_trunc(x: int) -> int {
    tdiv(x, 65536)
}

/// Truncation of a fixed-point scalar toward zero into a whole number.
pub fn fx_trunc(x: i64) -> (r: i64)
    ensures
        r as int == s_trunc(x as int),
{
    sat_i128_to_i64(tdiv_i128(x as i128, 65536))
}

} // verus!
