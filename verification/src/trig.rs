//! Fixed-point trigonometry.
//!
//! Sine uses Bhaskara's rational approximation on a half period after
//! range reduction; the arctangent uses a cubic polynomial correction on
//! the unit interval with octant reduction. Both are accurate to a few
//! thousandths of a radian, which is ample for camera motion and texture
//! coordinates. Each executable function is pinned to a spec mirror, so
//! callers reason about the computed value exactly.

use vstd::prelude::*;

verus! {

use crate::fixed::FX_HALF_PI;
use crate::fixed::FX_ONE;
use crate::fixed::FX_PI;
use crate::fixed::FX_TWO_PI;
use crate::fixed::fx_abs;
use crate::fixed::fx_add;
use crate::fixed::fx_div;
use crate::fixed::fx_from_int;
use crate::fixed::fx_mul;
use crate::fixed::fx_neg;
use crate::fixed::fx_sqrt;
use crate::fixed::fx_sub;
use crate::fixed::fx_trunc;
use crate::fixed::s_abs;
use crate::fixed::s_add;
use crate::fixed::s_div;
use crate::fixed::s_mul;
use crate::fixed::s_neg;
use crate::fixed::s_sqrt;
use crate::fixed::s_sub;
use crate::fixed::s_trunc;
use crate::fixed::sat64;

/// First coefficient of the arctangent correction term, about 0.2447.
pub const FX_ATAN_C1: i64 = 16037;

/// Second coefficient of the arctangent correction term, about 0.0663.
pub const FX_ATAN_C2: i64 = 4345;

/// Pi over four scaled by 2^16.
pub const FX_QUARTER_PI: i64 = 51472;

/// An angle reduced to the interval from zero up to one full turn.
pub open spec fn s_angle_mod(x: int) -> int {
    let q = s_trunc(s_div(x, FX_TWO_PI as int));
    let r = s_sub(x, s_mul(sat64(q * 65536), FX_TWO_PI as int));
    if r < 0 {
        s_add(r, FX_TWO_PI as int)
    } else {
        r
    }
}

/// Bhaskara's sine approximation on the half period from zero to pi.
pub open spec fn s_sin_half(r: int) -> int {
    let a = s_mul(r, s_sub(FX_PI as int, r));
    let num = s_mul(sat64((16 * 65536) as int), a);
    let den = s_sub(s_mul(sat64((5 * 65536) as int), s_mul(FX_PI as int, FX_PI as int)), s_mul(
        sat64((4 * 65536) as int),
        a,
    ));
    s_div(num, den)
}

/// Sine of a fixed-point angle in radians.
pub open spec fn s_sin(x: int) -> int {
    let r = s_angle_mod(x);
    if r >= FX_PI as int {
        s_neg(s_sin_half(s_sub(r, FX_PI as int)))
    } else {
        s_sin_half(r)
    }
}

/// Cosine of a fixed-point angle in radians, as the shifted sine.
pub open spec fn s_cos(x: int) -> int {
    s_sin(s_add(x, FX_HALF_PI as int))
}

/// Polynomial arctangent on the unit interval.
pub open spec fn s_atan_unit(z: int) -> int {
    let corr = s_mul(s_mul(z, s_sub(FX_ONE as int, z)), s_add(
        FX_ATAN_C1 as int,
        s_mul(FX_ATAN_C2 as int, z),
    ));
    s_add(s_mul(FX_QUARTER_PI as int, z), corr)
}

/// Two-argument arctangent: the angle of the point `(x, y)` in the plane,
/// in the half-open range from minus pi exclusive to pi inclusive.
pub open spec fn s_atan2(y: int, x: int) -> int {
    let ax = s_abs(x);
    let ay = s_abs(y);
    let base = if ax >= ay {
        s_atan_unit(s_div(ay, ax))
    } else {
        s_sub(FX_HALF_PI as int, s_atan_unit(s_div(ax, ay)))
    };
    let mag = if x >= 0 {
        base
    } else {
        s_sub(FX_PI as int, base)
    };
    if y < 0 {
        s_neg(mag)
    } else {
        mag
    }
}

/// Arcsine through the arctangent of the complementary leg.
pub open spec fn s_asin(y: int) -> int {
    s_atan2(y, s_sqrt(s_sub(FX_ONE as int, s_mul(y, y))))
}

/// Sine of a fixed-point angle in radians.
pub fn fx_sin(x: i64) -> (r: i64)
    ensures
        r as int == s_sin(x as int),
{
    let q = fx_trunc(fx_div(x, FX_TWO_PI));
    let red = fx_sub(x, fx_mul(fx_from_int(q), FX_TWO_PI));
    let m = if red < 0 {
        fx_add(red, FX_TWO_PI)
    } else {
        red
    };
    if m >= FX_PI {
        fx_neg(sin_half(fx_sub(m, FX_PI)))
    } else {
        sin_half(m)
    }
}

/// Bhaskara's sine approximation on the half period.
fn sin_half(r: i64) -> (s: i64)
    ensures
        s as int == s_sin_half(r as int),
{
    let a = fx_mul(r, fx_sub(FX_PI, r));
    let num = fx_mul(fx_from_int(16), a);
    let den = fx_sub(fx_mul(fx_from_int(5), fx_mul(FX_PI, FX_PI)), fx_mul(fx_from_int(4), a));
    fx_div(num, den)
}

/// Cosine of a fixed-point angle in radians.
pub fn fx_cos(x: i64) -> (r: i64)
    ensures
        r as int == s_cos(x as int),
{
    fx_sin(fx_add(x, FX_HALF_PI))
}

/// Polynomial arctangent on the unit interval.
fn atan_unit(z: i64) -> (r: i64)
    ensures
        r as int == s_atan_unit(z as int),
{
    let corr = fx_mul(fx_mul(z, fx_sub(FX_ONE, z)), fx_add(FX_ATAN_C1, fx_mul(FX_ATAN_C2, z)));
    fx_add(fx_mul(FX_QUARTER_PI, z), corr)
}

/// Two-argument arctangent.
pub fn fx_atan2(y: i64, x: i64) -> (r: i64)
    ensures
        r as int == s_atan2(y as int, x as int),
{
    let ax = fx_abs(x);
    let ay = fx_abs(y);
    let base = if ax >= ay {
        atan_unit(fx_div(ay, ax))
    } else {
        fx_sub(FX_HALF_PI, atan_unit(fx_div(ax, ay)))
    };
    let mag = if x >= 0 {
        base
    } else {
        fx_sub(FX_PI, base)
    };
    if y < 0 {
        fx_neg(mag)
    } else {
        mag
    }
}

/// Arcsine of a fixed-point value.
pub fn fx_asin(y: i64) -> (r: i64)
    ensures
        r as int == s_asin(y as int),
{
    fx_atan2(y, fx_sqrt(fx_sub(FX_ONE, fx_mul(y, y))))
}

} // verus!
