//! Angle helpers shared across the crate.

use vstd::prelude::*;
use crate::fixed::{fxmul, fxdiv};
use crate::fixed::{fx_mul, fx_div};

verus! {

/// Pi in fixed point.
pub const PI_FX: i64 = 205887;

/// 180 in fixed point.
pub const FX_DEG_180: i64 = 11796480;

pub open spec fn deg_to_rad(degrees: int) -> int {
    fxdiv(fxmul(degrees, PI_FX as int), FX_DEG_180 as int)
}

/// `degrees * pi / 180`, in fixed point.
pub fn degrees_to_radians(degrees: i64) -> (r: i64)
    ensures
        r as int == deg_to_rad(degrees as int),
{
    fx_div(fx_mul(degrees, PI_FX), FX_DEG_180)
}

} // verus!
