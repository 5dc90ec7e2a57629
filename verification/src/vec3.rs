//! Three-component vectors over fixed-point scalars, with spec-level mirrors
//! of every operation. `Point3` and `Color` share the representation.

use vstd::prelude::*;
use crate::fixed::{fx_ok, fxadd, fxsub, fxneg, fxmul, fxdiv, fxsqrt, absi};
use crate::fixed::{fx_add, fx_sub, fx_neg, fx_mul, fx_div, fx_sqrt};

verus! {

/// Componentwise magnitude below which a vector counts as degenerate.
pub const NEAR_EPS: i64 = 8;

/// Spec-level vector: three unbounded scalars.
pub struct V3 {
    pub x: int,
    pub y: int,
    pub z: int,
}

pub open spec fn v3(x: int, y: int, z: int) -> V3 {
    V3 { x, y, z }
}

pub open spec fn v_zero() -> V3 {
    V3 { x: 0, y: 0, z: 0 }
}

pub open spec fn v_ok(a: V3) -> bool {
    fx_ok(a.x) && fx_ok(a.y) && fx_ok(a.z)
}

pub open spec fn v_add(a: V3, b: V3) -> V3 {
    V3 { x: fxadd(a.x, b.x), y: fxadd(a.y, b.y), z: fxadd(a.z, b.z) }
}

pub open spec fn v_sub(a: V3, b: V3) -> V3 {
    V3 { x: fxsub(a.x, b.x), y: fxsub(a.y, b.y), z: fxsub(a.z, b.z) }
}

pub open spec fn v_neg(a: V3) -> V3 {
    V3 { x: fxneg(a.x), y: fxneg(a.y), z: fxneg(a.z) }
}

/// Scale every component by the fixed-point scalar `k`.
pub open spec fn v_scale(k: int, a: V3) -> V3 {
    V3 { x: fxmul(k, a.x), y: fxmul(k, a.y), z: fxmul(k, a.z) }
}

/// Componentwise (Hadamard) product, as used for color attenuation.
pub open spec fn v_hadamard(a: V3, b: V3) -> V3 {
    V3 { x: fxmul(a.x, b.x), y: fxmul(a.y, b.y), z: fxmul(a.z, b.z) }
}

pub open spec fn v_dot(a: V3, b: V3) -> int {
    fxadd(fxadd(fxmul(a.x, b.x), fxmul(a.y, b.y)), fxmul(a.z, b.z))
}

pub open spec fn v_cross(a: V3, b: V3) -> V3 {
    V3 {
        x: fxsub(fxmul(a.y, b.z), fxmul(a.z, b.y)),
        y: fxsub(fxmul(a.z, b.x), fxmul(a.x, b.z)),
        z: fxsub(fxmul(a.x, b.y), fxmul(a.y, b.x)),
    }
}

pub open spec fn v_len_sq(a: V3) -> int {
    v_dot(a, a)
}

pub open spec fn v_len(a: V3) -> int {
    fxsqrt(v_len_sq(a))
}

/// Normalization; the zero-length vector maps to zero.
pub open spec fn v_unit(a: V3) -> V3 {
    let l = v_len(a);
    if l == 0 {
        v_zero()
    } else {
        V3 { x: fxdiv(a.x, l), y: fxdiv(a.y, l), z: fxdiv(a.z, l) }
    }
}

/// True when every component is smaller in magnitude than `NEAR_EPS`.
pub open spec fn v_near_zero(a: V3) -> bool {
    absi(a.x) < NEAR_EPS as int && absi(a.y) < NEAR_EPS as int && absi(a.z) < NEAR_EPS as int
}

/// Dotting with a negated in-range vector negates the dot product.
pub proof fn lemma_vdot_neg(d: V3, n: V3)
    requires
        v_ok(n),
    ensures
        v_dot(d, v_neg(n)) == -v_dot(d, n),
{
    crate::fixed::lemma_fxmul_neg_right(d.x, n.x);
    crate::fixed::lemma_fxmul_neg_right(d.y, n.y);
    crate::fixed::lemma_fxmul_neg_right(d.z, n.z);
    let mx = fxmul(d.x, n.x);
    let my = fxmul(d.y, n.y);
    let mz = fxmul(d.z, n.z);
    crate::fixed::lemma_clip_odd(mx + my);
    crate::fixed::lemma_clip_odd(fxadd(mx, my) + mz);
}

/// A fixed-point 3D vector; also used as a point and as an RGB color.
#[derive(Clone, Copy, PartialEq, Eq, Structural, Debug)]
pub struct Vec3 {
    pub x: i64,
    pub y: i64,
    pub z: i64,
}

pub type Point3 = Vec3;

pub type Color = Vec3;

impl View for Vec3 {
    type V = V3;

    open spec fn view(&self) -> V3 {
        V3 { x: self.x as int, y: self.y as int, z: self.z as int }
    }
}

impl Vec3 {
    pub fn new(x: i64, y: i64, z: i64) -> (r: Vec3)
        ensures
            r@ == v3(x as int, y as int, z as int),
    {
        Vec3 { x, y, z }
    }

    pub fn zero() -> (r: Vec3)
        ensures
            r@ == v_zero(),
    {
        Vec3 { x: 0, y: 0, z: 0 }
    }

    pub fn plus(self, o: Vec3) -> (r: Vec3)
        ensures
            r@ == v_add(self@, o@),
    {
        Vec3 { x: fx_add(self.x, o.x), y: fx_add(self.y, o.y), z: fx_add(self.z, o.z) }
    }

    pub fn minus(self, o: Vec3) -> (r: Vec3)
        ensures
            r@ == v_sub(self@, o@),
    {
        Vec3 { x: fx_sub(self.x, o.x), y: fx_sub(self.y, o.y), z: fx_sub(self.z, o.z) }
    }

    pub fn negate(self) -> (r: Vec3)
        ensures
            r@ == v_neg(self@),
    {
        Vec3 { x: fx_neg(self.x), y: fx_neg(self.y), z: fx_neg(self.z) }
    }

    pub fn scaled(self, k: i64) -> (r: Vec3)
        ensures
            r@ == v_scale(k as int, self@),
    {
        Vec3 { x: fx_mul(k, self.x), y: fx_mul(k, self.y), z: fx_mul(k, self.z) }
    }

    pub fn hadamard(self, o: Vec3) -> (r: Vec3)
        ensures
            r@ == v_hadamard(self@, o@),
    {
        Vec3 { x: fx_mul(self.x, o.x), y: fx_mul(self.y, o.y), z: fx_mul(self.z, o.z) }
    }

    pub fn dot(self, o: Vec3) -> (r: i64)
        ensures
            r as int == v_dot(self@, o@),
    {
        fx_add(fx_add(fx_mul(self.x, o.x), fx_mul(self.y, o.y)), fx_mul(self.z, o.z))
    }

    pub fn cross(self, o: Vec3) -> (r: Vec3)
        ensures
            r@ == v_cross(self@, o@),
    {
        Vec3 {
            x: fx_sub(fx_mul(self.y, o.z), fx_mul(self.z, o.y)),
            y: fx_sub(fx_mul(self.z, o.x), fx_mul(self.x, o.z)),
            z: fx_sub(fx_mul(self.x, o.y), fx_mul(self.y, o.x)),
        }
    }

    pub fn len_sq(self) -> (r: i64)
        ensures
            r as int == v_len_sq(self@),
    {
        self.dot(self)
    }

    pub fn len(self) -> (r: i64)
        ensures
            r as int == v_len(self@),
    {
        fx_sqrt(self.len_sq())
    }

    pub fn unit(self) -> (r: Vec3)
        ensures
            r@ == v_unit(self@),
    {
        let l: i64 = self.len();
        if l == 0 {
            Vec3::zero()
        } else {
            Vec3 { x: fx_div(self.x, l), y: fx_div(self.y, l), z: fx_div(self.z, l) }
        }
    }

    pub fn near_zero(self) -> (r: bool)
        ensures
            r == v_near_zero(self@),
    {
        self.x > -NEAR_EPS && self.x < NEAR_EPS && self.y > -NEAR_EPS && self.y < NEAR_EPS
            && self.z > -NEAR_EPS && self.z < NEAR_EPS
    }
}

} // verus!
