//! A ray: origin plus direction, parameterized as `origin + t * direction`.

use vstd::prelude::*;
use crate::vec3::{V3, Vec3, Point3, v_add, v_scale};

verus! {

/// Spec-level ray.
pub struct RayV {
    pub orig: V3,
    pub dir: V3,
}

/// The point at parameter `t` along the ray.
pub open spec fn ray_at(r: RayV, t: int) -> V3 {
    v_add(r.orig, v_scale(t, r.dir))
}

#[derive(Clone, Copy)]
pub struct Ray {
    pub orig: Point3,
    pub dir: Vec3,
}

impl View for Ray {
    type V = RayV;

    open spec fn view(&self) -> RayV {
        RayV { orig: self.orig@, dir: self.dir@ }
    }
}

impl Ray {
    pub fn new(orig: Point3, dir: Vec3) -> (r: Ray)
        ensures
            r@ == (RayV { orig: orig@, dir: dir@ }),
    {
        Ray { orig, dir }
    }

    pub fn at(self, t: i64) -> (p: Point3)
        ensures
            p@ == ray_at(self@, t as int),
    {
        self.orig.plus(self.dir.scaled(t))
    }
}

} // verus!
