//! The depth-of-field camera: a viewport derived from field of view, aspect
//! ratio, aperture and focus distance, and a ray generator that samples the
//! lens disk.

use vstd::prelude::*;
use crate::fixed::{SCALE, FX_TWO, FX_HALF, fxadd, fxsub, fxmul, fxdiv};
use crate::fixed::{fx_add, fx_sub, fx_mul, fx_div};
use crate::vec3::{V3, Vec3, Point3, v_ok, v_add, v_sub, v_scale, v_cross, v_unit, v_zero};
use crate::ray::{Ray, RayV};
use crate::rng::{Rng, rng_in_disk, DRAW_TRIES};
use crate::common::{deg_to_rad, degrees_to_radians};

verus! {

/// 6 in fixed point.
pub const FX_SIX: i64 = 393216;

/// 24 in fixed point.
pub const FX_24: i64 = 1572864;

/// 120 in fixed point.
pub const FX_120: i64 = 7864320;

/// Truncated Taylor series for the tangent of a small angle:
/// `(x - x^3/6 + x^5/120) / (1 - x^2/2 + x^4/24)`.
pub open spec fn tan_taylor(x: int) -> int {
    let x2 = fxmul(x, x);
    let x3 = fxmul(x2, x);
    let x4 = fxmul(x2, x2);
    let x5 = fxmul(x3, x2);
    let s = fxadd(fxsub(x, fxdiv(x3, FX_SIX as int)), fxdiv(x5, FX_120 as int));
    let c = fxadd(fxsub(SCALE as int, fxmul(FX_HALF as int, x2)), fxdiv(x4, FX_24 as int));
    fxdiv(s, c)
}

pub fn tan_approx(x: i64) -> (r: i64)
    ensures
        r as int == tan_taylor(x as int),
{
    let x2: i64 = fx_mul(x, x);
    let x3: i64 = fx_mul(x2, x);
    let x4: i64 = fx_mul(x2, x2);
    let x5: i64 = fx_mul(x3, x2);
    let s: i64 = fx_add(fx_sub(x, fx_div(x3, FX_SIX)), fx_div(x5, FX_120));
    let c: i64 = fx_add(fx_sub(SCALE, fx_mul(FX_HALF, x2)), fx_div(x4, FX_24));
    fx_div(s, c)
}

/// Spec-level camera state.
pub struct CameraV {
    pub origin: V3,
    pub lower_left: V3,
    pub horizontal: V3,
    pub vertical: V3,
    pub u: V3,
    pub v: V3,
    pub w: V3,
    pub lens_radius: int,
}

/// The camera derived from its construction parameters.
pub open spec fn camera_spec(
    lookfrom: V3,
    lookat: V3,
    vup: V3,
    vfov: int,
    aspect_ratio: int,
    aperture: int,
    focus_dist: int,
) -> CameraV {
    let theta = deg_to_rad(vfov);
    let h = tan_taylor(fxdiv(theta, FX_TWO as int));
    let viewport_height = fxmul(FX_TWO as int, h);
    let viewport_width = fxmul(aspect_ratio, viewport_height);
    let w = v_unit(v_sub(lookfrom, lookat));
    let u = v_unit(v_cross(vup, w));
    let v = v_cross(w, u);
    let horizontal = v_scale(fxmul(focus_dist, viewport_width), u);
    let vertical = v_scale(fxmul(focus_dist, viewport_height), v);
    let lower_left = v_sub(
        v_sub(v_sub(lookfrom, v_scale(FX_HALF as int, horizontal)), v_scale(FX_HALF as int, vertical)),
        v_scale(focus_dist, w),
    );
    CameraV {
        origin: lookfrom,
        lower_left,
        horizontal,
        vertical,
        u,
        v,
        w,
        lens_radius: fxmul(FX_HALF as int, aperture),
    }
}

/// The ray through normalized image coordinates `(s, t)`, with the origin
/// offset by a sample of the lens disk.
pub open spec fn get_ray_spec(c: CameraV, s: int, t: int, st: int) -> (RayV, int) {
    let d = rng_in_disk(st, DRAW_TRIES as nat);
    let rd = v_scale(c.lens_radius, d.0);
    let offset = v_add(v_scale(rd.x, c.u), v_scale(rd.y, c.v));
    let orig = v_add(c.origin, offset);
    let dir = v_sub(
        v_sub(v_add(v_add(c.lower_left, v_scale(s, c.horizontal)), v_scale(t, c.vertical)), c.origin),
        offset,
    );
    (RayV { orig, dir }, d.1)
}

/// Immutable per-frame camera state.
#[derive(Clone, Copy)]
pub struct Camera {
    pub origin: Point3,
    pub lower_left: Point3,
    pub horizontal: Vec3,
    pub vertical: Vec3,
    pub u: Vec3,
    pub v: Vec3,
    pub w: Vec3,
    pub lens_radius: i64,
}

impl View for Camera {
    type V = CameraV;

    open spec fn view(&self) -> CameraV {
        CameraV {
            origin: self.origin@,
            lower_left: self.lower_left@,
            horizontal: self.horizontal@,
            vertical: self.vertical@,
            u: self.u@,
            v: self.v@,
            w: self.w@,
            lens_radius: self.lens_radius as int,
        }
    }
}

impl Camera {
    pub fn new(
        lookfrom: Point3,
        lookat: Point3,
        vup: Vec3,
        vfov: i64,
        aspect_ratio: i64,
        aperture: i64,
        focus_dist: i64,
    ) -> (c: Camera)
        ensures
            c@ == camera_spec(
                lookfrom@,
                lookat@,
                vup@,
                vfov as int,
                aspect_ratio as int,
                aperture as int,
                focus_dist as int,
            ),
    {
        let theta: i64 = degrees_to_radians(vfov);
        let h: i64 = tan_approx(fx_div(theta, FX_TWO));
        let viewport_height: i64 = fx_mul(FX_TWO, h);
        let viewport_width: i64 = fx_mul(aspect_ratio, viewport_height);
        let w: Vec3 = lookfrom.minus(lookat).unit();
        let u: Vec3 = vup.cross(w).unit();
        let v: Vec3 = w.cross(u);
        let horizontal: Vec3 = u.scaled(fx_mul(focus_dist, viewport_width));
        let vertical: Vec3 = v.scaled(fx_mul(focus_dist, viewport_height));
        let lower_left: Point3 = lookfrom
            .minus(horizontal.scaled(FX_HALF))
            .minus(vertical.scaled(FX_HALF))
            .minus(w.scaled(focus_dist));
        Camera {
            origin: lookfrom,
            lower_left,
            horizontal,
            vertical,
            u,
            v,
            w,
            lens_radius: fx_mul(FX_HALF, aperture),
        }
    }

    /// The camera ray for normalized image-plane coordinates `(s, t)`.
    pub fn get_ray(&self, s: i64, t: i64, rng: &mut Rng) -> (r: Ray)
        ensures
            ({
                let g = get_ray_spec(self@, s as int, t as int, old(rng)@);
                r@ == g.0 && final(rng)@ == g.1
            }),
    {
        let p: Vec3 = rng.in_unit_disk();
        let rd: Vec3 = p.scaled(self.lens_radius);
        let offset: Vec3 = self.u.scaled(rd.x).plus(self.v.scaled(rd.y));
        let orig: Point3 = self.origin.plus(offset);
        let dir: Vec3 = self.lower_left
            .plus(self.horizontal.scaled(s))
            .plus(self.vertical.scaled(t))
            .minus(self.origin)
            .minus(offset);
        Ray::new(orig, dir)
    }
}

/// A camera with zero aperture has lens radius zero, and all its rays
/// originate exactly at `lookfrom`, whatever `(s, t)` and the random state.
pub proof fn lemma_pinhole_camera(
    lookfrom: V3,
    lookat: V3,
    vup: V3,
    vfov: int,
    aspect_ratio: int,
    focus_dist: int,
    s: int,
    t: int,
    st: int,
)
    requires
        v_ok(lookfrom),
    ensures
        camera_spec(lookfrom, lookat, vup, vfov, aspect_ratio, 0, focus_dist).lens_radius == 0,
        get_ray_spec(
            camera_spec(lookfrom, lookat, vup, vfov, aspect_ratio, 0, focus_dist),
            s,
            t,
            st,
        ).0.orig == lookfrom,
{
    let c = camera_spec(lookfrom, lookat, vup, vfov, aspect_ratio, 0, focus_dist);
    crate::fixed::lemma_fxmul_zero(FX_HALF as int);
    assert(c.lens_radius == fxmul(FX_HALF as int, 0));
    assert(c.lens_radius == 0);
    let d = rng_in_disk(st, DRAW_TRIES as nat);
    let rd = v_scale(0, d.0);
    crate::fixed::lemma_fxmul_zero(d.0.x);
    crate::fixed::lemma_fxmul_zero(d.0.y);
    assert(rd.x == 0 && rd.y == 0);
    let offset = v_add(v_scale(rd.x, c.u), v_scale(rd.y, c.v));
    crate::fixed::lemma_fxmul_zero(c.u.x);
    crate::fixed::lemma_fxmul_zero(c.u.y);
    crate::fixed::lemma_fxmul_zero(c.u.z);
    crate::fixed::lemma_fxmul_zero(c.v.x);
    crate::fixed::lemma_fxmul_zero(c.v.y);
    crate::fixed::lemma_fxmul_zero(c.v.z);
    assert(offset == v_zero());
    crate::fixed::lemma_fxadd_zero(lookfrom.x);
    crate::fixed::lemma_fxadd_zero(lookfrom.y);
    crate::fixed::lemma_fxadd_zero(lookfrom.z);
    assert(v_add(c.origin, offset).x == lookfrom.x);
    assert(v_add(c.origin, offset).y == lookfrom.y);
    assert(v_add(c.origin, offset).z == lookfrom.z);
    assert(get_ray_spec(c, s, t, st).0.orig == v_add(c.origin, offset));
}

} // verus!
