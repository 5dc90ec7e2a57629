//! The scattering model: diffuse (Lambertian), metal with fuzz, and
//! dielectric with Schlick reflectance. `scatter` yields an attenuation and
//! an outgoing ray, or `None` for full absorption.

use vstd::prelude::*;
use crate::fixed::{SCALE, FX_TWO, fxadd, fxsub, fxneg, fxmul, fxdiv, fxsqrt, absi};
use crate::fixed::{fx_add, fx_sub, fx_neg, fx_mul, fx_div, fx_sqrt};
use crate::vec3::{
    V3, Vec3, Color, v3, v_add, v_sub, v_neg, v_scale, v_dot, v_len_sq, v_unit, v_near_zero,
};
use crate::ray::{Ray, RayV};
use crate::hittable::{HitRecord, HitV};
use crate::rng::{Rng, rng_next, rng_frac, rng_unit_vec, rng_in_sphere, DRAW_TRIES};

verus! {

/// An immutable material configuration, shared by value across spheres.
#[derive(Clone, Copy)]
pub enum Material {
    Lambertian { albedo: Color },
    Metal { albedo: Color, fuzz: i64 },
    Dielectric { ir: i64 },
}

/// Mirror reflection of `d` about the unit normal `n`: `d - 2*dot(d,n)*n`.
pub open spec fn reflect_spec(d: V3, n: V3) -> V3 {
    v_sub(d, v_scale(fxmul(FX_TWO as int, v_dot(d, n)), n))
}

/// Snell refraction of the unit direction `uv` through the normal `n`.
pub open spec fn refract_spec(uv: V3, n: V3, etai_over_etat: int) -> V3 {
    let cos_theta = if v_dot(v_neg(uv), n) > SCALE as int {
        SCALE as int
    } else {
        v_dot(v_neg(uv), n)
    };
    let r_out_perp = v_scale(etai_over_etat, v_add(uv, v_scale(cos_theta, n)));
    let r_out_parallel = v_scale(
        fxneg(fxsqrt(absi(fxsub(SCALE as int, v_len_sq(r_out_perp))))),
        n,
    );
    v_add(r_out_perp, r_out_parallel)
}

/// Schlick's approximation of the reflectance probability.
pub open spec fn reflectance_spec(cos_theta: int, ratio: int) -> int {
    let r0a = fxdiv(fxsub(SCALE as int, ratio), fxadd(SCALE as int, ratio));
    let r0 = fxmul(r0a, r0a);
    let omc = fxsub(SCALE as int, cos_theta);
    let p5 = fxmul(fxmul(fxmul(fxmul(omc, omc), omc), omc), omc);
    fxadd(r0, fxmul(fxsub(SCALE as int, r0), p5))
}

/// Diffuse scattering: normal plus a random unit vector, with the normal as
/// fallback for a degenerate direction. Never absorbs.
pub open spec fn lambertian_spec(albedo: V3, rec: HitV, s: int) -> (Option<(V3, RayV)>, int) {
    let d = rng_unit_vec(s);
    let dir0 = v_add(rec.normal, d.0);
    let dir = if v_near_zero(dir0) {
        rec.normal
    } else {
        dir0
    };
    (Some((albedo, RayV { orig: rec.p, dir })), d.1)
}

/// Metal scattering: fuzzed mirror reflection, absorbed when the result
/// points into the surface.
pub open spec fn metal_spec(albedo: V3, fuzz: int, r_in: RayV, rec: HitV, s: int) -> (
    Option<(V3, RayV)>,
    int,
) {
    let reflected = reflect_spec(v_unit(r_in.dir), rec.normal);
    let d = rng_in_sphere(s, DRAW_TRIES as nat);
    let dir = v_add(reflected, v_scale(fuzz, d.0));
    if v_dot(dir, rec.normal) > 0 {
        (Some((albedo, RayV { orig: rec.p, dir })), d.1)
    } else {
        (None, d.1)
    }
}

/// The effective refraction ratio on a dielectric hit.
pub open spec fn dielectric_ratio(ir: int, front_face: bool) -> int {
    if front_face {
        fxdiv(SCALE as int, ir)
    } else {
        ir
    }
}

/// Dielectric scattering: reflect on total internal reflection, otherwise
/// draw one sample against the Schlick reflectance; attenuation is white.
pub open spec fn dielectric_spec(ir: int, r_in: RayV, rec: HitV, s: int) -> (
    Option<(V3, RayV)>,
    int,
) {
    let ratio = dielectric_ratio(ir, rec.front_face);
    let unit_dir = v_unit(r_in.dir);
    let cos_theta = if v_dot(v_neg(unit_dir), rec.normal) > SCALE as int {
        SCALE as int
    } else {
        v_dot(v_neg(unit_dir), rec.normal)
    };
    let sin_theta = fxsqrt(fxsub(SCALE as int, fxmul(cos_theta, cos_theta)));
    let white = v3(SCALE as int, SCALE as int, SCALE as int);
    if fxmul(ratio, sin_theta) > SCALE as int {
        let dir = reflect_spec(unit_dir, rec.normal);
        (Some((white, RayV { orig: rec.p, dir })), s)
    } else {
        let f = rng_frac(s);
        let dir = if f < reflectance_spec(cos_theta, ratio) {
            reflect_spec(unit_dir, rec.normal)
        } else {
            refract_spec(unit_dir, rec.normal, ratio)
        };
        (Some((white, RayV { orig: rec.p, dir })), rng_next(s))
    }
}

/// One scatter event for any material, threading the random state.
pub open spec fn scatter_spec(mat: Material, r_in: RayV, rec: HitV, s: int) -> (
    Option<(V3, RayV)>,
    int,
) {
    match mat {
        Material::Lambertian { albedo } => lambertian_spec(albedo@, rec, s),
        Material::Metal { albedo, fuzz } => metal_spec(albedo@, fuzz as int, r_in, rec, s),
        Material::Dielectric { ir } => dielectric_spec(ir as int, r_in, rec, s),
    }
}

/// Diffuse scattering never absorbs: it always yields its albedo and a ray.
pub proof fn lemma_lambertian_always_scatters(albedo: V3, rec: HitV, s: int)
    ensures
        lambertian_spec(albedo, rec, s).0 is Some,
        lambertian_spec(albedo, rec, s).0.unwrap().0 == albedo,
{
}

/// Metal scattering absorbs exactly when the fuzzed reflected direction does
/// not point out of the surface: `dot(direction, normal) <= 0`.
pub proof fn lemma_metal_absorbs(albedo: V3, fuzz: int, r_in: RayV, rec: HitV, s: int)
    ensures
        ({
            let d = rng_in_sphere(s, DRAW_TRIES as nat);
            let dir = v_add(reflect_spec(v_unit(r_in.dir), rec.normal), v_scale(fuzz, d.0));
            (metal_spec(albedo, fuzz, r_in, rec, s).0 is None) == (v_dot(dir, rec.normal) <= 0)
        }),
{
}

/// The dielectric always scatters with white attenuation; it must reflect on
/// total internal reflection (`ratio * sin_theta > 1`), and otherwise
/// refracts exactly when the drawn sample is at least the Schlick
/// reflectance.
pub proof fn lemma_dielectric_branches(ir: int, r_in: RayV, rec: HitV, s: int)
    ensures
        ({
            let ratio = dielectric_ratio(ir, rec.front_face);
            let unit_dir = v_unit(r_in.dir);
            let cos_theta = if v_dot(v_neg(unit_dir), rec.normal) > SCALE as int {
                SCALE as int
            } else {
                v_dot(v_neg(unit_dir), rec.normal)
            };
            let sin_theta = fxsqrt(fxsub(SCALE as int, fxmul(cos_theta, cos_theta)));
            let res = dielectric_spec(ir, r_in, rec, s);
            res.0 is Some && res.0.unwrap().0 == v3(SCALE as int, SCALE as int, SCALE as int)
                && (fxmul(ratio, sin_theta) > SCALE as int ==> res.0.unwrap().1.dir
                == reflect_spec(unit_dir, rec.normal) && res.1 == s) && (fxmul(ratio, sin_theta)
                <= SCALE as int && rng_frac(s) < reflectance_spec(cos_theta, ratio)
                ==> res.0.unwrap().1.dir == reflect_spec(unit_dir, rec.normal)) && (fxmul(
                ratio,
                sin_theta,
            ) <= SCALE as int && rng_frac(s) >= reflectance_spec(cos_theta, ratio)
                ==> res.0.unwrap().1.dir == refract_spec(unit_dir, rec.normal, ratio))
        }),
{
}

/// An attenuation color and the scattered ray.
pub struct ScatterRecord {
    pub attenuation: Color,
    pub scattered: Ray,
}

impl View for ScatterRecord {
    type V = (V3, RayV);

    open spec fn view(&self) -> (V3, RayV) {
        (self.attenuation@, self.scattered@)
    }
}

fn reflect(d: Vec3, n: Vec3) -> (r: Vec3)
    ensures
        r@ == reflect_spec(d@, n@),
{
    d.minus(n.scaled(fx_mul(FX_TWO, d.dot(n))))
}

fn refract(uv: Vec3, n: Vec3, etai_over_etat: i64) -> (r: Vec3)
    ensures
        r@ == refract_spec(uv@, n@, etai_over_etat as int),
{
    let d: i64 = uv.negate().dot(n);
    let cos_theta: i64 = if d > SCALE {
        SCALE
    } else {
        d
    };
    let r_out_perp: Vec3 = uv.plus(n.scaled(cos_theta)).scaled(etai_over_etat);
    let ls: i64 = r_out_perp.len_sq();
    let rem: i64 = fx_sub(SCALE, ls);
    let rem_abs: i64 = if rem < 0 {
        fx_neg(rem)
    } else {
        rem
    };
    let r_out_parallel: Vec3 = n.scaled(fx_neg(fx_sqrt(rem_abs)));
    r_out_perp.plus(r_out_parallel)
}

fn reflectance(cos_theta: i64, ratio: i64) -> (r: i64)
    ensures
        r as int == reflectance_spec(cos_theta as int, ratio as int),
{
    let r0a: i64 = fx_div(fx_sub(SCALE, ratio), fx_add(SCALE, ratio));
    let r0: i64 = fx_mul(r0a, r0a);
    let omc: i64 = fx_sub(SCALE, cos_theta);
    let p5: i64 = fx_mul(fx_mul(fx_mul(fx_mul(omc, omc), omc), omc), omc);
    fx_add(r0, fx_mul(fx_sub(SCALE, r0), p5))
}

impl Material {
    /// Scatter an incoming ray at a hit: `None` signals full absorption.
    pub fn scatter(&self, r_in: &Ray, rec: &HitRecord, rng: &mut Rng) -> (res: Option<
        ScatterRecord,
    >)
        ensures
            ({
                let sc = scatter_spec(*self, r_in@, rec@, old(rng)@);
                final(rng)@ == sc.1 && match res {
                    Some(sr) => sc.0 matches Some(av) && sr@ == av,
                    None => sc.0 is None,
                }
            }),
    {
        match *self {
            Material::Lambertian { albedo } => {
                let d: Vec3 = rng.unit_vec();
                let dir0: Vec3 = rec.normal.plus(d);
                let dir: Vec3 = if dir0.near_zero() {
                    rec.normal
                } else {
                    dir0
                };
                Some(
                    ScatterRecord { attenuation: albedo, scattered: Ray::new(rec.p, dir) },
                )
            },
            Material::Metal { albedo, fuzz } => {
                let reflected: Vec3 = reflect(r_in.dir.unit(), rec.normal);
                let p: Vec3 = rng.in_unit_sphere();
                let dir: Vec3 = reflected.plus(p.scaled(fuzz));
                if dir.dot(rec.normal) > 0 {
                    Some(
                        ScatterRecord { attenuation: albedo, scattered: Ray::new(rec.p, dir) },
                    )
                } else {
                    None
                }
            },
            Material::Dielectric { ir } => {
                let ratio: i64 = if rec.front_face {
                    fx_div(SCALE, ir)
                } else {
                    ir
                };
                let unit_dir: Vec3 = r_in.dir.unit();
                let d: i64 = unit_dir.negate().dot(rec.normal);
                let cos_theta: i64 = if d > SCALE {
                    SCALE
                } else {
                    d
                };
                let sin_theta: i64 = fx_sqrt(fx_sub(SCALE, fx_mul(cos_theta, cos_theta)));
                let white: Color = Vec3::new(SCALE, SCALE, SCALE);
                let dir: Vec3 = if fx_mul(ratio, sin_theta) > SCALE {
                    reflect(unit_dir, rec.normal)
                } else {
                    let f: i64 = rng.next_frac();
                    if f < reflectance(cos_theta, ratio) {
                        reflect(unit_dir, rec.normal)
                    } else {
                        refract(unit_dir, rec.normal, ratio)
                    }
                };
                Some(ScatterRecord { attenuation: white, scattered: Ray::new(rec.p, dir) })
            },
        }
    }
}

} // verus!
