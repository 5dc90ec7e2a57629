//! The procedural demonstration scene: a large ground sphere, a 22 x 22
//! grid of small randomly placed and randomly shaded spheres, and three
//! large feature spheres. The construction is pinned to a spec function of
//! the random state, so a given seed always builds the same scene.

use vstd::prelude::*;
use crate::fixed::{SCALE, FX_HALF, fxadd, fxmul};
use crate::fixed::{fx_add, fx_mul};
use crate::vec3::{V3, Vec3, v3, v_sub, v_len, v_hadamard};
use crate::rng::{Rng, rng_next, rng_frac, rng_range};
use crate::hittable::{Sphere, SphereV, World};
use crate::material::Material;

verus! {

/// 0.2 in fixed point: the small-sphere radius and height.
pub const FX_02: i64 = 13107;

/// 0.8 in fixed point: the diffuse material cutoff.
pub const FX_08: i64 = 52428;

/// 0.9 in fixed point: the placement jitter and clearance radius.
pub const FX_09: i64 = 58982;

/// 0.95 in fixed point: the metal material cutoff.
pub const FX_095: i64 = 62259;

/// 1.5 in fixed point: the glass refractive index.
pub const FX_15: i64 = 98304;

/// Three fraction draws making a random color in `[0, 1)^3`.
pub open spec fn color_draw(s: int) -> (V3, int) {
    let x = rng_frac(s);
    let s1 = rng_next(s);
    let y = rng_frac(s1);
    let s2 = rng_next(s1);
    let z = rng_frac(s2);
    (V3 { x, y, z }, rng_next(s2))
}

/// Three range draws making a random color in `[min, max)^3`.
pub open spec fn color_range_draw(s: int, min: int, max: int) -> (V3, int) {
    let x = rng_range(s, min, max);
    let s1 = rng_next(s);
    let y = rng_range(s1, min, max);
    let s2 = rng_next(s1);
    let z = rng_range(s2, min, max);
    (V3 { x, y, z }, rng_next(s2))
}

/// The spec-level vector narrowed to the executable representation.
pub open spec fn vec3_of(a: V3) -> Vec3 {
    Vec3 { x: a.x as i64, y: a.y as i64, z: a.z as i64 }
}

/// One grid cell: a material choice, a jittered center, and, when the spot
/// is clear of the front feature sphere, a small sphere of the chosen kind.
pub open spec fn scene_cell(s: int, a: int, b: int) -> (Option<SphereV>, int) {
    let choose_mat = rng_frac(s);
    let s1 = rng_next(s);
    let cx = fxadd(a * (SCALE as int), fxmul(FX_09 as int, rng_frac(s1)));
    let s2 = rng_next(s1);
    let cz = fxadd(b * (SCALE as int), fxmul(FX_09 as int, rng_frac(s2)));
    let s3 = rng_next(s2);
    let center = V3 { x: cx, y: FX_02 as int, z: cz };
    if v_len(v_sub(center, v3(4 * (SCALE as int), FX_02 as int, 0))) > FX_09 as int {
        if choose_mat < FX_08 as int {
            let c1 = color_draw(s3);
            let c2 = color_draw(c1.1);
            let albedo = vec3_of(v_hadamard(c1.0, c2.0));
            (
                Some(
                    SphereV {
                        center,
                        radius: FX_02 as int,
                        mat: Material::Lambertian { albedo },
                    },
                ),
                c2.1,
            )
        } else if choose_mat < FX_095 as int {
            let c = color_range_draw(s3, FX_HALF as int, SCALE as int);
            let fuzz = rng_range(c.1, FX_HALF as int, SCALE as int);
            (
                Some(
                    SphereV {
                        center,
                        radius: FX_02 as int,
                        mat: Material::Metal {
                            albedo: vec3_of(c.0),
                            fuzz: fuzz as i64,
                        },
                    },
                ),
                rng_next(c.1),
            )
        } else {
            (
                Some(
                    SphereV {
                        center,
                        radius: FX_02 as int,
                        mat: Material::Dielectric { ir: FX_15 },
                    },
                ),
                s3,
            )
        }
    } else {
        (None, s3)
    }
}

/// Walk the 22 x 22 grid in row-major order, accumulating the spheres the
/// cells produce; `k` is the flattened cell index.
pub open spec fn cells_from(s: int, k: int, acc: Seq<SphereV>) -> (Seq<SphereV>, int)
    decreases 484 - k,
{
    if k < 0 || k >= 484 {
        (acc, s)
    } else {
        let c = scene_cell(s, k / 22 - 11, k % 22 - 11);
        match c.0 {
            Some(sp) => cells_from(c.1, k + 1, acc.push(sp)),
            None => cells_from(c.1, k + 1, acc),
        }
    }
}

pub open spec fn ground_sphere() -> SphereV {
    SphereV {
        center: v3(0, -1000 * (SCALE as int), 0),
        radius: 1000 * (SCALE as int),
        mat: Material::Lambertian {
            albedo: Vec3 { x: FX_HALF, y: FX_HALF, z: FX_HALF },
        },
    }
}

pub open spec fn feature_spheres() -> Seq<SphereV> {
    seq![
        SphereV {
            center: v3(0, SCALE as int, 0),
            radius: SCALE as int,
            mat: Material::Dielectric { ir: FX_15 },
        },
        SphereV {
            center: v3(-4 * (SCALE as int), SCALE as int, 0),
            radius: SCALE as int,
            mat: Material::Lambertian { albedo: Vec3 { x: 26214, y: 13107, z: 6553 } },
        },
        SphereV {
            center: v3(4 * (SCALE as int), SCALE as int, 0),
            radius: SCALE as int,
            mat: Material::Metal { albedo: Vec3 { x: 45875, y: 39321, z: 32768 }, fuzz: 0 },
        },
    ]
}

/// The whole scene as a function of the initial random state.
pub open spec fn scene_spec(s: int) -> (Seq<SphereV>, int) {
    let cells = cells_from(s, 0, seq![ground_sphere()]);
    (cells.0 + feature_spheres(), cells.1)
}

fn random_color(rng: &mut Rng) -> (c: Vec3)
    ensures
        c@ == color_draw(old(rng)@).0,
        final(rng)@ == color_draw(old(rng)@).1,
{
    let x: i64 = rng.next_frac();
    let y: i64 = rng.next_frac();
    let z: i64 = rng.next_frac();
    Vec3::new(x, y, z)
}

fn random_color_range(rng: &mut Rng, min: i64, max: i64) -> (c: Vec3)
    ensures
        c@ == color_range_draw(old(rng)@, min as int, max as int).0,
        final(rng)@ == color_range_draw(old(rng)@, min as int, max as int).1,
{
    let x: i64 = rng.next_range(min, max);
    let y: i64 = rng.next_range(min, max);
    let z: i64 = rng.next_range(min, max);
    Vec3::new(x, y, z)
}

fn build_cell(rng: &mut Rng, a: i64, b: i64) -> (res: Option<Sphere>)
    requires
        -11 <= a <= 11,
        -11 <= b <= 11,
    ensures
        ({
            let c = scene_cell(old(rng)@, a as int, b as int);
            final(rng)@ == c.1 && match res {
                Some(sp) => c.0 matches Some(v) && sp@ == v,
                None => c.0 is None,
            }
        }),
{
    let choose_mat: i64 = rng.next_frac();
    let cx: i64 = fx_add(a * SCALE, fx_mul(FX_09, rng.next_frac()));
    let cz: i64 = fx_add(b * SCALE, fx_mul(FX_09, rng.next_frac()));
    let center: Vec3 = Vec3::new(cx, FX_02, cz);
    if center.minus(Vec3::new(4 * SCALE, FX_02, 0)).len() > FX_09 {
        if choose_mat < FX_08 {
            let c1: Vec3 = random_color(rng);
            let c2: Vec3 = random_color(rng);
            let albedo: Vec3 = c1.hadamard(c2);
            Some(Sphere::new(center, FX_02, Material::Lambertian { albedo }))
        } else if choose_mat < FX_095 {
            let albedo: Vec3 = random_color_range(rng, FX_HALF, SCALE);
            let fuzz: i64 = rng.next_range(FX_HALF, SCALE);
            Some(Sphere::new(center, FX_02, Material::Metal { albedo, fuzz }))
        } else {
            Some(Sphere::new(center, FX_02, Material::Dielectric { ir: FX_15 }))
        }
    } else {
        None
    }
}

/// Build the demonstration scene from an explicit random source; the result
/// and the final random state are functions of the initial state alone.
pub fn random_scene(rng: &mut Rng) -> (w: World)
    ensures
        w@ == scene_spec(old(rng)@).0,
        final(rng)@ == scene_spec(old(rng)@).1,
{
    let ghost s0: int = rng@;
    let mut world: World = World::new();
    world.add(
        Sphere::new(
            Vec3::new(0, -1000 * SCALE, 0),
            1000 * SCALE,
            Material::Lambertian { albedo: Vec3::new(FX_HALF, FX_HALF, FX_HALF) },
        ),
    );
    proof {
        assert(world@ =~= seq![ground_sphere()]);
    }
    let mut k: usize = 0;
    while k < 484
        invariant
            k <= 484,
            cells_from(s0, 0, seq![ground_sphere()]) == cells_from(rng@, k as int, world@),
        decreases 484 - k,
    {
        let a: i64 = (k / 22) as i64 - 11;
        let b: i64 = (k % 22) as i64 - 11;
        match build_cell(rng, a, b) {
            Some(s) => world.add(s),
            None => {},
        }
        k = k + 1;
    }
    let ghost cells: (Seq<SphereV>, int) = cells_from(s0, 0, seq![ground_sphere()]);
    world.add(Sphere::new(Vec3::new(0, SCALE, 0), SCALE, Material::Dielectric { ir: FX_15 }));
    world.add(
        Sphere::new(
            Vec3::new(-4 * SCALE, SCALE, 0),
            SCALE,
            Material::Lambertian { albedo: Vec3::new(26214, 13107, 6553) },
        ),
    );
    world.add(
        Sphere::new(
            Vec3::new(4 * SCALE, SCALE, 0),
            SCALE,
            Material::Metal { albedo: Vec3::new(45875, 39321, 32768), fuzz: 0 },
        ),
    );
    proof {
        assert(world@ =~= cells.0 + feature_spheres());
    }
    world
}

} // verus!
