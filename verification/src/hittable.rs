//! Ray-sphere intersection and the composite world list. `hit` returns the
//! nearest intersection whose parameter lies strictly inside `(t_min, t_max)`.

use vstd::prelude::*;
use crate::fixed::{fxadd, fxsub, fxneg, fxmul, fxdiv, fxsqrt};
use crate::fixed::{fx_add, fx_sub, fx_neg, fx_mul, fx_div, fx_sqrt};
use crate::vec3::{V3, Vec3, Point3, v_ok, v_sub, v_neg, v_dot, v_len_sq, lemma_vdot_neg};
use crate::ray::{Ray, RayV, ray_at};
use crate::material::Material;

verus! {

/// Spec-level sphere.
pub struct SphereV {
    pub center: V3,
    pub radius: int,
    pub mat: Material,
}

/// A sphere with its material. Invariant (documented, per the scene
/// construction contract): `radius > 0`.
#[derive(Clone, Copy)]
pub struct Sphere {
    pub center: Point3,
    pub radius: i64,
    pub mat: Material,
}

impl View for Sphere {
    type V = SphereV;

    open spec fn view(&self) -> SphereV {
        SphereV { center: self.center@, radius: self.radius as int, mat: self.mat }
    }
}

/// Spec-level hit record.
pub struct HitV {
    pub p: V3,
    pub normal: V3,
    pub t: int,
    pub front_face: bool,
    pub mat: Material,
}

/// The result of a successful intersection: position, oriented unit normal,
/// ray parameter, face orientation and the surface material.
pub struct HitRecord {
    pub p: Point3,
    pub normal: Vec3,
    pub t: i64,
    pub front_face: bool,
    pub mat: Material,
}

impl View for HitRecord {
    type V = HitV;

    open spec fn view(&self) -> HitV {
        HitV {
            p: self.p@,
            normal: self.normal@,
            t: self.t as int,
            front_face: self.front_face,
            mat: self.mat,
        }
    }
}

/// Componentwise division of a vector by a scalar.
pub open spec fn v_div_s(a: V3, k: int) -> V3 {
    V3 { x: fxdiv(a.x, k), y: fxdiv(a.y, k), z: fxdiv(a.z, k) }
}

/// The geometric outward normal of a sphere at point `p`.
pub open spec fn sphere_outward_normal(s: SphereV, p: V3) -> V3 {
    v_div_s(v_sub(p, s.center), s.radius)
}

/// The hit record built for parameter `root` on sphere `s`.
pub open spec fn sphere_record(s: SphereV, r: RayV, root: int) -> HitV {
    let p = ray_at(r, root);
    let outward = sphere_outward_normal(s, p);
    let front = v_dot(r.dir, outward) < 0;
    HitV {
        p,
        normal: if front {
            outward
        } else {
            v_neg(outward)
        },
        t: root,
        front_face: front,
        mat: s.mat,
    }
}

/// Ray-sphere intersection: solve the quadratic, take the smaller root in
/// `(t_min, t_max)`, else the larger, else none.
pub open spec fn sphere_hit(s: SphereV, r: RayV, t_min: int, t_max: int) -> Option<HitV> {
    let oc = v_sub(r.orig, s.center);
    let a = v_len_sq(r.dir);
    let half_b = v_dot(oc, r.dir);
    let c = fxsub(v_len_sq(oc), fxmul(s.radius, s.radius));
    let disc = fxsub(fxmul(half_b, half_b), fxmul(a, c));
    if disc < 0 {
        None
    } else {
        let sqrtd = fxsqrt(disc);
        let root1 = fxdiv(fxsub(fxneg(half_b), sqrtd), a);
        if t_min < root1 && root1 < t_max {
            Some(sphere_record(s, r, root1))
        } else {
            let root2 = fxdiv(fxadd(fxneg(half_b), sqrtd), a);
            if t_min < root2 && root2 < t_max {
                Some(sphere_record(s, r, root2))
            } else {
                None
            }
        }
    }
}

impl Sphere {
    pub fn new(center: Point3, radius: i64, mat: Material) -> (s: Sphere)
        requires
            radius > 0,
        ensures
            s@ == (SphereV { center: center@, radius: radius as int, mat }),
    {
        Sphere { center, radius, mat }
    }

    fn record_at(&self, r: &Ray, root: i64) -> (rec: HitRecord)
        ensures
            rec@ == sphere_record(self@, r@, root as int),
    {
        let p: Point3 = r.at(root);
        let diff: Vec3 = p.minus(self.center);
        let outward: Vec3 = Vec3::new(
            fx_div(diff.x, self.radius),
            fx_div(diff.y, self.radius),
            fx_div(diff.z, self.radius),
        );
        let front: bool = r.dir.dot(outward) < 0;
        let normal: Vec3 = if front {
            outward
        } else {
            outward.negate()
        };
        HitRecord { p, normal, t: root, front_face: front, mat: self.mat }
    }

    /// Nearest intersection of `r` with this sphere strictly inside
    /// `(t_min, t_max)`, or `None`.
    pub fn hit(&self, r: &Ray, t_min: i64, t_max: i64) -> (res: Option<HitRecord>)
        ensures
            ({
                let sh = sphere_hit(self@, r@, t_min as int, t_max as int);
                match res {
                    Some(rec) => sh matches Some(h) && rec@ == h,
                    None => sh is None,
                }
            }),
    {
        let oc: Vec3 = r.orig.minus(self.center);
        let a: i64 = r.dir.len_sq();
        let half_b: i64 = oc.dot(r.dir);
        let c: i64 = fx_sub(oc.len_sq(), fx_mul(self.radius, self.radius));
        let disc: i64 = fx_sub(fx_mul(half_b, half_b), fx_mul(a, c));
        if disc < 0 {
            return None;
        }
        let sqrtd: i64 = fx_sqrt(disc);
        let root1: i64 = fx_div(fx_sub(fx_neg(half_b), sqrtd), a);
        if t_min < root1 && root1 < t_max {
            return Some(self.record_at(r, root1));
        }
        let root2: i64 = fx_div(fx_add(fx_neg(half_b), sqrtd), a);
        if t_min < root2 && root2 < t_max {
            return Some(self.record_at(r, root2));
        }
        None
    }
}

/// An accepted sphere intersection lies strictly inside `(t_min, t_max)`,
/// its point is the ray evaluated at the accepted parameter, and it carries
/// the sphere's material.
pub proof fn lemma_hit_on_ray(s: SphereV, r: RayV, t_min: int, t_max: int)
    requires
        sphere_hit(s, r, t_min, t_max) is Some,
    ensures
        ({
            let h = sphere_hit(s, r, t_min, t_max).unwrap();
            t_min < h.t && h.t < t_max && h.p == ray_at(r, h.t) && h.mat == s.mat
        }),
{
}

/// `front_face` is exactly "the ray direction points against the geometric
/// outward normal", and the stored normal never points along the ray:
/// `dot(direction, stored_normal) <= 0`.
pub proof fn lemma_hit_face_orientation(s: SphereV, r: RayV, t_min: int, t_max: int)
    requires
        sphere_hit(s, r, t_min, t_max) is Some,
    ensures
        ({
            let h = sphere_hit(s, r, t_min, t_max).unwrap();
            h.front_face == (v_dot(r.dir, sphere_outward_normal(s, h.p)) < 0)
                && v_dot(r.dir, h.normal) <= 0
        }),
{
    let h = sphere_hit(s, r, t_min, t_max).unwrap();
    let outward = sphere_outward_normal(s, h.p);
    crate::fixed::lemma_fxdiv_ok(v_sub(h.p, s.center).x, s.radius);
    crate::fixed::lemma_fxdiv_ok(v_sub(h.p, s.center).y, s.radius);
    crate::fixed::lemma_fxdiv_ok(v_sub(h.p, s.center).z, s.radius);
    assert(v_ok(outward));
    if !h.front_face {
        lemma_vdot_neg(r.dir, outward);
    }
}

/// The composite hit, mirroring a left-to-right scan that shrinks the far
/// bound to the closest parameter found so far.
pub open spec fn list_hit_scan(
    objs: Seq<SphereV>,
    i: int,
    r: RayV,
    t_min: int,
    closest: int,
    best: Option<HitV>,
) -> Option<HitV>
    decreases objs.len() - i,
{
    if i < 0 || i >= objs.len() {
        best
    } else {
        match sphere_hit(objs[i], r, t_min, closest) {
            Some(h) => list_hit_scan(objs, i + 1, r, t_min, h.t, Some(h)),
            None => list_hit_scan(objs, i + 1, r, t_min, closest, best),
        }
    }
}

/// The nearest hit among all members of the list inside `(t_min, t_max)`.
pub open spec fn list_hit(objs: Seq<SphereV>, r: RayV, t_min: int, t_max: int) -> Option<
    HitV,
> {
    list_hit_scan(objs, 0, r, t_min, t_max, None)
}

/// An ordered collection of spheres.
pub struct World {
    pub objects: Vec<Sphere>,
}

impl View for World {
    type V = Seq<SphereV>;

    open spec fn view(&self) -> Seq<SphereV> {
        self.objects@.map_values(|s: Sphere| s@)
    }
}

impl World {
    pub fn new() -> (w: World)
        ensures
            w@ == Seq::<SphereV>::empty(),
    {
        World { objects: Vec::new() }
    }

    pub fn add(&mut self, s: Sphere)
        ensures
            final(self)@ == old(self)@.push(s@),
    {
        self.objects.push(s);
        proof {
            assert(self@ =~= old(self)@.push(s@));
        }
    }

    pub fn count(&self) -> (n: usize)
        ensures
            n == self@.len(),
    {
        self.objects.len()
    }

    /// The globally nearest hit in `(t_min, t_max)` among all members.
    pub fn hit(&self, r: &Ray, t_min: i64, t_max: i64) -> (res: Option<HitRecord>)
        ensures
            ({
                let lh = list_hit(self@, r@, t_min as int, t_max as int);
                match res {
                    Some(rec) => lh matches Some(h) && rec@ == h,
                    None => lh is None,
                }
            }),
    {
        let mut best: Option<HitRecord> = None;
        let mut closest: i64 = t_max;
        let n: usize = self.objects.len();
        let mut i: usize = 0;
        while i < n
            invariant
                n == self.objects.len(),
                0 <= i <= n,
                ({
                    let bv = match best {
                        Some(rec) => Some(rec@),
                        None => None,
                    };
                    list_hit(self@, r@, t_min as int, t_max as int) == list_hit_scan(
                        self@,
                        i as int,
                        r@,
                        t_min as int,
                        closest as int,
                        bv,
                    )
                }),
            decreases n - i,
        {
            let cur: Option<HitRecord> = self.objects[i].hit(r, t_min, closest);
            match cur {
                Some(rec) => {
                    closest = rec.t;
                    best = Some(rec);
                },
                None => {},
            }
            i = i + 1;
        }
        best
    }
}

} // verus!
