use orbit_tracer::camera::Camera;
use orbit_tracer::fixed::SCALE;
use orbit_tracer::hittable::{HitRecord, Sphere, World};
use orbit_tracer::material::Material;
use orbit_tracer::ray::Ray;
use orbit_tracer::render::{quantize_channel, ray_color, render_frame, render_frame_parallel};
use orbit_tracer::rng::Rng;
use orbit_tracer::vec3::Vec3;

fn diffuse_gray() -> Material {
    Material::Lambertian { albedo: Vec3::new(SCALE / 2, SCALE / 2, SCALE / 2) }
}

fn unit_sphere_scene() -> World {
    // radius 0.5 at (0, 0, -1), diffuse albedo (0.7, 0.3, 0.3)
    let mat = Material::Lambertian { albedo: Vec3::new(45875, 19660, 19660) };
    let mut world = World::new();
    world.add(Sphere::new(Vec3::new(0, 0, -SCALE), SCALE / 2, mat));
    world
}

#[test]
fn sphere_hit_solves_quadratic_exactly() {
    let world = unit_sphere_scene();
    let ray = Ray::new(Vec3::new(0, 0, 0), Vec3::new(0, 0, -SCALE));
    let rec = world.hit(&ray, 66, i64::MAX / 4).expect("ray must hit the sphere");
    // nearest root of the quadratic: t = 0.5
    assert_eq!(rec.t, SCALE / 2);
    assert_eq!((rec.p.x, rec.p.y, rec.p.z), (0, 0, -SCALE / 2));
}

#[test]
fn hit_point_lies_on_the_sphere() {
    let world = unit_sphere_scene();
    let center = Vec3::new(0, 0, -SCALE);
    let ray = Ray::new(Vec3::new(0, 0, 0), Vec3::new(0, 0, -SCALE));
    let rec = world.hit(&ray, 66, i64::MAX / 4).expect("ray must hit the sphere");
    // |hit_point - center| equals the radius exactly on this axis-aligned hit
    assert_eq!(rec.p.minus(center).len(), SCALE / 2);
}

#[test]
fn front_face_matches_approach_side() {
    let world = unit_sphere_scene();
    // from outside: the direction opposes the outward normal
    let ray = Ray::new(Vec3::new(0, 0, 0), Vec3::new(0, 0, -SCALE));
    let rec = world.hit(&ray, 66, i64::MAX / 4).unwrap();
    assert!(rec.front_face);
    assert_eq!((rec.normal.x, rec.normal.y, rec.normal.z), (0, 0, SCALE));
    assert!(ray.dir.dot(rec.normal) <= 0);
    // from inside: not front-face, and the stored normal is flipped
    let inside = Ray::new(Vec3::new(0, 0, -SCALE), Vec3::new(0, 0, -SCALE));
    let rec2 = world.hit(&inside, 66, i64::MAX / 4).unwrap();
    assert!(!rec2.front_face);
    assert_eq!((rec2.normal.x, rec2.normal.y, rec2.normal.z), (0, 0, SCALE));
    assert!(inside.dir.dot(rec2.normal) <= 0);
}

#[test]
fn composite_list_returns_nearest_hit() {
    let mat = diffuse_gray();
    let mut world = World::new();
    world.add(Sphere::new(Vec3::new(0, 0, -2 * SCALE), SCALE / 2, mat));
    world.add(Sphere::new(Vec3::new(0, 0, -SCALE), SCALE / 2, mat));
    let ray = Ray::new(Vec3::new(0, 0, 0), Vec3::new(0, 0, -SCALE));
    let rec = world.hit(&ray, 66, i64::MAX / 4).unwrap();
    // the closer sphere (t = 0.5) wins over the farther one (t = 1.5)
    assert_eq!(rec.t, SCALE / 2);
}

#[test]
fn ray_color_is_black_at_depth_zero() {
    let world = unit_sphere_scene();
    let ray = Ray::new(Vec3::new(0, 0, 0), Vec3::new(0, 0, -SCALE));
    let mut rng = Rng::seeded(7);
    let c = ray_color(&ray, &world, 0, &mut rng);
    assert_eq!((c.x, c.y, c.z), (0, 0, 0));
    let c2 = ray_color(&ray, &world, -5, &mut rng);
    assert_eq!((c2.x, c2.y, c2.z), (0, 0, 0));
}

#[test]
fn empty_scene_yields_background_gradient() {
    let world = World::new();
    // unit direction straight up: gradient parameter t = 1, the sky color
    let up = Ray::new(Vec3::new(0, 0, 0), Vec3::new(0, SCALE, 0));
    let mut rng = Rng::seeded(3);
    let c = ray_color(&up, &world, 8, &mut rng);
    assert_eq!((c.x, c.y, c.z), (SCALE / 2, 45875, SCALE));
    // unit direction straight down: t = 0, white
    let down = Ray::new(Vec3::new(0, 0, 0), Vec3::new(0, -SCALE, 0));
    let c2 = ray_color(&down, &world, 8, &mut rng);
    assert_eq!((c2.x, c2.y, c2.z), (SCALE, SCALE, SCALE));
}

#[test]
fn depth_one_diffuse_hit_is_black() {
    // one bounce reaches the sphere, the recursive call runs out of depth,
    // so the attenuation multiplies black
    let world = unit_sphere_scene();
    let ray = Ray::new(Vec3::new(0, 0, 0), Vec3::new(0, 0, -SCALE));
    let mut rng = Rng::seeded(11);
    let c = ray_color(&ray, &world, 1, &mut rng);
    assert_eq!((c.x, c.y, c.z), (0, 0, 0));
}

fn head_on_hit_record(mat: Material) -> HitRecord {
    HitRecord {
        p: Vec3::new(0, 0, -SCALE / 2),
        normal: Vec3::new(0, 0, SCALE),
        t: SCALE / 2,
        front_face: true,
        mat,
    }
}

#[test]
fn polished_metal_reflects_head_on() {
    let albedo = Vec3::new(52428, 52428, 52428);
    let mat = Material::Metal { albedo, fuzz: 0 };
    let ray = Ray::new(Vec3::new(0, 0, 0), Vec3::new(0, 0, -SCALE));
    let rec = head_on_hit_record(mat);
    let mut rng = Rng::seeded(5);
    let sr = mat.scatter(&ray, &rec, &mut rng).expect("head-on metal must scatter");
    assert_eq!((sr.attenuation.x, sr.attenuation.y, sr.attenuation.z), (52428, 52428, 52428));
    assert_eq!((sr.scattered.dir.x, sr.scattered.dir.y, sr.scattered.dir.z), (0, 0, SCALE));
}

#[test]
fn metal_absorbs_when_reflection_points_inward() {
    let mat = Material::Metal { albedo: Vec3::new(SCALE, SCALE, SCALE), fuzz: 0 };
    // incoming along +z against a +z normal: the reflection points into the
    // surface, dot(reflected, normal) <= 0, so the ray is absorbed
    let ray = Ray::new(Vec3::new(0, 0, -2 * SCALE), Vec3::new(0, 0, SCALE));
    let rec = head_on_hit_record(mat);
    let mut rng = Rng::seeded(5);
    assert!(mat.scatter(&ray, &rec, &mut rng).is_none());
}

#[test]
fn dielectric_refracts_head_on() {
    // head-on: sin_theta = 0, no total internal reflection, and the Schlick
    // probability at normal incidence (~4%) loses against the drawn sample,
    // so the ray passes straight through
    let mat = Material::Dielectric { ir: 98304 };
    let ray = Ray::new(Vec3::new(0, 0, 0), Vec3::new(0, 0, -SCALE));
    let rec = head_on_hit_record(mat);
    let mut rng = Rng::seeded(0);
    let before = rng.state;
    let sr = mat.scatter(&ray, &rec, &mut rng).expect("dielectric always scatters");
    assert_eq!((sr.attenuation.x, sr.attenuation.y, sr.attenuation.z), (SCALE, SCALE, SCALE));
    assert_eq!((sr.scattered.dir.x, sr.scattered.dir.y, sr.scattered.dir.z), (0, 0, -SCALE));
    // one random sample was drawn
    assert_ne!(rng.state, before);
}

#[test]
fn dielectric_total_internal_reflection() {
    // exiting glass (front_face = false, ratio = 1.5) at 45 degrees:
    // ratio * sin_theta > 1 forces reflection, and no sample is drawn
    let mat = Material::Dielectric { ir: 98304 };
    let ray = Ray::new(Vec3::new(-SCALE, 0, 0), Vec3::new(SCALE, 0, -SCALE));
    let rec = HitRecord {
        p: Vec3::new(0, 0, -SCALE / 2),
        normal: Vec3::new(0, 0, SCALE),
        t: SCALE / 2,
        front_face: false,
        mat,
    };
    let mut rng = Rng::seeded(9);
    let before = rng.state;
    let sr = mat.scatter(&ray, &rec, &mut rng).expect("dielectric always scatters");
    assert_eq!(rng.state, before);
    // the reflection flips the z component upward
    assert!(sr.scattered.dir.z > 0);
    assert!(sr.scattered.dir.x > 0);
}

#[test]
fn pinhole_camera_rays_start_at_lookfrom() {
    let lookfrom = Vec3::new(13 * SCALE, 2 * SCALE, 0);
    let cam = Camera::new(
        lookfrom,
        Vec3::new(0, 0, 0),
        Vec3::new(0, SCALE, 0),
        20 * SCALE,
        98304,
        0,
        10 * SCALE,
    );
    let mut rng = Rng::seeded(123);
    let samples: [(i64, i64); 4] = [(0, 0), (SCALE, 0), (SCALE / 2, SCALE / 2), (0, SCALE)];
    for (s, t) in samples {
        let r = cam.get_ray(s, t, &mut rng);
        assert_eq!((r.orig.x, r.orig.y, r.orig.z), (lookfrom.x, lookfrom.y, lookfrom.z));
    }
}

#[test]
fn camera_basis_is_exact_for_axis_aligned_view() {
    let cam = Camera::new(
        Vec3::new(0, 0, SCALE),
        Vec3::new(0, 0, -SCALE),
        Vec3::new(0, SCALE, 0),
        90 * SCALE,
        SCALE,
        2 * SCALE,
        3 * SCALE,
    );
    // w points back toward the viewer, u right, v up, all unit
    assert_eq!((cam.w.x, cam.w.y, cam.w.z), (0, 0, SCALE));
    assert_eq!((cam.u.x, cam.u.y, cam.u.z), (SCALE, 0, 0));
    assert_eq!((cam.v.x, cam.v.y, cam.v.z), (0, SCALE, 0));
    // lens radius is exactly half the aperture
    assert_eq!(cam.lens_radius, SCALE);
}

#[test]
fn quantize_channel_exact_values() {
    // a full-brightness channel clamps just below 1 and quantizes to 255
    assert_eq!(quantize_channel(SCALE, 1), 255);
    // 0.25 gamma-corrects to 0.5, which quantizes to 128
    assert_eq!(quantize_channel(SCALE / 4, 1), 128);
    // averaging: a two-sample sum of 0.5 is 0.25 per sample
    assert_eq!(quantize_channel(SCALE / 2, 2), 128);
    assert_eq!(quantize_channel(0, 1), 0);
    assert_eq!(quantize_channel(-3 * SCALE, 4), 0);
}

fn test_camera() -> Camera {
    Camera::new(
        Vec3::new(0, 0, SCALE),
        Vec3::new(0, 0, -SCALE),
        Vec3::new(0, SCALE, 0),
        90 * SCALE,
        SCALE,
        SCALE / 8,
        2 * SCALE,
    )
}

#[test]
fn seeded_rendering_is_deterministic() {
    let world = unit_sphere_scene();
    let cam = test_camera();
    let a = render_frame(&world, &cam, 4, 4, 2, 3, 42);
    let b = render_frame(&world, &cam, 4, 4, 2, 3, 42);
    assert_eq!(a, b);
    assert_eq!(a.len(), 4 * 4 * 3);
}

#[test]
fn parallel_rendering_matches_sequential() {
    let world = unit_sphere_scene();
    let cam = test_camera();
    let seq = render_frame(&world, &cam, 6, 4, 2, 4, 7);
    let par = render_frame_parallel(&world, &cam, 6, 4, 2, 4, 7);
    assert_eq!(seq, par);
}

#[test]
fn rng_sequences_repeat_per_seed() {
    let mut a = Rng::seeded(99);
    let mut b = Rng::seeded(99);
    for _ in 0..16 {
        let fa = a.next_frac();
        let fb = b.next_frac();
        assert_eq!(fa, fb);
        assert!((0..SCALE).contains(&fa));
    }
}

#[test]
fn random_points_stay_inside_unit_sphere() {
    let mut rng = Rng::seeded(2024);
    for _ in 0..32 {
        let p = rng.in_unit_sphere();
        assert!(p.len_sq() < SCALE);
        let d = rng.in_unit_disk();
        assert!(d.len_sq() < SCALE);
        assert_eq!(d.z, 0);
    }
}
