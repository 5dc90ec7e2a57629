use orbit_tracer::fixed::SCALE;
use orbit_tracer::ray::Ray;
use orbit_tracer::render::render_frame;
use orbit_tracer::rng::Rng;
use orbit_tracer::scene::random_scene;
use orbit_tracer::camera::Camera;
use orbit_tracer::vec3::Vec3;

#[test]
fn scene_has_ground_grid_and_features() {
    let mut rng = Rng::seeded(77);
    let world = random_scene(&mut rng);
    // the ground, the three feature spheres, and most of the 22 x 22 grid
    assert!(world.count() >= 4);
    assert!(world.count() <= 4 + 22 * 22);
}

#[test]
fn scene_construction_is_deterministic() {
    let mut a = Rng::seeded(12345);
    let mut b = Rng::seeded(12345);
    let wa = random_scene(&mut a);
    let wb = random_scene(&mut b);
    assert_eq!(wa.count(), wb.count());
    assert_eq!(a.state, b.state);
    // the two scenes intersect a probe ray identically
    let probe = Ray::new(Vec3::new(0, 3 * SCALE, 0), Vec3::new(0, -SCALE, 0));
    let ra = wa.hit(&probe, 66, i64::MAX / 4).expect("probe must hit the ground");
    let rb = wb.hit(&probe, 66, i64::MAX / 4).expect("probe must hit the ground");
    assert_eq!(ra.t, rb.t);
    assert_eq!((ra.p.x, ra.p.y, ra.p.z), (rb.p.x, rb.p.y, rb.p.z));
}

#[test]
fn a_small_frame_of_the_full_scene_renders() {
    let mut rng = Rng::seeded(9);
    let world = random_scene(&mut rng);
    let cam = Camera::new(
        Vec3::new(13 * SCALE, 2 * SCALE, 3 * SCALE),
        Vec3::new(0, 0, 0),
        Vec3::new(0, SCALE, 0),
        20 * SCALE,
        98304,
        6554,
        10 * SCALE,
    );
    let frame = render_frame(&world, &cam, 4, 3, 1, 2, 1);
    assert_eq!(frame.len(), 4 * 3 * 3);
}
