//! The radiance integrator and the frame renderer: recursive path tracing
//! with a bounce-depth limit, stochastic per-pixel sampling, gamma
//! correction, and a row-parallel frame loop.

use vstd::prelude::*;
use rayon::iter::{IntoParallelIterator, ParallelIterator};
use vstd::arithmetic::div_mod::{
    lemma_fundamental_div_mod_converse_div, lemma_fundamental_div_mod_converse_mod,
};
use crate::fixed::{SCALE, FX_MAX, FX_HALF, fxadd, fxsub, fxmul, fxdiv, fxsqrt};
use crate::fixed::{fx_add, fx_div, fx_mul, fx_sqrt, fx_sub};
use crate::vec3::{V3, Vec3, Color, v3, v_zero, v_add, v_scale, v_hadamard, v_unit};
use crate::ray::{Ray, RayV};
use crate::rng::{Rng, rng_next, rng_frac};
use crate::hittable::{World, SphereV, list_hit};
use crate::material::scatter_spec;
use crate::camera::{Camera, CameraV, get_ray_spec};

verus! {

/// Lower intersection bound, suppressing self-intersection at a ray's origin.
pub const T_MIN_FX: i64 = 66;

/// 0.7 in fixed point (the sky gradient's green channel).
pub const FX_07: i64 = 45875;

/// 0.999 in fixed point (the quantization clamp).
pub const FX_0999: i64 = 65470;

/// The sky: white at the bottom of the gradient, blue at the top, keyed by
/// the y component of the normalized ray direction.
pub open spec fn background_spec(r: RayV) -> V3 {
    let ud = v_unit(r.dir);
    let t = fxmul(FX_HALF as int, fxadd(ud.y, SCALE as int));
    v_add(
        v_scale(fxsub(SCALE as int, t), v3(SCALE as int, SCALE as int, SCALE as int)),
        v_scale(t, v3(FX_HALF as int, FX_07 as int, SCALE as int)),
    )
}

/// The color gathered along a ray: black past the depth limit, the scattered
/// recursion attenuated by the material on a hit, the sky otherwise.
pub open spec fn ray_color_spec(r: RayV, objs: Seq<SphereV>, depth: int, st: int) -> (V3, int)
    decreases depth,
{
    if depth <= 0 {
        (v_zero(), st)
    } else {
        match list_hit(objs, r, T_MIN_FX as int, FX_MAX as int) {
            Some(h) => {
                let sc = scatter_spec(h.mat, r, h, st);
                match sc.0 {
                    Some(av) => {
                        let rec = ray_color_spec(av.1, objs, depth - 1, sc.1);
                        (v_hadamard(av.0, rec.0), rec.1)
                    },
                    None => (v_zero(), sc.1),
                }
            },
            None => (background_spec(r), st),
        }
    }
}

fn background(r: &Ray) -> (c: Color)
    ensures
        c@ == background_spec(r@),
{
    let ud: Vec3 = r.dir.unit();
    let t: i64 = fx_mul(FX_HALF, fx_add(ud.y, SCALE));
    let white: Color = Vec3::new(SCALE, SCALE, SCALE);
    let sky: Color = Vec3::new(FX_HALF, FX_07, SCALE);
    white.scaled(fx_sub(SCALE, t)).plus(sky.scaled(t))
}

/// Recursive radiance integrator. Returns exactly black whenever
/// `depth <= 0`, regardless of scene content.
pub fn ray_color(r: &Ray, world: &World, depth: i32, rng: &mut Rng) -> (c: Color)
    ensures
        ({
            let rc = ray_color_spec(r@, world@, depth as int, old(rng)@);
            c@ == rc.0 && final(rng)@ == rc.1
        }),
        depth <= 0 ==> c@ == v_zero(),
    decreases depth,
{
    if depth <= 0 {
        return Vec3::zero();
    }
    match world.hit(r, T_MIN_FX, FX_MAX) {
        Some(rec) => {
            match rec.mat.scatter(r, &rec, rng) {
                Some(sr) => {
                    let c: Color = ray_color(&sr.scattered, world, depth - 1, rng);
                    sr.attenuation.hadamard(c)
                },
                None => Vec3::zero(),
            }
        },
        None => background(r),
    }
}

/// For a scene with zero objects, the integrator at positive depth is
/// exactly the background gradient, for any ray and random state.
pub proof fn lemma_empty_scene_background(r: RayV, objs: Seq<SphereV>, depth: int, st: int)
    requires
        objs.len() == 0,
        depth > 0,
    ensures
        ray_color_spec(r, objs, depth, st).0 == background_spec(r),
        ray_color_spec(r, objs, depth, st).1 == st,
{
    assert(list_hit(objs, r, T_MIN_FX as int, FX_MAX as int) is None);
}

/// Average over the sample count, gamma-correct by square root, clamp to
/// `[0, 0.999]` and quantize to `[0, 255]`.
pub open spec fn quantize(c: int, spp: int) -> int {
    let avg = fxdiv(c, spp * (SCALE as int));
    let g = fxsqrt(avg);
    let cl = if g < 0 {
        0
    } else if g > FX_0999 as int {
        FX_0999 as int
    } else {
        g
    };
    (cl * 256) / (SCALE as int)
}

pub fn quantize_channel(c: i64, spp: u32) -> (b: u8)
    requires
        1 <= spp <= 65536,
    ensures
        b as int == quantize(c as int, spp as int),
        b <= 255,
{
    let sppfx: i64 = (spp as i64) * SCALE;
    let avg: i64 = fx_div(c, sppfx);
    let g: i64 = fx_sqrt(avg);
    let cl: i64 = if g < 0 {
        0
    } else if g > FX_0999 {
        FX_0999
    } else {
        g
    };
    proof {
        assert((cl as int * 256) / 65536 <= 255) by (nonlinear_arith)
            requires
                0 <= cl <= 65470,
        ;
    }
    (((cl as u64) * 256) / 65536) as u8
}

/// The per-pixel random stream: the base seed offset by the pixel's
/// row-major index, mixed by one generator step.
pub open spec fn pixel_seed(seed: int, idx: int) -> int {
    rng_next((seed + idx) % 0x1_0000_0000_0000_0000)
}

/// Accumulate `spp` stochastic samples of the integrator, each through a
/// jittered point in the pixel footprint.
pub open spec fn sample_sum(
    i: int,
    j: int,
    width: int,
    height: int,
    cam: CameraV,
    objs: Seq<SphereV>,
    depth: int,
    spp: int,
    st: int,
    acc: V3,
) -> (V3, int)
    decreases spp,
{
    if spp <= 0 {
        (acc, st)
    } else {
        let fu = rng_frac(st);
        let s1 = rng_next(st);
        let fv = rng_frac(s1);
        let s2 = rng_next(s1);
        let u = fxdiv(fxadd(i * (SCALE as int), fu), (width - 1) * (SCALE as int));
        let v = fxdiv(fxadd(j * (SCALE as int), fv), (height - 1) * (SCALE as int));
        let g = get_ray_spec(cam, u, v, s2);
        let rc = ray_color_spec(g.0, objs, depth, g.1);
        sample_sum(i, j, width, height, cam, objs, depth, spp - 1, rc.1, v_add(acc, rc.0))
    }
}

/// The quantized RGB triple of pixel `(i, j)`.
pub open spec fn pixel_spec(
    objs: Seq<SphereV>,
    cam: CameraV,
    i: int,
    j: int,
    width: int,
    height: int,
    spp: int,
    depth: int,
    seed: int,
) -> (int, int, int) {
    let st0 = pixel_seed(seed, j * width + i);
    let sm = sample_sum(i, j, width, height, cam, objs, depth, spp, st0, v_zero());
    (quantize(sm.0.x, spp), quantize(sm.0.y, spp), quantize(sm.0.z, spp))
}

/// Render one pixel: `spp` jittered samples, averaged and gamma-corrected.
pub fn render_pixel(
    world: &World,
    cam: &Camera,
    i: usize,
    j: usize,
    width: usize,
    height: usize,
    spp: u32,
    depth: i32,
    seed: u64,
) -> (px: (u8, u8, u8))
    requires
        2 <= width <= 4096,
        2 <= height <= 4096,
        i < width,
        j < height,
        1 <= spp <= 65536,
    ensures
        ({
            let p = pixel_spec(
                world@,
                cam@,
                i as int,
                j as int,
                width as int,
                height as int,
                spp as int,
                depth as int,
                seed as int,
            );
            px.0 as int == p.0 && px.1 as int == p.1 && px.2 as int == p.2
        }),
{
    proof {
        assert((j as int) * (width as int) + (i as int) < 0x1000000) by (nonlinear_arith)
            requires
                j < 4096,
                width <= 4096,
                i < width,
        ;
    }
    let idx: usize = j * width + i;
    let s0: u64 = (((seed as u128) + (idx as u128)) % 0x1_0000_0000_0000_0000u128) as u64;
    let mut rng: Rng = Rng::seeded(s0);
    rng.step();
    let ghost st0: int = pixel_seed(seed as int, idx as int);
    let i_fx: i64 = (i as i64) * SCALE;
    let j_fx: i64 = (j as i64) * SCALE;
    let wm1: i64 = ((width - 1) as i64) * SCALE;
    let hm1: i64 = ((height - 1) as i64) * SCALE;
    let mut acc: Color = Vec3::zero();
    let mut k: u32 = 0;
    while k < spp
        invariant
            k <= spp,
            1 <= spp <= 65536,
            2 <= width <= 4096,
            2 <= height <= 4096,
            i < width,
            j < height,
            i_fx == i * (SCALE as int),
            j_fx == j * (SCALE as int),
            wm1 == (width - 1) * (SCALE as int),
            hm1 == (height - 1) * (SCALE as int),
            sample_sum(
                i as int,
                j as int,
                width as int,
                height as int,
                cam@,
                world@,
                depth as int,
                spp as int,
                st0,
                v_zero(),
            ) == sample_sum(
                i as int,
                j as int,
                width as int,
                height as int,
                cam@,
                world@,
                depth as int,
                spp - k,
                rng@,
                acc@,
            ),
        decreases spp - k,
    {
        let fu: i64 = rng.next_frac();
        let fv: i64 = rng.next_frac();
        let u: i64 = fx_div(fx_add(i_fx, fu), wm1);
        let v: i64 = fx_div(fx_add(j_fx, fv), hm1);
        let ray: Ray = cam.get_ray(u, v, &mut rng);
        let c: Color = ray_color(&ray, world, depth, &mut rng);
        acc = acc.plus(c);
        k = k + 1;
    }
    (quantize_channel(acc.x, spp), quantize_channel(acc.y, spp), quantize_channel(acc.z, spp))
}

/// Byte `k` of a rendered row: three channels per pixel, left to right.
pub open spec fn row_byte(
    objs: Seq<SphereV>,
    cam: CameraV,
    j: int,
    width: int,
    height: int,
    spp: int,
    depth: int,
    seed: int,
    k: int,
) -> u8 {
    let i = k / 3;
    let p = pixel_spec(objs, cam, i, j, width, height, spp, depth, seed);
    if k % 3 == 0 {
        p.0 as u8
    } else if k % 3 == 1 {
        p.1 as u8
    } else {
        p.2 as u8
    }
}

/// Render one row of pixels as packed RGB bytes.
#[verifier::rlimit(80)]
pub fn render_row(
    world: &World,
    cam: &Camera,
    j: usize,
    width: usize,
    height: usize,
    spp: u32,
    depth: i32,
    seed: u64,
) -> (row: Vec<u8>)
    requires
        2 <= width <= 4096,
        2 <= height <= 4096,
        j < height,
        1 <= spp <= 65536,
    ensures
        row@.len() == 3 * width,
        forall|k: int|
            0 <= k < 3 * width ==> row@[k] == row_byte(
                world@,
                cam@,
                j as int,
                width as int,
                height as int,
                spp as int,
                depth as int,
                seed as int,
                k,
            ),
{
    let mut row: Vec<u8> = Vec::new();
    let mut i: usize = 0;
    while i < width
        invariant
            i <= width,
            2 <= width <= 4096,
            2 <= height <= 4096,
            j < height,
            1 <= spp <= 65536,
            row@.len() == 3 * i,
            forall|k: int|
                0 <= k < 3 * i ==> row@[k] == row_byte(
                    world@,
                    cam@,
                    j as int,
                    width as int,
                    height as int,
                    spp as int,
                    depth as int,
                    seed as int,
                    k,
                ),
        decreases width - i,
    {
        let px: (u8, u8, u8) = render_pixel(world, cam, i, j, width, height, spp, depth, seed);
        row.push(px.0);
        row.push(px.1);
        row.push(px.2);
        proof {
            let base = 3 * (i as int);
            lemma_fundamental_div_mod_converse_div(base, 3, i as int, 0);
            lemma_fundamental_div_mod_converse_mod(base, 3, i as int, 0);
            lemma_fundamental_div_mod_converse_div(base + 1, 3, i as int, 1);
            lemma_fundamental_div_mod_converse_mod(base + 1, 3, i as int, 1);
            lemma_fundamental_div_mod_converse_div(base + 2, 3, i as int, 2);
            lemma_fundamental_div_mod_converse_mod(base + 2, 3, i as int, 2);
        }
        i = i + 1;
    }
    row
}

/// Append one rendered row to the frame buffer, extending the byte-for-byte
/// frame characterization from `r` rows to `r + 1`.
#[verifier::rlimit(100)]
fn append_row(
    out: &mut Vec<u8>,
    row: &Vec<u8>,
    Ghost(objs): Ghost<Seq<SphereV>>,
    Ghost(camv): Ghost<CameraV>,
    width: usize,
    height: usize,
    spp: u32,
    depth: i32,
    seed: u64,
    r: usize,
)
    requires
        2 <= width <= 4096,
        2 <= height <= 4096,
        r < height,
        row@.len() == 3 * width,
        forall|k: int|
            0 <= k < 3 * width ==> row@[k] == row_byte(
                objs,
                camv,
                height - 1 - r,
                width as int,
                height as int,
                spp as int,
                depth as int,
                seed as int,
                k,
            ),
        old(out)@.len() == 3 * width * r,
        forall|k: int|
            0 <= k < 3 * width * r ==> old(out)@[k] == frame_byte(
                objs,
                camv,
                width as int,
                height as int,
                spp as int,
                depth as int,
                seed as int,
                k,
            ),
    ensures
        final(out)@.len() == 3 * width * (r + 1),
        forall|k: int|
            0 <= k < 3 * width * (r + 1) ==> final(out)@[k] == frame_byte(
                objs,
                camv,
                width as int,
                height as int,
                spp as int,
                depth as int,
                seed as int,
                k,
            ),
{
    let ghost base: int = 3 * width * r;
    let mut m: usize = 0;
    while m < row.len()
        invariant
            m <= row.len(),
            row@.len() == 3 * width,
            2 <= width <= 4096,
            r < height,
            base == 3 * width * r,
            forall|k: int|
                0 <= k < 3 * width ==> row@[k] == row_byte(
                    objs,
                    camv,
                    height - 1 - r,
                    width as int,
                    height as int,
                    spp as int,
                    depth as int,
                    seed as int,
                    k,
                ),
            out@.len() == base + m,
            forall|k: int|
                0 <= k < base ==> out@[k] == frame_byte(
                    objs,
                    camv,
                    width as int,
                    height as int,
                    spp as int,
                    depth as int,
                    seed as int,
                    k,
                ),
            forall|k: int| base <= k < base + m ==> out@[k] == row@[k - base],
        decreases row.len() - m,
    {
        let b: u8 = row[m];
        out.push(b);
        m = m + 1;
    }
    proof {
        assert forall|k: int| base <= k < base + 3 * width implies out@[k] == frame_byte(
            objs,
            camv,
            width as int,
            height as int,
            spp as int,
            depth as int,
            seed as int,
            k,
        ) by {
            let d = 3 * (width as int);
            assert((r as int) * d == d * (r as int)) by (nonlinear_arith);
            assert(k == (r as int) * d + (k - base));
            lemma_fundamental_div_mod_converse_div(k, d, r as int, k - base);
            lemma_fundamental_div_mod_converse_mod(k, d, r as int, k - base);
        }
        assert(3 * (width as int) * (r as int + 1) == base + 3 * (width as int))
            by (nonlinear_arith)
            requires
                base == 3 * (width as int) * (r as int),
        ;
    }
}

/// Byte `k` of the full frame: rows ordered top to bottom, so output row `r`
/// is world row `height - 1 - r`.
pub open spec fn frame_byte(
    objs: Seq<SphereV>,
    cam: CameraV,
    width: int,
    height: int,
    spp: int,
    depth: int,
    seed: int,
    k: int,
) -> u8 {
    let r = k / (3 * width);
    let off = k % (3 * width);
    row_byte(objs, cam, height - 1 - r, width, height, spp, depth, seed, off)
}

/// Render a whole frame sequentially: `width * height` RGB triples, rows
/// top to bottom, every byte pinned to `frame_byte`.
pub fn render_frame(
    world: &World,
    cam: &Camera,
    width: usize,
    height: usize,
    spp: u32,
    depth: i32,
    seed: u64,
) -> (out: Vec<u8>)
    requires
        2 <= width <= 4096,
        2 <= height <= 4096,
        1 <= spp <= 65536,
    ensures
        out@.len() == 3 * width * height,
        forall|k: int|
            0 <= k < 3 * width * height ==> out@[k] == frame_byte(
                world@,
                cam@,
                width as int,
                height as int,
                spp as int,
                depth as int,
                seed as int,
                k,
            ),
{
    let mut out: Vec<u8> = Vec::new();
    let mut r: usize = 0;
    while r < height
        invariant
            r <= height,
            2 <= width <= 4096,
            2 <= height <= 4096,
            1 <= spp <= 65536,
            out@.len() == 3 * width * r,
            forall|k: int|
                0 <= k < 3 * width * r ==> out@[k] == frame_byte(
                    world@,
                    cam@,
                    width as int,
                    height as int,
                    spp as int,
                    depth as int,
                    seed as int,
                    k,
                ),
        decreases height - r,
    {
        let j: usize = height - 1 - r;
        let row: Vec<u8> = render_row(world, cam, j, width, height, spp, depth, seed);
        append_row(
            &mut out,
            &row,
            Ghost(world@),
            Ghost(cam@),
            width,
            height,
            spp,
            depth,
            seed,
            r,
        );
        r = r + 1;
    }
    out
}

/// Relies on rayon's `IntoParallelIterator` for ranges together with
/// `ParallelIterator::map` and `collect` into a `Vec`: the collected vector
/// holds, at each index, exactly what the mapped closure returns for that
/// index, so slot `rr` is the verified `render_row` output for world row
/// `height - 1 - rr`; only the schedule is parallel.
#[verifier::external_body]
fn par_rows(
    world: &World,
    cam: &Camera,
    width: usize,
    height: usize,
    spp: u32,
    depth: i32,
    seed: u64,
) -> (rows: Vec<Vec<u8>>)
    requires
        2 <= width <= 4096,
        2 <= height <= 4096,
        1 <= spp <= 65536,
    ensures
        rows@.len() == height as int,
        forall|rr: int| 0 <= rr < height ==> (#[trigger] rows@[rr])@.len() == 3 * width,
        forall|rr: int, m: int|
            0 <= rr < height && 0 <= m < 3 * width ==> #[trigger] rows@[rr]@[m] == row_byte(
                world@,
                cam@,
                height - 1 - rr,
                width as int,
                height as int,
                spp as int,
                depth as int,
                seed as int,
                m,
            ),
{
    (0..height)
        .into_par_iter()
        .map(|rr| render_row(world, cam, height - 1 - rr, width, height, spp, depth, seed))
        .collect()
}

/// Render a whole frame with rows computed in parallel. The output is
/// byte-for-byte the same function of the inputs as `render_frame`.
#[verifier::rlimit(80)]
pub fn render_frame_parallel(
    world: &World,
    cam: &Camera,
    width: usize,
    height: usize,
    spp: u32,
    depth: i32,
    seed: u64,
) -> (out: Vec<u8>)
    requires
        2 <= width <= 4096,
        2 <= height <= 4096,
        1 <= spp <= 65536,
    ensures
        out@.len() == 3 * width * height,
        forall|k: int|
            0 <= k < 3 * width * height ==> out@[k] == frame_byte(
                world@,
                cam@,
                width as int,
                height as int,
                spp as int,
                depth as int,
                seed as int,
                k,
            ),
{
    let rows: Vec<Vec<u8>> = par_rows(world, cam, width, height, spp, depth, seed);
    let mut out: Vec<u8> = Vec::new();
    let mut r: usize = 0;
    while r < height
        invariant
            r <= height,
            2 <= width <= 4096,
            2 <= height <= 4096,
            1 <= spp <= 65536,
            rows@.len() == height as int,
            forall|rr: int| 0 <= rr < height ==> (#[trigger] rows@[rr])@.len() == 3 * width,
            forall|rr: int, m: int|
                0 <= rr < height && 0 <= m < 3 * width ==> #[trigger] rows@[rr]@[m] == row_byte(
                    world@,
                    cam@,
                    height - 1 - rr,
                    width as int,
                    height as int,
                    spp as int,
                    depth as int,
                    seed as int,
                    m,
                ),
            out@.len() == 3 * width * r,
            forall|k: int|
                0 <= k < 3 * width * r ==> out@[k] == frame_byte(
                    world@,
                    cam@,
                    width as int,
                    height as int,
                    spp as int,
                    depth as int,
                    seed as int,
                    k,
                ),
        decreases height - r,
    {
        let row: &Vec<u8> = &rows[r];
        append_row(
            &mut out,
            row,
            Ghost(world@),
            Ghost(cam@),
            width,
            height,
            spp,
            depth,
            seed,
            r,
        );
        r = r + 1;
    }
    out
}

/// Any two frames that satisfy the renderer's contract for the same scene,
/// camera, dimensions, sampling parameters and seed are pixel-identical:
/// with the random sequence fixed by the seed, rendering is deterministic,
/// however the pixels were scheduled.
pub proof fn lemma_render_deterministic(
    a: Seq<u8>,
    b: Seq<u8>,
    objs: Seq<SphereV>,
    cam: CameraV,
    width: int,
    height: int,
    spp: int,
    depth: int,
    seed: int,
)
    requires
        a.len() == 3 * width * height,
        b.len() == 3 * width * height,
        forall|k: int|
            0 <= k < a.len() ==> a[k] == frame_byte(objs, cam, width, height, spp, depth, seed, k),
        forall|k: int|
            0 <= k < b.len() ==> b[k] == frame_byte(objs, cam, width, height, spp, depth, seed, k),
    ensures
        a == b,
{
    assert(a =~= b);
}

} // verus!
