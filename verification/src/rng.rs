//! A deterministic, seedable 64-bit linear-congruential random source.
//! Randomness is an explicit capability passed by value, so every draw is
//! pinned by a spec function of the current state: the same seed always
//! yields the same sequence, in any thread.

use vstd::prelude::*;
use crate::fixed::{SCALE, fxadd, fxsub, fxmul};
use crate::fixed::{fx_add, fx_mul, fx_sub};
use crate::vec3::{V3, Vec3, v_zero, v_len_sq, v_unit};

verus! {

pub const RNG_A: u64 = 6364136223846793005;

pub const RNG_C: u64 = 1442695040888963407;

/// Number of rejection-sampling attempts before falling back to zero.
pub const DRAW_TRIES: u32 = 64;

/// One step of the linear congruential generator, modulo 2^64.
pub open spec fn rng_next(s: int) -> int {
    (s * (RNG_A as int) + (RNG_C as int)) % 0x1_0000_0000_0000_0000
}

/// The fixed-point fraction in `[0, 1)` drawn from one step.
pub open spec fn rng_frac(s: int) -> int {
    rng_next(s) / 0x1_0000_0000_0000
}

/// A draw in `[min, max)`: `min + frac * (max - min)`.
pub open spec fn rng_range(s: int, min: int, max: int) -> int {
    fxadd(min, fxmul(rng_frac(s), fxsub(max, min)))
}

/// Three successive component draws in `[-1, 1)`, with the state after them.
pub open spec fn rng_cube_draw(s: int) -> (V3, int) {
    let x = rng_range(s, -(SCALE as int), SCALE as int);
    let s1 = rng_next(s);
    let y = rng_range(s1, -(SCALE as int), SCALE as int);
    let s2 = rng_next(s1);
    let z = rng_range(s2, -(SCALE as int), SCALE as int);
    let s3 = rng_next(s2);
    (V3 { x, y, z }, s3)
}

/// Rejection sampling of a point inside the unit sphere, bounded by `tries`.
pub open spec fn rng_in_sphere(s: int, tries: nat) -> (V3, int)
    decreases tries,
{
    if tries == 0 {
        (v_zero(), s)
    } else {
        let d = rng_cube_draw(s);
        if v_len_sq(d.0) < SCALE as int {
            d
        } else {
            rng_in_sphere(d.1, (tries - 1) as nat)
        }
    }
}

/// A random unit vector: the normalized in-sphere sample.
pub open spec fn rng_unit_vec(s: int) -> (V3, int) {
    let d = rng_in_sphere(s, DRAW_TRIES as nat);
    (v_unit(d.0), d.1)
}

/// Two successive component draws in `[-1, 1)` with `z = 0`.
pub open spec fn rng_square_draw(s: int) -> (V3, int) {
    let x = rng_range(s, -(SCALE as int), SCALE as int);
    let s1 = rng_next(s);
    let y = rng_range(s1, -(SCALE as int), SCALE as int);
    let s2 = rng_next(s1);
    (V3 { x, y, z: 0 }, s2)
}

/// Rejection sampling of a point inside the unit disk, bounded by `tries`.
pub open spec fn rng_in_disk(s: int, tries: nat) -> (V3, int)
    decreases tries,
{
    if tries == 0 {
        (v_zero(), s)
    } else {
        let d = rng_square_draw(s);
        if v_len_sq(d.0) < SCALE as int {
            d
        } else {
            rng_in_disk(d.1, (tries - 1) as nat)
        }
    }
}

/// The explicit random source.
#[derive(Clone, Copy)]
pub struct Rng {
    pub state: u64,
}

impl View for Rng {
    type V = int;

    open spec fn view(&self) -> int {
        self.state as int
    }
}

impl Rng {
    pub fn seeded(seed: u64) -> (r: Rng)
        ensures
            r@ == seed as int,
    {
        Rng { state: seed }
    }

    /// Advance the generator one step and return the raw state.
    pub fn step(&mut self) -> (s: u64)
        ensures
            final(self)@ == rng_next(old(self)@),
            s as int == rng_next(old(self)@),
    {
        proof {
            assert(
                (self.state as int) * (RNG_A as int) + (RNG_C as int)
                    < 0x1_0000_0000_0000_0000_0000_0000_0000_0000int
            ) by (nonlinear_arith)
                requires
                    self.state <= 0xffff_ffff_ffff_ffffu64,
                    RNG_A <= 0xffff_ffff_ffff_ffffu64,
                    RNG_C <= 0xffff_ffff_ffff_ffffu64,
            ;
        }
        let p: u128 = (self.state as u128) * (RNG_A as u128) + (RNG_C as u128);
        let s2: u64 = (p % 0x1_0000_0000_0000_0000u128) as u64;
        self.state = s2;
        s2
    }

    /// A fixed-point fraction in `[0, 1)`.
    pub fn next_frac(&mut self) -> (r: i64)
        ensures
            final(self)@ == rng_next(old(self)@),
            r as int == rng_frac(old(self)@),
            0 <= r < SCALE,
    {
        let s2: u64 = self.step();
        (s2 / 0x1_0000_0000_0000u64) as i64
    }

    /// A fixed-point draw in `[min, max)`.
    pub fn next_range(&mut self, min: i64, max: i64) -> (r: i64)
        ensures
            final(self)@ == rng_next(old(self)@),
            r as int == rng_range(old(self)@, min as int, max as int),
    {
        let f: i64 = self.next_frac();
        fx_add(min, fx_mul(f, fx_sub(max, min)))
    }

    /// A point inside the unit sphere (zero after exhausting all tries).
    pub fn in_unit_sphere(&mut self) -> (p: Vec3)
        ensures
            p@ == rng_in_sphere(old(self)@, DRAW_TRIES as nat).0,
            final(self)@ == rng_in_sphere(old(self)@, DRAW_TRIES as nat).1,
    {
        in_sphere_rec(self, DRAW_TRIES)
    }

    /// A random unit vector.
    pub fn unit_vec(&mut self) -> (p: Vec3)
        ensures
            p@ == rng_unit_vec(old(self)@).0,
            final(self)@ == rng_unit_vec(old(self)@).1,
    {
        let q: Vec3 = self.in_unit_sphere();
        q.unit()
    }

    /// A point inside the unit disk in the `z = 0` plane.
    pub fn in_unit_disk(&mut self) -> (p: Vec3)
        ensures
            p@ == rng_in_disk(old(self)@, DRAW_TRIES as nat).0,
            final(self)@ == rng_in_disk(old(self)@, DRAW_TRIES as nat).1,
    {
        in_disk_rec(self, DRAW_TRIES)
    }
}

fn in_sphere_rec(rng: &mut Rng, tries: u32) -> (p: Vec3)
    ensures
        p@ == rng_in_sphere(old(rng)@, tries as nat).0,
        final(rng)@ == rng_in_sphere(old(rng)@, tries as nat).1,
    decreases tries,
{
    if tries == 0 {
        Vec3::zero()
    } else {
        let x: i64 = rng.next_range(-SCALE, SCALE);
        let y: i64 = rng.next_range(-SCALE, SCALE);
        let z: i64 = rng.next_range(-SCALE, SCALE);
        let p: Vec3 = Vec3::new(x, y, z);
        if p.len_sq() < SCALE {
            p
        } else {
            in_sphere_rec(rng, tries - 1)
        }
    }
}

fn in_disk_rec(rng: &mut Rng, tries: u32) -> (p: Vec3)
    ensures
        p@ == rng_in_disk(old(rng)@, tries as nat).0,
        final(rng)@ == rng_in_disk(old(rng)@, tries as nat).1,
    decreases tries,
{
    if tries == 0 {
        Vec3::zero()
    } else {
        let x: i64 = rng.next_range(-SCALE, SCALE);
        let y: i64 = rng.next_range(-SCALE, SCALE);
        let p: Vec3 = Vec3::new(x, y, 0);
        if p.len_sq() < SCALE {
            p
        } else {
            in_disk_rec(rng, tries - 1)
        }
    }
}

} // verus!
