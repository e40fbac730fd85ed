//! The pseudo-random source of the renderer.
//!
//! Randomness enters the library only here: a xoshiro256+ generator is
//! seeded once, and because that generator is a deterministic function
//! of its state, its i-th output is a function of the seed and of `i`
//! alone. The trusted contracts below say exactly that, naming the
//! stream with an uninterpreted function; everything built on top —
//! uniform scalars, points in the unit sphere or disk, unit vectors —
//! is verified ordinary code, so a whole render is a function of the
//! scene, the camera and the seed.

use vstd::prelude::*;

use rand::{RngCore, SeedableRng};

use crate::fixed::{add_spec, mul_spec, Fx, SCALE};
use crate::vec3::{v3_dot, v3_unit, v3_zero, Vec3, V3};

verus! {

#[verifier::external_type_specification]
#[verifier::external_body]
pub struct ExXoshiro256Plus(rand_xoshiro::Xoshiro256Plus);

/// The i-th output of a xoshiro256+ generator seeded from `seed`; the
/// algorithm is deterministic, so this is a function of its arguments.
pub uninterp spec fn xoshiro_stream(seed: u64, index: int) -> u64;

/// How many rejection-sampling tries a bounded draw makes before it
/// falls back to a fixed value.
pub const DRAW_TRIES: u32 = 32;

/// A seeded pseudo-random source, handed down the call chain from the
/// render driver through the camera to the materials.
pub struct Sampler {
    rng: rand_xoshiro::Xoshiro256Plus,
    seed: Ghost<u64>,
    index: Ghost<int>,
}

/// A uniform draw in `[0, 1)`: the top 16 bits of a raw output.
pub open spec fn unit_fx_spec(u: u64) -> int {
    (u as int) / 0x1_0000_0000_0000
}

/// A uniform draw in `[-1, 1]`.
pub open spec fn sym_fx_spec(u: u64) -> int {
    (u as int) % 131073 - 65536
}

/// The vector of three consecutive symmetric draws starting at `index`.
pub open spec fn draw_vec_spec(seed: u64, index: int) -> V3 {
    V3 {
        x: sym_fx_spec(xoshiro_stream(seed, index)),
        y: sym_fx_spec(xoshiro_stream(seed, index + 1)),
        z: sym_fx_spec(xoshiro_stream(seed, index + 2)),
    }
}

/// Rejection sampling of a point strictly inside the unit sphere:
/// draw a vector of symmetric components and keep it if its self dot
/// product is below one; after `tries` failures fall back to the
/// origin. Returns the point and the stream index after the draw.
pub open spec fn sphere_draw_spec(seed: u64, index: int, tries: nat) -> (V3, int)
    decreases tries,
{
    if tries == 0 {
        (v3_zero(), index)
    } else {
        let p = draw_vec_spec(seed, index);
        if v3_dot(p, p) < SCALE {
            (p, index + 3)
        } else {
            sphere_draw_spec(seed, index + 3, (tries - 1) as nat)
        }
    }
}

/// Rejection sampling of a unit direction: a nonzero point of the unit
/// sphere, normalized; after `tries` failures fall back to the unit z
/// axis.
pub open spec fn unit_draw_spec(seed: u64, index: int, tries: nat) -> (V3, int)
    decreases tries,
{
    if tries == 0 {
        (V3 { x: 0, y: 0, z: SCALE as int }, index)
    } else {
        let p = draw_vec_spec(seed, index);
        let d = v3_dot(p, p);
        if 0 < d < SCALE {
            (v3_unit(p), index + 3)
        } else {
            unit_draw_spec(seed, index + 3, (tries - 1) as nat)
        }
    }
}

/// Rejection sampling of a point strictly inside the unit disk of the
/// x-y plane; after `tries` failures fall back to the origin.
pub open spec fn disk_draw_spec(seed: u64, index: int, tries: nat) -> (V3, int)
    decreases tries,
{
    if tries == 0 {
        (v3_zero(), index)
    } else {
        let x = sym_fx_spec(xoshiro_stream(seed, index));
        let y = sym_fx_spec(xoshiro_stream(seed, index + 1));
        if add_spec(mul_spec(x, x), mul_spec(y, y)) < SCALE {
            (V3 { x: x, y: y, z: 0 }, index + 2)
        } else {
            disk_draw_spec(seed, index + 2, (tries - 1) as nat)
        }
    }
}

impl Sampler {
    /// The seed this source was built from.
    pub closed spec fn seed(&self) -> u64 {
        self.seed@
    }

    /// How many raw outputs have been drawn so far.
    pub closed spec fn index(&self) -> int {
        self.index@
    }

    /// Relies on `Xoshiro256Plus::seed_from_u64` of rand_xoshiro:
    /// seeding expands the `u64` through SplitMix64, a pure function of
    /// the seed, so the source starts the stream of that seed.
    #[verifier::external_body]
    pub fn new(seed: u64) -> (s: Sampler)
        ensures
            s.seed() == seed,
            s.index() == 0,
    {
        Sampler {
            rng: rand_xoshiro::Xoshiro256Plus::seed_from_u64(seed),
            seed: Ghost(seed),
            index: Ghost(0),
        }
    }

    /// Relies on `RngCore::next_u64` of rand_xoshiro: one xoshiro256+
    /// step, a pure function of the generator state, which after `i`
    /// draws from a fixed seed is itself a function of the seed and `i`.
    #[verifier::external_body]
    pub fn next_u64(&mut self) -> (r: u64)
        ensures
            r == xoshiro_stream(old(self).seed(), old(self).index()),
            final(self).seed() == old(self).seed(),
            final(self).index() == old(self).index() + 1,
    {
        self.rng.next_u64()
    }

    /// A uniform scalar in `[0, 1)`.
    pub fn next_unit(&mut self) -> (r: Fx)
        ensures
            r@ == unit_fx_spec(xoshiro_stream(old(self).seed(), old(self).index())),
            0 <= r@ < SCALE,
            final(self).seed() == old(self).seed(),
            final(self).index() == old(self).index() + 1,
    {
        let u = self.next_u64();
        Fx::from_raw((u / 0x1_0000_0000_0000) as i64)
    }

    /// A uniform scalar in `[-1, 1]`.
    pub fn next_symmetric(&mut self) -> (r: Fx)
        ensures
            r@ == sym_fx_spec(xoshiro_stream(old(self).seed(), old(self).index())),
            -(SCALE as int) <= r@ <= SCALE as int,
            final(self).seed() == old(self).seed(),
            final(self).index() == old(self).index() + 1,
    {
        let u = self.next_u64();
        Fx::from_raw((u % 131073) as i64 - 65536)
    }
}

/// One candidate vector of three symmetric draws.
fn draw_vec(sp: &mut Sampler) -> (p: Vec3)
    ensures
        p@ == draw_vec_spec(old(sp).seed(), old(sp).index()),
        final(sp).seed() == old(sp).seed(),
        final(sp).index() == old(sp).index() + 3,
{
    let x = sp.next_symmetric();
    let y = sp.next_symmetric();
    let z = sp.next_symmetric();
    Vec3 { x, y, z }
}

/// Bounded rejection sampling inside the unit sphere.
fn random_in_unit_sphere_rec(sp: &mut Sampler, tries: u32) -> (p: Vec3)
    ensures
        (p@, final(sp).index()) == sphere_draw_spec(old(sp).seed(), old(sp).index(), tries as nat),
        final(sp).seed() == old(sp).seed(),
    decreases tries,
{
    if tries == 0 {
        Vec3::zero()
    } else {
        let p = draw_vec(sp);
        if p.dot(&p).lt(Fx::one()) {
            p
        } else {
            random_in_unit_sphere_rec(sp, tries - 1)
        }
    }
}

/// Bounded rejection sampling of a unit direction.
fn random_unit_vec_rec(sp: &mut Sampler, tries: u32) -> (p: Vec3)
    ensures
        (p@, final(sp).index()) == unit_draw_spec(old(sp).seed(), old(sp).index(), tries as nat),
        final(sp).seed() == old(sp).seed(),
    decreases tries,
{
    if tries == 0 {
        Vec3 { x: Fx::zero(), y: Fx::zero(), z: Fx::one() }
    } else {
        let p = draw_vec(sp);
        let d = p.dot(&p);
        if Fx::zero().lt(d) && d.lt(Fx::one()) {
            p.unit_vec()
        } else {
            random_unit_vec_rec(sp, tries - 1)
        }
    }
}

/// Bounded rejection sampling inside the unit disk.
fn random_in_unit_disk_rec(sp: &mut Sampler, tries: u32) -> (p: Vec3)
    ensures
        (p@, final(sp).index()) == disk_draw_spec(old(sp).seed(), old(sp).index(), tries as nat),
        final(sp).seed() == old(sp).seed(),
    decreases tries,
{
    if tries == 0 {
        Vec3::zero()
    } else {
        let x = sp.next_symmetric();
        let y = sp.next_symmetric();
        if x.mul(x).add(y.mul(y)).lt(Fx::one()) {
            Vec3 { x, y, z: Fx::zero() }
        } else {
            random_in_unit_disk_rec(sp, tries - 1)
        }
    }
}

impl Vec3 {
    /// A random point strictly inside the unit sphere, or the origin if
    /// every bounded try was rejected.
    pub fn random_in_unit_sphere(sp: &mut Sampler) -> (p: Vec3)
        ensures
            (p@, final(sp).index()) == sphere_draw_spec(
                old(sp).seed(),
                old(sp).index(),
                DRAW_TRIES as nat,
            ),
            final(sp).seed() == old(sp).seed(),
    {
        random_in_unit_sphere_rec(sp, DRAW_TRIES)
    }

    /// A random direction of roughly unit magnitude, or the unit z axis
    /// if every bounded try was rejected.
    pub fn random_unit_vec(sp: &mut Sampler) -> (p: Vec3)
        ensures
            (p@, final(sp).index()) == unit_draw_spec(
                old(sp).seed(),
                old(sp).index(),
                DRAW_TRIES as nat,
            ),
            final(sp).seed() == old(sp).seed(),
    {
        random_unit_vec_rec(sp, DRAW_TRIES)
    }

    /// A random point strictly inside the unit disk of the x-y plane,
    /// or the origin if every bounded try was rejected.
    pub fn random_in_unit_disk(sp: &mut Sampler) -> (p: Vec3)
        ensures
            (p@, final(sp).index()) == disk_draw_spec(
                old(sp).seed(),
                old(sp).index(),
                DRAW_TRIES as nat,
            ),
            final(sp).seed() == old(sp).seed(),
    {
        random_in_unit_disk_rec(sp, DRAW_TRIES)
    }
}

} // verus!
