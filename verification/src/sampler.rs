//! The deterministic sample generator.
//!
//! Rendering needs jitter and scatter directions that look uniform but are
//! an exact function of a seed, so that the same scene and seed always give
//! the same image. The generator is a 64-bit counter stream: each draw
//! advances the state by a fixed odd increment and scrambles it with two
//! xor-shift multiplications. Every draw is mirrored by a spec function, so
//! a caller's contract pins the whole stream.

use vstd::prelude::*;

use crate::fx::Fx;
use crate::vec3::v3_dot;
use crate::vec3::v3_neg;
use crate::vec3::v3_normalize;
use crate::vec3::v3_squared;
use crate::vec3::Vec3;

verus! {

/// The state increment between draws (an odd constant, so the state walks
/// the whole 64-bit cycle).
pub const STREAM_STEP: u64 = 0x9E3779B97F4A7C15;

pub const SCRAMBLE_A: u64 = 0xBF58476D1CE4E5B9;

pub const SCRAMBLE_B: u64 = 0x94D049BB133111EB;

/// How many rejection-sampling rounds a sphere draw makes before settling
/// on a fixed interior fallback point.
pub const SPHERE_TRIES: u32 = 32;

/// Least accepted squared length of a sphere sample, in raw units
/// (0.01, so a sample can always be normalized meaningfully).
pub const LEAST_SPHERE_SQUARED_RAW: i64 = 655;

/// The state after one draw.
pub open spec fn next_state(s: u64) -> u64 {
    s.wrapping_add(STREAM_STEP)
}

/// The output word scrambled out of a state.
pub open spec fn scramble(s: u64) -> u64 {
    let z1 = (s ^ (s >> 30u64)).wrapping_mul(SCRAMBLE_A);
    let z2 = (z1 ^ (z1 >> 27u64)).wrapping_mul(SCRAMBLE_B);
    z2 ^ (z2 >> 31u64)
}

/// The word produced by drawing once from state `s`.
pub open spec fn draw(s: u64) -> u64 {
    scramble(next_state(s))
}

/// The top 16 bits of a word, as a fixed-point value in `[0, 1)`.
pub open spec fn unit_of(w: u64) -> Fx {
    Fx { raw: (w >> 48u64) as i64 }
}

/// The top 17 bits of a word, as a fixed-point value in `[-1, 1)`.
pub open spec fn symmetric_of(w: u64) -> Fx {
    Fx { raw: ((w >> 47u64) as i64 - 65536) as i64 }
}

/// The state a pixel's private stream starts from.
pub open spec fn pixel_state(seed: u64, index: u64) -> u64 {
    scramble(seed.wrapping_add(index.wrapping_mul(STREAM_STEP)))
}

/// A deterministic stream of samples.
#[derive(Clone, Copy, Debug, PartialEq, Eq, Structural)]
pub struct Sampler {
    pub state: u64,
}

impl Sampler {
    /// A stream starting from `seed`.
    pub fn new(seed: u64) -> (r: Sampler)
        ensures
            r.state == seed,
    {
        Sampler { state: seed }
    }

    /// The private stream of pixel number `index` under `seed`; distinct
    /// pixels get well-separated states.
    pub fn for_pixel(seed: u64, index: u64) -> (r: Sampler)
        ensures
            r.state == pixel_state(seed, index),
    {
        Sampler { state: scramble_exec(seed.wrapping_add(index.wrapping_mul(STREAM_STEP))) }
    }

    /// Draws one 64-bit word.
    pub fn next_word(&mut self) -> (r: u64)
        ensures
            final(self).state == next_state(old(self).state),
            r == draw(old(self).state),
    {
        self.state = self.state.wrapping_add(STREAM_STEP);
        scramble_exec(self.state)
    }

    /// Draws a fixed-point value in `[0, 1)`.
    pub fn next_unit(&mut self) -> (r: Fx)
        ensures
            final(self).state == next_state(old(self).state),
            r == unit_of(draw(old(self).state)),
            0 <= r.raw < 65536,
    {
        let w = self.next_word();
        let top: u64 = w >> 48u64;
        proof {
            assert(w >> 48u64 < 65536u64) by (bit_vector);
        }
        Fx { raw: top as i64 }
    }

    /// Draws a fixed-point value in `[-1, 1)`.
    pub fn next_symmetric(&mut self) -> (r: Fx)
        ensures
            final(self).state == next_state(old(self).state),
            r == symmetric_of(draw(old(self).state)),
            -65536 <= r.raw < 65536,
    {
        let w = self.next_word();
        let top: u64 = w >> 47u64;
        proof {
            assert(w >> 47u64 < 131072u64) by (bit_vector);
        }
        Fx { raw: top as i64 - 65536 }
    }
}

/// The scramble, executably.
fn scramble_exec(s: u64) -> (r: u64)
    ensures
        r == scramble(s),
{
    let z1 = (s ^ (s >> 30u64)).wrapping_mul(SCRAMBLE_A);
    let z2 = (z1 ^ (z1 >> 27u64)).wrapping_mul(SCRAMBLE_B);
    z2 ^ (z2 >> 31u64)
}

/// One rejection round: three symmetric draws, as a cube point.
pub open spec fn sphere_try(s: u64) -> (Vec3, u64) {
    let s1 = next_state(s);
    let s2 = next_state(s1);
    let s3 = next_state(s2);
    (
        Vec3 { x: symmetric_of(scramble(s1)), y: symmetric_of(scramble(s2)), z: symmetric_of(
            scramble(s3),
        ) },
        s3,
    )
}

/// Whether a cube point is accepted as a sphere sample: strictly inside
/// the unit sphere, and long enough to normalize.
pub open spec fn sphere_accept(v: Vec3) -> bool {
    LEAST_SPHERE_SQUARED_RAW <= v3_squared(v).raw < 65536
}

/// The accepted interior point when every round is rejected.
pub open spec fn sphere_fallback() -> Vec3 {
    Vec3 { x: Fx { raw: 0 }, y: Fx { raw: 32768 }, z: Fx { raw: 0 } }
}

/// The point in the unit sphere drawn from state `s` with `fuel` rounds
/// left, and the state after the draw.
pub open spec fn sphere_draw(s: u64, fuel: nat) -> (Vec3, u64)
    decreases fuel,
{
    if fuel == 0 {
        (sphere_fallback(), s)
    } else {
        let (v, s2) = sphere_try(s);
        if sphere_accept(v) {
            (v, s2)
        } else {
            sphere_draw(s2, (fuel - 1) as nat)
        }
    }
}

/// `sphere_draw` yields a point strictly inside the unit sphere that is
/// long enough to normalize, whatever the state.
pub proof fn lemma_sphere_draw_accepted(s: u64, fuel: nat)
    ensures
        sphere_accept(sphere_draw(s, fuel).0),
    decreases fuel,
{
    if fuel == 0 {
        let h = Fx { raw: 32768 };
        assert(1073741824int / 65536int == 16384int) by (nonlinear_arith);
        assert(crate::fx::fmul(h, h).raw == 16384);
        assert(v3_squared(sphere_fallback()).raw == 16384);
    } else {
        let (v, s2) = sphere_try(s);
        if !sphere_accept(v) {
            lemma_sphere_draw_accepted(s2, (fuel - 1) as nat);
        }
    }
}

fn sphere_draw_exec(s: &mut Sampler, fuel: u32) -> (v: Vec3)
    ensures
        (v, final(s).state) == sphere_draw(old(s).state, fuel as nat),
    decreases fuel,
{
    if fuel == 0 {
        Vec3 { x: Fx { raw: 0 }, y: Fx { raw: 32768 }, z: Fx { raw: 0 } }
    } else {
        let x = s.next_symmetric();
        let y = s.next_symmetric();
        let z = s.next_symmetric();
        let v = Vec3 { x, y, z };
        let sq = v.squared();
        if 655 <= sq.raw && sq.raw < 65536 {
            v
        } else {
            sphere_draw_exec(s, fuel - 1)
        }
    }
}

/// The sphere point drawn from state `s`, with the standard retry budget.
pub open spec fn rand_sphere(s: u64) -> (Vec3, u64) {
    sphere_draw(s, SPHERE_TRIES as nat)
}

/// The unit vector drawn from state `s`.
pub open spec fn rand_unit(s: u64) -> (Vec3, u64) {
    let (v, s2) = rand_sphere(s);
    (v3_normalize(v), s2)
}

impl Vec3 {
    /// Draws a point strictly inside the unit sphere.
    pub fn rand_in_unit_sphere(s: &mut Sampler) -> (v: Vec3)
        ensures
            (v, final(s).state) == rand_sphere(old(s).state),
            sphere_accept(v),
    {
        proof {
            lemma_sphere_draw_accepted(old(s).state, SPHERE_TRIES as nat);
        }
        sphere_draw_exec(s, SPHERE_TRIES)
    }

    /// Draws a unit vector: a sphere point scaled to unit length.
    pub fn rand_unit_vector(s: &mut Sampler) -> (v: Vec3)
        ensures
            (v, final(s).state) == rand_unit(old(s).state),
    {
        let p = Vec3::rand_in_unit_sphere(s);
        Vec3::normalize(p)
    }

    /// Draws a sphere point on `normal`'s side of the surface.
    pub fn rand_in_hemispere(normal: Vec3, s: &mut Sampler) -> (v: Vec3)
        ensures
            ({
                let (p, s2) = rand_sphere(old(s).state);
                final(s).state == s2 && v == if v3_dot(p, normal).raw > 0 {
                    p
                } else {
                    v3_neg(p)
                }
            }),
    {
        let p = Vec3::rand_in_unit_sphere(s);
        if Vec3::dot(p, normal).raw > 0 {
            p
        } else {
            p.neg()
        }
    }
}

} // verus!
