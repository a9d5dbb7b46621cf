//! Three-component vectors over the fixed-point scalar.
//!
//! Every operation has a spec-level mirror (`v3_add`, `v3_dot`, ...) built
//! from the scalar's spec functions, so vector expressions in contracts are
//! exact values, not approximations.

use vstd::prelude::*;

use crate::fx::fadd;
use crate::fx::fx_wf;
use crate::fx::fdiv;
use crate::fx::fint;
use crate::fx::fmul;
use crate::fx::fneg;
use crate::fx::fsqrt;
use crate::fx::fsub;
use crate::fx::Fx;

verus! {

/// A vector of three fixed-point components.
#[derive(Clone, Copy, Debug, PartialEq, Eq, Structural)]
pub struct Vec3 {
    pub x: Fx,
    pub y: Fx,
    pub z: Fx,
}

/// Componentwise sum.
pub open spec fn v3_add(a: Vec3, b: Vec3) -> Vec3 {
    Vec3 { x: fadd(a.x, b.x), y: fadd(a.y, b.y), z: fadd(a.z, b.z) }
}

/// Componentwise difference.
pub open spec fn v3_sub(a: Vec3, b: Vec3) -> Vec3 {
    Vec3 { x: fsub(a.x, b.x), y: fsub(a.y, b.y), z: fsub(a.z, b.z) }
}

/// Componentwise negation.
pub open spec fn v3_neg(a: Vec3) -> Vec3 {
    Vec3 { x: fneg(a.x), y: fneg(a.y), z: fneg(a.z) }
}

/// Componentwise product.
pub open spec fn v3_mul(a: Vec3, b: Vec3) -> Vec3 {
    Vec3 { x: fmul(a.x, b.x), y: fmul(a.y, b.y), z: fmul(a.z, b.z) }
}

/// Product with a scalar.
pub open spec fn v3_scale(a: Vec3, s: Fx) -> Vec3 {
    Vec3 { x: fmul(a.x, s), y: fmul(a.y, s), z: fmul(a.z, s) }
}

/// Inner product, summed left to right.
pub open spec fn v3_dot(a: Vec3, b: Vec3) -> Fx {
    fadd(fadd(fmul(a.x, b.x), fmul(a.y, b.y)), fmul(a.z, b.z))
}

/// Squared length.
pub open spec fn v3_squared(a: Vec3) -> Fx {
    v3_dot(a, a)
}

/// Length.
pub open spec fn v3_length(a: Vec3) -> Fx {
    fsqrt(v3_squared(a))
}

/// The vector scaled to unit length; unchanged direction, and the zero
/// vector stays zero (a zero divisor yields zero components).
pub open spec fn v3_normalize(a: Vec3) -> Vec3 {
    let len = v3_length(a);
    Vec3 { x: fdiv(a.x, len), y: fdiv(a.y, len), z: fdiv(a.z, len) }
}

/// Componentwise quotient by a scalar.
pub open spec fn v3_div_scalar(a: Vec3, s: Fx) -> Vec3 {
    Vec3 { x: fdiv(a.x, s), y: fdiv(a.y, s), z: fdiv(a.z, s) }
}

/// Whether every component lies in the scalar's symmetric range; every
/// operation's result does.
pub open spec fn v3_wf(v: Vec3) -> bool {
    fx_wf(v.x) && fx_wf(v.y) && fx_wf(v.z)
}

/// Cross product.
pub open spec fn v3_cross(a: Vec3, b: Vec3) -> Vec3 {
    Vec3 {
        x: fsub(fmul(a.y, b.z), fmul(a.z, b.y)),
        y: fsub(fmul(a.z, b.x), fmul(a.x, b.z)),
        z: fsub(fmul(a.x, b.y), fmul(a.y, b.x)),
    }
}

/// Mirror reflection of `vec` about `normal`:
/// `vec - normal * dot(vec, normal) * 2`.
pub open spec fn v3_reflect(vec: Vec3, normal: Vec3) -> Vec3 {
    v3_sub(vec, v3_scale(v3_scale(normal, v3_dot(vec, normal)), fint(2)))
}

/// Snell refraction of the unit vector `vec` through a surface with unit
/// `normal`, with ratio `eta` of refraction indices.
pub open spec fn v3_refract(vec: Vec3, normal: Vec3, eta: Fx) -> Vec3 {
    let cos_theta = v3_dot(v3_neg(vec), normal);
    let out_parallel = v3_scale(v3_add(vec, v3_scale(normal, cos_theta)), eta);
    let out_perp = v3_scale(
        normal,
        fneg(fsqrt(fsub(fint(1), v3_squared(out_parallel)))),
    );
    v3_add(out_parallel, out_perp)
}

/// Negating the second factor of an inner product negates the product
/// exactly, provided that factor's negation is representable.
pub proof fn lemma_v3_dot_neg(d: Vec3, n: Vec3)
    requires
        v3_wf(n),
    ensures
        v3_dot(d, v3_neg(n)) == fneg(v3_dot(d, n)),
{
    crate::fx::lemma_fneg_fmul(d.x, n.x);
    crate::fx::lemma_fneg_fmul(d.y, n.y);
    crate::fx::lemma_fneg_fmul(d.z, n.z);
    let m1 = fmul(d.x, n.x);
    let m2 = fmul(d.y, n.y);
    let m3 = fmul(d.z, n.z);
    crate::fx::lemma_fneg_fadd(m1, m2);
    crate::fx::lemma_fneg_fadd(fadd(m1, m2), m3);
}

/// The cross product anticommutes: `cross(a, b) == -cross(b, a)`,
/// exactly, for all inputs — saturation respects the sign flip because
/// the scalar's range is symmetric.
pub proof fn lemma_cross_antisymmetric(a: Vec3, b: Vec3)
    ensures
        v3_cross(a, b) == v3_neg(v3_cross(b, a)),
{
    crate::fx::lemma_fneg_fsub(fmul(b.y, a.z), fmul(b.z, a.y));
    crate::fx::lemma_fneg_fsub(fmul(b.z, a.x), fmul(b.x, a.z));
    crate::fx::lemma_fneg_fsub(fmul(b.x, a.y), fmul(b.y, a.x));
    crate::fx::lemma_fmul_comm(a.y, b.z);
    crate::fx::lemma_fmul_comm(a.z, b.y);
    crate::fx::lemma_fmul_comm(a.z, b.x);
    crate::fx::lemma_fmul_comm(a.x, b.z);
    crate::fx::lemma_fmul_comm(a.x, b.y);
    crate::fx::lemma_fmul_comm(a.y, b.x);
}

impl Vec3 {
    /// Builds a vector from raw component values, each saturated to the
    /// scalar's symmetric range.
    pub fn from_raw(x: i64, y: i64, z: i64) -> (r: Vec3)
        ensures
            r == (Vec3 {
                x: Fx { raw: crate::fx::clip(x as int) as i64 },
                y: Fx { raw: crate::fx::clip(y as int) as i64 },
                z: Fx { raw: crate::fx::clip(z as int) as i64 },
            }),
            v3_wf(r),
    {
        Vec3 { x: Fx::from_raw(x), y: Fx::from_raw(y), z: Fx::from_raw(z) }
    }

    /// Builds a vector from three scalars.
    pub fn new(x: Fx, y: Fx, z: Fx) -> (r: Vec3)
        ensures
            r == (Vec3 { x, y, z }),
    {
        Vec3 { x, y, z }
    }

    /// The zero vector.
    pub fn zero() -> (r: Vec3)
        ensures
            r.x.raw == 0 && r.y.raw == 0 && r.z.raw == 0,
    {
        Vec3 { x: Fx { raw: 0 }, y: Fx { raw: 0 }, z: Fx { raw: 0 } }
    }

    /// The unit vector along positive `y`.
    pub fn up() -> (r: Vec3)
        ensures
            r == (Vec3 { x: Fx { raw: 0 }, y: fint(1), z: Fx { raw: 0 } }),
    {
        Vec3 { x: Fx { raw: 0 }, y: Fx::one(), z: Fx { raw: 0 } }
    }

    /// The vector with all three components equal to `n`.
    pub fn fill(n: Fx) -> (r: Vec3)
        ensures
            r == (Vec3 { x: n, y: n, z: n }),
    {
        Vec3 { x: n, y: n, z: n }
    }

    pub fn add(self, other: Vec3) -> (r: Vec3)
        ensures
            r == v3_add(self, other),
    {
        Vec3 { x: self.x.add(other.x), y: self.y.add(other.y), z: self.z.add(other.z) }
    }

    pub fn sub(self, other: Vec3) -> (r: Vec3)
        ensures
            r == v3_sub(self, other),
    {
        Vec3 { x: self.x.sub(other.x), y: self.y.sub(other.y), z: self.z.sub(other.z) }
    }

    pub fn neg(self) -> (r: Vec3)
        ensures
            r == v3_neg(self),
    {
        Vec3 { x: self.x.neg(), y: self.y.neg(), z: self.z.neg() }
    }

    /// Componentwise product; the radiance attenuation operation.
    pub fn mul(self, other: Vec3) -> (r: Vec3)
        ensures
            r == v3_mul(self, other),
    {
        Vec3 { x: self.x.mul(other.x), y: self.y.mul(other.y), z: self.z.mul(other.z) }
    }

    pub fn scale(self, s: Fx) -> (r: Vec3)
        ensures
            r == v3_scale(self, s),
    {
        Vec3 { x: self.x.mul(s), y: self.y.mul(s), z: self.z.mul(s) }
    }

    pub fn dot(v1: Vec3, v2: Vec3) -> (r: Fx)
        ensures
            r == v3_dot(v1, v2),
    {
        v1.x.mul(v2.x).add(v1.y.mul(v2.y)).add(v1.z.mul(v2.z))
    }

    pub fn squared(&self) -> (r: Fx)
        ensures
            r == v3_squared(*self),
    {
        Vec3::dot(*self, *self)
    }

    pub fn length(&self) -> (r: Fx)
        ensures
            r == v3_length(*self),
    {
        self.squared().sqrt()
    }

    pub fn normalize(v: Vec3) -> (r: Vec3)
        ensures
            r == v3_normalize(v),
    {
        let len = v.length();
        Vec3 { x: v.x.div(len), y: v.y.div(len), z: v.z.div(len) }
    }

    /// Componentwise quotient by a scalar; zero components on a zero
    /// divisor.
    pub fn div_scalar(self, s: Fx) -> (r: Vec3)
        ensures
            r == v3_div_scalar(self, s),
    {
        Vec3 { x: self.x.div(s), y: self.y.div(s), z: self.z.div(s) }
    }

    pub fn cross(v1: Vec3, v2: Vec3) -> (r: Vec3)
        ensures
            r == v3_cross(v1, v2),
    {
        Vec3 {
            x: v1.y.mul(v2.z).sub(v1.z.mul(v2.y)),
            y: v1.z.mul(v2.x).sub(v1.x.mul(v2.z)),
            z: v1.x.mul(v2.y).sub(v1.y.mul(v2.x)),
        }
    }

    pub fn reflect(vec: Vec3, normal: Vec3) -> (r: Vec3)
        ensures
            r == v3_reflect(vec, normal),
    {
        vec.sub(normal.scale(Vec3::dot(vec, normal)).scale(Fx::from_int(2)))
    }

    pub fn refract(vec: Vec3, normal: Vec3, eta: Fx) -> (r: Vec3)
        ensures
            r == v3_refract(vec, normal, eta),
    {
        let cos_theta = Vec3::dot(vec.neg(), normal);
        let out_parallel = vec.add(normal.scale(cos_theta)).scale(eta);
        let out_perp = normal.scale(Fx::one().sub(out_parallel.squared()).sqrt().neg());
        out_parallel.add(out_perp)
    }
}

} // verus!
