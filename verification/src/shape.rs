//! Scene objects and the ray-object intersector.
//!
//! Every object is tested against every ray; the intersector improves the
//! ray's hit record in place when it finds a strictly nearer intersection
//! at or beyond the tolerance distance. The exact updated ray is given by
//! `intersect_spec`.

use vstd::prelude::*;

use crate::fx::fint;
use crate::fx::fmul;
use crate::fx::fneg;
use crate::fx::fsqrt;
use crate::fx::fsub;
use crate::fx::fadd;
use crate::fx::fdiv;
use crate::fx::Fx;
use crate::ray::hit_oriented;
use crate::ray::lemma_with_intersection_oriented;
use crate::ray::with_intersection;
use crate::ray::ray_at;
use crate::ray::Ray;
use crate::vec3::v3_div_scalar;
use crate::vec3::v3_dot;
use crate::vec3::v3_sub;
use crate::vec3::v3_wf;
use crate::vec3::Vec3;

verus! {

/// The geometry of an object.
#[derive(Clone, Copy, Debug)]
pub enum ObjectType {
    Sphere { radius: Fx },
    Plane { distance: Fx, normal: Vec3 },
}

/// A shape placed in the scene, with the material it is made of.
#[derive(Clone, Copy, Debug)]
pub struct Object {
    pub position: Vec3,
    pub object_type: ObjectType,
    /// Index of the object's material in the scene's arena.
    pub material: usize,
}

/// Whether a geometry's stored vectors lie in the scalar's symmetric
/// range. A sphere computes its normals, so only a plane's given normal
/// matters; the orientation of recorded hit normals rests on this.
pub open spec fn object_type_wf(t: ObjectType) -> bool {
    match t {
        ObjectType::Sphere { radius } => true,
        ObjectType::Plane { distance, normal } => v3_wf(normal),
    }
}

/// Whether an object's geometry is well formed.
pub open spec fn object_wf(obj: Object) -> bool {
    object_type_wf(obj.object_type)
}

/// Builds an object.
pub fn new(position: Vec3, object_type: ObjectType, material: usize) -> (r: Object)
    ensures
        r == (Object { position, object_type, material }),
{
    Object { position, object_type, material }
}

/// The quadratic data of a ray against a sphere at `position` with
/// `radius`: coefficients of `|O + tD - C|^2 = r^2` and the discriminant.
pub open spec fn sphere_quadratic(position: Vec3, radius: Fx, ray: Ray) -> (Fx, Fx, Fx, Fx) {
    let oc = v3_sub(ray.origin, position);
    let qa = v3_dot(ray.direction, ray.direction);
    let qb = fmul(v3_dot(ray.direction, oc), fint(2));
    let qc = fsub(v3_dot(oc, oc), fmul(radius, radius));
    let disc = fsub(fmul(qb, qb), fmul(fmul(fint(4), qa), qc));
    (qa, qb, qc, disc)
}

/// The nearer admissible root of the sphere quadratic: among the two
/// roots, the smallest that is at or beyond `tolerance`; the farthest
/// representable value when neither qualifies.
pub open spec fn sphere_root(qa: Fx, qb: Fx, disc: Fx, tolerance: Fx) -> Fx {
    let sd = fsqrt(disc);
    let denom = fmul(qa, fint(2));
    let t1 = fdiv(fsub(fneg(qb), sd), denom);
    let t2 = fdiv(fadd(fneg(qb), sd), denom);
    let far = Fx { raw: i64::MAX };
    let best1 = if t1.raw < far.raw && t1.raw >= tolerance.raw {
        t1
    } else {
        far
    };
    if t2.raw < best1.raw && t2.raw >= tolerance.raw {
        t2
    } else {
        best1
    }
}

/// The ray after testing it against one object: unchanged unless the
/// object yields an admissible intersection strictly nearer than the
/// ray's current hit.
pub open spec fn intersect_spec(obj: Object, ray: Ray, tolerance: Fx) -> Ray {
    match obj.object_type {
        ObjectType::Sphere { radius } => {
            let (qa, qb, qc, disc) = sphere_quadratic(obj.position, radius, ray);
            if disc.raw < 0 {
                ray
            } else {
                let t = sphere_root(qa, qb, disc, tolerance);
                if t.raw < ray.travel_distance.raw {
                    let normal = v3_div_scalar(v3_sub(ray_at(ray, t), obj.position), radius);
                    with_intersection(ray, t, obj.material, normal)
                } else {
                    ray
                }
            }
        },
        ObjectType::Plane { distance, normal } => {
            let denom = v3_dot(ray.direction, normal);
            if denom.raw == 0 {
                ray
            } else {
                let t = fdiv(fneg(fadd(v3_dot(ray.origin, normal), distance)), denom);
                if t.raw < ray.travel_distance.raw && t.raw >= tolerance.raw {
                    with_intersection(ray, t, obj.material, normal)
                } else {
                    ray
                }
            }
        },
    }
}

/// Testing a well-formed object keeps the hit normal oriented toward the
/// ray's origin side: the front-face semantics that refraction-ratio
/// selection rests on.
pub proof fn lemma_intersect_spec_oriented(obj: Object, ray: Ray, tolerance: Fx)
    requires
        object_wf(obj),
        hit_oriented(ray),
    ensures
        hit_oriented(intersect_spec(obj, ray, tolerance)),
{
    match obj.object_type {
        ObjectType::Sphere { radius } => {
            let (qa, qb, qc, disc) = sphere_quadratic(obj.position, radius, ray);
            if disc.raw >= 0 {
                let t = sphere_root(qa, qb, disc, tolerance);
                if t.raw < ray.travel_distance.raw {
                    let normal = v3_div_scalar(v3_sub(ray_at(ray, t), obj.position), radius);
                    assert(v3_wf(normal));
                    lemma_with_intersection_oriented(ray, t, obj.material, normal);
                }
            }
        },
        ObjectType::Plane { distance, normal } => {
            let denom = v3_dot(ray.direction, normal);
            if denom.raw != 0 {
                let t = fdiv(fneg(fadd(v3_dot(ray.origin, normal), distance)), denom);
                if t.raw < ray.travel_distance.raw && t.raw >= tolerance.raw {
                    lemma_with_intersection_oriented(ray, t, obj.material, normal);
                }
            }
        },
    }
}

/// A ray carries at most one hit, and testing an object either leaves the
/// ray unchanged or replaces the hit with one whose distance is strictly
/// smaller than the current one and at least the tolerance; the ray's
/// origin and direction are never touched.
pub proof fn lemma_intersect_improves(obj: Object, ray: Ray, tolerance: Fx)
    ensures
        ({
            let after = intersect_spec(obj, ray, tolerance);
            after == ray || (after.is_intersected is Some
                && after.travel_distance.raw < ray.travel_distance.raw
                && after.travel_distance.raw >= tolerance.raw
                && after.origin == ray.origin
                && after.direction == ray.direction)
        }),
{
}

/// Improves `ray`'s hit record in place if `obj` is intersected nearer
/// than the current hit, at or beyond `tolerance`.
pub fn intersect(obj: &Object, ray: &mut Ray, tolerance: Fx)
    ensures
        *final(ray) == intersect_spec(*obj, *old(ray), tolerance),
        object_wf(*obj) && hit_oriented(*old(ray)) ==> hit_oriented(*final(ray)),
{
    proof {
        if object_wf(*obj) && hit_oriented(*old(ray)) {
            lemma_intersect_spec_oriented(*obj, *old(ray), tolerance);
        }
    }
    match obj.object_type {
        ObjectType::Sphere { radius } => {
            let two = Fx::from_int(2);
            let oc = ray.origin.sub(obj.position);
            let qa = Vec3::dot(ray.direction, ray.direction);
            let qb = Vec3::dot(ray.direction, oc).mul(two);
            let qc = Vec3::dot(oc, oc).sub(radius.mul(radius));
            let disc = qb.mul(qb).sub(Fx::from_int(4).mul(qa).mul(qc));
            if disc.raw < 0 {
                return ;
            }
            let sd = disc.sqrt();
            let denom = qa.mul(two);
            let t1 = qb.neg().sub(sd).div(denom);
            let t2 = qb.neg().add(sd).div(denom);
            let mut t = Fx { raw: i64::MAX };
            if t1.raw < t.raw && t1.raw >= tolerance.raw {
                t = t1;
            }
            if t2.raw < t.raw && t2.raw >= tolerance.raw {
                t = t2;
            }
            if t.raw < ray.travel_distance.raw {
                let point = ray.at(t);
                let normal = point.sub(obj.position).div_scalar(radius);
                ray.set_intersection(t, obj.material, normal);
            }
        },
        ObjectType::Plane { distance, normal } => {
            let denom = Vec3::dot(ray.direction, normal);
            if denom.raw == 0 {
                return ;
            }
            let t = Vec3::dot(ray.origin, normal).add(distance).neg().div(denom);
            if t.raw < ray.travel_distance.raw && t.raw >= tolerance.raw {
                ray.set_intersection(t, obj.material, normal);
            }
        },
    }
}

} // verus!
