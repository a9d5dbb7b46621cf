//! Rays and their intersection records.
//!
//! A ray is an ephemeral accumulator for one light-transport path segment:
//! it carries at most one hit, and a candidate intersection only replaces
//! it when strictly nearer (the intersector checks the tolerance bound).
//! Materials live in the scene's arena and are referenced by index.

use vstd::prelude::*;

use crate::fx::Fx;
use crate::vec3::lemma_v3_dot_neg;
use crate::vec3::v3_add;
use crate::vec3::v3_dot;
use crate::vec3::v3_neg;
use crate::vec3::v3_scale;
use crate::vec3::v3_wf;
use crate::vec3::Vec3;

verus! {

/// What is known about a ray's closest accepted hit.
#[derive(Clone, Copy, Debug)]
pub struct IntersectData {
    /// Index of the hit surface's material in the scene's arena.
    pub material: usize,
    /// The hit point.
    pub position: Vec3,
    /// Surface normal, oriented against the incoming ray.
    pub normal: Vec3,
    /// Whether the ray met the surface from its outward side.
    pub front_face: bool,
}

/// A ray with its running nearest-hit record.
#[derive(Clone, Copy, Debug)]
pub struct Ray {
    pub is_intersected: Option<IntersectData>,
    pub direction: Vec3,
    pub origin: Vec3,
    /// Distance to the current hit; the farthest representable value
    /// while the ray has not hit anything.
    pub travel_distance: Fx,
}

/// The point reached after travelling `t` along the ray.
pub open spec fn ray_at(ray: Ray, t: Fx) -> Vec3 {
    v3_add(ray.origin, v3_scale(ray.direction, t))
}

/// A fresh ray with no hit and the farthest representable travel bound.
pub open spec fn ray_new(origin: Vec3, direction: Vec3) -> Ray {
    Ray { is_intersected: None, direction, origin, travel_distance: Fx { raw: i64::MAX } }
}

/// The ray with its hit record replaced by a hit at distance `t` with the
/// given material and outward normal; the stored normal is flipped toward
/// the ray's origin side.
pub open spec fn with_intersection(ray: Ray, t: Fx, material: usize, normal: Vec3) -> Ray {
    let front_face = v3_dot(ray.direction, normal).raw < 0;
    Ray {
        is_intersected: Some(
            IntersectData {
                material,
                position: ray_at(ray, t),
                normal: if front_face {
                    normal
                } else {
                    v3_neg(normal)
                },
                front_face,
            },
        ),
        direction: ray.direction,
        origin: ray.origin,
        travel_distance: t,
    }
}

/// Whether the ray's hit record, if any, has its normal oriented toward
/// the ray's origin side: the stored normal's inner product with the
/// direction is nonpositive. Front-face semantics rest on this.
pub open spec fn hit_oriented(ray: Ray) -> bool {
    match ray.is_intersected {
        Some(hit) => v3_dot(ray.direction, hit.normal).raw <= 0,
        None => true,
    }
}

/// Recording a hit orients the stored normal toward the ray's origin
/// side, for every normal in the scalar's symmetric range: flipping is
/// exact there, so the stored normal's inner product with the direction
/// cannot come out positive.
pub proof fn lemma_with_intersection_oriented(ray: Ray, t: Fx, material: usize, normal: Vec3)
    requires
        v3_wf(normal),
    ensures
        hit_oriented(with_intersection(ray, t, material, normal)),
{
    let d = ray.direction;
    if v3_dot(d, normal).raw >= 0 {
        lemma_v3_dot_neg(d, normal);
    }
}

impl Ray {
    /// A fresh ray with no hit.
    pub fn new(origin: Vec3, direction: Vec3) -> (r: Ray)
        ensures
            r == ray_new(origin, direction),
    {
        Ray { is_intersected: None, direction, origin, travel_distance: Fx { raw: i64::MAX } }
    }

    /// The point reached after travelling `t` along the ray.
    pub fn at(&self, t: Fx) -> (r: Vec3)
        ensures
            r == ray_at(*self, t),
    {
        self.origin.add(self.direction.scale(t))
    }

    /// Records a hit at distance `t`, orienting the normal against the
    /// incoming direction.
    pub fn set_intersection(&mut self, t: Fx, material: usize, normal: Vec3)
        ensures
            *final(self) == with_intersection(*old(self), t, material, normal),
            v3_wf(normal) ==> hit_oriented(*final(self)),
    {
        proof {
            if v3_wf(normal) {
                lemma_with_intersection_oriented(*old(self), t, material, normal);
            }
        }
        let front_face = Vec3::dot(self.direction, normal).raw < 0;
        self.travel_distance = t;
        self.is_intersected = Some(
            IntersectData {
                material,
                position: self.at(t),
                front_face,
                normal: if front_face {
                    normal
                } else {
                    normal.neg()
                },
            },
        );
    }
}

} // verus!
