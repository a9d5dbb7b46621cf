//! Materials and their scatter behaviour.
//!
//! A material decides, given an incoming ray and its hit record, whether
//! the light path is absorbed or continues, and with what attenuation.
//! The capability set is closed: Lambertian diffuse, fuzzy metal
//! reflection, and a clear dielectric with Schlick reflectance. The exact
//! outcome, sample stream included, is given by `scatter_spec`.

use vstd::prelude::*;

use crate::fx::fadd;
use crate::fx::fdiv;
use crate::fx::fint;
use crate::fx::fmin;
use crate::fx::fmul;
use crate::fx::fsub;
use crate::fx::fsqrt;
use crate::fx::Fx;
use crate::ray::ray_new;
use crate::ray::Ray;
use crate::sampler::draw;
use crate::sampler::next_state;
use crate::sampler::rand_sphere;
use crate::sampler::rand_unit;
use crate::sampler::unit_of;
use crate::sampler::Sampler;
use crate::vec3::v3_add;
use crate::vec3::v3_dot;
use crate::vec3::v3_neg;
use crate::vec3::v3_normalize;
use crate::vec3::v3_reflect;
use crate::vec3::v3_refract;
use crate::vec3::v3_scale;
use crate::vec3::Vec3;

verus! {

/// The scatter behaviour of a surface.
#[derive(Clone, Copy, Debug)]
pub enum MaterialType {
    Lambertian,
    Metal { fuzz: Fx },
    Dielectric { refract: Fx },
}

/// A surface material: a shared, immutable scene entry that many objects
/// may reference by index.
#[derive(Clone, Copy, Debug)]
pub struct Material {
    pub albedo: Vec3,
    pub material_type: MaterialType,
}

/// Builds a material for the scene's arena.
pub fn new(albedo: Vec3, material_type: MaterialType) -> (r: Material)
    ensures
        r == (Material { albedo, material_type }),
{
    Material { albedo, material_type }
}

/// Fifth power, multiplied up pairwise: `x^2`, `x^4`, then `x^4 * x`.
pub open spec fn pow5(x: Fx) -> Fx {
    let p2 = fmul(x, x);
    let p4 = fmul(p2, p2);
    fmul(p4, x)
}

/// Schlick's reflectance approximation:
/// `r0^2 + (1 - r0^2) * (1 - cosine)^5` with `r0 = (1 - idx) / (1 + idx)`.
pub open spec fn schlick_spec(cosine: Fx, idx: Fx) -> Fx {
    let r0 = fdiv(fsub(fint(1), idx), fadd(fint(1), idx));
    let r0sq = fmul(r0, r0);
    fadd(r0sq, fmul(fsub(fint(1), r0sq), pow5(fsub(fint(1), cosine))))
}

/// Schlick's reflectance approximation, executably.
pub fn schlick(cosine: Fx, idx: Fx) -> (r: Fx)
    ensures
        r == schlick_spec(cosine, idx),
{
    let one = Fx::one();
    let r0 = one.sub(idx).div(one.add(idx));
    let r0sq = r0.mul(r0);
    let x = one.sub(cosine);
    let p2 = x.mul(x);
    let p4 = p2.mul(p2);
    r0sq.add(one.sub(r0sq).mul(p4.mul(x)))
}

/// What scattering does, exactly: the scatter decision and the sample
/// state after it, as a function of the material, the incoming ray (with
/// its hit record) and the sample state before it.
pub open spec fn scatter_spec(m: Material, ray_in: Ray, st: u64) -> (Option<(Vec3, Ray)>, u64) {
    match ray_in.is_intersected {
        None => (None::<(Vec3, Ray)>, st),
        Some(hit) => match m.material_type {
            MaterialType::Lambertian => {
                let (u, st2) = rand_unit(st);
                let target = v3_add(hit.normal, u);
                (Some((m.albedo, ray_new(hit.position, target))), st2)
            },
            MaterialType::Metal { fuzz } => {
                let target = v3_reflect(v3_normalize(ray_in.direction), hit.normal);
                let (p, st2) = rand_sphere(st);
                let scattered = v3_add(target, v3_scale(p, fuzz));
                if v3_dot(scattered, hit.normal).raw > 0 {
                    (Some((m.albedo, ray_new(hit.position, scattered))), st2)
                } else {
                    (None::<(Vec3, Ray)>, st2)
                }
            },
            MaterialType::Dielectric { refract } => {
                let etai = if hit.front_face {
                    fdiv(fint(1), refract)
                } else {
                    refract
                };
                let unit_direction = v3_normalize(ray_in.direction);
                let cos_theta = fmin(v3_dot(v3_neg(unit_direction), hit.normal), fint(1));
                let sin_theta = fsqrt(fsub(fint(1), fmul(cos_theta, cos_theta)));
                let attenuation = Vec3 { x: fint(1), y: fint(1), z: fint(1) };
                if fmul(etai, sin_theta).raw > 65536 {
                    let reflected = v3_reflect(unit_direction, hit.normal);
                    (Some((attenuation, ray_new(hit.position, reflected))), st)
                } else {
                    let reflect_prob = schlick_spec(cos_theta, etai);
                    let chance = unit_of(draw(st));
                    let st2 = next_state(st);
                    if chance.raw < reflect_prob.raw {
                        let reflected = v3_reflect(unit_direction, hit.normal);
                        (Some((attenuation, ray_new(hit.position, reflected))), st2)
                    } else {
                        let refracted = v3_refract(unit_direction, hit.normal, etai);
                        (Some((attenuation, ray_new(hit.position, refracted))), st2)
                    }
                }
            },
        },
    }
}

/// Scatters `ray_in` at its recorded hit: `None` when the path is
/// absorbed, otherwise the attenuation and the continuing ray. Follows
/// `scatter_spec` exactly, sample stream included.
pub fn scatter(material: &Material, ray_in: &Ray, s: &mut Sampler) -> (r: Option<(Vec3, Ray)>)
    ensures
        (r, final(s).state) == scatter_spec(*material, *ray_in, old(s).state),
        r matches Some(t) ==> t.1.is_intersected is None,
{
    match &ray_in.is_intersected {
        None => None,
        Some(hit) => match material.material_type {
            MaterialType::Lambertian => {
                let u = Vec3::rand_unit_vector(s);
                let target = hit.normal.add(u);
                Some((material.albedo, Ray::new(hit.position, target)))
            },
            MaterialType::Metal { fuzz } => {
                let target = Vec3::reflect(Vec3::normalize(ray_in.direction), hit.normal);
                let p = Vec3::rand_in_unit_sphere(s);
                let scattered = target.add(p.scale(fuzz));
                if Vec3::dot(scattered, hit.normal).raw > 0 {
                    Some((material.albedo, Ray::new(hit.position, scattered)))
                } else {
                    None
                }
            },
            MaterialType::Dielectric { refract } => {
                let one = Fx::one();
                let etai = if hit.front_face {
                    one.div(refract)
                } else {
                    refract
                };
                let unit_direction = Vec3::normalize(ray_in.direction);
                let cos_theta = Vec3::dot(unit_direction.neg(), hit.normal).min(one);
                let sin_theta = one.sub(cos_theta.mul(cos_theta)).sqrt();
                let attenuation = Vec3::fill(one);
                if etai.mul(sin_theta).raw > 65536 {
                    let reflected = Vec3::reflect(unit_direction, hit.normal);
                    return Some((attenuation, Ray::new(hit.position, reflected)));
                }
                let reflect_prob = schlick(cos_theta, etai);
                let chance = s.next_unit();
                if chance.raw < reflect_prob.raw {
                    let reflected = Vec3::reflect(unit_direction, hit.normal);
                    Some((attenuation, Ray::new(hit.position, reflected)))
                } else {
                    let refracted = Vec3::refract(unit_direction, hit.normal, etai);
                    Some((attenuation, Ray::new(hit.position, refracted)))
                }
            },
        },
    }
}

/// Scaling any value by zero gives zero.
proof fn lemma_fmul_zero(a: Fx)
    ensures
        fmul(a, Fx { raw: 0 }) == (Fx { raw: 0 }),
{
    assert((a.raw as int) * 0 == 0);
    assert(0int / 65536int == 0) by (nonlinear_arith);
}

/// A fuzz-free metal mirror is deterministic: whatever the sample state,
/// the scattered direction is exactly the geometric reflection of the
/// normalized incoming direction about the surface normal.
#[verifier::rlimit(50)]
pub proof fn lemma_metal_fuzz_zero_reflects(m: Material, ray_in: Ray, st: u64)
    requires
        m.material_type == (MaterialType::Metal { fuzz: Fx { raw: 0 } }),
        ray_in.is_intersected is Some,
    ensures
        ({
            let hit = ray_in.is_intersected->0;
            let target = v3_reflect(v3_normalize(ray_in.direction), hit.normal);
            let (decision, _) = scatter_spec(m, ray_in, st);
            if v3_dot(target, hit.normal).raw > 0 {
                decision == Some((m.albedo, ray_new(hit.position, target)))
            } else {
                decision is None
            }
        }),
{
    let hit = ray_in.is_intersected->0;
    let target = v3_reflect(v3_normalize(ray_in.direction), hit.normal);
    let (p, _) = rand_sphere(st);
    lemma_fmul_zero(p.x);
    lemma_fmul_zero(p.y);
    lemma_fmul_zero(p.z);
    assert(v3_scale(p, Fx { raw: 0 }) == (Vec3 {
        x: Fx { raw: 0 },
        y: Fx { raw: 0 },
        z: Fx { raw: 0 },
    }));
    assert(v3_add(target, v3_scale(p, Fx { raw: 0 })) == target);
}

} // verus!
