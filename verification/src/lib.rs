//! A CPU path tracer over deterministic fixed-point arithmetic.
//!
//! Geometry, radiance and sampling are all expressed in a signed Q48.16
//! fixed-point scalar, so every stage of the renderer — intersection,
//! scattering, recursive radiance accumulation, tone mapping and the
//! work-partitioning scheduler — is an exact mathematical function of the
//! scene, the configuration and the seed. Rendering is therefore
//! reproducible byte for byte, independent of how the pixel work is split
//! across workers.

use vstd::prelude::*;

pub mod fx;
pub mod camera;
pub mod light;
pub mod material;
pub mod ray;
pub mod renderer;
pub mod shape;
pub mod sampler;
pub mod scene;
pub mod vec3;

verus! {

} // verus!
