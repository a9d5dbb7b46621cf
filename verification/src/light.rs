//! Point lights, part of the scene description.
//!
//! The recursive path tracer gathers light from the background gradient
//! alone; lights are carried with the scene for renderers that sample
//! them directly.

use vstd::prelude::*;

use crate::fx::Fx;
use crate::vec3::Vec3;

verus! {

/// The kind of a light source.
#[derive(Clone, Copy, Debug)]
pub enum LightType {
    Point,
}

/// A light placed in the scene.
#[derive(Clone, Copy, Debug)]
pub struct Light {
    pub position: Vec3,
    pub intensity: Fx,
    pub light_type: LightType,
}

} // verus!
