//! The camera: a pure mapping from pixel coordinates to world-space rays.
//!
//! The camera holds a precomputed viewport frame (position, top-left
//! corner, and the two viewport spanning vectors). Turning a point of
//! view, field of view and aspect ratio into such a frame is scene
//! authoring and happens outside the renderer; generating a ray from a
//! (possibly fractional, jittered) pixel coordinate is exact fixed-point
//! arithmetic and is specified by `camera_ray`.

use vstd::prelude::*;

use crate::fx::fdiv;
use crate::fx::Fx;
use crate::ray::ray_new;
use crate::ray::Ray;
use crate::vec3::v3_add;
use crate::vec3::v3_scale;
use crate::vec3::v3_sub;
use crate::vec3::Vec3;

verus! {

/// A viewport frame placed in the world.
#[derive(Clone, Copy, Debug)]
pub struct Camera {
    /// The eye point every primary ray starts from.
    pub position: Vec3,
    /// The world point of the viewport's top-left corner.
    pub lower_top_corner: Vec3,
    /// The vector spanning the viewport left to right.
    pub horizonal: Vec3,
    /// The vector spanning the viewport top to bottom.
    pub vertical: Vec3,
    /// The image size the pixel coordinates are measured against.
    pub screen_width: Fx,
    pub screen_height: Fx,
}

/// The ray through pixel coordinate `(x, y)`: from the eye toward
/// `corner + horizonal * (x / width) - vertical * (y / height)`.
pub open spec fn camera_ray(cam: Camera, x: Fx, y: Fx) -> Ray {
    let fx = fdiv(x, cam.screen_width);
    let fy = fdiv(y, cam.screen_height);
    let direction = v3_sub(
        v3_sub(v3_add(cam.lower_top_corner, v3_scale(cam.horizonal, fx)), v3_scale(
            cam.vertical,
            fy,
        )),
        cam.position,
    );
    ray_new(cam.position, direction)
}

impl Camera {
    /// Assembles a camera from a precomputed viewport frame.
    pub fn set(
        position: Vec3,
        lower_top_corner: Vec3,
        horizonal: Vec3,
        vertical: Vec3,
        screen_width: Fx,
        screen_height: Fx,
    ) -> (r: Camera)
        ensures
            r == (Camera {
                position,
                lower_top_corner,
                horizonal,
                vertical,
                screen_width,
                screen_height,
            }),
    {
        Camera { position, lower_top_corner, horizonal, vertical, screen_width, screen_height }
    }

    /// The ray through pixel coordinate `(x, y)`; pure and stateless.
    pub fn generate_ray(&self, x: Fx, y: Fx) -> (r: Ray)
        ensures
            r == camera_ray(*self, x, y),
    {
        let fx = x.div(self.screen_width);
        let fy = y.div(self.screen_height);
        let direction = self
            .lower_top_corner
            .add(self.horizonal.scale(fx))
            .sub(self.vertical.scale(fy))
            .sub(self.position);
        Ray::new(self.position, direction)
    }
}

} // verus!
