//! The scene: an immutable world description shared by all workers.
//!
//! Materials live in an arena and are shared across objects by stable
//! index, never duplicated. A well-formed scene has every object's
//! material index inside the arena and every object's geometry in the
//! scalar's symmetric range; construction keeps both invariants.

use vstd::prelude::*;

use crate::camera::Camera;
use crate::light::Light;
use crate::material::Material;
use crate::shape::object_type_wf;
use crate::shape::object_wf;
use crate::shape::Object;
use crate::shape::ObjectType;
use crate::vec3::Vec3;

verus! {

/// Every object's material index points below `materials_len`.
pub open spec fn objects_wf(objects: Seq<Object>, materials_len: int) -> bool {
    forall|i: int|
        0 <= i < objects.len() ==> (#[trigger] objects[i]).material < materials_len
}

/// Every object's geometry is well formed (its stored vectors lie in the
/// scalar's symmetric range).
pub open spec fn objects_geom_wf(objects: Seq<Object>) -> bool {
    forall|i: int| 0 <= i < objects.len() ==> object_wf(#[trigger] objects[i])
}

/// A world to render: objects, lights, the material arena and one camera.
#[derive(Clone, Debug)]
pub struct Scene {
    pub objects: Vec<Object>,
    pub lights: Vec<Light>,
    pub materials: Vec<Material>,
    pub camera: Camera,
}

impl Scene {
    /// Every object's material index points into the arena, and every
    /// object's geometry is well formed.
    pub open spec fn wf(self) -> bool {
        objects_wf(self.objects@, self.materials@.len() as int) && objects_geom_wf(self.objects@)
    }

    /// An empty scene with the given camera.
    pub fn new(camera: Camera) -> (r: Scene)
        ensures
            r.wf(),
            r.objects@.len() == 0,
            r.lights@.len() == 0,
            r.materials@.len() == 0,
            r.camera == camera,
    {
        Scene { objects: Vec::new(), lights: Vec::new(), materials: Vec::new(), camera }
    }

    /// Adds a material to the arena and returns its stable index.
    pub fn add_material(&mut self, material: Material) -> (idx: usize)
        ensures
            final(self).materials@ == old(self).materials@.push(material),
            idx == old(self).materials@.len(),
            final(self).objects == old(self).objects,
            final(self).lights == old(self).lights,
            final(self).camera == old(self).camera,
            old(self).wf() ==> final(self).wf(),
    {
        let idx = self.materials.len();
        self.materials.push(material);
        idx
    }

    /// Places an object made of the material at `material_idx`.
    pub fn add_object(&mut self, position: Vec3, object_type: ObjectType, material_idx: usize)
        requires
            material_idx < old(self).materials@.len(),
            object_type_wf(object_type),
        ensures
            final(self).objects@ == old(self).objects@.push(
                Object { position, object_type, material: material_idx },
            ),
            final(self).materials == old(self).materials,
            final(self).lights == old(self).lights,
            final(self).camera == old(self).camera,
            old(self).wf() ==> final(self).wf(),
    {
        self.objects.push(Object { position, object_type, material: material_idx });
    }

    /// Places a light.
    pub fn add_light(&mut self, light: Light)
        ensures
            final(self).lights@ == old(self).lights@.push(light),
            final(self).objects == old(self).objects,
            final(self).materials == old(self).materials,
            final(self).camera == old(self).camera,
            old(self).wf() ==> final(self).wf(),
    {
        self.lights.push(light);
    }
}

} // verus!
