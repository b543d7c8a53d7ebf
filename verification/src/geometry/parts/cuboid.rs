use vstd::prelude::*;
use crate::geometry::components::{BoundingBox, PartComposition};
use crate::materials::material_properties::MaterialNames;
use crate::utils::vectors::Vec3D;

verus! {

/// A box of one composition with its edges along the axes.
pub struct Cuboid {
    pub center: Vec3D,
    pub bounding_box: BoundingBox,
    pub name: String,
    pub material_name: MaterialNames,
    pub material_composition_vector: Vec<PartComposition>,
    pub order: i32,
}

impl Cuboid {
    /// The box about `center` that reaches from the lower to the upper corner
    /// of `bounding_box`.
    pub fn new(
        center: Vec3D,
        bounding_box: BoundingBox,
        material_name: MaterialNames,
        material_composition_vector: Vec<PartComposition>,
        order: i32,
    ) -> (cuboid: Cuboid)
        ensures
            cuboid.center == center,
            cuboid.bounding_box == bounding_box,
            cuboid.name@ == "Cuboid"@,
            cuboid.material_name == material_name,
            cuboid.material_composition_vector@ == material_composition_vector@,
            cuboid.order == order,
    {
        Cuboid {
            center,
            bounding_box,
            name: "Cuboid".to_owned(),
            material_name,
            material_composition_vector,
            order,
        }
    }

    /// Whether a position lies in the box, its faces included.
    pub fn is_inside_bounding_box(&self, neutron_position: &Vec3D) -> (inside: bool)
        ensures
            inside == self.bounding_box.contains(*neutron_position),
    {
        self.bounding_box.holds(neutron_position)
    }

    /// Whether a position lies in the box, its faces included.
    pub fn is_inside(&self, neutron_position: &Vec3D) -> (inside: bool)
        ensures
            inside == self.bounding_box.contains(*neutron_position),
    {
        if !self.is_inside_bounding_box(neutron_position) {
            return false;
        } else {
            return true;
        }
    }
}

} // verus!
