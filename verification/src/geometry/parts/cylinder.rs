use vstd::prelude::*;
use crate::geometry::components::{BoundingBox, PartComposition};
use crate::materials::material_properties::MaterialNames;
use crate::utils::reals::Real;
use crate::utils::vectors::Vec3D;

verus! {

/// A cylinder of one composition about the axis `direction`, a unit vector,
/// through `center`.
pub struct Cylinder {
    pub center: Vec3D,
    pub direction: Vec3D,
    pub length: Real,
    pub radius: Real,
    pub bounding_box: BoundingBox,
    pub name: String,
    pub material_name: MaterialNames,
    pub material_composition_vector: Vec<PartComposition>,
    pub order: i32,
    pub squared_radius: Real,
    pub half_length: Real,
}

impl Cylinder {
    /// Whether a position lies in the cylinder, its surface included, given
    /// the component of its place relative to the centre along the axis, and
    /// the square of the component across it.
    pub open spec fn contains(
        self,
        position: Vec3D,
        parallel_component: Real,
        perpendicular_component_squared: Real,
    ) -> bool {
        &&& self.bounding_box.contains(position)
        &&& perpendicular_component_squared.le(self.squared_radius)
        &&& parallel_component.abs().le(self.half_length)
    }

    /// The cylinder about `center` along `direction` with the given length
    /// and radius, whose half and square are `half_length` and
    /// `squared_radius`, and which `bounding_box` encloses.
    pub fn new(
        center: Vec3D,
        direction: Vec3D,
        length: Real,
        radius: Real,
        half_length: Real,
        squared_radius: Real,
        bounding_box: BoundingBox,
        material_name: MaterialNames,
        material_composition_vector: Vec<PartComposition>,
        order: i32,
    ) -> (cylinder: Cylinder)
        ensures
            cylinder.center == center,
            cylinder.direction == direction,
            cylinder.length == length,
            cylinder.radius == radius,
            cylinder.half_length == half_length,
            cylinder.squared_radius == squared_radius,
            cylinder.bounding_box == bounding_box,
            cylinder.name@ == "Cylinder"@,
            cylinder.material_name == material_name,
            cylinder.material_composition_vector@ == material_composition_vector@,
            cylinder.order == order,
    {
        Cylinder {
            center,
            direction,
            length,
            radius,
            bounding_box,
            name: "Cylinder".to_owned(),
            material_name,
            material_composition_vector,
            order,
            squared_radius,
            half_length,
        }
    }

    /// Whether a position lies in the box around the cylinder.
    pub fn is_inside_bounding_box(&self, neutron_position: &Vec3D) -> (inside: bool)
        ensures
            inside == self.bounding_box.contains(*neutron_position),
    {
        self.bounding_box.holds(neutron_position)
    }

    /// Whether a position lies in the cylinder. `parallel_component` is the
    /// component of its place relative to the centre along the axis, and
    /// `perpendicular_component_squared` the square of the component across
    /// it; both are read only for a position in the box around the cylinder.
    pub fn is_inside(
        &self,
        neutron_position: &Vec3D,
        parallel_component: Real,
        perpendicular_component_squared: Real,
    ) -> (inside: bool)
        ensures
            inside == self.contains(
                *neutron_position,
                parallel_component,
                perpendicular_component_squared,
            ),
            inside ==> self.bounding_box.contains(*neutron_position),
    {
        if !self.is_inside_bounding_box(neutron_position) {
            return false;
        }
        let is_inside_radius: bool = perpendicular_component_squared.le(self.squared_radius);
        let is_inside_length: bool = parallel_component.abs().le(self.half_length);

        is_inside_radius && is_inside_length
    }
}

} // verus!
