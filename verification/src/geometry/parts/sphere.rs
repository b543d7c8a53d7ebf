use vstd::prelude::*;
use crate::geometry::components::{BoundingBox, PartComposition};
use crate::materials::material_properties::MaterialNames;
use crate::utils::reals::Real;
use crate::utils::vectors::Vec3D;

verus! {

/// A sphere of one composition.
pub struct Sphere {
    pub center: Vec3D,
    pub radius: Real,
    pub bounding_box: BoundingBox,
    pub name: String,
    pub squared_radius: Real,
    pub material_name: MaterialNames,
    pub material_composition_vector: Vec<PartComposition>,
    pub order: i32,
}

impl Sphere {
    /// Whether a position at the squared distance `relative_radius_squared`
    /// from the centre lies in the sphere, its surface included.
    pub open spec fn contains(self, position: Vec3D, relative_radius_squared: Real) -> bool {
        self.bounding_box.contains(position) && relative_radius_squared.le(self.squared_radius)
    }

    /// The sphere about `center` with the given radius, whose square is
    /// `squared_radius` and which `bounding_box` encloses.
    pub fn new(
        center: Vec3D,
        radius: Real,
        squared_radius: Real,
        bounding_box: BoundingBox,
        material_name: MaterialNames,
        material_composition_vector: Vec<PartComposition>,
        order: i32,
    ) -> (sphere: Sphere)
        ensures
            sphere.center == center,
            sphere.radius == radius,
            sphere.squared_radius == squared_radius,
            sphere.bounding_box == bounding_box,
            sphere.name@ == "Sphere"@,
            sphere.material_name == material_name,
            sphere.material_composition_vector@ == material_composition_vector@,
            sphere.order == order,
    {
        Sphere {
            center,
            radius,
            bounding_box,
            name: "Sphere".to_owned(),
            squared_radius,
            material_name,
            material_composition_vector,
            order,
        }
    }

    /// Whether a position lies in the box around the sphere.
    pub fn is_inside_bounding_box(&self, neutron_position: &Vec3D) -> (inside: bool)
        ensures
            inside == self.bounding_box.contains(*neutron_position),
    {
        self.bounding_box.holds(neutron_position)
    }

    /// Whether a position lies in the sphere; `relative_radius_squared` is
    /// its squared distance from the centre, read only for a position in the
    /// box around the sphere.
    pub fn is_inside(&self, neutron_position: &Vec3D, relative_radius_squared: Real) -> (inside:
        bool)
        ensures
            inside == self.contains(*neutron_position, relative_radius_squared),
            inside ==> self.bounding_box.contains(*neutron_position),
    {
        if !self.is_inside_bounding_box(neutron_position) {
            return false;
        }
        relative_radius_squared.le(self.squared_radius)
    }
}

} // verus!
