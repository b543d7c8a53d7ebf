use vstd::prelude::*;
use crate::geometry::components::{BoundingBox, PartComposition};
use crate::geometry::parts::cuboid::Cuboid;
use crate::geometry::parts::cylinder::Cylinder;
use crate::geometry::parts::sphere::Sphere;
use crate::utils::reals::Real;
use crate::utils::vectors::Vec3D;

verus! {

/// A part, as one of the shapes it can have.
pub enum PartTypes {
    Cylinder(Cylinder),
    Sphere(Sphere),
    Cuboid(Cuboid),
}

/// What the arithmetic on a position gives for one part. For a sphere, the
/// squared distance of the position from the centre is in `radial_squared`.
/// For a cylinder, the component of the position relative to the centre
/// along the axis is in `axial`, and the square of the component across the
/// axis in `radial_squared`. A box needs neither.
#[derive(Clone, Copy, Debug, PartialEq, Eq, Structural)]
pub struct PartMeasure {
    pub radial_squared: Real,
    pub axial: Real,
}

impl PartTypes {
    /// The priority of the part: where parts overlap, the one of the highest
    /// order is met.
    pub open spec fn order_of(self) -> i32 {
        match self {
            PartTypes::Cylinder(cylinder) => cylinder.order,
            PartTypes::Sphere(sphere) => sphere.order,
            PartTypes::Cuboid(cuboid) => cuboid.order,
        }
    }

    /// The box around the part.
    pub open spec fn box_of(self) -> BoundingBox {
        match self {
            PartTypes::Cylinder(cylinder) => cylinder.bounding_box,
            PartTypes::Sphere(sphere) => sphere.bounding_box,
            PartTypes::Cuboid(cuboid) => cuboid.bounding_box,
        }
    }

    /// What the part is made of.
    pub open spec fn composition_of(self) -> Seq<PartComposition> {
        match self {
            PartTypes::Cylinder(cylinder) => cylinder.material_composition_vector@,
            PartTypes::Sphere(sphere) => sphere.material_composition_vector@,
            PartTypes::Cuboid(cuboid) => cuboid.material_composition_vector@,
        }
    }

    /// Whether a position with the given measure lies in the part.
    pub open spec fn contains(self, position: Vec3D, measure: PartMeasure) -> bool {
        match self {
            PartTypes::Cylinder(cylinder) => cylinder.contains(
                position,
                measure.axial,
                measure.radial_squared,
            ),
            PartTypes::Sphere(sphere) => sphere.contains(position, measure.radial_squared),
            PartTypes::Cuboid(cuboid) => cuboid.bounding_box.contains(position),
        }
    }

    /// The priority of the part.
    pub fn order(&self) -> (order: i32)
        ensures
            order == self.order_of(),
    {
        match self {
            PartTypes::Cylinder(cylinder) => cylinder.order,
            PartTypes::Sphere(sphere) => sphere.order,
            PartTypes::Cuboid(cuboid) => cuboid.order,
        }
    }

    /// What the part is made of.
    pub fn composition(&self) -> (composition: &Vec<PartComposition>)
        ensures
            composition@ == self.composition_of(),
    {
        match self {
            PartTypes::Cylinder(cylinder) => &cylinder.material_composition_vector,
            PartTypes::Sphere(sphere) => &sphere.material_composition_vector,
            PartTypes::Cuboid(cuboid) => &cuboid.material_composition_vector,
        }
    }

    /// Whether a position lies in the box around the part.
    pub fn is_inside_bounding_box(&self, neutron_position: &Vec3D) -> (inside: bool)
        ensures
            inside == self.box_of().contains(*neutron_position),
    {
        match self {
            PartTypes::Cylinder(cylinder) => cylinder.is_inside_bounding_box(neutron_position),
            PartTypes::Sphere(sphere) => sphere.is_inside_bounding_box(neutron_position),
            PartTypes::Cuboid(cuboid) => cuboid.is_inside_bounding_box(neutron_position),
        }
    }

    /// Whether a position with the given measure lies in the part.
    pub fn is_inside(&self, neutron_position: &Vec3D, measure: PartMeasure) -> (inside: bool)
        ensures
            inside == self.contains(*neutron_position, measure),
            inside ==> self.box_of().contains(*neutron_position),
    {
        match self {
            PartTypes::Cylinder(cylinder) => cylinder.is_inside(
                neutron_position,
                measure.axial,
                measure.radial_squared,
            ),
            PartTypes::Sphere(sphere) => sphere.is_inside(neutron_position, measure.radial_squared),
            PartTypes::Cuboid(cuboid) => cuboid.is_inside(neutron_position),
        }
    }
}

/// Whatever its shape and whatever the measure, a part holds no position that
/// the box around it does not hold.
pub proof fn lemma_inside_is_inside_box(part: PartTypes, position: Vec3D, measure: PartMeasure)
    requires
        part.contains(position, measure),
    ensures
        part.box_of().contains(position),
{
}

/// A position across the box around a part from the part's side, along any
/// axis, is outside the part.
pub proof fn lemma_outside_box_is_outside(part: PartTypes, position: Vec3D, measure: PartMeasure)
    requires
        position.x.lt(part.box_of().min.x) || part.box_of().max.x.lt(position.x) || position.y.lt(
            part.box_of().min.y,
        ) || part.box_of().max.y.lt(position.y) || position.z.lt(part.box_of().min.z)
            || part.box_of().max.z.lt(position.z),
    ensures
        !part.contains(position, measure),
{
}

} // verus!
