use vstd::prelude::*;
use crate::utils::reals::Real;

verus! {

/// A point or a direction in space.
#[derive(Clone, Copy, Debug, PartialEq, Eq, Structural)]
pub struct Vec3D {
    pub x: Real,
    pub y: Real,
    pub z: Real,
}

/// The lesser of two reals; where one of them is a NaN, the other.
pub open spec fn lesser_of(a: Real, b: Real) -> Real {
    if !a.is_number() {
        b
    } else if !b.is_number() {
        a
    } else if a.key <= b.key {
        a
    } else {
        b
    }
}

/// The greater of two reals; where one of them is a NaN, the other.
pub open spec fn greater_of(a: Real, b: Real) -> Real {
    if !a.is_number() {
        b
    } else if !b.is_number() {
        a
    } else if a.key >= b.key {
        a
    } else {
        b
    }
}

fn lesser(a: Real, b: Real) -> (r: Real)
    ensures
        r == lesser_of(a, b),
{
    if a.is_nan() {
        b
    } else if b.is_nan() {
        a
    } else if a.key <= b.key {
        a
    } else {
        b
    }
}

fn greater(a: Real, b: Real) -> (r: Real)
    ensures
        r == greater_of(a, b),
{
    if a.is_nan() {
        b
    } else if b.is_nan() {
        a
    } else if a.key >= b.key {
        a
    } else {
        b
    }
}

impl Vec3D {
    /// The componentwise minimum of two vectors.
    pub fn min(&self, second_vector: Vec3D) -> (r: Vec3D)
        ensures
            r.x == lesser_of(self.x, second_vector.x),
            r.y == lesser_of(self.y, second_vector.y),
            r.z == lesser_of(self.z, second_vector.z),
    {
        Vec3D {
            x: lesser(self.x, second_vector.x),
            y: lesser(self.y, second_vector.y),
            z: lesser(self.z, second_vector.z),
        }
    }

    /// The componentwise maximum of two vectors.
    pub fn max(&self, second_vector: Vec3D) -> (r: Vec3D)
        ensures
            r.x == greater_of(self.x, second_vector.x),
            r.y == greater_of(self.y, second_vector.y),
            r.z == greater_of(self.z, second_vector.z),
    {
        Vec3D {
            x: greater(self.x, second_vector.x),
            y: greater(self.y, second_vector.y),
            z: greater(self.z, second_vector.z),
        }
    }
}

impl Default for Vec3D {
    fn default() -> (r: Vec3D)
        ensures
            r.x.key == 0,
            r.y.key == 0,
            r.z.key == 0,
    {
        Vec3D { x: Real { key: 0 }, y: Real { key: 0 }, z: Real { key: 0 } }
    }
}

} // verus!
