use vstd::prelude::*;
use crate::utils::reals::Real;
use crate::utils::vectors::Vec3D;

/// What a neutron does at the end of a step, and how that is decided.
pub mod neutron_dynamics;
/// The two queues that hold one generation each.
pub mod neutron_scheduler;
/// The trials of the sampling of a birth energy.
pub mod watt_distribution;

verus! {

/// One neutron on its track: its energy in eV, its speed, where it is and
/// where it heads, when it was born, and the generation it belongs to.
#[derive(Clone, Copy, Debug, PartialEq, Eq, Structural)]
pub struct Neutron {
    pub energy: Real,
    pub velocity: Real,
    pub time_step: Real,
    pub creation_time: Real,
    pub current_time: Real,
    pub distance_step: Real,
    pub position: Vec3D,
    pub direction: Vec3D,
    pub generation_number: i64,
    pub has_scattered: bool,
}

/// The neutron that every field of which is zero.
pub open spec fn blank_neutron() -> Neutron {
    let zero = Real { key: 0 };
    let origin = Vec3D { x: zero, y: zero, z: zero };
    Neutron {
        energy: zero,
        velocity: zero,
        time_step: zero,
        creation_time: zero,
        current_time: zero,
        distance_step: zero,
        position: origin,
        direction: origin,
        generation_number: 0,
        has_scattered: false,
    }
}

impl Default for Neutron {
    fn default() -> (neutron: Neutron)
        ensures
            neutron == blank_neutron(),
    {
        let zero = Real { key: 0 };
        let origin = Vec3D { x: zero, y: zero, z: zero };
        Neutron {
            energy: zero,
            velocity: zero,
            time_step: zero,
            creation_time: zero,
            current_time: zero,
            distance_step: zero,
            position: origin,
            direction: origin,
            generation_number: 0,
            has_scattered: false,
        }
    }
}

} // verus!
