use vstd::prelude::*;
use crate::diagnostics::geometry_diagnostics::GeometryDiagnostics;
use crate::diagnostics::halt_causes::SimulationHaltCauses;
use crate::utils::reals::Real;
use crate::utils::vectors::Vec3D;

/// The multiplication factor from the sizes of the generations.
pub mod data_post_processing;
/// Collecting data during the simulation.
pub mod diagnostics_tracking;
/// The grid of bins that space is divided into.
pub mod geometry_diagnostics;
/// Causes for halting the simulation.
pub mod halt_causes;

verus! {

/// What is counted in one bin: the steps that neutrons ended in it, and the
/// fissions that happened in it.
#[derive(Clone, Copy, Debug, PartialEq, Eq, Structural)]
pub struct BinData {
    pub neutron_count: i64,
    pub fission_count: i64,
}

impl Default for BinData {
    fn default() -> (bin: BinData)
        ensures
            bin.neutron_count == 0,
            bin.fission_count == 0,
    {
        BinData { neutron_count: 0, fission_count: 0 }
    }
}

/// Everything that one simulation records.
pub struct NeutronDiagnostics {
    pub neutron_generation_counts: Vec<i64>,
    pub neutron_position_bins: Vec<BinData>,
    pub neutron_position_bins_previous: Vec<BinData>,
    pub convergence_tracking: Vec<(i64, Real)>,
    pub previous_bin_generation: i64,
    pub neutron_fission_locations: Vec<Vec3D>,
    pub bin_parameters: GeometryDiagnostics,
    pub estimate_k: bool,
    pub track_bins: bool,
    pub track_fission_positions: bool,
    pub track_from_generation: i64,
    pub max_generation_value: i64,
    pub averaged_k: Real,
    pub halt_cause: SimulationHaltCauses,
    pub initial_neutron_count: i64,
    pub total_neutrons_tracked: i64,
    pub total_fissions: i64,
    pub power_generated: Real,
    pub total_energy: Real,
}

} // verus!
