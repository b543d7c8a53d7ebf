use vstd::prelude::*;
use crate::diagnostics::geometry_diagnostics::GeometryDiagnostics;
use crate::diagnostics::BinData;
use crate::utils::reals::Real;
use crate::utils::vectors::Vec3D;

/// Summing the tallies and joining the lists of the runs.
pub mod post_processing;
/// Breaking a duration down for the report.
pub mod report_creation;

verus! {

/// What repeated simulations give together.
pub struct AggregateRunResult {
    pub simulation_count: usize,
    pub combined_bins: Vec<BinData>,
    pub combined_fission_vector: Vec<Vec3D>,
    pub total_neutrons_tracked: i64,
    pub averaged_k: Real,
    pub averaged_power: Real,
    pub bin_parameters: GeometryDiagnostics,
    pub convergence_per_generation: Vec<(i64, Real)>,
}

} // verus!
