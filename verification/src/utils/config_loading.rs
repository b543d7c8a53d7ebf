use vstd::prelude::*;
use crate::utils::reals::Real;
use crate::utils::vectors::Vec3D;

verus! {

/// Every option of a run.
pub struct Config {
    pub parallelization_parameters: ParallelizationParametersTOML,
    pub simulation_parameters: SimulationParametersTOML,
    pub heat_diffusion_parameters: HeatDiffusionParametersTOML,
    pub neutron_bins: GridBinParametersTOML,
    pub geometry_plot_bins: GridBinParametersTOML,
    pub heat_diffusion_bins: GridBinParametersTOML,
}

/// How many simulations run side by side, and how many one after another.
#[derive(Clone, Copy, Debug, PartialEq, Eq, Structural)]
pub struct ParallelizationParametersTOML {
    pub number_threads: i64,
    pub simulations_per_thread: i64,
}

/// The options of one transport simulation.
pub struct SimulationParametersTOML {
    pub run_name: String,
    pub neutron_initial_position: Vec3D,
    pub neutron_generation_cap: i64,
    pub neutron_count_cap: i64,
    pub initial_neutron_count: i64,
    pub variance_reduction: bool,
    pub specified_neutron_count: i64,
    pub neutron_fission_count_cap: i64,
    pub estimate_k: bool,
    pub track_fission_positions: bool,
    pub track_bins: bool,
    pub track_from_generation: i64,
    pub plot_geometry: bool,
    pub halt_time: Option<Real>,
    pub maximum_neutron_energy_difference: Real,
    pub geometries_path: String,
    pub model_heat_diffusion: bool,
    pub calculate_convergence: bool,
    pub convergence_analysis_period: i64,
    pub minimum_convergence_level: Real,
}

/// The options of the heat solver.
pub struct HeatDiffusionParametersTOML {
    pub source_data_file: String,
    pub minimum_relevant_property_index: usize,
    pub neutron_multiplier: Real,
    pub initial_internal_temperature: Real,
    pub external_temperature: Real,
    pub t_delta: Real,
    pub t_end: Real,
    pub write_interval: i64,
    pub convective_heat_transfer_coefficient: Real,
    pub save_files: bool,
}

/// A grid of bins: how many there are along each axis, how far they reach
/// together, and where their centre is.
#[derive(Clone, Copy, Debug, PartialEq, Eq, Structural)]
pub struct GridBinParametersTOML {
    pub length_count: usize,
    pub depth_count: usize,
    pub height_count: usize,
    pub total_length: Real,
    pub total_depth: Real,
    pub total_height: Real,
    pub center: Vec3D,
}

/// The number of simulations that a run is made of.
pub open spec fn simulation_count(parameters: ParallelizationParametersTOML) -> int {
    parameters.number_threads * parameters.simulations_per_thread
}

impl ParallelizationParametersTOML {
    /// The number of simulations that the run is made of, where that number
    /// can be held.
    pub fn maximum_simulation_index(&self) -> (count: Option<i64>)
        ensures
            count is Some <==> i64::MIN <= simulation_count(*self) <= i64::MAX,
            count is Some ==> count.unwrap() == simulation_count(*self),
    {
        self.number_threads.checked_mul(self.simulations_per_thread)
    }
}

} // verus!
