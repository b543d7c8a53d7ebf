use vstd::prelude::*;
use crate::diagnostics::geometry_diagnostics::GeometryDiagnostics;
use crate::utils::config_loading::HeatDiffusionParametersTOML;
use crate::utils::reals::Real;

/// Flat arrays over the grid.
pub mod heat_diffusion;
/// The cells, faces and steps of the finite-volume solver.
pub mod heat_diffusion_rework;

verus! {

/// One row of the temperature history: the time, and the mean and the
/// greatest temperature of the cells that take part.
#[derive(Clone, Copy, Debug, PartialEq, Eq, Structural)]
pub struct TemperatureData {
    pub time: Real,
    pub mean_temperature: Real,
    pub maximum_temperature: Real,
}

/// The state of the heat solver on a grid.
///
/// A cell takes part in the solution if the index of its material is at least
/// `minimum_relevant_property_index`; every other cell is coolant, held at the
/// external temperature. The two temperature arrays change roles after every
/// step.
pub struct HeatDiffusion {
    pub geometry: GeometryDiagnostics,
    pub parameters: HeatDiffusionParametersTOML,
    pub fission_source_array: Vec<Real>,
    pub simulation_directions: Vec<SimulationDirections>,
    pub t_delta: Real,
    pub t_end: Real,
    pub time_steps: u64,
    pub minimum_relevant_property_index: usize,
    pub cell_volume: Real,
    pub relevant_tuples: Vec<(usize, usize, usize)>,
    pub material_index_array: Vec<usize>,
    pub temperature_array: Vec<Real>,
    pub temperature_array_new: Vec<Real>,
    pub temperature_data_array: Vec<TemperatureData>,
    pub source_term_constant: Real,
}

/// The six faces of a cell.
#[derive(Clone, Copy, Debug, PartialEq, Eq, Structural)]
pub enum SimulationDirections {
    North,
    South,
    East,
    West,
    Top,
    Bottom,
}

} // verus!
