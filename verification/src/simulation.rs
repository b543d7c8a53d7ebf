use vstd::prelude::*;
use rand::rngs::SmallRng;
use crate::diagnostics::NeutronDiagnostics;
use crate::geometry::components::Components;
use crate::neutrons::neutron_scheduler::NeutronScheduler;
use crate::utils::config_loading::SimulationParametersTOML;

/// Bringing the results of repeated simulations together.
pub mod aggregate_runs;
/// Setting a simulation up and filling its first generation.
pub mod initialization;
/// The steps of the transport loop.
pub mod simulation;

verus! {

/// One transport simulation: its source of random numbers, the geometry, the
/// scheduler with the neutrons, what has been recorded, and the options.
pub struct Simulation {
    pub rng: SmallRng,
    pub components: Components,
    pub neutron_scheduler: NeutronScheduler,
    pub neutron_diagnostics: NeutronDiagnostics,
    pub simulation_parameters: SimulationParametersTOML,
}

} // verus!
