//! Verified core of a continuous-energy Monte Carlo neutron transport engine.
//!
//! The library holds every discrete decision of the engine: the generation
//! scheduler, the constructive-solid-geometry lookup, table bracketing,
//! interaction selection, tallies, the criticality bookkeeping, run
//! aggregation and the grid logic of the heat solver. Real quantities enter it
//! as order keys (see [`utils::reals`]), so that every comparison the engine
//! makes is decided here, while the arithmetic on them is left to the caller.

/// Spatial tallies, generation counts and halt causes.
pub mod diagnostics;
/// Parts, their bounding boxes and the material lookup.
pub mod geometry;
/// The grid logic of the finite-volume heat solver.
pub mod heat_diffusion;
/// The closed set of isotopes and their tabulated data.
pub mod materials;
/// The neutron, its interactions and the generation scheduler.
pub mod neutrons;
/// The transport driver and the aggregation of repeated runs.
pub mod simulation;
/// Order keys, vectors, table search and durations.
pub mod utils;
