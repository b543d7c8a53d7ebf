/// The options of a run, as plain values.
pub mod config_loading;
/// Bracketing a value in a sorted table.
pub mod data_handling;
/// Real quantities as order keys.
pub mod reals;
/// Three-component vectors of real quantities.
pub mod vectors;
