/// The parts together, and the lookup of the material at a position.
pub mod components;
/// The shapes a part can have.
pub mod parts;
