/// The tabulated data of one isotope.
pub mod material_data;
/// The isotope tags and the properties cached at one energy.
pub mod material_properties;
