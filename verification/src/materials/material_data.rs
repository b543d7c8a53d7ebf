use vstd::prelude::*;
use crate::materials::material_properties::MaterialNames;
use crate::utils::reals::Real;

verus! {

/// Everything that is tabulated of one isotope: its cross-sections for
/// fission, elastic scattering and absorption in barns against the energy in
/// eV, the mean number of neutrons per fission against the energy in eV, the
/// two Watt parameters against the energy in MeV, and its bulk properties.
/// A table of a single row stands for no data.
pub struct MaterialData {
    pub energy_fission_cross_sections: Vec<Real>,
    pub fission_cross_sections: Vec<Real>,
    pub energy_scattering_cross_sections: Vec<Real>,
    pub elastic_cross_sections: Vec<Real>,
    pub energy_absorption_cross_sections: Vec<Real>,
    pub absorption_cross_sections: Vec<Real>,
    pub energy_nu_bar: Vec<Real>,
    pub nu_bar: Vec<Real>,
    pub energy_watt_parameters: Vec<Real>,
    pub watt_parameters_a: Vec<Real>,
    pub watt_parameters_b: Vec<Real>,
    pub number_density: Real,
    pub atomic_mass: Real,
    pub thermal_conductivity: Real,
    pub density: Real,
    pub heat_capacity: Real,
    pub name: MaterialNames,
    pub fissionable: bool,
}

/// The two columns of a table have one length, and there is a row.
pub open spec fn is_table(xs: Seq<Real>, ys: Seq<Real>) -> bool {
    0 < xs.len() == ys.len()
}

/// Every row of a column is a number.
pub open spec fn all_numbers(xs: Seq<Real>) -> bool {
    forall|i: int| 0 <= i < xs.len() ==> (#[trigger] xs[i]).is_number()
}

fn column_is_numbers(xs: &Vec<Real>) -> (numbers: bool)
    ensures
        numbers == all_numbers(xs@),
{
    let mut index: usize = 0;
    while index < xs.len()
        invariant
            index <= xs.len(),
            forall|i: int| 0 <= i < index ==> (#[trigger] xs[i]).is_number(),
        decreases xs.len() - index,
    {
        if xs[index].is_nan() {
            return false;
        }
        index += 1;
    }
    true
}

impl MaterialData {
    /// Every table has a row, and its columns have one length.
    pub open spec fn well_formed(self) -> bool {
        &&& is_table(self.energy_fission_cross_sections@, self.fission_cross_sections@)
        &&& is_table(self.energy_scattering_cross_sections@, self.elastic_cross_sections@)
        &&& is_table(self.energy_absorption_cross_sections@, self.absorption_cross_sections@)
        &&& is_table(self.energy_nu_bar@, self.nu_bar@)
        &&& is_table(self.energy_watt_parameters@, self.watt_parameters_a@)
        &&& is_table(self.energy_watt_parameters@, self.watt_parameters_b@)
    }
}

impl MaterialData {
    /// Every table can be read at any energy that is a number: the tables
    /// are well formed, and every energy in them is a number.
    pub open spec fn readable(self) -> bool {
        &&& self.well_formed()
        &&& all_numbers(self.energy_fission_cross_sections@)
        &&& all_numbers(self.energy_scattering_cross_sections@)
        &&& all_numbers(self.energy_absorption_cross_sections@)
        &&& all_numbers(self.energy_nu_bar@)
        &&& all_numbers(self.energy_watt_parameters@)
    }

    /// Whether every table can be read at any energy that is a number.
    pub fn is_readable(&self) -> (readable: bool)
        ensures
            readable == self.readable(),
    {
        let formed = self.energy_fission_cross_sections.len() > 0
            && self.energy_fission_cross_sections.len() == self.fission_cross_sections.len()
            && self.energy_scattering_cross_sections.len() > 0
            && self.energy_scattering_cross_sections.len() == self.elastic_cross_sections.len()
            && self.energy_absorption_cross_sections.len() > 0
            && self.energy_absorption_cross_sections.len() == self.absorption_cross_sections.len()
            && self.energy_nu_bar.len() > 0 && self.energy_nu_bar.len() == self.nu_bar.len()
            && self.energy_watt_parameters.len() > 0 && self.energy_watt_parameters.len()
            == self.watt_parameters_a.len() && self.energy_watt_parameters.len()
            == self.watt_parameters_b.len();
        formed && column_is_numbers(&self.energy_fission_cross_sections) && column_is_numbers(
            &self.energy_scattering_cross_sections,
        ) && column_is_numbers(&self.energy_absorption_cross_sections) && column_is_numbers(
            &self.energy_nu_bar,
        ) && column_is_numbers(&self.energy_watt_parameters)
    }
}

} // verus!
