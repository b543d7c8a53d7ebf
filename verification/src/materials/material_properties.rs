use vstd::prelude::*;
use crate::materials::material_data::MaterialData;
use crate::utils::data_handling::{
    comparable, get_watt_parameters, interpolation_of, linear_interpolation, second_parameter_at,
    Interpolation,
};
use crate::utils::reals::Real;

verus! {

/// The isotopes that a part can be made of.
#[derive(Clone, Copy, Debug, PartialEq, Eq, Structural)]
pub enum MaterialNames {
    Void,
    H1,
    Be9,
    O16,
    Fe54,
    U235,
    U238,
    B10,
}

/// How many isotopes there are; the valid indices are those below it.
pub const MATERIAL_COUNT: usize = 8;

impl Default for MaterialNames {
    fn default() -> (name: MaterialNames)
        ensures
            name == MaterialNames::Void,
    {
        MaterialNames::Void
    }
}

/// The index at which an isotope stands in every per-isotope table.
pub open spec fn index_of(material_name: MaterialNames) -> usize {
    match material_name {
        MaterialNames::Void => 0,
        MaterialNames::H1 => 1,
        MaterialNames::Be9 => 2,
        MaterialNames::O16 => 3,
        MaterialNames::Fe54 => 4,
        MaterialNames::U235 => 5,
        MaterialNames::U238 => 6,
        MaterialNames::B10 => 7,
    }
}

/// The isotope that stands at an index; an index past the last isotope is void.
pub open spec fn name_of(material_index: usize) -> MaterialNames {
    if material_index == 1 {
        MaterialNames::H1
    } else if material_index == 2 {
        MaterialNames::Be9
    } else if material_index == 3 {
        MaterialNames::O16
    } else if material_index == 4 {
        MaterialNames::Fe54
    } else if material_index == 5 {
        MaterialNames::U235
    } else if material_index == 6 {
        MaterialNames::U238
    } else if material_index == 7 {
        MaterialNames::B10
    } else {
        MaterialNames::Void
    }
}

/// Mapping from an isotope to its index.
pub fn map_enum_to_indices(material_name: &MaterialNames) -> (material_index: usize)
    ensures
        material_index == index_of(*material_name),
        material_index < MATERIAL_COUNT,
{
    match material_name {
        MaterialNames::Void => 0,
        MaterialNames::H1 => 1,
        MaterialNames::Be9 => 2,
        MaterialNames::O16 => 3,
        MaterialNames::Fe54 => 4,
        MaterialNames::U235 => 5,
        MaterialNames::U238 => 6,
        MaterialNames::B10 => 7,
    }
}

/// Mapping from an index to its isotope.
pub fn map_indices_to_enum(material_index: usize) -> (material_name: MaterialNames)
    ensures
        material_name == name_of(material_index),
{
    match material_index {
        0 => MaterialNames::Void,
        1 => MaterialNames::H1,
        2 => MaterialNames::Be9,
        3 => MaterialNames::O16,
        4 => MaterialNames::Fe54,
        5 => MaterialNames::U235,
        6 => MaterialNames::U238,
        7 => MaterialNames::B10,
        _ => MaterialNames::Void,
    }
}

/// Every isotope is the isotope of its own index.
pub proof fn lemma_name_of_index(material_name: MaterialNames)
    ensures
        index_of(material_name) < MATERIAL_COUNT,
        name_of(index_of(material_name)) == material_name,
{
}

/// Every valid index is the index of its own isotope.
pub proof fn lemma_index_of_name(material_index: usize)
    requires
        material_index < MATERIAL_COUNT,
    ensures
        index_of(name_of(material_index)) == material_index,
{
}

/// An index past the last isotope reads as void, whose index is zero.
pub proof fn lemma_index_out_of_range(material_index: usize)
    requires
        material_index >= MATERIAL_COUNT,
    ensures
        name_of(material_index) == MaterialNames::Void,
        index_of(name_of(material_index)) == 0,
{
}

/// What is known of one isotope at the energy of the neutron in flight: its
/// three macroscopic cross-sections in 1/m, the mean number of neutrons per
/// fission, the two Watt parameters, and what does not depend on the energy.
#[derive(Clone, Copy, Debug, PartialEq, Eq, Structural)]
pub struct MaterialProperties {
    pub number_density: Real,
    pub scattering: Real,
    pub absorption: Real,
    pub fission: Real,
    pub fissionable: bool,
    pub name: MaterialNames,
    pub watt_a: Real,
    pub watt_b: Real,
    pub nu_bar: Real,
    pub atomic_mass: Real,
}

/// How each tabulated quantity of an isotope is read off its table at one
/// energy.
#[derive(Clone, Copy, Debug, PartialEq, Eq, Structural)]
pub struct PropertyReadings {
    pub fission: Interpolation,
    pub scattering: Interpolation,
    pub absorption: Interpolation,
    pub nu_bar: Interpolation,
    pub watt_a: Interpolation,
    pub watt_b: Interpolation,
}

/// What the arithmetic on the readings gives for one isotope at one energy:
/// its three macroscopic cross-sections in 1/m, the mean number of neutrons
/// per fission, and the two Watt parameters.
#[derive(Clone, Copy, Debug, PartialEq, Eq, Structural)]
pub struct PropertyValues {
    pub fission: Real,
    pub scattering: Real,
    pub absorption: Real,
    pub nu_bar: Real,
    pub watt_a: Real,
    pub watt_b: Real,
}

/// The properties of an isotope at one energy: the values that depend on the
/// energy, and from the isotope's own data its number density, its name, its
/// mass and whether it can undergo fission.
pub open spec fn entry_of(material_data: MaterialData, values: PropertyValues) -> MaterialProperties {
    MaterialProperties {
        number_density: material_data.number_density,
        scattering: values.scattering,
        absorption: values.absorption,
        fission: values.fission,
        fissionable: material_data.fissionable,
        name: material_data.name,
        watt_a: values.watt_a,
        watt_b: values.watt_b,
        nu_bar: values.nu_bar,
        atomic_mass: material_data.atomic_mass,
    }
}

/// A table can be read at a target: it holds no data, or the target and all
/// its energies are numbers.
pub open spec fn readable(xs: Seq<Real>, ys: Seq<Real>, target: Real) -> bool {
    ys.len() == 1 || comparable(xs, target)
}

/// How each tabulated quantity of an isotope is read at an energy, given in
/// eV and in MeV.
pub open spec fn readings_of(
    material_data: MaterialData,
    energy: Real,
    mev_energy: Real,
) -> PropertyReadings {
    let watt_a = interpolation_of(
        material_data.energy_watt_parameters@,
        material_data.watt_parameters_a@,
        mev_energy,
    );
    PropertyReadings {
        fission: interpolation_of(
            material_data.energy_fission_cross_sections@,
            material_data.fission_cross_sections@,
            energy,
        ).0,
        scattering: interpolation_of(
            material_data.energy_scattering_cross_sections@,
            material_data.elastic_cross_sections@,
            energy,
        ).0,
        absorption: interpolation_of(
            material_data.energy_absorption_cross_sections@,
            material_data.absorption_cross_sections@,
            energy,
        ).0,
        nu_bar: interpolation_of(material_data.energy_nu_bar@, material_data.nu_bar@, energy).0,
        watt_a: watt_a.0,
        watt_b: second_parameter_at(
            material_data.energy_watt_parameters@,
            material_data.watt_parameters_b@,
            watt_a.0,
            watt_a.1,
        ),
    }
}

/// Data whose tables can be read can be read at every energy that is a
/// number.
pub proof fn lemma_readable_data(material_data: MaterialData, energy: Real, mev_energy: Real)
    requires
        material_data.readable(),
        energy.is_number(),
        mev_energy.is_number(),
    ensures
        material_data.well_formed(),
        readable(
            material_data.energy_fission_cross_sections@,
            material_data.fission_cross_sections@,
            energy,
        ),
        readable(
            material_data.energy_scattering_cross_sections@,
            material_data.elastic_cross_sections@,
            energy,
        ),
        readable(
            material_data.energy_absorption_cross_sections@,
            material_data.absorption_cross_sections@,
            energy,
        ),
        readable(material_data.energy_nu_bar@, material_data.nu_bar@, energy),
        comparable(material_data.energy_watt_parameters@, mev_energy),
{
}

impl Default for MaterialProperties {
    fn default() -> (properties: MaterialProperties)
        ensures
            properties == blank_properties(),
    {
        let zero = Real { key: 0 };
        MaterialProperties {
            number_density: zero,
            scattering: zero,
            absorption: zero,
            fission: zero,
            fissionable: false,
            name: MaterialNames::Void,
            watt_a: zero,
            watt_b: zero,
            nu_bar: zero,
            atomic_mass: zero,
        }
    }
}

/// The properties of nothing: void, with every quantity zero.
pub open spec fn blank_properties() -> MaterialProperties {
    let zero = Real { key: 0 };
    MaterialProperties {
        number_density: zero,
        scattering: zero,
        absorption: zero,
        fission: zero,
        fissionable: false,
        name: MaterialNames::Void,
        watt_a: zero,
        watt_b: zero,
        nu_bar: zero,
        atomic_mass: zero,
    }
}

impl MaterialProperties {
    /// Says how each tabulated quantity of an isotope is read off its table at
    /// the energy of a neutron, given in eV and, for the Watt parameters, in
    /// MeV.
    pub fn read_properties(material_data: &MaterialData, energy: Real, mev_energy: Real) -> (readings:
        PropertyReadings)
        requires
            material_data.well_formed(),
            readable(
                material_data.energy_fission_cross_sections@,
                material_data.fission_cross_sections@,
                energy,
            ),
            readable(
                material_data.energy_scattering_cross_sections@,
                material_data.elastic_cross_sections@,
                energy,
            ),
            readable(
                material_data.energy_absorption_cross_sections@,
                material_data.absorption_cross_sections@,
                energy,
            ),
            readable(material_data.energy_nu_bar@, material_data.nu_bar@, energy),
            comparable(material_data.energy_watt_parameters@, mev_energy),
        ensures
            readings == readings_of(*material_data, energy, mev_energy),
    {
        let (fission, _) = linear_interpolation(
            &material_data.energy_fission_cross_sections,
            &material_data.fission_cross_sections,
            energy,
        );
        let (scattering, _) = linear_interpolation(
            &material_data.energy_scattering_cross_sections,
            &material_data.elastic_cross_sections,
            energy,
        );
        let (absorption, _) = linear_interpolation(
            &material_data.energy_absorption_cross_sections,
            &material_data.absorption_cross_sections,
            energy,
        );
        let (nu_bar, _) = linear_interpolation(
            &material_data.energy_nu_bar,
            &material_data.nu_bar,
            energy,
        );
        let (watt_a, watt_b) = get_watt_parameters(
            &material_data.energy_watt_parameters,
            &material_data.watt_parameters_a,
            &material_data.watt_parameters_b,
            mev_energy,
        );
        PropertyReadings { fission, scattering, absorption, nu_bar, watt_a, watt_b }
    }

    /// Takes over the properties of an isotope at one energy: the three
    /// macroscopic cross-sections, the mean number of neutrons per fission
    /// and the Watt parameters as they were read and scaled, and from the
    /// isotope's data what does not depend on the energy.
    pub fn get_properties(
        &mut self,
        material_data: &MaterialData,
        fission: Real,
        scattering: Real,
        absorption: Real,
        nu_bar: Real,
        watt_a: Real,
        watt_b: Real,
    )
        ensures
            *final(self) == entry_of(
                *material_data,
                PropertyValues { fission, scattering, absorption, nu_bar, watt_a, watt_b },
            ),
    {
        self.number_density = material_data.number_density;
        self.fission = fission;
        self.scattering = scattering;
        self.absorption = absorption;
        self.nu_bar = nu_bar;
        self.watt_a = watt_a;
        self.watt_b = watt_b;
        self.fissionable = material_data.fissionable;
        self.atomic_mass = material_data.atomic_mass;
        self.name = material_data.name;
    }
}

} // verus!
