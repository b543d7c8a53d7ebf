use vstd::prelude::*;

verus! {

/// Why a simulation came to its end.
#[derive(Clone, Copy, Debug, PartialEq, Eq, Structural)]
pub enum SimulationHaltCauses {
    NotHalted,
    HitNeutronCap,
    HitGenerationCap,
    NoNeutrons,
    HitFissionCap,
}

impl Default for SimulationHaltCauses {
    fn default() -> (cause: SimulationHaltCauses)
        ensures
            cause == SimulationHaltCauses::NotHalted,
    {
        SimulationHaltCauses::NotHalted
    }
}

/// The words in which a cause is reported.
pub open spec fn description_of(cause: SimulationHaltCauses) -> Seq<char> {
    match cause {
        SimulationHaltCauses::NotHalted => "Simulation did not halt."@,
        SimulationHaltCauses::HitNeutronCap => "Neutron cap."@,
        SimulationHaltCauses::HitGenerationCap => "Generation cap."@,
        SimulationHaltCauses::NoNeutrons => "No neutrons."@,
        SimulationHaltCauses::HitFissionCap => "Fission cap."@,
    }
}

impl SimulationHaltCauses {
    /// The words in which this cause is reported.
    pub fn description(&self) -> (text: String)
        ensures
            text@ == description_of(*self),
    {
        match self {
            SimulationHaltCauses::NotHalted => "Simulation did not halt.".to_owned(),
            SimulationHaltCauses::HitNeutronCap => "Neutron cap.".to_owned(),
            SimulationHaltCauses::HitGenerationCap => "Generation cap.".to_owned(),
            SimulationHaltCauses::NoNeutrons => "No neutrons.".to_owned(),
            SimulationHaltCauses::HitFissionCap => "Fission cap.".to_owned(),
        }
    }
}

} // verus!
