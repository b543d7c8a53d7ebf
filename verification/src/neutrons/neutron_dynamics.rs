use vstd::prelude::*;
use crate::neutrons::Neutron;
use crate::utils::reals::Real;
use crate::utils::vectors::Vec3D;

verus! {

/// The key of the length of one step, 1 mm, in metres.
pub const DISTANCE_STEP_KEY: i64 = 0x3F50_624D_D2F1_A9FC;

/// The key of the energy given to a neutron whose birth energy could not be
/// sampled: 1 MeV, in eV.
pub const FALLBACK_ENERGY_KEY: i64 = 0x412E_8480_0000_0000;

/// What happens to a neutron at the end of a step: it causes a fission, it is
/// scattered, it is absorbed, it has left the region of interest, or nothing
/// happens and it passes on.
#[derive(Clone, Copy, Debug, PartialEq, Eq, Structural)]
pub enum InteractionTypes {
    Fission,
    Scattering,
    Absorption,
    Escaped,
    NoInteraction,
}

/// Whether a neutron at squared distance `norm_squared` from the origin has
/// left a region of squared radius `range_squared`.
pub open spec fn has_escaped(norm_squared: Real, range_squared: Real) -> bool {
    range_squared.le(norm_squared)
}

/// Whether a draw `criterion` from `[0, 1)` lets an interaction of the given
/// probability happen: the probability is above zero, and the draw does not
/// exceed it. Where the probability is zero, as it is where the total
/// cross-section is zero, nothing ever happens.
pub open spec fn interaction_occurs(criterion: Real, probability: Real) -> bool {
    (Real { key: 0 }).lt(probability) && criterion.le(probability)
}

/// The kind of an interaction for a draw `criterion` from `[0, 1)`: fission
/// below `fission_bound`, the probability of fission; scattering from there to
/// below `scatter_bound`, the probability of fission or scattering; absorption
/// for everything else.
pub open spec fn interaction_kind(
    criterion: Real,
    fission_bound: Real,
    scatter_bound: Real,
) -> InteractionTypes {
    if (Real { key: 0 }).le(criterion) && criterion.lt(fission_bound) {
        InteractionTypes::Fission
    } else if fission_bound.le(criterion) && criterion.lt(scatter_bound) {
        InteractionTypes::Scattering
    } else {
        InteractionTypes::Absorption
    }
}

/// What happens at the end of a step, from the two draws and the quantities
/// they are held against.
pub open spec fn interaction_of(
    norm_squared: Real,
    range_squared: Real,
    interaction_criterion: Real,
    interaction_probability: Real,
    interaction_type_criterion: Real,
    fission_bound: Real,
    scatter_bound: Real,
) -> InteractionTypes {
    if has_escaped(norm_squared, range_squared) {
        InteractionTypes::Escaped
    } else if interaction_occurs(interaction_criterion, interaction_probability) {
        interaction_kind(interaction_type_criterion, fission_bound, scatter_bound)
    } else {
        InteractionTypes::NoInteraction
    }
}

/// The number of neutrons that a fission sets free: the whole part of the
/// mean, and one more when the draw does not exceed its fractional part.
pub open spec fn fission_count_of(floored_nu_bar: i32, fraction: Real, criterion: Real) -> int {
    if (Real { key: 0 }).lt(fraction) && criterion.le(fraction) {
        floored_nu_bar + 1
    } else {
        floored_nu_bar as int
    }
}

/// Whether a scatter that took the fraction `energy_loss` of the neutron's
/// energy is large enough for the cached cross-sections to be refreshed.
pub open spec fn loss_is_relevant(energy_loss: Real, maximum_difference: Real) -> bool {
    maximum_difference.lt(energy_loss)
}

/// Decides the kind of an interaction that is known to happen.
pub fn select_interaction(
    interaction_type_criterion: Real,
    fission_bound: Real,
    scatter_bound: Real,
) -> (kind: InteractionTypes)
    ensures
        kind == interaction_kind(interaction_type_criterion, fission_bound, scatter_bound),
        kind == InteractionTypes::Fission || kind == InteractionTypes::Scattering || kind
            == InteractionTypes::Absorption,
{
    if interaction_type_criterion.ge(Real::zero()) && interaction_type_criterion.lt(fission_bound) {
        InteractionTypes::Fission
    } else if interaction_type_criterion.ge(fission_bound) && interaction_type_criterion.lt(
        scatter_bound,
    ) {
        InteractionTypes::Scattering
    } else {
        InteractionTypes::Absorption
    }
}

impl Neutron {
    /// Makes this neutron a child of `parent_neutron`, born where and when the
    /// parent is, one generation later, with the given energy, speed, time
    /// per step and direction of flight. The step length is 1 mm.
    pub fn initialize(
        &mut self,
        parent_neutron: &Neutron,
        energy: Real,
        velocity: Real,
        time_step: Real,
        direction: Vec3D,
    )
        requires
            parent_neutron.generation_number < i64::MAX,
        ensures
            *final(self) == (Neutron {
                energy,
                velocity,
                time_step,
                creation_time: parent_neutron.current_time,
                current_time: parent_neutron.current_time,
                distance_step: Real { key: DISTANCE_STEP_KEY },
                position: parent_neutron.position,
                direction,
                generation_number: (parent_neutron.generation_number + 1) as i64,
                has_scattered: old(self).has_scattered,
            }),
    {
        self.distance_step = Real { key: DISTANCE_STEP_KEY };
        self.energy = energy;
        self.creation_time = parent_neutron.current_time;
        self.current_time = parent_neutron.current_time;
        self.position = parent_neutron.position;
        self.generation_number = parent_neutron.generation_number + 1;
        self.velocity = velocity;
        self.time_step = time_step;
        self.direction = direction;
    }

    /// The birth energy of a neutron: the sampled energy, or 1 MeV where the
    /// sampling failed.
    pub fn get_energy(&self, sampled_energy: Option<Real>) -> (energy: Real)
        ensures
            energy == match sampled_energy {
                Some(sample) => sample,
                None => Real { key: FALLBACK_ENERGY_KEY },
            },
    {
        match sampled_energy {
            Some(sample) => sample,
            None => Real { key: FALLBACK_ENERGY_KEY },
        }
    }

    /// Scatters the neutron into `new_direction`, leaving it with
    /// `remaining_energy`. A scatter that took more than
    /// `maximum_neutron_energy_difference` of the energy marks the neutron, so
    /// that the cached cross-sections are refreshed before they are read again.
    pub fn scatter(
        &mut self,
        new_direction: Vec3D,
        remaining_energy: Real,
        energy_loss: Real,
        maximum_neutron_energy_difference: Real,
    )
        ensures
            *final(self) == (Neutron {
                direction: new_direction,
                energy: remaining_energy,
                has_scattered: old(self).has_scattered || loss_is_relevant(
                    energy_loss,
                    maximum_neutron_energy_difference,
                ),
                ..*old(self)
            }),
    {
        self.direction = new_direction;
        if energy_loss.gt(maximum_neutron_energy_difference) {
            self.has_scattered = true;
        }
        self.energy = remaining_energy;
    }

    /// Moves the neutron one step on, to `new_position`.
    pub fn translate(&mut self, new_position: Vec3D)
        ensures
            *final(self) == (Neutron { position: new_position, ..*old(self) }),
    {
        self.position = new_position;
    }

    /// The number of neutrons that a fission sets free, for a mean with whole
    /// part `floored_nu_bar` and fractional part `fraction`, and a draw
    /// `criterion` from `[0, 1)`.
    pub fn get_neutron_fission_count(
        &self,
        floored_nu_bar: i32,
        fraction: Real,
        criterion: Real,
    ) -> (count: i32)
        requires
            floored_nu_bar < i32::MAX,
        ensures
            count == fission_count_of(floored_nu_bar, fraction, criterion),
    {
        if fraction.gt(Real::zero()) {
            if criterion.le(fraction) {
                floored_nu_bar + 1
            } else {
                floored_nu_bar
            }
        } else {
            floored_nu_bar
        }
    }

    /// Whether the neutron, at squared distance `norm_squared` from the
    /// origin, is still inside the region of interest; and if it is, whether
    /// the draw lets it interact on this step.
    pub fn meets_material(
        &self,
        norm_squared: Real,
        simulation_range_squared: Real,
        interaction_criterion: Real,
        interaction_probability: Real,
    ) -> (outcome: Option<bool>)
        ensures
            outcome == if has_escaped(norm_squared, simulation_range_squared) {
                None
            } else {
                Some(interaction_occurs(interaction_criterion, interaction_probability))
            },
    {
        if norm_squared.ge(simulation_range_squared) {
            None
        } else {
            Some(
                interaction_probability.gt(Real::zero()) && interaction_criterion.le(
                    interaction_probability,
                ),
            )
        }
    }

    /// What happens to the neutron at the end of a step.
    ///
    /// `norm_squared` is the squared distance of the neutron from the origin,
    /// `interaction_probability` the probability to interact on one step,
    /// `fission_bound` the probability that an interaction is a fission and
    /// `scatter_bound` the probability that it is a fission or a scatter. The
    /// two criteria are draws from `[0, 1)`.
    pub fn interact(
        &self,
        norm_squared: Real,
        simulation_range_squared: Real,
        interaction_criterion: Real,
        interaction_probability: Real,
        interaction_type_criterion: Real,
        fission_bound: Real,
        scatter_bound: Real,
    ) -> (outcome: InteractionTypes)
        ensures
            outcome == interaction_of(
                norm_squared,
                simulation_range_squared,
                interaction_criterion,
                interaction_probability,
                interaction_type_criterion,
                fission_bound,
                scatter_bound,
            ),
    {
        match self.meets_material(
            norm_squared,
            simulation_range_squared,
            interaction_criterion,
            interaction_probability,
        ) {
            None => InteractionTypes::Escaped,
            Some(true) => select_interaction(
                interaction_type_criterion,
                fission_bound,
                scatter_bound,
            ),
            Some(false) => InteractionTypes::NoInteraction,
        }
    }
}

/// A neutron outside the region of interest escapes, whatever the draws.
pub proof fn lemma_outside_escapes(
    norm_squared: Real,
    range_squared: Real,
    interaction_criterion: Real,
    interaction_probability: Real,
    interaction_type_criterion: Real,
    fission_bound: Real,
    scatter_bound: Real,
)
    requires
        range_squared.le(norm_squared),
    ensures
        interaction_of(
            norm_squared,
            range_squared,
            interaction_criterion,
            interaction_probability,
            interaction_type_criterion,
            fission_bound,
            scatter_bound,
        ) == InteractionTypes::Escaped,
{
}

/// Where nothing can interact, the probability to do so being zero, the
/// neutron passes whatever the draws.
pub proof fn lemma_void_passes(
    norm_squared: Real,
    range_squared: Real,
    interaction_criterion: Real,
    interaction_type_criterion: Real,
    fission_bound: Real,
    scatter_bound: Real,
)
    requires
        !range_squared.le(norm_squared),
    ensures
        interaction_of(
            norm_squared,
            range_squared,
            interaction_criterion,
            Real { key: 0 },
            interaction_type_criterion,
            fission_bound,
            scatter_bound,
        ) == InteractionTypes::NoInteraction,
{
}

} // verus!
