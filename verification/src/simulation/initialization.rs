use vstd::prelude::*;
use crate::geometry::components::range_of;
use crate::materials::material_properties::{entry_of, PropertyValues};
use crate::neutrons::neutron_scheduler::NeutronScheduler;
use crate::neutrons::Neutron;
use crate::simulation::Simulation;
use crate::utils::reals::Real;

verus! {

/// How many trials per neutron asked for may pass before the caller is warned
/// that hardly any trial gives a neutron.
pub const STARVATION_FACTOR: i64 = 1000;

impl Simulation {
    /// Whether the first generation still lacks neutrons.
    pub open spec fn lacks_initial_neutrons(self) -> bool {
        self.neutron_scheduler.current().len() + self.neutron_scheduler.next().len()
            < self.simulation_parameters.initial_neutron_count
    }

    /// Whether the first generation still lacks neutrons.
    pub fn needs_initial_neutrons(&self) -> (needed: bool)
        requires
            self.neutron_scheduler.well_formed(),
        ensures
            needed == self.lacks_initial_neutrons(),
    {
        self.neutron_scheduler.total_neutron_count()
            < self.simulation_parameters.initial_neutron_count
    }

    /// Whether so many trials were made for the first generation that the
    /// caller is to be warned: more than a thousand per neutron asked for.
    pub fn is_starving(&self, trial_attempts: i64) -> (starving: bool)
        ensures
            starving == (trial_attempts > self.simulation_parameters.initial_neutron_count
                * STARVATION_FACTOR),
    {
        (trial_attempts as i128) > (self.simulation_parameters.initial_neutron_count as i128) * (
        STARVATION_FACTOR as i128)
    }

    /// Takes a neutron into the first generation if it was born in a material
    /// that can undergo fission, and says whether it was taken.
    pub fn populate_initial_neutrons(&mut self, fissionable: bool, neutron: Neutron) -> (taken:
        bool)
        ensures
            taken == fissionable,
            fissionable ==> NeutronScheduler::adds(
                old(self).neutron_scheduler,
                final(self).neutron_scheduler,
                neutron,
            ),
            !fissionable ==> final(self).neutron_scheduler == old(self).neutron_scheduler,
            final(self).components == old(self).components,
            final(self).neutron_diagnostics == old(self).neutron_diagnostics,
            final(self).simulation_parameters == old(self).simulation_parameters,
            final(self).rng == old(self).rng,
    {
        if !fissionable {
            return false;
        }
        self.neutron_scheduler.add_neutron(neutron);
        true
    }

    /// Prepares the simulation to be run: fills the cache with the properties
    /// of every isotope at the energy of the first neutrons, works out the
    /// range of interest from the corners of the parts, and hands the
    /// scheduler its target population.
    pub fn prepare_simulation(
        &mut self,
        values: &Vec<PropertyValues>,
        corner_radii: &Vec<(Real, Real)>,
    )
        requires
            values.len() == old(self).components.material_data_vector.len(),
            corner_radii.len() == old(self).components.parts_vector.len(),
        ensures
            final(self).components.cache_initialized,
            final(self).components.cached_material_properties.len() == values.len(),
            forall|i: int|
                0 <= i < values.len() ==> #[trigger] final(self).components.cached_material_properties@[i] == entry_of(
                    old(self).components.material_data_vector@[i],
                    values@[i],
                ),
            final(self).components.simulation_range_squared == range_of(
                old(self).components.parts_vector@,
                corner_radii@,
                corner_radii.len() as int,
            ),
            final(self).components.parts_vector@ == old(self).components.parts_vector@,
            final(self).components.material_data_vector@ == old(self).components.material_data_vector@,
            final(self).neutron_scheduler.specified_neutron_count == old(self).simulation_parameters.specified_neutron_count,
            final(self).neutron_scheduler.variance_reduction == old(self).simulation_parameters.variance_reduction,
            final(self).neutron_scheduler.neutron_queue_a@ == old(self).neutron_scheduler.neutron_queue_a@,
            final(self).neutron_scheduler.neutron_queue_b@ == old(self).neutron_scheduler.neutron_queue_b@,
            final(self).neutron_scheduler.queue_selector == old(self).neutron_scheduler.queue_selector,
            final(self).neutron_scheduler.neutron_generation_history@ == old(self).neutron_scheduler.neutron_generation_history@,
            final(self).neutron_diagnostics == old(self).neutron_diagnostics,
            final(self).simulation_parameters == old(self).simulation_parameters,
            final(self).rng == old(self).rng,
    {
        self.components.update_cache_properties(values);
        self.components.get_maximum_radius_squared(corner_radii);
        self.neutron_scheduler.specified_neutron_count =
            self.simulation_parameters.specified_neutron_count;
        self.neutron_scheduler.variance_reduction = self.simulation_parameters.variance_reduction;
    }
}

/// Neutrons taken into the first generation wait in the queue that is not
/// being consumed, so that the first change of roles brings all of them, and
/// only them, into play.
pub proof fn lemma_initial_neutrons_wait(
    before: NeutronScheduler,
    after: NeutronScheduler,
    neutron: Neutron,
)
    requires
        NeutronScheduler::adds(before, after, neutron),
        before.current().len() == 0,
    ensures
        after.current().len() == 0,
        after.next().len() == before.next().len() + 1,
{
}

} // verus!
