use vstd::prelude::*;
use crate::diagnostics::diagnostics_tracking::{
    keeps_balance, lemma_fission_adds, lemma_fission_keeps_tally, lemma_presence_keeps_tally,
    loses_fission, loses_nothing, prefix_sum, sum_fits,
};
use crate::diagnostics::geometry_diagnostics::lemma_index_in_array;
use crate::diagnostics::halt_causes::SimulationHaltCauses;
use crate::diagnostics::NeutronDiagnostics;
use crate::neutrons::neutron_dynamics::InteractionTypes;
use crate::neutrons::neutron_scheduler::NeutronScheduler;
use crate::neutrons::Neutron;
use crate::simulation::Simulation;

verus! {

/// What is to be done with a neutron after a step.
#[derive(Clone, Copy, Debug, PartialEq, Eq, Structural)]
pub enum TrackStep {
    /// The neutron takes its next step.
    Continue,
    /// The neutron is to be scattered, and then held against the halt time.
    Scatter,
    /// The track has ended and the neutron has left the scheduler.
    Finished,
}

/// That many copies of a neutron; none for a count that is not positive.
pub open spec fn copies(neutron: Neutron, count: int) -> Seq<Neutron> {
    Seq::new(
        if count > 0 {
            count as nat
        } else {
            0
        },
        |i: int| neutron,
    )
}

/// `after` is `before` once the neutron at its head has left and `count`
/// copies of a new neutron have joined the next generation.
pub open spec fn replaces_head(
    before: NeutronScheduler,
    after: NeutronScheduler,
    new_neutron: Neutron,
    count: int,
) -> bool {
    &&& after.current() == before.current().update(0, before.current().last()).drop_last()
    &&& after.next() == before.next() + copies(new_neutron, count)
    &&& after.queue_selector == before.queue_selector
    &&& after.neutron_generation_history@ == before.neutron_generation_history@
    &&& after.same_settings(before)
}

impl Simulation {
    /// The scheduler can report its population, and the bins cover the grid.
    pub open spec fn well_formed(self) -> bool {
        &&& self.neutron_scheduler.well_formed()
        &&& self.neutron_diagnostics.well_formed()
    }

    /// The bins count no more fissions than there are places on the list, and
    /// places are listed wherever bins are kept, so that this stays so.
    pub open spec fn balanced(self) -> bool {
        &&& self.neutron_diagnostics.tally_conserved()
        &&& self.neutron_diagnostics.track_fission_positions
            || !self.neutron_diagnostics.track_bins
    }

    /// Bins are kept and places listed, and so far every fission that was
    /// recorded fell in the grid: the bins count exactly as many fissions as
    /// there are places on the list.
    pub open spec fn complete(self) -> bool {
        &&& self.neutron_diagnostics.tally_complete()
        &&& self.neutron_diagnostics.track_fission_positions
        &&& self.neutron_diagnostics.track_bins
    }

    /// The number of neutrons in the scheduler.
    pub open spec fn population(self) -> int {
        (self.neutron_scheduler.current().len() + self.neutron_scheduler.next().len()) as int
    }

    /// Why the simulation halts after a track of a neutron of the given
    /// generation, if it does: with more neutrons than allowed and no
    /// variance reduction; else with a generation beyond the last allowed;
    /// else with more fissions listed than allowed, where a positive number
    /// is allowed.
    pub open spec fn halt_after_track(self, tracked_generation: i64) -> Option<
        SimulationHaltCauses,
    > {
        if self.population() > self.simulation_parameters.neutron_count_cap
            && !self.simulation_parameters.variance_reduction {
            Some(SimulationHaltCauses::HitNeutronCap)
        } else if tracked_generation > self.simulation_parameters.neutron_generation_cap {
            Some(SimulationHaltCauses::HitGenerationCap)
        } else if self.simulation_parameters.neutron_fission_count_cap > 0
            && self.neutron_diagnostics.neutron_fission_locations.len() as i64
            > self.simulation_parameters.neutron_fission_count_cap {
            Some(SimulationHaltCauses::HitFissionCap)
        } else {
            None
        }
    }

    /// What the diagnostics hold once a halt was recorded.
    pub open spec fn halt_recorded(
        before: Simulation,
        after: Simulation,
        generation: i64,
        cause: SimulationHaltCauses,
    ) -> bool {
        let history = before.neutron_scheduler.neutron_generation_history@;
        &&& after.neutron_diagnostics.halt_cause == cause
        &&& after.neutron_diagnostics.max_generation_value == generation
        &&& after.neutron_diagnostics.neutron_generation_counts@ == history
        &&& after.neutron_diagnostics.total_neutrons_tracked == prefix_sum(
            history,
            history.len() as int,
        )
        &&& after.neutron_diagnostics.neutron_position_bins@
            == before.neutron_diagnostics.neutron_position_bins@
        &&& after.neutron_diagnostics.neutron_fission_locations@
            == before.neutron_diagnostics.neutron_fission_locations@
        &&& after.neutron_diagnostics.same_options(before.neutron_diagnostics)
        &&& after.neutron_diagnostics.same_convergence(before.neutron_diagnostics)
        &&& after.neutron_diagnostics.averaged_k == before.neutron_diagnostics.averaged_k
        &&& after.neutron_diagnostics.total_fissions == before.neutron_diagnostics.total_fissions
        &&& after.neutron_diagnostics.power_generated
            == before.neutron_diagnostics.power_generated
        &&& after.neutron_diagnostics.total_energy == before.neutron_diagnostics.total_energy
        &&& after.neutron_scheduler.neutron_queue_a@ == before.neutron_scheduler.neutron_queue_a@
        &&& after.neutron_scheduler.neutron_queue_b@ == before.neutron_scheduler.neutron_queue_b@
        &&& after.neutron_scheduler.neutron_generation_history@ == history
        &&& after.neutron_scheduler.queue_selector == before.neutron_scheduler.queue_selector
        &&& after.neutron_scheduler.same_settings(before.neutron_scheduler)
        &&& after.components == before.components
        &&& after.simulation_parameters == before.simulation_parameters
    }

    fn record_halt(&mut self, generation: i64, cause: SimulationHaltCauses)
        requires
            sum_fits(old(self).neutron_scheduler.neutron_generation_history@),
        ensures
            Self::halt_recorded(*old(self), *final(self), generation, cause),
            final(self).rng == old(self).rng,
    {
        let mut history: Vec<i64> = Vec::new();
        let mut index: usize = 0;
        while index < self.neutron_scheduler.neutron_generation_history.len()
            invariant
                index <= self.neutron_scheduler.neutron_generation_history.len(),
                *self == *old(self),
                history@ == self.neutron_scheduler.neutron_generation_history@.subrange(
                    0,
                    index as int,
                ),
            decreases self.neutron_scheduler.neutron_generation_history.len() - index,
        {
            history.push(self.neutron_scheduler.neutron_generation_history[index]);
            proof {
                assert(history@ =~= self.neutron_scheduler.neutron_generation_history@.subrange(
                    0,
                    index + 1,
                ));
            }
            index += 1;
        }
        proof {
            assert(self.neutron_scheduler.neutron_generation_history@.subrange(0, index as int)
                =~= self.neutron_scheduler.neutron_generation_history@);
        }
        self.neutron_diagnostics.track_simulation_halt(generation, history, cause);
    }

    /// Starts the next track: hands out the neutron at the head of the
    /// generation being consumed, after the queues had the chance to change
    /// roles. With no neutron left the simulation halts for want of neutrons,
    /// which is recorded with the generation of the last track, and nothing
    /// is handed out.
    pub fn next_neutron(&mut self, tracked_generation: i64) -> (neutron: Option<Neutron>)
        requires
            old(self).well_formed(),
            sum_fits(old(self).neutron_scheduler.neutron_generation_history@),
            old(self).neutron_scheduler.cuts_to_nothing() ==> old(self).neutron_scheduler.current().len() > 0 || old(self).neutron_scheduler.next().len()
                == 0,
        ensures
            neutron is Some <==> old(self).population() > 0,
            neutron is None ==> Self::halt_recorded(
                *old(self),
                *final(self),
                tracked_generation,
                SimulationHaltCauses::NoNeutrons,
            ),
            neutron is Some ==> NeutronScheduler::flips(
                old(self).neutron_scheduler,
                final(self).neutron_scheduler,
            ) && final(self).neutron_scheduler.current().len() > 0 && neutron.unwrap() == final(self).neutron_scheduler.current()[0] && final(self).neutron_diagnostics == old(self).neutron_diagnostics && final(self).components == old(self).components && final(self).simulation_parameters == old(self).simulation_parameters,
            final(self).neutron_scheduler.well_formed(),
            final(self).neutron_scheduler.same_settings(old(self).neutron_scheduler),
            old(self).balanced() ==> final(self).balanced(),
            old(self).complete() ==> final(self).complete(),
            keeps_balance(old(self).neutron_diagnostics, final(self).neutron_diagnostics),
            loses_nothing(old(self).neutron_diagnostics, final(self).neutron_diagnostics),
    {
        if self.neutron_scheduler.is_empty() {
            self.record_halt(tracked_generation, SimulationHaltCauses::NoNeutrons);
            return None;
        }
        Some(self.neutron_scheduler.get_neutron(&mut self.rng))
    }

    /// Counts the step that a neutron has just ended in the bin it ended in.
    pub fn track_step(&mut self, neutron: &Neutron, bins: (usize, usize, usize))
        requires
            old(self).neutron_diagnostics.well_formed(),
            old(self).neutron_diagnostics.bin_parameters.contains(neutron.position) ==> old(self).neutron_diagnostics.bin_parameters.holds_bins(bins),
            old(self).neutron_diagnostics.bins_position(
                neutron.generation_number,
                neutron.position,
            ) ==> old(self).neutron_diagnostics.neutron_position_bins@[old(self).neutron_diagnostics.bin_index(bins)].neutron_count < i64::MAX,
        ensures
            final(self).neutron_diagnostics.neutron_position_bins@ == if old(self).neutron_diagnostics.bins_position(neutron.generation_number, neutron.position) {
                crate::diagnostics::diagnostics_tracking::with_neutron(
                    old(self).neutron_diagnostics.neutron_position_bins@,
                    old(self).neutron_diagnostics.bin_index(bins),
                )
            } else {
                old(self).neutron_diagnostics.neutron_position_bins@
            },
            final(self).neutron_diagnostics.neutron_fission_locations@ == old(self).neutron_diagnostics.neutron_fission_locations@,
            final(self).neutron_diagnostics.same_options(old(self).neutron_diagnostics),
            final(self).neutron_diagnostics.same_outcome(old(self).neutron_diagnostics),
            final(self).neutron_diagnostics.same_convergence(old(self).neutron_diagnostics),
            final(self).neutron_diagnostics.well_formed(),
            final(self).neutron_scheduler == old(self).neutron_scheduler,
            final(self).components == old(self).components,
            final(self).simulation_parameters == old(self).simulation_parameters,
            final(self).rng == old(self).rng,
            old(self).balanced() ==> final(self).balanced(),
            old(self).complete() ==> final(self).complete(),
            keeps_balance(old(self).neutron_diagnostics, final(self).neutron_diagnostics),
            loses_nothing(old(self).neutron_diagnostics, final(self).neutron_diagnostics),
    {
        self.neutron_diagnostics.track_neutron_bin_presence(
            neutron.generation_number,
            neutron.position,
            bins,
        );
        proof {
            if old(self).neutron_diagnostics.bins_position(
                neutron.generation_number,
                neutron.position,
            ) {
                lemma_index_in_array(
                    old(self).neutron_diagnostics.bin_parameters.length_count as int,
                    old(self).neutron_diagnostics.bin_parameters.depth_count as int,
                    old(self).neutron_diagnostics.bin_parameters.height_count as int,
                    bins.0 as int,
                    bins.1 as int,
                    bins.2 as int,
                );
                lemma_presence_keeps_tally(
                    old(self).neutron_diagnostics.neutron_position_bins@,
                    old(self).neutron_diagnostics.bin_index(bins),
                );
            }
        }
    }

    /// What an interaction makes of the simulation, and what is to be done
    /// with the neutron.
    ///
    /// Nothing changes where the neutron passes on or is to be scattered. A
    /// neutron that escaped or was absorbed leaves the scheduler. A fission is
    /// recorded where the neutron is; the neutron leaves the scheduler, and
    /// `fission_count` copies of `new_neutron` join the next generation.
    pub open spec fn interaction_applied(
        before: Simulation,
        after: Simulation,
        neutron: Neutron,
        interaction: InteractionTypes,
        fission_count: i32,
        new_neutron: Neutron,
        bins: (usize, usize, usize),
    ) -> bool {
        &&& after.components == before.components
        &&& after.simulation_parameters == before.simulation_parameters
        &&& match interaction {
            InteractionTypes::NoInteraction | InteractionTypes::Scattering => {
                &&& after.neutron_scheduler == before.neutron_scheduler
                &&& after.neutron_diagnostics == before.neutron_diagnostics
            },
            InteractionTypes::Escaped | InteractionTypes::Absorption => {
                &&& replaces_head(before.neutron_scheduler, after.neutron_scheduler, new_neutron, 0)
                &&& after.neutron_diagnostics == before.neutron_diagnostics
            },
            InteractionTypes::Fission => {
                &&& replaces_head(
                    before.neutron_scheduler,
                    after.neutron_scheduler,
                    new_neutron,
                    fission_count as int,
                )
                &&& NeutronDiagnostics::records_fission(
                    before.neutron_diagnostics,
                    after.neutron_diagnostics,
                    neutron.generation_number,
                    neutron.position,
                    bins,
                )
            },
        }
    }

    /// What is to be done with a neutron after an interaction.
    pub open spec fn step_after(interaction: InteractionTypes) -> TrackStep {
        match interaction {
            InteractionTypes::NoInteraction => TrackStep::Continue,
            InteractionTypes::Scattering => TrackStep::Scatter,
            _ => TrackStep::Finished,
        }
    }

    /// Responds to what happened to the neutron at the head of the scheduler
    /// at the end of a step. `neutron` is that neutron as it is now, `bins`
    /// the bin numbers of its position, `fission_count` the number of
    /// neutrons that a fission sets free and `new_neutron` each of them; the
    /// last two are read for a fission only.
    pub fn apply_interaction(
        &mut self,
        neutron: &Neutron,
        interaction: InteractionTypes,
        fission_count: i32,
        new_neutron: Neutron,
        bins: (usize, usize, usize),
    ) -> (step: TrackStep)
        requires
            old(self).well_formed(),
            old(self).neutron_scheduler.current().len() > 0,
            interaction == InteractionTypes::Fission ==> {
                &&& old(self).population() + fission_count <= i64::MAX
                &&& old(self).neutron_diagnostics.bin_parameters.contains(neutron.position) ==> old(self).neutron_diagnostics.bin_parameters.holds_bins(bins)
                &&& old(self).neutron_diagnostics.bins_position(
                    neutron.generation_number,
                    neutron.position,
                ) ==> old(self).neutron_diagnostics.neutron_position_bins@[old(self).neutron_diagnostics.bin_index(bins)].fission_count < i64::MAX
            },
        ensures
            step == Self::step_after(interaction),
            Self::interaction_applied(
                *old(self),
                *final(self),
                *neutron,
                interaction,
                fission_count,
                new_neutron,
                bins,
            ),
            final(self).well_formed(),
            final(self).rng == old(self).rng,
            old(self).balanced() ==> final(self).balanced(),
            old(self).complete() && (interaction == InteractionTypes::Fission ==> old(self).neutron_diagnostics.bin_parameters.contains(neutron.position)) ==> final(self).complete(),
            keeps_balance(old(self).neutron_diagnostics, final(self).neutron_diagnostics),
            interaction != InteractionTypes::Fission || old(self).neutron_diagnostics.bin_parameters.contains(neutron.position) ==> loses_nothing(
                old(self).neutron_diagnostics,
                final(self).neutron_diagnostics,
            ),
            interaction == InteractionTypes::Fission && old(self).neutron_diagnostics.lists_fission(
                neutron.generation_number,
            ) && !old(self).neutron_diagnostics.bin_parameters.contains(neutron.position)
                ==> loses_fission(old(self).neutron_diagnostics, final(self).neutron_diagnostics),
    {
        match interaction {
            InteractionTypes::NoInteraction => TrackStep::Continue,
            InteractionTypes::Scattering => TrackStep::Scatter,
            InteractionTypes::Escaped | InteractionTypes::Absorption => {
                self.neutron_scheduler.remove_neutron(0);
                proof {
                    assert(final(self).neutron_scheduler.next() =~= old(self).neutron_scheduler.next()
                        + copies(new_neutron, 0));
                }
                TrackStep::Finished
            },
            InteractionTypes::Fission => {
                self.neutron_diagnostics.track_fission(
                    neutron.generation_number,
                    neutron.position,
                    bins,
                );
                proof {
                    lemma_fission_adds(
                        old(self).neutron_diagnostics,
                        self.neutron_diagnostics,
                        neutron.generation_number,
                        neutron.position,
                        bins,
                    );
                    if old(self).neutron_diagnostics.track_fission_positions || !old(self).neutron_diagnostics.track_bins {
                        if old(self).neutron_diagnostics.tally_conserved() {
                            lemma_fission_keeps_tally(
                                old(self).neutron_diagnostics,
                                self.neutron_diagnostics,
                                neutron.generation_number,
                                neutron.position,
                                bins,
                            );
                        }
                    }
                }
                self.neutron_scheduler.remove_neutron(0);
                let ghost waiting = self.neutron_scheduler.next();
                proof {
                    assert(waiting =~= waiting + copies(new_neutron, 0));
                }
                let mut added: i32 = 0;
                while added < fission_count
                    invariant
                        0 <= added,
                        fission_count >= 0 ==> added <= fission_count,
                        fission_count < 0 ==> added == 0,
                        old(self).neutron_scheduler.current().len() > 0,
                        self.neutron_scheduler.current().len()
                            + waiting.len() + fission_count <= i64::MAX,
                        self.neutron_scheduler.next() == waiting + copies(
                            new_neutron,
                            added as int,
                        ),
                        self.neutron_scheduler.current() == old(self).neutron_scheduler.current().update(
                            0,
                            old(self).neutron_scheduler.current().last(),
                        ).drop_last(),
                        self.neutron_scheduler.queue_selector == old(self).neutron_scheduler.queue_selector,
                        self.neutron_scheduler.neutron_generation_history@ == old(self).neutron_scheduler.neutron_generation_history@,
                        self.neutron_scheduler.same_settings(old(self).neutron_scheduler),
                        self.components == old(self).components,
                        self.simulation_parameters == old(self).simulation_parameters,
                        self.rng == old(self).rng,
                        self.neutron_diagnostics.well_formed(),
                        NeutronDiagnostics::records_fission(
                            old(self).neutron_diagnostics,
                            self.neutron_diagnostics,
                            neutron.generation_number,
                            neutron.position,
                            bins,
                        ),
                        old(self).balanced() ==> self.balanced(),
                        keeps_balance(old(self).neutron_diagnostics, self.neutron_diagnostics),
                        old(self).neutron_diagnostics.bin_parameters.contains(neutron.position)
                            ==> loses_nothing(
                            old(self).neutron_diagnostics,
                            self.neutron_diagnostics,
                        ),
                        old(self).neutron_diagnostics.lists_fission(neutron.generation_number)
                            && !old(self).neutron_diagnostics.bin_parameters.contains(
                            neutron.position,
                        ) ==> loses_fission(
                            old(self).neutron_diagnostics,
                            self.neutron_diagnostics,
                        ),
                        old(self).complete() && old(self).neutron_diagnostics.bin_parameters.contains(neutron.position)
                            ==> self.complete(),
                    decreases fission_count - added,
                {
                    self.neutron_scheduler.add_neutron(new_neutron);
                    proof {
                        assert(copies(new_neutron, added as int).push(new_neutron) =~= copies(
                            new_neutron,
                            added + 1,
                        ));
                        assert(self.neutron_scheduler.next() =~= waiting + copies(
                            new_neutron,
                            added + 1,
                        ));
                    }
                    added += 1;
                }
                proof {
                    assert(copies(new_neutron, added as int) =~= copies(
                        new_neutron,
                        fission_count as int,
                    ));
                }
                TrackStep::Finished
            },
        }
    }

    /// Whether a neutron has outlived the time at which tracks are cut off.
    pub open spec fn is_overdue(self, neutron: Neutron) -> bool {
        match self.simulation_parameters.halt_time {
            Some(halt_time) => halt_time.lt(neutron.current_time),
            None => false,
        }
    }

    /// Holds the neutron at the head of the scheduler against the halt time,
    /// after it was scattered: a neutron whose time is beyond the halt time
    /// leaves the scheduler, and its track has ended.
    pub fn apply_halt_time(&mut self, neutron: &Neutron) -> (step: TrackStep)
        requires
            old(self).well_formed(),
            old(self).neutron_scheduler.current().len() > 0,
        ensures
            step == if old(self).is_overdue(*neutron) {
                TrackStep::Finished
            } else {
                TrackStep::Continue
            },
            old(self).is_overdue(*neutron) ==> NeutronScheduler::removes(
                old(self).neutron_scheduler,
                final(self).neutron_scheduler,
                0,
            ),
            !old(self).is_overdue(*neutron) ==> final(self).neutron_scheduler == old(self).neutron_scheduler,
            final(self).neutron_diagnostics == old(self).neutron_diagnostics,
            final(self).components == old(self).components,
            final(self).simulation_parameters == old(self).simulation_parameters,
            final(self).rng == old(self).rng,
            final(self).well_formed(),
            old(self).balanced() ==> final(self).balanced(),
            old(self).complete() ==> final(self).complete(),
            keeps_balance(old(self).neutron_diagnostics, final(self).neutron_diagnostics),
            loses_nothing(old(self).neutron_diagnostics, final(self).neutron_diagnostics),
    {
        if let Some(halt_time) = self.simulation_parameters.halt_time {
            if neutron.current_time.gt(halt_time) {
                self.neutron_scheduler.remove_neutron(0);
                return TrackStep::Finished;
            }
        }
        TrackStep::Continue
    }

    /// Checks, after a track of a neutron of the given generation, whether
    /// the simulation halts. A halt is recorded and its cause handed out.
    pub fn check_halt(&mut self, tracked_generation: i64) -> (cause: Option<SimulationHaltCauses>)
        requires
            old(self).well_formed(),
            sum_fits(old(self).neutron_scheduler.neutron_generation_history@),
        ensures
            cause == old(self).halt_after_track(tracked_generation),
            cause is Some ==> Self::halt_recorded(
                *old(self),
                *final(self),
                tracked_generation,
                cause.unwrap(),
            ),
            cause is None ==> final(self).neutron_scheduler == old(self).neutron_scheduler && final(self).neutron_diagnostics == old(self).neutron_diagnostics && final(self).components == old(self).components && final(self).simulation_parameters == old(self).simulation_parameters,
            final(self).rng == old(self).rng,
            old(self).balanced() ==> final(self).balanced(),
            old(self).complete() ==> final(self).complete(),
            keeps_balance(old(self).neutron_diagnostics, final(self).neutron_diagnostics),
            loses_nothing(old(self).neutron_diagnostics, final(self).neutron_diagnostics),
    {
        let total_neutron_count = self.neutron_scheduler.total_neutron_count();

        if total_neutron_count > self.simulation_parameters.neutron_count_cap
            && !self.simulation_parameters.variance_reduction {
            self.record_halt(tracked_generation, SimulationHaltCauses::HitNeutronCap);
            return Some(SimulationHaltCauses::HitNeutronCap);
        }
        if tracked_generation > self.simulation_parameters.neutron_generation_cap {
            self.record_halt(tracked_generation, SimulationHaltCauses::HitGenerationCap);
            return Some(SimulationHaltCauses::HitGenerationCap);
        }
        if self.simulation_parameters.neutron_fission_count_cap > 0
            && self.neutron_diagnostics.get_total_fissions()
            > self.simulation_parameters.neutron_fission_count_cap {
            self.record_halt(tracked_generation, SimulationHaltCauses::HitFissionCap);
            return Some(SimulationHaltCauses::HitFissionCap);
        }
        None
    }

    /// What a run gives back for the cause of its halt: whether it was halted
    /// by one of its limits, rather than by running out of neutrons.
    pub fn run_result(cause: SimulationHaltCauses) -> (halted_by_limit: bool)
        ensures
            halted_by_limit == (cause != SimulationHaltCauses::NoNeutrons),
    {
        match cause {
            SimulationHaltCauses::NoNeutrons => false,
            _ => true,
        }
    }
}

/// A record that is complete is balanced. A new record is complete where
/// bins are kept and places listed, so that a run that starts from it is
/// balanced after every one of its steps.
pub proof fn lemma_complete_is_balanced(simulation: Simulation)
    requires
        simulation.complete(),
    ensures
        simulation.balanced(),
{
}

/// A track that ends keeps one generation in each queue: the neutron that
/// leaves is of the generation being consumed, and the neutrons that a
/// fission sets free, one generation further on, wait in the other queue.
pub proof fn lemma_track_keeps_generations(
    before: NeutronScheduler,
    after: NeutronScheduler,
    new_neutron: Neutron,
    count: int,
    generation: int,
)
    requires
        replaces_head(before, after, new_neutron, count),
        before.current().len() > 0,
        before.holds_generation(generation),
        new_neutron.generation_number == generation + 1,
    ensures
        after.holds_generation(generation),
        after.current().len() == before.current().len() - 1,
        after.next().len() == before.next().len() + if count > 0 {
            count
        } else {
            0
        },
{
    assert forall|i: int| 0 <= i < after.current().len() implies (
    #[trigger] after.current()[i]).generation_number == generation by {
        if i == 0 {
            assert(after.current()[i] == before.current().last());
        } else {
            assert(after.current()[i] == before.current()[i]);
        }
    }
    assert forall|i: int| 0 <= i < after.next().len() implies (
    #[trigger] after.next()[i]).generation_number == generation + 1 by {
        if i < before.next().len() {
            assert(after.next()[i] == before.next()[i]);
        } else {
            assert(after.next()[i] == copies(new_neutron, count)[i - before.next().len()]);
        }
    }
}

} // verus!
