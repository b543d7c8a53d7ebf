use vstd::prelude::*;
use crate::diagnostics::NeutronDiagnostics;
use crate::utils::reals::Real;

verus! {

/// The fewest generations with which an estimate is not called noisy.
pub const QUIET_GENERATION_COUNT: usize = 4;

/// The pairs of sizes of consecutive generations, from generation `from` on:
/// each pair holds the size of a generation and of the one after it.
pub open spec fn generation_pairs(counts: Seq<i64>, from: int) -> Seq<(i64, i64)> {
    Seq::new(
        if counts.len() - from - 1 > 0 {
            (counts.len() - from - 1) as nat
        } else {
            0
        },
        |j: int| (counts[from + j], counts[from + j + 1]),
    )
}

/// Whether the sizes of the generations allow an estimate from generation
/// `from` on: at least one pair of consecutive generations is there.
pub open spec fn estimate_possible(counts: Seq<i64>, from: int) -> bool {
    counts.len() - from >= 2
}

fn copy_of_counts(counts: &Vec<i64>) -> (copy: Vec<i64>)
    ensures
        copy@ == counts@,
{
    let mut copy: Vec<i64> = Vec::new();
    let mut index: usize = 0;
    while index < counts.len()
        invariant
            index <= counts.len(),
            copy@ == counts@.subrange(0, index as int),
        decreases counts.len() - index,
    {
        copy.push(counts[index]);
        proof {
            assert(copy@ =~= counts@.subrange(0, index + 1));
        }
        index += 1;
    }
    proof {
        assert(counts@.subrange(0, index as int) =~= counts@);
    }
    copy
}

impl NeutronDiagnostics {
    /// Whether an estimate of the multiplication factor can be made.
    pub open spec fn can_estimate(self) -> bool {
        estimate_possible(self.neutron_generation_counts@, self.track_from_generation as int)
    }

    /// Whether an estimate, if one can be made, rests on so few generations
    /// that the caller is to be warned.
    pub fn estimate_is_noisy(&self) -> (noisy: bool)
        ensures
            noisy == (self.neutron_generation_counts.len() < QUIET_GENERATION_COUNT),
    {
        self.neutron_generation_counts.len() < QUIET_GENERATION_COUNT
    }

    /// The pairs of sizes of consecutive generations that the multiplication
    /// factor is estimated from: the factor is the mean, over the pairs, of
    /// the second size divided by the first. Nothing where no pair is
    /// recorded from the first tracked generation on.
    pub fn generation_ratios(&self) -> (pairs: Option<Vec<(i64, i64)>>)
        requires
            self.track_from_generation >= 0,
        ensures
            pairs is Some <==> self.can_estimate(),
            pairs is Some ==> pairs.unwrap()@ == generation_pairs(
                self.neutron_generation_counts@,
                self.track_from_generation as int,
            ),
    {
        let maximum_generation = self.neutron_generation_counts.len();
        if (maximum_generation as u64) < (self.track_from_generation as u64) {
            return None;
        }
        let first: usize = self.track_from_generation as usize;
        if maximum_generation - first < 2 {
            return None;
        }
        let ghost expected = generation_pairs(self.neutron_generation_counts@, first as int);
        let mut k_estimate_vector: Vec<(i64, i64)> = Vec::new();
        let mut index: usize = first;
        while index + 1 < maximum_generation
            invariant
                maximum_generation == self.neutron_generation_counts.len(),
                first <= index < maximum_generation,
                maximum_generation - first >= 2,
                expected == generation_pairs(self.neutron_generation_counts@, first as int),
                k_estimate_vector@ == expected.subrange(0, index - first),
            decreases maximum_generation - index,
        {
            let previous_generation_count = self.neutron_generation_counts[index];
            let current_generation_count = self.neutron_generation_counts[index + 1];
            k_estimate_vector.push((previous_generation_count, current_generation_count));
            proof {
                assert(k_estimate_vector@ =~= expected.subrange(0, index + 1 - first));
            }
            index += 1;
        }
        proof {
            assert(expected.subrange(0, index - first) =~= expected);
        }
        Some(k_estimate_vector)
    }

    /// Records the estimate of the multiplication factor, the mean over the
    /// pairs that `generation_ratios` gives, and hands it out with the sizes
    /// of the generations. Where no estimate can be made nothing is recorded.
    pub fn estimate_k(&mut self, averaged_k: Real) -> (estimate: Option<(Real, Vec<i64>)>)
        requires
            old(self).track_from_generation >= 0,
        ensures
            estimate is Some <==> old(self).can_estimate(),
            estimate is Some ==> estimate.unwrap().0 == averaged_k && estimate.unwrap().1@ == old(self).neutron_generation_counts@,
            final(self).averaged_k == if old(self).can_estimate() {
                averaged_k
            } else {
                old(self).averaged_k
            },
            final(self).keeps_all_but_results(*old(self)),
            final(self).total_energy == old(self).total_energy,
            final(self).power_generated == old(self).power_generated,
    {
        let maximum_generation = self.neutron_generation_counts.len();
        if (maximum_generation as u64) < (self.track_from_generation as u64) {
            return None;
        }
        if maximum_generation - (self.track_from_generation as usize) < 2 {
            return None;
        }
        self.averaged_k = averaged_k;
        Some((averaged_k, copy_of_counts(&self.neutron_generation_counts)))
    }

    /// Everything but the estimate, the energy and the power is in `self` as
    /// it is in `other`.
    pub open spec fn keeps_all_but_results(self, other: NeutronDiagnostics) -> bool {
        &&& self.neutron_generation_counts@ == other.neutron_generation_counts@
        &&& self.neutron_position_bins@ == other.neutron_position_bins@
        &&& self.neutron_fission_locations@ == other.neutron_fission_locations@
        &&& self.max_generation_value == other.max_generation_value
        &&& self.halt_cause == other.halt_cause
        &&& self.total_neutrons_tracked == other.total_neutrons_tracked
        &&& self.total_fissions == other.total_fissions
        &&& self.same_options(other)
        &&& self.same_convergence(other)
    }

    /// Records the energy that the fissions set free, and the power where the
    /// run had a set duration.
    pub fn calculate_power_production(&mut self, total_energy: Real, power: Option<Real>)
        ensures
            final(self).total_energy == total_energy,
            final(self).power_generated == match power {
                Some(power) => power,
                None => old(self).power_generated,
            },
            final(self).averaged_k == old(self).averaged_k,
            final(self).keeps_all_but_results(*old(self)),
    {
        self.total_energy = total_energy;
        if let Some(power) = power {
            self.power_generated = power;
        }
    }

    /// Finishes the record of a run: the estimate of the multiplication
    /// factor where one was asked for, and energy and power where the run had
    /// a set duration.
    pub fn post_process(&mut self, averaged_k: Real, total_energy: Real, power: Option<Real>)
        requires
            old(self).estimate_k ==> old(self).track_from_generation >= 0,
        ensures
            final(self).averaged_k == if old(self).estimate_k && old(self).can_estimate() {
                averaged_k
            } else {
                old(self).averaged_k
            },
            final(self).total_energy == if power is Some {
                total_energy
            } else {
                old(self).total_energy
            },
            final(self).power_generated == match power {
                Some(power) => power,
                None => old(self).power_generated,
            },
            final(self).keeps_all_but_results(*old(self)),
    {
        if self.estimate_k {
            self.estimate_k(averaged_k);
        }
        if power.is_some() {
            self.calculate_power_production(total_energy, power);
        }
    }
}

/// With the tracking starting at the first generation, a history of `n`
/// generations gives `n - 1` pairs, each of two neighbours.
pub proof fn lemma_generation_pairs(counts: Seq<i64>, from: int, j: int)
    requires
        0 <= from,
        0 <= j,
        from + j + 1 < counts.len(),
    ensures
        generation_pairs(counts, from).len() == counts.len() - from - 1,
        generation_pairs(counts, from)[j] == (counts[from + j], counts[from + j + 1]),
{
}

} // verus!
