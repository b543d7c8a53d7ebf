use vstd::prelude::*;
use vstd::std_specs::hash::*;
use std::collections::HashMap;
use crate::diagnostics::diagnostics_tracking::checked_sum;
use crate::diagnostics::BinData;
use crate::simulation::aggregate_runs::AggregateRunResult;
use crate::simulation::Simulation;
use crate::utils::reals::Real;
use crate::utils::vectors::Vec3D;

verus! {

broadcast use group_hash_axioms;

/// The bins of every run.
pub open spec fn bins_of(results: Seq<Simulation>) -> Seq<Seq<BinData>> {
    Seq::new(results.len(), |i: int| results[i].neutron_diagnostics.neutron_position_bins@)
}

/// The places of the fissions of every run.
pub open spec fn fissions_of(results: Seq<Simulation>) -> Seq<Seq<Vec3D>> {
    Seq::new(results.len(), |i: int| results[i].neutron_diagnostics.neutron_fission_locations@)
}

/// The number of neutrons that every run followed.
pub open spec fn tracked_of(results: Seq<Simulation>) -> Seq<i64> {
    Seq::new(results.len(), |i: int| results[i].neutron_diagnostics.total_neutrons_tracked)
}

/// Whether the counts of a bin can be added to those of another within 64
/// bits.
pub open spec fn bin_sum_fits(first: BinData, second: BinData) -> bool {
    &&& i64::MIN <= first.neutron_count + second.neutron_count <= i64::MAX
    &&& i64::MIN <= first.fission_count + second.fission_count <= i64::MAX
}

/// The counts of two bins added.
pub open spec fn bin_sum(first: BinData, second: BinData) -> BinData {
    BinData {
        neutron_count: (first.neutron_count + second.neutron_count) as i64,
        fission_count: (first.fission_count + second.fission_count) as i64,
    }
}

/// Whether the bins of a run can be added to the sum so far, bin by bin as far
/// as both reach.
pub open spec fn run_fits(sum: Seq<BinData>, bins: Seq<BinData>) -> bool {
    forall|i: int| 0 <= i < sum.len() && i < bins.len() ==> bin_sum_fits(#[trigger] sum[i], bins[i])
}

/// The sum so far with the bins of a run added, bin by bin as far as both
/// reach.
pub open spec fn with_run(sum: Seq<BinData>, bins: Seq<BinData>) -> Seq<BinData> {
    Seq::new(
        sum.len(),
        |i: int|
            if i < bins.len() {
                bin_sum(sum[i], bins[i])
            } else {
                sum[i]
            },
    )
}

/// The bins of the first `count` runs summed: the first run that has bins at
/// all gives the sum its length, and every run after it is added bin by bin.
/// Nothing where a count leaves 64 bits.
pub open spec fn combined_bins(runs: Seq<Seq<BinData>>, count: int) -> Option<Seq<BinData>>
    decreases count,
{
    if count <= 0 {
        Some(Seq::empty())
    } else {
        match combined_bins(runs, count - 1) {
            None => None,
            Some(sum) => if sum.len() == 0 {
                Some(runs[count - 1])
            } else if run_fits(sum, runs[count - 1]) {
                Some(with_run(sum, runs[count - 1]))
            } else {
                None
            },
        }
    }
}

/// The lists of the first `count` runs, one after another.
pub open spec fn joined_fissions(lists: Seq<Seq<Vec3D>>, count: int) -> Seq<Vec3D>
    decreases count,
{
    if count <= 0 {
        Seq::empty()
    } else {
        joined_fissions(lists, count - 1) + lists[count - 1]
    }
}

fn copy_of_run(bins: &Vec<BinData>) -> (copy: Vec<BinData>)
    ensures
        copy@ == bins@,
{
    let mut copy: Vec<BinData> = Vec::new();
    let mut index: usize = 0;
    while index < bins.len()
        invariant
            index <= bins.len(),
            copy@ == bins@.subrange(0, index as int),
        decreases bins.len() - index,
    {
        copy.push(bins[index]);
        proof {
            assert(copy@ =~= bins@.subrange(0, index + 1));
        }
        index += 1;
    }
    proof {
        assert(bins@.subrange(0, index as int) =~= bins@);
    }
    copy
}

/// Adds the bins of a run to the sum so far; says whether every count stayed
/// within 64 bits, and stops at the first that did not.
fn add_run(aggregated_results: &mut Vec<BinData>, bin_results: &Vec<BinData>) -> (fits: bool)
    ensures
        fits == run_fits(old(aggregated_results)@, bin_results@),
        fits ==> final(aggregated_results)@ == with_run(old(aggregated_results)@, bin_results@),
{
    let mut index: usize = 0;
    while index < aggregated_results.len() && index < bin_results.len()
        invariant
            aggregated_results.len() == old(aggregated_results).len(),
            index <= aggregated_results.len(),
            index <= bin_results.len(),
            forall|i: int|
                0 <= i < index ==> bin_sum_fits(
                    #[trigger] old(aggregated_results)@[i],
                    bin_results@[i],
                ) && aggregated_results@[i] == bin_sum(old(aggregated_results)@[i], bin_results@[i]),
            forall|i: int|
                index <= i < aggregated_results.len() ==> #[trigger] aggregated_results@[i] == old(aggregated_results)@[i],
        decreases aggregated_results.len() - index,
    {
        let mut aggregated_bin = aggregated_results[index];
        let bin_result = bin_results[index];
        let neutron_sum = aggregated_bin.neutron_count.checked_add(bin_result.neutron_count);
        let fission_sum = aggregated_bin.fission_count.checked_add(bin_result.fission_count);
        if neutron_sum.is_none() || fission_sum.is_none() {
            proof {
                assert(!bin_sum_fits(old(aggregated_results)@[index as int], bin_results@[index as int]));
            }
            return false;
        }
        aggregated_bin.add(&bin_result);
        aggregated_results.set(index, aggregated_bin);
        index += 1;
    }
    proof {
        assert(aggregated_results@ =~= with_run(old(aggregated_results)@, bin_results@));
    }
    true
}

/// Sums the bins of all runs. Nothing where a count leaves 64 bits.
pub fn combine_bin_data(simulation_results: &Vec<Simulation>) -> (combined: Option<Vec<BinData>>)
    ensures
        combined is Some <==> combined_bins(
            bins_of(simulation_results@),
            simulation_results.len() as int,
        ) is Some,
        combined is Some ==> combined.unwrap()@ == combined_bins(
            bins_of(simulation_results@),
            simulation_results.len() as int,
        ).unwrap(),
{
    let mut aggregated_results: Vec<BinData> = Vec::new();
    let ghost runs = bins_of(simulation_results@);
    let mut index: usize = 0;
    while index < simulation_results.len()
        invariant
            index <= simulation_results.len(),
            runs == bins_of(simulation_results@),
            combined_bins(runs, index as int) == Some(aggregated_results@),
        decreases simulation_results.len() - index,
    {
        let bin_results = &simulation_results[index].neutron_diagnostics.neutron_position_bins;
        proof {
            assert(runs[index as int] == bin_results@);
        }
        if aggregated_results.len() == 0 {
            aggregated_results = copy_of_run(bin_results);
        } else {
            if !add_run(&mut aggregated_results, bin_results) {
                proof {
                    lemma_overflow_stays(runs, index + 1, simulation_results.len() as int);
                }
                return None;
            }
        }
        index += 1;
    }
    Some(aggregated_results)
}

/// Joins the lists of the places of fissions of all runs, in the order of the
/// runs.
pub fn combine_fission_vector_data(simulation_results: &Vec<Simulation>) -> (combined: Vec<Vec3D>)
    ensures
        combined@ == joined_fissions(
            fissions_of(simulation_results@),
            simulation_results.len() as int,
        ),
{
    let mut aggregated_fission_vector: Vec<Vec3D> = Vec::new();
    let ghost lists = fissions_of(simulation_results@);
    let mut index: usize = 0;
    while index < simulation_results.len()
        invariant
            index <= simulation_results.len(),
            lists == fissions_of(simulation_results@),
            aggregated_fission_vector@ == joined_fissions(lists, index as int),
        decreases simulation_results.len() - index,
    {
        let fission_vector = &simulation_results[index].neutron_diagnostics.neutron_fission_locations;
        let ghost joined = aggregated_fission_vector@;
        proof {
            assert(lists[index as int] == fission_vector@);
        }
        let mut place: usize = 0;
        while place < fission_vector.len()
            invariant
                place <= fission_vector.len(),
                aggregated_fission_vector@ == joined + fission_vector@.subrange(0, place as int),
            decreases fission_vector.len() - place,
        {
            aggregated_fission_vector.push(fission_vector[place]);
            proof {
                assert(aggregated_fission_vector@ =~= joined + fission_vector@.subrange(
                    0,
                    place + 1,
                ));
            }
            place += 1;
        }
        proof {
            assert(fission_vector@.subrange(0, place as int) =~= fission_vector@);
        }
        index += 1;
    }
    aggregated_fission_vector
}

/// Brings the results of the runs together: the summed bins, the joined
/// lists of fissions, the neutrons followed in all, and the grid of the first
/// run, with the averages and the convergence as the caller worked them out.
/// Nothing where a sum leaves 64 bits.
pub fn post_process_aggregate_runs(
    simulation_results: &Vec<Simulation>,
    averaged_k: Real,
    averaged_power: Real,
    convergence_per_generation: Vec<(i64, Real)>,
) -> (aggregate: Option<AggregateRunResult>)
    requires
        simulation_results.len() > 0,
    ensures
        aggregate is Some <==> combined_bins(
            bins_of(simulation_results@),
            simulation_results.len() as int,
        ) is Some && crate::diagnostics::diagnostics_tracking::sum_fits(
            tracked_of(simulation_results@),
        ),
        aggregate is Some ==> {
            let result = aggregate.unwrap();
            &&& result.simulation_count == simulation_results.len()
            &&& result.combined_bins@ == combined_bins(
                bins_of(simulation_results@),
                simulation_results.len() as int,
            ).unwrap()
            &&& result.combined_fission_vector@ == joined_fissions(
                fissions_of(simulation_results@),
                simulation_results.len() as int,
            )
            &&& result.total_neutrons_tracked
                == crate::diagnostics::diagnostics_tracking::prefix_sum(
                tracked_of(simulation_results@),
                simulation_results.len() as int,
            )
            &&& result.averaged_k == averaged_k
            &&& result.averaged_power == averaged_power
            &&& result.bin_parameters == simulation_results@[0].neutron_diagnostics.bin_parameters
            &&& result.convergence_per_generation@ == convergence_per_generation@
        },
{
    let simulation_count = simulation_results.len();

    let mut run_totals: Vec<i64> = Vec::new();
    let mut index: usize = 0;
    while index < simulation_results.len()
        invariant
            index <= simulation_results.len(),
            run_totals@ == tracked_of(simulation_results@).subrange(0, index as int),
        decreases simulation_results.len() - index,
    {
        run_totals.push(simulation_results[index].neutron_diagnostics.total_neutrons_tracked);
        proof {
            assert(run_totals@ =~= tracked_of(simulation_results@).subrange(0, index + 1));
        }
        index += 1;
    }
    proof {
        assert(tracked_of(simulation_results@).subrange(0, index as int) =~= tracked_of(
            simulation_results@,
        ));
    }
    let total_neutrons_tracked = match checked_sum(&run_totals) {
        Some(total) => total,
        None => {
            return None;
        },
    };
    let combined_bins = match combine_bin_data(simulation_results) {
        Some(bins) => bins,
        None => {
            return None;
        },
    };
    let combined_fission_vector = combine_fission_vector_data(simulation_results);
    let bin_parameters = simulation_results[0].neutron_diagnostics.bin_parameters;

    Some(
        AggregateRunResult {
            simulation_count,
            combined_bins,
            combined_fission_vector,
            averaged_k,
            averaged_power,
            total_neutrons_tracked,
            bin_parameters,
            convergence_per_generation,
        },
    )
}

/// The measures of the convergence that were taken at one generation, in the
/// order of the runs, and in each run in the order in which they were taken.
pub struct GenerationSamples {
    pub generation: i64,
    pub samples: Vec<Real>,
}

/// The measures of the convergence of every run, each with its generation.
pub open spec fn convergence_of(results: Seq<Simulation>) -> Seq<Seq<(i64, Real)>> {
    Seq::new(results.len(), |i: int| results[i].neutron_diagnostics.convergence_tracking@)
}

/// The measures of the first `count` runs, one run after another.
pub open spec fn joined_samples(lists: Seq<Seq<(i64, Real)>>, count: int) -> Seq<(i64, Real)>
    decreases count,
{
    if count <= 0 {
        Seq::empty()
    } else {
        joined_samples(lists, count - 1) + lists[count - 1]
    }
}

/// Those of the first `count` measures that were taken at a generation.
pub open spec fn samples_at(samples: Seq<(i64, Real)>, generation: i64, count: int) -> Seq<Real>
    decreases count,
{
    if count <= 0 {
        Seq::empty()
    } else if samples[count - 1].0 == generation {
        samples_at(samples, generation, count - 1).push(samples[count - 1].1)
    } else {
        samples_at(samples, generation, count - 1)
    }
}

/// Whether a generation has a group.
pub open spec fn has_group(groups: Seq<GenerationSamples>, generation: i64) -> bool {
    exists|k: int| 0 <= k < groups.len() && (#[trigger] groups[k]).generation == generation
}

/// Whether the groups hold the first `count` measures by generation: the
/// groups stand in the order of their generations, no generation twice; every
/// group holds the measures of its generation, of which there is one at
/// least; and every generation at which a measure was taken has its group.
pub open spec fn grouped(
    samples: Seq<(i64, Real)>,
    count: int,
    groups: Seq<GenerationSamples>,
) -> bool {
    &&& forall|i: int, j: int|
        0 <= i < j < groups.len() ==> (#[trigger] groups[i]).generation < (
        #[trigger] groups[j]).generation
    &&& forall|k: int|
        0 <= k < groups.len() ==> (#[trigger] groups[k]).samples@ == samples_at(
            samples,
            groups[k].generation,
            count,
        ) && groups[k].samples@.len() > 0
    &&& forall|i: int| 0 <= i < count ==> has_group(groups, (#[trigger] samples[i]).0)
}

/// No measure was taken at a generation that none of the first measures
/// names.
pub proof fn lemma_no_samples(samples: Seq<(i64, Real)>, generation: i64, count: int)
    requires
        forall|i: int| 0 <= i < count ==> (#[trigger] samples[i]).0 != generation,
    ensures
        samples_at(samples, generation, count).len() == 0,
    decreases count,
{
    if count > 0 {
        lemma_no_samples(samples, generation, count - 1);
    }
}

/// Joins the measures of the convergence of all runs, in the order of the
/// runs.
pub fn combine_convergence_samples(simulation_results: &Vec<Simulation>) -> (combined: Vec<
    (i64, Real),
>)
    ensures
        combined@ == joined_samples(
            convergence_of(simulation_results@),
            simulation_results.len() as int,
        ),
{
    let mut combined: Vec<(i64, Real)> = Vec::new();
    let ghost lists = convergence_of(simulation_results@);
    let mut index: usize = 0;
    while index < simulation_results.len()
        invariant
            index <= simulation_results.len(),
            lists == convergence_of(simulation_results@),
            combined@ == joined_samples(lists, index as int),
        decreases simulation_results.len() - index,
    {
        let samples = &simulation_results[index].neutron_diagnostics.convergence_tracking;
        let ghost joined = combined@;
        proof {
            assert(lists[index as int] == samples@);
        }
        let mut place: usize = 0;
        while place < samples.len()
            invariant
                place <= samples.len(),
                combined@ == joined + samples@.subrange(0, place as int),
            decreases samples.len() - place,
        {
            combined.push(samples[place]);
            proof {
                assert(combined@ =~= joined + samples@.subrange(0, place + 1));
            }
            place += 1;
        }
        proof {
            assert(samples@.subrange(0, place as int) =~= samples@);
        }
        index += 1;
    }
    combined
}

/// Whether the groups hold the first `count` measures by generation, in any
/// order: no generation has two groups; every group holds the measures of its
/// generation, of which there is one at least; and every generation at which
/// a measure was taken has its group.
pub open spec fn bucketed(
    samples: Seq<(i64, Real)>,
    count: int,
    groups: Seq<GenerationSamples>,
) -> bool {
    &&& forall|i: int, j: int|
        0 <= i < groups.len() && 0 <= j < groups.len() && i != j ==> (
        #[trigger] groups[i]).generation != (#[trigger] groups[j]).generation
    &&& forall|k: int|
        0 <= k < groups.len() ==> (#[trigger] groups[k]).samples@ == samples_at(
            samples,
            groups[k].generation,
            count,
        ) && groups[k].samples@.len() > 0
    &&& forall|i: int| 0 <= i < count ==> has_group(groups, (#[trigger] samples[i]).0)
}

/// Puts measures of the convergence into buckets by the generation at which
/// they were taken; a map from the generation finds the bucket.
fn bucket_by_generation(samples: &Vec<(i64, Real)>) -> (groups: Vec<GenerationSamples>)
    ensures
        bucketed(samples@, samples.len() as int, groups@),
{
    let mut places: HashMap<i64, usize> = HashMap::new();
    let mut groups: Vec<GenerationSamples> = Vec::new();
    let mut index: usize = 0;
    while index < samples.len()
        invariant
            index <= samples.len(),
            bucketed(samples@, index as int, groups@),
            forall|generation: i64| #[trigger]
                places@.contains_key(generation) ==> places@[generation] < groups.len()
                    && groups@[places@[generation] as int].generation == generation,
            forall|k: int|
                0 <= k < groups.len() ==> places@.contains_key((#[trigger] groups@[k]).generation)
                    && places@[groups@[k].generation] == k,
        decreases samples.len() - index,
    {
        let (generation, convergence) = samples[index];
        let ghost before = groups@;
        let place: Option<usize> = match places.get(&generation) {
            Some(place) => Some(*place),
            None => None,
        };
        match place {
            Some(position) => {
                let mut group = groups.remove(position);
                group.samples.push(convergence);
                groups.insert(position, group);
                proof {
                    assert forall|k: int| 0 <= k < groups@.len() implies (
                    #[trigger] groups@[k]).generation == before[k].generation by {}
                    assert forall|k: int| 0 <= k < groups@.len() implies (
                    #[trigger] groups@[k]).samples@ == samples_at(
                        samples@,
                        groups@[k].generation,
                        index + 1,
                    ) && groups@[k].samples@.len() > 0 by {
                        if k != position {
                            assert(groups@[k] == before[k]);
                            assert(before[k].generation != before[position as int].generation);
                        }
                    }
                    assert forall|i: int| 0 <= i < index + 1 implies has_group(
                        groups@,
                        (#[trigger] samples@[i]).0,
                    ) by {
                        if i < index {
                            assert(has_group(before, samples@[i].0));
                            let k = choose|k: int|
                                0 <= k < before.len() && (#[trigger] before[k]).generation
                                    == samples@[i].0;
                            assert(groups@[k].generation == samples@[i].0);
                        } else {
                            assert(groups@[position as int].generation == generation);
                        }
                    }
                    assert forall|k: int| 0 <= k < groups.len() implies places@.contains_key(
                        (#[trigger] groups@[k]).generation,
                    ) && places@[groups@[k].generation] == k by {
                        assert(before[k].generation == groups@[k].generation);
                    }
                }
            },
            None => {
                let mut fresh: Vec<Real> = Vec::new();
                fresh.push(convergence);
                proof {
                    assert forall|i: int| 0 <= i < index implies (#[trigger] samples@[i]).0
                        != generation by {
                        assert(has_group(before, samples@[i].0));
                        let k = choose|k: int|
                            0 <= k < before.len() && (#[trigger] before[k]).generation
                                == samples@[i].0;
                        assert(places@.contains_key(before[k].generation));
                    }
                    lemma_no_samples(samples@, generation, index as int);
                    assert(fresh@ =~= samples_at(samples@, generation, index + 1));
                }
                places.insert(generation, groups.len());
                groups.push(GenerationSamples { generation, samples: fresh });
                proof {
                    let last = before.len() as int;
                    assert forall|k: int| 0 <= k < last implies (#[trigger] groups@[k])
                        == before[k] by {}
                    assert forall|i: int, j: int|
                        0 <= i < groups@.len() && 0 <= j < groups@.len() && i != j implies (
                    #[trigger] groups@[i]).generation != (#[trigger] groups@[j]).generation by {
                        if i < last && j < last {
                            assert(before[i].generation != before[j].generation);
                        } else if i < last {
                            assert(before[i] == groups@[i]);
                        } else {
                            assert(before[j] == groups@[j]);
                        }
                    }
                    assert forall|k: int| 0 <= k < groups@.len() implies (
                    #[trigger] groups@[k]).samples@ == samples_at(
                        samples@,
                        groups@[k].generation,
                        index + 1,
                    ) && groups@[k].samples@.len() > 0 by {
                        if k < last {
                            assert(groups@[k] == before[k]);
                        }
                    }
                    assert forall|i: int| 0 <= i < index + 1 implies has_group(
                        groups@,
                        (#[trigger] samples@[i]).0,
                    ) by {
                        if i < index {
                            assert(has_group(before, samples@[i].0));
                            let k = choose|k: int|
                                0 <= k < before.len() && (#[trigger] before[k]).generation
                                    == samples@[i].0;
                            assert(groups@[k] == before[k]);
                        } else {
                            assert(groups@[last].generation == generation);
                        }
                    }
                    assert forall|k: int| 0 <= k < groups.len() implies places@.contains_key(
                        (#[trigger] groups@[k]).generation,
                    ) && places@[groups@[k].generation] == k by {
                        if k < last {
                            assert(groups@[k] == before[k]);
                        }
                    }
                }
            },
        }
        index += 1;
    }
    groups
}

/// Groups measures of the convergence by the generation at which they were
/// taken, the groups in the order of their generations.
pub fn group_by_generation(samples: &Vec<(i64, Real)>) -> (groups: Vec<GenerationSamples>)
    ensures
        grouped(samples@, samples.len() as int, groups@),
{
    let mut remaining = bucket_by_generation(samples);
    let mut groups: Vec<GenerationSamples> = Vec::new();
    let ghost count = samples.len() as int;
    while remaining.len() > 0
        invariant
            count == samples.len(),
            forall|i: int, j: int|
                0 <= i < remaining.len() && 0 <= j < remaining.len() && i != j ==> (
                #[trigger] remaining@[i]).generation != (#[trigger] remaining@[j]).generation,
            forall|k: int|
                0 <= k < remaining.len() ==> (#[trigger] remaining@[k]).samples@ == samples_at(
                    samples@,
                    remaining@[k].generation,
                    count,
                ) && remaining@[k].samples@.len() > 0,
            forall|k: int|
                0 <= k < groups.len() ==> (#[trigger] groups@[k]).samples@ == samples_at(
                    samples@,
                    groups@[k].generation,
                    count,
                ) && groups@[k].samples@.len() > 0,
            forall|i: int, j: int|
                0 <= i < j < groups.len() ==> (#[trigger] groups@[i]).generation < (
                #[trigger] groups@[j]).generation,
            forall|i: int, j: int|
                0 <= i < groups.len() && 0 <= j < remaining.len() ==> (
                #[trigger] groups@[i]).generation < (#[trigger] remaining@[j]).generation,
            forall|i: int|
                0 <= i < count ==> has_group(groups@, (#[trigger] samples@[i]).0) || has_group(
                    remaining@,
                    samples@[i].0,
                ),
        decreases remaining.len(),
    {
        let mut least: usize = 0;
        let mut probe: usize = 1;
        while probe < remaining.len()
            invariant
                least < remaining.len(),
                1 <= probe <= remaining.len(),
                forall|k: int|
                    0 <= k < probe ==> remaining@[least as int].generation <= (
                    #[trigger] remaining@[k]).generation,
            decreases remaining.len() - probe,
        {
            if remaining[probe].generation < remaining[least].generation {
                least = probe;
            }
            probe += 1;
        }
        let ghost before = remaining@;
        let ghost sorted = groups@;
        let group = remaining.remove(least);
        groups.push(group);
        proof {
            let last = sorted.len() as int;
            assert(groups@[last] == before[least as int]);
            assert forall|k: int| 0 <= k < last implies (#[trigger] groups@[k]) == sorted[k] by {}
            assert forall|k: int| 0 <= k < remaining@.len() implies (#[trigger] remaining@[k])
                == before[if k < least { k } else { k + 1 }] by {}
            assert forall|j: int| 0 <= j < remaining@.len() implies before[least as int].generation
                < (#[trigger] remaining@[j]).generation by {
                let from = if j < least { j } else { j + 1 };
                assert(before[least as int].generation <= before[from].generation);
                assert(before[least as int].generation != before[from].generation);
            }
            assert forall|i: int, j: int|
                0 <= i < remaining@.len() && 0 <= j < remaining@.len() && i != j implies (
            #[trigger] remaining@[i]).generation != (#[trigger] remaining@[j]).generation by {
                let from_i = if i < least { i } else { i + 1 };
                let from_j = if j < least { j } else { j + 1 };
                assert(before[from_i].generation != before[from_j].generation);
            }
            assert forall|i: int, j: int| 0 <= i < j < groups@.len() implies (
            #[trigger] groups@[i]).generation < (#[trigger] groups@[j]).generation by {
                if j < last {
                    assert(sorted[i].generation < sorted[j].generation);
                } else {
                    assert(sorted[i].generation < before[least as int].generation);
                }
            }
            assert forall|i: int, j: int|
                0 <= i < groups@.len() && 0 <= j < remaining@.len() implies (
            #[trigger] groups@[i]).generation < (#[trigger] remaining@[j]).generation by {
                let from_j = if j < least { j } else { j + 1 };
                if i < last {
                    assert(sorted[i].generation < before[from_j].generation);
                }
            }
            assert forall|k: int| 0 <= k < groups@.len() implies (
            #[trigger] groups@[k]).samples@ == samples_at(samples@, groups@[k].generation, count)
                && groups@[k].samples@.len() > 0 by {
                if k < last {
                    assert(groups@[k] == sorted[k]);
                }
            }
            assert forall|i: int| 0 <= i < count implies has_group(
                groups@,
                (#[trigger] samples@[i]).0,
            ) || has_group(remaining@, samples@[i].0) by {
                if has_group(sorted, samples@[i].0) {
                    let k = choose|k: int|
                        0 <= k < sorted.len() && (#[trigger] sorted[k]).generation == samples@[i].0;
                    assert(groups@[k] == sorted[k]);
                } else {
                    assert(has_group(before, samples@[i].0));
                    let k = choose|k: int|
                        0 <= k < before.len() && (#[trigger] before[k]).generation == samples@[i].0;
                    if k == least {
                        assert(groups@[last].generation == samples@[i].0);
                    } else {
                        let to = if k < least { k } else { k - 1 };
                        assert(remaining@[to] == before[k]);
                    }
                }
            }
        }
    }
    proof {
        assert forall|i: int| 0 <= i < count implies has_group(
            groups@,
            (#[trigger] samples@[i]).0,
        ) by {
            if has_group(remaining@, samples@[i].0) {
                let k = choose|k: int|
                    0 <= k < remaining@.len() && (#[trigger] remaining@[k]).generation
                        == samples@[i].0;
            }
        }
    }
    groups
}

/// Once a count has left 64 bits, more runs do not bring the sum back.
pub proof fn lemma_overflow_stays(runs: Seq<Seq<BinData>>, count: int, more: int)
    requires
        0 <= count <= more,
        combined_bins(runs, count) is None,
    ensures
        combined_bins(runs, more) is None,
    decreases more - count,
{
    if count < more {
        lemma_overflow_stays(runs, count, more - 1);
    }
}

/// The bins of one run with every count taken `times` times.
pub open spec fn scaled_bins(bins: Seq<BinData>, times: int) -> Seq<BinData> {
    Seq::new(
        bins.len(),
        |i: int|
            BinData {
                neutron_count: (times * bins[i].neutron_count) as i64,
                fission_count: (times * bins[i].fission_count) as i64,
            },
    )
}

/// Simulations that all gave the same bins sum to those bins with every count
/// taken as many times as there are simulations, as long as those counts stay
/// within 64 bits.
pub proof fn lemma_identical_runs(runs: Seq<Seq<BinData>>, bins: Seq<BinData>, count: int)
    requires
        1 <= count <= runs.len(),
        forall|j: int| 0 <= j < count ==> #[trigger] runs[j] == bins,
        forall|i: int|
            0 <= i < bins.len() ==> i64::MIN <= count * (#[trigger] bins[i]).neutron_count
                <= i64::MAX && i64::MIN <= count * bins[i].fission_count <= i64::MAX,
    ensures
        combined_bins(runs, count) == Some(scaled_bins(bins, count)),
    decreases count,
{
    if count == 1 {
        assert(combined_bins(runs, 0) == Some(Seq::<BinData>::empty()));
        assert(scaled_bins(bins, 1) =~= bins);
    } else {
        assert forall|i: int| 0 <= i < bins.len() implies i64::MIN <= (count - 1) * (
        #[trigger] bins[i]).neutron_count <= i64::MAX && i64::MIN <= (count - 1)
            * bins[i].fission_count <= i64::MAX by {
            lemma_scaled_between(count, bins[i].neutron_count as int);
            lemma_scaled_between(count, bins[i].fission_count as int);
        }
        lemma_identical_runs(runs, bins, count - 1);
        let sum = scaled_bins(bins, count - 1);
        if bins.len() == 0 {
            assert(sum =~= Seq::<BinData>::empty());
            assert(scaled_bins(bins, count) =~= bins);
        } else {
            assert forall|i: int| 0 <= i < sum.len() && i < bins.len() implies bin_sum_fits(
                #[trigger] sum[i],
                bins[i],
            ) by {
                lemma_scaled_step(count, bins[i].neutron_count as int);
                lemma_scaled_step(count, bins[i].fission_count as int);
            }
            assert forall|i: int| 0 <= i < bins.len() implies #[trigger] with_run(sum, bins)[i]
                == scaled_bins(bins, count)[i] by {
                lemma_scaled_step(count, bins[i].neutron_count as int);
                lemma_scaled_step(count, bins[i].fission_count as int);
            }
            assert(with_run(sum, bins) =~= scaled_bins(bins, count));
        }
    }
}

proof fn lemma_scaled_step(count: int, value: int)
    ensures
        (count - 1) * value + value == count * value,
{
    assert((count - 1) * value + value == count * value) by (nonlinear_arith);
}

proof fn lemma_scaled_between(count: int, value: int)
    requires
        count >= 2,
        i64::MIN <= count * value <= i64::MAX,
    ensures
        i64::MIN <= (count - 1) * value <= i64::MAX,
{
    assert((count - 1) * value + value == count * value) by (nonlinear_arith);
    if value >= 0 {
        assert((count - 1) * value >= 0) by (nonlinear_arith)
            requires
                count >= 2,
                value >= 0,
        ;
    } else {
        assert((count - 1) * value <= 0) by (nonlinear_arith)
            requires
                count >= 2,
                value < 0,
        ;
    }
}

} // verus!
