use vstd::prelude::*;
use crate::diagnostics::geometry_diagnostics::GeometryDiagnostics;
use crate::diagnostics::halt_causes::SimulationHaltCauses;
use crate::diagnostics::{BinData, NeutronDiagnostics};
use crate::utils::reals::Real;
use crate::utils::vectors::Vec3D;

verus! {

/// The steps counted in all bins together.
pub open spec fn neutron_total(bins: Seq<BinData>) -> int
    decreases bins.len(),
{
    if bins.len() == 0 {
        0
    } else {
        neutron_total(bins.drop_last()) + bins.last().neutron_count
    }
}

/// The fissions counted in all bins together.
pub open spec fn fission_total(bins: Seq<BinData>) -> int
    decreases bins.len(),
{
    if bins.len() == 0 {
        0
    } else {
        fission_total(bins.drop_last()) + bins.last().fission_count
    }
}

/// The sum of the first `count` numbers of a list.
pub open spec fn prefix_sum(values: Seq<i64>, count: int) -> int
    decreases count,
{
    if count <= 0 {
        0
    } else {
        prefix_sum(values, count - 1) + values[count - 1]
    }
}

/// The sum of a list of numbers can be taken from the left within 64 bits.
pub open spec fn sum_fits(values: Seq<i64>) -> bool {
    forall|count: int|
        0 <= count <= values.len() ==> i64::MIN <= #[trigger] prefix_sum(values, count) <= i64::MAX
}

/// The bins with one more step counted at `index`.
pub open spec fn with_neutron(bins: Seq<BinData>, index: int) -> Seq<BinData> {
    bins.update(
        index,
        BinData {
            neutron_count: (bins[index].neutron_count + 1) as i64,
            fission_count: bins[index].fission_count,
        },
    )
}

/// The bins with one more fission counted at `index`.
pub open spec fn with_fission(bins: Seq<BinData>, index: int) -> Seq<BinData> {
    bins.update(
        index,
        BinData {
            neutron_count: bins[index].neutron_count,
            fission_count: (bins[index].fission_count + 1) as i64,
        },
    )
}

/// Replacing one bin changes the totals by what that bin changed by.
pub proof fn lemma_totals_update(bins: Seq<BinData>, index: int, bin: BinData)
    requires
        0 <= index < bins.len(),
    ensures
        neutron_total(bins.update(index, bin)) == neutron_total(bins) - bins[index].neutron_count
            + bin.neutron_count,
        fission_total(bins.update(index, bin)) == fission_total(bins) - bins[index].fission_count
            + bin.fission_count,
    decreases bins.len(),
{
    let updated = bins.update(index, bin);
    if index == bins.len() - 1 {
        assert(updated.drop_last() =~= bins.drop_last());
    } else {
        assert(updated.drop_last() =~= bins.drop_last().update(index, bin));
        lemma_totals_update(bins.drop_last(), index, bin);
    }
}

/// Bins that are all empty count nothing.
pub proof fn lemma_totals_of_empty_bins(bins: Seq<BinData>)
    requires
        forall|i: int|
            0 <= i < bins.len() ==> (#[trigger] bins[i]).neutron_count == 0 && bins[i].fission_count
                == 0,
    ensures
        neutron_total(bins) == 0,
        fission_total(bins) == 0,
    decreases bins.len(),
{
    if bins.len() > 0 {
        lemma_totals_of_empty_bins(bins.drop_last());
    }
}

/// The sum of a list of numbers, where it can be taken from the left within
/// 64 bits.
pub fn checked_sum(values: &Vec<i64>) -> (total: Option<i64>)
    ensures
        total is Some <==> sum_fits(values@),
        total is Some ==> total.unwrap() == prefix_sum(values@, values.len() as int),
{
    let mut sum: i64 = 0;
    let mut index: usize = 0;
    while index < values.len()
        invariant
            index <= values.len(),
            sum == prefix_sum(values@, index as int),
            forall|count: int|
                0 <= count <= index ==> i64::MIN <= #[trigger] prefix_sum(values@, count)
                    <= i64::MAX,
        decreases values.len() - index,
    {
        match sum.checked_add(values[index]) {
            Some(next) => {
                sum = next;
            },
            None => {
                assert(prefix_sum(values@, index + 1) == sum + values[index as int]);
                return None;
            },
        }
        index += 1;
    }
    Some(sum)
}

/// The steps counted in all bins together, but at least one; nothing where
/// the sum cannot be taken from the left within 64 bits.
fn floored_neutron_total(bins: &Vec<BinData>) -> (total: Option<i64>)
    ensures
        total is Some <==> sum_fits(neutron_counts(bins@)),
        total is Some ==> total.unwrap() == floored(neutron_total(bins@)),
{
    let mut sum: i64 = 0;
    let mut index: usize = 0;
    let ghost counts = neutron_counts(bins@);
    while index < bins.len()
        invariant
            index <= bins.len(),
            counts == neutron_counts(bins@),
            sum == prefix_sum(counts, index as int),
            sum == neutron_total(bins@.subrange(0, index as int)),
            forall|count: int|
                0 <= count <= index ==> i64::MIN <= #[trigger] prefix_sum(counts, count)
                    <= i64::MAX,
        decreases bins.len() - index,
    {
        proof {
            assert(bins@.subrange(0, index + 1).drop_last() =~= bins@.subrange(0, index as int));
        }
        match sum.checked_add(bins[index].neutron_count) {
            Some(next) => {
                sum = next;
            },
            None => {
                assert(prefix_sum(counts, index + 1) == sum + counts[index as int]);
                return None;
            },
        }
        index += 1;
    }
    proof {
        assert(bins@.subrange(0, index as int) =~= bins@);
    }
    if sum < 1 {
        Some(1)
    } else {
        Some(sum)
    }
}

/// The steps counted in each bin, as a list.
pub open spec fn neutron_counts(bins: Seq<BinData>) -> Seq<i64> {
    Seq::new(bins.len(), |i: int| bins[i].neutron_count)
}

/// A total, or one where the total is less.
pub open spec fn floored(total: int) -> int {
    if total < 1 {
        1
    } else {
        total
    }
}

fn empty_bins(count: usize) -> (bins: Vec<BinData>)
    ensures
        bins.len() == count,
        forall|i: int|
            0 <= i < count ==> (#[trigger] bins[i]).neutron_count == 0 && bins[i].fission_count
                == 0,
{
    let mut bins: Vec<BinData> = Vec::new();
    let mut index: usize = 0;
    while index < count
        invariant
            index <= count,
            bins.len() == index,
            forall|i: int|
                0 <= i < index ==> (#[trigger] bins[i]).neutron_count == 0
                    && bins[i].fission_count == 0,
        decreases count - index,
    {
        bins.push(BinData { neutron_count: 0, fission_count: 0 });
        index += 1;
    }
    bins
}

fn copy_of_bins(bins: &Vec<BinData>) -> (copy: Vec<BinData>)
    ensures
        copy@ == bins@,
{
    let mut copy: Vec<BinData> = Vec::new();
    let mut index: usize = 0;
    while index < bins.len()
        invariant
            index <= bins.len(),
            copy@ == bins@.subrange(0, index as int),
        decreases bins.len() - index,
    {
        copy.push(bins[index]);
        proof {
            assert(copy@ =~= bins@.subrange(0, index + 1));
        }
        index += 1;
    }
    proof {
        assert(bins@.subrange(0, index as int) =~= bins@);
    }
    copy
}

impl BinData {
    /// Adds the counts of another bin to this one.
    pub fn add(&mut self, other: &BinData)
        requires
            i64::MIN <= old(self).neutron_count + other.neutron_count <= i64::MAX,
            i64::MIN <= old(self).fission_count + other.fission_count <= i64::MAX,
        ensures
            final(self).neutron_count == old(self).neutron_count + other.neutron_count,
            final(self).fission_count == old(self).fission_count + other.fission_count,
    {
        self.neutron_count += other.neutron_count;
        self.fission_count += other.fission_count;
    }
}

impl NeutronDiagnostics {
    /// The two sets of bins are flat arrays over the grid.
    pub open spec fn well_formed(self) -> bool {
        &&& self.bin_parameters.well_formed()
        &&& self.neutron_position_bins.len() == self.bin_parameters.cell_count()
        &&& self.neutron_position_bins_previous.len() == self.bin_parameters.cell_count()
    }

    /// Whether a neutron of the given generation is recorded.
    pub open spec fn tracks(self, generation_number: i64) -> bool {
        generation_number >= self.track_from_generation
    }

    /// Whether a step that ends at a position is counted in a bin.
    pub open spec fn bins_position(self, generation_number: i64, position: Vec3D) -> bool {
        self.track_bins && self.tracks(generation_number) && self.bin_parameters.contains(position)
    }

    /// Whether the place of a fission is put on the list.
    pub open spec fn lists_fission(self, generation_number: i64) -> bool {
        self.track_fission_positions && self.tracks(generation_number)
    }

    /// The place in the flat array of the bin with the given numbers.
    pub open spec fn bin_index(self, bins: (usize, usize, usize)) -> int {
        self.bin_parameters.index_of(bins.0 as int, bins.1 as int, bins.2 as int)
    }

    /// The options of `other` are those of `self`.
    pub open spec fn same_options(self, other: NeutronDiagnostics) -> bool {
        &&& self.bin_parameters == other.bin_parameters
        &&& self.estimate_k == other.estimate_k
        &&& self.track_bins == other.track_bins
        &&& self.track_fission_positions == other.track_fission_positions
        &&& self.track_from_generation == other.track_from_generation
        &&& self.initial_neutron_count == other.initial_neutron_count
    }

    /// What `other` holds of the end of the run is what `self` holds of it.
    pub open spec fn same_outcome(self, other: NeutronDiagnostics) -> bool {
        &&& self.neutron_generation_counts@ == other.neutron_generation_counts@
        &&& self.max_generation_value == other.max_generation_value
        &&& self.averaged_k == other.averaged_k
        &&& self.halt_cause == other.halt_cause
        &&& self.total_neutrons_tracked == other.total_neutrons_tracked
        &&& self.total_fissions == other.total_fissions
        &&& self.power_generated == other.power_generated
        &&& self.total_energy == other.total_energy
    }

    /// What `other` holds of the convergence is what `self` holds of it.
    pub open spec fn same_convergence(self, other: NeutronDiagnostics) -> bool {
        &&& self.convergence_tracking@ == other.convergence_tracking@
        &&& self.previous_bin_generation == other.previous_bin_generation
        &&& self.neutron_position_bins_previous@ == other.neutron_position_bins_previous@
    }

    /// The bins count no more fissions than there are places on the list.
    pub open spec fn tally_conserved(self) -> bool {
        fission_total(self.neutron_position_bins@) <= self.neutron_fission_locations.len()
    }

    /// The bins count exactly as many fissions as there are places on the list.
    pub open spec fn tally_complete(self) -> bool {
        fission_total(self.neutron_position_bins@) == self.neutron_fission_locations.len()
    }

    /// `after` is `before` once a fission of a neutron of the given
    /// generation at a position, with the given bin numbers, was recorded.
    pub open spec fn records_fission(
        before: NeutronDiagnostics,
        after: NeutronDiagnostics,
        generation_number: i64,
        position: Vec3D,
        bins: (usize, usize, usize),
    ) -> bool {
        &&& after.neutron_position_bins@ == if before.bins_position(generation_number, position) {
            with_fission(before.neutron_position_bins@, before.bin_index(bins))
        } else {
            before.neutron_position_bins@
        }
        &&& after.neutron_fission_locations@ == if before.lists_fission(generation_number) {
            before.neutron_fission_locations@.push(position)
        } else {
            before.neutron_fission_locations@
        }
        &&& after.same_options(before)
        &&& after.same_outcome(before)
        &&& after.same_convergence(before)
    }

    /// Creates the record of a simulation that has not started: every bin is
    /// empty and nothing is on any list.
    pub fn new(
        estimate_k: bool,
        track_bins: bool,
        track_fission_positions: bool,
        track_from_generation: i64,
        bin_parameters: GeometryDiagnostics,
        initial_neutron_count: i64,
    ) -> (diagnostics: NeutronDiagnostics)
        requires
            bin_parameters.well_formed(),
        ensures
            diagnostics.well_formed(),
            diagnostics.estimate_k == estimate_k,
            diagnostics.track_bins == track_bins,
            diagnostics.track_fission_positions == track_fission_positions,
            diagnostics.track_from_generation == track_from_generation,
            diagnostics.bin_parameters == bin_parameters,
            diagnostics.initial_neutron_count == initial_neutron_count,
            forall|i: int|
                0 <= i < diagnostics.neutron_position_bins.len() ==> (
                #[trigger] diagnostics.neutron_position_bins[i]) == (BinData {
                    neutron_count: 0,
                    fission_count: 0,
                }),
            diagnostics.neutron_position_bins_previous@ == diagnostics.neutron_position_bins@,
            diagnostics.neutron_generation_counts@.len() == 0,
            diagnostics.convergence_tracking@.len() == 0,
            diagnostics.neutron_fission_locations@.len() == 0,
            diagnostics.previous_bin_generation == 0,
            diagnostics.max_generation_value == 0,
            diagnostics.averaged_k.key == 0,
            diagnostics.halt_cause == SimulationHaltCauses::NotHalted,
            diagnostics.total_neutrons_tracked == 0,
            diagnostics.total_fissions == 0,
            diagnostics.power_generated.key == 0,
            diagnostics.total_energy.key == 0,
            diagnostics.tally_complete(),
    {
        let size = match bin_parameters.array_size() {
            Some(size) => size,
            None => 0,
        };
        let neutron_position_bins = empty_bins(size);
        let neutron_position_bins_previous = copy_of_bins(&neutron_position_bins);
        proof {
            lemma_totals_of_empty_bins(neutron_position_bins@);
        }
        NeutronDiagnostics {
            neutron_generation_counts: Vec::new(),
            bin_parameters,
            neutron_position_bins,
            estimate_k,
            track_bins,
            max_generation_value: 0,
            averaged_k: Real { key: 0 },
            halt_cause: SimulationHaltCauses::NotHalted,
            initial_neutron_count,
            total_neutrons_tracked: 0,
            total_fissions: 0,
            track_from_generation,
            power_generated: Real { key: 0 },
            neutron_fission_locations: Vec::new(),
            track_fission_positions,
            total_energy: Real { key: 0 },
            neutron_position_bins_previous,
            previous_bin_generation: 0,
            convergence_tracking: Vec::new(),
        }
    }

    /// The number of fissions whose place is on the list.
    pub fn get_total_fissions(&self) -> (count: i64)
        ensures
            count == self.neutron_fission_locations.len() as i64,
    {
        self.neutron_fission_locations.len() as i64
    }

    /// The place in the flat array of the bin that a position falls in, or
    /// nothing for a position outside the grid.
    pub fn get_current_bin(&self, neutron_position: Vec3D, bins: (usize, usize, usize)) -> (bin:
        Option<usize>)
        requires
            self.bin_parameters.well_formed(),
            self.bin_parameters.contains(neutron_position) ==> self.bin_parameters.holds_bins(bins),
        ensures
            bin is Some <==> self.bin_parameters.contains(neutron_position),
            bin is Some ==> bin.unwrap() == self.bin_index(bins),
            bin is Some ==> bin.unwrap() < self.bin_parameters.cell_count(),
    {
        self.bin_parameters.get_current_bin(neutron_position, bins)
    }

    /// Puts the place of a fission on the list, if such places are listed and
    /// the generation is one that is recorded.
    pub fn track_neutron_location_fission(
        &mut self,
        generation_number: i64,
        neutron_position: Vec3D,
    )
        ensures
            final(self).neutron_fission_locations@ == if old(self).lists_fission(
                generation_number,
            ) {
                old(self).neutron_fission_locations@.push(neutron_position)
            } else {
                old(self).neutron_fission_locations@
            },
            final(self).neutron_position_bins@ == old(self).neutron_position_bins@,
            final(self).same_options(*old(self)),
            final(self).same_outcome(*old(self)),
            final(self).same_convergence(*old(self)),
    {
        if self.track_fission_positions && generation_number >= self.track_from_generation {
            self.neutron_fission_locations.push(neutron_position);
        }
    }

    /// Counts a step that ended at a position in the bin it falls in, if bins
    /// are kept, the generation is one that is recorded and the position lies
    /// in the grid.
    pub fn track_neutron_bin_presence(
        &mut self,
        generation_number: i64,
        neutron_position: Vec3D,
        bins: (usize, usize, usize),
    )
        requires
            old(self).well_formed(),
            old(self).bin_parameters.contains(neutron_position) ==> old(self).bin_parameters.holds_bins(bins),
            old(self).bins_position(generation_number, neutron_position) ==> old(self).neutron_position_bins@[old(self).bin_index(bins)].neutron_count < i64::MAX,
        ensures
            final(self).neutron_position_bins@ == if old(self).bins_position(
                generation_number,
                neutron_position,
            ) {
                with_neutron(old(self).neutron_position_bins@, old(self).bin_index(bins))
            } else {
                old(self).neutron_position_bins@
            },
            final(self).neutron_fission_locations@ == old(self).neutron_fission_locations@,
            final(self).same_options(*old(self)),
            final(self).same_outcome(*old(self)),
            final(self).same_convergence(*old(self)),
            final(self).well_formed(),
    {
        if self.track_bins && generation_number >= self.track_from_generation {
            if let Some(current_bin) = self.get_current_bin(neutron_position, bins) {
                let bin = self.neutron_position_bins[current_bin];
                self.neutron_position_bins.set(
                    current_bin,
                    BinData {
                        neutron_count: bin.neutron_count + 1,
                        fission_count: bin.fission_count,
                    },
                );
            }
        }
    }

    /// Counts a fission at a position in the bin it falls in, if bins are
    /// kept, the generation is one that is recorded and the position lies in
    /// the grid.
    pub fn track_neutron_bin_fission(
        &mut self,
        generation_number: i64,
        neutron_position: Vec3D,
        bins: (usize, usize, usize),
    )
        requires
            old(self).well_formed(),
            old(self).bin_parameters.contains(neutron_position) ==> old(self).bin_parameters.holds_bins(bins),
            old(self).bins_position(generation_number, neutron_position) ==> old(self).neutron_position_bins@[old(self).bin_index(bins)].fission_count < i64::MAX,
        ensures
            final(self).neutron_position_bins@ == if old(self).bins_position(
                generation_number,
                neutron_position,
            ) {
                with_fission(old(self).neutron_position_bins@, old(self).bin_index(bins))
            } else {
                old(self).neutron_position_bins@
            },
            final(self).neutron_fission_locations@ == old(self).neutron_fission_locations@,
            final(self).same_options(*old(self)),
            final(self).same_outcome(*old(self)),
            final(self).same_convergence(*old(self)),
            final(self).well_formed(),
    {
        if self.track_bins && generation_number >= self.track_from_generation {
            if let Some(current_bin) = self.get_current_bin(neutron_position, bins) {
                let bin = self.neutron_position_bins[current_bin];
                self.neutron_position_bins.set(
                    current_bin,
                    BinData {
                        neutron_count: bin.neutron_count,
                        fission_count: bin.fission_count + 1,
                    },
                );
            }
        }
    }

    /// Records a fission: counts it in the bin it falls in, and puts its place
    /// on the list.
    pub fn track_fission(
        &mut self,
        generation_number: i64,
        neutron_position: Vec3D,
        bins: (usize, usize, usize),
    )
        requires
            old(self).well_formed(),
            old(self).bin_parameters.contains(neutron_position) ==> old(self).bin_parameters.holds_bins(bins),
            old(self).bins_position(generation_number, neutron_position) ==> old(self).neutron_position_bins@[old(self).bin_index(bins)].fission_count < i64::MAX,
        ensures
            Self::records_fission(
                *old(self),
                *final(self),
                generation_number,
                neutron_position,
                bins,
            ),
            final(self).well_formed(),
    {
        self.track_neutron_bin_fission(generation_number, neutron_position, bins);
        self.track_neutron_location_fission(generation_number, neutron_position);
    }

    /// The steps counted in the bins, and those counted in the bins as they
    /// were when the convergence was last updated; each total at least one.
    /// Nothing where one of the sums cannot be taken within 64 bits.
    pub fn bin_totals(&self) -> (totals: Option<(i64, i64)>)
        ensures
            totals is Some <==> sum_fits(neutron_counts(self.neutron_position_bins@)) && sum_fits(
                neutron_counts(self.neutron_position_bins_previous@),
            ),
            totals is Some ==> totals.unwrap().0 == floored(
                neutron_total(self.neutron_position_bins@),
            ) && totals.unwrap().1 == floored(neutron_total(self.neutron_position_bins_previous@)),
    {
        let current_neutron_count = match floored_neutron_total(&self.neutron_position_bins) {
            Some(total) => total,
            None => {
                return None;
            },
        };
        let previous_neutron_count = match floored_neutron_total(
            &self.neutron_position_bins_previous,
        ) {
            Some(total) => total,
            None => {
                return None;
            },
        };
        Some((current_neutron_count, previous_neutron_count))
    }

    /// Records the convergence measured at a generation, and keeps the bins as
    /// they are now for the next measurement.
    pub fn update_convergence(&mut self, current_generation: i64, convergence: Real)
        ensures
            final(self).convergence_tracking@ == old(self).convergence_tracking@.push(
                (current_generation, convergence),
            ),
            final(self).neutron_position_bins_previous@ == old(self).neutron_position_bins@,
            final(self).neutron_position_bins@ == old(self).neutron_position_bins@,
            final(self).neutron_fission_locations@ == old(self).neutron_fission_locations@,
            final(self).previous_bin_generation == old(self).previous_bin_generation,
            final(self).same_options(*old(self)),
            final(self).same_outcome(*old(self)),
            old(self).well_formed() ==> final(self).well_formed(),
    {
        self.convergence_tracking.push((current_generation, convergence));
        self.neutron_position_bins_previous = copy_of_bins(&self.neutron_position_bins);
    }

    /// Records how the simulation ended: the generation it reached, the size
    /// of every generation, their sum, and the cause of the halt.
    pub fn track_simulation_halt(
        &mut self,
        neutron_generation: i64,
        neutron_generation_history: Vec<i64>,
        halt_cause: SimulationHaltCauses,
    )
        requires
            sum_fits(neutron_generation_history@),
        ensures
            final(self).neutron_generation_counts@ == neutron_generation_history@,
            final(self).total_neutrons_tracked == prefix_sum(
                neutron_generation_history@,
                neutron_generation_history.len() as int,
            ),
            final(self).halt_cause == halt_cause,
            final(self).max_generation_value == neutron_generation,
            final(self).averaged_k == old(self).averaged_k,
            final(self).total_fissions == old(self).total_fissions,
            final(self).power_generated == old(self).power_generated,
            final(self).total_energy == old(self).total_energy,
            final(self).neutron_position_bins@ == old(self).neutron_position_bins@,
            final(self).neutron_fission_locations@ == old(self).neutron_fission_locations@,
            final(self).same_options(*old(self)),
            final(self).same_convergence(*old(self)),
    {
        let total = match checked_sum(&neutron_generation_history) {
            Some(total) => total,
            None => 0,
        };
        self.neutron_generation_counts = neutron_generation_history;
        self.total_neutrons_tracked = total;
        self.halt_cause = halt_cause;
        self.max_generation_value = neutron_generation;
    }
}

/// Recording a fission keeps the bins from counting more fissions than there
/// are places on the list, provided that places are listed whenever bins are
/// kept.
pub proof fn lemma_fission_keeps_tally(
    before: NeutronDiagnostics,
    after: NeutronDiagnostics,
    generation_number: i64,
    position: Vec3D,
    bins: (usize, usize, usize),
)
    requires
        before.well_formed(),
        before.bin_parameters.contains(position) ==> before.bin_parameters.holds_bins(bins),
        before.bins_position(generation_number, position)
            ==> before.neutron_position_bins@[before.bin_index(bins)].fission_count < i64::MAX,
        NeutronDiagnostics::records_fission(before, after, generation_number, position, bins),
        before.track_fission_positions || !before.track_bins,
        before.tally_conserved(),
    ensures
        after.tally_conserved(),
        before.tally_complete() && before.track_bins && before.bin_parameters.contains(position)
            ==> after.tally_complete(),
        before.lists_fission(generation_number) && !before.bin_parameters.contains(position)
            ==> fission_total(after.neutron_position_bins@)
            < after.neutron_fission_locations.len(),
{
    if before.bins_position(generation_number, position) {
        let index = before.bin_index(bins);
        crate::diagnostics::geometry_diagnostics::lemma_index_in_array(
            before.bin_parameters.length_count as int,
            before.bin_parameters.depth_count as int,
            before.bin_parameters.height_count as int,
            bins.0 as int,
            bins.1 as int,
            bins.2 as int,
        );
        let bin = before.neutron_position_bins@[index];
        lemma_totals_update(
            before.neutron_position_bins@,
            index,
            BinData {
                neutron_count: bin.neutron_count,
                fission_count: (bin.fission_count + 1) as i64,
            },
        );
    }
}

/// What recording a fission adds: one to the fissions counted in the bins
/// where the fission falls in a bin, one to the places on the list where
/// places are listed.
pub proof fn lemma_fission_adds(
    before: NeutronDiagnostics,
    after: NeutronDiagnostics,
    generation_number: i64,
    position: Vec3D,
    bins: (usize, usize, usize),
)
    requires
        before.well_formed(),
        before.bin_parameters.contains(position) ==> before.bin_parameters.holds_bins(bins),
        before.bins_position(generation_number, position)
            ==> before.neutron_position_bins@[before.bin_index(bins)].fission_count < i64::MAX,
        NeutronDiagnostics::records_fission(before, after, generation_number, position, bins),
    ensures
        fission_total(after.neutron_position_bins@) == fission_total(before.neutron_position_bins@)
            + if before.bins_position(generation_number, position) {
            1int
        } else {
            0int
        },
        after.neutron_fission_locations.len() == before.neutron_fission_locations.len()
            + if before.lists_fission(generation_number) {
            1int
        } else {
            0int
        },
{
    if before.bins_position(generation_number, position) {
        let index = before.bin_index(bins);
        crate::diagnostics::geometry_diagnostics::lemma_index_in_array(
            before.bin_parameters.length_count as int,
            before.bin_parameters.depth_count as int,
            before.bin_parameters.height_count as int,
            bins.0 as int,
            bins.1 as int,
            bins.2 as int,
        );
        let bin = before.neutron_position_bins@[index];
        lemma_totals_update(
            before.neutron_position_bins@,
            index,
            BinData {
                neutron_count: bin.neutron_count,
                fission_count: (bin.fission_count + 1) as i64,
            },
        );
    }
}

/// By how much the bins gained fissions from one record to another.
pub open spec fn bins_gained(before: NeutronDiagnostics, after: NeutronDiagnostics) -> int {
    fission_total(after.neutron_position_bins@) - fission_total(before.neutron_position_bins@)
}

/// By how much the list of the places of fissions grew from one record to
/// another.
pub open spec fn list_gained(before: NeutronDiagnostics, after: NeutronDiagnostics) -> int {
    after.neutron_fission_locations.len() - before.neutron_fission_locations.len()
}

/// A step of a run keeps the balance: it leaves the choice of what is
/// recorded as it was, and where places are listed whenever bins are kept,
/// the bins gain no more fissions than the list gains places.
pub open spec fn keeps_balance(before: NeutronDiagnostics, after: NeutronDiagnostics) -> bool {
    &&& after.track_bins == before.track_bins
    &&& after.track_fission_positions == before.track_fission_positions
    &&& before.track_fission_positions || !before.track_bins ==> bins_gained(before, after)
        <= list_gained(before, after)
}

/// A step of a run loses no fission: where bins are kept and places listed,
/// the bins gain exactly as many fissions as the list gains places.
pub open spec fn loses_nothing(before: NeutronDiagnostics, after: NeutronDiagnostics) -> bool {
    before.track_fission_positions && before.track_bins ==> bins_gained(before, after)
        == list_gained(before, after)
}

/// A step of a run loses a fission: the list gains more places than the bins
/// gain fissions.
pub open spec fn loses_fission(before: NeutronDiagnostics, after: NeutronDiagnostics) -> bool {
    bins_gained(before, after) < list_gained(before, after)
}

/// Over a whole run, the bins gain no more fissions than the list gains
/// places: if every step keeps the balance, so does the run from its first
/// record to its last. `records` holds the record before the first step and
/// after every step.
pub proof fn lemma_run_gains(records: Seq<NeutronDiagnostics>, last: int)
    requires
        0 <= last < records.len(),
        records[0].track_fission_positions || !records[0].track_bins,
        forall|i: int| 0 <= i < last ==> keeps_balance(#[trigger] records[i], records[i + 1]),
    ensures
        keeps_balance(records[0], records[last]),
    decreases last,
{
    if last > 0 {
        lemma_run_gains(records, last - 1);
        assert(keeps_balance(records[last - 1], records[last]));
    }
}

/// After a run that started with the bins counting no more fissions than
/// there were places on the list, with places listed whenever bins are kept,
/// and every step of which kept the balance, the bins count no more fissions
/// than there are places on the list.
pub proof fn lemma_run_keeps_tally(records: Seq<NeutronDiagnostics>)
    requires
        records.len() > 0,
        records[0].tally_conserved(),
        records[0].track_fission_positions || !records[0].track_bins,
        forall|i: int|
            0 <= i < records.len() - 1 ==> keeps_balance(#[trigger] records[i], records[i + 1]),
    ensures
        records[records.len() - 1].tally_conserved(),
{
    lemma_run_gains(records, records.len() - 1);
}

/// After a run with bins kept and places listed that started with as many
/// fissions counted as listed, and no step of which lost a fission, the bins
/// count exactly as many fissions as there are places on the list.
pub proof fn lemma_run_without_loss(records: Seq<NeutronDiagnostics>, last: int)
    requires
        0 <= last < records.len(),
        records[0].tally_complete(),
        records[0].track_fission_positions && records[0].track_bins,
        forall|i: int|
            0 <= i < last ==> keeps_balance(#[trigger] records[i], records[i + 1])
                && loses_nothing(records[i], records[i + 1]),
    ensures
        records[last].tally_complete(),
        records[last].track_fission_positions && records[last].track_bins,
    decreases last,
{
    if last > 0 {
        lemma_run_without_loss(records, last - 1);
        assert(keeps_balance(records[last - 1], records[last]));
    }
}

/// After a run with places listed whenever bins are kept that started with
/// no more fissions counted than listed, every step of which kept the
/// balance and one step of which lost a fission, the bins count fewer
/// fissions than there are places on the list.
pub proof fn lemma_run_with_loss(records: Seq<NeutronDiagnostics>, lossy: int)
    requires
        0 <= lossy < records.len() - 1,
        records[0].tally_conserved(),
        records[0].track_fission_positions || !records[0].track_bins,
        forall|i: int|
            0 <= i < records.len() - 1 ==> keeps_balance(#[trigger] records[i], records[i + 1]),
        loses_fission(records[lossy], records[lossy + 1]),
    ensures
        fission_total(records[records.len() - 1].neutron_position_bins@) < records[records.len()
            - 1].neutron_fission_locations.len(),
{
    lemma_run_gains(records, lossy);
    let rest = records.subrange(lossy + 1, records.len() as int);
    assert forall|i: int| 0 <= i < rest.len() - 1 implies keeps_balance(
        #[trigger] rest[i],
        rest[i + 1],
    ) by {
        assert(keeps_balance(records[lossy + 1 + i], records[lossy + 1 + i + 1]));
    }
    assert(keeps_balance(records[lossy], records[lossy + 1]));
    assert(rest[0] == records[lossy + 1]);
    lemma_run_gains(rest, rest.len() - 1);
    assert(rest[rest.len() - 1] == records[records.len() - 1]);
}

/// Counting a step leaves the count of fissions, and so the balance between
/// the bins and the list of places, as it was.
pub proof fn lemma_presence_keeps_tally(bins: Seq<BinData>, index: int)
    requires
        0 <= index < bins.len(),
        bins[index].neutron_count < i64::MAX,
    ensures
        fission_total(with_neutron(bins, index)) == fission_total(bins),
        neutron_total(with_neutron(bins, index)) == neutron_total(bins) + 1,
{
    lemma_totals_update(
        bins,
        index,
        BinData {
            neutron_count: (bins[index].neutron_count + 1) as i64,
            fission_count: bins[index].fission_count,
        },
    );
}

} // verus!
