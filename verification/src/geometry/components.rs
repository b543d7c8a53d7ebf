use vstd::prelude::*;
use crate::geometry::parts::parts::{PartMeasure, PartTypes};
use crate::materials::material_data::MaterialData;
use crate::materials::material_properties::{
    entry_of, index_of, map_enum_to_indices, MaterialNames, MaterialProperties, PropertyValues,
    MATERIAL_COUNT,
};
use crate::utils::reals::Real;
use crate::utils::vectors::Vec3D;

verus! {

/// The key of one, which the shares of the constituents of a part sum to.
pub const ONE_KEY: i64 = 0x3FF0_0000_0000_0000;

/// The key of the range of interest before it has been worked out: minus one.
pub const UNSET_RANGE_KEY: i64 = -0x3FF0_0000_0000_0000;

/// A box with its edges along the axes, for rejecting a position quickly: a
/// position outside the box around a part is outside the part.
#[derive(Clone, Copy, Debug, PartialEq, Eq, Structural)]
pub struct BoundingBox {
    pub min: Vec3D,
    pub max: Vec3D,
}

/// One constituent of a part: an isotope and its share of the part.
#[derive(Clone, Copy, Debug, PartialEq, Eq, Structural)]
pub struct PartComposition {
    pub material_name: MaterialNames,
    pub material_fraction: Real,
}

/// The data of every isotope, their properties at the energy of the neutron
/// in flight, and all parts: the whole geometry.
pub struct Components {
    pub material_data_vector: Vec<MaterialData>,
    pub cached_material_properties: Vec<MaterialProperties>,
    pub parts_vector: Vec<PartTypes>,
    pub cache_initialized: bool,
    pub simulation_range_squared: Real,
}

impl BoundingBox {
    /// Whether a position lies in the box, its faces included: along no axis
    /// is it below the lower or above the upper corner.
    pub open spec fn contains(self, position: Vec3D) -> bool {
        &&& !position.x.lt(self.min.x) && !self.max.x.lt(position.x)
        &&& !position.y.lt(self.min.y) && !self.max.y.lt(position.y)
        &&& !position.z.lt(self.min.z) && !self.max.z.lt(position.z)
    }

    /// Whether a position lies in the box, its faces included.
    pub fn holds(&self, neutron_position: &Vec3D) -> (inside: bool)
        ensures
            inside == self.contains(*neutron_position),
    {
        if neutron_position.x.lt(self.min.x) || neutron_position.x.gt(self.max.x) {
            return false;
        }
        if neutron_position.y.lt(self.min.y) || neutron_position.y.gt(self.max.y) {
            return false;
        }
        if neutron_position.z.lt(self.min.z) || neutron_position.z.gt(self.max.z) {
            return false;
        }
        true
    }
}

/// Whether part `index` can be met at a position: the position lies in it.
pub open spec fn eligible(
    parts: Seq<PartTypes>,
    position: Vec3D,
    measures: Seq<PartMeasure>,
    index: int,
) -> bool {
    &&& 0 <= index < parts.len()
    &&& parts[index].contains(position, measures[index])
}

/// Whether part `winner` is the one met at a position: it can be met, no part
/// that can be met has a higher order, and of those with its order it stands
/// first.
pub open spec fn is_winner(
    parts: Seq<PartTypes>,
    position: Vec3D,
    measures: Seq<PartMeasure>,
    winner: int,
) -> bool {
    &&& eligible(parts, position, measures, winner)
    &&& forall|j: int|
        eligible(parts, position, measures, j) ==> (#[trigger] parts[j]).order_of()
            <= parts[winner].order_of()
    &&& forall|j: int|
        0 <= j < winner && eligible(parts, position, measures, j) ==> (
        #[trigger] parts[j]).order_of() < parts[winner].order_of()
}

/// The part that is met at a position, if any: the part of the highest order
/// that holds the position, the first of several of that order.
pub open spec fn part_met(
    parts: Seq<PartTypes>,
    position: Vec3D,
    measures: Seq<PartMeasure>,
) -> Option<usize> {
    if exists|winner: int| is_winner(parts, position, measures, winner) {
        Some((choose|winner: int| is_winner(parts, position, measures, winner)) as usize)
    } else {
        None
    }
}

/// At most one part is met at a position.
pub proof fn lemma_winner_unique(
    parts: Seq<PartTypes>,
    position: Vec3D,
    measures: Seq<PartMeasure>,
    first: int,
    second: int,
)
    requires
        is_winner(parts, position, measures, first),
        is_winner(parts, position, measures, second),
    ensures
        first == second,
{
    assert(parts[second].order_of() <= parts[first].order_of());
    assert(parts[first].order_of() <= parts[second].order_of());
    if first < second {
        assert(parts[first].order_of() < parts[second].order_of());
    } else if second < first {
        assert(parts[second].order_of() < parts[first].order_of());
    }
}

/// A part that is found to be the winner, or the finding that no part can be
/// met, is the part met.
proof fn lemma_part_met(
    parts: Seq<PartTypes>,
    position: Vec3D,
    measures: Seq<PartMeasure>,
    found: Option<usize>,
)
    requires
        parts.len() <= usize::MAX,
        found is Some ==> is_winner(parts, position, measures, found.unwrap() as int),
        found is None ==> forall|j: int| !eligible(parts, position, measures, j),
    ensures
        found == part_met(parts, position, measures),
{
    match found {
        Some(part) => {
            let chosen = choose|winner: int| is_winner(parts, position, measures, winner);
            lemma_winner_unique(parts, position, measures, part as int, chosen);
        },
        None => {
            assert forall|winner: int| !is_winner(parts, position, measures, winner) by {
                assert(!eligible(parts, position, measures, winner));
            }
        },
    }
}

/// The lower end of the window of constituent `index`: nothing for the first,
/// the upper end of the window before it for every other.
pub open spec fn window_start(cumulative: Seq<Real>, index: int) -> Real {
    if index <= 0 {
        Real { key: 0 }
    } else {
        cumulative[index - 1]
    }
}

/// Whether a draw falls in the window of constituent `index`.
pub open spec fn in_window(cumulative: Seq<Real>, criterion: Real, index: int) -> bool {
    window_start(cumulative, index).le(criterion) && criterion.lt(cumulative[index])
}

/// The isotope that a draw selects among the first `count` constituents: that
/// of the first window the draw falls in, or nothing.
pub open spec fn selected_among(
    composition: Seq<PartComposition>,
    cumulative: Seq<Real>,
    criterion: Real,
    count: int,
) -> Option<usize>
    decreases count,
{
    if count <= 0 {
        None
    } else {
        match selected_among(composition, cumulative, criterion, count - 1) {
            Some(found) => Some(found),
            None => if in_window(cumulative, criterion, count - 1) {
                Some(index_of(composition[count - 1].material_name))
            } else {
                None
            },
        }
    }
}

/// The isotope that a draw selects from a composition, or void where the draw
/// falls in no window.
pub open spec fn selected_material(
    composition: Seq<PartComposition>,
    cumulative: Seq<Real>,
    criterion: Real,
) -> usize {
    match selected_among(composition, cumulative, criterion, composition.len() as int) {
        Some(found) => found,
        None => 0,
    }
}

/// The greater of a range and the two squared corner distances of a part.
pub open spec fn widened(range: Real, corners: (Real, Real)) -> Real {
    let with_upper = if range.lt(corners.1) {
        corners.1
    } else {
        range
    };
    if with_upper.lt(corners.0) {
        corners.0
    } else {
        with_upper
    }
}

/// The squared range of interest of the first `count` parts: the greatest
/// squared distance from the origin of a corner of the box around a part,
/// over the parts whose order is not negative; zero without such a part.
pub open spec fn range_of(parts: Seq<PartTypes>, corners: Seq<(Real, Real)>, count: int) -> Real
    decreases count,
{
    if count <= 0 {
        Real { key: 0 }
    } else if parts[count - 1].order_of() <= -1 {
        range_of(parts, corners, count - 1)
    } else {
        widened(range_of(parts, corners, count - 1), corners[count - 1])
    }
}

impl Components {
    /// Every isotope has its data and its place in the cache.
    pub open spec fn well_formed(self) -> bool {
        &&& self.material_data_vector.len() == self.cached_material_properties.len()
        &&& self.material_data_vector.len() >= MATERIAL_COUNT
    }

    /// The geometry of the given isotopes and parts. The cache is not filled,
    /// and the range of interest not worked out yet.
    pub fn new(material_data_vector: Vec<MaterialData>, parts_vector: Vec<PartTypes>) -> (components:
        Components)
        ensures
            components.material_data_vector@ == material_data_vector@,
            components.parts_vector@ == parts_vector@,
            components.cached_material_properties.len() == material_data_vector.len(),
            forall|i: int|
                0 <= i < material_data_vector.len() ==> #[trigger] components.cached_material_properties[i]
                    == crate::materials::material_properties::blank_properties(),
            !components.cache_initialized,
            components.simulation_range_squared.key == UNSET_RANGE_KEY,
    {
        let mut cached_material_properties: Vec<MaterialProperties> = Vec::new();
        let mut index: usize = 0;
        while index < material_data_vector.len()
            invariant
                index <= material_data_vector.len(),
                cached_material_properties.len() == index,
                forall|i: int|
                    0 <= i < index ==> #[trigger] cached_material_properties[i]
                        == crate::materials::material_properties::blank_properties(),
            decreases material_data_vector.len() - index,
        {
            cached_material_properties.push(MaterialProperties::default());
            index += 1;
        }
        Components {
            material_data_vector,
            parts_vector,
            cached_material_properties,
            cache_initialized: false,
            simulation_range_squared: Real { key: UNSET_RANGE_KEY },
        }
    }

    /// Works out the squared range of interest, beyond which a neutron is
    /// given up. `corner_radii` holds, for every part, the squared distances
    /// from the origin of the two corners of the box around it. Parts of
    /// negative order do not count: they may be a background without end.
    pub fn get_maximum_radius_squared(&mut self, corner_radii: &Vec<(Real, Real)>)
        requires
            corner_radii.len() == old(self).parts_vector.len(),
        ensures
            final(self).simulation_range_squared == range_of(
                old(self).parts_vector@,
                corner_radii@,
                corner_radii.len() as int,
            ),
            final(self).parts_vector@ == old(self).parts_vector@,
            final(self).material_data_vector@ == old(self).material_data_vector@,
            final(self).cached_material_properties@ == old(self).cached_material_properties@,
            final(self).cache_initialized == old(self).cache_initialized,
    {
        let mut maximum_radius = Real::zero();
        let mut index: usize = 0;
        while index < self.parts_vector.len()
            invariant
                index <= self.parts_vector.len(),
                corner_radii.len() == self.parts_vector.len(),
                *self == *old(self),
                maximum_radius == range_of(self.parts_vector@, corner_radii@, index as int),
            decreases self.parts_vector.len() - index,
        {
            let order = self.parts_vector[index].order();
            if order > -1 {
                let (coordinate_min_radius, coordinate_max_radius) = corner_radii[index];
                if coordinate_max_radius.gt(maximum_radius) {
                    maximum_radius = coordinate_max_radius;
                }
                if coordinate_min_radius.gt(maximum_radius) {
                    maximum_radius = coordinate_min_radius;
                }
            }
            index += 1;
        }
        self.simulation_range_squared = maximum_radius;
    }

    /// Refreshes the cache for the energy of the neutron in flight: entry `i`
    /// is put together from the values that were worked out for isotope `i`
    /// at that energy and from the data of that isotope.
    pub fn update_cache_properties(&mut self, values: &Vec<PropertyValues>)
        requires
            values.len() == old(self).material_data_vector.len(),
        ensures
            final(self).cached_material_properties.len() == values.len(),
            forall|i: int|
                0 <= i < values.len() ==> #[trigger] final(self).cached_material_properties@[i]
                    == entry_of(old(self).material_data_vector@[i], values@[i]),
            final(self).cache_initialized,
            final(self).parts_vector@ == old(self).parts_vector@,
            final(self).material_data_vector@ == old(self).material_data_vector@,
            final(self).simulation_range_squared == old(self).simulation_range_squared,
    {
        let mut properties: Vec<MaterialProperties> = Vec::new();
        let mut index: usize = 0;
        while index < self.material_data_vector.len()
            invariant
                index <= self.material_data_vector.len(),
                values.len() == self.material_data_vector.len(),
                *self == *old(self),
                properties.len() == index,
                forall|i: int|
                    0 <= i < index ==> #[trigger] properties@[i] == entry_of(
                        self.material_data_vector@[i],
                        values@[i],
                    ),
            decreases self.material_data_vector.len() - index,
        {
            let entry = values[index];
            let mut material_properties = MaterialProperties::default();
            material_properties.get_properties(
                &self.material_data_vector[index],
                entry.fission,
                entry.scattering,
                entry.absorption,
                entry.nu_bar,
                entry.watt_a,
                entry.watt_b,
            );
            properties.push(material_properties);
            index += 1;
        }
        self.cached_material_properties = properties;
        self.cache_initialized = true;
    }

    /// Checks that the shares of the constituents of every part sum to one;
    /// `sums` holds the sum for every part. Gives the first part whose sum is
    /// not one.
    pub fn check_material_fractions_sum(&self, sums: &Vec<Real>) -> (result: Result<(), usize>)
        requires
            sums.len() == self.parts_vector.len(),
        ensures
            result is Ok <==> forall|i: int|
                0 <= i < sums.len() ==> (#[trigger] sums[i]).equals(Real { key: ONE_KEY }),
            result is Err ==> {
                let first = result->Err_0;
                &&& first < sums.len()
                &&& !sums[first as int].equals(Real { key: ONE_KEY })
                &&& forall|i: int|
                    0 <= i < first ==> (#[trigger] sums[i]).equals(Real { key: ONE_KEY })
            },
    {
        let mut index: usize = 0;
        while index < sums.len()
            invariant
                index <= sums.len(),
                forall|i: int|
                    0 <= i < index ==> (#[trigger] sums[i]).equals(Real { key: ONE_KEY }),
            decreases sums.len() - index,
        {
            if !sums[index].equals(Real { key: ONE_KEY }) {
                return Err(index);
            }
            index += 1;
        }
        Ok(())
    }

    /// Finds the part that is met at a position: of the parts that hold the
    /// position, the one of the highest order, and of several of that order
    /// the first. `measures` holds the measure of the position for every
    /// part.
    pub fn find_part(&self, neutron_position: &Vec3D, measures: &Vec<PartMeasure>) -> (winner:
        Option<usize>)
        requires
            measures.len() == self.parts_vector.len(),
        ensures
            winner is Some ==> is_winner(
                self.parts_vector@,
                *neutron_position,
                measures@,
                winner.unwrap() as int,
            ),
            winner is None ==> forall|j: int|
                !eligible(self.parts_vector@, *neutron_position, measures@, j),
            winner == part_met(self.parts_vector@, *neutron_position, measures@),
    {
        let mut maximum_order = i32::MIN;
        let mut winner: Option<usize> = None;
        let mut index: usize = 0;
        while index < self.parts_vector.len()
            invariant
                index <= self.parts_vector.len(),
                measures.len() == self.parts_vector.len(),
                winner is None ==> forall|j: int|
                    0 <= j < index ==> !eligible(
                        self.parts_vector@,
                        *neutron_position,
                        measures@,
                        j,
                    ),
                winner is Some ==> winner.unwrap() < index && maximum_order
                    == self.parts_vector@[winner.unwrap() as int].order_of() && eligible(
                    self.parts_vector@,
                    *neutron_position,
                    measures@,
                    winner.unwrap() as int,
                ) && (forall|j: int|
                    0 <= j < index && eligible(self.parts_vector@, *neutron_position, measures@, j)
                        ==> (#[trigger] self.parts_vector@[j]).order_of() <= maximum_order)
                    && (forall|j: int|
                    0 <= j < winner.unwrap() && eligible(
                        self.parts_vector@,
                        *neutron_position,
                        measures@,
                        j,
                    ) ==> (#[trigger] self.parts_vector@[j]).order_of() < maximum_order),
            decreases self.parts_vector.len() - index,
        {
            let part = &self.parts_vector[index];
            let is_inside = part.is_inside(neutron_position, measures[index]);
            let order = part.order();
            if is_inside && (winner.is_none() || order > maximum_order) {
                maximum_order = order;
                winner = Some(index);
            }
            index += 1;
        }
        proof {
            lemma_part_met(self.parts_vector@, *neutron_position, measures@, winner);
        }
        winner
    }

    /// Determines which isotope of a composition the neutron meets.
    ///
    /// Constituent `i` has the window that ends at `cumulative_shares[i]`, its
    /// share of the total cross-section of the composition added to the
    /// shares before it, and starts where the window before it ends, the
    /// first at zero. The isotope is that of the first window that holds the
    /// draw; void where none does.
    pub fn select_material_from_composition(
        &self,
        part_composition_vector: &Vec<PartComposition>,
        cumulative_shares: &Vec<Real>,
        material_selection_criterion: Real,
    ) -> (material_index: usize)
        requires
            cumulative_shares.len() == part_composition_vector.len(),
        ensures
            material_index == selected_material(
                part_composition_vector@,
                cumulative_shares@,
                material_selection_criterion,
            ),
            material_index < MATERIAL_COUNT,
    {
        let mut cumulative_probability = Real::zero();
        let mut index: usize = 0;
        while index < part_composition_vector.len()
            invariant
                index <= part_composition_vector.len(),
                cumulative_shares.len() == part_composition_vector.len(),
                cumulative_probability == window_start(cumulative_shares@, index as int),
                selected_among(
                    part_composition_vector@,
                    cumulative_shares@,
                    material_selection_criterion,
                    index as int,
                ) is None,
            decreases part_composition_vector.len() - index,
        {
            let upper = cumulative_shares[index];
            if material_selection_criterion.ge(cumulative_probability)
                && material_selection_criterion.lt(upper) {
                let cached_material_vector_index = map_enum_to_indices(
                    &part_composition_vector[index].material_name,
                );
                proof {
                    lemma_selection_stays(
                        part_composition_vector@,
                        cumulative_shares@,
                        material_selection_criterion,
                        index + 1,
                        part_composition_vector.len() as int,
                    );
                }
                return cached_material_vector_index;
            }
            cumulative_probability = upper;
            index += 1;
        }
        0
    }

    /// The isotope that the neutron meets at a position, with the total
    /// cross-section of the composition there. The part met is the one of the
    /// highest order that holds the position. `composition_total_cross_section`
    /// and `cumulative_shares` are those of the composition of that part.
    /// Outside all parts, and where the total cross-section is not above
    /// zero, the neutron meets void and the total cross-section is zero.
    pub fn get_material_index(
        &self,
        neutron_position: &Vec3D,
        measures: &Vec<PartMeasure>,
        composition_total_cross_section: Real,
        cumulative_shares: &Vec<Real>,
        material_selection_criterion: Real,
    ) -> (result: (usize, Real))
        requires
            measures.len() == self.parts_vector.len(),
            part_met(self.parts_vector@, *neutron_position, measures@) is Some
                ==> cumulative_shares.len() == self.parts_vector@[part_met(
                self.parts_vector@,
                *neutron_position,
                measures@,
            ).unwrap() as int].composition_of().len(),
        ensures
            result == self.material_at(
                part_met(self.parts_vector@, *neutron_position, measures@),
                composition_total_cross_section,
                cumulative_shares@,
                material_selection_criterion,
            ),
            result.0 < MATERIAL_COUNT,
    {
        match self.find_part(neutron_position, measures) {
            None => (0, Real::zero()),
            Some(part_index) => {
                if !composition_total_cross_section.gt(Real::zero()) {
                    return (0, Real::zero());
                }
                let composition = self.parts_vector[part_index].composition();
                let max_material_index = self.select_material_from_composition(
                    composition,
                    cumulative_shares,
                    material_selection_criterion,
                );
                (max_material_index, composition_total_cross_section)
            },
        }
    }

    /// The isotope met, and the total cross-section of the composition, for
    /// the part met at a position.
    pub open spec fn material_at(
        self,
        winning_part: Option<usize>,
        composition_total_cross_section: Real,
        cumulative: Seq<Real>,
        criterion: Real,
    ) -> (usize, Real) {
        match winning_part {
            None => (0, Real { key: 0 }),
            Some(part_index) => if (Real { key: 0 }).lt(composition_total_cross_section) {
                (
                    selected_material(
                        self.parts_vector@[part_index as int].composition_of(),
                        cumulative,
                        criterion,
                    ),
                    composition_total_cross_section,
                )
            } else {
                (0, Real { key: 0 })
            },
        }
    }

    /// The cached properties of an isotope.
    pub fn get_material_properties(&self, material_index: usize) -> (properties: &MaterialProperties)
        requires
            self.cache_initialized,
            material_index < self.cached_material_properties.len(),
        ensures
            *properties == self.cached_material_properties@[material_index as int],
    {
        &self.cached_material_properties[material_index]
    }
}

/// Once a draw has selected an isotope among the first constituents, more
/// constituents do not change the selection.
pub proof fn lemma_selection_stays(
    composition: Seq<PartComposition>,
    cumulative: Seq<Real>,
    criterion: Real,
    count: int,
    more: int,
)
    requires
        0 <= count <= more,
        selected_among(composition, cumulative, criterion, count) is Some,
    ensures
        selected_among(composition, cumulative, criterion, more) == selected_among(
            composition,
            cumulative,
            criterion,
            count,
        ),
    decreases more - count,
{
    if count < more {
        lemma_selection_stays(composition, cumulative, criterion, count, more - 1);
    }
}

/// With the total cross-section zero, as in void, the neutron meets void
/// whatever the draw.
pub proof fn lemma_void_meets_void(
    components: Components,
    winning_part: Option<usize>,
    cumulative: Seq<Real>,
    criterion: Real,
)
    ensures
        components.material_at(winning_part, Real { key: 0 }, cumulative, criterion) == (
            0usize,
            Real { key: 0 },
        ),
{
}

/// A part of negative order leaves the range of interest as it is.
pub proof fn lemma_background_excluded(parts: Seq<PartTypes>, corners: Seq<(Real, Real)>, count: int)
    requires
        0 < count <= parts.len(),
        parts[count - 1].order_of() <= -1,
    ensures
        range_of(parts, corners, count) == range_of(parts, corners, count - 1),
{
}

/// Where all corner distances are numbers, the range of interest is a number
/// not below zero, and no corner of a part whose order is not negative lies
/// beyond it.
pub proof fn lemma_range_covers(parts: Seq<PartTypes>, corners: Seq<(Real, Real)>, count: int)
    requires
        0 <= count <= parts.len(),
        count <= corners.len(),
        forall|i: int|
            0 <= i < count ==> (#[trigger] corners[i]).0.is_number() && corners[i].1.is_number(),
    ensures
        range_of(parts, corners, count).is_number(),
        range_of(parts, corners, count).key >= 0,
        forall|i: int|
            0 <= i < count && parts[i].order_of() > -1 ==> (#[trigger] corners[i]).0.le(
                range_of(parts, corners, count),
            ) && corners[i].1.le(range_of(parts, corners, count)),
    decreases count,
{
    if count > 0 {
        lemma_range_covers(parts, corners, count - 1);
        assert(corners[count - 1].0.is_number());
    }
}

} // verus!
