use vstd::prelude::*;
use vstd::arithmetic::power2::{lemma2_to64, lemma_pow2_unfold, pow2};
use crate::utils::reals::Real;

verus! {

/// The most probes that a search is allowed before it gives up.
pub const MAX_SEARCH_ITERATIONS: usize = 100;

/// Where a search ended: the row it stopped at, the tabulated value there,
/// whether that value is the target itself, and the number of halvings made.
#[derive(Clone, Copy, Debug, PartialEq, Eq, Structural)]
pub struct BinarySearchResult {
    pub index: usize,
    pub value: Real,
    pub is_exact: bool,
    pub num_iterations: usize,
}

/// Each row lies strictly above the one before it.
pub open spec fn strictly_ascending(xs: Seq<Real>) -> bool {
    forall|i: int, j: int| 0 <= i < j < xs.len() ==> xs[i].lt(xs[j])
}

/// The target and every row of the table are numbers.
pub open spec fn comparable(xs: Seq<Real>, target: Real) -> bool {
    &&& target.is_number()
    &&& forall|i: int| 0 <= i < xs.len() ==> (#[trigger] xs[i]).is_number()
}

/// What the search gives from the window `[left, right)` after `steps`
/// halvings: it ends where the middle row holds the target or the window is a
/// single row, and it gives up when the allowed number of halvings is spent.
pub open spec fn search_from(
    xs: Seq<Real>,
    target: Real,
    left: int,
    right: int,
    steps: nat,
) -> Option<BinarySearchResult>
    decreases MAX_SEARCH_ITERATIONS - steps,
{
    let center = left + (right - left) / 2;
    if steps >= MAX_SEARCH_ITERATIONS || !(0 <= left < right <= xs.len()) {
        None
    } else if target.equals(xs[center]) {
        Some(
            BinarySearchResult {
                index: center as usize,
                value: xs[center],
                is_exact: true,
                num_iterations: steps as usize,
            },
        )
    } else if left == center {
        Some(
            BinarySearchResult {
                index: center as usize,
                value: xs[center],
                is_exact: false,
                num_iterations: steps as usize,
            },
        )
    } else {
        search_from(
            xs,
            target,
            if xs[center].lt(target) {
                center
            } else {
                left
            },
            if target.lt(xs[center]) {
                center
            } else {
                right
            },
            steps + 1,
        )
    }
}

/// What the search gives on the whole table.
pub open spec fn search_result(xs: Seq<Real>, target: Real) -> Option<BinarySearchResult> {
    search_from(xs, target, 0, xs.len() as int, 0)
}

/// The result names the row that brackets the target from below: the last row
/// that is not above the target, or the first row when the target lies below
/// the whole table.
pub open spec fn brackets(xs: Seq<Real>, target: Real, result: BinarySearchResult) -> bool {
    &&& result.index < xs.len()
    &&& result.value == xs[result.index as int]
    &&& result.is_exact <==> xs[result.index as int].equals(target)
    &&& result.index > 0 ==> xs[result.index as int].le(target)
    &&& result.index + 1 < xs.len() ==> target.lt(xs[result.index + 1])
}

/// On numbers the search ends, within as many halvings as a row number has
/// bits, at a row of the window it started from.
pub proof fn lemma_search_ends(xs: Seq<Real>, target: Real, left: int, right: int, steps: nat)
    requires
        comparable(xs, target),
        xs.len() <= usize::MAX,
        0 <= left < right <= xs.len(),
        steps <= 64,
        right - left <= pow2((64 - steps) as nat),
    ensures
        search_from(xs, target, left, right, steps) is Some,
        left <= search_from(xs, target, left, right, steps).unwrap().index < right,
        search_from(xs, target, left, right, steps).unwrap().num_iterations <= 64,
        search_from(xs, target, left, right, steps).unwrap().num_iterations >= steps,
    decreases right - left,
{
    let center = left + (right - left) / 2;
    assert(xs[center].is_number());
    if target.equals(xs[center]) {
    } else if left == center {
    } else {
        assert(right - left >= 2);
        if steps == 64 {
            lemma2_to64();
            assert(pow2(0) == 1);
        }
        lemma_pow2_unfold((64 - steps) as nat);
        if xs[center].lt(target) {
            lemma_search_ends(xs, target, center, right, steps + 1);
        } else {
            lemma_search_ends(xs, target, left, center, steps + 1);
        }
    }
}

/// On a strictly ascending table of numbers the search from a window that
/// still holds the bracketing row ends at that row.
pub proof fn lemma_search_brackets(xs: Seq<Real>, target: Real, left: int, right: int, steps: nat)
    requires
        strictly_ascending(xs),
        comparable(xs, target),
        xs.len() <= usize::MAX,
        0 <= left < right <= xs.len(),
        steps <= 64,
        right - left <= pow2((64 - steps) as nat),
        left > 0 ==> xs[left].lt(target),
        right < xs.len() ==> target.lt(xs[right]),
    ensures
        search_from(xs, target, left, right, steps) is Some,
        brackets(xs, target, search_from(xs, target, left, right, steps).unwrap()),
    decreases right - left,
{
    let center = left + (right - left) / 2;
    assert(xs[center].is_number());
    lemma_search_ends(xs, target, left, right, steps);
    if target.equals(xs[center]) {
        if center + 1 < xs.len() {
            assert(xs[center].lt(xs[center + 1]));
        }
    } else if left == center {
        assert(right == left + 1);
    } else {
        assert(right - left >= 2);
        if steps == 64 {
            lemma2_to64();
            assert(pow2(0) == 1);
        }
        lemma_pow2_unfold((64 - steps) as nat);
        if xs[center].lt(target) {
            lemma_search_brackets(xs, target, center, right, steps + 1);
        } else {
            lemma_search_brackets(xs, target, left, center, steps + 1);
        }
    }
}

/// On a strictly ascending table at most one row brackets a target, so the
/// bracketing row is the search result whatever else is known of it.
pub proof fn lemma_bracket_unique(
    xs: Seq<Real>,
    target: Real,
    first: BinarySearchResult,
    second: BinarySearchResult,
)
    requires
        strictly_ascending(xs),
        brackets(xs, target, first),
        brackets(xs, target, second),
    ensures
        first.index == second.index,
        first.value == second.value,
        first.is_exact == second.is_exact,
{
    if first.index < second.index {
        if first.index + 1 < second.index {
            assert(xs[first.index + 1].lt(xs[second.index as int]));
        }
    } else if second.index < first.index {
        if second.index + 1 < first.index {
            assert(xs[second.index + 1].lt(xs[first.index as int]));
        }
    }
}

/// Performs binary search for a target in a table.
///
/// The search halves a window of rows until the middle row holds the target
/// or the window is a single row. On numbers it always ends; on a strictly
/// ascending table of numbers it ends at the row that brackets the target
/// from below. A NaN compares with nothing, so a search that meets one may
/// use up its halvings and end with nothing.
pub fn binary_search(input_vector: &Vec<Real>, target_value: Real) -> (result: Option<
    BinarySearchResult,
>)
    requires
        input_vector.len() > 0,
    ensures
        result == search_result(input_vector@, target_value),
        comparable(input_vector@, target_value) ==> result is Some && result.unwrap().index
            < input_vector.len() && result.unwrap().num_iterations <= 64,
        comparable(input_vector@, target_value) && strictly_ascending(input_vector@) ==> brackets(
            input_vector@,
            target_value,
            result.unwrap(),
        ),
{
    let vector_length = input_vector.len();

    let mut left_index: usize = 0;
    let mut right_index: usize = vector_length;
    let mut iteration_counter: usize = 0;

    proof {
        lemma2_to64();
        if comparable(input_vector@, target_value) {
            lemma_search_ends(input_vector@, target_value, 0, vector_length as int, 0);
            if strictly_ascending(input_vector@) {
                lemma_search_brackets(input_vector@, target_value, 0, vector_length as int, 0);
            }
        }
    }

    while iteration_counter < MAX_SEARCH_ITERATIONS
        invariant
            vector_length == input_vector.len(),
            0 <= left_index < right_index <= vector_length,
            iteration_counter <= MAX_SEARCH_ITERATIONS,
            comparable(input_vector@, target_value) ==> search_result(
                input_vector@,
                target_value,
            ) is Some && search_result(input_vector@, target_value).unwrap().index
                < input_vector.len() && search_result(
                input_vector@,
                target_value,
            ).unwrap().num_iterations <= 64,
            comparable(input_vector@, target_value) && strictly_ascending(input_vector@)
                ==> brackets(
                input_vector@,
                target_value,
                search_result(input_vector@, target_value).unwrap(),
            ),
            search_result(input_vector@, target_value) == search_from(
                input_vector@,
                target_value,
                left_index as int,
                right_index as int,
                iteration_counter as nat,
            ),
        decreases MAX_SEARCH_ITERATIONS - iteration_counter,
    {
        let center_index = left_index + (right_index - left_index) / 2;
        let center_value = input_vector[center_index];

        if target_value.equals(center_value) {
            return Some(
                BinarySearchResult {
                    index: center_index,
                    value: center_value,
                    is_exact: true,
                    num_iterations: iteration_counter,
                },
            );
        }
        if left_index == center_index {
            return Some(
                BinarySearchResult {
                    index: center_index,
                    value: center_value,
                    is_exact: false,
                    num_iterations: iteration_counter,
                },
            );
        }
        if target_value.lt(center_value) {
            right_index = center_index;
        }
        if target_value.gt(center_value) {
            left_index = center_index
        }
        iteration_counter += 1;
    }
    None
}

/// How a value is read off a table at a target.
#[derive(Clone, Copy, Debug, PartialEq, Eq, Structural)]
pub enum Interpolation {
    /// The table holds a single row, which stands for no data: the value is zero.
    NoData,
    /// The target is a tabulated point: the value is the one tabulated there.
    Tabulated { value: Real },
    /// The target lies outside the table, beyond its last row or below its
    /// first: the value is the one tabulated at that end, and the caller is
    /// to be warned that the end of the table was hit.
    Clamped { value: Real },
    /// The value lies on the straight line through two neighbouring rows,
    /// `left_y + (right_y - left_y) / (right_x - left_x) * (target - left_x)`.
    Between { left_x: Real, right_x: Real, left_y: Real, right_y: Real },
}

/// The search result that goes with a table of no data.
pub open spec fn no_data_result() -> BinarySearchResult {
    BinarySearchResult { index: 0, value: Real { key: 0 }, is_exact: false, num_iterations: 0 }
}

/// How the value at `target` is read off the table `(xs, ys)`, given where the
/// search on `xs` ended.
pub open spec fn interpolation_at(
    xs: Seq<Real>,
    ys: Seq<Real>,
    target: Real,
    found: BinarySearchResult,
) -> Interpolation {
    let index = found.index as int;
    if found.is_exact {
        Interpolation::Tabulated { value: ys[index] }
    } else if index == xs.len() - 1 {
        Interpolation::Clamped { value: ys[index] }
    } else if index == 0 && target.lt(xs[0]) {
        Interpolation::Clamped { value: ys[0] }
    } else {
        Interpolation::Between {
            left_x: xs[index],
            right_x: xs[index + 1],
            left_y: ys[index],
            right_y: ys[index + 1],
        }
    }
}

/// How the value at `target` is read off the table `(xs, ys)`, and where the
/// search ended.
pub open spec fn interpolation_of(xs: Seq<Real>, ys: Seq<Real>, target: Real) -> (
    Interpolation,
    BinarySearchResult,
) {
    if ys.len() == 1 {
        (Interpolation::NoData, no_data_result())
    } else {
        let found = search_result(xs, target).unwrap();
        (interpolation_at(xs, ys, target, found), found)
    }
}

/// Reads a table at a target, by binary search and a straight line between
/// the two rows around the target. Outside the table the value is that of
/// the end of the table that was passed.
///
/// The arithmetic on the line is left to the caller: the result names the
/// rows to use, or the value itself where none is needed.
pub fn linear_interpolation(x_vector: &Vec<Real>, y_vector: &Vec<Real>, target_x: Real) -> (result:
    (Interpolation, BinarySearchResult))
    requires
        y_vector.len() == 1 || (0 < x_vector.len() <= y_vector.len() && comparable(
            x_vector@,
            target_x,
        )),
    ensures
        result == interpolation_of(x_vector@, y_vector@, target_x),
        y_vector.len() != 1 ==> result.1.index < x_vector.len(),
        y_vector.len() != 1 && strictly_ascending(x_vector@) ==> brackets(
            x_vector@,
            target_x,
            result.1,
        ),
{
    if y_vector.len() == 1 {
        let dummy_binary_search_result = BinarySearchResult {
            index: 0,
            value: Real { key: 0 },
            is_exact: false,
            num_iterations: 0,
        };
        return (Interpolation::NoData, dummy_binary_search_result);
    }
    let binary_search_result = match binary_search(x_vector, target_x) {
        Some(found) => found,
        None => BinarySearchResult {
            index: 0,
            value: Real { key: 0 },
            is_exact: false,
            num_iterations: 0,
        },
    };

    if binary_search_result.is_exact {
        return (
            Interpolation::Tabulated { value: y_vector[binary_search_result.index] },
            binary_search_result,
        );
    }
    if binary_search_result.index == x_vector.len() - 1 {
        return (
            Interpolation::Clamped { value: y_vector[binary_search_result.index] },
            binary_search_result,
        );
    }
    let target_index = binary_search_result.index;

    if target_index == 0 && target_x.lt(x_vector[0]) {
        return (Interpolation::Clamped { value: y_vector[0] }, binary_search_result);
    }
    let left_x = x_vector[target_index];
    let right_x = x_vector[target_index + 1];

    let left_y = y_vector[target_index];
    let right_y = y_vector[target_index + 1];

    (Interpolation::Between { left_x, right_x, left_y, right_y }, binary_search_result)
}

/// How the second Watt parameter is read off its table, given how the first
/// one was read and where the search on the energies ended.
pub open spec fn second_parameter_at(
    energies: Seq<Real>,
    bs: Seq<Real>,
    first: Interpolation,
    found: BinarySearchResult,
) -> Interpolation {
    let index = found.index as int;
    if first is Clamped {
        Interpolation::Clamped { value: bs[index] }
    } else if index + 1 >= energies.len() {
        Interpolation::Tabulated { value: bs[index] }
    } else {
        Interpolation::Between {
            left_x: energies[index],
            right_x: energies[index + 1],
            left_y: bs[index],
            right_y: bs[index + 1],
        }
    }
}

/// Reads both Watt parameters off their tables at one energy, given in MeV.
/// The search is made once, on the first parameter; the second is read
/// between the same two rows, or at the same end of the table where the
/// energy lies outside it.
pub fn get_watt_parameters(
    energy_vector: &Vec<Real>,
    a_vector: &Vec<Real>,
    b_vector: &Vec<Real>,
    mev_energy: Real,
) -> (result: (Interpolation, Interpolation))
    requires
        0 < energy_vector.len(),
        energy_vector.len() == a_vector.len(),
        energy_vector.len() == b_vector.len(),
        comparable(energy_vector@, mev_energy),
    ensures
        result.0 == interpolation_of(energy_vector@, a_vector@, mev_energy).0,
        result.1 == second_parameter_at(
            energy_vector@,
            b_vector@,
            result.0,
            interpolation_of(energy_vector@, a_vector@, mev_energy).1,
        ),
{
    let (a_value, binary_search_result) = linear_interpolation(
        energy_vector,
        a_vector,
        mev_energy,
    );

    let target_index = binary_search_result.index;

    if let Interpolation::Clamped { .. } = a_value {
        return (a_value, Interpolation::Clamped { value: b_vector[target_index] });
    }
    if target_index + 1 >= energy_vector.len() {
        return (a_value, Interpolation::Tabulated { value: b_vector[target_index] });
    }
    let left_x = energy_vector[target_index];
    let right_x = energy_vector[target_index + 1];

    let left_b = b_vector[target_index];
    let right_b = b_vector[target_index + 1];

    (a_value, Interpolation::Between { left_x, right_x, left_y: left_b, right_y: right_b })
}

/// Every row of a strictly ascending table of two rows or more is a number.
pub proof fn lemma_ascending_numbers(xs: Seq<Real>)
    requires
        strictly_ascending(xs),
        xs.len() >= 2,
    ensures
        forall|i: int| 0 <= i < xs.len() ==> (#[trigger] xs[i]).is_number(),
{
    assert forall|i: int| 0 <= i < xs.len() implies (#[trigger] xs[i]).is_number() by {
        if i == 0 {
            assert(xs[0].lt(xs[1]));
        } else {
            assert(xs[0].lt(xs[i]));
        }
    }
}

/// At a tabulated point of a strictly ascending table the value read is the
/// one tabulated there.
pub proof fn lemma_interpolation_at_row(xs: Seq<Real>, ys: Seq<Real>, row: int)
    requires
        strictly_ascending(xs),
        xs.len() == ys.len(),
        xs.len() <= usize::MAX,
        xs.len() >= 2,
        0 <= row < xs.len(),
    ensures
        interpolation_of(xs, ys, xs[row]).0 == (Interpolation::Tabulated { value: ys[row] }),
{
    lemma_ascending_numbers(xs);
    lemma2_to64();
    lemma_search_brackets(xs, xs[row], 0, xs.len() as int, 0);
    let found = search_result(xs, xs[row]).unwrap();
    let index = found.index as int;
    if index + 1 < row {
        assert(xs[index + 1].lt(xs[row]));
    } else if index > row {
        assert(xs[row].lt(xs[index]));
    }
}

/// Beyond the last row of a strictly ascending table the value read is the
/// last one tabulated, marked as clamped.
pub proof fn lemma_interpolation_beyond(xs: Seq<Real>, ys: Seq<Real>, target: Real)
    requires
        strictly_ascending(xs),
        xs.len() == ys.len(),
        xs.len() <= usize::MAX,
        xs.len() >= 2,
        xs[xs.len() - 1].lt(target),
    ensures
        interpolation_of(xs, ys, target).0 == (Interpolation::Clamped {
            value: ys[ys.len() - 1],
        }),
{
    lemma_ascending_numbers(xs);
    lemma2_to64();
    lemma_search_brackets(xs, target, 0, xs.len() as int, 0);
    let found = search_result(xs, target).unwrap();
    let index = found.index as int;
    if index + 2 < xs.len() {
        assert(xs[index + 1].lt(xs[xs.len() - 1]));
    }
}

/// Strictly between two neighbouring rows of a strictly ascending table the
/// value is read on the line through those two rows.
pub proof fn lemma_interpolation_between(xs: Seq<Real>, ys: Seq<Real>, target: Real, row: int)
    requires
        strictly_ascending(xs),
        xs.len() == ys.len(),
        xs.len() <= usize::MAX,
        0 <= row,
        row + 1 < xs.len(),
        xs[row].lt(target),
        target.lt(xs[row + 1]),
    ensures
        interpolation_of(xs, ys, target).0 == (Interpolation::Between {
            left_x: xs[row],
            right_x: xs[row + 1],
            left_y: ys[row],
            right_y: ys[row + 1],
        }),
{
    lemma_ascending_numbers(xs);
    lemma2_to64();
    lemma_search_brackets(xs, target, 0, xs.len() as int, 0);
    let found = search_result(xs, target).unwrap();
    let index = found.index as int;
    if index + 1 < row {
        assert(xs[index + 1].lt(xs[row]));
    } else if index > row + 1 {
        assert(xs[row + 1].lt(xs[index]));
    }
}

/// Below the first row of a strictly ascending table the value read is the
/// first one tabulated, marked as clamped.
pub proof fn lemma_interpolation_below(xs: Seq<Real>, ys: Seq<Real>, target: Real)
    requires
        strictly_ascending(xs),
        xs.len() == ys.len(),
        xs.len() <= usize::MAX,
        xs.len() >= 2,
        target.lt(xs[0]),
    ensures
        interpolation_of(xs, ys, target).0 == (Interpolation::Clamped { value: ys[0] }),
{
    lemma_ascending_numbers(xs);
    lemma2_to64();
    lemma_search_brackets(xs, target, 0, xs.len() as int, 0);
    let found = search_result(xs, target).unwrap();
    let index = found.index as int;
    if index > 0 {
        assert(xs[0].lt(xs[index]));
    }
}

/// Outside a strictly ascending table, on either side, both Watt parameters
/// are read at the end of the table that was passed, marked as clamped.
pub proof fn lemma_watt_outside(energies: Seq<Real>, a: Seq<Real>, b: Seq<Real>, target: Real)
    requires
        strictly_ascending(energies),
        energies.len() == a.len(),
        energies.len() == b.len(),
        energies.len() <= usize::MAX,
        energies.len() >= 2,
        target.lt(energies[0]) || energies[energies.len() - 1].lt(target),
    ensures
        target.lt(energies[0]) ==> interpolation_of(energies, a, target).0 == (
        Interpolation::Clamped { value: a[0] }) && second_parameter_at(
            energies,
            b,
            interpolation_of(energies, a, target).0,
            interpolation_of(energies, a, target).1,
        ) == (Interpolation::Clamped { value: b[0] }),
        energies[energies.len() - 1].lt(target) ==> interpolation_of(energies, a, target).0 == (
        Interpolation::Clamped { value: a[a.len() - 1] }) && second_parameter_at(
            energies,
            b,
            interpolation_of(energies, a, target).0,
            interpolation_of(energies, a, target).1,
        ) == (Interpolation::Clamped { value: b[b.len() - 1] }),
{
    lemma_ascending_numbers(energies);
    lemma2_to64();
    lemma_search_brackets(energies, target, 0, energies.len() as int, 0);
    let found = search_result(energies, target).unwrap();
    let index = found.index as int;
    assert(energies[0].lt(energies[energies.len() - 1]));
    if target.lt(energies[0]) {
        lemma_interpolation_below(energies, a, target);
        if index > 0 {
            assert(energies[0].lt(energies[index]));
        }
    } else {
        lemma_interpolation_beyond(energies, a, target);
        if index + 2 < energies.len() {
            assert(energies[index + 1].lt(energies[energies.len() - 1]));
        }
    }
}

} // verus!
