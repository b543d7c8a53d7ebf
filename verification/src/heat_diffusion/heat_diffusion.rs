use vstd::prelude::*;
use crate::diagnostics::geometry_diagnostics::GeometryDiagnostics;
use crate::utils::reals::Real;

verus! {

/// The place of bin `(x_bin, y_bin, z_bin)` in a flat array over the grid.
pub fn bins_to_index(x_bin: usize, y_bin: usize, z_bin: usize, geometry: &GeometryDiagnostics) -> (index:
    usize)
    requires
        geometry.index_of(x_bin as int, y_bin as int, z_bin as int) <= usize::MAX,
    ensures
        index == geometry.index_of(x_bin as int, y_bin as int, z_bin as int),
        geometry.well_formed() && geometry.holds_bins((x_bin, y_bin, z_bin)) ==> index
            < geometry.cell_count(),
{
    geometry.bins_to_index(&x_bin, &y_bin, &z_bin)
}

/// A flat array over the grid with one temperature in every cell.
pub fn create_temperature_array(geometry: &GeometryDiagnostics, default_value: Real) -> (array: Vec<
    Real,
>)
    requires
        geometry.well_formed(),
    ensures
        array.len() == geometry.cell_count(),
        forall|i: int| 0 <= i < array.len() ==> #[trigger] array[i] == default_value,
{
    let size = match geometry.array_size() {
        Some(size) => size,
        None => 0,
    };
    let mut array: Vec<Real> = Vec::new();
    let mut index: usize = 0;
    while index < size
        invariant
            index <= size,
            array.len() == index,
            forall|i: int| 0 <= i < index ==> #[trigger] array[i] == default_value,
        decreases size - index,
    {
        array.push(default_value);
        index += 1;
    }
    array
}

} // verus!
