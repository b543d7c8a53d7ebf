use vstd::prelude::*;
use crate::utils::config_loading::GridBinParametersTOML;
use crate::utils::reals::Real;
use crate::utils::vectors::Vec3D;

verus! {

/// A box of space divided into bins: its bounds along each axis, the number
/// of bins along each axis, its extent and the extent of one bin.
#[derive(Clone, Copy, Debug, PartialEq, Eq, Structural)]
pub struct GeometryDiagnostics {
    pub x_min: Real,
    pub x_max: Real,
    pub y_min: Real,
    pub y_max: Real,
    pub z_min: Real,
    pub z_max: Real,
    pub length_count: usize,
    pub depth_count: usize,
    pub height_count: usize,
    pub total_length: Real,
    pub total_depth: Real,
    pub total_height: Real,
    pub delta_x: Real,
    pub delta_y: Real,
    pub delta_z: Real,
}

/// The place of bin `(x, y, z)` in a flat array over a grid with `length`
/// bins along x and `depth` bins along y.
pub open spec fn flat_index(length: int, depth: int, x: int, y: int, z: int) -> int {
    x + y * length + z * length * depth
}

/// The length of the flat array over a grid: one row more than there are bins
/// along each axis, so that a position on the upper bound of the box, and the
/// neighbour of a bin at the edge, still have a place in it.
pub open spec fn array_length(length: int, depth: int, height: int) -> int {
    (length + 1) * (depth + 1) * (height + 1)
}

/// Every bin number up to the count along its axis, the count included, has
/// its place inside the flat array.
pub proof fn lemma_index_in_array(length: int, depth: int, height: int, x: int, y: int, z: int)
    requires
        0 <= x <= length,
        0 <= y <= depth,
        0 <= z <= height,
    ensures
        0 <= flat_index(length, depth, x, y, z) < array_length(length, depth, height),
{
    assert(0 <= y * length <= depth * length) by (nonlinear_arith)
        requires
            0 <= y <= depth,
            0 <= length,
    ;
    assert(0 <= length * depth) by (nonlinear_arith)
        requires
            0 <= depth,
            0 <= length,
    ;
    assert(0 <= z * length * depth <= height * length * depth) by (nonlinear_arith)
        requires
            0 <= z <= height,
            0 <= length * depth,
    ;
    assert((length + 1) * (depth + 1) * (height + 1) == height * length * depth + length * depth
        + height * length + height * depth + length + depth + height + 1) by (nonlinear_arith);
    assert(0 <= height * length && 0 <= height * depth) by (nonlinear_arith)
        requires
            0 <= height,
            0 <= length,
            0 <= depth,
    ;
    assert(depth * length == length * depth) by (nonlinear_arith);
}

/// Two bins below the counts along x and y that share a place in the flat
/// array are one bin.
pub proof fn lemma_index_injective(
    length: int,
    depth: int,
    x1: int,
    y1: int,
    z1: int,
    x2: int,
    y2: int,
    z2: int,
)
    requires
        0 <= x1 < length,
        0 <= x2 < length,
        0 <= y1 < depth,
        0 <= y2 < depth,
        0 <= z1,
        0 <= z2,
        flat_index(length, depth, x1, y1, z1) == flat_index(length, depth, x2, y2, z2),
    ensures
        x1 == x2,
        y1 == y2,
        z1 == z2,
{
    let row1 = y1 + z1 * depth;
    let row2 = y2 + z2 * depth;
    assert(z1 * length * depth == (z1 * depth) * length) by (nonlinear_arith);
    assert(z2 * length * depth == (z2 * depth) * length) by (nonlinear_arith);
    assert(x1 + row1 * length == x2 + row2 * length) by (nonlinear_arith)
        requires
            x1 + y1 * length + (z1 * depth) * length == x2 + y2 * length + (z2 * depth) * length,
            row1 == y1 + z1 * depth,
            row2 == y2 + z2 * depth,
    ;
    assert(row1 == row2 && x1 == x2) by (nonlinear_arith)
        requires
            x1 + row1 * length == x2 + row2 * length,
            0 <= x1 < length,
            0 <= x2 < length,
    ;
    assert(z1 == z2 && y1 == y2) by (nonlinear_arith)
        requires
            y1 + z1 * depth == y2 + z2 * depth,
            0 <= y1 < depth,
            0 <= y2 < depth,
    ;
}

impl GeometryDiagnostics {
    /// The length of the flat array over this grid.
    pub open spec fn cell_count(self) -> int {
        array_length(
            self.length_count as int,
            self.depth_count as int,
            self.height_count as int,
        )
    }

    /// The flat array over this grid can be allocated.
    pub open spec fn well_formed(self) -> bool {
        self.cell_count() <= usize::MAX
    }

    /// The place of bin `(x, y, z)` in the flat array over this grid.
    pub open spec fn index_of(self, x: int, y: int, z: int) -> int {
        flat_index(self.length_count as int, self.depth_count as int, x, y, z)
    }

    /// Whether a position lies in the box, its bounds included: along no
    /// axis is it below the lower or above the upper bound.
    pub open spec fn contains(self, position: Vec3D) -> bool {
        &&& !position.x.lt(self.x_min) && !self.x_max.lt(position.x)
        &&& !position.y.lt(self.y_min) && !self.y_max.lt(position.y)
        &&& !position.z.lt(self.z_min) && !self.z_max.lt(position.z)
    }

    /// The bin numbers are those of a position in the box: none exceeds the
    /// count along its axis.
    pub open spec fn holds_bins(self, bins: (usize, usize, usize)) -> bool {
        &&& bins.0 <= self.length_count
        &&& bins.1 <= self.depth_count
        &&& bins.2 <= self.height_count
    }

    /// The grid of the given parameters, between the corners `lower` and
    /// `upper`, with bins of the extents `delta`.
    pub fn new(grid_bin_parameters: GridBinParametersTOML, lower: Vec3D, upper: Vec3D, delta: Vec3D) -> (grid:
        GeometryDiagnostics)
        ensures
            grid == (GeometryDiagnostics {
                x_min: lower.x,
                x_max: upper.x,
                y_min: lower.y,
                y_max: upper.y,
                z_min: lower.z,
                z_max: upper.z,
                length_count: grid_bin_parameters.length_count,
                depth_count: grid_bin_parameters.depth_count,
                height_count: grid_bin_parameters.height_count,
                total_length: grid_bin_parameters.total_length,
                total_depth: grid_bin_parameters.total_depth,
                total_height: grid_bin_parameters.total_height,
                delta_x: delta.x,
                delta_y: delta.y,
                delta_z: delta.z,
            }),
    {
        GeometryDiagnostics {
            x_min: lower.x,
            x_max: upper.x,
            y_min: lower.y,
            y_max: upper.y,
            z_min: lower.z,
            z_max: upper.z,
            length_count: grid_bin_parameters.length_count,
            depth_count: grid_bin_parameters.depth_count,
            height_count: grid_bin_parameters.height_count,
            total_length: grid_bin_parameters.total_length,
            total_depth: grid_bin_parameters.total_depth,
            total_height: grid_bin_parameters.total_height,
            delta_x: delta.x,
            delta_y: delta.y,
            delta_z: delta.z,
        }
    }

    /// The length of the flat array over this grid, where it can be
    /// allocated.
    pub fn array_size(&self) -> (size: Option<usize>)
        ensures
            size is Some <==> self.well_formed(),
            size is Some ==> size.unwrap() == self.cell_count(),
    {
        let length = match self.length_count.checked_add(1) {
            Some(length) => length,
            None => {
                proof {
                    lemma_array_length_grows(
                        self.length_count as int,
                        self.depth_count as int,
                        self.height_count as int,
                    );
                }
                return None;
            },
        };
        let depth = match self.depth_count.checked_add(1) {
            Some(depth) => depth,
            None => {
                proof {
                    lemma_array_length_grows(
                        self.length_count as int,
                        self.depth_count as int,
                        self.height_count as int,
                    );
                }
                return None;
            },
        };
        let height = match self.height_count.checked_add(1) {
            Some(height) => height,
            None => {
                proof {
                    lemma_array_length_grows(
                        self.length_count as int,
                        self.depth_count as int,
                        self.height_count as int,
                    );
                }
                return None;
            },
        };
        proof {
            lemma_array_length_grows(
                self.length_count as int,
                self.depth_count as int,
                self.height_count as int,
            );
        }
        let layer = match length.checked_mul(depth) {
            Some(layer) => layer,
            None => {
                return None;
            },
        };
        layer.checked_mul(height)
    }

    /// Whether a position lies in the box, its bounds included.
    pub fn is_inside(&self, neutron_position: Vec3D) -> (inside: bool)
        ensures
            inside == self.contains(neutron_position),
    {
        !(neutron_position.x.lt(self.x_min) || neutron_position.x.gt(self.x_max)
            || neutron_position.y.lt(self.y_min) || neutron_position.y.gt(self.y_max)
            || neutron_position.z.lt(self.z_min) || neutron_position.z.gt(self.z_max))
    }

    /// The place in the flat array of the bin that a position falls in, or
    /// nothing for a position outside the box.
    ///
    /// `bins` are the bin numbers of the position along the three axes: the
    /// share of the box that lies below the position, times the count, cut to
    /// a whole number. They are read only for a position in the box.
    pub fn get_current_bin(&self, neutron_position: Vec3D, bins: (usize, usize, usize)) -> (bin:
        Option<usize>)
        requires
            self.well_formed(),
            self.contains(neutron_position) ==> self.holds_bins(bins),
        ensures
            bin is Some <==> self.contains(neutron_position),
            bin is Some ==> bin.unwrap() == self.index_of(
                bins.0 as int,
                bins.1 as int,
                bins.2 as int,
            ),
            bin is Some ==> bin.unwrap() < self.cell_count(),
    {
        if self.is_inside(neutron_position) {
            Some(self.cell_index(bins))
        } else {
            None
        }
    }

    /// The place of bin `(x_bin, y_bin, z_bin)` in the flat array:
    /// `x_bin + y_bin * length_count + z_bin * length_count * depth_count`.
    /// For the numbers of a bin of the grid it is a place of the array.
    pub fn bins_to_index(&self, x_bin: &usize, y_bin: &usize, z_bin: &usize) -> (index: usize)
        requires
            self.index_of(*x_bin as int, *y_bin as int, *z_bin as int) <= usize::MAX,
        ensures
            index == self.index_of(*x_bin as int, *y_bin as int, *z_bin as int),
            self.well_formed() && self.holds_bins((*x_bin, *y_bin, *z_bin)) ==> index
                < self.cell_count(),
    {
        proof {
            let length = self.length_count as int;
            let depth = self.depth_count as int;
            let height = self.height_count as int;
            let row = *y_bin * length;
            let layer = *z_bin * length * depth;
            assert(0 <= row) by (nonlinear_arith)
                requires
                    row == *y_bin * length,
                    0 <= *y_bin,
                    0 <= length,
            ;
            assert(0 <= *z_bin * length) by (nonlinear_arith)
                requires
                    0 <= *z_bin,
                    0 <= length,
            ;
            assert(0 <= layer && (depth >= 1 ==> *z_bin * length <= layer)) by (nonlinear_arith)
                requires
                    layer == (*z_bin * length) * depth,
                    0 <= *z_bin * length,
                    0 <= depth,
            ;
            assert(depth == 0 ==> layer == 0) by (nonlinear_arith)
                requires
                    layer == (*z_bin * length) * depth,
            ;
            if self.holds_bins((*x_bin, *y_bin, *z_bin)) {
                lemma_index_in_array(
                    length,
                    depth,
                    height,
                    *x_bin as int,
                    *y_bin as int,
                    *z_bin as int,
                );
            }
        }
        let layer: usize = if self.depth_count == 0 {
            0
        } else {
            *z_bin * self.length_count * self.depth_count
        };
        *x_bin + *y_bin * self.length_count + layer
    }

    /// The place of a bin of the grid in the flat array.
    pub fn cell_index(&self, cell: (usize, usize, usize)) -> (index: usize)
        requires
            self.well_formed(),
            self.holds_bins(cell),
        ensures
            index == self.index_of(cell.0 as int, cell.1 as int, cell.2 as int),
            index < self.cell_count(),
    {
        proof {
            lemma_index_in_array(
                self.length_count as int,
                self.depth_count as int,
                self.height_count as int,
                cell.0 as int,
                cell.1 as int,
                cell.2 as int,
            );
        }
        self.bins_to_index(&cell.0, &cell.1, &cell.2)
    }
}

/// The flat array is at least as long as one more than each count.
proof fn lemma_array_length_grows(length: int, depth: int, height: int)
    requires
        0 <= length,
        0 <= depth,
        0 <= height,
    ensures
        array_length(length, depth, height) >= length + 1,
        array_length(length, depth, height) >= depth + 1,
        array_length(length, depth, height) >= height + 1,
        array_length(length, depth, height) >= (length + 1) * (depth + 1),
        (length + 1) * (depth + 1) >= length + 1,
{
    assert((length + 1) * (depth + 1) >= length + 1 && (length + 1) * (depth + 1) >= depth + 1)
        by (nonlinear_arith)
        requires
            0 <= length,
            0 <= depth,
    ;
    let layer = (length + 1) * (depth + 1);
    assert(layer * (height + 1) >= layer && layer * (height + 1) >= height + 1)
        by (nonlinear_arith)
        requires
            layer >= 1,
            0 <= height,
    ;
}

} // verus!
