use vstd::prelude::*;
use crate::diagnostics::geometry_diagnostics::{lemma_index_in_array, GeometryDiagnostics};
use crate::heat_diffusion::heat_diffusion::create_temperature_array;
use crate::heat_diffusion::{HeatDiffusion, SimulationDirections, TemperatureData};
use crate::utils::config_loading::HeatDiffusionParametersTOML;
use crate::utils::reals::Real;
use crate::utils::vectors::Vec3D;

verus! {

/// The key of the greatest number for which an explicit step in three
/// dimensions is stable: one sixth.
pub const STABILITY_LIMIT_KEY: i64 = 0x3FC5_5555_5555_5555;

/// The key of the least finite number, below which no temperature lies.
pub const LEAST_TEMPERATURE_KEY: i64 = -0x7FEF_FFFF_FFFF_FFFF;

/// A cell, by its bin numbers along the three axes.
pub type Cell = (usize, usize, usize);

/// Whether a cell comes before another when cells are counted along z
/// first, then along y, then along x.
pub open spec fn precedes(first: Cell, second: Cell) -> bool {
    first.0 < second.0 || (first.0 == second.0 && (first.1 < second.1 || (first.1 == second.1
        && first.2 < second.2)))
}

/// The neighbour of a cell across a face. North and south lie along y, east
/// and west along x, top and bottom along z.
pub open spec fn neighbour_of(direction: SimulationDirections, cell: Cell) -> (int, int, int) {
    match direction {
        SimulationDirections::North => (cell.0 as int, cell.1 + 1, cell.2 as int),
        SimulationDirections::South => (cell.0 as int, cell.1 - 1, cell.2 as int),
        SimulationDirections::East => (cell.0 + 1, cell.1 as int, cell.2 as int),
        SimulationDirections::West => (cell.0 - 1, cell.1 as int, cell.2 as int),
        SimulationDirections::Top => (cell.0 as int, cell.1 as int, cell.2 + 1),
        SimulationDirections::Bottom => (cell.0 as int, cell.1 as int, cell.2 - 1),
    }
}

/// A face between two cells: its two edges, whose product is its area, and
/// the distance between the centres of the two cells.
#[derive(Clone, Copy, Debug, PartialEq, Eq, Structural)]
pub struct Face {
    pub first_side: Real,
    pub second_side: Real,
    pub node_distance: Real,
}

/// The heat that crosses a face into a cell in unit time, as what it is to be
/// worked out from.
#[derive(Clone, Copy, Debug, PartialEq, Eq, Structural)]
pub enum InterfaceFlux {
    /// The neighbour takes part: heat is conducted. With the mean of the
    /// conductivities of the two materials, the flux is that mean times the
    /// area times `temperature_adjacent - temperature_center`, divided by the
    /// distance.
    Conduction {
        center_material: usize,
        adjacent_material: usize,
        face: Face,
        temperature_center: Real,
        temperature_adjacent: Real,
    },
    /// The neighbour is coolant: heat is carried off. The flux is the
    /// coefficient of convective heat transfer times the area times
    /// `external_temperature - temperature_center`, divided by the distance.
    Convection { face: Face, temperature_center: Real, external_temperature: Real },
}

/// The number of events that fell in the bin at `index`, among the first
/// `count` events; an event that fell outside the grid has no bin.
pub open spec fn events_in_bin(bins: Seq<Option<usize>>, index: int, count: int) -> int
    decreases count,
{
    if count <= 0 {
        0
    } else {
        events_in_bin(bins, index, count - 1) + if bins[count - 1] == Some(index as usize) {
            1int
        } else {
            0int
        }
    }
}

/// The greatest of the first `count` temperatures, and of the least finite
/// number.
pub open spec fn greatest_of(temperatures: Seq<Real>, count: int) -> Real
    decreases count,
{
    if count <= 0 {
        Real { key: LEAST_TEMPERATURE_KEY }
    } else {
        let so_far = greatest_of(temperatures, count - 1);
        if so_far.lt(temperatures[count - 1]) {
            temperatures[count - 1]
        } else {
            so_far
        }
    }
}

impl SimulationDirections {
    /// The six faces, in the order in which their fluxes are added up.
    pub fn all_directions() -> (directions: Vec<SimulationDirections>)
        ensures
            directions@ == seq![
                SimulationDirections::North,
                SimulationDirections::South,
                SimulationDirections::East,
                SimulationDirections::West,
                SimulationDirections::Top,
                SimulationDirections::Bottom,
            ],
    {
        let mut directions: Vec<SimulationDirections> = Vec::new();
        directions.push(SimulationDirections::North);
        directions.push(SimulationDirections::South);
        directions.push(SimulationDirections::East);
        directions.push(SimulationDirections::West);
        directions.push(SimulationDirections::Top);
        directions.push(SimulationDirections::Bottom);
        proof {
            assert(directions@ =~= seq![
                SimulationDirections::North,
                SimulationDirections::South,
                SimulationDirections::East,
                SimulationDirections::West,
                SimulationDirections::Top,
                SimulationDirections::Bottom,
            ]);
        }
        directions
    }
}

impl TemperatureData {
    /// One row of the temperature history.
    pub fn new(time: Real, mean_temperature: Real, maximum_temperature: Real) -> (data:
        TemperatureData)
        ensures
            data == (TemperatureData { time, mean_temperature, maximum_temperature }),
    {
        TemperatureData { time, mean_temperature, maximum_temperature }
    }
}

/// Whether a step is stable for a material whose diffusivity times the step
/// in time, divided by the square of the step in space, is `cfl_number`.
pub fn cfl_is_stable(cfl_number: Real) -> (stable: bool)
    ensures
        stable == cfl_number.le(Real { key: STABILITY_LIMIT_KEY }),
{
    cfl_number.le(Real { key: STABILITY_LIMIT_KEY })
}

/// Checks the stability of the step for every material; gives the first
/// material for which it is not stable.
pub fn check_stability(cfl_numbers: &Vec<Real>) -> (result: Result<(), usize>)
    ensures
        result is Ok <==> forall|i: int|
            0 <= i < cfl_numbers.len() ==> (#[trigger] cfl_numbers[i]).le(
                Real { key: STABILITY_LIMIT_KEY },
            ),
        result is Err ==> {
            let first = result->Err_0;
            &&& first < cfl_numbers.len()
            &&& !cfl_numbers[first as int].le(Real { key: STABILITY_LIMIT_KEY })
            &&& forall|i: int|
                0 <= i < first ==> (#[trigger] cfl_numbers[i]).le(
                    Real { key: STABILITY_LIMIT_KEY },
                )
        },
{
    let mut index: usize = 0;
    while index < cfl_numbers.len()
        invariant
            index <= cfl_numbers.len(),
            forall|i: int|
                0 <= i < index ==> (#[trigger] cfl_numbers[i]).le(
                    Real { key: STABILITY_LIMIT_KEY },
                ),
        decreases cfl_numbers.len() - index,
    {
        if !cfl_is_stable(cfl_numbers[index]) {
            return Err(index);
        }
        index += 1;
    }
    Ok(())
}

impl HeatDiffusion {
    /// The arrays are flat arrays over the grid, and the grid has a cell
    /// along every axis.
    pub open spec fn well_formed(self) -> bool {
        &&& self.geometry.well_formed()
        &&& self.geometry.length_count >= 1
        &&& self.geometry.depth_count >= 1
        &&& self.geometry.height_count >= 1
        &&& self.material_index_array.len() == self.geometry.cell_count()
        &&& self.temperature_array.len() == self.geometry.cell_count()
        &&& self.temperature_array_new.len() == self.geometry.cell_count()
        &&& self.fission_source_array.len() == self.geometry.cell_count()
    }

    /// Whether a cell has a neighbour across each of its faces that is itself
    /// a cell of the grid: it does not lie in the outer ring.
    pub open spec fn is_interior(self, cell: Cell) -> bool {
        &&& 1 <= cell.0 && cell.0 + 1 < self.geometry.length_count
        &&& 1 <= cell.1 && cell.1 + 1 < self.geometry.depth_count
        &&& 1 <= cell.2 && cell.2 + 1 < self.geometry.height_count
    }

    /// The place of a cell in the flat arrays.
    pub open spec fn place_of(self, cell: Cell) -> int {
        self.geometry.index_of(cell.0 as int, cell.1 as int, cell.2 as int)
    }

    /// Whether a material takes part in the solution.
    pub open spec fn is_relevant(self, material_index: usize) -> bool {
        material_index >= self.minimum_relevant_property_index
    }

    /// Whether a cell is one that the solver works on: inside the outer ring,
    /// and of a material that takes part.
    pub open spec fn takes_part(self, cell: Cell) -> bool {
        self.is_interior(cell) && self.is_relevant(self.material_index_array@[self.place_of(cell)])
    }

    /// Whether a list holds exactly the cells inside the outer ring, or, with
    /// `only_relevant`, exactly those of them that take part; each once, in
    /// the order in which cells are counted.
    pub open spec fn lists_cells(self, cells: Seq<Cell>, only_relevant: bool) -> bool {
        &&& forall|k: int|
            0 <= k < cells.len() ==> self.is_interior(#[trigger] cells[k]) && (only_relevant
                ==> self.takes_part(cells[k]))
        &&& forall|cell: Cell|
            self.is_interior(cell) && (only_relevant ==> self.takes_part(cell))
                ==> #[trigger] cells.contains(cell)
        &&& forall|i: int, j: int|
            0 <= i < j < cells.len() ==> precedes(#[trigger] cells[i], #[trigger] cells[j])
    }

    /// The solver on a grid, before anything is laid out on it: all arrays
    /// are empty.
    pub fn new(
        geometry: GeometryDiagnostics,
        parameters: HeatDiffusionParametersTOML,
        cell_volume: Real,
        time_steps: u64,
        source_term_constant: Real,
    ) -> (solver: HeatDiffusion)
        ensures
            solver.geometry == geometry,
            solver.parameters == parameters,
            solver.cell_volume == cell_volume,
            solver.time_steps == time_steps,
            solver.source_term_constant == source_term_constant,
            solver.t_delta == parameters.t_delta,
            solver.t_end == parameters.t_end,
            solver.minimum_relevant_property_index == parameters.minimum_relevant_property_index,
            solver.simulation_directions@ == seq![
                SimulationDirections::North,
                SimulationDirections::South,
                SimulationDirections::East,
                SimulationDirections::West,
                SimulationDirections::Top,
                SimulationDirections::Bottom,
            ],
            solver.fission_source_array@.len() == 0,
            solver.relevant_tuples@.len() == 0,
            solver.material_index_array@.len() == 0,
            solver.temperature_array@.len() == 0,
            solver.temperature_array_new@.len() == 0,
            solver.temperature_data_array@.len() == 0,
    {
        let t_delta = parameters.t_delta;
        let t_end = parameters.t_end;
        let minimum_relevant_property_index = parameters.minimum_relevant_property_index;
        HeatDiffusion {
            geometry,
            parameters,
            fission_source_array: Vec::new(),
            simulation_directions: SimulationDirections::all_directions(),
            t_delta,
            t_end,
            time_steps,
            minimum_relevant_property_index,
            cell_volume,
            material_index_array: Vec::new(),
            temperature_array: Vec::new(),
            temperature_array_new: Vec::new(),
            source_term_constant,
            relevant_tuples: Vec::new(),
            temperature_data_array: Vec::new(),
        }
    }

    /// A flat array over the grid with zero in every cell.
    pub fn create_grid_array(&self) -> (array: Vec<Real>)
        requires
            self.geometry.well_formed(),
        ensures
            array.len() == self.geometry.cell_count(),
            forall|i: int| 0 <= i < array.len() ==> (#[trigger] array[i]).key == 0,
    {
        create_temperature_array(&self.geometry, Real::zero())
    }

    /// A flat array over the grid with the index of void in every cell.
    pub fn create_index_array(&self) -> (array: Vec<usize>)
        requires
            self.geometry.well_formed(),
        ensures
            array.len() == self.geometry.cell_count(),
            forall|i: int| 0 <= i < array.len() ==> #[trigger] array[i] == 0,
    {
        let size = match self.geometry.array_size() {
            Some(size) => size,
            None => 0,
        };
        let mut array: Vec<usize> = Vec::new();
        let mut index: usize = 0;
        while index < size
            invariant
                index <= size,
                array.len() == index,
                forall|i: int| 0 <= i < index ==> #[trigger] array[i] == 0,
            decreases size - index,
        {
            array.push(0);
            index += 1;
        }
        array
    }

    /// Whether a cell is one that the solver works on.
    pub fn is_relevant_cell(&self, cell: Cell) -> (relevant: bool)
        requires
            self.geometry.well_formed(),
            self.material_index_array.len() == self.geometry.cell_count(),
            self.geometry.holds_bins(cell),
        ensures
            relevant == self.is_relevant(self.material_index_array@[self.place_of(cell)]),
    {
        let center_index = self.geometry.cell_index(cell);
        self.material_index_array[center_index] >= self.minimum_relevant_property_index
    }

    /// Lists the cells inside the outer ring of the grid, or, with
    /// `only_relevant`, those of them that take part in the solution.
    #[verifier::loop_isolation(false)]
    pub fn collect_cells(&self, only_relevant: bool) -> (cells: Vec<Cell>)
        requires
            self.geometry.well_formed(),
            only_relevant ==> self.material_index_array.len() == self.geometry.cell_count(),
        ensures
            self.lists_cells(cells@, only_relevant),
    {
        let mut cells: Vec<Cell> = Vec::new();
        let length = self.geometry.length_count;
        let depth = self.geometry.depth_count;
        let height = self.geometry.height_count;
        if length < 3 || depth < 3 || height < 3 {
            return cells;
        }
        let mut x_bin: usize = 1;
        while x_bin + 1 < length
            invariant
                1 <= x_bin < length,
                forall|k: int|
                    0 <= k < cells.len() ==> self.is_interior(#[trigger] cells[k]) && (only_relevant
                        ==> self.takes_part(cells[k])) && cells[k].0 < x_bin,
                forall|cell: Cell|
                    self.is_interior(cell) && (only_relevant ==> self.takes_part(cell)) && cell.0
                        < x_bin ==> #[trigger] cells@.contains(cell),
                forall|i: int, j: int|
                    0 <= i < j < cells.len() ==> precedes(#[trigger] cells[i], #[trigger] cells[j]),
            decreases length - x_bin,
        {
            let mut y_bin: usize = 1;
            while y_bin + 1 < depth
                invariant
                    1 <= x_bin && x_bin + 1 < length,
                    1 <= y_bin < depth,
                    forall|k: int|
                        0 <= k < cells.len() ==> self.is_interior(#[trigger] cells[k]) && (
                        only_relevant ==> self.takes_part(cells[k])) && precedes(
                            cells[k],
                            (x_bin, y_bin, 1usize),
                        ),
                    forall|cell: Cell|
                        self.is_interior(cell) && (only_relevant ==> self.takes_part(cell))
                            && precedes(cell, (x_bin, y_bin, 1usize)) ==> #[trigger] cells@.contains(
                            cell,
                        ),
                    forall|i: int, j: int|
                        0 <= i < j < cells.len() ==> precedes(
                            #[trigger] cells[i],
                            #[trigger] cells[j],
                        ),
                decreases depth - y_bin,
            {
                let mut z_bin: usize = 1;
                while z_bin + 1 < height
                    invariant
                        1 <= x_bin && x_bin + 1 < length,
                        1 <= y_bin && y_bin + 1 < depth,
                        1 <= z_bin < height,
                        forall|k: int|
                            0 <= k < cells.len() ==> self.is_interior(#[trigger] cells[k]) && (
                            only_relevant ==> self.takes_part(cells[k])) && precedes(
                                cells[k],
                                (x_bin, y_bin, z_bin),
                            ),
                        forall|cell: Cell|
                            self.is_interior(cell) && (only_relevant ==> self.takes_part(cell))
                                && precedes(cell, (x_bin, y_bin, z_bin))
                                ==> #[trigger] cells@.contains(cell),
                        forall|i: int, j: int|
                            0 <= i < j < cells.len() ==> precedes(
                                #[trigger] cells[i],
                                #[trigger] cells[j],
                            ),
                    decreases height - z_bin,
                {
                    let cell: Cell = (x_bin, y_bin, z_bin);
                    let wanted = !only_relevant || self.is_relevant_cell(cell);
                    let ghost before = cells@;
                    if wanted {
                        cells.push(cell);
                    }
                    proof {
                        assert forall|other: Cell|
                            self.is_interior(other) && (only_relevant ==> self.takes_part(other))
                                && precedes(other, (x_bin, y_bin, (z_bin + 1) as usize)) implies
                            #[trigger] cells@.contains(other) by {
                            if other == cell {
                                assert(cells@[before.len() as int] == cell);
                            } else {
                                assert(precedes(other, (x_bin, y_bin, z_bin)));
                                assert(before.contains(other));
                                let k = choose|k: int| 0 <= k < before.len() && before[k] == other;
                                assert(cells@[k] == other);
                            }
                        }
                    }
                    z_bin += 1;
                }
                y_bin += 1;
            }
            x_bin += 1;
        }
        cells
    }

    /// The material array once the materials found at the centres of the
    /// first `count` listed cells have been laid out.
    pub open spec fn laid_out(
        self,
        array: Seq<usize>,
        cells: Seq<Cell>,
        materials: Seq<usize>,
        count: int,
    ) -> Seq<usize>
        decreases count,
    {
        if count <= 0 {
            array
        } else {
            self.laid_out(array, cells, materials, count - 1).update(
                self.place_of(cells[count - 1]),
                materials[count - 1],
            )
        }
    }

    /// Lays the materials out on the grid: `materials` holds, for every cell
    /// of `cells`, the index of the material found at its centre.
    pub fn create_property_array(&mut self, cells: &Vec<Cell>, materials: &Vec<usize>)
        requires
            old(self).geometry.well_formed(),
            old(self).material_index_array.len() == old(self).geometry.cell_count(),
            cells.len() == materials.len(),
            forall|k: int| 0 <= k < cells.len() ==> old(self).geometry.holds_bins(#[trigger] cells[k]),
        ensures
            final(self).material_index_array@ == old(self).laid_out(
                old(self).material_index_array@,
                cells@,
                materials@,
                cells.len() as int,
            ),
            final(self).material_index_array.len() == old(self).material_index_array.len(),
            final(self).geometry == old(self).geometry,
            final(self).minimum_relevant_property_index == old(self).minimum_relevant_property_index,
            final(self).temperature_array@ == old(self).temperature_array@,
            final(self).temperature_array_new@ == old(self).temperature_array_new@,
            final(self).fission_source_array@ == old(self).fission_source_array@,
            final(self).relevant_tuples@ == old(self).relevant_tuples@,
            final(self).temperature_data_array@ == old(self).temperature_data_array@,
    {
        let mut index: usize = 0;
        while index < cells.len()
            invariant
                index <= cells.len(),
                cells.len() == materials.len(),
                self.geometry == old(self).geometry,
                self.geometry.well_formed(),
                self.material_index_array.len() == self.geometry.cell_count(),
                forall|k: int|
                    0 <= k < cells.len() ==> self.geometry.holds_bins(#[trigger] cells[k]),
                self.material_index_array@ == old(self).laid_out(
                    old(self).material_index_array@,
                    cells@,
                    materials@,
                    index as int,
                ),
                self.minimum_relevant_property_index == old(self).minimum_relevant_property_index,
                self.temperature_array@ == old(self).temperature_array@,
                self.temperature_array_new@ == old(self).temperature_array_new@,
                self.fission_source_array@ == old(self).fission_source_array@,
                self.relevant_tuples@ == old(self).relevant_tuples@,
                self.temperature_data_array@ == old(self).temperature_data_array@,
            decreases cells.len() - index,
        {
            let cell = cells[index];
            let center_index = self.geometry.cell_index(cell);
            self.material_index_array.set(center_index, materials[index]);
            index += 1;
        }
    }

    /// The temperatures at the start: the internal temperature in every cell
    /// of a material that takes part, the external temperature elsewhere.
    pub fn initial_temperatures(&self) -> (temperatures: Vec<Real>)
        ensures
            temperatures.len() == self.material_index_array.len(),
            forall|i: int|
                0 <= i < temperatures.len() ==> #[trigger] temperatures[i] == if self.is_relevant(
                    self.material_index_array@[i],
                ) {
                    self.parameters.initial_internal_temperature
                } else {
                    self.parameters.external_temperature
                },
    {
        let mut temperatures: Vec<Real> = Vec::new();
        let mut index: usize = 0;
        while index < self.material_index_array.len()
            invariant
                index <= self.material_index_array.len(),
                temperatures.len() == index,
                forall|i: int|
                    0 <= i < index ==> #[trigger] temperatures[i] == if self.is_relevant(
                        self.material_index_array@[i],
                    ) {
                        self.parameters.initial_internal_temperature
                    } else {
                        self.parameters.external_temperature
                    },
            decreases self.material_index_array.len() - index,
        {
            if self.material_index_array[index] >= self.minimum_relevant_property_index {
                temperatures.push(self.parameters.initial_internal_temperature);
            } else {
                temperatures.push(self.parameters.external_temperature);
            }
            index += 1;
        }
        temperatures
    }

    /// Counts the fission events per bin. `bins` holds, for every event, the
    /// place of the bin it fell in, or nothing for an event outside the grid.
    pub fn load_fission_source(&self, bins: &Vec<Option<usize>>) -> (counts: Vec<u64>)
        requires
            self.geometry.well_formed(),
            bins.len() <= u64::MAX,
            forall|k: int|
                0 <= k < bins.len() && (#[trigger] bins[k]) is Some ==> bins[k].unwrap()
                    < self.geometry.cell_count(),
        ensures
            counts.len() == self.geometry.cell_count(),
            forall|i: int|
                0 <= i < counts.len() ==> #[trigger] counts[i] == events_in_bin(
                    bins@,
                    i,
                    bins.len() as int,
                ),
    {
        let size = match self.geometry.array_size() {
            Some(size) => size,
            None => 0,
        };
        let mut counts: Vec<u64> = Vec::new();
        let mut index: usize = 0;
        while index < size
            invariant
                index <= size,
                counts.len() == index,
                forall|i: int| 0 <= i < index ==> #[trigger] counts[i] == 0,
            decreases size - index,
        {
            counts.push(0);
            index += 1;
        }
        let mut event: usize = 0;
        while event < bins.len()
            invariant
                event <= bins.len(),
                bins.len() <= u64::MAX,
                counts.len() == self.geometry.cell_count(),
                forall|k: int|
                    0 <= k < bins.len() && (#[trigger] bins[k]) is Some ==> bins[k].unwrap()
                        < self.geometry.cell_count(),
                forall|i: int|
                    0 <= i < counts.len() ==> #[trigger] counts[i] == events_in_bin(
                        bins@,
                        i,
                        event as int,
                    ),
                forall|i: int|
                    0 <= i < counts.len() ==> 0 <= #[trigger] events_in_bin(bins@, i, event as int)
                        <= event,
            decreases bins.len() - event,
        {
            proof {
                assert forall|i: int| 0 <= i < counts.len() implies 0 <= #[trigger] events_in_bin(
                    bins@,
                    i,
                    event + 1,
                ) <= event + 1 by {
                    assert(0 <= events_in_bin(bins@, i, event as int) <= event);
                }
            }
            if let Some(fission_bin_index) = bins[event] {
                let count = counts[fission_bin_index];
                counts.set(fission_bin_index, count + 1);
            }
            event += 1;
        }
        counts
    }

    /// The edges of the face of a cell across which a direction leads; their
    /// product is the area of the face.
    pub fn interface_sides(&self, direction: &SimulationDirections) -> (sides: (Real, Real))
        ensures
            sides == self.sides_of(*direction),
    {
        match direction {
            SimulationDirections::North | SimulationDirections::South => (
                self.geometry.delta_x,
                self.geometry.delta_z,
            ),
            SimulationDirections::East | SimulationDirections::West => (
                self.geometry.delta_y,
                self.geometry.delta_z,
            ),
            SimulationDirections::Top | SimulationDirections::Bottom => (
                self.geometry.delta_x,
                self.geometry.delta_y,
            ),
        }
    }

    /// The edges of the face across which a direction leads.
    pub open spec fn sides_of(self, direction: SimulationDirections) -> (Real, Real) {
        match direction {
            SimulationDirections::North | SimulationDirections::South => (
                self.geometry.delta_x,
                self.geometry.delta_z,
            ),
            SimulationDirections::East | SimulationDirections::West => (
                self.geometry.delta_y,
                self.geometry.delta_z,
            ),
            SimulationDirections::Top | SimulationDirections::Bottom => (
                self.geometry.delta_x,
                self.geometry.delta_y,
            ),
        }
    }

    /// The distance between the centres of a cell and its neighbour in a
    /// direction: the extent of a cell along the axis of that direction.
    pub open spec fn distance_of(self, direction: SimulationDirections) -> Real {
        match direction {
            SimulationDirections::North | SimulationDirections::South => self.geometry.delta_y,
            SimulationDirections::East | SimulationDirections::West => self.geometry.delta_x,
            SimulationDirections::Top | SimulationDirections::Bottom => self.geometry.delta_z,
        }
    }

    /// The distance between the centres of a cell and its neighbour in a
    /// direction.
    pub fn node_distance(&self, direction: &SimulationDirections) -> (distance: Real)
        ensures
            distance == self.distance_of(*direction),
    {
        match direction {
            SimulationDirections::North | SimulationDirections::South => self.geometry.delta_y,
            SimulationDirections::East | SimulationDirections::West => self.geometry.delta_x,
            SimulationDirections::Top | SimulationDirections::Bottom => self.geometry.delta_z,
        }
    }

    /// The face across which a direction leads.
    pub open spec fn face_of(self, direction: SimulationDirections) -> Face {
        Face {
            first_side: self.sides_of(direction).0,
            second_side: self.sides_of(direction).1,
            node_distance: self.distance_of(direction),
        }
    }

    /// The place in the flat arrays of the neighbour of a cell across a face.
    pub open spec fn neighbour_place(self, direction: SimulationDirections, cell: Cell) -> int {
        let neighbour = neighbour_of(direction, cell);
        self.geometry.index_of(neighbour.0, neighbour.1, neighbour.2)
    }

    /// The place in the flat arrays of the neighbour of a cell across a face.
    pub fn neighbour_index(&self, direction: &SimulationDirections, cell: Cell) -> (index: usize)
        requires
            self.geometry.well_formed(),
            self.is_interior(cell),
        ensures
            index == self.neighbour_place(*direction, cell),
            index < self.geometry.cell_count(),
    {
        let (x_bin, y_bin, z_bin) = cell;
        match direction {
            SimulationDirections::North => self.geometry.cell_index((x_bin, y_bin + 1, z_bin)),
            SimulationDirections::South => self.geometry.cell_index((x_bin, y_bin - 1, z_bin)),
            SimulationDirections::East => self.geometry.cell_index((x_bin + 1, y_bin, z_bin)),
            SimulationDirections::West => self.geometry.cell_index((x_bin - 1, y_bin, z_bin)),
            SimulationDirections::Top => self.geometry.cell_index((x_bin, y_bin, z_bin + 1)),
            SimulationDirections::Bottom => self.geometry.cell_index((x_bin, y_bin, z_bin - 1)),
        }
    }

    /// What the flux across a face of a cell is to be worked out from.
    pub open spec fn flux_of(self, direction: SimulationDirections, cell: Cell) -> InterfaceFlux {
        let center = self.place_of(cell);
        let adjacent = self.neighbour_place(direction, cell);
        if self.is_relevant(self.material_index_array@[adjacent]) {
            InterfaceFlux::Conduction {
                center_material: self.material_index_array@[center],
                adjacent_material: self.material_index_array@[adjacent],
                face: self.face_of(direction),
                temperature_center: self.temperature_array@[center],
                temperature_adjacent: self.temperature_array@[adjacent],
            }
        } else {
            InterfaceFlux::Convection {
                face: self.face_of(direction),
                temperature_center: self.temperature_array@[center],
                external_temperature: self.parameters.external_temperature,
            }
        }
    }

    /// Says what the flux of heat across a face of a cell is to be worked out
    /// from: conduction to a neighbour that takes part, convection to one
    /// that is coolant.
    pub fn calculate_interface_flux(&self, direction: &SimulationDirections, cell: Cell) -> (flux:
        InterfaceFlux)
        requires
            self.well_formed(),
            self.is_interior(cell),
        ensures
            flux == self.flux_of(*direction, cell),
    {
        let center_index = self.geometry.cell_index(cell);
        let index = self.neighbour_index(direction, cell);
        let sides = self.interface_sides(direction);
        let face = Face {
            first_side: sides.0,
            second_side: sides.1,
            node_distance: self.node_distance(direction),
        };

        let temperature_center = self.temperature_array[center_index];
        let temperature_adjacent = self.temperature_array[index];

        let property_index_center = self.material_index_array[center_index];
        let property_index_adjacent = self.material_index_array[index];

        if property_index_adjacent >= self.minimum_relevant_property_index {
            InterfaceFlux::Conduction {
                center_material: property_index_center,
                adjacent_material: property_index_adjacent,
                face,
                temperature_center,
                temperature_adjacent,
            }
        } else {
            InterfaceFlux::Convection {
                face,
                temperature_center,
                external_temperature: self.parameters.external_temperature,
            }
        }
    }

    /// The temperatures of the listed cells, in the order of the list.
    pub open spec fn listed_temperatures(self) -> Seq<Real> {
        Seq::new(
            self.relevant_tuples@.len(),
            |k: int| self.temperature_array@[self.place_of(self.relevant_tuples@[k])],
        )
    }

    /// The cells on the list are cells of the grid inside its outer ring.
    pub open spec fn list_is_interior(self) -> bool {
        forall|k: int|
            0 <= k < self.relevant_tuples@.len() ==> self.is_interior(
                #[trigger] self.relevant_tuples@[k],
            )
    }

    /// Looks the listed cells over before a step: gives their greatest
    /// temperature, or, where a temperature is no number any more, the place
    /// on the list of the first such cell.
    pub fn survey_temperatures(&self) -> (result: Result<Real, usize>)
        requires
            self.well_formed(),
            self.list_is_interior(),
        ensures
            result is Ok <==> forall|k: int|
                0 <= k < self.relevant_tuples@.len() ==> (
                #[trigger] self.listed_temperatures()[k]).is_number(),
            result is Ok ==> result->Ok_0 == greatest_of(
                self.listed_temperatures(),
                self.relevant_tuples@.len() as int,
            ),
            result is Err ==> result->Err_0 < self.relevant_tuples@.len()
                && !self.listed_temperatures()[result->Err_0 as int].is_number() && forall|k: int|
                0 <= k < result->Err_0 ==> (#[trigger] self.listed_temperatures()[k]).is_number(),
    {
        let mut maximum_temperature = Real { key: LEAST_TEMPERATURE_KEY };
        let mut index: usize = 0;
        while index < self.relevant_tuples.len()
            invariant
                index <= self.relevant_tuples.len(),
                self.well_formed(),
                self.list_is_interior(),
                maximum_temperature == greatest_of(self.listed_temperatures(), index as int),
                forall|k: int|
                    0 <= k < index ==> (#[trigger] self.listed_temperatures()[k]).is_number(),
            decreases self.relevant_tuples.len() - index,
        {
            let cell = self.relevant_tuples[index];
            proof {
                assert(self.is_interior(self.relevant_tuples@[index as int]));
            }
            let center_index = self.geometry.cell_index(cell);
            let temperature_center = self.temperature_array[center_index];
            proof {
                assert(self.listed_temperatures()[index as int] == temperature_center);
            }
            if temperature_center.gt(maximum_temperature) {
                maximum_temperature = temperature_center;
            }
            if temperature_center.is_nan() {
                return Err(index);
            }
            index += 1;
        }
        Ok(maximum_temperature)
    }

    /// Whether a step is one of those at which temperatures are written
    /// out: its number is a multiple of the interval.
    pub open spec fn on_interval(time_index: i64, interval: i64) -> bool {
        if interval > 0 {
            time_index as int % interval as int == 0
        } else {
            time_index as int % (-interval) as int == 0
        }
    }

    /// Whether the temperatures are to be written out at a step.
    pub fn is_write_step(&self, time_index: i64) -> (write: bool)
        requires
            self.parameters.write_interval != 0,
            time_index >= 0,
        ensures
            write == (Self::on_interval(time_index, self.parameters.write_interval)
                && self.parameters.save_files),
    {
        if !self.parameters.save_files {
            return false;
        }
        let interval = self.parameters.write_interval;
        if interval > 0 {
            time_index % interval == 0
        } else if interval == i64::MIN {
            time_index == 0
        } else {
            let positive: i64 = -interval;
            time_index % positive == 0
        }
    }

    /// The temperature array once the new temperatures of the first `count`
    /// listed cells have been written into it.
    pub open spec fn written(self, array: Seq<Real>, updates: Seq<Real>, count: int) -> Seq<Real>
        decreases count,
    {
        if count <= 0 {
            array
        } else {
            self.written(array, updates, count - 1).update(
                self.place_of(self.relevant_tuples@[count - 1]),
                updates[count - 1],
            )
        }
    }

    /// Takes a step: writes the new temperature of every listed cell into the
    /// array that is not in use, lets the two arrays change roles, and adds a
    /// row to the temperature history.
    pub fn apply_step(
        &mut self,
        updates: &Vec<Real>,
        time: Real,
        mean_temperature: Real,
        maximum_temperature: Real,
    )
        requires
            old(self).well_formed(),
            old(self).list_is_interior(),
            updates.len() == old(self).relevant_tuples.len(),
        ensures
            final(self).temperature_array@ == old(self).written(
                old(self).temperature_array_new@,
                updates@,
                updates.len() as int,
            ),
            final(self).temperature_array_new@ == old(self).temperature_array@,
            final(self).temperature_data_array@ == old(self).temperature_data_array@.push(
                TemperatureData { time, mean_temperature, maximum_temperature },
            ),
            final(self).geometry == old(self).geometry,
            final(self).parameters == old(self).parameters,
            final(self).minimum_relevant_property_index == old(self).minimum_relevant_property_index,
            final(self).material_index_array@ == old(self).material_index_array@,
            final(self).fission_source_array@ == old(self).fission_source_array@,
            final(self).relevant_tuples@ == old(self).relevant_tuples@,
            final(self).well_formed(),
    {
        let mut index: usize = 0;
        while index < self.relevant_tuples.len()
            invariant
                index <= self.relevant_tuples.len(),
                updates.len() == self.relevant_tuples.len(),
                self.well_formed(),
                self.list_is_interior(),
                self.temperature_array_new@ == old(self).written(
                    old(self).temperature_array_new@,
                    updates@,
                    index as int,
                ),
                self.temperature_array@ == old(self).temperature_array@,
                self.temperature_data_array@ == old(self).temperature_data_array@,
                self.geometry == old(self).geometry,
                self.parameters == old(self).parameters,
                self.minimum_relevant_property_index == old(self).minimum_relevant_property_index,
                self.material_index_array@ == old(self).material_index_array@,
                self.fission_source_array@ == old(self).fission_source_array@,
                self.relevant_tuples@ == old(self).relevant_tuples@,
            decreases self.relevant_tuples.len() - index,
        {
            let cell = self.relevant_tuples[index];
            proof {
                assert(self.is_interior(self.relevant_tuples@[index as int]));
            }
            let center_index = self.geometry.cell_index(cell);
            self.temperature_array_new.set(center_index, updates[index]);
            index += 1;
        }
        std::mem::swap(&mut self.temperature_array, &mut self.temperature_array_new);
        self.temperature_data_array.push(
            TemperatureData::new(time, mean_temperature, maximum_temperature),
        );
    }

    /// The materials that are held to the limit of stability, among the
    /// first `material_count` materials: those that take part, in the order
    /// of their indices.
    pub open spec fn limited_materials(self, material_count: usize) -> Seq<usize> {
        Seq::new(
            if material_count > self.minimum_relevant_property_index {
                (material_count - self.minimum_relevant_property_index) as nat
            } else {
                0
            },
            |k: int| (self.minimum_relevant_property_index + k) as usize,
        )
    }

    /// Lists the materials that are held to the limit of stability, among the
    /// first `material_count` materials: every material that takes part, and
    /// no other.
    pub fn relevant_materials(&self, material_count: usize) -> (materials: Vec<usize>)
        ensures
            materials@ == self.limited_materials(material_count),
            forall|k: int|
                0 <= k < materials.len() ==> self.is_relevant(#[trigger] materials[k])
                    && materials[k] < material_count,
            forall|material: usize|
                material < material_count && self.is_relevant(material)
                    ==> #[trigger] materials@.contains(material),
    {
        let mut materials: Vec<usize> = Vec::new();
        let mut material: usize = self.minimum_relevant_property_index;
        while material < material_count
            invariant
                self.minimum_relevant_property_index <= material,
                material <= material_count || materials.len() == 0,
                materials.len() == material - self.minimum_relevant_property_index,
                forall|k: int|
                    0 <= k < materials.len() ==> #[trigger] materials[k]
                        == self.minimum_relevant_property_index + k,
            decreases material_count - material,
        {
            materials.push(material);
            material += 1;
        }
        proof {
            assert(materials@ =~= self.limited_materials(material_count));
            assert forall|wanted: usize|
                wanted < material_count && self.is_relevant(wanted) implies #[trigger] materials@.contains(
                wanted,
            ) by {
                assert(materials@[wanted - self.minimum_relevant_property_index] == wanted);
            }
        }
        materials
    }

    /// Lays the solver out for its first step: takes over the source of heat
    /// per cell, sets every temperature to its start value, and lists the
    /// cells that take part. The materials have been laid out before.
    ///
    /// `cfl_numbers` holds, for every one of the first `material_count`
    /// materials that takes part, in the order of `relevant_materials`, its
    /// diffusivity times the step in time, divided by the square of the step
    /// in space. A step that is not stable for one of them is refused: the
    /// first such material is handed back, and nothing is laid out.
    pub fn initialize_fvm(
        &mut self,
        fission_source_array: Vec<Real>,
        material_count: usize,
        cfl_numbers: &Vec<Real>,
    ) -> (result: Result<(), usize>)
        requires
            old(self).geometry.well_formed(),
            old(self).geometry.length_count >= 1,
            old(self).geometry.depth_count >= 1,
            old(self).geometry.height_count >= 1,
            old(self).material_index_array.len() == old(self).geometry.cell_count(),
            fission_source_array.len() == old(self).geometry.cell_count(),
            cfl_numbers.len() == old(self).limited_materials(material_count).len(),
        ensures
            result is Ok <==> forall|i: int|
                0 <= i < cfl_numbers.len() ==> (#[trigger] cfl_numbers[i]).le(
                    Real { key: STABILITY_LIMIT_KEY },
                ),
            result is Err ==> {
                let first = result->Err_0 - old(self).minimum_relevant_property_index;
                &&& 0 <= first < cfl_numbers.len()
                &&& result->Err_0 == old(self).limited_materials(material_count)[first]
                &&& !cfl_numbers[first].le(Real { key: STABILITY_LIMIT_KEY })
                &&& forall|i: int|
                    0 <= i < first ==> (#[trigger] cfl_numbers[i]).le(
                        Real { key: STABILITY_LIMIT_KEY },
                    )
                &&& *final(self) == *old(self)
            },
            result is Ok ==> {
                &&& final(self).well_formed()
                &&& final(self).list_is_interior()
                &&& final(self).lists_cells(final(self).relevant_tuples@, true)
                &&& final(self).fission_source_array@ == fission_source_array@
                &&& final(self).temperature_array_new@ == final(self).temperature_array@
                &&& forall|i: int|
                    0 <= i < final(self).temperature_array.len() ==> #[trigger] final(self).temperature_array[i] == if old(self).is_relevant(
                        old(self).material_index_array@[i],
                    ) {
                        old(self).parameters.initial_internal_temperature
                    } else {
                        old(self).parameters.external_temperature
                    }
            },
            final(self).material_index_array@ == old(self).material_index_array@,
            final(self).geometry == old(self).geometry,
            final(self).parameters == old(self).parameters,
            final(self).minimum_relevant_property_index == old(self).minimum_relevant_property_index,
            final(self).temperature_data_array@ == old(self).temperature_data_array@,
    {
        if let Err(first) = check_stability(cfl_numbers) {
            return Err(self.minimum_relevant_property_index + first);
        }
        self.fission_source_array = fission_source_array;
        self.temperature_array = self.initial_temperatures();
        self.temperature_array_new = self.initial_temperatures();
        proof {
            assert(self.temperature_array_new@ =~= self.temperature_array@);
        }
        self.relevant_tuples = self.collect_cells(true);
        Ok(())
    }
}

/// The flux across the west face is taken over the extent of a cell along x,
/// as across the east face: the two lie along the same axis.
pub proof fn lemma_west_uses_x(solver: HeatDiffusion)
    ensures
        solver.distance_of(SimulationDirections::West) == solver.geometry.delta_x,
        solver.distance_of(SimulationDirections::West) == solver.distance_of(
            SimulationDirections::East,
        ),
        solver.sides_of(SimulationDirections::West) == solver.sides_of(SimulationDirections::East),
{
}

/// The neighbours of a cell inside the outer ring are cells of the grid, so
/// that every one of them has its place in the flat arrays.
pub proof fn lemma_neighbour_in_grid(
    solver: HeatDiffusion,
    direction: SimulationDirections,
    cell: Cell,
)
    requires
        solver.is_interior(cell),
    ensures
        0 <= solver.neighbour_place(direction, cell) < solver.geometry.cell_count(),
{
    let neighbour = neighbour_of(direction, cell);
    lemma_index_in_array(
        solver.geometry.length_count as int,
        solver.geometry.depth_count as int,
        solver.geometry.height_count as int,
        neighbour.0,
        neighbour.1,
        neighbour.2,
    );
}

/// The greatest temperature is a number that none of the temperatures
/// exceeds, where all of them are numbers.
pub proof fn lemma_greatest_bounds(temperatures: Seq<Real>, count: int)
    requires
        0 <= count <= temperatures.len(),
        forall|k: int| 0 <= k < count ==> (#[trigger] temperatures[k]).is_number(),
    ensures
        greatest_of(temperatures, count).is_number(),
        forall|k: int|
            0 <= k < count ==> (#[trigger] temperatures[k]).le(greatest_of(temperatures, count)),
    decreases count,
{
    if count > 0 {
        lemma_greatest_bounds(temperatures, count - 1);
        assert(temperatures[count - 1].is_number());
    }
}

} // verus!
