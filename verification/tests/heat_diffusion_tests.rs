use nuclear::diagnostics::geometry_diagnostics::GeometryDiagnostics;
use nuclear::heat_diffusion::heat_diffusion::create_temperature_array;
use nuclear::heat_diffusion::heat_diffusion_rework::{
    cfl_is_stable, check_stability, Face, InterfaceFlux,
};
use nuclear::heat_diffusion::{HeatDiffusion, SimulationDirections, TemperatureData};
use nuclear::utils::config_loading::{GridBinParametersTOML, HeatDiffusionParametersTOML};
use nuclear::utils::reals::Real;
use nuclear::utils::vectors::Vec3D;

fn number(value: f64) -> Real {
    Real::from_bits(value.to_bits())
}

fn value(held: Real) -> f64 {
    f64::from_bits(held.to_bits())
}

fn point(x: f64, y: f64, z: f64) -> Vec3D {
    Vec3D { x: number(x), y: number(y), z: number(z) }
}

fn grid(counts: (usize, usize, usize)) -> GeometryDiagnostics {
    let parameters = GridBinParametersTOML {
        length_count: counts.0,
        depth_count: counts.1,
        height_count: counts.2,
        total_length: number(0.5),
        total_depth: number(1.0),
        total_height: number(2.0),
        center: point(0.0, 0.0, 0.0),
    };
    GeometryDiagnostics::new(
        parameters,
        point(-0.25, -0.5, -1.0),
        point(0.25, 0.5, 1.0),
        point(0.5 / counts.0 as f64, 1.0 / counts.1 as f64, 2.0 / counts.2 as f64),
    )
}

fn parameters() -> HeatDiffusionParametersTOML {
    HeatDiffusionParametersTOML {
        source_data_file: String::new(),
        minimum_relevant_property_index: 5,
        neutron_multiplier: number(1.0),
        initial_internal_temperature: number(300.0),
        external_temperature: number(300.0),
        t_delta: number(0.001),
        t_end: number(1.0),
        write_interval: 10,
        convective_heat_transfer_coefficient: number(1000.0),
        save_files: true,
    }
}

fn solver(counts: (usize, usize, usize), parameters: HeatDiffusionParametersTOML) -> HeatDiffusion {
    let mut solver = HeatDiffusion::new(grid(counts), parameters, number(1.0), 1000, number(1.0));
    solver.material_index_array = solver.create_index_array();
    solver
}

fn laid_out(counts: (usize, usize, usize), fuel: &[(usize, usize, usize)]) -> HeatDiffusion {
    let mut solver = solver(counts, parameters());
    let cells = solver.collect_cells(false);
    let materials: Vec<usize> =
        cells.iter().map(|cell| if fuel.contains(cell) { 5 } else { 3 }).collect();
    solver.create_property_array(&cells, &materials);
    let source = solver.create_grid_array();
    let numbers = vec![number(0.1); solver.relevant_materials(8).len()];
    assert_eq!(solver.initialize_fvm(source, 8, &numbers), Ok(()));
    solver
}

#[test]
fn there_are_six_directions() {
    assert_eq!(
        SimulationDirections::all_directions(),
        vec![
            SimulationDirections::North,
            SimulationDirections::South,
            SimulationDirections::East,
            SimulationDirections::West,
            SimulationDirections::Top,
            SimulationDirections::Bottom,
        ]
    );
}

#[test]
fn arrays_cover_the_grid_with_one_spare_row() {
    let solver = solver((5, 4, 3), parameters());
    assert_eq!(solver.create_grid_array().len(), 6 * 5 * 4);
    assert!(solver.create_grid_array().iter().all(|entry| value(*entry) == 0.0));
    assert_eq!(solver.create_index_array(), vec![0usize; 120]);
    let temperatures = create_temperature_array(&grid((5, 4, 3)), number(293.15));
    assert_eq!(temperatures.len(), 120);
    assert!(temperatures.iter().all(|entry| value(*entry) == 293.15));
    assert_eq!(solver.simulation_directions.len(), 6);
    assert_eq!(solver.minimum_relevant_property_index, 5);
    assert_eq!(solver.time_steps, 1000);
}

#[test]
fn cells_inside_the_outer_ring_are_listed_in_order() {
    let solver = solver((5, 4, 4), parameters());
    let cells = solver.collect_cells(false);
    let mut expected = Vec::new();
    for x in 1..4 {
        for y in 1..3 {
            for z in 1..3 {
                expected.push((x, y, z));
            }
        }
    }
    assert_eq!(cells, expected);
    assert!(self::solver((2, 5, 5), parameters()).collect_cells(false).is_empty());
    assert!(self::solver((0, 0, 0), parameters()).collect_cells(false).is_empty());
    assert_eq!(self::solver((3, 3, 3), parameters()).collect_cells(false), vec![(1, 1, 1)]);
}

#[test]
fn only_cells_of_relevant_material_take_part() {
    let fuel = [(1, 1, 1), (2, 1, 1), (2, 2, 2), (3, 2, 1)];
    let solver = laid_out((5, 4, 4), &fuel);
    assert_eq!(solver.relevant_tuples, vec![(1, 1, 1), (2, 1, 1), (2, 2, 2), (3, 2, 1)]);
    assert_eq!(solver.collect_cells(true), solver.relevant_tuples);
    let index = solver.geometry.bins_to_index(&2, &2, &2);
    assert_eq!(solver.material_index_array[index], 5);
    assert_eq!(solver.material_index_array[solver.geometry.bins_to_index(&1, &2, &2)], 3);
    assert_eq!(solver.material_index_array[0], 0);
    assert!(solver.is_relevant_cell((2, 2, 2)));
    assert!(!solver.is_relevant_cell((1, 2, 2)));
}

#[test]
fn temperatures_start_by_material() {
    let mut options = parameters();
    options.initial_internal_temperature = number(600.0);
    options.external_temperature = number(300.0);
    let mut solver = solver((5, 4, 4), options);
    let cells = solver.collect_cells(false);
    let materials: Vec<usize> = cells.iter().map(|cell| if cell.0 == 2 { 6 } else { 1 }).collect();
    solver.create_property_array(&cells, &materials);
    let source = solver.create_grid_array();
    assert_eq!(solver.initialize_fvm(source, 0, &Vec::new()), Ok(()));
    for (index, material) in solver.material_index_array.iter().enumerate() {
        let expected = if *material >= 5 { 600.0 } else { 300.0 };
        assert_eq!(value(solver.temperature_array[index]), expected);
        assert_eq!(value(solver.temperature_array_new[index]), expected);
    }
    assert_eq!(solver.relevant_tuples.len(), 4);
}

#[test]
fn faces_lie_across_their_own_axis() {
    let solver = laid_out((5, 4, 4), &[(2, 1, 1)]);
    let (dx, dy, dz) = (0.1, 0.25, 0.5);
    for (direction, sides, distance) in [
        (SimulationDirections::North, (dx, dz), dy),
        (SimulationDirections::South, (dx, dz), dy),
        (SimulationDirections::East, (dy, dz), dx),
        (SimulationDirections::West, (dy, dz), dx),
        (SimulationDirections::Top, (dx, dy), dz),
        (SimulationDirections::Bottom, (dx, dy), dz),
    ] {
        let found = solver.interface_sides(&direction);
        assert_eq!((value(found.0), value(found.1)), sides);
        assert_eq!(value(solver.node_distance(&direction)), distance);
    }
}

#[test]
fn neighbours_are_one_cell_away() {
    let solver = laid_out((5, 4, 4), &[(2, 1, 1)]);
    let cell = (2, 1, 1);
    let index = |x: usize, y: usize, z: usize| solver.geometry.bins_to_index(&x, &y, &z);
    assert_eq!(solver.neighbour_index(&SimulationDirections::North, cell), index(2, 2, 1));
    assert_eq!(solver.neighbour_index(&SimulationDirections::South, cell), index(2, 0, 1));
    assert_eq!(solver.neighbour_index(&SimulationDirections::East, cell), index(3, 1, 1));
    assert_eq!(solver.neighbour_index(&SimulationDirections::West, cell), index(1, 1, 1));
    assert_eq!(solver.neighbour_index(&SimulationDirections::Top, cell), index(2, 1, 2));
    assert_eq!(solver.neighbour_index(&SimulationDirections::Bottom, cell), index(2, 1, 0));
}

#[test]
fn the_flux_goes_by_the_neighbour() {
    let mut solver = laid_out((5, 4, 4), &[(2, 1, 1), (1, 1, 1)]);
    let center = solver.geometry.bins_to_index(&2, &1, &1);
    let west = solver.geometry.bins_to_index(&1, &1, &1);
    solver.temperature_array[center] = number(350.0);
    solver.temperature_array[west] = number(340.0);
    let face = Face { first_side: number(0.25), second_side: number(0.5), node_distance: number(0.1) };
    assert_eq!(
        solver.calculate_interface_flux(&SimulationDirections::West, (2, 1, 1)),
        InterfaceFlux::Conduction {
            center_material: 5,
            adjacent_material: 5,
            face,
            temperature_center: number(350.0),
            temperature_adjacent: number(340.0),
        }
    );
    assert_eq!(
        solver.calculate_interface_flux(&SimulationDirections::East, (2, 1, 1)),
        InterfaceFlux::Convection {
            face,
            temperature_center: number(350.0),
            external_temperature: number(300.0),
        }
    );
}

#[test]
fn a_uniform_field_without_source_stays_uniform() {
    let mut solver = laid_out((5, 4, 4), &[(2, 1, 1), (1, 1, 1), (2, 2, 2)]);
    let conductivity = 27.0;
    let coefficient = value(solver.parameters.convective_heat_transfer_coefficient);
    for step in 0..1000 {
        let maximum = solver.survey_temperatures().unwrap();
        assert_eq!(value(maximum), 300.0);
        let mut updates = Vec::new();
        let mut mean = 0.0;
        for cell in solver.relevant_tuples.clone() {
            let mut flux = 0.0;
            let mut center_temperature = 0.0;
            for direction in solver.simulation_directions.clone() {
                flux += match solver.calculate_interface_flux(&direction, cell) {
                    InterfaceFlux::Conduction { face, temperature_center, temperature_adjacent, .. } => {
                        center_temperature = value(temperature_center);
                        conductivity * value(face.first_side) * value(face.second_side)
                            * (value(temperature_adjacent) - value(temperature_center))
                            / value(face.node_distance)
                    }
                    InterfaceFlux::Convection { face, temperature_center, external_temperature } => {
                        center_temperature = value(temperature_center);
                        coefficient * value(face.first_side) * value(face.second_side)
                            * (value(external_temperature) - value(temperature_center))
                            / value(face.node_distance)
                    }
                };
            }
            mean += center_temperature;
            let source = value(solver.fission_source_array[solver.geometry.bins_to_index(&cell.0, &cell.1, &cell.2)]);
            let rate = (flux + source) / (19000.0 * 116.0 * 0.0125);
            updates.push(number(center_temperature + rate * 0.001));
        }
        mean /= solver.relevant_tuples.len() as f64;
        solver.apply_step(&updates, number(step as f64 * 0.001), number(mean), maximum);
    }
    assert_eq!(solver.temperature_data_array.len(), 1000);
    for temperature in solver.temperature_array.iter() {
        assert!((value(*temperature) - 300.0).abs() <= 1.0e-9);
    }
    let last = solver.temperature_data_array[999];
    assert_eq!(value(last.mean_temperature), 300.0);
    assert_eq!(value(last.maximum_temperature), 300.0);
}

#[test]
fn a_step_writes_the_listed_cells_and_swaps_the_arrays() {
    let mut solver = laid_out((5, 4, 4), &[(2, 1, 1), (1, 1, 1)]);
    let before = solver.temperature_array.clone();
    let first = solver.geometry.bins_to_index(&1, &1, &1);
    let second = solver.geometry.bins_to_index(&2, &1, &1);
    solver.apply_step(&vec![number(310.0), number(320.0)], number(0.0), number(300.0), number(300.0));
    assert_eq!(value(solver.temperature_array[first]), 310.0);
    assert_eq!(value(solver.temperature_array[second]), 320.0);
    assert_eq!(solver.temperature_array_new, before);
    for (index, temperature) in solver.temperature_array.iter().enumerate() {
        if index != first && index != second {
            assert_eq!(*temperature, before[index]);
        }
    }
    assert_eq!(
        solver.temperature_data_array,
        vec![TemperatureData::new(number(0.0), number(300.0), number(300.0))]
    );
    assert_eq!(value(solver.survey_temperatures().unwrap()), 320.0);
}

#[test]
fn a_temperature_that_is_no_number_is_found() {
    let mut solver = laid_out((5, 4, 4), &[(1, 1, 1), (2, 1, 1), (3, 1, 1)]);
    let second = solver.geometry.bins_to_index(&2, &1, &1);
    let third = solver.geometry.bins_to_index(&3, &1, &1);
    solver.temperature_array[third] = number(f64::NAN);
    assert_eq!(solver.survey_temperatures(), Err(2));
    solver.temperature_array[second] = number(f64::NAN);
    assert_eq!(solver.survey_temperatures(), Err(1));
}

#[test]
fn fission_events_are_counted_per_bin() {
    let solver = solver((5, 4, 4), parameters());
    let counts = solver.load_fission_source(&vec![Some(3), None, Some(7), Some(3), Some(149), Some(3)]);
    assert_eq!(counts.len(), 150);
    assert_eq!(counts[3], 3);
    assert_eq!(counts[7], 1);
    assert_eq!(counts[149], 1);
    assert_eq!(counts.iter().sum::<u64>(), 5);
    assert!(solver.load_fission_source(&Vec::new()).iter().all(|count| *count == 0));
}

#[test]
fn a_step_beyond_one_sixth_is_not_stable() {
    assert!(cfl_is_stable(number(1.0 / 6.0)));
    assert!(cfl_is_stable(number(0.1)));
    assert!(!cfl_is_stable(number(0.1667)));
    assert!(!cfl_is_stable(number(f64::NAN)));
    assert_eq!(check_stability(&vec![number(0.01), number(0.16), number(0.0)]), Ok(()));
    assert_eq!(check_stability(&vec![number(0.01), number(0.17), number(0.9)]), Err(1));
    assert_eq!(check_stability(&Vec::new()), Ok(()));
}

#[test]
fn an_unstable_step_is_refused_at_initialization() {
    let mut solver = solver((5, 4, 4), parameters());
    let cells = solver.collect_cells(false);
    let materials: Vec<usize> = cells.iter().map(|_| 5).collect();
    solver.create_property_array(&cells, &materials);
    let source = solver.create_grid_array();
    assert_eq!(solver.relevant_materials(8), vec![5, 6, 7]);
    assert_eq!(solver.relevant_materials(5), Vec::<usize>::new());
    assert_eq!(solver.relevant_materials(3), Vec::<usize>::new());
    let refused =
        solver.initialize_fvm(source, 8, &vec![number(0.1), number(0.1667), number(0.5)]);
    assert_eq!(refused, Err(6));
    assert!(solver.temperature_array.is_empty());
    assert!(solver.temperature_array_new.is_empty());
    assert!(solver.relevant_tuples.is_empty());
    assert!(solver.fission_source_array.is_empty());
    assert!(solver.temperature_data_array.is_empty());
    let source = solver.create_grid_array();
    assert_eq!(
        solver.initialize_fvm(source, 7, &vec![number(0.1), number(1.0 / 6.0)]),
        Ok(())
    );
    assert_eq!(solver.temperature_array.len(), 150);
    assert_eq!(solver.relevant_tuples.len(), cells.len());
}

#[test]
fn temperatures_are_written_at_the_interval() {
    let solver = solver((5, 4, 4), parameters());
    assert!(solver.is_write_step(0));
    assert!(!solver.is_write_step(5));
    assert!(solver.is_write_step(10));
    assert!(solver.is_write_step(1000));
    let mut options = parameters();
    options.save_files = false;
    let silent = self::solver((5, 4, 4), options);
    assert!(!silent.is_write_step(10));
    let mut options = parameters();
    options.write_interval = -4;
    let backwards = self::solver((5, 4, 4), options);
    assert!(backwards.is_write_step(8));
    assert!(!backwards.is_write_step(9));
}
