use nuclear::materials::material_data::MaterialData;
use nuclear::materials::material_properties::{MaterialNames, MaterialProperties};
use nuclear::utils::data_handling::{
    binary_search, get_watt_parameters, linear_interpolation, Interpolation,
};
use nuclear::utils::reals::Real;

fn number(value: f64) -> Real {
    Real::from_bits(value.to_bits())
}

fn value(held: Real) -> f64 {
    f64::from_bits(held.to_bits())
}

fn reals(values: &[f64]) -> Vec<Real> {
    values.iter().map(|v| number(*v)).collect()
}

fn evaluate(reading: Interpolation, target: f64) -> f64 {
    match reading {
        Interpolation::NoData => 0.0,
        Interpolation::Tabulated { value: tabulated } => value(tabulated),
        Interpolation::Clamped { value: last } => value(last),
        Interpolation::Between { left_x, right_x, left_y, right_y } => {
            let derivative = (value(right_y) - value(left_y)) / (value(right_x) - value(left_x));
            value(left_y) + derivative * (target - value(left_x))
        }
    }
}

fn entry_of_values(data: &MaterialData) -> MaterialProperties {
    let mut entry = MaterialProperties::default();
    entry.get_properties(
        data,
        number(1.0),
        number(2.0),
        number(3.0),
        number(4.0),
        number(5.0),
        number(6.0),
    );
    assert_eq!(value(entry.fission), 1.0);
    assert_eq!(value(entry.scattering), 2.0);
    assert_eq!(value(entry.absorption), 3.0);
    assert_eq!(value(entry.nu_bar), 4.0);
    assert_eq!(value(entry.watt_a), 5.0);
    assert_eq!(value(entry.watt_b), 6.0);
    entry
}

#[test]
fn search_finds_a_tabulated_row() {
    let table = reals(&[1.0, 2.0, 4.0, 8.0, 16.0]);
    for (row, energy) in [1.0, 2.0, 4.0, 8.0, 16.0].iter().enumerate() {
        let found = binary_search(&table, number(*energy)).unwrap();
        assert_eq!(found.index, row);
        assert!(found.is_exact);
        assert_eq!(value(found.value), *energy);
    }
}

#[test]
fn search_brackets_from_below() {
    let table = reals(&[1.0, 2.0, 4.0, 8.0, 16.0]);
    let found = binary_search(&table, number(5.0)).unwrap();
    assert_eq!(found.index, 2);
    assert!(!found.is_exact);
    assert_eq!(value(found.value), 4.0);
    let found = binary_search(&table, number(1.5)).unwrap();
    assert_eq!((found.index, found.is_exact), (0, false));
    let found = binary_search(&table, number(15.9)).unwrap();
    assert_eq!((found.index, found.is_exact), (3, false));
}

#[test]
fn search_outside_the_table_ends_at_its_ends() {
    let table = reals(&[1.0, 2.0, 4.0, 8.0, 16.0]);
    let below = binary_search(&table, number(0.5)).unwrap();
    assert_eq!((below.index, below.is_exact), (0, false));
    let above = binary_search(&table, number(100.0)).unwrap();
    assert_eq!((above.index, above.is_exact), (4, false));
    assert_eq!(value(above.value), 16.0);
}

#[test]
fn search_counts_its_halvings() {
    let table = reals(&[1.0, 2.0, 4.0, 8.0, 16.0]);
    assert_eq!(binary_search(&table, number(4.0)).unwrap().num_iterations, 0);
    assert_eq!(binary_search(&table, number(2.0)).unwrap().num_iterations, 1);
    assert_eq!(binary_search(&table, number(1.0)).unwrap().num_iterations, 2);
    assert_eq!(binary_search(&table, number(100.0)).unwrap().num_iterations, 3);
    let single = reals(&[3.0]);
    let found = binary_search(&single, number(7.0)).unwrap();
    assert_eq!((found.index, found.is_exact, found.num_iterations), (0, false, 0));
}

#[test]
fn search_for_a_nan_gives_up() {
    let table = reals(&[1.0, 2.0, 4.0, 8.0, 16.0]);
    assert!(binary_search(&table, number(f64::NAN)).is_none());
}

#[test]
fn linear_table_is_read_exactly() {
    let energies = [0.0, 1.0, 2.0, 4.0, 8.0];
    let xs = reals(&energies);
    let ys: Vec<Real> = energies.iter().map(|e| number(3.0 * e + 2.0)).collect();
    for target in [0.0, 0.25, 0.5, 1.0, 1.5, 3.0, 4.0, 6.0, 8.0].iter() {
        let (reading, _) = linear_interpolation(&xs, &ys, number(*target));
        assert_eq!(evaluate(reading, *target), 3.0 * target + 2.0);
    }
    let (reading, found) = linear_interpolation(&xs, &ys, number(3.0));
    assert_eq!(
        reading,
        Interpolation::Between {
            left_x: number(2.0),
            right_x: number(4.0),
            left_y: number(8.0),
            right_y: number(14.0),
        }
    );
    assert_eq!(found.index, 2);
    let (reading, _) = linear_interpolation(&xs, &ys, number(4.0));
    assert_eq!(reading, Interpolation::Tabulated { value: number(14.0) });
}

#[test]
fn reading_beyond_the_table_is_clamped() {
    let xs = reals(&[0.0, 1.0, 2.0]);
    let ys = reals(&[5.0, 6.0, 9.0]);
    let (reading, found) = linear_interpolation(&xs, &ys, number(50.0));
    assert_eq!(reading, Interpolation::Clamped { value: number(9.0) });
    assert_eq!(found.index, 2);
    assert!(!found.is_exact);
    assert_eq!(evaluate(reading, 50.0), 9.0);
}

#[test]
fn reading_below_the_table_is_clamped() {
    let xs = reals(&[1.0, 2.0, 3.0]);
    let ys = reals(&[10.0, 20.0, 30.0]);
    let (reading, found) = linear_interpolation(&xs, &ys, number(0.0));
    assert_eq!(reading, Interpolation::Clamped { value: number(10.0) });
    assert_eq!(evaluate(reading, 0.0), 10.0);
    assert_eq!((found.index, found.is_exact), (0, false));
    let (reading, _) = linear_interpolation(&xs, &ys, number(0.5));
    assert_eq!(reading, Interpolation::Clamped { value: number(10.0) });
    // The first row itself is tabulated, and just above it the line is read.
    let (reading, _) = linear_interpolation(&xs, &ys, number(1.0));
    assert_eq!(reading, Interpolation::Tabulated { value: number(10.0) });
    let (reading, _) = linear_interpolation(&xs, &ys, number(1.25));
    assert_eq!(evaluate(reading, 1.25), 12.5);
}

#[test]
fn table_of_one_row_holds_no_data() {
    let xs = reals(&[0.0]);
    let ys = reals(&[0.0]);
    let (reading, found) = linear_interpolation(&xs, &ys, number(1.0e6));
    assert_eq!(reading, Interpolation::NoData);
    assert_eq!((found.index, found.is_exact, found.num_iterations), (0, false, 0));
    assert_eq!(value(found.value), 0.0);
}

#[test]
fn watt_parameters_share_one_bracket() {
    let energies = reals(&[0.0, 1.0, 2.0]);
    let a = reals(&[0.9, 1.0, 1.1]);
    let b = reals(&[2.0, 2.2, 2.6]);
    let (a_reading, b_reading) = get_watt_parameters(&energies, &a, &b, number(1.5));
    assert_eq!(
        a_reading,
        Interpolation::Between {
            left_x: number(1.0),
            right_x: number(2.0),
            left_y: number(1.0),
            right_y: number(1.1),
        }
    );
    assert_eq!(
        b_reading,
        Interpolation::Between {
            left_x: number(1.0),
            right_x: number(2.0),
            left_y: number(2.2),
            right_y: number(2.6),
        }
    );
    let (a_reading, b_reading) = get_watt_parameters(&energies, &a, &b, number(7.0));
    assert_eq!(a_reading, Interpolation::Clamped { value: number(1.1) });
    assert_eq!(b_reading, Interpolation::Clamped { value: number(2.6) });
    let (a_reading, b_reading) = get_watt_parameters(&energies, &a, &b, number(2.0));
    assert_eq!(a_reading, Interpolation::Tabulated { value: number(1.1) });
    assert_eq!(b_reading, Interpolation::Tabulated { value: number(2.6) });
    let (a_reading, b_reading) = get_watt_parameters(&energies, &a, &b, number(-1.0));
    assert_eq!(a_reading, Interpolation::Clamped { value: number(0.9) });
    assert_eq!(b_reading, Interpolation::Clamped { value: number(2.0) });
    let (a_reading, b_reading) = get_watt_parameters(&energies, &a, &b, number(1.0));
    assert_eq!(a_reading, Interpolation::Tabulated { value: number(1.0) });
    assert_eq!(evaluate(b_reading, 1.0), 2.2);
}

#[test]
fn properties_are_read_from_every_table() {
    let data = MaterialData {
        energy_fission_cross_sections: reals(&[1.0, 3.0]),
        fission_cross_sections: reals(&[2.0, 4.0]),
        energy_scattering_cross_sections: reals(&[1.0, 3.0]),
        elastic_cross_sections: reals(&[5.0, 5.0]),
        energy_absorption_cross_sections: reals(&[0.0]),
        absorption_cross_sections: reals(&[0.0]),
        energy_nu_bar: reals(&[1.0, 2.0, 3.0]),
        nu_bar: reals(&[2.4, 2.5, 2.6]),
        energy_watt_parameters: reals(&[0.0]),
        watt_parameters_a: reals(&[0.0]),
        watt_parameters_b: reals(&[0.0]),
        number_density: number(4.8e28),
        atomic_mass: number(235.0),
        thermal_conductivity: number(27.0),
        density: number(19000.0),
        heat_capacity: number(116.0),
        name: MaterialNames::U235,
        fissionable: true,
    };
    assert!(data.is_readable());
    let readings = MaterialProperties::read_properties(&data, number(2.0), number(2.0e-6));
    assert_eq!(evaluate(readings.fission, 2.0), 3.0);
    assert_eq!(evaluate(readings.scattering, 2.0), 5.0);
    assert_eq!(readings.absorption, Interpolation::NoData);
    assert_eq!(readings.nu_bar, Interpolation::Tabulated { value: number(2.5) });
    assert_eq!(readings.watt_a, Interpolation::NoData);
    assert_eq!(readings.watt_b, Interpolation::Tabulated { value: number(0.0) });

    assert_eq!(
        entry_of_values(&data).name,
        MaterialNames::U235
    );
    let mut properties = MaterialProperties::default();
    properties.get_properties(
        &data,
        number(14.4),
        number(24.0),
        number(0.0),
        number(2.5),
        number(0.0),
        number(0.0),
    );
    assert_eq!(value(properties.fission), 14.4);
    assert_eq!(value(properties.scattering), 24.0);
    assert_eq!(value(properties.nu_bar), 2.5);
    assert_eq!(value(properties.number_density), 4.8e28);
    assert_eq!(value(properties.atomic_mass), 235.0);
    assert_eq!(properties.name, MaterialNames::U235);
    assert!(properties.fissionable);
}

#[test]
fn a_table_with_a_nan_row_cannot_be_read() {
    let table = |energies: &[f64]| MaterialData {
        energy_fission_cross_sections: reals(energies),
        fission_cross_sections: reals(&[2.0, 4.0]),
        energy_scattering_cross_sections: reals(&[0.0]),
        elastic_cross_sections: reals(&[0.0]),
        energy_absorption_cross_sections: reals(&[0.0]),
        absorption_cross_sections: reals(&[0.0]),
        energy_nu_bar: reals(&[0.0]),
        nu_bar: reals(&[0.0]),
        energy_watt_parameters: reals(&[0.0]),
        watt_parameters_a: reals(&[0.0]),
        watt_parameters_b: reals(&[0.0]),
        number_density: number(1.0),
        atomic_mass: number(1.0),
        thermal_conductivity: number(0.0),
        density: number(0.0),
        heat_capacity: number(0.0),
        name: MaterialNames::U235,
        fissionable: true,
    };
    assert!(table(&[1.0, 3.0]).is_readable());
    assert!(!table(&[1.0, f64::NAN]).is_readable());
    assert!(!table(&[1.0, 2.0, 3.0]).is_readable());
    assert!(!table(&[]).is_readable());
}
