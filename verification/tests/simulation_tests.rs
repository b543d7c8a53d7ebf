use nuclear::diagnostics::geometry_diagnostics::GeometryDiagnostics;
use nuclear::diagnostics::halt_causes::SimulationHaltCauses;
use nuclear::diagnostics::{BinData, NeutronDiagnostics};
use nuclear::geometry::components::Components;
use nuclear::materials::material_properties::PropertyValues;
use nuclear::neutrons::neutron_dynamics::InteractionTypes;
use nuclear::neutrons::neutron_scheduler::NeutronScheduler;
use nuclear::neutrons::Neutron;
use nuclear::simulation::aggregate_runs::post_processing::{
    combine_bin_data, combine_convergence_samples, combine_fission_vector_data,
    group_by_generation, post_process_aggregate_runs,
};
use nuclear::simulation::aggregate_runs::report_creation::split_duration;
use nuclear::simulation::simulation::TrackStep;
use nuclear::simulation::Simulation;
use nuclear::utils::config_loading::{GridBinParametersTOML, SimulationParametersTOML};
use nuclear::utils::reals::Real;
use nuclear::utils::vectors::Vec3D;
use rand::rngs::SmallRng;
use rand::SeedableRng;

fn number(value: f64) -> Real {
    Real::from_bits(value.to_bits())
}

fn value(held: Real) -> f64 {
    f64::from_bits(held.to_bits())
}

fn point(x: f64, y: f64, z: f64) -> Vec3D {
    Vec3D { x: number(x), y: number(y), z: number(z) }
}

fn grid() -> GeometryDiagnostics {
    let parameters = GridBinParametersTOML {
        length_count: 4,
        depth_count: 3,
        height_count: 2,
        total_length: number(4.0),
        total_depth: number(3.0),
        total_height: number(2.0),
        center: point(0.0, 0.0, 0.0),
    };
    GeometryDiagnostics::new(
        parameters,
        point(-2.0, -1.5, -1.0),
        point(2.0, 1.5, 1.0),
        point(1.0, 1.0, 1.0),
    )
}

fn parameters() -> SimulationParametersTOML {
    SimulationParametersTOML {
        run_name: "test".to_string(),
        neutron_initial_position: point(0.0, 0.0, 0.0),
        neutron_generation_cap: 60,
        neutron_count_cap: 1000,
        initial_neutron_count: 3,
        variance_reduction: false,
        specified_neutron_count: 200,
        neutron_fission_count_cap: 0,
        estimate_k: true,
        track_fission_positions: true,
        track_bins: true,
        track_from_generation: 0,
        plot_geometry: false,
        halt_time: None,
        maximum_neutron_energy_difference: number(0.01),
        geometries_path: String::new(),
        model_heat_diffusion: false,
        calculate_convergence: false,
        convergence_analysis_period: 10,
        minimum_convergence_level: number(0.0),
    }
}

fn simulation(parameters: SimulationParametersTOML) -> Simulation {
    let neutron_diagnostics = NeutronDiagnostics::new(
        parameters.estimate_k,
        parameters.track_bins,
        parameters.track_fission_positions,
        parameters.track_from_generation,
        grid(),
        parameters.initial_neutron_count,
    );
    let mut simulation = Simulation {
        rng: SmallRng::seed_from_u64(1),
        components: Components::new(Vec::new(), Vec::new()),
        neutron_scheduler: NeutronScheduler::default(),
        neutron_diagnostics,
        simulation_parameters: parameters,
    };
    simulation.prepare_simulation(&Vec::<PropertyValues>::new(), &Vec::new());
    simulation
}

fn neutron(tag: f64, generation: i64) -> Neutron {
    let mut neutron = Neutron::default();
    neutron.energy = number(tag);
    neutron.generation_number = generation;
    neutron
}

fn populate(simulation: &mut Simulation) {
    let mut trial = 0;
    while simulation.needs_initial_neutrons() {
        trial += 1;
        let fissionable = trial % 2 == 0;
        let taken = simulation.populate_initial_neutrons(fissionable, neutron(trial as f64, 1));
        assert_eq!(taken, fissionable);
    }
}

#[test]
fn preparation_hands_the_scheduler_its_target() {
    let mut options = parameters();
    options.variance_reduction = true;
    options.specified_neutron_count = 77;
    let simulation = simulation(options);
    assert!(simulation.neutron_scheduler.variance_reduction);
    assert_eq!(simulation.neutron_scheduler.specified_neutron_count, 77);
    assert!(simulation.components.cache_initialized);
    assert_eq!(value(simulation.components.simulation_range_squared), 0.0);
}

#[test]
fn the_first_generation_takes_only_fissionable_births() {
    let mut simulation = simulation(parameters());
    populate(&mut simulation);
    assert_eq!(simulation.neutron_scheduler.total_neutron_count(), 3);
    assert_eq!(simulation.neutron_scheduler.current_neutron_count(), 0);
    assert!(!simulation.needs_initial_neutrons());
    assert!(!simulation.is_starving(3000));
    assert!(simulation.is_starving(3001));
}

#[test]
fn an_escaped_track_empties_the_scheduler() {
    let mut options = parameters();
    options.initial_neutron_count = 1;
    let mut simulation = simulation(options);
    populate(&mut simulation);
    let head = simulation.next_neutron(0).unwrap();
    assert_eq!(head.generation_number, 1);
    let step = simulation.apply_interaction(&head, InteractionTypes::Escaped, 0, Neutron::default(), (0, 0, 0));
    assert_eq!(step, TrackStep::Finished);
    assert_eq!(simulation.check_halt(head.generation_number), None);
    assert!(simulation.next_neutron(head.generation_number).is_none());
    assert_eq!(simulation.neutron_diagnostics.halt_cause, SimulationHaltCauses::NoNeutrons);
    assert_eq!(simulation.neutron_diagnostics.max_generation_value, 1);
    assert_eq!(simulation.neutron_diagnostics.neutron_generation_counts, vec![1]);
    assert_eq!(simulation.neutron_diagnostics.total_neutrons_tracked, 1);
    assert!(!Simulation::run_result(SimulationHaltCauses::NoNeutrons));
    assert!(Simulation::run_result(SimulationHaltCauses::HitGenerationCap));
}

#[test]
fn a_fission_replaces_the_neutron_by_its_children() {
    let mut simulation = simulation(parameters());
    populate(&mut simulation);
    let mut head = simulation.next_neutron(0).unwrap();
    head.position = point(0.5, -0.25, 0.75);
    simulation.track_step(&head, (2, 1, 1));
    assert_eq!(simulation.neutron_diagnostics.neutron_position_bins[18].neutron_count, 1);

    let mut child = Neutron::default();
    child.initialize(&head, number(2.0e6), number(1.0), number(1.0), point(1.0, 0.0, 0.0));
    let step = simulation.apply_interaction(&head, InteractionTypes::Fission, 3, child, (2, 1, 1));
    assert_eq!(step, TrackStep::Finished);
    assert_eq!(simulation.neutron_scheduler.current_neutron_count(), 2);
    assert_eq!(simulation.neutron_scheduler.total_neutron_count(), 5);
    assert_eq!(simulation.neutron_scheduler.neutron_queue_a, vec![child, child, child]);
    assert_eq!(simulation.neutron_diagnostics.get_total_fissions(), 1);
    assert_eq!(
        simulation.neutron_diagnostics.neutron_position_bins[18],
        BinData { neutron_count: 1, fission_count: 1 }
    );
    assert_eq!(simulation.neutron_diagnostics.neutron_fission_locations, vec![head.position]);
}

#[test]
fn a_fission_without_children_only_removes_the_neutron() {
    let mut simulation = simulation(parameters());
    populate(&mut simulation);
    let head = simulation.next_neutron(0).unwrap();
    for count in [0, -2] {
        let step = simulation.apply_interaction(&head, InteractionTypes::Fission, count, Neutron::default(), (0, 0, 0));
        assert_eq!(step, TrackStep::Finished);
    }
    assert_eq!(simulation.neutron_scheduler.total_neutron_count(), 1);
    assert_eq!(simulation.neutron_diagnostics.get_total_fissions(), 2);
}

#[test]
fn passing_and_scattering_leave_the_scheduler_alone() {
    let mut simulation = simulation(parameters());
    populate(&mut simulation);
    let head = simulation.next_neutron(0).unwrap();
    let step = simulation.apply_interaction(&head, InteractionTypes::NoInteraction, 0, Neutron::default(), (0, 0, 0));
    assert_eq!(step, TrackStep::Continue);
    let step = simulation.apply_interaction(&head, InteractionTypes::Scattering, 0, Neutron::default(), (0, 0, 0));
    assert_eq!(step, TrackStep::Scatter);
    assert_eq!(simulation.neutron_scheduler.current_neutron_count(), 3);
    assert_eq!(simulation.apply_halt_time(&head), TrackStep::Continue);
    let step = simulation.apply_interaction(&head, InteractionTypes::Absorption, 0, Neutron::default(), (0, 0, 0));
    assert_eq!(step, TrackStep::Finished);
    assert_eq!(simulation.neutron_scheduler.current_neutron_count(), 2);
}

#[test]
fn a_neutron_past_the_halt_time_is_cut_off() {
    let mut options = parameters();
    options.halt_time = Some(number(1.0e-6));
    let mut simulation = simulation(options);
    populate(&mut simulation);
    let mut head = simulation.next_neutron(0).unwrap();
    head.current_time = number(1.0e-6);
    assert_eq!(simulation.apply_halt_time(&head), TrackStep::Continue);
    assert_eq!(simulation.neutron_scheduler.current_neutron_count(), 3);
    head.current_time = number(1.1e-6);
    assert_eq!(simulation.apply_halt_time(&head), TrackStep::Finished);
    assert_eq!(simulation.neutron_scheduler.current_neutron_count(), 2);
}

#[test]
fn the_generation_cap_halts_the_run() {
    let mut options = parameters();
    options.neutron_generation_cap = 2;
    let mut simulation = simulation(options);
    populate(&mut simulation);
    let mut halted = None;
    let mut generation = 0;
    while halted.is_none() {
        let head = simulation.next_neutron(generation).unwrap();
        generation = head.generation_number;
        let mut child = Neutron::default();
        child.initialize(&head, number(1.0), number(1.0), number(1.0), point(1.0, 0.0, 0.0));
        simulation.apply_interaction(&head, InteractionTypes::Fission, 1, child, (0, 0, 0));
        halted = simulation.check_halt(generation);
    }
    assert_eq!(halted, Some(SimulationHaltCauses::HitGenerationCap));
    assert_eq!(generation, 3);
    assert_eq!(simulation.neutron_diagnostics.halt_cause, SimulationHaltCauses::HitGenerationCap);
    assert_eq!(simulation.neutron_diagnostics.max_generation_value, 3);
    assert_eq!(simulation.neutron_diagnostics.neutron_generation_counts, vec![3, 3, 3]);
    assert_eq!(simulation.neutron_diagnostics.total_neutrons_tracked, 9);
}

#[test]
fn the_neutron_cap_halts_only_without_variance_reduction() {
    let mut options = parameters();
    options.neutron_count_cap = 4;
    let mut simulation = simulation(options);
    populate(&mut simulation);
    let head = simulation.next_neutron(0).unwrap();
    simulation.apply_interaction(&head, InteractionTypes::Fission, 2, neutron(0.0, 2), (0, 0, 0));
    assert_eq!(simulation.check_halt(1), None);
    let head = simulation.next_neutron(1).unwrap();
    simulation.apply_interaction(&head, InteractionTypes::Fission, 2, neutron(0.0, 2), (0, 0, 0));
    assert_eq!(simulation.neutron_scheduler.total_neutron_count(), 5);
    assert_eq!(simulation.check_halt(1), Some(SimulationHaltCauses::HitNeutronCap));

    let mut options = parameters();
    options.neutron_count_cap = 4;
    options.variance_reduction = true;
    options.specified_neutron_count = 3;
    let mut reduced = self::simulation(options);
    populate(&mut reduced);
    let head = reduced.next_neutron(0).unwrap();
    reduced.apply_interaction(&head, InteractionTypes::Fission, 9, neutron(0.0, 2), (0, 0, 0));
    assert_eq!(reduced.check_halt(1), None);
}

#[test]
fn the_fission_cap_halts_where_one_is_set() {
    let mut options = parameters();
    options.neutron_fission_count_cap = 1;
    let mut simulation = simulation(options);
    populate(&mut simulation);
    let head = simulation.next_neutron(0).unwrap();
    simulation.apply_interaction(&head, InteractionTypes::Fission, 1, neutron(0.0, 2), (0, 0, 0));
    assert_eq!(simulation.check_halt(1), None);
    let head = simulation.next_neutron(1).unwrap();
    simulation.apply_interaction(&head, InteractionTypes::Fission, 1, neutron(0.0, 2), (0, 0, 0));
    assert_eq!(simulation.check_halt(1), Some(SimulationHaltCauses::HitFissionCap));
    assert_eq!(simulation.neutron_diagnostics.halt_cause, SimulationHaltCauses::HitFissionCap);
    assert_eq!(simulation.neutron_diagnostics.total_fissions, 0);
    assert_eq!(value(simulation.neutron_diagnostics.total_energy), 0.0);
    assert_eq!(value(simulation.neutron_diagnostics.power_generated), 0.0);
}

fn run_with_bins(bins: &[(i64, i64)], fissions: &[(f64, f64, f64)], run_total: i64) -> Simulation {
    let mut run = simulation(parameters());
    for (index, (neutrons, fission_count)) in bins.iter().enumerate() {
        run.neutron_diagnostics.neutron_position_bins[index] =
            BinData { neutron_count: *neutrons, fission_count: *fission_count };
    }
    for place in fissions.iter() {
        run.neutron_diagnostics.neutron_fission_locations.push(point(place.0, place.1, place.2));
    }
    run.neutron_diagnostics.total_neutrons_tracked = run_total;
    run
}

#[test]
fn identical_runs_sum_to_their_multiple() {
    let bins = [(5, 1), (0, 0), (7, 2), (11, 3)];
    let single = run_with_bins(&bins, &[], 0);
    let expected_single = single.neutron_diagnostics.neutron_position_bins.clone();
    for count in 1..6 {
        let runs: Vec<Simulation> = (0..count).map(|_| run_with_bins(&bins, &[], 0)).collect();
        let combined = combine_bin_data(&runs).unwrap();
        assert_eq!(combined.len(), expected_single.len());
        for (sum, bin) in combined.iter().zip(expected_single.iter()) {
            assert_eq!(sum.neutron_count, count * bin.neutron_count);
            assert_eq!(sum.fission_count, count * bin.fission_count);
        }
    }
    assert_eq!(combine_bin_data(&Vec::new()), Some(Vec::new()));
}

#[test]
fn runs_are_summed_bin_by_bin() {
    let runs = vec![
        run_with_bins(&[(1, 0), (2, 1)], &[(0.1, 0.0, 0.0)], 10),
        run_with_bins(&[(10, 5), (20, 6), (30, 7)], &[], 20),
        run_with_bins(&[(100, 50)], &[(0.2, 0.0, 0.0), (0.3, 0.0, 0.0)], 30),
    ];
    let combined = combine_bin_data(&runs).unwrap();
    assert_eq!(combined[0], BinData { neutron_count: 111, fission_count: 55 });
    assert_eq!(combined[1], BinData { neutron_count: 22, fission_count: 7 });
    assert_eq!(combined[2], BinData { neutron_count: 30, fission_count: 7 });
    assert_eq!(combined.len(), 60);

    let joined = combine_fission_vector_data(&runs);
    assert_eq!(joined, vec![point(0.1, 0.0, 0.0), point(0.2, 0.0, 0.0), point(0.3, 0.0, 0.0)]);

    let result = post_process_aggregate_runs(&runs, number(1.01), number(4.5), vec![(1, number(0.5))])
        .unwrap();
    assert_eq!(result.simulation_count, 3);
    assert_eq!(result.combined_bins, combined);
    assert_eq!(result.combined_fission_vector, joined);
    assert_eq!(result.total_neutrons_tracked, 60);
    assert_eq!(value(result.averaged_k), 1.01);
    assert_eq!(value(result.averaged_power), 4.5);
    assert_eq!(result.bin_parameters, grid());
    assert_eq!(result.convergence_per_generation.len(), 1);
}

#[test]
fn a_sum_that_leaves_64_bits_gives_nothing() {
    let runs = vec![run_with_bins(&[(i64::MAX, 0)], &[], 1), run_with_bins(&[(1, 0)], &[], 1)];
    assert_eq!(combine_bin_data(&runs), None);
    assert!(post_process_aggregate_runs(&runs, number(1.0), number(1.0), Vec::new()).is_none());
    let runs = vec![run_with_bins(&[(1, 0)], &[], i64::MAX), run_with_bins(&[(1, 0)], &[], 1)];
    assert!(post_process_aggregate_runs(&runs, number(1.0), number(1.0), Vec::new()).is_none());
}

#[test]
fn a_duration_is_broken_down_for_the_report() {
    let parts = split_duration(3_723_004);
    assert_eq!((parts.hours, parts.minutes, parts.seconds, parts.milliseconds), (1, 2, 3, 4));
    let parts = split_duration(0);
    assert_eq!((parts.hours, parts.minutes, parts.seconds, parts.milliseconds), (0, 0, 0, 0));
    let parts = split_duration(359_999_999);
    assert_eq!((parts.hours, parts.minutes, parts.seconds, parts.milliseconds), (99, 59, 59, 999));
    let parts = split_duration(u128::MAX);
    assert_eq!(
        parts.hours * 3_600_000 + parts.minutes * 60_000 + parts.seconds * 1_000 + parts.milliseconds,
        u128::MAX
    );
}

#[test]
fn convergence_is_grouped_by_generation() {
    let mut first = simulation(parameters());
    first.neutron_diagnostics.update_convergence(20, number(0.5));
    first.neutron_diagnostics.update_convergence(10, number(0.9));
    first.neutron_diagnostics.update_convergence(30, number(0.1));
    let mut second = simulation(parameters());
    second.neutron_diagnostics.update_convergence(10, number(0.7));
    second.neutron_diagnostics.update_convergence(30, number(0.3));
    second.neutron_diagnostics.update_convergence(10, number(0.6));
    let runs = vec![first, second];
    let samples = combine_convergence_samples(&runs);
    assert_eq!(samples.len(), 6);
    assert_eq!(samples[3], (10, number(0.7)));
    let groups = group_by_generation(&samples);
    let found: Vec<(i64, Vec<f64>)> = groups
        .iter()
        .map(|group| (group.generation, group.samples.iter().map(|held| value(*held)).collect()))
        .collect();
    assert_eq!(
        found,
        vec![(10, vec![0.9, 0.7, 0.6]), (20, vec![0.5]), (30, vec![0.1, 0.3])]
    );
    assert!(group_by_generation(&Vec::new()).is_empty());
}

#[test]
fn the_bins_stay_in_balance_with_the_list_over_a_run() {
    let mut simulation = simulation(parameters());
    populate(&mut simulation);
    let fission_total = |simulation: &Simulation| -> i64 {
        simulation.neutron_diagnostics.neutron_position_bins.iter().map(|bin| bin.fission_count).sum()
    };
    let mut generation = 0;
    let mut steps = 0;
    while let Some(mut head) = simulation.next_neutron(generation) {
        generation = head.generation_number;
        steps += 1;
        // Every third fission falls outside the grid.
        let outside = steps % 3 == 0;
        head.position = if outside { point(9.0, 0.0, 0.0) } else { point(0.5, -0.25, 0.75) };
        simulation.track_step(&head, (2, 1, 1));
        let children = if steps < 12 { 1 } else { 0 };
        let mut child = Neutron::default();
        child.initialize(&head, number(1.0), number(1.0), number(1.0), point(1.0, 0.0, 0.0));
        simulation.apply_interaction(&head, InteractionTypes::Fission, children, child, (2, 1, 1));
        let listed = simulation.neutron_diagnostics.get_total_fissions();
        assert!(fission_total(&simulation) <= listed);
        assert_eq!(listed, steps);
        assert_eq!(fission_total(&simulation), steps - steps / 3);
        if simulation.check_halt(generation).is_some() {
            break;
        }
    }
    assert_eq!(simulation.neutron_diagnostics.halt_cause, SimulationHaltCauses::NoNeutrons);
    assert!(fission_total(&simulation) < simulation.neutron_diagnostics.get_total_fissions());
}
