use nuclear::neutrons::neutron_dynamics::{
    select_interaction, InteractionTypes, DISTANCE_STEP_KEY, FALLBACK_ENERGY_KEY,
};
use nuclear::neutrons::neutron_scheduler::NeutronScheduler;
use nuclear::neutrons::watt_distribution::{
    rejection_sample_watt, WattTrial, MAXIMUM_ENERGY_KEY, MAXIMUM_TRIALS,
};
use nuclear::neutrons::Neutron;
use nuclear::utils::reals::Real;
use nuclear::utils::vectors::Vec3D;
use rand::rngs::SmallRng;
use rand::SeedableRng;

fn number(value: f64) -> Real {
    Real::from_bits(value.to_bits())
}

fn value(held: Real) -> f64 {
    f64::from_bits(held.to_bits())
}

fn neutron(tag: f64, generation: i64) -> Neutron {
    let mut neutron = Neutron::default();
    neutron.energy = number(tag);
    neutron.generation_number = generation;
    neutron
}

fn tags(queue: &Vec<Neutron>) -> Vec<f64> {
    queue.iter().map(|n| value(n.energy)).collect()
}

fn sorted(mut values: Vec<f64>) -> Vec<f64> {
    values.sort_by(|a, b| a.partial_cmp(b).unwrap());
    values
}

#[test]
fn added_neutrons_wait_for_the_next_generation() {
    let mut scheduler = NeutronScheduler::default();
    assert!(scheduler.is_empty());
    scheduler.add_neutron(neutron(1.0, 1));
    scheduler.add_neutron(neutron(2.0, 1));
    assert!(!scheduler.is_empty());
    assert_eq!(scheduler.current_neutron_count(), 0);
    assert_eq!(scheduler.total_neutron_count(), 2);
    assert_eq!(tags(&scheduler.neutron_queue_b), vec![1.0, 2.0]);
    assert!(scheduler.neutron_queue_a.is_empty());
}

#[test]
fn queues_change_roles_only_when_the_current_one_is_empty() {
    let mut rng = SmallRng::seed_from_u64(7);
    let mut scheduler = NeutronScheduler::default();
    scheduler.add_neutron(neutron(1.0, 1));
    scheduler.add_neutron(neutron(2.0, 1));
    scheduler.add_neutron(neutron(3.0, 1));

    let head = scheduler.get_neutron(&mut rng);
    assert!(scheduler.queue_selector);
    assert_eq!(value(head.energy), 1.0);
    assert_eq!(scheduler.neutron_generation_history, vec![3]);
    assert_eq!(scheduler.current_neutron_count(), 3);

    // Children go to the other queue, and no further change of roles happens
    // while the current generation lasts.
    scheduler.add_neutron(neutron(10.0, 2));
    scheduler.check_queue_flip(&mut rng);
    assert!(scheduler.queue_selector);
    assert_eq!(scheduler.neutron_generation_history, vec![3]);
    assert_eq!(tags(&scheduler.neutron_queue_a), vec![10.0]);
    assert_eq!(tags(&scheduler.neutron_queue_b), vec![1.0, 2.0, 3.0]);

    // Removal moves the last neutron into the place of the removed one.
    scheduler.remove_neutron(0);
    assert_eq!(tags(&scheduler.neutron_queue_b), vec![3.0, 2.0]);
    scheduler.remove_neutron(0);
    scheduler.remove_neutron(0);
    assert_eq!(scheduler.current_neutron_count(), 0);
    assert!(!scheduler.is_empty());

    let head = scheduler.get_neutron(&mut rng);
    assert!(!scheduler.queue_selector);
    assert_eq!(value(head.energy), 10.0);
    assert_eq!(head.generation_number, 2);
    assert_eq!(scheduler.neutron_generation_history, vec![3, 1]);
    assert!(scheduler.neutron_queue_b.is_empty());
}

#[test]
fn a_generation_never_shares_a_queue_with_the_next() {
    let mut rng = SmallRng::seed_from_u64(11);
    let mut scheduler = NeutronScheduler::default();
    scheduler.variance_reduction = true;
    scheduler.specified_neutron_count = 6;
    for tag in 0..4 {
        scheduler.add_neutron(neutron(tag as f64, 1));
    }
    for generation in 1..20 {
        let mut consumed = 0;
        loop {
            let head = scheduler.get_neutron(&mut rng);
            assert_eq!(head.generation_number, generation);
            let (current, waiting) = if scheduler.queue_selector {
                (&scheduler.neutron_queue_b, &scheduler.neutron_queue_a)
            } else {
                (&scheduler.neutron_queue_a, &scheduler.neutron_queue_b)
            };
            assert!(current.iter().all(|n| n.generation_number == generation));
            assert!(waiting.iter().all(|n| n.generation_number == generation + 1));
            scheduler.remove_neutron(0);
            consumed += 1;
            if consumed % 2 == 0 {
                scheduler.add_neutron(neutron(consumed as f64, generation + 1));
            }
            if scheduler.current_neutron_count() == 0 {
                break;
            }
        }
        assert_eq!(consumed, 6);
        assert_eq!(scheduler.total_neutron_count(), 3);
    }
    assert_eq!(scheduler.neutron_generation_history[0], 4);
    assert!(scheduler.neutron_generation_history[1..].iter().all(|count| *count == 3));
}

#[test]
fn a_generation_above_the_target_is_cut_down() {
    let mut rng = SmallRng::seed_from_u64(99);
    let mut scheduler = NeutronScheduler::default();
    scheduler.variance_reduction = true;
    scheduler.specified_neutron_count = 50;
    for tag in 0..100 {
        scheduler.add_neutron(neutron(tag as f64, 1));
    }
    scheduler.check_queue_flip(&mut rng);
    assert_eq!(scheduler.current_neutron_count(), 50);
    assert_eq!(scheduler.neutron_generation_history, vec![100]);
    let kept = tags(&scheduler.neutron_queue_b);
    let mut distinct = sorted(kept.clone());
    distinct.dedup();
    assert_eq!(distinct.len(), 50);
    assert!(distinct.iter().all(|tag| *tag >= 0.0 && *tag < 100.0 && tag.fract() == 0.0));
    // The survivors are drawn at random, not taken from the head of the queue.
    let head: Vec<f64> = (0..50).map(|tag| tag as f64).collect();
    assert_ne!(kept, head);
}

#[test]
fn a_generation_below_the_target_is_filled_with_copies() {
    let mut rng = SmallRng::seed_from_u64(5);
    let mut scheduler = NeutronScheduler::default();
    scheduler.variance_reduction = true;
    scheduler.specified_neutron_count = 200;
    for tag in 0..3 {
        scheduler.add_neutron(neutron(tag as f64, 1));
    }
    scheduler.check_queue_flip(&mut rng);
    assert_eq!(scheduler.current_neutron_count(), 200);
    assert_eq!(scheduler.neutron_generation_history, vec![3]);
    let kept = tags(&scheduler.neutron_queue_b);
    for tag in 0..3 {
        assert!(kept.contains(&(tag as f64)));
    }
    assert!(kept.iter().all(|tag| *tag == 0.0 || *tag == 1.0 || *tag == 2.0));
    assert!(scheduler.neutron_queue_b.iter().all(|n| n.generation_number == 1));
}

#[test]
fn an_empty_generation_is_not_filled() {
    let mut rng = SmallRng::seed_from_u64(5);
    let mut scheduler = NeutronScheduler::default();
    scheduler.variance_reduction = true;
    scheduler.specified_neutron_count = 200;
    scheduler.check_queue_flip(&mut rng);
    assert!(scheduler.queue_selector);
    assert!(scheduler.is_empty());
    assert_eq!(scheduler.neutron_generation_history, vec![0]);
}

#[test]
fn a_generation_at_the_target_keeps_its_order() {
    let mut rng = SmallRng::seed_from_u64(5);
    let mut scheduler = NeutronScheduler::default();
    scheduler.variance_reduction = true;
    scheduler.specified_neutron_count = 4;
    for tag in 0..4 {
        scheduler.add_neutron(neutron(tag as f64, 1));
    }
    scheduler.check_queue_flip(&mut rng);
    assert_eq!(tags(&scheduler.neutron_queue_b), vec![0.0, 1.0, 2.0, 3.0]);
}

#[test]
fn without_variance_reduction_a_generation_stays_as_it_arrived() {
    let mut rng = SmallRng::seed_from_u64(5);
    let mut scheduler = NeutronScheduler::default();
    scheduler.specified_neutron_count = 2;
    for tag in 0..5 {
        scheduler.add_neutron(neutron(tag as f64, 1));
    }
    scheduler.check_queue_flip(&mut rng);
    assert_eq!(tags(&scheduler.neutron_queue_b), vec![0.0, 1.0, 2.0, 3.0, 4.0]);
}

#[test]
fn a_negative_target_removes_nothing() {
    let mut rng = SmallRng::seed_from_u64(21);
    let mut scheduler = NeutronScheduler::default();
    scheduler.variance_reduction = true;
    scheduler.specified_neutron_count = -3;
    for tag in 0..40 {
        scheduler.add_neutron(neutron(tag as f64, 1));
    }
    scheduler.check_queue_flip(&mut rng);
    let kept = tags(&scheduler.neutron_queue_b);
    let all: Vec<f64> = (0..40).map(|tag| tag as f64).collect();
    assert_eq!(sorted(kept.clone()), all);
}

#[test]
fn a_child_takes_over_from_its_parent() {
    let mut parent = Neutron::default();
    parent.current_time = number(2.5e-9);
    parent.position = Vec3D { x: number(0.01), y: number(-0.02), z: number(0.03) };
    parent.generation_number = 4;
    let direction = Vec3D { x: number(0.0), y: number(1.0), z: number(0.0) };
    let mut child = Neutron::default();
    child.initialize(&parent, number(2.0e6), number(1.95e7), number(5.1e-11), direction);
    assert_eq!(value(child.energy), 2.0e6);
    assert_eq!(value(child.velocity), 1.95e7);
    assert_eq!(value(child.time_step), 5.1e-11);
    assert_eq!(value(child.creation_time), 2.5e-9);
    assert_eq!(value(child.current_time), 2.5e-9);
    assert_eq!(value(child.distance_step), 0.001);
    assert_eq!(child.position, parent.position);
    assert_eq!(child.direction, direction);
    assert_eq!(child.generation_number, 5);
    assert!(!child.has_scattered);
    assert_eq!(child.distance_step.key, DISTANCE_STEP_KEY);
}

#[test]
fn failed_sampling_gives_one_mev() {
    let neutron = Neutron::default();
    assert_eq!(value(neutron.get_energy(None)), 1.0e6);
    assert_eq!(neutron.get_energy(None).key, FALLBACK_ENERGY_KEY);
    assert_eq!(value(neutron.get_energy(Some(number(3.5e6)))), 3.5e6);
}

#[test]
fn a_large_energy_loss_marks_the_neutron() {
    let mut neutron = Neutron::default();
    neutron.energy = number(1.0e6);
    let direction = Vec3D { x: number(1.0), y: number(0.0), z: number(0.0) };
    neutron.scatter(direction, number(9.95e5), number(0.005), number(0.01));
    assert!(!neutron.has_scattered);
    assert_eq!(value(neutron.energy), 9.95e5);
    assert_eq!(neutron.direction, direction);
    neutron.scatter(direction, number(9.0e5), number(0.01), number(0.01));
    assert!(!neutron.has_scattered);
    neutron.scatter(direction, number(5.0e5), number(0.4444), number(0.01));
    assert!(neutron.has_scattered);
    assert_eq!(value(neutron.energy), 5.0e5);
    neutron.scatter(direction, number(4.99e5), number(0.002), number(0.01));
    assert!(neutron.has_scattered);
}

#[test]
fn a_step_moves_the_neutron() {
    let mut neutron = Neutron::default();
    neutron.generation_number = 3;
    let place = Vec3D { x: number(0.001), y: number(0.0), z: number(0.0) };
    neutron.translate(place);
    assert_eq!(neutron.position, place);
    assert_eq!(neutron.generation_number, 3);
}

#[test]
fn fission_multiplicity_goes_by_the_fraction() {
    let neutron = Neutron::default();
    assert_eq!(neutron.get_neutron_fission_count(2, number(0.43), number(0.2)), 3);
    assert_eq!(neutron.get_neutron_fission_count(2, number(0.43), number(0.43)), 3);
    assert_eq!(neutron.get_neutron_fission_count(2, number(0.43), number(0.44)), 2);
    assert_eq!(neutron.get_neutron_fission_count(2, number(0.0), number(0.0)), 2);
    assert_eq!(neutron.get_neutron_fission_count(0, number(0.5), number(0.9)), 0);
    assert_eq!(neutron.get_neutron_fission_count(2, number(f64::NAN), number(0.1)), 2);
    // Over many evenly spread draws the share of the larger count is the fraction.
    let trials = 100_000;
    let mut larger = 0;
    for trial in 0..trials {
        let draw = (trial as f64 + 0.5) / trials as f64;
        if neutron.get_neutron_fission_count(2, number(0.43), number(draw)) == 3 {
            larger += 1;
        }
    }
    assert!((larger as f64 / trials as f64 - 0.43).abs() < 0.01);
}

#[test]
fn a_neutron_beyond_the_range_escapes() {
    let neutron = Neutron::default();
    let outcome = neutron.interact(
        number(1.0),
        number(0.0025),
        number(0.0),
        number(1.0),
        number(0.0),
        number(1.0),
        number(1.0),
    );
    assert_eq!(outcome, InteractionTypes::Escaped);
    let outcome = neutron.interact(
        number(0.0025),
        number(0.0025),
        number(0.0),
        number(1.0),
        number(0.0),
        number(1.0),
        number(1.0),
    );
    assert_eq!(outcome, InteractionTypes::Escaped);
    assert_eq!(neutron.meets_material(number(1.0), number(0.0025), number(0.0), number(1.0)), None);
}

#[test]
fn the_draws_decide_the_interaction() {
    let neutron = Neutron::default();
    let interact = |criterion: f64, kind: f64| {
        neutron.interact(
            number(0.0001),
            number(0.0025),
            number(criterion),
            number(0.3),
            number(kind),
            number(0.5),
            number(0.8),
        )
    };
    assert_eq!(interact(0.31, 0.1), InteractionTypes::NoInteraction);
    assert_eq!(interact(0.3, 0.1), InteractionTypes::Fission);
    assert_eq!(interact(0.1, 0.0), InteractionTypes::Fission);
    assert_eq!(interact(0.1, 0.4999), InteractionTypes::Fission);
    assert_eq!(interact(0.1, 0.5), InteractionTypes::Scattering);
    assert_eq!(interact(0.1, 0.7999), InteractionTypes::Scattering);
    assert_eq!(interact(0.1, 0.8), InteractionTypes::Absorption);
    assert_eq!(interact(0.1, 0.9999), InteractionTypes::Absorption);
    assert_eq!(interact(0.1, 1.0), InteractionTypes::Absorption);
    assert_eq!(
        neutron.meets_material(number(0.0001), number(0.0025), number(0.31), number(0.3)),
        Some(false)
    );
    assert_eq!(
        select_interaction(number(0.6), number(0.5), number(0.8)),
        InteractionTypes::Scattering
    );
}

#[test]
fn nothing_interacts_in_void() {
    let neutron = Neutron::default();
    for draw in [0.0, 1.0e-12, 0.25, 0.5, 0.999] {
        let outcome = neutron.interact(
            number(0.0001),
            number(0.0025),
            number(draw),
            number(0.0),
            number(0.5),
            number(f64::NAN),
            number(f64::NAN),
        );
        assert_eq!(outcome, InteractionTypes::NoInteraction);
    }
}

#[test]
fn a_trial_accepts_below_the_density() {
    let energy = number(2.0e6);
    assert_eq!(
        rejection_sample_watt(0, energy, number(0.3), number(0.3)),
        WattTrial::Accepted { energy }
    );
    assert_eq!(rejection_sample_watt(0, energy, number(0.3), number(0.31)), WattTrial::Rejected);
    assert_eq!(
        rejection_sample_watt(999, energy, number(0.3), number(0.1)),
        WattTrial::Accepted { energy }
    );
    assert_eq!(rejection_sample_watt(1000, energy, number(0.3), number(0.1)), WattTrial::Exhausted);
    assert_eq!(rejection_sample_watt(0, energy, number(f64::NAN), number(0.1)), WattTrial::Rejected);
    assert_eq!(MAXIMUM_TRIALS, 1000);
    assert_eq!(value(Real { key: MAXIMUM_ENERGY_KEY }), 1.5e7);
}

#[test]
fn the_head_is_handed_out_while_the_generation_lasts() {
    let mut rng = SmallRng::seed_from_u64(3);
    let mut scheduler = NeutronScheduler::default();
    scheduler.add_neutron(neutron(1.0, 1));
    scheduler.add_neutron(neutron(2.0, 1));
    scheduler.check_queue_flip(&mut rng);
    // Variance reduction to no neutron at all does not touch the generation
    // that is being consumed.
    scheduler.variance_reduction = true;
    scheduler.specified_neutron_count = 0;
    let head = scheduler.get_neutron(&mut rng);
    assert_eq!(value(head.energy), 1.0);
    assert_eq!(scheduler.current_neutron_count(), 2);
    assert_eq!(scheduler.neutron_generation_history, vec![2]);
}

#[test]
fn no_neutron_is_copied_more_often_than_the_generation_is_doubled() {
    for (arrived, target, factor) in [(3, 5, 2), (3, 6, 2), (3, 7, 4), (4, 200, 64), (1, 9, 16)] {
        let mut rng = SmallRng::seed_from_u64(17);
        let mut scheduler = NeutronScheduler::default();
        scheduler.variance_reduction = true;
        scheduler.specified_neutron_count = target;
        for tag in 0..arrived {
            scheduler.add_neutron(neutron(tag as f64, 1));
        }
        scheduler.check_queue_flip(&mut rng);
        let kept = tags(&scheduler.neutron_queue_b);
        assert_eq!(kept.len() as i64, target);
        for tag in 0..arrived {
            let count = kept.iter().filter(|kept_tag| **kept_tag == tag as f64).count();
            assert!(count >= 1 && count <= factor);
        }
    }
}

#[test]
fn a_draw_at_the_probability_lets_the_neutron_interact() {
    let neutron = Neutron::default();
    let meets = |draw: f64, probability: f64| {
        neutron.meets_material(number(0.0001), number(0.0025), number(draw), number(probability))
    };
    assert_eq!(meets(0.0, 0.0), Some(false));
    assert_eq!(meets(0.0, 1.0e-9), Some(true));
    assert_eq!(meets(1.0e-9, 1.0e-9), Some(true));
    assert_eq!(meets(2.0e-9, 1.0e-9), Some(false));
    assert_eq!(meets(0.0, f64::NAN), Some(false));
}
