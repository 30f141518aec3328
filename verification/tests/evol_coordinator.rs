use evol::error::EvolutionError;
use evol::evol_coordinator::EvolutionCoordinator;
use evol::evol_options::EvolutionOptions;

#[test]
fn a_new_coordinator_stands_at_generation_zero() {
    let coordinator = EvolutionCoordinator::new(&EvolutionOptions::new());
    assert_eq!(coordinator.get_current_generation(), 0);
    assert_eq!(coordinator.get_progress(), (0, 100));
}

#[test]
fn run_crosses_exactly_one_generation() {
    let options = EvolutionOptions::with_settings(3, 0, 1, 1).unwrap();
    let mut coordinator = EvolutionCoordinator::new(&options);
    assert_eq!(coordinator.run(), Ok(()));
    assert_eq!(coordinator.get_current_generation(), 1);
    assert_eq!(coordinator.run(), Ok(()));
    assert_eq!(coordinator.get_current_generation(), 2);
    assert_eq!(coordinator.run(), Ok(()));
    assert_eq!(coordinator.get_current_generation(), 3);
}

#[test]
fn run_past_the_budget_is_out_of_range_and_changes_nothing() {
    let options = EvolutionOptions::with_settings(2, 0, 1, 1).unwrap();
    let mut coordinator = EvolutionCoordinator::new(&options);
    assert_eq!(coordinator.run(), Ok(()));
    assert_eq!(coordinator.run(), Ok(()));
    assert_eq!(coordinator.run(), Err(EvolutionError::OutOfRange));
    assert_eq!(coordinator.get_current_generation(), 2);
    assert_eq!(coordinator.run(), Err(EvolutionError::OutOfRange));
    assert_eq!(coordinator.get_progress(), (2, 2));
}

#[test]
fn progress_rises_with_every_run_and_ends_at_one() {
    let options = EvolutionOptions::with_settings(4, 0, 1, 1).unwrap();
    let mut coordinator = EvolutionCoordinator::new(&options);
    let mut last = 0.0;
    for step in 1..=4 {
        assert_eq!(coordinator.run(), Ok(()));
        let (spent, budget) = coordinator.get_progress();
        assert_eq!((spent, budget), (step, 4));
        let progress = spent as f64 / budget as f64;
        assert!(progress > last);
        assert!(progress <= 1.0);
        last = progress;
    }
    assert_eq!(last, 1.0);
    assert_eq!(coordinator.run(), Err(EvolutionError::OutOfRange));
    let (spent, budget) = coordinator.get_progress();
    assert_eq!(spent as f64 / budget as f64, 1.0);
}

#[test]
fn progress_at_one_quarter() {
    let options = EvolutionOptions::with_settings(8, 0, 1, 1).unwrap();
    let mut coordinator = EvolutionCoordinator::new(&options);
    coordinator.run().unwrap();
    coordinator.run().unwrap();
    let (spent, budget) = coordinator.get_progress();
    assert_eq!(spent as f64 / budget as f64, 0.25);
}

#[test]
fn a_copy_of_a_coordinator_counts_on_its_own() {
    let options = EvolutionOptions::with_settings(5, 0, 1, 1).unwrap();
    let mut coordinator = EvolutionCoordinator::new(&options);
    coordinator.run().unwrap();
    let copy = coordinator;
    coordinator.run().unwrap();
    assert_eq!(copy.get_current_generation(), 1);
    assert_eq!(coordinator.get_current_generation(), 2);
}
