use evol::error::EvolutionError;
use evol::evol_options::{EvolutionOptions, PartialEvolutionOptions};
use evol::traits::{EvolutionOptionsTrait, PartialEvolutionOptionsTrait};

#[test]
fn default_options_are_100_generations_2_parents_20_children() {
    let options = EvolutionOptions::new();
    assert_eq!(options.get_num_generations(), 100);
    assert_eq!(options.get_log_level(), 0);
    assert_eq!(options.get_num_parents(), 2);
    assert_eq!(options.get_num_children(), 20);
}

#[test]
fn chosen_settings_are_kept() {
    let options = EvolutionOptions::with_settings(7, 2, 3, 11).unwrap();
    assert_eq!(options.get_num_generations(), 7);
    assert_eq!(options.get_log_level(), 2);
    assert_eq!(options.get_num_parents(), 3);
    assert_eq!(options.get_num_children(), 11);
}

#[test]
fn smallest_settings_are_accepted() {
    let options = EvolutionOptions::with_settings(1, 0, 1, 1).unwrap();
    assert_eq!(options.get_num_generations(), 1);
    assert_eq!(options.get_num_parents(), 1);
    assert_eq!(options.get_num_children(), 1);
}

#[test]
fn as_many_parents_as_children_is_accepted() {
    assert!(EvolutionOptions::with_settings(5, 0, 4, 4).is_ok());
}

#[test]
fn more_parents_than_children_is_a_configuration_error() {
    assert_eq!(
        EvolutionOptions::with_settings(5, 0, 5, 4).err(),
        Some(EvolutionError::Configuration)
    );
}

#[test]
fn no_generation_is_a_configuration_error() {
    assert_eq!(
        EvolutionOptions::with_settings(0, 0, 2, 20).err(),
        Some(EvolutionError::Configuration)
    );
}

#[test]
fn no_parent_is_a_configuration_error() {
    assert_eq!(
        EvolutionOptions::with_settings(10, 0, 0, 20).err(),
        Some(EvolutionError::Configuration)
    );
    assert_eq!(
        EvolutionOptions::with_settings(10, 0, 0, 0).err(),
        Some(EvolutionError::Configuration)
    );
}

#[test]
fn window_options_keep_the_base_settings_and_the_window() {
    let base = EvolutionOptions::with_settings(9, 1, 2, 5).unwrap();
    let options = PartialEvolutionOptions::new(base, 3, 10).unwrap();
    assert_eq!(options.get_num_generations(), 9);
    assert_eq!(options.get_log_level(), 1);
    assert_eq!(options.get_num_parents(), 2);
    assert_eq!(options.get_num_children(), 5);
    assert_eq!(options.get_min_magnitude(), 3);
    assert_eq!(options.get_max_magnitude(), 10);
}

#[test]
fn window_of_one_magnitude_is_accepted() {
    let options = PartialEvolutionOptions::new(EvolutionOptions::new(), 4, 4).unwrap();
    assert_eq!(options.get_min_magnitude(), 4);
    assert_eq!(options.get_max_magnitude(), 4);
}

#[test]
fn widest_window_is_accepted() {
    let options = PartialEvolutionOptions::new(EvolutionOptions::new(), 0, u64::MAX).unwrap();
    assert_eq!(options.get_min_magnitude(), 0);
    assert_eq!(options.get_max_magnitude(), u64::MAX);
}

#[test]
fn window_with_ends_out_of_order_is_a_configuration_error() {
    assert_eq!(
        PartialEvolutionOptions::new(EvolutionOptions::new(), 11, 10).err(),
        Some(EvolutionError::Configuration)
    );
}

#[test]
fn every_error_has_its_message() {
    assert_eq!(EvolutionError::Configuration.message(), "invalid evolution options");
    assert_eq!(EvolutionError::InvalidInput.message(), "no parents to breed from");
    assert_eq!(
        EvolutionError::ConstraintUnsatisfiable.message(),
        "no candidate inside the magnitude window"
    );
    assert_eq!(EvolutionError::OutOfRange.message(), "all generations have already run");
    assert_eq!(
        EvolutionError::EmptyPopulation.message(),
        "a generation produced no candidates"
    );
}
