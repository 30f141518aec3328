use evol::error::EvolutionError;
use evol::evol_options::{EvolutionOptions, PartialEvolutionOptions};
use evol::ordinary_evol_strategy::{breed, OrdinaryEvolutionStrategy};
use evol::partial_evol_strategy::{
    breed_partial,
    develop,
    in_range,
    PartialEvolutionStrategy,
    MAX_MUTATIONS,
    MAX_RESTARTS,
};
use evol::random::RandomNumberGenerator;
use evol::traits::{EvolutionStrategy, PartialPhenotype, Phenotype};

/// A whole number that a mutation moves by at least -5 and less than 5.
#[derive(Clone, Copy, Debug, PartialEq, Eq)]
struct Step {
    value: i64,
}

impl Phenotype for Step {
    fn crossover_spec(self, other: Self) -> Self {
        Step { value: (self.value + other.value) / 2 }
    }

    fn can_mutate_to(self, next: Self) -> bool {
        let moved = next.value - self.value;
        -5 <= moved && moved < 5
    }

    fn crossover(&mut self, other: &Self) {
        self.value = (self.value + other.value) / 2;
    }

    fn mutate(&mut self, rng: &mut RandomNumberGenerator) {
        self.value += rng.fetch_uniform(-5, 5, 1)[0] as i64;
    }

    fn to_string_internal(&self) -> String {
        format!("value: {}", self.value)
    }
}

impl PartialPhenotype for Step {
    fn magnitude_spec(&self) -> u64 {
        self.value.unsigned_abs()
    }

    fn magnitude(&self) -> u64 {
        self.value.unsigned_abs()
    }
}

fn steps(values: &[i64]) -> Vec<Step> {
    values.iter().map(|value| Step { value: *value }).collect()
}

fn options(num_parents: usize, num_children: usize) -> EvolutionOptions {
    EvolutionOptions::with_settings(10, 0, num_parents, num_children).unwrap()
}

fn window(num_parents: usize, num_children: usize, min: u64, max: u64) -> PartialEvolutionOptions {
    PartialEvolutionOptions::new(options(num_parents, num_children), min, max).unwrap()
}

#[test]
fn crossover_and_mutation_do_what_their_specifications_say() {
    let mut rng = RandomNumberGenerator::from_seed(5);
    let mut child = Step { value: 10 };
    child.crossover(&Step { value: 21 });
    assert_eq!(child, Step { value: 10 }.crossover_spec(Step { value: 21 }));
    assert_eq!(child, Step { value: 15 });
    for _ in 0..200 {
        let before = child;
        child.mutate(&mut rng);
        assert!(before.can_mutate_to(child));
    }
    assert_eq!(Step { value: -12 }.magnitude(), 12);
    assert_eq!(Step { value: -12 }.magnitude(), Step { value: -12 }.magnitude_spec());
}

#[test]
fn breed_keeps_the_elite_as_the_first_child() {
    let mut rng = RandomNumberGenerator::from_seed(6);
    let parents = steps(&[1000, -2000, 3000]);
    for _ in 0..50 {
        let children = breed(&parents, &mut rng, &options(3, 8)).unwrap();
        assert_eq!(children[0], Step { value: 1000 });
    }
}

#[test]
fn breed_returns_num_children_children() {
    let mut rng = RandomNumberGenerator::from_seed(7);
    assert_eq!(breed(&steps(&[1]), &mut rng, &options(1, 1)).unwrap().len(), 1);
    assert_eq!(breed(&steps(&[1]), &mut rng, &options(2, 20)).unwrap().len(), 20);
    assert_eq!(breed(&steps(&[1, 2]), &mut rng, &options(2, 20)).unwrap().len(), 20);
    assert_eq!(breed(&steps(&[1, 2, 3]), &mut rng, &options(3, 3)).unwrap().len(), 3);
}

#[test]
fn breed_gives_every_parent_a_child_even_beyond_num_children() {
    let mut rng = RandomNumberGenerator::from_seed(8);
    let children = breed(&steps(&[0, 100, 200, 300, 400]), &mut rng, &options(2, 3)).unwrap();
    assert_eq!(children.len(), 5);
    assert_eq!(children[0], Step { value: 0 });
    for (i, child) in children.iter().enumerate().skip(1) {
        let crossed = Step { value: 0 }.crossover_spec(Step { value: 100 * i as i64 });
        assert!(crossed.can_mutate_to(*child));
    }
}

#[test]
fn breed_crosses_each_further_parent_into_the_elite_and_mutates() {
    let mut rng = RandomNumberGenerator::from_seed(9);
    let parents = steps(&[1000, 2000, 5000]);
    let children = breed(&parents, &mut rng, &options(3, 7)).unwrap();
    assert_eq!(children.len(), 7);
    assert!(Step { value: 1500 }.can_mutate_to(children[1]));
    assert!(Step { value: 3000 }.can_mutate_to(children[2]));
}

#[test]
fn breed_fills_the_pool_with_single_mutations_of_the_elite() {
    let mut rng = RandomNumberGenerator::from_seed(10);
    let parents = steps(&[1000, 2000]);
    let children = breed(&parents, &mut rng, &options(2, 40)).unwrap();
    let mut moved = false;
    for child in &children[2..] {
        assert!(Step { value: 1000 }.can_mutate_to(*child));
        if child.value != 1000 {
            moved = true;
        }
    }
    assert!(moved);
}

#[test]
fn breed_without_parents_is_invalid_input() {
    let mut rng = RandomNumberGenerator::from_seed(11);
    assert_eq!(
        breed::<Step, EvolutionOptions>(&Vec::new(), &mut rng, &options(2, 20)).err(),
        Some(EvolutionError::InvalidInput)
    );
    assert_eq!(
        OrdinaryEvolutionStrategy.breed(&Vec::<Step>::new(), &mut rng, &options(2, 20)).err(),
        Some(EvolutionError::InvalidInput)
    );
}

#[test]
fn the_ordinary_strategy_breeds_as_breed_does() {
    let mut first = RandomNumberGenerator::from_seed(12);
    let mut second = RandomNumberGenerator::from_seed(12);
    let parents = steps(&[50, 60, 70]);
    let by_strategy =
        OrdinaryEvolutionStrategy.breed(&parents, &mut first, &options(3, 9)).unwrap();
    let by_function = breed(&parents, &mut second, &options(3, 9)).unwrap();
    assert_eq!(by_strategy, by_function);
}

#[test]
fn in_range_includes_both_ends_of_the_window() {
    let options = window(2, 20, 3, 10);
    assert!(!in_range(&Step { value: 2 }, &options));
    assert!(in_range(&Step { value: 3 }, &options));
    assert!(in_range(&Step { value: -3 }, &options));
    assert!(in_range(&Step { value: 7 }, &options));
    assert!(in_range(&Step { value: 10 }, &options));
    assert!(in_range(&Step { value: -10 }, &options));
    assert!(!in_range(&Step { value: 11 }, &options));
    assert!(!in_range(&Step { value: 0 }, &options));
}

#[test]
fn the_search_budget_is_a_thousand_restarts_of_a_thousand_mutations() {
    assert_eq!(MAX_RESTARTS, 1000);
    assert_eq!(MAX_MUTATIONS, 1000);
}

#[test]
fn develop_returns_a_candidate_inside_the_window() {
    let mut rng = RandomNumberGenerator::from_seed(13);
    let options = window(2, 20, 3, 10);
    for start in [-30, -10, -3, 0, 3, 7, 10, 30] {
        let child = develop(Step { value: start }, &mut rng, &options).unwrap();
        assert!(in_range(&child, &options));
    }
}

#[test]
fn develop_always_mutates_at_least_once() {
    let mut rng = RandomNumberGenerator::from_seed(14);
    let options = window(2, 20, 0, 1_000_000);
    let mut moved = false;
    for _ in 0..50 {
        let child = develop(Step { value: 500 }, &mut rng, &options).unwrap();
        assert!(Step { value: 500 }.can_mutate_to(child));
        if child.value != 500 {
            moved = true;
        }
    }
    assert!(moved);
}

#[test]
fn develop_gives_up_when_the_window_cannot_be_reached() {
    let mut rng = RandomNumberGenerator::from_seed(15);
    let options = window(2, 20, 1_000_000_000, 2_000_000_000);
    assert_eq!(
        develop(Step { value: 7 }, &mut rng, &options).err(),
        Some(EvolutionError::ConstraintUnsatisfiable)
    );
}

#[test]
fn breed_partial_keeps_every_child_but_the_elite_inside_the_window() {
    let mut rng = RandomNumberGenerator::from_seed(16);
    let options = window(3, 30, 3, 10);
    let parents = steps(&[4, 9, -6]);
    for _ in 0..20 {
        let children = breed_partial(&parents, &mut rng, &options).unwrap();
        assert_eq!(children.len(), 30);
        for child in &children[1..] {
            assert!(3 <= child.magnitude() && child.magnitude() <= 10);
        }
    }
}

#[test]
fn breed_partial_leaves_the_elite_untouched_even_outside_the_window() {
    let mut rng = RandomNumberGenerator::from_seed(17);
    let options = window(2, 12, 3, 10);
    let children = breed_partial(&steps(&[0, 8]), &mut rng, &options).unwrap();
    assert_eq!(children[0], Step { value: 0 });
    assert_eq!(children.len(), 12);
    for child in &children[1..] {
        assert!(in_range(child, &options));
    }
}

#[test]
fn breed_partial_gives_every_parent_a_child_even_beyond_num_children() {
    let mut rng = RandomNumberGenerator::from_seed(18);
    let options = window(1, 2, 0, 100);
    let children = breed_partial(&steps(&[10, 20, 30, 40]), &mut rng, &options).unwrap();
    assert_eq!(children.len(), 4);
    assert_eq!(children[0], Step { value: 10 });
}

#[test]
fn breed_partial_without_parents_is_invalid_input() {
    let mut rng = RandomNumberGenerator::from_seed(19);
    let options = window(2, 20, 3, 10);
    assert_eq!(
        breed_partial::<Step, PartialEvolutionOptions>(&Vec::new(), &mut rng, &options).err(),
        Some(EvolutionError::InvalidInput)
    );
    assert_eq!(
        PartialEvolutionStrategy.breed(&Vec::<Step>::new(), &mut rng, &options).err(),
        Some(EvolutionError::InvalidInput)
    );
}

#[test]
fn breed_partial_fails_when_the_window_cannot_be_reached() {
    let mut rng = RandomNumberGenerator::from_seed(20);
    let options = window(2, 20, 1_000_000_000, 2_000_000_000);
    assert_eq!(
        breed_partial(&steps(&[7]), &mut rng, &options).err(),
        Some(EvolutionError::ConstraintUnsatisfiable)
    );
    assert_eq!(
        PartialEvolutionStrategy.breed(&steps(&[7, 9]), &mut rng, &options).err(),
        Some(EvolutionError::ConstraintUnsatisfiable)
    );
}

#[test]
fn breed_partial_with_one_child_returns_the_elite_alone() {
    let mut rng = RandomNumberGenerator::from_seed(21);
    let options = window(1, 1, 1_000_000_000, 2_000_000_000);
    let children = breed_partial(&steps(&[7]), &mut rng, &options).unwrap();
    assert_eq!(children, steps(&[7]));
}

#[test]
fn the_partial_strategy_breeds_as_breed_partial_does() {
    let mut first = RandomNumberGenerator::from_seed(22);
    let mut second = RandomNumberGenerator::from_seed(22);
    let options = window(3, 9, 3, 10);
    let parents = steps(&[5, 6, 7]);
    let by_strategy = PartialEvolutionStrategy.breed(&parents, &mut first, &options).unwrap();
    let by_function = breed_partial(&parents, &mut second, &options).unwrap();
    assert_eq!(by_strategy, by_function);
}
