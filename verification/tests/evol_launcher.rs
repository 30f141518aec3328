use evol::error::EvolutionError;
use evol::evol_launcher::{evolution, partial_evolution, EvolutionLauncher};
use evol::log::LogRecord;
use evol::evol_options::{EvolutionOptions, PartialEvolutionOptions};
use evol::ordinary_evol_strategy::OrdinaryEvolutionStrategy;
use evol::partial_evol_strategy::PartialEvolutionStrategy;
use evol::random::RandomNumberGenerator;
use evol::traits::{PartialPhenotype, Phenotype};

/// Maps a score to an integer so that a higher score gives a higher integer.
fn score_key(score: f64) -> i64 {
    let bits = score.to_bits() as i64;
    if bits < 0 {
        bits ^ i64::MAX
    } else {
        bits
    }
}

/// Maps a magnitude, which is never negative, to an integer of the same order.
fn magnitude_key(magnitude: f64) -> u64 {
    magnitude.to_bits()
}

#[derive(Debug, Default, Copy, Clone)]
pub struct XCoordinate {
    x: f64,
}

impl XCoordinate {
    pub fn new(x: f64) -> XCoordinate {
        XCoordinate { x }
    }

    pub fn x(&self) -> f64 {
        self.x
    }
}

impl Phenotype for XCoordinate {
    fn crossover_spec(self, other: Self) -> Self {
        XCoordinate { x: (self.x + other.x) / 2.0 }
    }

    fn can_mutate_to(self, next: Self) -> bool {
        (next.x - self.x).abs() <= 1.0
    }

    fn crossover(&mut self, other: &Self) {
        self.x = (self.x + other.x) / 2.0;
    }

    fn mutate(&mut self, rng: &mut RandomNumberGenerator) {
        let delta = rng.fetch_uniform(-1_000_000, 1_000_000, 1)[0] as f64;
        self.x += delta / 1_000_000.0;
    }

    fn to_string_internal(&self) -> String {
        format!("x: {}", self.x)
    }
}

impl PartialPhenotype for XCoordinate {
    fn magnitude_spec(&self) -> u64 {
        magnitude_key(self.x.abs())
    }

    fn magnitude(&self) -> u64 {
        magnitude_key(self.x.abs())
    }
}

pub struct XCoordinateChallenge {
    target: f64,
}

impl XCoordinateChallenge {
    pub fn new(target: f64) -> Self {
        Self { target }
    }

    pub fn score(&self, phenotype: XCoordinate) -> f64 {
        let x_coordinate = phenotype.x();
        let delta = x_coordinate - self.target;
        1.0 / (delta * delta)
    }
}

#[test]
fn test_ordinary() {
    let mut rng = RandomNumberGenerator::new();
    let starting_value = XCoordinate::new(0.0);
    let evol_options = EvolutionOptions::new();
    let strategy = OrdinaryEvolutionStrategy;
    let challenge = XCoordinateChallenge::new(2.0);
    let launcher = EvolutionLauncher::new(strategy, move |phenotype: XCoordinate| {
        score_key(challenge.score(phenotype))
    });
    let mut log = Vec::new();
    let winner = launcher.evolve(evol_options, starting_value, &mut rng, &mut log).unwrap();
    assert!((winner.winner.x() - 2.0).abs() < 1e-2);
}

#[test]
fn test_partial() {
    let mut rng = RandomNumberGenerator::new();
    let starting_value = XCoordinate::new(7.0);
    let evol_options = PartialEvolutionOptions::new(
        EvolutionOptions::new(),
        magnitude_key(3.0),
        magnitude_key(10.0),
    )
    .unwrap();
    let strategy = PartialEvolutionStrategy;
    let challenge = XCoordinateChallenge::new(2.0);
    let launcher = EvolutionLauncher::new(strategy, move |phenotype: XCoordinate| {
        score_key(challenge.score(phenotype))
    });
    let mut log = Vec::new();
    let winner = launcher.evolve(evol_options, starting_value, &mut rng, &mut log).unwrap();
    assert!((winner.winner.x() - 3.0).abs() < 1e-2);
}

#[test]
fn ordinary_evol_test_evol() {
    let mut rng = RandomNumberGenerator::new();
    let challenge = XCoordinateChallenge::new(2.0);
    let starting_value = XCoordinate::new(0.0);
    let evol_options = EvolutionOptions::new();
    let mut log = Vec::new();
    let winner = evolution(
        starting_value,
        &OrdinaryEvolutionStrategy,
        &|phenotype: XCoordinate| score_key(challenge.score(phenotype)),
        &evol_options,
        &mut rng,
        &mut log,
    )
    .unwrap();
    assert!((winner.winner.x() - 2.0).abs() < 1e-2);
}

#[test]
fn partial_evol_test_evol() {
    let mut rng = RandomNumberGenerator::new();
    let challenge = XCoordinateChallenge::new(2.0);
    let starting_value = XCoordinate::new(7.0);
    let evol_options = PartialEvolutionOptions::new(
        EvolutionOptions::new(),
        magnitude_key(3.0),
        magnitude_key(10.0),
    )
    .unwrap();
    let mut log = Vec::new();
    let winner = partial_evolution(
        starting_value,
        &|phenotype: XCoordinate| score_key(challenge.score(phenotype)),
        &evol_options,
        &mut rng,
        &mut log,
    )
    .unwrap();
    assert!((winner.winner.x() - 3.0).abs() < 1e-2);
}

#[test]
fn unsatisfiable_window_is_an_error() {
    let mut rng = RandomNumberGenerator::from_seed(11);
    let starting_value = XCoordinate::new(7.0);
    let evol_options = PartialEvolutionOptions::new(
        EvolutionOptions::new(),
        magnitude_key(1e9),
        magnitude_key(2e9),
    )
    .unwrap();
    let challenge = XCoordinateChallenge::new(2.0);
    let launcher = EvolutionLauncher::new(PartialEvolutionStrategy, move |phenotype: XCoordinate| {
        score_key(challenge.score(phenotype))
    });
    let mut log: Vec<LogRecord> = Vec::new();
    let outcome = launcher.evolve(evol_options, starting_value, &mut rng, &mut log);
    assert_eq!(outcome.err(), Some(EvolutionError::ConstraintUnsatisfiable));
    assert!(log.is_empty());
}
