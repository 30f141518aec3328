//! What a candidate, a set of options and a breeding strategy must offer.
//!
//! Each trait pairs its executable methods with specification functions: an
//! implementation says in the specification functions what its methods do,
//! and the engine's contracts are stated over them.

use vstd::prelude::*;
use crate::error::EvolutionError;
use crate::random::RandomNumberGenerator;

verus! {

/// A candidate solution: a plain value that can be combined with another
/// candidate and perturbed at random.
pub trait Phenotype: Copy {
    /// The candidate that `crossover` makes of `self` and `other`. Being a
    /// function, it fixes that the combination depends on the two values
    /// alone.
    spec fn crossover_spec(self, other: Self) -> Self;

    /// Whether one call of `mutate` can turn `self` into `next`.
    spec fn can_mutate_to(self, next: Self) -> bool;

    /// Combines `self` with `other`, in place.
    fn crossover(&mut self, other: &Self)
        ensures
            *final(self) == old(self).crossover_spec(*other),
    ;

    /// Perturbs `self`, in place, with samples drawn from `rng`.
    fn mutate(&mut self, rng: &mut RandomNumberGenerator)
        ensures
            old(self).can_mutate_to(*final(self)),
    ;

    /// A rendering of the candidate for log records. Nothing in the engine
    /// depends on the text.
    fn to_string_internal(&self) -> String;
}

/// A candidate with a magnitude, by which a strategy can confine the search
/// to a window.
pub trait PartialPhenotype: Phenotype {
    /// The candidate's magnitude, a function of its value alone.
    spec fn magnitude_spec(&self) -> u64;

    /// Computes the candidate's magnitude.
    fn magnitude(&self) -> (m: u64)
        ensures
            m == self.magnitude_spec(),
    ;
}

/// The settings of a run.
pub trait EvolutionOptionsTrait: Clone {
    /// How many generations a run crosses.
    spec fn num_generations(&self) -> usize;

    /// How much a run records: nothing at 0, each generation's number from 1,
    /// and every ranked candidate as well from 2.
    spec fn log_level(&self) -> usize;

    /// How many of the fittest candidates become the next parents.
    spec fn num_parents(&self) -> usize;

    /// How many candidates a generation breeds.
    spec fn num_children(&self) -> usize;

    /// Reads `num_generations`.
    fn get_num_generations(&self) -> (n: usize)
        ensures
            n == self.num_generations(),
    ;

    /// Reads `log_level`.
    fn get_log_level(&self) -> (level: usize)
        ensures
            level == self.log_level(),
    ;

    /// Reads `num_parents`.
    fn get_num_parents(&self) -> (n: usize)
        ensures
            n == self.num_parents(),
    ;

    /// Reads `num_children`.
    fn get_num_children(&self) -> (n: usize)
        ensures
            n == self.num_children(),
    ;
}

/// Settings that add the window of magnitudes a bred candidate may have,
/// both ends included.
pub trait PartialEvolutionOptionsTrait: EvolutionOptionsTrait {
    /// The smallest admissible magnitude.
    spec fn min_magnitude(&self) -> u64;

    /// The largest admissible magnitude.
    spec fn max_magnitude(&self) -> u64;

    /// Reads `min_magnitude`.
    fn get_min_magnitude(&self) -> (m: u64)
        ensures
            m == self.min_magnitude(),
    ;

    /// Reads `max_magnitude`.
    fn get_max_magnitude(&self) -> (m: u64)
        ensures
            m == self.max_magnitude(),
    ;
}

/// The rules that every set of options obeys: at least one generation, at
/// least one parent, and no fewer children than parents.
pub open spec fn valid_settings(
    num_generations: usize,
    num_parents: usize,
    num_children: usize,
) -> bool {
    &&& num_generations >= 1
    &&& num_parents >= 1
    &&& num_children >= num_parents
}

/// `valid_settings` of what `options` holds.
pub open spec fn valid_options<EvolOptions: EvolutionOptionsTrait>(options: &EvolOptions) -> bool {
    valid_settings(options.num_generations(), options.num_parents(), options.num_children())
}

/// How many children the strategies of this crate return: one per parent,
/// and more until `num_children` is reached. With no more parents than
/// `num_children`, that is `num_children`.
pub open spec fn pool_size(num_parents: nat, num_children: nat) -> nat {
    if num_parents <= num_children {
        num_children
    } else {
        num_parents
    }
}

/// A policy that turns the parents of one generation into its children.
pub trait EvolutionStrategy<Pheno: Phenotype, EvolOptions: EvolutionOptionsTrait> {
    /// Breeds the children of `parents`. Without a parent there is nothing
    /// to breed from, and the error says so; a strategy fails on parents
    /// only for want of an admissible candidate. What the children are is
    /// for each strategy to say.
    fn breed(
        &self,
        parents: &Vec<Pheno>,
        rng: &mut RandomNumberGenerator,
        evol_options: &EvolOptions,
    ) -> (bred: Result<Vec<Pheno>, EvolutionError>)
        ensures
            parents@.len() == 0 ==> bred == Err::<Vec<Pheno>, EvolutionError>(
                EvolutionError::InvalidInput,
            ),
            parents@.len() > 0 && bred is Err ==> bred == Err::<Vec<Pheno>, EvolutionError>(
                EvolutionError::ConstraintUnsatisfiable,
            ),
    ;
}

/// Whether a call of `strategy.breed` on `parents` under `options` can
/// return `bred`, by the contract of the strategy.
pub open spec fn may_breed<
    Pheno: Phenotype,
    EvolOptions: EvolutionOptionsTrait,
    Strategy: EvolutionStrategy<Pheno, EvolOptions>,
>(
    strategy: &Strategy,
    parents: &Vec<Pheno>,
    options: &EvolOptions,
    bred: Result<Vec<Pheno>, EvolutionError>,
) -> bool {
    exists|rng: &mut RandomNumberGenerator|
        call_ensures(Strategy::breed, (strategy, parents, rng, options), bred)
}

/// Whether `strategy` keeps the elite: whenever it breeds from parents, the
/// first child is the first parent.
pub open spec fn is_elitist<
    Pheno: Phenotype,
    EvolOptions: EvolutionOptionsTrait,
    Strategy: EvolutionStrategy<Pheno, EvolOptions>,
>(strategy: &Strategy, options: &EvolOptions) -> bool {
    forall|parents: Vec<Pheno>, children: Vec<Pheno>|
        parents@.len() > 0 && #[trigger] may_breed(strategy, &parents, options, Ok(children))
            ==> children@.len() > 0 && children@[0] == parents@[0]
}

/// Whether `strategy` never fails on parents, and never returns an empty
/// pool.
pub open spec fn always_breeds<
    Pheno: Phenotype,
    EvolOptions: EvolutionOptionsTrait,
    Strategy: EvolutionStrategy<Pheno, EvolOptions>,
>(strategy: &Strategy, options: &EvolOptions) -> bool {
    forall|parents: Vec<Pheno>, bred: Result<Vec<Pheno>, EvolutionError>|
        parents@.len() > 0 && #[trigger] may_breed(strategy, &parents, options, bred) ==> (
        bred matches Ok(children) && children@.len() > 0)
}

} // verus!
