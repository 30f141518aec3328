//! Breeding inside a window of magnitudes.
//!
//! The pool has the shape that unconstrained breeding gives it, but every
//! child except the untouched elite must have a magnitude inside the window
//! of the options. A child is searched for by rejection sampling: mutate,
//! test, and stop at the first candidate inside the window. The search has a
//! fixed budget and fails when the budget is spent.

use vstd::prelude::*;
use crate::error::EvolutionError;
use crate::random::RandomNumberGenerator;
use crate::traits::{
    always_breeds,
    is_elitist,
    pool_size,
    EvolutionStrategy,
    PartialEvolutionOptionsTrait,
    PartialPhenotype,
};

verus! {

/// How often a search starts again from its first mutation.
pub const MAX_RESTARTS: usize = 1000;

/// How many mutations a search chains after each start.
pub const MAX_MUTATIONS: usize = 1000;

/// Whether `magnitude` lies in the window from `min_magnitude` to
/// `max_magnitude`, both ends included.
pub open spec fn in_window(magnitude: u64, min_magnitude: u64, max_magnitude: u64) -> bool {
    min_magnitude <= magnitude <= max_magnitude
}

/// Whether the magnitude of `phenotype` lies in the window of `options`.
pub open spec fn is_admissible<
    Pheno: PartialPhenotype,
    EvolOptions: PartialEvolutionOptionsTrait,
>(
    phenotype: Pheno,
    options: &EvolOptions,
) -> bool {
    in_window(phenotype.magnitude_spec(), options.min_magnitude(), options.max_magnitude())
}

/// Whether `path` can be the way of one successful search: each step is a
/// mutation of the one before, no candidate before the last lies inside the
/// window, and the last does. The first entry is what the search was given
/// and is not tested.
pub open spec fn is_search_path<
    Pheno: PartialPhenotype,
    EvolOptions: PartialEvolutionOptionsTrait,
>(
    path: Seq<Pheno>,
    options: &EvolOptions,
) -> bool {
    &&& 2 <= path.len() <= 2 + MAX_MUTATIONS
    &&& forall|i: int|
        0 <= i < path.len() - 1 ==> (#[trigger] path[i]).can_mutate_to(path[i + 1])
    &&& forall|i: int| 1 <= i < path.len() - 1 ==> !is_admissible(#[trigger] path[i], options)
    &&& is_admissible(path.last(), options)
}

/// Whether a search that starts from `candidate` can end with `child`.
pub open spec fn develops_to<
    Pheno: PartialPhenotype,
    EvolOptions: PartialEvolutionOptionsTrait,
>(
    candidate: Pheno,
    options: &EvolOptions,
    child: Pheno,
) -> bool {
    exists|path: Seq<Pheno>|
        is_search_path(path, options) && path[0] == candidate && path.last() == child
}

/// Whether `chain` can be the way of one start of a search that found
/// nothing: `MAX_MUTATIONS` candidates, the first a mutation of `base` and
/// each further one a mutation of the one before, none of them inside the
/// window.
pub open spec fn is_failed_chain<
    Pheno: PartialPhenotype,
    EvolOptions: PartialEvolutionOptionsTrait,
>(
    base: Pheno,
    chain: Seq<Pheno>,
    options: &EvolOptions,
) -> bool {
    &&& chain.len() == MAX_MUTATIONS
    &&& base.can_mutate_to(chain[0])
    &&& forall|i: int|
        0 <= i < chain.len() - 1 ==> (#[trigger] chain[i]).can_mutate_to(chain[i + 1])
    &&& forall|i: int| 0 <= i < chain.len() ==> !is_admissible(#[trigger] chain[i], options)
}

/// Whether a search that starts from `candidate` can fail: its first
/// mutation misses the window, and so does every candidate of
/// `MAX_RESTARTS` chains of mutations from there. A search fails only once
/// its whole budget is spent.
pub open spec fn search_fails<
    Pheno: PartialPhenotype,
    EvolOptions: PartialEvolutionOptionsTrait,
>(
    candidate: Pheno,
    options: &EvolOptions,
) -> bool {
    exists|base: Pheno, attempts: Seq<Seq<Pheno>>|
        {
            &&& candidate.can_mutate_to(base)
            &&& !is_admissible(base, options)
            &&& attempts.len() == MAX_RESTARTS
            &&& forall|r: int|
                0 <= r < attempts.len() ==> is_failed_chain(base, #[trigger] attempts[r], options)
        }
}

/// Whether `breed_partial` searches from `candidate` when it breeds
/// `num_children` children from `parents`: the candidate is the first
/// parent crossed with a further one, or it is the first parent and there
/// are fewer parents than children.
pub open spec fn is_search_start<Pheno: PartialPhenotype>(
    parents: Seq<Pheno>,
    num_children: nat,
    candidate: Pheno,
) -> bool {
    ||| exists|i: int|
        1 <= i < parents.len() && candidate == parents[0].crossover_spec(#[trigger] parents[i])
    ||| parents.len() < num_children && candidate == parents[0]
}

/// Whether `children` can be the pool that `breed_partial` makes of
/// `parents`: the first parent unchanged and untested, then for each
/// further parent the end of a search from the first parent crossed with it,
/// then ends of searches from the first parent.
pub open spec fn is_partial_brood<
    Pheno: PartialPhenotype,
    EvolOptions: PartialEvolutionOptionsTrait,
>(
    parents: Seq<Pheno>,
    options: &EvolOptions,
    children: Seq<Pheno>,
) -> bool {
    &&& parents.len() > 0
    &&& children.len() == pool_size(parents.len(), options.num_children() as nat)
    &&& children[0] == parents[0]
    &&& forall|i: int|
        1 <= i < parents.len() ==> develops_to(
            parents[0].crossover_spec(parents[i]),
            options,
            #[trigger] children[i],
        )
    &&& forall|i: int|
        parents.len() <= i < children.len() ==> develops_to(
            parents[0],
            options,
            #[trigger] children[i],
        )
}

/// Tests whether the magnitude of `phenotype` lies in the window of
/// `evol_options`.
pub fn in_range<Pheno: PartialPhenotype, EvolOptions: PartialEvolutionOptionsTrait>(
    phenotype: &Pheno,
    evol_options: &EvolOptions,
) -> (inside: bool)
    ensures
        inside == is_admissible(*phenotype, evol_options),
{
    let magnitude = phenotype.magnitude();
    let min_magnitude = evol_options.get_min_magnitude();
    let max_magnitude = evol_options.get_max_magnitude();
    magnitude >= min_magnitude && magnitude <= max_magnitude
}

/// Searches for a child of `candidate` inside the window. The candidate is
/// mutated once; if that misses the window, up to `MAX_RESTARTS` times a
/// chain of up to `MAX_MUTATIONS` further mutations is tried from there. The
/// first candidate inside the window is returned. When the budget is spent,
/// and not before, the search fails with `ConstraintUnsatisfiable`.
pub fn develop<Pheno: PartialPhenotype, EvolOptions: PartialEvolutionOptionsTrait>(
    candidate: Pheno,
    rng: &mut RandomNumberGenerator,
    evol_options: &EvolOptions,
) -> (developed: Result<Pheno, EvolutionError>)
    ensures
        developed matches Ok(child) ==> develops_to(candidate, evol_options, child),
        developed is Err ==> developed == Err::<Pheno, EvolutionError>(
            EvolutionError::ConstraintUnsatisfiable,
        ) && search_fails(candidate, evol_options),
{
    let mut base = candidate;
    base.mutate(rng);
    if in_range(&base, evol_options) {
        proof {
            // The way of the search is its one step.
            let path = seq![candidate, base];
            assert(path[0] == candidate && path.last() == base);
        }
        return Ok(base);
    }
    let mut restart: usize = 0;
    let ghost mut attempts: Seq<Seq<Pheno>> = Seq::empty();
    while restart < MAX_RESTARTS
        invariant
            restart <= MAX_RESTARTS,
            candidate.can_mutate_to(base),
            !is_admissible(base, evol_options),
            attempts.len() == restart,
            forall|r: int|
                0 <= r < attempts.len() ==> is_failed_chain(
                    base,
                    #[trigger] attempts[r],
                    evol_options,
                ),
        decreases MAX_RESTARTS - restart,
    {
        let mut current = base;
        let ghost mut path = seq![candidate, base];
        let mut step: usize = 0;
        while step < MAX_MUTATIONS
            invariant
                step <= MAX_MUTATIONS,
                path.len() == 2 + step,
                path[0] == candidate,
                path[1] == base,
                path.last() == current,
                forall|i: int|
                    0 <= i < path.len() - 1 ==> (#[trigger] path[i]).can_mutate_to(path[i + 1]),
                forall|i: int|
                    1 <= i < path.len() ==> !is_admissible(#[trigger] path[i], evol_options),
            decreases MAX_MUTATIONS - step,
        {
            current.mutate(rng);
            step += 1;
            proof {
                path = path.push(current);
            }
            if in_range(&current, evol_options) {
                proof {
                    // The way of the search is the path gone so far.
                    assert(path[0] == candidate && path.last() == current);
                }
                return Ok(current);
            }
        }
        proof {
            // One more chain from `base` has found nothing.
            attempts = attempts.push(path.subrange(2, path.len() as int));
        }
        restart += 1;
    }
    Err(EvolutionError::ConstraintUnsatisfiable)
}

/// Breeds the children of `parents`, of which the first is the elite,
/// inside the window of `evol_options`. The call fails with `InvalidInput`
/// exactly when there is no parent, and with `ConstraintUnsatisfiable` when
/// the search for one of the children fails. Where no child is searched
/// for, with one parent and no more than one child, it succeeds.
pub fn breed_partial<Pheno: PartialPhenotype, EvolOptions: PartialEvolutionOptionsTrait>(
    parents: &Vec<Pheno>,
    rng: &mut RandomNumberGenerator,
    evol_options: &EvolOptions,
) -> (bred: Result<Vec<Pheno>, EvolutionError>)
    ensures
        parents@.len() == 0 ==> bred == Err::<Vec<Pheno>, EvolutionError>(
            EvolutionError::InvalidInput,
        ),
        parents@.len() > 0 && bred is Err ==> bred == Err::<Vec<Pheno>, EvolutionError>(
            EvolutionError::ConstraintUnsatisfiable,
        ) && exists|candidate: Pheno|
            is_search_start(parents@, evol_options.num_children() as nat, candidate)
                && search_fails(candidate, evol_options),
        bred matches Ok(children) ==> is_partial_brood(parents@, evol_options, children@),
        bred matches Ok(children) ==> forall|i: int|
            1 <= i < children@.len() ==> is_admissible(#[trigger] children@[i], evol_options),
{
    if parents.len() == 0 {
        return Err(EvolutionError::InvalidInput);
    }
    let num_children = evol_options.get_num_children();
    let elite = parents[0];
    let mut children: Vec<Pheno> = Vec::new();
    children.push(elite);
    let mut i: usize = 1;
    while i < parents.len()
        invariant
            1 <= i <= parents@.len(),
            num_children == evol_options.num_children(),
            elite == parents@[0],
            children@.len() == i,
            children@[0] == parents@[0],
            forall|k: int|
                1 <= k < i ==> develops_to(
                    parents@[0].crossover_spec(parents@[k]),
                    evol_options,
                    #[trigger] children@[k],
                ),
        decreases parents@.len() - i,
    {
        let mut crossed = elite;
        crossed.crossover(&parents[i]);
        match develop(crossed, rng, evol_options) {
            Ok(child) => {
                children.push(child);
            },
            Err(error) => {
                proof {
                    assert(crossed == parents@[0].crossover_spec(parents@[i as int]));
                    assert(is_search_start(parents@, num_children as nat, crossed));
                }
                return Err(error);
            },
        }
        i += 1;
    }
    while i < num_children
        invariant
            1 <= parents@.len() <= i,
            i <= pool_size(parents@.len(), num_children as nat),
            num_children == evol_options.num_children(),
            elite == parents@[0],
            children@.len() == i,
            children@[0] == parents@[0],
            forall|k: int|
                1 <= k < parents@.len() ==> develops_to(
                    parents@[0].crossover_spec(parents@[k]),
                    evol_options,
                    #[trigger] children@[k],
                ),
            forall|k: int|
                parents@.len() <= k < i ==> develops_to(
                    parents@[0],
                    evol_options,
                    #[trigger] children@[k],
                ),
        decreases num_children - i,
    {
        match develop(elite, rng, evol_options) {
            Ok(child) => {
                children.push(child);
            },
            Err(error) => {
                proof {
                    assert(is_search_start(parents@, num_children as nat, elite));
                }
                return Err(error);
            },
        }
        i += 1;
    }
    Ok(children)
}

/// The strategy that breeds with `breed_partial`.
pub struct PartialEvolutionStrategy;

impl<Pheno: PartialPhenotype, EvolOptions: PartialEvolutionOptionsTrait> EvolutionStrategy<
    Pheno,
    EvolOptions,
> for PartialEvolutionStrategy {
    fn breed(
        &self,
        parents: &Vec<Pheno>,
        rng: &mut RandomNumberGenerator,
        evol_options: &EvolOptions,
    ) -> (bred: Result<Vec<Pheno>, EvolutionError>)
        ensures
            parents@.len() > 0 && bred is Err ==> exists|candidate: Pheno|
                is_search_start(parents@, evol_options.num_children() as nat, candidate)
                    && search_fails(candidate, evol_options),
            bred matches Ok(children) ==> is_partial_brood(parents@, evol_options, children@),
            bred matches Ok(children) ==> forall|i: int|
                1 <= i < children@.len() ==> is_admissible(#[trigger] children@[i], evol_options),
    {
        breed_partial(parents, rng, evol_options)
    }
}

/// A search cannot fail where every magnitude is admissible.
pub proof fn lemma_search_in_the_widest_window<
    Pheno: PartialPhenotype,
    EvolOptions: PartialEvolutionOptionsTrait,
>(candidate: Pheno, options: &EvolOptions)
    requires
        options.min_magnitude() == 0,
        options.max_magnitude() == u64::MAX,
    ensures
        !search_fails(candidate, options),
{
}

/// Breeding inside the widest window never fails on parents.
pub proof fn lemma_partial_strategy_in_the_widest_window<
    Pheno: PartialPhenotype,
    EvolOptions: PartialEvolutionOptionsTrait,
>(options: &EvolOptions)
    requires
        options.min_magnitude() == 0,
        options.max_magnitude() == u64::MAX,
    ensures
        always_breeds::<Pheno, EvolOptions, PartialEvolutionStrategy>(
            &PartialEvolutionStrategy,
            options,
        ),
{
}

/// Breeding inside a window keeps the elite.
pub proof fn lemma_partial_strategy_is_elitist<
    Pheno: PartialPhenotype,
    EvolOptions: PartialEvolutionOptionsTrait,
>(options: &EvolOptions)
    ensures
        is_elitist::<Pheno, EvolOptions, PartialEvolutionStrategy>(
            &PartialEvolutionStrategy,
            options,
        ),
{
}

} // verus!
