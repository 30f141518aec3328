//! Breeding without constraint: the elite survives as it is, every other
//! parent is crossed into it, and the rest of the pool are mutations of the
//! elite.

use vstd::prelude::*;
use crate::error::EvolutionError;
use crate::random::RandomNumberGenerator;
use crate::traits::{
    always_breeds,
    is_elitist,
    pool_size,
    EvolutionOptionsTrait,
    EvolutionStrategy,
    Phenotype,
};

verus! {

/// Whether `children` can be the pool that `breed` makes of `parents`:
/// the first parent unchanged, then for each further parent one mutation of
/// the first parent crossed with it, then single mutations of the first
/// parent until `num_children` are reached.
pub open spec fn is_ordinary_brood<Pheno: Phenotype>(
    parents: Seq<Pheno>,
    num_children: nat,
    children: Seq<Pheno>,
) -> bool {
    &&& parents.len() > 0
    &&& children.len() == pool_size(parents.len(), num_children)
    &&& children[0] == parents[0]
    &&& forall|i: int|
        1 <= i < parents.len() ==> parents[0].crossover_spec(parents[i]).can_mutate_to(
            #[trigger] children[i],
        )
    &&& forall|i: int|
        parents.len() <= i < children.len() ==> parents[0].can_mutate_to(#[trigger] children[i])
}

/// Breeds the children of `parents`, of which the first is the elite. The
/// call fails, with `InvalidInput`, exactly when there is no parent.
pub fn breed<Pheno: Phenotype, EvolOptions: EvolutionOptionsTrait>(
    parents: &Vec<Pheno>,
    rng: &mut RandomNumberGenerator,
    evol_options: &EvolOptions,
) -> (bred: Result<Vec<Pheno>, EvolutionError>)
    ensures
        parents@.len() == 0 ==> bred == Err::<Vec<Pheno>, EvolutionError>(
            EvolutionError::InvalidInput,
        ),
        parents@.len() > 0 ==> (bred matches Ok(children) && is_ordinary_brood(
            parents@,
            evol_options.num_children() as nat,
            children@,
        )),
{
    if parents.len() == 0 {
        return Err(EvolutionError::InvalidInput);
    }
    let num_children = evol_options.get_num_children();
    let elite = parents[0];
    let mut children: Vec<Pheno> = Vec::new();
    children.push(elite);
    let mut i: usize = 1;
    while i < parents.len()
        invariant
            1 <= i <= parents@.len(),
            elite == parents@[0],
            children@.len() == i,
            children@[0] == parents@[0],
            forall|k: int|
                1 <= k < i ==> parents@[0].crossover_spec(parents@[k]).can_mutate_to(
                    #[trigger] children@[k],
                ),
        decreases parents@.len() - i,
    {
        let mut child = elite;
        child.crossover(&parents[i]);
        child.mutate(rng);
        children.push(child);
        i += 1;
    }
    while i < num_children
        invariant
            1 <= parents@.len() <= i,
            i <= pool_size(parents@.len(), num_children as nat),
            elite == parents@[0],
            children@.len() == i,
            children@[0] == parents@[0],
            forall|k: int|
                1 <= k < parents@.len() ==> parents@[0].crossover_spec(parents@[k]).can_mutate_to(
                    #[trigger] children@[k],
                ),
            forall|k: int|
                parents@.len() <= k < i ==> parents@[0].can_mutate_to(#[trigger] children@[k]),
        decreases num_children - i,
    {
        let mut child = elite;
        child.mutate(rng);
        children.push(child);
        i += 1;
    }
    Ok(children)
}

/// The strategy that breeds with `breed`.
pub struct OrdinaryEvolutionStrategy;

impl<Pheno: Phenotype, EvolOptions: EvolutionOptionsTrait> EvolutionStrategy<
    Pheno,
    EvolOptions,
> for OrdinaryEvolutionStrategy {
    fn breed(
        &self,
        parents: &Vec<Pheno>,
        rng: &mut RandomNumberGenerator,
        evol_options: &EvolOptions,
    ) -> (bred: Result<Vec<Pheno>, EvolutionError>)
        ensures
            parents@.len() > 0 ==> (bred matches Ok(children) && is_ordinary_brood(
                parents@,
                evol_options.num_children() as nat,
                children@,
            )),
    {
        breed(parents, rng, evol_options)
    }
}

/// Unconstrained breeding keeps the elite, and never fails on parents.
pub proof fn lemma_ordinary_strategy_is_elitist<
    Pheno: Phenotype,
    EvolOptions: EvolutionOptionsTrait,
>(options: &EvolOptions)
    ensures
        is_elitist::<Pheno, EvolOptions, OrdinaryEvolutionStrategy>(
            &OrdinaryEvolutionStrategy,
            options,
        ),
        always_breeds::<Pheno, EvolOptions, OrdinaryEvolutionStrategy>(
            &OrdinaryEvolutionStrategy,
            options,
        ),
{
}

} // verus!
