//! One generation: breed, score, rank, record.

use vstd::prelude::*;
use crate::error::EvolutionError;
use crate::evol_coordinator::EvolutionCoordinator;
use crate::log::{generation_log, is_generation_log, LogRecord};
use crate::random::RandomNumberGenerator;
use crate::ranking::{is_ranking, rank, EvolutionResult};
use crate::traits::{may_breed, EvolutionOptionsTrait, EvolutionStrategy, Phenotype};

verus! {

/// Whether `fitness` pairs each of `candidates`, in order, with a score
/// that `score_fn` gave it.
pub open spec fn is_scored_pool<Pheno: Phenotype, ScoreFn: Fn(Pheno) -> i64>(
    candidates: Seq<Pheno>,
    score_fn: ScoreFn,
    fitness: Seq<EvolutionResult<Pheno>>,
) -> bool {
    &&& fitness.len() == candidates.len()
    &&& forall|i: int|
        0 <= i < fitness.len() ==> (#[trigger] fitness[i]).winner == candidates[i]
            && call_ensures(score_fn, (candidates[i],), fitness[i].score)
}

/// Whether `score_fn` gives each candidate one score only.
pub open spec fn is_deterministic<Pheno: Phenotype, ScoreFn: Fn(Pheno) -> i64>(
    score_fn: ScoreFn,
) -> bool {
    forall|p: Pheno, a: i64, b: i64|
        #![trigger call_ensures(score_fn, (p,), a), call_ensures(score_fn, (p,), b)]
        call_ensures(score_fn, (p,), a) && call_ensures(score_fn, (p,), b) ==> a == b
}

/// Scores every candidate once, in order. The candidates are handed to
/// `score_fn` as copies and come back as they were.
pub fn score_candidates<Pheno: Phenotype, ScoreFn: Fn(Pheno) -> i64>(
    candidates: &Vec<Pheno>,
    score_fn: &ScoreFn,
) -> (fitness: Vec<EvolutionResult<Pheno>>)
    requires
        forall|i: int|
            0 <= i < candidates@.len() ==> call_requires(*score_fn, (#[trigger] candidates@[i],)),
    ensures
        is_scored_pool(candidates@, *score_fn, fitness@),
{
    let mut fitness: Vec<EvolutionResult<Pheno>> = Vec::new();
    let mut i: usize = 0;
    while i < candidates.len()
        invariant
            i <= candidates@.len(),
            fitness@.len() == i,
            forall|k: int|
                0 <= k < candidates@.len() ==> call_requires(
                    *score_fn,
                    (#[trigger] candidates@[k],),
                ),
            forall|k: int|
                0 <= k < i ==> (#[trigger] fitness@[k]).winner == candidates@[k] && call_ensures(
                    *score_fn,
                    (candidates@[k],),
                    fitness@[k].score,
                ),
        decreases candidates@.len() - i,
    {
        let candidate = candidates[i];
        let score = score_fn(candidate);
        fitness.push(EvolutionResult { winner: candidate, score });
        i += 1;
    }
    fitness
}

/// What one generation of a run went through: the parents it bred from,
/// the children it bred, their scores, their ranking, and what it recorded.
pub struct GenerationTrace<Pheno: Phenotype> {
    pub parents: Vec<Pheno>,
    pub children: Vec<Pheno>,
    pub pool: Seq<EvolutionResult<Pheno>>,
    pub ranked: Seq<EvolutionResult<Pheno>>,
    pub records: Seq<LogRecord>,
}

/// Whether `trace` can be the generation of number `number` in a run with
/// `strategy`, `score_fn` and `options`: the strategy can breed the children
/// from the parents, there is at least one child, each child has a score
/// that `score_fn` gave it, the ranking is that of the scored children, and
/// the records are those of the ranking.
#[verifier::opaque]
pub open spec fn is_generation<
    Pheno: Phenotype,
    EvolOptions: EvolutionOptionsTrait,
    Strategy: EvolutionStrategy<Pheno, EvolOptions>,
    ScoreFn: Fn(Pheno) -> i64,
>(
    strategy: &Strategy,
    score_fn: ScoreFn,
    options: &EvolOptions,
    number: usize,
    trace: GenerationTrace<Pheno>,
) -> bool {
    &&& may_breed(strategy, &trace.parents, options, Ok(trace.children))
    &&& trace.children@.len() > 0
    &&& is_scored_pool(trace.children@, score_fn, trace.pool)
    &&& is_ranking(trace.pool, trace.ranked)
    &&& is_generation_log(options.log_level(), number, trace.ranked, trace.records)
}

/// Whether a generation that breeds from `parents` can fail with `error`:
/// the strategy can fail so, or the error is `EmptyPopulation` and the
/// strategy can return no child at all.
pub open spec fn generation_fails_with<
    Pheno: Phenotype,
    EvolOptions: EvolutionOptionsTrait,
    Strategy: EvolutionStrategy<Pheno, EvolOptions>,
>(strategy: &Strategy, parents: &Vec<Pheno>, options: &EvolOptions, error: EvolutionError) -> bool {
    ||| may_breed(strategy, parents, options, Err(error))
    ||| error == EvolutionError::EmptyPopulation && exists|children: Vec<Pheno>|
        children@.len() == 0 && may_breed(strategy, parents, options, Ok(children))
}

/// Runs one generation: advances `coordinator`, breeds the children of
/// `parents`, scores and ranks them, and appends the generation's records
/// to `log`. The ranking is returned, best candidate first.
///
/// Once the budget of `coordinator` is spent the call fails with
/// `OutOfRange` and changes nothing. Otherwise it fails as the strategy
/// does, or with `EmptyPopulation` when the strategy returns no child; the
/// log then stays as it was.
pub fn run_generation<
    Pheno: Phenotype,
    EvolOptions: EvolutionOptionsTrait,
    Strategy: EvolutionStrategy<Pheno, EvolOptions>,
    ScoreFn: Fn(Pheno) -> i64,
>(
    strategy: &Strategy,
    score_fn: &ScoreFn,
    evol_options: &EvolOptions,
    coordinator: &mut EvolutionCoordinator,
    parents: &Vec<Pheno>,
    rng: &mut RandomNumberGenerator,
    log: &mut Vec<LogRecord>,
) -> (ranked: Result<Vec<EvolutionResult<Pheno>>, EvolutionError>)
    requires
        forall|p: Pheno| call_requires(*score_fn, (p,)),
    ensures
        final(coordinator).well_formed(),
        old(coordinator).is_complete() ==> {
            &&& ranked == Err::<Vec<EvolutionResult<Pheno>>, EvolutionError>(
                EvolutionError::OutOfRange,
            )
            &&& *final(coordinator) == *old(coordinator)
            &&& final(log)@ == old(log)@
        },
        !old(coordinator).is_complete() ==> *final(coordinator) == old(coordinator).advanced(),
        !old(coordinator).is_complete() ==> match ranked {
            Ok(ranking) => exists|trace: GenerationTrace<Pheno>|
                {
                    &&& is_generation(
                        strategy,
                        *score_fn,
                        evol_options,
                        final(coordinator).current_generation(),
                        trace,
                    )
                    &&& trace.parents == *parents
                    &&& trace.ranked == ranking@
                    &&& final(log)@ == old(log)@ + trace.records
                },
            Err(error) => {
                &&& generation_fails_with(strategy, parents, evol_options, error)
                &&& final(log)@ == old(log)@
            },
        },
{
    match coordinator.run() {
        Ok(()) => {},
        Err(error) => {
            return Err(error);
        },
    }
    let children = match strategy.breed(parents, rng, evol_options) {
        Ok(children) => children,
        Err(error) => {
            return Err(error);
        },
    };
    if children.len() == 0 {
        return Err(EvolutionError::EmptyPopulation);
    }
    let fitness = score_candidates(&children, score_fn);
    let ranking = rank(&fitness);
    let mut records = generation_log(
        evol_options.get_log_level(),
        coordinator.get_current_generation(),
        &ranking,
    );
    let ghost trace = GenerationTrace {
        parents: *parents,
        children,
        pool: fitness@,
        ranked: ranking@,
        records: records@,
    };
    log.append(&mut records);
    proof {
        reveal(is_generation);
        assert(is_generation(
            strategy,
            *score_fn,
            evol_options,
            coordinator.current_generation(),
            trace,
        ));
    }
    Ok(ranking)
}

/// A generation has ranked at least one candidate.
pub proof fn lemma_generation_is_not_empty<
    Pheno: Phenotype,
    EvolOptions: EvolutionOptionsTrait,
    Strategy: EvolutionStrategy<Pheno, EvolOptions>,
    ScoreFn: Fn(Pheno) -> i64,
>(
    strategy: &Strategy,
    score_fn: ScoreFn,
    options: &EvolOptions,
    number: usize,
    generation: GenerationTrace<Pheno>,
)
    requires
        is_generation(strategy, score_fn, options, number, generation),
    ensures
        generation.ranked.len() == generation.children@.len(),
        generation.pool.len() == generation.children@.len(),
        generation.ranked.len() > 0,
{
    reveal(is_generation);
}

} // verus!
