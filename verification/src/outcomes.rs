//! What the outcome of a run tells.
//!
//! The contract of a run speaks of the generations it went through. The
//! lemmas here draw from it what a caller wants to know: which errors can
//! come, when success is certain, what the winner's score is, what was
//! recorded, and that a strategy which keeps its elite never loses ground.

use vstd::prelude::*;
use crate::error::EvolutionError;
use crate::evol_launcher::{is_run, is_run_outcome, next_parents, run_records};
use crate::generation::{
    generation_fails_with,
    is_deterministic,
    is_generation,
    lemma_generation_is_not_empty,
    GenerationTrace,
};
use crate::log::LogRecord;
use crate::ranking::{lemma_ranking_best_first, EvolutionResult};
use crate::traits::{
    always_breeds,
    is_elitist,
    may_breed,
    valid_options,
    EvolutionOptionsTrait,
    EvolutionStrategy,
    Phenotype,
};

verus! {

/// The first generations of a run are a run.
pub proof fn lemma_run_prefix<
    Pheno: Phenotype,
    EvolOptions: EvolutionOptionsTrait,
    Strategy: EvolutionStrategy<Pheno, EvolOptions>,
    ScoreFn: Fn(Pheno) -> i64,
>(
    strategy: &Strategy,
    score_fn: ScoreFn,
    options: &EvolOptions,
    starting_value: Pheno,
    trace: Seq<GenerationTrace<Pheno>>,
    generations: int,
)
    requires
        is_run(strategy, score_fn, options, starting_value, trace),
        0 <= generations <= trace.len(),
    ensures
        is_run(strategy, score_fn, options, starting_value, trace.take(generations)),
{
}

/// The parents that a run with valid options breeds from next are never
/// none.
pub proof fn lemma_next_parents_are_some<
    Pheno: Phenotype,
    EvolOptions: EvolutionOptionsTrait,
    Strategy: EvolutionStrategy<Pheno, EvolOptions>,
    ScoreFn: Fn(Pheno) -> i64,
>(
    strategy: &Strategy,
    score_fn: ScoreFn,
    options: &EvolOptions,
    starting_value: Pheno,
    trace: Seq<GenerationTrace<Pheno>>,
)
    requires
        valid_options(options),
        is_run(strategy, score_fn, options, starting_value, trace),
    ensures
        next_parents(starting_value, trace, options.num_parents()).len() > 0,
        trace.len() > 0 ==> next_parents(starting_value, trace, options.num_parents())[0]
            == trace.last().ranked[0].winner,
        trace.len() == 0 ==> next_parents(starting_value, trace, options.num_parents())[0]
            == starting_value,
{
    if trace.len() > 0 {
        let last = trace.last();
        assert(last == trace[trace.len() - 1]);
        lemma_generation_is_not_empty(strategy, score_fn, options, trace.len() as usize, last);
    }
}

/// A run with valid options fails only for want of candidates: with the
/// strategy's `ConstraintUnsatisfiable`, or with `EmptyPopulation`.
pub proof fn lemma_run_fails_for_want_of_candidates<
    Pheno: Phenotype,
    EvolOptions: EvolutionOptionsTrait,
    Strategy: EvolutionStrategy<Pheno, EvolOptions>,
    ScoreFn: Fn(Pheno) -> i64,
>(
    strategy: &Strategy,
    score_fn: ScoreFn,
    options: &EvolOptions,
    starting_value: Pheno,
    appended: Seq<LogRecord>,
    error: EvolutionError,
)
    requires
        valid_options(options),
        is_run_outcome(strategy, score_fn, options, starting_value, appended, Err(error)),
    ensures
        error == EvolutionError::ConstraintUnsatisfiable || error
            == EvolutionError::EmptyPopulation,
{
    let trace = choose|trace: Seq<GenerationTrace<Pheno>>|
        {
            &&& is_run(strategy, score_fn, options, starting_value, trace)
            &&& appended == run_records(trace)
            &&& trace.len() < options.num_generations()
            &&& exists|parents: Vec<Pheno>|
                parents@ == next_parents(starting_value, trace, options.num_parents())
                    && generation_fails_with(strategy, &parents, options, error)
        };
    let parents = choose|parents: Vec<Pheno>|
        parents@ == next_parents(starting_value, trace, options.num_parents())
            && generation_fails_with(strategy, &parents, options, error);
    lemma_next_parents_are_some(strategy, score_fn, options, starting_value, trace);
}

/// A run with valid options and a strategy that always breeds succeeds.
pub proof fn lemma_run_succeeds<
    Pheno: Phenotype,
    EvolOptions: EvolutionOptionsTrait,
    Strategy: EvolutionStrategy<Pheno, EvolOptions>,
    ScoreFn: Fn(Pheno) -> i64,
>(
    strategy: &Strategy,
    score_fn: ScoreFn,
    options: &EvolOptions,
    starting_value: Pheno,
    appended: Seq<LogRecord>,
    outcome: Result<EvolutionResult<Pheno>, EvolutionError>,
)
    requires
        valid_options(options),
        always_breeds(strategy, options),
        is_run_outcome(strategy, score_fn, options, starting_value, appended, outcome),
    ensures
        outcome is Ok,
{
    if outcome is Err {
        let error = outcome->Err_0;
        let trace = choose|trace: Seq<GenerationTrace<Pheno>>|
            {
                &&& is_run(strategy, score_fn, options, starting_value, trace)
                &&& appended == run_records(trace)
                &&& trace.len() < options.num_generations()
                &&& exists|parents: Vec<Pheno>|
                    parents@ == next_parents(starting_value, trace, options.num_parents())
                        && generation_fails_with(strategy, &parents, options, error)
            };
        let parents = choose|parents: Vec<Pheno>|
            parents@ == next_parents(starting_value, trace, options.num_parents())
                && generation_fails_with(strategy, &parents, options, error);
        lemma_next_parents_are_some(strategy, score_fn, options, starting_value, trace);
        // The generation that failed bred from parents, which a strategy
        // that always breeds turns into children.
        assert(parents@.len() > 0);
        assert(!may_breed(strategy, &parents, options, Err(error)));
    }
}

/// The winner of a run carries a score that the scoring function gave it.
pub proof fn lemma_winner_has_its_score<
    Pheno: Phenotype,
    EvolOptions: EvolutionOptionsTrait,
    Strategy: EvolutionStrategy<Pheno, EvolOptions>,
    ScoreFn: Fn(Pheno) -> i64,
>(
    strategy: &Strategy,
    score_fn: ScoreFn,
    options: &EvolOptions,
    starting_value: Pheno,
    appended: Seq<LogRecord>,
    best: EvolutionResult<Pheno>,
)
    requires
        valid_options(options),
        is_run_outcome(strategy, score_fn, options, starting_value, appended, Ok(best)),
    ensures
        call_ensures(score_fn, (best.winner,), best.score),
{
    let trace = choose|trace: Seq<GenerationTrace<Pheno>>|
        {
            &&& is_run(strategy, score_fn, options, starting_value, trace)
            &&& appended == run_records(trace)
            &&& trace.len() == options.num_generations()
            &&& best == trace.last().ranked[0]
        };
    // The winner stands in the last ranking, so it stands in the last pool,
    // where every entry carries the score it was given.
    reveal(is_generation);
}

/// A run at log level 0 records nothing.
pub proof fn lemma_records_at_level_zero<
    Pheno: Phenotype,
    EvolOptions: EvolutionOptionsTrait,
    Strategy: EvolutionStrategy<Pheno, EvolOptions>,
    ScoreFn: Fn(Pheno) -> i64,
>(
    strategy: &Strategy,
    score_fn: ScoreFn,
    options: &EvolOptions,
    starting_value: Pheno,
    trace: Seq<GenerationTrace<Pheno>>,
)
    requires
        is_run(strategy, score_fn, options, starting_value, trace),
        options.log_level() == 0,
    ensures
        run_records(trace).len() == 0,
    decreases trace.len(),
{
    if trace.len() > 0 {
        lemma_records_at_level_zero(
            strategy,
            score_fn,
            options,
            starting_value,
            trace.drop_last(),
        );
        assert(trace.last() == trace[trace.len() - 1]);
        reveal(is_generation);
    }
}

/// A run at log level 1 records the numbers of its generations, from 1 on,
/// and nothing else.
pub proof fn lemma_records_at_level_one<
    Pheno: Phenotype,
    EvolOptions: EvolutionOptionsTrait,
    Strategy: EvolutionStrategy<Pheno, EvolOptions>,
    ScoreFn: Fn(Pheno) -> i64,
>(
    strategy: &Strategy,
    score_fn: ScoreFn,
    options: &EvolOptions,
    starting_value: Pheno,
    trace: Seq<GenerationTrace<Pheno>>,
)
    requires
        is_run(strategy, score_fn, options, starting_value, trace),
        options.log_level() == 1,
    ensures
        run_records(trace) == Seq::new(
            trace.len(),
            |g: int| LogRecord::Generation((g + 1) as usize),
        ),
    decreases trace.len(),
{
    if trace.len() > 0 {
        assert(trace.take(trace.len() - 1) =~= trace.drop_last());
        lemma_records_at_level_one(
            strategy,
            score_fn,
            options,
            starting_value,
            trace.drop_last(),
        );
        reveal(is_generation);
    }
}

/// The best candidate of a generation is scored again in the next one, and
/// so the best score does not fall.
proof fn lemma_best_score_steps_up<
    Pheno: Phenotype,
    EvolOptions: EvolutionOptionsTrait,
    Strategy: EvolutionStrategy<Pheno, EvolOptions>,
    ScoreFn: Fn(Pheno) -> i64,
>(
    strategy: &Strategy,
    score_fn: ScoreFn,
    options: &EvolOptions,
    starting_value: Pheno,
    trace: Seq<GenerationTrace<Pheno>>,
    g: int,
)
    requires
        valid_options(options),
        is_elitist(strategy, options),
        is_deterministic(score_fn),
        is_run(strategy, score_fn, options, starting_value, trace),
        0 <= g < trace.len() - 1,
    ensures
        trace[g].ranked[0].score <= trace[g + 1].ranked[0].score,
{
    let earlier = trace[g];
    let later = trace[g + 1];
    reveal(is_generation);
    // The elite of the later generation is the best of the earlier one. It
    // was scored in the earlier generation, and is given the same score
    // again.
    assert(later.pool[0].score == earlier.ranked[0].score);
    lemma_ranking_best_first(later.pool, later.ranked);
}

/// With a strategy that keeps the elite and a deterministic scoring
/// function, the best score of a run never falls from a generation to a
/// later one.
pub proof fn lemma_best_score_never_falls<
    Pheno: Phenotype,
    EvolOptions: EvolutionOptionsTrait,
    Strategy: EvolutionStrategy<Pheno, EvolOptions>,
    ScoreFn: Fn(Pheno) -> i64,
>(
    strategy: &Strategy,
    score_fn: ScoreFn,
    options: &EvolOptions,
    starting_value: Pheno,
    trace: Seq<GenerationTrace<Pheno>>,
    earlier: int,
    later: int,
)
    requires
        valid_options(options),
        is_elitist(strategy, options),
        is_deterministic(score_fn),
        is_run(strategy, score_fn, options, starting_value, trace),
        0 <= earlier <= later < trace.len(),
    ensures
        trace[earlier].ranked[0].score <= trace[later].ranked[0].score,
    decreases later - earlier,
{
    if earlier < later {
        lemma_best_score_never_falls(
            strategy,
            score_fn,
            options,
            starting_value,
            trace,
            earlier,
            later - 1,
        );
        lemma_best_score_steps_up(strategy, score_fn, options, starting_value, trace, later - 1);
    }
}

/// With a strategy that keeps the elite, the starting value is scored in
/// the first generation, and the best score of that generation is at least
/// the score it was given.
pub proof fn lemma_first_generation_keeps_start<
    Pheno: Phenotype,
    EvolOptions: EvolutionOptionsTrait,
    Strategy: EvolutionStrategy<Pheno, EvolOptions>,
    ScoreFn: Fn(Pheno) -> i64,
>(
    strategy: &Strategy,
    score_fn: ScoreFn,
    options: &EvolOptions,
    starting_value: Pheno,
    trace: Seq<GenerationTrace<Pheno>>,
)
    requires
        is_elitist(strategy, options),
        is_run(strategy, score_fn, options, starting_value, trace),
        trace.len() > 0,
    ensures
        call_ensures(score_fn, (starting_value,), trace[0].pool[0].score),
        trace[0].pool[0].score <= trace[0].ranked[0].score,
{
    let first = trace[0];
    reveal(is_generation);
    lemma_ranking_best_first(first.pool, first.ranked);
}

/// A run that succeeds with a strategy that keeps the elite and a
/// deterministic scoring function returns a candidate that scores at least
/// as high as the starting value: the scoring function gave the starting
/// value a score, and the winner's is no lower.
pub proof fn lemma_winner_is_no_worse_than_start<
    Pheno: Phenotype,
    EvolOptions: EvolutionOptionsTrait,
    Strategy: EvolutionStrategy<Pheno, EvolOptions>,
    ScoreFn: Fn(Pheno) -> i64,
>(
    strategy: &Strategy,
    score_fn: ScoreFn,
    options: &EvolOptions,
    starting_value: Pheno,
    appended: Seq<LogRecord>,
    best: EvolutionResult<Pheno>,
)
    requires
        valid_options(options),
        is_elitist(strategy, options),
        is_deterministic(score_fn),
        is_run_outcome(strategy, score_fn, options, starting_value, appended, Ok(best)),
    ensures
        exists|starting_score: i64|
            call_ensures(score_fn, (starting_value,), starting_score) && starting_score
                <= best.score,
{
    let trace = choose|trace: Seq<GenerationTrace<Pheno>>|
        {
            &&& is_run(strategy, score_fn, options, starting_value, trace)
            &&& appended == run_records(trace)
            &&& trace.len() == options.num_generations()
            &&& best == trace.last().ranked[0]
        };
    lemma_first_generation_keeps_start(strategy, score_fn, options, starting_value, trace);
    lemma_best_score_never_falls(
        strategy,
        score_fn,
        options,
        starting_value,
        trace,
        0,
        trace.len() - 1,
    );
    let starting_score = trace[0].pool[0].score;
    assert(call_ensures(score_fn, (starting_value,), starting_score) && starting_score
        <= best.score);
}

} // verus!
