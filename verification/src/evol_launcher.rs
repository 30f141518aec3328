//! The generational loop: a generation, the choice of its best as the
//! next parents, and again, until the generations of the options are
//! crossed.

use core::marker::PhantomData;
use vstd::prelude::*;
use crate::error::EvolutionError;
use crate::evol_coordinator::EvolutionCoordinator;
use crate::generation::{
    generation_fails_with,
    is_generation,
    lemma_generation_is_not_empty,
    run_generation,
    GenerationTrace,
};
use crate::log::LogRecord;
use crate::partial_evol_strategy::PartialEvolutionStrategy;
use crate::random::RandomNumberGenerator;
use crate::ranking::{select_parents, top_parents, EvolutionResult};
use crate::traits::{
    valid_options,
    EvolutionOptionsTrait,
    EvolutionStrategy,
    PartialEvolutionOptionsTrait,
    PartialPhenotype,
    Phenotype,
};

verus! {

/// The parents that the generation after `trace` breeds from: the starting
/// value alone before the first generation, and afterwards the best of the
/// last ranking.
pub open spec fn next_parents<Pheno: Phenotype>(
    starting_value: Pheno,
    trace: Seq<GenerationTrace<Pheno>>,
    num_parents: usize,
) -> Seq<Pheno> {
    if trace.len() == 0 {
        seq![starting_value]
    } else {
        top_parents(trace.last().ranked, num_parents as nat)
    }
}

/// Whether `trace` can be the first generations of a run from
/// `starting_value`: generation `g + 1` stands at place `g`, and each
/// generation breeds from the parents that the ones before it left.
pub open spec fn is_run<
    Pheno: Phenotype,
    EvolOptions: EvolutionOptionsTrait,
    Strategy: EvolutionStrategy<Pheno, EvolOptions>,
    ScoreFn: Fn(Pheno) -> i64,
>(
    strategy: &Strategy,
    score_fn: ScoreFn,
    options: &EvolOptions,
    starting_value: Pheno,
    trace: Seq<GenerationTrace<Pheno>>,
) -> bool {
    forall|g: int|
        0 <= g < trace.len() ==> {
            &&& is_generation(strategy, score_fn, options, (g + 1) as usize, #[trigger] trace[g])
            &&& trace[g].parents@ == next_parents(
                starting_value,
                trace.take(g),
                options.num_parents(),
            )
        }
}

/// The records of all generations of `trace`, in order.
pub open spec fn run_records<Pheno: Phenotype>(trace: Seq<GenerationTrace<Pheno>>) -> Seq<
    LogRecord,
>
    decreases trace.len(),
{
    if trace.len() == 0 {
        Seq::empty()
    } else {
        run_records(trace.drop_last()) + trace.last().records
    }
}

/// Whether `outcome` and the records appended to the log can be what a run
/// from `starting_value` ends with.
///
/// Options that break `valid_options` end the run before it starts, with
/// `Configuration` and nothing recorded. Otherwise the run went through
/// some generations, whose records are what was appended. A run that
/// succeeds went through all generations of the options and returns the
/// first entry of the last ranking. A run that fails stopped short, at a
/// generation that failed with the error returned.
pub open spec fn is_run_outcome<
    Pheno: Phenotype,
    EvolOptions: EvolutionOptionsTrait,
    Strategy: EvolutionStrategy<Pheno, EvolOptions>,
    ScoreFn: Fn(Pheno) -> i64,
>(
    strategy: &Strategy,
    score_fn: ScoreFn,
    options: &EvolOptions,
    starting_value: Pheno,
    appended: Seq<LogRecord>,
    outcome: Result<EvolutionResult<Pheno>, EvolutionError>,
) -> bool {
    if !valid_options(options) {
        outcome == Err::<EvolutionResult<Pheno>, EvolutionError>(EvolutionError::Configuration)
            && appended.len() == 0
    } else {
        exists|trace: Seq<GenerationTrace<Pheno>>|
            {
                &&& is_run(strategy, score_fn, options, starting_value, trace)
                &&& appended == run_records(trace)
                &&& match outcome {
                    Ok(best) => trace.len() == options.num_generations() && best
                        == trace.last().ranked[0],
                    Err(error) => trace.len() < options.num_generations() && exists|
                        parents: Vec<Pheno>,
                    |
                        parents@ == next_parents(starting_value, trace, options.num_parents())
                            && generation_fails_with(strategy, &parents, options, error),
                }
            }
    }
}

/// A run grows by the generation that breeds from the parents it left.
proof fn lemma_run_grows<
    Pheno: Phenotype,
    EvolOptions: EvolutionOptionsTrait,
    Strategy: EvolutionStrategy<Pheno, EvolOptions>,
    ScoreFn: Fn(Pheno) -> i64,
>(
    strategy: &Strategy,
    score_fn: ScoreFn,
    options: &EvolOptions,
    starting_value: Pheno,
    trace: Seq<GenerationTrace<Pheno>>,
    generation: GenerationTrace<Pheno>,
)
    requires
        is_run(strategy, score_fn, options, starting_value, trace),
        is_generation(strategy, score_fn, options, (trace.len() + 1) as usize, generation),
        generation.parents@ == next_parents(starting_value, trace, options.num_parents()),
    ensures
        is_run(strategy, score_fn, options, starting_value, trace.push(generation)),
        run_records(trace.push(generation)) == run_records(trace) + generation.records,
{
    // The run so far is what stands before the last place of the longer one.
    assert(trace.push(generation).take(trace.len() as int) =~= trace);
}

/// Runs the generations of `evol_options` from `starting_value` and returns
/// the best candidate of the last one with its score. What the run records
/// is appended to `log`.
pub fn evolution<
    Pheno: Phenotype,
    EvolOptions: EvolutionOptionsTrait,
    Strategy: EvolutionStrategy<Pheno, EvolOptions>,
    ScoreFn: Fn(Pheno) -> i64,
>(
    starting_value: Pheno,
    strategy: &Strategy,
    score_fn: &ScoreFn,
    evol_options: &EvolOptions,
    rng: &mut RandomNumberGenerator,
    log: &mut Vec<LogRecord>,
) -> (outcome: Result<EvolutionResult<Pheno>, EvolutionError>)
    requires
        forall|p: Pheno| call_requires(*score_fn, (p,)),
    ensures
        old(log)@.len() <= final(log)@.len(),
        final(log)@.subrange(0, old(log)@.len() as int) == old(log)@,
        is_run_outcome(
            strategy,
            *score_fn,
            evol_options,
            starting_value,
            final(log)@.subrange(old(log)@.len() as int, final(log)@.len() as int),
            outcome,
        ),
{
    let num_generations = evol_options.get_num_generations();
    let num_parents = evol_options.get_num_parents();
    let num_children = evol_options.get_num_children();
    let ghost log_before = log@;
    if num_generations < 1 || num_parents < 1 || num_children < num_parents {
        return Err(EvolutionError::Configuration);
    }
    let mut coordinator = EvolutionCoordinator::new(evol_options);
    let mut parents: Vec<Pheno> = Vec::new();
    parents.push(starting_value);
    let mut best: Option<EvolutionResult<Pheno>> = None;
    let ghost mut trace: Seq<GenerationTrace<Pheno>> = Seq::empty();
    while coordinator.get_current_generation() < num_generations
        invariant
            forall|p: Pheno| call_requires(*score_fn, (p,)),
            valid_options(evol_options),
            num_generations == evol_options.num_generations(),
            num_parents == evol_options.num_parents(),
            coordinator.well_formed(),
            coordinator.num_generations() == num_generations,
            coordinator.current_generation() == trace.len(),
            is_run(strategy, *score_fn, evol_options, starting_value, trace),
            parents@ == next_parents(starting_value, trace, num_parents),
            log_before == old(log)@,
            log@ == log_before + run_records(trace),
            trace.len() > 0 ==> best == Some(trace.last().ranked[0]),
        decreases num_generations - coordinator.current_generation(),
    {
        let ghost log_at_start = log@;
        let ghost before = coordinator;
        match run_generation(
            strategy,
            score_fn,
            evol_options,
            &mut coordinator,
            &parents,
            rng,
            log,
        ) {
            Ok(ranking) => {
                proof {
                    before.lemma_advanced();
                    let generation = choose|generation: GenerationTrace<Pheno>|
                        {
                            &&& is_generation(
                                strategy,
                                *score_fn,
                                evol_options,
                                coordinator.current_generation(),
                                generation,
                            )
                            &&& generation.parents == parents
                            &&& generation.ranked == ranking@
                            &&& log@ == log_at_start + generation.records
                        };
                    lemma_generation_is_not_empty(
                        strategy,
                        *score_fn,
                        evol_options,
                        coordinator.current_generation(),
                        generation,
                    );
                    lemma_run_grows(
                        strategy,
                        *score_fn,
                        evol_options,
                        starting_value,
                        trace,
                        generation,
                    );
                    trace = trace.push(generation);
                }
                best = Some(ranking[0]);
                parents = select_parents(&ranking, num_parents);
            },
            Err(error) => {
                proof {
                    assert(log@.subrange(log_before.len() as int, log@.len() as int)
                        =~= run_records(trace));
                }
                return Err(error);
            },
        }
    }
    proof {
        assert(log@.subrange(log_before.len() as int, log@.len() as int) =~= run_records(trace));
    }
    Ok(best.unwrap())
}

/// Runs the generations of `evol_options` from `starting_value` with
/// breeding inside the window of the options: `evolution` with the
/// strategy `PartialEvolutionStrategy`.
pub fn partial_evolution<
    Pheno: PartialPhenotype,
    EvolOptions: PartialEvolutionOptionsTrait,
    ScoreFn: Fn(Pheno) -> i64,
>(
    starting_value: Pheno,
    score_fn: &ScoreFn,
    evol_options: &EvolOptions,
    rng: &mut RandomNumberGenerator,
    log: &mut Vec<LogRecord>,
) -> (outcome: Result<EvolutionResult<Pheno>, EvolutionError>)
    requires
        forall|p: Pheno| call_requires(*score_fn, (p,)),
    ensures
        old(log)@.len() <= final(log)@.len(),
        final(log)@.subrange(0, old(log)@.len() as int) == old(log)@,
        is_run_outcome(
            &PartialEvolutionStrategy,
            *score_fn,
            evol_options,
            starting_value,
            final(log)@.subrange(old(log)@.len() as int, final(log)@.len() as int),
            outcome,
        ),
{
    evolution(starting_value, &PartialEvolutionStrategy, score_fn, evol_options, rng, log)
}

/// A strategy and a scoring function, ready to run.
pub struct EvolutionLauncher<
    Pheno: Phenotype,
    EvolOptions: EvolutionOptionsTrait,
    Strategy: EvolutionStrategy<Pheno, EvolOptions>,
    ScoreFn: Fn(Pheno) -> i64,
> {
    strategy: Strategy,
    score_fn: ScoreFn,
    _marker: PhantomData<(Pheno, EvolOptions)>,
}

impl<
    Pheno: Phenotype,
    EvolOptions: EvolutionOptionsTrait,
    Strategy: EvolutionStrategy<Pheno, EvolOptions>,
    ScoreFn: Fn(Pheno) -> i64,
> EvolutionLauncher<Pheno, EvolOptions, Strategy, ScoreFn> {
    #[verifier::type_invariant]
    spec fn scores_every_candidate(self) -> bool {
        forall|p: Pheno| call_requires(self.score_fn, (p,))
    }

    /// The strategy that the launcher breeds with.
    pub closed spec fn strategy(&self) -> &Strategy {
        &self.strategy
    }

    /// The function that the launcher scores with.
    pub closed spec fn score_fn(&self) -> ScoreFn {
        self.score_fn
    }

    /// A launcher that breeds with `strategy` and scores with `score_fn`, a
    /// function that accepts every candidate. A higher score is a better
    /// one.
    pub fn new(strategy: Strategy, score_fn: ScoreFn) -> (launcher: Self)
        requires
            forall|p: Pheno| call_requires(score_fn, (p,)),
        ensures
            *launcher.strategy() == strategy,
            launcher.score_fn() == score_fn,
    {
        EvolutionLauncher { strategy, score_fn, _marker: PhantomData }
    }

    /// Runs the generations of `evol_options` from `starting_value`, as
    /// `evolution` does with the launcher's strategy and scoring function.
    pub fn evolve(
        &self,
        evol_options: EvolOptions,
        starting_value: Pheno,
        rng: &mut RandomNumberGenerator,
        log: &mut Vec<LogRecord>,
    ) -> (outcome: Result<EvolutionResult<Pheno>, EvolutionError>)
        ensures
            old(log)@.len() <= final(log)@.len(),
            final(log)@.subrange(0, old(log)@.len() as int) == old(log)@,
            is_run_outcome(
                self.strategy(),
                self.score_fn(),
                &evol_options,
                starting_value,
                final(log)@.subrange(old(log)@.len() as int, final(log)@.len() as int),
                outcome,
            ),
    {
        proof {
            use_type_invariant(self);
        }
        evolution(starting_value, &self.strategy, &self.score_fn, &evol_options, rng, log)
    }
}

} // verus!
