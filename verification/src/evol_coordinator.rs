//! Counting the generations of a run against its budget.

use vstd::prelude::*;
use crate::error::EvolutionError;
use crate::traits::EvolutionOptionsTrait;

verus! {

/// The generation a run has reached and the number it will cross. A
/// coordinator is running while generations are left and complete once the
/// budget is spent; it never counts past the budget.
#[derive(Clone, Copy, Debug)]
pub struct EvolutionCoordinator {
    current_generation: usize,
    num_generations: usize,
}

impl EvolutionCoordinator {
    #[verifier::type_invariant]
    spec fn within_budget(self) -> bool {
        self.current_generation <= self.num_generations
    }

    /// The generations crossed so far.
    pub closed spec fn current_generation(self) -> usize {
        self.current_generation
    }

    /// The generations of the whole run.
    pub closed spec fn num_generations(self) -> usize {
        self.num_generations
    }

    /// The count has not passed the budget. Every coordinator that `new`
    /// made or `run` changed is well formed.
    pub open spec fn well_formed(self) -> bool {
        self.current_generation() <= self.num_generations()
    }

    /// The budget is spent.
    pub open spec fn is_complete(self) -> bool {
        self.current_generation() >= self.num_generations()
    }

    /// The share of the budget that is spent, between 0 and 1. A budget of
    /// no generations is spent from the start.
    pub open spec fn progress(self) -> real {
        if self.num_generations() == 0 {
            1real
        } else {
            self.current_generation() as real / self.num_generations() as real
        }
    }

    /// The coordinator as one successful `run` leaves it.
    pub closed spec fn advanced(self) -> EvolutionCoordinator {
        EvolutionCoordinator {
            current_generation: (self.current_generation + 1) as usize,
            num_generations: self.num_generations,
        }
    }

    /// A coordinator at generation 0 of the run that `options` describes.
    pub fn new<EvolOptions: EvolutionOptionsTrait>(options: &EvolOptions) -> (coordinator:
        EvolutionCoordinator)
        ensures
            coordinator.current_generation() == 0,
            coordinator.num_generations() == options.num_generations(),
            coordinator.well_formed(),
    {
        EvolutionCoordinator {
            current_generation: 0,
            num_generations: options.get_num_generations(),
        }
    }

    /// Crosses one generation. Once the budget is spent the count stays as
    /// it is and the call fails with `OutOfRange`.
    pub fn run(&mut self) -> (crossed: Result<(), EvolutionError>)
        ensures
            final(self).well_formed(),
            old(self).is_complete() ==> crossed == Err::<(), EvolutionError>(
                EvolutionError::OutOfRange,
            ) && *final(self) == *old(self),
            !old(self).is_complete() ==> crossed == Ok::<(), EvolutionError>(()) && *final(self)
                == old(self).advanced(),
    {
        proof {
            use_type_invariant(&*self);
        }
        if self.current_generation < self.num_generations {
            self.current_generation = self.current_generation + 1;
            Ok(())
        } else {
            Err(EvolutionError::OutOfRange)
        }
    }

    /// The generations crossed and the budget, in this order: the two
    /// numbers whose quotient is `progress`. The first never exceeds the
    /// second.
    pub fn get_progress(&self) -> (spent: (usize, usize))
        ensures
            spent.0 == self.current_generation(),
            spent.1 == self.num_generations(),
            spent.0 <= spent.1,
            spent.1 > 0 ==> self.progress() == spent.0 as real / spent.1 as real,
            spent.1 == 0 ==> self.progress() == 1real,
    {
        proof {
            use_type_invariant(self);
        }
        (self.current_generation, self.num_generations)
    }

    /// The generations crossed so far.
    pub fn get_current_generation(&self) -> (generation: usize)
        ensures
            generation == self.current_generation(),
    {
        self.current_generation
    }

    /// What `advanced` does to the two counts.
    pub proof fn lemma_advanced(self)
        requires
            self.well_formed(),
            !self.is_complete(),
        ensures
            self.advanced().current_generation() == self.current_generation() + 1,
            self.advanced().num_generations() == self.num_generations(),
            self.advanced().well_formed(),
    {
    }

    /// Progress lies between 0 and 1, and is 1 exactly when the budget is
    /// spent.
    pub proof fn lemma_progress_bounds(self)
        requires
            self.well_formed(),
        ensures
            0real <= self.progress() <= 1real,
            self.progress() == 1real <==> self.is_complete(),
    {
        if self.num_generations() != 0 {
            let c = self.current_generation() as real;
            let n = self.num_generations() as real;
            assert(0real <= c / n <= 1real && (c / n == 1real <==> c == n)) by (nonlinear_arith)
                requires
                    0real <= c <= n,
                    n > 0real,
            ;
        }
    }

    /// A successful `run` never lowers progress, and never lifts it past 1.
    pub proof fn lemma_progress_monotone(self)
        requires
            self.well_formed(),
            !self.is_complete(),
        ensures
            self.progress() < self.advanced().progress() <= 1real,
    {
        self.lemma_advanced();
        self.advanced().lemma_progress_bounds();
        let c = self.current_generation() as real;
        let n = self.num_generations() as real;
        assert(c / n < (c + 1real) / n) by (nonlinear_arith)
            requires
                n > 0real,
        ;
    }
}

} // verus!
