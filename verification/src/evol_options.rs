//! The settings of a run, checked when they are made.

use vstd::prelude::*;
use crate::error::EvolutionError;
use crate::traits::{valid_settings, EvolutionOptionsTrait, PartialEvolutionOptionsTrait};

verus! {

/// How many generations to cross, how much to record, and the sizes of the
/// parent set and of the pool of children. The fields are private and both
/// constructors establish `valid_settings`.
#[derive(Clone, Copy, Debug)]
pub struct EvolutionOptions {
    num_generations: usize,
    log_level: usize,
    num_parents: usize,
    num_children: usize,
}

impl EvolutionOptions {
    /// The usual settings: 100 generations, no log, 2 parents, 20 children.
    pub fn new() -> (options: EvolutionOptions)
        ensures
            options.num_generations() == 100,
            options.log_level() == 0,
            options.num_parents() == 2,
            options.num_children() == 20,
    {
        EvolutionOptions { num_generations: 100, log_level: 0, num_parents: 2, num_children: 20 }
    }

    /// Settings of the caller's choice. They are refused, with
    /// `Configuration`, exactly when they break `valid_settings`.
    pub fn with_settings(
        num_generations: usize,
        log_level: usize,
        num_parents: usize,
        num_children: usize,
    ) -> (made: Result<EvolutionOptions, EvolutionError>)
        ensures
            valid_settings(num_generations, num_parents, num_children) ==> (made matches Ok(options)
                && options.num_generations() == num_generations && options.log_level()
                == log_level && options.num_parents() == num_parents && options.num_children()
                == num_children),
            !valid_settings(num_generations, num_parents, num_children) ==> made == Err::<
                EvolutionOptions,
                EvolutionError,
            >(EvolutionError::Configuration),
    {
        if num_generations >= 1 && num_parents >= 1 && num_children >= num_parents {
            Ok(EvolutionOptions { num_generations, log_level, num_parents, num_children })
        } else {
            Err(EvolutionError::Configuration)
        }
    }
}

impl EvolutionOptionsTrait for EvolutionOptions {
    closed spec fn num_generations(&self) -> usize {
        self.num_generations
    }

    closed spec fn log_level(&self) -> usize {
        self.log_level
    }

    closed spec fn num_parents(&self) -> usize {
        self.num_parents
    }

    closed spec fn num_children(&self) -> usize {
        self.num_children
    }

    fn get_num_generations(&self) -> (n: usize) {
        self.num_generations
    }

    fn get_log_level(&self) -> (level: usize) {
        self.log_level
    }

    fn get_num_parents(&self) -> (n: usize) {
        self.num_parents
    }

    fn get_num_children(&self) -> (n: usize) {
        self.num_children
    }
}

/// Settings with a window of admissible magnitudes, both ends included. The
/// constructor refuses a window whose ends are out of order.
#[derive(Clone, Copy, Debug)]
pub struct PartialEvolutionOptions {
    options: EvolutionOptions,
    min_magnitude: u64,
    max_magnitude: u64,
}

impl PartialEvolutionOptions {
    /// Adds the window from `min_magnitude` to `max_magnitude` to `options`.
    /// An empty window is refused, with `Configuration`.
    pub fn new(options: EvolutionOptions, min_magnitude: u64, max_magnitude: u64) -> (made: Result<
        PartialEvolutionOptions,
        EvolutionError,
    >)
        ensures
            min_magnitude <= max_magnitude ==> (made matches Ok(partial) && partial.base()
                == options && partial.min_magnitude() == min_magnitude
                && partial.max_magnitude() == max_magnitude),
            min_magnitude > max_magnitude ==> made == Err::<
                PartialEvolutionOptions,
                EvolutionError,
            >(EvolutionError::Configuration),
    {
        if min_magnitude <= max_magnitude {
            Ok(PartialEvolutionOptions { options, min_magnitude, max_magnitude })
        } else {
            Err(EvolutionError::Configuration)
        }
    }

    /// The settings that the window was added to.
    pub closed spec fn base(self) -> EvolutionOptions {
        self.options
    }
}

impl EvolutionOptionsTrait for PartialEvolutionOptions {
    open spec fn num_generations(&self) -> usize {
        self.base().num_generations()
    }

    open spec fn log_level(&self) -> usize {
        self.base().log_level()
    }

    open spec fn num_parents(&self) -> usize {
        self.base().num_parents()
    }

    open spec fn num_children(&self) -> usize {
        self.base().num_children()
    }

    fn get_num_generations(&self) -> (n: usize) {
        self.options.get_num_generations()
    }

    fn get_log_level(&self) -> (level: usize) {
        self.options.get_log_level()
    }

    fn get_num_parents(&self) -> (n: usize) {
        self.options.get_num_parents()
    }

    fn get_num_children(&self) -> (n: usize) {
        self.options.get_num_children()
    }
}

impl PartialEvolutionOptionsTrait for PartialEvolutionOptions {
    closed spec fn min_magnitude(&self) -> u64 {
        self.min_magnitude
    }

    closed spec fn max_magnitude(&self) -> u64 {
        self.max_magnitude
    }

    fn get_min_magnitude(&self) -> (m: u64) {
        self.min_magnitude
    }

    fn get_max_magnitude(&self) -> (m: u64) {
        self.max_magnitude
    }
}

} // verus!
