//! The ways in which a run can end without a winner.

use vstd::prelude::*;

verus! {

/// Why an operation of the engine gave no result.
#[derive(Clone, Copy, Debug, PartialEq, Eq, Structural)]
pub enum EvolutionError {
    /// The options break one of their own rules.
    Configuration,
    /// A strategy was handed no parent.
    InvalidInput,
    /// The retry budget ran out before a candidate fell inside the magnitude window.
    ConstraintUnsatisfiable,
    /// The coordinator was advanced although its budget was already spent.
    OutOfRange,
    /// A generation produced no candidate.
    EmptyPopulation,
}

impl EvolutionError {
    /// The text of `message`, as a sequence of characters.
    pub open spec fn message_text(self) -> Seq<char> {
        match self {
            EvolutionError::Configuration => "invalid evolution options"@,
            EvolutionError::InvalidInput => "no parents to breed from"@,
            EvolutionError::ConstraintUnsatisfiable => "no candidate inside the magnitude window"@,
            EvolutionError::OutOfRange => "all generations have already run"@,
            EvolutionError::EmptyPopulation => "a generation produced no candidates"@,
        }
    }

    /// A short description of the error for people.
    pub fn message(&self) -> (text: &'static str)
        ensures
            text@ == self.message_text(),
    {
        match self {
            EvolutionError::Configuration => "invalid evolution options",
            EvolutionError::InvalidInput => "no parents to breed from",
            EvolutionError::ConstraintUnsatisfiable => "no candidate inside the magnitude window",
            EvolutionError::OutOfRange => "all generations have already run",
            EvolutionError::EmptyPopulation => "a generation produced no candidates",
        }
    }
}

} // verus!
