//! The record that a run keeps of itself.
//!
//! A run writes nothing by itself. It appends records to a log that the
//! caller hands in, and the caller prints them, stores them, or drops them.

use vstd::prelude::*;
use crate::ranking::EvolutionResult;
use crate::traits::Phenotype;

verus! {

/// One entry of the record that a run keeps of itself.
#[derive(Debug, PartialEq, Eq)]
pub enum LogRecord {
    /// The generation of this number has been ranked.
    Generation(usize),
    /// One ranked candidate of the generation named last: its score and
    /// its rendering.
    Candidate { score: i64, description: String },
}

impl Clone for LogRecord {
    fn clone(&self) -> (cloned: Self)
        ensures
            cloned == *self,
    {
        match self {
            LogRecord::Generation(generation) => LogRecord::Generation(*generation),
            LogRecord::Candidate { score, description } => LogRecord::Candidate {
                score: *score,
                description: description.clone(),
            },
        }
    }
}

/// Whether `record` is the entry for the ranked candidate `result`.
pub open spec fn is_candidate_record<Pheno: Phenotype>(
    record: LogRecord,
    result: EvolutionResult<Pheno>,
) -> bool {
    record matches LogRecord::Candidate { score, description } && score == result.score
        && call_ensures(Pheno::to_string_internal, (&result.winner,), description)
}

/// Whether `records` is what a run at log level `level` keeps of the
/// generation of number `generation` with the ranking `ranked`: nothing at
/// level 0, the generation's number from level 1, and after it one entry
/// for each ranked candidate, in ranking order, from level 2.
pub open spec fn is_generation_log<Pheno: Phenotype>(
    level: usize,
    generation: usize,
    ranked: Seq<EvolutionResult<Pheno>>,
    records: Seq<LogRecord>,
) -> bool {
    if level == 0 {
        records.len() == 0
    } else if level == 1 {
        records.len() == 1 && records[0] == LogRecord::Generation(generation)
    } else {
        &&& records.len() == 1 + ranked.len()
        &&& records[0] == LogRecord::Generation(generation)
        &&& forall|k: int|
            0 <= k < ranked.len() ==> is_candidate_record(#[trigger] records[k + 1], ranked[k])
    }
}

/// Writes the records of one ranked generation.
pub fn generation_log<Pheno: Phenotype>(
    level: usize,
    generation: usize,
    ranked: &Vec<EvolutionResult<Pheno>>,
) -> (records: Vec<LogRecord>)
    ensures
        is_generation_log(level, generation, ranked@, records@),
{
    let mut records: Vec<LogRecord> = Vec::new();
    if level > 0 {
        records.push(LogRecord::Generation(generation));
        if level > 1 {
            let mut k: usize = 0;
            while k < ranked.len()
                invariant
                    k <= ranked@.len(),
                    records@.len() == 1 + k,
                    records@[0] == LogRecord::Generation(generation),
                    forall|j: int|
                        0 <= j < k ==> is_candidate_record(#[trigger] records@[j + 1], ranked@[j]),
                decreases ranked@.len() - k,
            {
                let description = ranked[k].winner.to_string_internal();
                records.push(LogRecord::Candidate { score: ranked[k].score, description });
                k += 1;
            }
        }
    }
    records
}

} // verus!
