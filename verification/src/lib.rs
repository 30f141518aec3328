//! A generational optimisation engine.
//!
//! Starting from one candidate (a phenotype), the engine breeds a pool of
//! children each generation, scores them with a function of the caller,
//! ranks them, and keeps the fittest as the parents of the next generation.
//! After the generations of its options it returns the best candidate of
//! the last one.
//!
//! The engine is verified with Verus. Its contracts are stated over the
//! specification functions of the traits in [`traits`], and [`outcomes`]
//! draws from them what a run guarantees. Only the three calls into `rand`
//! in [`random`] are taken on trust.
//!
//! Scores and magnitudes are integers. A caller that works with real-valued
//! fitness hands in integers that keep the order of its values.

pub mod error;
pub mod random;
pub mod traits;
pub mod evol_options;
pub mod evol_coordinator;
pub mod ranking;
pub mod ordinary_evol_strategy;
pub mod partial_evol_strategy;
pub mod log;
pub mod generation;
pub mod evol_launcher;
pub mod outcomes;
