//! The random source that every stochastic step of a run draws from.
//!
//! The generator itself is `rand`'s standard generator. Verus sees none of
//! its inside: the three functions below that call into `rand` are believed,
//! not proved. Of a draw they claim only what holds of every draw, and of a
//! seeded generator that it is the one `rand` makes of the seed.

use vstd::prelude::*;

verus! {

/// `rand::rngs::StdRng`, declared so that it can stand in a field. Verus
/// knows nothing of what a value of it holds.
#[verifier::external_type_specification]
#[verifier::external_body]
pub struct ExStdRng(rand::rngs::StdRng);

/// Calls `rand::SeedableRng::from_entropy` for `StdRng`: a generator seeded
/// by the operating system. Nothing is claimed of the generator returned.
/// `rand` panics here when the system cannot supply entropy.
#[verifier::external_body]
fn generator_from_entropy() -> rand::rngs::StdRng {
    rand::SeedableRng::from_entropy()
}

/// The generator that `rand::SeedableRng::seed_from_u64` makes of `seed`
/// for `StdRng`. `rand` spreads the seed over the key of its generator and
/// starts the generator at the beginning of its output, with nothing but
/// the seed going in: one seed gives one generator.
pub uninterp spec fn seeded_generator(seed: u64) -> rand::rngs::StdRng;

/// Calls `rand::SeedableRng::seed_from_u64` for `StdRng`. The generator
/// returned is a function of `seed` alone, and `seeded_generator` is its
/// name.
#[verifier::external_body]
fn generator_from_seed(seed: u64) -> (generator: rand::rngs::StdRng)
    ensures
        generator == seeded_generator(seed),
{
    rand::SeedableRng::seed_from_u64(seed)
}

/// Calls `rand::Rng::gen_range` on the half-open range `from..to`. The call
/// panics on an empty range, which `requires` leaves out; the sample it
/// returns lies in the range.
#[verifier::external_body]
fn sample_range(generator: &mut rand::rngs::StdRng, from: i32, to: i32) -> (sample: i32)
    requires
        from < to,
    ensures
        from <= sample < to,
{
    rand::Rng::gen_range(generator, from..to)
}

/// A source of uniform samples, owned by one run and handed explicitly to
/// every call that needs randomness.
pub struct RandomNumberGenerator {
    rd: rand::rngs::StdRng,
}

impl RandomNumberGenerator {
    /// The generator that the samples are drawn from, as it stands.
    pub closed spec fn generator(&self) -> rand::rngs::StdRng {
        self.rd
    }

    /// A generator seeded by the operating system. No two of them can be
    /// expected to give the same samples, and nothing can be said of the
    /// one returned.
    pub fn new() -> RandomNumberGenerator {
        RandomNumberGenerator { rd: generator_from_entropy() }
    }

    /// The generator that `seed` fixes: it holds what `rand` makes of the
    /// seed, so that two of them made from one seed start out the same and
    /// answer the same calls with the same samples. The contract states the
    /// first; the second is `rand`'s doing, whose draws are opaque to Verus.
    pub fn from_seed(seed: u64) -> (rng: RandomNumberGenerator)
        ensures
            rng.generator() == seeded_generator(seed),
    {
        RandomNumberGenerator { rd: generator_from_seed(seed) }
    }

    /// Draws `num` samples, each uniform in `from <= sample < to`. The
    /// contract states the number and the range of the samples, not their
    /// distribution.
    pub fn fetch_uniform(&mut self, from: i32, to: i32, num: usize) -> (samples: Vec<i32>)
        requires
            from < to,
        ensures
            samples@.len() == num,
            forall|i: int| 0 <= i < num ==> from <= #[trigger] samples@[i] < to,
    {
        let mut samples: Vec<i32> = Vec::new();
        let mut drawn: usize = 0;
        while drawn < num
            invariant
                from < to,
                drawn <= num,
                samples@.len() == drawn,
                forall|i: int| 0 <= i < drawn ==> from <= #[trigger] samples@[i] < to,
            decreases num - drawn,
        {
            let sample = sample_range(&mut self.rd, from, to);
            samples.push(sample);
            drawn += 1;
        }
        samples
    }
}

} // verus!
