use vstd::prelude::*;
use rand::Rng;
use rand::SeedableRng;
use rand_chacha::ChaCha8Rng;

verus! {

/// Fixed-point unit of every fraction in the simulation: stats, difficulties,
/// probabilities and uniform draws count thousandths of one.
pub const SCALE: u32 = 1000;

#[verifier::external_type_specification]
#[verifier::external_body]
pub struct ExChaCha8Rng(ChaCha8Rng);

/// Relies on rand_chacha's `SeedableRng::seed_from_u64`: any seed gives a generator.
#[verifier::external_body]
fn chacha_from_seed(seed: u64) -> (r: ChaCha8Rng) {
    ChaCha8Rng::seed_from_u64(seed)
}

/// Relies on rand's `Rng::gen_range` on a half-open range, which panics only on an
/// empty range and otherwise returns a value inside it.
#[verifier::external_body]
fn chacha_below(rng: &mut ChaCha8Rng, bound: u64) -> (r: u64)
    requires
        bound > 0,
    ensures
        r < bound,
{
    rng.gen_range(0..bound)
}

/// The single source of randomness threaded through every stochastic decision.
/// `Seeded` replays a ChaCha8 stream; `Fixed` is a deterministic stub whose
/// every draw below `b` is `v % b`.
pub enum RandomSource {
    Seeded(ChaCha8Rng),
    Fixed(u32),
}

impl RandomSource {
    /// The value a fixed stub hands out for a draw below `bound`.
    pub open spec fn fixed_draw(&self, bound: u64) -> u64
        recommends
            self is Fixed,
            bound > 0,
    {
        (self->Fixed_0 as int % bound as int) as u64
    }

    pub fn seeded(seed: u64) -> (r: RandomSource)
        ensures
            r is Seeded,
    {
        RandomSource::Seeded(chacha_from_seed(seed))
    }

    pub fn fixed(value: u32) -> (r: RandomSource)
        ensures
            r == RandomSource::Fixed(value),
    {
        RandomSource::Fixed(value)
    }

    /// A draw uniformly below `bound` (for a seeded source).
    pub fn below(&mut self, bound: u64) -> (r: u64)
        requires
            bound > 0,
        ensures
            r < bound,
            *old(self) is Seeded ==> *final(self) is Seeded,
            *old(self) is Fixed ==> *final(self) == *old(self) && r == old(self).fixed_draw(bound),
    {
        match self {
            RandomSource::Seeded(rng) => chacha_below(rng, bound),
            RandomSource::Fixed(v) => *v as u64 % bound,
        }
    }

    /// A uniform fraction in thousandths, in `[0, SCALE)`.
    pub fn unit(&mut self) -> (r: u32)
        ensures
            r < SCALE,
            *old(self) is Seeded ==> *final(self) is Seeded,
            *old(self) is Fixed ==> *final(self) == *old(self) && r == old(self).fixed_draw(SCALE as u64),
    {
        self.below(SCALE as u64) as u32
    }

    /// True with probability `chance / SCALE`: a unit draw strictly below `chance`.
    pub fn chance(&mut self, chance: u32) -> (r: bool)
        ensures
            *old(self) is Seeded ==> *final(self) is Seeded,
            *old(self) is Fixed ==> *final(self) == *old(self) && r == (old(self).fixed_draw(SCALE as u64) < chance),
    {
        let x = self.unit();
        x < chance
    }
}

} // verus!
