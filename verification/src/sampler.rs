//! Random decisions.
use rand::rngs::SmallRng;
use rand::{RngCore, SeedableRng};
use vstd::prelude::*;

verus! {

/// A small pseudo-random generator.
#[verifier::external_type_specification]
#[verifier::external_body]
pub struct ExSmallRng(rand::rngs::SmallRng);

/// `SmallRng::from_rng` on the thread's generator: a generator with a fresh
/// seed. Nothing is claimed of it. It panics where the system has no source
/// of randomness, which no argument decides.
#[verifier::external_body]
fn seed_rng() -> (r: SmallRng) {
    SmallRng::from_rng(&mut rand::rng())
}

/// `SmallRng::next_u32`: the next number. Any number may come.
#[verifier::external_body]
fn next_u32(rng: &mut SmallRng) -> (r: u32) {
    rng.next_u32()
}

/// How often something is sampled.
#[derive(Debug, Clone, Copy)]
pub enum SampleRate {
    Always,
    Never,
    /// Sampled if a random number is not above the bar.
    AtMost(u32),
}

impl SampleRate {
    /// The rate decides without a random number.
    pub open spec fn is_certain(self) -> bool {
        !(self is AtMost)
    }

    /// Whether a random number `draw` means that the sample is taken.
    pub open spec fn spec_admits(self, draw: u32) -> bool {
        match self {
            SampleRate::Always => true,
            SampleRate::Never => false,
            SampleRate::AtMost(bar) => draw <= bar,
        }
    }

    /// Whether a random number `draw` means that the sample is taken.
    pub fn admits(self, draw: u32) -> (r: bool)
        ensures
            r == self.spec_admits(draw),
    {
        match self {
            SampleRate::Always => true,
            SampleRate::Never => false,
            SampleRate::AtMost(bar) => draw <= bar,
        }
    }
}

/// A random generator that remembers, in proofs only, the numbers it drew.
pub struct Sampler {
    rng: SmallRng,
    drawn: Ghost<Seq<u32>>,
}

impl Sampler {
    /// The numbers drawn so far, oldest first.
    pub closed spec fn drawn(&self) -> Seq<u32> {
        self.drawn@
    }

    /// A freshly seeded generator.
    pub fn new() -> (r: Self)
        ensures
            r.drawn() == Seq::<u32>::empty(),
    {
        Sampler { rng: seed_rng(), drawn: Ghost(Seq::empty()) }
    }

    /// Draws a number.
    pub fn draw(&mut self) -> (r: u32)
        ensures
            final(self).drawn() == old(self).drawn().push(r),
    {
        let r: u32 = next_u32(&mut self.rng);
        self.drawn = Ghost(self.drawn@.push(r));
        r
    }

    /// Whether to take a sample. A number is drawn only where the rate does
    /// not decide alone.
    pub fn decide(&mut self, rate: SampleRate) -> (r: bool)
        ensures
            rate.is_certain() ==> *final(self) == *old(self) && r == (rate is Always),
            !rate.is_certain() ==> final(self).drawn() == old(self).drawn().push(
                final(self).drawn().last(),
            ) && r == rate.spec_admits(final(self).drawn().last()),
    {
        match rate {
            SampleRate::Always => true,
            SampleRate::Never => false,
            SampleRate::AtMost(_) => {
                let draw: u32 = self.draw();
                rate.admits(draw)
            },
        }
    }
}

} // verus!
