//! The seeded source of randomness that building, proving and signing draw on.

use vstd::prelude::*;

use rand_chacha::ChaCha12Rng;
use rand_core::SeedableRng;

verus! {

/// The ChaCha generator with twelve rounds, which this crate hands to
/// orchard and never draws on itself.
#[verifier::external_type_specification]
#[verifier::external_body]
pub struct ExChaCha12Rng(ChaCha12Rng);

/// Calls `ChaCha12Rng::from_seed`.
#[verifier::external_body]
fn seeded_generator(seed: [u8; 32]) -> ChaCha12Rng {
    ChaCha12Rng::from_seed(seed)
}

/// Calls `fill_bytes` of `rand_core::Rng` on 32 bytes.
#[verifier::external_body]
fn draw_seed(generator: &mut ChaCha12Rng) -> [u8; 32] {
    let mut seed = [0u8; 32];
    rand_core::Rng::fill_bytes(generator, &mut seed);
    seed
}

/// A generator of random bytes that is set by its seed alone.
///
/// One source serves one bundle at a time: every draw moves it on.
pub struct Random {
    seed: [u8; 32],
    generator: ChaCha12Rng,
}

impl Random {
    /// The seed that the source was made with.
    pub closed spec fn seed(&self) -> Seq<u8> {
        self.seed@
    }

    /// The seed of [`Random::default`]: 32 zero bytes.
    pub open spec fn test_seed() -> Seq<u8> {
        Seq::new(32, |i: int| 0u8)
    }

    /// A source set by the given seed.
    pub fn from_seed(seed: [u8; 32]) -> (r: Random)
        ensures
            r.seed() == seed@,
    {
        Random { seed, generator: seeded_generator(seed) }
    }

    /// The source with the all-zero seed, for tests that must repeat.
    ///
    /// Anyone can rebuild what this source gives: never authorise a real
    /// transfer with it.
    pub fn default() -> (r: Random)
        ensures
            r.seed() == Self::test_seed(),
    {
        let seed = [0u8; 32];
        assert(seed@ =~= Self::test_seed());
        Random::from_seed(seed)
    }

    /// Whether the source was made with the all-zero seed of the tests.
    pub fn is_test_source(&self) -> (r: bool)
        ensures
            r == (self.seed() == Self::test_seed()),
    {
        let zero = [0u8; 32];
        assert(zero@ =~= Self::test_seed());
        crate::encoding::same_bytes(&self.seed, &zero)
    }

    pub(crate) fn generator(&mut self) -> (g: &mut ChaCha12Rng)
        ensures
            *g == old(self).engine(),
            final(self).engine() == *final(g),
            final(self).seed() == old(self).seed(),
    {
        &mut self.generator
    }

    /// A new source, set by 32 bytes drawn from this one. What the new
    /// source gives is its own: drawing on it does not move this one on.
    pub fn fork(&mut self) -> (child: Random)
        ensures
            final(self).seed() == old(self).seed(),
    {
        let seed = draw_seed(&mut self.generator);
        Random::from_seed(seed)
    }

    /// Two sources with one seed that have come equally far are the same.
    pub proof fn lemma_same(a: Random, b: Random)
        requires
            a.seed() == b.seed(),
            a.engine() == b.engine(),
        ensures
            a == b,
    {
        assert(a.seed@ =~= b.seed@);
        assert(a.seed == b.seed);
    }

    /// The generator inside the source, as far as it has come. What is
    /// drawn from the generator is drawn from the source, and nothing else
    /// moves the source on.
    pub closed spec fn engine(&self) -> ChaCha12Rng {
        self.generator
    }
}

} // verus!
