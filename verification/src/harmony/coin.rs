//! A coin whose flips are fixed by a seed. The flips come from the ChaCha
//! generator of `rand_chacha`, which is the one part of the library that is
//! not verified: this file states what is taken on trust of it.

use rand::Rng;
use rand_chacha::rand_core::SeedableRng;
use rand_chacha::ChaCha20Rng;
use vstd::prelude::*;

verus! {

/// The ChaCha generator with 20 rounds of `rand_chacha`. Nothing is known of
/// its inside.
#[verifier::external_type_specification]
#[verifier::external_body]
pub struct ExChaCha20Rng(ChaCha20Rng);

/// The flips that a generator seeded with `seed` holds when it is made: at
/// each number, the flip that it gives after it has given that many others.
pub uninterp spec fn seeded_flips(seed: u64) -> Map<nat, u8>;

/// The flips that the generator holds: at each number, the flip that it
/// gives after it has given that many others.
pub uninterp spec fn pending_flips(rng: ChaCha20Rng) -> Map<nat, u8>;

/// Calls `ChaCha20Rng::seed_from_u64`. The generator that comes back depends
/// on the seed alone, and so do the flips that it holds.
#[verifier::external_body]
fn seeded_generator(seed: u64) -> (rng: ChaCha20Rng)
    ensures
        pending_flips(rng) == seeded_flips(seed),
{
    ChaCha20Rng::seed_from_u64(seed)
}

/// Calls `Rng::gen_range` on the generator for the range from 0 to 1, both
/// included. The flip that comes back is 0 or 1 and is the first of those
/// the generator had yet to give; the later ones move up by one place.
#[verifier::external_body]
fn next_flip(rng: &mut ChaCha20Rng) -> (flip: u8)
    ensures
        flip <= 1,
        flip == pending_flips(*old(rng))[0],
        forall|index: nat| #[trigger]
            pending_flips(*final(rng))[index] == pending_flips(*old(rng))[index + 1],
{
    rng.gen_range(0..=1)
}

/// A stream of coin flips that is fixed by its seed.
pub struct Coin {
    rng: ChaCha20Rng,
    seed: u64,
    drawn: Ghost<nat>,
}

impl Coin {
    /// The generator stands in the stream of its seed where the count of
    /// flips says.
    pub closed spec fn wf(self) -> bool {
        forall|index: nat| #[trigger]
            pending_flips(self.rng)[index] == seeded_flips(self.seed)[self.drawn@ + index]
    }

    /// The seed of the stream.
    pub closed spec fn seed(self) -> u64 {
        self.seed
    }

    /// How many flips the coin has given.
    pub closed spec fn drawn(self) -> nat {
        self.drawn@
    }

    /// Creates the coin of a seed, before its first flip.
    pub fn seeded(seed: u64) -> (coin: Self)
        ensures
            coin.wf(),
            coin.seed() == seed,
            coin.drawn() == 0,
    {
        Self { rng: seeded_generator(seed), seed, drawn: Ghost(0) }
    }

    /// Flips the coin once.
    pub fn flip(&mut self) -> (flip: u8)
        requires
            old(self).wf(),
        ensures
            final(self).wf(),
            final(self).seed() == old(self).seed(),
            final(self).drawn() == old(self).drawn() + 1,
            flip == seeded_flips(old(self).seed())[old(self).drawn()],
            flip <= 1,
    {
        let ghost before = self.rng;
        let flip = next_flip(&mut self.rng);
        self.drawn = Ghost((self.drawn@ + 1) as nat);
        proof {
            assert forall|index: nat| #[trigger]
                pending_flips(self.rng)[index] == seeded_flips(self.seed)[self.drawn@
                    + index] by {
                assert(pending_flips(self.rng)[index] == pending_flips(before)[index + 1]);
            }
        }
        flip
    }
}

} // verus!
