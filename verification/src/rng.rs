//! The deterministic spawn generator.
//!
//! A `SpawnRng` owns a ChaCha stream seeded from a 64-bit seed. Each tile
//! spawn makes exactly two draws, always in the same order: first the cell
//! index, then the flag that picks the tile value. Because the stream is a
//! pure function of the seed, the `k`-th draw of each kind is a function of
//! the seed and `k` alone; the names `spawn_index_at` and `spawn_flag_at`
//! stand for those two functions.

use vstd::prelude::*;
use rand::Rng;
use rand::RngCore;
use rand::SeedableRng;

verus! {

/// The index that the `k`-th spawn draws from the stream of `seed`.
pub uninterp spec fn spawn_index_at(seed: u64, k: nat) -> usize;

/// The flag that the `k`-th spawn draws from the stream of `seed`:
/// `true` spawns a 4, `false` a 2.
pub uninterp spec fn spawn_flag_at(seed: u64, k: nat) -> bool;

#[verifier::external_type_specification]
#[verifier::external_body]
pub struct ExChaCha8Rng(rand_chacha::ChaCha8Rng);

/// A ChaCha stream together with a ghost record of the seed it was built
/// from and of how many draws of each kind were taken from it.
pub struct SpawnRng {
    stream: rand_chacha::ChaCha8Rng,
    seed: Ghost<u64>,
    indices: Ghost<nat>,
    flags: Ghost<nat>,
}

impl SpawnRng {
    /// The seed the stream was built from.
    pub closed spec fn seed(&self) -> u64 {
        self.seed@
    }

    /// How many cell indices have been drawn.
    pub closed spec fn indices_drawn(&self) -> nat {
        self.indices@
    }

    /// How many value flags have been drawn.
    pub closed spec fn flags_drawn(&self) -> nat {
        self.flags@
    }

    /// The generator is between spawns: every index draw was followed by
    /// its flag draw.
    pub open spec fn balanced(&self) -> bool {
        self.indices_drawn() == self.flags_drawn()
    }
}

/// Relies on `rand_chacha::ChaCha8Rng::seed_from_u64`: the generator state,
/// and with it the whole stream of draws, is a function of the seed alone.
#[verifier::external_body]
pub fn rng_from_seed(seed: u64) -> (r: SpawnRng)
    ensures
        r.seed() == seed,
        r.indices_drawn() == 0,
        r.flags_drawn() == 0,
{
    SpawnRng {
        stream: rand_chacha::ChaCha8Rng::seed_from_u64(seed),
        seed: Ghost(seed),
        indices: Ghost(0nat),
        flags: Ghost(0nat),
    }
}

/// Relies on `rand::Rng::gen_range(0, 16)`: the draw lies in [0, 16), panics
/// only when the bounds are empty (they are constants here), and on a ChaCha
/// stream is a function of the seed and of the draws made before it.
#[verifier::external_body]
pub fn draw_spawn_index(r: &mut SpawnRng) -> (i: usize)
    requires
        old(r).balanced(),
    ensures
        i < 16,
        i == spawn_index_at(old(r).seed(), old(r).indices_drawn()),
        final(r).seed() == old(r).seed(),
        final(r).indices_drawn() == old(r).indices_drawn() + 1,
        final(r).flags_drawn() == old(r).flags_drawn(),
{
    r.stream.gen_range(0, 16)
}

/// Relies on `rand::Rng::gen::<bool>`: on a ChaCha stream the draw is a
/// function of the seed and of the draws made before it.
#[verifier::external_body]
pub fn draw_spawn_flag(r: &mut SpawnRng) -> (b: bool)
    requires
        old(r).indices_drawn() == old(r).flags_drawn() + 1,
    ensures
        b == spawn_flag_at(old(r).seed(), old(r).flags_drawn()),
        final(r).seed() == old(r).seed(),
        final(r).indices_drawn() == old(r).indices_drawn(),
        final(r).flags_drawn() == old(r).flags_drawn() + 1,
{
    r.stream.gen()
}

/// Relies on `rand::thread_rng` and `rand::RngCore::next_u64`: a 64-bit value
/// from a non-deterministic source; nothing is promised of which value comes
/// back.
#[verifier::external_body]
pub fn random_seed() -> u64 {
    rand::thread_rng().next_u64()
}

} // verus!
