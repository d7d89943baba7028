//! The seeded pseudo-random generator behind `randomize`, modelled as a
//! deterministic stream of booleans fixed by the seed.

use vstd::prelude::*;

verus! {

/// Declares `rand::rngs::StdRng` so a generator can hold one; the value
/// itself stays opaque to the verifier.
#[verifier::external_type_specification]
#[verifier::external_body]
pub struct ExStdRng(rand::rngs::StdRng);

/// The boolean at position `index` of the stream drawn by
/// `rand::Rng::gen::<bool>` from a `rand::rngs::StdRng` built with
/// `seed_from_u64(seed)`. `StdRng` is a deterministic pseudo-random
/// generator, so this is a function of the seed and the position alone.
pub uninterp spec fn std_rng_bool(seed: u64, index: nat) -> bool;

/// A seeded generator together with the seed it was built from and the
/// number of booleans drawn so far.
pub struct Generator {
    rng: rand::rngs::StdRng,
    seed: Ghost<u64>,
    drawn: Ghost<nat>,
}

/// Relies on `rand::rngs::StdRng::seed_from_u64`: builds the generator whose
/// draws `std_rng_bool(seed_val, _)` speaks of. Nothing can be stated of the
/// opaque generator value itself.
#[verifier::external_body]
fn new_std_rng(seed_val: u64) -> rand::rngs::StdRng {
    rand::SeedableRng::seed_from_u64(seed_val)
}

impl Generator {
    /// The seed this generator was built from.
    pub closed spec fn spec_seed(self) -> u64 {
        self.seed@
    }

    /// How many booleans have been drawn so far.
    pub closed spec fn spec_drawn(self) -> nat {
        self.drawn@
    }

    /// A fresh generator: seeded with `seed_val`, nothing drawn yet.
    pub fn new(seed_val: u64) -> (g: Generator)
        ensures
            g.spec_seed() == seed_val,
            g.spec_drawn() == 0,
    {
        Generator { rng: new_std_rng(seed_val), seed: Ghost(seed_val), drawn: Ghost(0nat) }
    }

    /// Relies on `rand::Rng::gen::<bool>` on `rand::rngs::StdRng`: `StdRng`
    /// is a deterministic pseudo-random generator, so the boolean drawn at a
    /// given position of the stream is fixed by the seed and that position.
    /// The `rng` field is touched only here and in `new`, so `spec_seed` and
    /// `spec_drawn` name the generator's actual seed and position.
    #[verifier::external_body]
    pub fn next_bool(&mut self) -> (b: bool)
        ensures
            final(self).spec_seed() == old(self).spec_seed(),
            final(self).spec_drawn() == old(self).spec_drawn() + 1,
            b == std_rng_bool(old(self).spec_seed(), old(self).spec_drawn()),
    {
        rand::Rng::gen::<bool>(&mut self.rng)
    }
}

} // verus!
