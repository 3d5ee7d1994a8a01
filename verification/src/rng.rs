//! A seedable pseudo-random source.
//!
//! Wave composition, spawn placement and power-up kinds all draw from this
//! generator. It is threaded through the simulation context rather than
//! taken from a global, so a fixed seed replays a whole session
//! deterministically; `from_entropy` seeds it from the process-wide
//! generator of the `rand` crate for ordinary play. The generator is a
//! 64-bit xorshift, whose step function is fully specified, so every draw
//! is pinned by the contracts.

use vstd::prelude::*;

verus! {

/// The xorshift step: three shift-xor rounds over the whole state.
pub open spec fn xorshift_step(x: u64) -> u64 {
    let a = x ^ (x << 13);
    let b = a ^ (a >> 7);
    b ^ (b << 17)
}

/// The state a seed starts the generator in: the seed itself, except that
/// zero (the one fixed point of the step) is replaced by a fixed odd
/// constant.
pub open spec fn seeded_state(seed: u64) -> u64 {
    if seed == 0 {
        0x9E3779B97F4A7C15u64
    } else {
        seed
    }
}

/// A deterministic, seedable pseudo-random generator.
#[derive(Clone, Copy, Debug, PartialEq, Eq, Structural)]
pub struct Rng {
    pub state: u64,
}

/// Relies on rand::random: draws a fresh value from the thread-local
/// generator; nothing can be promised of the value drawn.
pub assume_specification<T>[ rand::random::<T> ]() -> (r: T)
    where
        rand::distributions::Standard: rand::distributions::Distribution<T>,
;

impl Rng {
    /// A generator replaying the stream that `seed` names.
    pub fn new(seed: u64) -> (r: Rng)
        ensures
            r.state == seeded_state(seed),
    {
        if seed == 0 {
            Rng { state: 0x9E3779B97F4A7C15u64 }
        } else {
            Rng { state: seed }
        }
    }

    /// A generator seeded from the process-wide entropy source.
    pub fn from_entropy() -> (r: Rng) {
        let seed = rand::random::<u64>();
        Rng::new(seed)
    }

    /// The next raw draw.
    pub fn next_u64(&mut self) -> (r: u64)
        ensures
            final(self).state == xorshift_step(old(self).state),
            r == final(self).state,
    {
        let mut x = self.state;
        x = x ^ (x << 13);
        x = x ^ (x >> 7);
        x = x ^ (x << 17);
        self.state = x;
        x
    }

    /// A draw reduced below `bound`.
    pub fn below(&mut self, bound: u64) -> (r: u64)
        requires
            bound >= 1,
        ensures
            final(self).state == xorshift_step(old(self).state),
            r == xorshift_step(old(self).state) % bound,
            r < bound,
    {
        let x = self.next_u64();
        x % bound
    }
}

} // verus!
