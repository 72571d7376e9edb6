//! The linear congruential random source of the oscillators:
//! `state = state * 1664525 + 1013904223` (mod 2^32).
use vstd::prelude::*;

verus! {

/// One step of the generator.
pub open spec fn lcg_next(s: u32) -> u32 {
    s.wrapping_mul(1664525).wrapping_add(1013904223)
}

#[derive(Debug, Clone, Copy)]
pub struct Random {
    state: u32,
}

impl Random {
    /// The generator state.
    pub closed spec fn state(self) -> u32 {
        self.state
    }

    /// A generator seeded with 0x21.
    pub fn new() -> (r: Self)
        ensures
            r.state() == 0x21,
    {
        Random { state: 0x21 }
    }

    /// Replaces the state with `seed`.
    pub fn seed(&mut self, seed: u32)
        ensures
            final(self).state() == seed,
    {
        self.state = seed;
    }

    /// Advances the generator and returns the new state.
    pub fn get_word(&mut self) -> (r: u32)
        ensures
            final(self).state() == lcg_next(old(self).state()),
            r == final(self).state(),
    {
        self.state = self.state.wrapping_mul(1664525).wrapping_add(1013904223);
        self.state
    }

    /// Advances the generator and returns the top 16 bits of the new state as
    /// a signed sample.
    pub fn get_sample(&mut self) -> (r: i16)
        ensures
            final(self).state() == lcg_next(old(self).state()),
            r == (final(self).state() >> 16u32) as i16,
    {
        (self.get_word() >> 16) as i16
    }
}

impl Default for Random {
    fn default() -> (r: Self)
        ensures
            r.state() == 0x21,
    {
        Random::new()
    }
}

} // verus!
