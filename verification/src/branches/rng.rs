//! The free-running 32-bit Galois LFSR of the Branches main loop (feedback
//! polynomial `0xd0000001`), which supplies one 32-bit random snapshot per
//! control-rate step.
use vstd::prelude::*;

verus! {

/// One shift of the Galois LFSR: shift right, and if the bit shifted out was
/// set, XOR in the feedback polynomial.
pub open spec fn lfsr_next(s: u32) -> u32 {
    (s >> 1) ^ ((0u32.wrapping_sub(s & 1)) & 0xd000_0001u32)
}

/// The state after `n` shifts starting from `s`.
pub open spec fn lfsr_iterate(s: u32, n: nat) -> u32
    decreases n,
{
    if n == 0 {
        s
    } else {
        lfsr_next(lfsr_iterate(s, (n - 1) as nat))
    }
}

/// A shift of a non-zero state never yields the all-zero state.
pub proof fn lemma_lfsr_next_nonzero(s: u32)
    requires
        s != 0,
    ensures
        lfsr_next(s) != 0,
{
    assert(s != 0 ==> ((s >> 1) ^ ((0u32.wrapping_sub(s & 1)) & 0xd000_0001u32)) != 0)
        by (bit_vector);
}

/// The LFSR, started anywhere but at zero, never reaches the absorbing
/// all-zero state, however many steps it runs.
pub proof fn lemma_lfsr_never_zero(s: u32, n: nat)
    requires
        s != 0,
    ensures
        lfsr_iterate(s, n) != 0,
    decreases n,
{
    if n > 0 {
        lemma_lfsr_never_zero(s, (n - 1) as nat);
        lemma_lfsr_next_nonzero(lfsr_iterate(s, (n - 1) as nat));
    }
}

#[derive(Debug, Clone, Copy)]
pub struct Rng {
    state: u32,
}

impl Rng {
    /// The invariant: the register never holds the absorbing zero state.
    #[verifier::type_invariant]
    spec fn wf(self) -> bool {
        self.state != 0
    }

    /// The current register contents.
    pub closed spec fn state(self) -> u32 {
        self.state
    }

    /// A freshly seeded register (seed 1).
    pub fn new() -> (r: Self)
        ensures
            r.state() == 1,
    {
        Rng { state: 1 }
    }

    /// Re-seeds the register with 1.
    pub fn reset(&mut self)
        ensures
            final(self).state() == 1,
    {
        self.state = 1;
    }

    /// Returns the snapshot taken before advancing, then advances the register
    /// by one shift.
    pub fn next_words(&mut self) -> (words: u32)
        ensures
            words == old(self).state(),
            final(self).state() == lfsr_next(old(self).state()),
            words != 0,
    {
        proof {
            use_type_invariant(&*self);
            lemma_lfsr_next_nonzero(self.state);
        }
        let words = self.state;
        self.state = (self.state >> 1) ^ (0u32.wrapping_sub(self.state & 1) & 0xd000_0001);
        words
    }
}

impl Default for Rng {
    fn default() -> (r: Self)
        ensures
            r.state() == 1,
    {
        Rng::new()
    }
}

} // verus!
