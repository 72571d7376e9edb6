//! A two-segment (attack, decay) exponential envelope.
use vstd::prelude::*;
use crate::bits::{lemma_u32_shr};
use crate::fixed::{interpolate_824_u16, interpolate_824_u16_spec, mix_u16, mix_u16_spec};
use super::resources::{LUT_ENV_EXPO, LUT_ENV_PORTAMENTO_INCREMENTS};

verus! {

#[derive(Debug, Clone, Copy, PartialEq, Eq, Structural)]
pub enum EnvelopeSegment {
    Attack,
    Decay,
    Dead,
}

/// The index of a segment: 0, 1 or 2.
pub open spec fn segment_index(s: EnvelopeSegment) -> int {
    match s {
        EnvelopeSegment::Attack => 0,
        EnvelopeSegment::Decay => 1,
        EnvelopeSegment::Dead => 2,
    }
}

/// The segment with index `i` (anything past 1 is `Dead`).
pub open spec fn segment_at(i: int) -> EnvelopeSegment {
    if i == 0 {
        EnvelopeSegment::Attack
    } else if i == 1 {
        EnvelopeSegment::Decay
    } else {
        EnvelopeSegment::Dead
    }
}

/// The level each segment heads for: full scale for the attack, zero after.
pub open spec fn segment_target(i: int) -> u16 {
    if i == 0 { 65535 } else { 0 }
}

#[derive(Debug, Clone, Copy)]
pub struct Envelope {
    increment: [u32; 3],
    target: [u16; 3],
    segment: usize,
    a: u16,
    b: u16,
    value: u16,
    phase: u32,
}

impl Envelope {
    /// The segment index is valid, the attack heads to full scale and the
    /// others to zero, and the dead segment never advances.
    #[verifier::type_invariant]
    spec fn wf(self) -> bool {
        &&& self.segment < 3
        &&& self.target[0] == 65535
        &&& self.target[1] == 0
        &&& self.target[2] == 0
        &&& self.increment[2] == 0
    }

    /// The phase increment of segment `i` (attack, decay, dead).
    pub closed spec fn increment_of(self, i: int) -> u32 { self.increment[i] }
    /// The index of the running segment.
    pub closed spec fn segment_index(self) -> int { self.segment as int }
    /// The level the running segment started from.
    pub closed spec fn from_level(self) -> u16 { self.a }
    /// The level the running segment heads to.
    pub closed spec fn to_level(self) -> u16 { self.b }
    /// The current output level.
    pub closed spec fn level(self) -> u16 { self.value }
    /// The position within the running segment (2^32 is its end).
    pub closed spec fn phase(self) -> u32 { self.phase }

    /// Everything but the running segment is as in `other`: increments alike.
    pub open spec fn same_rates(self, other: Envelope) -> bool {
        &&& self.increment_of(0) == other.increment_of(0)
        &&& self.increment_of(1) == other.increment_of(1)
        &&& self.increment_of(2) == other.increment_of(2)
    }

    /// The state right after `trigger(s)` from this state.
    pub open spec fn triggered_is(self, s: EnvelopeSegment, r: Envelope) -> bool {
        let start = if s == EnvelopeSegment::Dead { 0 } else { self.level() };
        &&& r.same_rates(self)
        &&& r.level() == start
        &&& r.from_level() == start
        &&& r.to_level() == segment_target(segment_index(s))
        &&& r.segment_index() == segment_index(s)
        &&& r.phase() == 0
    }

    /// The state and output right after one `render` call from this state:
    /// the phase advances; on wrapping past the segment's end the level snaps
    /// to the segment's target and the next segment starts; while the running
    /// segment moves, the level follows the exponential curve from its start
    /// to its target.
    pub open spec fn rendered_is(self, r: Envelope) -> bool {
        let inc = self.increment_of(self.segment_index());
        let phase = self.phase().wrapping_add(inc);
        let wrapped = phase < inc;
        let snapped = mix_u16_spec(self.from_level(), self.to_level(), 65535);
        let next = if self.segment_index() + 1 < 2 { self.segment_index() + 1 } else { 2 };
        let seg = if wrapped { next } else { self.segment_index() };
        let a = if wrapped { if next == 2 { 0 } else { snapped } } else { self.from_level() };
        let b = if wrapped { segment_target(next) } else { self.to_level() };
        let p = if wrapped { 0 } else { phase };
        let held = if wrapped { if next == 2 { 0 } else { snapped } } else { self.level() };
        &&& r.same_rates(self)
        &&& r.segment_index() == seg
        &&& r.from_level() == a
        &&& r.to_level() == b
        &&& r.phase() == p
        &&& r.level() == (if self.increment_of(seg) != 0 {
            mix_u16_spec(a, b, interpolate_824_u16_spec(LUT_ENV_EXPO@, p))
        } else {
            held
        })
    }

    /// A dead envelope at level 0 with both segment rates 0.
    pub fn new() -> (r: Self)
        ensures
            r.segment_index() == 2,
            r.level() == 0,
            r.from_level() == 0,
            r.to_level() == 0,
            r.phase() == 0,
            r.increment_of(0) == 0,
            r.increment_of(1) == 0,
            r.increment_of(2) == 0,
    {
        Envelope { increment: [0; 3], target: [65535, 0, 0], segment: 2, a: 0, b: 0, value: 0, phase: 0 }
    }

    /// Restores the segment targets and stops the dead segment; the rest of
    /// the state is kept.
    pub fn init(&mut self)
        ensures
            final(self).same_rates(*old(self)),
            final(self).increment_of(2) == 0,
            final(self).segment_index() == old(self).segment_index(),
            final(self).level() == old(self).level(),
            final(self).from_level() == old(self).from_level(),
            final(self).to_level() == old(self).to_level(),
            final(self).phase() == old(self).phase(),
    {
        proof {
            use_type_invariant(&*self);
        }
        self.target[0] = 65535;
        self.target[1] = 0;
        self.target[2] = 0;
        self.increment[2] = 0;
    }

    /// The running segment.
    pub fn segment(&self) -> (r: EnvelopeSegment)
        ensures
            segment_index(r) == self.segment_index(),
    {
        proof {
            use_type_invariant(self);
        }
        match self.segment {
            0 => EnvelopeSegment::Attack,
            1 => EnvelopeSegment::Decay,
            _ => EnvelopeSegment::Dead,
        }
    }

    /// Sets the attack and decay rates from the 128-step rate table.
    pub fn update(&mut self, a: usize, d: usize)
        requires
            a < 128,
            d < 128,
        ensures
            final(self).increment_of(0) == LUT_ENV_PORTAMENTO_INCREMENTS[a as int],
            final(self).increment_of(1) == LUT_ENV_PORTAMENTO_INCREMENTS[d as int],
            final(self).increment_of(2) == 0,
            final(self).segment_index() == old(self).segment_index(),
            final(self).level() == old(self).level(),
            final(self).from_level() == old(self).from_level(),
            final(self).to_level() == old(self).to_level(),
            final(self).phase() == old(self).phase(),
    {
        proof {
            use_type_invariant(&*self);
        }
        self.increment[0] = LUT_ENV_PORTAMENTO_INCREMENTS[a];
        self.increment[1] = LUT_ENV_PORTAMENTO_INCREMENTS[d];
    }

    /// Starts `segment` from the current level (from 0 for `Dead`).
    pub fn trigger(&mut self, segment: EnvelopeSegment)
        ensures
            old(self).triggered_is(segment, *final(self)),
            final(self).increment_of(2) == 0,
    {
        proof {
            use_type_invariant(&*self);
        }
        let index: usize = match segment {
            EnvelopeSegment::Attack => 0,
            EnvelopeSegment::Decay => 1,
            EnvelopeSegment::Dead => 2,
        };
        if index == 2 {
            self.value = 0;
        }
        self.a = self.value;
        self.b = self.target[index];
        self.segment = index;
        self.phase = 0;
    }

    /// Advances the envelope by one control-rate step and returns its level.
    pub fn render(&mut self) -> (r: u16)
        ensures
            old(self).rendered_is(*final(self)),
            r == final(self).level(),
            final(self).increment_of(2) == 0,
    {
        proof {
            use_type_invariant(&*self);
        }
        let increment = self.increment[self.segment];
        self.phase = self.phase.wrapping_add(increment);
        if self.phase < increment {
            self.value = mix_u16(self.a, self.b, 65535);
            let next: usize = if self.segment + 1 < 2 { self.segment + 1 } else { 2 };
            if next == 2 {
                self.value = 0;
            }
            self.a = self.value;
            self.b = self.target[next];
            self.segment = next;
            self.phase = 0;
        }
        if self.increment[self.segment] != 0 {
            self.value = mix_u16(self.a, self.b, interpolate_824_u16(&LUT_ENV_EXPO, self.phase));
        }
        self.value
    }

    /// The phase increment of segment `i` (0 attack, 1 decay, 2 dead). The
    /// dead segment's is always 0, so a dead envelope never moves.
    pub fn increment(&self, i: usize) -> (r: u32)
        requires
            i < 3,
        ensures
            r == self.increment_of(i as int),
            self.increment_of(2) == 0,
    {
        proof {
            use_type_invariant(self);
        }
        self.increment[i]
    }

    /// The current level.
    pub fn value(&self) -> (r: u16)
        ensures
            r == self.level(),
    {
        self.value
    }
}

impl Default for Envelope {
    fn default() -> (r: Self)
        ensures
            r.segment_index() == 2,
            r.level() == 0,
            r.increment_of(0) == 0,
            r.increment_of(1) == 0,
    {
        Envelope::new()
    }
}

/// A dead envelope stays dead and silent: rendering it changes nothing.
/// (Every envelope has a dead segment that never advances: `new`, `init`,
/// `update`, `trigger` and `render` ensure `increment_of(2) == 0`, and
/// `increment` shows it of any envelope a caller holds.)
pub proof fn lemma_dead_envelope_is_still(e: Envelope, r: Envelope)
    requires
        e.segment_index() == 2,
        e.increment_of(2) == 0,
        e.rendered_is(r),
    ensures
        r.segment_index() == 2,
        r.level() == e.level(),
        r.phase() == e.phase(),
{
}

/// A mix of two levels never leaves the range between them.
pub proof fn lemma_mix_u16_between(a: u16, b: u16, w: u16)
    ensures
        mix_u16_spec(a, b, w) <= (if a > b { a } else { b }),
        mix_u16_spec(a, b, w) >= (if a < b { a } else { b }) - 1,
{
    let hi: int = if a > b { a as int } else { b as int };
    let lo: int = if a < b { a as int } else { b as int };
    let s = (a as int) * (65535 - w as int) + (b as int) * (w as int);
    assert(lo * 65535 <= s <= hi * 65535) by (nonlinear_arith)
        requires
            s == (a as int) * (65535 - w as int) + (b as int) * (w as int),
            lo <= a <= hi, lo <= b <= hi, 0 <= w <= 65535,
    ;
    let su = s as u32;
    assert(s <= 65535 * 65535) by (nonlinear_arith)
        requires s <= hi * 65535, hi <= 65535;
    lemma_u32_shr(su);
    assert(lo * 65535 / 65536 >= lo - 1);
    assert(hi * 65535 / 65536 <= hi);
}

} // verus!
