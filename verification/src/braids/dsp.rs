//! Pitch-to-increment tables and the per-block linear ramps of the
//! oscillators.
use vstd::prelude::*;
use crate::bits::{lemma_u32_shr};
use super::resources::{LUT_OSCILLATOR_DELAYS, LUT_OSCILLATOR_INCREMENTS};

verus! {

pub const HIGHEST_NOTE_ANALOG: i32 = 16384;
pub const HIGHEST_NOTE_DIGITAL: i32 = 17920;
pub const PITCH_TABLE_START: i32 = 16384;
pub const OCTAVE: i32 = 1536;

/// The number of octaves that must be added to `p` (in 1/128 semitone) to
/// bring it to zero or above.
pub open spec fn octave_shifts(p: int) -> nat
    decreases (if p < 0 { -p } else { 0 }),
{
    if p >= 0 {
        0
    } else {
        1 + octave_shifts(p + OCTAVE)
    }
}

/// `p` raised by whole octaves into `0..OCTAVE` (when it starts below that).
pub open spec fn octave_reduced(p: int) -> int {
    p + octave_shifts(p) * OCTAVE
}

/// Octave reduction lands in `0..OCTAVE` whenever `p < OCTAVE`.
pub proof fn lemma_octave_reduced_range(p: int)
    requires
        p < OCTAVE,
    ensures
        0 <= octave_reduced(p) < OCTAVE,
    decreases (if p < 0 { -p } else { 0 }),
{
    if p < 0 {
        lemma_octave_reduced_range(p + OCTAVE);
    }
}

/// Lowering a pitch below the table by one octave adds one shift and leaves
/// the reduced pitch unchanged.
pub proof fn lemma_octave_shifts_step(p: int)
    requires
        p < 0,
    ensures
        octave_shifts(p - OCTAVE) == octave_shifts(p) + 1,
        octave_reduced(p - OCTAVE) == octave_reduced(p),
{
}

/// Linear interpolation in a 97-entry pitch table at `r` (`0..1536`, 16 steps
/// per entry), with the 32-bit wrap-around of the table arithmetic.
pub open spec fn pitch_table_lookup(table: Seq<u32>, r: int) -> u32 {
    let a = table[r / 16];
    let b = table[r / 16 + 1];
    a.wrapping_add(((b.wrapping_sub(a) as i32).wrapping_mul((r % 16) as i32) >> 4i32) as u32)
}

/// The pitch looked up in the increment table: clamped to just below the top
/// of the table, then taken relative to its start.
pub open spec fn increment_table_pitch(midi_pitch: int) -> int {
    (if midi_pitch >= PITCH_TABLE_START { PITCH_TABLE_START - 1 } else { midi_pitch })
        - PITCH_TABLE_START
}

/// The phase increment (2^32 per cycle) of a pitch in 1/128 semitone: the
/// table value one octave-reduction above it, halved once per octave (the
/// shift count taken modulo 32).
pub open spec fn phase_increment_of(midi_pitch: int) -> u32 {
    let p = increment_table_pitch(midi_pitch);
    pitch_table_lookup(LUT_OSCILLATOR_INCREMENTS@, octave_reduced(p))
        >> ((octave_shifts(p) % 32) as u32)
}

/// The pitch looked up in the delay table, clamped one octave below the top
/// of the digital range.
pub open spec fn delay_table_pitch(midi_pitch: int) -> int {
    (if midi_pitch >= HIGHEST_NOTE_DIGITAL - OCTAVE {
        HIGHEST_NOTE_DIGITAL - OCTAVE
    } else {
        midi_pitch
    }) - PITCH_TABLE_START
}

/// The period (in 2^-12 samples) of a pitch: the table value shifted right by
/// `12 - octaves`, the count taken modulo 32 as the shifter does.
pub open spec fn delay_of(midi_pitch: int) -> u32 {
    let p = delay_table_pitch(midi_pitch);
    pitch_table_lookup(LUT_OSCILLATOR_DELAYS@, octave_reduced(p))
        >> ((((12 - octave_shifts(p)) as i32) as u32 & 31) as u32)
}

/// Interpolates a 97-entry pitch table at `r`.
fn lookup_pitch_table(table: &[u32; 97], r: i32) -> (v: u32)
    requires
        0 <= r < OCTAVE,
    ensures
        v == pitch_table_lookup(table@, r as int),
{
    let idx = (r >> 4) as usize;
    proof {
        assert(0 <= r < 1536 ==> (r >> 4i32) == r / 16 && (r & 0xf) == r % 16) by (bit_vector);
    }
    let a = table[idx];
    let b = table[idx + 1];
    a.wrapping_add(((b.wrapping_sub(a) as i32).wrapping_mul(r & 0xf) >> 4) as u32)
}

/// Raises `p` by octaves into `0..OCTAVE`, counting the octaves added.
fn reduce_octaves(p: i32) -> (r: (i32, u32))
    requires
        p < OCTAVE,
    ensures
        r.0 == octave_reduced(p as int),
        r.1 == octave_shifts(p as int),
        0 <= r.0 < OCTAVE,
        r.1 <= 0x20_0000,
{
    let mut ref_pitch = p;
    let mut num_shifts: u32 = 0;
    proof {
        lemma_octave_reduced_range(p as int);
    }
    while ref_pitch < 0
        invariant
            ref_pitch < OCTAVE,
            ref_pitch == p + num_shifts * OCTAVE,
            octave_shifts(p as int) == num_shifts + octave_shifts(ref_pitch as int),
            p < OCTAVE,
            num_shifts * OCTAVE <= OCTAVE - p,
        decreases OCTAVE - ref_pitch,
    {
        ref_pitch += OCTAVE;
        num_shifts += 1;
    }
    (ref_pitch, num_shifts)
}

/// Phase increment of a pitch given in 1/128 semitone, for the analog-style
/// waveforms.
pub fn compute_phase_increment_analog(midi_pitch: i16) -> (r: u32)
    ensures
        r == phase_increment_of(midi_pitch as int),
{
    compute_phase_increment_digital(midi_pitch as i32)
}

/// Phase increment of a pitch given in 1/128 semitone, for the digital models.
pub fn compute_phase_increment_digital(midi_pitch: i32) -> (r: u32)
    requires
        midi_pitch >= i32::MIN + PITCH_TABLE_START,
    ensures
        r == phase_increment_of(midi_pitch as int),
{
    let clamped = if midi_pitch >= PITCH_TABLE_START { PITCH_TABLE_START - 1 } else { midi_pitch };
    let (ref_pitch, num_shifts) = reduce_octaves(clamped - PITCH_TABLE_START);
    let phase_increment = lookup_pitch_table(&LUT_OSCILLATOR_INCREMENTS, ref_pitch);
    proof {
        assert((num_shifts & 31) == num_shifts % 32 && (num_shifts & 31) < 32) by (bit_vector);
    }
    phase_increment >> (num_shifts & 31)
}

/// Period, in 2^-12 samples, of a pitch given in 1/128 semitone.
pub fn compute_delay(midi_pitch: i32) -> (r: u32)
    requires
        midi_pitch >= i32::MIN + PITCH_TABLE_START,
    ensures
        r == delay_of(midi_pitch as int),
{
    let limit = HIGHEST_NOTE_DIGITAL - OCTAVE;
    let clamped = if midi_pitch >= limit { limit } else { midi_pitch };
    let (ref_pitch, num_shifts) = reduce_octaves(clamped - PITCH_TABLE_START);
    let delay = lookup_pitch_table(&LUT_OSCILLATOR_DELAYS, ref_pitch);
    let shift = (12i32.wrapping_sub(num_shifts as i32) as u32) & 31;
    proof {
        assert(12i32.wrapping_sub(num_shifts as i32) == (12 - num_shifts) as i32);
        let w = 12i32.wrapping_sub(num_shifts as i32) as u32;
        assert((w & 31) < 32) by (bit_vector);
    }
    delay >> shift
}

/// A pitch an octave lower gets exactly half the phase increment (rounded
/// down), as long as fewer than 31 octaves separate it from the table.
pub proof fn lemma_octave_halves_increment(midi_pitch: int)
    requires
        midi_pitch < PITCH_TABLE_START,
        octave_shifts(midi_pitch - PITCH_TABLE_START) < 31,
    ensures
        phase_increment_of(midi_pitch - OCTAVE) == phase_increment_of(midi_pitch) >> 1u32,
{
    let p = midi_pitch - PITCH_TABLE_START;
    lemma_octave_shifts_step(p);
    let v = pitch_table_lookup(LUT_OSCILLATOR_INCREMENTS@, octave_reduced(p));
    let k = octave_shifts(p) as u32;
    assert(k < 31 ==> (v >> ((k + 1) as u32)) == ((v >> k) >> 1u32)) by (bit_vector);
}

/// The first blep residual sample at sub-sample time `t` (16 bits):
/// `min(t, 65535)^2 >> 18`.
pub open spec fn this_blep_of(t: u32) -> i32 {
    let u: int = if t > 65535 { 65535 } else { t as int };
    (u * u / 0x40000) as i32
}

/// The second blep residual sample: `-((65535 - min(t, 65535))^2 >> 18)`.
pub open spec fn next_blep_of(t: u32) -> i32 {
    let u: int = 65535 - (if t > 65535 { 65535 } else { t as int });
    (-(u * u / 0x40000)) as i32
}

proof fn lemma_blep_square(u: u32)
    requires
        u <= 65535,
    ensures
        u * u <= 0xfffe_0001,
        (u * u) as u32 >> 18u32 == u * u / 0x40000,
        u * u / 0x40000 <= 16383,
{
    assert(u * u <= 65535 * 65535) by (nonlinear_arith)
        requires u <= 65535;
    lemma_u32_shr((u * u) as u32);
}

/// First residual sample of the band-limited step correction.
pub fn this_blep_sample(t: u32) -> (r: i32)
    ensures
        r == this_blep_of(t),
        0 <= r <= 16383,
{
    let t = if t > 65535 { 65535 } else { t };
    proof {
        lemma_blep_square(t);
    }
    (t.wrapping_mul(t) >> 18) as i32
}

/// Second residual sample of the band-limited step correction.
pub fn next_blep_sample(t: u32) -> (r: i32)
    ensures
        r == next_blep_of(t),
        -16383 <= r <= 0,
{
    let t = if t > 65535 { 65535 } else { t };
    let t = 65535 - t;
    proof {
        lemma_blep_square(t);
    }
    -((t.wrapping_mul(t) >> 18) as i32)
}

/// The two residuals of a step that happens at the very start of a sample
/// (`t == 0`) are `0` and `-16383`; at its very end (`t == 65535`) they are
/// `16383` and `0`.
pub proof fn lemma_blep_ends()
    ensures
        this_blep_of(0) == 0,
        next_blep_of(0) == -16383,
        this_blep_of(65535) == 16383,
        next_blep_of(65535) == 0,
{
}

/// A per-block linear ramp of a phase increment: constructed from the
/// previous and target increments, advanced once per sample.
#[derive(Debug, Clone, Copy)]
pub struct PhaseIncrementRamp {
    value: u32,
    step: u32,
}

/// The per-sample step of a ramp from `previous` to `target` over `size`
/// samples: the rounded-down quotient going up, and its bitwise complement
/// going down (which steps down by one more than the quotient).
pub open spec fn ramp_step(previous: u32, target: u32, size: u32) -> u32 {
    if previous < target {
        ((target - previous) / (size as int)) as u32
    } else {
        !(((previous - target) / (size as int)) as u32)
    }
}

impl PhaseIncrementRamp {
    /// The current value of the ramp.
    pub closed spec fn current(self) -> u32 {
        self.value
    }

    /// The amount added (with wrap-around) at each sample.
    pub closed spec fn increment(self) -> u32 {
        self.step
    }

    /// A ramp starting at `previous` heading to `target` over `size` samples.
    pub fn new(previous: u32, target: u32, size: usize) -> (r: Self)
        requires
            size as u32 != 0,
        ensures
            r.current() == previous,
            r.increment() == ramp_step(previous, target, size as u32),
    {
        let size = size as u32;
        let step = if previous < target {
            (target - previous) / size
        } else {
            !((previous - target) / size)
        };
        PhaseIncrementRamp { value: previous, step }
    }

    /// Advances the ramp by one sample and returns the new value.
    pub fn next(&mut self) -> (r: u32)
        ensures
            final(self).current() == old(self).current().wrapping_add(old(self).increment()),
            final(self).increment() == old(self).increment(),
            r == final(self).current(),
    {
        self.value = self.value.wrapping_add(self.step);
        self.value
    }

    /// The current value of the ramp.
    pub fn value(&self) -> (r: u32)
        ensures
            r == self.current(),
    {
        self.value
    }
}

/// An ascending ramp never overshoots: `k <= size` steps from `previous`
/// stay between `previous` and `target`.
pub proof fn lemma_rising_ramp_bounded(previous: u32, target: u32, size: u32, k: nat)
    requires
        previous < target,
        size > 0,
        k <= size,
    ensures
        previous <= previous + k * ramp_step(previous, target, size) <= target,
{
    let q = (target - previous) / (size as int);
    assert(k * q <= size * q) by (nonlinear_arith)
        requires k <= size, q >= 0;
    assert(size * q <= target - previous) by (nonlinear_arith)
        requires q == (target - previous) / (size as int), size > 0, target - previous > 0;
    assert(k * q >= 0) by (nonlinear_arith)
        requires q >= 0;
}

/// A per-block linear ramp of a 15-bit parameter: the start value plus the
/// difference scaled by a crossfade that grows by `32767 / size` each sample.
#[derive(Debug, Clone, Copy)]
pub struct ParamRamp {
    start: i32,
    delta: i32,
    increment: i32,
    xfade: i32,
}

impl ParamRamp {
    /// The start value.
    pub closed spec fn start(self) -> i32 {
        self.start
    }

    /// The difference between target and start.
    pub closed spec fn delta(self) -> i32 {
        self.delta
    }

    /// The crossfade step per sample.
    pub closed spec fn increment(self) -> i32 {
        self.increment
    }

    /// The crossfade reached so far (0 to about 32767).
    pub closed spec fn xfade(self) -> i32 {
        self.xfade
    }

    /// A ramp from `previous` to `target` over `size` samples.
    pub fn new(previous: i32, target: i32, size: usize) -> (r: Self)
        requires
            size as i32 > 0,
            i32::MIN <= target - previous <= i32::MAX,
        ensures
            r.start() == previous,
            r.delta() == target - previous,
            r.increment() == 32767int / (size as i32 as int),
            r.xfade() == 0,
    {
        let increment = 32767 / size as i32;
        ParamRamp { start: previous, delta: target - previous, increment, xfade: 0 }
    }

    /// The value the ramp yields when its crossfade is `xfade`.
    pub open spec fn value_at(self, xfade: i32) -> int {
        self.start() + (self.delta().wrapping_mul(xfade) >> 15i32)
    }

    /// Advances the crossfade by one step and returns the ramped value.
    pub fn next(&mut self) -> (r: i32)
        requires
            i32::MIN <= old(self).xfade() + old(self).increment() <= i32::MAX,
            i32::MIN <= old(self).value_at((old(self).xfade() + old(self).increment()) as i32)
                <= i32::MAX,
        ensures
            final(self).xfade() == old(self).xfade() + old(self).increment(),
            final(self).start() == old(self).start(),
            final(self).delta() == old(self).delta(),
            final(self).increment() == old(self).increment(),
            r == final(self).value_at(final(self).xfade()),
    {
        self.xfade += self.increment;
        self.start + (self.delta.wrapping_mul(self.xfade) >> 15)
    }
}

} // verus!
