//! The sampled oscillator: six shapes on a 24-bit phase accumulator, producing
//! 12-bit unsigned samples (silence is 2048). Wavetables have 513 bytes and
//! are read at index `phase >> 7` of the 16 integral phase bits, blended with
//! an even 8-bit weight.
use vstd::prelude::*;
use super::resources::{
    LUT_RES_BITCRUSHER_INCREMENTS, LUT_RES_OSCILLATOR_INCREMENTS, WAV_RES_BANDLIMITED_TRIANGLE_6,
    WAVEFORM_TABLE,
};

verus! {

/// The number of samples the oscillator renders per call.
pub const AUDIO_BLOCK_SIZE: usize = 16;

pub const K_MAX_ZONE: usize = 7;
pub const K_OCTAVE: i16 = 1536;
/// MIDI note 116 in 1/128 semitone: the bottom of the increment table.
pub const K_PITCH_TABLE_START: i16 = 14848;

#[derive(Debug, Clone, Copy, PartialEq, Eq, Structural)]
pub enum OscillatorShape {
    Triangle,
    NesTriangle,
    PitchedNoise,
    NesNoiseLong,
    NesNoiseShort,
    Sine,
}

/// Whether a shape is one of the three noise shapes (or the sine), which run
/// at twice the table rate.
pub open spec fn double_rate(s: OscillatorShape) -> bool {
    !(s == OscillatorShape::Triangle || s == OscillatorShape::NesTriangle)
}

/// Adds two phases modulo 2^24.
pub open spec fn u24_add(a: u32, b: u32) -> u32 {
    a.wrapping_add(b) & 0x00ff_ffff
}

/// The 16 integral bits of a 24-bit phase.
pub open spec fn integral(phase: u32) -> u16 {
    (phase >> 8u32) as u16
}

/// `table[i] * (255 - w) + table[i + 1] * w` with `i = phase >> 7` and the
/// even weight `w = (phase & 0x7f) << 1`.
pub open spec fn blend16(table: Seq<u8>, phase: u16) -> u16 {
    let i = (phase >> 7u16) as int;
    let w = ((phase & 0x7f) << 1u16) as int;
    (table[i] as int * (255 - w) + table[i + 1] as int * w) as u16
}

/// The high byte of `blend16`.
pub open spec fn blend8(table: Seq<u8>, phase: u16) -> u8 {
    (blend16(table, phase) >> 8u16) as u8
}

/// Two table readings weighted by 8-bit gains, summed with 16-bit wrap-around.
pub open spec fn blend_two(table_a: Seq<u8>, table_b: Seq<u8>, phase: u16, gain_a: u8, gain_b: u8) -> u16 {
    ((blend8(table_a, phase) as int * gain_a as int) as u16).wrapping_add(
        (blend8(table_b, phase) as int * gain_b as int) as u16)
}

proof fn lemma_table_index(phase: u16)
    ensures
        (phase >> 7u16) < 512,
        ((phase & 0x7f) << 1u16) <= 254,
{
    assert((phase >> 7u16) < 512) by (bit_vector);
    assert(((phase & 0x7f) << 1u16) <= 254) by (bit_vector);
}

proof fn lemma_blend_bound(a: u8, b: u8, w: int)
    requires
        0 <= w <= 254,
    ensures
        0 <= a as int * (255 - w) + b as int * w <= 65025,
{
    assert(0 <= a as int * (255 - w) + b as int * w <= 255 * 255) by (nonlinear_arith)
        requires 0 <= w <= 254, a <= 255, b <= 255;
}

fn interpolate_sample_16(table: &[u8; 513], phase: u16) -> (r: u16)
    ensures
        r == blend16(table@, phase),
        r <= 65025,
{
    proof {
        lemma_table_index(phase);
    }
    let i = (phase >> 7) as usize;
    let w = (phase & 0x7f) << 1;
    let a = table[i] as u16;
    let b = table[i + 1] as u16;
    proof {
        lemma_blend_bound(table[i as int], table[i as int + 1], w as int);
    }
    a * (255 - w) + b * w
}

fn interpolate_sample_8(table: &[u8; 513], phase: u16) -> (r: u8)
    ensures
        r == blend8(table@, phase),
{
    let s = interpolate_sample_16(table, phase);
    proof {
        assert((s >> 8u16) <= 255) by (bit_vector);
    }
    (s >> 8) as u8
}

fn interpolate_two_tables(table_a: &[u8; 513], table_b: &[u8; 513], phase: u16, gain_a: u8, gain_b: u8) -> (r: u16)
    ensures
        r == blend_two(table_a@, table_b@, phase, gain_a, gain_b),
{
    let x = interpolate_sample_8(table_a, phase) as u16;
    let y = interpolate_sample_8(table_b, phase) as u16;
    proof {
        assert(x as int * gain_a as int <= 255 * 255) by (nonlinear_arith)
            requires x <= 255, gain_a <= 255;
        assert(y as int * gain_b as int <= 255 * 255) by (nonlinear_arith)
            requires y <= 255, gain_b <= 255;
    }
    let mut result: u16 = 0;
    result = result.wrapping_add(x * gain_a as u16);
    result = result.wrapping_add(y * gain_b as u16);
    result
}

/// The nibbles of `a` swapped.
pub open spec fn swap4_spec(a: u8) -> u8 {
    ((a % 16) * 16 + a / 16) as u8
}

fn swap4(a: u8) -> (r: u8)
    ensures
        r == swap4_spec(a),
{
    proof {
        assert(((a << 4u8) | (a >> 4u8)) == ((a % 16) * 16 + a / 16) as u8) by (bit_vector);
    }
    (a << 4) | (a >> 4)
}

/// `x` halved `n` times.
pub open spec fn halved(x: u32, n: nat) -> u32
    decreases n,
{
    if n == 0 { x } else { halved(x, (n - 1) as nat) >> 1u32 }
}

/// One clock of the 16-bit Galois LFSR (polynomial `0xb400`).
pub open spec fn lfsr16_next(s: u16) -> u16 {
    (s >> 1u16) ^ (0u16.wrapping_sub(s & 1) & 0xb400u16)
}

/// One clock of the NES noise shift register: the feedback is bit 0 XOR bit
/// 1 (long mode) or bit 6 (short mode), shifted in at bit 14.
pub open spec fn nes_next(s: u16, short: bool) -> (u16, bool) {
    let tap = if short { (s >> 1u16) >> 5u16 } else { s >> 1u16 };
    let bit = ((s ^ tap) & 1) != 0;
    (if bit { (s >> 1u16) | 0x4000u16 } else { s >> 1u16 }, bit)
}


/// The pitched noise register is a Galois shift register: it shifts right,
/// and when the bit shifted out is 1 the taps 0xb400 (bits 15, 13, 12 and
/// 10) are flipped; a nonzero register stays nonzero.
pub proof fn lemma_lfsr_taps(s: u16)
    ensures
        lfsr16_next(s) == (if s & 1u16 == 1u16 { (s >> 1u16) ^ 0xb400u16 } else { s >> 1u16 }),
        s != 0 ==> lfsr16_next(s) != 0,
{
    assert((s & 1u16 == 1u16 ==> (0u16.wrapping_sub(s & 1) & 0xb400u16) == 0xb400u16)
        && (s & 1u16 != 1u16 ==> (0u16.wrapping_sub(s & 1) & 0xb400u16) == 0u16 && (s >> 1u16) ^ 0u16 == s >> 1u16)
        && (s != 0 && s & 1u16 != 1u16 ==> s >> 1u16 != 0)
        && (s & 1u16 == 1u16 ==> (s >> 1u16) ^ 0xb400u16 != 0)) by (bit_vector);
}

/// The NES noise register's feedback: bit 0 XOR bit 1 of the register in
/// long mode, bit 0 XOR bit 6 in short mode; the register shifts right and
/// the feedback enters at bit 14.
pub proof fn lemma_nes_feedback_taps(s: u16)
    ensures
        nes_next(s, false).1 == (((s ^ (s >> 1u16)) & 1u16) == 1u16),
        nes_next(s, true).1 == (((s ^ (s >> 6u16)) & 1u16) == 1u16),
        nes_next(s, false).0 == ((s >> 1u16) | (if nes_next(s, false).1 { 0x4000u16 } else { 0u16 })),
        nes_next(s, true).0 == ((s >> 1u16) | (if nes_next(s, true).1 { 0x4000u16 } else { 0u16 })),
{
    assert((s >> 1u16) >> 5u16 == s >> 6u16
        && (((s ^ (s >> 1u16)) & 1u16) != 0) == (((s ^ (s >> 1u16)) & 1u16) == 1u16)
        && (((s ^ (s >> 6u16)) & 1u16) != 0) == (((s ^ (s >> 6u16)) & 1u16) == 1u16)
        && ((s >> 1u16) | 0u16) == s >> 1u16) by (bit_vector);
}

/// The phase after `k` samples at increment `inc`, starting from `phase`.
pub open spec fn phase_after(phase: u32, inc: u32, k: nat) -> u32
    decreases k,
{
    if k == 0 { phase } else { u24_add(phase_after(phase, inc, (k - 1) as nat), inc) }
}

/// Sample `k` of the band-limited triangle (or, with `nes`, the stepped
/// triangle) at wavetable note `note`: the zone is the note's 16-note band
/// above note 12, crossfaded into the next zone by the position in the band.
pub open spec fn triangle_sample(nes: bool, phase: u32, inc: u32, note: u8, k: nat) -> u16 {
    let balance = swap4_spec(note.wrapping_sub(12));
    let gain_2 = balance & 0xf0;
    let gain_1 = !gain_2;
    let wave_index = (balance & 0x0f) as int;
    let base = if nes { 8int } else { 0int };
    let z1 = if base + wave_index > 15 { 15 } else { base + wave_index };
    let wi2 = if wave_index + 1 > 7 { 7 } else { wave_index + 1 };
    let z2 = if base + wi2 > 15 { 15 } else { base + wi2 };
    blend_two(WAVEFORM_TABLE[z1]@, WAVEFORM_TABLE[z2]@, integral(phase_after(phase, inc, k + 1)), gain_1, gain_2)
        >> 4u16
}

/// The auxiliary phase and held sample of the bit-crushed sine after `k`
/// samples: each time the auxiliary phase wraps (or at every sample when
/// its increment is 0) a new triangle sample is taken.
pub open spec fn sine_state(aux: u16, held: u16, cv_pw: u8, phase: u32, inc: u32, k: nat) -> (u16, u16)
    decreases k,
{
    if k == 0 {
        (aux, held)
    } else {
        let (a, h) = sine_state(aux, held, cv_pw, phase, inc, (k - 1) as nat);
        let aux_inc = LUT_RES_BITCRUSHER_INCREMENTS[cv_pw as int];
        let a2 = a.wrapping_add(aux_inc);
        let take = a2 < aux_inc || aux_inc == 0;
        (a2, if take { blend16(WAV_RES_BANDLIMITED_TRIANGLE_6@, integral(phase_after(phase, inc, k))) } else { h })
    }
}

/// The register and held sample of the pitched noise after `k` samples: the
/// LFSR clocks whenever the phase wraps, and its low 12 bits, scaled by 3/4,
/// are offset by 512.
pub open spec fn noise_state(rng: u16, held: u16, phase: u32, inc: u32, k: nat) -> (u16, u16)
    decreases k,
{
    if k == 0 {
        (rng, held)
    } else {
        let (r, h) = noise_state(rng, held, phase, inc, (k - 1) as nat);
        if integral(phase_after(phase, inc, k)) < integral(inc) {
            let next = lfsr16_next(r);
            (next, (512 + ((next & 0x0fff) as int * 3) / 4) as u16)
        } else {
            (r, h)
        }
    }
}

/// The register and held sample of the NES noise after `k` samples: on each
/// phase wrap the register shifts, and the output is 0x300 or 0xcff by the
/// feedback bit.
pub open spec fn nes_noise_state(rng: u16, held: u16, short: bool, phase: u32, inc: u32, k: nat) -> (u16, u16)
    decreases k,
{
    if k == 0 {
        (rng, held)
    } else {
        let (r, h) = nes_noise_state(rng, held, short, phase, inc, (k - 1) as nat);
        if integral(phase_after(phase, inc, k)) < integral(inc) {
            let (next, bit) = nes_next(r, short);
            (next, if bit { 0x0300u16 } else { 0x0cffu16 })
        } else {
            (r, h)
        }
    }
}

/// The level a noise shape starts from: its held sample, or, where that is a
/// 16-bit level left by the sine, the 12-bit level the sine put out.
pub open spec fn held_level(sample: u16) -> u16 {
    if sample > 4095 { sample >> 4u16 } else { sample }
}

/// A 16-bit value shifted down by four bits fits in 12 bits.
proof fn lemma_shr4_12_bit()
    ensures
        forall|x: u16| #[trigger] (x >> 4u16) <= 4095,
{
    assert forall|x: u16| #[trigger] (x >> 4u16) <= 4095 by {
        crate::bits::lemma_u16_shr(x);
    }
}

/// The pitched noise holds a 12-bit level as long as it started from one.
pub proof fn lemma_noise_level_12_bit(rng: u16, held: u16, phase: u32, inc: u32, k: nat)
    requires
        held <= 4095,
    ensures
        noise_state(rng, held, phase, inc, k).1 <= 4095,
    decreases k,
{
    if k > 0 {
        lemma_noise_level_12_bit(rng, held, phase, inc, (k - 1) as nat);
        let r = noise_state(rng, held, phase, inc, (k - 1) as nat).0;
        crate::bits::lemma_u16_shr(lfsr16_next(r));
    }
}

/// The NES noise holds a 12-bit level as long as it started from one.
pub proof fn lemma_nes_noise_level_12_bit(rng: u16, held: u16, short: bool, phase: u32, inc: u32, k: nat)
    requires
        held <= 4095,
    ensures
        nes_noise_state(rng, held, short, phase, inc, k).1 <= 4095,
    decreases k,
{
    if k > 0 {
        lemma_nes_noise_level_12_bit(rng, held, short, phase, inc, (k - 1) as nat);
    }
}

pub struct DigitalOscillator {
    shape: OscillatorShape,
    pitch: i16,
    gate: bool,
    note: u8,
    phase: u32,
    phase_increment: u32,
    sample: u16,
    rng_state: u16,
    aux_phase: u16,
    cv_pw: u8,
}


/// Halving a value `n` times never makes it larger.
proof fn lemma_halved_below(x: u32, n: nat)
    ensures
        halved(x, n) <= x,
    decreases n,
{
    if n > 0 {
        lemma_halved_below(x, (n - 1) as nat);
        crate::bits::lemma_u32_shr(halved(x, (n - 1) as nat));
    }
}

/// The per-call phase setup: the 24-bit increment and the note used to pick
/// the wavetable zone.
pub struct PitchSetup {
    pub increment: u32,
    pub note: u8,
}

/// The table pitch of `pitch` (16-bit wrap-around, as the register is 16 bits).
pub open spec fn table_ref_pitch(pitch: i16) -> i16 {
    pitch.wrapping_sub(K_PITCH_TABLE_START)
}

/// The number of octaves `r` is raised by to reach zero or more.
pub open spec fn octaves_below(r: int) -> nat
    decreases (if r < 0 { -r } else { 0 }),
{
    if r >= 0 { 0 } else { 1 + octaves_below(r + 1536) }
}

/// The phase setup for `pitch` and `shape`: the increment table read at the
/// octave-reduced pitch, shifted to 24 bits, halved once per octave (and once
/// more for the two triangles), truncated to 24 bits; the note is the pitch's
/// MIDI note, at least 12.
pub open spec fn pitch_setup(pitch: i16, shape: OscillatorShape) -> PitchSetup {
    let r0 = table_ref_pitch(pitch) as int;
    let n = octaves_below(r0);
    let r = r0 + n * 1536;
    let idx0 = r / 16;
    let idx = if idx0 > 95 { 95 } else { idx0 };
    let frac = ((r % 16) * 16) as u8;
    let inc16 = LUT_RES_OSCILLATOR_INCREMENTS[idx];
    let delta = LUT_RES_OSCILLATOR_INCREMENTS[idx + 1].wrapping_sub(inc16);
    let integral = inc16.wrapping_add(((delta as int * frac as int) / 256) as u16);
    let shifts = n + (if double_rate(shape) { 0nat } else { 1nat });
    let note16 = (pitch as u16) / 128;
    PitchSetup {
        increment: halved(((integral as u32) * 256) as u32, shifts) & 0x00ff_ffff,
        note: (if note16 < 12 { 12 } else { note16 }) as u8,
    }
}

/// An octave down (1536 steps of the 7.7 pitch) from any pitch below the
/// table's top octave gives exactly half the phase increment (rounded down),
/// for every shape; the pitches stay where the 16-bit table pitch does not
/// wrap.
pub proof fn lemma_octave_halves_increment(pitch: i16, shape: OscillatorShape)
    requires
        -16384 <= pitch < K_PITCH_TABLE_START,
    ensures
        pitch_setup((pitch - 1536) as i16, shape).increment == pitch_setup(pitch, shape).increment >> 1u32,
{
    let lower = (pitch - 1536) as i16;
    let r0 = table_ref_pitch(pitch) as int;
    assert(r0 == pitch - 14848);
    assert(table_ref_pitch(lower) as int == r0 - 1536);
    assert(octaves_below(r0 - 1536) == 1 + octaves_below(r0));
    let n = octaves_below(r0);
    let r = r0 + n * 1536;
    let idx0 = r / 16;
    let idx = if idx0 > 95 { 95 } else { idx0 };
    let frac = ((r % 16) * 16) as u8;
    let inc16 = LUT_RES_OSCILLATOR_INCREMENTS[idx];
    let delta = LUT_RES_OSCILLATOR_INCREMENTS[idx + 1].wrapping_sub(inc16);
    let integral = inc16.wrapping_add(((delta as int * frac as int) / 256) as u16);
    let x = ((integral as u32) * 256) as u32;
    let s = n + (if double_rate(shape) { 0nat } else { 1nat });
    assert(r0 - 1536 + (n + 1) * 1536 == r) by (nonlinear_arith)
        requires
            r == r0 + n * 1536,
    ;
    assert(halved(x, s + 1) == halved(x, s) >> 1u32);
    lemma_halved_below(x, s);
    let h = halved(x, s);
    assert(x < 0x100_0000);
    crate::bits::lemma_u32_shr(h);
    crate::bits::lemma_u32_shr(h >> 1u32);
}

impl DigitalOscillator {
    pub closed spec fn shape(self) -> OscillatorShape { self.shape }
    pub closed spec fn pitch(self) -> i16 { self.pitch }
    pub closed spec fn gate_on(self) -> bool { self.gate }
    pub closed spec fn note(self) -> u8 { self.note }
    pub closed spec fn phase(self) -> u32 { self.phase }
    pub closed spec fn increment(self) -> u32 { self.phase_increment }
    pub closed spec fn sample(self) -> u16 { self.sample }
    pub closed spec fn rng_state(self) -> u16 { self.rng_state }
    pub closed spec fn aux_phase(self) -> u16 { self.aux_phase }
    pub closed spec fn cv_pw(self) -> u8 { self.cv_pw }

    /// Sample `k` of a rendered block (counting from 0) for the current shape,
    /// at increment `inc` and wavetable note `note`.
    pub open spec fn output(self, inc: u32, note: u8, k: nat) -> u16 {
        match self.shape() {
            OscillatorShape::Triangle | OscillatorShape::NesTriangle =>
                triangle_sample(self.shape() == OscillatorShape::NesTriangle, self.phase(), inc, note, k),
            OscillatorShape::PitchedNoise => noise_state(self.rng_state(), held_level(self.sample()), self.phase(), inc, k + 1).1,
            OscillatorShape::NesNoiseLong | OscillatorShape::NesNoiseShort => nes_noise_state(
                self.rng_state(), held_level(self.sample()), self.shape() == OscillatorShape::NesNoiseShort, self.phase(), inc, k + 1).1,
            OscillatorShape::Sine => sine_state(self.aux_phase(), self.sample(), self.cv_pw(), self.phase(), inc, k + 1).1 >> 4u16,
        }
    }

    /// Every sample is a 12-bit value, whatever the state.
    pub proof fn lemma_output_12_bit(self, inc: u32, note: u8, k: nat)
        ensures
            self.output(inc, note, k) <= 4095,
    {
        match self.shape() {
            OscillatorShape::Triangle | OscillatorShape::NesTriangle => {
                lemma_shr4_12_bit();
            },
            OscillatorShape::PitchedNoise => {
                lemma_shr4_12_bit();
                lemma_noise_level_12_bit(self.rng_state(), held_level(self.sample()), self.phase(), inc, k + 1);
            },
            OscillatorShape::NesNoiseLong | OscillatorShape::NesNoiseShort => {
                lemma_shr4_12_bit();
                lemma_nes_noise_level_12_bit(self.rng_state(), held_level(self.sample()),
                    self.shape() == OscillatorShape::NesNoiseShort, self.phase(), inc, k + 1);
            },
            OscillatorShape::Sine => {
                lemma_shr4_12_bit();
            },
        }
    }

    /// The state after rendering `n` samples with a setup `st` on top of this
    /// state: the phase advanced `n` times, and each shape's own registers
    /// (held sample, random register, auxiliary phase) advanced as its
    /// samples were produced.
    pub open spec fn rendered_is(self, st: PitchSetup, n: nat, r: DigitalOscillator) -> bool {
        &&& r.shape() == self.shape()
        &&& r.pitch() == self.pitch()
        &&& r.gate_on() == self.gate_on()
        &&& r.cv_pw() == self.cv_pw()
        &&& r.note() == st.note
        &&& r.increment() == st.increment
        &&& r.phase() == phase_after(self.phase(), st.increment, n)
        &&& match self.shape() {
            OscillatorShape::Triangle | OscillatorShape::NesTriangle => {
                &&& r.sample() == self.sample()
                &&& r.rng_state() == self.rng_state()
                &&& r.aux_phase() == self.aux_phase()
            },
            OscillatorShape::Sine => {
                &&& (r.aux_phase(), r.sample()) == sine_state(self.aux_phase(), self.sample(), self.cv_pw(), self.phase(), st.increment, n)
                &&& r.rng_state() == self.rng_state()
            },
            OscillatorShape::PitchedNoise => {
                &&& (r.rng_state(), r.sample()) == noise_state(self.rng_state(), held_level(self.sample()), self.phase(), st.increment, n)
                &&& r.aux_phase() == self.aux_phase()
            },
            _ => {
                &&& (r.rng_state(), r.sample()) == nes_noise_state(self.rng_state(), held_level(self.sample()), self.shape() == OscillatorShape::NesNoiseShort, self.phase(), st.increment, n)
                &&& r.aux_phase() == self.aux_phase()
            },
        }
    }

    /// An oscillator at middle C, triangle shape, gate open, random register 1.
    pub fn new() -> (r: Self)
        ensures
            r.shape() == OscillatorShape::Triangle,
            r.pitch() == 60 * 128,
            r.gate_on(),
            r.rng_state() == 1,
            r.phase() == 0,
            r.sample() == 0,
            r.aux_phase() == 0,
            r.cv_pw() == 0,
    {
        DigitalOscillator {
            shape: OscillatorShape::Triangle,
            pitch: 7680,
            gate: true,
            note: 0,
            phase: 0,
            phase_increment: 0,
            sample: 0,
            rng_state: 1,
            aux_phase: 0,
            cv_pw: 0,
        }
    }

    /// Back to middle C, triangle, gate open, random register 1.
    pub fn init(&mut self)
        ensures
            final(self).shape() == OscillatorShape::Triangle,
            final(self).pitch() == 60 * 128,
            final(self).gate_on(),
            final(self).rng_state() == 1,
            final(self).phase() == old(self).phase(),
            final(self).sample() == old(self).sample(),
            final(self).aux_phase() == old(self).aux_phase(),
            final(self).cv_pw() == old(self).cv_pw(),
            final(self).note() == old(self).note(),
            final(self).increment() == old(self).increment(),
    {
        self.update_pitch(7680, OscillatorShape::Triangle);
        self.gate(true);
        self.rng_state = 1;
    }

    /// Sets the pitch (MIDI note times 128) and the shape.
    pub fn update_pitch(&mut self, pitch: i16, shape: OscillatorShape)
        ensures
            final(self).pitch() == pitch,
            final(self).shape() == shape,
            final(self).gate_on() == old(self).gate_on(),
            final(self).note() == old(self).note(),
            final(self).phase() == old(self).phase(),
            final(self).increment() == old(self).increment(),
            final(self).sample() == old(self).sample(),
            final(self).rng_state() == old(self).rng_state(),
            final(self).aux_phase() == old(self).aux_phase(),
            final(self).cv_pw() == old(self).cv_pw(),
    {
        self.pitch = pitch;
        self.shape = shape;
    }

    /// Opens or closes the output; a closed gate input renders silence.
    pub fn gate(&mut self, gate: bool)
        ensures
            final(self).gate_on() == gate,
            final(self).pitch() == old(self).pitch(),
            final(self).shape() == old(self).shape(),
            final(self).note() == old(self).note(),
            final(self).phase() == old(self).phase(),
            final(self).increment() == old(self).increment(),
            final(self).sample() == old(self).sample(),
            final(self).rng_state() == old(self).rng_state(),
            final(self).aux_phase() == old(self).aux_phase(),
            final(self).cv_pw() == old(self).cv_pw(),
    {
        self.gate = gate;
    }

    /// Sets the bit-crush rate of the sine shape.
    pub fn set_cv_pw(&mut self, pw: u8)
        ensures
            final(self).cv_pw() == pw,
            final(self).gate_on() == old(self).gate_on(),
            final(self).pitch() == old(self).pitch(),
            final(self).shape() == old(self).shape(),
            final(self).note() == old(self).note(),
            final(self).phase() == old(self).phase(),
            final(self).increment() == old(self).increment(),
            final(self).sample() == old(self).sample(),
            final(self).rng_state() == old(self).rng_state(),
            final(self).aux_phase() == old(self).aux_phase(),
    {
        self.cv_pw = pw;
    }

    fn compute_phase_increment(&mut self)
        ensures
            final(self).increment() == pitch_setup(old(self).pitch(), old(self).shape()).increment,
            final(self).note() == pitch_setup(old(self).pitch(), old(self).shape()).note,
            final(self).shape() == old(self).shape(),
            final(self).pitch() == old(self).pitch(),
            final(self).gate_on() == old(self).gate_on(),
            final(self).phase() == old(self).phase(),
            final(self).sample() == old(self).sample(),
            final(self).rng_state() == old(self).rng_state(),
            final(self).aux_phase() == old(self).aux_phase(),
            final(self).cv_pw() == old(self).cv_pw(),
    {
        let ghost r0 = table_ref_pitch(self.pitch) as int;
        let mut ref_pitch: i16 = self.pitch.wrapping_sub(K_PITCH_TABLE_START);
        let mut octaves: u32 = 0;
        while ref_pitch < 0
            invariant
                ref_pitch as int == r0 + octaves * 1536,
                octaves_below(r0) == octaves + octaves_below(ref_pitch as int),
                r0 >= -32768,
                ref_pitch <= 32767,
                octaves <= 22,
            decreases 32767 - ref_pitch,
        {
            ref_pitch = ref_pitch + K_OCTAVE;
            octaves += 1;
        }
        let mut num_shifts: u32 = if matches!(self.shape, OscillatorShape::Triangle | OscillatorShape::NesTriangle) {
            octaves + 1
        } else {
            octaves
        };
        let idx0 = ((ref_pitch as u16) >> 4) as usize;
        let idx_int = if idx0 > 95 { 95 } else { idx0 };
        let r16 = ref_pitch as u16;
        proof {
            assert(r16 >> 4u16 == r16 / 16) by (bit_vector);
            assert((r16 as u8) << 4u8 == ((r16 % 16) * 16) as u8) by (bit_vector);
        }
        let idx_frac: u8 = (ref_pitch as u8) << 4;
        let inc16 = LUT_RES_OSCILLATOR_INCREMENTS[idx_int];
        let inc16_next = LUT_RES_OSCILLATOR_INCREMENTS[idx_int + 1];
        let delta = inc16_next.wrapping_sub(inc16);
        proof {
            assert(delta as u32 * idx_frac as u32 <= 65535 * 255) by (nonlinear_arith)
                requires delta <= 65535, idx_frac <= 255;
        }
        let prod = delta as u32 * idx_frac as u32;
        proof {
            assert(prod >> 8u32 == prod / 256) by (bit_vector);
        }
        let interp = (prod >> 8) as u16;
        let increment_integral = inc16.wrapping_add(interp);
        let mut increment: u32 = (increment_integral as u32) << 8;
        proof {
            let x = increment_integral as u32;
            assert(x << 8u32 == x * 256) by (bit_vector)
                requires x <= 65535;
        }
        let ghost start = increment;
        let mut k: u32 = 0;
        while k < num_shifts
            invariant
                increment == halved(start, k as nat),
                k <= num_shifts,
            decreases num_shifts - k,
        {
            increment = increment >> 1;
            k += 1;
        }
        let p16 = self.pitch as u16;
        proof {
            assert(p16 >> 7u16 == p16 / 128) by (bit_vector);
        }
        let mut note = p16 >> 7;
        if note < 12 {
            note = 12;
        }
        self.note = note as u8;
        self.phase_increment = increment & 0x00ff_ffff;
    }

    /// Fills `out` with 12-bit samples of the current shape, or with silence
    /// (2048) while its gate input is low.
    pub fn render(&mut self, out: &mut [u16])
        ensures
            final(out)@.len() == old(out)@.len(),
            forall|k: int| 0 <= k < final(out)@.len() ==> #[trigger] final(out)@[k] <= 4095,
            old(self).gate_on() ==> {
                let st = pitch_setup(old(self).pitch(), old(self).shape());
                &&& old(self).rendered_is(st, old(out)@.len(), *final(self))
                &&& forall|k: int| 0 <= k < old(out)@.len() ==>
                    final(out)@[k] == old(self).output(st.increment, st.note, k as nat)
            },
            !old(self).gate_on() ==> {
                &&& *final(self) == *old(self)
                &&& forall|k: int| 0 <= k < old(out)@.len() ==> final(out)@[k] == 2048
            },
    {
        if self.gate {
            self.compute_phase_increment();
            match self.shape {
                OscillatorShape::Triangle | OscillatorShape::NesTriangle => self.render_bandlimited_triangle(out),
                OscillatorShape::PitchedNoise => self.render_noise(out),
                OscillatorShape::NesNoiseLong | OscillatorShape::NesNoiseShort => self.render_noise_nes(out),
                OscillatorShape::Sine => self.render_sine(out),
            }
            proof {
                let st = pitch_setup(old(self).pitch(), old(self).shape());
                assert forall|k: int| 0 <= k < out@.len() implies #[trigger] out@[k] <= 4095 by {
                    old(self).lemma_output_12_bit(st.increment, st.note, k as nat);
                }
            }
        } else {
            let n = out.len();
            let mut i: usize = 0;
            while i < n
                invariant
                    n == out@.len(),
                    i <= n,
                    forall|k: int| 0 <= k < i ==> out@[k] == 2048,
                decreases n - i,
            {
                out[i] = 2048;
                i += 1;
            }
        }
    }

    fn render_bandlimited_triangle(&mut self, out: &mut [u16])
        requires
            old(self).shape() == OscillatorShape::Triangle || old(self).shape() == OscillatorShape::NesTriangle,
        ensures
            final(out)@.len() == old(out)@.len(),
            old(self).rendered_is(PitchSetup { increment: old(self).increment(), note: old(self).note() },
                old(out)@.len(), *final(self)),
            forall|k: int| 0 <= k < old(out)@.len() ==>
                final(out)@[k] == old(self).output(old(self).increment(), old(self).note(), k as nat),
    {
        let ghost s0 = *self;
        let balance_index = swap4(self.note.wrapping_sub(12));
        let gain_2 = balance_index & 0xf0;
        let gain_1 = !gain_2;
        let wave_index = (balance_index & 0x0f) as usize;
        let base: usize = if self.shape == OscillatorShape::NesTriangle { 8 } else { 0 };
        let z1 = if base + wave_index > 15 { 15 } else { base + wave_index };
        let wave_index_2 = if wave_index + 1 > K_MAX_ZONE { K_MAX_ZONE } else { wave_index + 1 };
        let z2 = if base + wave_index_2 > 15 { 15 } else { base + wave_index_2 };
        let wave_1 = &WAVEFORM_TABLE[z1];
        let wave_2 = &WAVEFORM_TABLE[z2];
        let inc = self.phase_increment;
        let mut phase = self.phase;
        let n = out.len();
        let mut i: usize = 0;
        while i < n
            invariant
                n == out@.len(),
                i <= n,
                phase == phase_after(s0.phase(), inc, i as nat),
                inc == s0.increment(),
                s0.shape() == OscillatorShape::Triangle || s0.shape() == OscillatorShape::NesTriangle,
                wave_1@ == WAVEFORM_TABLE[z1 as int]@,
                wave_2@ == WAVEFORM_TABLE[z2 as int]@,
                forall|k: int| 0 <= k < i ==> out@[k] == s0.output(inc, s0.note(), k as nat),
                ({
                    let balance = swap4_spec(s0.note().wrapping_sub(12));
                    let wi = (balance & 0x0f) as int;
                    let b: int = if s0.shape() == OscillatorShape::NesTriangle { 8 } else { 0 };
                    &&& gain_2 == balance & 0xf0
                    &&& gain_1 == !gain_2
                    &&& z1 == (if b + wi > 15 { 15 } else { b + wi })
                    &&& z2 == (if b + (if wi + 1 > 7 { 7 } else { wi + 1 }) > 15 { 15 }
                        else { b + (if wi + 1 > 7 { 7 } else { wi + 1 }) })
                }),
            decreases n - i,
        {
            phase = phase.wrapping_add(inc) & 0x00ff_ffff;
            let sample = interpolate_two_tables(wave_1, wave_2, (phase >> 8) as u16, gain_1, gain_2);
            out[i] = sample >> 4;
            i += 1;
        }
        self.phase = phase;
    }

    fn render_sine(&mut self, out: &mut [u16])
        requires
            old(self).shape() == OscillatorShape::Sine,
        ensures
            final(out)@.len() == old(out)@.len(),
            old(self).rendered_is(PitchSetup { increment: old(self).increment(), note: old(self).note() },
                old(out)@.len(), *final(self)),
            forall|k: int| 0 <= k < old(out)@.len() ==>
                final(out)@[k] == old(self).output(old(self).increment(), old(self).note(), k as nat),
    {
        let ghost s0 = *self;
        let aux_phase_increment = LUT_RES_BITCRUSHER_INCREMENTS[self.cv_pw as usize];
        let inc = self.phase_increment;
        let mut phase = self.phase;
        let n = out.len();
        let mut i: usize = 0;
        while i < n
            invariant
                n == out@.len(),
                i <= n,
                phase == phase_after(s0.phase(), inc, i as nat),
                inc == s0.increment(),
                s0.shape() == OscillatorShape::Sine,
                aux_phase_increment == LUT_RES_BITCRUSHER_INCREMENTS[s0.cv_pw() as int],
                (self.aux_phase, self.sample) == sine_state(s0.aux_phase(), s0.sample(), s0.cv_pw(), s0.phase(), inc, i as nat),
                self.shape == s0.shape(),
                self.pitch == s0.pitch(),
                self.gate == s0.gate_on(),
                self.cv_pw == s0.cv_pw(),
                self.note == s0.note(),
                self.phase_increment == s0.increment(),
                self.rng_state == s0.rng_state(),
                self.phase == s0.phase(),
                forall|k: int| 0 <= k < i ==> out@[k] == s0.output(inc, s0.note(), k as nat),
            decreases n - i,
        {
            phase = phase.wrapping_add(inc) & 0x00ff_ffff;
            self.aux_phase = self.aux_phase.wrapping_add(aux_phase_increment);
            if self.aux_phase < aux_phase_increment || aux_phase_increment == 0 {
                self.sample = interpolate_sample_16(&WAV_RES_BANDLIMITED_TRIANGLE_6, (phase >> 8) as u16);
            }
            out[i] = self.sample >> 4;
            i += 1;
        }
        self.phase = phase;
    }

    fn render_noise(&mut self, out: &mut [u16])
        requires
            old(self).shape() == OscillatorShape::PitchedNoise,
        ensures
            final(out)@.len() == old(out)@.len(),
            old(self).rendered_is(PitchSetup { increment: old(self).increment(), note: old(self).note() },
                old(out)@.len(), *final(self)),
            forall|k: int| 0 <= k < old(out)@.len() ==>
                final(out)@[k] == old(self).output(old(self).increment(), old(self).note(), k as nat),
    {
        let ghost s0 = *self;
        let inc = self.phase_increment;
        let inc_integral = (inc >> 8) as u16;
        let mut phase = self.phase;
        let mut rng_state = self.rng_state;
        let mut sample = if self.sample > 4095 { self.sample >> 4 } else { self.sample };
        let n = out.len();
        let mut i: usize = 0;
        while i < n
            invariant
                n == out@.len(),
                i <= n,
                phase == phase_after(s0.phase(), inc, i as nat),
                inc == s0.increment(),
                inc_integral == integral(inc),
                s0.shape() == OscillatorShape::PitchedNoise,
                (rng_state, sample) == noise_state(s0.rng_state(), held_level(s0.sample()), s0.phase(), inc, i as nat),
                forall|k: int| 0 <= k < i ==> out@[k] == s0.output(inc, s0.note(), k as nat),
            decreases n - i,
        {
            phase = phase.wrapping_add(inc) & 0x00ff_ffff;
            if ((phase >> 8) as u16) < inc_integral {
                rng_state = (rng_state >> 1) ^ (0u16.wrapping_sub(rng_state & 1) & 0xb400);
                let s = rng_state & 0x0fff;
                proof {
                    assert(s <= 4095) by (bit_vector)
                        requires s == rng_state & 0x0fff;
                    assert(((s * 3) as u16) >> 2u16 == (s * 3) / 4) by (bit_vector)
                        requires s <= 4095;
                }
                sample = 512 + ((s * 3) >> 2);
            }
            out[i] = sample;
            i += 1;
        }
        self.phase = phase;
        self.rng_state = rng_state;
        self.sample = sample;
    }

    fn render_noise_nes(&mut self, out: &mut [u16])
        requires
            old(self).shape() == OscillatorShape::NesNoiseLong || old(self).shape() == OscillatorShape::NesNoiseShort,
        ensures
            final(out)@.len() == old(out)@.len(),
            old(self).rendered_is(PitchSetup { increment: old(self).increment(), note: old(self).note() },
                old(out)@.len(), *final(self)),
            forall|k: int| 0 <= k < old(out)@.len() ==>
                final(out)@[k] == old(self).output(old(self).increment(), old(self).note(), k as nat),
    {
        let ghost s0 = *self;
        let inc = self.phase_increment;
        let inc_integral = (inc >> 8) as u16;
        let short = self.shape == OscillatorShape::NesNoiseShort;
        let mut phase = self.phase;
        let mut rng_state = self.rng_state;
        let mut sample = if self.sample > 4095 { self.sample >> 4 } else { self.sample };
        let n = out.len();
        let mut i: usize = 0;
        while i < n
            invariant
                n == out@.len(),
                i <= n,
                phase == phase_after(s0.phase(), inc, i as nat),
                inc == s0.increment(),
                inc_integral == integral(inc),
                s0.shape() == OscillatorShape::NesNoiseLong || s0.shape() == OscillatorShape::NesNoiseShort,
                short == (s0.shape() == OscillatorShape::NesNoiseShort),
                (rng_state, sample) == nes_noise_state(s0.rng_state(), held_level(s0.sample()), short, s0.phase(), inc, i as nat),
                forall|k: int| 0 <= k < i ==> out@[k] == s0.output(inc, s0.note(), k as nat),
            decreases n - i,
        {
            phase = phase.wrapping_add(inc) & 0x00ff_ffff;
            if ((phase >> 8) as u16) < inc_integral {
                let mut tap = rng_state >> 1;
                if short {
                    tap = tap >> 5;
                }
                let random_bit = (rng_state ^ tap) & 1;
                rng_state = rng_state >> 1;
                if random_bit != 0 {
                    rng_state = rng_state | 0x4000;
                    sample = 0x0300;
                } else {
                    sample = 0x0cff;
                }
            }
            out[i] = sample;
            i += 1;
        }
        self.phase = phase;
        self.rng_state = rng_state;
        self.sample = sample;
    }
}

impl Default for DigitalOscillator {
    fn default() -> (r: Self)
        ensures
            r.shape() == OscillatorShape::Triangle,
            r.pitch() == 60 * 128,
            r.gate_on(),
            r.rng_state() == 1,
    {
        DigitalOscillator::new()
    }
}

} // verus!
