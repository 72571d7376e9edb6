//! Noise through two-pole resonators. The "particle noise" model: random
//! clicks, each of which retunes three resonators around the pitch (spread
//! by the second parameter) and restarts a decaying burst of noise that
//! rings through them; the first parameter sets how dense the clicks are.
//! The "twin peaks" model: white noise through two resonators, one at the
//! pitch and one moved by the second parameter, both as sharp as the first
//! parameter says, summed with a make-up gain and saturated.
//!
//! The resonators' coefficient and gain curves (over the 7.7 pitch, 257
//! entries at 8.24 positions) are handed to `render`: the model is stated
//! for any curves.
use vstd::prelude::*;
use crate::bits::{lemma_i32_shr, lemma_u32_shr};
use crate::fixed::{clip16_sym, clip16_sym_spec, interpolate_824_u16, interpolate_824_u16_spec};
use crate::fixed::{interpolate_88_i16, interpolate_88_i16_spec};
use super::random::{lcg_next, Random};
use super::resources::WS_MODERATE_OVERDRIVE;

verus! {

/// A resonator: its last two outputs, its input gain and its feedback
/// coefficient.
#[derive(Clone, Copy)]
pub struct Resonator {
    pub y1: i32,
    pub y2: i32,
    pub scale: i32,
    pub coefficient: i32,
}

/// Outputs within 16 bits, gain and coefficient within 16 unsigned bits.
pub open spec fn resonator_ok(r: Resonator) -> bool {
    &&& -32767 <= r.y1 <= 32767
    &&& -32767 <= r.y2 <= 32767
    &&& 0 <= r.scale <= 65535
    &&& 0 <= r.coefficient <= 65535
}

/// A silent resonator with no gain.
pub open spec fn quiet_resonator() -> Resonator {
    Resonator { y1: 0, y2: 0, scale: 0, coefficient: 0 }
}

/// `sample` scaled by `gain / 65536`, rounded towards zero.
pub open spec fn scaled(sample: i32, gain: i32) -> i32 {
    if sample > 0 {
        ((sample as int * gain as int) as i32) >> 16i32
    } else {
        (-(((-(sample as int) * gain as int) as i32) >> 16i32) as int) as i32
    }
}

/// One step of a resonator fed `x`: `x + y1 * c / 2^15 - y2 * q / 2^15`
/// (each product rounded down), clipped to 16 bits.
pub open spec fn resonate(r: Resonator, x: i32, q: i32) -> Resonator {
    let y0 = clip16_sym_spec(
        (x as int + (((r.y1 as int * r.coefficient as int) as i32) >> 15i32) as int
            - (((r.y2 as int * q as int) as i32) >> 15i32) as int) as i32,
    );
    Resonator { y1: y0, y2: r.y1, ..r }
}

/// A 7.7 pitch clamped to `0..=16383`.
pub open spec fn clamp_pitch(x: int) -> int {
    if x < 0 {
        0
    } else if x > 16383 {
        16383
    } else {
        x
    }
}

/// A resonator tuned to the pitch `p`: its gain read from `scales` and its
/// coefficient from `coefficients` (times 0.996).
pub open spec fn retune(r: Resonator, coefficients: Seq<u16>, scales: Seq<u16>, p: int) -> Resonator {
    let phase = (p * 131072) as u32;
    Resonator {
        coefficient: ((interpolate_824_u16_spec(coefficients, phase) as int * 32636) as i32) >> 15i32,
        scale: interpolate_824_u16_spec(scales, phase) as i32,
        ..r
    }
}

/// The particle noise's state: the burst's amplitude, the three
/// resonators and the random generator's state.
pub struct ParticleVoice {
    pub amplitude: u16,
    pub r1: Resonator,
    pub r2: Resonator,
    pub r3: Resonator,
    pub rng: u32,
}

/// One step (two equal output samples): a random word; when its low 23 bits
/// fall below `1024 + p0` a click retunes the resonators (to the pitch
/// plus 12, 19 and 15 semitones, each moved by random amounts scaled by the
/// second parameter) and restarts the burst at full amplitude. The word's
/// low 16 bits at the burst's amplitude feed the resonators; the amplitude
/// decays by 64763/65536; the output is the resonators' sum, clipped.
pub open spec fn particle_step(v: ParticleVoice, pitch: i16, p0: i16, p1: i16, coefficients: Seq<u16>, scales: Seq<u16>) -> (ParticleVoice, i16) {
    let noise = lcg_next(v.rng);
    let hit = ((noise & 0x7f_ffffu32) as int) < 1024 + p0 as int;
    let na = (noise & 0x0fffu32) as int - 0x800;
    let nb = ((noise >> 15u32) & 0x1fffu32) as int - 0x1000;
    let amp0: u16 = if hit { 65535 } else { v.amplitude };
    let r1 = if hit { retune(v.r1, coefficients, scales, clamp_pitch(pitch + ((((3 * na * p1) as i32) >> 17i32) as int) + 0x600)) } else { v.r1 };
    let r2 = if hit { retune(v.r2, coefficients, scales, clamp_pitch(pitch + ((((na * p1) as i32) >> 15i32) as int) + 0x980)) } else { v.r2 };
    let r3 = if hit { retune(v.r3, coefficients, scales, clamp_pitch(pitch + ((((nb * p1) as i32) >> 16i32) as int) + 0x790)) } else { v.r3 };
    let sample = ((((noise as i16) as int * amp0 as int) as i32) >> 16i32);
    let n1 = resonate(r1, scaled(sample, r1.scale), 32506);
    let n2 = resonate(r2, scaled(sample, r2.scale), 32506);
    let n3 = resonate(r3, scaled(sample, r3.scale), 32506);
    (
        ParticleVoice {
            amplitude: ((amp0 as int * 64763) as u32 >> 16u32) as u16,
            r1: n1,
            r2: n2,
            r3: n3,
            rng: noise,
        },
        clip16_sym_spec((n1.y1 as int + (n2.y1 as int + n3.y1 as int)) as i32) as i16,
    )
}

/// `j` steps of the particle noise.
pub open spec fn particle_run(v: ParticleVoice, pitch: i16, p0: i16, p1: i16, coefficients: Seq<u16>, scales: Seq<u16>, j: nat) -> ParticleVoice
    decreases j,
{
    if j == 0 {
        v
    } else {
        particle_step(particle_run(v, pitch, p0, p1, coefficients, scales, (j - 1) as nat), pitch, p0, p1, coefficients, scales).0
    }
}

/// Scales a sample by a resonator's gain.
fn scaled_exec(sample: i32, gain: i32) -> (r: i32)
    requires
        -32768 <= sample <= 32767,
        0 <= gain <= 65535,
    ensures
        r == scaled(sample, gain),
        -32768 <= r <= 32767,
{
    if sample > 0 {
        proof {
            assert(0 <= sample * gain <= 32767 * 65535) by (nonlinear_arith)
                requires
                    0 < sample <= 32767,
                    0 <= gain <= 65535,
            ;
            lemma_i32_shr((sample * gain) as i32);
        }
        sample * gain >> 16
    } else {
        proof {
            assert(0 <= (-sample) * gain <= 32768 * 65535) by (nonlinear_arith)
                requires
                    0 <= -sample <= 32768,
                    0 <= gain <= 65535,
            ;
            lemma_i32_shr(((-sample) * gain) as i32);
        }
        -((-sample) * gain >> 16)
    }
}

/// One step of a resonator (see `resonate`).
fn resonate_exec(r: Resonator, x: i32, q: i32) -> (n: Resonator)
    requires
        resonator_ok(r),
        -32768 <= x <= 32767,
        0 <= q <= 32767,
    ensures
        n == resonate(r, x, q),
        resonator_ok(n),
{
    proof {
        assert(-32767 * 65535 <= r.y1 * r.coefficient <= 32767 * 65535) by (nonlinear_arith)
            requires
                -32767 <= r.y1 <= 32767,
                0 <= r.coefficient <= 65535,
        ;
        assert(-32767 * 32767 <= r.y2 * q <= 32767 * 32767) by (nonlinear_arith)
            requires
                -32767 <= r.y2 <= 32767,
                0 <= q <= 32767,
        ;
        lemma_i32_shr((r.y1 * r.coefficient) as i32);
        lemma_i32_shr((r.y2 * q) as i32);
    }
    let y0 = clip16_sym(x + (r.y1 * r.coefficient >> 15) - (r.y2 * q >> 15));
    Resonator { y1: y0, y2: r.y1, ..r }
}

/// Tunes a resonator to the pitch `p` (see `retune`).
fn retune_exec(r: Resonator, coefficients: &[u16; 257], scales: &[u16; 257], p: i32) -> (n: Resonator)
    requires
        resonator_ok(r),
        0 <= p <= 16383,
    ensures
        n == retune(r, coefficients@, scales@, p as int),
        resonator_ok(n),
{
    proof {
        crate::bits::lemma_i32_shl(p);
    }
    let phase: u32 = (p << 17) as u32;
    let c = interpolate_824_u16(coefficients, phase) as i32;
    let s = interpolate_824_u16(scales, phase) as i32;
    proof {
        lemma_i32_shr((c * 32636) as i32);
    }
    Resonator { coefficient: c * 32636 >> 15, scale: s, ..r }
}

/// The particle noise model's own state.
pub struct ParticleNoise {
    amplitude: u16,
    r1: Resonator,
    r2: Resonator,
    r3: Resonator,
}

impl ParticleNoise {
    /// The model's state with the generator's state `rng`.
    pub closed spec fn voice(self, rng: u32) -> ParticleVoice {
        ParticleVoice { amplitude: self.amplitude, r1: self.r1, r2: self.r2, r3: self.r3, rng }
    }

    /// Every resonator within its ranges.
    pub closed spec fn ok(self) -> bool {
        resonator_ok(self.r1) && resonator_ok(self.r2) && resonator_ok(self.r3)
    }

    /// Silent: no burst, resonators at rest with no gain.
    pub fn new() -> (r: Self)
        ensures
            r.ok(),
            r.voice(0) == (ParticleVoice { amplitude: 0, r1: quiet_resonator(), r2: quiet_resonator(), r3: quiet_resonator(), rng: 0 }),
    {
        let q = Resonator { y1: 0, y2: 0, scale: 0, coefficient: 0 };
        ParticleNoise { amplitude: 0, r1: q, r2: q, r3: q }
    }

    /// Renders `size` samples (in pairs) at the 7.7 `pitch`, with the
    /// resonators' coefficient and gain curves given.
    pub fn render(&mut self, rng: &mut Random, pitch: i16, p0: i16, p1: i16,
        coefficients: &[u16; 257], scales: &[u16; 257], buffer: &mut [i16], size: usize)
        requires
            old(self).ok(),
            size % 2 == 0,
            size <= old(buffer)@.len(),
        ensures
            ({
                let v0 = old(self).voice(old(rng).state());
                let e = particle_run(v0, pitch, p0, p1, coefficients@, scales@, (size / 2) as nat);
                &&& forall|k: int| 0 <= k < size ==> #[trigger] final(buffer)@[k]
                    == particle_step(particle_run(v0, pitch, p0, p1, coefficients@, scales@, (k / 2) as nat),
                        pitch, p0, p1, coefficients@, scales@).1
                &&& final(self).voice(final(rng).state()) == e
            }),
            final(self).ok(),
            final(buffer)@.len() == old(buffer)@.len(),
            forall|k: int| size <= k < old(buffer)@.len() ==> #[trigger] final(buffer)@[k] == old(buffer)@[k],
    {
        let ghost v0 = self.voice(rng.state());
        let density: i64 = 1024 + p0 as i64;
        let mut j: usize = 0;
        while j < size / 2
            invariant
                j <= size / 2,
                size % 2 == 0,
                size <= buffer@.len(),
                buffer@.len() == old(buffer)@.len(),
                density == 1024 + p0 as int,
                self.ok(),
                self.voice(rng.state()) == particle_run(v0, pitch, p0, p1, coefficients@, scales@, j as nat),
                forall|k: int| 0 <= k < 2 * j ==> #[trigger] buffer@[k]
                    == particle_step(particle_run(v0, pitch, p0, p1, coefficients@, scales@, (k / 2) as nat),
                        pitch, p0, p1, coefficients@, scales@).1,
                forall|k: int| size <= k < buffer@.len() ==> #[trigger] buffer@[k] == old(buffer)@[k],
            decreases size / 2 - j,
        {
            let ghost w = self.voice(rng.state());
            let noise = rng.get_word();
            let mut amplitude = self.amplitude;
            let mut r1 = self.r1;
            let mut r2 = self.r2;
            let mut r3 = self.r3;
            if ((noise & 0x7f_ffff) as i64) < density {
                amplitude = 65535;
                proof {
                    lemma_u32_shr(noise);
                    lemma_u32_shr(noise >> 15);
                }
                let noise_a: i32 = (noise & 0x0fff) as i32 - 0x800;
                let noise_b: i32 = ((noise >> 15) & 0x1fff) as i32 - 0x1000;
                proof {
                    assert(-3 * 2048 * 32768 <= 3 * noise_a * p1 <= 3 * 2048 * 32768) by (nonlinear_arith)
                        requires
                            -2048 <= noise_a <= 2047,
                            -32768 <= p1 <= 32767,
                    ;
                    assert(-2048 * 32768 <= noise_a * p1 <= 2048 * 32768) by (nonlinear_arith)
                        requires
                            -2048 <= noise_a <= 2047,
                            -32768 <= p1 <= 32767,
                    ;
                    assert(-4096 * 32768 <= noise_b * p1 <= 4096 * 32768) by (nonlinear_arith)
                        requires
                            -4096 <= noise_b <= 4095,
                            -32768 <= p1 <= 32767,
                    ;
                    lemma_i32_shr((3 * noise_a * p1 as i32) as i32);
                    lemma_i32_shr((noise_a * p1 as i32) as i32);
                    lemma_i32_shr((noise_b * p1 as i32) as i32);
                }
                let q1: i32 = clamp_exec(pitch as i32 + (3 * noise_a * p1 as i32 >> 17) + 0x600);
                let q2: i32 = clamp_exec(pitch as i32 + (noise_a * p1 as i32 >> 15) + 0x980);
                let q3: i32 = clamp_exec(pitch as i32 + (noise_b * p1 as i32 >> 16) + 0x790);
                r1 = retune_exec(r1, coefficients, scales, q1);
                r2 = retune_exec(r2, coefficients, scales, q2);
                r3 = retune_exec(r3, coefficients, scales, q3);
            }
            proof {
                assert(-32768 * 65535 <= (noise as i16) as int * amplitude as int <= 32767 * 65535) by (nonlinear_arith)
                    requires
                        -32768 <= (noise as i16) <= 32767,
                        0 <= amplitude <= 65535,
                ;
                lemma_i32_shr(((noise as i16) as int * amplitude as int) as i32);
                assert(amplitude as int * 64763 <= 65535 * 64763) by (nonlinear_arith)
                    requires
                        0 <= amplitude <= 65535,
                ;
                lemma_u32_shr((amplitude as int * 64763) as u32);
            }
            let sample: i32 = (noise as i16 as i32) * (amplitude as i32) >> 16;
            let decayed = ((amplitude as u32 * 64763) >> 16) as u16;
            let n1 = resonate_exec(r1, scaled_exec(sample, r1.scale), 32506);
            let n2 = resonate_exec(r2, scaled_exec(sample, r2.scale), 32506);
            let n3 = resonate_exec(r3, scaled_exec(sample, r3.scale), 32506);
            let out = clip16_sym(n1.y1 + (n2.y1 + n3.y1)) as i16;
            self.amplitude = decayed;
            self.r1 = n1;
            self.r2 = n2;
            self.r3 = n3;
            buffer[2 * j] = out;
            buffer[2 * j + 1] = out;
            proof {
                let st = particle_step(w, pitch, p0, p1, coefficients@, scales@);
                assert(noise == lcg_next(w.rng));
                assert(st.1 == out);
                assert(self.voice(rng.state()) == st.0);
                assert((2 * j) / 2 == j);
                assert((2 * j + 1) / 2 == j);
            }
            j += 1;
        }
    }
}

/// A 7.7 pitch clamped to `0..=16383`.
fn clamp_exec(x: i32) -> (r: i32)
    ensures
        r == clamp_pitch(x as int),
        0 <= r <= 16383,
{
    if x < 0 {
        0
    } else if x > 16383 {
        16383
    } else {
        x
    }
}

/// The twin peaks' sharpness from the first parameter: `65240 + p0 / 128`
/// (the parameter read as unsigned).
pub open spec fn twin_q(p0: i16) -> u32 {
    (65240 + ((p0 as u32) >> 7u32)) as u32
}

/// The feedback of the resonators' second tap: `q^2 / 2^17` (wrapping).
pub open spec fn twin_q_squared(p0: i16) -> i32 {
    (twin_q(p0).wrapping_mul(twin_q(p0)) >> 17u32) as i32
}

/// A resonator keeping its outputs, tuned to the pitch `p` for the twin
/// peaks: the gain read from `scales`, the coefficient from `coefficients`
/// scaled by `q / 65536` (wrapping).
pub open spec fn twin_tune(y1: i32, y2: i32, coefficients: Seq<u16>, scales: Seq<u16>, p: int, q: u32) -> Resonator {
    let phase = (p * 131072) as u32;
    Resonator {
        y1,
        y2,
        scale: interpolate_824_u16_spec(scales, phase) as i32,
        coefficient: (((interpolate_824_u16_spec(coefficients, phase) as u32).wrapping_mul(q)) >> 16u32) as i32,
    }
}

/// The twin peaks' running state: two resonators and the generator.
pub struct TwinPeaksVoice {
    pub r1: Resonator,
    pub r2: Resonator,
    pub rng: u32,
}

/// One step (two equal samples) of the twin peaks: half a random sample
/// feeds both resonators; their sum, plus itself times the make-up gain
/// over 8192, clipped, passes the overdrive curve.
pub open spec fn twin_peaks_step(v: TwinPeaksVoice, q2: i32, gain: i32) -> (TwinPeaksVoice, i16) {
    let rng = lcg_next(v.rng);
    let sample = (((rng >> 16u32) as i16) as i32) >> 1i32;
    let n1 = resonate(v.r1, scaled(sample, v.r1.scale), q2);
    let n2 = resonate(v.r2, scaled(sample, v.r2.scale), q2);
    let sum = n1.y1 as int + n2.y1 as int;
    let boosted = clip16_sym_spec((sum + (((sum as i32).wrapping_mul(gain)) >> 13i32) as int) as i32);
    (
        TwinPeaksVoice { r1: n1, r2: n2, rng },
        interpolate_88_i16_spec(WS_MODERATE_OVERDRIVE@, (boosted as int + 32768) as u16),
    )
}

/// `j` steps of the twin peaks.
pub open spec fn twin_peaks_run(v: TwinPeaksVoice, q2: i32, gain: i32, j: nat) -> TwinPeaksVoice
    decreases j,
{
    if j == 0 {
        v
    } else {
        twin_peaks_step(twin_peaks_run(v, q2, gain, (j - 1) as nat), q2, gain).0
    }
}

/// The twin peaks model's own state: the two resonators' last outputs.
pub struct TwinPeaks {
    y11: i32,
    y12: i32,
    y21: i32,
    y22: i32,
}

impl TwinPeaks {
    /// The resonators' last two outputs each.
    pub closed spec fn outputs(self) -> (i32, i32, i32, i32) {
        (self.y11, self.y12, self.y21, self.y22)
    }

    /// Outputs within 16 bits.
    pub closed spec fn ok(self) -> bool {
        &&& -32767 <= self.y11 <= 32767
        &&& -32767 <= self.y12 <= 32767
        &&& -32767 <= self.y21 <= 32767
        &&& -32767 <= self.y22 <= 32767
    }

    /// Resonators at rest.
    pub fn new() -> (r: Self)
        ensures
            r.ok(),
            r.outputs() == (0i32, 0i32, 0i32, 0i32),
    {
        TwinPeaks { y11: 0, y12: 0, y21: 0, y22: 0 }
    }

    /// Renders `size` samples (in pairs) at the 7.7 `pitch`, with the
    /// resonators' coefficient and gain curves given.
    pub fn render(&mut self, rng: &mut Random, pitch: i16, p0: i16, p1: i16,
        coefficients: &[u16; 257], scales: &[u16; 257], buffer: &mut [i16], size: usize)
        requires
            old(self).ok(),
            size % 2 == 0,
            size <= old(buffer)@.len(),
        ensures
            ({
                let (y11, y12, y21, y22) = old(self).outputs();
                let q = twin_q(p0);
                let v0 = TwinPeaksVoice {
                    r1: twin_tune(y11, y12, coefficients@, scales@, clamp_pitch(pitch as int), q),
                    r2: twin_tune(y21, y22, coefficients@, scales@, clamp_pitch(pitch + ((((p1 as int - 16384) as i32) >> 1i32) as int)), q),
                    rng: old(rng).state(),
                };
                let gain = 8191 - ((p0 as i32) >> 2i32) as int;
                let e = twin_peaks_run(v0, twin_q_squared(p0), gain as i32, (size / 2) as nat);
                &&& forall|k: int| 0 <= k < size ==> #[trigger] final(buffer)@[k]
                    == twin_peaks_step(twin_peaks_run(v0, twin_q_squared(p0), gain as i32, (k / 2) as nat), twin_q_squared(p0), gain as i32).1
                &&& final(self).outputs() == (e.r1.y1, e.r1.y2, e.r2.y1, e.r2.y2)
                &&& final(rng).state() == e.rng
            }),
            final(self).ok(),
            final(buffer)@.len() == old(buffer)@.len(),
            forall|k: int| size <= k < old(buffer)@.len() ==> #[trigger] final(buffer)@[k] == old(buffer)@[k],
    {
        proof {
            lemma_u32_shr(p0 as u32);
            crate::bits::lemma_i16_shr(p0);
            lemma_i32_shr((p1 as i32 - 16384) as i32);
        }
        let q: u32 = 65240 + ((p0 as u32) >> 7);
        let q_squared = (q.wrapping_mul(q) >> 17) as i32;
        proof {
            lemma_u32_shr(q.wrapping_mul(q));
        }
        let r1 = twin_tune_exec(self.y11, self.y12, coefficients, scales, clamp_exec(pitch as i32), q);
        let r2 = twin_tune_exec(self.y21, self.y22, coefficients, scales, clamp_exec(pitch as i32 + ((p1 as i32 - 16384) >> 1)), q);
        let gain: i32 = 8191 - ((p0 as i32) >> 2);
        let ghost v0 = TwinPeaksVoice { r1, r2, rng: rng.state() };
        let mut r1 = r1;
        let mut r2 = r2;
        let mut j: usize = 0;
        while j < size / 2
            invariant
                j <= size / 2,
                size % 2 == 0,
                size <= buffer@.len(),
                buffer@.len() == old(buffer)@.len(),
                0 <= q_squared <= 32767,
                q_squared == twin_q_squared(p0),
                0 <= gain <= 16383,
                resonator_ok(r1),
                resonator_ok(r2),
                (TwinPeaksVoice { r1, r2, rng: rng.state() }) == twin_peaks_run(v0, q_squared, gain, j as nat),
                forall|k: int| 0 <= k < 2 * j ==> #[trigger] buffer@[k]
                    == twin_peaks_step(twin_peaks_run(v0, q_squared, gain, (k / 2) as nat), q_squared, gain).1,
                forall|k: int| size <= k < buffer@.len() ==> #[trigger] buffer@[k] == old(buffer)@[k],
            decreases size / 2 - j,
        {
            let (n1, n2, out) = twin_peaks_step_exec(r1, r2, rng, q_squared, gain);
            r1 = n1;
            r2 = n2;
            buffer[2 * j] = out;
            buffer[2 * j + 1] = out;
            proof {
                assert((2 * j) / 2 == j);
                assert((2 * j + 1) / 2 == j);
            }
            j += 1;
        }
        self.y11 = r1.y1;
        self.y12 = r1.y2;
        self.y21 = r2.y1;
        self.y22 = r2.y2;
    }
}

/// Tunes a resonator for the twin peaks (see `twin_tune`).
fn twin_tune_exec(y1: i32, y2: i32, coefficients: &[u16; 257], scales: &[u16; 257], p: i32, q: u32) -> (r: Resonator)
    requires
        -32767 <= y1 <= 32767,
        -32767 <= y2 <= 32767,
        0 <= p <= 16383,
    ensures
        r == twin_tune(y1, y2, coefficients@, scales@, p as int, q),
        resonator_ok(r),
{
    proof {
        crate::bits::lemma_i32_shl(p);
    }
    let phase: u32 = (p << 17) as u32;
    let c = interpolate_824_u16(coefficients, phase) as u32;
    let s = interpolate_824_u16(scales, phase) as i32;
    proof {
        lemma_u32_shr(c.wrapping_mul(q));
    }
    Resonator { y1, y2, scale: s, coefficient: (c.wrapping_mul(q) >> 16) as i32 }
}

/// One step of the twin peaks (see `twin_peaks_step`).
#[verifier::rlimit(40)]
fn twin_peaks_step_exec(r1: Resonator, r2: Resonator, rng: &mut Random, q2: i32, gain: i32) -> (r: (Resonator, Resonator, i16))
    requires
        resonator_ok(r1),
        resonator_ok(r2),
        0 <= q2 <= 32767,
        0 <= gain <= 16383,
    ensures
        ({
            let st = twin_peaks_step(TwinPeaksVoice { r1, r2, rng: old(rng).state() }, q2, gain);
            &&& st.0 == (TwinPeaksVoice { r1: r.0, r2: r.1, rng: final(rng).state() })
            &&& st.1 == r.2
        }),
        resonator_ok(r.0),
        resonator_ok(r.1),
{
    let noise = rng.get_sample();
    proof {
        lemma_i32_shr(noise as i32);
    }
    let sample: i32 = (noise as i32) >> 1;
    let n1 = resonate_exec(r1, scaled_exec(sample, r1.scale), q2);
    let n2 = resonate_exec(r2, scaled_exec(sample, r2.scale), q2);
    let boosted = boost_exec(n1.y1 + n2.y1, gain);
    let out = interpolate_88_i16(&WS_MODERATE_OVERDRIVE, (boosted + 32768) as u16);
    (n1, n2, out)
}

/// `sum` plus itself times `gain / 8192`, clipped.
fn boost_exec(sum: i32, gain: i32) -> (r: i32)
    requires
        -65534 <= sum <= 65534,
    ensures
        r == clip16_sym_spec((sum as int + ((sum.wrapping_mul(gain)) >> 13i32) as int) as i32),
        -32767 <= r <= 32767,
{
    let boost = sum.wrapping_mul(gain);
    proof {
        lemma_i32_shr(boost);
    }
    clip16_sym(sum + (boost >> 13))
}

} // verus!
