//! The vowel synthesizer: three formants read from small formant waveforms
//! (two sine-like, one square-like, sixteen amplitude levels each), tuned by
//! blending two neighbouring vowels or, for a while after a strike, set to a
//! random consonant; a ramp falling over each pitch period shapes their sum,
//! which restarts the formants at every period and passes through an
//! overdrive curve.
//!
//! The two formant waveforms are 16 phases by 16 amplitude levels and are
//! handed to `render`: the model is stated for any waveforms of that shape.
use vstd::prelude::*;
use crate::bits::lemma_u16_shr;
use crate::fixed::{interpolate_88_i16, interpolate_88_i16_spec};
use super::random::{lcg_next, Random};
use super::resources::WS_MODERATE_OVERDRIVE;

verus! {

/// Formant frequencies of the nine vowels, three per vowel.
pub const VOWEL_FREQUENCIES: [u8; 27] = [
    27, 40, 89, 18, 51, 62, 15, 69, 93, 10, 84, 110, 23, 44, 87, 13, 29, 80, 6, 46, 81, 9, 51, 95,
    6, 73, 99,
];

/// Formant amplitude levels of the nine vowels, three per vowel.
pub const VOWEL_AMPLITUDES: [u8; 27] = [
    15, 13, 1, 13, 12, 6, 14, 12, 7, 13, 10, 8, 15, 12, 1, 13, 8, 0, 12, 3, 0, 15, 3, 0, 7, 3, 14,
];

/// Formant frequencies of the eight consonants, three per consonant.
pub const CONSONANT_FREQUENCIES: [u8; 24] = [
    6, 54, 121, 18, 50, 51, 11, 24, 70, 15, 69, 74, 16, 37, 111, 18, 51, 62, 6, 26, 81, 6, 73, 99,
];

/// Formant amplitude levels of the eight consonants, three per consonant.
pub const CONSONANT_AMPLITUDES: [u8; 24] = [
    9, 9, 0, 12, 10, 5, 13, 8, 0, 14, 12, 7, 14, 8, 1, 14, 12, 6, 5, 5, 5, 7, 10, 14,
];

/// The settings and phases of the three formants, and how many blocks of
/// consonant remain.
pub struct VowelState {
    formant_increment: [u32; 3],
    formant_phase: [u32; 3],
    formant_amplitude: [u32; 3],
    consonant_frames: u16,
    vow_noise: u16,
}

/// The synthesizer's state as values.
pub struct VowelView {
    pub increments: Seq<u32>,
    pub phases: Seq<u32>,
    pub amplitudes: Seq<u32>,
    pub consonant_frames: u16,
    pub noise: u16,
}

impl View for VowelState {
    type V = VowelView;

    closed spec fn view(&self) -> VowelView {
        VowelView {
            increments: self.formant_increment@,
            phases: self.formant_phase@,
            amplitudes: self.formant_amplitude@,
            consonant_frames: self.consonant_frames,
            noise: self.vow_noise,
        }
    }
}

/// Three formants, each amplitude one of the sixteen levels.
pub open spec fn vowel_ok(v: VowelView) -> bool {
    &&& v.increments.len() == 3
    &&& v.phases.len() == 3
    &&& v.amplitudes.len() == 3
    &&& forall|i: int| 0 <= i < 3 ==> #[trigger] v.amplitudes[i] < 16
}

/// The formants' frequency scale from the second parameter: `200 + p1 / 64`
/// (rounded down), wrapped to 32 bits.
pub open spec fn formant_shift(p1: i16) -> u32 {
    (200 + (p1 >> 6i16) as int) as u32
}

/// The consonant picked by a random sample: `(sample + 1) mod 8`.
pub open spec fn consonant_index(rng: u32) -> int {
    (((((rng >> 16u32) as i16) as i32 + 1) as i32) & 7i32) as int
}

/// Formant `i` of the vowels at the first parameter (a vowel every 4096
/// steps): the vowel below weighted by the distance to the one above.
pub open spec fn vowel_blend(table: Seq<u8>, p0: i16, i: int) -> int {
    let v = p0 as int / 4096;
    let b = p0 as int % 4096;
    table[3 * v + i] as int * (4096 - b) + table[3 * (v + 1) + i] as int * b
}

/// The settings of consonant `c` at the frequency scale `shift`, held for
/// 160 blocks; the two last consonants are noisy.
pub open spec fn consonant_settings(v: VowelView, c: int, shift: u32) -> VowelView {
    VowelView {
        increments: Seq::new(3, |i: int| ((CONSONANT_FREQUENCIES@[3 * c + i] as int * 4096) as u32).wrapping_mul(shift)),
        amplitudes: Seq::new(3, |i: int| CONSONANT_AMPLITUDES@[3 * c + i] as u32),
        consonant_frames: 160,
        noise: if c >= 6 { 4095 } else { 0 },
        ..v
    }
}

/// The settings of the blended vowel at the first parameter and the
/// frequency scale `shift`, without noise.
pub open spec fn vowel_settings(v: VowelView, p0: i16, shift: u32) -> VowelView {
    VowelView {
        increments: Seq::new(3, |i: int| (vowel_blend(VOWEL_FREQUENCIES@, p0, i) as u32).wrapping_mul(shift)),
        amplitudes: Seq::new(3, |i: int| (vowel_blend(VOWEL_AMPLITUDES@, p0, i) / 4096) as u32),
        noise: 0,
        ..v
    }
}

/// The block's settings: a strike draws a random consonant; while consonant
/// blocks remain one is used up, else the formants follow the vowel. Also
/// the generator's state after it.
pub open spec fn vowel_prelude(v: VowelView, strike: bool, rng: u32, p0: i16, p1: i16) -> (VowelView, u32) {
    let shift = formant_shift(p1);
    let rng1 = if strike { lcg_next(rng) } else { rng };
    let w = if strike { consonant_settings(v, consonant_index(rng1), shift) } else { v };
    if w.consonant_frames != 0 {
        (VowelView { consonant_frames: (w.consonant_frames - 1) as u16, ..w }, rng1)
    } else {
        (vowel_settings(w, p0, shift), rng1)
    }
}

/// The formant waveform at the top four bits of `phase` and the amplitude
/// level.
pub open spec fn formant_read(table: Seq<i16>, phase: u32, amp: u32) -> i16 {
    table[(((phase >> 24u32) & 0xf0u32) | amp) as int]
}

/// The running part of the synthesizer: the pitch phase, the formant phases
/// and the random generator's state.
pub struct FormantVoice {
    pub phase: u32,
    pub formants: Seq<u32>,
    pub rng: u32,
}

/// One sample: the phases advance; the formants' sum (wrapping in 16 bits)
/// is scaled by the falling ramp `255 - phase / 2^24`; where the pitch phase
/// (pushed by noise when the consonant is noisy) has just wrapped, the
/// formants restart and the sample is silent; the overdrive curve shapes
/// the result.
pub open spec fn vowel_step(w: FormantVoice, pi: u32, s: VowelView, sine: Seq<i16>, square: Seq<i16>) -> (FormantVoice, i16) {
    let phase = w.phase.wrapping_add(pi);
    let f = Seq::new(3, |i: int| w.formants[i].wrapping_add(s.increments[i]));
    let sum = formant_read(sine, f[0], s.amplitudes[0])
        .wrapping_add(formant_read(sine, f[1], s.amplitudes[1]))
        .wrapping_add(formant_read(square, f[2], s.amplitudes[2]));
    let shaped = sum.wrapping_mul((255 - (phase >> 24u32)) as i16);
    let rng = lcg_next(w.rng);
    let push = ((rng >> 16u32) as i16) as int * s.noise as int;
    let reset = phase.wrapping_add(push as u32) < pi;
    let out: i16 = if reset { 0 } else { shaped };
    (
        FormantVoice { phase, formants: if reset { seq![0u32, 0u32, 0u32] } else { f }, rng },
        interpolate_88_i16_spec(WS_MODERATE_OVERDRIVE@, (out as int + 32768) as u16),
    )
}

/// `k` samples of the synthesizer.
pub open spec fn vowel_run(w: FormantVoice, pi: u32, s: VowelView, sine: Seq<i16>, square: Seq<i16>, k: nat) -> FormantVoice
    decreases k,
{
    if k == 0 {
        w
    } else {
        vowel_step(vowel_run(w, pi, s, sine, square, (k - 1) as nat), pi, s, sine, square).0
    }
}

/// The amplitude levels of both tables, and a masked random index, stay in
/// range.
proof fn lemma_vowel_tables()
    ensures
        forall|k: int| 0 <= k < 27 ==> #[trigger] VOWEL_AMPLITUDES@[k] < 16,
        forall|k: int| 0 <= k < 24 ==> #[trigger] CONSONANT_AMPLITUDES@[k] < 16,
{
}

/// A masked index of a formant waveform stays below 256; a value masked by
/// 7 is a consonant number.
proof fn lemma_formant_index(x: u32, a: u32, y: i32)
    by (bit_vector)
    ensures
        a < 16 ==> ((x >> 24u32) & 0xf0u32) | a < 256,
        0 <= y & 7i32 <= 7,
{
}

impl VowelState {
    /// A silent synthesizer: every setting and phase zero.
    pub fn new() -> (r: Self)
        ensures
            r@.increments == seq![0u32, 0u32, 0u32],
            r@.phases == seq![0u32, 0u32, 0u32],
            r@.amplitudes == seq![0u32, 0u32, 0u32],
            r@.consonant_frames == 0,
            r@.noise == 0,
    {
        let r = VowelState {
            formant_increment: [0, 0, 0],
            formant_phase: [0, 0, 0],
            formant_amplitude: [0, 0, 0],
            consonant_frames: 0,
            vow_noise: 0,
        };
        proof {
            assert(r@.increments =~= seq![0u32, 0u32, 0u32]);
            assert(r@.phases =~= seq![0u32, 0u32, 0u32]);
            assert(r@.amplitudes =~= seq![0u32, 0u32, 0u32]);
        }
        r
    }

    /// Sets the block's formants (see `vowel_prelude`).
    fn prelude(&mut self, rng: &mut Random, strike: bool, p0: i16, p1: i16)
        requires
            p0 >= 0,
            vowel_ok(old(self)@),
        ensures
            final(self)@ == vowel_prelude(old(self)@, strike, old(rng).state(), p0, p1).0,
            final(rng).state() == vowel_prelude(old(self)@, strike, old(rng).state(), p0, p1).1,
            vowel_ok(final(self)@),
    {
        let ghost v0 = self@;
        proof {
            crate::bits::lemma_i16_shr(p1);
        }
        let shift: u32 = (200 + (p1 >> 6)) as u32;
        proof {
            lemma_vowel_tables();
        }
        if strike {
            self.consonant_frames = 160;
            let sample = rng.get_sample();
            let index_raw: i32 = sample as i32 + 1;
            proof {
                lemma_formant_index(0, 0, index_raw);
            }
            let index = (index_raw & 7) as usize;
            let mut i: usize = 0;
            while i < 3
                invariant
                    i <= 3,
                    index < 8,
                    forall|k: int| 0 <= k < 24 ==> #[trigger] CONSONANT_AMPLITUDES@[k] < 16,
                    forall|j: int| 0 <= j < i ==> #[trigger] self.formant_increment@[j]
                        == ((CONSONANT_FREQUENCIES@[3 * index + j] as int * 4096) as u32).wrapping_mul(shift),
                    forall|j: int| 0 <= j < i ==> #[trigger] self.formant_amplitude@[j] == CONSONANT_AMPLITUDES@[3 * index + j] as u32,
                    self.formant_phase@ == v0.phases,
                    self.consonant_frames == 160,
                decreases 3 - i,
            {
                self.formant_increment[i] = (CONSONANT_FREQUENCIES[3 * index + i] as u32).wrapping_mul(0x1000).wrapping_mul(shift);
                self.formant_amplitude[i] = CONSONANT_AMPLITUDES[3 * index + i] as u32;
                i += 1;
            }
            self.vow_noise = if index >= 6 { 4095 } else { 0 };
            proof {
                let c = consonant_settings(v0, index as int, shift);
                assert(index as int == consonant_index(rng.state()));
                assert(self@.increments =~= c.increments);
                assert(self@.amplitudes =~= c.amplitudes);
            }
        }
        let ghost w = self@;
        if self.consonant_frames != 0 {
            self.consonant_frames = self.consonant_frames - 1;
        } else {
            let p0u = p0 as u16;
            proof {
                lemma_u16_shr(p0u);
            }
            let vowel_index = (p0u >> 12) as usize;
            let balance = (p0u & 0x0fff) as u32;
            let mut i: usize = 0;
            while i < 3
                invariant
                    i <= 3,
                    p0 >= 0,
                    vowel_index == p0 as int / 4096,
                    balance == p0 as int % 4096,
                    vowel_index <= 7,
                    forall|k: int| 0 <= k < 27 ==> #[trigger] VOWEL_AMPLITUDES@[k] < 16,
                    forall|j: int| 0 <= j < i ==> #[trigger] self.formant_increment@[j]
                        == (vowel_blend(VOWEL_FREQUENCIES@, p0, j) as u32).wrapping_mul(shift),
                    forall|j: int| 0 <= j < i ==> #[trigger] self.formant_amplitude@[j]
                        == (vowel_blend(VOWEL_AMPLITUDES@, p0, j) / 4096) as u32,
                    forall|j: int| 0 <= j < i ==> #[trigger] self.formant_amplitude@[j] < 16,
                    self.formant_phase@ == w.phases,
                    self.consonant_frames == w.consonant_frames,
                decreases 3 - i,
            {
                let fa = VOWEL_FREQUENCIES[3 * vowel_index + i] as u32;
                let fb = VOWEL_FREQUENCIES[3 * vowel_index + 3 + i] as u32;
                let aa = VOWEL_AMPLITUDES[3 * vowel_index + i] as u32;
                let ab = VOWEL_AMPLITUDES[3 * vowel_index + 3 + i] as u32;
                proof {
                    assert(fa * (4096 - balance) <= 255 * 4096) by (nonlinear_arith)
                        requires
                            fa <= 255,
                            balance < 4096,
                    ;
                    assert(fb * balance <= 255 * 4096) by (nonlinear_arith)
                        requires
                            fb <= 255,
                            balance < 4096,
                    ;
                    assert(aa * (4096 - balance) + ab * balance <= 15 * 4096) by (nonlinear_arith)
                        requires
                            aa <= 15,
                            ab <= 15,
                            balance < 4096,
                    ;
                    assert(3 * (vowel_index + 1) + i == 3 * vowel_index + 3 + i);
                }
                self.formant_increment[i] = (fa * (0x1000 - balance) + fb * balance).wrapping_mul(shift);
                let level: u32 = aa * (0x1000 - balance) + ab * balance;
                proof {
                    crate::bits::lemma_u32_shr(level);
                }
                self.formant_amplitude[i] = level >> 12;
                i += 1;
            }
            self.vow_noise = 0;
            proof {
                let c = vowel_settings(w, p0, shift);
                assert(self@.increments =~= c.increments);
                assert(self@.amplitudes =~= c.amplitudes);
            }
        }
    }

    /// Renders `size` samples into `buffer` at the pitch increment `pi`,
    /// from the pitch phase `phase`, with the two formant waveforms given
    /// (16 phases of 16 amplitude levels each); `strike` starts a consonant.
    /// Returns the pitch phase at the end.
    pub fn render(&mut self, rng: &mut Random, strike: bool, phase: u32, pi: u32, p0: i16, p1: i16,
        sine: &[i16; 256], square: &[i16; 256], buffer: &mut [i16], size: usize) -> (r: u32)
        requires
            p0 >= 0,
            vowel_ok(old(self)@),
            size <= old(buffer)@.len(),
        ensures
            ({
                let (s, rng1) = vowel_prelude(old(self)@, strike, old(rng).state(), p0, p1);
                let w0 = FormantVoice { phase, formants: s.phases, rng: rng1 };
                let e = vowel_run(w0, pi, s, sine@, square@, size as nat);
                &&& forall|k: int| 0 <= k < size ==> #[trigger] final(buffer)@[k]
                    == vowel_step(vowel_run(w0, pi, s, sine@, square@, k as nat), pi, s, sine@, square@).1
                &&& r == e.phase
                &&& final(rng).state() == e.rng
                &&& final(self)@ == (VowelView { phases: e.formants, ..s })
            }),
            vowel_ok(final(self)@),
            final(buffer)@.len() == old(buffer)@.len(),
            forall|k: int| size <= k < old(buffer)@.len() ==> #[trigger] final(buffer)@[k] == old(buffer)@[k],
    {
        self.prelude(rng, strike, p0, p1);
        let ghost s = self@;
        let ghost w0 = FormantVoice { phase, formants: s.phases, rng: rng.state() };
        let i0 = self.formant_increment[0];
        let i1 = self.formant_increment[1];
        let i2 = self.formant_increment[2];
        let a0 = self.formant_amplitude[0];
        let a1 = self.formant_amplitude[1];
        let a2 = self.formant_amplitude[2];
        let noise = self.vow_noise;
        let mut f0 = self.formant_phase[0];
        let mut f1 = self.formant_phase[1];
        let mut f2 = self.formant_phase[2];
        let mut ph = phase;
        let mut k: usize = 0;
        while k < size
            invariant
                k <= size,
                size <= buffer@.len(),
                buffer@.len() == old(buffer)@.len(),
                vowel_ok(s),
                self@ == s,
                i0 == s.increments[0],
                i1 == s.increments[1],
                i2 == s.increments[2],
                a0 == s.amplitudes[0],
                a1 == s.amplitudes[1],
                a2 == s.amplitudes[2],
                noise == s.noise,
                ({
                    let w = vowel_run(w0, pi, s, sine@, square@, k as nat);
                    &&& ph == w.phase
                    &&& w.formants.len() == 3
                    &&& f0 == w.formants[0]
                    &&& f1 == w.formants[1]
                    &&& f2 == w.formants[2]
                    &&& rng.state() == w.rng
                }),
                forall|j: int| 0 <= j < k ==> #[trigger] buffer@[j]
                    == vowel_step(vowel_run(w0, pi, s, sine@, square@, j as nat), pi, s, sine@, square@).1,
                forall|j: int| size <= j < buffer@.len() ==> #[trigger] buffer@[j] == old(buffer)@[j],
            decreases size - k,
        {
            let ghost w = vowel_run(w0, pi, s, sine@, square@, k as nat);
            ph = ph.wrapping_add(pi);
            f0 = f0.wrapping_add(i0);
            f1 = f1.wrapping_add(i1);
            f2 = f2.wrapping_add(i2);
            proof {
                lemma_formant_index(f0, a0, 0);
                lemma_formant_index(f1, a1, 0);
                lemma_formant_index(f2, a2, 0);
                crate::bits::lemma_u32_shr(ph);
            }
            let x0 = sine[(((f0 >> 24) & 0xf0) | a0) as usize];
            let x1 = sine[(((f1 >> 24) & 0xf0) | a1) as usize];
            let x2 = square[(((f2 >> 24) & 0xf0) | a2) as usize];
            let mut sample: i16 = x0.wrapping_add(x1).wrapping_add(x2);
            sample = sample.wrapping_mul(255 - (ph >> 24) as i16);
            let n = rng.get_sample();
            proof {
                assert(-2147483648 <= n as int * noise as int <= 2147483647) by (nonlinear_arith)
                    requires
                        -32768 <= n <= 32767,
                        0 <= noise <= 65535,
                ;
            }
            let push: i32 = n as i32 * noise as i32;
            if ph.wrapping_add(push as u32) < pi {
                f0 = 0;
                f1 = 0;
                f2 = 0;
                sample = 0;
            }
            let out = interpolate_88_i16(&WS_MODERATE_OVERDRIVE, (sample as i32 + 32768) as u16);
            buffer[k] = out;
            proof {
                let st = vowel_step(w, pi, s, sine@, square@);
                assert(st.1 == out);
                assert(st.0.phase == ph);
                assert(st.0.formants[0] == f0);
                assert(st.0.formants[1] == f1);
                assert(st.0.formants[2] == f2);
            }
            k += 1;
        }
        self.formant_phase[0] = f0;
        self.formant_phase[1] = f1;
        self.formant_phase[2] = f2;
        proof {
            let e = vowel_run(w0, pi, s, sine@, square@, size as nat);
            assert(self@.phases =~= e.formants);
            assert(self@ == (VowelView { phases: e.formants, ..s }));
        }
        ph
    }
}

} // verus!
