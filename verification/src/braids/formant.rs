//! The "vowel FOF" model: a saw whose resets are smoothed by a polynomial
//! excites five state-variable band-pass resonators tuned to the formants of
//! a vowel, picked and blended from a 5 x 5 grid by the two parameters.
use vstd::prelude::*;
use crate::bits::{lemma_cutoff_index, lemma_i16_shr, lemma_i32_shr, lemma_u32_shr};
use crate::fixed::{
    clip16_sym, clip16_sym_spec, interpolate_824_u16, interpolate_824_u16_spec, lemma_interpolate_824_u16_between,
};
use super::resources::LUT_SVF_CUTOFF;

verus! {

/// The number of formants.
pub const NUM_FORMANTS: usize = 5;

/// Formant frequencies (as 7.7 MIDI pitches) by vowel row, vowel column and
/// formant.
pub const FORMANT_F_DATA: [[[i16; 5]; 5]; 5] = [
    [
        [9519, 10738, 12448, 12636, 12892],
        [8620, 11720, 12591, 12932, 13158],
        [7579, 11891, 12768, 13122, 13323],
        [8620, 10013, 12591, 12768, 13010],
        [8324, 9519, 12591, 12831, 13048],
    ],
    [
        [9696, 10821, 12810, 13010, 13263],
        [8620, 11827, 12768, 13228, 13477],
        [7908, 12038, 12932, 13263, 13452],
        [8620, 10156, 12768, 12932, 13085],
        [8324, 9519, 12852, 13010, 13296],
    ],
    [
        [9730, 10902, 12892, 13085, 13330],
        [8832, 11953, 12852, 13085, 13296],
        [7749, 12014, 13010, 13330, 13483],
        [8781, 10211, 12852, 13085, 13296],
        [8448, 9627, 12892, 13085, 13363],
    ],
    [
        [10156, 10960, 12932, 13427, 14195],
        [8620, 11692, 12852, 13296, 14195],
        [8324, 11827, 12852, 13550, 14195],
        [8881, 10156, 12956, 13427, 14195],
        [8160, 9860, 12708, 13427, 14195],
    ],
    [
        [10156, 10960, 13010, 13667, 14195],
        [8324, 12187, 12932, 13489, 14195],
        [7749, 12337, 13048, 13667, 14195],
        [8881, 10156, 12956, 13609, 14195],
        [8160, 9860, 12852, 13609, 14195],
    ],
];

/// Formant amplitudes by vowel row, vowel column and formant.
pub const FORMANT_A_DATA: [[[i16; 5]; 5]; 5] = [
    [
        [16384, 7318, 5813, 5813, 1638],
        [16384, 4115, 5813, 4115, 2062],
        [16384, 518, 2596, 1301, 652],
        [16384, 4617, 1460, 1638, 163],
        [16384, 1638, 411, 652, 259],
    ],
    [
        [16384, 8211, 7318, 6522, 1301],
        [16384, 3269, 4115, 3269, 1638],
        [16384, 2913, 2062, 1638, 518],
        [16384, 5181, 4115, 4115, 821],
        [16384, 1638, 2314, 3269, 821],
    ],
    [
        [16384, 8211, 1159, 1033, 206],
        [16384, 3269, 2062, 1638, 1638],
        [16384, 1033, 1033, 259, 259],
        [16384, 5181, 821, 1301, 326],
        [16384, 1638, 1159, 518, 326],
    ],
    [
        [16384, 10337, 1638, 259, 16],
        [16384, 1033, 518, 291, 16],
        [16384, 1638, 518, 259, 16],
        [16384, 5813, 2596, 652, 29],
        [16384, 4115, 518, 163, 10],
    ],
    [
        [16384, 8211, 411, 1638, 51],
        [16384, 1638, 2913, 163, 25],
        [16384, 4115, 821, 821, 103],
        [16384, 4617, 1301, 1301, 51],
        [16384, 2596, 291, 163, 16],
    ],
];

/// `DigitalOscillator::InterpolateFormantParameter`.

/// The table read at `x`, `y` (each 0..32767 spans the five rows or columns,
/// blended linearly between neighbours) for formant `k`.
pub open spec fn formant_parameter(table: [[[i16; 5]; 5]; 5], x: i16, y: i16, k: int) -> i16 {
    let xi = (x >> 13i16) as int;
    let xm = ((x << 3i16) as u16) as int;
    let yi = (y >> 13i16) as int;
    let ym = ((y << 3i16) as u16) as int;
    let a0 = table@[xi]@[yi]@[k] as int;
    let b = table@[xi + 1]@[yi]@[k] as int;
    let c0 = table@[xi]@[yi + 1]@[k] as int;
    let d = table@[xi + 1]@[yi + 1]@[k] as int;
    let a = a0 + ((((b - a0) * xm) as i32) >> 16i32) as int;
    let c = c0 + ((((d - c0) * xm) as i32) >> 16i32) as int;
    (a + ((((c - a) * ym) as i32) >> 16i32) as int) as i16
}

/// A blend `a + (b - a) * m / 65536` (rounded down) of two values less than
/// 32768 apart stays between them.
proof fn lemma_blend(a: int, b: int, m: int)
    requires
        0 <= m < 65536,
        -32768 < b - a < 32768,
    ensures
        i32::MIN <= (b - a) * m <= i32::MAX,
        a <= b ==> a <= a + ((((b - a) * m) as i32) >> 16i32) <= b,
        b < a ==> b <= a + ((((b - a) * m) as i32) >> 16i32) <= a,
{
    assert(-32768 * 65536 < (b - a) * m < 32768 * 65536) by (nonlinear_arith)
        requires
            0 <= m < 65536,
            -32768 < b - a < 32768,
    ;
    if a <= b {
        assert(0 <= (b - a) * m <= (b - a) * 65536) by (nonlinear_arith)
            requires
                0 <= m < 65536,
                0 <= b - a,
        ;
    } else {
        assert((b - a) * 65536 <= (b - a) * m <= 0) by (nonlinear_arith)
            requires
                0 <= m < 65536,
                b - a < 0,
        ;
    }
    lemma_i32_shr(((b - a) * m) as i32);
}

/// Reads a formant table at `x`, `y` (not negative) for formant `k`; the
/// reading stays within the bounds of the table's entries.
fn formant_parameter_exec(table: &[[[i16; 5]; 5]; 5], x: i16, y: i16, k: usize, lo: i16, hi: i16) -> (r: i16)
    requires
        x >= 0,
        y >= 0,
        k < 5,
        0 <= lo <= hi,
        forall|i: int, j: int, l: int| 0 <= i < 5 && 0 <= j < 5 && 0 <= l < 5
            ==> lo <= #[trigger] table@[i]@[j]@[l] <= hi,
    ensures
        r == formant_parameter(*table, x, y, k as int),
        lo <= r <= hi,
{
    proof {
        lemma_i16_shr(x);
        lemma_i16_shr(y);
    }
    let xi = (x >> 13) as usize;
    let xm = (x << 3) as u16 as i32;
    let yi = (y >> 13) as usize;
    let ym = (y << 3) as u16 as i32;
    let a0 = table[xi][yi][k] as i32;
    let b = table[xi + 1][yi][k] as i32;
    let c0 = table[xi][yi + 1][k] as i32;
    let d = table[xi + 1][yi + 1][k] as i32;
    proof {
        assert(lo <= table@[xi as int]@[yi as int]@[k as int] <= hi);
        assert(lo <= table@[xi + 1]@[yi as int]@[k as int] <= hi);
        assert(lo <= table@[xi as int]@[yi + 1]@[k as int] <= hi);
        assert(lo <= table@[xi + 1]@[yi + 1]@[k as int] <= hi);
        lemma_blend(a0 as int, b as int, xm as int);
        lemma_blend(c0 as int, d as int, xm as int);
    }
    let a = a0 + ((b - a0) * xm >> 16);
    let c = c0 + ((d - c0) * xm >> 16);
    proof {
        lemma_blend(a as int, c as int, ym as int);
    }
    (a + ((c - a) * ym >> 16)) as i16
}

/// Every formant frequency lies between 0 and 14195.
proof fn lemma_formant_frequencies()
    ensures
        forall|i: int, j: int, l: int| 0 <= i < 5 && 0 <= j < 5 && 0 <= l < 5
            ==> 0 <= #[trigger] FORMANT_F_DATA@[i]@[j]@[l] <= 14195,
{
}

/// Every formant amplitude lies between 0 and 16384.
proof fn lemma_formant_amplitudes()
    ensures
        forall|i: int, j: int, l: int| 0 <= i < 5 && 0 <= j < 5 && 0 <= l < 5
            ==> 0 <= #[trigger] FORMANT_A_DATA@[i]@[j]@[l] <= 16384,
{
}

/// The cutoff table rises over its first 124 entries, up to 22175.
proof fn lemma_cutoff_rises()
    ensures
        forall|i: int| 0 <= i <= 122 ==> #[trigger] LUT_SVF_CUTOFF@[i] <= LUT_SVF_CUTOFF@[i + 1] <= 22175,
{
    reveal(LUT_SVF_CUTOFF);
}

/// The resonator coefficient of formant `k` for the parameters: the cutoff
/// table read at the formant's frequency plus an octave.
pub open spec fn formant_coefficient(p0: i16, p1: i16, k: int) -> int {
    interpolate_824_u16_spec(LUT_SVF_CUTOFF@, (((formant_parameter(FORMANT_F_DATA, p1, p0, k) as int + 1536) as i32) << 17i32) as u32) as int
}

/// The saw that excites the resonators, for one sample: its phase advances;
/// at a wrap the old ramp is bent down and the next one starts from a
/// polynomial step, so that the reset is smooth. Returns the phase, the
/// sample and the start of the next sample.
pub open spec fn fof_saw(phase: u32, next_saw: int, inc: u32) -> (u32, int, int) {
    let p = phase.wrapping_add(inc);
    if p < inc {
        let t0: u32 = if inc >> 16u32 == 0 { 0 } else { p / (inc >> 16u32) };
        let t: int = if t0 > 65535 { 65535 } else { t0 as int };
        let t2: int = 65535 - t;
        (p, next_saw - (t * t) / 262144, (t2 * t2) / 262144 + (p >> 17u32) as int)
    } else {
        (p, next_saw, (p >> 17u32) as int)
    }
}

/// A resonator's low-pass output after one sample.
pub open spec fn fof_lp(lp: i16, bp: i16, f: int) -> i16 {
    clip16_sym_spec((lp as int + (((f * bp as int) as i32) >> 15i32) as int) as i32) as i16
}

/// A resonator's band-pass output after one sample of `input` (damped by
/// 1/64 of itself).
pub open spec fn fof_bp(lp: i16, bp: i16, f: int, input: int) -> i16 {
    let notch = input - ((bp as i32) >> 6i32) as int;
    let hp = notch - fof_lp(lp, bp, f) as int;
    clip16_sym_spec((bp as int + (((f * hp) as i32) >> 15i32) as int) as i32) as i16
}

/// The mix of the first `n` band-pass outputs, each scaled by `amp / 2^17`.
pub open spec fn fof_mix(bp: Seq<i16>, amp: i16, n: nat) -> int
    decreases n,
{
    if n == 0 {
        0
    } else {
        fof_mix(bp, amp, (n - 1) as nat) + (((bp[n - 1] as int * amp as int) as i32) >> 17i32) as int
    }
}

/// The vowel's state across a block.
pub struct FofVoice {
    pub phase: u32,
    pub previous: i16,
    pub next_saw: int,
    pub lp: Seq<i16>,
    pub bp: Seq<i16>,
}

/// One step of the vowel (two output samples): a saw sample through the
/// five resonators, mixed and clipped; the first output is its average with
/// the previous step.
pub open spec fn fof_pair(v: FofVoice, inc: u32, f: Seq<int>, amp: i16) -> (FofVoice, i16, i16) {
    let s = fof_saw(v.phase, v.next_saw, inc);
    let lp = Seq::new(5, |i: int| fof_lp(v.lp[i], v.bp[i], f[i]));
    let bp = Seq::new(5, |i: int| fof_bp(v.lp[i], v.bp[i], f[i], s.1));
    let out = clip16_sym_spec(fof_mix(bp, amp, 5) as i32);
    (
        FofVoice { phase: s.0, previous: out as i16, next_saw: s.2, lp, bp },
        (((out as int + v.previous as int) as i32) >> 1i32) as i16,
        out as i16,
    )
}

/// `j` steps of the vowel.
pub open spec fn fof_run(v: FofVoice, inc: u32, f: Seq<int>, amp: i16, j: nat) -> FofVoice
    decreases j,
{
    if j == 0 {
        v
    } else {
        fof_pair(fof_run(v, inc, f, amp, (j - 1) as nat), inc, f, amp).0
    }
}

/// The start of the saw's next sample, kept between blocks: never above
/// 49150.
pub struct SawCarry {
    next: i32,
}

impl SawCarry {
    #[verifier::type_invariant]
    spec fn in_range(self) -> bool {
        0 <= self.next <= 49150
    }

    /// The carried value.
    pub closed spec fn value(self) -> i32 {
        self.next
    }

    /// A carry of zero.
    pub closed spec fn zero() -> Self {
        SawCarry { next: 0 }
    }

    /// The zero carry holds zero.
    pub proof fn lemma_zero()
        ensures
            Self::zero().value() == 0,
    {
    }

    pub fn new() -> (r: Self)
        ensures
            r == Self::zero(),
            r.value() == 0,
    {
        SawCarry { next: 0 }
    }

    /// Resets the carry to zero.
    pub fn clear(&mut self)
        ensures
            *final(self) == Self::zero(),
    {
        self.next = 0;
    }

    fn get(&self) -> (r: i32)
        ensures
            r == self.value(),
            0 <= r <= 49150,
    {
        proof {
            use_type_invariant(self);
        }
        self.next
    }

    fn set(&mut self, v: i32)
        requires
            0 <= v <= 49150,
        ensures
            final(self).value() == v,
    {
        self.next = v;
    }
}

/// The resonator coefficients and the mix level for the parameters.
pub fn fof_setup(p0: i16, p1: i16) -> (r: ([i32; 5], i16))
    requires
        p0 >= 0,
        p1 >= 0,
    ensures
        forall|k: int| 0 <= k < 5 ==> #[trigger] r.0@[k] == formant_coefficient(p0, p1, k),
        forall|k: int| 0 <= k < 5 ==> 0 <= #[trigger] r.0@[k] <= 22175,
        r.1 == formant_parameter(FORMANT_A_DATA, p1, p0, 0),
{
    proof {
        lemma_formant_frequencies();
        lemma_formant_amplitudes();
        lemma_cutoff_rises();
    }
    let mut f: [i32; 5] = [0, 0, 0, 0, 0];
    let mut k: usize = 0;
    while k < 5
        invariant
            k <= 5,
            p0 >= 0,
            p1 >= 0,
            forall|i: int, j: int, l: int| 0 <= i < 5 && 0 <= j < 5 && 0 <= l < 5
                ==> 0 <= #[trigger] FORMANT_F_DATA@[i]@[j]@[l] <= 14195,
            forall|i: int| 0 <= i <= 122 ==> #[trigger] LUT_SVF_CUTOFF@[i] <= LUT_SVF_CUTOFF@[i + 1] <= 22175,
            forall|i: int| 0 <= i < k ==> #[trigger] f@[i] == formant_coefficient(p0, p1, i),
            forall|i: int| 0 <= i < k ==> 0 <= #[trigger] f@[i] <= 22175,
        decreases 5 - k,
    {
        let frequency = formant_parameter_exec(&FORMANT_F_DATA, p1, p0, k, 0, 14195) as i32 + 1536;
        proof {
            lemma_cutoff_index(frequency);
            lemma_interpolate_824_u16_between(LUT_SVF_CUTOFF@, (frequency << 17i32) as u32);
        }
        f[k] = interpolate_824_u16(&LUT_SVF_CUTOFF, (frequency << 17) as u32) as i32;
        k += 1;
    }
    let amp = formant_parameter_exec(&FORMANT_A_DATA, p1, p0, 0, 0, 16384);
    (f, amp)
}

/// One sample of the saw (see `fof_saw`), from the carried start `next`.
fn fof_saw_exec(phase: u32, next: i32, inc: u32) -> (r: (u32, i32, i32))
    requires
        0 <= next <= 49150,
    ensures
        (r.0, r.1 as int, r.2 as int) == fof_saw(phase, next as int, inc),
        -16383 <= r.1 <= 49150,
        0 <= r.2 <= 49150,
{
    let mut this = next;
    let mut upcoming: i32 = 0;
    let p = phase.wrapping_add(inc);
    proof {
        lemma_u32_shr(p);
    }
    if p < inc {
        let d = inc >> 16;
        let mut t: u32 = if d == 0 { 0 } else { p / d };
        if t > 65535 {
            t = 65535;
        }
        proof {
            assert(t * t <= 65535 * 65535) by (nonlinear_arith)
                requires
                    t <= 65535,
            ;
            vstd::arithmetic::div_mod::lemma_small_mod((t * t) as nat, 0x1_0000_0000);
            lemma_u32_shr((t * t) as u32);
        }
        this -= (t.wrapping_mul(t) >> 18) as i32;
        t = 65535 - t;
        proof {
            assert(t * t <= 65535 * 65535) by (nonlinear_arith)
                requires
                    t <= 65535,
            ;
            vstd::arithmetic::div_mod::lemma_small_mod((t * t) as nat, 0x1_0000_0000);
            lemma_u32_shr((t * t) as u32);
        }
        upcoming -= -((t.wrapping_mul(t) >> 18) as i32);
    }
    upcoming += (p >> 17) as i32;
    (p, this, upcoming)
}

/// One step of the five resonators on `input`: returns the clipped mix.
fn fof_resonate(lp: &mut [i16; 5], bp: &mut [i16; 5], input: i32, f: &[i32; 5], amp: i16) -> (r: i32)
    requires
        -16383 <= input <= 49150,
        forall|k: int| 0 <= k < 5 ==> 0 <= #[trigger] f@[k] <= 22175,
    ensures
        final(lp)@ == Seq::new(5, |i: int| fof_lp(old(lp)@[i], old(bp)@[i], f@[i] as int)),
        final(bp)@ == Seq::new(5, |i: int| fof_bp(old(lp)@[i], old(bp)@[i], f@[i] as int, input as int)),
        r == clip16_sym_spec(fof_mix(Seq::new(5, |i: int| fof_bp(old(lp)@[i], old(bp)@[i], f@[i] as int, input as int)), amp, 5) as i32),
{
    let ghost lp0 = lp@;
    let ghost bp0 = bp@;
    let ghost bp1 = Seq::new(5, |i: int| fof_bp(lp0[i], bp0[i], f@[i] as int, input as int));
    let mut out: i32 = 0;
    let mut i: usize = 0;
    while i < 5
        invariant
            i <= 5,
            -16383 <= input <= 49150,
            forall|k: int| 0 <= k < 5 ==> 0 <= #[trigger] f@[k] <= 22175,
            lp0.len() == 5,
            bp0.len() == 5,
            bp1 == Seq::new(5, |j: int| fof_bp(lp0[j], bp0[j], f@[j] as int, input as int)),
            forall|k: int| 0 <= k < 5 ==> #[trigger] lp@[k] == (if k < i { fof_lp(lp0[k], bp0[k], f@[k] as int) } else { lp0[k] }),
            forall|k: int| 0 <= k < 5 ==> #[trigger] bp@[k] == (if k < i { bp1[k] } else { bp0[k] }),
            out == fof_mix(bp1, amp, i as nat),
            -8192 * i <= out <= 8192 * i,
        decreases 5 - i,
    {
        let l = lp[i] as i32;
        let b = bp[i] as i32;
        let fi = f[i];
        proof {
            lemma_i32_shr(b);
            assert(-22175 * 32768 <= fi * b <= 22175 * 32768) by (nonlinear_arith)
                requires
                    0 <= fi <= 22175,
                    -32768 <= b <= 32767,
            ;
            lemma_i32_shr((fi * b) as i32);
        }
        let notch = input - (b >> 6);
        let l2 = clip16_sym(l + (fi * b >> 15));
        let hp = notch - l2;
        proof {
            assert(-22175 * 82430 <= fi * hp <= 22175 * 82430) by (nonlinear_arith)
                requires
                    0 <= fi <= 22175,
                    -82430 <= hp <= 82430,
            ;
            lemma_i32_shr((fi * hp) as i32);
        }
        let b2 = clip16_sym(b + (fi * hp >> 15));
        lp[i] = l2 as i16;
        bp[i] = b2 as i16;
        proof {
            assert(-32767 * 32768 <= b2 * amp <= 32767 * 32768) by (nonlinear_arith)
                requires
                    -32767 <= b2 <= 32767,
                    -32768 <= amp <= 32767,
            ;
            lemma_i32_shr((b2 * amp) as i32);
            assert(bp@[i as int] == bp1[i as int]);
        }
        out = out + (b2 * amp as i32 >> 17);
        i += 1;
    }
    proof {
        assert(lp@ =~= Seq::new(5, |k: int| fof_lp(lp0[k], bp0[k], f@[k] as int)));
        assert(bp@ =~= bp1);
    }
    clip16_sym(out)
}

/// Renders `size` samples (in pairs) of the vowel into `buffer` at the
/// increment `inc`, with the resonator coefficients `f` and the mix level
/// `amp`; returns the phase and the previous output at the end.
pub fn render_fof(lp: &mut [i16; 5], bp: &mut [i16; 5], carry: &mut SawCarry, phase: u32, previous: i16, inc: u32,
    f: &[i32; 5], amp: i16, buffer: &mut [i16], size: usize) -> (r: (u32, i16))
    requires
        size % 2 == 0,
        size <= old(buffer)@.len(),
        forall|k: int| 0 <= k < 5 ==> 0 <= #[trigger] f@[k] <= 22175,
    ensures
        final(buffer)@.len() == old(buffer)@.len(),
        ({
            let fs = Seq::new(5, |i: int| f@[i] as int);
            let v0 = FofVoice { phase, previous, next_saw: old(carry).value() as int, lp: old(lp)@, bp: old(bp)@ };
            let e = fof_run(v0, inc, fs, amp, (size / 2) as nat);
            &&& forall|k: int| 0 <= k < size ==> #[trigger] final(buffer)@[k] == ({
                let st = fof_pair(fof_run(v0, inc, fs, amp, (k / 2) as nat), inc, fs, amp);
                if k % 2 == 0 { st.1 } else { st.2 }
            })
            &&& r.0 == e.phase
            &&& r.1 == e.previous
            &&& final(carry).value() == e.next_saw
            &&& final(lp)@ == e.lp
            &&& final(bp)@ == e.bp
        }),
        forall|k: int| size <= k < old(buffer)@.len() ==> #[trigger] final(buffer)@[k] == old(buffer)@[k],
{
    let ghost fs = Seq::new(5, |i: int| f@[i] as int);
    let ghost v0 = FofVoice { phase, previous, next_saw: carry.value() as int, lp: lp@, bp: bp@ };
    let mut phase = phase;
    let mut previous = previous;
    let mut next = carry.get();
    let mut j: usize = 0;
    while j < size / 2
        invariant
            j <= size / 2,
            size % 2 == 0,
            size <= buffer@.len(),
            buffer@.len() == old(buffer)@.len(),
            forall|k: int| 0 <= k < 5 ==> 0 <= #[trigger] f@[k] <= 22175,
            fs == Seq::new(5, |i: int| f@[i] as int),
            0 <= next <= 49150,
            ({
                let w = fof_run(v0, inc, fs, amp, j as nat);
                &&& phase == w.phase
                &&& previous == w.previous
                &&& next as int == w.next_saw
                &&& lp@ == w.lp
                &&& bp@ == w.bp
            }),
            forall|k: int| 0 <= k < 2 * j ==> #[trigger] buffer@[k] == ({
                let st = fof_pair(fof_run(v0, inc, fs, amp, (k / 2) as nat), inc, fs, amp);
                if k % 2 == 0 { st.1 } else { st.2 }
            }),
            forall|k: int| size <= k < buffer@.len() ==> #[trigger] buffer@[k] == old(buffer)@[k],
        decreases size / 2 - j,
    {
        let (p, input, upcoming) = fof_saw_exec(phase, next, inc);
        let ghost lp_before = lp@;
        let ghost bp_before = bp@;
        let out = fof_resonate(lp, bp, input, f, amp);
        proof {
            assert(Seq::new(5, |i: int| fof_lp(lp_before[i], bp_before[i], f@[i] as int))
                =~= Seq::new(5, |i: int| fof_lp(lp_before[i], bp_before[i], fs[i])));
            assert(Seq::new(5, |i: int| fof_bp(lp_before[i], bp_before[i], f@[i] as int, input as int))
                =~= Seq::new(5, |i: int| fof_bp(lp_before[i], bp_before[i], fs[i], input as int)));
        }
        let sum: i32 = out + previous as i32;
        proof {
            lemma_i32_shr(sum);
        }
        buffer[2 * j] = (sum >> 1) as i16;
        buffer[2 * j + 1] = out as i16;
        phase = p;
        previous = out as i16;
        next = upcoming;
        proof {
            assert((2 * j) / 2 == j);
            assert((2 * j + 1) / 2 == j);
            assert((2 * j) % 2 == 0);
            assert((2 * j + 1) % 2 == 1);
        }
        j += 1;
    }
    carry.set(next);
    (phase, previous)
}

} // verus!
