//! The filtered noise model: white noise through a state-variable filter
//! whose cutoff follows the pitch and whose resonance follows the first
//! parameter; the second parameter morphs the output from low-pass through
//! band-pass to high-pass. The output is gain-corrected and softly
//! overdriven.
//!
//! The filter's band-pass state is not bounded by the model: with little
//! damping it can outgrow 32 bits, which the model does not allow. `render`
//! is stated for the runs that stay within 32 bits (`noise_fits`), and
//! `FilteredNoise::fits` tells whether a run will.
//!
//! The table that scales the gain correction by resonance is handed to
//! `render`: the model is stated for any such table.
use vstd::prelude::*;
use crate::bits::lemma_i64_shr;
use crate::fixed::{interpolate_824_u16, interpolate_824_u16_spec, interpolate_88_i16, interpolate_88_i16_spec};
use super::random::{lcg_next, Random};
use super::resources::{LUT_SVF_CUTOFF, LUT_SVF_DAMP, WS_MODERATE_OVERDRIVE};

verus! {

/// The filter's low-pass and band-pass states.
#[derive(Debug, Clone, Copy)]
pub struct FilteredNoise {
    pub lp: i32,
    pub bp: i32,
}

/// The running state: the filter and the generator.
pub struct NoiseVoice {
    pub lp: i32,
    pub bp: i32,
    pub rng: u32,
}

/// The block's coefficients: cutoff, damping, the three output gains and
/// the gain correction.
pub struct NoiseCoefficients {
    pub f: int,
    pub damp: int,
    pub lp_gain: int,
    pub bp_gain: int,
    pub hp_gain: int,
    pub correction: int,
}

/// The coefficients for a block: cutoff from the pitch, damping and scale
/// from the first parameter (as 8.24 positions: the value times 2^17); the
/// second parameter crossfades low-pass into band-pass below 16384 and
/// band-pass into high-pass above; the gain is corrected by `scale / f`
/// where the cutoff exceeds the scale.
pub open spec fn noise_coefficients(pitch: i16, p0: i16, p1: i16, scale_table: Seq<u16>) -> NoiseCoefficients {
    let f = interpolate_824_u16_spec(LUT_SVF_CUTOFF@, (pitch as u32) << 17u32) as int;
    let damp = interpolate_824_u16_spec(LUT_SVF_DAMP@, (p0 as u32) << 17u32) as int;
    let scale = interpolate_824_u16_spec(scale_table, (p0 as u32) << 17u32) as int;
    let (lp_gain, bp_gain, hp_gain) = if p1 < 16384 {
        (16384 - p1 as int, p1 as int, 0int)
    } else {
        (0int, 32767 - p1 as int, p1 as int - 16384)
    };
    NoiseCoefficients {
        f,
        damp,
        lp_gain,
        bp_gain,
        hp_gain,
        correction: if f > scale { scale * 32767 / f } else { 32767 },
    }
}

/// `x` shifted right by `n` bits (rounding towards minus infinity).
pub open spec fn shr(x: int, n: u64) -> int {
    ((x as i64) >> n) as int
}

/// `x` clamped to `-32767..=32767`.
pub open spec fn clip16(x: int) -> int {
    if x < -32767 { -32767 } else if x > 32767 { 32767 } else { x }
}

/// `x` fits in 32 bits.
pub open spec fn fits32(x: int) -> bool {
    i32::MIN <= x <= i32::MAX
}

/// One sample: half a random sample is filtered (notch = input - bp * damp,
/// lp += f * bp, clipped, hp = notch - lp, bp += f * hp, all scaled by
/// 2^-15), the three outputs are mixed by their gains (scaled by 2^-14),
/// clipped, corrected and overdriven. The flag tells whether the products
/// and the new band-pass state fit in 32 bits.
#[verifier::opaque]
pub open spec fn noise_step(v: NoiseVoice, c: NoiseCoefficients) -> (NoiseVoice, i16, bool) {
    let r = lcg_next(v.rng);
    let input = shr(((r >> 16u32) as i16) as int, 1);
    let bd = v.bp as int * c.damp;
    let notch = input - shr(bd, 15);
    let fb = c.f * v.bp as int;
    let lp = clip16(v.lp as int + shr(fb, 15));
    let hp = notch - lp;
    let fh = c.f * hp;
    let bp = v.bp as int + shr(fh, 15);
    let t2 = c.bp_gain * bp;
    let t3 = c.hp_gain * hp;
    let mixed = clip16(shr(c.lp_gain * lp, 14) + shr(t2, 14) + shr(t3, 14));
    let out = shr(mixed * c.correction, 15);
    (
        NoiseVoice { lp: lp as i32, bp: bp as i32, rng: r },
        interpolate_88_i16_spec(WS_MODERATE_OVERDRIVE@, (out + 32768) as u16),
        fits32(bd) && fits32(fb) && fits32(fh) && fits32(bp) && fits32(t2) && fits32(t3),
    )
}

/// `k` samples of the model.
pub open spec fn noise_run(v: NoiseVoice, c: NoiseCoefficients, k: nat) -> NoiseVoice
    decreases k,
{
    if k == 0 { v } else { noise_step(noise_run(v, c, (k - 1) as nat), c).0 }
}

/// Every sample of a run of `size` stays within 32 bits.
pub open spec fn noise_fits(v: NoiseVoice, c: NoiseCoefficients, size: nat) -> bool {
    forall|j: nat| j < size ==> (#[trigger] noise_step(noise_run(v, c, j), c)).2
}

/// One sample (see `noise_step`), computed in 64 bits.
#[verifier::rlimit(40)]
fn noise_step_exec(s: &mut FilteredNoise, rng: &mut Random, f: i64, damp: i64, lp_gain: i64, bp_gain: i64,
    hp_gain: i64, correction: i64) -> (r: (i16, bool))
    requires
        0 <= f <= 65535,
        0 <= damp <= 65535,
        0 <= lp_gain <= 49152,
        -32768 <= bp_gain <= 32767,
        0 <= hp_gain <= 16383,
        0 <= correction <= 32767,
    ensures
        ({
            let c = NoiseCoefficients { f: f as int, damp: damp as int, lp_gain: lp_gain as int,
                bp_gain: bp_gain as int, hp_gain: hp_gain as int, correction: correction as int };
            let st = noise_step(NoiseVoice { lp: old(s).lp, bp: old(s).bp, rng: old(rng).state() }, c);
            &&& st.0 == (NoiseVoice { lp: final(s).lp, bp: final(s).bp, rng: final(rng).state() })
            &&& st.1 == r.0
            &&& st.2 == r.1
        }),
{
    reveal(noise_step);
    let smp = rng.get_sample() as i64;
    proof {
        lemma_i64_shr(smp);
    }
    let input: i64 = smp >> 1;
    let bp0 = s.bp as i64;
    proof {
        assert(-0x8000_0000 * 65535 <= bp0 * damp <= 0x8000_0000 * 65535) by (nonlinear_arith)
            requires
                -0x8000_0000 <= bp0 <= 0x7fff_ffff,
                0 <= damp <= 65535,
        ;
        assert(-0x8000_0000 * 65535 <= f * bp0 <= 0x8000_0000 * 65535) by (nonlinear_arith)
            requires
                -0x8000_0000 <= bp0 <= 0x7fff_ffff,
                0 <= f <= 65535,
        ;
        lemma_i64_shr((bp0 * damp) as i64);
        lemma_i64_shr((f * bp0) as i64);
        assert(-16384 <= input <= 16384);
        assert(-0x1_0000_0000 <= (((bp0 * damp) as i64) >> 15u64) <= 0x1_0000_0000);
    }
    let bd: i64 = bp0 * damp;
    let notch: i64 = input - (bd >> 15);
    let fb: i64 = f * bp0;
    let mut lp: i64 = s.lp as i64 + (fb >> 15);
    if lp < -32767 {
        lp = -32767;
    } else if lp > 32767 {
        lp = 32767;
    }
    let hp: i64 = notch - lp;
    proof {
        assert(-0x4_0000_0000 * 65535 <= f * hp <= 0x4_0000_0000 * 65535) by (nonlinear_arith)
            requires
                -0x4_0000_0000 <= hp <= 0x4_0000_0000,
                0 <= f <= 65535,
        ;
        lemma_i64_shr((f * hp) as i64);
    }
    let fh: i64 = f * hp;
    let bp: i64 = bp0 + (fh >> 15);
    proof {
        assert(-49152 * 32767 <= lp_gain * lp <= 49152 * 32767) by (nonlinear_arith)
            requires
                0 <= lp_gain <= 49152,
                -32767 <= lp <= 32767,
        ;
        assert(-0x8000 * 0x10_0000_0000 <= bp_gain * bp <= 0x8000 * 0x10_0000_0000) by (nonlinear_arith)
            requires
                -32768 <= bp_gain <= 32767,
                -0x10_0000_0000 <= bp <= 0x10_0000_0000,
        ;
        assert(-0x4000 * 0x4_0000_0000 <= hp_gain * hp <= 0x4000 * 0x4_0000_0000) by (nonlinear_arith)
            requires
                0 <= hp_gain <= 16383,
                -0x4_0000_0000 <= hp <= 0x4_0000_0000,
        ;
        lemma_i64_shr((lp_gain * lp) as i64);
        lemma_i64_shr((bp_gain * bp) as i64);
        lemma_i64_shr((hp_gain * hp) as i64);
    }
    let t2: i64 = bp_gain * bp;
    let t3: i64 = hp_gain * hp;
    let mut mixed: i64 = ((lp_gain * lp) >> 14) + (t2 >> 14) + (t3 >> 14);
    if mixed < -32767 {
        mixed = -32767;
    } else if mixed > 32767 {
        mixed = 32767;
    }
    proof {
        assert(-32767 * 32767 <= mixed * correction <= 32767 * 32767) by (nonlinear_arith)
            requires
                -32767 <= mixed <= 32767,
                0 <= correction <= 32767,
        ;
        lemma_i64_shr((mixed * correction) as i64);
    }
    let out: i64 = (mixed * correction) >> 15;
    let fits = i32::MIN as i64 <= bd && bd <= i32::MAX as i64 && i32::MIN as i64 <= fb && fb <= i32::MAX as i64
        && i32::MIN as i64 <= fh && fh <= i32::MAX as i64 && i32::MIN as i64 <= bp && bp <= i32::MAX as i64
        && i32::MIN as i64 <= t2 && t2 <= i32::MAX as i64 && i32::MIN as i64 <= t3 && t3 <= i32::MAX as i64;
    s.lp = lp as i32;
    s.bp = bp as i32;
    (interpolate_88_i16(&WS_MODERATE_OVERDRIVE, (out + 32768) as u16), fits)
}

/// The block's coefficients (see `noise_coefficients`).
fn coefficients_exec(pitch: i16, p0: i16, p1: i16, scale_table: &[u16; 257]) -> (r: (i64, i64, i64, i64, i64, i64))
    ensures
        ({
            let c = noise_coefficients(pitch, p0, p1, scale_table@);
            &&& r.0 == c.f && r.1 == c.damp && r.2 == c.lp_gain && r.3 == c.bp_gain && r.4 == c.hp_gain
            &&& r.5 == c.correction
        }),
        0 <= r.0 <= 65535,
        0 <= r.1 <= 65535,
        0 <= r.2 <= 49152,
        -32768 <= r.3 <= 32767,
        0 <= r.4 <= 16383,
        0 <= r.5 <= 32767,
{
    let f = interpolate_824_u16(&LUT_SVF_CUTOFF, (pitch as u32) << 17) as u32;
    let damp = interpolate_824_u16(&LUT_SVF_DAMP, (p0 as u32) << 17) as i64;
    let scale = interpolate_824_u16(scale_table, (p0 as u32) << 17) as u32;
    let (lp_gain, bp_gain, hp_gain): (i64, i64, i64) = if p1 < 16384 {
        (16384 - p1 as i64, p1 as i64, 0)
    } else {
        (0, 32767 - p1 as i64, p1 as i64 - 16384)
    };
    let correction: u32 = if f > scale {
        proof {
            assert((scale as int * 32767) / (f as int) <= 32767) by (nonlinear_arith)
                requires
                    0 <= scale < f,
            ;
        }
        scale * 32767 / f
    } else {
        32767
    };
    (f as i64, damp, lp_gain, bp_gain, hp_gain, correction as i64)
}

impl FilteredNoise {
    /// A filter at rest.
    pub fn new() -> (r: Self)
        ensures
            r.lp == 0 && r.bp == 0,
    {
        FilteredNoise { lp: 0, bp: 0 }
    }

    /// Whether a block of `size` samples from this state and generator, with
    /// these controls, stays within 32 bits (see `noise_fits`).
    pub fn fits(&self, rng: &Random, pitch: i16, p0: i16, p1: i16, scale_table: &[u16; 257], size: usize) -> (r: bool)
        ensures
            r == noise_fits(NoiseVoice { lp: self.lp, bp: self.bp, rng: rng.state() },
                noise_coefficients(pitch, p0, p1, scale_table@), size as nat),
    {
        let (f, damp, lp_gain, bp_gain, hp_gain, correction) = coefficients_exec(pitch, p0, p1, scale_table);
        let ghost c = noise_coefficients(pitch, p0, p1, scale_table@);
        let ghost v0 = NoiseVoice { lp: self.lp, bp: self.bp, rng: rng.state() };
        let mut s = *self;
        let mut g = *rng;
        let mut k: usize = 0;
        while k < size
            invariant
                k <= size,
                c == noise_coefficients(pitch, p0, p1, scale_table@),
                f == c.f && damp == c.damp && lp_gain == c.lp_gain && bp_gain == c.bp_gain && hp_gain == c.hp_gain,
                correction == c.correction,
                0 <= f <= 65535,
                0 <= damp <= 65535,
                0 <= lp_gain <= 49152,
                -32768 <= bp_gain <= 32767,
                0 <= hp_gain <= 16383,
                0 <= correction <= 32767,
                v0 == (NoiseVoice { lp: self.lp, bp: self.bp, rng: rng.state() }),
                (NoiseVoice { lp: s.lp, bp: s.bp, rng: g.state() }) == noise_run(v0, c, k as nat),
                forall|j: nat| j < k ==> (#[trigger] noise_step(noise_run(v0, c, j), c)).2,
            decreases size - k,
        {
            let ghost before = NoiseVoice { lp: s.lp, bp: s.bp, rng: g.state() };
            let (_, ok) = noise_step_exec(&mut s, &mut g, f, damp, lp_gain, bp_gain, hp_gain, correction);
            if !ok {
                proof {
                    assert(c == (NoiseCoefficients { f: f as int, damp: damp as int, lp_gain: lp_gain as int,
                        bp_gain: bp_gain as int, hp_gain: hp_gain as int, correction: correction as int }));
                    assert(!noise_step(noise_run(v0, c, k as nat), c).2);
                    assert(!noise_fits(v0, c, size as nat));
                }
                return false;
            }
            k += 1;
        }
        true
    }

    /// Renders `size` samples of filtered noise into `buffer` with the
    /// generator given, at the 7.7 `pitch`, with the controls and the gain
    /// scaling table given.
    pub fn render(&mut self, rng: &mut Random, pitch: i16, p0: i16, p1: i16, scale_table: &[u16; 257],
        buffer: &mut [i16], size: usize)
        requires
            size <= old(buffer)@.len(),
            noise_fits(NoiseVoice { lp: old(self).lp, bp: old(self).bp, rng: old(rng).state() },
                noise_coefficients(pitch, p0, p1, scale_table@), size as nat),
        ensures
            ({
                let c = noise_coefficients(pitch, p0, p1, scale_table@);
                let v0 = NoiseVoice { lp: old(self).lp, bp: old(self).bp, rng: old(rng).state() };
                &&& (NoiseVoice { lp: final(self).lp, bp: final(self).bp, rng: final(rng).state() })
                    == noise_run(v0, c, size as nat)
                &&& forall|k: int| 0 <= k < size ==> #[trigger] final(buffer)@[k]
                    == noise_step(noise_run(v0, c, k as nat), c).1
            }),
            final(buffer)@.len() == old(buffer)@.len(),
            forall|k: int| size <= k < old(buffer)@.len() ==> #[trigger] final(buffer)@[k] == old(buffer)@[k],
    {
        let (f, damp, lp_gain, bp_gain, hp_gain, correction) = coefficients_exec(pitch, p0, p1, scale_table);
        let ghost c = noise_coefficients(pitch, p0, p1, scale_table@);
        let ghost v0 = NoiseVoice { lp: self.lp, bp: self.bp, rng: rng.state() };
        let mut k: usize = 0;
        while k < size
            invariant
                k <= size,
                size <= buffer@.len(),
                buffer@.len() == old(buffer)@.len(),
                c == noise_coefficients(pitch, p0, p1, scale_table@),
                f == c.f && damp == c.damp && lp_gain == c.lp_gain && bp_gain == c.bp_gain && hp_gain == c.hp_gain,
                correction == c.correction,
                0 <= f <= 65535,
                0 <= damp <= 65535,
                0 <= lp_gain <= 49152,
                -32768 <= bp_gain <= 32767,
                0 <= hp_gain <= 16383,
                0 <= correction <= 32767,
                (NoiseVoice { lp: self.lp, bp: self.bp, rng: rng.state() }) == noise_run(v0, c, k as nat),
                forall|j: int| 0 <= j < k ==> #[trigger] buffer@[j] == noise_step(noise_run(v0, c, j as nat), c).1,
                forall|j: int| size <= j < buffer@.len() ==> #[trigger] buffer@[j] == old(buffer)@[j],
            decreases size - k,
        {
            let (out, _) = noise_step_exec(self, rng, f, damp, lp_gain, bp_gain, hp_gain, correction);
            buffer[k] = out;
            k += 1;
        }
    }
}

} // verus!
