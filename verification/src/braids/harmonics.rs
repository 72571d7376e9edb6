//! The additive "harmonics" model: twelve harmonics of a sine whose levels
//! form two bumps (the first placed by the first parameter, the second an
//! octave up, both as wide as the second parameter says), normalised and
//! muted above the Nyquist limit; each level glides to its target.
use vstd::prelude::*;
use vstd::arithmetic::div_mod::{lemma_div_is_ordered, lemma_div_is_ordered_by_denominator, lemma_div_pos_is_pos};
use crate::bits::lemma_i32_shr;
use crate::fixed::{clip16_sym, clip16_sym_spec, interpolate_824_i16, interpolate_824_i16_spec};
use super::resources::WAV_SINE;

verus! {

/// The number of harmonics.
pub const NUM_HARMONICS: usize = 12;

/// Where the first bump peaks, in 1/256 harmonic.
pub open spec fn harmonics_peak(p0: i16) -> int {
    ((12 * p0 as int) as i32 >> 7i32) as int
}

/// Where the second bump peaks: half-way up, plus six harmonics.
pub open spec fn harmonics_second_peak(p0: i16) -> int {
    ((harmonics_peak(p0) as i32) >> 1i32) as int + 1536
}

/// The level of the second bump: the second parameter squared.
pub open spec fn harmonics_second_amount(p1: i16) -> int {
    ((p1 as int * p1 as int) as i32 >> 15i32) as int
}

/// The bumps' width: narrowest at both ends of the second parameter.
pub open spec fn harmonics_width(p1: i16) -> int {
    let ssw: int = if p1 < 16384 { (p1 >> 6i16) as int } else { 511 - (p1 >> 6i16) as int };
    let sw: int = ((ssw * ssw) as i32 >> 10i32) as int;
    sw * sw + 4
}

/// The unnormalised level of harmonic `i`: the two bumps, each falling off
/// as `128 / (128 + d^2 / width)` with the distance `d` from its peak.
pub open spec fn harmonic_gain(i: int, p0: i16, p1: i16) -> int {
    let x = i * 256;
    let w = harmonics_width(p1);
    let d1 = x - harmonics_peak(p0);
    let d2 = x - harmonics_second_peak(p0);
    4194304int / (128 + (d1 * d1) / w) + (harmonics_second_amount(p1) * 128) / (128 + (d2 * d2) / w)
}

/// The sum of the first `n` harmonics' levels.
pub open spec fn harmonics_total(p0: i16, p1: i16, n: nat) -> int
    decreases n,
{
    if n == 0 {
        0
    } else {
        harmonics_total(p0, p1, (n - 1) as nat) + harmonic_gain(n - 1, p0, p1)
    }
}

/// The target level of harmonic `i` at the increment `pi`: its gain scaled
/// so that the levels sum to about 32768 (wrapping in 32 bits), or zero
/// where the harmonic would pass a quarter of the sample rate.
pub open spec fn harmonic_target(i: int, pi: u32, p0: i16, p1: i16) -> i32 {
    let attenuation = 2147483647int / harmonics_total(p0, p1, 12);
    if (pi >> 16u32).wrapping_mul((i + 1) as u32) > 0x4000 {
        0
    } else {
        (harmonic_gain(i, p0, p1) as i32).wrapping_mul(attenuation as i32) >> 16i32
    }
}

/// A level one step closer to its target: by 1/256 of the distance, rounded
/// down.
pub open spec fn glide(a: i16, t: i32) -> i16 {
    (a as int + (((t as int - a as int) as i32) >> 8i32) as int) as i16
}

/// A gliding level moves towards its target and never past it.
pub proof fn lemma_glide_between(a: i16, t: i32)
    requires
        -32768 <= t <= 32767,
    ensures
        a <= t ==> a <= glide(a, t) <= t,
        t <= a ==> t <= glide(a, t) <= a,
{
    lemma_i32_shr((t - a) as i32);
}

/// The sum of the first `n` harmonics at the phase, each `sine * level`
/// shifted down by 15 bits.
pub open spec fn harmonics_sum(phase: u32, amps: Seq<i16>, n: nat) -> int
    decreases n,
{
    if n == 0 {
        0
    } else {
        harmonics_sum(phase, amps, (n - 1) as nat)
            + (((interpolate_824_i16_spec(WAV_SINE@, phase.wrapping_mul(n as u32)) as int * amps[n - 1] as int) as i32) >> 15i32) as int
    }
}

/// The harmonics' state across a block.
pub struct HarmonicsVoice {
    pub phase: u32,
    pub previous: i16,
    pub amps: Seq<i16>,
}

/// One step of the harmonics (two output samples): the phase advances (a
/// sync pulse on either sample resets it), the clipped sum of the harmonics
/// is the second sample and its average with the previous step the first;
/// then every level glides.
pub open spec fn harmonics_pair(v: HarmonicsVoice, pi: u32, targets: Seq<i32>, s0: u8, s1: u8) -> (HarmonicsVoice, i16, i16) {
    let advanced = v.phase.wrapping_add(pi);
    let phase = if s0 != 0 || s1 != 0 { 0 } else { advanced };
    let out = clip16_sym_spec(harmonics_sum(phase, v.amps, 12) as i32);
    (
        HarmonicsVoice { phase, previous: out as i16, amps: Seq::new(12, |i: int| glide(v.amps[i], targets[i])) },
        (((out as int + v.previous as int) as i32) >> 1i32) as i16,
        out as i16,
    )
}

/// `j` steps of the harmonics.
pub open spec fn harmonics_run(v: HarmonicsVoice, pi: u32, targets: Seq<i32>, sync: Seq<u8>, j: nat) -> HarmonicsVoice
    decreases j,
{
    if j == 0 {
        v
    } else {
        let w = harmonics_run(v, pi, targets, sync, (j - 1) as nat);
        harmonics_pair(w, pi, targets, sync[2 * (j - 1)], sync[2 * (j - 1) + 1]).0
    }
}

/// `num / (128 + d^2 / width)`: a bump of height `num / 128` at distance `d`.
fn bump(num: i32, d: i32, width: i32) -> (r: i32)
    requires
        0 <= num <= 4194304,
        -5888 <= d <= 5888,
        4 <= width,
    ensures
        r == num as int / (128 + (d as int * d as int) / width as int),
        0 <= r <= num as int / 128,
        num == 4194304 && -3072 <= d <= 3072 ==> r >= 1,
{
    proof {
        assert(0 <= d * d <= 5888 * 5888) by (nonlinear_arith)
            requires
                -5888 <= d <= 5888,
        ;
        lemma_div_pos_is_pos((d * d) as int, width as int);
        lemma_div_is_ordered_by_denominator((d * d) as int, 1, width as int);
    }
    let q: i32 = (d * d) / width;
    proof {
        lemma_div_pos_is_pos(num as int, 128 + q as int);
        lemma_div_is_ordered_by_denominator(num as int, 128, 128 + q as int);
        if num == 4194304 && -3072 <= d <= 3072 {
            assert(d * d <= 9437184) by (nonlinear_arith)
                requires
                    -3072 <= d <= 3072,
            ;
            lemma_div_is_ordered_by_denominator((d * d) as int, 4, width as int);
            lemma_div_is_ordered((d * d) as int, 9437184, 4);
            lemma_div_is_ordered_by_denominator(4194304, 128 + q as int, 2359424);
        }
    }
    num / (128 + q)
}

/// The bumps' placement from the parameters: the first peak, the second,
/// the second's level and the width.
fn harmonics_shape(p0: i16, p1: i16) -> (r: (i32, i32, i32, i32))
    ensures
        r.0 == harmonics_peak(p0),
        r.1 == harmonics_second_peak(p0),
        r.2 == harmonics_second_amount(p1),
        r.3 == harmonics_width(p1),
        -3072 <= r.0 <= 3071,
        0 <= r.1 <= 3071,
        0 <= r.2 <= 32768,
        4 <= r.3 <= 65540,
{
    let x0: i32 = 12 * p0 as i32;
    proof {
        lemma_i32_shr(x0);
    }
    let peak: i32 = x0 >> 7;
    proof {
        lemma_i32_shr(peak);
    }
    let second_peak: i32 = (peak >> 1) + 1536;
    proof {
        assert(0 <= p1 as i32 * p1 as i32 <= 0x4000_0000) by (nonlinear_arith)
            requires
                -32768 <= p1 <= 32767,
        ;
    }
    let sq: i32 = p1 as i32 * p1 as i32;
    proof {
        lemma_i32_shr(sq);
        crate::bits::lemma_i16_shr(p1);
    }
    let amount: i32 = sq >> 15;
    let ssw: i32 = if p1 < 16384 { (p1 >> 6) as i32 } else { 511 - (p1 >> 6) as i32 };
    proof {
        assert(0 <= ssw * ssw <= 262144) by (nonlinear_arith)
            requires
                -512 <= ssw <= 511,
        ;
        lemma_i32_shr((ssw * ssw) as i32);
    }
    let sw: i32 = (ssw * ssw) >> 10;
    proof {
        assert(0 <= sw * sw <= 65536) by (nonlinear_arith)
            requires
                0 <= sw <= 256,
        ;
    }
    (peak, second_peak, amount, sw * sw + 4)
}

/// Harmonic `i`'s level before normalisation.
fn harmonic_gain_exec(i: usize, p0: i16, p1: i16) -> (r: i32)
    requires
        i < 12,
    ensures
        r == harmonic_gain(i as int, p0, p1),
        0 <= r <= 65536,
        i == 0 ==> r >= 1,
{
    let (peak, second_peak, amount, width) = harmonics_shape(p0, p1);
    let x: i32 = (i as i32) << 8;
    proof {
        crate::bits::lemma_i32_shl(i as i32);
    }
    let g1 = bump(4194304, x - peak, width);
    let g2 = bump(amount * 128, x - second_peak, width);
    g1 + g2
}

/// The target levels of the twelve harmonics at the increment `pi`.
fn harmonic_targets(pi: u32, p0: i16, p1: i16) -> (r: [i32; 12])
    ensures
        forall|i: int| 0 <= i < 12 ==> #[trigger] r@[i] == harmonic_target(i, pi, p0, p1),
        forall|i: int| 0 <= i < 12 ==> -32768 <= #[trigger] r@[i] <= 32767,
{
    let mut gains: [i32; 12] = [0, 0, 0, 0, 0, 0, 0, 0, 0, 0, 0, 0];
    let mut total: i32 = 0;
    let mut i: usize = 0;
    while i < 12
        invariant
            i <= 12,
            total == harmonics_total(p0, p1, i as nat),
            i >= 1 ==> total >= 1,
            0 <= total <= 65536 * i,
            forall|j: int| 0 <= j < i ==> #[trigger] gains@[j] == harmonic_gain(j, p0, p1),
        decreases 12 - i,
    {
        let g = harmonic_gain_exec(i, p0, p1);
        gains[i] = g;
        total = total + g;
        i += 1;
    }
    let attenuation: i32 = 2147483647 / total;
    let mut targets: [i32; 12] = [0, 0, 0, 0, 0, 0, 0, 0, 0, 0, 0, 0];
    let mut k: usize = 0;
    while k < 12
        invariant
            k <= 12,
            total == harmonics_total(p0, p1, 12),
            total >= 1,
            attenuation == 2147483647int / total as int,
            forall|j: int| 0 <= j < 12 ==> #[trigger] gains@[j] == harmonic_gain(j, p0, p1),
            forall|j: int| 0 <= j < k ==> #[trigger] targets@[j] == harmonic_target(j, pi, p0, p1),
            forall|j: int| 0 <= j < k ==> -32768 <= #[trigger] targets@[j] <= 32767,
        decreases 12 - k,
    {
        if (pi >> 16).wrapping_mul(k as u32 + 1) > 0x4000 {
            targets[k] = 0;
        } else {
            let t = gains[k].wrapping_mul(attenuation);
            proof {
                lemma_i32_shr(t);
            }
            targets[k] = t >> 16;
        }
        k += 1;
    }
    targets
}

/// One step of the harmonics: their sum at `phase`, clipped; every level
/// glides to its target.
fn harmonics_step(amps: &mut [i16; 12], phase: u32, targets: &[i32; 12]) -> (r: i32)
    requires
        forall|i: int| 0 <= i < 12 ==> -32768 <= #[trigger] targets@[i] <= 32767,
    ensures
        r == clip16_sym_spec(harmonics_sum(phase, old(amps)@, 12) as i32),
        final(amps)@ == Seq::new(12, |i: int| glide(old(amps)@[i], targets@[i])),
{
    let ghost a0 = amps@;
    let mut out: i32 = 0;
    let mut i: usize = 0;
    while i < 12
        invariant
            i <= 12,
            a0.len() == 12,
            forall|j: int| 0 <= j < 12 ==> -32768 <= #[trigger] targets@[j] <= 32767,
            out == harmonics_sum(phase, a0, i as nat),
            -32768 * i <= out <= 32768 * i,
            forall|j: int| 0 <= j < 12 ==> #[trigger] amps@[j] == (if j < i { glide(a0[j], targets@[j]) } else { a0[j] }),
        decreases 12 - i,
    {
        let s = interpolate_824_i16(&WAV_SINE, phase.wrapping_mul(i as u32 + 1)) as i32;
        let a = amps[i] as i32;
        proof {
            assert(-0x4000_0000 <= s * a <= 0x4000_0000) by (nonlinear_arith)
                requires
                    -32768 <= s <= 32767,
                    -32768 <= a <= 32767,
            ;
            lemma_i32_shr((s * a) as i32);
        }
        out = out + ((s * a) >> 15);
        let t = targets[i];
        proof {
            lemma_i32_shr((t - a) as i32);
        }
        amps[i] = (a + ((t - a) >> 8)) as i16;
        i += 1;
    }
    proof {
        assert(amps@ =~= Seq::new(12, |j: int| glide(a0[j], targets@[j])));
    }
    clip16_sym(out)
}

/// Renders `size` samples (in pairs) of the harmonics into `buffer` at the
/// increment `pi`, from the phase and the previous output given; returns
/// the phase and the previous output at the end.
pub fn render_harmonics(amps: &mut [i16; 12], phase: u32, previous: i16, pi: u32, p0: i16, p1: i16,
    sync: &[u8], buffer: &mut [i16], size: usize) -> (r: (u32, i16))
    requires
        size % 2 == 0,
        size <= sync@.len(),
        size <= old(buffer)@.len(),
    ensures
        final(buffer)@.len() == old(buffer)@.len(),
        ({
            let targets = Seq::new(12, |i: int| harmonic_target(i, pi, p0, p1));
            let v0 = HarmonicsVoice { phase, previous, amps: old(amps)@ };
            let e = harmonics_run(v0, pi, targets, sync@, (size / 2) as nat);
            &&& forall|k: int| 0 <= k < size ==> #[trigger] final(buffer)@[k] == ({
                let st = harmonics_pair(harmonics_run(v0, pi, targets, sync@, (k / 2) as nat), pi, targets,
                    sync@[2 * (k / 2)], sync@[2 * (k / 2) + 1]);
                if k % 2 == 0 { st.1 } else { st.2 }
            })
            &&& r.0 == e.phase
            &&& r.1 == e.previous
            &&& final(amps)@ == e.amps
        }),
        forall|k: int| size <= k < old(buffer)@.len() ==> #[trigger] final(buffer)@[k] == old(buffer)@[k],
{
    let targets = harmonic_targets(pi, p0, p1);
    let ghost tv = Seq::new(12, |i: int| harmonic_target(i, pi, p0, p1));
    proof {
        assert(targets@ =~= tv);
    }
    let ghost v0 = HarmonicsVoice { phase, previous, amps: amps@ };
    let mut phase = phase;
    let mut previous = previous;
    let mut j: usize = 0;
    while j < size / 2
        invariant
            j <= size / 2,
            size % 2 == 0,
            size <= sync@.len(),
            size <= buffer@.len(),
            buffer@.len() == old(buffer)@.len(),
            targets@ == tv,
            forall|i: int| 0 <= i < 12 ==> -32768 <= #[trigger] targets@[i] <= 32767,
            ({
                let w = harmonics_run(v0, pi, tv, sync@, j as nat);
                &&& phase == w.phase
                &&& previous == w.previous
                &&& amps@ == w.amps
            }),
            forall|k: int| 0 <= k < 2 * j ==> #[trigger] buffer@[k] == ({
                let st = harmonics_pair(harmonics_run(v0, pi, tv, sync@, (k / 2) as nat), pi, tv,
                    sync@[2 * (k / 2)], sync@[2 * (k / 2) + 1]);
                if k % 2 == 0 { st.1 } else { st.2 }
            }),
            forall|k: int| size <= k < buffer@.len() ==> #[trigger] buffer@[k] == old(buffer)@[k],
        decreases size / 2 - j,
    {
        phase = phase.wrapping_add(pi);
        if sync[2 * j] != 0 || sync[2 * j + 1] != 0 {
            phase = 0;
        }
        let out = harmonics_step(amps, phase, &targets);
        let sum: i32 = out + previous as i32;
        proof {
            lemma_i32_shr(sum);
        }
        buffer[2 * j] = (sum >> 1) as i16;
        buffer[2 * j + 1] = out as i16;
        previous = out as i16;
        proof {
            assert((2 * j) / 2 == j);
            assert((2 * j + 1) / 2 == j);
            assert((2 * j) % 2 == 0);
            assert((2 * j + 1) % 2 == 1);
        }
        j += 1;
    }
    (phase, previous)
}

} // verus!
