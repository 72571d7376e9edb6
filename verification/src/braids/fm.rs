//! Two-operator phase modulation: a sine modulator, an octave plus the
//! second parameter above the pitch, modulates a sine carrier by an amount
//! that ramps to the first parameter across the block. Three variants: the
//! plain one; one where the carrier's previous output also modulates the
//! modulator (less at high pitches); and a chaotic one where the carrier's
//! output bends the modulator's speed.
//!
//! The second parameter is first snapped to musical ratios by a quantizer
//! curve (129 entries), handed to `quantize_ratio`: the models are stated
//! for any curve.
use vstd::prelude::*;
use crate::bits::{lemma_i16_shr, lemma_i32_shl, lemma_i32_shr, lemma_u16_shr};
use crate::fixed::{interpolate_824_i16, interpolate_824_i16_spec};
use super::analog_oscillator::{lemma_param_ramp_value, lemma_xfade_bound, param_at};
use super::dsp::{compute_phase_increment_digital, phase_increment_of, ParamRamp};
use super::resources::WAV_SINE;

verus! {

/// The second parameter snapped by the quantizer curve: the curve at
/// `p1 / 256`, blended linearly by the remainder.
pub open spec fn quantized_ratio(p1: i16, quantizer: Seq<u16>) -> i16 {
    let i = p1 as int / 256;
    let f = p1 as int % 256;
    let a = quantizer[i] as int;
    let b = quantizer[i + 1] as int;
    (a + ((((b - a) * f) as i32) >> 8i32) as int) as i16
}

/// Snaps the second parameter to the quantizer curve (see
/// `quantized_ratio`).
pub fn quantize_ratio(p1: i16, quantizer: &[u16; 129]) -> (r: i16)
    requires
        p1 >= 0,
    ensures
        r == quantized_ratio(p1, quantizer@),
{
    proof {
        lemma_u16_shr(p1 as u16);
    }
    let integral = ((p1 as u16) >> 8) as usize;
    let fractional = ((p1 as u16) & 255) as i32;
    let a = quantizer[integral] as i32;
    let b = quantizer[integral + 1] as i32;
    proof {
        assert(-65535 * 255 <= (b - a) * fractional <= 65535 * 255) by (nonlinear_arith)
            requires
                -65535 <= b - a <= 65535,
                0 <= fractional <= 255,
        ;
        lemma_i32_shr(((b - a) * fractional) as i32);
    }
    (a + ((b - a) * fractional >> 8)) as i16
}

/// The modulator's increment: half that of the pitch an octave up, moved
/// by half the second parameter's distance from its middle.
pub open spec fn modulator_increment(pitch: i16, p1: i16) -> u32 {
    phase_increment_of(1536 + pitch as int + (((p1 as int - 16384) as i32) >> 1i32) as int) >> 1u32
}

/// Computes the modulator's increment (see `modulator_increment`).
fn modulator_increment_exec(pitch: i16, p1: i16) -> (r: u32)
    ensures
        r == modulator_increment(pitch, p1),
{
    proof {
        lemma_i32_shr((p1 as i32 - 16384) as i32);
    }
    compute_phase_increment_digital(1536 + pitch as i32 + ((p1 as i32 - 16384) >> 1)) >> 1
}

/// One sample of the plain model: the phases advance (a sync pulse restarts
/// them), the modulator's sine times the amount, shifted up two bits,
/// moves the carrier's phase.
pub open spec fn fm_step(phase: u32, modulator: u32, pi: u32, mi: u32, amount: i32, sync: u8) -> (u32, u32, i16) {
    let ph = if sync != 0 { 0u32 } else { phase.wrapping_add(pi) };
    let m = (if sync != 0 { 0u32 } else { modulator }).wrapping_add(mi);
    let pm = ((interpolate_824_i16_spec(WAV_SINE@, m) as i32).wrapping_mul(amount) as u32) << 2u32;
    (ph, m, interpolate_824_i16_spec(WAV_SINE@, ph.wrapping_add(pm)))
}

/// The phases after `k` samples of the plain model, the amount ramping
/// from `start` by `delta` in steps of `inc / 32768`.
pub open spec fn fm_run(phase: u32, modulator: u32, pi: u32, mi: u32, start: i32, delta: i32, inc: i32, sync: Seq<u8>, k: nat) -> (u32, u32)
    decreases k,
{
    if k == 0 {
        (phase, modulator)
    } else {
        let (p, m) = fm_run(phase, modulator, pi, mi, start, delta, inc, sync, (k - 1) as nat);
        let s = fm_step(p, m, pi, mi, param_at(start, delta, inc, (k - 1) as nat), sync[k - 1]);
        (s.0, s.1)
    }
}

/// Renders `size` samples of the plain model into `buffer` from the carrier
/// phase `phase` at the increment `pi` and the modulator phase `modulator`;
/// the amount ramps from `previous_p0` to `p0`. Returns both phases.
pub fn render_fm(phase: u32, modulator: u32, pi: u32, pitch: i16, previous_p0: i16, p0: i16, p1: i16,
    sync: &[u8], buffer: &mut [i16], size: usize) -> (r: (u32, u32))
    requires
        0 < size <= i32::MAX,
        size <= sync@.len(),
        size <= old(buffer)@.len(),
    ensures
        ({
            let mi = modulator_increment(pitch, p1);
            let inc = (32767int / size as int) as i32;
            let delta = (p0 - previous_p0) as i32;
            &&& forall|k: int| 0 <= k < size ==> #[trigger] final(buffer)@[k] == ({
                let (p, m) = fm_run(phase, modulator, pi, mi, previous_p0 as i32, delta, inc, sync@, k as nat);
                fm_step(p, m, pi, mi, param_at(previous_p0 as i32, delta, inc, k as nat), sync@[k]).2
            })
            &&& r == fm_run(phase, modulator, pi, mi, previous_p0 as i32, delta, inc, sync@, size as nat)
        }),
        final(buffer)@.len() == old(buffer)@.len(),
        forall|k: int| size <= k < old(buffer)@.len() ==> #[trigger] final(buffer)@[k] == old(buffer)@[k],
{
    let mi = modulator_increment_exec(pitch, p1);
    let mut p_ramp = ParamRamp::new(previous_p0 as i32, p0 as i32, size);
    let ghost inc = p_ramp.increment();
    let ghost delta = (p0 - previous_p0) as i32;
    let mut ph = phase;
    let mut m = modulator;
    let mut i: usize = 0;
    while i < size
        invariant
            i <= size,
            0 < size <= i32::MAX,
            size <= sync@.len(),
            size <= buffer@.len(),
            buffer@.len() == old(buffer)@.len(),
            mi == modulator_increment(pitch, p1),
            p_ramp.start() == previous_p0 as i32,
            p_ramp.delta() == delta,
            delta == (p0 - previous_p0) as i32,
            p_ramp.increment() == inc,
            inc == 32767int / (size as i32 as int),
            p_ramp.xfade() == i * inc,
            (ph, m) == fm_run(phase, modulator, pi, mi, previous_p0 as i32, delta, inc, sync@, i as nat),
            forall|k: int| 0 <= k < i ==> #[trigger] buffer@[k] == ({
                let (p, q) = fm_run(phase, modulator, pi, mi, previous_p0 as i32, delta, inc, sync@, k as nat);
                fm_step(p, q, pi, mi, param_at(previous_p0 as i32, delta, inc, k as nat), sync@[k]).2
            }),
            forall|k: int| size <= k < buffer@.len() ==> #[trigger] buffer@[k] == old(buffer)@[k],
        decreases size - i,
    {
        proof {
            lemma_xfade_bound(i as int + 1, size as int, inc as int);
            assert(i * inc + inc == (i + 1) * inc) by (nonlinear_arith);
            lemma_param_ramp_value(delta, (p_ramp.xfade() + inc) as i32);
        }
        let amount = p_ramp.next();
        ph = ph.wrapping_add(pi);
        if sync[i] != 0 {
            ph = 0;
            m = 0;
        }
        m = m.wrapping_add(mi);
        let pm = ((interpolate_824_i16(&WAV_SINE, m) as i32).wrapping_mul(amount) as u32) << 2;
        buffer[i] = interpolate_824_i16(&WAV_SINE, ph.wrapping_add(pm));
        proof {
            assert(amount == param_at(previous_p0 as i32, delta, inc, i as nat));
        }
        i += 1;
    }
    (ph, m)
}

/// A ramped amount lies between the ramp's start and its target.
proof fn lemma_ramp_between(start: i16, target: i16, x: i32)
    requires
        0 <= x <= 32767,
    ensures
        ({
            let delta = (target - start) as i32;
            let v = start as int + (delta.wrapping_mul(x) >> 15i32) as int;
            &&& (start <= target ==> start <= v <= target)
            &&& (target < start ==> target <= v <= start)
        }),
{
    let delta = (target - start) as i32;
    lemma_param_ramp_value(delta, x);
    assert(delta >= 0 ==> 0 <= delta * x <= delta * 32767) by (nonlinear_arith)
        requires
            0 <= x <= 32767,
    ;
    assert(delta < 0 ==> delta * 32767 <= delta * x <= 0) by (nonlinear_arith)
        requires
            0 <= x <= 32767,
    ;
    lemma_i32_shr(delta.wrapping_mul(x));
}

/// The feedback's attenuation: `32767 - 4 * (pitch - 9216 + (p1 - 16384) / 2)`,
/// clamped to `0..=32767`; less feedback at high pitches.
pub open spec fn feedback_attenuation(pitch: i16, p1: i16) -> i32 {
    let a = 32767 - 4 * (pitch as int - 9216 + (((p1 as int - 16384) as i32) >> 1i32) as int);
    (if a < 0 { 0 } else if a > 32767 { 32767 } else { a }) as i32
}

/// One sample of the feedback model: the phases advance (a sync pulse
/// restarts them); the previous output, shifted up 14 bits, moves the
/// modulator's phase; the modulator's sine times the attenuated amount,
/// doubled, moves the carrier's phase.
pub open spec fn feedback_step(phase: u32, modulator: u32, previous: i16, pi: u32, mi: u32, amount: i32, attenuation: i32, sync: u8) -> (u32, u32, i16) {
    let ph = if sync != 0 { 0u32 } else { phase.wrapping_add(pi) };
    let m = (if sync != 0 { 0u32 } else { modulator }).wrapping_add(mi);
    let p = ((amount as int * attenuation as int) as i32) >> 15i32;
    let fed = (previous as int * 16384) as i32;
    let pm = ((interpolate_824_i16_spec(WAV_SINE@, m.wrapping_add(fed as u32)) as i32).wrapping_mul(p)) << 1i32;
    (ph, m, interpolate_824_i16_spec(WAV_SINE@, ph.wrapping_add(pm as u32)))
}

/// The state after `k` samples of the feedback model.
pub open spec fn feedback_run(phase: u32, modulator: u32, previous: i16, pi: u32, mi: u32, start: i32, delta: i32, inc: i32,
    attenuation: i32, sync: Seq<u8>, k: nat) -> (u32, u32, i16)
    decreases k,
{
    if k == 0 {
        (phase, modulator, previous)
    } else {
        let (p, m, y) = feedback_run(phase, modulator, previous, pi, mi, start, delta, inc, attenuation, sync, (k - 1) as nat);
        feedback_step(p, m, y, pi, mi, param_at(start, delta, inc, (k - 1) as nat), attenuation, sync[k - 1])
    }
}

/// Renders `size` samples of the feedback model into `buffer`, from the
/// carrier and modulator phases and the previous output given; the amount
/// ramps from `previous_p0` to `p0`. Returns both phases and the last
/// output.
pub fn render_feedback_fm(phase: u32, modulator: u32, previous: i16, pi: u32, pitch: i16, previous_p0: i16, p0: i16, p1: i16,
    sync: &[u8], buffer: &mut [i16], size: usize) -> (r: (u32, u32, i16))
    requires
        0 < size <= i32::MAX,
        size <= sync@.len(),
        size <= old(buffer)@.len(),
    ensures
        ({
            let mi = modulator_increment(pitch, p1);
            let inc = (32767int / size as int) as i32;
            let delta = (p0 - previous_p0) as i32;
            let att = feedback_attenuation(pitch, p1);
            &&& forall|k: int| 0 <= k < size ==> #[trigger] final(buffer)@[k] == ({
                let (p, m, y) = feedback_run(phase, modulator, previous, pi, mi, previous_p0 as i32, delta, inc, att, sync@, k as nat);
                feedback_step(p, m, y, pi, mi, param_at(previous_p0 as i32, delta, inc, k as nat), att, sync@[k]).2
            })
            &&& r == feedback_run(phase, modulator, previous, pi, mi, previous_p0 as i32, delta, inc, att, sync@, size as nat)
        }),
        final(buffer)@.len() == old(buffer)@.len(),
        forall|k: int| size <= k < old(buffer)@.len() ==> #[trigger] final(buffer)@[k] == old(buffer)@[k],
{
    proof {
        lemma_i32_shr((p1 as i32 - 16384) as i32);
    }
    let mut attenuation: i32 = pitch as i32 - 9216 + ((p1 as i32 - 16384) >> 1);
    attenuation = 32767 - attenuation * 4;
    attenuation = if attenuation < 0 { 0 } else if attenuation > 32767 { 32767 } else { attenuation };
    let mi = modulator_increment_exec(pitch, p1);
    let mut p_ramp = ParamRamp::new(previous_p0 as i32, p0 as i32, size);
    let ghost inc = p_ramp.increment();
    let ghost delta = (p0 - previous_p0) as i32;
    let mut ph = phase;
    let mut m = modulator;
    let mut y = previous;
    let mut i: usize = 0;
    while i < size
        invariant
            i <= size,
            0 < size <= i32::MAX,
            size <= sync@.len(),
            size <= buffer@.len(),
            buffer@.len() == old(buffer)@.len(),
            mi == modulator_increment(pitch, p1),
            attenuation == feedback_attenuation(pitch, p1),
            0 <= attenuation <= 32767,
            p_ramp.start() == previous_p0 as i32,
            p_ramp.delta() == delta,
            delta == (p0 - previous_p0) as i32,
            p_ramp.increment() == inc,
            inc == 32767int / (size as i32 as int),
            p_ramp.xfade() == i * inc,
            (ph, m, y) == feedback_run(phase, modulator, previous, pi, mi, previous_p0 as i32, delta, inc, attenuation, sync@, i as nat),
            forall|k: int| 0 <= k < i ==> #[trigger] buffer@[k] == ({
                let (p, q, z) = feedback_run(phase, modulator, previous, pi, mi, previous_p0 as i32, delta, inc, attenuation, sync@, k as nat);
                feedback_step(p, q, z, pi, mi, param_at(previous_p0 as i32, delta, inc, k as nat), attenuation, sync@[k]).2
            }),
            forall|k: int| size <= k < buffer@.len() ==> #[trigger] buffer@[k] == old(buffer)@[k],
        decreases size - i,
    {
        proof {
            lemma_xfade_bound(i as int + 1, size as int, inc as int);
            assert(i * inc + inc == (i + 1) * inc) by (nonlinear_arith);
            lemma_param_ramp_value(delta, (p_ramp.xfade() + inc) as i32);
            lemma_ramp_between(previous_p0, p0, (p_ramp.xfade() + inc) as i32);
        }
        let amount = p_ramp.next();
        ph = ph.wrapping_add(pi);
        if sync[i] != 0 {
            ph = 0;
            m = 0;
        }
        m = m.wrapping_add(mi);
        proof {
            assert(-32768 * 32767 <= amount * attenuation <= 32767 * 32767) by (nonlinear_arith)
                requires
                    -32768 <= amount <= 32767,
                    0 <= attenuation <= 32767,
            ;
            lemma_i32_shr((amount * attenuation) as i32);
            lemma_i32_shl(y as i32);
        }
        let p: i32 = amount * attenuation >> 15;
        let fed: i32 = (y as i32) << 14;
        let pm: i32 = (interpolate_824_i16(&WAV_SINE, m.wrapping_add(fed as u32)) as i32).wrapping_mul(p) << 1;
        y = interpolate_824_i16(&WAV_SINE, ph.wrapping_add(pm as u32));
        buffer[i] = y;
        proof {
            assert(amount == param_at(previous_p0 as i32, delta, inc, i as nat));
        }
        i += 1;
    }
    (ph, m, y)
}

/// One sample of the chaotic model: the carrier's phase advances (a sync
/// pulse restarts both phases); the modulator's sine times the amount,
/// doubled, moves it; then the modulator advances by its increment over
/// 256 times `129 + output / 512`.
pub open spec fn chaotic_step(phase: u32, modulator: u32, pi: u32, mi: u32, amount: i32, sync: u8) -> (u32, u32, i16) {
    let ph = if sync != 0 { 0u32 } else { phase.wrapping_add(pi) };
    let m = if sync != 0 { 0u32 } else { modulator };
    let pm = ((interpolate_824_i16_spec(WAV_SINE@, m) as i32).wrapping_mul(amount) as u32) << 1u32;
    let out = interpolate_824_i16_spec(WAV_SINE@, ph.wrapping_add(pm));
    (ph, m.wrapping_add((mi >> 8u32).wrapping_mul((129 + (out >> 9i16) as int) as u32)), out)
}

/// The state after `k` samples of the chaotic model (with the last output).
pub open spec fn chaotic_run(phase: u32, modulator: u32, previous: i16, pi: u32, mi: u32, start: i32, delta: i32, inc: i32,
    sync: Seq<u8>, k: nat) -> (u32, u32, i16)
    decreases k,
{
    if k == 0 {
        (phase, modulator, previous)
    } else {
        let (p, m, y) = chaotic_run(phase, modulator, previous, pi, mi, start, delta, inc, sync, (k - 1) as nat);
        chaotic_step(p, m, pi, mi, param_at(start, delta, inc, (k - 1) as nat), sync[k - 1])
    }
}

/// Renders `size` samples of the chaotic model into `buffer`, from the
/// carrier and modulator phases given; the amount ramps from `previous_p0`
/// to `p0`. Returns both phases and the last output (`previous` when the
/// block is empty).
pub fn render_chaotic_feedback_fm(phase: u32, modulator: u32, previous: i16, pi: u32, pitch: i16, previous_p0: i16, p0: i16, p1: i16,
    sync: &[u8], buffer: &mut [i16], size: usize) -> (r: (u32, u32, i16))
    requires
        0 < size <= i32::MAX,
        size <= sync@.len(),
        size <= old(buffer)@.len(),
    ensures
        ({
            let mi = modulator_increment(pitch, p1);
            let inc = (32767int / size as int) as i32;
            let delta = (p0 - previous_p0) as i32;
            &&& forall|k: int| 0 <= k < size ==> #[trigger] final(buffer)@[k] == ({
                let (p, m, y) = chaotic_run(phase, modulator, previous, pi, mi, previous_p0 as i32, delta, inc, sync@, k as nat);
                chaotic_step(p, m, pi, mi, param_at(previous_p0 as i32, delta, inc, k as nat), sync@[k]).2
            })
            &&& r == chaotic_run(phase, modulator, previous, pi, mi, previous_p0 as i32, delta, inc, sync@, size as nat)
        }),
        final(buffer)@.len() == old(buffer)@.len(),
        forall|k: int| size <= k < old(buffer)@.len() ==> #[trigger] final(buffer)@[k] == old(buffer)@[k],
{
    let mi = modulator_increment_exec(pitch, p1);
    let mut p_ramp = ParamRamp::new(previous_p0 as i32, p0 as i32, size);
    let ghost inc = p_ramp.increment();
    let ghost delta = (p0 - previous_p0) as i32;
    let mut ph = phase;
    let mut m = modulator;
    let mut y = previous;
    let mut i: usize = 0;
    while i < size
        invariant
            i <= size,
            0 < size <= i32::MAX,
            size <= sync@.len(),
            size <= buffer@.len(),
            buffer@.len() == old(buffer)@.len(),
            mi == modulator_increment(pitch, p1),
            p_ramp.start() == previous_p0 as i32,
            p_ramp.delta() == delta,
            delta == (p0 - previous_p0) as i32,
            p_ramp.increment() == inc,
            inc == 32767int / (size as i32 as int),
            p_ramp.xfade() == i * inc,
            (ph, m, y) == chaotic_run(phase, modulator, previous, pi, mi, previous_p0 as i32, delta, inc, sync@, i as nat),
            forall|k: int| 0 <= k < i ==> #[trigger] buffer@[k] == ({
                let (p, q, z) = chaotic_run(phase, modulator, previous, pi, mi, previous_p0 as i32, delta, inc, sync@, k as nat);
                chaotic_step(p, q, pi, mi, param_at(previous_p0 as i32, delta, inc, k as nat), sync@[k]).2
            }),
            forall|k: int| size <= k < buffer@.len() ==> #[trigger] buffer@[k] == old(buffer)@[k],
        decreases size - i,
    {
        proof {
            lemma_xfade_bound(i as int + 1, size as int, inc as int);
            assert(i * inc + inc == (i + 1) * inc) by (nonlinear_arith);
            lemma_param_ramp_value(delta, (p_ramp.xfade() + inc) as i32);
        }
        let amount = p_ramp.next();
        ph = ph.wrapping_add(pi);
        if sync[i] != 0 {
            ph = 0;
            m = 0;
        }
        let pm = ((interpolate_824_i16(&WAV_SINE, m) as i32).wrapping_mul(amount) as u32) << 1;
        y = interpolate_824_i16(&WAV_SINE, ph.wrapping_add(pm));
        buffer[i] = y;
        proof {
            lemma_i16_shr(y);
        }
        m = m.wrapping_add((mi >> 8).wrapping_mul((129 + (y >> 9)) as u32));
        proof {
            assert(amount == param_at(previous_p0 as i32, delta, inc, i as nat));
        }
        i += 1;
    }
    (ph, m, y)
}

/// Without modulation (a zero amount) each of the three models plays the
/// carrier's sine at its phase, whatever the modulator, the previous output
/// and the attenuation.
pub proof fn lemma_unmodulated_is_sine(phase: u32, modulator: u32, previous: i16, pi: u32, mi: u32, attenuation: i32, sync: u8)
    ensures
        ({
            let ph = if sync != 0 { 0u32 } else { phase.wrapping_add(pi) };
            let sine = interpolate_824_i16_spec(WAV_SINE@, ph);
            &&& fm_step(phase, modulator, pi, mi, 0, sync).2 == sine
            &&& feedback_step(phase, modulator, previous, pi, mi, 0, attenuation, sync).2 == sine
            &&& chaotic_step(phase, modulator, pi, mi, 0, sync).2 == sine
        }),
{
    assert(0u32 << 2u32 == 0u32 && 0u32 << 1u32 == 0u32 && 0i32 << 1i32 == 0i32 && 0i32 >> 15i32 == 0i32) by (bit_vector);
}

} // verus!
