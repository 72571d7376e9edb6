//! The band-limited "analog style" waveforms: saw, variable saw, "CS" saw,
//! square, triangle, sine, the two wavefolders and the comb "buzz". The
//! discontinuous waveforms are corrected with a two-sample polynomial band-
//! limited step (blep) at each edge, with hard sync from an external sync
//! signal.
use vstd::prelude::*;
use crate::bits::{lemma_i16_shr, lemma_i32_shl, lemma_i32_shr, lemma_u32_shr};
use crate::fixed::{
    crossfade, crossfade_spec, interpolate_824_i16, interpolate_824_i16_spec, interpolate_88_i16,
    interpolate_88_i16_spec,
};
use super::dsp::{
    compute_phase_increment_analog, next_blep_of, next_blep_sample, phase_increment_of, ramp_step,
    this_blep_of, this_blep_sample, ParamRamp, PhaseIncrementRamp, HIGHEST_NOTE_ANALOG,
};
use super::resources::{
    WAV_BANDLIMITED_COMB_0, WAV_BANDLIMITED_COMB_1, WAV_BANDLIMITED_COMB_2, WAV_BANDLIMITED_COMB_3, WAV_BANDLIMITED_COMB_4, WAV_BANDLIMITED_COMB_5, WAV_BANDLIMITED_COMB_6, WAV_BANDLIMITED_COMB_7, WAV_BANDLIMITED_COMB_8, WAV_BANDLIMITED_COMB_9, WAV_BANDLIMITED_COMB_10, WAV_BANDLIMITED_COMB_11, WAV_BANDLIMITED_COMB_12, WAV_BANDLIMITED_COMB_13, WAV_BANDLIMITED_COMB_14,
    WAV_SINE, WS_SINE_FOLD, WS_TRI_FOLD,
};
use super::shapes::AnalogOscillatorShape;

verus! {

pub const NUM_ZONES: usize = 15;

/// `a / b`, or 0 when `b` is 0 (a sub-audio increment).
pub open spec fn safe_div_spec(a: u32, b: u32) -> u32 {
    if b == 0 { 0 } else { a / b }
}

fn safe_div(a: u32, b: u32) -> (r: u32)
    ensures
        r == safe_div_spec(a, b),
{
    if b == 0 { 0 } else { a / b }
}

/// The triangle of a phase: the top 16 bits doubled, folded down in the
/// second half of the cycle, recentred around 0 (all in 16 bits).
pub open spec fn triangle_of(phase: u32) -> i16 {
    let p16 = (phase >> 16u32) as u16;
    let mask: u32 = if p16 & 0x8000 != 0 { 0xffff } else { 0 };
    ((((p16 as u32) << 1u32) ^ mask) as u16).wrapping_add(0x8000) as i16
}

/// The triangle rises linearly over the first half of the cycle (from
/// -32768 by 2 per 2^16 of phase) and falls linearly over the second half
/// (from 32767).
pub proof fn lemma_triangle_shape(phase: u32)
    ensures
        (phase >> 16u32) < 32768 ==> triangle_of(phase) as int == 2 * ((phase >> 16u32) as int) - 32768,
        (phase >> 16u32) >= 32768 ==> triangle_of(phase) as int == 32767 - 2 * ((phase >> 16u32) as int - 32768),
{
    assert(((phase >> 16u32) < 32768 ==> (((phase >> 16u32) as u16) & 0x8000u16) == 0u16
            && (((((((phase >> 16u32) as u16) as u32) << 1u32) ^ 0u32) as u16).wrapping_add(0x8000) as i16) as i32
            == 2 * ((phase >> 16u32) as i32) - 32768)
        && ((phase >> 16u32) >= 32768 ==> (((phase >> 16u32) as u16) & 0x8000u16) != 0u16
            && (((((((phase >> 16u32) as u16) as u32) << 1u32) ^ 0xffffu32) as u16).wrapping_add(0x8000) as i16) as i32
            == 32767 - 2 * ((phase >> 16u32) as i32 - 32768))) by (bit_vector);
    lemma_u32_shr(phase);
}

fn triangle_from_phase(phase: u32) -> (r: i16)
    ensures
        r == triangle_of(phase),
{
    let phase_16 = (phase >> 16) as u16;
    let mask: u32 = if phase_16 & 0x8000 != 0 { 0xffff } else { 0 };
    let t = (((phase_16 as u32) << 1) ^ mask) as u16;
    t.wrapping_add(0x8000) as i16
}

/// The value of a phase-increment ramp after `k` steps.
pub open spec fn ramp_at(prev: u32, step: u32, k: nat) -> u32
    decreases k,
{
    if k == 0 { prev } else { ramp_at(prev, step, (k - 1) as nat).wrapping_add(step) }
}

/// The band-limited comb waveform of zone `i`.
pub open spec fn comb_table(i: int) -> Seq<i16> {
    if i == 0 { WAV_BANDLIMITED_COMB_0@ }
    else if i == 1 { WAV_BANDLIMITED_COMB_1@ }
    else if i == 2 { WAV_BANDLIMITED_COMB_2@ }
    else if i == 3 { WAV_BANDLIMITED_COMB_3@ }
    else if i == 4 { WAV_BANDLIMITED_COMB_4@ }
    else if i == 5 { WAV_BANDLIMITED_COMB_5@ }
    else if i == 6 { WAV_BANDLIMITED_COMB_6@ }
    else if i == 7 { WAV_BANDLIMITED_COMB_7@ }
    else if i == 8 { WAV_BANDLIMITED_COMB_8@ }
    else if i == 9 { WAV_BANDLIMITED_COMB_9@ }
    else if i == 10 { WAV_BANDLIMITED_COMB_10@ }
    else if i == 11 { WAV_BANDLIMITED_COMB_11@ }
    else if i == 12 { WAV_BANDLIMITED_COMB_12@ }
    else if i == 13 { WAV_BANDLIMITED_COMB_13@ }
    else { WAV_BANDLIMITED_COMB_14@ }
}

fn comb_wave(i: usize) -> (r: &'static [i16; 257])
    requires
        i < 15,
    ensures
        r@ == comb_table(i as int),
{
    match i {
        0 => &WAV_BANDLIMITED_COMB_0,
        1 => &WAV_BANDLIMITED_COMB_1,
        2 => &WAV_BANDLIMITED_COMB_2,
        3 => &WAV_BANDLIMITED_COMB_3,
        4 => &WAV_BANDLIMITED_COMB_4,
        5 => &WAV_BANDLIMITED_COMB_5,
        6 => &WAV_BANDLIMITED_COMB_6,
        7 => &WAV_BANDLIMITED_COMB_7,
        8 => &WAV_BANDLIMITED_COMB_8,
        9 => &WAV_BANDLIMITED_COMB_9,
        10 => &WAV_BANDLIMITED_COMB_10,
        11 => &WAV_BANDLIMITED_COMB_11,
        12 => &WAV_BANDLIMITED_COMB_12,
        13 => &WAV_BANDLIMITED_COMB_13,
        _ => &WAV_BANDLIMITED_COMB_14,
    }
}

// ------------------------------------------------------------------ triangle

/// The phase after `k` triangle samples: each sample (after an optional
/// sync reset to 0) advances twice by half the ramped increment.
pub open spec fn tri_phase(phase: u32, prev: u32, step: u32, sync: Seq<u8>, k: nat) -> u32
    decreases k,
{
    if k == 0 {
        phase
    } else {
        let p = tri_phase(phase, prev, step, sync, (k - 1) as nat);
        let pi = ramp_at(prev, step, k);
        let p0 = if sync[k - 1] != 0 { 0u32 } else { p };
        p0.wrapping_add(pi >> 1u32).wrapping_add(pi >> 1u32)
    }
}

/// Triangle sample `k`: the average of the triangle at the two half steps.
pub open spec fn tri_sample(phase: u32, prev: u32, step: u32, sync: Seq<u8>, k: nat) -> i16 {
    let p = tri_phase(phase, prev, step, sync, k);
    let pi = ramp_at(prev, step, k + 1);
    let p0 = if sync[k as int] != 0 { 0u32 } else { p };
    let a = p0.wrapping_add(pi >> 1u32);
    let b = a.wrapping_add(pi >> 1u32);
    (triangle_of(a) >> 1u16).wrapping_add(triangle_of(b) >> 1u16)
}

// ---------------------------------------------------------------------- sine

/// The phase after `k` sine samples: advanced by the ramped increment, then
/// reset to 0 on sync.
pub open spec fn sine_phase(phase: u32, prev: u32, step: u32, sync: Seq<u8>, k: nat) -> u32
    decreases k,
{
    if k == 0 {
        phase
    } else {
        let p = sine_phase(phase, prev, step, sync, (k - 1) as nat).wrapping_add(ramp_at(prev, step, k));
        if sync[k - 1] != 0 { 0 } else { p }
    }
}


/// Sine sample `k`: the sine table read at the phase after `k + 1` samples.
pub open spec fn sine_sample(phase: u32, prev: u32, step: u32, sync: Seq<u8>, k: nat) -> i16 {
    interpolate_824_i16_spec(WAV_SINE@, sine_phase(phase, prev, step, sync, k + 1))
}

/// A steady increment stays put: a ramp of step 0 keeps its start.
proof fn lemma_steady_ramp(inc: u32, k: nat)
    ensures
        ramp_at(inc, 0, k) == inc,
    decreases k,
{
    if k > 0 {
        lemma_steady_ramp(inc, (k - 1) as nat);
    }
}

/// With no sync pulse and a steady increment, the phase after `k` samples is
/// the start advanced `k` times by the increment, modulo 2^32.
proof fn lemma_steady_sine_phase(phase: u32, inc: u32, sync: Seq<u8>, k: nat)
    requires
        k <= sync.len(),
        forall|j: int| 0 <= j < sync.len() ==> sync[j] == 0,
    ensures
        sine_phase(phase, inc, 0, sync, k) as int == (phase as int + k * (inc as int)) % 0x1_0000_0000,
    decreases k,
{
    let m: int = 0x1_0000_0000;
    if k == 0 {
        assert((phase as int + 0 * (inc as int)) == phase as int);
    } else {
        lemma_steady_sine_phase(phase, inc, sync, (k - 1) as nat);
        lemma_steady_ramp(inc, k);
        let x: int = phase as int + (k - 1) * (inc as int);
        assert(x + inc as int == phase as int + k * (inc as int)) by (nonlinear_arith)
            requires x == phase as int + (k - 1) * (inc as int);
        assert(0 <= x);
        vstd::arithmetic::div_mod::lemma_add_mod_noop(x, inc as int, m);
        vstd::arithmetic::div_mod::lemma_small_mod(inc as nat, m as nat);
        let p = sine_phase(phase, inc, 0, sync, (k - 1) as nat);
        assert(sync[k - 1] == 0);
        let s = p as int + inc as int;
        if s >= m {
            vstd::arithmetic::div_mod::lemma_mod_sub_multiples_vanish(s, m);
            vstd::arithmetic::div_mod::lemma_small_mod((s - m) as nat, m as nat);
            assert(s % m == s - m);
        } else {
            vstd::arithmetic::div_mod::lemma_small_mod(s as nat, m as nat);
        }
    }
}

/// The sine shape sounds at its increment: at a steady increment with no
/// sync pulse, sample `k` is the sine table read at the start phase advanced
/// `k + 1` times by the increment (one period every 2^32 / increment
/// samples).
pub proof fn lemma_sine_sounds_its_increment(phase: u32, inc: u32, sync: Seq<u8>, k: nat)
    requires
        k < sync.len(),
        forall|j: int| 0 <= j < sync.len() ==> sync[j] == 0,
    ensures
        sine_sample(phase, inc, 0, sync, k)
            == interpolate_824_i16_spec(WAV_SINE@, ((phase as int + (k + 1) * (inc as int)) % 0x1_0000_0000) as u32),
{
    lemma_steady_sine_phase(phase, inc, sync, k + 1);
}

fn fold(curve: &[i16; 257], x: i16, gain: i16) -> (r: i16)
    ensures
        r == folded(curve@, x, gain),
{
    let scaled = ((x as i32).wrapping_mul(gain as i32) >> 15) as i16;
    interpolate_88_i16(curve, (scaled as i32 + 32768) as u16)
}

// ----------------------------------------------------------------- wavefolds

/// The ramped timbre parameter at sample `k` (counting from 0).
pub open spec fn param_at(start: i32, delta: i32, inc: i32, k: nat) -> i32 {
    (start + (delta.wrapping_mul(((k + 1) * inc) as i32) >> 15i32)) as i32
}

/// The fold gain for a timbre: `2048 + parameter * 30720 >> 15`.
pub open spec fn fold_gain(parameter: i32) -> i16 {
    (2048 + (parameter.wrapping_mul(30720) >> 15i32)) as i16
}

/// A sample scaled by the fold gain and sent through a folder curve.
pub open spec fn folded(curve: Seq<i16>, x: i16, gain: i16) -> i16 {
    let scaled = ((x as i32).wrapping_mul(gain as i32) >> 15i32) as i16;
    interpolate_88_i16_spec(curve, (scaled as int + 32768) as u16)
}

/// The phase after `k` folded samples (reset before the two half steps).
pub open spec fn fold_phase(phase: u32, prev: u32, step: u32, sync: Seq<u8>, k: nat) -> u32 {
    tri_phase(phase, prev, step, sync, k)
}

/// Triangle-fold sample `k`.
pub open spec fn tri_fold_sample(phase: u32, prev: u32, step: u32, sync: Seq<u8>, start: i32, delta: i32, inc: i32, k: nat) -> i16 {
    let p = fold_phase(phase, prev, step, sync, k);
    let pi = ramp_at(prev, step, k + 1);
    let gain = fold_gain(param_at(start, delta, inc, k));
    let p0 = if sync[k as int] != 0 { 0u32 } else { p };
    let a = p0.wrapping_add(pi >> 1u32);
    let b = a.wrapping_add(pi >> 1u32);
    (folded(WS_TRI_FOLD@, triangle_of(a), gain) >> 1u16).wrapping_add(folded(WS_TRI_FOLD@, triangle_of(b), gain) >> 1u16)
}

/// Sine-fold sample `k`.
pub open spec fn sine_fold_sample(phase: u32, prev: u32, step: u32, sync: Seq<u8>, start: i32, delta: i32, inc: i32, k: nat) -> i16 {
    let p = fold_phase(phase, prev, step, sync, k);
    let pi = ramp_at(prev, step, k + 1);
    let gain = fold_gain(param_at(start, delta, inc, k));
    let p0 = if sync[k as int] != 0 { 0u32 } else { p };
    let a = p0.wrapping_add(pi >> 1u32);
    let b = a.wrapping_add(pi >> 1u32);
    (folded(WS_SINE_FOLD@, interpolate_824_i16_spec(WAV_SINE@, a), gain) >> 1u16).wrapping_add(
        folded(WS_SINE_FOLD@, interpolate_824_i16_spec(WAV_SINE@, b), gain) >> 1u16)
}

// ---------------------------------------------------------------------- buzz

/// The buzz phase after `k` samples: advanced by the (unramped) increment and
/// reset on sync.
pub open spec fn buzz_phase(phase: u32, pi: u32, sync: Seq<u8>, k: nat) -> u32
    decreases k,
{
    if k == 0 {
        phase
    } else {
        let p = buzz_phase(phase, pi, sync, (k - 1) as nat).wrapping_add(pi);
        if sync[k - 1] != 0 { 0 } else { p }
    }
}

/// The two comb zones and the crossfade of the buzz at `pitch` and timbre
/// `parameter`: the pitch raised by up to a quarter of the range as the
/// timbre falls selects a zone (10 bits each) and the crossfade.
pub open spec fn buzz_zones(pitch: i16, parameter: i16) -> (int, int, u16) {
    let shifted = pitch as int + (32767 - parameter as int) / 2;
    let index = shifted / 1024;
    let i1 = if index >= 15 { 14 } else { index };
    let i2 = if i1 + 1 >= 15 { 14 } else { i1 + 1 };
    (i1, i2, (shifted * 64) as u16)
}



/// After `i <= size` steps a crossfade of `32767 / size` per step is at most
/// 32767.
pub proof fn lemma_xfade_bound(i: int, size: int, inc: int)
    requires
        0 < size,
        inc == 32767int / size,
        0 <= i <= size,
    ensures
        0 <= i * inc <= 32767,
        inc >= 0,
{
    vstd::arithmetic::div_mod::lemma_fundamental_div_mod(32767, size);
    assert(inc >= 0) by (nonlinear_arith) requires inc == 32767int / size, size > 0;
    assert(i * inc <= size * inc) by (nonlinear_arith) requires 0 <= i <= size, inc >= 0;
    assert(0 <= i * inc) by (nonlinear_arith) requires 0 <= i, inc >= 0;
}

/// A 16-bit difference scaled by a crossfade of at most 32767, shifted down
/// by 15 bits, stays within 17 bits.
pub proof fn lemma_param_ramp_value(delta: i32, xfade: i32)
    requires
        -65535 <= delta <= 65535,
        0 <= xfade <= 32767,
    ensures
        delta.wrapping_mul(xfade) == delta * xfade,
        -65535 <= delta.wrapping_mul(xfade) >> 15i32 <= 65535,
{
    assert(-65535 * 32767 <= delta * xfade <= 65535 * 32767) by (nonlinear_arith)
        requires -65535 <= delta <= 65535, 0 <= xfade <= 32767;
    lemma_i32_shr(delta.wrapping_mul(xfade));
}


// ------------------------------------------------------------ blep waveforms

/// The per-sample state of the blep waveforms: the phase, whether the pulse
/// is high, the correction carried into the next sample, and the "CS" saw's
/// notch depth.
pub struct BlepState {
    pub phase: u32,
    pub high: bool,
    pub next: int,
    pub depth: i16,
}

/// The sub-sample position of a sync pulse (`sync - 1` in 1/128 sample) in
/// 16 bits.
pub open spec fn reset_time_of(sync: u8) -> u32 {
    if sync == 0 { 0 } else { ((sync - 1) as u32) << 9u32 }
}

/// The phase the oscillator would have reached at the sync point.
pub open spec fn phase_at_reset(phase: u32, rt: u32, pi: u32) -> u32 {
    phase.wrapping_add(65535u32.wrapping_sub(rt).wrapping_mul(pi >> 16u32))
}

/// The sync output of a sample: on a cycle start, the sub-sample position of
/// the wrap (plus 1); 0 otherwise.
pub open spec fn sync_out_of(phase: u32, pi: u32) -> u8 {
    if phase < pi { (safe_div_spec(phase, pi >> 7u32) + 1) as u8 } else { 0 }
}

/// The sync output marks a cycle start: it is nonzero exactly on the samples
/// where the phase wraps.
pub proof fn lemma_sync_output_marks_wraps(phase: u32, pi: u32)
    ensures
        (sync_out_of(phase, pi) != 0) == (phase < pi),
{
    if phase < pi {
        let q = pi >> 7u32;
        lemma_u32_shr(pi);
        if q != 0 {
            assert(phase / q <= 254) by (nonlinear_arith)
                requires phase < pi, q == pi / 128, q >= 1;
        }
    }
}

/// `x * blep >> 15` for a discontinuity `x`.
pub open spec fn scaled_blep(x: int, blep: i32) -> int {
    ((x as i32).wrapping_mul(blep) >> 15i32) as int
}

/// The sample written for an accumulated value: `(this - offset) * 2` in 16
/// bits.
pub open spec fn blep_out(this: int, offset: int) -> i16 {
    ((this - offset) as i32).wrapping_mul(2) as i16
}

/// One saw sample: a sync pulse inserts a blep sized by the phase it cuts
/// off; a wrap of the phase inserts a unit blep (unless a sync hides it);
/// the ramp itself is the top 15 bits of the phase.
pub open spec fn saw_step(s: BlepState, sync: u8, pi: u32) -> (BlepState, i16, u8) {
    let synced = sync != 0;
    let rt = reset_time_of(sync);
    let par = phase_at_reset(s.phase, rt, pi);
    let disc = (par >> 17u32) as int;
    let this0 = if synced { s.next - scaled_blep(disc, this_blep_of(rt)) } else { s.next };
    let next0 = if synced { 0 - scaled_blep(disc, next_blep_of(rt)) } else { 0 };
    let tdr = synced && par < s.phase;
    let phase1 = s.phase.wrapping_add(pi);
    let self_reset = phase1 < pi;
    let corr = (tdr || !synced) && self_reset;
    let t = safe_div_spec(phase1, pi >> 16u32);
    let this1 = if corr { this0 - this_blep_of(t) } else { this0 };
    let next1 = if corr { next0 - next_blep_of(t) } else { next0 };
    let phase2 = if synced { rt.wrapping_mul(pi >> 16u32) } else { phase1 };
    (
        BlepState { phase: phase2, high: if synced { false } else { s.high }, next: next1 + (phase2 >> 17u32) as int, depth: s.depth },
        blep_out(this1, 16384),
        sync_out_of(phase1, pi),
    )
}

/// The saw state after `k` samples.
pub open spec fn saw_run(s: BlepState, prev: u32, step: u32, sync: Seq<u8>, k: nat) -> BlepState
    decreases k,
{
    if k == 0 { s } else { saw_step(saw_run(s, prev, step, sync, (k - 1) as nat), sync[k - 1], ramp_at(prev, step, k)).0 }
}

/// The edges of the square inside one sample: a rising edge when the phase
/// passes the pulse width, a falling edge when it wraps; each adds a blep.
pub open spec fn square_edges(phase: u32, pw: u32, pi: u32, high: bool, sr: bool, this: int, next: int) -> (bool, int, int)
    decreases (if sr { 2int } else { 0int }) + (if high { 0int } else { 1int }),
{
    if !high && phase < pw {
        (high, this, next)
    } else {
        let t1 = safe_div_spec((phase - pw) as u32, pi >> 16u32);
        let this1 = if !high { this + this_blep_of(t1) } else { this };
        let next1 = if !high { next + next_blep_of(t1) } else { next };
        if !sr {
            (true, this1, next1)
        } else {
            let t2 = safe_div_spec(phase, pi >> 16u32);
            square_edges(phase, pw, pi, false, false, this1 - this_blep_of(t2), next1 - next_blep_of(t2))
        }
    }
}

/// The pulse width of the square for a (clamped) timbre parameter.
pub open spec fn square_pw(parameter: i16) -> u32 {
    ((32768 - parameter as int) as u32) << 16u32
}

/// One square sample.
pub open spec fn square_step(s: BlepState, pw: u32, sync: u8, pi: u32) -> (BlepState, i16, u8) {
    let synced = sync != 0;
    let rt = reset_time_of(sync);
    let par = phase_at_reset(s.phase, rt, pi);
    let tdr = synced && (par < s.phase || (!s.high && par >= pw));
    let cut = synced && par >= pw;
    let this0 = if cut { s.next - this_blep_of(rt) } else { s.next };
    let next0 = if cut { 0 - next_blep_of(rt) } else { 0 };
    let phase1 = s.phase.wrapping_add(pi);
    let sr = phase1 < pi;
    let (h, this1, next1) = if tdr || !synced { square_edges(phase1, pw, pi, s.high, sr, this0, next0) } else { (s.high, this0, next0) };
    let phase2 = if synced { rt.wrapping_mul(pi >> 16u32) } else { phase1 };
    (
        BlepState { phase: phase2, high: if synced { false } else { h }, next: next1 + (if phase2 < pw { 0int } else { 32767int }), depth: s.depth },
        blep_out(this1, 16384),
        sync_out_of(phase1, pi),
    )
}

/// The square state after `k` samples.
pub open spec fn square_run(s: BlepState, pw: u32, prev: u32, step: u32, sync: Seq<u8>, k: nat) -> BlepState
    decreases k,
{
    if k == 0 { s } else { square_step(square_run(s, pw, prev, step, sync, (k - 1) as nat), pw, sync[k - 1], ramp_at(prev, step, k)).0 }
}


/// The edges of the variable saw inside one sample: passing the pulse width
/// and wrapping each drop the output by half a step, with half a blep.
pub open spec fn vsaw_edges(phase: u32, pw: u32, pi: u32, high: bool, sr: bool, this: int, next: int) -> (bool, int, int)
    decreases (if sr { 2int } else { 0int }) + (if high { 0int } else { 1int }),
{
    if !high && phase < pw {
        (high, this, next)
    } else {
        let t1 = safe_div_spec((phase - pw) as u32, pi >> 16u32);
        let this1 = if !high { this - (this_blep_of(t1) >> 1i32) } else { this };
        let next1 = if !high { next - (next_blep_of(t1) >> 1i32) } else { next };
        if !sr {
            (true, this1, next1)
        } else {
            let t2 = safe_div_spec(phase, pi >> 16u32);
            vsaw_edges(phase, pw, pi, false, false, this1 - (this_blep_of(t2) >> 1i32), next1 - (next_blep_of(t2) >> 1i32))
        }
    }
}

/// The breakpoint of the variable saw for a (clamped) timbre parameter.
pub open spec fn vsaw_pw(parameter: i16) -> u32 {
    (parameter as u32) << 16u32
}

/// The variable saw's level at a phase: two half-height ramps, the second
/// starting at the breakpoint.
pub open spec fn vsaw_level(phase: u32, pw: u32) -> int {
    (phase >> 18u32) as int + (phase.wrapping_sub(pw) >> 18u32) as int
}

/// One variable-saw sample.
pub open spec fn vsaw_step(s: BlepState, pw: u32, sync: u8, pi: u32) -> (BlepState, i16, u8) {
    let synced = sync != 0;
    let rt = reset_time_of(sync);
    let par = phase_at_reset(s.phase, rt, pi);
    let tdr = synced && (par < s.phase || (!s.high && par >= pw));
    let disc = vsaw_level(0, pw) - vsaw_level(par, pw);
    let this0 = if synced { s.next + scaled_blep(disc, this_blep_of(rt)) } else { s.next };
    let next0 = if synced { scaled_blep(disc, next_blep_of(rt)) } else { 0 };
    let phase1 = s.phase.wrapping_add(pi);
    let sr = phase1 < pi;
    let (h, this1, next1) = if tdr || !synced { vsaw_edges(phase1, pw, pi, s.high, sr, this0, next0) } else { (s.high, this0, next0) };
    let phase2 = if synced { rt.wrapping_mul(pi >> 16u32) } else { phase1 };
    (
        BlepState { phase: phase2, high: if synced { false } else { h }, next: next1 + vsaw_level(phase2, pw), depth: s.depth },
        blep_out(this1, 16384),
        sync_out_of(phase1, pi),
    )
}

/// The variable-saw state after `k` samples.
pub open spec fn vsaw_run(s: BlepState, pw: u32, prev: u32, step: u32, sync: Seq<u8>, k: nat) -> BlepState
    decreases k,
{
    if k == 0 { s } else { vsaw_step(vsaw_run(s, pw, prev, step, sync, (k - 1) as nat), pw, sync[k - 1], ramp_at(prev, step, k)).0 }
}

/// The notch depth the "CS" saw drops to, set by the auxiliary parameter.
pub open spec fn csaw_depth(aux: i16) -> i16 {
    (-2048 + (aux >> 2i16)) as i16
}

/// The "CS" saw's pulse width: the timbre parameter scaled, but at least
/// eight increments.
pub open spec fn csaw_pw(parameter: i16, pi: u32) -> u32 {
    let pw = (parameter as u32).wrapping_mul(49152);
    let least = 8u32.wrapping_mul(pi);
    if pw < least { least } else { pw }
}

/// The edges of the "CS" saw inside one sample: at the pulse width the
/// output jumps from the notch to the ramp, at the wrap it drops from the top
/// to a fresh notch; each jump adds a scaled blep.
pub open spec fn csaw_edges(phase: u32, pw: u32, pi: u32, high: bool, sr: bool, depth: i16, fresh: i16, this: int, next: int) -> (bool, i16, int, int)
    decreases (if sr { 2int } else { 0int }) + (if high { 0int } else { 1int }),
{
    if !high && phase < pw {
        (high, depth, this, next)
    } else {
        let t1 = safe_div_spec((phase - pw) as u32, pi >> 16u32);
        let d1 = (phase >> 18u32) as int - depth as int;
        let this1 = if !high { this + scaled_blep(d1, this_blep_of(t1)) } else { this };
        let next1 = if !high { next + scaled_blep(d1, next_blep_of(t1)) } else { next };
        if !sr {
            (true, depth, this1, next1)
        } else {
            let t2 = safe_div_spec(phase, pi >> 16u32);
            let d2 = fresh as int - 16383;
            csaw_edges(phase, pw, pi, false, false, fresh, fresh, this1 + scaled_blep(d2, this_blep_of(t2)), next1 + scaled_blep(d2, next_blep_of(t2)))
        }
    }
}

/// One "CS" saw sample.
pub open spec fn csaw_step(s: BlepState, parameter: i16, aux: i16, sync: u8, pi: u32) -> (BlepState, i16, u8) {
    let pw = csaw_pw(parameter, pi);
    let fresh = csaw_depth(aux);
    let synced = sync != 0;
    let rt = reset_time_of(sync);
    let par = phase_at_reset(s.phase, rt, pi);
    let tdr = synced && (par < s.phase || (!s.high && par >= pw));
    let cut = synced && s.phase >= pw;
    let depth0 = if cut { fresh } else { s.depth };
    let d0 = fresh as int - (par >> 18u32) as int;
    let this0 = if cut { s.next + scaled_blep(d0, this_blep_of(rt)) } else { s.next };
    let next0 = if cut { scaled_blep(d0, next_blep_of(rt)) } else { 0 };
    let phase1 = s.phase.wrapping_add(pi);
    let sr = phase1 < pi;
    let (h, depth1, this1, next1) = if tdr || !synced {
        csaw_edges(phase1, pw, pi, s.high, sr, depth0, fresh, this0, next0)
    } else {
        (s.high, depth0, this0, next0)
    };
    let phase2 = if synced { rt.wrapping_mul(pi >> 16u32) } else { phase1 };
    (
        BlepState {
            phase: phase2,
            high: if synced { false } else { h },
            next: next1 + (if phase2 < pw { depth1 as int } else { (phase2 >> 18u32) as int }),
            depth: depth1,
        },
        blep_out(this1, 8192),
        sync_out_of(phase1, pi),
    )
}

/// The "CS" saw state after `k` samples.
pub open spec fn csaw_run(s: BlepState, parameter: i16, aux: i16, prev: u32, step: u32, sync: Seq<u8>, k: nat) -> BlepState
    decreases k,
{
    if k == 0 { s } else { csaw_step(csaw_run(s, parameter, aux, prev, step, sync, (k - 1) as nat), parameter, aux, sync[k - 1], ramp_at(prev, step, k)).0 }
}

/// Half a blep residual stays within 13 bits.
proof fn lemma_half_blep(tb: i32, nb: i32)
    requires
        0 <= tb <= 16383,
        -16383 <= nb <= 0,
    ensures
        0 <= tb >> 1i32 <= 8191,
        -8192 <= nb >> 1i32 <= 0,
{
    lemma_i32_shr(tb);
    lemma_i32_shr(nb);
}

/// A discontinuity of at most 49152 scaled by a blep residual stays within
/// 24576.
proof fn lemma_scaled_blep_bound(d: i32, b: i32)
    requires
        -49152 <= d <= 49152,
        -16383 <= b <= 16383,
    ensures
        -24576 <= d.wrapping_mul(b) >> 15i32 <= 24576,
{
    assert(-49152 * 16383 <= (d as int) * (b as int) <= 49152 * 16383) by (nonlinear_arith)
        requires -49152 <= d <= 49152, -16383 <= b <= 16383;
    lemma_i32_shr(d.wrapping_mul(b));
}

/// The scaled blep corrections of a sync discontinuity stay within 15 bits.
proof fn lemma_blep_products(d: i32, tb: i32, nb: i32)
    requires
        0 <= d <= 32767,
        0 <= tb <= 16383,
        -16383 <= nb <= 0,
    ensures
        0 <= d.wrapping_mul(tb) >> 15i32 <= 16383,
        -16383 <= d.wrapping_mul(nb) >> 15i32 <= 0,
{
    assert(0 <= (d as int) * (tb as int) <= 32767 * 16383) by (nonlinear_arith)
        requires 0 <= d <= 32767, 0 <= tb <= 16383;
    assert(-32767 * 16383 <= (d as int) * (nb as int) <= 0) by (nonlinear_arith)
        requires 0 <= d <= 32767, -16383 <= nb <= 0;
    lemma_i32_shr(d.wrapping_mul(tb));
    lemma_i32_shr(d.wrapping_mul(nb));
}

/// Whether a shape writes a sync output (the blep waveforms do).
pub open spec fn writes_sync(shape: AnalogOscillatorShape) -> bool {
    shape == AnalogOscillatorShape::Saw || shape == AnalogOscillatorShape::VariableSaw
        || shape == AnalogOscillatorShape::Csaw || shape == AnalogOscillatorShape::Square
}

/// Whether a shape interpolates its timbre parameter over the block.
pub open spec fn ramps_parameter(shape: AnalogOscillatorShape) -> bool {
    shape == AnalogOscillatorShape::TriangleFold || shape == AnalogOscillatorShape::SineFold
}

/// Sample `k` of a block of `size` samples rendered from the state `o`.
pub open spec fn block_sample(o: AnalogOscillator, sync: Seq<u8>, size: nat, k: nat) -> i16 {
    let prev = o.previous_increment();
    let step = ramp_step(prev, o.increment(), size as u32);
    let pi = ramp_at(prev, step, k + 1);
    let b = o.blep_state();
    let inc = (32767int / (size as i32 as int)) as i32;
    let delta = (o.parameter() - o.previous_parameter()) as i32;
    match o.shape() {
        AnalogOscillatorShape::Saw => saw_step(saw_run(b, prev, step, sync, k), sync[k as int], pi).1,
        AnalogOscillatorShape::VariableSaw => {
            let pw = vsaw_pw(o.parameter());
            vsaw_step(vsaw_run(b, pw, prev, step, sync, k), pw, sync[k as int], pi).1
        },
        AnalogOscillatorShape::Csaw =>
            csaw_step(csaw_run(b, o.parameter(), o.aux_parameter(), prev, step, sync, k), o.parameter(), o.aux_parameter(), sync[k as int], pi).1,
        AnalogOscillatorShape::Square => {
            let pw = square_pw(o.parameter());
            square_step(square_run(b, pw, prev, step, sync, k), pw, sync[k as int], pi).1
        },
        AnalogOscillatorShape::Triangle => tri_sample(o.phase(), prev, step, sync, k),
        AnalogOscillatorShape::Sine => sine_sample(o.phase(), prev, step, sync, k),
        AnalogOscillatorShape::TriangleFold => tri_fold_sample(o.phase(), prev, step, sync, o.previous_parameter() as i32, delta, inc, k),
        AnalogOscillatorShape::SineFold => sine_fold_sample(o.phase(), prev, step, sync, o.previous_parameter() as i32, delta, inc, k),
        AnalogOscillatorShape::Buzz => {
            let (z1, z2, xf) = buzz_zones(o.pitch(), o.parameter());
            crossfade_spec(comb_table(z1), comb_table(z2), buzz_phase(o.phase(), o.increment(), sync, k + 1), xf)
        },
    }
}

/// Sync output `k` of a block rendered from `o` by a blep waveform.
pub open spec fn block_sync(o: AnalogOscillator, sync: Seq<u8>, size: nat, k: nat) -> u8 {
    let prev = o.previous_increment();
    let step = ramp_step(prev, o.increment(), size as u32);
    let pi = ramp_at(prev, step, k + 1);
    let b = o.blep_state();
    match o.shape() {
        AnalogOscillatorShape::Saw => saw_step(saw_run(b, prev, step, sync, k), sync[k as int], pi).2,
        AnalogOscillatorShape::VariableSaw => {
            let pw = vsaw_pw(o.parameter());
            vsaw_step(vsaw_run(b, pw, prev, step, sync, k), pw, sync[k as int], pi).2
        },
        AnalogOscillatorShape::Csaw =>
            csaw_step(csaw_run(b, o.parameter(), o.aux_parameter(), prev, step, sync, k), o.parameter(), o.aux_parameter(), sync[k as int], pi).2,
        AnalogOscillatorShape::Square => {
            let pw = square_pw(o.parameter());
            square_step(square_run(b, pw, prev, step, sync, k), pw, sync[k as int], pi).2
        },
        _ => 0,
    }
}

/// The state after a block of `size` samples rendered from `o`.
pub open spec fn block_end(o: AnalogOscillator, sync: Seq<u8>, size: nat) -> AnalogOscillator {
    let prev = o.previous_increment();
    let step = ramp_step(prev, o.increment(), size as u32);
    let last = ramp_at(prev, step, size);
    let b = o.blep_state();
    match o.shape() {
        AnalogOscillatorShape::Saw => o.with_blep(saw_run(b, prev, step, sync, size), last),
        AnalogOscillatorShape::VariableSaw => o.with_blep(vsaw_run(b, vsaw_pw(o.parameter()), prev, step, sync, size), last),
        AnalogOscillatorShape::Csaw => o.with_blep(csaw_run(b, o.parameter(), o.aux_parameter(), prev, step, sync, size), last),
        AnalogOscillatorShape::Square => o.with_blep(square_run(b, square_pw(o.parameter()), prev, step, sync, size), last),
        AnalogOscillatorShape::Triangle => o.with_blep(BlepState { phase: tri_phase(o.phase(), prev, step, sync, size), ..b }, last),
        AnalogOscillatorShape::Sine => o.with_blep(BlepState { phase: sine_phase(o.phase(), prev, step, sync, size), ..b }, last),
        AnalogOscillatorShape::TriangleFold | AnalogOscillatorShape::SineFold =>
            o.with_blep(BlepState { phase: fold_phase(o.phase(), prev, step, sync, size), ..b }, last).with_previous_parameter(o.parameter()),
        AnalogOscillatorShape::Buzz => o.with_phase(buzz_phase(o.phase(), o.increment(), sync, size)),
    }
}

pub struct AnalogOscillator {
    phase: u32,
    phase_increment: u32,
    previous_phase_increment: u32,
    high: bool,
    parameter: i16,
    previous_parameter: i16,
    aux_parameter: i16,
    discontinuity_depth: i16,
    pitch: i16,
    next_sample: i32,
    shape: AnalogOscillatorShape,
    previous_shape: AnalogOscillatorShape,
}

impl AnalogOscillator {
    pub closed spec fn phase(self) -> u32 { self.phase }
    pub closed spec fn increment(self) -> u32 { self.phase_increment }
    pub closed spec fn previous_increment(self) -> u32 { self.previous_phase_increment }
    pub closed spec fn high(self) -> bool { self.high }
    pub closed spec fn parameter(self) -> i16 { self.parameter }
    pub closed spec fn previous_parameter(self) -> i16 { self.previous_parameter }
    pub closed spec fn aux_parameter(self) -> i16 { self.aux_parameter }
    pub closed spec fn discontinuity_depth(self) -> i16 { self.discontinuity_depth }
    pub closed spec fn pitch(self) -> i16 { self.pitch }
    pub closed spec fn next_sample(self) -> i32 { self.next_sample }
    pub closed spec fn shape(self) -> AnalogOscillatorShape { self.shape }
    pub closed spec fn previous_shape(self) -> AnalogOscillatorShape { self.previous_shape }

    /// This oscillator with another shape.
    pub closed spec fn with_shape(self, shape: AnalogOscillatorShape) -> Self { AnalogOscillator { shape, ..self } }
    /// This oscillator with another pitch.
    pub closed spec fn with_pitch(self, pitch: i16) -> Self { AnalogOscillator { pitch, ..self } }
    /// This oscillator with another timbre parameter.
    pub closed spec fn with_parameter(self, parameter: i16) -> Self { AnalogOscillator { parameter, ..self } }
    /// This oscillator with another auxiliary parameter.
    pub closed spec fn with_aux_parameter(self, aux_parameter: i16) -> Self { AnalogOscillator { aux_parameter, ..self } }
    /// This oscillator with another phase.
    pub closed spec fn with_phase(self, phase: u32) -> Self { AnalogOscillator { phase, ..self } }
    /// This oscillator with another previous timbre parameter.
    pub closed spec fn with_previous_parameter(self, previous_parameter: i16) -> Self { AnalogOscillator { previous_parameter, ..self } }

    /// The square keeps its timbre parameter at most 32000 and the variable
    /// saw keeps it at least 1024.
    pub closed spec fn clamped(self) -> Self {
        match self.shape {
            AnalogOscillatorShape::Square => if self.parameter > 32000 { AnalogOscillator { parameter: 32000, ..self } } else { self },
            AnalogOscillatorShape::VariableSaw => if self.parameter < 1024 { AnalogOscillator { parameter: 1024, ..self } } else { self },
            _ => self,
        }
    }

    /// The state a block is rendered from: a new shape restarts the
    /// oscillator (as `init` does) and is remembered; the increment is looked
    /// up for the pitch; the pitch is then clamped to `0..=16384`; the shape's
    /// timbre parameter is clamped.
    pub closed spec fn prepared(self) -> Self {
        let a = if self.shape != self.previous_shape {
            AnalogOscillator {
                phase: 0,
                phase_increment: 1,
                high: false,
                parameter: 0,
                previous_parameter: 0,
                aux_parameter: 0,
                discontinuity_depth: -16383i16,
                pitch: 7680,
                next_sample: 0,
                previous_shape: self.shape,
                ..self
            }
        } else {
            self
        };
        AnalogOscillator {
            phase_increment: phase_increment_of(a.pitch as int),
            pitch: if a.pitch > 16384 { 16384 } else if a.pitch < 0 { 0 } else { a.pitch },
            ..a
        }.clamped()
    }

    /// This oscillator with another blep state and previous increment.
    pub closed spec fn with_blep(self, b: BlepState, previous_increment: u32) -> Self {
        AnalogOscillator {
            phase: b.phase,
            high: b.high,
            next_sample: b.next as i32,
            discontinuity_depth: b.depth,
            previous_phase_increment: previous_increment,
            ..self
        }
    }

    /// A new blep state and previous increment replace the phase, the edge
    /// state, the carried sample, the discontinuity depth and the previous
    /// increment; the increment, pitch, parameters and shapes are kept.
    pub proof fn lemma_with_blep(self, b: BlepState, previous_increment: u32)
        ensures
            ({
                let r = self.with_blep(b, previous_increment);
                &&& r.phase() == b.phase
                &&& r.high() == b.high
                &&& r.next_sample() == b.next as i32
                &&& r.discontinuity_depth() == b.depth
                &&& r.previous_increment() == previous_increment
                &&& r.increment() == self.increment()
                &&& r.pitch() == self.pitch()
                &&& r.parameter() == self.parameter()
                &&& r.previous_parameter() == self.previous_parameter()
                &&& r.aux_parameter() == self.aux_parameter()
                &&& r.shape() == self.shape()
                &&& r.previous_shape() == self.previous_shape()
            }),
    {
    }

    /// A block keeps the increment, the pitch, the parameter, the auxiliary
    /// parameter and both shapes it started with.
    pub proof fn lemma_block_end_keeps(self, sync: Seq<u8>, size: nat)
        ensures
            ({
                let r = block_end(self, sync, size);
                &&& r.increment() == self.increment()
                &&& r.pitch() == self.pitch()
                &&& r.parameter() == self.parameter()
                &&& r.aux_parameter() == self.aux_parameter()
                &&& r.shape() == self.shape()
                &&& r.previous_shape() == self.previous_shape()
            }),
    {
    }

    /// The sample carried into the next block stays small.
    #[verifier::type_invariant]
    spec fn wf(self) -> bool {
        -0x40000 <= self.next_sample <= 0x40000
    }

    /// This oscillator as `init` leaves it.
    pub closed spec fn initialized(self) -> Self {
        AnalogOscillator {
            phase: 0,
            phase_increment: 1,
            high: false,
            parameter: 0,
            previous_parameter: 0,
            aux_parameter: 0,
            discontinuity_depth: -16383i16,
            pitch: 7680,
            next_sample: 0,
            ..self
        }
    }

    /// The settings `init` restores.
    pub open spec fn is_reset(self) -> bool {
        &&& self.phase() == 0
        &&& self.increment() == 1
        &&& !self.high()
        &&& self.parameter() == 0
        &&& self.previous_parameter() == 0
        &&& self.aux_parameter() == 0
        &&& self.discontinuity_depth() == -16383
        &&& self.pitch() == 60 * 128
        &&& self.next_sample() == 0
    }

    /// A saw oscillator at middle C, phase 0.
    pub fn new() -> (r: Self)
        ensures
            r.is_reset(),
            r.previous_increment() == 0,
            r.shape() == AnalogOscillatorShape::Saw,
            r.previous_shape() == AnalogOscillatorShape::Saw,
    {
        AnalogOscillator {
            phase: 0,
            phase_increment: 1,
            previous_phase_increment: 0,
            high: false,
            parameter: 0,
            previous_parameter: 0,
            aux_parameter: 0,
            discontinuity_depth: -16383,
            pitch: 7680,
            next_sample: 0,
            shape: AnalogOscillatorShape::Saw,
            previous_shape: AnalogOscillatorShape::Saw,
        }
    }

    /// Resets phase, parameters and pitch (the shapes and the previous
    /// increment are kept).
    pub fn init(&mut self)
        ensures
            *final(self) == old(self).initialized(),
            final(self).is_reset(),
            final(self).previous_increment() == old(self).previous_increment(),
            final(self).shape() == old(self).shape(),
            final(self).previous_shape() == old(self).previous_shape(),
    {
        proof { use_type_invariant(&*self); }
        self.phase = 0;
        self.phase_increment = 1;
        self.high = false;
        self.parameter = 0;
        self.previous_parameter = 0;
        self.aux_parameter = 0;
        self.discontinuity_depth = -16383;
        self.pitch = 7680;
        self.next_sample = 0;
    }

    /// Selects the waveform used by the next `render`.
    pub fn set_shape(&mut self, shape: AnalogOscillatorShape)
        ensures
            *final(self) == old(self).with_shape(shape),
            final(self).shape() == shape,
    {
        proof { use_type_invariant(&*self); }
        self.shape = shape;
    }

    /// Sets the pitch (MIDI note times 128).
    pub fn set_pitch(&mut self, pitch: i16)
        ensures
            *final(self) == old(self).with_pitch(pitch),
            final(self).shape() == old(self).shape(),
    {
        proof { use_type_invariant(&*self); }
        self.pitch = pitch;
    }

    /// Sets the timbre parameter.
    pub fn set_parameter(&mut self, parameter: i16)
        ensures
            *final(self) == old(self).with_parameter(parameter),
            final(self).shape() == old(self).shape(),
    {
        proof { use_type_invariant(&*self); }
        self.parameter = parameter;
    }

    /// Sets the auxiliary parameter (the "CS" saw's notch depth).
    pub fn set_aux_parameter(&mut self, parameter: i16)
        ensures
            *final(self) == old(self).with_aux_parameter(parameter),
            final(self).shape() == old(self).shape(),
    {
        proof { use_type_invariant(&*self); }
        self.aux_parameter = parameter;
    }

    /// The phase increment computed by the last `render`.
    pub fn phase_increment(&self) -> (r: u32)
        ensures
            r == self.increment(),
    {
        self.phase_increment
    }

    /// Moves the phase one increment before the cycle start, so that the next
    /// sample starts a new cycle.
    pub fn reset(&mut self)
        ensures
            *final(self) == old(self).with_phase(0u32.wrapping_sub(old(self).increment())),
    {
        proof { use_type_invariant(&*self); }
        self.phase = 0u32.wrapping_sub(self.phase_increment);
    }

    fn render_triangle(&mut self, sync_in: &[u8], buffer: &mut [i16], size: usize)
        requires
            size as u32 != 0,
            size <= sync_in@.len(),
            size <= old(buffer)@.len(),
        ensures
            final(buffer)@.len() == old(buffer)@.len(),
            ({
                let step = ramp_step(old(self).previous_increment(), old(self).increment(), size as u32);
                let prev = old(self).previous_increment();
                &&& forall|k: int| 0 <= k < size ==> #[trigger] final(buffer)@[k]
                    == tri_sample(old(self).phase(), prev, step, sync_in@, k as nat)
                &&& forall|k: int| size <= k < old(buffer)@.len() ==> #[trigger] final(buffer)@[k] == old(buffer)@[k]
                &&& *final(self) == (AnalogOscillator {
                    phase: tri_phase(old(self).phase(), prev, step, sync_in@, size as nat),
                    previous_phase_increment: ramp_at(prev, step, size as nat),
                    ..*old(self)
                })
            }),
    {
        proof { use_type_invariant(&*self); }
        let ghost s0 = *self;
        let ghost step = ramp_step(self.previous_phase_increment, self.phase_increment, size as u32);
        let mut ramp = PhaseIncrementRamp::new(self.previous_phase_increment, self.phase_increment, size);
        let mut phase = self.phase;
        let mut i: usize = 0;
        while i < size
            invariant
                i <= size,
                size <= sync_in@.len(),
                buffer@.len() == old(buffer)@.len(),
                size <= buffer@.len(),
                ramp.current() == ramp_at(s0.previous_phase_increment, step, i as nat),
                ramp.increment() == step,
                phase == tri_phase(s0.phase, s0.previous_phase_increment, step, sync_in@, i as nat),
                forall|k: int| 0 <= k < i ==> #[trigger] buffer@[k]
                    == tri_sample(s0.phase, s0.previous_phase_increment, step, sync_in@, k as nat),
                forall|k: int| size <= k < buffer@.len() ==> #[trigger] buffer@[k] == old(buffer)@[k],
            decreases size - i,
        {
            let phase_increment = ramp.next();
            if sync_in[i] != 0 {
                phase = 0;
            }
            phase = phase.wrapping_add(phase_increment >> 1);
            let a = triangle_from_phase(phase) >> 1;
            phase = phase.wrapping_add(phase_increment >> 1);
            let b = triangle_from_phase(phase) >> 1;
            buffer[i] = a.wrapping_add(b);
            i += 1;
        }
        self.phase = phase;
        self.previous_phase_increment = ramp.value();
    }
    fn render_sine(&mut self, sync_in: &[u8], buffer: &mut [i16], size: usize)
        requires
            size as u32 != 0,
            size <= sync_in@.len(),
            size <= old(buffer)@.len(),
        ensures
            final(buffer)@.len() == old(buffer)@.len(),
            ({
                let step = ramp_step(old(self).previous_increment(), old(self).increment(), size as u32);
                let prev = old(self).previous_increment();
                &&& forall|k: int| 0 <= k < size ==> #[trigger] final(buffer)@[k]
                    == sine_sample(old(self).phase(), prev, step, sync_in@, k as nat)
                &&& forall|k: int| size <= k < old(buffer)@.len() ==> #[trigger] final(buffer)@[k] == old(buffer)@[k]
                &&& *final(self) == (AnalogOscillator {
                    phase: sine_phase(old(self).phase(), prev, step, sync_in@, size as nat),
                    previous_phase_increment: ramp_at(prev, step, size as nat),
                    ..*old(self)
                })
            }),
    {
        proof { use_type_invariant(&*self); }
        let ghost s0 = *self;
        let ghost step = ramp_step(self.previous_phase_increment, self.phase_increment, size as u32);
        let mut ramp = PhaseIncrementRamp::new(self.previous_phase_increment, self.phase_increment, size);
        let mut phase = self.phase;
        let mut i: usize = 0;
        while i < size
            invariant
                i <= size,
                size <= sync_in@.len(),
                buffer@.len() == old(buffer)@.len(),
                size <= buffer@.len(),
                ramp.current() == ramp_at(s0.previous_phase_increment, step, i as nat),
                ramp.increment() == step,
                phase == sine_phase(s0.phase, s0.previous_phase_increment, step, sync_in@, i as nat),
                forall|k: int| 0 <= k < i ==> #[trigger] buffer@[k]
                    == sine_sample(s0.phase, s0.previous_phase_increment, step, sync_in@, k as nat),
                forall|k: int| size <= k < buffer@.len() ==> #[trigger] buffer@[k] == old(buffer)@[k],
            decreases size - i,
        {
            let phase_increment = ramp.next();
            phase = phase.wrapping_add(phase_increment);
            if sync_in[i] != 0 {
                phase = 0;
            }
            buffer[i] = interpolate_824_i16(&WAV_SINE, phase);
            i += 1;
        }
        self.phase = phase;
        self.previous_phase_increment = ramp.value();
    }

    fn render_triangle_fold(&mut self, sync_in: &[u8], buffer: &mut [i16], size: usize)
        requires
            size as u32 != 0,
            size <= sync_in@.len(),
            size <= old(buffer)@.len(),
            size <= i32::MAX,
        ensures
            final(buffer)@.len() == old(buffer)@.len(),
            ({
                let step = ramp_step(old(self).previous_increment(), old(self).increment(), size as u32);
                let prev = old(self).previous_increment();
                &&& forall|k: int| 0 <= k < size ==> #[trigger] final(buffer)@[k]
                    == tri_fold_sample(old(self).phase(), prev, step, sync_in@, old(self).previous_parameter() as i32, (old(self).parameter() - old(self).previous_parameter()) as i32, (32767int / (size as i32 as int)) as i32, k as nat)
                &&& forall|k: int| size <= k < old(buffer)@.len() ==> #[trigger] final(buffer)@[k] == old(buffer)@[k]
                &&& *final(self) == (AnalogOscillator {
                    phase: fold_phase(old(self).phase(), prev, step, sync_in@, size as nat),
                    previous_parameter: old(self).parameter(),
                    previous_phase_increment: ramp_at(prev, step, size as nat),
                    ..*old(self)
                })
            }),
    {
        proof { use_type_invariant(&*self); }
        let ghost s0 = *self;
        let ghost step = ramp_step(self.previous_phase_increment, self.phase_increment, size as u32);
        let mut ramp = PhaseIncrementRamp::new(self.previous_phase_increment, self.phase_increment, size);
        let mut p_ramp = ParamRamp::new(self.previous_parameter as i32, self.parameter as i32, size);
        let mut phase = self.phase;
        let mut i: usize = 0;
        while i < size
            invariant
                i <= size,
                size <= sync_in@.len(),
                buffer@.len() == old(buffer)@.len(),
                size <= buffer@.len(),
                ramp.current() == ramp_at(s0.previous_phase_increment, step, i as nat),
                ramp.increment() == step,
                p_ramp.start() == s0.previous_parameter as i32,
                p_ramp.delta() == (s0.parameter - s0.previous_parameter) as i32,
                p_ramp.increment() == 32767int / (size as i32 as int),
                p_ramp.xfade() == i * p_ramp.increment(),
                size <= i32::MAX,
                self.parameter == s0.parameter,
                self.previous_parameter == s0.previous_parameter,
                phase == fold_phase(s0.phase, s0.previous_phase_increment, step, sync_in@, i as nat),
                forall|k: int| 0 <= k < i ==> #[trigger] buffer@[k]
                    == tri_fold_sample(s0.phase, s0.previous_phase_increment, step, sync_in@, s0.previous_parameter as i32, (s0.parameter - s0.previous_parameter) as i32, (32767int / (size as i32 as int)) as i32, k as nat),
                forall|k: int| size <= k < buffer@.len() ==> #[trigger] buffer@[k] == old(buffer)@[k],
            decreases size - i,
        {
            proof {
                lemma_xfade_bound(i as int + 1, size as int, p_ramp.increment() as int);
                let inc = p_ramp.increment() as int;
                assert(i * inc + inc == (i + 1) * inc) by (nonlinear_arith);
                lemma_param_ramp_value(p_ramp.delta(), (p_ramp.xfade() + p_ramp.increment()) as i32);
            }
            let parameter = p_ramp.next();
            proof {
                lemma_i32_shr(parameter.wrapping_mul(30720));
            }
            let phase_increment = ramp.next();
            let gain = (2048 + (parameter.wrapping_mul(30720) >> 15)) as i16;
            if sync_in[i] != 0 {
                phase = 0;
            }
            phase = phase.wrapping_add(phase_increment >> 1);
            let a = fold(&WS_TRI_FOLD, triangle_from_phase(phase), gain) >> 1;
            phase = phase.wrapping_add(phase_increment >> 1);
            let b = fold(&WS_TRI_FOLD, triangle_from_phase(phase), gain) >> 1;
            buffer[i] = a.wrapping_add(b);
            i += 1;
        }
        self.phase = phase;
        self.previous_parameter = self.parameter;
        self.previous_phase_increment = ramp.value();
    }

    fn render_sine_fold(&mut self, sync_in: &[u8], buffer: &mut [i16], size: usize)
        requires
            size as u32 != 0,
            size <= sync_in@.len(),
            size <= old(buffer)@.len(),
            size <= i32::MAX,
        ensures
            final(buffer)@.len() == old(buffer)@.len(),
            ({
                let step = ramp_step(old(self).previous_increment(), old(self).increment(), size as u32);
                let prev = old(self).previous_increment();
                &&& forall|k: int| 0 <= k < size ==> #[trigger] final(buffer)@[k]
                    == sine_fold_sample(old(self).phase(), prev, step, sync_in@, old(self).previous_parameter() as i32, (old(self).parameter() - old(self).previous_parameter()) as i32, (32767int / (size as i32 as int)) as i32, k as nat)
                &&& forall|k: int| size <= k < old(buffer)@.len() ==> #[trigger] final(buffer)@[k] == old(buffer)@[k]
                &&& *final(self) == (AnalogOscillator {
                    phase: fold_phase(old(self).phase(), prev, step, sync_in@, size as nat),
                    previous_parameter: old(self).parameter(),
                    previous_phase_increment: ramp_at(prev, step, size as nat),
                    ..*old(self)
                })
            }),
    {
        proof { use_type_invariant(&*self); }
        let ghost s0 = *self;
        let ghost step = ramp_step(self.previous_phase_increment, self.phase_increment, size as u32);
        let mut ramp = PhaseIncrementRamp::new(self.previous_phase_increment, self.phase_increment, size);
        let mut p_ramp = ParamRamp::new(self.previous_parameter as i32, self.parameter as i32, size);
        let mut phase = self.phase;
        let mut i: usize = 0;
        while i < size
            invariant
                i <= size,
                size <= sync_in@.len(),
                buffer@.len() == old(buffer)@.len(),
                size <= buffer@.len(),
                ramp.current() == ramp_at(s0.previous_phase_increment, step, i as nat),
                ramp.increment() == step,
                p_ramp.start() == s0.previous_parameter as i32,
                p_ramp.delta() == (s0.parameter - s0.previous_parameter) as i32,
                p_ramp.increment() == 32767int / (size as i32 as int),
                p_ramp.xfade() == i * p_ramp.increment(),
                size <= i32::MAX,
                self.parameter == s0.parameter,
                self.previous_parameter == s0.previous_parameter,
                phase == fold_phase(s0.phase, s0.previous_phase_increment, step, sync_in@, i as nat),
                forall|k: int| 0 <= k < i ==> #[trigger] buffer@[k]
                    == sine_fold_sample(s0.phase, s0.previous_phase_increment, step, sync_in@, s0.previous_parameter as i32, (s0.parameter - s0.previous_parameter) as i32, (32767int / (size as i32 as int)) as i32, k as nat),
                forall|k: int| size <= k < buffer@.len() ==> #[trigger] buffer@[k] == old(buffer)@[k],
            decreases size - i,
        {
            proof {
                lemma_xfade_bound(i as int + 1, size as int, p_ramp.increment() as int);
                let inc = p_ramp.increment() as int;
                assert(i * inc + inc == (i + 1) * inc) by (nonlinear_arith);
                lemma_param_ramp_value(p_ramp.delta(), (p_ramp.xfade() + p_ramp.increment()) as i32);
            }
            let parameter = p_ramp.next();
            proof {
                lemma_i32_shr(parameter.wrapping_mul(30720));
            }
            let phase_increment = ramp.next();
            let gain = (2048 + (parameter.wrapping_mul(30720) >> 15)) as i16;
            if sync_in[i] != 0 {
                phase = 0;
            }
            phase = phase.wrapping_add(phase_increment >> 1);
            let a = fold(&WS_SINE_FOLD, interpolate_824_i16(&WAV_SINE, phase), gain) >> 1;
            phase = phase.wrapping_add(phase_increment >> 1);
            let b = fold(&WS_SINE_FOLD, interpolate_824_i16(&WAV_SINE, phase), gain) >> 1;
            buffer[i] = a.wrapping_add(b);
            i += 1;
        }
        self.phase = phase;
        self.previous_parameter = self.parameter;
        self.previous_phase_increment = ramp.value();
    }

    fn render_buzz(&mut self, sync_in: &[u8], buffer: &mut [i16], size: usize)
        requires
            size <= sync_in@.len(),
            size <= old(buffer)@.len(),
            0 <= old(self).pitch(),
            old(self).parameter() <= 32767,
        ensures
            final(buffer)@.len() == old(buffer)@.len(),
            ({
                let (z1, z2, xf) = buzz_zones(old(self).pitch(), old(self).parameter());
                &&& forall|k: int| 0 <= k < size ==> #[trigger] final(buffer)@[k] == crossfade_spec(
                    comb_table(z1), comb_table(z2),
                    buzz_phase(old(self).phase(), old(self).increment(), sync_in@, (k + 1) as nat), xf)
                &&& forall|k: int| size <= k < old(buffer)@.len() ==> #[trigger] final(buffer)@[k] == old(buffer)@[k]
                &&& *final(self) == old(self).with_phase(buzz_phase(old(self).phase(), old(self).increment(), sync_in@, size as nat))
            }),
    {
        proof { use_type_invariant(&*self); }
        let ghost s0 = *self;
        proof {
            lemma_i32_shr((32767 - self.parameter as i32) as i32);
        }
        let shifted_pitch = self.pitch as i32 + ((32767 - self.parameter as i32) >> 1);
        proof {
            lemma_i32_shr(shifted_pitch);
            lemma_i32_shl(shifted_pitch);
        }
        let crossfade_amt = (shifted_pitch << 6) as u16;
        let mut index = (shifted_pitch >> 10) as usize;
        if index >= NUM_ZONES {
            index = NUM_ZONES - 1;
        }
        let wave_1 = comb_wave(index);
        index += 1;
        if index >= NUM_ZONES {
            index = NUM_ZONES - 1;
        }
        let wave_2 = comb_wave(index);
        let mut i: usize = 0;
        while i < size
            invariant
                i <= size,
                size <= sync_in@.len(),
                buffer@.len() == old(buffer)@.len(),
                size <= buffer@.len(),
                self.phase == buzz_phase(s0.phase, s0.phase_increment, sync_in@, i as nat),
                *self == s0.with_phase(self.phase),
                -0x40000 <= self.next_sample <= 0x40000,
                ({
                    let (z1, z2, xf) = buzz_zones(s0.pitch, s0.parameter);
                    &&& wave_1@ == comb_table(z1)
                    &&& wave_2@ == comb_table(z2)
                    &&& crossfade_amt == xf
                }),
                forall|k: int| 0 <= k < i ==> #[trigger] buffer@[k] == crossfade_spec(
                    wave_1@, wave_2@, buzz_phase(s0.phase, s0.phase_increment, sync_in@, (k + 1) as nat), crossfade_amt),
                forall|k: int| size <= k < buffer@.len() ==> #[trigger] buffer@[k] == old(buffer)@[k],
            decreases size - i,
        {
            self.phase = self.phase.wrapping_add(self.phase_increment);
            if sync_in[i] != 0 {
                self.phase = 0;
            }
            buffer[i] = crossfade(wave_1, wave_2, self.phase, crossfade_amt);
            i += 1;
        }
    }

    /// The blep state of this oscillator.
    pub closed spec fn blep_state(self) -> BlepState {
        BlepState { phase: self.phase, high: self.high, next: self.next_sample as int, depth: self.discontinuity_depth }
    }

    fn render_saw(&mut self, sync_in: &[u8], buffer: &mut [i16], sync_out: &mut [u8], write_sync: bool, size: usize)
        requires
            size as u32 != 0,
            size <= sync_in@.len(),
            size <= old(buffer)@.len(),
            write_sync ==> size <= old(sync_out)@.len(),
        ensures
            final(buffer)@.len() == old(buffer)@.len(),
            final(sync_out)@.len() == old(sync_out)@.len(),
            ({
                let prev = old(self).previous_increment();
                let step = ramp_step(prev, old(self).increment(), size as u32);
                let s0 = old(self).blep_state();
                let run = |k: nat| saw_run(s0, prev, step, sync_in@, k);
                &&& forall|k: int| 0 <= k < size ==> #[trigger] final(buffer)@[k]
                    == saw_step(run(k as nat), sync_in@[k], ramp_at(prev, step, (k + 1) as nat)).1
                &&& forall|k: int| size <= k < old(buffer)@.len() ==> #[trigger] final(buffer)@[k] == old(buffer)@[k]
                &&& write_sync ==> forall|k: int| 0 <= k < size ==> #[trigger] final(sync_out)@[k]
                    == saw_step(run(k as nat), sync_in@[k], ramp_at(prev, step, (k + 1) as nat)).2
                &&& !write_sync ==> final(sync_out)@ == old(sync_out)@
                &&& write_sync ==> forall|k: int| size <= k < old(sync_out)@.len() ==> #[trigger] final(sync_out)@[k] == old(sync_out)@[k]
                &&& final(self).blep_state() == run(size as nat)
                &&& final(self).previous_increment() == ramp_at(prev, step, size as nat)
                &&& *final(self) == old(self).with_blep(final(self).blep_state(), final(self).previous_increment())
            }),
    {
        proof { use_type_invariant(&*self); }
        let ghost s0 = *self;
        let ghost b0 = self.blep_state();
        let ghost prev = self.previous_phase_increment;
        let ghost step = ramp_step(self.previous_phase_increment, self.phase_increment, size as u32);
        let mut ramp = PhaseIncrementRamp::new(self.previous_phase_increment, self.phase_increment, size);
        let mut next_sample = self.next_sample;
        let mut i: usize = 0;
        while i < size
            invariant
                i <= size,
                size <= sync_in@.len(),
                buffer@.len() == old(buffer)@.len(),
                sync_out@.len() == old(sync_out)@.len(),
                size <= buffer@.len(),
                write_sync ==> size <= sync_out@.len(),
                ramp.current() == ramp_at(prev, step, i as nat),
                ramp.increment() == step,
                -0x40000 <= next_sample <= 0x40000,
                -0x40000 <= self.next_sample <= 0x40000,
                (BlepState { phase: self.phase, high: self.high, next: next_sample as int, depth: self.discontinuity_depth })
                    == saw_run(b0, prev, step, sync_in@, i as nat),
                *self == s0.with_blep(BlepState { phase: self.phase, high: self.high, next: s0.next_sample as int, depth: self.discontinuity_depth }, s0.previous_phase_increment),
                forall|k: int| 0 <= k < i ==> #[trigger] buffer@[k]
                    == saw_step(saw_run(b0, prev, step, sync_in@, k as nat), sync_in@[k], ramp_at(prev, step, (k + 1) as nat)).1,
                forall|k: int| size <= k < buffer@.len() ==> #[trigger] buffer@[k] == old(buffer)@[k],
                write_sync ==> forall|k: int| 0 <= k < i ==> #[trigger] sync_out@[k]
                    == saw_step(saw_run(b0, prev, step, sync_in@, k as nat), sync_in@[k], ramp_at(prev, step, (k + 1) as nat)).2,
                !write_sync ==> sync_out@ == old(sync_out)@,
                write_sync ==> forall|k: int| size <= k < sync_out@.len() ==> #[trigger] sync_out@[k] == old(sync_out)@[k],
            decreases size - i,
        {
            let phase_increment = ramp.next();
            let mut sync_reset = false;
            let mut self_reset = false;
            let mut transition_during_reset = false;
            let mut reset_time: u32 = 0;
            let mut this_sample = next_sample;
            next_sample = 0;
            let sync = sync_in[i];
            if sync != 0 {
                reset_time = ((sync - 1) as u32) << 9;
                let phase_at_reset = self.phase.wrapping_add(65535u32.wrapping_sub(reset_time).wrapping_mul(phase_increment >> 16));
                sync_reset = true;
                if phase_at_reset < self.phase {
                    transition_during_reset = true;
                }
                proof {
                    lemma_u32_shr(phase_at_reset);
                }
                let discontinuity = (phase_at_reset >> 17) as i32;
                let tb = this_blep_sample(reset_time);
                let nb = next_blep_sample(reset_time);
                proof {
                    lemma_blep_products(discontinuity, tb, nb);
                }
                this_sample -= discontinuity.wrapping_mul(tb) >> 15;
                next_sample -= discontinuity.wrapping_mul(nb) >> 15;
            }
            self.phase = self.phase.wrapping_add(phase_increment);
            if self.phase < phase_increment {
                self_reset = true;
            }
            if write_sync {
                let so = if self.phase < phase_increment {
                    (safe_div(self.phase, phase_increment >> 7) + 1) as u8
                } else {
                    0
                };
                sync_out[i] = so;
            }
            if (transition_during_reset || !sync_reset) && self_reset {
                let t = safe_div(self.phase, phase_increment >> 16);
                this_sample -= this_blep_sample(t);
                next_sample -= next_blep_sample(t);
            }
            if sync_reset {
                self.phase = reset_time.wrapping_mul(phase_increment >> 16);
                self.high = false;
            }
            proof {
                lemma_u32_shr(self.phase);
            }
            next_sample += (self.phase >> 17) as i32;
            buffer[i] = (this_sample - 16384).wrapping_mul(2) as i16;
            i += 1;
        }
        self.next_sample = next_sample;
        self.previous_phase_increment = ramp.value();
    }

    /// One square sample from the carried correction `next_in`: returns the
    /// output sample, the sync output and the correction for the next sample.
    fn square_sample(&mut self, pw: u32, sync: u8, pi: u32, next_in: i32) -> (r: (i16, u8, i32))
        requires
            -0x40000 <= next_in <= 0x40000,
        ensures
            ({
                let s = BlepState { phase: old(self).phase(), high: old(self).high(), next: next_in as int, depth: old(self).discontinuity_depth() };
                let st = square_step(s, pw, sync, pi);
                &&& r.0 == st.1
                &&& r.1 == st.2
                &&& r.2 as int == st.0.next
                &&& st.0.depth == s.depth
                &&& -0x40000 <= r.2 <= 0x40000
                &&& *final(self) == old(self).with_blep(BlepState { phase: st.0.phase, high: st.0.high, next: old(self).next_sample() as int, depth: old(self).discontinuity_depth() }, old(self).previous_increment())
            }),
    {
        proof { use_type_invariant(&*self); }
        let ghost s0 = *self;
        let mut sync_reset = false;
        let mut self_reset = false;
        let mut transition_during_reset = false;
        let mut reset_time: u32 = 0;
        let mut this_sample = next_in;
        let mut next_sample: i32 = 0;
        if sync != 0 {
            reset_time = ((sync - 1) as u32) << 9;
            let phase_at_reset = self.phase.wrapping_add(65535u32.wrapping_sub(reset_time).wrapping_mul(pi >> 16));
            sync_reset = true;
            if phase_at_reset < self.phase || (!self.high && phase_at_reset >= pw) {
                transition_during_reset = true;
            }
            if phase_at_reset >= pw {
                this_sample -= this_blep_sample(reset_time);
                next_sample -= next_blep_sample(reset_time);
            }
        }
        self.phase = self.phase.wrapping_add(pi);
        if self.phase < pi {
            self_reset = true;
        }
        let so = if self.phase < pi { (safe_div(self.phase, pi >> 7) + 1) as u8 } else { 0 };
        let ghost this_start = this_sample as int;
        let ghost next_start = next_sample as int;
        let ghost cond = transition_during_reset || !sync_reset;
        let ghost phase1 = self.phase;
        let ghost target = if cond {
            square_edges(self.phase, pw, pi, self.high, self_reset, this_sample as int, next_sample as int)
        } else {
            (self.high, this_sample as int, next_sample as int)
        };
        while transition_during_reset || !sync_reset
            invariant_except_break
                cond ==> square_edges(self.phase, pw, pi, self.high, self_reset, this_sample as int, next_sample as int) == target,
                !cond ==> (self.high, this_sample as int, next_sample as int) == target,
            invariant
                this_sample - this_start <= 16383 * (3 - ((if self_reset { 2int } else { 0int }) + (if self.high { 0int } else { 1int }))),
                this_start - this_sample <= 16383 * (3 - ((if self_reset { 2int } else { 0int }) + (if self.high { 0int } else { 1int }))),
                next_sample - next_start <= 16383 * (3 - ((if self_reset { 2int } else { 0int }) + (if self.high { 0int } else { 1int }))),
                next_start - next_sample <= 16383 * (3 - ((if self_reset { 2int } else { 0int }) + (if self.high { 0int } else { 1int }))),
                -0x50000 <= this_start <= 0x50000,
                -0x20000 <= next_start <= 0x20000,
                cond == (transition_during_reset || !sync_reset),
                -0x40000 <= s0.next_sample <= 0x40000,
                self.phase == phase1,
                *self == s0.with_blep(BlepState { phase: self.phase, high: self.high, next: s0.next_sample as int, depth: s0.discontinuity_depth }, s0.previous_phase_increment),
            ensures
                (self.high, this_sample as int, next_sample as int) == target,
                -0x60000 <= this_sample <= 0x60000,
                -0x30000 <= next_sample <= 0x30000,
            decreases (if self_reset { 2int } else { 0int }) + (if self.high { 0int } else { 1int }),
        {
            if !self.high {
                if self.phase < pw {
                    break;
                }
                let t = safe_div(self.phase - pw, pi >> 16);
                this_sample += this_blep_sample(t);
                next_sample += next_blep_sample(t);
                self.high = true;
            }
            if self.high {
                if !self_reset {
                    break;
                }
                self_reset = false;
                let t = safe_div(self.phase, pi >> 16);
                this_sample -= this_blep_sample(t);
                next_sample -= next_blep_sample(t);
                self.high = false;
            }
        }
        if sync_reset {
            self.phase = reset_time.wrapping_mul(pi >> 16);
            self.high = false;
        }
        next_sample += if self.phase < pw { 0 } else { 32767 };
        ((this_sample - 16384).wrapping_mul(2) as i16, so, next_sample)
    }

    fn render_square(&mut self, sync_in: &[u8], buffer: &mut [i16], sync_out: &mut [u8], write_sync: bool, size: usize)
        requires
            size as u32 != 0,
            size <= sync_in@.len(),
            size <= old(buffer)@.len(),
            write_sync ==> size <= old(sync_out)@.len(),
        ensures
            final(buffer)@.len() == old(buffer)@.len(),
            final(sync_out)@.len() == old(sync_out)@.len(),
            ({
                let prev = old(self).previous_increment();
                let step = ramp_step(prev, old(self).increment(), size as u32);
                let s0 = old(self).blep_state();
                let pw = square_pw(if old(self).parameter() > 32000 { 32000 } else { old(self).parameter() });
                let run = |k: nat| square_run(s0, pw, prev, step, sync_in@, k);
                &&& forall|k: int| 0 <= k < size ==> #[trigger] final(buffer)@[k]
                    == square_step(run(k as nat), pw, sync_in@[k], ramp_at(prev, step, (k + 1) as nat)).1
                &&& forall|k: int| size <= k < old(buffer)@.len() ==> #[trigger] final(buffer)@[k] == old(buffer)@[k]
                &&& write_sync ==> forall|k: int| 0 <= k < size ==> #[trigger] final(sync_out)@[k]
                    == square_step(run(k as nat), pw, sync_in@[k], ramp_at(prev, step, (k + 1) as nat)).2
                &&& !write_sync ==> final(sync_out)@ == old(sync_out)@
                &&& write_sync ==> forall|k: int| size <= k < old(sync_out)@.len() ==> #[trigger] final(sync_out)@[k] == old(sync_out)@[k]
                &&& final(self).blep_state() == run(size as nat)
                &&& final(self).previous_increment() == ramp_at(prev, step, size as nat)
                &&& *final(self) == old(self).with_parameter(if old(self).parameter() > 32000 { 32000 } else { old(self).parameter() }).with_blep(final(self).blep_state(), final(self).previous_increment())
            }),
    {
        proof { use_type_invariant(&*self); }
        if self.parameter > 32000 {
            self.parameter = 32000;
        }
        let ghost s0 = *self;
        let pw = ((32768 - self.parameter as i32) as u32) << 16;
        let ghost b0 = self.blep_state();
        let ghost prev = self.previous_phase_increment;
        let ghost step = ramp_step(self.previous_phase_increment, self.phase_increment, size as u32);
        let mut ramp = PhaseIncrementRamp::new(self.previous_phase_increment, self.phase_increment, size);
        let mut next_sample = self.next_sample;
        let mut i: usize = 0;
        while i < size
            invariant
                i <= size,
                size <= sync_in@.len(),
                buffer@.len() == old(buffer)@.len(),
                sync_out@.len() == old(sync_out)@.len(),
                size <= buffer@.len(),
                write_sync ==> size <= sync_out@.len(),
                ramp.current() == ramp_at(prev, step, i as nat),
                ramp.increment() == step,
                pw == square_pw(s0.parameter),
                -0x40000 <= next_sample <= 0x40000,
                (BlepState { phase: self.phase, high: self.high, next: next_sample as int, depth: self.discontinuity_depth })
                    == square_run(b0, pw, prev, step, sync_in@, i as nat),
                *self == s0.with_blep(BlepState { phase: self.phase, high: self.high, next: s0.next_sample as int, depth: s0.discontinuity_depth }, s0.previous_phase_increment),
                forall|k: int| 0 <= k < i ==> #[trigger] buffer@[k]
                    == square_step(square_run(b0, pw, prev, step, sync_in@, k as nat), pw, sync_in@[k], ramp_at(prev, step, (k + 1) as nat)).1,
                forall|k: int| size <= k < buffer@.len() ==> #[trigger] buffer@[k] == old(buffer)@[k],
                write_sync ==> forall|k: int| 0 <= k < i ==> #[trigger] sync_out@[k]
                    == square_step(square_run(b0, pw, prev, step, sync_in@, k as nat), pw, sync_in@[k], ramp_at(prev, step, (k + 1) as nat)).2,
                !write_sync ==> sync_out@ == old(sync_out)@,
                write_sync ==> forall|k: int| size <= k < sync_out@.len() ==> #[trigger] sync_out@[k] == old(sync_out)@[k],
            decreases size - i,
        {
            let phase_increment = ramp.next();
            let (out, so, nx) = self.square_sample(pw, sync_in[i], phase_increment, next_sample);
            if write_sync {
                sync_out[i] = so;
            }
            buffer[i] = out;
            next_sample = nx;
            i += 1;
        }
        self.next_sample = next_sample;
        self.previous_phase_increment = ramp.value();
    }

    /// One variable-saw sample from the carried correction `next_in`: returns
    /// the output sample, the sync output and the correction for the next
    /// sample.
    fn vsaw_sample(&mut self, pw: u32, sync: u8, pi: u32, next_in: i32) -> (r: (i16, u8, i32))
        requires
            -0x40000 <= next_in <= 0x40000,
        ensures
            ({
                let s = BlepState { phase: old(self).phase(), high: old(self).high(), next: next_in as int, depth: old(self).discontinuity_depth() };
                let st = vsaw_step(s, pw, sync, pi);
                &&& r.0 == st.1
                &&& r.1 == st.2
                &&& r.2 as int == st.0.next
                &&& st.0.depth == s.depth
                &&& -0x40000 <= r.2 <= 0x40000
                &&& *final(self) == old(self).with_blep(BlepState { phase: st.0.phase, high: st.0.high, next: old(self).next_sample() as int, depth: old(self).discontinuity_depth() }, old(self).previous_increment())
            }),
    {
        proof { use_type_invariant(&*self); }
        let ghost s0 = *self;
        let mut sync_reset = false;
        let mut self_reset = false;
        let mut transition_during_reset = false;
        let mut reset_time: u32 = 0;
        let mut this_sample = next_in;
        let mut next_sample: i32 = 0;
        if sync != 0 {
            reset_time = ((sync - 1) as u32) << 9;
            let phase_at_reset = self.phase.wrapping_add(65535u32.wrapping_sub(reset_time).wrapping_mul(pi >> 16));
            sync_reset = true;
            if phase_at_reset < self.phase || (!self.high && phase_at_reset >= pw) {
                transition_during_reset = true;
            }
            let wrapped = phase_at_reset.wrapping_sub(pw);
            let below = 0u32.wrapping_sub(pw);
            proof {
                lemma_u32_shr(phase_at_reset);
                lemma_u32_shr(wrapped);
                lemma_u32_shr(below);
                lemma_u32_shr(0u32);
            }
            let before = ((phase_at_reset >> 18) as i32) + ((wrapped >> 18) as i32);
            let after = (below >> 18) as i32;
            let discontinuity = after - before;
            let tb = this_blep_sample(reset_time);
            let nb = next_blep_sample(reset_time);
            proof {
                lemma_scaled_blep_bound(discontinuity, tb);
                lemma_scaled_blep_bound(discontinuity, nb);
            }
            this_sample += discontinuity.wrapping_mul(tb) >> 15;
            next_sample += discontinuity.wrapping_mul(nb) >> 15;
        }
        self.phase = self.phase.wrapping_add(pi);
        if self.phase < pi {
            self_reset = true;
        }
        let so = if self.phase < pi { (safe_div(self.phase, pi >> 7) + 1) as u8 } else { 0 };
        let ghost this_start = this_sample as int;
        let ghost next_start = next_sample as int;
        let ghost cond = transition_during_reset || !sync_reset;
        let ghost phase1 = self.phase;
        let ghost target = if cond {
            vsaw_edges(self.phase, pw, pi, self.high, self_reset, this_sample as int, next_sample as int)
        } else {
            (self.high, this_sample as int, next_sample as int)
        };
        while transition_during_reset || !sync_reset
            invariant_except_break
                cond ==> vsaw_edges(self.phase, pw, pi, self.high, self_reset, this_sample as int, next_sample as int) == target,
                !cond ==> (self.high, this_sample as int, next_sample as int) == target,
            invariant
                this_sample - this_start <= 0x2000 * (3 - ((if self_reset { 2int } else { 0int }) + (if self.high { 0int } else { 1int }))),
                this_start - this_sample <= 0x2000 * (3 - ((if self_reset { 2int } else { 0int }) + (if self.high { 0int } else { 1int }))),
                next_sample - next_start <= 0x2000 * (3 - ((if self_reset { 2int } else { 0int }) + (if self.high { 0int } else { 1int }))),
                next_start - next_sample <= 0x2000 * (3 - ((if self_reset { 2int } else { 0int }) + (if self.high { 0int } else { 1int }))),
                -0x50000 <= this_start <= 0x50000,
                -0x8000 <= next_start <= 0x8000,
                cond == (transition_during_reset || !sync_reset),
                -0x40000 <= s0.next_sample <= 0x40000,
                self.phase == phase1,
                *self == s0.with_blep(BlepState { phase: self.phase, high: self.high, next: s0.next_sample as int, depth: s0.discontinuity_depth }, s0.previous_phase_increment),
            ensures
                (self.high, this_sample as int, next_sample as int) == target,
                -0x60000 <= this_sample <= 0x60000,
                -0x10000 <= next_sample <= 0x10000,
            decreases (if self_reset { 2int } else { 0int }) + (if self.high { 0int } else { 1int }),
        {
            if !self.high {
                if self.phase < pw {
                    break;
                }
                let t = safe_div(self.phase - pw, pi >> 16);
                let tb = this_blep_sample(t);
                let nb = next_blep_sample(t);
                proof { lemma_half_blep(tb, nb); }
                this_sample -= tb >> 1;
                next_sample -= nb >> 1;
                self.high = true;
            }
            if self.high {
                if !self_reset {
                    break;
                }
                self_reset = false;
                let t = safe_div(self.phase, pi >> 16);
                let tb = this_blep_sample(t);
                let nb = next_blep_sample(t);
                proof { lemma_half_blep(tb, nb); }
                this_sample -= tb >> 1;
                next_sample -= nb >> 1;
                self.high = false;
            }
        }
        if sync_reset {
            self.phase = reset_time.wrapping_mul(pi >> 16);
            self.high = false;
        }
        let ph = self.phase;
        let wrapped = ph.wrapping_sub(pw);
        proof {
            lemma_u32_shr(ph);
            lemma_u32_shr(wrapped);
        }
        next_sample += (ph >> 18) as i32;
        next_sample += (wrapped >> 18) as i32;
        ((this_sample - 16384).wrapping_mul(2) as i16, so, next_sample)
    }

    fn render_variable_saw(&mut self, sync_in: &[u8], buffer: &mut [i16], sync_out: &mut [u8], write_sync: bool, size: usize)
        requires
            size as u32 != 0,
            size <= sync_in@.len(),
            size <= old(buffer)@.len(),
            write_sync ==> size <= old(sync_out)@.len(),
        ensures
            final(buffer)@.len() == old(buffer)@.len(),
            final(sync_out)@.len() == old(sync_out)@.len(),
            ({
                let prev = old(self).previous_increment();
                let step = ramp_step(prev, old(self).increment(), size as u32);
                let s0 = old(self).blep_state();
                let pw = vsaw_pw(if old(self).parameter() < 1024 { 1024 } else { old(self).parameter() });
                let run = |k: nat| vsaw_run(s0, pw, prev, step, sync_in@, k);
                &&& forall|k: int| 0 <= k < size ==> #[trigger] final(buffer)@[k]
                    == vsaw_step(run(k as nat), pw, sync_in@[k], ramp_at(prev, step, (k + 1) as nat)).1
                &&& forall|k: int| size <= k < old(buffer)@.len() ==> #[trigger] final(buffer)@[k] == old(buffer)@[k]
                &&& write_sync ==> forall|k: int| 0 <= k < size ==> #[trigger] final(sync_out)@[k]
                    == vsaw_step(run(k as nat), pw, sync_in@[k], ramp_at(prev, step, (k + 1) as nat)).2
                &&& !write_sync ==> final(sync_out)@ == old(sync_out)@
                &&& write_sync ==> forall|k: int| size <= k < old(sync_out)@.len() ==> #[trigger] final(sync_out)@[k] == old(sync_out)@[k]
                &&& final(self).blep_state() == run(size as nat)
                &&& final(self).previous_increment() == ramp_at(prev, step, size as nat)
                &&& *final(self) == old(self).with_parameter(if old(self).parameter() < 1024 { 1024 } else { old(self).parameter() }).with_blep(final(self).blep_state(), final(self).previous_increment())
            }),
    {
        proof { use_type_invariant(&*self); }
        if self.parameter < 1024 {
            self.parameter = 1024;
        }
        let ghost s0 = *self;
        let pw = (self.parameter as u32) << 16;
        let ghost b0 = self.blep_state();
        let ghost prev = self.previous_phase_increment;
        let ghost step = ramp_step(self.previous_phase_increment, self.phase_increment, size as u32);
        let mut ramp = PhaseIncrementRamp::new(self.previous_phase_increment, self.phase_increment, size);
        let mut next_sample = self.next_sample;
        let mut i: usize = 0;
        while i < size
            invariant
                i <= size,
                size <= sync_in@.len(),
                buffer@.len() == old(buffer)@.len(),
                sync_out@.len() == old(sync_out)@.len(),
                size <= buffer@.len(),
                write_sync ==> size <= sync_out@.len(),
                ramp.current() == ramp_at(prev, step, i as nat),
                ramp.increment() == step,
                pw == vsaw_pw(s0.parameter),
                -0x40000 <= next_sample <= 0x40000,
                (BlepState { phase: self.phase, high: self.high, next: next_sample as int, depth: self.discontinuity_depth })
                    == vsaw_run(b0, pw, prev, step, sync_in@, i as nat),
                *self == s0.with_blep(BlepState { phase: self.phase, high: self.high, next: s0.next_sample as int, depth: s0.discontinuity_depth }, s0.previous_phase_increment),
                forall|k: int| 0 <= k < i ==> #[trigger] buffer@[k]
                    == vsaw_step(vsaw_run(b0, pw, prev, step, sync_in@, k as nat), pw, sync_in@[k], ramp_at(prev, step, (k + 1) as nat)).1,
                forall|k: int| size <= k < buffer@.len() ==> #[trigger] buffer@[k] == old(buffer)@[k],
                write_sync ==> forall|k: int| 0 <= k < i ==> #[trigger] sync_out@[k]
                    == vsaw_step(vsaw_run(b0, pw, prev, step, sync_in@, k as nat), pw, sync_in@[k], ramp_at(prev, step, (k + 1) as nat)).2,
                !write_sync ==> sync_out@ == old(sync_out)@,
                write_sync ==> forall|k: int| size <= k < sync_out@.len() ==> #[trigger] sync_out@[k] == old(sync_out)@[k],
            decreases size - i,
        {
            let phase_increment = ramp.next();
            let (out, so, nx) = self.vsaw_sample(pw, sync_in[i], phase_increment, next_sample);
            if write_sync {
                sync_out[i] = so;
            }
            buffer[i] = out;
            next_sample = nx;
            i += 1;
        }
        self.next_sample = next_sample;
        self.previous_phase_increment = ramp.value();
    }

    /// One "CS" saw sample from the carried correction `next_in`: returns the
    /// output sample, the sync output and the correction for the next sample.
    #[verifier::rlimit(60)]
    #[verifier::spinoff_prover]
    fn csaw_sample(&mut self, sync: u8, pi: u32, next_in: i32) -> (r: (i16, u8, i32))
        requires
            -0x40000 <= next_in <= 0x40000,
        ensures
            ({
                let s = BlepState { phase: old(self).phase(), high: old(self).high(), next: next_in as int, depth: old(self).discontinuity_depth() };
                let st = csaw_step(s, old(self).parameter(), old(self).aux_parameter(), sync, pi);
                &&& r.0 == st.1
                &&& r.1 == st.2
                &&& r.2 as int == st.0.next
                &&& -0x40000 <= r.2 <= 0x40000
                &&& *final(self) == old(self).with_blep(BlepState { phase: st.0.phase, high: st.0.high, next: old(self).next_sample() as int, depth: st.0.depth }, old(self).previous_increment())
            }),
    {
        proof { use_type_invariant(&*self); }
        let ghost s0 = *self;
        let mut sync_reset = false;
        let mut self_reset = false;
        let mut transition_during_reset = false;
        let mut reset_time: u32 = 0;
        let mut pw = (self.parameter as u32).wrapping_mul(49152);
        if pw < 8u32.wrapping_mul(pi) {
            pw = 8u32.wrapping_mul(pi);
        }
        let aux = self.aux_parameter;
        proof {
            lemma_i16_shr(aux);
        }
        let fresh = (-2048 + (aux >> 2)) as i16;
        let mut this_sample = next_in;
        let mut next_sample: i32 = 0;
        if sync != 0 {
            reset_time = ((sync - 1) as u32) << 9;
            let phase_at_reset = self.phase.wrapping_add(65535u32.wrapping_sub(reset_time).wrapping_mul(pi >> 16));
            sync_reset = true;
            if phase_at_reset < self.phase || (!self.high && phase_at_reset >= pw) {
                transition_during_reset = true;
            }
            if self.phase >= pw {
                self.discontinuity_depth = fresh;
                proof {
                    lemma_u32_shr(phase_at_reset);
                }
                let before = (phase_at_reset >> 18) as i32;
                let after = self.discontinuity_depth as i32;
                let discontinuity = after - before;
                let tb = this_blep_sample(reset_time);
                let nb = next_blep_sample(reset_time);
                proof {
                    lemma_scaled_blep_bound(discontinuity, tb);
                    lemma_scaled_blep_bound(discontinuity, nb);
                }
                this_sample += discontinuity.wrapping_mul(tb) >> 15;
                next_sample += discontinuity.wrapping_mul(nb) >> 15;
            }
        }
        self.phase = self.phase.wrapping_add(pi);
        if self.phase < pi {
            self_reset = true;
        }
        let so = if self.phase < pi { (safe_div(self.phase, pi >> 7) + 1) as u8 } else { 0 };
        let ghost this_start = this_sample as int;
        let ghost next_start = next_sample as int;
        let ghost cond = transition_during_reset || !sync_reset;
        let ghost phase1 = self.phase;
        let ghost target = if cond {
            csaw_edges(self.phase, pw, pi, self.high, self_reset, self.discontinuity_depth, fresh, this_sample as int, next_sample as int)
        } else {
            (self.high, self.discontinuity_depth, this_sample as int, next_sample as int)
        };
        while transition_during_reset || !sync_reset
            invariant_except_break
                cond ==> csaw_edges(self.phase, pw, pi, self.high, self_reset, self.discontinuity_depth, fresh, this_sample as int, next_sample as int) == target,
                !cond ==> (self.high, self.discontinuity_depth, this_sample as int, next_sample as int) == target,
            invariant
                this_sample - this_start <= 0x6000 * (3 - ((if self_reset { 2int } else { 0int }) + (if self.high { 0int } else { 1int }))),
                this_start - this_sample <= 0x6000 * (3 - ((if self_reset { 2int } else { 0int }) + (if self.high { 0int } else { 1int }))),
                next_sample - next_start <= 0x6000 * (3 - ((if self_reset { 2int } else { 0int }) + (if self.high { 0int } else { 1int }))),
                next_start - next_sample <= 0x6000 * (3 - ((if self_reset { 2int } else { 0int }) + (if self.high { 0int } else { 1int }))),
                -0x50000 <= this_start <= 0x50000,
                -0x6000 <= next_start <= 0x6000,
                cond == (transition_during_reset || !sync_reset),
                fresh == csaw_depth(s0.aux_parameter),
                -0x40000 <= s0.next_sample <= 0x40000,
                self.phase == phase1,
                *self == s0.with_blep(BlepState { phase: self.phase, high: self.high, next: s0.next_sample as int, depth: self.discontinuity_depth }, s0.previous_phase_increment),
            ensures
                (self.high, self.discontinuity_depth, this_sample as int, next_sample as int) == target,
                -0x70000 <= this_sample <= 0x70000,
                -0x18000 <= next_sample <= 0x18000,
            decreases (if self_reset { 2int } else { 0int }) + (if self.high { 0int } else { 1int }),
        {
            if !self.high {
                if self.phase < pw {
                    break;
                }
                let t = safe_div(self.phase - pw, pi >> 16);
                let ph = self.phase;
                proof {
                    lemma_u32_shr(ph);
                }
                let before = self.discontinuity_depth as i32;
                let after = (ph >> 18) as i16 as i32;
                let discontinuity = after - before;
                let tb = this_blep_sample(t);
                let nb = next_blep_sample(t);
                proof {
                    lemma_scaled_blep_bound(discontinuity, tb);
                    lemma_scaled_blep_bound(discontinuity, nb);
                }
                this_sample += discontinuity.wrapping_mul(tb) >> 15;
                next_sample += discontinuity.wrapping_mul(nb) >> 15;
                self.high = true;
            }
            if self.high {
                if !self_reset {
                    break;
                }
                self_reset = false;
                self.discontinuity_depth = fresh;
                let t = safe_div(self.phase, pi >> 16);
                let before: i32 = 16383;
                let after = self.discontinuity_depth as i32;
                let discontinuity = after - before;
                let tb = this_blep_sample(t);
                let nb = next_blep_sample(t);
                proof {
                    lemma_scaled_blep_bound(discontinuity, tb);
                    lemma_scaled_blep_bound(discontinuity, nb);
                }
                this_sample += discontinuity.wrapping_mul(tb) >> 15;
                next_sample += discontinuity.wrapping_mul(nb) >> 15;
                self.high = false;
            }
        }
        if sync_reset {
            self.phase = reset_time.wrapping_mul(pi >> 16);
            self.high = false;
        }
        let ph = self.phase;
        proof {
            lemma_u32_shr(ph);
        }
        next_sample += if ph < pw { self.discontinuity_depth as i32 } else { (ph >> 18) as i32 };
        ((this_sample - 8192).wrapping_mul(2) as i16, so, next_sample)
    }

    fn render_csaw(&mut self, sync_in: &[u8], buffer: &mut [i16], sync_out: &mut [u8], write_sync: bool, size: usize)
        requires
            size as u32 != 0,
            size <= sync_in@.len(),
            size <= old(buffer)@.len(),
            write_sync ==> size <= old(sync_out)@.len(),
        ensures
            final(buffer)@.len() == old(buffer)@.len(),
            final(sync_out)@.len() == old(sync_out)@.len(),
            ({
                let prev = old(self).previous_increment();
                let step = ramp_step(prev, old(self).increment(), size as u32);
                let s0 = old(self).blep_state();
                let p = old(self).parameter();
                let a = old(self).aux_parameter();
                let run = |k: nat| csaw_run(s0, p, a, prev, step, sync_in@, k);
                &&& forall|k: int| 0 <= k < size ==> #[trigger] final(buffer)@[k]
                    == csaw_step(run(k as nat), p, a, sync_in@[k], ramp_at(prev, step, (k + 1) as nat)).1
                &&& forall|k: int| size <= k < old(buffer)@.len() ==> #[trigger] final(buffer)@[k] == old(buffer)@[k]
                &&& write_sync ==> forall|k: int| 0 <= k < size ==> #[trigger] final(sync_out)@[k]
                    == csaw_step(run(k as nat), p, a, sync_in@[k], ramp_at(prev, step, (k + 1) as nat)).2
                &&& !write_sync ==> final(sync_out)@ == old(sync_out)@
                &&& write_sync ==> forall|k: int| size <= k < old(sync_out)@.len() ==> #[trigger] final(sync_out)@[k] == old(sync_out)@[k]
                &&& final(self).blep_state() == run(size as nat)
                &&& final(self).previous_increment() == ramp_at(prev, step, size as nat)
                &&& *final(self) == old(self).with_blep(final(self).blep_state(), final(self).previous_increment())
            }),
    {
        proof { use_type_invariant(&*self); }
        let ghost s0 = *self;
        let ghost b0 = self.blep_state();
        let ghost prev = self.previous_phase_increment;
        let ghost step = ramp_step(self.previous_phase_increment, self.phase_increment, size as u32);
        let mut ramp = PhaseIncrementRamp::new(self.previous_phase_increment, self.phase_increment, size);
        let mut next_sample = self.next_sample;
        let mut i: usize = 0;
        while i < size
            invariant
                i <= size,
                size <= sync_in@.len(),
                buffer@.len() == old(buffer)@.len(),
                sync_out@.len() == old(sync_out)@.len(),
                size <= buffer@.len(),
                write_sync ==> size <= sync_out@.len(),
                ramp.current() == ramp_at(prev, step, i as nat),
                ramp.increment() == step,
                -0x40000 <= next_sample <= 0x40000,
                (BlepState { phase: self.phase, high: self.high, next: next_sample as int, depth: self.discontinuity_depth })
                    == csaw_run(b0, s0.parameter, s0.aux_parameter, prev, step, sync_in@, i as nat),
                *self == s0.with_blep(BlepState { phase: self.phase, high: self.high, next: s0.next_sample as int, depth: self.discontinuity_depth }, s0.previous_phase_increment),
                forall|k: int| 0 <= k < i ==> #[trigger] buffer@[k]
                    == csaw_step(csaw_run(b0, s0.parameter, s0.aux_parameter, prev, step, sync_in@, k as nat), s0.parameter, s0.aux_parameter, sync_in@[k], ramp_at(prev, step, (k + 1) as nat)).1,
                forall|k: int| size <= k < buffer@.len() ==> #[trigger] buffer@[k] == old(buffer)@[k],
                write_sync ==> forall|k: int| 0 <= k < i ==> #[trigger] sync_out@[k]
                    == csaw_step(csaw_run(b0, s0.parameter, s0.aux_parameter, prev, step, sync_in@, k as nat), s0.parameter, s0.aux_parameter, sync_in@[k], ramp_at(prev, step, (k + 1) as nat)).2,
                !write_sync ==> sync_out@ == old(sync_out)@,
                write_sync ==> forall|k: int| size <= k < sync_out@.len() ==> #[trigger] sync_out@[k] == old(sync_out)@[k],
            decreases size - i,
        {
            let phase_increment = ramp.next();
            let (out, so, nx) = self.csaw_sample(sync_in[i], phase_increment, next_sample);
            if write_sync {
                sync_out[i] = so;
            }
            buffer[i] = out;
            next_sample = nx;
            i += 1;
        }
        self.next_sample = next_sample;
        self.previous_phase_increment = ramp.value();
    }

    /// Renders a block of the current shape from a prepared state.
    fn render_shape(&mut self, sync_in: &[u8], buffer: &mut [i16], sync_out: &mut [u8], write_sync: bool, size: usize)
        requires
            old(self).shape() == AnalogOscillatorShape::Buzz || size as u32 != 0,
            size <= sync_in@.len(),
            size <= old(buffer)@.len(),
            write_sync ==> size <= old(sync_out)@.len(),
            ramps_parameter(old(self).shape()) ==> size <= i32::MAX,
            0 <= old(self).pitch(),
        ensures
            final(buffer)@.len() == old(buffer)@.len(),
            final(sync_out)@.len() == old(sync_out)@.len(),
            forall|k: int| 0 <= k < size ==> #[trigger] final(buffer)@[k] == block_sample(old(self).clamped(), sync_in@, size as nat, k as nat),
            forall|k: int| size <= k < old(buffer)@.len() ==> #[trigger] final(buffer)@[k] == old(buffer)@[k],
            write_sync && writes_sync(old(self).shape()) ==> forall|k: int| 0 <= k < size ==> #[trigger] final(sync_out)@[k] == block_sync(old(self).clamped(), sync_in@, size as nat, k as nat),
            forall|k: int| 0 <= k < old(sync_out)@.len() && !(write_sync && writes_sync(old(self).shape()) && k < size) ==> #[trigger] final(sync_out)@[k] == old(sync_out)@[k],
            *final(self) == block_end(old(self).clamped(), sync_in@, size as nat),
    {
        match self.shape {
            AnalogOscillatorShape::Saw => self.render_saw(sync_in, buffer, sync_out, write_sync, size),
            AnalogOscillatorShape::VariableSaw => self.render_variable_saw(sync_in, buffer, sync_out, write_sync, size),
            AnalogOscillatorShape::Csaw => self.render_csaw(sync_in, buffer, sync_out, write_sync, size),
            AnalogOscillatorShape::Square => self.render_square(sync_in, buffer, sync_out, write_sync, size),
            AnalogOscillatorShape::Triangle => self.render_triangle(sync_in, buffer, size),
            AnalogOscillatorShape::Sine => self.render_sine(sync_in, buffer, size),
            AnalogOscillatorShape::TriangleFold => self.render_triangle_fold(sync_in, buffer, size),
            AnalogOscillatorShape::SineFold => self.render_sine_fold(sync_in, buffer, size),
            AnalogOscillatorShape::Buzz => self.render_buzz(sync_in, buffer, size),
        }
    }

    /// Renders `size` samples into `buffer`, following the sync pulses in
    /// `sync_in` (0: none; otherwise 1 + the pulse's position within the
    /// sample in 1/128); the blep waveforms also write their own cycle starts
    /// into `sync_out` when one is given.
    pub fn render(&mut self, sync_in: &[u8], buffer: &mut [i16], sync_out: Option<&mut [u8]>, size: usize)
        requires
            old(self).shape() == AnalogOscillatorShape::Buzz || size as u32 != 0,
            size <= sync_in@.len(),
            size <= old(buffer)@.len(),
            sync_out matches Some(out) ==> size <= out@.len(),
            ramps_parameter(old(self).shape()) ==> size <= i32::MAX,
        ensures
            final(buffer)@.len() == old(buffer)@.len(),
            forall|k: int| 0 <= k < size ==> #[trigger] final(buffer)@[k] == block_sample(old(self).prepared(), sync_in@, size as nat, k as nat),
            forall|k: int| size <= k < old(buffer)@.len() ==> #[trigger] final(buffer)@[k] == old(buffer)@[k],
            sync_out matches Some(out) ==> {
                &&& final(out)@.len() == out@.len()
                &&& writes_sync(old(self).shape()) ==> forall|k: int| 0 <= k < size ==> #[trigger] final(out)@[k] == block_sync(old(self).prepared(), sync_in@, size as nat, k as nat)
                &&& forall|k: int| 0 <= k < out@.len() && !(writes_sync(old(self).shape()) && k < size) ==> #[trigger] final(out)@[k] == out@[k]
            },
            *final(self) == block_end(old(self).prepared(), sync_in@, size as nat),
    {
        proof { use_type_invariant(&*self); }
        if self.shape != self.previous_shape {
            self.init();
            self.previous_shape = self.shape;
        }
        self.phase_increment = compute_phase_increment_analog(self.pitch);
        if self.pitch as i32 > HIGHEST_NOTE_ANALOG {
            self.pitch = 16384;
        } else if self.pitch < 0 {
            self.pitch = 0;
        }
        match sync_out {
            Some(out) => self.render_shape(sync_in, buffer, out, true, size),
            None => {
                let mut unused: [u8; 0] = [];
                self.render_shape(sync_in, buffer, &mut unused, false, size);
            },
        }
    }

    /// What a block starts from: a new shape restarts the oscillator at
    /// phase 0 and middle C, with no carried correction and zero parameters;
    /// the same shape keeps the state. Either way the increment follows the
    /// pitch before it is clamped to `0..=16384`, and the square's and
    /// variable saw's timbre clamps apply.
    pub proof fn lemma_prepared(o: AnalogOscillator)
        ensures
            ({
                let p = o.prepared();
                let restart = o.shape() != o.previous_shape();
                let pitch = if restart { 7680 } else { o.pitch() };
                let parameter = if restart { 0 } else { o.parameter() };
                &&& p.shape() == o.shape()
                &&& p.previous_shape() == o.shape()
                &&& p.previous_increment() == o.previous_increment()
                &&& p.increment() == phase_increment_of(pitch as int)
                &&& p.pitch() == (if pitch > 16384 { 16384 } else if pitch < 0 { 0 } else { pitch })
                &&& p.parameter() == (
                    if o.shape() == AnalogOscillatorShape::Square && parameter > 32000 { 32000 }
                    else if o.shape() == AnalogOscillatorShape::VariableSaw && parameter < 1024 { 1024 }
                    else { parameter })
                &&& restart ==> {
                    &&& p.phase() == 0
                    &&& !p.high()
                    &&& p.next_sample() == 0
                    &&& p.discontinuity_depth() == -16383
                    &&& p.aux_parameter() == 0
                    &&& p.previous_parameter() == 0
                }
                &&& !restart ==> {
                    &&& p.phase() == o.phase()
                    &&& p.high() == o.high()
                    &&& p.next_sample() == o.next_sample()
                    &&& p.discontinuity_depth() == o.discontinuity_depth()
                    &&& p.aux_parameter() == o.aux_parameter()
                    &&& p.previous_parameter() == o.previous_parameter()
                }
            }),
    {
    }

}

} // verus!
