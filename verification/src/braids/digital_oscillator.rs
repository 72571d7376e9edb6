//! The digital synthesis models of the macro-oscillator that the lookup
//! tables of this crate support: the triple ring modulator, the detuned saw
//! swarm, the comb filter, the "toy" lo-fi decimator, the four digital
//! filter emulations, the struck bell and drum, the plucked strings, the
//! additive harmonics, the vowel formants, the clocked noise and the
//! digital modulation.
use vstd::prelude::*;
use crate::bits::{lemma_i16_shr, lemma_i32_shl, lemma_i32_shr, lemma_u32_shr};
use crate::fixed::{
    clip16_sym, clip16_sym_spec, interpolate_824_i16, interpolate_824_i16_spec,
    interpolate_824_u16, interpolate_824_u16_spec, interpolate_88_i16, interpolate_88_i16_spec,
    mix_i16, mix_i16_spec,
};
use super::dsp::{
    compute_delay, compute_phase_increment_digital, delay_of, phase_increment_of, ramp_step,
    HIGHEST_NOTE_DIGITAL,
};
use super::drums::{
    cymbal_run, cymbal_run_ok, cymbal_step, cymbal_step_checked, cymbal_step_exec, cymbal_step_ok, kick_lp_coefficient,
    kick_lp_coefficient_exec, kick_pair, kick_pair_checked, kick_pair_exec, kick_pair_ok, kick_resonance, kick_resonance_exec, kick_run,
    kick_run_ok, snare_run, snare_run_ok, snare_step, snare_step_checked, snare_step_exec, snare_step_ok, CymbalVoice, KickVoice, SnareVoice,
};
use super::excitation::Excitation;
use super::svf::{Svf, SvfMode};
use super::formant::{
    fof_pair, fof_run, fof_setup, formant_coefficient, formant_parameter, render_fof, FofVoice, SawCarry,
    FORMANT_A_DATA,
};
use super::harmonics::{harmonic_target, harmonics_pair, harmonics_run, render_harmonics, HarmonicsVoice};
use super::noise::{
    clock_divider, clock_divider_exec, clock_increment, clock_run, idle_clock, render_clocked_noise, ClockState,
};
use super::modulation::{idle_modem, modem_output, modem_run, render_modem, ModemState};
use super::plucked::{pluck_block_end, pluck_block_sample, silent_voice, PluckBank};
use super::random::{lcg_next, Random};
use super::resources::{LUT_SVF_CUTOFF, LUT_SVF_DAMP, WAV_SINE, WS_MODERATE_OVERDRIVE};
use super::shapes::DigitalModel;
use super::fm::{
    chaotic_run, chaotic_step, feedback_attenuation, feedback_run, feedback_step, fm_run, fm_step, modulator_increment,
    render_chaotic_feedback_fm, render_feedback_fm, render_fm,
};
use super::analog_oscillator::param_at;

verus! {

/// Length of the comb filter's delay line.
pub const COMB_DELAY_LENGTH: usize = 8192;

/// Whether the model is one that this oscillator renders.
pub open spec fn renders_model(m: DigitalModel) -> bool {
    ||| m == DigitalModel::TripleRingMod
    ||| m == DigitalModel::SawSwarm
    ||| m == DigitalModel::Fm
    ||| m == DigitalModel::FeedbackFm
    ||| m == DigitalModel::ChaoticFeedbackFm
    ||| m == DigitalModel::Comb
    ||| m == DigitalModel::Toy
    ||| m == DigitalModel::DigitalFilterLp
    ||| m == DigitalModel::DigitalFilterPk
    ||| m == DigitalModel::DigitalFilterBp
    ||| m == DigitalModel::DigitalFilterHp
    ||| m == DigitalModel::StruckDrum
    ||| m == DigitalModel::StruckBell
    ||| m == DigitalModel::Plucked
    ||| m == DigitalModel::DigitalModulation
    ||| m == DigitalModel::ClockedNoise
    ||| m == DigitalModel::Harmonics
    ||| m == DigitalModel::VowelFof
    ||| m == DigitalModel::Kick
    ||| m == DigitalModel::Snare
    ||| m == DigitalModel::Cymbal
}

/// Whether the model renders its block in pairs of samples (its blocks have
/// an even size).
pub open spec fn renders_in_pairs(m: DigitalModel) -> bool {
    m == DigitalModel::StruckDrum || m == DigitalModel::StruckBell || m == DigitalModel::Plucked
        || m == DigitalModel::Harmonics || m == DigitalModel::VowelFof || m == DigitalModel::Kick
        || m == DigitalModel::Snare
}

/// Whether the model divides by the block size (its blocks are not empty).
pub open spec fn divides_by_size(m: DigitalModel) -> bool {
    is_filter_model(m) || m == DigitalModel::StruckDrum || is_fm_model(m)
}

/// Whether the model is one of the three FM models (which ramp their
/// amount over the block).
pub open spec fn is_fm_model(m: DigitalModel) -> bool {
    m == DigitalModel::Fm || m == DigitalModel::FeedbackFm || m == DigitalModel::ChaoticFeedbackFm
}

/// Whether the model is one of the four filter emulations (which ramp
/// their cutoff over the block).
pub open spec fn is_filter_model(m: DigitalModel) -> bool {
    ||| m == DigitalModel::DigitalFilterLp
    ||| m == DigitalModel::DigitalFilterPk
    ||| m == DigitalModel::DigitalFilterBp
    ||| m == DigitalModel::DigitalFilterHp
}

/// A parameter as the clocked noise holds it: it follows the fresh value
/// only once that moves more than `tolerance` away.
pub open spec fn held_parameter(held: i16, fresh: i16, tolerance: int) -> i16 {
    if fresh as int > held as int + tolerance || (fresh as int) < held as int - tolerance { fresh } else { held }
}

/// The pitch `set_pitch` keeps: above note 90 the new pitch is averaged with
/// the old one.
pub open spec fn smoothed_pitch(held: i16, fresh: i16) -> i16 {
    if held > 11520 && fresh > 11520 { ((held as int + fresh as int) / 2) as i16 } else { fresh }
}

// ------------------------------------------------------------ ring modulator

/// The carrier and the two modulator phases of the ring modulator after `k`
/// samples: each advances by its increment; a sync pulse restarts all three.
pub open spec fn ring_phases(start: (u32, u32, u32), inc: u32, mi1: u32, mi2: u32, sync: Seq<u8>, k: nat) -> (u32, u32, u32)
    decreases k,
{
    if k == 0 {
        start
    } else {
        let (p, m1, m2) = ring_phases(start, inc, mi1, mi2, sync, (k - 1) as nat);
        if sync[k - 1] != 0 {
            (0u32, mi1, mi2)
        } else {
            (p.wrapping_add(inc), m1.wrapping_add(mi1), m2.wrapping_add(mi2))
        }
    }
}

/// `a * b >> 16` for two signed 16-bit samples.
pub open spec fn ring(a: i16, b: i16) -> i16 {
    (((a as i32) * (b as i32)) as i32 >> 16i32) as i16
}

/// A ring-modulator sample: the product of three sines, through the
/// moderate overdrive.
pub open spec fn ring_sample(phases: (u32, u32, u32)) -> i16 {
    let r = ring(
        ring(interpolate_824_i16_spec(WAV_SINE@, phases.0), interpolate_824_i16_spec(WAV_SINE@, phases.1)),
        interpolate_824_i16_spec(WAV_SINE@, phases.2),
    );
    interpolate_88_i16_spec(WS_MODERATE_OVERDRIVE@, (r as i32 + 32768) as u16)
}

/// A ring product with a silent side is silent.
proof fn lemma_ring_zero(a: i16)
    ensures
        ring(a, 0) == 0,
        ring(0, a) == 0,
{
    assert((a as i32) * (0i16 as i32) == 0);
    assert((0i16 as i32) * (a as i32) == 0);
    lemma_i32_shr(0);
}

/// The ring modulator multiplies all three sines: wherever any one of the
/// carrier, the first modulator or the second modulator reads 0 from the
/// sine table, the product is 0 and the sample is the overdrive's midpoint,
/// whatever the other two are.
pub proof fn lemma_ring_needs_all_three_sines(p0: u32, p1: u32, p2: u32)
    ensures
        interpolate_824_i16_spec(WAV_SINE@, p0) == 0 || interpolate_824_i16_spec(WAV_SINE@, p1) == 0
            || interpolate_824_i16_spec(WAV_SINE@, p2) == 0
            ==> ring_sample((p0, p1, p2)) == interpolate_88_i16_spec(WS_MODERATE_OVERDRIVE@, 32768u16),
{
    let a = interpolate_824_i16_spec(WAV_SINE@, p0);
    let b = interpolate_824_i16_spec(WAV_SINE@, p1);
    let c = interpolate_824_i16_spec(WAV_SINE@, p2);
    lemma_ring_zero(a);
    lemma_ring_zero(b);
    lemma_ring_zero(c);
    lemma_ring_zero(ring(a, b));
    lemma_ring_zero(0);
}

/// The increment of a modulator detuned by a parameter (up to two octaves
/// either side).
pub open spec fn ring_increment(pitch: i16, parameter: i16) -> u32 {
    phase_increment_of(pitch as int + (((parameter as i32 - 16384) as i32) >> 2i32) as int)
}

/// The pitch of a modulator detuned by a parameter.
fn detuned_pitch(pitch: i16, parameter: i16) -> (r: i32)
    ensures
        r == pitch as int + (((parameter as i32 - 16384) as i32) >> 2i32) as int,
        pitch - 12288 <= r <= pitch + 4095,
{
    let d = parameter as i32 - 16384;
    proof { lemma_i32_shr(d); }
    pitch as i32 + (d >> 2)
}

/// The product of two signed 16-bit samples, shifted down 16 bits, stays a
/// 16-bit sample.
proof fn lemma_ring(a: i16, b: i16)
    ensures
        -0x4000_0000 <= (a as int) * (b as int) <= 0x4000_0000,
        -32768 <= ((a as i32) * (b as i32)) as i32 >> 16i32 <= 32767,
{
    let p = ((a as i32) * (b as i32)) as i32;
    assert(-0x4000_0000 <= (a as i32) * (b as i32) <= 0x4000_0000) by (nonlinear_arith);
    lemma_i32_shr(p);
}


// --------------------------------------------------------------------- comb

/// Linear interpolation between two delay-line taps with a 15-bit fraction.
pub open spec fn tap_mix(a: i16, b: i16, t: i32) -> i32 {
    (a as int + ((((b as int - a as int) * t as int) as i32) >> 15i32) as int) as i32
}

/// The comb's pitch, smoothed: one sixteenth of the way from the previous
/// value to the pitch shifted by the first parameter (two octaves either side).
pub open spec fn comb_filtered_pitch(previous: i16, pitch: i16, p0: i16) -> i16 {
    (((15 * previous as int + pitch as int + (((p0 as i32 - 16384) as i32) >> 1i32) as int) as i32) >> 4i32) as i16
}

/// The comb's delay for a pitch, at most the delay line's length.
pub open spec fn comb_delay(f: i16) -> u32 {
    let d = delay_of(f as int);
    if d > 8192 * 65536 { (8192 * 65536) as u32 } else { d }
}

/// The comb's feedback gain for the second parameter, through the moderate
/// overdrive.
pub open spec fn comb_resonance(p1: i16) -> i32 {
    interpolate_88_i16_spec(WS_MODERATE_OVERDRIVE@, (((((p1 as i32) << 1i32) as int - 32768) + 32768) as i32) as u16) as i32
}

/// The delayed sample read `di + df / 65536` samples behind `ptr`.
pub open spec fn comb_delayed(line: Seq<i16>, ptr: int, di: int, df: i32) -> i32 {
    let offset = ptr + 16384 - di;
    tap_mix(line[offset % 8192], line[(offset - 1) % 8192], df >> 1i32)
}

/// The value written back into the delay line.
pub open spec fn comb_feedback(delayed: i32, res: i32, input: i16) -> i16 {
    clip16_sym_spec(((((delayed as int * res as int) as i32) >> 15i32) as int + ((input as i32) >> 1i32) as int) as i32) as i16
}

/// The output: the input mixed with twice the delayed sample, halved.
pub open spec fn comb_out(input: i16, delayed: i32) -> i16 {
    clip16_sym_spec(((input as int + (delayed << 1i32) as int) as i32) >> 1i32) as i16
}

/// The delay line and its write position after `k` samples.
pub open spec fn comb_run(line: Seq<i16>, ptr: int, input: Seq<i16>, di: int, df: i32, res: i32, k: nat) -> (Seq<i16>, int)
    decreases k,
{
    if k == 0 {
        (line, ptr)
    } else {
        let (l, p) = comb_run(line, ptr, input, di, df, res, (k - 1) as nat);
        let d = comb_delayed(l, p, di, df);
        (l.update(p, comb_feedback(d, res, input[k - 1])), (p + 1) % 8192)
    }
}

/// Interpolating between two 16-bit taps stays between them.
proof fn lemma_tap_mix(a: i16, b: i16, t: i32)
    requires
        0 <= t <= 32767,
    ensures
        -0x7fff_ffff <= (b as int - a as int) * t as int <= 0x7fff_ffff,
        -32768 <= a as int + ((((b as int - a as int) * t as int) as i32) >> 15i32) as int <= 32767,
        -32768 <= tap_mix(a, b, t) <= 32767,
{
    let d: int = b as int - a as int;
    assert(-65535 * 32767 <= d * t <= 65535 * 32767) by (nonlinear_arith)
        requires -65535 <= d <= 65535, 0 <= t <= 32767;
    let p = (d * t) as i32;
    lemma_i32_shr(p);
    let q = (p >> 15i32) as int;
    assert(d >= 0 ==> 0 <= q <= d) by (nonlinear_arith)
        requires q * 32768 <= d * t, d * t < (q + 1) * 32768, 0 <= t <= 32767;
    assert(d < 0 ==> d <= q <= 0) by (nonlinear_arith)
        requires q * 32768 <= d * t, d * t < (q + 1) * 32768, 0 <= t <= 32767;
}



// ---------------------------------------------------------------------- toy

/// The four taps of the toy model's anti-aliasing filter.
pub open spec fn fir4(tap: int) -> u32 {
    if tap == 0 { 10530 } else if tap == 2 { 16384 } else { 14751 }
}

/// The sample the toy model holds for a phase: its top byte, bit-crushed
/// by the second parameter's top byte `x`.
pub open spec fn toy_crush(phase: u32, x: u8) -> u8 {
    ((((phase >> 24u32) as u8) ^ (x << 1u8)) & !x).wrapping_add(x >> 1u8)
}

/// One oversampled tap of the toy model: the phase advances; once the
/// decimation counter has reached `count` a fresh sample is held.
pub open spec fn toy_tap(s: (u32, u16, u8), pi: u32, count: u16, x: u8) -> (u32, u16, u8) {
    let phase = s.0.wrapping_add(pi);
    let (counter, held) = if s.1 >= count { (0u16, toy_crush(phase, x)) } else { (s.1, s.2) };
    (phase, counter.wrapping_add(1), held)
}

/// The toy model's state after `n` taps.
pub open spec fn toy_taps(s: (u32, u16, u8), pi: u32, count: u16, x: u8, n: nat) -> (u32, u16, u8)
    decreases n,
{
    if n == 0 { s } else { toy_tap(toy_taps(s, pi, count, x, (n - 1) as nat), pi, count, x) }
}

/// The state at the start of a toy sample (a sync pulse restarts the phase).
pub open spec fn toy_entry(s: (u32, u16, u8), sync: u8) -> (u32, u16, u8) {
    if sync != 0 { (0u32, s.1, s.2) } else { s }
}

/// One toy sample from the state at its start: the four taps' held samples
/// weighted by the filter, minus the filter's DC offset.
pub open spec fn toy_output(s: (u32, u16, u8), pi: u32, count: u16, x: u8) -> i16 {
    let sum = fir4(0) * toy_taps(s, pi, count, x, 1).2 as int
        + fir4(1) * toy_taps(s, pi, count, x, 2).2 as int
        + fir4(2) * toy_taps(s, pi, count, x, 3).2 as int
        + fir4(3) * toy_taps(s, pi, count, x, 4).2 as int;
    ((sum as u32 >> 8u32).wrapping_sub(28208)) as i16
}

/// The toy model's state after `k` samples.
pub open spec fn toy_run(s: (u32, u16, u8), pi: u32, count: u16, x: u8, sync: Seq<u8>, k: nat) -> (u32, u16, u8)
    decreases k,
{
    if k == 0 { s } else { toy_taps(toy_entry(toy_run(s, pi, count, x, sync, (k - 1) as nat), sync[k - 1]), pi, count, x, 4) }
}

/// One oversampled tap of the toy model.
fn toy_tap_exec(s: (u32, u16, u8), pi: u32, count: u16, x: u8) -> (r: (u32, u16, u8))
    ensures
        r == toy_tap(s, pi, count, x),
{
    let phase = s.0.wrapping_add(pi);
    let (counter, held) = if s.1 >= count {
        (0u16, ((((phase >> 24) as u8) ^ (x << 1)) & !x).wrapping_add(x >> 1))
    } else {
        (s.1, s.2)
    };
    (phase, counter.wrapping_add(1), held)
}


// ----------------------------------------------------------- digital filters

/// The state of the filter emulations: the carrier phase, the resonance
/// and square-wave modulator phases, the square's integrator, the square's
/// polarity and the modulator increment (ramped towards the cutoff).
#[derive(Clone, Copy)]
pub struct FilterState {
    pub phase: u32,
    pub modulator: u32,
    pub square_modulator: u32,
    pub integrator: i16,
    pub polarity: bool,
    pub increment: u32,
}

/// Where the modulators restart at the start of a cycle (and half cycle).
pub open spec fn phase_reset(i: int) -> u32 {
    if i == 0 { 0 } else if i == 2 { 0x4000_0000 } else { 0x8000_0000 }
}

/// The index of a filter model: low-pass, peaking, band-pass, high-pass.
pub open spec fn filter_type(m: DigitalModel) -> u8 {
    if m == DigitalModel::DigitalFilterLp { 0 }
    else if m == DigitalModel::DigitalFilterPk { 1 }
    else if m == DigitalModel::DigitalFilterBp { 2 }
    else { 3 }
}

/// The cutoff pitch: the pitch shifted by the first parameter, wrapped to
/// 16 bits, at most 16383.
pub open spec fn filter_pitch(pitch: i16, p0: i16) -> i32 {
    let p = ((pitch as int + (((p0 as i32 - 2048) as i32) >> 1i32) as int) as i16) as i32;
    if p > 16383 { 16383 } else { p }
}

/// The balance between the saw/triangle part and the square part.
pub open spec fn filter_balance(p1: i16) -> u16 {
    (if p1 < 16384 { p1 as u16 } else { !(p1 as u16) }) << 2u16
}

/// One sample of a filter emulation: a windowed sine resonance at the cutoff
/// over a saw (or triangle) window, and a resonant square made of a
/// windowed, sign-flipped sine and its integral.
pub open spec fn filter_step(s: FilterState, pi: u32, step: u32, ft: u8, p1: i16, sync: u8) -> (FilterState, i16) {
    let mpi = s.increment.wrapping_add(step);
    let gain = (mpi >> 14u32) as u16;
    let synced = sync != 0;
    let phase = if synced { 0u32 } else { s.phase.wrapping_add(pi) };
    let m1 = if synced { 0u32 } else { s.modulator.wrapping_add(mpi) };
    let pol0 = if synced { true } else { s.polarity };
    let sm1 = (if synced { 0u32 } else { s.square_modulator }).wrapping_add(mpi);
    let integ0 = if synced { 0int } else { s.integrator as int };
    let m = if phase < pi { phase_reset(ft as int) } else { m1 };
    let flip = (phase << 1u32) < (pi << 1u32);
    let pol = if flip { !pol0 } else { pol0 };
    let sm = if flip { phase_reset((ft % 2) as int + 2) } else { sm1 };
    let carrier = interpolate_824_i16_spec(WAV_SINE@, m) as int;
    let sq_carrier = interpolate_824_i16_spec(WAV_SINE@, sm) as int;
    let saw = (!(phase >> 16u32)) as u16;
    let double_saw = (!(phase >> 15u32)) as u16;
    let triangle = ((phase >> 15u32) as u16) ^ (if phase & 0x8000_0000u32 != 0 { 0xffffu16 } else { 0u16 });
    let window = if p1 < 16384 { saw } else { triangle };
    let pulse0 = (((sq_carrier * double_saw as int) as i32) >> 16i32) as int;
    let pulse = if pol { -pulse0 } else { pulse0 };
    let integ = clip16_sym_spec((integ0 + ((((pulse * gain as int) as i32) >> 16i32) as int)) as i32);
    let st = if ft & 2u8 != 0 {
        ((((carrier * window as int) as i32) >> 16i32) as i16)
    } else {
        ((((window as i32).wrapping_mul((carrier + 32768) as i32) >> 16i32) as int - 32768) as i16)
    };
    let sq = if ft & 2u8 != 0 {
        pulse as i16
    } else if ft == 1 {
        ((((pulse + integ as int) as i32) >> 1i32) as i16)
    } else {
        integ as i16
    };
    (
        FilterState { phase, modulator: m, square_modulator: sm, integrator: integ as i16, polarity: pol, increment: mpi },
        mix_i16_spec(st, sq, filter_balance(p1)),
    )
}

/// The filter state after `k` samples.
pub open spec fn filter_run(s: FilterState, pi: u32, step: u32, ft: u8, p1: i16, sync: Seq<u8>, k: nat) -> FilterState
    decreases k,
{
    if k == 0 { s } else { filter_step(filter_run(s, pi, step, ft, p1, sync, (k - 1) as nat), pi, step, ft, p1, sync[k - 1]).0 }
}

/// The bounds of the products inside a filter sample.
proof fn lemma_filter_products(sq_carrier: i16, double_saw: u16, carrier: i16, window: u16)
    ensures
        -0x8000_0000 <= (sq_carrier as int) * (double_saw as int) <= 0x7fff_ffff,
        -32768 <= (((sq_carrier as int) * (double_saw as int)) as i32 >> 16i32) <= 32766,
        -0x8000_0000 <= (carrier as int) * (window as int) <= 0x7fff_ffff,
{
    assert(-32768 * 65535 <= (sq_carrier as int) * (double_saw as int) <= 32767 * 65535) by (nonlinear_arith)
        requires -32768 <= sq_carrier <= 32767, 0 <= double_saw <= 65535;
    assert(-32768 * 65535 <= (carrier as int) * (window as int) <= 32767 * 65535) by (nonlinear_arith)
        requires -32768 <= carrier <= 32767, 0 <= window <= 65535;
    let p = ((sq_carrier as int) * (double_saw as int)) as i32;
    lemma_i32_shr(p);
}

/// One sample of a filter emulation.
fn filter_step_exec(s: FilterState, pi: u32, step: u32, ft: u8, p1: i16, sync: u8) -> (r: (FilterState, i16))
    requires
        ft <= 3,
    ensures
        r == filter_step(s, pi, step, ft, p1, sync),
{
    let mpi = s.increment.wrapping_add(step);
    let gain = (mpi >> 14) as u16;
    let synced = sync != 0;
    let phase = if synced { 0u32 } else { s.phase.wrapping_add(pi) };
    let m1 = if synced { 0u32 } else { s.modulator.wrapping_add(mpi) };
    let pol0 = if synced { true } else { s.polarity };
    let sm1 = (if synced { 0u32 } else { s.square_modulator }).wrapping_add(mpi);
    let integ0: i32 = if synced { 0 } else { s.integrator as i32 };
    let m = if phase < pi {
        if ft == 0 { 0u32 } else if ft == 2 { 0x4000_0000u32 } else { 0x8000_0000u32 }
    } else {
        m1
    };
    let flip = (phase << 1) < (pi << 1);
    let pol = if flip { !pol0 } else { pol0 };
    let sm = if flip {
        if ft % 2 == 0 { 0x4000_0000u32 } else { 0x8000_0000u32 }
    } else {
        sm1
    };
    let carrier = interpolate_824_i16(&WAV_SINE, m);
    let sq_carrier = interpolate_824_i16(&WAV_SINE, sm);
    let saw = (!(phase >> 16)) as u16;
    let double_saw = (!(phase >> 15)) as u16;
    let triangle = ((phase >> 15) as u16) ^ (if phase & 0x8000_0000 != 0 { 0xffffu16 } else { 0u16 });
    let window = if p1 < 16384 { saw } else { triangle };
    proof { lemma_filter_products(sq_carrier, double_saw, carrier, window); }
    let pulse0 = (sq_carrier as i32 * double_saw as i32) >> 16;
    let pulse = if pol { -pulse0 } else { pulse0 };
    proof {
        assert(-0x7fff_8000 <= (pulse as int) * (gain as int) <= 0x7fff_8000) by (nonlinear_arith)
            requires -32768 <= pulse <= 32768, 0 <= gain <= 65535;
        let q = (pulse * gain as i32) as i32;
        lemma_i32_shr(q);
    }
    let integ = clip16_sym(integ0 + ((pulse * gain as i32) >> 16));
    let st: i16 = if ft & 2 != 0 {
        ((carrier as i32 * window as i32) >> 16) as i16
    } else {
        let w = (window as i32).wrapping_mul(carrier as i32 + 32768);
        proof { lemma_i32_shr(w); }
        ((w >> 16) - 32768) as i16
    };
    let sq: i16 = if ft & 2 != 0 {
        pulse as i16
    } else if ft == 1 {
        ((pulse + integ) >> 1) as i16
    } else {
        integ as i16
    };
    let balance = (if p1 < 16384 { p1 as u16 } else { !(p1 as u16) }) << 2;
    proof {
        assert(phase_reset(ft as int) == (if ft == 0 { 0u32 } else if ft == 2 { 0x4000_0000u32 } else { 0x8000_0000u32 }));
    }
    (
        FilterState { phase, modulator: m, square_modulator: sm, integrator: integ as i16, polarity: pol, increment: mpi },
        mix_i16(st, sq, balance),
    )
}


// ---------------------------------------------------------------- saw swarm

/// The random source after `n` draws.
pub open spec fn lcg_iter(s: u32, n: nat) -> u32
    decreases n,
{
    if n == 0 { s } else { lcg_next(lcg_iter(s, (n - 1) as nat)) }
}

/// The spread of the swarm: `(p0 + 1024)^2 / 512`.
pub open spec fn swarm_detune(p0: i16) -> i32 {
    (((p0 as int + 1024) * (p0 as int + 1024)) / 512) as i32
}

/// The increment of saw `i` (0..7) of the swarm: detuned by `(i - 3)` times
/// the spread, interpolated between two table pitches.
pub open spec fn swarm_increment(pitch: i16, detune: i32, i: int) -> u32 {
    let saw_detune = detune.wrapping_mul((i - 3) as i32);
    let integral = saw_detune >> 16i32;
    let fractional = saw_detune & 0xffff;
    let a = phase_increment_of(pitch as int + integral as int) as i32;
    let b = phase_increment_of(pitch as int + integral as int + 1) as i32;
    a.wrapping_add(b.wrapping_sub(a).wrapping_mul(fractional) >> 16i32) as u32
}

/// The high-pass cutoff of the swarm: the pitch moved by the second
/// parameter, clamped to `0..=32767`.
pub open spec fn swarm_cutoff(pitch: i16, p1: i16) -> i32 {
    let d = p1 as int - 10922;
    let c = pitch as int + (if p1 < 10922 { (((d * 24) as i32) >> 5i32) as int } else { (((d * 12) as i32) >> 5i32) as int });
    (if c < 0 { 0 } else if c > 32767 { 32767 } else { c }) as i32
}

/// The state of the swarm: the first saw's phase, the other six phases, and
/// the high-pass filter's low-pass and band-pass memories.
#[derive(Clone, Copy)]
pub struct SwarmState {
    pub phase: u32,
    pub saws: [u32; 6],
    pub lp: i32,
    pub bp: i32,
}

/// The swarm state with its six phases as a sequence.
pub struct SwarmView {
    pub phase: u32,
    pub saws: Seq<u32>,
    pub lp: i32,
    pub bp: i32,
}

impl View for SwarmState {
    type V = SwarmView;

    open spec fn view(&self) -> SwarmView {
        SwarmView { phase: self.phase, saws: self.saws@, lp: self.lp, bp: self.bp }
    }
}

/// The sum of the seven saws, through the moderate overdrive.
pub open spec fn swarm_mix(phase: u32, saws: Seq<u32>) -> i32 {
    let sum = -28672 + (phase >> 19u32) as int
        + (saws[0] >> 19u32) as int + (saws[1] >> 19u32) as int + (saws[2] >> 19u32) as int
        + (saws[3] >> 19u32) as int + (saws[4] >> 19u32) as int + (saws[5] >> 19u32) as int;
    interpolate_88_i16_spec(WS_MODERATE_OVERDRIVE@, (sum + 32768) as u16) as i32
}

/// One swarm sample: a sync pulse restarts the six detuned saws; all seven
/// advance; their sum is high-passed by a state-variable filter.
pub open spec fn swarm_step(s: SwarmView, inc: Seq<u32>, f: i32, damp: i32, sync: u8) -> (SwarmView, i16) {
    let saws0 = if sync != 0 { Seq::new(6, |k: int| 0u32) } else { s.saws };
    let phase = s.phase.wrapping_add(inc[0]);
    let saws = Seq::new(6, |k: int| saws0[k].wrapping_add(inc[k + 1]));
    let sample = swarm_mix(phase, saws);
    let notch = sample.wrapping_sub(s.bp.wrapping_mul(damp) >> 15i32);
    let lp = clip16_sym_spec(s.lp.wrapping_add(f.wrapping_mul(s.bp) >> 15i32));
    let hp = notch.wrapping_sub(lp);
    let bp = s.bp.wrapping_add(f.wrapping_mul(hp) >> 15i32);
    (SwarmView { phase, saws, lp, bp }, clip16_sym_spec(hp) as i16)
}

/// The swarm state after `k` samples.
pub open spec fn swarm_run(s: SwarmView, inc: Seq<u32>, f: i32, damp: i32, sync: Seq<u8>, k: nat) -> SwarmView
    decreases k,
{
    if k == 0 { s } else { swarm_step(swarm_run(s, inc, f, damp, sync, (k - 1) as nat), inc, f, damp, sync[k - 1]).0 }
}

/// One swarm sample.
fn swarm_step_exec(s: SwarmState, inc: &[u32; 7], f: i32, damp: i32, sync: u8) -> (r: (SwarmState, i16))
    ensures
        r.0@ == swarm_step(s@, inc@, f, damp, sync).0,
        r.1 == swarm_step(s@, inc@, f, damp, sync).1,
{
    let mut saws = if sync != 0 { [0u32; 6] } else { s.saws };
    let ghost saws0 = saws@;
    let phase = s.phase.wrapping_add(inc[0]);
    let mut k: usize = 0;
    while k < 6
        invariant
            k <= 6,
            saws@.len() == 6,
            saws0.len() == 6,
            forall|j: int| 0 <= j < k ==> #[trigger] saws@[j] == saws0[j].wrapping_add(inc@[j + 1]),
            forall|j: int| k <= j < 6 ==> #[trigger] saws@[j] == saws0[j],
        decreases 6 - k,
    {
        saws[k] = saws[k].wrapping_add(inc[k + 1]);
        k += 1;
    }
    proof {
        assert(sync != 0 ==> saws0 =~= Seq::new(6, |k: int| 0u32));
        assert(saws@ =~= Seq::new(6, |k: int| saws0[k].wrapping_add(inc@[k + 1])));
        lemma_u32_shr(phase);
        lemma_u32_shr(saws[0]);
        lemma_u32_shr(saws[1]);
        lemma_u32_shr(saws[2]);
        lemma_u32_shr(saws[3]);
        lemma_u32_shr(saws[4]);
        lemma_u32_shr(saws[5]);
    }
    let sum: i32 = -28672 + (phase >> 19) as i32
        + (saws[0] >> 19) as i32 + (saws[1] >> 19) as i32 + (saws[2] >> 19) as i32
        + (saws[3] >> 19) as i32 + (saws[4] >> 19) as i32 + (saws[5] >> 19) as i32;
    let sample = interpolate_88_i16(&WS_MODERATE_OVERDRIVE, (sum + 32768) as u16) as i32;
    let notch = sample.wrapping_sub(s.bp.wrapping_mul(damp) >> 15);
    let lp = clip16_sym(s.lp.wrapping_add(f.wrapping_mul(s.bp) >> 15));
    let hp = notch.wrapping_sub(lp);
    let bp = s.bp.wrapping_add(f.wrapping_mul(hp) >> 15);
    let r = (SwarmState { phase, saws, lp, bp }, clip16_sym(hp) as i16);
    r
}


// --------------------------------------------------------------- struck drum

/// The drum's partials, in 1/128 semitone above the pitch.
pub const DRUM_PARTIALS: [i16; 6] = [0, 0, 1041, 1747, 1846, 3072];
/// The drum's partial amplitudes when struck.
pub const DRUM_PARTIAL_AMPLITUDE: [i32; 6] = [16986, 2654, 3981, 5308, 3981, 2985];
/// The drum's per-block partial decays at full sustain.
pub const DRUM_PARTIAL_DECAY_LONG: [u16; 6] = [65533, 65531, 65531, 65531, 65531, 65516];
/// The drum's per-block partial decays at no sustain.
pub const DRUM_PARTIAL_DECAY_SHORT: [u16; 6] = [65083, 64715, 64715, 64715, 64715, 62312];

/// The per-block decay of a partial: from `long` towards `short` as the first
/// parameter falls.
pub open spec fn partial_decay(long: u16, short: u16, p0: i16) -> i32 {
    let b0 = ((32767 - p0 as int) as i32) >> 8i32;
    let balance = ((b0 as int * b0 as int) as i32) >> 7i32;
    (long as int - ((((long as int - short as int) * balance as int) as i32) >> 7i32) as int) as i32
}

/// The drum's partial amplitudes at the end of the block: those of a strike,
/// or the current ones decayed (unless the first parameter sustains fully).
pub open spec fn drum_targets(amp: Seq<i32>, target: Seq<i32>, strike: bool, p0: i16) -> Seq<i32> {
    Seq::new(11, |i: int|
        if i < 6 && strike {
            DRUM_PARTIAL_AMPLITUDE@[i]
        } else if i < 6 && p0 < 32000 {
            amp[i].wrapping_mul(partial_decay(DRUM_PARTIAL_DECAY_LONG@[i], DRUM_PARTIAL_DECAY_SHORT@[i], p0)) >> 16i32
        } else {
            target[i]
        })
}

/// The drum's partial phases at the start of the block: a strike of a
/// nearly silent drum restarts them at a quarter cycle.
pub open spec fn drum_start_phases(phases: Seq<u32>, amp0: i32, strike: bool) -> Seq<u32> {
    Seq::new(11, |i: int| if i < 6 && strike && amp0 < 1024 { 0x4000_0000u32 } else { phases[i] })
}

/// The drum's partial increments (at twice the rate: a sample pair per step).
pub open spec fn drum_increments(pitch: i16, inc: Seq<u32>) -> Seq<u32> {
    Seq::new(11, |i: int| if i < 6 { phase_increment_of(pitch as int + DRUM_PARTIALS@[i] as int) << 1u32 } else { inc[i] })
}

/// The coefficient of the drum's noise low-pass.
pub open spec fn drum_cutoff(pitch: i16, p1: i16) -> i32 {
    let c = pitch as int - 1536 + (p1 >> 2i16) as int;
    let c = if c < 0 { 0 } else if c > 32767 { 32767 } else { c };
    interpolate_824_u16_spec(LUT_SVF_CUTOFF@, ((c as i32) << 16i32) as u32) as i32
}

/// The gain of the drum's partial sum.
pub open spec fn drum_harmonics_gain(p1: i16) -> i32 {
    if p1 < 12888 { (p1 + 4096) as i32 } else { 16384 }
}

/// The share of the second noise mode.
pub open spec fn drum_noise_gain(p1: i16) -> i32 {
    ((((if p1 < 16384 { 0 } else { p1 - 16384 }) * 12888) as i32) >> 14i32)
}

/// A one-pole low-pass step.
pub open spec fn lp_step(state: i32, input: i32, f: i32) -> i32 {
    state.wrapping_add(input.wrapping_sub(state).wrapping_mul(f) >> 15i32)
}

/// Noise clamped to half scale.
pub open spec fn clamp_noise(x: i32) -> i32 {
    if x < -16384 { -16384i32 } else if x > 16384 { 16384i32 } else { x }
}

/// A partial at its ramped amplitude.
pub open spec fn drum_partial(phase: u32, amp: i32, target: i32, fade: i32) -> i32 {
    let a = amp.wrapping_add(target.wrapping_sub(amp).wrapping_mul(fade) >> 15i32);
    (interpolate_824_i16_spec(WAV_SINE@, phase) as i32).wrapping_mul(a) >> 16i32
}

/// The sum of the first `n` partials.
pub open spec fn drum_sum(phases: Seq<u32>, amp: Seq<i32>, target: Seq<i32>, fade: i32, n: nat) -> i32
    decreases n,
{
    if n == 0 {
        0
    } else {
        drum_sum(phases, amp, target, fade, (n - 1) as nat).wrapping_add(drum_partial(phases[n - 1], amp[n - 1], target[n - 1], fade))
    }
}

/// The state of the struck models across a block: the partial phases, the
/// noise low-pass memories, the previous output, the amplitude crossfade and
/// the random source.
pub struct DrumVoice {
    pub phases: Seq<u32>,
    pub lp0: i32,
    pub lp1: i32,
    pub lp2: i32,
    pub previous: i32,
    pub fade: i32,
    pub seed: u32,
}

/// One step of the drum (two output samples): the partials, a low-passed
/// noise ring-modulated by two of them, their sum; the first sample is the
/// average with the previous step.
pub open spec fn drum_step(v: DrumVoice, inc: Seq<u32>, amp: Seq<i32>, target: Seq<i32>, f: i32, hg: i32, nmg: i32, fi: i32) -> (DrumVoice, i16, i16) {
    let fade = v.fade.wrapping_add(fi);
    let seed = lcg_next(v.seed);
    let noise = clamp_noise(((seed >> 16u32) as i16) as i32);
    let lp0 = lp_step(v.lp0, noise, f);
    let lp1 = lp_step(v.lp1, lp0, f);
    let lp2 = lp_step(v.lp2, lp1, f);
    let phases = Seq::new(11, |i: int| if i < 6 { v.phases[i].wrapping_add(inc[i]) } else { v.phases[i] });
    let harmonics = drum_sum(phases, amp, target, fade, 6);
    let n1 = drum_partial(phases[1], amp[1], target[1], fade).wrapping_mul(lp2) >> 8i32;
    let n2 = drum_partial(phases[3], amp[3], target[3], fade).wrapping_mul(lp2) >> 9i32;
    let sample = drum_partial(phases[0], amp[0], target[0], fade)
        .wrapping_add(n1.wrapping_mul(12288i32.wrapping_sub(nmg)) >> 14i32)
        .wrapping_add(n2.wrapping_mul(nmg) >> 14i32)
        .wrapping_add(harmonics.wrapping_mul(hg) >> 14i32);
    let out = clip16_sym_spec(sample);
    (
        DrumVoice { phases, lp0, lp1, lp2, previous: out as int as i32, fade, seed },
        (((out as int + v.previous as int) as i32) >> 1i32) as i16,
        out as i16,
    )
}

/// The drum state after `j` steps.
pub open spec fn drum_run(v: DrumVoice, inc: Seq<u32>, amp: Seq<i32>, target: Seq<i32>, f: i32, hg: i32, nmg: i32, fi: i32, j: nat) -> DrumVoice
    decreases j,
{
    if j == 0 { v } else { drum_step(drum_run(v, inc, amp, target, f, hg, nmg, fi, (j - 1) as nat), inc, amp, target, f, hg, nmg, fi).0 }
}


/// A one-pole low-pass step.
fn lp_step_exec(state: i32, input: i32, f: i32) -> (r: i32)
    ensures
        r == lp_step(state, input, f),
{
    state.wrapping_add(input.wrapping_sub(state).wrapping_mul(f) >> 15)
}

/// A partial at its ramped amplitude.
fn drum_partial_exec(phase: u32, amp: i32, target: i32, fade: i32) -> (r: i32)
    ensures
        r == drum_partial(phase, amp, target, fade),
{
    let a = amp.wrapping_add(target.wrapping_sub(amp).wrapping_mul(fade) >> 15);
    (interpolate_824_i16(&WAV_SINE, phase) as i32).wrapping_mul(a) >> 16
}


/// The per-block decay of a partial.
fn partial_decay_exec(long: u16, short: u16, p0: i16) -> (r: i32)
    ensures
        r == partial_decay(long, short, p0),
{
    let b0 = (32767 - p0 as i32) >> 8;
    proof {
        lemma_i32_shr((32767 - p0 as i32) as i32);
        assert(0 <= b0 * b0 <= 255 * 255) by (nonlinear_arith) requires 0 <= b0 <= 255;
    }
    let sq = b0 * b0;
    proof {
        lemma_i32_shr(sq);
        assert(0 <= sq <= 65025);
        assert(0 <= sq >> 7i32 <= 508);
    }
    let balance = sq >> 7;
    let d = long as i32 - short as i32;
    proof {
        assert(-65535 * 508 <= (d as int) * (balance as int) <= 65535 * 508) by (nonlinear_arith)
            requires -65535 <= d <= 65535, 0 <= balance <= 508;
    }
    let m = d * balance;
    proof {
        lemma_i32_shr(m);
        assert(-260093 <= m >> 7i32 <= 260093);
    }
    long as i32 - (m >> 7)
}


// --------------------------------------------------------------- struck bell

/// The bell's partials, in 1/128 semitone above the pitch.
pub const BELL_PARTIALS: [i16; 11] = [-1284, -1283, -184, -183, 385, 1175, 1536, 2233, 2434, 2934, 3110];
/// The bell's partial amplitudes when struck.
pub const BELL_PARTIAL_AMPLITUDES: [i32; 11] = [8192, 5488, 8192, 14745, 21872, 13680, 11960, 10895, 10895, 6144, 10895];
/// The bell's per-block partial decays at full sustain.
pub const BELL_PARTIAL_DECAY_LONG: [u16; 11] = [65533, 65533, 65533, 65532, 65531, 65531, 65530, 65529, 65527, 65523, 65519];
/// The bell's per-block partial decays at no sustain.
pub const BELL_PARTIAL_DECAY_SHORT: [u16; 11] = [65308, 65283, 65186, 65123, 64839, 64889, 64632, 64409, 64038, 63302, 62575];

/// The bell's partial amplitudes for the block: those of a strike or the
/// current ones, decayed (unless the first parameter sustains fully).
pub open spec fn bell_amplitudes(amp: Seq<i32>, strike: bool, p0: i16) -> Seq<i32> {
    Seq::new(11, |i: int| {
        let a = if strike { BELL_PARTIAL_AMPLITUDES@[i] } else { amp[i] };
        if p0 < 32000 { a.wrapping_mul(partial_decay(BELL_PARTIAL_DECAY_LONG@[i], BELL_PARTIAL_DECAY_SHORT@[i], p0)) >> 16i32 } else { a }
    })
}

/// The bell's partial phases at the start of the block: a strike restarts
/// them all at a quarter cycle.
pub open spec fn bell_start_phases(phases: Seq<u32>, strike: bool) -> Seq<u32> {
    if strike { Seq::new(11, |i: int| 0x4000_0000u32) } else { phases }
}

/// The pitch of bell partial `i`, spread apart by the second parameter
/// (odd partials up, even ones down).
pub open spec fn bell_partial_pitch(pitch: i16, p1: i16, i: int) -> int {
    let spread = (p1 >> 7i16) as int;
    pitch as int + BELL_PARTIALS@[i] as int + (if i % 2 == 1 { spread } else { -spread })
}

/// The bell's partial increments: a block retunes three partials in turn
/// (all of them on a strike).
pub open spec fn bell_increments(pitch: i16, p1: i16, inc: Seq<u32>, first: usize, strike: bool) -> Seq<u32> {
    Seq::new(11, |i: int|
        if strike || (first <= i && i < first + 3) {
            phase_increment_of(bell_partial_pitch(pitch, p1, i)) << 1u32
        } else {
            inc[i]
        })
}

/// A bell partial at its amplitude.
pub open spec fn bell_partial(phase: u32, amp: i32) -> i32 {
    (interpolate_824_i16_spec(WAV_SINE@, phase) as i32).wrapping_mul(amp) >> 17i32
}

/// The sum of the first `n` bell partials.
pub open spec fn bell_sum(phases: Seq<u32>, amp: Seq<i32>, n: nat) -> i32
    decreases n,
{
    if n == 0 { 0 } else { bell_sum(phases, amp, (n - 1) as nat).wrapping_add(bell_partial(phases[n - 1], amp[n - 1])) }
}

/// The bell's state across a block: the partial phases and the previous
/// output.
pub struct BellVoice {
    pub phases: Seq<u32>,
    pub previous: i32,
}

/// One step of the bell (two output samples): the sum of its partials; the
/// first sample is the average with the previous step.
pub open spec fn bell_step(v: BellVoice, inc: Seq<u32>, amp: Seq<i32>) -> (BellVoice, i16, i16) {
    let phases = Seq::new(11, |i: int| v.phases[i].wrapping_add(inc[i]));
    let out = clip16_sym_spec(bell_sum(phases, amp, 11));
    (
        BellVoice { phases, previous: out },
        (((out as int + v.previous as int) as i32) >> 1i32) as i16,
        out as i16,
    )
}

/// The bell state after `j` steps.
pub open spec fn bell_run(v: BellVoice, inc: Seq<u32>, amp: Seq<i32>, j: nat) -> BellVoice
    decreases j,
{
    if j == 0 { v } else { bell_step(bell_run(v, inc, amp, (j - 1) as nat), inc, amp).0 }
}

pub struct DigitalOscillator {
    phase: u32,
    phase_increment: u32,
    delay: u32,
    parameter: [i16; 2],
    pitch: i16,
    init: bool,
    strike: bool,
    shape: DigitalModel,
    previous_shape: DigitalModel,
    rng: Random,
    // ring modulator
    modulator_phases: [u32; 2],
    // saw swarm
    saw_phase: [u32; 6],
    saw_lp: i32,
    saw_bp: i32,
    // comb filter
    filtered_pitch: i16,
    comb: [i16; 8192],
    // toy
    toy_held_sample: u8,
    toy_decimation_counter: u16,
    // digital filters
    modulator_phase: u32,
    modulator_phase_increment: u32,
    square_modulator_phase: u32,
    integrator: i16,
    polarity: bool,
    // additive models (struck bell and drum)
    partial_phase: [u32; 11],
    partial_phase_increment: [u32; 11],
    partial_amplitude: [i32; 11],
    target_partial_amplitude: [i32; 11],
    add_previous_sample: i16,
    lp_noise: [i32; 3],
    current_partial: usize,
    // plucked strings and their delay lines
    pluck: PluckBank,
    ks: [i16; 4100],
    // digital modulation
    modem: ModemState,
    // clocked noise
    previous_parameter: [i16; 2],
    clock: ClockState,
    // harmonics
    hrm_amplitude: [i16; 12],
    // vowel FOF
    fof_lp: [i16; 5],
    fof_bp: [i16; 5],
    fof_carry: SawCarry,
    fof_previous_sample: i16,
    // feedback FM
    ffm_previous_sample: i16,
    ffm_modulator_phase: u32,
    // the drum's pulses, resonator and output low-pass
    pulse0: Excitation,
    pulse1: Excitation,
    pulse2: Excitation,
    svf0: Svf,
    kick_lp: i16,
    // the snare's fourth pulse and its other two filters
    pulse3: Excitation,
    svf1: Svf,
    svf2: Svf,
    // the cymbal's square waves and noise
    hat_phase: [u32; 6],
    hat_rng: u32,
}

impl DigitalOscillator {
    pub closed spec fn phase(self) -> u32 { self.phase }
    pub closed spec fn increment(self) -> u32 { self.phase_increment }
    pub closed spec fn delay(self) -> u32 { self.delay }
    pub closed spec fn parameter(self, i: int) -> i16 { self.parameter@[i] }
    pub closed spec fn pitch(self) -> i16 { self.pitch }
    pub closed spec fn needs_init(self) -> bool { self.init }
    pub closed spec fn struck(self) -> bool { self.strike }
    pub closed spec fn shape(self) -> DigitalModel { self.shape }
    pub closed spec fn previous_shape(self) -> DigitalModel { self.previous_shape }
    pub closed spec fn rng(self) -> Random { self.rng }
    pub closed spec fn modulator_phases(self) -> (u32, u32) { (self.modulator_phases@[0], self.modulator_phases@[1]) }

    /// The per-model state is all zero.
    pub closed spec fn state_is_clear(self) -> bool {
        &&& self.modulator_phases@ == seq![0u32, 0u32]
        &&& self.saw_phase@ == Seq::new(6, |i: int| 0u32)
        &&& self.saw_lp == 0
        &&& self.saw_bp == 0
        &&& self.filtered_pitch == 0
        &&& self.toy_held_sample == 0
        &&& self.toy_decimation_counter == 0
        &&& self.modulator_phase == 0
        &&& self.modulator_phase_increment == 0
        &&& self.square_modulator_phase == 0
        &&& self.integrator == 0
        &&& !self.polarity
        &&& self.partial_phase@ == Seq::new(11, |i: int| 0u32)
        &&& self.partial_phase_increment@ == Seq::new(11, |i: int| 0u32)
        &&& self.partial_amplitude@ == Seq::new(11, |i: int| 0i32)
        &&& self.target_partial_amplitude@ == Seq::new(11, |i: int| 0i32)
        &&& self.add_previous_sample == 0
        &&& self.lp_noise@ == seq![0i32, 0i32, 0i32]
        &&& self.current_partial == 0
        &&& self.pluck.voices() == Seq::new(4, |j: int| silent_voice())
        &&& self.modem == idle_modem()
        &&& self.clock == idle_clock()
        &&& self.hrm_amplitude@ == Seq::new(12, |i: int| 0i16)
        &&& self.fof_lp@ == Seq::new(5, |i: int| 0i16)
        &&& self.fof_bp@ == Seq::new(5, |i: int| 0i16)
        &&& self.fof_carry.value() == 0
        &&& self.fof_previous_sample == 0
        &&& self.ffm_previous_sample == 0
        &&& self.ffm_modulator_phase == 0
        &&& self.kick_lp == 0
        &&& self.hat_phase@ == Seq::new(6, |i: int| 0u32)
        &&& self.hat_rng == 0
    }

    /// This oscillator with another shape.
    pub closed spec fn with_shape(self, shape: DigitalModel) -> Self { DigitalOscillator { shape, ..self } }
    /// This oscillator with another pitch.
    pub closed spec fn with_pitch(self, pitch: i16) -> Self { DigitalOscillator { pitch, ..self } }
    /// This oscillator with other parameters.
    pub closed spec fn with_parameters(self, p1: i16, p2: i16) -> Self {
        DigitalOscillator { parameter: [p1, p2], ..self }
    }
    /// This oscillator, struck.
    pub closed spec fn with_strike(self) -> Self { DigitalOscillator { strike: true, ..self } }

    /// Another pitch keeps the phase, the increment, the parameters, the
    /// model and the strike.
    pub proof fn lemma_with_pitch(self, pitch: i16)
        ensures
            ({
                let o = self.with_pitch(pitch);
                &&& o.pitch() == pitch
                &&& o.phase() == self.phase()
                &&& o.increment() == self.increment()
                &&& o.delay() == self.delay()
                &&& o.parameter(0) == self.parameter(0) && o.parameter(1) == self.parameter(1)
                &&& o.shape() == self.shape()
                &&& o.previous_shape() == self.previous_shape()
                &&& o.struck() == self.struck()
                &&& o.needs_init() == self.needs_init()
                &&& o.rng() == self.rng()
            }),
    {
    }

    /// The parameter `i` held from the previous block.
    pub closed spec fn previous_param(self, i: int) -> i16 {
        self.previous_parameter@[i]
    }

    /// The clocked noise has levels to quantize to exactly when its second
    /// parameter, as held, is not negative.
    pub proof fn lemma_clock_levels(self, p0: i16, p1: i16, pitch: i16, shape: DigitalModel)
        ensures
            self.with_parameters(p0, p1).with_pitch(pitch).with_shape(shape).clock_levels_ok()
                == (held_parameter(self.previous_param(1), p1, 64) >= 0),
    {
    }

    /// The second parameter as the clocked noise would hold it with the
    /// fresh value `p1`.
    pub fn held_second_parameter(&self, p1: i16) -> (r: i16)
        ensures
            r == held_parameter(self.previous_param(1), p1, 64),
    {
        let h = self.previous_parameter[1];
        if p1 as i32 > h as i32 + 64 || (p1 as i32) < h as i32 - 64 { p1 } else { h }
    }

    /// Setting the parameters, then the pitch, then the model leaves the
    /// parameters as set.
    pub proof fn lemma_set_parameters(self, p1: i16, p2: i16, pitch: i16, shape: DigitalModel)
        ensures
            self.with_parameters(p1, p2).with_pitch(pitch).with_shape(shape).parameter(0) == p1,
            self.with_parameters(p1, p2).with_pitch(pitch).with_shape(shape).parameter(1) == p2,
    {
    }

    /// A ring modulator at pitch 0, phase 0, struck, with its state clear.
    pub fn new() -> (r: Self)
        ensures
            r.phase() == 0,
            r.increment() == 0,
            r.delay() == 0,
            r.parameter(0) == 0,
            r.parameter(1) == 0,
            r.pitch() == 0,
            r.needs_init(),
            r.struck(),
            r.shape() == DigitalModel::TripleRingMod,
            r.previous_shape() == DigitalModel::TripleRingMod,
            r.rng().state() == 0x21,
            r.state_is_clear(),
    {
        let r = DigitalOscillator {
            phase: 0,
            phase_increment: 0,
            delay: 0,
            parameter: [0, 0],
            pitch: 0,
            init: true,
            strike: true,
            shape: DigitalModel::TripleRingMod,
            previous_shape: DigitalModel::TripleRingMod,
            rng: Random::new(),
            modulator_phases: [0, 0],
            saw_phase: [0, 0, 0, 0, 0, 0],
            saw_lp: 0,
            saw_bp: 0,
            filtered_pitch: 0,
            comb: [0; 8192],
            toy_held_sample: 0,
            toy_decimation_counter: 0,
            modulator_phase: 0,
            modulator_phase_increment: 0,
            square_modulator_phase: 0,
            integrator: 0,
            polarity: false,
            partial_phase: [0; 11],
            partial_phase_increment: [0; 11],
            partial_amplitude: [0; 11],
            target_partial_amplitude: [0; 11],
            add_previous_sample: 0,
            lp_noise: [0, 0, 0],
            current_partial: 0,
            pluck: PluckBank::new(),
            ks: [0; 4100],
            modem: ModemState { symbol_phase: 0, symbol_count: 0, filter: 0, data_byte: 0 },
            previous_parameter: [0, 0],
            clock: ClockState { cycle_phase: 0, cycle_increment: 0, rng_state: 0, seed: 0, sample: 0 },
            hrm_amplitude: [0, 0, 0, 0, 0, 0, 0, 0, 0, 0, 0, 0],
            fof_lp: [0, 0, 0, 0, 0],
            fof_bp: [0, 0, 0, 0, 0],
            fof_carry: SawCarry::new(),
            fof_previous_sample: 0,
            ffm_previous_sample: 0,
            ffm_modulator_phase: 0,
            pulse0: Excitation::new(),
            pulse1: Excitation::new(),
            pulse2: Excitation::new(),
            svf0: Svf::new(),
            kick_lp: 0,
            pulse3: Excitation::new(),
            svf1: Svf::new(),
            svf2: Svf::new(),
            hat_phase: [0, 0, 0, 0, 0, 0],
            hat_rng: 0,
        };
        assert(r.hat_phase@ =~= Seq::new(6, |i: int| 0u32));
        assert(r.fof_lp@ =~= Seq::new(5, |i: int| 0i16));
        assert(r.fof_bp@ =~= Seq::new(5, |i: int| 0i16));
        assert(r.hrm_amplitude@ =~= Seq::new(12, |i: int| 0i16));
        assert(r.partial_phase@ =~= Seq::new(11, |i: int| 0u32));
        assert(r.partial_phase_increment@ =~= Seq::new(11, |i: int| 0u32));
        assert(r.partial_amplitude@ =~= Seq::new(11, |i: int| 0i32));
        assert(r.target_partial_amplitude@ =~= Seq::new(11, |i: int| 0i32));
        assert(r.lp_noise@ =~= seq![0i32, 0i32, 0i32]);
        assert(r.saw_phase@ =~= Seq::new(6, |i: int| 0u32));
        assert(r.modulator_phases@ =~= seq![0u32, 0u32]);
        r
    }

    /// The oscillator with its per-model state cleared, its phase at 0, and
    /// marked for initialisation and struck.
    pub closed spec fn cleared(self) -> Self {
        DigitalOscillator {
            phase: 0,
            strike: true,
            init: true,
            modulator_phases: [0, 0],
            saw_phase: [0, 0, 0, 0, 0, 0],
            saw_lp: 0,
            saw_bp: 0,
            filtered_pitch: 0,
            toy_held_sample: 0,
            toy_decimation_counter: 0,
            modulator_phase: 0,
            modulator_phase_increment: 0,
            square_modulator_phase: 0,
            integrator: 0,
            polarity: false,
            partial_phase: [0u32, 0, 0, 0, 0, 0, 0, 0, 0, 0, 0],
            partial_phase_increment: [0u32, 0, 0, 0, 0, 0, 0, 0, 0, 0, 0],
            partial_amplitude: [0i32, 0, 0, 0, 0, 0, 0, 0, 0, 0, 0],
            target_partial_amplitude: [0i32, 0, 0, 0, 0, 0, 0, 0, 0, 0, 0],
            add_previous_sample: 0,
            lp_noise: [0, 0, 0],
            current_partial: 0,
            pluck: self.pluck.cleared(),
            modem: idle_modem(),
            clock: idle_clock(),
            hrm_amplitude: [0i16, 0, 0, 0, 0, 0, 0, 0, 0, 0, 0, 0],
            fof_lp: [0i16, 0, 0, 0, 0],
            fof_bp: [0i16, 0, 0, 0, 0],
            fof_carry: SawCarry::zero(),
            fof_previous_sample: 0,
            ffm_previous_sample: 0,
            ffm_modulator_phase: 0,
            pulse0: self.pulse0.reset(),
            pulse1: self.pulse1.reset(),
            pulse2: self.pulse2.reset(),
            svf0: self.svf0.cleared(),
            kick_lp: 0,
            pulse3: self.pulse3.reset(),
            svf1: self.svf1.cleared(),
            svf2: self.svf2.cleared(),
            hat_phase: [0u32, 0, 0, 0, 0, 0],
            hat_rng: 0,
            ..self
        }
    }

    /// Clears the per-model state and the phase, and marks the oscillator for
    /// initialisation and struck.
    pub fn init(&mut self)
        ensures
            *final(self) == old(self).cleared(),
            final(self).state_is_clear(),
    {
        self.modulator_phases = [0, 0];
        self.saw_phase = [0, 0, 0, 0, 0, 0];
        self.saw_lp = 0;
        self.saw_bp = 0;
        self.filtered_pitch = 0;
        self.toy_held_sample = 0;
        self.toy_decimation_counter = 0;
        self.modulator_phase = 0;
        self.modulator_phase_increment = 0;
        self.square_modulator_phase = 0;
        self.integrator = 0;
        self.polarity = false;
        self.partial_phase = [0, 0, 0, 0, 0, 0, 0, 0, 0, 0, 0];
        self.partial_phase_increment = [0, 0, 0, 0, 0, 0, 0, 0, 0, 0, 0];
        self.partial_amplitude = [0, 0, 0, 0, 0, 0, 0, 0, 0, 0, 0];
        self.target_partial_amplitude = [0, 0, 0, 0, 0, 0, 0, 0, 0, 0, 0];
        self.add_previous_sample = 0;
        self.lp_noise = [0, 0, 0];
        self.current_partial = 0;
        self.pluck.clear();
        self.modem = ModemState { symbol_phase: 0, symbol_count: 0, filter: 0, data_byte: 0 };
        self.clock = ClockState { cycle_phase: 0, cycle_increment: 0, rng_state: 0, seed: 0, sample: 0 };
        self.hrm_amplitude = [0, 0, 0, 0, 0, 0, 0, 0, 0, 0, 0, 0];
        self.fof_lp = [0, 0, 0, 0, 0];
        self.fof_bp = [0, 0, 0, 0, 0];
        self.fof_carry.clear();
        self.fof_previous_sample = 0;
        self.ffm_previous_sample = 0;
        self.ffm_modulator_phase = 0;
        self.pulse0.init();
        self.pulse1.init();
        self.pulse2.init();
        self.svf0.init();
        self.kick_lp = 0;
        self.pulse3.init();
        self.svf1.init();
        self.svf2.init();
        self.hat_phase = [0, 0, 0, 0, 0, 0];
        self.hat_rng = 0;
        self.phase = 0;
        self.strike = true;
        self.init = true;
        proof {
            old(self).pluck.lemma_cleared();
        }
        assert(self.saw_phase@ =~= Seq::new(6, |i: int| 0u32));
        assert(self.modulator_phases@ =~= seq![0u32, 0u32]);
        assert(self.partial_phase@ =~= Seq::new(11, |i: int| 0u32));
        assert(self.partial_phase_increment@ =~= Seq::new(11, |i: int| 0u32));
        assert(self.partial_amplitude@ =~= Seq::new(11, |i: int| 0i32));
        assert(self.target_partial_amplitude@ =~= Seq::new(11, |i: int| 0i32));
        assert(self.lp_noise@ =~= seq![0i32, 0i32, 0i32]);
        assert(self.hrm_amplitude@ =~= Seq::new(12, |i: int| 0i16));
        assert(self.fof_lp@ =~= Seq::new(5, |i: int| 0i16));
        assert(self.fof_bp@ =~= Seq::new(5, |i: int| 0i16));
        assert(self.hat_phase@ =~= Seq::new(6, |i: int| 0u32));
        proof {
            SawCarry::lemma_zero();
        }
    }

    /// Selects the model used by the next `render`.
    pub fn set_shape(&mut self, shape: DigitalModel)
        ensures
            *final(self) == old(self).with_shape(shape),
            final(self).shape() == shape,
    {
        self.shape = shape;
    }

    /// Sets the pitch (MIDI note times 128); above note 90 the new pitch is
    /// averaged with the old one to smooth a noisy control voltage.
    pub fn set_pitch(&mut self, pitch: i16)
        ensures
            *final(self) == old(self).with_pitch(smoothed_pitch(old(self).pitch(), pitch)),
            final(self).shape() == old(self).shape(),
    {
        if self.pitch > 11520 && pitch > 11520 {
            let s = self.pitch as i32 + pitch as i32;
            proof { lemma_i32_shr(s); }
            self.pitch = (s >> 1) as i16;
        } else {
            self.pitch = pitch;
        }
    }

    /// Sets the two timbre parameters.
    pub fn set_parameters(&mut self, parameter_1: i16, parameter_2: i16)
        ensures
            *final(self) == old(self).with_parameters(parameter_1, parameter_2),
            final(self).shape() == old(self).shape(),
            final(self).pitch() == old(self).pitch(),
    {
        self.parameter = [parameter_1, parameter_2];
    }

    /// The phase increment computed by the last `render`.
    pub fn phase_increment(&self) -> (r: u32)
        ensures
            r == self.increment(),
    {
        self.phase_increment
    }

    /// Strikes the percussive models at the next `render`.
    pub fn strike(&mut self)
        ensures
            *final(self) == old(self).with_strike(),
    {
        self.strike = true;
    }

    fn render_triple_ring_mod(&mut self, sync: &[u8], buffer: &mut [i16], size: usize)
        requires
            size <= sync@.len(),
            size <= old(buffer)@.len(),
            0 <= old(self).pitch() <= 17920,
        ensures
            final(buffer)@.len() == old(buffer)@.len(),
            ({
                let o = *old(self);
                let start = (o.phase.wrapping_add(0x4000_0000), o.modulator_phases@[0], o.modulator_phases@[1]);
                let mi1 = ring_increment(o.pitch, o.parameter@[0]);
                let mi2 = ring_increment(o.pitch, o.parameter@[1]);
                let end = ring_phases(start, o.phase_increment, mi1, mi2, sync@, size as nat);
                &&& forall|k: int| 0 <= k < size ==> #[trigger] final(buffer)@[k]
                    == ring_sample(ring_phases(start, o.phase_increment, mi1, mi2, sync@, (k + 1) as nat))
                &&& forall|k: int| size <= k < old(buffer)@.len() ==> #[trigger] final(buffer)@[k] == old(buffer)@[k]
                &&& *final(self) == (DigitalOscillator {
                    phase: end.0.wrapping_sub(0x4000_0000),
                    modulator_phases: [end.1, end.2],
                    ..o
                })
            }),
    {
        let ghost o = *self;
        let mut phase = self.phase.wrapping_add(0x4000_0000);
        let increment = self.phase_increment;
        let mut modulator_phase = self.modulator_phases[0];
        let mut modulator_phase_2 = self.modulator_phases[1];
        let mi1 = compute_phase_increment_digital(detuned_pitch(self.pitch, self.parameter[0]));
        let mi2 = compute_phase_increment_digital(detuned_pitch(self.pitch, self.parameter[1]));
        let ghost start = (phase, modulator_phase, modulator_phase_2);
        let mut i: usize = 0;
        while i < size
            invariant
                i <= size,
                size <= sync@.len(),
                buffer@.len() == old(buffer)@.len(),
                size <= buffer@.len(),
                (phase, modulator_phase, modulator_phase_2) == ring_phases(start, increment, mi1, mi2, sync@, i as nat),
                forall|k: int| 0 <= k < i ==> #[trigger] buffer@[k]
                    == ring_sample(ring_phases(start, increment, mi1, mi2, sync@, (k + 1) as nat)),
                forall|k: int| size <= k < buffer@.len() ==> #[trigger] buffer@[k] == old(buffer)@[k],
            decreases size - i,
        {
            phase = phase.wrapping_add(increment);
            if sync[i] != 0 {
                phase = 0;
                modulator_phase = 0;
                modulator_phase_2 = 0;
            }
            modulator_phase = modulator_phase.wrapping_add(mi1);
            modulator_phase_2 = modulator_phase_2.wrapping_add(mi2);
            let a = interpolate_824_i16(&WAV_SINE, phase);
            let b = interpolate_824_i16(&WAV_SINE, modulator_phase);
            proof { lemma_ring(a, b); }
            let r = ((a as i32 * b as i32) >> 16) as i16;
            let c = interpolate_824_i16(&WAV_SINE, modulator_phase_2);
            proof { lemma_ring(r, c); }
            let r = ((r as i32 * c as i32) >> 16) as i16;
            buffer[i] = interpolate_88_i16(&WS_MODERATE_OVERDRIVE, (r as i32 + 32768) as u16);
            i += 1;
        }
        self.phase = phase.wrapping_sub(0x4000_0000);
        self.modulator_phases = [modulator_phase, modulator_phase_2];
    }
    fn render_comb(&mut self, buffer: &mut [i16], size: usize)
        requires
            size <= old(buffer)@.len(),
            0 <= old(self).pitch() <= 17920,
        ensures
            final(buffer)@.len() == old(buffer)@.len(),
            ({
                let o = *old(self);
                let f = comb_filtered_pitch(o.filtered_pitch, o.pitch, o.parameter@[0]);
                let d = comb_delay(f);
                let di = (d >> 16u32) as int;
                let df = (d & 0xffff) as i32;
                let res = comb_resonance(o.parameter@[1]);
                let run = |k: nat| comb_run(o.comb@, (o.phase % 8192) as int, old(buffer)@, di, df, res, k);
                &&& forall|k: int| 0 <= k < size ==> #[trigger] final(buffer)@[k]
                    == comb_out(old(buffer)@[k], comb_delayed(run(k as nat).0, run(k as nat).1, di, df))
                &&& forall|k: int| size <= k < old(buffer)@.len() ==> #[trigger] final(buffer)@[k] == old(buffer)@[k]
                &&& *final(self) == (DigitalOscillator {
                    filtered_pitch: f,
                    comb: final(self).comb,
                    phase: run(size as nat).1 as u32,
                    ..o
                })
                &&& final(self).comb@ == run(size as nat).0
            }),
    {
        let ghost o = *self;
        let p0 = self.parameter[0] as i32 - 16384;
        proof {
            lemma_i32_shr(p0);
        }
        let pitch = self.pitch as i32 + (p0 >> 1);
        let filtered = (15 * (self.filtered_pitch as i32) + pitch) >> 4;
        proof {
            let x = (15 * (o.filtered_pitch as i32) + pitch) as i32;
            lemma_i32_shr(x);
        }
        self.filtered_pitch = filtered as i16;
        let mut delay = compute_delay(self.filtered_pitch as i32);
        if delay > 8192 * 65536 {
            delay = 8192 * 65536;
        }
        let delay_integral = (delay >> 16) as usize;
        let delay_fractional = (delay & 0xffff) as i32;
        proof {
            lemma_u32_shr(delay);
            lemma_i32_shr(delay_fractional);
        }
        let p1 = (self.parameter[1] as i32) << 1;
        proof {
            let q = o.parameter@[1] as i32;
            lemma_i32_shl(q);
        }
        let resonance = interpolate_88_i16(&WS_MODERATE_OVERDRIVE, ((p1 - 32768) + 32768) as u16) as i32;
        let ghost di = delay_integral as int;
        let ghost ptr0 = (o.phase % 8192) as int;
        let mut delay_ptr = (self.phase as usize) % 8192;
        let mut i: usize = 0;
        while i < size
            invariant
                i <= size,
                buffer@.len() == old(buffer)@.len(),
                size <= buffer@.len(),
                delay_integral <= 8192,
                di == delay_integral as int,
                0 <= delay_fractional <= 0xffff,
                -32768 <= resonance <= 32767,
                delay_ptr < 8192,
                self.comb@.len() == 8192,
                (self.comb@, delay_ptr as int) == comb_run(o.comb@, ptr0, old(buffer)@, di, delay_fractional, resonance, i as nat),
                forall|k: int| 0 <= k < i ==> #[trigger] buffer@[k] == comb_out(old(buffer)@[k],
                    comb_delayed(comb_run(o.comb@, ptr0, old(buffer)@, di, delay_fractional, resonance, k as nat).0,
                        comb_run(o.comb@, ptr0, old(buffer)@, di, delay_fractional, resonance, k as nat).1, di, delay_fractional)),
                forall|k: int| i <= k < buffer@.len() ==> #[trigger] buffer@[k] == old(buffer)@[k],
                *self == (DigitalOscillator { filtered_pitch: filtered as i16, comb: self.comb, ..o }),
            decreases size - i,
        {
            let ghost run_i = comb_run(o.comb@, ptr0, old(buffer)@, di, delay_fractional, resonance, i as nat);
            let ghost before = self.comb@;
            let input = buffer[i];
            assert(input == old(buffer)@[i as int]);
            let out = self.comb_step(delay_ptr, input, delay_integral, delay_fractional, resonance);
            proof {
                let next = comb_run(o.comb@, ptr0, old(buffer)@, di, delay_fractional, resonance, (i + 1) as nat);
                assert(run_i.0 == before);
                assert(run_i.1 == delay_ptr as int);
                assert(self.comb@ == before.update(delay_ptr as int, comb_feedback(comb_delayed(before, delay_ptr as int, di, delay_fractional), resonance, input)));
                assert(next == (before.update(delay_ptr as int, comb_feedback(comb_delayed(before, delay_ptr as int, di, delay_fractional), resonance, input)), ((delay_ptr + 1) % 8192) as int));
                assert(next.0 =~= self.comb@);
                assert(next.1 == ((delay_ptr + 1) % 8192) as int);
            }
            buffer[i] = out;
            delay_ptr = (delay_ptr + 1) % 8192;
            i += 1;
        }
        self.phase = delay_ptr as u32;
    }

    /// One comb sample: reads the delayed sample `di + df / 65536` behind `ptr`,
    /// writes the feedback at `ptr`, and returns the output.
    fn comb_step(&mut self, ptr: usize, input: i16, di: usize, df: i32, res: i32) -> (out: i16)
        requires
            ptr < 8192,
            di <= 8192,
            0 <= df <= 0xffff,
            -32768 <= res <= 32767,
        ensures
            final(self).comb@ == old(self).comb@.update(ptr as int, comb_feedback(comb_delayed(old(self).comb@, ptr as int, di as int, df), res, input)),
            *final(self) == (DigitalOscillator { comb: final(self).comb, ..*old(self) }),
            out == comb_out(input, comb_delayed(old(self).comb@, ptr as int, di as int, df)),
    {
        let input = input as i32;
        let offset = ptr + 16384 - di;
        let a = self.comb[offset % 8192];
        let b = self.comb[(offset - 1) % 8192];
        proof {
            lemma_i32_shr(df);
        }
        let t = df >> 1;
        proof { lemma_tap_mix(a, b, t); }
        let delayed = a as i32 + (((b as i32 - a as i32) * t) >> 15);
        proof {
            assert(-0x4000_0000 <= (delayed as int) * (res as int) <= 0x4000_0000) by (nonlinear_arith)
                requires -32768 <= delayed <= 32767, -32768 <= res <= 32767;
            let m = (delayed * res) as i32;
            lemma_i32_shr(m);
            lemma_i32_shr(input);
            lemma_i32_shl(delayed);
        }
        let feedback = clip16_sym(((delayed * res) >> 15) + (input >> 1));
        self.comb[ptr] = feedback as i16;
        clip16_sym((input + (delayed << 1)) >> 1) as i16
    }

    fn render_toy(&mut self, sync: &[u8], buffer: &mut [i16], size: usize)
        requires
            size <= sync@.len(),
            size <= old(buffer)@.len(),
        ensures
            final(buffer)@.len() == old(buffer)@.len(),
            ({
                let o = *old(self);
                let pi = o.phase_increment >> 2u32;
                let count = 512u16.wrapping_sub((o.parameter@[0] as u16) >> 6u16);
                let x = (o.parameter@[1] >> 8i16) as u8;
                let s0 = (o.phase, o.toy_decimation_counter, o.toy_held_sample);
                let end = toy_run(s0, pi, count, x, sync@, size as nat);
                &&& forall|k: int| 0 <= k < size ==> #[trigger] final(buffer)@[k]
                    == toy_output(toy_entry(toy_run(s0, pi, count, x, sync@, k as nat), sync@[k]), pi, count, x)
                &&& forall|k: int| size <= k < old(buffer)@.len() ==> #[trigger] final(buffer)@[k] == old(buffer)@[k]
                &&& *final(self) == (DigitalOscillator {
                    phase_increment: pi,
                    phase: end.0,
                    toy_decimation_counter: end.1,
                    toy_held_sample: end.2,
                    ..o
                })
            }),
    {
        let ghost o = *self;
        self.phase_increment = self.phase_increment >> 2;
        let pi = self.phase_increment;
        let count = 512u16.wrapping_sub((self.parameter[0] as u16) >> 6);
        let x = (self.parameter[1] >> 8) as u8;
        let mut st = (self.phase, self.toy_decimation_counter, self.toy_held_sample);
        let ghost s0 = st;
        let mut i: usize = 0;
        while i < size
            invariant
                i <= size,
                size <= sync@.len(),
                buffer@.len() == old(buffer)@.len(),
                size <= buffer@.len(),
                st == toy_run(s0, pi, count, x, sync@, i as nat),
                forall|k: int| 0 <= k < i ==> #[trigger] buffer@[k]
                    == toy_output(toy_entry(toy_run(s0, pi, count, x, sync@, k as nat), sync@[k]), pi, count, x),
                forall|k: int| size <= k < buffer@.len() ==> #[trigger] buffer@[k] == old(buffer)@[k],
            decreases size - i,
        {
            if sync[i] != 0 {
                st = (0, st.1, st.2);
            }
            let ghost entry = st;
            let t1 = toy_tap_exec(st, pi, count, x);
            let t2 = toy_tap_exec(t1, pi, count, x);
            let t3 = toy_tap_exec(t2, pi, count, x);
            let t4 = toy_tap_exec(t3, pi, count, x);
            proof {
                assert(toy_taps(entry, pi, count, x, 0) == entry);
                assert(t1 == toy_taps(entry, pi, count, x, 1));
                assert(t2 == toy_taps(entry, pi, count, x, 2));
                assert(t3 == toy_taps(entry, pi, count, x, 3));
                assert(t4 == toy_taps(entry, pi, count, x, 4));
            }
            let filtered: u32 = 10530 * (t1.2 as u32) + 14751 * (t2.2 as u32) + 16384 * (t3.2 as u32) + 14751 * (t4.2 as u32);
            buffer[i] = ((filtered >> 8).wrapping_sub(28208)) as i16;
            st = t4;
            i += 1;
        }
        self.phase = st.0;
        self.toy_decimation_counter = st.1;
        self.toy_held_sample = st.2;
    }

    /// The filter state this oscillator holds.
    pub closed spec fn filter_state(self) -> FilterState {
        FilterState {
            phase: self.phase,
            modulator: self.modulator_phase,
            square_modulator: self.square_modulator_phase,
            integrator: self.integrator,
            polarity: self.polarity,
            increment: self.modulator_phase_increment,
        }
    }

    /// This oscillator holding another filter state.
    pub closed spec fn with_filter_state(self, f: FilterState) -> Self {
        DigitalOscillator {
            phase: f.phase,
            modulator_phase: f.modulator,
            square_modulator_phase: f.square_modulator,
            integrator: f.integrator,
            polarity: f.polarity,
            modulator_phase_increment: f.increment,
            ..self
        }
    }

    fn render_digital_filter(&mut self, sync: &[u8], buffer: &mut [i16], size: usize)
        requires
            size as u32 != 0,
            size <= sync@.len(),
            size <= old(buffer)@.len(),
            0 <= old(self).pitch() <= 17920,
        ensures
            final(buffer)@.len() == old(buffer)@.len(),
            ({
                let o = *old(self);
                let ft = filter_type(o.shape);
                let s0 = o.filter_state();
                let target = phase_increment_of(filter_pitch(o.pitch, o.parameter@[0]) as int);
                let step = ramp_step(o.modulator_phase_increment, target, size as u32);
                let run = |k: nat| filter_run(s0, o.phase_increment, step, ft, o.parameter@[1], sync@, k);
                &&& forall|k: int| 0 <= k < size ==> #[trigger] final(buffer)@[k]
                    == filter_step(run(k as nat), o.phase_increment, step, ft, o.parameter@[1], sync@[k]).1
                &&& forall|k: int| size <= k < old(buffer)@.len() ==> #[trigger] final(buffer)@[k] == old(buffer)@[k]
                &&& *final(self) == o.with_filter_state(run(size as nat))
            }),
    {
        let ghost o = *self;
        let d = self.parameter[0] as i32 - 2048;
        proof {
            lemma_i32_shr(d);
        }
        let mut shifted_pitch = (self.pitch as i32 + (d >> 1)) as i16 as i32;
        if shifted_pitch > 16383 {
            shifted_pitch = 16383;
        }
        let ft: u8 = match self.shape {
            DigitalModel::DigitalFilterLp => 0,
            DigitalModel::DigitalFilterPk => 1,
            DigitalModel::DigitalFilterBp => 2,
            _ => 3,
        };
        let target = compute_phase_increment_digital(shifted_pitch);
        let previous = self.modulator_phase_increment;
        let step = if previous < target {
            (target - previous) / size as u32
        } else {
            !((previous - target) / size as u32)
        };
        let pi = self.phase_increment;
        let p1 = self.parameter[1];
        let mut st = FilterState {
            phase: self.phase,
            modulator: self.modulator_phase,
            square_modulator: self.square_modulator_phase,
            integrator: self.integrator,
            polarity: self.polarity,
            increment: self.modulator_phase_increment,
        };
        let ghost s0 = st;
        let mut i: usize = 0;
        while i < size
            invariant
                i <= size,
                size <= sync@.len(),
                buffer@.len() == old(buffer)@.len(),
                size <= buffer@.len(),
                ft <= 3,
                st == filter_run(s0, pi, step, ft, p1, sync@, i as nat),
                forall|k: int| 0 <= k < i ==> #[trigger] buffer@[k]
                    == filter_step(filter_run(s0, pi, step, ft, p1, sync@, k as nat), pi, step, ft, p1, sync@[k]).1,
                forall|k: int| size <= k < buffer@.len() ==> #[trigger] buffer@[k] == old(buffer)@[k],
            decreases size - i,
        {
            let (next, out) = filter_step_exec(st, pi, step, ft, p1, sync[i]);
            buffer[i] = out;
            st = next;
            i += 1;
        }
        self.phase = st.phase;
        self.modulator_phase = st.modulator;
        self.square_modulator_phase = st.square_modulator;
        self.integrator = st.integrator;
        self.polarity = st.polarity;
        self.modulator_phase_increment = st.increment;
    }

    /// The swarm state this oscillator holds (with the given six phases).
    pub closed spec fn swarm_state(self, saws: Seq<u32>) -> SwarmView {
        SwarmView { phase: self.phase, saws, lp: self.saw_lp, bp: self.saw_bp }
    }

    /// The increments of the swarm's seven saws.
    fn swarm_increments(pitch: i16, p0: i16) -> (inc: [u32; 7])
        requires
            0 <= pitch <= 17920,
        ensures
            inc@ == Seq::new(7, |i: int| swarm_increment(pitch, swarm_detune(p0), i)),
    {
        let d = p0 as i32 + 1024;
        proof {
            assert(0 <= (d as int) * (d as int) <= 33791 * 33791) by (nonlinear_arith) requires -31744 <= d <= 33791;
            let q = (d * d) as i32;
            lemma_i32_shr(q);
        }
        let detune = (d * d) >> 9;
        let mut inc = [0u32; 7];
        let mut i: usize = 0;
        while i < 7
            invariant
                i <= 7,
                detune == swarm_detune(p0),
                0 <= pitch <= 17920,
                inc@.len() == 7,
                forall|j: int| 0 <= j < i ==> #[trigger] inc@[j] == swarm_increment(pitch, detune, j),
            decreases 7 - i,
        {
            let saw_detune = detune.wrapping_mul(i as i32 - 3);
            let integral = saw_detune >> 16;
            let fractional = saw_detune & 0xffff;
            proof {
                lemma_i32_shr(saw_detune);
            }
            let a = compute_phase_increment_digital(pitch as i32 + integral) as i32;
            let b = compute_phase_increment_digital(pitch as i32 + integral + 1) as i32;
            inc[i] = a.wrapping_add(b.wrapping_sub(a).wrapping_mul(fractional) >> 16) as u32;
            i += 1;
        }
        proof {
            assert(inc@ =~= Seq::new(7, |i: int| swarm_increment(pitch, detune, i)));
        }
        inc
    }

    /// The coefficient of the swarm's high-pass filter.
    fn swarm_coefficient(pitch: i16, p1: i16) -> (f: i32)
        requires
            0 <= pitch <= 17920,
        ensures
            f == interpolate_824_u16_spec(LUT_SVF_CUTOFF@, (swarm_cutoff(pitch, p1) << 17i32) as u32) as i32,
    {
        let mut hp_cutoff = pitch as i32;
        let d = p1 as i32 - 10922;
        proof {
            let x = (d * 24) as i32;
            let y = (d * 12) as i32;
            lemma_i32_shr(x);
            lemma_i32_shr(y);
        }
        if p1 < 10922 {
            hp_cutoff += (d * 24) >> 5;
        } else {
            hp_cutoff += (d * 12) >> 5;
        }
        if hp_cutoff < 0 {
            hp_cutoff = 0;
        } else if hp_cutoff > 32767 {
            hp_cutoff = 32767;
        }
        interpolate_824_u16(&LUT_SVF_CUTOFF, (hp_cutoff << 17) as u32) as i32
    }

    /// Draws the six saw phases from the random source when struck.
    fn strike_swarm(&mut self)
        ensures
            ({
                let o = *old(self);
                let seed = o.rng.state();
                &&& final(self).saw_phase@ == (if o.strike { Seq::new(6, |k: int| lcg_iter(seed, (k + 1) as nat)) } else { o.saw_phase@ })
                &&& final(self).rng().state() == (if o.strike { lcg_iter(seed, 6) } else { seed })
                &&& *final(self) == (DigitalOscillator { saw_phase: final(self).saw_phase, rng: final(self).rng, strike: false, ..o })
            }),
    {
        let ghost o = *self;
        let ghost seed = self.rng.state();
        if self.strike {
            let mut k: usize = 0;
            while k < 6
                invariant
                    k <= 6,
                    self.saw_phase@.len() == 6,
                    self.rng.state() == lcg_iter(seed, k as nat),
                    forall|j: int| 0 <= j < k ==> #[trigger] self.saw_phase@[j] == lcg_iter(seed, (j + 1) as nat),
                    *self == (DigitalOscillator { saw_phase: self.saw_phase, rng: self.rng, ..o }),
                decreases 6 - k,
            {
                let w = self.rng.get_word();
                self.saw_phase[k] = w;
                k += 1;
            }
            self.strike = false;
            proof {
                assert(self.saw_phase@ =~= Seq::new(6, |k: int| lcg_iter(seed, (k + 1) as nat)));
            }
        }
    }

    fn render_saw_swarm(&mut self, sync: &[u8], buffer: &mut [i16], size: usize)
        requires
            size <= sync@.len(),
            size <= old(buffer)@.len(),
            0 <= old(self).pitch() <= 17920,
        ensures
            final(buffer)@.len() == old(buffer)@.len(),
            ({
                let o = *old(self);
                let inc = Seq::new(7, |i: int| swarm_increment(o.pitch, swarm_detune(o.parameter@[0]), i));
                let seed = o.rng.state();
                let saws0 = if o.strike { Seq::new(6, |k: int| lcg_iter(seed, (k + 1) as nat)) } else { o.saw_phase@ };
                let f = interpolate_824_u16_spec(LUT_SVF_CUTOFF@, (swarm_cutoff(o.pitch, o.parameter@[1]) << 17i32) as u32) as i32;
                let damp = LUT_SVF_DAMP@[0] as i32;
                let s0 = o.swarm_state(saws0);
                let run = |k: nat| swarm_run(s0, inc, f, damp, sync@, k);
                &&& forall|k: int| 0 <= k < size ==> #[trigger] final(buffer)@[k]
                    == swarm_step(run(k as nat), inc, f, damp, sync@[k]).1
                &&& forall|k: int| size <= k < old(buffer)@.len() ==> #[trigger] final(buffer)@[k] == old(buffer)@[k]
                &&& final(self).rng().state() == (if o.strike { lcg_iter(seed, 6) } else { seed })
                &&& final(self).saw_phase@ == run(size as nat).saws
                &&& *final(self) == (DigitalOscillator {
                    phase: run(size as nat).phase,
                    saw_phase: final(self).saw_phase,
                    saw_lp: run(size as nat).lp,
                    saw_bp: run(size as nat).bp,
                    strike: false,
                    rng: final(self).rng,
                    ..o
                })
            }),
    {
        let inc = Self::swarm_increments(self.pitch, self.parameter[0]);
        self.strike_swarm();
        let f = Self::swarm_coefficient(self.pitch, self.parameter[1]);
        let damp = LUT_SVF_DAMP[0] as i32;
        let mut st = SwarmState { phase: self.phase, saws: self.saw_phase, lp: self.saw_lp, bp: self.saw_bp };
        let ghost s0 = st@;
        let mut i: usize = 0;
        while i < size
            invariant
                i <= size,
                size <= sync@.len(),
                buffer@.len() == old(buffer)@.len(),
                size <= buffer@.len(),
                st@ == swarm_run(s0, inc@, f, damp, sync@, i as nat),
                forall|k: int| 0 <= k < i ==> #[trigger] buffer@[k]
                    == swarm_step(swarm_run(s0, inc@, f, damp, sync@, k as nat), inc@, f, damp, sync@[k]).1,
                forall|k: int| size <= k < buffer@.len() ==> #[trigger] buffer@[k] == old(buffer)@[k],
            decreases size - i,
        {
            let (next, out) = swarm_step_exec(st, &inc, f, damp, sync[i]);
            buffer[i] = out;
            st = next;
            i += 1;
        }
        self.phase = st.phase;
        self.saw_phase = st.saws;
        self.saw_lp = st.lp;
        self.saw_bp = st.bp;
    }

    /// The state a block is rendered from: a new model clears the state (as
    /// `init` does) and is remembered; the increment and the delay are looked
    /// up for the pitch; the pitch is then clamped to `0..=17920`.
    pub closed spec fn prepared(self) -> Self {
        let a = if self.shape != self.previous_shape {
            DigitalOscillator { previous_shape: self.shape, ..self.cleared() }
        } else {
            self
        };
        DigitalOscillator {
            phase_increment: phase_increment_of(a.pitch as int),
            delay: delay_of(a.pitch as int),
            pitch: if a.pitch > 17920 { 17920 } else if a.pitch < 0 { 0 } else { a.pitch },
            ..a
        }
    }

    /// Sample `k` of a block of `size` samples rendered from this state, with
    /// the sync pulses `sync`; the comb filters the samples `input` already in
    /// the buffer.
    pub closed spec fn rendered_sample(self, sync: Seq<u8>, input: Seq<i16>, size: nat, k: int) -> i16 {
        let o = self;
        match o.shape {
            DigitalModel::TripleRingMod => {
                let start = (o.phase.wrapping_add(0x4000_0000), o.modulator_phases@[0], o.modulator_phases@[1]);
                let mi1 = ring_increment(o.pitch, o.parameter@[0]);
                let mi2 = ring_increment(o.pitch, o.parameter@[1]);
                ring_sample(ring_phases(start, o.phase_increment, mi1, mi2, sync, (k + 1) as nat))
            },
            DigitalModel::SawSwarm => {
                let inc = Seq::new(7, |i: int| swarm_increment(o.pitch, swarm_detune(o.parameter@[0]), i));
                let seed = o.rng.state();
                let saws0 = if o.strike { Seq::new(6, |j: int| lcg_iter(seed, (j + 1) as nat)) } else { o.saw_phase@ };
                let f = interpolate_824_u16_spec(LUT_SVF_CUTOFF@, (swarm_cutoff(o.pitch, o.parameter@[1]) << 17i32) as u32) as i32;
                let damp = LUT_SVF_DAMP@[0] as i32;
                swarm_step(swarm_run(o.swarm_state(saws0), inc, f, damp, sync, k as nat), inc, f, damp, sync[k]).1
            },
            DigitalModel::Comb => {
                let f = comb_filtered_pitch(o.filtered_pitch, o.pitch, o.parameter@[0]);
                let d = comb_delay(f);
                let di = (d >> 16u32) as int;
                let df = (d & 0xffff) as i32;
                let res = comb_resonance(o.parameter@[1]);
                let r = comb_run(o.comb@, (o.phase % 8192) as int, input, di, df, res, k as nat);
                comb_out(input[k], comb_delayed(r.0, r.1, di, df))
            },
            DigitalModel::Toy => {
                let pi = o.phase_increment >> 2u32;
                let count = 512u16.wrapping_sub((o.parameter@[0] as u16) >> 6u16);
                let x = (o.parameter@[1] >> 8i16) as u8;
                let s0 = (o.phase, o.toy_decimation_counter, o.toy_held_sample);
                toy_output(toy_entry(toy_run(s0, pi, count, x, sync, k as nat), sync[k]), pi, count, x)
            },
            DigitalModel::StruckDrum => o.drum_sample(size, k),
            DigitalModel::StruckBell => o.bell_sample(size, k),
            DigitalModel::Snare => snare_step(snare_run(o.snare_voice(), o.snare_gain(1), o.snare_gain(2), (k / 2) as nat),
                o.snare_gain(1), o.snare_gain(2)).1,
            DigitalModel::Cymbal => cymbal_step(cymbal_run(o.cymbal_voice(), o.cymbal_increments(), o.parameter@[1] as i32, k as nat),
                o.cymbal_increments(), o.parameter@[1] as i32).1,
            DigitalModel::Kick => {
                let st = kick_pair(kick_run(o.kick_voice(), o.pitch, kick_lp_coefficient(o.parameter@[1]), (k / 2) as nat),
                    o.pitch, kick_lp_coefficient(o.parameter@[1]));
                if k % 2 == 0 { st.1 } else { st.2 }
            },
            DigitalModel::VowelFof => {
                let st = fof_pair(fof_run(o.fof_voice(), o.phase_increment << 1u32, o.fof_coefficients(), o.fof_level(), (k / 2) as nat),
                    o.phase_increment << 1u32, o.fof_coefficients(), o.fof_level());
                if k % 2 == 0 { st.1 } else { st.2 }
            },
            DigitalModel::Harmonics => {
                let pi = o.phase_increment << 1u32;
                let targets = Seq::new(12, |i: int| harmonic_target(i, pi, o.parameter@[0], o.parameter@[1]));
                let v0 = HarmonicsVoice { phase: o.phase, previous: o.add_previous_sample, amps: o.hrm_amplitude@ };
                let st = harmonics_pair(harmonics_run(v0, pi, targets, sync, (k / 2) as nat), pi, targets,
                    sync[2 * (k / 2)], sync[2 * (k / 2) + 1]);
                if k % 2 == 0 { st.1 } else { st.2 }
            },
            DigitalModel::ClockedNoise =>
                clock_run((o.phase, o.clock_start()), clock_increment(o.phase_increment),
                    clock_divider(o.clock_held().1), sync, (k + 1) as nat).1.sample,
            DigitalModel::Fm => {
                let r = fm_run(o.phase, o.modulator_phase, o.phase_increment, o.fm_modulator_increment(),
                    o.previous_parameter@[0] as i32, o.fm_delta(), o.fm_ramp(size), sync, k as nat);
                fm_step(r.0, r.1, o.phase_increment, o.fm_modulator_increment(),
                    param_at(o.previous_parameter@[0] as i32, o.fm_delta(), o.fm_ramp(size), k as nat), sync[k]).2
            },
            DigitalModel::FeedbackFm => {
                let att = feedback_attenuation(o.pitch, o.parameter@[1]);
                let r = feedback_run(o.phase, o.ffm_modulator_phase, o.ffm_previous_sample, o.phase_increment,
                    o.fm_modulator_increment(), o.previous_parameter@[0] as i32, o.fm_delta(), o.fm_ramp(size), att, sync, k as nat);
                feedback_step(r.0, r.1, r.2, o.phase_increment, o.fm_modulator_increment(),
                    param_at(o.previous_parameter@[0] as i32, o.fm_delta(), o.fm_ramp(size), k as nat), att, sync[k]).2
            },
            DigitalModel::ChaoticFeedbackFm => {
                let r = chaotic_run(o.phase, o.ffm_modulator_phase, o.ffm_previous_sample, o.phase_increment,
                    o.fm_modulator_increment(), o.previous_parameter@[0] as i32, o.fm_delta(), o.fm_ramp(size), sync, k as nat);
                chaotic_step(r.0, r.1, o.phase_increment, o.fm_modulator_increment(),
                    param_at(o.previous_parameter@[0] as i32, o.fm_delta(), o.fm_ramp(size), k as nat), sync[k]).2
            },
            DigitalModel::DigitalModulation => {
                let st = modem_run((o.phase, o.modem_start()), o.phase_increment, o.symbol_increment(), o.parameter@[1], (k + 1) as nat);
                modem_output(st.0, st.1.data_byte)
            },
            DigitalModel::Plucked => pluck_block_sample(o.pluck.active(), o.pluck.voices(), o.ks@, o.rng.state(),
                o.phase_increment << 1u32, o.strike, o.parameter@[0], o.parameter@[1], k),
            DigitalModel::DigitalFilterLp | DigitalModel::DigitalFilterPk
            | DigitalModel::DigitalFilterBp | DigitalModel::DigitalFilterHp => {
                let ft = filter_type(o.shape);
                let target = phase_increment_of(filter_pitch(o.pitch, o.parameter@[0]) as int);
                let step = ramp_step(o.modulator_phase_increment, target, size as u32);
                filter_step(filter_run(o.filter_state(), o.phase_increment, step, ft, o.parameter@[1], sync, k as nat),
                    o.phase_increment, step, ft, o.parameter@[1], sync[k]).1
            },
            _ => 0,
        }
    }

    /// Whether `end` is the state after a block of `size` samples rendered
    /// from this state.
    pub closed spec fn rendered_into(self, sync: Seq<u8>, input: Seq<i16>, size: nat, end: Self) -> bool {
        let o = self;
        match o.shape {
            DigitalModel::TripleRingMod => {
                let start = (o.phase.wrapping_add(0x4000_0000), o.modulator_phases@[0], o.modulator_phases@[1]);
                let mi1 = ring_increment(o.pitch, o.parameter@[0]);
                let mi2 = ring_increment(o.pitch, o.parameter@[1]);
                let e = ring_phases(start, o.phase_increment, mi1, mi2, sync, size);
                end == (DigitalOscillator { phase: e.0.wrapping_sub(0x4000_0000), modulator_phases: [e.1, e.2], ..o })
            },
            DigitalModel::SawSwarm => {
                let inc = Seq::new(7, |i: int| swarm_increment(o.pitch, swarm_detune(o.parameter@[0]), i));
                let seed = o.rng.state();
                let saws0 = if o.strike { Seq::new(6, |j: int| lcg_iter(seed, (j + 1) as nat)) } else { o.saw_phase@ };
                let f = interpolate_824_u16_spec(LUT_SVF_CUTOFF@, (swarm_cutoff(o.pitch, o.parameter@[1]) << 17i32) as u32) as i32;
                let damp = LUT_SVF_DAMP@[0] as i32;
                let e = swarm_run(o.swarm_state(saws0), inc, f, damp, sync, size);
                &&& end.rng.state() == (if o.strike { lcg_iter(seed, 6) } else { seed })
                &&& end.saw_phase@ == e.saws
                &&& end == (DigitalOscillator { phase: e.phase, saw_phase: end.saw_phase, saw_lp: e.lp, saw_bp: e.bp, strike: false, rng: end.rng, ..o })
            },
            DigitalModel::Comb => {
                let f = comb_filtered_pitch(o.filtered_pitch, o.pitch, o.parameter@[0]);
                let d = comb_delay(f);
                let di = (d >> 16u32) as int;
                let df = (d & 0xffff) as i32;
                let res = comb_resonance(o.parameter@[1]);
                let e = comb_run(o.comb@, (o.phase % 8192) as int, input, di, df, res, size);
                &&& end.comb@ == e.0
                &&& end == (DigitalOscillator { filtered_pitch: f, comb: end.comb, phase: e.1 as u32, ..o })
            },
            DigitalModel::Toy => {
                let pi = o.phase_increment >> 2u32;
                let count = 512u16.wrapping_sub((o.parameter@[0] as u16) >> 6u16);
                let x = (o.parameter@[1] >> 8i16) as u8;
                let e = toy_run((o.phase, o.toy_decimation_counter, o.toy_held_sample), pi, count, x, sync, size);
                end == (DigitalOscillator { phase_increment: pi, phase: e.0, toy_decimation_counter: e.1, toy_held_sample: e.2, ..o })
            },
            DigitalModel::StruckDrum => o.drum_into(size, end),
            DigitalModel::StruckBell => o.bell_into(size, end),
            DigitalModel::VowelFof => o.fof_into(size, end),
            DigitalModel::Kick => o.kick_into(size, end),
            DigitalModel::Snare => o.snare_into(size, end),
            DigitalModel::Cymbal => o.cymbal_into(size, end),
            DigitalModel::Harmonics => {
                let pi = o.phase_increment << 1u32;
                let targets = Seq::new(12, |i: int| harmonic_target(i, pi, o.parameter@[0], o.parameter@[1]));
                let v0 = HarmonicsVoice { phase: o.phase, previous: o.add_previous_sample, amps: o.hrm_amplitude@ };
                let e = harmonics_run(v0, pi, targets, sync, size / 2);
                &&& end.hrm_amplitude@ == e.amps
                &&& end == (DigitalOscillator { phase: e.phase, add_previous_sample: e.previous, hrm_amplitude: end.hrm_amplitude, ..o })
            },
            DigitalModel::ClockedNoise => {
                let h = o.clock_held();
                let e = clock_run((o.phase, o.clock_start()), clock_increment(o.phase_increment), clock_divider(h.1), sync, size);
                &&& end.rng.state() == (if o.strike { lcg_next(o.rng.state()) } else { o.rng.state() })
                &&& end == (DigitalOscillator { phase: e.0, clock: e.1, previous_parameter: [h.0, h.1], strike: false, rng: end.rng, ..o })
            },
            DigitalModel::Fm => {
                let e = fm_run(o.phase, o.modulator_phase, o.phase_increment, o.fm_modulator_increment(),
                    o.previous_parameter@[0] as i32, o.fm_delta(), o.fm_ramp(size), sync, size);
                end == (DigitalOscillator { phase: e.0, modulator_phase: e.1,
                    previous_parameter: [o.parameter@[0], o.previous_parameter@[1]], ..o })
            },
            DigitalModel::FeedbackFm => {
                let e = feedback_run(o.phase, o.ffm_modulator_phase, o.ffm_previous_sample, o.phase_increment,
                    o.fm_modulator_increment(), o.previous_parameter@[0] as i32, o.fm_delta(), o.fm_ramp(size),
                    feedback_attenuation(o.pitch, o.parameter@[1]), sync, size);
                end == (DigitalOscillator { phase: e.0, ffm_modulator_phase: e.1, ffm_previous_sample: e.2,
                    previous_parameter: [o.parameter@[0], o.previous_parameter@[1]], ..o })
            },
            DigitalModel::ChaoticFeedbackFm => {
                let e = chaotic_run(o.phase, o.ffm_modulator_phase, o.ffm_previous_sample, o.phase_increment,
                    o.fm_modulator_increment(), o.previous_parameter@[0] as i32, o.fm_delta(), o.fm_ramp(size), sync, size);
                end == (DigitalOscillator { phase: e.0, ffm_modulator_phase: e.1, ffm_previous_sample: e.2,
                    previous_parameter: [o.parameter@[0], o.previous_parameter@[1]], ..o })
            },
            DigitalModel::DigitalModulation => {
                let e = modem_run((o.phase, o.modem_start()), o.phase_increment, o.symbol_increment(), o.parameter@[1], size);
                end == (DigitalOscillator { phase: e.0, modem: e.1, strike: false, ..o })
            },
            DigitalModel::Plucked => {
                let e = pluck_block_end(o.pluck.active(), o.pluck.voices(), o.ks@, o.rng.state(),
                    o.phase_increment << 1u32, o.strike, o.parameter@[0], o.parameter@[1], size);
                &&& end.pluck.active() == e.0
                &&& end.pluck.voices() == e.1
                &&& end.ks@ == e.2
                &&& end.rng.state() == e.3
                &&& end == (DigitalOscillator {
                    phase_increment: o.phase_increment << 1u32,
                    strike: false,
                    pluck: end.pluck,
                    ks: end.ks,
                    rng: end.rng,
                    ..o
                })
            },
            DigitalModel::DigitalFilterLp | DigitalModel::DigitalFilterPk
            | DigitalModel::DigitalFilterBp | DigitalModel::DigitalFilterHp => {
                let ft = filter_type(o.shape);
                let target = phase_increment_of(filter_pitch(o.pitch, o.parameter@[0]) as int);
                let step = ramp_step(o.modulator_phase_increment, target, size as u32);
                end == o.with_filter_state(filter_run(o.filter_state(), o.phase_increment, step, ft, o.parameter@[1], sync, size))
            },
            _ => end == o,
        }
    }

    /// Renders `size` samples of the current model into `buffer`, following
    /// the sync pulses in `sync` (the comb filters what `buffer` holds).
    #[verifier::rlimit(100)]
    #[verifier::spinoff_prover]
    pub fn render(&mut self, sync: &[u8], buffer: &mut [i16], size: usize)
        requires
            renders_model(old(self).shape()),
            size <= sync@.len(),
            size <= old(buffer)@.len(),
            divides_by_size(old(self).shape()) ==> 1 <= size <= i32::MAX,
            renders_in_pairs(old(self).shape()) ==> size % 2 == 0,
            old(self).shape() == DigitalModel::Plucked && old(self).prepared().struck() ==> old(self).parameter(1) >= -5461,
            old(self).shape() == DigitalModel::ClockedNoise ==> old(self).clock_levels_ok(),
            old(self).shape() == DigitalModel::VowelFof ==> old(self).parameter(0) >= 0 && old(self).parameter(1) >= 0,
            old(self).shape() == DigitalModel::Kick ==> old(self).prepared().kick_ok(size as nat),
            old(self).shape() == DigitalModel::Snare ==> old(self).prepared().snare_ok(size as nat),
            old(self).shape() == DigitalModel::Cymbal ==> old(self).prepared().cymbal_ok(size as nat),
        ensures
            final(buffer)@.len() == old(buffer)@.len(),
            forall|k: int| 0 <= k < size ==> #[trigger] final(buffer)@[k]
                == old(self).prepared().rendered_sample(sync@, old(buffer)@, size as nat, k),
            forall|k: int| size <= k < old(buffer)@.len() ==> #[trigger] final(buffer)@[k] == old(buffer)@[k],
            old(self).prepared().rendered_into(sync@, old(buffer)@, size as nat, *final(self)),
    {
        if self.shape != self.previous_shape {
            self.init();
            self.previous_shape = self.shape;
        }
        self.phase_increment = compute_phase_increment_digital(self.pitch as i32);
        self.delay = compute_delay(self.pitch as i32);
        if self.pitch as i32 > HIGHEST_NOTE_DIGITAL {
            self.pitch = 17920;
        } else if self.pitch < 0 {
            self.pitch = 0;
        }
        match self.shape {
            DigitalModel::TripleRingMod => self.render_triple_ring_mod(sync, buffer, size),
            DigitalModel::SawSwarm => self.render_saw_swarm(sync, buffer, size),
            DigitalModel::Comb => self.render_comb(buffer, size),
            DigitalModel::Toy => self.render_toy(sync, buffer, size),
            DigitalModel::StruckDrum => self.render_struck_drum(buffer, size),
            DigitalModel::StruckBell => self.render_struck_bell(buffer, size),
            DigitalModel::Plucked => self.render_plucked(buffer, size),
            DigitalModel::DigitalModulation => self.render_digital_modulation(buffer, size),
            DigitalModel::ClockedNoise => self.render_clocked_noise_model(sync, buffer, size),
            DigitalModel::Harmonics => self.render_harmonics_model(sync, buffer, size),
            DigitalModel::VowelFof => self.render_vowel_fof(buffer, size),
            DigitalModel::Kick => self.render_kick(buffer, size),
            DigitalModel::Snare => self.render_snare(buffer, size),
            DigitalModel::Cymbal => self.render_cymbal(buffer, size),
            DigitalModel::Fm => self.render_fm_model(sync, buffer, size),
            DigitalModel::FeedbackFm => self.render_feedback_fm_model(sync, buffer, size),
            DigitalModel::ChaoticFeedbackFm => self.render_chaotic_fm_model(sync, buffer, size),
            _ => self.render_digital_filter(sync, buffer, size),
        }
    }

    /// A new model starts from a clear state: phase 0, the per-model state
    /// zeroed, struck and marked for initialisation, the model remembered.
    /// The same model keeps its state. Either way the increment and the
    /// delay follow the pitch before it is clamped to `0..=17920`.
    pub proof fn lemma_prepared(o: DigitalOscillator)
        ensures
            ({
                let p = o.prepared();
                &&& p.shape() == o.shape()
                &&& p.previous_shape() == o.shape()
                &&& p.increment() == phase_increment_of(o.pitch() as int)
                &&& p.delay() == delay_of(o.pitch() as int)
                &&& p.pitch() == (if o.pitch() > 17920 { 17920 } else if o.pitch() < 0 { 0 } else { o.pitch() })
                &&& p.parameter(0) == o.parameter(0) && p.parameter(1) == o.parameter(1)
                &&& p.rng() == o.rng()
                &&& o.shape() != o.previous_shape() ==> {
                    &&& p.state_is_clear()
                    &&& p.phase() == 0
                    &&& p.struck()
                    &&& p.needs_init()
                }
                &&& o.shape() == o.previous_shape() ==> {
                    &&& p.phase() == o.phase()
                    &&& p.struck() == o.struck()
                    &&& p.needs_init() == o.needs_init()
                    &&& p.modulator_phases() == o.modulator_phases()
                }
            }),
    {
        let p = o.prepared();
        if o.shape() != o.previous_shape() {
            assert(p.saw_phase@ =~= Seq::new(6, |i: int| 0u32));
            assert(p.modulator_phases@ =~= seq![0u32, 0u32]);
            assert(p.partial_phase@ =~= Seq::new(11, |i: int| 0u32));
            assert(p.partial_phase_increment@ =~= Seq::new(11, |i: int| 0u32));
            assert(p.partial_amplitude@ =~= Seq::new(11, |i: int| 0i32));
            assert(p.target_partial_amplitude@ =~= Seq::new(11, |i: int| 0i32));
            assert(p.lp_noise@ =~= seq![0i32, 0i32, 0i32]);
            assert(p.hrm_amplitude@ =~= Seq::new(12, |i: int| 0i16));
            assert(p.fof_lp@ =~= Seq::new(5, |i: int| 0i16));
            assert(p.fof_bp@ =~= Seq::new(5, |i: int| 0i16));
            assert(p.hat_phase@ =~= Seq::new(6, |i: int| 0u32));
            SawCarry::lemma_zero();
            o.pluck.lemma_cleared();
        }
    }

    /// The struck models' state within a block.
    pub closed spec fn drum_voice(self, fade: i32) -> DrumVoice {
        DrumVoice {
            phases: self.partial_phase@,
            lp0: self.lp_noise@[0],
            lp1: self.lp_noise@[1],
            lp2: self.lp_noise@[2],
            previous: self.add_previous_sample as i32,
            fade,
            seed: self.rng.state(),
        }
    }

    /// Sets the drum's end-of-block amplitudes, its start phases and its
    /// partial increments.
    fn drum_prelude(&mut self)
        requires
            0 <= old(self).pitch() <= 17920,
        ensures
            ({
                let o = *old(self);
                &&& final(self).target_partial_amplitude@ == drum_targets(o.partial_amplitude@, o.target_partial_amplitude@, o.strike, o.parameter@[0])
                &&& final(self).partial_phase@ == drum_start_phases(o.partial_phase@, o.partial_amplitude@[0], o.strike)
                &&& final(self).partial_phase_increment@ == drum_increments(o.pitch, o.partial_phase_increment@)
                &&& *final(self) == (DigitalOscillator {
                    target_partial_amplitude: final(self).target_partial_amplitude,
                    partial_phase: final(self).partial_phase,
                    partial_phase_increment: final(self).partial_phase_increment,
                    strike: false,
                    ..o
                })
            }),
    {
        let ghost o = *self;
        if self.strike {
            let reset_phase = self.partial_amplitude[0] < 1024;
            let mut i: usize = 0;
            while i < 6
                invariant
                    i <= 6,
                    reset_phase == (o.partial_amplitude@[0] < 1024),
                    o.strike,
                    self.target_partial_amplitude@.len() == 11,
                    self.partial_phase@.len() == 11,
                    forall|j: int| 0 <= j < 11 ==> #[trigger] self.target_partial_amplitude@[j]
                        == (if j < i { DRUM_PARTIAL_AMPLITUDE@[j] } else { o.target_partial_amplitude@[j] }),
                    forall|j: int| 0 <= j < 11 ==> #[trigger] self.partial_phase@[j]
                        == (if j < i && reset_phase { 0x4000_0000u32 } else { o.partial_phase@[j] }),
                    *self == (DigitalOscillator { target_partial_amplitude: self.target_partial_amplitude, partial_phase: self.partial_phase, ..o }),
                decreases 6 - i,
            {
                self.target_partial_amplitude[i] = DRUM_PARTIAL_AMPLITUDE[i];
                if reset_phase {
                    self.partial_phase[i] = 0x4000_0000;
                }
                i += 1;
            }
            self.strike = false;
        } else if self.parameter[0] < 32000 {
            let p0 = self.parameter[0];
            let mut i: usize = 0;
            while i < 6
                invariant
                    i <= 6,
                    p0 == o.parameter@[0],
                    p0 < 32000,
                    !o.strike,
                    self.target_partial_amplitude@.len() == 11,
                    forall|j: int| 0 <= j < 11 ==> #[trigger] self.target_partial_amplitude@[j]
                        == (if j < i {
                            o.partial_amplitude@[j].wrapping_mul(partial_decay(DRUM_PARTIAL_DECAY_LONG@[j], DRUM_PARTIAL_DECAY_SHORT@[j], p0)) >> 16i32
                        } else {
                            o.target_partial_amplitude@[j]
                        }),
                    *self == (DigitalOscillator { target_partial_amplitude: self.target_partial_amplitude, ..o }),
                decreases 6 - i,
            {
                let decay = partial_decay_exec(DRUM_PARTIAL_DECAY_LONG[i], DRUM_PARTIAL_DECAY_SHORT[i], p0);
                self.target_partial_amplitude[i] = self.partial_amplitude[i].wrapping_mul(decay) >> 16;
                i += 1;
            }
        }
        let ghost mid = *self;
        let mut i: usize = 0;
        while i < 6
            invariant
                i <= 6,
                0 <= self.pitch <= 17920,
                self.partial_phase_increment@.len() == 11,
                forall|j: int| 0 <= j < 11 ==> #[trigger] self.partial_phase_increment@[j]
                    == (if j < i { phase_increment_of(mid.pitch as int + DRUM_PARTIALS@[j] as int) << 1u32 } else { mid.partial_phase_increment@[j] }),
                *self == (DigitalOscillator { partial_phase_increment: self.partial_phase_increment, ..mid }),
            decreases 6 - i,
        {
            self.partial_phase_increment[i] = compute_phase_increment_digital(self.pitch as i32 + DRUM_PARTIALS[i] as i32) << 1;
            i += 1;
        }
        proof {
            assert(self.partial_phase_increment@ =~= drum_increments(o.pitch, o.partial_phase_increment@));
            assert(self.target_partial_amplitude@ =~= drum_targets(o.partial_amplitude@, o.target_partial_amplitude@, o.strike, o.parameter@[0]));
            assert(self.partial_phase@ =~= drum_start_phases(o.partial_phase@, o.partial_amplitude@[0], o.strike));
        }
    }

    /// One drum step: two output samples and the new crossfade.
    fn drum_pair(&mut self, f: i32, hg: i32, nmg: i32, fi: i32, fade: i32) -> (r: (i16, i16, i32))
        ensures
            ({
                let o = *old(self);
                let st = drum_step(o.drum_voice(fade), o.partial_phase_increment@, o.partial_amplitude@, o.target_partial_amplitude@, f, hg, nmg, fi);
                &&& r.0 == st.1
                &&& r.1 == st.2
                &&& final(self).drum_voice(r.2) == st.0
                &&& *final(self) == (DigitalOscillator {
                    partial_phase: final(self).partial_phase,
                    lp_noise: final(self).lp_noise,
                    add_previous_sample: final(self).add_previous_sample,
                    rng: final(self).rng,
                    ..o
                })
            }),
    {
        let ghost o = *self;
        let fade = fade.wrapping_add(fi);
        let noise0 = self.rng.get_sample() as i32;
        let noise = if noise0 < -16384 { -16384 } else if noise0 > 16384 { 16384 } else { noise0 };
        let lp0 = lp_step_exec(self.lp_noise[0], noise, f);
        let lp1 = lp_step_exec(self.lp_noise[1], lp0, f);
        let lp2 = lp_step_exec(self.lp_noise[2], lp1, f);
        self.lp_noise = [lp0, lp1, lp2];
        proof {
            assert(self.lp_noise@ =~= seq![lp0, lp1, lp2]);
        }
        let ghost o2 = *self;
        let ghost phases = Seq::new(11, |j: int| if j < 6 { o.partial_phase@[j].wrapping_add(o.partial_phase_increment@[j]) } else { o.partial_phase@[j] });
        let mut partials = [0i32; 6];
        let mut harmonics: i32 = 0;
        let mut i: usize = 0;
        while i < 6
            invariant
                i <= 6,
                self.partial_phase@.len() == 11,
                partials@.len() == 6,
                phases == Seq::new(11, |j: int| if j < 6 { o.partial_phase@[j].wrapping_add(o.partial_phase_increment@[j]) } else { o.partial_phase@[j] }),
                o2.partial_phase == o.partial_phase,
                forall|j: int| 0 <= j < 11 ==> #[trigger] self.partial_phase@[j] == (if j < i { phases[j] } else { o.partial_phase@[j] }),
                forall|j: int| 0 <= j < i ==> #[trigger] partials@[j] == drum_partial(phases[j], o.partial_amplitude@[j], o.target_partial_amplitude@[j], fade),
                harmonics == drum_sum(phases, o.partial_amplitude@, o.target_partial_amplitude@, fade, i as nat),
                self.partial_phase_increment == o.partial_phase_increment,
                self.partial_amplitude == o.partial_amplitude,
                self.target_partial_amplitude == o.target_partial_amplitude,
                *self == (DigitalOscillator { partial_phase: self.partial_phase, ..o2 }),
            decreases 6 - i,
        {
            self.partial_phase[i] = self.partial_phase[i].wrapping_add(self.partial_phase_increment[i]);
            let p = drum_partial_exec(self.partial_phase[i], self.partial_amplitude[i], self.target_partial_amplitude[i], fade);
            harmonics = harmonics.wrapping_add(p);
            partials[i] = p;
            i += 1;
        }
        let n1 = partials[1].wrapping_mul(lp2) >> 8;
        let n2 = partials[3].wrapping_mul(lp2) >> 9;
        let sample = clip16_sym(
            partials[0].wrapping_add(n1.wrapping_mul(12288i32.wrapping_sub(nmg)) >> 14)
                .wrapping_add(n2.wrapping_mul(nmg) >> 14)
                .wrapping_add(harmonics.wrapping_mul(hg) >> 14),
        );
        let a = ((sample + self.add_previous_sample as i32) >> 1) as i16;
        self.add_previous_sample = sample as i16;
        proof {
            assert(self.partial_phase@ =~= phases);
        }
        (a, sample as i16, fade)
    }

    /// The drum's block: sample `k` of `size`.
    pub closed spec fn drum_sample(self, size: nat, k: int) -> i16 {
        let o = self;
        let targets = drum_targets(o.partial_amplitude@, o.target_partial_amplitude@, o.strike, o.parameter@[0]);
        let inc = drum_increments(o.pitch, o.partial_phase_increment@);
        let v0 = DrumVoice {
            phases: drum_start_phases(o.partial_phase@, o.partial_amplitude@[0], o.strike),
            lp0: o.lp_noise@[0],
            lp1: o.lp_noise@[1],
            lp2: o.lp_noise@[2],
            previous: o.add_previous_sample as i32,
            fade: 0,
            seed: o.rng.state(),
        };
        let f = drum_cutoff(o.pitch, o.parameter@[1]);
        let hg = drum_harmonics_gain(o.parameter@[1]);
        let nmg = drum_noise_gain(o.parameter@[1]);
        let fi = (65536int / (size as int)) as i32;
        let st = drum_step(drum_run(v0, inc, o.partial_amplitude@, targets, f, hg, nmg, fi, (k / 2) as nat), inc, o.partial_amplitude@, targets, f, hg, nmg, fi);
        if k % 2 == 0 { st.1 } else { st.2 }
    }

    /// Whether `end` is the drum's state after a block of `size` samples.
    pub closed spec fn drum_into(self, size: nat, end: Self) -> bool {
        let o = self;
        let targets = drum_targets(o.partial_amplitude@, o.target_partial_amplitude@, o.strike, o.parameter@[0]);
        let inc = drum_increments(o.pitch, o.partial_phase_increment@);
        let v0 = DrumVoice {
            phases: drum_start_phases(o.partial_phase@, o.partial_amplitude@[0], o.strike),
            lp0: o.lp_noise@[0],
            lp1: o.lp_noise@[1],
            lp2: o.lp_noise@[2],
            previous: o.add_previous_sample as i32,
            fade: 0,
            seed: o.rng.state(),
        };
        let f = drum_cutoff(o.pitch, o.parameter@[1]);
        let hg = drum_harmonics_gain(o.parameter@[1]);
        let nmg = drum_noise_gain(o.parameter@[1]);
        let fi = (65536int / (size as int)) as i32;
        let e = drum_run(v0, inc, o.partial_amplitude@, targets, f, hg, nmg, fi, size / 2);
        &&& end.partial_phase@ == e.phases
        &&& end.partial_phase_increment@ == inc
        &&& end.partial_amplitude@ == targets
        &&& end.target_partial_amplitude@ == targets
        &&& end.lp_noise@ == seq![e.lp0, e.lp1, e.lp2]
        &&& end.add_previous_sample as i32 == e.previous
        &&& end.rng.state() == e.seed
        &&& end == (DigitalOscillator {
            partial_phase: end.partial_phase,
            partial_phase_increment: end.partial_phase_increment,
            partial_amplitude: end.partial_amplitude,
            target_partial_amplitude: end.target_partial_amplitude,
            lp_noise: end.lp_noise,
            add_previous_sample: end.add_previous_sample,
            rng: end.rng,
            strike: false,
            ..o
        })
    }

    #[verifier::rlimit(40)]
    fn render_struck_drum(&mut self, buffer: &mut [i16], size: usize)
        requires
            2 <= size <= i32::MAX,
            size % 2 == 0,
            size <= old(buffer)@.len(),
            0 <= old(self).pitch() <= 17920,
        ensures
            final(buffer)@.len() == old(buffer)@.len(),
            forall|k: int| 0 <= k < size ==> #[trigger] final(buffer)@[k] == old(self).drum_sample(size as nat, k),
            forall|k: int| size <= k < old(buffer)@.len() ==> #[trigger] final(buffer)@[k] == old(buffer)@[k],
            old(self).drum_into(size as nat, *final(self)),
    {
        let ghost o = *self;
        self.drum_prelude();
        let p1 = self.parameter[1];
        let mut cutoff = self.pitch as i32 - 1536 + (p1 >> 2) as i32;
        if cutoff < 0 {
            cutoff = 0;
        } else if cutoff > 32767 {
            cutoff = 32767;
        }
        let f = interpolate_824_u16(&LUT_SVF_CUTOFF, (cutoff << 16) as u32) as i32;
        let hg: i32 = if p1 < 12888 { p1 as i32 + 4096 } else { 16384 };
        let g: i32 = if p1 < 16384 { 0 } else { p1 as i32 - 16384 };
        let gg = g * 12888;
        proof {
            lemma_i32_shr(gg);
        }
        let nmg = gg >> 14;
        let fi = 65536 / size as i32;
        let ghost s1 = *self;
        let ghost v0 = s1.drum_voice(0);
        let ghost targets = s1.target_partial_amplitude@;
        let ghost inc = s1.partial_phase_increment@;
        let mut fade: i32 = 0;
        let mut j: usize = 0;
        while j < size / 2
            invariant
                j <= size / 2,
                size % 2 == 0,
                size <= buffer@.len(),
                buffer@.len() == old(buffer)@.len(),
                self.drum_voice(fade) == drum_run(v0, inc, o.partial_amplitude@, targets, f, hg, nmg, fi, j as nat),
                self.partial_phase_increment@ == inc,
                self.partial_amplitude == o.partial_amplitude,
                self.target_partial_amplitude@ == targets,
                *self == (DigitalOscillator {
                    partial_phase: self.partial_phase,
                    lp_noise: self.lp_noise,
                    add_previous_sample: self.add_previous_sample,
                    rng: self.rng,
                    ..s1
                }),
                forall|k: int| 0 <= k < 2 * j ==> #[trigger] buffer@[k] == (if k % 2 == 0 {
                        drum_step(drum_run(v0, inc, o.partial_amplitude@, targets, f, hg, nmg, fi, (k / 2) as nat), inc, o.partial_amplitude@, targets, f, hg, nmg, fi).1
                    } else {
                        drum_step(drum_run(v0, inc, o.partial_amplitude@, targets, f, hg, nmg, fi, (k / 2) as nat), inc, o.partial_amplitude@, targets, f, hg, nmg, fi).2
                    }),
                forall|k: int| size <= k < buffer@.len() ==> #[trigger] buffer@[k] == old(buffer)@[k],
            decreases size / 2 - j,
        {
            let (a, b, nf) = self.drum_pair(f, hg, nmg, fi, fade);
            buffer[2 * j] = a;
            buffer[2 * j + 1] = b;
            fade = nf;
            proof {
                assert((2 * j) / 2 == j);
                assert((2 * j + 1) / 2 == j);
                assert((2 * j) % 2 == 0);
                assert((2 * j + 1) % 2 == 1);
            }
            j += 1;
        }
        self.partial_amplitude = self.target_partial_amplitude;
        proof {
            let v = DrumVoice {
                phases: drum_start_phases(o.partial_phase@, o.partial_amplitude@[0], o.strike),
                lp0: o.lp_noise@[0],
                lp1: o.lp_noise@[1],
                lp2: o.lp_noise@[2],
                previous: o.add_previous_sample as i32,
                fade: 0,
                seed: o.rng.state(),
            };
            assert(v0 == v);
            assert(j == size / 2);
            assert(f == drum_cutoff(o.pitch, o.parameter@[1]));
            assert(nmg == drum_noise_gain(o.parameter@[1]));
            assert(fi == (65536int / (size as int)) as i32);
            let e = drum_run(v, inc, o.partial_amplitude@, targets, f, hg, nmg, fi, (size as nat) / 2);
            assert(self.drum_voice(fade) == e);
            assert(self.lp_noise@ =~= seq![e.lp0, e.lp1, e.lp2]);
        }
    }

    /// The bell's state within a block.
    pub closed spec fn bell_voice(self) -> BellVoice {
        BellVoice { phases: self.partial_phase@, previous: self.add_previous_sample as i32 }
    }

    /// Sets the bell's amplitudes, start phases and retuned increments, and
    /// moves on to the next three partials.
    fn bell_prelude(&mut self)
        requires
            0 <= old(self).pitch() <= 17920,
        ensures
            ({
                let o = *old(self);
                &&& final(self).partial_amplitude@ == bell_amplitudes(o.partial_amplitude@, o.strike, o.parameter@[0])
                &&& final(self).partial_phase@ == bell_start_phases(o.partial_phase@, o.strike)
                &&& final(self).partial_phase_increment@ == bell_increments(o.pitch, o.parameter@[1], o.partial_phase_increment@, o.current_partial, o.strike)
                &&& final(self).current_partial == (o.current_partial + 3) % 11
                &&& *final(self) == (DigitalOscillator {
                    partial_amplitude: final(self).partial_amplitude,
                    partial_phase: final(self).partial_phase,
                    partial_phase_increment: final(self).partial_phase_increment,
                    current_partial: final(self).current_partial,
                    strike: false,
                    ..o
                })
            }),
    {
        let ghost o = *self;
        let mut first = self.current_partial;
        let mut last = if first < 8 { first + 3 } else { 11 };
        self.current_partial = (first % 11 + 3) % 11;
        proof {
            assert((first % 11 + 3) % 11 == (first + 3) % 11) by (nonlinear_arith);
        }
        if self.strike {
            self.partial_amplitude = BELL_PARTIAL_AMPLITUDES;
            self.partial_phase = [0x4000_0000, 0x4000_0000, 0x4000_0000, 0x4000_0000, 0x4000_0000, 0x4000_0000,
                0x4000_0000, 0x4000_0000, 0x4000_0000, 0x4000_0000, 0x4000_0000];
            self.strike = false;
            first = 0;
            last = 11;
            proof {
                assert(self.partial_phase@ =~= Seq::new(11, |i: int| 0x4000_0000u32));
            }
        }
        let ghost mid = *self;
        let spread = (self.parameter[1] >> 7) as i32;
        proof { lemma_i16_shr(o.parameter@[1]); }
        let mut i = first;
        while i < last
            invariant
                first <= i <= last || (first >= last && i == first),
                last <= 11,
                o.strike ==> first == 0 && last == 11,
                !o.strike ==> first == o.current_partial && last == (if first < 8 { first + 3 } else { 11 }),
                spread == (o.parameter@[1] >> 7i16) as i32,
                -256 <= spread <= 255,
                0 <= self.pitch <= 17920,
                self.pitch == o.pitch,
                self.partial_phase_increment@.len() == 11,
                forall|j: int| 0 <= j < 11 ==> #[trigger] self.partial_phase_increment@[j]
                    == (if first <= j && j < i { phase_increment_of(bell_partial_pitch(o.pitch, o.parameter@[1], j)) << 1u32 } else { o.partial_phase_increment@[j] }),
                *self == (DigitalOscillator { partial_phase_increment: self.partial_phase_increment, ..mid }),
            decreases last - i,
        {
            let pp = if i % 2 == 1 {
                self.pitch as i32 + BELL_PARTIALS[i] as i32 + spread
            } else {
                self.pitch as i32 + BELL_PARTIALS[i] as i32 - spread
            };
            self.partial_phase_increment[i] = compute_phase_increment_digital(pp) << 1;
            i += 1;
        }
        let ghost mid2 = *self;
        let p0 = self.parameter[0];
        if p0 < 32000 {
            let mut i: usize = 0;
            while i < 11
                invariant
                    i <= 11,
                    p0 == o.parameter@[0],
                    p0 < 32000,
                    self.partial_amplitude@.len() == 11,
                    forall|j: int| 0 <= j < 11 ==> #[trigger] self.partial_amplitude@[j]
                        == (if j < i { mid2.partial_amplitude@[j].wrapping_mul(partial_decay(BELL_PARTIAL_DECAY_LONG@[j], BELL_PARTIAL_DECAY_SHORT@[j], p0)) >> 16i32 } else { mid2.partial_amplitude@[j] }),
                    *self == (DigitalOscillator { partial_amplitude: self.partial_amplitude, ..mid2 }),
                decreases 11 - i,
            {
                let decay = partial_decay_exec(BELL_PARTIAL_DECAY_LONG[i], BELL_PARTIAL_DECAY_SHORT[i], p0);
                self.partial_amplitude[i] = self.partial_amplitude[i].wrapping_mul(decay) >> 16;
                i += 1;
            }
        }
        proof {
            assert(self.partial_phase_increment@ =~= bell_increments(o.pitch, o.parameter@[1], o.partial_phase_increment@, o.current_partial, o.strike));
            assert(self.partial_amplitude@ =~= bell_amplitudes(o.partial_amplitude@, o.strike, o.parameter@[0]));
            assert(self.partial_phase@ =~= bell_start_phases(o.partial_phase@, o.strike));
        }
    }

    /// One bell step: two output samples.
    fn bell_pair(&mut self) -> (r: (i16, i16))
        ensures
            ({
                let o = *old(self);
                let st = bell_step(o.bell_voice(), o.partial_phase_increment@, o.partial_amplitude@);
                &&& r.0 == st.1
                &&& r.1 == st.2
                &&& final(self).bell_voice() == st.0
                &&& *final(self) == (DigitalOscillator {
                    partial_phase: final(self).partial_phase,
                    add_previous_sample: final(self).add_previous_sample,
                    ..o
                })
            }),
    {
        let ghost o = *self;
        let ghost phases = Seq::new(11, |j: int| o.partial_phase@[j].wrapping_add(o.partial_phase_increment@[j]));
        let mut out: i32 = 0;
        let mut i: usize = 0;
        while i < 11
            invariant
                i <= 11,
                self.partial_phase@.len() == 11,
                phases == Seq::new(11, |j: int| o.partial_phase@[j].wrapping_add(o.partial_phase_increment@[j])),
                forall|j: int| 0 <= j < 11 ==> #[trigger] self.partial_phase@[j] == (if j < i { phases[j] } else { o.partial_phase@[j] }),
                out == bell_sum(phases, o.partial_amplitude@, i as nat),
                *self == (DigitalOscillator { partial_phase: self.partial_phase, ..o }),
            decreases 11 - i,
        {
            self.partial_phase[i] = self.partial_phase[i].wrapping_add(self.partial_phase_increment[i]);
            let partial = interpolate_824_i16(&WAV_SINE, self.partial_phase[i]) as i32;
            out = out.wrapping_add(partial.wrapping_mul(self.partial_amplitude[i]) >> 17);
            i += 1;
        }
        let sample = clip16_sym(out);
        let a = ((sample + self.add_previous_sample as i32) >> 1) as i16;
        self.add_previous_sample = sample as i16;
        proof {
            assert(self.partial_phase@ =~= phases);
        }
        (a, sample as i16)
    }

    /// The bell's block: sample `k` of `size`.
    pub closed spec fn bell_sample(self, size: nat, k: int) -> i16 {
        let o = self;
        let amp = bell_amplitudes(o.partial_amplitude@, o.strike, o.parameter@[0]);
        let inc = bell_increments(o.pitch, o.parameter@[1], o.partial_phase_increment@, o.current_partial, o.strike);
        let v0 = BellVoice { phases: bell_start_phases(o.partial_phase@, o.strike), previous: o.add_previous_sample as i32 };
        let st = bell_step(bell_run(v0, inc, amp, (k / 2) as nat), inc, amp);
        if k % 2 == 0 { st.1 } else { st.2 }
    }

    /// Whether `end` is the bell's state after a block of `size` samples.
    pub closed spec fn bell_into(self, size: nat, end: Self) -> bool {
        let o = self;
        let amp = bell_amplitudes(o.partial_amplitude@, o.strike, o.parameter@[0]);
        let inc = bell_increments(o.pitch, o.parameter@[1], o.partial_phase_increment@, o.current_partial, o.strike);
        let v0 = BellVoice { phases: bell_start_phases(o.partial_phase@, o.strike), previous: o.add_previous_sample as i32 };
        let e = bell_run(v0, inc, amp, size / 2);
        &&& end.partial_phase@ == e.phases
        &&& end.partial_phase_increment@ == inc
        &&& end.partial_amplitude@ == amp
        &&& end.add_previous_sample as i32 == e.previous
        &&& end.current_partial == (o.current_partial + 3) % 11
        &&& end == (DigitalOscillator {
            partial_phase: end.partial_phase,
            partial_phase_increment: end.partial_phase_increment,
            partial_amplitude: end.partial_amplitude,
            add_previous_sample: end.add_previous_sample,
            current_partial: end.current_partial,
            strike: false,
            ..o
        })
    }

    /// The drum's pulses and filter after the first block's setup: the
    /// pulses land at once, after 1 ms and after 4 ms (at 48 kHz), each
    /// with its own decay; the filter is a punchy band-pass.
    pub closed spec fn kick_configured(self) -> (Excitation, Excitation, Excitation, Svf) {
        if self.init {
            (
                self.pulse0.reset().with_delay(0).with_decay(3340),
                self.pulse1.reset().with_delay(48).with_decay(3072),
                self.pulse2.reset().with_delay(192).with_decay(4093),
                self.svf0.cleared().with_punch(32768).with_mode(SvfMode::Bp),
            )
        } else {
            (self.pulse0, self.pulse1, self.pulse2, self.svf0)
        }
    }

    /// The drum at the start of a block: a strike arms the three pulses
    /// (a strong hit, a negative one, a weaker one) and lowers the punch;
    /// the resonance follows the first parameter.
    pub closed spec fn kick_voice(self) -> KickVoice {
        let c = self.kick_configured();
        let s = if self.strike {
            (c.0.triggered(275251), c.1.triggered(-13763i32), c.2.triggered(18000), c.3.with_punch(24000))
        } else {
            c
        };
        KickVoice { pulse0: s.0, pulse1: s.1, pulse2: s.2, svf: s.3.with_resonance(kick_resonance(self.parameter@[0])), lp: self.kick_lp }
    }

    /// Whether a block of `size` samples of the drum stays within 32 bits
    /// (the pulses' delays, when struck, and every step of the block).
    pub closed spec fn kick_ok(self, size: nat) -> bool {
        let c = self.kick_configured();
        &&& self.strike ==> (c.0.delay() as i32) < i32::MAX && (c.1.delay() as i32) < i32::MAX && (c.2.delay() as i32) < i32::MAX
        &&& kick_run_ok(self.kick_voice(), self.pitch, kick_lp_coefficient(self.parameter@[1]), size / 2)
    }

    /// Whether the next block of `size` samples of the bass drum stays within
    /// 32 bits, once the controls are set to `p0` and `p1` and the pitch to
    /// `pitch` (see `kick_ok`): runs the block on copies of the state.
    #[verifier::rlimit(60)]
    pub fn kick_fits(&self, p0: i16, p1: i16, pitch: i16, size: usize) -> (r: bool)
        ensures
            r == self.with_parameters(p0, p1).with_pitch(smoothed_pitch(self.pitch(), pitch))
                .with_shape(DigitalModel::Kick).prepared().kick_ok(size as nat),
    {
        let smoothed: i16 = if self.pitch > 11520 && pitch > 11520 {
            let s = self.pitch as i32 + pitch as i32;
            proof {
                lemma_i32_shr(s);
            }
            (s >> 1) as i16
        } else {
            pitch
        };
        let ghost o = self.with_parameters(p0, p1).with_pitch(smoothed_pitch(self.pitch(), pitch))
            .with_shape(DigitalModel::Kick).prepared();
        let changed = self.previous_shape != DigitalModel::Kick;
        let mut q0 = self.pulse0;
        let mut q1 = self.pulse1;
        let mut q2 = self.pulse2;
        let mut f = self.svf0;
        if changed {
            q0.init();
            q1.init();
            q2.init();
            f.init();
        }
        let init = changed || self.init;
        let strike = changed || self.strike;
        let mut lp: i16 = if changed { 0 } else { self.kick_lp };
        if init {
            q0.init();
            q0.set_delay(0);
            q0.set_decay(3340);
            q1.init();
            q1.set_delay(48);
            q1.set_decay(3072);
            q2.init();
            q2.set_delay(192);
            q2.set_decay(4093);
            f.init();
            f.set_punch(32768);
            f.set_mode(SvfMode::Bp);
        }
        proof {
            assert((q0, q1, q2, f) == o.kick_configured());
        }
        if strike {
            if !(q0.can_trigger() && q1.can_trigger() && q2.can_trigger()) {
                return false;
            }
            q0.trigger(275251);
            q1.trigger(-13763);
            q2.trigger(18000);
            f.set_punch(24000);
        }
        let resonance = kick_resonance_exec(p0);
        f.set_resonance(resonance);
        let coef = kick_lp_coefficient_exec(p1);
        let clamped: i16 = if smoothed > 17920 { 17920 } else if smoothed < 0 { 0 } else { smoothed };
        let ghost v0 = o.kick_voice();
        proof {
            assert(v0 == KickVoice { pulse0: q0, pulse1: q1, pulse2: q2, svf: f, lp });
        }
        let mut j: usize = 0;
        while j < size / 2
            invariant
                j <= size / 2,
                o == self.with_parameters(p0, p1).with_pitch(smoothed_pitch(self.pitch(), pitch))
                    .with_shape(DigitalModel::Kick).prepared(),
                v0 == o.kick_voice(),
                clamped == o.pitch,
                0 <= clamped <= 17920,
                coef == kick_lp_coefficient(o.parameter@[1]),
                !o.strike || ((o.kick_configured().0.delay() as i32) < i32::MAX
                    && (o.kick_configured().1.delay() as i32) < i32::MAX && (o.kick_configured().2.delay() as i32) < i32::MAX),
                (KickVoice { pulse0: q0, pulse1: q1, pulse2: q2, svf: f, lp }) == kick_run(v0, clamped, coef, j as nat),
                forall|k: nat| k < j ==> #[trigger] kick_pair_ok(kick_run(v0, clamped, coef, k), clamped, coef),
            decreases size / 2 - j,
        {
            let (ok, next) = kick_pair_checked(&mut q0, &mut q1, &mut q2, &mut f, lp, clamped, coef);
            if !ok {
                proof {
                    assert(!kick_pair_ok(kick_run(v0, clamped, coef, j as nat), clamped, coef));
                    assert(!kick_run_ok(v0, clamped, coef, (size / 2) as nat));
                }
                return false;
            }
            lp = next;
            j += 1;
        }
        true
    }

    /// Whether `end` is the drum's state after a block of `size` samples.
    pub closed spec fn kick_into(self, size: nat, end: Self) -> bool {
        let e = kick_run(self.kick_voice(), self.pitch, kick_lp_coefficient(self.parameter@[1]), size / 2);
        end == (DigitalOscillator {
            pulse0: e.pulse0,
            pulse1: e.pulse1,
            pulse2: e.pulse2,
            svf0: e.svf,
            kick_lp: e.lp,
            init: false,
            strike: false,
            ..self
        })
    }

    /// The analog bass drum (see `kick_pair`).
    fn render_kick(&mut self, buffer: &mut [i16], size: usize)
        requires
            size % 2 == 0,
            size <= old(buffer)@.len(),
            0 <= old(self).pitch <= 17920,
            old(self).kick_ok(size as nat),
        ensures
            final(buffer)@.len() == old(buffer)@.len(),
            forall|k: int| 0 <= k < size ==> #[trigger] final(buffer)@[k] == ({
                let o = *old(self);
                let st = kick_pair(kick_run(o.kick_voice(), o.pitch, kick_lp_coefficient(o.parameter@[1]), (k / 2) as nat),
                    o.pitch, kick_lp_coefficient(o.parameter@[1]));
                if k % 2 == 0 { st.1 } else { st.2 }
            }),
            forall|k: int| size <= k < old(buffer)@.len() ==> #[trigger] final(buffer)@[k] == old(buffer)@[k],
            old(self).kick_into(size as nat, *final(self)),
    {
        let ghost o = *self;
        if self.init {
            self.pulse0.init();
            self.pulse0.set_delay(0);
            self.pulse0.set_decay(3340);
            self.pulse1.init();
            self.pulse1.set_delay(48);
            self.pulse1.set_decay(3072);
            self.pulse2.init();
            self.pulse2.set_delay(192);
            self.pulse2.set_decay(4093);
            self.svf0.init();
            self.svf0.set_punch(32768);
            self.svf0.set_mode(SvfMode::Bp);
            self.init = false;
        }
        if self.strike {
            self.strike = false;
            self.pulse0.trigger(275251);
            self.pulse1.trigger(-13763);
            self.pulse2.trigger(18000);
            self.svf0.set_punch(24000);
        }
        let resonance = kick_resonance_exec(self.parameter[0]);
        self.svf0.set_resonance(resonance);
        let coef = kick_lp_coefficient_exec(self.parameter[1]);
        let pitch = self.pitch;
        let ghost v0 = o.kick_voice();
        proof {
            assert(v0 == KickVoice { pulse0: self.pulse0, pulse1: self.pulse1, pulse2: self.pulse2, svf: self.svf0, lp: self.kick_lp });
        }
        let ghost mid = *self;
        let mut lp = self.kick_lp;
        let mut j: usize = 0;
        while j < size / 2
            invariant
                j <= size / 2,
                size % 2 == 0,
                size <= buffer@.len(),
                buffer@.len() == old(buffer)@.len(),
                0 <= pitch <= 17920,
                coef == kick_lp_coefficient(o.parameter@[1]),
                kick_run_ok(v0, pitch, coef, (size / 2) as nat),
                ({
                    let w = kick_run(v0, pitch, coef, j as nat);
                    &&& self.pulse0 == w.pulse0
                    &&& self.pulse1 == w.pulse1
                    &&& self.pulse2 == w.pulse2
                    &&& self.svf0 == w.svf
                    &&& lp == w.lp
                }),
                *self == (DigitalOscillator {
                    pulse0: self.pulse0,
                    pulse1: self.pulse1,
                    pulse2: self.pulse2,
                    svf0: self.svf0,
                    ..mid
                }),
                forall|k: int| 0 <= k < 2 * j ==> #[trigger] buffer@[k] == ({
                    let st = kick_pair(kick_run(v0, pitch, coef, (k / 2) as nat), pitch, coef);
                    if k % 2 == 0 { st.1 } else { st.2 }
                }),
                forall|k: int| size <= k < buffer@.len() ==> #[trigger] buffer@[k] == old(buffer)@[k],
            decreases size / 2 - j,
        {
            proof {
                assert(kick_run_ok(v0, pitch, coef, (size / 2) as nat));
                assert(kick_pair_ok(kick_run(v0, pitch, coef, j as nat), pitch, coef));
            }
            let (a, b) = kick_pair_exec(&mut self.pulse0, &mut self.pulse1, &mut self.pulse2, &mut self.svf0, lp, pitch, coef);
            buffer[2 * j] = a;
            buffer[2 * j + 1] = b;
            lp = b;
            proof {
                assert((2 * j) / 2 == j);
                assert((2 * j + 1) / 2 == j);
                assert((2 * j) % 2 == 0);
                assert((2 * j + 1) % 2 == 1);
            }
            j += 1;
        }
        self.kick_lp = lp;
    }

    /// The snare's pulses and filters after the first block's setup.
    pub closed spec fn snare_configured(self) -> SnareVoice {
        if self.init {
            SnareVoice {
                pulse0: self.pulse0.reset().with_delay(0).with_decay(1536),
                pulse1: self.pulse1.reset().with_delay(48).with_decay(3072),
                pulse2: self.pulse2.reset().with_delay(48).with_decay(1200),
                pulse3: self.pulse3.reset().with_delay(0),
                svf0: self.svf0.cleared(),
                svf1: self.svf1.cleared(),
                svf2: self.svf2.cleared().with_resonance(2000).with_mode(SvfMode::Bp),
                seed: self.rng.state(),
            }
        } else {
            SnareVoice {
                pulse0: self.pulse0,
                pulse1: self.pulse1,
                pulse2: self.pulse2,
                pulse3: self.pulse3,
                svf0: self.svf0,
                svf1: self.svf1,
                svf2: self.svf2,
                seed: self.rng.state(),
            }
        }
    }

    /// How long a struck snare rings: longer at low pitch and with the
    /// second parameter past its middle.
    pub closed spec fn snare_decay(self) -> i32 {
        let d = 49152 - self.pitch as int + (if self.parameter@[1] < 16384 { 0 } else { self.parameter@[1] as int - 16384 });
        (if d > 65535 { 65535 } else { d }) as i32
    }

    /// The snare at the start of a block: a strike sets the two tone
    /// filters' resonance and the noise's decay from the decay, and arms
    /// the pulses (the noise burst as strong as the second parameter, up to
    /// 14336); the filters are tuned an octave, two octaves and five octaves
    /// above the pitch.
    pub closed spec fn snare_voice(self) -> SnareVoice {
        let c = self.snare_configured();
        let d = self.snare_decay();
        let snappy: int = if (self.parameter@[1] as int) < 14336 { self.parameter@[1] as int } else { 14336 };
        let s = if self.strike {
            SnareVoice {
                pulse0: c.pulse0.triggered(491520),
                pulse1: c.pulse1.triggered(-32768i32),
                pulse2: c.pulse2.triggered(13107),
                pulse3: c.pulse3.with_decay((4092 + (d >> 14i32) as int) as u32).triggered((512 + snappy * 2) as i32),
                svf0: c.svf0.with_resonance((29000 + (d >> 5i32) as int) as i16),
                svf1: c.svf1.with_resonance((26500 + (d >> 5i32) as int) as i16),
                ..c
            }
        } else {
            c
        };
        SnareVoice {
            svf0: s.svf0.with_frequency((self.pitch as int + 1536) as i16),
            svf1: s.svf1.with_frequency((self.pitch as int + 3072) as i16),
            svf2: s.svf2.with_frequency((self.pitch as int + 7680) as i16),
            ..s
        }
    }

    /// The gain of the snare's first (`i == 1`) or second tone: 22000 less
    /// or more half the first parameter.
    pub closed spec fn snare_gain(self, i: int) -> int {
        if i == 1 {
            22000 - ((self.parameter@[0] as i32) >> 1i32) as int
        } else {
            22000 + ((self.parameter@[0] as i32) >> 1i32) as int
        }
    }

    /// Whether a block of `size` samples of the snare stays within 32 bits.
    pub closed spec fn snare_ok(self, size: nat) -> bool {
        let c = self.snare_configured();
        &&& self.strike ==> (c.pulse0.delay() as i32) < i32::MAX && (c.pulse1.delay() as i32) < i32::MAX
            && (c.pulse2.delay() as i32) < i32::MAX && (c.pulse3.delay() as i32) < i32::MAX
        &&& snare_run_ok(self.snare_voice(), self.snare_gain(1), self.snare_gain(2), size / 2)
    }

    /// Whether the next block of `size` samples of the snare stays within 32
    /// bits, once the controls are set to `p0` and `p1` and the pitch to
    /// `pitch` (see `snare_ok`): runs the block on copies of the state.
    #[verifier::rlimit(80)]
    pub fn snare_fits(&self, p0: i16, p1: i16, pitch: i16, size: usize) -> (r: bool)
        ensures
            r == self.with_parameters(p0, p1).with_pitch(smoothed_pitch(self.pitch(), pitch))
                .with_shape(DigitalModel::Snare).prepared().snare_ok(size as nat),
    {
        let smoothed: i16 = if self.pitch > 11520 && pitch > 11520 {
            let s = self.pitch as i32 + pitch as i32;
            proof {
                lemma_i32_shr(s);
            }
            (s >> 1) as i16
        } else {
            pitch
        };
        let ghost o = self.with_parameters(p0, p1).with_pitch(smoothed_pitch(self.pitch(), pitch))
            .with_shape(DigitalModel::Snare).prepared();
        let changed = self.previous_shape != DigitalModel::Snare;
        let mut q0 = self.pulse0;
        let mut q1 = self.pulse1;
        let mut q2 = self.pulse2;
        let mut q3 = self.pulse3;
        let mut f0 = self.svf0;
        let mut f1 = self.svf1;
        let mut f2 = self.svf2;
        let mut rng = self.rng;
        if changed {
            q0.init();
            q1.init();
            q2.init();
            q3.init();
            f0.init();
            f1.init();
            f2.init();
        }
        let init = changed || self.init;
        let strike = changed || self.strike;
        if init {
            q0.init();
            q0.set_delay(0);
            q0.set_decay(1536);
            q1.init();
            q1.set_delay(48);
            q1.set_decay(3072);
            q2.init();
            q2.set_delay(48);
            q2.set_decay(1200);
            q3.init();
            q3.set_delay(0);
            f0.init();
            f1.init();
            f2.init();
            f2.set_resonance(2000);
            f2.set_mode(SvfMode::Bp);
        }
        proof {
            assert(o.snare_configured() == SnareVoice {
                pulse0: q0, pulse1: q1, pulse2: q2, pulse3: q3, svf0: f0, svf1: f1, svf2: f2, seed: rng.state() });
        }
        let clamped: i16 = if smoothed > 17920 { 17920 } else if smoothed < 0 { 0 } else { smoothed };
        if strike {
            if !(q0.can_trigger() && q1.can_trigger() && q2.can_trigger() && q3.can_trigger()) {
                return false;
            }
            let mut decay: i32 = 49152 - clamped as i32;
            decay = decay + if p1 < 16384 { 0 } else { p1 as i32 - 16384 };
            if decay > 65535 {
                decay = 65535;
            }
            proof {
                lemma_i32_shr(decay);
            }
            f0.set_resonance((29000 + (decay >> 5)) as i16);
            f1.set_resonance((26500 + (decay >> 5)) as i16);
            q3.set_decay((4092 + (decay >> 14)) as u32);
            q0.trigger(491520);
            q1.trigger(-32768);
            q2.trigger(13107);
            let snappy: i32 = if (p1 as i32) < 14336 { p1 as i32 } else { 14336 };
            q3.trigger(512 + snappy * 2);
        }
        f0.set_frequency(clamped + 1536);
        f1.set_frequency(clamped + 3072);
        f2.set_frequency(clamped + 7680);
        proof {
            lemma_i32_shr(p0 as i32);
        }
        let g1: i32 = 22000 - (p0 as i32 >> 1);
        let g2: i32 = 22000 + (p0 as i32 >> 1);
        let ghost v0 = o.snare_voice();
        proof {
            assert(v0 == SnareVoice {
                pulse0: q0, pulse1: q1, pulse2: q2, pulse3: q3, svf0: f0, svf1: f1, svf2: f2, seed: rng.state() });
        }
        let mut j: usize = 0;
        while j < size / 2
            invariant
                j <= size / 2,
                o == self.with_parameters(p0, p1).with_pitch(smoothed_pitch(self.pitch(), pitch))
                    .with_shape(DigitalModel::Snare).prepared(),
                v0 == o.snare_voice(),
                g1 == o.snare_gain(1),
                g2 == o.snare_gain(2),
                !o.strike || ((o.snare_configured().pulse0.delay() as i32) < i32::MAX
                    && (o.snare_configured().pulse1.delay() as i32) < i32::MAX
                    && (o.snare_configured().pulse2.delay() as i32) < i32::MAX
                    && (o.snare_configured().pulse3.delay() as i32) < i32::MAX),
                (SnareVoice { pulse0: q0, pulse1: q1, pulse2: q2, pulse3: q3, svf0: f0, svf1: f1, svf2: f2, seed: rng.state() })
                    == snare_run(v0, g1 as int, g2 as int, j as nat),
                forall|k: nat| k < j ==> #[trigger] snare_step_ok(snare_run(v0, g1 as int, g2 as int, k), g1 as int, g2 as int),
            decreases size / 2 - j,
        {
            let ok = snare_step_checked(&mut q0, &mut q1, &mut q2, &mut q3, &mut f0, &mut f1, &mut f2, &mut rng, g1, g2);
            if !ok {
                proof {
                    assert(!snare_step_ok(snare_run(v0, g1 as int, g2 as int, j as nat), g1 as int, g2 as int));
                    assert(!snare_run_ok(v0, g1 as int, g2 as int, (size / 2) as nat));
                }
                return false;
            }
            j += 1;
        }
        true
    }

    /// Whether `end` is the snare's state after a block of `size` samples.
    pub closed spec fn snare_into(self, size: nat, end: Self) -> bool {
        let e = snare_run(self.snare_voice(), self.snare_gain(1), self.snare_gain(2), size / 2);
        &&& end.rng.state() == e.seed
        &&& end == (DigitalOscillator {
            pulse0: e.pulse0,
            pulse1: e.pulse1,
            pulse2: e.pulse2,
            pulse3: e.pulse3,
            svf0: e.svf0,
            svf1: e.svf1,
            svf2: e.svf2,
            rng: end.rng,
            init: false,
            strike: false,
            ..self
        })
    }

    /// The snare drum (see `snare_step`).
    fn render_snare(&mut self, buffer: &mut [i16], size: usize)
        requires
            size % 2 == 0,
            size <= old(buffer)@.len(),
            0 <= old(self).pitch <= 17920,
            old(self).snare_ok(size as nat),
        ensures
            final(buffer)@.len() == old(buffer)@.len(),
            forall|k: int| 0 <= k < size ==> #[trigger] final(buffer)@[k] == ({
                let o = *old(self);
                snare_step(snare_run(o.snare_voice(), o.snare_gain(1), o.snare_gain(2), (k / 2) as nat),
                    o.snare_gain(1), o.snare_gain(2)).1
            }),
            forall|k: int| size <= k < old(buffer)@.len() ==> #[trigger] final(buffer)@[k] == old(buffer)@[k],
            old(self).snare_into(size as nat, *final(self)),
    {
        let ghost o = *self;
        if self.init {
            self.pulse0.init();
            self.pulse0.set_delay(0);
            self.pulse0.set_decay(1536);
            self.pulse1.init();
            self.pulse1.set_delay(48);
            self.pulse1.set_decay(3072);
            self.pulse2.init();
            self.pulse2.set_delay(48);
            self.pulse2.set_decay(1200);
            self.pulse3.init();
            self.pulse3.set_delay(0);
            self.svf0.init();
            self.svf1.init();
            self.svf2.init();
            self.svf2.set_resonance(2000);
            self.svf2.set_mode(SvfMode::Bp);
            self.init = false;
        }
        if self.strike {
            let mut decay: i32 = 49152 - self.pitch as i32;
            decay = decay + if self.parameter[1] < 16384 { 0 } else { self.parameter[1] as i32 - 16384 };
            if decay > 65535 {
                decay = 65535;
            }
            proof {
                lemma_i32_shr(decay);
            }
            self.svf0.set_resonance((29000 + (decay >> 5)) as i16);
            self.svf1.set_resonance((26500 + (decay >> 5)) as i16);
            self.pulse3.set_decay((4092 + (decay >> 14)) as u32);
            self.pulse0.trigger(491520);
            self.pulse1.trigger(-32768);
            self.pulse2.trigger(13107);
            let snappy: i32 = if (self.parameter[1] as i32) < 14336 { self.parameter[1] as i32 } else { 14336 };
            self.pulse3.trigger(512 + snappy * 2);
            self.strike = false;
        }
        self.svf0.set_frequency(self.pitch + 1536);
        self.svf1.set_frequency(self.pitch + 3072);
        self.svf2.set_frequency(self.pitch + 7680);
        proof {
            lemma_i32_shr(self.parameter@[0] as i32);
        }
        let g1: i32 = 22000 - (self.parameter[0] as i32 >> 1);
        let g2: i32 = 22000 + (self.parameter[0] as i32 >> 1);
        let ghost v0 = o.snare_voice();
        proof {
            assert(v0 == SnareVoice {
                pulse0: self.pulse0, pulse1: self.pulse1, pulse2: self.pulse2, pulse3: self.pulse3,
                svf0: self.svf0, svf1: self.svf1, svf2: self.svf2, seed: self.rng.state(),
            });
        }
        let ghost mid = *self;
        let mut j: usize = 0;
        while j < size / 2
            invariant
                j <= size / 2,
                size % 2 == 0,
                size <= buffer@.len(),
                buffer@.len() == old(buffer)@.len(),
                g1 as int == o.snare_gain(1),
                g2 as int == o.snare_gain(2),
                snare_run_ok(v0, g1 as int, g2 as int, (size / 2) as nat),
                ({
                    let w = snare_run(v0, g1 as int, g2 as int, j as nat);
                    &&& self.pulse0 == w.pulse0
                    &&& self.pulse1 == w.pulse1
                    &&& self.pulse2 == w.pulse2
                    &&& self.pulse3 == w.pulse3
                    &&& self.svf0 == w.svf0
                    &&& self.svf1 == w.svf1
                    &&& self.svf2 == w.svf2
                    &&& self.rng.state() == w.seed
                }),
                *self == (DigitalOscillator {
                    pulse0: self.pulse0,
                    pulse1: self.pulse1,
                    pulse2: self.pulse2,
                    pulse3: self.pulse3,
                    svf0: self.svf0,
                    svf1: self.svf1,
                    svf2: self.svf2,
                    rng: self.rng,
                    ..mid
                }),
                forall|k: int| 0 <= k < 2 * j ==> #[trigger] buffer@[k]
                    == snare_step(snare_run(v0, g1 as int, g2 as int, (k / 2) as nat), g1 as int, g2 as int).1,
                forall|k: int| size <= k < buffer@.len() ==> #[trigger] buffer@[k] == old(buffer)@[k],
            decreases size / 2 - j,
        {
            proof {
                assert(snare_step_ok(snare_run(v0, g1 as int, g2 as int, j as nat), g1 as int, g2 as int));
            }
            let sd = snare_step_exec(&mut self.pulse0, &mut self.pulse1, &mut self.pulse2, &mut self.pulse3,
                &mut self.svf0, &mut self.svf1, &mut self.svf2, &mut self.rng, g1, g2);
            buffer[2 * j] = sd;
            buffer[2 * j + 1] = sd;
            proof {
                assert((2 * j) / 2 == j);
                assert((2 * j + 1) / 2 == j);
            }
            j += 1;
        }
    }

    /// The cymbal's filters after the first block's setup (a band-pass for
    /// the tone, a high-pass for the noise), tuned by the first parameter.
    pub closed spec fn cymbal_voice(self) -> CymbalVoice {
        let c = if self.init {
            (self.svf0.cleared().with_mode(SvfMode::Bp).with_resonance(12000),
             self.svf1.cleared().with_mode(SvfMode::Hp).with_resonance(2000))
        } else {
            (self.svf0, self.svf1)
        };
        CymbalVoice {
            phase: self.phase,
            hats: self.hat_phase@,
            rng: self.hat_rng,
            svf0: c.0.with_frequency(self.parameter@[0] >> 1i16),
            svf1: c.1.with_frequency(self.parameter@[0] >> 1i16),
        }
    }

    /// The increments of the cymbal's six square waves (at inharmonic
    /// ratios of a root 40 semitones up, at half the pitch's semitones) and
    /// of its noise clock (24 times the root).
    pub closed spec fn cymbal_increments(self) -> Seq<u32> {
        let inc0 = phase_increment_of(5120 + ((self.pitch as i32) >> 1i32) as int);
        let root = inc0 >> 10u32;
        seq![
            inc0,
            root.wrapping_mul(24273) >> 4u32,
            root.wrapping_mul(12561) >> 4u32,
            root.wrapping_mul(18417) >> 4u32,
            root.wrapping_mul(22452) >> 4u32,
            root.wrapping_mul(31858) >> 4u32,
            inc0.wrapping_mul(24),
        ]
    }

    /// Whether a block of `size` samples of the cymbal stays within 32 bits.
    pub closed spec fn cymbal_ok(self, size: nat) -> bool {
        cymbal_run_ok(self.cymbal_voice(), self.cymbal_increments(), self.parameter@[1] as i32, size)
    }

    /// Whether the next block of `size` samples of the cymbal stays within 32
    /// bits, once the controls are set to `p0` and `p1` and the pitch to
    /// `pitch` (see `cymbal_ok`): runs the block on copies of the state.
    #[verifier::rlimit(60)]
    pub fn cymbal_fits(&self, p0: i16, p1: i16, pitch: i16, size: usize) -> (r: bool)
        ensures
            r == self.with_parameters(p0, p1).with_pitch(smoothed_pitch(self.pitch(), pitch))
                .with_shape(DigitalModel::Cymbal).prepared().cymbal_ok(size as nat),
    {
        let smoothed: i16 = if self.pitch > 11520 && pitch > 11520 {
            let s = self.pitch as i32 + pitch as i32;
            proof {
                lemma_i32_shr(s);
            }
            (s >> 1) as i16
        } else {
            pitch
        };
        let ghost o = self.with_parameters(p0, p1).with_pitch(smoothed_pitch(self.pitch(), pitch))
            .with_shape(DigitalModel::Cymbal).prepared();
        let changed = self.previous_shape != DigitalModel::Cymbal;
        let mut phase: u32 = if changed { 0 } else { self.phase };
        let mut hats: [u32; 6] = if changed { [0, 0, 0, 0, 0, 0] } else { self.hat_phase };
        let mut rng: u32 = if changed { 0 } else { self.hat_rng };
        let mut s0 = self.svf0;
        let mut s1 = self.svf1;
        let init = changed || self.init;
        if changed {
            s0.init();
            s1.init();
        }
        if init {
            s0.init();
            s0.set_mode(SvfMode::Bp);
            s0.set_resonance(12000);
            s1.init();
            s1.set_mode(SvfMode::Hp);
            s1.set_resonance(2000);
        }
        proof {
            lemma_i16_shr(p0);
        }
        s0.set_frequency(p0 >> 1);
        s1.set_frequency(p0 >> 1);
        let clamped: i16 = if smoothed > 17920 { 17920 } else if smoothed < 0 { 0 } else { smoothed };
        let mut inc: [u32; 7] = [0, 0, 0, 0, 0, 0, 0];
        proof {
            lemma_i32_shr(clamped as i32);
        }
        inc[0] = compute_phase_increment_digital(5120 + (clamped as i32 >> 1));
        let root = inc[0] >> 10;
        inc[1] = root.wrapping_mul(24273) >> 4;
        inc[2] = root.wrapping_mul(12561) >> 4;
        inc[3] = root.wrapping_mul(18417) >> 4;
        inc[4] = root.wrapping_mul(22452) >> 4;
        inc[5] = root.wrapping_mul(31858) >> 4;
        inc[6] = inc[0].wrapping_mul(24);
        let xfade = p1 as i32;
        let ghost v0 = o.cymbal_voice();
        let ghost incs = o.cymbal_increments();
        proof {
            assert(inc@ =~= incs);
            if changed {
                assert(hats@ =~= o.hat_phase@);
            }
            assert(v0 == CymbalVoice { phase, hats: hats@, rng, svf0: s0, svf1: s1 });
        }
        let mut i: usize = 0;
        while i < size
            invariant
                i <= size,
                o == self.with_parameters(p0, p1).with_pitch(smoothed_pitch(self.pitch(), pitch))
                    .with_shape(DigitalModel::Cymbal).prepared(),
                v0 == o.cymbal_voice(),
                incs == o.cymbal_increments(),
                inc@ == incs,
                xfade == o.parameter@[1] as i32,
                (CymbalVoice { phase, hats: hats@, rng, svf0: s0, svf1: s1 }) == cymbal_run(v0, incs, xfade, i as nat),
                forall|k: nat| k < i ==> #[trigger] cymbal_step_ok(cymbal_run(v0, incs, xfade, k), incs),
            decreases size - i,
        {
            let ok = cymbal_step_checked(&mut phase, &mut hats, &mut rng, &mut s0, &mut s1, &inc, xfade);
            if !ok {
                proof {
                    assert(!cymbal_step_ok(cymbal_run(v0, incs, xfade, i as nat), incs));
                    assert(!cymbal_run_ok(v0, incs, xfade, size as nat));
                }
                return false;
            }
            i += 1;
        }
        true
    }

    /// Whether `end` is the cymbal's state after a block of `size` samples.
    pub closed spec fn cymbal_into(self, size: nat, end: Self) -> bool {
        let e = cymbal_run(self.cymbal_voice(), self.cymbal_increments(), self.parameter@[1] as i32, size);
        &&& end.hat_phase@ == e.hats
        &&& end == (DigitalOscillator {
            phase: e.phase,
            hat_phase: end.hat_phase,
            hat_rng: e.rng,
            svf0: e.svf0,
            svf1: e.svf1,
            init: false,
            ..self
        })
    }

    /// The cymbal (see `cymbal_step`).
    fn render_cymbal(&mut self, buffer: &mut [i16], size: usize)
        requires
            size <= old(buffer)@.len(),
            0 <= old(self).pitch <= 17920,
            old(self).cymbal_ok(size as nat),
        ensures
            final(buffer)@.len() == old(buffer)@.len(),
            forall|k: int| 0 <= k < size ==> #[trigger] final(buffer)@[k] == ({
                let o = *old(self);
                cymbal_step(cymbal_run(o.cymbal_voice(), o.cymbal_increments(), o.parameter@[1] as i32, k as nat),
                    o.cymbal_increments(), o.parameter@[1] as i32).1
            }),
            forall|k: int| size <= k < old(buffer)@.len() ==> #[trigger] final(buffer)@[k] == old(buffer)@[k],
            old(self).cymbal_into(size as nat, *final(self)),
    {
        let ghost o = *self;
        if self.init {
            self.svf0.init();
            self.svf0.set_mode(SvfMode::Bp);
            self.svf0.set_resonance(12000);
            self.svf1.init();
            self.svf1.set_mode(SvfMode::Hp);
            self.svf1.set_resonance(2000);
            self.init = false;
        }
        let mut inc: [u32; 7] = [0, 0, 0, 0, 0, 0, 0];
        proof {
            lemma_i32_shr(self.pitch as i32);
        }
        inc[0] = compute_phase_increment_digital(5120 + (self.pitch as i32 >> 1));
        let root = inc[0] >> 10;
        inc[1] = root.wrapping_mul(24273) >> 4;
        inc[2] = root.wrapping_mul(12561) >> 4;
        inc[3] = root.wrapping_mul(18417) >> 4;
        inc[4] = root.wrapping_mul(22452) >> 4;
        inc[5] = root.wrapping_mul(31858) >> 4;
        inc[6] = inc[0].wrapping_mul(24);
        let xfade = self.parameter[1] as i32;
        self.svf0.set_frequency(self.parameter[0] >> 1);
        self.svf1.set_frequency(self.parameter[0] >> 1);
        let ghost v0 = o.cymbal_voice();
        let ghost incs = o.cymbal_increments();
        proof {
            assert(inc@ =~= incs);
            assert(v0 == CymbalVoice { phase: self.phase, hats: self.hat_phase@, rng: self.hat_rng, svf0: self.svf0, svf1: self.svf1 });
        }
        let ghost mid = *self;
        let mut i: usize = 0;
        while i < size
            invariant
                i <= size,
                size <= buffer@.len(),
                buffer@.len() == old(buffer)@.len(),
                inc@ == incs,
                xfade == o.parameter@[1] as i32,
                -32768 <= xfade <= 32767,
                cymbal_run_ok(v0, incs, xfade, size as nat),
                ({
                    let w = cymbal_run(v0, incs, xfade, i as nat);
                    &&& self.phase == w.phase
                    &&& self.hat_phase@ == w.hats
                    &&& self.hat_rng == w.rng
                    &&& self.svf0 == w.svf0
                    &&& self.svf1 == w.svf1
                }),
                *self == (DigitalOscillator {
                    phase: self.phase,
                    hat_phase: self.hat_phase,
                    hat_rng: self.hat_rng,
                    svf0: self.svf0,
                    svf1: self.svf1,
                    ..mid
                }),
                forall|k: int| 0 <= k < i ==> #[trigger] buffer@[k] == cymbal_step(cymbal_run(v0, incs, xfade, k as nat), incs, xfade).1,
                forall|k: int| size <= k < buffer@.len() ==> #[trigger] buffer@[k] == old(buffer)@[k],
            decreases size - i,
        {
            proof {
                assert(cymbal_step_ok(cymbal_run(v0, incs, xfade, i as nat), incs));
            }
            let sample = cymbal_step_exec(&mut self.phase, &mut self.hat_phase, &mut self.hat_rng, &mut self.svf0,
                &mut self.svf1, &inc, xfade);
            buffer[i] = sample;
            i += 1;
        }
    }

    /// The vowel's resonator coefficients.
    pub closed spec fn fof_coefficients(self) -> Seq<int> {
        Seq::new(5, |k: int| formant_coefficient(self.parameter@[0], self.parameter@[1], k))
    }

    /// The vowel's mix level.
    pub closed spec fn fof_level(self) -> i16 {
        formant_parameter(FORMANT_A_DATA, self.parameter@[1], self.parameter@[0], 0)
    }

    /// The vowel at the start of a block (a new model starts its resonators
    /// silent).
    pub closed spec fn fof_voice(self) -> FofVoice {
        FofVoice {
            phase: self.phase,
            previous: self.fof_previous_sample,
            next_saw: self.fof_carry.value() as int,
            lp: if self.init { Seq::new(5, |i: int| 0i16) } else { self.fof_lp@ },
            bp: if self.init { Seq::new(5, |i: int| 0i16) } else { self.fof_bp@ },
        }
    }

    /// Whether `end` is the vowel's state after a block of `size` samples.
    pub closed spec fn fof_into(self, size: nat, end: Self) -> bool {
        let e = fof_run(self.fof_voice(), self.phase_increment << 1u32, self.fof_coefficients(), self.fof_level(), size / 2);
        &&& end.fof_lp@ == e.lp
        &&& end.fof_bp@ == e.bp
        &&& end.fof_carry.value() == e.next_saw
        &&& end == (DigitalOscillator {
            phase: e.phase,
            fof_previous_sample: e.previous,
            fof_lp: end.fof_lp,
            fof_bp: end.fof_bp,
            fof_carry: end.fof_carry,
            init: false,
            ..self
        })
    }

    /// The vowel FOF model (see `render_fof`), at twice the increment.
    fn render_vowel_fof(&mut self, buffer: &mut [i16], size: usize)
        requires
            size % 2 == 0,
            size <= old(buffer)@.len(),
            old(self).parameter@[0] >= 0,
            old(self).parameter@[1] >= 0,
        ensures
            final(buffer)@.len() == old(buffer)@.len(),
            forall|k: int| 0 <= k < size ==> #[trigger] final(buffer)@[k] == ({
                let o = *old(self);
                let st = fof_pair(fof_run(o.fof_voice(), o.phase_increment << 1u32, o.fof_coefficients(), o.fof_level(), (k / 2) as nat),
                    o.phase_increment << 1u32, o.fof_coefficients(), o.fof_level());
                if k % 2 == 0 { st.1 } else { st.2 }
            }),
            forall|k: int| size <= k < old(buffer)@.len() ==> #[trigger] final(buffer)@[k] == old(buffer)@[k],
            old(self).fof_into(size as nat, *final(self)),
    {
        let ghost o = *self;
        let (f, amp) = fof_setup(self.parameter[0], self.parameter[1]);
        if self.init {
            self.fof_lp = [0, 0, 0, 0, 0];
            self.fof_bp = [0, 0, 0, 0, 0];
            self.init = false;
        }
        proof {
            assert(self.fof_lp@ =~= o.fof_voice().lp);
            assert(self.fof_bp@ =~= o.fof_voice().bp);
            assert(Seq::new(5, |i: int| f@[i] as int) =~= o.fof_coefficients());
        }
        let inc = self.phase_increment << 1;
        let phase = self.phase;
        let previous = self.fof_previous_sample;
        let (phase, previous) = render_fof(&mut self.fof_lp, &mut self.fof_bp, &mut self.fof_carry, phase, previous,
            inc, &f, amp, buffer, size);
        self.phase = phase;
        self.fof_previous_sample = previous;
    }

    /// The harmonics model (see `render_harmonics`), at twice the increment.
    fn render_harmonics_model(&mut self, sync: &[u8], buffer: &mut [i16], size: usize)
        requires
            size % 2 == 0,
            size <= sync@.len(),
            size <= old(buffer)@.len(),
        ensures
            final(buffer)@.len() == old(buffer)@.len(),
            ({
                let o = *old(self);
                let pi = o.phase_increment << 1u32;
                let targets = Seq::new(12, |i: int| harmonic_target(i, pi, o.parameter@[0], o.parameter@[1]));
                let v0 = HarmonicsVoice { phase: o.phase, previous: o.add_previous_sample, amps: o.hrm_amplitude@ };
                let e = harmonics_run(v0, pi, targets, sync@, (size / 2) as nat);
                &&& forall|k: int| 0 <= k < size ==> #[trigger] final(buffer)@[k] == ({
                    let st = harmonics_pair(harmonics_run(v0, pi, targets, sync@, (k / 2) as nat), pi, targets,
                        sync@[2 * (k / 2)], sync@[2 * (k / 2) + 1]);
                    if k % 2 == 0 { st.1 } else { st.2 }
                })
                &&& final(self).hrm_amplitude@ == e.amps
                &&& *final(self) == (DigitalOscillator {
                    phase: e.phase,
                    add_previous_sample: e.previous,
                    hrm_amplitude: final(self).hrm_amplitude,
                    ..o
                })
            }),
            forall|k: int| size <= k < old(buffer)@.len() ==> #[trigger] final(buffer)@[k] == old(buffer)@[k],
    {
        let pi = self.phase_increment << 1;
        let p0 = self.parameter[0];
        let p1 = self.parameter[1];
        let phase = self.phase;
        let previous = self.add_previous_sample;
        let (phase, previous) = render_harmonics(&mut self.hrm_amplitude, phase, previous, pi, p0, p1, sync, buffer, size);
        self.phase = phase;
        self.add_previous_sample = previous;
    }

    /// The parameters as the clocked noise holds them: the first moves in
    /// steps of more than 16, the second of more than 64.
    pub closed spec fn clock_held(self) -> (i16, i16) {
        (held_parameter(self.previous_parameter@[0], self.parameter@[0], 16),
         held_parameter(self.previous_parameter@[1], self.parameter@[1], 64))
    }

    /// Whether the clocked noise has a number of levels to quantize to (its
    /// held second parameter is not negative).
    pub closed spec fn clock_levels_ok(self) -> bool {
        self.clock_held().1 >= 0
    }

    /// The clocked noise at the start of a block: the cycle clock's increment
    /// is twice that of the held first parameter read as a pitch 128
    /// semitones down; a strike draws a new seed from the generator.
    pub closed spec fn clock_start(self) -> ClockState {
        let seed = if self.strike { lcg_next(self.rng.state()) as i32 } else { self.clock.seed };
        ClockState {
            cycle_increment: phase_increment_of(self.clock_held().0 as int - 16384) << 1u32,
            seed,
            ..self.clock
        }
    }

    /// The clocked noise model (see `render_clocked_noise`).
    fn render_clocked_noise_model(&mut self, sync: &[u8], buffer: &mut [i16], size: usize)
        requires
            size <= sync@.len(),
            size <= old(buffer)@.len(),
            old(self).clock_levels_ok(),
        ensures
            final(buffer)@.len() == old(buffer)@.len(),
            forall|k: int| 0 <= k < size ==> #[trigger] final(buffer)@[k] == ({
                let o = *old(self);
                clock_run((o.phase, o.clock_start()), clock_increment(o.phase_increment),
                    clock_divider(o.clock_held().1), sync@, (k + 1) as nat).1.sample
            }),
            forall|k: int| size <= k < old(buffer)@.len() ==> #[trigger] final(buffer)@[k] == old(buffer)@[k],
            ({
                let o = *old(self);
                let h = o.clock_held();
                let e = clock_run((o.phase, o.clock_start()), clock_increment(o.phase_increment), clock_divider(h.1), sync@, size as nat);
                &&& final(self).rng.state() == (if o.strike { lcg_next(o.rng.state()) } else { o.rng.state() })
                &&& *final(self) == (DigitalOscillator { phase: e.0, clock: e.1, previous_parameter: [h.0, h.1], strike: false, rng: final(self).rng, ..o })
            }),
    {
        let p0 = self.parameter[0];
        let p1 = self.parameter[1];
        let mut h0 = self.previous_parameter[0];
        let mut h1 = self.previous_parameter[1];
        if (p1 as i32) > (h1 as i32) + 64 || (p1 as i32) < (h1 as i32) - 64 {
            h1 = p1;
        }
        if (p0 as i32) > (h0 as i32) + 16 || (p0 as i32) < (h0 as i32) - 16 {
            h0 = p0;
        }
        self.previous_parameter = [h0, h1];
        if self.strike {
            self.clock.seed = self.rng.get_word() as i32;
            self.strike = false;
        }
        let mut inc = self.phase_increment;
        if inc < 0x8000_0000 {
            inc = inc * 2;
        }
        if inc < 0x8000_0000 {
            inc = inc * 2;
        }
        if inc < 0x8000_0000 {
            inc = inc * 2;
        }
        self.clock.cycle_increment = compute_phase_increment_digital(h0 as i32 - 16384) << 1;
        let divider = clock_divider_exec(h1);
        let phase = self.phase;
        self.phase = render_clocked_noise(&mut self.clock, phase, inc, divider, sync, buffer, size);
    }

    /// The modem's symbol rate: five octaves below the pitch, lowered by up
    /// to eight semitones by the first parameter.
    pub closed spec fn symbol_increment(self) -> u32 {
        phase_increment_of(self.pitch as int - 1536 + (((self.parameter@[0] as int - 32767) as i32) >> 3i32) as int)
    }

    /// The modem at the start of a block: a strike restarts the frame.
    pub closed spec fn modem_start(self) -> ModemState {
        if self.strike { ModemState { symbol_count: 0, ..self.modem } } else { self.modem }
    }

    /// The digital modulation model (see `render_modem`).
    /// The FM models' modulator increment (see `modulator_increment`).
    pub closed spec fn fm_modulator_increment(self) -> u32 {
        modulator_increment(self.pitch, self.parameter@[1])
    }

    /// The FM amount's change over the block.
    pub closed spec fn fm_delta(self) -> i32 {
        (self.parameter@[0] - self.previous_parameter@[0]) as i32
    }

    /// The FM amount's ramp step for a block of `size` samples.
    pub closed spec fn fm_ramp(self, size: nat) -> i32 {
        (32767int / size as int) as i32
    }

    /// Plain FM (see `render_fm`), its amount ramping from the last block's.
    fn render_fm_model(&mut self, sync: &[u8], buffer: &mut [i16], size: usize)
        requires
            0 < size <= i32::MAX,
            size <= sync@.len(),
            size <= old(buffer)@.len(),
        ensures
            final(buffer)@.len() == old(buffer)@.len(),
            forall|k: int| 0 <= k < size ==> #[trigger] final(buffer)@[k] == ({
                let o = *old(self);
                let r = fm_run(o.phase, o.modulator_phase, o.phase_increment, o.fm_modulator_increment(),
                    o.previous_parameter@[0] as i32, o.fm_delta(), o.fm_ramp(size as nat), sync@, k as nat);
                fm_step(r.0, r.1, o.phase_increment, o.fm_modulator_increment(),
                    param_at(o.previous_parameter@[0] as i32, o.fm_delta(), o.fm_ramp(size as nat), k as nat), sync@[k]).2
            }),
            forall|k: int| size <= k < old(buffer)@.len() ==> #[trigger] final(buffer)@[k] == old(buffer)@[k],
            ({
                let o = *old(self);
                let e = fm_run(o.phase, o.modulator_phase, o.phase_increment, o.fm_modulator_increment(),
                    o.previous_parameter@[0] as i32, o.fm_delta(), o.fm_ramp(size as nat), sync@, size as nat);
                *final(self) == (DigitalOscillator { phase: e.0, modulator_phase: e.1,
                    previous_parameter: [o.parameter@[0], o.previous_parameter@[1]], ..o })
            }),
    {
        let (phase, modulator) = render_fm(self.phase, self.modulator_phase, self.phase_increment, self.pitch,
            self.previous_parameter[0], self.parameter[0], self.parameter[1], sync, buffer, size);
        self.phase = phase;
        self.modulator_phase = modulator;
        self.previous_parameter = [self.parameter[0], self.previous_parameter[1]];
    }

    /// FM with the output fed back into the modulator (see
    /// `render_feedback_fm`).
    fn render_feedback_fm_model(&mut self, sync: &[u8], buffer: &mut [i16], size: usize)
        requires
            0 < size <= i32::MAX,
            size <= sync@.len(),
            size <= old(buffer)@.len(),
        ensures
            final(buffer)@.len() == old(buffer)@.len(),
            forall|k: int| 0 <= k < size ==> #[trigger] final(buffer)@[k] == ({
                let o = *old(self);
                let att = feedback_attenuation(o.pitch, o.parameter@[1]);
                let r = feedback_run(o.phase, o.ffm_modulator_phase, o.ffm_previous_sample, o.phase_increment,
                    o.fm_modulator_increment(), o.previous_parameter@[0] as i32, o.fm_delta(), o.fm_ramp(size as nat), att, sync@, k as nat);
                feedback_step(r.0, r.1, r.2, o.phase_increment, o.fm_modulator_increment(),
                    param_at(o.previous_parameter@[0] as i32, o.fm_delta(), o.fm_ramp(size as nat), k as nat), att, sync@[k]).2
            }),
            forall|k: int| size <= k < old(buffer)@.len() ==> #[trigger] final(buffer)@[k] == old(buffer)@[k],
            ({
                let o = *old(self);
                let e = feedback_run(o.phase, o.ffm_modulator_phase, o.ffm_previous_sample, o.phase_increment,
                    o.fm_modulator_increment(), o.previous_parameter@[0] as i32, o.fm_delta(), o.fm_ramp(size as nat),
                    feedback_attenuation(o.pitch, o.parameter@[1]), sync@, size as nat);
                *final(self) == (DigitalOscillator { phase: e.0, ffm_modulator_phase: e.1, ffm_previous_sample: e.2,
                    previous_parameter: [o.parameter@[0], o.previous_parameter@[1]], ..o })
            }),
    {
        let (phase, modulator, previous) = render_feedback_fm(self.phase, self.ffm_modulator_phase,
            self.ffm_previous_sample, self.phase_increment, self.pitch, self.previous_parameter[0], self.parameter[0],
            self.parameter[1], sync, buffer, size);
        self.phase = phase;
        self.ffm_modulator_phase = modulator;
        self.ffm_previous_sample = previous;
        self.previous_parameter = [self.parameter[0], self.previous_parameter[1]];
    }

    /// FM whose modulator runs at a rate set by the output (see
    /// `render_chaotic_feedback_fm`).
    fn render_chaotic_fm_model(&mut self, sync: &[u8], buffer: &mut [i16], size: usize)
        requires
            0 < size <= i32::MAX,
            size <= sync@.len(),
            size <= old(buffer)@.len(),
        ensures
            final(buffer)@.len() == old(buffer)@.len(),
            forall|k: int| 0 <= k < size ==> #[trigger] final(buffer)@[k] == ({
                let o = *old(self);
                let r = chaotic_run(o.phase, o.ffm_modulator_phase, o.ffm_previous_sample, o.phase_increment,
                    o.fm_modulator_increment(), o.previous_parameter@[0] as i32, o.fm_delta(), o.fm_ramp(size as nat), sync@, k as nat);
                chaotic_step(r.0, r.1, o.phase_increment, o.fm_modulator_increment(),
                    param_at(o.previous_parameter@[0] as i32, o.fm_delta(), o.fm_ramp(size as nat), k as nat), sync@[k]).2
            }),
            forall|k: int| size <= k < old(buffer)@.len() ==> #[trigger] final(buffer)@[k] == old(buffer)@[k],
            ({
                let o = *old(self);
                let e = chaotic_run(o.phase, o.ffm_modulator_phase, o.ffm_previous_sample, o.phase_increment,
                    o.fm_modulator_increment(), o.previous_parameter@[0] as i32, o.fm_delta(), o.fm_ramp(size as nat), sync@, size as nat);
                *final(self) == (DigitalOscillator { phase: e.0, ffm_modulator_phase: e.1, ffm_previous_sample: e.2,
                    previous_parameter: [o.parameter@[0], o.previous_parameter@[1]], ..o })
            }),
    {
        let (phase, modulator, previous) = render_chaotic_feedback_fm(self.phase, self.ffm_modulator_phase,
            self.ffm_previous_sample, self.phase_increment, self.pitch, self.previous_parameter[0], self.parameter[0],
            self.parameter[1], sync, buffer, size);
        self.phase = phase;
        self.ffm_modulator_phase = modulator;
        self.ffm_previous_sample = previous;
        self.previous_parameter = [self.parameter[0], self.previous_parameter[1]];
    }

    fn render_digital_modulation(&mut self, buffer: &mut [i16], size: usize)
        requires
            size <= old(buffer)@.len(),
            0 <= old(self).pitch() <= 17920,
        ensures
            final(buffer)@.len() == old(buffer)@.len(),
            forall|k: int| 0 <= k < size ==> #[trigger] final(buffer)@[k] == ({
                let o = *old(self);
                let st = modem_run((o.phase, o.modem_start()), o.phase_increment, o.symbol_increment(), o.parameter@[1], (k + 1) as nat);
                modem_output(st.0, st.1.data_byte)
            }),
            forall|k: int| size <= k < old(buffer)@.len() ==> #[trigger] final(buffer)@[k] == old(buffer)@[k],
            ({
                let o = *old(self);
                let e = modem_run((o.phase, o.modem_start()), o.phase_increment, o.symbol_increment(), o.parameter@[1], size as nat);
                *final(self) == (DigitalOscillator { phase: e.0, modem: e.1, strike: false, ..o })
            }),
    {
        let x: i32 = self.parameter[0] as i32 - 32767;
        proof {
            lemma_i32_shr(x);
        }
        let symbol_inc = compute_phase_increment_digital(self.pitch as i32 - 1536 + (x >> 3));
        if self.strike {
            self.modem.symbol_count = 0;
            self.strike = false;
        }
        let p1 = self.parameter[1];
        let inc = self.phase_increment;
        let phase = self.phase;
        self.phase = render_modem(&mut self.modem, phase, inc, symbol_inc, p1, buffer, size);
    }

    /// The plucked strings (see `PluckBank::render`), at twice the increment.
    fn render_plucked(&mut self, buffer: &mut [i16], size: usize)
        requires
            size % 2 == 0,
            size <= old(buffer)@.len(),
            old(self).strike ==> old(self).parameter@[1] >= -5461,
        ensures
            final(buffer)@.len() == old(buffer)@.len(),
            forall|k: int| 0 <= k < size ==> #[trigger] final(buffer)@[k] == pluck_block_sample(
                old(self).pluck.active(), old(self).pluck.voices(), old(self).ks@, old(self).rng.state(),
                old(self).phase_increment << 1u32, old(self).strike, old(self).parameter@[0], old(self).parameter@[1], k),
            forall|k: int| size <= k < old(buffer)@.len() ==> #[trigger] final(buffer)@[k] == old(buffer)@[k],
            ({
                let o = *old(self);
                let end = *final(self);
                let e = pluck_block_end(o.pluck.active(), o.pluck.voices(), o.ks@, o.rng.state(),
                    o.phase_increment << 1u32, o.strike, o.parameter@[0], o.parameter@[1], size as nat);
                &&& end.pluck.active() == e.0
                &&& end.pluck.voices() == e.1
                &&& end.ks@ == e.2
                &&& end.rng.state() == e.3
                &&& end == (DigitalOscillator {
                    phase_increment: o.phase_increment << 1u32,
                    strike: false,
                    pluck: end.pluck,
                    ks: end.ks,
                    rng: end.rng,
                    ..o
                })
            }),
    {
        self.phase_increment = self.phase_increment << 1;
        let pi = self.phase_increment;
        let strike = self.strike;
        let p0 = self.parameter[0];
        let p1 = self.parameter[1];
        self.pluck.render(&mut self.ks, &mut self.rng, buffer, size, pi, strike, p0, p1);
        self.strike = false;
    }

    #[verifier::rlimit(40)]
    fn render_struck_bell(&mut self, buffer: &mut [i16], size: usize)
        requires
            size % 2 == 0,
            size <= old(buffer)@.len(),
            0 <= old(self).pitch() <= 17920,
        ensures
            final(buffer)@.len() == old(buffer)@.len(),
            forall|k: int| 0 <= k < size ==> #[trigger] final(buffer)@[k] == old(self).bell_sample(size as nat, k),
            forall|k: int| size <= k < old(buffer)@.len() ==> #[trigger] final(buffer)@[k] == old(buffer)@[k],
            old(self).bell_into(size as nat, *final(self)),
    {
        let ghost o = *self;
        self.bell_prelude();
        let ghost s1 = *self;
        let ghost v0 = s1.bell_voice();
        let ghost amp = s1.partial_amplitude@;
        let ghost inc = s1.partial_phase_increment@;
        let mut j: usize = 0;
        while j < size / 2
            invariant
                j <= size / 2,
                size % 2 == 0,
                size <= buffer@.len(),
                buffer@.len() == old(buffer)@.len(),
                self.bell_voice() == bell_run(v0, inc, amp, j as nat),
                self.partial_phase_increment@ == inc,
                self.partial_amplitude@ == amp,
                *self == (DigitalOscillator { partial_phase: self.partial_phase, add_previous_sample: self.add_previous_sample, ..s1 }),
                forall|k: int| 0 <= k < 2 * j ==> #[trigger] buffer@[k] == (if k % 2 == 0 {
                        bell_step(bell_run(v0, inc, amp, (k / 2) as nat), inc, amp).1
                    } else {
                        bell_step(bell_run(v0, inc, amp, (k / 2) as nat), inc, amp).2
                    }),
                forall|k: int| size <= k < buffer@.len() ==> #[trigger] buffer@[k] == old(buffer)@[k],
            decreases size / 2 - j,
        {
            let (a, b) = self.bell_pair();
            buffer[2 * j] = a;
            buffer[2 * j + 1] = b;
            proof {
                assert((2 * j) / 2 == j);
                assert((2 * j + 1) / 2 == j);
                assert((2 * j) % 2 == 0);
                assert((2 * j + 1) % 2 == 1);
            }
            j += 1;
        }
        proof {
            let v = BellVoice { phases: bell_start_phases(o.partial_phase@, o.strike), previous: o.add_previous_sample as i32 };
            assert(v0 == v);
            assert(j == size / 2);
        }
    }

}

} // verus!
