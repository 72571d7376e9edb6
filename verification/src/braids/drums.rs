//! The drum models. The bass drum: three decaying pulses excite a resonant
//! band-pass filter whose cutoff drops after the attack, and a one-pole
//! low-pass shapes the result. The snare: two pulse trains ring two tuned
//! filters and a pulse-shaped noise burst rings a third. The cymbal: six
//! detuned square waves through a band-pass, crossfaded with high-passed
//! noise. The filter arithmetic is exact in 32 bits only while its values
//! stay in range, so a block is rendered only where every step stays in
//! range.
use vstd::prelude::*;
use crate::bits::{lemma_i32_shr, lemma_u32_shr};
use crate::fixed::{clip16_sym, clip16_sym_spec};
use super::excitation::Excitation;
use super::random::{lcg_next, Random};
use super::svf::Svf;

verus! {

/// The resonance of the drum's filter for the first parameter (the decay):
/// `65535 - 2 * decay`, cubed down to 14 bits, taken from just under full
/// resonance.
pub open spec fn kick_resonance(p0: i16) -> i16 {
    let decay = p0 as u32;
    let s0 = 65535u32.wrapping_sub(decay << 1u32);
    let sq = s0.wrapping_mul(s0) >> 16u32;
    let s1 = sq.wrapping_mul(s0) >> 18u32;
    (32768 - 128 - s1 as int) as i16
}

/// The coefficient of the output low-pass for the second parameter (the
/// tone): the parameter to the fourth power, from 128 up.
pub open spec fn kick_lp_coefficient(p1: i16) -> i32 {
    let c0 = p1 as u32;
    let c1 = c0.wrapping_mul(c0) >> 15u32;
    let c2 = c1.wrapping_mul(c1) >> 15u32;
    (128 + (c2 >> 1u32) as int * 3) as i32
}

/// Whether `x` fits in 32 bits.
pub open spec fn fits32(x: int) -> bool {
    i32::MIN <= x <= i32::MAX
}

/// The drum's state across a block.
pub struct KickVoice {
    pub pulse0: Excitation,
    pub pulse1: Excitation,
    pub pulse2: Excitation,
    pub svf: Svf,
    pub lp: i16,
}

/// The excitation of a step: the first pulse, a constant while the second
/// has not landed, and the second pulse.
pub open spec fn kick_excitation(v: KickVoice) -> int {
    v.pulse0.output() + (if v.pulse1.counter() != 0 { 16384int } else { 0 }) + v.pulse1.output()
}

/// The filter of a step: tuned to the pitch, 17 semitones up until the
/// third pulse lands.
pub open spec fn kick_filter(v: KickVoice, pitch: i16) -> Svf {
    let p2 = v.pulse2.processed();
    v.svf.with_frequency((pitch as int + if p2.counter() == 0 { 0int } else { 2176int }) as i16)
}

/// The low-pass after one sample of the resonator's output `r`.
pub open spec fn kick_lp(lp: int, r: int, coef: i32) -> int {
    clip16_sym_spec((lp + ((((r - lp) * coef) as i32) >> 15i32) as int) as i32) as int
}

/// Whether one sample of the low-pass stays within 32 bits.
pub open spec fn kick_lp_ok(lp: int, r: int, coef: i32) -> bool {
    &&& fits32(r - lp)
    &&& fits32((r - lp) * coef)
    &&& fits32(lp + ((((r - lp) * coef) as i32) >> 15i32) as int)
}

/// One step of the drum (two samples at the same excitation): the pulses
/// decay, the filter rings twice and the low-pass follows.
pub open spec fn kick_pair(v: KickVoice, pitch: i16, coef: i32) -> (KickVoice, i16, i16) {
    let e = kick_excitation(v) as i32;
    let f1 = kick_filter(v, pitch);
    let r1 = ((e >> 4i32) as int) + f1.output(e);
    let lp1 = kick_lp(v.lp as int, r1, coef);
    let f2 = f1.processed(e);
    let r2 = ((e >> 4i32) as int) + f2.output(e);
    let lp2 = kick_lp(lp1, r2, coef);
    (
        KickVoice {
            pulse0: v.pulse0.processed(),
            pulse1: v.pulse1.processed(),
            pulse2: v.pulse2.processed(),
            svf: f2.processed(e),
            lp: lp2 as i16,
        },
        lp1 as i16,
        lp2 as i16,
    )
}

/// Whether every value of a step stays within 32 bits.
pub open spec fn kick_pair_ok(v: KickVoice, pitch: i16, coef: i32) -> bool {
    let e0 = v.pulse0.output();
    let bonus: int = if v.pulse1.counter() != 0 { 16384 } else { 0 };
    let e = kick_excitation(v) as i32;
    let f1 = kick_filter(v, pitch);
    let r1 = ((e >> 4i32) as int) + f1.output(e);
    let lp1 = kick_lp(v.lp as int, r1, coef);
    let f2 = f1.processed(e);
    let r2 = ((e >> 4i32) as int) + f2.output(e);
    &&& v.pulse0.process_ok()
    &&& v.pulse1.process_ok()
    &&& v.pulse2.process_ok()
    &&& fits32(e0 + bonus)
    &&& fits32(kick_excitation(v))
    &&& f1.in_range(e)
    &&& fits32(r1)
    &&& kick_lp_ok(v.lp as int, r1, coef)
    &&& f2.in_range(e)
    &&& fits32(r2)
    &&& kick_lp_ok(lp1, r2, coef)
}

/// `j` steps of the drum.
pub open spec fn kick_run(v: KickVoice, pitch: i16, coef: i32, j: nat) -> KickVoice
    decreases j,
{
    if j == 0 {
        v
    } else {
        kick_pair(kick_run(v, pitch, coef, (j - 1) as nat), pitch, coef).0
    }
}

/// Whether the first `n` steps of the drum all stay within 32 bits.
pub open spec fn kick_run_ok(v: KickVoice, pitch: i16, coef: i32, n: nat) -> bool {
    forall|j: nat| j < n ==> #[trigger] kick_pair_ok(kick_run(v, pitch, coef, j), pitch, coef)
}

/// The resonance for the first parameter.
pub fn kick_resonance_exec(p0: i16) -> (r: i16)
    ensures
        r == kick_resonance(p0),
{
    let decay = p0 as u32;
    let s0 = 65535u32.wrapping_sub(decay << 1);
    let sq = s0.wrapping_mul(s0) >> 16;
    let s1 = sq.wrapping_mul(s0) >> 18;
    proof {
        lemma_u32_shr(sq.wrapping_mul(s0));
    }
    (32768 - 128 - s1 as i32) as i16
}

/// The low-pass coefficient for the second parameter.
pub fn kick_lp_coefficient_exec(p1: i16) -> (r: i32)
    ensures
        r == kick_lp_coefficient(p1),
{
    let c0 = p1 as u32;
    let c1 = c0.wrapping_mul(c0) >> 15;
    let c2 = c1.wrapping_mul(c1) >> 15;
    proof {
        lemma_u32_shr(c1.wrapping_mul(c1));
        lemma_u32_shr(c2);
    }
    128 + (c2 >> 1) as i32 * 3
}

/// One step of the drum (see `kick_pair`).
pub fn kick_pair_exec(p0: &mut Excitation, p1: &mut Excitation, p2: &mut Excitation, svf: &mut Svf, lp: i16,
    pitch: i16, coef: i32) -> (r: (i16, i16))
    requires
        0 <= pitch <= 17920,
        kick_pair_ok(KickVoice { pulse0: *old(p0), pulse1: *old(p1), pulse2: *old(p2), svf: *old(svf), lp }, pitch, coef),
    ensures
        ({
            let s = kick_pair(KickVoice { pulse0: *old(p0), pulse1: *old(p1), pulse2: *old(p2), svf: *old(svf), lp }, pitch, coef);
            &&& *final(p0) == s.0.pulse0
            &&& *final(p1) == s.0.pulse1
            &&& *final(p2) == s.0.pulse2
            &&& *final(svf) == s.0.svf
            &&& s.0.lp == r.1
            &&& r.0 == s.1
            &&& r.1 == s.2
        }),
{
    let ghost v = KickVoice { pulse0: *p0, pulse1: *p1, pulse2: *p2, svf: *svf, lp };
    let mut excitation: i32 = 0;
    excitation = excitation + p0.process();
    excitation = excitation + if !p1.done() { 16384 } else { 0 };
    excitation = excitation + p1.process();
    p2.process();
    svf.set_frequency(pitch + if p2.done() { 0 } else { 2176 });
    proof {
        lemma_i32_shr(excitation);
    }
    let r1 = (excitation >> 4) + svf.process(excitation);
    let mut lp_state = lp as i32;
    proof {
        lemma_i32_shr(((r1 - lp_state) * coef) as i32);
    }
    lp_state = lp_state + ((r1 - lp_state) * coef >> 15);
    lp_state = clip16_sym(lp_state);
    let a = lp_state as i16;
    let r2 = (excitation >> 4) + svf.process(excitation);
    proof {
        lemma_i32_shr(((r2 - lp_state) * coef) as i32);
    }
    lp_state = lp_state + ((r2 - lp_state) * coef >> 15);
    lp_state = clip16_sym(lp_state);
    (a, lp_state as i16)
}

/// One step of the drum, checked: tells whether the step stays within 32
/// bits (see `kick_pair_ok`) and, when it does, takes it and returns the
/// low-pass state after it.
#[verifier::rlimit(60)]
pub fn kick_pair_checked(p0: &mut Excitation, p1: &mut Excitation, p2: &mut Excitation, svf: &mut Svf, lp: i16,
    pitch: i16, coef: i32) -> (r: (bool, i16))
    requires
        0 <= pitch <= 17920,
    ensures
        ({
            let v = KickVoice { pulse0: *old(p0), pulse1: *old(p1), pulse2: *old(p2), svf: *old(svf), lp };
            let s = kick_pair(v, pitch, coef);
            &&& r.0 == kick_pair_ok(v, pitch, coef)
            &&& r.0 ==> {
                &&& *final(p0) == s.0.pulse0
                &&& *final(p1) == s.0.pulse1
                &&& *final(p2) == s.0.pulse2
                &&& *final(svf) == s.0.svf
                &&& s.0.lp == r.1
            }
        }),
{
    let ghost v = KickVoice { pulse0: *p0, pulse1: *p1, pulse2: *p2, svf: *svf, lp };
    if !(p0.process_fits() && p1.process_fits() && p2.process_fits()) {
        return (false, lp);
    }
    let bonus: i64 = if !p1.done() { 16384 } else { 0 };
    let e0 = p0.process() as i64;
    let e1 = p1.process() as i64;
    let lo = i32::MIN as i64;
    let hi = i32::MAX as i64;
    if !(lo <= e0 + bonus && e0 + bonus <= hi && lo <= e0 + bonus + e1 && e0 + bonus + e1 <= hi) {
        return (false, lp);
    }
    let excitation = (e0 + bonus + e1) as i32;
    p2.process();
    svf.set_frequency(pitch + if p2.done() { 0 } else { 2176 });
    if !svf.fits(excitation) {
        return (false, lp);
    }
    proof {
        lemma_i32_shr(excitation);
    }
    let r1 = (excitation >> 4) as i64 + svf.process(excitation) as i64;
    let l0 = lp as i64;
    let c = coef as i64;
    if !(lo <= r1 && r1 <= hi && lo <= r1 - l0 && r1 - l0 <= hi) {
        return (false, lp);
    }
    proof {
        assert(-0x8000_0000 * 0x8000_0000 <= (r1 - l0) * c <= 0x8000_0000 * 0x8000_0000) by (nonlinear_arith)
            requires lo <= r1 - l0 <= hi, lo <= c <= hi, lo == i32::MIN, hi == i32::MAX;
    }
    let d1 = (r1 - l0) * c;
    if !(lo <= d1 && d1 <= hi) {
        return (false, lp);
    }
    proof {
        lemma_i32_shr(d1 as i32);
    }
    let s1 = l0 + ((d1 as i32) >> 15) as i64;
    if !(lo <= s1 && s1 <= hi) {
        return (false, lp);
    }
    let lp1 = clip16_sym(s1 as i32);
    if !svf.fits(excitation) {
        return (false, lp);
    }
    let r2 = (excitation >> 4) as i64 + svf.process(excitation) as i64;
    let l1 = lp1 as i64;
    if !(lo <= r2 && r2 <= hi && lo <= r2 - l1 && r2 - l1 <= hi) {
        return (false, lp);
    }
    proof {
        assert(-0x8000_0000 * 0x8000_0000 <= (r2 - l1) * c <= 0x8000_0000 * 0x8000_0000) by (nonlinear_arith)
            requires lo <= r2 - l1 <= hi, lo <= c <= hi, lo == i32::MIN, hi == i32::MAX;
    }
    let d2 = (r2 - l1) * c;
    if !(lo <= d2 && d2 <= hi) {
        return (false, lp);
    }
    proof {
        lemma_i32_shr(d2 as i32);
    }
    let s2 = l1 + ((d2 as i32) >> 15) as i64;
    if !(lo <= s2 && s2 <= hi) {
        return (false, lp);
    }
    (true, clip16_sym(s2 as i32) as i16)
}

/// The snare's state across a block.
pub struct SnareVoice {
    pub pulse0: Excitation,
    pub pulse1: Excitation,
    pub pulse2: Excitation,
    pub pulse3: Excitation,
    pub svf0: Svf,
    pub svf1: Svf,
    pub svf2: Svf,
    pub seed: u32,
}

/// The first excitation of a step: the first two pulses, and a constant
/// until the second has landed.
pub open spec fn snare_excitation_1(v: SnareVoice) -> int {
    v.pulse0.output() + v.pulse1.output() + (if v.pulse1.processed().counter() != 0 { 2621int } else { 0 })
}

/// The second excitation of a step: the third pulse, and a constant until
/// it has landed.
pub open spec fn snare_excitation_2(v: SnareVoice) -> int {
    v.pulse2.output() + (if v.pulse2.processed().counter() != 0 { 13107int } else { 0 })
}

/// The noise of a step: a fresh random sample shaped by the fourth pulse.
pub open spec fn snare_noise(v: SnareVoice) -> i32 {
    (((lcg_next(v.seed) >> 16u32) as i16) as i32).wrapping_mul(v.pulse3.output() as i32) >> 15i32
}

/// A tuned filter's contribution: its output plus a sixteenth of its input,
/// scaled by `g / 32768`.
pub open spec fn snare_tone(f: Svf, e: int, g: int) -> int {
    ((((f.output(e as i32) + ((e as i32) >> 4i32) as int) * g) as i32) >> 15i32) as int
}

/// One step of the snare (two equal samples).
pub open spec fn snare_step(v: SnareVoice, g1: int, g2: int) -> (SnareVoice, i16) {
    let e1 = snare_excitation_1(v);
    let e2 = snare_excitation_2(v);
    let noise = snare_noise(v);
    let sd = clip16_sym_spec((snare_tone(v.svf0, e1, g1) + snare_tone(v.svf1, e2, g2) + v.svf2.output(noise)) as i32);
    (
        SnareVoice {
            pulse0: v.pulse0.processed(),
            pulse1: v.pulse1.processed(),
            pulse2: v.pulse2.processed(),
            pulse3: v.pulse3.processed(),
            svf0: v.svf0.processed(e1 as i32),
            svf1: v.svf1.processed(e2 as i32),
            svf2: v.svf2.processed(noise),
            seed: lcg_next(v.seed),
        },
        sd as i16,
    )
}

/// Whether every value of a snare step stays within 32 bits.
pub open spec fn snare_step_ok(v: SnareVoice, g1: int, g2: int) -> bool {
    let e1 = snare_excitation_1(v);
    let e2 = snare_excitation_2(v);
    let noise = snare_noise(v);
    let t1 = v.svf0.output(e1 as i32) + ((e1 as i32) >> 4i32) as int;
    let t2 = v.svf1.output(e2 as i32) + ((e2 as i32) >> 4i32) as int;
    &&& v.pulse0.process_ok()
    &&& v.pulse1.process_ok()
    &&& v.pulse2.process_ok()
    &&& v.pulse3.process_ok()
    &&& fits32(v.pulse0.output() + v.pulse1.output())
    &&& fits32(e1)
    &&& fits32(e2)
    &&& v.svf0.in_range(e1 as i32)
    &&& fits32(t1)
    &&& fits32(t1 * g1)
    &&& v.svf1.in_range(e2 as i32)
    &&& fits32(t2)
    &&& fits32(t2 * g2)
    &&& v.svf2.in_range(noise)
    &&& fits32(snare_tone(v.svf0, e1, g1) + snare_tone(v.svf1, e2, g2))
    &&& fits32(snare_tone(v.svf0, e1, g1) + snare_tone(v.svf1, e2, g2) + v.svf2.output(noise))
}

/// `j` steps of the snare.
pub open spec fn snare_run(v: SnareVoice, g1: int, g2: int, j: nat) -> SnareVoice
    decreases j,
{
    if j == 0 {
        v
    } else {
        snare_step(snare_run(v, g1, g2, (j - 1) as nat), g1, g2).0
    }
}

/// Whether the first `n` steps of the snare all stay within 32 bits.
pub open spec fn snare_run_ok(v: SnareVoice, g1: int, g2: int, n: nat) -> bool {
    forall|j: nat| j < n ==> #[trigger] snare_step_ok(snare_run(v, g1, g2, j), g1, g2)
}

/// One step of the snare (see `snare_step`).
pub fn snare_step_exec(p0: &mut Excitation, p1: &mut Excitation, p2: &mut Excitation, p3: &mut Excitation,
    f0: &mut Svf, f1: &mut Svf, f2: &mut Svf, rng: &mut Random, g1: i32, g2: i32) -> (r: i16)
    requires
        snare_step_ok(SnareVoice { pulse0: *old(p0), pulse1: *old(p1), pulse2: *old(p2), pulse3: *old(p3),
            svf0: *old(f0), svf1: *old(f1), svf2: *old(f2), seed: old(rng).state() }, g1 as int, g2 as int),
    ensures
        ({
            let s = snare_step(SnareVoice { pulse0: *old(p0), pulse1: *old(p1), pulse2: *old(p2), pulse3: *old(p3),
                svf0: *old(f0), svf1: *old(f1), svf2: *old(f2), seed: old(rng).state() }, g1 as int, g2 as int);
            &&& *final(p0) == s.0.pulse0
            &&& *final(p1) == s.0.pulse1
            &&& *final(p2) == s.0.pulse2
            &&& *final(p3) == s.0.pulse3
            &&& *final(f0) == s.0.svf0
            &&& *final(f1) == s.0.svf1
            &&& *final(f2) == s.0.svf2
            &&& final(rng).state() == s.0.seed
            &&& r == s.1
        }),
{
    let mut excitation_1: i32 = 0;
    excitation_1 = excitation_1 + p0.process();
    excitation_1 = excitation_1 + p1.process();
    excitation_1 = excitation_1 + if !p1.done() { 2621 } else { 0 };
    let mut excitation_2: i32 = 0;
    excitation_2 = excitation_2 + p2.process();
    excitation_2 = excitation_2 + if !p2.done() { 13107 } else { 0 };
    let shaped = (rng.get_sample() as i32).wrapping_mul(p3.process());
    proof {
        lemma_i32_shr(shaped);
        lemma_i32_shr(excitation_1);
        lemma_i32_shr(excitation_2);
    }
    let noise_sample = shaped >> 15;
    let mut sd: i32 = 0;
    let t1 = f0.process(excitation_1) + (excitation_1 >> 4);
    proof {
        lemma_i32_shr((t1 * g1) as i32);
    }
    sd = sd + (t1 * g1 >> 15);
    let t2 = f1.process(excitation_2) + (excitation_2 >> 4);
    proof {
        lemma_i32_shr((t2 * g2) as i32);
    }
    sd = sd + (t2 * g2 >> 15);
    sd = sd + f2.process(noise_sample);
    sd = clip16_sym(sd);
    sd as i16
}

/// One step of the snare, checked: tells whether the step stays within 32
/// bits (see `snare_step_ok`) and, when it does, takes it.
#[verifier::rlimit(80)]
pub fn snare_step_checked(p0: &mut Excitation, p1: &mut Excitation, p2: &mut Excitation, p3: &mut Excitation,
    f0: &mut Svf, f1: &mut Svf, f2: &mut Svf, rng: &mut Random, g1: i32, g2: i32) -> (ok: bool)
    ensures
        ({
            let v = SnareVoice { pulse0: *old(p0), pulse1: *old(p1), pulse2: *old(p2), pulse3: *old(p3),
                svf0: *old(f0), svf1: *old(f1), svf2: *old(f2), seed: old(rng).state() };
            let s = snare_step(v, g1 as int, g2 as int);
            &&& ok == snare_step_ok(v, g1 as int, g2 as int)
            &&& ok ==> {
                &&& *final(p0) == s.0.pulse0
                &&& *final(p1) == s.0.pulse1
                &&& *final(p2) == s.0.pulse2
                &&& *final(p3) == s.0.pulse3
                &&& *final(f0) == s.0.svf0
                &&& *final(f1) == s.0.svf1
                &&& *final(f2) == s.0.svf2
                &&& final(rng).state() == s.0.seed
            }
        }),
{
    if !(p0.process_fits() && p1.process_fits() && p2.process_fits() && p3.process_fits()) {
        return false;
    }
    let lo = i32::MIN as i64;
    let hi = i32::MAX as i64;
    let a = p0.process() as i64;
    let b = p1.process() as i64;
    let c1: i64 = if !p1.done() { 2621 } else { 0 };
    if !(lo <= a + b && a + b <= hi && lo <= a + b + c1 && a + b + c1 <= hi) {
        return false;
    }
    let e1 = (a + b + c1) as i32;
    let d = p2.process() as i64;
    let c2: i64 = if !p2.done() { 13107 } else { 0 };
    if !(lo <= d + c2 && d + c2 <= hi) {
        return false;
    }
    let e2 = (d + c2) as i32;
    let shaped = (rng.get_sample() as i32).wrapping_mul(p3.process());
    proof {
        lemma_i32_shr(shaped);
        lemma_i32_shr(e1);
        lemma_i32_shr(e2);
    }
    let noise = shaped >> 15;
    if !(f0.fits(e1) && f1.fits(e2) && f2.fits(noise)) {
        return false;
    }
    let t1 = f0.process(e1) as i64 + (e1 >> 4) as i64;
    let t2 = f1.process(e2) as i64 + (e2 >> 4) as i64;
    let w1 = g1 as i64;
    let w2 = g2 as i64;
    if !(lo <= t1 && t1 <= hi && lo <= t2 && t2 <= hi) {
        return false;
    }
    proof {
        assert(-0x8000_0000 * 0x8000_0000 <= t1 * w1 <= 0x8000_0000 * 0x8000_0000) by (nonlinear_arith)
            requires lo <= t1 <= hi, lo <= w1 <= hi, lo == i32::MIN, hi == i32::MAX;
        assert(-0x8000_0000 * 0x8000_0000 <= t2 * w2 <= 0x8000_0000 * 0x8000_0000) by (nonlinear_arith)
            requires lo <= t2 <= hi, lo <= w2 <= hi, lo == i32::MIN, hi == i32::MAX;
    }
    let m1 = t1 * w1;
    let m2 = t2 * w2;
    if !(lo <= m1 && m1 <= hi && lo <= m2 && m2 <= hi) {
        return false;
    }
    proof {
        lemma_i32_shr(m1 as i32);
        lemma_i32_shr(m2 as i32);
    }
    let tones = ((m1 as i32) >> 15) as i64 + ((m2 as i32) >> 15) as i64;
    let n = f2.process(noise) as i64;
    lo <= tones && tones <= hi && lo <= tones + n && tones + n <= hi
}

/// The cymbal's state across a block.
pub struct CymbalVoice {
    pub phase: u32,
    pub hats: Seq<u32>,
    pub rng: u32,
    pub svf0: Svf,
    pub svf1: Svf,
}

/// The number of the first `n` square waves in their upper half.
pub open spec fn hats_high(hats: Seq<u32>, n: nat) -> int
    decreases n,
{
    if n == 0 {
        0
    } else {
        hats_high(hats, (n - 1) as nat) + (hats[n - 1] >> 31u32) as int
    }
}

/// The metallic tone of the six square waves: their sum, centred and scaled.
pub open spec fn hats_tone(hats: Seq<u32>) -> i32 {
    ((hats_high(hats, 6) - 3) * 5461) as i32
}

/// The cymbal's white noise: the top of the generator, centred and halved.
pub open spec fn cymbal_noise(rng: u32) -> i32 {
    (((rng >> 16u32) as int - 32768) as i32) >> 1i32
}

/// One sample of the cymbal: the square waves and the noise clock advance
/// (a wrap of the clock steps the generator); the band-passed tone and the
/// high-passed noise are clipped and crossfaded by `xfade / 32768`.
pub open spec fn cymbal_step(v: CymbalVoice, inc: Seq<u32>, xfade: i32) -> (CymbalVoice, i16) {
    let phase = v.phase.wrapping_add(inc[6]);
    let rng = if phase < inc[6] { lcg_next(v.rng) } else { v.rng };
    let hats = Seq::new(6, |k: int| v.hats[k].wrapping_add(inc[k]));
    let tone = hats_tone(hats);
    let noise = cymbal_noise(rng);
    let h = clip16_sym_spec(v.svf0.output(tone) as i32) as int;
    let n = clip16_sym_spec(v.svf1.output(noise) as i32) as int;
    (
        CymbalVoice { phase, hats, rng, svf0: v.svf0.processed(tone), svf1: v.svf1.processed(noise) },
        (h + ((((n - h) * xfade as int) as i32) >> 15i32) as int) as i16,
    )
}

/// Whether a cymbal step stays within 32 bits.
pub open spec fn cymbal_step_ok(v: CymbalVoice, inc: Seq<u32>) -> bool {
    let phase = v.phase.wrapping_add(inc[6]);
    let rng = if phase < inc[6] { lcg_next(v.rng) } else { v.rng };
    let hats = Seq::new(6, |k: int| v.hats[k].wrapping_add(inc[k]));
    &&& v.svf0.in_range(hats_tone(hats))
    &&& v.svf1.in_range(cymbal_noise(rng))
}

/// `k` samples of the cymbal.
pub open spec fn cymbal_run(v: CymbalVoice, inc: Seq<u32>, xfade: i32, k: nat) -> CymbalVoice
    decreases k,
{
    if k == 0 {
        v
    } else {
        cymbal_step(cymbal_run(v, inc, xfade, (k - 1) as nat), inc, xfade).0
    }
}

/// Whether the first `n` samples of the cymbal all stay within 32 bits.
pub open spec fn cymbal_run_ok(v: CymbalVoice, inc: Seq<u32>, xfade: i32, n: nat) -> bool {
    forall|k: nat| k < n ==> #[trigger] cymbal_step_ok(cymbal_run(v, inc, xfade, k), inc)
}

/// One sample of the cymbal (see `cymbal_step`); returns the sample.
pub fn cymbal_step_exec(phase: &mut u32, hats: &mut [u32; 6], rng: &mut u32, f0: &mut Svf, f1: &mut Svf,
    inc: &[u32; 7], xfade: i32) -> (r: i16)
    requires
        cymbal_step_ok(CymbalVoice { phase: *old(phase), hats: old(hats)@, rng: *old(rng), svf0: *old(f0), svf1: *old(f1) }, inc@),
        -32768 <= xfade <= 32767,
    ensures
        ({
            let s = cymbal_step(CymbalVoice { phase: *old(phase), hats: old(hats)@, rng: *old(rng), svf0: *old(f0), svf1: *old(f1) },
                inc@, xfade);
            &&& *final(phase) == s.0.phase
            &&& final(hats)@ == s.0.hats
            &&& *final(rng) == s.0.rng
            &&& *final(f0) == s.0.svf0
            &&& *final(f1) == s.0.svf1
            &&& r == s.1
        }),
{
    *phase = phase.wrapping_add(inc[6]);
    if *phase < inc[6] {
        *rng = rng.wrapping_mul(1_664_525).wrapping_add(1_013_904_223);
    }
    let tone = advance_hats(hats, inc);
    proof {
        lemma_u32_shr(*rng);
    }
    let noise = ((*rng >> 16) as i32 - 32768) >> 1;
    cymbal_filters(f0, f1, tone, noise, xfade)
}

/// One sample of the cymbal's state, checked: tells whether the step stays
/// within 32 bits (see `cymbal_step_ok`) and, when it does, takes it.
pub fn cymbal_step_checked(phase: &mut u32, hats: &mut [u32; 6], rng: &mut u32, f0: &mut Svf, f1: &mut Svf,
    inc: &[u32; 7], xfade: i32) -> (ok: bool)
    ensures
        ({
            let v = CymbalVoice { phase: *old(phase), hats: old(hats)@, rng: *old(rng), svf0: *old(f0), svf1: *old(f1) };
            &&& ok == cymbal_step_ok(v, inc@)
            &&& ok ==> (CymbalVoice { phase: *final(phase), hats: final(hats)@, rng: *final(rng), svf0: *final(f0),
                svf1: *final(f1) }) == cymbal_step(v, inc@, xfade).0
        }),
{
    *phase = phase.wrapping_add(inc[6]);
    if *phase < inc[6] {
        *rng = rng.wrapping_mul(1_664_525).wrapping_add(1_013_904_223);
    }
    let tone = advance_hats(hats, inc);
    proof {
        lemma_u32_shr(*rng);
    }
    let noise = ((*rng >> 16) as i32 - 32768) >> 1;
    if !(f0.fits(tone) && f1.fits(noise)) {
        return false;
    }
    let _ = cymbal_filters(f0, f1, tone, noise, 0);
    true
}

/// The filters of a cymbal sample: the band-passed tone and the high-passed
/// noise, clipped and crossfaded.
fn cymbal_filters(f0: &mut Svf, f1: &mut Svf, tone: i32, noise: i32, xfade: i32) -> (r: i16)
    requires
        old(f0).in_range(tone),
        old(f1).in_range(noise),
        -32768 <= xfade <= 32767,
    ensures
        *final(f0) == old(f0).processed(tone),
        *final(f1) == old(f1).processed(noise),
        r == ({
            let h = clip16_sym_spec(old(f0).output(tone) as i32) as int;
            let n = clip16_sym_spec(old(f1).output(noise) as i32) as int;
            (h + ((((n - h) * xfade as int) as i32) >> 15i32) as int) as i16
        }),
{
    let h = clip16_sym(f0.process(tone));
    let n = clip16_sym(f1.process(noise));
    proof {
        assert(-65534 * 32768 <= (n - h) * xfade <= 65534 * 32768) by (nonlinear_arith)
            requires
                -32767 <= n <= 32767,
                -32767 <= h <= 32767,
                -32768 <= xfade <= 32767,
        ;
        lemma_i32_shr(((n - h) * xfade) as i32);
    }
    (h + ((n - h) * xfade >> 15)) as i16
}

/// Advances the six square waves; returns their tone (see `hats_tone`).
fn advance_hats(hats: &mut [u32; 6], inc: &[u32; 7]) -> (r: i32)
    ensures
        final(hats)@ == Seq::new(6, |k: int| old(hats)@[k].wrapping_add(inc@[k])),
        r == hats_tone(final(hats)@),
        -16383 <= r <= 16383,
{
    let ghost h0 = hats@;
    let mut k: usize = 0;
    while k < 6
        invariant
            k <= 6,
            h0.len() == 6,
            forall|j: int| 0 <= j < 6 ==> #[trigger] hats@[j] == (if j < k { h0[j].wrapping_add(inc@[j]) } else { h0[j] }),
        decreases 6 - k,
    {
        hats[k] = hats[k].wrapping_add(inc[k]);
        k += 1;
    }
    let ghost stepped = Seq::new(6, |j: int| h0[j].wrapping_add(inc@[j]));
    proof {
        assert(hats@ =~= stepped);
    }
    let mut high: i32 = 0;
    let mut k: usize = 0;
    while k < 6
        invariant
            k <= 6,
            hats@ == stepped,
            stepped.len() == 6,
            high == hats_high(stepped, k as nat),
            0 <= high <= k,
        decreases 6 - k,
    {
        proof {
            lemma_u32_shr31(hats[k as int]);
        }
        high = high + (hats[k] >> 31) as i32;
        k += 1;
    }
    (high - 3) * 5461
}

/// The top bit of a word is 0 or 1.
proof fn lemma_u32_shr31(x: u32)
    ensures
        (x >> 31u32) <= 1,
{
    lemma_u32_shr(x);
}

} // verus!
