//! The hidden "question mark" model: a message keyed in Morse code, as
//! bursts of a three-quarter sine between silences, over noise that drifts
//! in level and is shaped by the sine; the first parameter sets the keying
//! speed and the second the noise floor and a squaring distortion.
//!
//! The message is a table of 2-bit codes (four per byte, low bits first:
//! 0 a dit, 1 a dah, 2 a long gap, 3 the end), handed to `render`: the model
//! is stated for any table that has an end code.
use vstd::prelude::*;
use crate::bits::{lemma_i32_shr, lemma_u32_shr};
use crate::fixed::{clip16_sym, clip16_sym_spec, interpolate_824_i16, interpolate_824_i16_spec};
use super::random::{lcg_next, Random};
use super::resources::WAV_SINE;

verus! {

/// The 2-bit code at position `i` of the message.
pub open spec fn code_at(code: Seq<u8>, i: u32) -> u32 {
    ((code[(i >> 2u32) as int] as u32) >> ((i & 3u32) << 1u32)) & 3u32
}

/// The message ends somewhere.
pub open spec fn code_ends(code: Seq<u8>) -> bool {
    exists|e: u32| e < 4 * code.len() && #[trigger] code_at(code, e) == 3
}

/// The keyer's state: whether the tone sounds, the samples since the last
/// tick, the ticks left in the current symbol, the message position, the
/// noise's drifting level.
#[derive(Clone, Copy)]
pub struct QuestionMark {
    pub tone_on: u32,
    pub cycle: u32,
    pub count: i16,
    pub position: u32,
    pub seed: i32,
}

/// The message position is before the end (or the message restarts next).
pub open spec fn question_ok(q: QuestionMark, code: Seq<u8>) -> bool {
    q.position == u32::MAX || exists|e: u32| q.position < e && e < 4 * code.len() && #[trigger] code_at(code, e) == 3
}

/// The keyer after a strike: silent, at the message's start.
pub open spec fn question_struck(q: QuestionMark) -> QuestionMark {
    QuestionMark { tone_on: 0, cycle: 0, count: 10, position: u32::MAX, seed: 32767 }
}

/// The running state: the keyer, the pitch phase and the generator.
pub struct QuestionVoice {
    pub q: QuestionMark,
    pub phase: u32,
    pub rng: u32,
}

/// The keyer after the tick that ends a symbol's ticks: the next symbol's
/// length (1, 3 or 7 ticks, or 100 at the end, which restarts the message)
/// and the tone toggled (off at the end).
pub open spec fn next_symbol(q: QuestionMark, code: Seq<u8>) -> QuestionMark {
    let position = q.position.wrapping_add(1);
    let v = ((2i32 << code_at(code, position)) - 1) as i16;
    if v == 15 {
        QuestionMark { count: 100, tone_on: 0, position: u32::MAX, cycle: 0, ..q }
    } else {
        QuestionMark { count: v, tone_on: if q.tone_on == 0 { 1 } else { 0 }, position, cycle: 0, ..q }
    }
}

/// The noise level from the drifting seed: `|seed / 256|` between the
/// floor and 16000.
pub open spec fn noise_level(seed: i32, floor: i32) -> i32 {
    let n = seed >> 8i32;
    let a: i32 = if n < 0 { (-n) as i32 } else { n };
    let b = if a > floor { a } else { floor };
    if b < 16000 { b } else { 16000 }
}

/// One sample: the phase advances and the tone (three quarters of the sine)
/// sounds while keyed; the tick clock advances, and past `dit` samples a
/// tick counts the symbol down, moving to the next symbol (and restarting
/// the phase) when it ends; the seed drifts by a quarter random sample; a
/// random sample at the noise level, shaped by the sine at the phase, is
/// added; the clipped sum plus its square scaled by `p1` is clipped.
pub open spec fn question_step(v: QuestionVoice, pi: u32, dit: u32, floor: i32, p1: i16, code: Seq<u8>) -> (QuestionVoice, i16) {
    let phase0 = v.phase.wrapping_add(pi);
    let tone: int = if v.q.tone_on != 0 { (((interpolate_824_i16_spec(WAV_SINE@, phase0) as int * 3) as i32) >> 2i32) as int } else { 0 };
    let cycle = v.q.cycle.wrapping_add(1);
    let (q, phase) = if cycle > dit {
        let c = v.q.count.wrapping_sub(1);
        if c == 0 {
            (next_symbol(v.q, code), 1073741824u32)
        } else {
            (QuestionMark { count: c, cycle: 0, ..v.q }, phase0)
        }
    } else {
        (QuestionMark { cycle, ..v.q }, phase0)
    };
    let r1 = lcg_next(v.rng);
    let seed = q.seed.wrapping_add((((r1 >> 16u32) as i16) as i32) >> 2i32);
    let r2 = lcg_next(r1);
    let level = noise_level(seed, floor);
    let n1 = ((((r2 >> 16u32) as i16) as int * level as int) as i32) >> 15i32;
    let n2 = ((n1 as int * WAV_SINE@[((phase >> 22u32) & 0xffu32) as int] as int) as i32) >> 15i32;
    let s1 = clip16_sym_spec((tone + n2 as int) as i32);
    let d = ((s1 as int * s1 as int) as i32) >> 14i32;
    let s2 = clip16_sym_spec((s1 as int + (((d as int * p1 as int) as i32) >> 15i32) as int) as i32);
    (QuestionVoice { q: QuestionMark { seed, ..q }, phase, rng: r2 }, s2 as i16)
}

/// `k` samples of the model.
pub open spec fn question_run(v: QuestionVoice, pi: u32, dit: u32, floor: i32, p1: i16, code: Seq<u8>, k: nat) -> QuestionVoice
    decreases k,
{
    if k == 0 { v } else { question_step(question_run(v, pi, dit, floor, p1, code, (k - 1) as nat), pi, dit, floor, p1, code).0 }
}

/// The next symbol keeps the message position before the end.
proof fn lemma_next_symbol_ok(q: QuestionMark, code: Seq<u8>)
    requires
        question_ok(q, code),
        code_ends(code),
    ensures
        question_ok(next_symbol(q, code), code),
        (q.position.wrapping_add(1) >> 2u32) < code.len(),
{
    let p = q.position.wrapping_add(1);
    if q.position == u32::MAX {
        assert(p == 0);
        let e = choose|e: u32| e < 4 * code.len() && #[trigger] code_at(code, e) == 3;
        if code_at(code, p) != 3 {
            assert(e != 0);
            assert(p < e);
        }
        assert(e < 4 * code.len());
    } else {
        let e = choose|e: u32| q.position < e && e < 4 * code.len() && #[trigger] code_at(code, e) == 3;
        assert(p <= e);
        if code_at(code, p) != 3 {
            assert(p < e);
        }
    }
    lemma_u32_shr(p);
    assert((2i32 << 0i32) - 1 == 1 && (2i32 << 1i32) - 1 == 3 && (2i32 << 2i32) - 1 == 7 && (2i32 << 3i32) - 1 == 15) by (bit_vector);
}

/// One sample of the model (see `question_step`).
#[verifier::rlimit(40)]
fn question_step_exec(q: &mut QuestionMark, phase: u32, rng: &mut Random, pi: u32, dit: u32, floor: i32, p1: i16,
    code: &[u8]) -> (r: (u32, i16))
    requires
        question_ok(*old(q), code@),
        code_ends(code@),
    ensures
        ({
            let st = question_step(QuestionVoice { q: *old(q), phase, rng: old(rng).state() }, pi, dit, floor, p1, code@);
            &&& st.0 == (QuestionVoice { q: *final(q), phase: r.0, rng: final(rng).state() })
            &&& st.1 == r.1
        }),
        question_ok(*final(q), code@),
{
    let ghost q0 = *q;
    let mut ph = phase.wrapping_add(pi);
    let tone: i32 = if q.tone_on != 0 {
        let s = interpolate_824_i16(&WAV_SINE, ph) as i32;
        proof {
            lemma_i32_shr((s * 3) as i32);
        }
        (s * 3) >> 2
    } else {
        0
    };
    q.cycle = q.cycle.wrapping_add(1);
    if q.cycle > dit {
        q.count = q.count.wrapping_sub(1);
        if q.count == 0 {
            proof {
                lemma_next_symbol_ok(q0, code@);
            }
            q.position = q.position.wrapping_add(1);
            q.tone_on = if q.tone_on == 0 { 1 } else { 0 };
            let pos = q.position;
            let address = (pos >> 2) as usize;
            let shift = (pos & 3) << 1;
            let byte = code[address] as u32;
            proof {
                assert(((pos & 3u32) << 1u32) <= 6) by (bit_vector);
            }
            let x = (byte >> shift) & 3;
            proof {
                assert(x <= 3 && 2 <= (2i32 << x) <= 16) by (bit_vector)
                    requires
                        x == (byte >> shift) & 3u32,
                ;
            }
            q.count = ((2i32 << x) - 1) as i16;
            if q.count == 15 {
                q.count = 100;
                q.tone_on = 0;
                q.position = u32::MAX;
            }
            ph = 1073741824;
        }
        q.cycle = 0;
    }
    let a = rng.get_sample();
    proof {
        lemma_i32_shr(a as i32);
    }
    q.seed = q.seed.wrapping_add((a as i32) >> 2);
    proof {
        lemma_i32_shr(q.seed);
    }
    let mut level = q.seed >> 8;
    if level < 0 {
        level = -level;
    }
    if level < floor {
        level = floor;
    }
    if level > 16000 {
        level = 16000;
    }
    let b = rng.get_sample();
    proof {
        assert(-32768 * 16000 <= b as i32 * level <= 32768 * 16000) by (nonlinear_arith)
            requires
                -32768 <= b <= 32767,
                0 <= level <= 16000,
        ;
        lemma_i32_shr((b as i32 * level) as i32);
        lemma_u32_shr(ph);
        lemma_u32_shr(ph >> 22u32);
    }
    let n1: i32 = (b as i32 * level) >> 15;
    let w = WAV_SINE[((ph >> 22) & 0xff) as usize] as i32;
    proof {
        assert(-16001 * 32768 <= n1 * w <= 16001 * 32768) by (nonlinear_arith)
            requires
                -16001 <= n1 <= 16001,
                -32768 <= w <= 32767,
        ;
        lemma_i32_shr((n1 * w) as i32);
    }
    let n2: i32 = (n1 * w) >> 15;
    let s1 = clip16_sym(tone + n2);
    proof {
        assert(0 <= s1 * s1 <= 32767 * 32767) by (nonlinear_arith)
            requires
                -32767 <= s1 <= 32767,
        ;
        lemma_i32_shr((s1 * s1) as i32);
    }
    let d: i32 = (s1 * s1) >> 14;
    proof {
        assert(-65535 * 32768 <= d * p1 as i32 <= 65535 * 32768) by (nonlinear_arith)
            requires
                0 <= d <= 65535,
                -32768 <= p1 <= 32767,
        ;
        lemma_i32_shr((d * p1 as i32) as i32);
    }
    let s2 = clip16_sym(s1 + ((d * p1 as i32) >> 15));
    (ph, s2 as i16)
}

#[verifier::rlimit(40)]
/// Renders `size` samples of the model into `buffer` from the keyer state,
/// the pitch phase and the generator given, at the increment `pi`, with the
/// message table given; `strike` restarts the message. Returns the phase.
pub fn render_question_mark(q: &mut QuestionMark, phase: u32, rng: &mut Random, strike: bool, pi: u32, p0: i16, p1: i16,
    code: &[u8], buffer: &mut [i16], size: usize) -> (r: u32)
    requires
        p0 >= 0,
        code_ends(code@),
        strike || question_ok(*old(q), code@),
        size <= old(buffer)@.len(),
    ensures
        ({
            let q0 = if strike { question_struck(*old(q)) } else { *old(q) };
            let v0 = QuestionVoice { q: q0, phase, rng: old(rng).state() };
            let dit = (3600 + (32767 - p0 as int) / 4) as u32;
            let floor = 1024 + ((p1 as i32) >> 3i32) as int;
            let e = question_run(v0, pi, dit, floor as i32, p1, code@, size as nat);
            &&& forall|k: int| 0 <= k < size ==> #[trigger] final(buffer)@[k]
                == question_step(question_run(v0, pi, dit, floor as i32, p1, code@, k as nat), pi, dit, floor as i32, p1, code@).1
            &&& *final(q) == e.q
            &&& r == e.phase
            &&& final(rng).state() == e.rng
        }),
        question_ok(*final(q), code@),
        final(buffer)@.len() == old(buffer)@.len(),
        forall|k: int| size <= k < old(buffer)@.len() ==> #[trigger] final(buffer)@[k] == old(buffer)@[k],
{
    if strike {
        q.tone_on = 0;
        q.cycle = 0;
        q.count = 10;
        q.position = u32::MAX;
        q.seed = 32767;
    }
    let ghost v0 = QuestionVoice { q: *q, phase, rng: rng.state() };
    proof {
        lemma_u32_shr((32767 - p0 as u32) as u32);
        crate::bits::lemma_i32_shr((p1 as i32) as i32);
    }
    let dit: u32 = 3600 + ((32767 - p0 as u32) >> 2);
    let floor: i32 = 1024 + ((p1 as i32) >> 3);
    let mut ph = phase;
    let mut k: usize = 0;
    while k < size
        invariant
            k <= size,
            size <= buffer@.len(),
            buffer@.len() == old(buffer)@.len(),
            code_ends(code@),
            question_ok(*q, code@),
            (QuestionVoice { q: *q, phase: ph, rng: rng.state() }) == question_run(v0, pi, dit, floor, p1, code@, k as nat),
            forall|j: int| 0 <= j < k ==> #[trigger] buffer@[j]
                == question_step(question_run(v0, pi, dit, floor, p1, code@, j as nat), pi, dit, floor, p1, code@).1,
            forall|j: int| size <= j < buffer@.len() ==> #[trigger] buffer@[j] == old(buffer)@[j],
        decreases size - k,
    {
        let (next, out) = question_step_exec(q, ph, rng, pi, dit, floor, p1, code);
        ph = next;
        buffer[k] = out;
        k += 1;
    }
    ph
}

} // verus!
