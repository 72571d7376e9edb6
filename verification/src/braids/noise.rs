//! The clocked noise model: a random level, quantized to a number of steps,
//! held between the ticks of a clock at the pitch; a slower cycle clock
//! reseeds the generator so that the pattern of levels repeats.
use vstd::prelude::*;
use crate::bits::lemma_u32_shr;
use super::random::lcg_next;

verus! {

/// The clocked noise's state between samples: the cycle clock, the
/// generator and its seed, and the level held.
#[derive(Clone, Copy)]
pub struct ClockState {
    pub cycle_phase: u32,
    pub cycle_increment: u32,
    pub rng_state: u32,
    pub seed: i32,
    pub sample: i16,
}

/// A clock that has not ticked yet.
pub open spec fn idle_clock() -> ClockState {
    ClockState { cycle_phase: 0, cycle_increment: 0, rng_state: 0, seed: 0, sample: 0 }
}

/// The increment doubled unless that would pass half a cycle.
pub open spec fn doubled_below_half(x: u32) -> u32 {
    if x < 0x8000_0000 { (x * 2) as u32 } else { x }
}

/// The clock's increment: the pitch's, doubled up to three times while it
/// stays below half a cycle.
pub open spec fn clock_increment(pi: u32) -> u32 {
    doubled_below_half(doubled_below_half(doubled_below_half(pi)))
}

/// The number of levels the noise is quantized to: one more than the top
/// five bits of the held second parameter, at least two.
pub open spec fn clock_steps(held: i16) -> u32 {
    let n = (1 + ((held as u32) >> 10u32)) as u32;
    if n == 1 { 2 } else { n }
}

/// The width of a quantization step.
pub open spec fn clock_divider(held: i16) -> u32 {
    65536u32 / clock_steps(held)
}

/// A tick of the clock: the generator steps (or, when the cycle clock wraps,
/// restarts from the seed) and the level becomes its low 16 bits rounded
/// down to a step and lifted by half a step.
pub open spec fn clock_tick(s: ClockState, divider: u32) -> ClockState {
    let stepped = lcg_next(s.rng_state);
    let cp = s.cycle_phase.wrapping_add(s.cycle_increment);
    let restart = cp < s.cycle_increment;
    let rng = if restart { s.seed as u32 } else { stepped };
    let v = rng as u16;
    let q = divider as u16;
    let level = ((v - v % q) as u16).wrapping_add((divider >> 1u32) as u16);
    ClockState {
        cycle_phase: if restart { s.cycle_increment } else { cp },
        rng_state: rng,
        sample: level as i16,
        ..s
    }
}

/// One sample: the clock phase advances (a sync pulse resets it); when it
/// wraps the clock ticks and the phase restarts at the increment.
pub open spec fn clock_step(st: (u32, ClockState), inc: u32, divider: u32, sync: u8) -> (u32, ClockState) {
    let advanced = st.0.wrapping_add(inc);
    let phase = if sync != 0 { 0 } else { advanced };
    if phase < inc { (inc, clock_tick(st.1, divider)) } else { (phase, st.1) }
}

/// The clock phase and the state after `k` samples.
pub open spec fn clock_run(st: (u32, ClockState), inc: u32, divider: u32, sync: Seq<u8>, k: nat) -> (u32, ClockState)
    decreases k,
{
    if k == 0 {
        st
    } else {
        clock_step(clock_run(st, inc, divider, sync, (k - 1) as nat), inc, divider, sync[k - 1])
    }
}

/// The number of levels and the step width, from the held parameter
/// (which must not be negative).
pub fn clock_divider_exec(held: i16) -> (r: u32)
    requires
        held >= 0,
    ensures
        r == clock_divider(held),
        1 <= r <= 32768,
{
    proof {
        lemma_u32_shr(held as u32);
    }
    let n: u32 = 1 + ((held as u32) >> 10);
    let steps: u32 = if n == 1 { 2 } else { n };
    assert(1 <= 65536u32 / steps <= 32768) by (nonlinear_arith)
        requires
            2 <= steps <= 65536,
    ;
    65536 / steps
}

/// Renders `size` samples of clocked noise into `buffer` from the clock
/// phase `phase`; returns the clock phase at the end.
pub fn render_clocked_noise(state: &mut ClockState, phase: u32, inc: u32, divider: u32, sync: &[u8], buffer: &mut [i16], size: usize) -> (r: u32)
    requires
        1 <= divider <= 32768,
        size <= sync@.len(),
        size <= old(buffer)@.len(),
    ensures
        final(buffer)@.len() == old(buffer)@.len(),
        forall|k: int| 0 <= k < size ==> #[trigger] final(buffer)@[k]
            == clock_run((phase, *old(state)), inc, divider, sync@, (k + 1) as nat).1.sample,
        forall|k: int| size <= k < old(buffer)@.len() ==> #[trigger] final(buffer)@[k] == old(buffer)@[k],
        (r, *final(state)) == clock_run((phase, *old(state)), inc, divider, sync@, size as nat),
{
    let ghost s0 = (phase, *state);
    let mut phase = phase;
    let mut i: usize = 0;
    while i < size
        invariant
            i <= size,
            1 <= divider <= 32768,
            size <= sync@.len(),
            size <= buffer@.len(),
            buffer@.len() == old(buffer)@.len(),
            (phase, *state) == clock_run(s0, inc, divider, sync@, i as nat),
            forall|k: int| 0 <= k < i ==> #[trigger] buffer@[k] == clock_run(s0, inc, divider, sync@, (k + 1) as nat).1.sample,
            forall|k: int| size <= k < buffer@.len() ==> #[trigger] buffer@[k] == old(buffer)@[k],
        decreases size - i,
    {
        phase = phase.wrapping_add(inc);
        if sync[i] != 0 {
            phase = 0;
        }
        if phase < inc {
            let stepped = state.rng_state.wrapping_mul(1_664_525).wrapping_add(1_013_904_223);
            state.rng_state = stepped;
            state.cycle_phase = state.cycle_phase.wrapping_add(state.cycle_increment);
            if state.cycle_phase < state.cycle_increment {
                state.rng_state = state.seed as u32;
                state.cycle_phase = state.cycle_increment;
            }
            let mut s = state.rng_state as u16;
            let q = divider as u16;
            assert(s % q <= s) by (nonlinear_arith)
                requires
                    q >= 1,
            ;
            s -= s % q;
            s = s.wrapping_add((divider >> 1) as u16);
            state.sample = s as i16;
            phase = inc;
        }
        buffer[i] = state.sample;
        i += 1;
    }
    phase
}

} // verus!
