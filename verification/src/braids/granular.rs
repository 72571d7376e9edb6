//! The granular cloud model: four grains of sine, each shaped by an
//! envelope. At the start of each block a grain that has ended (or never
//! started) is restarted with probability 1/4, at the oscillator's
//! increment detuned at random by up to the second parameter, with an
//! envelope rate read from the first parameter.
//!
//! The envelope rates (indexed by the first parameter's top 8 bits) and the
//! envelope shape (indexed by the envelope phase's top 16 bits) are tables
//! handed to `render`: the model is stated for any tables.
use vstd::prelude::*;
use crate::bits::{lemma_i32_shr, lemma_u32_shr};
use crate::fixed::{interpolate_824_i16, interpolate_824_i16_spec};
use super::random::{lcg_next, Random};
use super::resources::WAV_SINE;

verus! {

/// One grain: the sine's phase and increment, the envelope's phase and
/// increment.
#[derive(Debug, Clone, Copy, PartialEq, Eq)]
pub struct Grain {
    pub phase: u32,
    pub increment: u32,
    pub envelope_phase: u32,
    pub envelope_increment: u32,
}

/// The four grains of the cloud.
#[derive(Debug, Clone, Copy)]
pub struct GranularCloud {
    pub grains: [Grain; 4],
}

/// A grain at the start of a block, with the generator state: a grain whose
/// envelope is past its end (phase above 2^24) or stopped draws a word; if
/// its low 16 bits are under 0x4000 the grain restarts (envelope at 0, at
/// 8 times `rate`) at `increment` detuned by a random sample times `p1`
/// (scaled by 2^-23 below, 2^-22 above), else it stops.
pub open spec fn grain_start(g: Grain, r: u32, increment: u32, rate: u16, p1: i16) -> (Grain, u32) {
    if g.envelope_phase > 0x100_0000u32 || g.envelope_increment == 0 {
        let w = lcg_next(r);
        if (w & 0xffffu32) < 0x4000u32 {
            let r2 = lcg_next(w);
            let pitch_mod = ((((r2 >> 16u32) as i16) as int * p1 as int) as i32) >> 16i32;
            let phi = (increment >> 8u32) as int;
            let shift = if pitch_mod < 0 { pitch_mod >> 8i32 } else { pitch_mod >> 7i32 };
            let detune = (phi * shift as int) as i32;
            (Grain {
                phase: g.phase,
                increment: increment.wrapping_add(detune as u32),
                envelope_phase: 0,
                envelope_increment: (rate as u32) << 3u32,
            }, r2)
        } else {
            (Grain { envelope_increment: 0, ..g }, w)
        }
    } else {
        (g, r)
    }
}

/// The four grains at the start of a block, in order, with the generator
/// state after them.
pub open spec fn grains_start(gs: Seq<Grain>, r: u32, increment: u32, rate: u16, p1: i16) -> (Seq<Grain>, u32) {
    let a = grain_start(gs[0], r, increment, rate, p1);
    let b = grain_start(gs[1], a.1, increment, rate, p1);
    let c = grain_start(gs[2], b.1, increment, rate, p1);
    let d = grain_start(gs[3], c.1, increment, rate, p1);
    (seq![a.0, b.0, c.0, d.0], d.1)
}

/// A grain one sample on: both phases advance by their increments.
pub open spec fn grain_advance(g: Grain) -> Grain {
    Grain {
        phase: g.phase.wrapping_add(g.increment),
        envelope_phase: g.envelope_phase.wrapping_add(g.envelope_increment),
        ..g
    }
}

/// A grain `k` samples on.
pub open spec fn grain_after(g: Grain, k: nat) -> Grain
    decreases k,
{
    if k == 0 { g } else { grain_advance(grain_after(g, (k - 1) as nat)) }
}

/// A grain's contribution: the sine at its phase times the envelope at its
/// envelope phase's top 16 bits, scaled by 2^-17.
pub open spec fn grain_level(g: Grain, envelope: Seq<u16>) -> int {
    ((((interpolate_824_i16_spec(WAV_SINE@, g.phase) as int) * (envelope[(g.envelope_phase >> 16u32) as int] as int))
        as i32) >> 17i32) as int
}

/// The `k`-th sample (from 1) of a block whose grains started as `gs`: the
/// grains' contributions summed and clamped to 16 bits.
pub open spec fn granular_sample(gs: Seq<Grain>, envelope: Seq<u16>, k: nat) -> i16 {
    let s = grain_level(grain_after(gs[0], k), envelope) + grain_level(grain_after(gs[1], k), envelope)
        + grain_level(grain_after(gs[2], k), envelope) + grain_level(grain_after(gs[3], k), envelope);
    (if s < -32768 { -32768 } else if s > 32767 { 32767 } else { s }) as i16
}

/// Every envelope read of a block of `size` samples from grains that
/// started as `gs` falls inside a table of `len` entries.
pub open spec fn envelope_reads_fit(gs: Seq<Grain>, len: nat, size: nat) -> bool {
    forall|j: int, k: nat| 0 <= j < 4 && 1 <= k <= size
        ==> ((#[trigger] grain_after(gs[j], k)).envelope_phase >> 16u32) < len
}

/// An envelope table of 65536 entries (or more) takes any envelope phase.
pub proof fn lemma_full_envelope_fits(gs: Seq<Grain>, len: nat, size: nat)
    requires
        len >= 65536,
    ensures
        envelope_reads_fit(gs, len, size),
{
    assert forall|j: int, k: nat| 0 <= j < 4 && 1 <= k <= size implies
        ((#[trigger] grain_after(gs[j], k)).envelope_phase >> 16u32) < len by {
        lemma_u32_shr(grain_after(gs[j], k).envelope_phase);
    }
}

/// The start of one grain (see `grain_start`).
#[verifier::rlimit(30)]
fn grain_start_exec(g: &mut Grain, rng: &mut Random, increment: u32, rate: u16, p1: i16)
    ensures
        (*final(g), final(rng).state()) == grain_start(*old(g), old(rng).state(), increment, rate, p1),
{
    if g.envelope_phase > 0x100_0000 || g.envelope_increment == 0 {
        g.envelope_increment = 0;
        let w = rng.get_word();
        if (w & 0xffff) < 0x4000 {
            g.envelope_increment = (rate as u32) << 3;
            g.envelope_phase = 0;
            let s = rng.get_sample();
            proof {
                assert(-0x4000_0000 <= s as int * p1 as int <= 0x4000_0000) by (nonlinear_arith)
                    requires
                        -32768 <= s <= 32767,
                        -32768 <= p1 <= 32767,
                ;
                lemma_i32_shr((s as i32 * p1 as i32) as i32);
            }
            let pitch_mod: i32 = (s as i32 * p1 as i32) >> 16;
            proof {
                lemma_i32_shr(pitch_mod);
                lemma_u32_shr(increment);
            }
            let phi: i32 = (increment >> 8) as i32;
            let shift: i32 = if pitch_mod < 0 { pitch_mod >> 8 } else { pitch_mod >> 7 };
            proof {
                assert(-0x7fff_ffff <= phi as int * shift as int <= 0x7fff_ffff) by (nonlinear_arith)
                    requires
                        0 <= phi < 0x100_0000,
                        -64 <= shift <= 128,
                ;
            }
            let detune: i32 = phi * shift;
            g.increment = increment.wrapping_add(detune as u32);
        }
    }
}

/// One sample of one grain: the grain advances and gives its contribution
/// (see `grain_level`).
fn grain_tick(g: &mut Grain, envelope: &[u16]) -> (r: i32)
    requires
        (grain_advance(*old(g)).envelope_phase >> 16u32) < envelope@.len(),
    ensures
        *final(g) == grain_advance(*old(g)),
        r == grain_level(*final(g), envelope@),
        -16384 <= r <= 16383,
{
    g.phase = g.phase.wrapping_add(g.increment);
    g.envelope_phase = g.envelope_phase.wrapping_add(g.envelope_increment);
    let s = interpolate_824_i16(&WAV_SINE, g.phase) as i32;
    let e = envelope[(g.envelope_phase >> 16) as usize] as i32;
    proof {
        assert(-32768 * 65535 <= s * e <= 32767 * 65535) by (nonlinear_arith)
            requires
                -32768 <= s <= 32767,
                0 <= e <= 65535,
        ;
        lemma_i32_shr((s * e) as i32);
    }
    (s * e) >> 17
}

impl GranularCloud {
    /// A cloud of silent grains, all phases and increments at 0.
    pub fn new() -> (r: Self)
        ensures
            forall|j: int| 0 <= j < 4 ==> #[trigger] r.grains@[j] == (Grain {
                phase: 0, increment: 0, envelope_phase: 0, envelope_increment: 0 }),
    {
        let g = Grain { phase: 0, increment: 0, envelope_phase: 0, envelope_increment: 0 };
        GranularCloud { grains: [g, g, g, g] }
    }

    /// Renders `size` samples into `buffer` at the oscillator's `increment`,
    /// with the envelope rates and the envelope shape given: first each
    /// grain in turn may restart (see `grain_start`, with the rate at the
    /// first parameter's top 8 bits), then each sample sums the grains.
    #[verifier::rlimit(40)]
    pub fn render(&mut self, rng: &mut Random, increment: u32, p0: i16, p1: i16, rates: &[u16], envelope: &[u16],
        buffer: &mut [i16], size: usize)
        requires
            p0 >= 0,
            rates@.len() >= 256,
            size <= old(buffer)@.len(),
            envelope_reads_fit(
                grains_start(old(self).grains@, old(rng).state(), increment, rates@[(p0 >> 7i16) as int], p1).0,
                envelope@.len(), size as nat),
        ensures
            ({
                let st = grains_start(old(self).grains@, old(rng).state(), increment, rates@[(p0 >> 7i16) as int], p1);
                &&& final(rng).state() == st.1
                &&& forall|j: int| 0 <= j < 4 ==> #[trigger] final(self).grains@[j] == grain_after(st.0[j], size as nat)
                &&& forall|k: int| 0 <= k < size ==> #[trigger] final(buffer)@[k] == granular_sample(st.0, envelope@, (k + 1) as nat)
            }),
            final(buffer)@.len() == old(buffer)@.len(),
            forall|k: int| size <= k < old(buffer)@.len() ==> #[trigger] final(buffer)@[k] == old(buffer)@[k],
    {
        proof {
            crate::bits::lemma_i16_shr(p0);
        }
        let rate = rates[(p0 >> 7) as usize];
        let ghost st = grains_start(self.grains@, rng.state(), increment, rate, p1);
        let mut g0 = self.grains[0];
        let mut g1 = self.grains[1];
        let mut g2 = self.grains[2];
        let mut g3 = self.grains[3];
        grain_start_exec(&mut g0, rng, increment, rate, p1);
        grain_start_exec(&mut g1, rng, increment, rate, p1);
        grain_start_exec(&mut g2, rng, increment, rate, p1);
        grain_start_exec(&mut g3, rng, increment, rate, p1);
        assert(st.0[0] == g0 && st.0[1] == g1 && st.0[2] == g2 && st.0[3] == g3);
        let mut k: usize = 0;
        while k < size
            invariant
                k <= size,
                size <= buffer@.len(),
                buffer@.len() == old(buffer)@.len(),
                envelope_reads_fit(st.0, envelope@.len(), size as nat),
                g0 == grain_after(st.0[0], k as nat),
                g1 == grain_after(st.0[1], k as nat),
                g2 == grain_after(st.0[2], k as nat),
                g3 == grain_after(st.0[3], k as nat),
                forall|j: int| 0 <= j < k ==> #[trigger] buffer@[j] == granular_sample(st.0, envelope@, (j + 1) as nat),
                forall|j: int| size <= j < buffer@.len() ==> #[trigger] buffer@[j] == old(buffer)@[j],
            decreases size - k,
        {
            let ghost k1 = (k + 1) as nat;
            assert(grain_after(st.0[0], k1) == grain_advance(g0));
            assert(grain_after(st.0[1], k1) == grain_advance(g1));
            assert(grain_after(st.0[2], k1) == grain_advance(g2));
            assert(grain_after(st.0[3], k1) == grain_advance(g3));
            assert((grain_after(st.0[0], k1).envelope_phase >> 16u32) < envelope@.len());
            assert((grain_after(st.0[1], k1).envelope_phase >> 16u32) < envelope@.len());
            assert((grain_after(st.0[2], k1).envelope_phase >> 16u32) < envelope@.len());
            assert((grain_after(st.0[3], k1).envelope_phase >> 16u32) < envelope@.len());
            let a = grain_tick(&mut g0, envelope);
            let b = grain_tick(&mut g1, envelope);
            let c = grain_tick(&mut g2, envelope);
            let d = grain_tick(&mut g3, envelope);
            let mut sample: i32 = a + b + c + d;
            if sample < -32768 {
                sample = -32768;
            } else if sample > 32767 {
                sample = 32767;
            }
            buffer[k] = sample as i16;
            k += 1;
        }
        self.grains = [g0, g1, g2, g3];
    }
}

} // verus!
