//! VOSIM: two sine formants (tuned by the two parameters) summed over an
//! offset, shaped by a bell-shaped window over each pitch period, and
//! restarted at every period.
//!
//! The bell window (257 entries at 8.24 positions) is handed to `render`:
//! the model is stated for any window.
use vstd::prelude::*;
use crate::bits::lemma_i32_shr;
use crate::fixed::{interpolate_824_i16, interpolate_824_i16_spec, interpolate_824_u16, interpolate_824_u16_spec};
use super::dsp::{compute_phase_increment_digital, phase_increment_of};
use super::resources::WAV_SINE;

verus! {

/// The running state: the pitch phase and both formants' phases.
pub struct VosimVoice {
    pub phase: u32,
    pub f0: u32,
    pub f1: u32,
}

/// A formant's increment: that of half the parameter as a 7.7 pitch.
pub open spec fn formant_increment(p: i16) -> u32 {
    phase_increment_of((p >> 1i16) as int)
}

/// One sample: the pitch phase advances (a sync pulse restarts it) and so
/// do the formants; `24576 + sine(f0) / 2 + sine(f1) / 4` is scaled by half
/// the bell at the pitch phase; where the pitch phase has just wrapped the
/// formants restart and the sample is silent; the offset is removed.
pub open spec fn vosim_step(v: VosimVoice, pi: u32, i0: u32, i1: u32, bell: Seq<u16>, sync: u8) -> (VosimVoice, i16) {
    let phase = if sync != 0 { 0u32 } else { v.phase.wrapping_add(pi) };
    let f0 = v.f0.wrapping_add(i0);
    let f1 = v.f1.wrapping_add(i1);
    let sum = 24576 + ((interpolate_824_i16_spec(WAV_SINE@, f0) as i32) >> 1i32) as int
        + ((interpolate_824_i16_spec(WAV_SINE@, f1) as i32) >> 2i32) as int;
    let shaped = ((sum * ((interpolate_824_u16_spec(bell, phase) as i32) >> 1i32) as int) as i32) >> 15i32;
    let reset = phase < pi;
    (
        VosimVoice { phase, f0: if reset { 0 } else { f0 }, f1: if reset { 0 } else { f1 } },
        ((if reset { 0 } else { shaped as int }) - 24576) as i16,
    )
}

/// `k` samples of VOSIM.
pub open spec fn vosim_run(v: VosimVoice, pi: u32, i0: u32, i1: u32, bell: Seq<u16>, sync: Seq<u8>, k: nat) -> VosimVoice
    decreases k,
{
    if k == 0 {
        v
    } else {
        vosim_step(vosim_run(v, pi, i0, i1, bell, sync, (k - 1) as nat), pi, i0, i1, bell, sync[k - 1]).0
    }
}

/// One sample of VOSIM (see `vosim_step`).
fn vosim_step_exec(v: (u32, u32, u32), pi: u32, i0: u32, i1: u32, bell: &[u16; 257], sync: u8) -> (r: ((u32, u32, u32), i16))
    ensures
        ({
            let st = vosim_step(VosimVoice { phase: v.0, f0: v.1, f1: v.2 }, pi, i0, i1, bell@, sync);
            &&& r.0 == (st.0.phase, st.0.f0, st.0.f1)
            &&& r.1 == st.1
        }),
{
    let (mut phase, mut f0, mut f1) = v;
    phase = phase.wrapping_add(pi);
    if sync != 0 {
        phase = 0;
    }
    f0 = f0.wrapping_add(i0);
    f1 = f1.wrapping_add(i1);
    let a = interpolate_824_i16(&WAV_SINE, f0) as i32;
    let b = interpolate_824_i16(&WAV_SINE, f1) as i32;
    let w = interpolate_824_u16(bell, phase) as i32;
    proof {
        lemma_i32_shr(a);
        lemma_i32_shr(b);
        lemma_i32_shr(w);
    }
    let mut sample: i32 = 16384 + 8192;
    sample += a >> 1;
    sample += b >> 2;
    proof {
        assert(0 <= sample * (w >> 1) <= 49150 * 32767) by (nonlinear_arith)
            requires
                0 <= sample <= 49150,
                0 <= (w >> 1) <= 32767,
        ;
        lemma_i32_shr((sample * (w >> 1)) as i32);
    }
    sample = sample * (w >> 1) >> 15;
    if phase < pi {
        f0 = 0;
        f1 = 0;
        sample = 0;
    }
    sample -= 16384 + 8192;
    ((phase, f0, f1), sample as i16)
}

/// Renders `size` samples of VOSIM into `buffer` from the pitch phase and
/// the two formant phases given, at the pitch increment `pi`, with the bell
/// window given. Returns the three phases.
pub fn render_vosim(phase: u32, formant_phases: (u32, u32), pi: u32, p0: i16, p1: i16, bell: &[u16; 257],
    sync: &[u8], buffer: &mut [i16], size: usize) -> (r: (u32, u32, u32))
    requires
        size <= sync@.len(),
        size <= old(buffer)@.len(),
    ensures
        ({
            let v0 = VosimVoice { phase, f0: formant_phases.0, f1: formant_phases.1 };
            let (i0, i1) = (formant_increment(p0), formant_increment(p1));
            let e = vosim_run(v0, pi, i0, i1, bell@, sync@, size as nat);
            &&& forall|k: int| 0 <= k < size ==> #[trigger] final(buffer)@[k]
                == vosim_step(vosim_run(v0, pi, i0, i1, bell@, sync@, k as nat), pi, i0, i1, bell@, sync@[k]).1
            &&& r == (e.phase, e.f0, e.f1)
        }),
        final(buffer)@.len() == old(buffer)@.len(),
        forall|k: int| size <= k < old(buffer)@.len() ==> #[trigger] final(buffer)@[k] == old(buffer)@[k],
{
    let i0 = compute_phase_increment_digital((p0 >> 1) as i32);
    let i1 = compute_phase_increment_digital((p1 >> 1) as i32);
    let ghost v0 = VosimVoice { phase, f0: formant_phases.0, f1: formant_phases.1 };
    let mut v = (phase, formant_phases.0, formant_phases.1);
    let mut k: usize = 0;
    while k < size
        invariant
            k <= size,
            size <= sync@.len(),
            size <= buffer@.len(),
            buffer@.len() == old(buffer)@.len(),
            i0 == formant_increment(p0),
            i1 == formant_increment(p1),
            ({
                let w = vosim_run(v0, pi, i0, i1, bell@, sync@, k as nat);
                v == (w.phase, w.f0, w.f1)
            }),
            forall|j: int| 0 <= j < k ==> #[trigger] buffer@[j]
                == vosim_step(vosim_run(v0, pi, i0, i1, bell@, sync@, j as nat), pi, i0, i1, bell@, sync@[j]).1,
            forall|j: int| size <= j < buffer@.len() ==> #[trigger] buffer@[j] == old(buffer)@[j],
        decreases size - k,
    {
        let (next, out) = vosim_step_exec(v, pi, i0, i1, bell, sync[k]);
        v = next;
        buffer[k] = out;
        k += 1;
    }
    v
}

} // verus!
