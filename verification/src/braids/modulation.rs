//! The "digital modulation" model: a QPSK modem sending a preamble and then
//! a stream of bytes that follows the second parameter, two bits per symbol.
use vstd::prelude::*;
use crate::bits::lemma_i32_shr;
use crate::fixed::{interpolate_824_i16, interpolate_824_i16_spec};
use super::resources::WAV_SINE;

verus! {

/// The quadrature amplitude of each two-bit symbol.
pub const CONSTELLATION_Q: [i32; 4] = [23100, -23100, -23100, 23100];
/// The in-phase amplitude of each two-bit symbol.
pub const CONSTELLATION_I: [i32; 4] = [23100, 23100, -23100, -23100];

/// The modem's state between samples: the symbol clock, the number of
/// symbols sent in the current frame, the smoothed data and the byte being
/// sent.
#[derive(Clone, Copy)]
pub struct ModemState {
    pub symbol_phase: u32,
    pub symbol_count: u16,
    pub filter: i16,
    pub data_byte: u8,
}

/// A modem at the start of a frame, sending nothing.
pub open spec fn idle_modem() -> ModemState {
    ModemState { symbol_phase: 0, symbol_count: 0, filter: 0, data_byte: 0 }
}

/// A new symbol: every fourth one starts a byte (a frame is 32 symbols of
/// zeros, 16 of 0x99, 16 of 0xcc, then 256 bytes of the smoothed second
/// parameter); the others shift the byte by two bits.
pub open spec fn next_symbol(s: ModemState, p1: i16) -> ModemState {
    let c = s.symbol_count.wrapping_add(1);
    if c % 4 == 0 {
        let c2: u16 = if c >= 64 + 4 * 256 { 0 } else { c };
        if c2 < 32 {
            ModemState { symbol_count: c2, data_byte: 0, ..s }
        } else if c2 < 48 {
            ModemState { symbol_count: c2, data_byte: 0x99, ..s }
        } else if c2 < 64 {
            ModemState { symbol_count: c2, data_byte: 0xcc, ..s }
        } else {
            let f = (((s.filter as int * 3 + p1 as int) as i32) >> 2i32) as i16;
            ModemState { symbol_count: c2, filter: f, data_byte: ((f as i32) >> 7i32) as u8, ..s }
        }
    } else {
        ModemState { symbol_count: c, data_byte: s.data_byte / 4, ..s }
    }
}

/// One sample of the modem: the carrier and the symbol clock advance; a
/// wrap of the symbol clock sends the next symbol.
pub open spec fn modem_step(st: (u32, ModemState), inc: u32, symbol_inc: u32, p1: i16) -> (u32, ModemState) {
    let phase = st.0.wrapping_add(inc);
    let sp = st.1.symbol_phase.wrapping_add(symbol_inc);
    let s = ModemState { symbol_phase: sp, ..st.1 };
    (phase, if sp < symbol_inc { next_symbol(s, p1) } else { s })
}

/// The carrier phase and the modem after `k` samples.
pub open spec fn modem_run(st: (u32, ModemState), inc: u32, symbol_inc: u32, p1: i16, k: nat) -> (u32, ModemState)
    decreases k,
{
    if k == 0 {
        st
    } else {
        modem_step(modem_run(st, inc, symbol_inc, p1, (k - 1) as nat), inc, symbol_inc, p1)
    }
}

/// The modulated carrier: the symbol's in-phase and quadrature amplitudes
/// times the sine and the cosine (the sum wraps to 16 bits).
pub open spec fn modem_output(phase: u32, byte: u8) -> i16 {
    let q = CONSTELLATION_Q@[(byte % 4) as int];
    let i = CONSTELLATION_I@[(byte % 4) as int];
    let iq_i = interpolate_824_i16_spec(WAV_SINE@, phase) as int;
    let iq_q = interpolate_824_i16_spec(WAV_SINE@, phase.wrapping_add(0x4000_0000)) as int;
    (((((q * iq_q) as i32) >> 15i32) as int) + ((((i * iq_i) as i32) >> 15i32) as int)) as i16
}

fn next_symbol_exec(s: ModemState, p1: i16) -> (r: ModemState)
    ensures
        r == next_symbol(s, p1),
{
    let c = s.symbol_count.wrapping_add(1);
    if c % 4 == 0 {
        let c2: u16 = if c >= 64 + 4 * 256 { 0 } else { c };
        if c2 < 32 {
            ModemState { symbol_count: c2, data_byte: 0, ..s }
        } else if c2 < 48 {
            ModemState { symbol_count: c2, data_byte: 0x99, ..s }
        } else if c2 < 64 {
            ModemState { symbol_count: c2, data_byte: 0xcc, ..s }
        } else {
            let x: i32 = s.filter as i32 * 3 + p1 as i32;
            proof {
                lemma_i32_shr(x);
            }
            let f = (x >> 2) as i16;
            ModemState { symbol_count: c2, filter: f, data_byte: (f as i32 >> 7) as u8, ..s }
        }
    } else {
        ModemState { symbol_count: c, data_byte: s.data_byte / 4, ..s }
    }
}

/// Renders `size` samples of the modem into `buffer` from the carrier phase
/// `phase`; returns the carrier phase at the end.
pub fn render_modem(state: &mut ModemState, phase: u32, inc: u32, symbol_inc: u32, p1: i16, buffer: &mut [i16], size: usize) -> (r: u32)
    requires
        size <= old(buffer)@.len(),
    ensures
        final(buffer)@.len() == old(buffer)@.len(),
        forall|k: int| 0 <= k < size ==> #[trigger] final(buffer)@[k] == ({
            let st = modem_run((phase, *old(state)), inc, symbol_inc, p1, (k + 1) as nat);
            modem_output(st.0, st.1.data_byte)
        }),
        forall|k: int| size <= k < old(buffer)@.len() ==> #[trigger] final(buffer)@[k] == old(buffer)@[k],
        (r, *final(state)) == modem_run((phase, *old(state)), inc, symbol_inc, p1, size as nat),
{
    let ghost s0 = (phase, *state);
    let mut phase = phase;
    let mut i: usize = 0;
    while i < size
        invariant
            i <= size,
            size <= buffer@.len(),
            buffer@.len() == old(buffer)@.len(),
            (phase, *state) == modem_run(s0, inc, symbol_inc, p1, i as nat),
            forall|k: int| 0 <= k < i ==> #[trigger] buffer@[k] == ({
                let st = modem_run(s0, inc, symbol_inc, p1, (k + 1) as nat);
                modem_output(st.0, st.1.data_byte)
            }),
            forall|k: int| size <= k < buffer@.len() ==> #[trigger] buffer@[k] == old(buffer)@[k],
        decreases size - i,
    {
        phase = phase.wrapping_add(inc);
        let sp = state.symbol_phase.wrapping_add(symbol_inc);
        state.symbol_phase = sp;
        if sp < symbol_inc {
            *state = next_symbol_exec(*state, p1);
        }
        let iq_i = interpolate_824_i16(&WAV_SINE, phase) as i32;
        let iq_q = interpolate_824_i16(&WAV_SINE, phase.wrapping_add(0x4000_0000)) as i32;
        let b = (state.data_byte % 4) as usize;
        let q = CONSTELLATION_Q[b];
        let c = CONSTELLATION_I[b];
        proof {
            assert(-23100 * 32768 <= q * iq_q <= 23100 * 32768) by (nonlinear_arith)
                requires
                    -23100 <= q <= 23100,
                    -32768 <= iq_q <= 32767,
            ;
            assert(-23100 * 32768 <= c * iq_i <= 23100 * 32768) by (nonlinear_arith)
                requires
                    -23100 <= c <= 23100,
                    -32768 <= iq_i <= 32767,
            ;
            lemma_i32_shr((q * iq_q) as i32);
            lemma_i32_shr((c * iq_i) as i32);
        }
        buffer[i] = #[verifier::truncate] ((((q * iq_q) >> 15) + ((c * iq_i) >> 15)) as i16);
        i += 1;
    }
    phase
}

} // verus!
