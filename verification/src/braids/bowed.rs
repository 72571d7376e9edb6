//! The bowed string: a waveguide of two delay lines (bridge side and neck
//! side of the bow) whose junction is driven by a bow; the bow's velocity
//! follows an envelope, and the friction between bow and string is read
//! from a curve of the velocity difference. The bridge signal, through a
//! resonant body filter, is the output.
//!
//! The bow's velocity envelope (752 entries) and friction curve (257
//! entries) are handed to `render`: the model is stated for any curves.
use vstd::prelude::*;
use crate::bits::{lemma_i16_shr, lemma_i32_shl, lemma_i32_shr, lemma_u32_shr};
use crate::fixed::{clip16_sym, clip16_sym_spec, mix_i16_spec};
use super::waveguide::{line_mix, line_mix_exec};

verus! {

/// Length of the delay line between bow and bridge.
pub const BRIDGE_LENGTH: usize = 1024;
/// Length of the delay line between bow and neck.
pub const NECK_LENGTH: usize = 4096;
/// Entries of the bow's velocity envelope.
pub const BOWING_ENVELOPE_SIZE: usize = 752;

/// The total delay and the bridge side's share, both halved until each
/// side fits its line.
pub open spec fn bow_fit(delay: u32, bridge: u32) -> (u32, u32)
    decreases delay as int + bridge as int,
{
    if delay.wrapping_sub(bridge) > 268369920u32 || bridge > 67043328u32 {
        proof {
            lemma_u32_shr(delay);
            lemma_u32_shr(bridge);
        }
        bow_fit(delay >> 1u32, bridge >> 1u32)
    } else {
        (delay, bridge)
    }
}

/// The total delay (16.16 samples) from the oscillator's delay: half of it
/// less two samples; the bridge side's share is set by the second
/// parameter (`6 + p1 / 512` 256ths, wrapping).
pub open spec fn bow_delays(delay: u32, p1: i16) -> (u32, u32) {
    let d = (delay >> 1u32).wrapping_sub(131072);
    bow_fit(d, (d >> 8u32).wrapping_mul((6 + (p1 >> 9i16) as int) as u32))
}

/// The string's state: its two delay lines, the write position, the
/// position in the bow's envelope, the bridge's loss filter, the body
/// filter's two last outputs, the previous output and the pitch phase.
pub struct BowState {
    pub bridge: Seq<i8>,
    pub neck: Seq<i8>,
    pub delay_ptr: u16,
    pub excitation_ptr: u16,
    pub lp: i32,
    pub y0: i32,
    pub y1: i32,
    pub previous: i32,
    pub phase: u32,
}

/// The block's fixed settings: each side's delay (integral samples and a
/// 16-bit fraction) and the friction's gain.
pub struct BowSetup {
    pub bridge_integral: u16,
    pub bridge_fraction: u16,
    pub neck_integral: u16,
    pub neck_fraction: u16,
    pub gain: i32,
}

/// The block's settings from the oscillator's delay and the parameters.
pub open spec fn bow_setup(delay: u32, p0: i16, p1: i16) -> BowSetup {
    let (d, b) = bow_delays(delay, p1);
    let n = d.wrapping_sub(b);
    BowSetup {
        bridge_integral: (b >> 16u32) as u16,
        bridge_fraction: (b & 0xffffu32) as u16,
        neck_integral: (n >> 16u32) as u16,
        neck_fraction: (n & 0xffffu32) as u16,
        gain: (172 - (p0 >> 8i16) as int) as i32,
    }
}

/// A delay line read `integral` (and a `fraction`) samples behind the write
/// position, moved to the top of 16 bits.
pub open spec fn line_read(line: Seq<i8>, len: int, ptr: u16, integral: u16, fraction: u16) -> int {
    line_mix(line, len, ptr, integral, fraction) as int * 256
}

/// The bow's velocity at envelope position `e` (two entries averaged).
pub open spec fn bow_velocity(envelope: Seq<u16>, e: u16) -> int {
    (((envelope[(e >> 1u16) as int] as int + envelope[((e + 1) as u16 >> 1u16) as int] as int) as i32) >> 1i32) as int
}

/// The friction coefficient for the velocity difference `vd`: the curve
/// read at `|vd * gain / 32|`, capped below `2^17`.
pub open spec fn bow_friction(friction: Seq<u16>, vd: int, gain: i32) -> int {
    let f0 = ((vd as i32).wrapping_mul(gain)) >> 5i32;
    let f1: int = if f0 < 0 { -f0 } else { f0 as int };
    let f2: int = if f1 >= 131072 { 131071 } else { f1 };
    friction[f2 / 512] as int
}

/// One step (two output samples) of the bowed string: both lines are read
/// at their delays; the bridge's reflection passes a one-pole loss filter;
/// the velocity difference between bow and string sets the friction,
/// whose force goes back into both lines (as the top 8 bits); the bridge
/// signal drives the body filter, whose output (less its value two steps
/// back, clipped) is the second sample and its average with the previous
/// output the first.
pub open spec fn bowed_step(s: BowState, g: BowSetup, pi: u32, envelope: Seq<u16>, friction: Seq<u16>) -> (BowState, i16, i16) {
    let bv = line_read(s.bridge, 1024, s.delay_ptr, g.bridge_integral, g.bridge_fraction);
    let nv = line_read(s.neck, 4096, s.delay_ptr, g.neck_integral, g.neck_fraction);
    let lp = ((((bv as i32).wrapping_mul(14008) as int + s.lp.wrapping_mul(18022) as int) as i32) >> 15i32) as int;
    let br = -lp;
    let nr = -nv;
    let vd = bow_velocity(envelope, s.excitation_ptr) - (br + nr);
    let force = (((bow_friction(friction, vd, g.gain) as i32).wrapping_mul(vd as i32)) >> 15i32) as int;
    let temp = ((((bv as i32).wrapping_mul(6553)) >> 15i32) as int)
        + ((s.y0.wrapping_mul(6948) >> 12i32) as int)
        + ((s.y1.wrapping_mul(-2959i32) >> 12i32) as int);
    let out = clip16_sym_spec((temp - s.y1) as i32) as int;
    (
        BowState {
            bridge: s.bridge.update(s.delay_ptr as int % 1024, (((nr + force) as i32) >> 8i32) as i8),
            neck: s.neck.update(s.delay_ptr as int % 4096, (((br + force) as i32) >> 8i32) as i8),
            delay_ptr: s.delay_ptr.wrapping_add(1),
            excitation_ptr: s.excitation_ptr.wrapping_add(1),
            lp: lp as i32,
            y0: temp as i32,
            y1: s.y0,
            previous: out as i32,
            phase: s.phase.wrapping_add(pi),
        },
        (((out + s.previous) as i32) >> 1i32) as i16,
        out as i16,
    )
}

/// `j` steps of the bowed string.
pub open spec fn bowed_run(s: BowState, g: BowSetup, pi: u32, envelope: Seq<u16>, friction: Seq<u16>, j: nat) -> BowState
    decreases j,
{
    if j == 0 {
        s
    } else {
        bowed_step(bowed_run(s, g, pi, envelope, friction, (j - 1) as nat), g, pi, envelope, friction).0
    }
}

/// The string's state within the ranges its steps keep: both lines of their
/// lengths, the envelope position at most 1440, the loss filter within
/// 16 bits, the body filter within 21 bits, the previous output clipped.
pub open spec fn bow_ok(s: BowState) -> bool {
    &&& s.bridge.len() == 1024
    &&& s.neck.len() == 4096
    &&& s.excitation_ptr <= 1440
    &&& -32768 <= s.lp <= 32768
    &&& -2097152 <= s.y0 <= 2097152
    &&& -2097152 <= s.y1 <= 2097152
    &&& -32767 <= s.previous <= 32767
}

/// A string at rest: empty lines, every position and filter at zero.
pub open spec fn bow_rest(phase: u32) -> BowState {
    BowState {
        bridge: Seq::new(1024, |i: int| 0i8),
        neck: Seq::new(4096, |i: int| 0i8),
        delay_ptr: 0,
        excitation_ptr: 0,
        lp: 0,
        y0: 0,
        y1: 0,
        previous: 0,
        phase,
    }
}

/// The envelope position kept for the next block: held at 1440 once the
/// envelope's end (less 32 entries) is reached.
pub open spec fn envelope_hold(e: u16) -> u16 {
    if e >> 1u16 >= 720 { 1440 } else { e }
}

/// A string at rest under a still bow (an envelope of zeros) stays at rest
/// and silent, whatever the friction curve and the delays: for as long as
/// the envelope lasts, every step leaves both lines empty, every filter at
/// zero, and outputs two zero samples.
pub proof fn lemma_still_bow_is_silent(g: BowSetup, pi: u32, envelope: Seq<u16>, friction: Seq<u16>, phase: u32, j: nat)
    requires
        forall|i: int| 0 <= i < envelope.len() ==> #[trigger] envelope[i] == 0,
        envelope.len() == 752,
        j <= 1440,
    ensures
        ({
            let s = bowed_run(bow_rest(phase), g, pi, envelope, friction, j);
            let st = bowed_step(s, g, pi, envelope, friction);
            &&& s.bridge == bow_rest(phase).bridge
            &&& s.neck == bow_rest(phase).neck
            &&& s.excitation_ptr == j
            &&& s.lp == 0 && s.y0 == 0 && s.y1 == 0 && s.previous == 0
            &&& st.1 == 0 && st.2 == 0
        }),
    decreases j,
{
    let r = bow_rest(phase);
    if j > 0 {
        lemma_still_bow_is_silent(g, pi, envelope, friction, phase, (j - 1) as nat);
    }
    let s = bowed_run(r, g, pi, envelope, friction, j);
    if j > 0 {
        let p = bowed_run(r, g, pi, envelope, friction, (j - 1) as nat);
        lemma_still_step(p, g, pi, envelope, friction);
    }
    lemma_still_step(s, g, pi, envelope, friction);
}

/// Mixing two silent samples gives silence.
proof fn lemma_mix_of_silence(f: u16)
    ensures
        mix_i16_spec(0i16, 0i16, f) == 0,
{
    lemma_i32_shr(0);
    assert((0i16 as i32) * (65535 - f as i32) + (0i16 as i32) * (f as i32) == 0);
}

/// One step of a string at rest under a still bow keeps it at rest.
proof fn lemma_still_step(s: BowState, g: BowSetup, pi: u32, envelope: Seq<u16>, friction: Seq<u16>)
    requires
        forall|i: int| 0 <= i < envelope.len() ==> #[trigger] envelope[i] == 0,
        envelope.len() == 752,
        s.excitation_ptr <= 1440,
        s.bridge == Seq::new(1024, |i: int| 0i8),
        s.neck == Seq::new(4096, |i: int| 0i8),
        s.lp == 0 && s.y0 == 0 && s.y1 == 0 && s.previous == 0,
    ensures
        ({
            let st = bowed_step(s, g, pi, envelope, friction);
            &&& st.0.bridge == s.bridge
            &&& st.0.neck == s.neck
            &&& st.0.excitation_ptr == s.excitation_ptr + 1
            &&& st.0.lp == 0 && st.0.y0 == 0 && st.0.y1 == 0 && st.0.previous == 0
            &&& st.1 == 0 && st.2 == 0
        }),
{
    lemma_i32_shr(0);
    crate::bits::lemma_u16_shr(s.excitation_ptr);
    crate::bits::lemma_u16_shr((s.excitation_ptr + 1) as u16);
    let bv = line_read(s.bridge, 1024, s.delay_ptr, g.bridge_integral, g.bridge_fraction);
    let nv = line_read(s.neck, 4096, s.delay_ptr, g.neck_integral, g.neck_fraction);
    lemma_mix_of_silence(g.bridge_fraction);
    lemma_mix_of_silence(g.neck_fraction);
    let pb = s.delay_ptr.wrapping_add(2048u16).wrapping_sub(g.bridge_integral);
    let pn = s.delay_ptr.wrapping_add(8192u16).wrapping_sub(g.neck_integral);
    assert(s.bridge[pb as int % 1024] == 0i8 && s.bridge[pb.wrapping_sub(1) as int % 1024] == 0i8);
    assert(s.neck[pn as int % 4096] == 0i8 && s.neck[pn.wrapping_sub(1) as int % 4096] == 0i8);
    assert(line_mix(s.bridge, 1024, s.delay_ptr, g.bridge_integral, g.bridge_fraction) == 0);
    assert(line_mix(s.neck, 4096, s.delay_ptr, g.neck_integral, g.neck_fraction) == 0);
    assert(bv == 0 && nv == 0);
    assert((0i32).wrapping_mul(14008) == 0);
    assert((0i32).wrapping_mul(18022) == 0);
    assert(bow_velocity(envelope, s.excitation_ptr) == 0);
    let f = bow_friction(friction, 0, g.gain) as i32;
    assert(f.wrapping_mul(0i32) == 0);
    let st = bowed_step(s, g, pi, envelope, friction);
    assert(st.0.bridge =~= s.bridge);
    assert(st.0.neck =~= s.neck);
}

/// The waveguide of the bowed string and its filters.
pub struct BowedString {
    bridge: [i8; 1024],
    neck: [i8; 4096],
    delay_ptr: u16,
    excitation_ptr: u16,
    lp_state: i32,
    y0: i32,
    y1: i32,
    previous_sample: i16,
}

impl BowedString {
    /// The string's state with the pitch phase `phase`.
    pub closed spec fn state(self, phase: u32) -> BowState {
        BowState {
            bridge: self.bridge@,
            neck: self.neck@,
            delay_ptr: self.delay_ptr,
            excitation_ptr: self.excitation_ptr,
            lp: self.lp_state,
            y0: self.y0,
            y1: self.y1,
            previous: self.previous_sample as i32,
            phase,
        }
    }

    /// The string's state is within the ranges its steps keep.
    pub closed spec fn ok(self) -> bool {
        bow_ok(self.state(0))
    }

    /// A string at rest.
    pub fn new() -> (r: Self)
        ensures
            r.ok(),
            r.state(0) == bow_rest(0),
    {
        let r = BowedString {
            bridge: [0i8; 1024],
            neck: [0i8; 4096],
            delay_ptr: 0,
            excitation_ptr: 0,
            lp_state: 0,
            y0: 0,
            y1: 0,
            previous_sample: 0,
        };
        proof {
            assert(r.bridge@ =~= Seq::new(1024, |i: int| 0i8));
            assert(r.neck@ =~= Seq::new(4096, |i: int| 0i8));
        }
        r
    }

    /// Puts the string at rest.
    fn rest(&mut self)
        ensures
            final(self).ok(),
            forall|p: u32| #[trigger] final(self).state(p) == bow_rest(p),
    {
        *self = BowedString::new();
        proof {
            assert forall|p: u32| #[trigger] self.state(p) == bow_rest(p) by {
                assert(self.state(p).bridge =~= bow_rest(p).bridge);
                assert(self.state(p).neck =~= bow_rest(p).neck);
            }
        }
    }

    /// Renders `size` samples (in pairs) into `buffer`. `delay` is the
    /// oscillator's delay for its pitch (16.16 samples), `phase` and `pi`
    /// its pitch phase and increment; `strike` puts the string at rest
    /// first. Returns the pitch phase at the end.
    pub fn render(&mut self, strike: bool, phase: u32, pi: u32, delay: u32, p0: i16, p1: i16,
        envelope: &[u16; 752], friction: &[u16; 257], buffer: &mut [i16], size: usize) -> (r: u32)
        requires
            old(self).ok(),
            size % 2 == 0,
            size <= 24,
            size <= old(buffer)@.len(),
        ensures
            ({
                let s0 = if strike { bow_rest(phase) } else { old(self).state(phase) };
                let g = bow_setup(delay, p0, p1);
                let e = bowed_run(s0, g, pi, envelope@, friction@, (size / 2) as nat);
                &&& forall|k: int| 0 <= k < size ==> #[trigger] final(buffer)@[k] == ({
                    let st = bowed_step(bowed_run(s0, g, pi, envelope@, friction@, (k / 2) as nat), g, pi, envelope@, friction@);
                    if k % 2 == 0 { st.1 } else { st.2 }
                })
                &&& r == e.phase
                &&& final(self).state(r) == (BowState {
                    delay_ptr: (e.delay_ptr as int % 4096) as u16,
                    excitation_ptr: envelope_hold(e.excitation_ptr),
                    ..e
                })
            }),
            final(self).ok(),
            final(buffer)@.len() == old(buffer)@.len(),
            forall|k: int| size <= k < old(buffer)@.len() ==> #[trigger] final(buffer)@[k] == old(buffer)@[k],
    {
        if strike {
            self.rest();
        }
        let ghost s0 = self.state(phase);
        proof {
            lemma_i16_shr(p0);
            lemma_i16_shr(p1);
        }
        let gain: i32 = (172 - (p0 >> 8)) as i32;
        let mut d: u32 = (delay >> 1).wrapping_sub(131072);
        let mut b: u32 = (d >> 8).wrapping_mul((6 + (p1 >> 9)) as u32);
        let ghost fit = bow_fit(d, b);
        proof {
            assert(fit == bow_delays(delay, p1));
        }
        while d.wrapping_sub(b) > 268369920 || b > 67043328
            invariant
                bow_fit(d, b) == fit,
            decreases d as int + b as int,
        {
            proof {
                lemma_u32_shr(d);
                lemma_u32_shr(b);
            }
            d = d >> 1;
            b = b >> 1;
        }
        let n: u32 = d.wrapping_sub(b);
        proof {
            lemma_u32_shr(b);
            lemma_u32_shr(n);
        }
        let g = BowSetup {
            bridge_integral: (b >> 16) as u16,
            bridge_fraction: (b & 0xffff) as u16,
            neck_integral: (n >> 16) as u16,
            neck_fraction: (n & 0xffff) as u16,
            gain,
        };
        proof {
            assert(g == bow_setup(delay, p0, p1));
        }
        let mut ph = phase;
        let mut j: usize = 0;
        while j < size / 2
            invariant
                j <= size / 2,
                size % 2 == 0,
                size <= 24,
                size <= buffer@.len(),
                buffer@.len() == old(buffer)@.len(),
                g == bow_setup(delay, p0, p1),
                g.bridge_integral <= 1023,
                g.neck_integral <= 4095,
                45 <= g.gain <= 300,
                self.state(ph) == bowed_run(s0, g, pi, envelope@, friction@, j as nat),
                self.excitation_ptr <= 1440 + j,
                -32768 <= self.lp_state <= 32768,
                -2097152 <= self.y0 <= 2097152,
                -2097152 <= self.y1 <= 2097152,
                -32767 <= self.previous_sample <= 32767,
                forall|k: int| 0 <= k < 2 * j ==> #[trigger] buffer@[k] == ({
                    let st = bowed_step(bowed_run(s0, g, pi, envelope@, friction@, (k / 2) as nat), g, pi, envelope@, friction@);
                    if k % 2 == 0 { st.1 } else { st.2 }
                }),
                forall|k: int| size <= k < buffer@.len() ==> #[trigger] buffer@[k] == old(buffer)@[k],
            decreases size / 2 - j,
        {
            let (first, second) = self.step(&g, pi, envelope, friction, Ghost(ph));
            ph = ph.wrapping_add(pi);
            buffer[2 * j] = first;
            buffer[2 * j + 1] = second;
            proof {
                assert((2 * j) / 2 == j);
                assert((2 * j + 1) / 2 == j);
                assert((2 * j) % 2 == 0);
                assert((2 * j + 1) % 2 == 1);
            }
            j += 1;
        }
        let e = self.excitation_ptr;
        proof {
            crate::bits::lemma_u16_shr(e);
        }
        if e >> 1 >= 720 {
            self.excitation_ptr = 1440;
        }
        self.delay_ptr = ((self.delay_ptr as usize) % 4096) as u16;
        ph
    }

    /// One step of the string (see `bowed_step`); returns the two samples.
    fn step(&mut self, g: &BowSetup, pi: u32, envelope: &[u16; 752], friction: &[u16; 257], Ghost(ph): Ghost<u32>) -> (r: (i16, i16))
        requires
            old(self).excitation_ptr <= 1500,
            -32768 <= old(self).lp_state <= 32768,
            -2097152 <= old(self).y0 <= 2097152,
            -2097152 <= old(self).y1 <= 2097152,
            g.bridge_integral <= 1023,
            g.neck_integral <= 4095,
            45 <= g.gain <= 300,
        ensures
            ({
                let st = bowed_step(old(self).state(ph), *g, pi, envelope@, friction@);
                &&& final(self).state(ph.wrapping_add(pi)) == st.0
                &&& r.0 == st.1
                &&& r.1 == st.2
            }),
            final(self).excitation_ptr == old(self).excitation_ptr + 1,
            -32768 <= final(self).lp_state <= 32768,
            -2097152 <= final(self).y0 <= 2097152,
            -2097152 <= final(self).y1 <= 2097152,
    {
        let ghost s = self.state(ph);
        let bridge_value = line_read_exec(&self.bridge, 1024, self.delay_ptr, g.bridge_integral, g.bridge_fraction);
        let nut_value = line_read_exec(&self.neck, 4096, self.delay_ptr, g.neck_integral, g.neck_fraction);
        let lp = loss_filter(bridge_value, self.lp_state);
        let bridge_reflection: i32 = -lp;
        let nut_reflection: i32 = -nut_value;
        let (velocity_delta, force) = bow_force(envelope, friction, self.excitation_ptr, bridge_reflection + nut_reflection, g.gain);
        proof {
            lemma_i32_shr((bridge_reflection + force) as i32);
            lemma_i32_shr((nut_reflection + force) as i32);
        }
        let i4096 = (self.delay_ptr as usize) % 4096;
        let i1024 = (self.delay_ptr as usize) % 1024;
        self.neck[i4096] = ((bridge_reflection + force) >> 8) as i8;
        self.bridge[i1024] = ((nut_reflection + force) >> 8) as i8;
        self.delay_ptr = self.delay_ptr.wrapping_add(1);
        self.excitation_ptr = self.excitation_ptr + 1;
        let (temp, out) = body_filter(bridge_value, self.y0, self.y1);
        let previous = self.previous_sample as i32;
        proof {
            lemma_i32_shr((out + previous) as i32);
        }
        self.y1 = self.y0;
        self.y0 = temp;
        self.lp_state = lp;
        self.previous_sample = out as i16;
        proof {
            let st = bowed_step(s, *g, pi, envelope@, friction@);
            assert(self.bridge@ =~= st.0.bridge);
            assert(self.neck@ =~= st.0.neck);
        }
        (((out + previous) >> 1) as i16, out as i16)
    }
}


/// Reads a delay line (see `line_read`).
fn line_read_exec(line: &[i8], len: usize, ptr: u16, integral: u16, fraction: u16) -> (r: i32)
    requires
        line@.len() == len,
        len == 1024 || len == 4096,
    ensures
        r == line_read(line@, len as int, ptr, integral, fraction),
        -32768 <= r <= 32512,
{
    let m = line_mix_exec(line, len, ptr, integral, fraction);
    proof {
        lemma_i32_shl(m as i32);
    }
    (m as i32) << 8
}

/// The bridge's one-pole loss filter: `(x * 14008 + lp * 18022) >> 15`.
#[verifier::rlimit(30)]
fn loss_filter(x: i32, lp: i32) -> (r: i32)
    requires
        -32768 <= x <= 32768,
        -32768 <= lp <= 32768,
    ensures
        r == (((x.wrapping_mul(14008) as int + lp.wrapping_mul(18022) as int) as i32) >> 15i32),
        -32768 <= r <= 32768,
{
    proof {
        assert(-32768 * 14008 <= x * 14008 <= 32768 * 14008) by (nonlinear_arith)
            requires
                -32768 <= x <= 32768,
        ;
        assert(-32768 * 18022 <= lp * 18022 <= 32768 * 18022) by (nonlinear_arith)
            requires
                -32768 <= lp <= 32768,
        ;
        lemma_i32_shr((x * 14008 + lp * 18022) as i32);
    }
    (x.wrapping_mul(14008) + lp.wrapping_mul(18022)) >> 15
}

/// The velocity difference between bow and string at envelope position
/// `e`, and the friction's force for it.
fn bow_force(envelope: &[u16; 752], friction: &[u16; 257], e: u16, string_velocity: i32, gain: i32) -> (r: (i32, i32))
    requires
        e <= 1500,
        -65536 <= string_velocity <= 65536,
        45 <= gain <= 300,
    ensures
        r.0 == bow_velocity(envelope@, e) - string_velocity,
        r.1 == (((bow_friction(friction@, r.0 as int, gain) as i32).wrapping_mul(r.0)) >> 15i32),
        -65536 <= r.1 <= 65535,
{
    proof {
        crate::bits::lemma_u16_shr(e);
        crate::bits::lemma_u16_shr((e + 1) as u16);
    }
    let v0 = envelope[(e >> 1) as usize] as i32;
    let v1 = envelope[((e + 1) >> 1) as usize] as i32;
    proof {
        lemma_i32_shr((v0 + v1) as i32);
    }
    let bow: i32 = (v0 + v1) >> 1;
    let velocity_delta: i32 = bow - string_velocity;
    proof {
        assert(-65536 * 300 <= velocity_delta * gain <= 131072 * 300) by (nonlinear_arith)
            requires
                -65536 <= velocity_delta <= 131072,
                45 <= gain <= 300,
        ;
        lemma_i32_shr((velocity_delta * gain) as i32);
    }
    let mut f: i32 = velocity_delta.wrapping_mul(gain) >> 5;
    if f < 0 {
        f = -f;
    }
    if f >= 131072 {
        f = 131071;
    }
    proof {
        lemma_i32_shr(f);
    }
    let fr = friction[(f >> 9) as usize] as i32;
    let product: i32 = fr.wrapping_mul(velocity_delta);
    proof {
        lemma_i32_shr(product);
    }
    (velocity_delta, product >> 15)
}

/// The body filter fed `x` with its two last outputs: the new output
/// (unclipped) and the sample (the new output less the oldest, clipped).
fn body_filter(x: i32, y0: i32, y1: i32) -> (r: (i32, i32))
    requires
        -32768 <= x <= 32768,
        -2097152 <= y1 <= 2097152,
    ensures
        r.0 == (((x.wrapping_mul(6553)) >> 15i32) as int) + ((y0.wrapping_mul(6948) >> 12i32) as int)
            + ((y1.wrapping_mul(-2959i32) >> 12i32) as int),
        r.1 == clip16_sym_spec((r.0 - y1) as i32),
        -2097152 <= r.0 <= 2097152,
        -32767 <= r.1 <= 32767,
{
    let t0 = x.wrapping_mul(6553);
    let t1 = y0.wrapping_mul(6948);
    let t2 = y1.wrapping_mul(-2959);
    proof {
        assert(-32768 * 6553 <= x * 6553 <= 32768 * 6553) by (nonlinear_arith)
            requires
                -32768 <= x <= 32768,
        ;
        lemma_i32_shr(t0);
        lemma_i32_shr(t1);
        lemma_i32_shr(t2);
    }
    let temp: i32 = (t0 >> 15) + (t1 >> 12) + (t2 >> 12);
    (temp, clip16_sym(temp - y1))
}

} // verus!
