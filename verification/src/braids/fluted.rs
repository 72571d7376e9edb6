//! The flute: a bore and a jet, each a delay line. Breath (an envelope plus
//! noise, whose amount the first parameter sets) less half the bore's
//! reflection enters the jet; the jet's output, through a nonlinear curve,
//! plus half the reflection, enters the bore. The reflection is the bore's
//! output through a one-pole body filter and a DC blocker. The second
//! parameter sets the jet's share of the delay.
//!
//! The breath envelope (392 entries), the jet curve (256 entries) and the
//! body filter's coefficients by pitch (128 entries, each at most 4096)
//! are handed to `render`: the model is stated for any such tables.
use vstd::prelude::*;
use crate::bits::{lemma_i16_shr, lemma_i32_shl, lemma_i32_shr, lemma_u16_shr, lemma_u32_shr};
use crate::fixed::{clip16_sym, clip16_sym_spec};
use super::random::{lcg_next, Random};
use super::waveguide::{line_mix, line_mix_exec};

verus! {

/// Length of the bore's delay line.
pub const BORE_LENGTH: usize = 4096;
/// Length of the jet's delay line.
pub const JET_LENGTH: usize = 1024;
/// Entries of the breath envelope.
pub const BLOWING_ENVELOPE_SIZE: usize = 392;

/// The bore's and the jet's delays, both halved until each fits its line.
pub open spec fn flute_fit(bore: u32, jet: u32) -> (u32, u32)
    decreases bore as int + jet as int,
{
    if bore > 268369920u32 || jet > 67043328u32 {
        proof {
            lemma_u32_shr(bore);
            lemma_u32_shr(jet);
        }
        flute_fit(bore >> 1u32, jet >> 1u32)
    } else {
        (bore, jet)
    }
}

/// The delays (16.16 samples) from the oscillator's delay: twice it less two
/// samples in all, of which the jet takes `48 + p1 / 1024` 256ths (the
/// parameter read as unsigned).
pub open spec fn flute_delays(delay: u32, p1: i16) -> (u32, u32) {
    let total = (delay << 1u32).wrapping_sub(131072);
    let jet = (total >> 8u32).wrapping_mul((48 + ((p1 as u32) >> 10u32)) as u32);
    flute_fit(total.wrapping_sub(jet), jet)
}

/// The block's fixed settings: each line's delay (whole samples and a
/// 16-bit fraction), the breath noise's intensity and the body filter's
/// coefficient.
pub struct FluteSetup {
    pub bore_integral: u16,
    pub bore_fraction: u16,
    pub jet_integral: u32,
    pub jet_fraction: u16,
    pub intensity: u16,
    pub coefficient: i32,
}

/// The body filter's coefficient for the 7.7 pitch: the entry of its
/// semitone, the last one for negative pitches and those above.
pub open spec fn flute_coefficient(body: Seq<u16>, pitch: i16) -> i32 {
    let p = (pitch >> 7i16) as int;
    body[if p < 0 || p > 127 { 127 } else { p }] as i32
}

/// The block's settings from the oscillator's delay, pitch and parameters.
pub open spec fn flute_setup(delay: u32, pitch: i16, p0: i16, p1: i16, body: Seq<u16>) -> FluteSetup {
    let (bore, jet) = flute_delays(delay, p1);
    FluteSetup {
        bore_integral: (bore >> 16u32) as u16,
        bore_fraction: (bore & 0xffffu32) as u16,
        jet_integral: jet >> 16u32,
        jet_fraction: (jet & 0xffffu32) as u16,
        intensity: 2100u16.wrapping_sub((p0 as u16) >> 4u16),
        coefficient: flute_coefficient(body, pitch),
    }
}

/// The flute's state: both lines, the write position, the position in the
/// breath envelope, the body filter, the DC blocker's last input and
/// output, the pitch phase and the random generator's state.
pub struct FluteState {
    pub bore: Seq<i8>,
    pub jet: Seq<i8>,
    pub delay_ptr: u16,
    pub excitation_ptr: u16,
    pub lp: i32,
    pub x0: i32,
    pub y0: i32,
    pub phase: u32,
    pub rng: u32,
}

/// One sample of the flute: both lines are read at their delays (to the
/// top of 17 bits); the breath is the envelope's entry, doubled, plus noise
/// scaled by the intensity and by the breath; the bore's output, through
/// the body filter and the DC blocker, is the reflection; the breath less
/// half the reflection enters the jet, the jet curve at the jet's output
/// plus half the reflection enters the bore (each as its top 8 bits); the
/// sample is half the bore's output, clipped. The envelope advances when
/// `advance` holds.
pub open spec fn flute_step(s: FluteState, g: FluteSetup, pi: u32, envelope: Seq<u16>, jet_curve: Seq<i16>, advance: bool) -> (FluteState, i16) {
    let bore_value = line_mix(s.bore, 4096, s.delay_ptr, g.bore_integral, g.bore_fraction) as int * 512;
    let jet_value = line_mix(s.jet, 1024, s.delay_ptr, g.jet_integral as u16, g.jet_fraction) as int * 512;
    let breath = envelope[s.excitation_ptr as int] as int * 2;
    let rng = lcg_next(s.rng);
    let noise = (((((rng >> 16u32) as i16) as i32).wrapping_mul(g.intensity as i32) >> 12i32).wrapping_mul(breath as i32)) >> 15i32;
    let pressure = breath + noise as int;
    let lp = ((((-g.coefficient) as i32).wrapping_mul(bore_value as i32) as int
        + ((4096 - g.coefficient) as i32).wrapping_mul(s.lp) as int) as i32) >> 12i32;
    let y0 = ((4055i32.wrapping_mul(s.y0) >> 12i32) as int + (lp as int - s.x0 as int)) as i32;
    let into_jet = pressure - (y0 >> 1i32) as int;
    let clamped: int = if jet_value < 0 { 0 } else if jet_value > 65535 { 65535 } else { jet_value };
    let into_bore = jet_curve[clamped / 256] as int + (y0 >> 1i32) as int;
    (
        FluteState {
            bore: s.bore.update(s.delay_ptr as int % 4096, ((into_bore as i32) >> 9i32) as i8),
            jet: s.jet.update(s.delay_ptr as int % 1024, ((into_jet as i32) >> 9i32) as i8),
            delay_ptr: s.delay_ptr.wrapping_add(1),
            excitation_ptr: if advance { s.excitation_ptr.wrapping_add(1) } else { s.excitation_ptr },
            lp,
            x0: lp,
            y0,
            phase: s.phase.wrapping_add(pi),
            rng,
        },
        clip16_sym_spec(((bore_value as i32) >> 1i32)) as i16,
    )
}

/// Whether sample `k` of a block of `size` advances the envelope: all but
/// every fourth, counted from the block's end.
pub open spec fn flute_advances(size: int, k: int) -> bool {
    (size - 1 - k) % 4 != 0
}

/// `k` samples of a block of `size` samples of the flute.
pub open spec fn flute_run(s: FluteState, g: FluteSetup, pi: u32, envelope: Seq<u16>, jet_curve: Seq<i16>, size: int, k: nat) -> FluteState
    decreases k,
{
    if k == 0 {
        s
    } else {
        flute_step(flute_run(s, g, pi, envelope, jet_curve, size, (k - 1) as nat), g, pi, envelope, jet_curve,
            flute_advances(size, k - 1)).0
    }
}

/// The envelope position kept for the next block: held at 360 once the
/// envelope's end (less 32 entries) is reached.
pub open spec fn breath_hold(e: u16) -> u16 {
    if e >= 360 { 360 } else { e }
}

/// The flute's state within the ranges its steps keep.
pub open spec fn flute_ok(s: FluteState) -> bool {
    &&& s.bore.len() == 4096
    &&& s.jet.len() == 1024
    &&& s.excitation_ptr <= 360
    &&& -65536 <= s.lp <= 65536
    &&& -65536 <= s.x0 <= 65536
    &&& -655360 <= s.y0 <= 655360
}

/// The two low bits of an index are its remainder by four.
proof fn lemma_low_bits(x: usize)
    by (bit_vector)
    ensures
        x & 3 == x % 4,
{
}

/// The flute after a strike: both lines empty, the envelope and the body
/// filter restarted.
pub open spec fn flute_struck(s: FluteState) -> FluteState {
    FluteState {
        bore: Seq::new(4096, |i: int| 0i8),
        jet: Seq::new(1024, |i: int| 0i8),
        excitation_ptr: 0,
        lp: 0,
        ..s
    }
}

/// The breath: the envelope's entry doubled plus noise scaled by the
/// intensity and by that breath.
fn breath_exec(envelope: &[u16; 392], e: u16, rng: &mut Random, intensity: u16) -> (r: i32)
    requires
        e < 392,
    ensures
        final(rng).state() == lcg_next(old(rng).state()),
        r == envelope@[e as int] as int * 2 + ((((((final(rng).state() >> 16u32) as i16) as i32).wrapping_mul(intensity as i32)
            >> 12i32).wrapping_mul((envelope@[e as int] as int * 2) as i32)) >> 15i32) as int,
        -65536 <= r <= 196606,
{
    let breath: i32 = (envelope[e as usize] as i32) << 1;
    proof {
        lemma_i32_shl(envelope@[e as int] as i32);
    }
    let sample = rng.get_sample();
    let scaled = (sample as i32).wrapping_mul(intensity as i32);
    proof {
        lemma_i32_shr(scaled);
    }
    let noise = (scaled >> 12).wrapping_mul(breath);
    proof {
        lemma_i32_shr(noise);
    }
    breath + (noise >> 15)
}

/// The body filter: `(-c * x + (4096 - c) * lp) >> 12`.
#[verifier::rlimit(30)]
fn body_exec(c: i32, x: i32, lp: i32) -> (r: i32)
    requires
        0 <= c <= 4096,
        -65536 <= x <= 65536,
        -65536 <= lp <= 65536,
    ensures
        r == ((((-c) as i32).wrapping_mul(x) as int + ((4096 - c) as i32).wrapping_mul(lp) as int) as i32) >> 12i32,
        -65536 <= r <= 65536,
{
    proof {
        assert(-c * 65536 <= (-c) * x <= c * 65536) by (nonlinear_arith)
            requires
                0 <= c <= 4096,
                -65536 <= x <= 65536,
        ;
        assert(-(4096 - c) * 65536 <= (4096 - c) * lp <= (4096 - c) * 65536) by (nonlinear_arith)
            requires
                0 <= c <= 4096,
                -65536 <= lp <= 65536,
        ;
        lemma_i32_shr(((-c) * x + (4096 - c) * lp) as i32);
    }
    ((-c).wrapping_mul(x) + (4096 - c).wrapping_mul(lp)) >> 12
}

/// The flute's delay lines and filters.
pub struct Flute {
    bore: [i8; 4096],
    jet: [i8; 1024],
    delay_ptr: u16,
    excitation_ptr: u16,
    lp_state: i32,
    dc_x0: i32,
    dc_y0: i32,
}

impl Flute {
    /// The flute's state with the pitch phase and the generator's state.
    pub closed spec fn state(self, phase: u32, rng: u32) -> FluteState {
        FluteState {
            bore: self.bore@,
            jet: self.jet@,
            delay_ptr: self.delay_ptr,
            excitation_ptr: self.excitation_ptr,
            lp: self.lp_state,
            x0: self.dc_x0,
            y0: self.dc_y0,
            phase,
            rng,
        }
    }

    /// The flute's state is within the ranges its steps keep.
    pub closed spec fn ok(self) -> bool {
        flute_ok(self.state(0, 0))
    }

    /// A silent flute: empty lines, every position and filter at zero.
    pub fn new() -> (r: Self)
        ensures
            r.ok(),
            r.state(0, 0) == flute_struck(FluteState {
                bore: Seq::empty(), jet: Seq::empty(), delay_ptr: 0, excitation_ptr: 0, lp: 0, x0: 0, y0: 0, phase: 0, rng: 0,
            }),
    {
        let r = Flute { bore: [0i8; 4096], jet: [0i8; 1024], delay_ptr: 0, excitation_ptr: 0, lp_state: 0, dc_x0: 0, dc_y0: 0 };
        proof {
            assert(r.bore@ =~= Seq::new(4096, |i: int| 0i8));
            assert(r.jet@ =~= Seq::new(1024, |i: int| 0i8));
        }
        r
    }

    /// Renders `size` samples into `buffer`. `delay` is the oscillator's
    /// delay for its pitch (16.16 samples), `phase` and `pi` its pitch phase
    /// and increment, `pitch` its 7.7 pitch; `strike` restarts the breath
    /// on empty lines. Returns the pitch phase at the end.
    pub fn render(&mut self, rng: &mut Random, strike: bool, phase: u32, pi: u32, delay: u32, pitch: i16, p0: i16, p1: i16,
        envelope: &[u16; 392], jet_curve: &[i16; 256], body: &[u16; 128], buffer: &mut [i16], size: usize) -> (r: u32)
        requires
            old(self).ok(),
            size <= 24,
            size <= old(buffer)@.len(),
            forall|i: int| 0 <= i < 128 ==> #[trigger] body@[i] <= 4096,
        ensures
            ({
                let s1 = old(self).state(phase, old(rng).state());
                let s0 = if strike { flute_struck(s1) } else { s1 };
                let g = flute_setup(delay, pitch, p0, p1, body@);
                let e = flute_run(s0, g, pi, envelope@, jet_curve@, size as int, size as nat);
                &&& forall|k: int| 0 <= k < size ==> #[trigger] final(buffer)@[k]
                    == flute_step(flute_run(s0, g, pi, envelope@, jet_curve@, size as int, k as nat), g, pi, envelope@, jet_curve@,
                        flute_advances(size as int, k)).1
                &&& r == e.phase
                &&& final(rng).state() == e.rng
                &&& final(self).state(r, e.rng) == (FluteState { excitation_ptr: breath_hold(e.excitation_ptr), ..e })
            }),
            final(self).ok(),
            final(buffer)@.len() == old(buffer)@.len(),
            forall|k: int| size <= k < old(buffer)@.len() ==> #[trigger] final(buffer)@[k] == old(buffer)@[k],
    {
        if strike {
            self.excitation_ptr = 0;
            self.bore = [0i8; 4096];
            self.jet = [0i8; 1024];
            self.lp_state = 0;
            proof {
                assert(self.bore@ =~= Seq::new(4096, |i: int| 0i8));
                assert(self.jet@ =~= Seq::new(1024, |i: int| 0i8));
            }
        }
        let ghost s0 = self.state(phase, rng.state());
        let mut bore_delay: u32 = (delay << 1).wrapping_sub(131072);
        proof {
            lemma_u32_shr(p1 as u32);
        }
        let mut jet_delay: u32 = (bore_delay >> 8).wrapping_mul(48 + ((p1 as u32) >> 10));
        bore_delay = bore_delay.wrapping_sub(jet_delay);
        let ghost fit = flute_fit(bore_delay, jet_delay);
        proof {
            assert(fit == flute_delays(delay, p1));
        }
        while bore_delay > 268369920 || jet_delay > 67043328
            invariant
                flute_fit(bore_delay, jet_delay) == fit,
            decreases bore_delay as int + jet_delay as int,
        {
            proof {
                lemma_u32_shr(bore_delay);
                lemma_u32_shr(jet_delay);
            }
            bore_delay = bore_delay >> 1;
            jet_delay = jet_delay >> 1;
        }
        proof {
            lemma_u32_shr(bore_delay);
            lemma_u32_shr(jet_delay);
            lemma_u16_shr(p0 as u16);
            lemma_i16_shr(pitch);
        }
        let pitch_index = pitch >> 7;
        let index: usize = if pitch_index < 0 || pitch_index > 127 { 127 } else { pitch_index as usize };
        let g = FluteSetup {
            bore_integral: (bore_delay >> 16) as u16,
            bore_fraction: (bore_delay & 0xffff) as u16,
            jet_integral: jet_delay >> 16,
            jet_fraction: (jet_delay & 0xffff) as u16,
            intensity: 2100u16.wrapping_sub((p0 as u16) >> 4),
            coefficient: body[index] as i32,
        };
        proof {
            let want = flute_setup(delay, pitch, p0, p1, body@);
            assert(fit == (bore_delay, jet_delay));
            assert(g == want);
        }
        let mut ph = phase;
        let mut k: usize = 0;
        while k < size
            invariant
                k <= size,
                size <= 24,
                size <= buffer@.len(),
                buffer@.len() == old(buffer)@.len(),
                g == flute_setup(delay, pitch, p0, p1, body@),
                g.bore_integral <= 4095,
                g.jet_integral <= 1023,
                0 <= g.coefficient <= 4096,
                self.state(ph, rng.state()) == flute_run(s0, g, pi, envelope@, jet_curve@, size as int, k as nat),
                self.excitation_ptr <= 360 + k,
                -65536 <= self.lp_state <= 65536,
                -65536 <= self.dc_x0 <= 65536,
                -655360 <= self.dc_y0 <= 655360,
                forall|j: int| 0 <= j < k ==> #[trigger] buffer@[j]
                    == flute_step(flute_run(s0, g, pi, envelope@, jet_curve@, size as int, j as nat), g, pi, envelope@, jet_curve@,
                        flute_advances(size as int, j)).1,
                forall|j: int| size <= j < buffer@.len() ==> #[trigger] buffer@[j] == old(buffer)@[j],
            decreases size - k,
        {
            proof {
                lemma_low_bits((size - 1 - k) as usize);
            }
            let advance = (size - 1 - k) & 3 != 0;
            let out = self.step(&g, pi, rng, envelope, jet_curve, advance, Ghost(ph));
            ph = ph.wrapping_add(pi);
            buffer[k] = out;
            k += 1;
        }
        if self.excitation_ptr >= 360 {
            self.excitation_ptr = 360;
        }
        ph
    }

    /// One sample of the flute (see `flute_step`).
    fn step(&mut self, g: &FluteSetup, pi: u32, rng: &mut Random, envelope: &[u16; 392], jet_curve: &[i16; 256],
        advance: bool, Ghost(ph): Ghost<u32>) -> (r: i16)
        requires
            old(self).excitation_ptr < 392,
            -65536 <= old(self).lp_state <= 65536,
            -65536 <= old(self).dc_x0 <= 65536,
            -655360 <= old(self).dc_y0 <= 655360,
            g.bore_integral <= 4095,
            g.jet_integral <= 1023,
            0 <= g.coefficient <= 4096,
        ensures
            ({
                let st = flute_step(old(self).state(ph, old(rng).state()), *g, pi, envelope@, jet_curve@, advance);
                &&& final(self).state(ph.wrapping_add(pi), final(rng).state()) == st.0
                &&& r == st.1
            }),
            final(self).excitation_ptr == if advance { old(self).excitation_ptr + 1 } else { old(self).excitation_ptr as int },
            -65536 <= final(self).lp_state <= 65536,
            -65536 <= final(self).dc_x0 <= 65536,
            -655360 <= final(self).dc_y0 <= 655360,
    {
        let ghost s = self.state(ph, rng.state());
        let bm = line_mix_exec(&self.bore, 4096, self.delay_ptr, g.bore_integral, g.bore_fraction);
        let jm = line_mix_exec(&self.jet, 1024, self.delay_ptr, g.jet_integral as u16, g.jet_fraction);
        proof {
            lemma_i32_shl(bm as i32);
            lemma_i32_shl(jm as i32);
        }
        let bore_value: i32 = (bm as i32) << 9;
        let jet_value: i32 = (jm as i32) << 9;
        let pressure = breath_exec(envelope, self.excitation_ptr, rng, g.intensity);
        let lp = body_exec(g.coefficient, bore_value, self.lp_state);
        let decayed = 4055i32.wrapping_mul(self.dc_y0);
        proof {
            lemma_i32_shr(decayed);
        }
        let y0: i32 = (decayed >> 12) + (lp - self.dc_x0);
        proof {
            lemma_i32_shr(y0);
            lemma_i32_shr((pressure - (y0 >> 1)) as i32);
        }
        let into_jet: i32 = pressure - (y0 >> 1);
        let clamped: i32 = if jet_value < 0 { 0 } else if jet_value > 65535 { 65535 } else { jet_value };
        proof {
            lemma_i32_shr(clamped);
        }
        let into_bore: i32 = jet_curve[(clamped >> 8) as usize] as i32 + (y0 >> 1);
        proof {
            lemma_i32_shr(into_bore);
            lemma_i32_shr(bore_value);
        }
        let i4096 = (self.delay_ptr as usize) % 4096;
        let i1024 = (self.delay_ptr as usize) % 1024;
        self.jet[i1024] = (into_jet >> 9) as i8;
        self.bore[i4096] = (into_bore >> 9) as i8;
        self.delay_ptr = self.delay_ptr.wrapping_add(1);
        if advance {
            self.excitation_ptr = self.excitation_ptr + 1;
        }
        self.lp_state = lp;
        self.dc_x0 = lp;
        self.dc_y0 = y0;
        proof {
            let st = flute_step(s, *g, pi, envelope@, jet_curve@, advance);
            assert(self.bore@ =~= st.0.bore);
            assert(self.jet@ =~= st.0.jet);
        }
        clip16_sym(bore_value >> 1) as i16
    }
}

} // verus!
