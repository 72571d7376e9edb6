//! The reed instrument: a bore (one delay line of 16-bit samples) closed by
//! a reed. Noisy breath (its noise set by the first parameter) meets the
//! bore's reflection at the reed, whose opening follows the pressure
//! difference; a one-pole body filter, tuned by the pitch and the second
//! parameter, shapes the output.
//!
//! The body filter's coefficients by pitch (128 entries, each at most 4096)
//! are handed to `render`: the model is stated for any such table.
use vstd::prelude::*;
use crate::bits::{lemma_i32_shr, lemma_u16_shr, lemma_u32_shr};
use crate::fixed::{clip16_sym, clip16_sym_spec, mix_i16, mix_i16_spec};
use super::random::{lcg_next, Random};

verus! {

/// Length of the bore's delay line.
pub const REED_BORE_LENGTH: usize = 2048;

/// The bore's delay, halved until it fits the line.
pub open spec fn reed_fit(delay: u32) -> u32
    decreases delay,
{
    if delay > 134152192u32 {
        proof {
            lemma_u32_shr(delay);
        }
        reed_fit(delay >> 1u32)
    } else {
        delay
    }
}

/// The block's fixed settings: the bore's delay (whole samples and a 16-bit
/// fraction), the breath noise's level and the body filter's coefficient.
pub struct ReedSetup {
    pub integral: u16,
    pub fraction: u16,
    pub noise: u16,
    pub coefficient: i32,
}

/// The body filter's entry for the pitch moved by half the second
/// parameter, in semitones from 64, clamped to the table.
pub open spec fn reed_coefficient(body: Seq<u16>, pitch: i16, p1: i16) -> i32 {
    let n = ((pitch as int - 8192 + ((p1 as i32) >> 1i32) as int) as i32) >> 7i32;
    body[if n < 0 { 0 } else if n > 127 { 127 } else { n as int }] as i32
}

/// The block's settings from the oscillator's delay (16.16 samples; half of
/// it less a sample is the bore's), pitch and parameters.
pub open spec fn reed_setup(delay: u32, pitch: i16, p0: i16, p1: i16, body: Seq<u16>) -> ReedSetup {
    let d = reed_fit((delay >> 1u32).wrapping_sub(65536));
    ReedSetup {
        integral: (d >> 16u32) as u16,
        fraction: (d & 0xffffu32) as u16,
        noise: 28000u16.wrapping_sub((p0 as u16) >> 1u16),
        coefficient: reed_coefficient(body, pitch, p1),
    }
}

/// The instrument's state: the bore, its write position, the bore's
/// averaging filter, the body filter, the pitch phase and the random
/// generator's state.
pub struct ReedState {
    pub bore: Seq<i16>,
    pub delay_ptr: u16,
    pub lp: i32,
    pub filter: i32,
    pub phase: u32,
    pub rng: u32,
}

/// The breath: 26214 plus noise scaled by the noise level and by 26214.
pub open spec fn reed_breath(rng: u32, noise: u16) -> int {
    (((((((rng >> 16u32) as i16) as i32).wrapping_mul(noise as i32)) >> 15i32).wrapping_mul(26214i32)) >> 15i32) as int + 26214
}

/// One sample of the reed instrument: the bore is read at its delay and
/// averaged with its previous half-reading; the reflection (times -0.95)
/// less the breath is the pressure difference; the reed's opening is
/// `22938 - 0.3 * difference`, clipped; the difference through the reed
/// plus the breath, clipped, enters the bore; the body filter smooths it
/// into the sample.
pub open spec fn reed_step(s: ReedState, g: ReedSetup, pi: u32) -> (ReedState, i16) {
    let rng = lcg_next(s.rng);
    let breath = reed_breath(rng, g.noise);
    let p = s.delay_ptr.wrapping_add(4096).wrapping_sub(g.integral);
    let dl = mix_i16_spec(s.bore[p as int % 2048], s.bore[p.wrapping_sub(1) as int % 2048], g.fraction) as i32;
    let half = (dl >> 1i32) as int;
    let delta = ((-3891i32).wrapping_mul((half + s.lp as int) as i32) >> 12i32) as int - breath;
    let reed = clip16_sym_spec((((delta as i32).wrapping_mul(-1229i32) >> 12i32) as int + 22938) as i32);
    let out = clip16_sym_spec(((((delta as i32).wrapping_mul(reed)) >> 15i32) as int + breath) as i32);
    let filter = (((g.coefficient as int * out as int + (4096 - g.coefficient) as int * s.filter as int) as i32) >> 12i32);
    (
        ReedState {
            bore: s.bore.update(s.delay_ptr as int % 2048, out as i16),
            delay_ptr: s.delay_ptr.wrapping_add(1),
            lp: half as i32,
            filter,
            phase: s.phase.wrapping_add(pi),
            rng,
        },
        filter as i16,
    )
}

/// `k` samples of the reed instrument.
pub open spec fn reed_run(s: ReedState, g: ReedSetup, pi: u32, k: nat) -> ReedState
    decreases k,
{
    if k == 0 {
        s
    } else {
        reed_step(reed_run(s, g, pi, (k - 1) as nat), g, pi).0
    }
}

/// The instrument after a strike: the bore emptied.
pub open spec fn reed_struck(s: ReedState) -> ReedState {
    ReedState { bore: Seq::new(2048, |i: int| 0i16), ..s }
}

/// The breath (see `reed_breath`).
fn breath_exec(rng: &mut Random, noise: u16) -> (r: i32)
    ensures
        final(rng).state() == lcg_next(old(rng).state()),
        r == reed_breath(final(rng).state(), noise),
        -39322 <= r <= 91750,
{
    let sample = rng.get_sample();
    let a = (sample as i32).wrapping_mul(noise as i32);
    proof {
        lemma_i32_shr(a);
    }
    let b = (a >> 15).wrapping_mul(26214);
    proof {
        lemma_i32_shr(b);
    }
    (b >> 15) + 26214
}

/// The reed's pressure difference, opening and output for a reading `dl`
/// of the bore and the breath.
#[verifier::rlimit(30)]
fn reed_exec(dl: i32, lp: i32, breath: i32) -> (r: (i32, i32))
    requires
        -32768 <= dl <= 32767,
        -16384 <= lp <= 16383,
        -39322 <= breath <= 91750,
    ensures
        ({
            let delta = ((-3891i32).wrapping_mul(((dl >> 1i32) as int + lp as int) as i32) >> 12i32) as int - breath;
            let reed = clip16_sym_spec((((delta as i32).wrapping_mul(-1229i32) >> 12i32) as int + 22938) as i32);
            &&& r.0 == (dl >> 1i32)
            &&& r.1 == clip16_sym_spec(((((delta as i32).wrapping_mul(reed)) >> 15i32) as int + breath) as i32)
        }),
        -16384 <= r.0 <= 16383,
        -32767 <= r.1 <= 32767,
{
    proof {
        lemma_i32_shr(dl);
    }
    let half: i32 = dl >> 1;
    let a = (-3891i32).wrapping_mul(half + lp);
    proof {
        lemma_i32_shr(a);
    }
    let delta: i32 = (a >> 12) - breath;
    let b = delta.wrapping_mul(-1229);
    proof {
        lemma_i32_shr(b);
    }
    let reed = clip16_sym((b >> 12) + 22938);
    let c = delta.wrapping_mul(reed);
    proof {
        lemma_i32_shr(c);
    }
    (half, clip16_sym((c >> 15) + breath))
}

/// The body filter: `(c * x + (4096 - c) * y) >> 12`.
#[verifier::rlimit(30)]
fn reed_body_exec(c: i32, x: i32, y: i32) -> (r: i32)
    requires
        0 <= c <= 4096,
        -32767 <= x <= 32767,
        -32768 <= y <= 32767,
    ensures
        r == (((c as int * x as int + (4096 - c) as int * y as int) as i32) >> 12i32),
        -32768 <= r <= 32767,
{
    proof {
        assert(-c * 32767 <= c * x <= c * 32767) by (nonlinear_arith)
            requires
                0 <= c <= 4096,
                -32767 <= x <= 32767,
        ;
        assert(-(4096 - c) * 32768 <= (4096 - c) * y <= (4096 - c) * 32767) by (nonlinear_arith)
            requires
                0 <= c <= 4096,
                -32768 <= y <= 32767,
        ;
        lemma_i32_shr((c * x + (4096 - c) * y) as i32);
    }
    (c * x + (4096 - c) * y) >> 12
}

/// The reed instrument's bore and filters.
pub struct Reed {
    bore: [i16; 2048],
    delay_ptr: u16,
    lp_state: i32,
    filter_state: i32,
}

impl Reed {
    /// The instrument's state with the pitch phase and the generator's
    /// state.
    pub closed spec fn state(self, phase: u32, rng: u32) -> ReedState {
        ReedState { bore: self.bore@, delay_ptr: self.delay_ptr, lp: self.lp_state, filter: self.filter_state, phase, rng }
    }

    /// The filters within the ranges their steps keep.
    pub closed spec fn ok(self) -> bool {
        &&& -16384 <= self.lp_state <= 16383
        &&& -32768 <= self.filter_state <= 32767
    }

    /// A silent instrument: an empty bore, every position and filter at
    /// zero.
    pub fn new() -> (r: Self)
        ensures
            r.ok(),
            r.state(0, 0) == reed_struck(ReedState { bore: Seq::empty(), delay_ptr: 0, lp: 0, filter: 0, phase: 0, rng: 0 }),
    {
        let r = Reed { bore: [0i16; 2048], delay_ptr: 0, lp_state: 0, filter_state: 0 };
        proof {
            assert(r.bore@ =~= Seq::new(2048, |i: int| 0i16));
        }
        r
    }

    /// One sample (see `reed_step`).
    fn step(&mut self, g: &ReedSetup, pi: u32, rng: &mut Random, Ghost(ph): Ghost<u32>) -> (r: i16)
        requires
            old(self).ok(),
            0 <= g.coefficient <= 4096,
        ensures
            ({
                let st = reed_step(old(self).state(ph, old(rng).state()), *g, pi);
                &&& final(self).state(ph.wrapping_add(pi), final(rng).state()) == st.0
                &&& r == st.1
            }),
            final(self).ok(),
    {
        let ghost s = self.state(ph, rng.state());
        let breath = breath_exec(rng, g.noise);
        let p: u16 = self.delay_ptr.wrapping_add(4096).wrapping_sub(g.integral);
        let a = self.bore[(p as usize) % 2048];
        let b = self.bore[(p.wrapping_sub(1) as usize) % 2048];
        let dl = mix_i16(a, b, g.fraction) as i32;
        let (half, out) = reed_exec(dl, self.lp_state, breath);
        self.bore[(self.delay_ptr as usize) % 2048] = out as i16;
        self.delay_ptr = self.delay_ptr.wrapping_add(1);
        self.lp_state = half;
        let filter = reed_body_exec(g.coefficient, out, self.filter_state);
        self.filter_state = filter;
        proof {
            let st = reed_step(s, *g, pi);
            assert(self.bore@ =~= st.0.bore);
        }
        filter as i16
    }

    /// Renders `size` samples into `buffer`. `delay` is the oscillator's
    /// delay for its pitch (16.16 samples), `phase` and `pi` its pitch phase
    /// and increment, `pitch` its 7.7 pitch; `strike` empties the bore
    /// first. Returns the pitch phase at the end.
    pub fn render(&mut self, rng: &mut Random, strike: bool, phase: u32, pi: u32, delay: u32, pitch: i16, p0: i16, p1: i16,
        body: &[u16; 128], buffer: &mut [i16], size: usize) -> (r: u32)
        requires
            old(self).ok(),
            size <= old(buffer)@.len(),
            forall|i: int| 0 <= i < 128 ==> #[trigger] body@[i] <= 4096,
        ensures
            ({
                let s1 = old(self).state(phase, old(rng).state());
                let s0 = if strike { reed_struck(s1) } else { s1 };
                let g = reed_setup(delay, pitch, p0, p1, body@);
                let e = reed_run(s0, g, pi, size as nat);
                &&& forall|k: int| 0 <= k < size ==> #[trigger] final(buffer)@[k] == reed_step(reed_run(s0, g, pi, k as nat), g, pi).1
                &&& r == e.phase
                &&& final(rng).state() == e.rng
                &&& final(self).state(r, e.rng) == (ReedState { delay_ptr: (e.delay_ptr as int % 2048) as u16, ..e })
            }),
            final(self).ok(),
            final(buffer)@.len() == old(buffer)@.len(),
            forall|k: int| size <= k < old(buffer)@.len() ==> #[trigger] final(buffer)@[k] == old(buffer)@[k],
    {
        if strike {
            self.bore = [0i16; 2048];
            proof {
                assert(self.bore@ =~= Seq::new(2048, |i: int| 0i16));
            }
        }
        let ghost s0 = self.state(phase, rng.state());
        let mut d: u32 = (delay >> 1).wrapping_sub(65536);
        let ghost fit = reed_fit(d);
        while d > 134152192
            invariant
                reed_fit(d) == fit,
            decreases d,
        {
            proof {
                lemma_u32_shr(d);
            }
            d = d >> 1;
        }
        proof {
            lemma_u32_shr(d);
            lemma_u16_shr(p0 as u16);
            lemma_i32_shr(p1 as i32);
            lemma_i32_shr((pitch as i32 - 8192 + (p1 as i32 >> 1)) as i32);
        }
        let n: i32 = (pitch as i32 - 8192 + (p1 as i32 >> 1)) >> 7;
        let index: usize = if n < 0 { 0 } else if n > 127 { 127 } else { n as usize };
        let g = ReedSetup {
            integral: (d >> 16) as u16,
            fraction: (d & 0xffff) as u16,
            noise: 28000u16.wrapping_sub((p0 as u16) >> 1),
            coefficient: body[index] as i32,
        };
        proof {
            assert(fit == d);
            assert(g == reed_setup(delay, pitch, p0, p1, body@));
        }
        let mut ph = phase;
        let mut k: usize = 0;
        while k < size
            invariant
                k <= size,
                size <= buffer@.len(),
                buffer@.len() == old(buffer)@.len(),
                g == reed_setup(delay, pitch, p0, p1, body@),
                0 <= g.coefficient <= 4096,
                self.ok(),
                self.state(ph, rng.state()) == reed_run(s0, g, pi, k as nat),
                forall|j: int| 0 <= j < k ==> #[trigger] buffer@[j] == reed_step(reed_run(s0, g, pi, j as nat), g, pi).1,
                forall|j: int| size <= j < buffer@.len() ==> #[trigger] buffer@[j] == old(buffer)@[j],
            decreases size - k,
        {
            let out = self.step(&g, pi, rng, Ghost(ph));
            ph = ph.wrapping_add(pi);
            buffer[k] = out;
            k += 1;
        }
        self.delay_ptr = ((self.delay_ptr as usize) % 2048) as u16;
        ph
    }
}

} // verus!
