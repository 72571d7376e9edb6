//! Karplus-Strong plucked strings: three voices that take turns, each a delay
//! line that a pluck fills with noise and that is averaged, entry by entry
//! and with a random stretch, as its read position moves on.
use vstd::prelude::*;
use crate::bits::{lemma_i32_shr, lemma_line_size, lemma_ring_mask, lemma_u32_shr};
use crate::fixed::{clip16_sym, clip16_sym_spec, interpolate_1022, interpolate_1022_spec};
use super::random::{lcg_next, Random};

verus! {

/// Entries in each voice's delay line (the last repeats the first).
pub const LINE_LENGTH: usize = 1025;

/// One string: its delay line's length and write position, the part of the
/// pluck's noise burst still to write, and its read phase.
#[derive(Clone, Copy)]
pub struct PluckVoice {
    pub size: u32,
    pub write_ptr: u32,
    pub shift: u32,
    pub mask: u32,
    pub initialization_ptr: u32,
    pub phase: u32,
    pub phase_increment: u32,
    pub max_phase_increment: u32,
    pub previous_sample: i16,
}

/// A string that has never been plucked.
pub open spec fn silent_voice() -> PluckVoice {
    PluckVoice {
        size: 0,
        write_ptr: 0,
        shift: 0,
        mask: 0,
        initialization_ptr: 0,
        phase: 0,
        phase_increment: 0,
        max_phase_increment: 0,
        previous_sample: 0,
    }
}

/// A string whose delay line is a power of two long (or empty), with its
/// positions inside it.
pub open spec fn voice_ok(v: PluckVoice) -> bool {
    &&& v.shift <= 8
    &&& v.mask < 1024
    &&& (v.mask == 0 || v.mask & ((v.mask + 1) as u32) == 0)
    &&& v.write_ptr <= v.mask
    &&& (v.size == v.mask + 1 || (v.size == 0 && v.mask == 0))
    &&& v.initialization_ptr <= 1024
}

/// The number of right shifts that bring an increment down to `2^23`.
pub open spec fn pluck_shift(x: i32) -> nat
    decreases x,
{
    if x > 0x80_0000 {
        proof {
            lemma_i32_shr(x);
        }
        pluck_shift(x >> 1i32) + 1
    } else {
        0
    }
}

/// `2^23` doubled `k` times.
pub open spec fn shift_cap(k: nat) -> int
    decreases k,
{
    if k == 0 {
        0x80_0000
    } else {
        2 * shift_cap((k - 1) as nat)
    }
}

/// An increment up to `2^23` doubled `k` times needs at most `k` shifts.
pub proof fn lemma_pluck_shift_below(x: i32, k: nat)
    requires
        x <= shift_cap(k),
    ensures
        pluck_shift(x) <= k,
    decreases k,
{
    if x > 0x80_0000 {
        lemma_i32_shr(x);
        lemma_pluck_shift_below(x >> 1i32, (k - 1) as nat);
    }
}

/// Any increment needs at most eight shifts.
pub proof fn lemma_pluck_shift(x: i32)
    ensures
        pluck_shift(x) <= 8,
{
    reveal_with_fuel(shift_cap, 9);
    lemma_pluck_shift_below(x, 8);
}

/// The width of the pluck's noise burst, from the second parameter.
pub open spec fn pluck_width(p1: i16) -> int {
    (((3 * p1 as int) as i32) >> 1i32) as int
}

/// A string just plucked at the increment `pi`: its delay line is the
/// power of two that holds one period at that increment, and the noise
/// burst to write covers a share of it set by the width.
pub open spec fn plucked_voice(v: PluckVoice, pi: u32, p1: i16) -> PluckVoice {
    let shift = pluck_shift(pi as i32) as u32;
    let size = 1024u32 >> shift;
    PluckVoice {
        shift,
        size,
        mask: (size - 1) as u32,
        write_ptr: 0,
        max_phase_increment: pi << 1u32,
        phase_increment: pi,
        initialization_ptr: ((size as int * (8192 + pluck_width(p1))) / 65536) as u32,
        ..v
    }
}

/// The voice after `a` in turn.
pub open spec fn next_active(a: u8) -> u8 {
    if a.wrapping_add(1) >= 3 {
        0
    } else {
        a.wrapping_add(1)
    }
}

/// The voices take turns: three plucks in a row come back to the voice that
/// sounded first.
pub proof fn lemma_voices_take_turns(a: u8)
    requires
        a < 3,
    ensures
        next_active(a) < 3,
        next_active(a) != a,
        next_active(next_active(next_active(a))) == a,
{
}

/// The voices at the start of a block: a pluck moves to the next voice and
/// plucks it; the sounding voice's increment then follows `pi`, up to twice
/// the increment it was plucked at.
pub open spec fn pluck_prelude(active: u8, voices: Seq<PluckVoice>, pi: u32, strike: bool, p1: i16) -> (u8, Seq<PluckVoice>) {
    let a = if strike { next_active(active) } else { active };
    let vs = if strike { voices.update(a as int, plucked_voice(voices[a as int], pi, p1)) } else { voices };
    let v = vs[a as int];
    (a, vs.update(a as int, PluckVoice { phase_increment: if pi <= v.max_phase_increment { pi } else { v.max_phase_increment }, ..v }))
}

/// The chance (out of 65536) that an entry of the delay line is averaged
/// as the read position passes it.
pub open spec fn update_probability(p0: i16) -> u32 {
    if p0 < 16384 {
        65535
    } else {
        131072u32.wrapping_sub(((p0 as u32) >> 3u32).wrapping_mul(31))
    }
}

/// The loss (out of 32768) applied to each averaged entry: less at high
/// pitch, none past the middle of the first parameter.
pub open spec fn string_loss(pi: u32, p0: i16) -> i16 {
    let l0 = 4096i16.wrapping_sub((pi >> 14u32) as i16);
    let l1 = if l0 < 256 { 256i16 } else { l0 };
    if p0 < 16384 {
        ((((l1 as int) * (16384 - p0 as int)) as i32) >> 14i32) as i16
    } else {
        0
    }
}

/// The average of two neighbouring entries, rounded towards zero, scaled by
/// `1 - loss / 32768` where there is a loss.
pub open spec fn ks_smooth(a: i16, b: i16, loss: i16) -> i16 {
    let sum = a as int + b as int;
    let half: int = if sum < 0 { -((-sum) / 2) } else { sum / 2 };
    if loss != 0 {
        (((half * (32768 - loss as int)) as i32) >> 15i32) as i16
    } else {
        half as i16
    }
}

/// The slot after `wp` in the voice's delay line.
pub open spec fn ring_next(v: PluckVoice, wp: u32) -> u32 {
    if wp == v.mask {
        0
    } else {
        (wp + 1) as u32
    }
}

/// The number of steps from `from` to `to` around the voice's delay line.
pub open spec fn ring_distance(v: PluckVoice, from: u32, to: u32) -> nat {
    if to >= from {
        (to - from) as nat
    } else {
        (to + v.mask + 1 - from) as nat
    }
}

/// One step of the write position: with the chance `up` (drawn from the
/// generator) the entry becomes the smoothed average of it and the next;
/// at the start of the line, the copy past its end follows.
pub open spec fn chase_step(lines: Seq<i16>, seed: u32, base: int, v: PluckVoice, wp: u32, up: u32, loss: i16) -> (Seq<i16>, u32) {
    let next = ring_next(v, wp);
    let seed2 = lcg_next(seed);
    let k1 = if (seed2 & 0xffff) <= up {
        lines.update(base + wp, ks_smooth(lines[base + wp], lines[base + next], loss))
    } else {
        lines
    };
    let k2 = if wp == 0 { k1.update(base + v.size, k1[base]) } else { k1 };
    (k2, seed2)
}

/// `n` steps of the write position from `wp`.
pub open spec fn chase(lines: Seq<i16>, seed: u32, base: int, v: PluckVoice, wp: u32, up: u32, loss: i16, n: nat) -> (Seq<i16>, u32)
    decreases n,
{
    if n == 0 {
        (lines, seed)
    } else {
        let s = chase_step(lines, seed, base, v, wp, up, loss);
        chase(s.0, s.1, base, v, ring_next(v, wp), up, loss, (n - 1) as nat)
    }
}

/// The noise written at slot `ip` while a pluck's burst lasts: the entry
/// there plus three times a fresh random sample, over four.
pub open spec fn excitation(lines: Seq<i16>, base: int, ip: int, seed: u32) -> i32 {
    ((lines[base + ip] as int + 3 * ((lcg_next(seed) >> 16u32) as i16) as int) as i32) >> 2i32
}

/// One sample of voice `i`: while its burst lasts, the next noise entry;
/// then its read phase moves on, the write position catches up two slots
/// behind it, and the line is read at the phase.
pub open spec fn voice_step(lines: Seq<i16>, seed: u32, i: int, v: PluckVoice, up: u32, loss: i16) -> (Seq<i16>, u32, PluckVoice, int) {
    let base = i * 1025;
    if v.initialization_ptr != 0 {
        let ip = (v.initialization_ptr - 1) as u32;
        let e = excitation(lines, base, ip as int, seed);
        (lines.update(base + ip, e as i16), lcg_next(seed), PluckVoice { initialization_ptr: ip, ..v }, e as int)
    } else {
        let phase = v.phase.wrapping_add(v.phase_increment);
        let read_ptr = (((phase >> ((22 + v.shift) as u32)) + 2) as u32) & v.mask;
        let c = chase(lines, seed, base, v, v.write_ptr, up, loss, ring_distance(v, v.write_ptr, read_ptr));
        (c.0, c.1, PluckVoice { phase, write_ptr: read_ptr, ..v }, interpolate_1022_spec(c.0, base, phase >> v.shift) as int)
    }
}

/// The first `n` voices' samples, in turn, and their sum.
pub open spec fn voices_run(lines: Seq<i16>, seed: u32, voices: Seq<PluckVoice>, up: u32, loss: i16, n: nat) -> (Seq<i16>, u32, Seq<PluckVoice>, int)
    decreases n,
{
    if n == 0 {
        (lines, seed, voices, 0)
    } else {
        let r = voices_run(lines, seed, voices, up, loss, (n - 1) as nat);
        let s = voice_step(r.0, r.1, n - 1, r.2[n - 1], up, loss);
        (s.0, s.1, r.2.update(n - 1, s.2), r.3 + s.3)
    }
}

/// The strings' state across a block.
pub struct PluckFrame {
    pub lines: Seq<i16>,
    pub seed: u32,
    pub voices: Seq<PluckVoice>,
    pub previous: i16,
}

/// One step of the strings: the clipped sum of the three voices, and before
/// it its average with the previous step.
pub open spec fn pluck_pair(f: PluckFrame, up: u32, loss: i16) -> (PluckFrame, i16, i16) {
    let r = voices_run(f.lines, f.seed, f.voices, up, loss, 3);
    let sample = clip16_sym_spec(r.3 as i32);
    (
        PluckFrame { lines: r.0, seed: r.1, voices: r.2, previous: sample as i16 },
        (((f.previous as int + sample as int) as i32) >> 1i32) as i16,
        sample as i16,
    )
}

/// `j` steps of the strings.
pub open spec fn pluck_run(f: PluckFrame, up: u32, loss: i16, j: nat) -> PluckFrame
    decreases j,
{
    if j == 0 {
        f
    } else {
        pluck_pair(pluck_run(f, up, loss, (j - 1) as nat), up, loss).0
    }
}

/// The strings' state at the start of a block.
pub open spec fn pluck_start(active: u8, voices: Seq<PluckVoice>, lines: Seq<i16>, seed: u32, pi: u32, strike: bool, p1: i16) -> PluckFrame {
    let pre = pluck_prelude(active, voices, pi, strike, p1);
    PluckFrame { lines, seed, voices: pre.1, previous: pre.1[0].previous_sample }
}

/// Sample `k` of a block rendered from these strings at the increment `pi`
/// with the generator at `seed`.
pub open spec fn pluck_block_sample(
    active: u8, voices: Seq<PluckVoice>, lines: Seq<i16>, seed: u32,
    pi: u32, strike: bool, p0: i16, p1: i16, k: int,
) -> i16 {
    let up = update_probability(p0);
    let loss = string_loss(pi, p0);
    let f0 = pluck_start(active, voices, lines, seed, pi, strike, p1);
    let st = pluck_pair(pluck_run(f0, up, loss, (k / 2) as nat), up, loss);
    if k % 2 == 0 { st.1 } else { st.2 }
}

/// The sounding voice, the voices, the delay lines and the generator after
/// a block of `size` samples.
pub open spec fn pluck_block_end(
    active: u8, voices: Seq<PluckVoice>, lines: Seq<i16>, seed: u32,
    pi: u32, strike: bool, p0: i16, p1: i16, size: nat,
) -> (u8, Seq<PluckVoice>, Seq<i16>, u32) {
    let up = update_probability(p0);
    let loss = string_loss(pi, p0);
    let pre = pluck_prelude(active, voices, pi, strike, p1);
    let e = pluck_run(pluck_start(active, voices, lines, seed, pi, strike, p1), up, loss, size / 2);
    (pre.0, e.voices.update(0, PluckVoice { previous_sample: e.previous, ..e.voices[0] }), e.lines, e.seed)
}

fn silent() -> (v: PluckVoice)
    ensures
        v == silent_voice(),
{
    PluckVoice {
        size: 0,
        write_ptr: 0,
        shift: 0,
        mask: 0,
        initialization_ptr: 0,
        phase: 0,
        phase_increment: 0,
        max_phase_increment: 0,
        previous_sample: 0,
    }
}

fn smooth(a: i16, b: i16, loss: i16) -> (r: i16)
    ensures
        r == ks_smooth(a, b, loss),
{
    let mut sum: i32 = a as i32 + b as i32;
    proof {
        lemma_i32_shr(sum);
        lemma_i32_shr((-sum) as i32);
    }
    sum = if sum < 0 { -((-sum) >> 1) } else { sum >> 1 };
    if loss != 0 {
        assert(-0x8000_0000 <= sum * (32768 - loss as i32) < 0x8000_0000) by (nonlinear_arith)
            requires
                -32768 <= sum <= 32767,
                -32768 <= loss <= 32767,
                loss != 0,
        ;
        sum = (sum * (32768 - loss as i32)) >> 15;
    }
    sum as i16
}

/// Moves the write position of the voice whose line starts at `base` up to
/// `read_ptr`, smoothing the entries it passes.
fn chase_lines(lines: &mut [i16; 4100], rng: &mut Random, base: usize, v: PluckVoice, read_ptr: u32, up: u32, loss: i16)
    requires
        voice_ok(v),
        base <= 2050,
        read_ptr <= v.mask,
    ensures
        ({
            let c = chase(old(lines)@, old(rng).state(), base as int, v, v.write_ptr, up, loss,
                ring_distance(v, v.write_ptr, read_ptr));
            final(lines)@ == c.0 && final(rng).state() == c.1
        }),
{
    let mut wp = v.write_ptr;
    while wp != read_ptr
        invariant
            voice_ok(v),
            base <= 2050,
            read_ptr <= v.mask,
            wp <= v.mask,
            chase(lines@, rng.state(), base as int, v, wp, up, loss, ring_distance(v, wp, read_ptr))
                == chase(old(lines)@, old(rng).state(), base as int, v, v.write_ptr, up, loss,
                    ring_distance(v, v.write_ptr, read_ptr)),
        decreases ring_distance(v, wp, read_ptr),
    {
        proof {
            lemma_ring_mask(v.mask, (wp + 1) as u32);
        }
        let next = (wp + 1) & v.mask;
        let a = lines[base + wp as usize];
        let b = lines[base + next as usize];
        let probability = rng.get_word();
        if (probability & 0xffff) <= up {
            lines[base + wp as usize] = smooth(a, b, loss);
        }
        if wp == 0 {
            lines[base + v.size as usize] = lines[base];
        }
        wp = next;
    }
}

/// One sample of voice `i` (see `voice_step`).
fn pluck_voice_step(lines: &mut [i16; 4100], rng: &mut Random, i: usize, v: PluckVoice, up: u32, loss: i16) -> (r: (PluckVoice, i32))
    requires
        i < 3,
        voice_ok(v),
    ensures
        ({
            let s = voice_step(old(lines)@, old(rng).state(), i as int, v, up, loss);
            &&& final(lines)@ == s.0
            &&& final(rng).state() == s.1
            &&& r.0 == s.2
            &&& r.1 == s.3
        }),
        voice_ok(r.0),
        -32768 <= r.1 <= 32767,
{
    let base = i * 1025;
    if v.initialization_ptr != 0 {
        let ip = v.initialization_ptr - 1;
        let noise = rng.get_sample() as i32;
        let x: i32 = lines[base + ip as usize] as i32 + 3 * noise;
        proof {
            lemma_i32_shr(x);
        }
        let e = x >> 2;
        lines[base + ip as usize] = e as i16;
        (PluckVoice { initialization_ptr: ip, ..v }, e)
    } else {
        let phase = v.phase.wrapping_add(v.phase_increment);
        proof {
            lemma_line_size(phase, v.shift);
            lemma_ring_mask(v.mask, ((phase >> ((22 + v.shift) as u32)) + 2) as u32);
        }
        let read_ptr = ((phase >> (22 + v.shift)) + 2) & v.mask;
        chase_lines(lines, rng, base, v, read_ptr, up, loss);
        let out = interpolate_1022(lines, base, phase >> v.shift);
        (PluckVoice { phase, write_ptr: read_ptr, ..v }, out as i32)
    }
}

/// The three plucked strings (their delay lines are kept apart).
pub struct PluckBank {
    active: u8,
    voices: [PluckVoice; 4],
}

impl PluckBank {
    #[verifier::type_invariant]
    spec fn well_formed(self) -> bool {
        &&& self.active < 3
        &&& forall|j: int| 0 <= j < 4 ==> voice_ok(#[trigger] self.voices@[j])
    }

    /// The voice that sounds.
    pub closed spec fn active(self) -> u8 {
        self.active
    }

    /// The voices.
    pub closed spec fn voices(self) -> Seq<PluckVoice> {
        self.voices@
    }

    /// These strings with every voice silent.
    pub closed spec fn cleared(self) -> Self {
        PluckBank { voices: [silent_voice(), silent_voice(), silent_voice(), silent_voice()], ..self }
    }

    /// Silencing keeps the sounding voice and silences all four.
    pub proof fn lemma_cleared(self)
        ensures
            self.cleared().active() == self.active(),
            self.cleared().voices() == Seq::new(4, |j: int| silent_voice()),
    {
        assert(self.cleared().voices() =~= Seq::new(4, |j: int| silent_voice()));
    }

    /// Silent strings, the first voice sounding.
    pub fn new() -> (r: Self)
        ensures
            r.active() == 0,
            r.voices() == Seq::new(4, |j: int| silent_voice()),
    {
        let s = silent();
        let voices = [s, s, s, s];
        proof {
            assert(voices@ =~= seq![s, s, s, s]);
        }
        let r = PluckBank { active: 0, voices };
        assert(r.voices@ =~= Seq::new(4, |j: int| silent_voice()));
        r
    }

    /// Silences every voice.
    pub fn clear(&mut self)
        ensures
            *final(self) == old(self).cleared(),
    {
        proof {
            use_type_invariant(&*self);
        }
        let s = silent();
        let voices = [s, s, s, s];
        proof {
            assert(voices@ =~= seq![s, s, s, s]);
        }
        self.voices = voices;
    }

    fn prelude(&mut self, pi: u32, strike: bool, p1: i16)
        requires
            strike ==> p1 >= -5461,
        ensures
            (final(self).active, final(self).voices@) == pluck_prelude(old(self).active, old(self).voices@, pi, strike, p1),
    {
        proof {
            use_type_invariant(&*self);
        }
        if strike {
            let a = self.active.wrapping_add(1);
            self.active = if a as usize >= 3 { 0 } else { a };
            let av = self.active as usize;
            let mut increment: i32 = #[verifier::truncate] (pi as i32);
            let mut shift: u32 = 0;
            proof {
                lemma_pluck_shift(pi as i32);
            }
            while increment > 0x80_0000
                invariant
                    shift + pluck_shift(increment) == pluck_shift(pi as i32),
                    pluck_shift(pi as i32) <= 8,
                decreases increment,
            {
                proof {
                    lemma_i32_shr(increment);
                }
                increment >>= 1;
                shift += 1;
            }
            proof {
                lemma_line_size(0, shift);
                lemma_u32_shr(((1024u32 >> shift) * ((8192 + pluck_width(p1)) as u32)) as u32);
            }
            let size: u32 = 1024 >> shift;
            let width: i32 = (3 * p1 as i32) >> 1;
            proof {
                lemma_i32_shr((3 * p1 as i32) as i32);
                assert(0 <= 8192 + width <= 57342);
                assert(size * (8192 + width) <= 1024 * 57342) by (nonlinear_arith)
                    requires
                        size <= 1024,
                        0 <= 8192 + width <= 57342,
                ;
                assert(size * (8192 + width) < size * 65536) by (nonlinear_arith)
                    requires
                        size >= 4,
                        0 <= 8192 + width <= 57342,
                ;
            }
            let ip: u32 = (size * ((8192 + width) as u32)) >> 16;
            let mut v = self.voices[av];
            v.shift = shift;
            v.size = size;
            v.mask = size - 1;
            v.write_ptr = 0;
            v.max_phase_increment = pi << 1;
            v.phase_increment = pi;
            v.initialization_ptr = ip;
            self.voices[av] = v;
        }
        let av = self.active as usize;
        let mut v = self.voices[av];
        v.phase_increment = if pi <= v.max_phase_increment { pi } else { v.max_phase_increment };
        self.voices[av] = v;
    }

    fn frame(&mut self, lines: &mut [i16; 4100], rng: &mut Random, up: u32, loss: i16) -> (r: i32)
        ensures
            ({
                let s = voices_run(old(lines)@, old(rng).state(), old(self).voices@, up, loss, 3);
                &&& final(lines)@ == s.0
                &&& final(rng).state() == s.1
                &&& final(self).voices@ == s.2
                &&& r == clip16_sym_spec(s.3 as i32)
            }),
            final(self).active == old(self).active,
    {
        proof {
            use_type_invariant(&*self);
        }
        let mut sample: i32 = 0;
        let mut i: usize = 0;
        while i < 3
            invariant
                i <= 3,
                self.active == old(self).active,
                self.active < 3,
                forall|j: int| 0 <= j < 4 ==> voice_ok(#[trigger] self.voices@[j]),
                -32768 * i <= sample <= 32767 * i,
                ({
                    let s = voices_run(old(lines)@, old(rng).state(), old(self).voices@, up, loss, i as nat);
                    &&& lines@ == s.0
                    &&& rng.state() == s.1
                    &&& self.voices@ == s.2
                    &&& sample == s.3
                }),
            decreases 3 - i,
        {
            let (v, out) = pluck_voice_step(lines, rng, i, self.voices[i], up, loss);
            self.voices[i] = v;
            sample = sample + out;
            i += 1;
        }
        clip16_sym(sample)
    }

    /// Renders `size` samples of the strings into `buffer` at the increment
    /// `pi`, plucking first where `strike` says so; `p0` sets the decay and
    /// `p1` the width of the pluck.
    pub fn render(&mut self, lines: &mut [i16; 4100], rng: &mut Random, buffer: &mut [i16], size: usize,
        pi: u32, strike: bool, p0: i16, p1: i16)
        requires
            size % 2 == 0,
            size <= old(buffer)@.len(),
            strike ==> p1 >= -5461,
        ensures
            final(buffer)@.len() == old(buffer)@.len(),
            forall|k: int| 0 <= k < size ==> #[trigger] final(buffer)@[k] == pluck_block_sample(
                old(self).active(), old(self).voices(), old(lines)@, old(rng).state(), pi, strike, p0, p1, k),
            forall|k: int| size <= k < old(buffer)@.len() ==> #[trigger] final(buffer)@[k] == old(buffer)@[k],
            ({
                let e = pluck_block_end(old(self).active(), old(self).voices(), old(lines)@, old(rng).state(),
                    pi, strike, p0, p1, size as nat);
                &&& final(self).active() == e.0
                &&& final(self).voices() == e.1
                &&& final(lines)@ == e.2
                &&& final(rng).state() == e.3
            }),
    {
        let ghost o = *self;
        let ghost seed = rng.state();
        self.prelude(pi, strike, p1);
        proof {
            use_type_invariant(&*self);
        }
        let up: u32 = if p0 < 16384 { 65535 } else { 131072u32.wrapping_sub(((p0 as u32) >> 3).wrapping_mul(31)) };
        let l0: i16 = 4096i16.wrapping_sub((pi >> 14) as i16);
        let mut loss: i16 = if l0 < 256 { 256 } else { l0 };
        if p0 < 16384 {
            assert(0 <= loss * (16384 - p0 as i32) < 0x8000_0000) by (nonlinear_arith)
                requires
                    256 <= loss <= 32767,
                    p0 < 16384,
                    -32768 <= p0,
            ;
            loss = ((loss as i32 * (16384 - p0 as i32)) >> 14) as i16;
        } else {
            loss = 0;
        }
        let ghost f0 = pluck_start(o.active, o.voices@, old(lines)@, seed, pi, strike, p1);
        let mut previous = self.voices[0].previous_sample;
        let mut j: usize = 0;
        while j < size / 2
            invariant
                j <= size / 2,
                size % 2 == 0,
                size <= buffer@.len(),
                buffer@.len() == old(buffer)@.len(),
                up == update_probability(p0),
                loss == string_loss(pi, p0),
                self.active == pluck_prelude(o.active, o.voices@, pi, strike, p1).0,
                ({
                    let f = pluck_run(f0, up, loss, j as nat);
                    &&& lines@ == f.lines
                    &&& rng.state() == f.seed
                    &&& self.voices@ == f.voices
                    &&& previous == f.previous
                }),
                forall|k: int| 0 <= k < 2 * j ==> #[trigger] buffer@[k] == (if k % 2 == 0 {
                        pluck_pair(pluck_run(f0, up, loss, (k / 2) as nat), up, loss).1
                    } else {
                        pluck_pair(pluck_run(f0, up, loss, (k / 2) as nat), up, loss).2
                    }),
                forall|k: int| size <= k < buffer@.len() ==> #[trigger] buffer@[k] == old(buffer)@[k],
            decreases size / 2 - j,
        {
            let sample = self.frame(lines, rng, up, loss);
            buffer[2 * j] = ((previous as i32 + sample) >> 1) as i16;
            buffer[2 * j + 1] = sample as i16;
            previous = sample as i16;
            proof {
                assert((2 * j) / 2 == j);
                assert((2 * j + 1) / 2 == j);
                assert((2 * j) % 2 == 0);
                assert((2 * j + 1) % 2 == 1);
            }
            j += 1;
        }
        proof {
            use_type_invariant(&*self);
        }
        let mut v0 = self.voices[0];
        v0.previous_sample = previous;
        self.voices[0] = v0;
    }
}

} // verus!
