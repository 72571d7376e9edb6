//! The wavetable models. Each reads 8-bit single-cycle waves of 129
//! samples, stored one after another in a bank the caller hands in (wave
//! `w` starts at `129 * w`), at half the phase and crossfaded between
//! neighbouring waves. The paraphonic model plays four voices, the
//! oscillator's pitch and a chord above it, from a short line of waves.
use vstd::prelude::*;
use crate::bits::{lemma_i32_shr, lemma_u32_shr};
use crate::fixed::{crossfade_u8, crossfade_u8_spec, mix_i16, mix_i16_spec};
use super::dsp::{compute_phase_increment_digital, phase_increment_of};
use super::digital_oscillator::lcg_iter;
use super::random::Random;

verus! {

/// Samples in each wave.
pub const WAVE_LENGTH: usize = 129;

/// The waves the paraphonic model moves through with its first parameter.
pub const MINI_WAVE_LINE: [u8; 33] = [
    157, 161, 171, 188, 189, 191, 192, 193, 196, 198, 201, 234, 232, 229, 226, 224, 1, 2, 3, 4, 5, 8,
    12, 32, 36, 42, 47, 252, 254, 141, 139, 135, 174,
];

/// The paraphonic chords: three intervals each, in 1/128 semitone, from
/// slight detunes to octave-spanning chords.
pub const CHORDS: [[i32; 3]; 17] = [
    [2, 4, 6],
    [16, 32, 48],
    [256, 896, 1536],
    [384, 896, 1280],
    [384, 896, 1536],
    [384, 896, 1792],
    [384, 896, 2176],
    [896, 1536, 2432],
    [896, 1539, 2437],
    [512, 896, 2176],
    [512, 896, 1792],
    [512, 896, 1536],
    [512, 896, 1408],
    [640, 896, 1536],
    [4, 896, 1536],
    [4, 1540, 1536],
    [4, 1540, 1536],
];

/// The blend towards the next chord: the second parameter's low 11 bits
/// (as a 16-bit fraction), snapped to 0 below 30720, to 65535 from 34816,
/// and steepened sixteenfold in between.
pub open spec fn chord_fraction(p1: i16) -> int {
    let cf = (((p1 as u32) << 5u32) as u16) as int;
    if cf < 30720 { 0 } else if cf >= 34816 { 65535 } else { (cf - 30720) * 16 }
}

/// Interval `i` of the chord picked by the second parameter (one of 16,
/// blended towards the next).
pub open spec fn chord_interval(p1: i16, i: int) -> u16 {
    let c = (p1 >> 11i16) as int;
    let d1 = CHORDS@[c]@[i];
    let d2 = CHORDS@[c + 1]@[i];
    (d1 as int + ((((d2 - d1) as i32).wrapping_mul(chord_fraction(p1) as i32)) >> 16i32) as int) as u16
}

/// The slot of the wave line the first parameter reads (`next` for the one
/// after it), clamped to the line's end.
pub open spec fn wave_slot(p0: i16, next: bool) -> int {
    if p0 < 0 {
        32
    } else {
        let i = p0 as int / 1024 + (if next { 1int } else { 0int });
        if i > 32 { 32 } else { i }
    }
}

/// Where a paraphonic wave starts in the bank.
pub open spec fn paraphonic_start(p0: i16, next: bool) -> int {
    129 * MINI_WAVE_LINE@[wave_slot(p0, next)] as int
}

/// The four voices' phases after one more sample.
pub open spec fn paraphonic_advance(p: (u32, u32, u32, u32), inc: (u32, u32, u32, u32)) -> (u32, u32, u32, u32) {
    (p.0.wrapping_add(inc.0), p.1.wrapping_add(inc.1), p.2.wrapping_add(inc.2), p.3.wrapping_add(inc.3))
}

/// The four voices' phases after `n` samples.
pub open spec fn paraphonic_run(p: (u32, u32, u32, u32), inc: (u32, u32, u32, u32), n: nat) -> (u32, u32, u32, u32)
    decreases n,
{
    if n == 0 { p } else { paraphonic_advance(paraphonic_run(p, inc, (n - 1) as nat), inc) }
}

/// The paraphonic sample at the voices' phases: a quarter of the sum of the
/// four voices, each the two waves read at half its phase and crossfaded.
pub open spec fn paraphonic_sample(p: (u32, u32, u32, u32), waves: Seq<u8>, s1: int, s2: int, xfade: u16) -> i16 {
    let sum = crossfade_u8_spec(waves, s1, s2, p.0 >> 1u32, xfade) as int
        + crossfade_u8_spec(waves, s1, s2, p.1 >> 1u32, xfade) as int
        + crossfade_u8_spec(waves, s1, s2, p.2 >> 1u32, xfade) as int
        + crossfade_u8_spec(waves, s1, s2, p.3 >> 1u32, xfade) as int;
    ((sum as i32) >> 2i32) as i16
}

/// The four voices' increments: the oscillator's, and those of the pitch
/// raised by each chord interval.
pub open spec fn paraphonic_increments(increment: u32, pitch: i16, p1: i16) -> (u32, u32, u32, u32) {
    (
        increment,
        phase_increment_of(pitch as int + chord_interval(p1, 0) as int),
        phase_increment_of(pitch as int + chord_interval(p1, 1) as int),
        phase_increment_of(pitch as int + chord_interval(p1, 2) as int),
    )
}

/// Interval `i` of the chord (see `chord_interval`).
fn chord_interval_exec(p1: i16, i: usize) -> (r: u16)
    requires
        p1 >= 0,
        i < 3,
    ensures
        r == chord_interval(p1, i as int),
{
    proof {
        crate::bits::lemma_i16_shr(p1);
        lemma_u32_shr(p1 as u32);
    }
    let c = (p1 >> 11) as usize;
    let mut cf = (((p1 as u32) << 5) as u16) as u32;
    if cf < 30720 {
        cf = 0;
    } else if cf >= 34816 {
        cf = 65535;
    } else {
        cf = (cf - 30720) * 16;
    }
    let d1 = CHORDS[c][i];
    let d2 = CHORDS[c + 1][i];
    proof {
        assert(forall|a: int, b: int| 0 <= a < 17 && 0 <= b < 3 ==> 0 <= #[trigger] CHORDS@[a]@[b] <= 2437);
        assert(-2437 * 65535 <= (d2 - d1) * cf <= 2437 * 65535) by (nonlinear_arith)
            requires
                -2437 <= d2 - d1 <= 2437,
                0 <= cf <= 65535,
        ;
        lemma_i32_shr(((d2 - d1) as i32).wrapping_mul(cf as i32));
    }
    (d1 + ((d2 - d1).wrapping_mul(cf as i32) >> 16)) as u16
}

/// A wave-line slot (see `wave_slot`).
fn wave_slot_exec(p0: i16, next: bool) -> (r: usize)
    ensures
        r == wave_slot(p0, next),
        r <= 32,
{
    if p0 < 0 {
        32
    } else {
        let i = (p0 as usize) / 1024 + if next { 1 } else { 0 };
        if i > 32 { 32 } else { i }
    }
}

/// Renders `size` samples (in pairs) of the paraphonic model from the four
/// voices' phases, with the oscillator's increment and 7.7 pitch and the
/// bank of waves given; `strike` first draws the four phases from the
/// random source.
pub fn render_wave_paraphonic(phases: &mut [u32; 4], rng: &mut Random, strike: bool, pitch: i16, increment: u32,
    p0: i16, p1: i16, waves: &[u8], buffer: &mut [i16], size: usize)
    requires
        size % 2 == 0,
        size <= old(buffer)@.len(),
        p1 >= 0,
        waves@.len() >= 129 * 255,
    ensures
        ({
            let r0 = old(rng).state();
            let start = if strike {
                (lcg_iter(r0, 1), lcg_iter(r0, 2), lcg_iter(r0, 3), lcg_iter(r0, 4))
            } else {
                (old(phases)@[0], old(phases)@[1], old(phases)@[2], old(phases)@[3])
            };
            let inc = paraphonic_increments(increment, pitch, p1);
            let s1 = paraphonic_start(p0, false);
            let s2 = paraphonic_start(p0, true);
            let xfade = ((p0 as u32) << 6u32) as u16;
            let e = paraphonic_run(start, inc, size as nat);
            &&& forall|k: int| 0 <= k < size ==> #[trigger] final(buffer)@[k]
                == paraphonic_sample(paraphonic_run(start, inc, (k + 1) as nat), waves@, s1, s2, xfade)
            &&& final(phases)@ == seq![e.0, e.1, e.2, e.3]
            &&& final(rng).state() == (if strike { lcg_iter(r0, 4) } else { r0 })
        }),
        final(buffer)@.len() == old(buffer)@.len(),
        forall|k: int| size <= k < old(buffer)@.len() ==> #[trigger] final(buffer)@[k] == old(buffer)@[k],
{
    let ghost r0 = rng.state();
    if strike {
        let mut i: usize = 0;
        while i < 4
            invariant
                i <= 4,
                rng.state() == lcg_iter(r0, i as nat),
                forall|j: int| 0 <= j < i ==> #[trigger] phases@[j] == lcg_iter(r0, (j + 1) as nat),
            decreases 4 - i,
        {
            phases[i] = rng.get_word();
            i += 1;
        }
    }
    let ghost start = (phases@[0], phases@[1], phases@[2], phases@[3]);
    let i1 = compute_phase_increment_digital(pitch as i32 + chord_interval_exec(p1, 0) as i32);
    let i2 = compute_phase_increment_digital(pitch as i32 + chord_interval_exec(p1, 1) as i32);
    let i3 = compute_phase_increment_digital(pitch as i32 + chord_interval_exec(p1, 2) as i32);
    let ghost inc = (increment, i1, i2, i3);
    let s1 = 129 * MINI_WAVE_LINE[wave_slot_exec(p0, false)] as usize;
    let s2 = 129 * MINI_WAVE_LINE[wave_slot_exec(p0, true)] as usize;
    let xfade = ((p0 as u32) << 6) as u16;
    proof {
        assert(forall|a: int| 0 <= a < 33 ==> #[trigger] MINI_WAVE_LINE@[a] <= 254);
    }
    let mut q0 = phases[0];
    let mut q1 = phases[1];
    let mut q2 = phases[2];
    let mut q3 = phases[3];
    let mut k: usize = 0;
    while k < size
        invariant
            k <= size,
            size <= buffer@.len(),
            buffer@.len() == old(buffer)@.len(),
            waves@.len() >= 129 * 255,
            s1 <= 129 * 254,
            s2 <= 129 * 254,
            inc == (increment, i1, i2, i3),
            (q0, q1, q2, q3) == paraphonic_run(start, inc, k as nat),
            forall|j: int| 0 <= j < k ==> #[trigger] buffer@[j]
                == paraphonic_sample(paraphonic_run(start, inc, (j + 1) as nat), waves@, s1 as int, s2 as int, xfade),
            forall|j: int| size <= j < buffer@.len() ==> #[trigger] buffer@[j] == old(buffer)@[j],
        decreases size - k,
    {
        q0 = q0.wrapping_add(increment);
        q1 = q1.wrapping_add(i1);
        q2 = q2.wrapping_add(i2);
        q3 = q3.wrapping_add(i3);
        proof {
            lemma_u32_shr(q0 >> 1u32);
            lemma_u32_shr(q1 >> 1u32);
            lemma_u32_shr(q2 >> 1u32);
            lemma_u32_shr(q3 >> 1u32);
            lemma_u32_shr(q0);
            lemma_u32_shr(q1);
            lemma_u32_shr(q2);
            lemma_u32_shr(q3);
        }
        let a = crossfade_u8(waves, s1, s2, q0 >> 1, xfade) as i32;
        let b = crossfade_u8(waves, s1, s2, q1 >> 1, xfade) as i32;
        let c = crossfade_u8(waves, s1, s2, q2 >> 1, xfade) as i32;
        let d = crossfade_u8(waves, s1, s2, q3 >> 1, xfade) as i32;
        let sum: i32 = a + b + c + d;
        proof {
            lemma_i32_shr(sum);
        }
        buffer[k] = (sum >> 2) as i16;
        k += 1;
    }
    phases[0] = q0;
    phases[1] = q1;
    phases[2] = q2;
    phases[3] = q3;
    proof {
        assert(phases@ =~= seq![q0, q1, q2, q3]);
    }
}

/// Steps of each of the twenty wavetables.
pub const WAVETABLE_STEPS: [u8; 20] = [16, 16, 16, 16, 16, 16, 16, 16, 16, 16, 16, 8, 16, 16, 16, 16, 8, 16, 16, 4];

/// The waves of each wavetable, step by step (the last repeated).
pub const WAVETABLE_WAVES: [[u8; 17]; 20] = [
    [0, 1, 2, 3, 4, 5, 6, 7, 8, 9, 10, 11, 12, 13, 14, 15, 15],
    [16, 17, 18, 19, 20, 21, 22, 23, 24, 25, 26, 27, 28, 29, 30, 31, 31],
    [32, 33, 34, 35, 36, 37, 38, 39, 40, 41, 42, 43, 44, 45, 46, 47, 47],
    [48, 49, 50, 51, 52, 53, 54, 55, 56, 57, 58, 59, 60, 61, 62, 63, 63],
    [64, 65, 66, 67, 68, 68, 69, 70, 71, 72, 73, 73, 74, 75, 75, 76, 76],
    [77, 78, 79, 80, 81, 82, 83, 84, 85, 86, 87, 88, 89, 90, 91, 92, 92],
    [93, 94, 95, 96, 97, 98, 99, 100, 101, 102, 103, 104, 105, 106, 107, 108, 108],
    [109, 110, 111, 112, 113, 114, 115, 116, 117, 118, 119, 120, 121, 122, 123, 124, 124],
    [125, 126, 127, 128, 129, 130, 131, 132, 132, 132, 132, 132, 132, 132, 132, 132, 132],
    [133, 134, 135, 136, 137, 138, 139, 140, 141, 142, 143, 144, 144, 144, 145, 145, 145],
    [146, 147, 148, 149, 150, 151, 151, 151, 152, 152, 152, 152, 153, 153, 153, 153, 153],
    [154, 154, 154, 154, 154, 154, 155, 156, 156, 0, 0, 0, 0, 0, 0, 0, 0],
    [176, 157, 158, 159, 160, 161, 162, 163, 164, 165, 166, 167, 168, 169, 170, 171, 171],
    [172, 173, 174, 175, 176, 177, 178, 179, 180, 181, 182, 183, 184, 185, 186, 187, 187],
    [176, 188, 189, 190, 191, 192, 193, 194, 195, 196, 197, 198, 199, 200, 201, 202, 202],
    [203, 205, 204, 205, 212, 206, 207, 208, 208, 209, 210, 210, 211, 211, 212, 212, 212],
    [213, 213, 213, 214, 215, 216, 217, 218, 219, 0, 0, 0, 0, 0, 0, 0, 0],
    [220, 221, 222, 223, 224, 225, 226, 227, 228, 229, 230, 231, 232, 233, 234, 235, 235],
    [236, 237, 238, 239, 240, 241, 242, 243, 244, 245, 246, 247, 248, 249, 250, 251, 251],
    [252, 253, 254, 255, 254, 0, 0, 0, 0, 0, 0, 0, 0, 0, 0, 0, 0],
];

/// A parameter held until it moves by more than 64 from its last held
/// value (compared without wrapping).
pub open spec fn held(fresh: i16, previous: i16) -> i16 {
    if fresh as int > previous as int + 64 || (fresh as int) < previous as int - 64 { fresh } else { previous }
}

/// The position in the wavetable from the first parameter: twice it, times
/// the table's steps (16.16, wrapping).
pub open spec fn wave_pointer(p0: i16, table: int) -> u32 {
    (((p0 as i32) << 1i32) as u32).wrapping_mul(WAVETABLE_STEPS@[table] as u32)
}

/// Where wave `i` (0 or 1) of the wavetable at the pointer starts.
pub open spec fn wavetable_start(table: int, pointer: u32, i: int) -> int {
    let step = (pointer >> 16u32) as int + i;
    129 * WAVETABLE_WAVES@[table]@[if step > 16 { 16 } else { step }] as int
}

/// One sample of a wavetable: the phase advances by half the increment
/// (a sync pulse restarts it), a half sample is read, the phase advances
/// again and a second half sample is read; both are crossfaded between the
/// two waves by the pointer's fraction.
pub open spec fn wavetable_step(phase: u32, half: u32, waves: Seq<u8>, a: int, b: int, xfade: u16, sync: u8) -> (u32, i16) {
    let p1 = if sync != 0 { 0u32 } else { phase.wrapping_add(half) };
    let s0 = crossfade_u8_spec(waves, a, b, p1 >> 1u32, xfade) >> 1i16;
    let p2 = p1.wrapping_add(half);
    let s1 = crossfade_u8_spec(waves, a, b, p2 >> 1u32, xfade) >> 1i16;
    (p2, s0.wrapping_add(s1))
}

/// The phase after `k` samples of a wavetable.
pub open spec fn wavetable_run(phase: u32, half: u32, waves: Seq<u8>, a: int, b: int, xfade: u16, sync: Seq<u8>, k: nat) -> u32
    decreases k,
{
    if k == 0 { phase } else {
        wavetable_step(wavetable_run(phase, half, waves, a, b, xfade, sync, (k - 1) as nat), half, waves, a, b, xfade, sync[k - 1]).0
    }
}

/// Renders `size` samples of the wavetables from the phase given, at the
/// oscillator's increment `pi`; the second parameter (held against
/// `previous_p1`) picks one of the twenty wavetables and the first scans
/// it. Returns the phase and the held second parameter.
pub fn render_wavetables(phase: u32, pi: u32, p0: i16, p1: i16, previous_p1: i16, waves: &[u8], sync: &[u8],
    buffer: &mut [i16], size: usize) -> (r: (u32, i16))
    requires
        p1 >= 0,
        previous_p1 >= 0,
        waves@.len() >= 129 * 256,
        size <= sync@.len(),
        size <= old(buffer)@.len(),
    ensures
        ({
            let h = held(p1, previous_p1);
            let t = (h as int * 20) / 32768;
            let ptr = wave_pointer(p0, t);
            let a = wavetable_start(t, ptr, 0);
            let b = wavetable_start(t, ptr, 1);
            &&& forall|k: int| 0 <= k < size ==> #[trigger] final(buffer)@[k]
                == wavetable_step(wavetable_run(phase, pi >> 1u32, waves@, a, b, ptr as u16, sync@, k as nat),
                    pi >> 1u32, waves@, a, b, ptr as u16, sync@[k]).1
            &&& r.0 == wavetable_run(phase, pi >> 1u32, waves@, a, b, ptr as u16, sync@, size as nat)
            &&& r.1 == h
        }),
        final(buffer)@.len() == old(buffer)@.len(),
        forall|k: int| size <= k < old(buffer)@.len() ==> #[trigger] final(buffer)@[k] == old(buffer)@[k],
{
    let h: i16 = if p1 as i32 > previous_p1 as i32 + 64 || (p1 as i32) < previous_p1 as i32 - 64 { p1 } else { previous_p1 };
    proof {
        lemma_u32_shr(((h as u32) * 20) as u32);
    }
    let t = (((h as u32) * 20) >> 15) as usize;
    let pointer = (((p0 as i32) << 1) as u32).wrapping_mul(WAVETABLE_STEPS[t] as u32);
    proof {
        lemma_u32_shr(pointer);
        assert(forall|x: int, y: int| 0 <= x < 20 && 0 <= y < 17 ==> #[trigger] WAVETABLE_WAVES@[x]@[y] <= 255);
    }
    let step = (pointer >> 16) as usize;
    let a = 129 * WAVETABLE_WAVES[t][if step > 16 { 16 } else { step }] as usize;
    let b = 129 * WAVETABLE_WAVES[t][if step + 1 > 16 { 16 } else { step + 1 }] as usize;
    let half = pi >> 1;
    let xfade = pointer as u16;
    let mut ph = phase;
    let mut k: usize = 0;
    while k < size
        invariant
            k <= size,
            size <= sync@.len(),
            size <= buffer@.len(),
            buffer@.len() == old(buffer)@.len(),
            waves@.len() >= 129 * 256,
            a <= 129 * 255,
            b <= 129 * 255,
            ph == wavetable_run(phase, half, waves@, a as int, b as int, xfade, sync@, k as nat),
            forall|j: int| 0 <= j < k ==> #[trigger] buffer@[j]
                == wavetable_step(wavetable_run(phase, half, waves@, a as int, b as int, xfade, sync@, j as nat),
                    half, waves@, a as int, b as int, xfade, sync@[j]).1,
            forall|j: int| size <= j < buffer@.len() ==> #[trigger] buffer@[j] == old(buffer)@[j],
        decreases size - k,
    {
        ph = ph.wrapping_add(half);
        if sync[k] != 0 {
            ph = 0;
        }
        proof {
            lemma_u32_shr(ph);
            lemma_u32_shr(ph >> 1u32);
        }
        let s0 = crossfade_u8(waves, a, b, ph >> 1, xfade) >> 1;
        ph = ph.wrapping_add(half);
        proof {
            lemma_u32_shr(ph);
            lemma_u32_shr(ph >> 1u32);
        }
        let s1 = crossfade_u8(waves, a, b, ph >> 1, xfade) >> 1;
        buffer[k] = s0.wrapping_add(s1);
        k += 1;
    }
    (ph, h)
}

/// A parameter's place on the 16 x 16 wave map: 15/16 of it.
pub open spec fn map_position(p: i16) -> u16 {
    ((p as int * 15) / 16) as u16
}

/// Where the wave at map cell (`x`, `y`) starts in the bank.
pub open spec fn map_start(map: Seq<u8>, x: int, y: int) -> int {
    129 * map[x * 16 + y] as int
}

/// The four corner waves around the position and the two blends: the
/// cells (`x`, `y`), (`x`, `y+1`), (`x+1`, `y`), (`x+1`, `y+1`).
pub struct MapCorners {
    pub w00: int,
    pub w01: int,
    pub w10: int,
    pub w11: int,
    pub xfade_x: u16,
    pub xfade_y: u16,
}

/// The corners for the two parameters.
pub open spec fn map_corners(map: Seq<u8>, p0: i16, p1: i16) -> MapCorners {
    let x = (map_position(p0) >> 11u16) as int;
    let y = (map_position(p1) >> 11u16) as int;
    MapCorners {
        w00: map_start(map, x, y),
        w01: map_start(map, x, y + 1),
        w10: map_start(map, x + 1, y),
        w11: map_start(map, x + 1, y + 1),
        xfade_x: map_position(p0) << 5u16,
        xfade_y: map_position(p1) << 5u16,
    }
}

/// The map read at `phase`: each row crossfaded along y, the rows mixed
/// along x, halved.
pub open spec fn map_read(waves: Seq<u8>, c: MapCorners, phase: u32) -> i16 {
    mix_i16_spec(
        crossfade_u8_spec(waves, c.w00, c.w01, phase >> 1u32, c.xfade_y),
        crossfade_u8_spec(waves, c.w10, c.w11, phase >> 1u32, c.xfade_y),
        c.xfade_x,
    ) >> 1i16
}

/// One sample of the wave map: the phase advances by half the increment
/// (a sync pulse restarts it) and the map is read, twice, the two reads
/// summed (wrapping).
pub open spec fn map_step(phase: u32, half: u32, waves: Seq<u8>, c: MapCorners, sync: u8) -> (u32, i16) {
    let p1 = if sync != 0 { 0u32 } else { phase.wrapping_add(half) };
    let p2 = p1.wrapping_add(half);
    (p2, map_read(waves, c, p1).wrapping_add(map_read(waves, c, p2)))
}

/// The phase after `k` samples of the wave map.
pub open spec fn map_run(phase: u32, half: u32, waves: Seq<u8>, c: MapCorners, sync: Seq<u8>, k: nat) -> u32
    decreases k,
{
    if k == 0 { phase } else { map_step(map_run(phase, half, waves, c, sync, (k - 1) as nat), half, waves, c, sync[k - 1]).0 }
}

/// Reads the map (see `map_read`).
fn map_read_exec(waves: &[u8], w00: usize, w01: usize, w10: usize, w11: usize, xfade_x: u16, xfade_y: u16,
    phase: u32, Ghost(c): Ghost<MapCorners>) -> (r: i16)
    requires
        waves@.len() >= 129 * 256,
        w00 <= 129 * 255 && w01 <= 129 * 255 && w10 <= 129 * 255 && w11 <= 129 * 255,
        c.w00 == w00 && c.w01 == w01 && c.w10 == w10 && c.w11 == w11,
        c.xfade_x == xfade_x && c.xfade_y == xfade_y,
    ensures
        r == map_read(waves@, c, phase),
{
    proof {
        lemma_u32_shr(phase);
        lemma_u32_shr(phase >> 1u32);
    }
    let a = crossfade_u8(waves, w00, w01, phase >> 1, xfade_y);
    let b = crossfade_u8(waves, w10, w11, phase >> 1, xfade_y);
    mix_i16(a, b, xfade_x) >> 1
}

/// A parameter's map cell along one axis and the blend within it.
fn map_axis(p: i16) -> (r: (usize, u16))
    requires
        p >= 0,
    ensures
        r.0 == map_position(p) >> 11u16,
        r.0 <= 14,
        r.1 == map_position(p) << 5u16,
{
    proof {
        lemma_u32_shr(((p as u32) * 15) as u32);
    }
    let q = (((p as u32) * 15) >> 4) as u16;
    proof {
        crate::bits::lemma_u16_shr(q);
    }
    ((q >> 11) as usize, q << 5)
}

/// Renders `size` samples of the wave map from the phase given, at the
/// oscillator's increment `pi`; the two parameters move across the 16 x 16
/// map of waves given. Returns the phase.
pub fn render_wave_map(phase: u32, pi: u32, p0: i16, p1: i16, map: &[u8; 256], waves: &[u8], sync: &[u8],
    buffer: &mut [i16], size: usize) -> (r: u32)
    requires
        p0 >= 0,
        p1 >= 0,
        waves@.len() >= 129 * 256,
        size <= sync@.len(),
        size <= old(buffer)@.len(),
    ensures
        ({
            let c = map_corners(map@, p0, p1);
            &&& forall|k: int| 0 <= k < size ==> #[trigger] final(buffer)@[k]
                == map_step(map_run(phase, pi >> 1u32, waves@, c, sync@, k as nat), pi >> 1u32, waves@, c, sync@[k]).1
            &&& r == map_run(phase, pi >> 1u32, waves@, c, sync@, size as nat)
        }),
        final(buffer)@.len() == old(buffer)@.len(),
        forall|k: int| size <= k < old(buffer)@.len() ==> #[trigger] final(buffer)@[k] == old(buffer)@[k],
{
    let (x, xfade_x) = map_axis(p0);
    let (y, xfade_y) = map_axis(p1);
    let w00 = 129 * map[x * 16 + y] as usize;
    let w01 = 129 * map[x * 16 + y + 1] as usize;
    let w10 = 129 * map[(x + 1) * 16 + y] as usize;
    let w11 = 129 * map[(x + 1) * 16 + y + 1] as usize;
    let ghost c = MapCorners {
        w00: w00 as int,
        w01: w01 as int,
        w10: w10 as int,
        w11: w11 as int,
        xfade_x,
        xfade_y,
    };
    proof {
        assert(c == map_corners(map@, p0, p1));
    }
    let half = pi >> 1;
    let mut ph = phase;
    let mut k: usize = 0;
    while k < size
        invariant
            k <= size,
            size <= sync@.len(),
            size <= buffer@.len(),
            buffer@.len() == old(buffer)@.len(),
            waves@.len() >= 129 * 256,
            w00 <= 129 * 255 && w01 <= 129 * 255 && w10 <= 129 * 255 && w11 <= 129 * 255,
            c.w00 == w00 && c.w01 == w01 && c.w10 == w10 && c.w11 == w11,
            c.xfade_x == xfade_x && c.xfade_y == xfade_y,
            ph == map_run(phase, half, waves@, c, sync@, k as nat),
            forall|j: int| 0 <= j < k ==> #[trigger] buffer@[j]
                == map_step(map_run(phase, half, waves@, c, sync@, j as nat), half, waves@, c, sync@[j]).1,
            forall|j: int| size <= j < buffer@.len() ==> #[trigger] buffer@[j] == old(buffer)@[j],
        decreases size - k,
    {
        ph = ph.wrapping_add(half);
        if sync[k] != 0 {
            ph = 0;
        }
        let t1 = map_read_exec(waves, w00, w01, w10, w11, xfade_x, xfade_y, ph, Ghost(c));
        ph = ph.wrapping_add(half);
        let t2 = map_read_exec(waves, w00, w01, w10, w11, xfade_x, xfade_y, ph, Ghost(c));
        buffer[k] = t1.wrapping_add(t2);
        k += 1;
    }
    ph
}

/// The line of waves the wave-line model scans with its first parameter.
pub const WAVE_LINE: [u8; 64] = [
    187, 179, 154, 155, 135, 134, 137, 19, 24, 3, 8, 66, 79, 25, 180, 174, 64, 127, 198, 15, 10, 7, 11, 0, 191,
    192, 115, 238, 237, 236, 241, 47, 70, 76, 235, 26, 133, 208, 34, 175, 183, 146, 147, 148, 150, 151, 152,
    153, 117, 138, 32, 33, 35, 125, 199, 201, 30, 31, 193, 27, 29, 21, 18, 182,
];

/// The scan position after a block: three quarters of the previous one
/// plus half the first parameter (a 17-bit value, rounded down).
pub open spec fn line_smoothed(smoothed: i32, p0: i16) -> i32 {
    ((3 * smoothed as int + 2 * p0 as int) as i32) >> 2i32
}

/// The three waves of the wave line and the smooth blend: the wave at the
/// previous block's scan, and the two around the current scan.
pub struct LineWaves {
    pub w0: int,
    pub w1: int,
    pub w2: int,
    pub smooth: u16,
}

/// The waves for the scan `scan` and the previous block's scan position
/// `previous`.
pub open spec fn line_waves(scan: u16, previous: i16) -> LineWaves {
    let s = (scan >> 10u16) as int;
    let o = if previous < 0 { 63 } else { let i = previous as int / 512; if i > 63 { 63 } else { i } };
    LineWaves {
        w0: 129 * WAVE_LINE@[o] as int,
        w1: 129 * WAVE_LINE@[s] as int,
        w2: 129 * WAVE_LINE@[if s + 1 > 63 { 63 } else { s + 1 }] as int,
        smooth: scan << 6u16,
    }
}

/// One tap of the wave line at `phase`: a rough (coarsely stepped) and a
/// smooth reading, taken between the previous and the current wave below a
/// quarter of the second parameter, and between the current and the next
/// one above it, coarser with each quarter; mixed by the balance, rough
/// first in the lower half and smooth first in the upper.
pub open spec fn line_tap(waves: Seq<u8>, l: LineWaves, p1: i16, phase: u32, rough_xfade: u16, balance: u16) -> i16 {
    let h = phase >> 1u32;
    let (rough, smooth) = if p1 < 8192 {
        (crossfade_u8_spec(waves, l.w0, l.w1, h & 0xfe00_0000u32, rough_xfade), crossfade_u8_spec(waves, l.w0, l.w1, h, rough_xfade))
    } else if p1 < 16384 {
        (crossfade_u8_spec(waves, l.w0, l.w1, h, rough_xfade), crossfade_u8_spec(waves, l.w1, l.w2, h, l.smooth))
    } else if p1 < 24576 {
        (crossfade_u8_spec(waves, l.w1, l.w2, h & 0xfe00_0000u32, l.smooth), crossfade_u8_spec(waves, l.w1, l.w2, h, l.smooth))
    } else {
        (crossfade_u8_spec(waves, l.w1, l.w2, h & 0xf800_0000u32, l.smooth), crossfade_u8_spec(waves, l.w1, l.w2, h & 0xfe00_0000u32, l.smooth))
    };
    if p1 < 16384 { mix_i16_spec(rough, smooth, balance) } else { mix_i16_spec(smooth, rough, balance) }
}

/// One sample of the wave line: a sync pulse restarts the phase; two taps,
/// each followed by a half-increment step of the phase and a step of the
/// rough blend, are averaged.
pub open spec fn line_step(phase: u32, rough: u16, half: u32, step: u16, waves: Seq<u8>, l: LineWaves, p1: i16,
    balance: u16, sync: u8) -> (u32, u16, i16) {
    let p = if sync != 0 { 0u32 } else { phase };
    let t1 = line_tap(waves, l, p1, p, rough, balance) as int;
    let q = p.wrapping_add(half);
    let r = rough.wrapping_add(step);
    let t2 = line_tap(waves, l, p1, q, r, balance) as int;
    (q.wrapping_add(half), r.wrapping_add(step), (((t1 + t2) as i32) >> 1i32) as i16)
}

/// The phase and rough blend after `k` samples of the wave line.
pub open spec fn line_run(phase: u32, rough: u16, half: u32, step: u16, waves: Seq<u8>, l: LineWaves, p1: i16,
    balance: u16, sync: Seq<u8>, k: nat) -> (u32, u16)
    decreases k,
{
    if k == 0 {
        (phase, rough)
    } else {
        let (p, r) = line_run(phase, rough, half, step, waves, l, p1, balance, sync, (k - 1) as nat);
        let st = line_step(p, r, half, step, waves, l, p1, balance, sync[k - 1]);
        (st.0, st.1)
    }
}

/// One tap of the wave line (see `line_tap`).
fn line_tap_exec(waves: &[u8], w0: usize, w1: usize, w2: usize, smooth: u16, p1: i16, phase: u32, rough_xfade: u16,
    balance: u16, Ghost(l): Ghost<LineWaves>) -> (r: i16)
    requires
        waves@.len() >= 129 * 242,
        w0 <= 129 * 241 && w1 <= 129 * 241 && w2 <= 129 * 241,
        l.w0 == w0 && l.w1 == w1 && l.w2 == w2 && l.smooth == smooth,
    ensures
        r == line_tap(waves@, l, p1, phase, rough_xfade, balance),
{
    let h = phase >> 1;
    proof {
        lemma_u32_shr(phase);
        lemma_u32_shr(h);
        lemma_u32_shr(h & 0xfe00_0000);
        lemma_u32_shr(h & 0xf800_0000);
        assert(h & 0xfe00_0000u32 <= h && h & 0xf800_0000u32 <= h) by (bit_vector);
    }
    let (rough, sm) = if p1 < 8192 {
        (crossfade_u8(waves, w0, w1, h & 0xfe00_0000, rough_xfade), crossfade_u8(waves, w0, w1, h, rough_xfade))
    } else if p1 < 16384 {
        (crossfade_u8(waves, w0, w1, h, rough_xfade), crossfade_u8(waves, w1, w2, h, smooth))
    } else if p1 < 24576 {
        (crossfade_u8(waves, w1, w2, h & 0xfe00_0000, smooth), crossfade_u8(waves, w1, w2, h, smooth))
    } else {
        (crossfade_u8(waves, w1, w2, h & 0xf800_0000, smooth), crossfade_u8(waves, w1, w2, h & 0xfe00_0000, smooth))
    };
    if p1 < 16384 { mix_i16(rough, sm, balance) } else { mix_i16(sm, rough, balance) }
}

/// The block's scan position and its three waves (see `line_smoothed` and
/// `line_waves`).
fn line_setup(smoothed: i32, p0: i16, previous_p0: i16) -> (r: (i32, usize, usize, usize, u16))
    requires
        -65536 <= smoothed <= 65536,
    ensures
        r.0 == line_smoothed(smoothed, p0),
        -65536 <= r.0 <= 65536,
        r.1 <= 129 * 241 && r.2 <= 129 * 241 && r.3 <= 129 * 241,
        (LineWaves { w0: r.1 as int, w1: r.2 as int, w2: r.3 as int, smooth: r.4 }) == line_waves(r.0 as u16, previous_p0),
{
    proof {
        lemma_i32_shr((3 * smoothed + 2 * p0 as i32) as i32);
        crate::bits::lemma_i32_shl(p0 as i32);
    }
    let sm: i32 = (3 * smoothed + ((p0 as i32) << 1)) >> 2;
    let scan = sm as u16;
    proof {
        crate::bits::lemma_u16_shr(scan);
        assert(forall|a: int| 0 <= a < 64 ==> #[trigger] WAVE_LINE@[a] <= 241);
    }
    let s = (scan >> 10) as usize;
    let o: usize = if previous_p0 < 0 { 63 } else {
        let i = (previous_p0 as usize) / 512;
        if i > 63 { 63 } else { i }
    };
    let w0 = 129 * WAVE_LINE[o] as usize;
    let w1 = 129 * WAVE_LINE[s] as usize;
    let w2 = 129 * WAVE_LINE[if s + 1 > 63 { 63 } else { s + 1 }] as usize;
    (sm, w0, w1, w2, scan << 6)
}

/// Renders `size` samples of the wave line from the phase, the scan
/// position `smoothed` and the previous block's scan `previous_p0` given,
/// at the oscillator's increment `pi`, with the bank of waves given.
/// Returns the phase, the new scan position and its half (the next block's
/// `previous_p0`).
pub fn render_wave_line(phase: u32, smoothed: i32, previous_p0: i16, pi: u32, p0: i16, p1: i16, waves: &[u8],
    sync: &[u8], buffer: &mut [i16], size: usize) -> (r: (u32, i32, i16))
    requires
        -65536 <= smoothed <= 65536,
        0 < size,
        size <= 0xffff,
        waves@.len() >= 129 * 242,
        size <= sync@.len(),
        size <= old(buffer)@.len(),
    ensures
        ({
            let sm = line_smoothed(smoothed, p0);
            let l = line_waves(sm as u16, previous_p0);
            let step = (32768int / size as int) as u16;
            let balance = ((p1 as u32) << 3u32) as u16;
            &&& forall|k: int| 0 <= k < size ==> #[trigger] final(buffer)@[k] == ({
                let (p, q) = line_run(phase, 0, pi >> 1u32, step, waves@, l, p1, balance, sync@, k as nat);
                line_step(p, q, pi >> 1u32, step, waves@, l, p1, balance, sync@[k]).2
            })
            &&& r.0 == line_run(phase, 0, pi >> 1u32, step, waves@, l, p1, balance, sync@, size as nat).0
            &&& r.1 == sm
            &&& r.2 == (sm >> 1i32) as i16
        }),
        -65536 <= r.1 <= 65536,
        final(buffer)@.len() == old(buffer)@.len(),
        forall|k: int| size <= k < old(buffer)@.len() ==> #[trigger] final(buffer)@[k] == old(buffer)@[k],
{
    let (sm, w0, w1, w2, smooth) = line_setup(smoothed, p0, previous_p0);
    let ghost l = LineWaves { w0: w0 as int, w1: w1 as int, w2: w2 as int, smooth };
    let step = (32768 / size) as u16;
    let balance = ((p1 as u32) << 3) as u16;
    let half = pi >> 1;
    let mut ph = phase;
    let mut rough: u16 = 0;
    let mut k: usize = 0;
    while k < size
        invariant
            k <= size,
            size <= sync@.len(),
            size <= buffer@.len(),
            buffer@.len() == old(buffer)@.len(),
            waves@.len() >= 129 * 242,
            w0 <= 129 * 241 && w1 <= 129 * 241 && w2 <= 129 * 241,
            l.w0 == w0 && l.w1 == w1 && l.w2 == w2 && l.smooth == smooth,
            (ph, rough) == line_run(phase, 0, half, step, waves@, l, p1, balance, sync@, k as nat),
            forall|j: int| 0 <= j < k ==> #[trigger] buffer@[j] == ({
                let (p, q) = line_run(phase, 0, half, step, waves@, l, p1, balance, sync@, j as nat);
                line_step(p, q, half, step, waves@, l, p1, balance, sync@[j]).2
            }),
            forall|j: int| size <= j < buffer@.len() ==> #[trigger] buffer@[j] == old(buffer)@[j],
        decreases size - k,
    {
        if sync[k] != 0 {
            ph = 0;
        }
        let t1 = line_tap_exec(waves, w0, w1, w2, smooth, p1, ph, rough, balance, Ghost(l)) as i32;
        ph = ph.wrapping_add(half);
        rough = rough.wrapping_add(step);
        let t2 = line_tap_exec(waves, w0, w1, w2, smooth, p1, ph, rough, balance, Ghost(l)) as i32;
        ph = ph.wrapping_add(half);
        rough = rough.wrapping_add(step);
        proof {
            lemma_i32_shr((t1 + t2) as i32);
        }
        buffer[k] = ((t1 + t2) >> 1) as i16;
        k += 1;
    }
    proof {
        lemma_i32_shr(sm);
    }
    (ph, sm, (sm >> 1) as i16)
}

} // verus!
