//! Reading the 8-bit delay lines of the waveguide models: a position a
//! whole number of samples (plus a 16-bit fraction) behind the write
//! position, on a line whose length is a power of two.
use vstd::prelude::*;
use crate::bits::lemma_i32_shr;
use crate::fixed::{mix_i16, mix_i16_spec};

verus! {

/// The line read `integral` samples (and `fraction / 65536` more) behind
/// the write position `ptr`: the two neighbouring entries, mixed.
pub open spec fn line_mix(line: Seq<i8>, len: int, ptr: u16, integral: u16, fraction: u16) -> i16 {
    let p = ptr.wrapping_add((2 * len) as u16).wrapping_sub(integral);
    mix_i16_spec(line[p as int % len] as i16, line[p.wrapping_sub(1) as int % len] as i16, fraction)
}

/// The mix of two 8-bit samples stays within 8 bits.
pub proof fn lemma_mix_i8(a: i16, b: i16, w: u16)
    requires
        -128 <= a <= 127,
        -128 <= b <= 127,
    ensures
        -128 <= mix_i16_spec(a, b, w) <= 127,
{
    let sum = a as int * (65535 - w as int) + b as int * w as int;
    assert(-128 * 65535 <= sum <= 127 * 65535) by (nonlinear_arith)
        requires
            -128 <= a <= 127,
            -128 <= b <= 127,
            0 <= w <= 65535,
            sum == a as int * (65535 - w as int) + b as int * w as int,
    ;
    lemma_i32_shr(sum as i32);
}

/// Reads a delay line of 1024, 2048 or 4096 entries (see `line_mix`).
pub fn line_mix_exec(line: &[i8], len: usize, ptr: u16, integral: u16, fraction: u16) -> (r: i16)
    requires
        line@.len() == len,
        len == 1024 || len == 2048 || len == 4096,
    ensures
        r == line_mix(line@, len as int, ptr, integral, fraction),
        -128 <= r <= 127,
{
    let p: u16 = ptr.wrapping_add((2 * len) as u16).wrapping_sub(integral);
    let a = line[(p as usize) % len] as i16;
    let b = line[(p.wrapping_sub(1) as usize) % len] as i16;
    proof {
        lemma_mix_i8(a, b, fraction);
    }
    mix_i16(a, b, fraction)
}

} // verus!
