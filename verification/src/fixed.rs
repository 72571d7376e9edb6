//! Fixed-point primitives shared by the oscillators: symmetric 16-bit
//! clipping, table interpolation at 8.24 and 8.8 fixed-point positions, and
//! balance-weighted mixing. Each is stated exactly, in the integer widths and
//! shifts it computes with.
use vstd::prelude::*;
use crate::bits::{lemma_i64_shr, lemma_u16_shr, lemma_u32_shr};

verus! {

/// `x` clamped to the symmetric 16-bit range `-32767..=32767`.
pub open spec fn clip16_sym_spec(x: i32) -> i32 {
    if x < -32767 {
        -32767i32
    } else if x > 32767 {
        32767i32
    } else {
        x
    }
}

/// The integral and fractional parts of an 8.24 position index a 257-entry
/// table.
pub proof fn lemma_phase_824(phase: u32)
    ensures
        (phase >> 24u32) < 256,
        ((phase >> 8u32) & 0xffff) <= 0xffff,
{
    lemma_u32_shr(phase);
    lemma_u32_shr(phase >> 8u32);
}

/// The integral and fractional parts of an 8.8 position index a 257-entry
/// table.
pub proof fn lemma_index_88(index: u16)
    ensures
        (index >> 8u16) < 256,
        (index & 0xff) <= 0xff,
{
    lemma_u16_shr(index);
}

/// A 17-bit difference scaled by a 16-bit weight stays well inside 64 bits,
/// and so do its shifts.
pub proof fn lemma_scaled_difference(d: i64, f: i64)
    requires
        -65536 < d < 65536,
        0 <= f < 65536,
    ensures
        -0x1_0000_0000 < d * f < 0x1_0000_0000,
        -65537 < ((d * f) as i64 >> 16u64) < 65537,
        -0x100_0000_0000 < ((d * f) as i64 >> 8u64) < 0x100_0000_0000,
{
    assert(-0x1_0000_0000 < d * f < 0x1_0000_0000) by (nonlinear_arith)
        requires
            -65536 < d < 65536,
            0 <= f < 65536,
    ;
    lemma_i64_shr((d * f) as i64);
}

/// Clamps `x` to `-32767..=32767`.
pub fn clip16_sym(x: i32) -> (r: i32)
    ensures
        r == clip16_sym_spec(x),
        -32767 <= r <= 32767,
{
    if x < -32767 {
        -32767
    } else if x > 32767 {
        32767
    } else {
        x
    }
}

/// Linear interpolation between `a` and `b` with a 16-bit weight `f`
/// (`0` gives `a`, `65536` would give `b`): `a + ((b - a) * f) >> 16`.
pub open spec fn lerp16(a: i16, b: i16, f: u32) -> i16 {
    (a as i64 + ((((b as i64) - (a as i64)) * (f as i64)) as i64 >> 16u64)) as i16
}

/// Reading of a signed table at the 8.24 fixed-point position `phase`: the
/// entries at `phase >> 24` and the next one, blended by bits 8..24.
pub open spec fn interpolate_824_i16_spec(table: Seq<i16>, phase: u32) -> i16 {
    lerp16(
        table[(phase >> 24u32) as int],
        table[(phase >> 24u32) as int + 1],
        (phase >> 8u32) & 0xffff,
    )
}

/// Reads `table` at the 8.24 fixed-point position `phase`.
pub fn interpolate_824_i16(table: &[i16; 257], phase: u32) -> (r: i16)
    ensures
        r == interpolate_824_i16_spec(table@, phase),
{
    proof {
        lemma_phase_824(phase);
    }
    let i = (phase >> 24) as usize;
    let a = table[i] as i64;
    let b = table[i + 1] as i64;
    let f = ((phase >> 8) & 0xffff) as i64;
    proof {
        lemma_scaled_difference((b - a) as i64, f);
    }
    (a + (((b - a) * f) >> 16)) as i16
}

/// Reading of the 1025-entry table that starts at `start` at the 10.22
/// fixed-point position `phase`: the entries at `phase >> 22` and the next
/// one, blended by bits 6..22.
pub open spec fn interpolate_1022_spec(table: Seq<i16>, start: int, phase: u32) -> i16 {
    lerp16(
        table[start + (phase >> 22u32) as int],
        table[start + (phase >> 22u32) as int + 1],
        (phase >> 6u32) & 0xffff,
    )
}

/// Reads the 1025-entry table that starts at `start` in `table` at the 10.22
/// fixed-point position `phase`.
pub fn interpolate_1022<const N: usize>(table: &[i16; N], start: usize, phase: u32) -> (r: i16)
    requires
        start + 1025 <= table@.len(),
    ensures
        r == interpolate_1022_spec(table@, start as int, phase),
{
    proof {
        lemma_u32_shr(phase);
        lemma_u32_shr(phase >> 6u32);
    }
    let i = start + (phase >> 22) as usize;
    let a = table[i] as i64;
    let b = table[i + 1] as i64;
    let f = ((phase >> 6) & 0xffff) as i64;
    proof {
        lemma_scaled_difference((b - a) as i64, f);
    }
    (a + (((b - a) * f) >> 16)) as i16
}

/// Linear interpolation between `a` and `b` with an 8-bit weight `f`:
/// `a + ((b - a) * f) >> 8`.
pub open spec fn lerp8(a: i16, b: i16, f: u16) -> i16 {
    (a as i64 + ((((b as i64) - (a as i64)) * (f as i64)) as i64 >> 8u64)) as i16
}

/// Reading of a signed table at the 8.8 fixed-point position `index`.
pub open spec fn interpolate_88_i16_spec(table: Seq<i16>, index: u16) -> i16 {
    lerp8(table[(index >> 8u16) as int], table[(index >> 8u16) as int + 1], index & 0xff)
}

/// Reads `table` at the 8.8 fixed-point position `index`.
pub fn interpolate_88_i16(table: &[i16; 257], index: u16) -> (r: i16)
    ensures
        r == interpolate_88_i16_spec(table@, index),
{
    proof {
        lemma_index_88(index);
    }
    let i = (index >> 8) as usize;
    let a = table[i] as i64;
    let b = table[i + 1] as i64;
    let f = (index & 0xff) as i64;
    proof {
        lemma_scaled_difference((b - a) as i64, f);
    }
    (a + (((b - a) * f) >> 8)) as i16
}

/// Reading of an unsigned table at the 8.24 fixed-point position `phase`,
/// computed with 32-bit wrap-around as the unsigned blend is.
pub open spec fn interpolate_824_u16_spec(table: Seq<u16>, phase: u32) -> u16 {
    let a = table[(phase >> 24u32) as int] as u32;
    let b = table[(phase >> 24u32) as int + 1] as u32;
    let f = (phase >> 8u32) & 0xffff;
    a.wrapping_add(b.wrapping_sub(a).wrapping_mul(f) >> 16u32) as u16
}

/// Reads the unsigned `table` at the 8.24 fixed-point position `phase`.
pub fn interpolate_824_u16(table: &[u16; 257], phase: u32) -> (r: u16)
    ensures
        r == interpolate_824_u16_spec(table@, phase),
{
    proof {
        lemma_phase_824(phase);
    }
    let i = (phase >> 24) as usize;
    let a = table[i] as u32;
    let b = table[i + 1] as u32;
    let f = (phase >> 8) & 0xffff;
    a.wrapping_add(b.wrapping_sub(a).wrapping_mul(f) >> 16) as u16
}

/// Between two ascending entries, the unsigned reading stays between them.
pub proof fn lemma_interpolate_824_u16_between(table: Seq<u16>, phase: u32)
    requires
        (phase >> 24u32) + 1 < table.len(),
        table[(phase >> 24u32) as int] <= table[(phase >> 24u32) as int + 1],
    ensures
        table[(phase >> 24u32) as int] <= interpolate_824_u16_spec(table, phase) <= table[(phase >> 24u32) as int + 1],
{
    let a = table[(phase >> 24u32) as int] as u32;
    let b = table[(phase >> 24u32) as int + 1] as u32;
    let f = (phase >> 8u32) & 0xffff;
    lemma_u32_shr(phase >> 8u32);
    let d = b.wrapping_sub(a);
    assert(d == b - a);
    assert(0 <= d * f <= d * 65535) by (nonlinear_arith)
        requires
            0 <= f <= 65535,
            d >= 0,
    ;
    assert(d.wrapping_mul(f) == d * f) by {
        assert(d * f < 0x1_0000_0000) by (nonlinear_arith)
            requires
                0 <= f <= 65535,
                0 <= d <= 65535,
        ;
        vstd::arithmetic::div_mod::lemma_small_mod((d * f) as nat, 0x1_0000_0000);
    }
    lemma_u32_shr(d.wrapping_mul(f));
    assert((d * f) / 0x1_0000 <= d) by (nonlinear_arith)
        requires
            0 <= d * f <= d * 65535,
            d >= 0,
    ;
}

/// Crossfade between readings of two tables at the same phase, weighted by
/// the 16-bit `balance` (0 gives the first table).
pub open spec fn crossfade_spec(table_a: Seq<i16>, table_b: Seq<i16>, phase: u32, balance: u16) -> i16 {
    lerp16(
        interpolate_824_i16_spec(table_a, phase),
        interpolate_824_i16_spec(table_b, phase),
        balance as u32,
    )
}

/// Crossfades between two tables read at `phase`.
pub fn crossfade(table_a: &[i16; 257], table_b: &[i16; 257], phase: u32, balance: u16) -> (r: i16)
    ensures
        r == crossfade_spec(table_a@, table_b@, phase, balance),
{
    let a = interpolate_824_i16(table_a, phase) as i64;
    let b = interpolate_824_i16(table_b, phase) as i64;
    proof {
        lemma_scaled_difference((b - a) as i64, balance as i64);
    }
    (a + (((b - a) * (balance as i64)) >> 16)) as i16
}

/// `(a * (65535 - balance) + b * balance) >> 16`: a balance-weighted mix of
/// two signed samples (balance 0 gives nearly `a`, 65535 nearly `b`).
pub open spec fn mix_i16_spec(a: i16, b: i16, balance: u16) -> i16 {
    (((a as i32) * (65535 - balance as i32) + (b as i32) * (balance as i32)) as i32 >> 16i32) as i16
}

/// Mixes two signed samples by `balance`.
pub fn mix_i16(a: i16, b: i16, balance: u16) -> (r: i16)
    ensures
        r == mix_i16_spec(a, b, balance),
{
    proof {
        lemma_mix_bounds(a as int, b as int, balance as int);
    }
    ((a as i32 * (65535 - balance as i32) + b as i32 * balance as i32) >> 16) as i16
}

/// A mix lies between its two samples (rounding down by at most 1), is all
/// `a` at balance 0 and all `b` at full balance, and follows `b` upwards.
pub proof fn lemma_mix_i16_balances(a: i16, b: i16, w: u16, b2: i16)
    ensures
        (if a < b { a as int } else { b as int }) - 1 <= mix_i16_spec(a, b, w) as int,
        mix_i16_spec(a, b, w) as int <= (if a > b { a as int } else { b as int }),
        a as int - 1 <= mix_i16_spec(a, b, 0) as int <= a as int,
        b as int - 1 <= mix_i16_spec(a, b, 65535) as int <= b as int,
        b <= b2 ==> mix_i16_spec(a, b, w) <= mix_i16_spec(a, b2, w),
{
    let hi: int = if a > b { a as int } else { b as int };
    let lo: int = if a < b { a as int } else { b as int };
    let v = (a as int) * (65535 - w as int) + (b as int) * (w as int);
    let v2 = (a as int) * (65535 - w as int) + (b2 as int) * (w as int);
    lemma_mix_bounds(a as int, b as int, w as int);
    lemma_mix_bounds(a as int, b2 as int, w as int);
    assert(lo * 65535 <= v <= hi * 65535) by (nonlinear_arith)
        requires
            v == (a as int) * (65535 - w as int) + (b as int) * (w as int),
            lo <= a <= hi,
            lo <= b <= hi,
            0 <= w <= 65535,
    ;
    assert(b <= b2 ==> v <= v2) by (nonlinear_arith)
        requires
            v == (a as int) * (65535 - w as int) + (b as int) * (w as int),
            v2 == (a as int) * (65535 - w as int) + (b2 as int) * (w as int),
            0 <= w,
    ;
    crate::bits::lemma_i32_shr(v as i32);
    crate::bits::lemma_i32_shr(v2 as i32);
    let v0 = (a as int) * 65535;
    let v1 = (b as int) * 65535;
    lemma_mix_bounds(a as int, b as int, 0);
    lemma_mix_bounds(a as int, b as int, 65535);
    assert((a as i32) * (65535 - 0u16 as i32) + (b as i32) * (0u16 as i32) == v0);
    assert((a as i32) * (65535 - 65535u16 as i32) + (b as i32) * (65535u16 as i32) == v1);
    crate::bits::lemma_i32_shr(v0 as i32);
    crate::bits::lemma_i32_shr(v1 as i32);
}

/// The weighted sum of a mix stays within the 32-bit range.
proof fn lemma_mix_bounds(a: int, b: int, w: int)
    requires
        -32768 <= a < 32768,
        -32768 <= b < 32768,
        0 <= w < 65536,
    ensures
        -32768 * 65535 <= a * (65535 - w) + b * w <= 32767 * 65535,
        -32768 * 65535 <= a * (65535 - w) <= 32767 * 65535,
        -32768 * 65535 <= b * w <= 32767 * 65535,
{
    assert(-32768 * 65535 <= a * (65535 - w) + b * w <= 32767 * 65535) by (nonlinear_arith)
        requires
            -32768 <= a < 32768,
            -32768 <= b < 32768,
            0 <= w < 65536,
    ;
    assert(-32768 * 65535 <= a * (65535 - w) <= 32767 * 65535) by (nonlinear_arith)
        requires
            -32768 <= a < 32768,
            0 <= w < 65536,
    ;
    assert(-32768 * 65535 <= b * w <= 32767 * 65535) by (nonlinear_arith)
        requires
            -32768 <= b < 32768,
            0 <= w < 65536,
    ;
}

/// `(a * (65535 - balance) + b * balance) >> 16` on unsigned samples.
pub open spec fn mix_u16_spec(a: u16, b: u16, balance: u16) -> u16 {
    (((a as u32) * (65535 - balance as u32) + (b as u32) * (balance as u32)) as u32 >> 16u32) as u16
}

/// Mixes two unsigned samples by `balance`.
pub fn mix_u16(a: u16, b: u16, balance: u16) -> (r: u16)
    ensures
        r == mix_u16_spec(a, b, balance),
{
    proof {
        assert((a as int) * (65535 - balance as int) <= 65535 * (65535 - balance as int)) by (nonlinear_arith)
            requires a <= 65535, balance <= 65535;
        assert((b as int) * (balance as int) <= 65535 * (balance as int)) by (nonlinear_arith)
            requires b <= 65535, balance <= 65535;
    }
    ((a as u32 * (65535 - balance as u32) + b as u32 * balance as u32) >> 16) as u16
}

/// Reading of an 8-bit table of unsigned samples, starting at `start`, at
/// the 8.24 position `phase`: the entry at `phase >> 24` moved to the top of
/// 16 bits, plus the step to the next entry scaled by the 24-bit fraction,
/// re-centred on zero.
pub open spec fn interpolate_824_u8_spec(table: Seq<u8>, start: int, phase: u32) -> i16 {
    let i = start + (phase >> 24u32) as int;
    let a = table[i] as int;
    let b = table[i + 1] as int;
    (a * 256 + ((((b - a) * (phase & 0xff_ffffu32) as int) as i64) >> 16u64) as int - 32768) as i16
}

/// Reads the 8-bit table starting at `start` at the 8.24 position `phase`.
pub fn interpolate_824_u8(table: &[u8], start: usize, phase: u32) -> (r: i16)
    requires
        start + (phase >> 24u32) + 1 < table@.len(),
    ensures
        r == interpolate_824_u8_spec(table@, start as int, phase),
{
    let n = table.len();
    let hi = (phase >> 24) as usize;
    proof {
        lemma_u32_shr(phase);
        assert(hi as int == (phase >> 24u32) as int);
        assert(start + hi + 1 < n);
    }
    let i = start + hi;
    let a = table[i] as i64;
    let b = table[i + 1] as i64;
    let f = (phase & 0xff_ffff) as i64;
    proof {
        lemma_u32_shr(phase);
        assert(-255 * 0x100_0000 <= (b - a) * f <= 255 * 0x100_0000) by (nonlinear_arith)
            requires
                -255 <= b - a <= 255,
                0 <= f < 0x100_0000,
        ;
        lemma_i64_shr(((b - a) * f) as i64);
    }
    (a * 256 + (((b - a) * f) >> 16) - 32768) as i16
}

/// Crossfade between readings of two 8-bit tables (starting at `start_a`
/// and `start_b` in `table`) at the same phase, weighted by `balance`.
pub open spec fn crossfade_u8_spec(table: Seq<u8>, start_a: int, start_b: int, phase: u32, balance: u16) -> i16 {
    lerp16(
        interpolate_824_u8_spec(table, start_a, phase),
        interpolate_824_u8_spec(table, start_b, phase),
        balance as u32,
    )
}

/// Crossfades between two 8-bit tables read at `phase`.
pub fn crossfade_u8(table: &[u8], start_a: usize, start_b: usize, phase: u32, balance: u16) -> (r: i16)
    requires
        start_a + (phase >> 24u32) + 1 < table@.len(),
        start_b + (phase >> 24u32) + 1 < table@.len(),
    ensures
        r == crossfade_u8_spec(table@, start_a as int, start_b as int, phase, balance),
{
    let a = interpolate_824_u8(table, start_a, phase) as i64;
    let b = interpolate_824_u8(table, start_b, phase) as i64;
    proof {
        lemma_scaled_difference((b - a) as i64, balance as i64);
    }
    (a + (((b - a) * (balance as i64)) >> 16)) as i16
}

} // verus!
