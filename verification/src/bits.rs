//! Shifts and masks as arithmetic: a right shift divides rounding towards
//! minus infinity, a left shift of a value that fits multiplies, a mask
//! keeps a remainder.
use vstd::prelude::*;

verus! {

/// Right shifts of a signed 32-bit value bracket the value between
/// consecutive multiples of the power of two.
pub proof fn lemma_i32_shr(x: i32)
    by (bit_vector)
    ensures
        (x >> 1i32) * 2 <= x && x < (x >> 1i32) * 2 + 2,
        (x >> 2i32) * 4 <= x && x < (x >> 2i32) * 4 + 4,
        (x >> 3i32) * 8 <= x && x < (x >> 3i32) * 8 + 8,
        (x >> 4i32) * 16 <= x && x < (x >> 4i32) * 16 + 16,
        (x >> 5i32) * 32 <= x && x < (x >> 5i32) * 32 + 32,
        (x >> 6i32) * 64 <= x && x < (x >> 6i32) * 64 + 64,
        (x >> 7i32) * 128 <= x && x < (x >> 7i32) * 128 + 128,
        (x >> 8i32) * 256 <= x && x < (x >> 8i32) * 256 + 256,
        (x >> 9i32) * 512 <= x && x < (x >> 9i32) * 512 + 512,
        (x >> 10i32) * 1024 <= x && x < (x >> 10i32) * 1024 + 1024,
        (x >> 12i32) * 4096 <= x && x < (x >> 12i32) * 4096 + 4096,
        (x >> 13i32) * 8192 <= x && x < (x >> 13i32) * 8192 + 8192,
        (x >> 14i32) * 16384 <= x && x < (x >> 14i32) * 16384 + 16384,
        (x >> 15i32) * 32768 <= x && x < (x >> 15i32) * 32768 + 32768,
        (x >> 16i32) * 65536 <= x && x < (x >> 16i32) * 65536 + 65536,
        (x >> 17i32) * 131072 <= x && x < (x >> 17i32) * 131072 + 131072,
{
}

/// Right shifts of a signed 64-bit value bracket the value between
/// consecutive multiples of the power of two.
pub proof fn lemma_i64_shr(x: i64)
    by (bit_vector)
    ensures
        (x >> 1u64) * 2 <= x && x < (x >> 1u64) * 2 + 2,
        (x >> 8u64) * 256 <= x && x < (x >> 8u64) * 256 + 256,
        (x >> 14u64) * 16384 <= x && x < (x >> 14u64) * 16384 + 16384,
        (x >> 15u64) * 32768 <= x && x < (x >> 15u64) * 32768 + 32768,
        (x >> 16u64) * 65536 <= x && x < (x >> 16u64) * 65536 + 65536,
{
}

/// Right shifts of a signed 16-bit value bracket the value between
/// consecutive multiples of the power of two.
pub proof fn lemma_i16_shr(x: i16)
    by (bit_vector)
    ensures
        (x >> 1i16) * 2 <= x && x < (x >> 1i16) * 2 + 2,
        (x >> 2i16) * 4 <= x && x < (x >> 2i16) * 4 + 4,
        (x >> 6i16) * 64 <= x && x < (x >> 6i16) * 64 + 64,
        (x >> 7i16) * 128 <= x && x < (x >> 7i16) * 128 + 128,
        (x >> 8i16) * 256 <= x && x < (x >> 8i16) * 256 + 256,
        (x >> 9i16) * 512 <= x && x < (x >> 9i16) * 512 + 512,
        (x >> 11i16) * 2048 <= x && x < (x >> 11i16) * 2048 + 2048,
        (x >> 13i16) * 8192 <= x && x < (x >> 13i16) * 8192 + 8192,
{
}

/// A right shift of an unsigned 32-bit value divides it; a low mask keeps the
/// remainder.
pub proof fn lemma_u32_shr(x: u32)
    by (bit_vector)
    ensures
        x >> 1u32 == x / 2,
        x >> 4u32 == x / 16,
        x >> 2u32 == x / 4,
        x >> 7u32 == x / 128,
        x >> 8u32 == x / 256,
        x >> 14u32 == x / 0x4000,
        x >> 15u32 == x / 0x8000,
        x >> 16u32 == x / 0x1_0000,
        x >> 17u32 == x / 0x2_0000,
        x >> 18u32 == x / 0x4_0000,
        x >> 19u32 == x / 0x8_0000,
        x >> 24u32 == x / 0x100_0000,
        x >> 31u32 == x / 0x8000_0000,
        x >> 22u32 == x / 0x40_0000,
        x >> 6u32 == x / 64,
        x >> 10u32 == x / 1024,
        x >> 12u32 == x / 4096,
        x & 0xf == x % 16,
        x & 0xffff == x % 0x1_0000,
        x & 0xff_ffff == x % 0x100_0000,
        x & 0x0fff == x % 4096,
        x & 0xff == x % 256,
        x & 0x1fff == x % 8192,
{
}

/// A right shift of an unsigned 16-bit value divides it; a low mask keeps the
/// remainder.
pub proof fn lemma_u16_shr(x: u16)
    by (bit_vector)
    ensures
        x >> 1u16 == x / 2,
        x >> 2u16 == x / 4,
        x >> 4u16 == x / 16,
        x >> 6u16 == x / 64,
        x >> 7u16 == x / 128,
        x >> 8u16 == x / 256,
        x >> 12u16 == x / 4096,
        x >> 10u16 == x / 1024,
        x >> 11u16 == x / 2048,
        x & 0xf == x % 16,
        x & 0x7f == x % 128,
        x & 0xff == x % 256,
        x & 0x0fff == x % 4096,
{
}

/// A left shift of a signed 32-bit value that still fits multiplies it.
pub proof fn lemma_i32_shl(x: i32)
    by (bit_vector)
    ensures
        -0x4000_0000 <= x < 0x4000_0000 ==> x << 1i32 == x * 2,
        -0x800_0000 <= x < 0x800_0000 ==> x << 4i32 == x * 16,
        -0x200_0000 <= x < 0x200_0000 ==> x << 6i32 == x * 64,
        -0x100_0000 <= x < 0x100_0000 ==> x << 7i32 == x * 128,
        -0x80_0000 <= x < 0x80_0000 ==> x << 8i32 == x * 256,
        -0x40_0000 <= x < 0x40_0000 ==> x << 9i32 == x * 512,
        -0x2_0000 <= x < 0x2_0000 ==> x << 14i32 == x * 16384,
        0 <= x < 0x4000 ==> x << 17i32 == x * 131072,
{
}

/// A mask of ones below a power of two keeps an index in range, and the slot
/// past the last wraps to the first.
pub proof fn lemma_ring_mask(mask: u32, x: u32)
    by (bit_vector)
    requires
        mask == 0 || mask & ((mask + 1) as u32) == 0,
        mask < 1024,
        x <= 2048,
    ensures
        x & mask <= mask,
        x <= mask ==> x & mask == x,
        x == mask + 1 ==> x & mask == 0,
{
}

/// A 7.7 pitch of at most 15731, moved to an 8.24 table position, falls in
/// the table's first 123 entries.
pub proof fn lemma_cutoff_index(x: i32)
    by (bit_vector)
    requires
        0 <= x <= 15731,
    ensures
        ((x << 17i32) as u32) >> 24u32 <= 122,
{
}

/// A delay line of `1024 >> s` slots (`s <= 8`) has at least four slots and
/// its last index is a mask of ones; a 10.22 position shifted down by `s`
/// more bits stays below 1024.
pub proof fn lemma_line_size(phase: u32, s: u32)
    by (bit_vector)
    requires
        s <= 8,
    ensures
        4 <= (1024u32 >> s) <= 1024,
        (((1024u32 >> s) - 1) as u32) & ((((1024u32 >> s) - 1) as u32 + 1) as u32) == 0,
        phase >> ((22 + s) as u32) <= 1023,
{
}

} // verus!
