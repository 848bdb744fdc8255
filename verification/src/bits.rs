//! Bridges between the bit-level form of an expression (as the hardware
//! and the executable code phrase it) and its arithmetic form (as the
//! contracts phrase it).

use vstd::prelude::*;

verus! {

/// Masking with a low-bit mask is the remainder by the corresponding
/// power of two, and therefore bounded by it.
pub proof fn lemma_u8_low_masks()
    by (bit_vector)
    ensures
        forall|x: u8| #[trigger] (x & 0x01) == x % 2,
        forall|x: u8| #[trigger] (x & 0x03) == x % 4,
        forall|x: u8| #[trigger] (x & 0x07) == x % 8,
        forall|x: u8| #[trigger] (x & 0x0f) == x % 16,
        forall|x: u8| #[trigger] (x & 0x1f) == x % 32,
{
}

/// The 16-bit forms of the same mask-remainder bridges.
pub proof fn lemma_u16_low_masks()
    by (bit_vector)
    ensures
        forall|x: u16| #[trigger] (x & 0x0f) == x % 16,
        forall|x: u16| #[trigger] (x & 0xff) == x % 256,
        forall|x: u16| #[trigger] (x & 0xfff) == x % 4096,
{
}

/// The flags byte packed from the four meaningful bits: zero,
/// subtract, half-carry and carry, high to low; the low nibble is
/// always zero.
pub open spec fn flags_byte(z: bool, n: bool, h: bool, c: bool) -> u8 {
    ((if z {
        0x80u8
    } else {
        0u8
    }) + (if n {
        0x40u8
    } else {
        0u8
    }) + (if h {
        0x20u8
    } else {
        0u8
    }) + (if c {
        0x10u8
    } else {
        0u8
    })) as u8
}

/// Reading the packed flags byte gives back the four bits it was
/// packed from, and its low nibble is zero.
pub broadcast proof fn lemma_flags_byte(z: bool, n: bool, h: bool, c: bool)
    ensures
        #![trigger flags_byte(z, n, h, c)]
        ((flags_byte(z, n, h, c) >> 7) & 1 == 1) == z,
        ((flags_byte(z, n, h, c) >> 6) & 1 == 1) == n,
        ((flags_byte(z, n, h, c) >> 5) & 1 == 1) == h,
        ((flags_byte(z, n, h, c) >> 4) & 1 == 1) == c,
        flags_byte(z, n, h, c) & 0x0f == 0,
{
    let fb = flags_byte(z, n, h, c);
    assert(((fb >> 7) & 1 == 1) == z && ((fb >> 6) & 1 == 1) == n && ((fb >> 5) & 1 == 1) == h && ((
    fb >> 4) & 1 == 1) == c && fb & 0x0f == 0) by (bit_vector)
        requires
            fb == ((if z {
                0x80u8
            } else {
                0u8
            }) + (if n {
                0x40u8
            } else {
                0u8
            }) + (if h {
                0x20u8
            } else {
                0u8
            }) + (if c {
                0x10u8
            } else {
                0u8
            })) as u8,
    ;
}

} // verus!
