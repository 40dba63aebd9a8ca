//! Spec-level model of the 16-bit quantities the 6809 works with:
//! wrapping arithmetic on the 64 KB address space, splitting and joining
//! big-endian words, and sign extension of offsets.

use vstd::prelude::*;

verus! {

/// Wrapping 16-bit addition (addresses and registers wrap mod 65536).
pub open spec fn wadd(a: u16, b: u16) -> u16 {
    if a + b > 0xFFFF {
        (a + b - 0x10000) as u16
    } else {
        (a + b) as u16
    }
}

/// Wrapping 16-bit subtraction.
pub open spec fn wsub(a: u16, b: u16) -> u16 {
    if a - b < 0 {
        (a - b + 0x10000) as u16
    } else {
        (a - b) as u16
    }
}

/// Wrapping 8-bit addition.
pub open spec fn wadd8(a: u8, b: u8) -> u8 {
    if a + b > 0xFF {
        (a + b - 0x100) as u8
    } else {
        (a + b) as u8
    }
}

/// Wrapping 8-bit subtraction.
pub open spec fn wsub8(a: u8, b: u8) -> u8 {
    if a - b < 0 {
        (a - b + 0x100) as u8
    } else {
        (a - b) as u8
    }
}

/// High byte of a 16-bit word.
pub open spec fn hi8(w: u16) -> u8 {
    (w >> 8) as u8
}

/// Low byte of a 16-bit word.
pub open spec fn lo8(w: u16) -> u8 {
    w as u8
}

/// Join two bytes into a 16-bit word, high byte first (big-endian order).
pub open spec fn word(hi: u8, lo: u8) -> u16 {
    ((hi as u16) << 8) | (lo as u16)
}

/// A word splits into its two bytes and joins back to itself.
pub proof fn lemma_word_split(w: u16)
    ensures
        word(hi8(w), lo8(w)) == w,
{
    assert(((((w >> 8) as u8) as u16) << 8) | ((w as u8) as u16) == w) by (bit_vector);
}

/// Composed wrapping subtractions add up.
pub proof fn lemma_wsub_wsub(a: u16, i: u16, j: u16)
    requires
        i + j <= 0xFFFF,
    ensures
        wsub(wsub(a, i), j) == wsub(a, (i + j) as u16),
{
}

/// Wrapping subtractions of different amounts land on different addresses.
pub proof fn lemma_wsub_neq(a: u16, i: u16, j: u16)
    requires
        i < j,
    ensures
        wsub(a, i) != wsub(a, j),
{
}

/// Stepping up from a wrapping subtraction by no more than was taken off.
pub proof fn lemma_wadd_wsub(a: u16, i: u16, k: u16)
    requires
        k <= i,
    ensures
        wadd(wsub(a, i), k) == wsub(a, (i - k) as u16),
{
}

/// Sign extension of a byte to 16 bits (two's complement).
pub open spec fn sign_ext8(b: u8) -> u16 {
    ((b as i8) as i16) as u16
}

/// Sign extension of the low five bits of an indexed post-byte.
pub open spec fn sign_ext5(post: u8) -> u16 {
    if post & 0x10 != 0 {
        (((post | 0xE0) as i8) as i16) as u16
    } else {
        (post & 0x1F) as u16
    }
}

} // verus!
