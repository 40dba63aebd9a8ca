//! ALU (Arithmetic Logic Unit) helpers for the 6809.
//!
//! Each operation takes its operand(s) and the condition codes, computes the
//! result, and updates the flags. For every operation a spec function states
//! the result and the exact flag effects; the executable function's contract
//! is equality with it, and the instruction-outcome model is built from the
//! same spec functions. Flags a spec function does not name are left
//! unchanged, which its `..cc` frame makes explicit.

use vstd::prelude::*;

use crate::registers::ConditionCodes;
use crate::words::{wadd, wadd8, word, wsub, wsub8};

verus! {

// ---------------------------------------------------------------------------
// 8-bit arithmetic
// ---------------------------------------------------------------------------

/// ADD: result = a + b. Sets H, N, Z, V, C.
pub open spec fn spec_add8(a: u8, b: u8, cc: ConditionCodes) -> (u8, ConditionCodes) {
    let r = wadd8(a, b);
    (
        r,
        ConditionCodes {
            h: (a ^ b ^ r) & 0x10 != 0,
            n: r & 0x80 != 0,
            z: r == 0,
            v: (a ^ r) & (b ^ r) & 0x80 != 0,
            c: a + b > 0xFF,
            ..cc
        },
    )
}

pub fn add8(a: u8, b: u8, cc: &mut ConditionCodes) -> (r: u8)
    ensures
        (r, *final(cc)) == spec_add8(a, b, *old(cc)),
{
    let r16: u16 = a as u16 + b as u16;
    let result = a.wrapping_add(b);
    cc.set_half_carry((a ^ b ^ result) & 0x10 != 0);
    cc.set_negative(result & 0x80 != 0);
    cc.set_zero(result == 0);
    cc.set_overflow((a ^ result) & (b ^ result) & 0x80 != 0);
    cc.set_carry(r16 > 0xFF);
    result
}

/// ADC: result = a + b + carry. Sets H, N, Z, V, C.
pub open spec fn spec_adc8(a: u8, b: u8, cc: ConditionCodes) -> (u8, ConditionCodes) {
    let cin: u8 = if cc.c {
        1
    } else {
        0
    };
    let r = wadd8(wadd8(a, b), cin);
    (
        r,
        ConditionCodes {
            h: (a ^ b ^ r) & 0x10 != 0,
            n: r & 0x80 != 0,
            z: r == 0,
            v: (a ^ r) & (b ^ r) & 0x80 != 0,
            c: a + b + cin > 0xFF,
            ..cc
        },
    )
}

pub fn adc8(a: u8, b: u8, cc: &mut ConditionCodes) -> (r: u8)
    ensures
        (r, *final(cc)) == spec_adc8(a, b, *old(cc)),
{
    let cin: u8 = if cc.carry() {
        1
    } else {
        0
    };
    let r16: u16 = a as u16 + b as u16 + cin as u16;
    let result = a.wrapping_add(b).wrapping_add(cin);
    cc.set_half_carry((a ^ b ^ result) & 0x10 != 0);
    cc.set_negative(result & 0x80 != 0);
    cc.set_zero(result == 0);
    cc.set_overflow((a ^ result) & (b ^ result) & 0x80 != 0);
    cc.set_carry(r16 > 0xFF);
    result
}

/// SUB: result = a - b. Sets N, Z, V, C (C is the borrow). H is untouched.
pub open spec fn spec_sub8(a: u8, b: u8, cc: ConditionCodes) -> (u8, ConditionCodes) {
    let r = wsub8(a, b);
    (
        r,
        ConditionCodes {
            n: r & 0x80 != 0,
            z: r == 0,
            v: (a ^ b) & (a ^ r) & 0x80 != 0,
            c: a < b,
            ..cc
        },
    )
}

pub fn sub8(a: u8, b: u8, cc: &mut ConditionCodes) -> (r: u8)
    ensures
        (r, *final(cc)) == spec_sub8(a, b, *old(cc)),
{
    let result = a.wrapping_sub(b);
    cc.set_negative(result & 0x80 != 0);
    cc.set_zero(result == 0);
    cc.set_overflow((a ^ b) & (a ^ result) & 0x80 != 0);
    cc.set_carry(a < b);
    result
}

/// SBC: result = a - b - carry. Sets N, Z, V, C (C is the 9-bit borrow).
pub open spec fn spec_sbc8(a: u8, b: u8, cc: ConditionCodes) -> (u8, ConditionCodes) {
    let cin: u8 = if cc.c {
        1
    } else {
        0
    };
    let r = wsub8(wsub8(a, b), cin);
    (
        r,
        ConditionCodes {
            n: r & 0x80 != 0,
            z: r == 0,
            v: (a ^ b) & (a ^ r) & 0x80 != 0,
            c: a - b - cin < 0,
            ..cc
        },
    )
}

pub fn sbc8(a: u8, b: u8, cc: &mut ConditionCodes) -> (r: u8)
    ensures
        (r, *final(cc)) == spec_sbc8(a, b, *old(cc)),
{
    let cin: u8 = if cc.carry() {
        1
    } else {
        0
    };
    let result = a.wrapping_sub(b).wrapping_sub(cin);
    let borrow = (a as u16) < (b as u16) + (cin as u16);
    cc.set_negative(result & 0x80 != 0);
    cc.set_zero(result == 0);
    cc.set_overflow((a ^ b) & (a ^ result) & 0x80 != 0);
    cc.set_carry(borrow);
    result
}

/// NEG: result = 0 - val. Sets N, Z, V, C.
pub open spec fn spec_neg8(val: u8, cc: ConditionCodes) -> (u8, ConditionCodes) {
    let r = wsub8(0, val);
    (
        r,
        ConditionCodes { n: r & 0x80 != 0, z: r == 0, v: val == 0x80, c: val != 0x00, ..cc },
    )
}

pub fn neg8(val: u8, cc: &mut ConditionCodes) -> (r: u8)
    ensures
        (r, *final(cc)) == spec_neg8(val, *old(cc)),
{
    let result = 0u8.wrapping_sub(val);
    cc.set_negative(result & 0x80 != 0);
    cc.set_zero(result == 0);
    cc.set_overflow(val == 0x80);
    cc.set_carry(val != 0x00);
    result
}

/// COM: result = !val. Sets N, Z; always V=0, C=1.
pub open spec fn spec_com8(val: u8, cc: ConditionCodes) -> (u8, ConditionCodes) {
    let r = !val;
    (r, ConditionCodes { n: r & 0x80 != 0, z: r == 0, v: false, c: true, ..cc })
}

pub fn com8(val: u8, cc: &mut ConditionCodes) -> (r: u8)
    ensures
        (r, *final(cc)) == spec_com8(val, *old(cc)),
{
    let result = !val;
    cc.set_negative(result & 0x80 != 0);
    cc.set_zero(result == 0);
    cc.set_overflow(false);
    cc.set_carry(true);
    result
}

/// INC: result = val + 1. Sets N, Z, V. Does NOT affect C.
pub open spec fn spec_inc8(val: u8, cc: ConditionCodes) -> (u8, ConditionCodes) {
    let r = wadd8(val, 1);
    (r, ConditionCodes { n: r & 0x80 != 0, z: r == 0, v: val == 0x7F, ..cc })
}

pub fn inc8(val: u8, cc: &mut ConditionCodes) -> (r: u8)
    ensures
        (r, *final(cc)) == spec_inc8(val, *old(cc)),
{
    let result = val.wrapping_add(1);
    cc.set_negative(result & 0x80 != 0);
    cc.set_zero(result == 0);
    cc.set_overflow(val == 0x7F);
    result
}

/// DEC: result = val - 1. Sets N, Z, V. Does NOT affect C.
pub open spec fn spec_dec8(val: u8, cc: ConditionCodes) -> (u8, ConditionCodes) {
    let r = wsub8(val, 1);
    (r, ConditionCodes { n: r & 0x80 != 0, z: r == 0, v: val == 0x80, ..cc })
}

pub fn dec8(val: u8, cc: &mut ConditionCodes) -> (r: u8)
    ensures
        (r, *final(cc)) == spec_dec8(val, *old(cc)),
{
    let result = val.wrapping_sub(1);
    cc.set_negative(result & 0x80 != 0);
    cc.set_zero(result == 0);
    cc.set_overflow(val == 0x80);
    result
}

/// CLR: result = 0. Always N=0, Z=1, V=0, C=0.
pub open spec fn spec_clr8(cc: ConditionCodes) -> (u8, ConditionCodes) {
    (0, ConditionCodes { n: false, z: true, v: false, c: false, ..cc })
}

pub fn clr8(cc: &mut ConditionCodes) -> (r: u8)
    ensures
        (r, *final(cc)) == spec_clr8(*old(cc)),
{
    cc.set_negative(false);
    cc.set_zero(true);
    cc.set_overflow(false);
    cc.set_carry(false);
    0
}

/// TST: test value. Sets N, Z, V=0. Does NOT affect C.
pub open spec fn spec_tst8(val: u8, cc: ConditionCodes) -> ConditionCodes {
    ConditionCodes { n: val & 0x80 != 0, z: val == 0, v: false, ..cc }
}

pub fn tst8(val: u8, cc: &mut ConditionCodes)
    ensures
        *final(cc) == spec_tst8(val, *old(cc)),
{
    cc.set_negative(val & 0x80 != 0);
    cc.set_zero(val == 0);
    cc.set_overflow(false);
}

// ---------------------------------------------------------------------------
// 8-bit logical
// ---------------------------------------------------------------------------

/// AND: result = a & b. Sets N, Z, V=0.
pub open spec fn spec_and8(a: u8, b: u8, cc: ConditionCodes) -> (u8, ConditionCodes) {
    let r = a & b;
    (r, ConditionCodes { n: r & 0x80 != 0, z: r == 0, v: false, ..cc })
}

pub fn and8(a: u8, b: u8, cc: &mut ConditionCodes) -> (r: u8)
    ensures
        (r, *final(cc)) == spec_and8(a, b, *old(cc)),
{
    let result = a & b;
    cc.set_negative(result & 0x80 != 0);
    cc.set_zero(result == 0);
    cc.set_overflow(false);
    result
}

/// OR: result = a | b. Sets N, Z, V=0.
pub open spec fn spec_or8(a: u8, b: u8, cc: ConditionCodes) -> (u8, ConditionCodes) {
    let r = a | b;
    (r, ConditionCodes { n: r & 0x80 != 0, z: r == 0, v: false, ..cc })
}

pub fn or8(a: u8, b: u8, cc: &mut ConditionCodes) -> (r: u8)
    ensures
        (r, *final(cc)) == spec_or8(a, b, *old(cc)),
{
    let result = a | b;
    cc.set_negative(result & 0x80 != 0);
    cc.set_zero(result == 0);
    cc.set_overflow(false);
    result
}

/// EOR: result = a ^ b. Sets N, Z, V=0.
pub open spec fn spec_eor8(a: u8, b: u8, cc: ConditionCodes) -> (u8, ConditionCodes) {
    let r = a ^ b;
    (r, ConditionCodes { n: r & 0x80 != 0, z: r == 0, v: false, ..cc })
}

pub fn eor8(a: u8, b: u8, cc: &mut ConditionCodes) -> (r: u8)
    ensures
        (r, *final(cc)) == spec_eor8(a, b, *old(cc)),
{
    let result = a ^ b;
    cc.set_negative(result & 0x80 != 0);
    cc.set_zero(result == 0);
    cc.set_overflow(false);
    result
}

// ---------------------------------------------------------------------------
// 8-bit shifts/rotates
// ---------------------------------------------------------------------------

/// LSR: logical shift right. Bit 0 goes to C, 0 enters bit 7. Sets N=0, Z, C.
pub open spec fn spec_lsr8(val: u8, cc: ConditionCodes) -> (u8, ConditionCodes) {
    let r = val >> 1;
    (r, ConditionCodes { n: false, z: r == 0, c: val & 0x01 != 0, ..cc })
}

pub fn lsr8(val: u8, cc: &mut ConditionCodes) -> (r: u8)
    ensures
        (r, *final(cc)) == spec_lsr8(val, *old(cc)),
{
    cc.set_carry(val & 0x01 != 0);
    let result = val >> 1;
    cc.set_negative(false);
    cc.set_zero(result == 0);
    result
}

/// ASR: arithmetic shift right. Bit 0 goes to C, bit 7 is preserved. Sets N, Z, C.
pub open spec fn spec_asr8(val: u8, cc: ConditionCodes) -> (u8, ConditionCodes) {
    let r = ((val as i8) >> 1) as u8;
    (r, ConditionCodes { n: r & 0x80 != 0, z: r == 0, c: val & 0x01 != 0, ..cc })
}

pub fn asr8(val: u8, cc: &mut ConditionCodes) -> (r: u8)
    ensures
        (r, *final(cc)) == spec_asr8(val, *old(cc)),
{
    cc.set_carry(val & 0x01 != 0);
    let result = #[verifier::truncate] (((val as i8) >> 1) as u8);
    cc.set_negative(result & 0x80 != 0);
    cc.set_zero(result == 0);
    result
}

/// ASL/LSL: shift left. Bit 7 goes to C, 0 enters bit 0. Sets N, Z, V, C.
pub open spec fn spec_asl8(val: u8, cc: ConditionCodes) -> (u8, ConditionCodes) {
    let r = val << 1;
    (
        r,
        ConditionCodes {
            n: r & 0x80 != 0,
            z: r == 0,
            v: (val ^ r) & 0x80 != 0,
            c: val & 0x80 != 0,
            ..cc
        },
    )
}

pub fn asl8(val: u8, cc: &mut ConditionCodes) -> (r: u8)
    ensures
        (r, *final(cc)) == spec_asl8(val, *old(cc)),
{
    cc.set_carry(val & 0x80 != 0);
    let result = val << 1;
    cc.set_negative(result & 0x80 != 0);
    cc.set_zero(result == 0);
    cc.set_overflow((val ^ result) & 0x80 != 0);
    result
}

/// ROL: rotate left through carry. Old C enters bit 0, bit 7 goes to C. Sets N, Z, V, C.
pub open spec fn spec_rol8(val: u8, cc: ConditionCodes) -> (u8, ConditionCodes) {
    let r = (val << 1) | (if cc.c {
        1u8
    } else {
        0u8
    });
    (
        r,
        ConditionCodes {
            n: r & 0x80 != 0,
            z: r == 0,
            v: (val ^ r) & 0x80 != 0,
            c: val & 0x80 != 0,
            ..cc
        },
    )
}

pub fn rol8(val: u8, cc: &mut ConditionCodes) -> (r: u8)
    ensures
        (r, *final(cc)) == spec_rol8(val, *old(cc)),
{
    let old_c: u8 = if cc.carry() {
        1
    } else {
        0
    };
    cc.set_carry(val & 0x80 != 0);
    let result = (val << 1) | old_c;
    cc.set_negative(result & 0x80 != 0);
    cc.set_zero(result == 0);
    cc.set_overflow((val ^ result) & 0x80 != 0);
    result
}

/// ROR: rotate right through carry. Old C enters bit 7, bit 0 goes to C. Sets N, Z, C.
pub open spec fn spec_ror8(val: u8, cc: ConditionCodes) -> (u8, ConditionCodes) {
    let r = (val >> 1) | ((if cc.c {
        1u8
    } else {
        0u8
    }) << 7);
    (r, ConditionCodes { n: r & 0x80 != 0, z: r == 0, c: val & 0x01 != 0, ..cc })
}

pub fn ror8(val: u8, cc: &mut ConditionCodes) -> (r: u8)
    ensures
        (r, *final(cc)) == spec_ror8(val, *old(cc)),
{
    let old_c: u8 = if cc.carry() {
        1
    } else {
        0
    };
    cc.set_carry(val & 0x01 != 0);
    let result = (val >> 1) | (old_c << 7);
    cc.set_negative(result & 0x80 != 0);
    cc.set_zero(result == 0);
    result
}

// ---------------------------------------------------------------------------
// 16-bit arithmetic
// ---------------------------------------------------------------------------

/// ADD16: result = a + b. Sets N, Z, V, C. (No half-carry for 16-bit.)
pub open spec fn spec_add16(a: u16, b: u16, cc: ConditionCodes) -> (u16, ConditionCodes) {
    let r = wadd(a, b);
    (
        r,
        ConditionCodes {
            n: r & 0x8000 != 0,
            z: r == 0,
            v: (a ^ r) & (b ^ r) & 0x8000 != 0,
            c: a + b > 0xFFFF,
            ..cc
        },
    )
}

pub fn add16(a: u16, b: u16, cc: &mut ConditionCodes) -> (r: u16)
    ensures
        (r, *final(cc)) == spec_add16(a, b, *old(cc)),
{
    let r32: u32 = a as u32 + b as u32;
    let result = a.wrapping_add(b);
    cc.set_negative(result & 0x8000 != 0);
    cc.set_zero(result == 0);
    cc.set_overflow((a ^ result) & (b ^ result) & 0x8000 != 0);
    cc.set_carry(r32 > 0xFFFF);
    result
}

/// SUB16: result = a - b. Sets N, Z, V, C (C is the borrow).
pub open spec fn spec_sub16(a: u16, b: u16, cc: ConditionCodes) -> (u16, ConditionCodes) {
    let r = wsub(a, b);
    (
        r,
        ConditionCodes {
            n: r & 0x8000 != 0,
            z: r == 0,
            v: (a ^ b) & (a ^ r) & 0x8000 != 0,
            c: a < b,
            ..cc
        },
    )
}

pub fn sub16(a: u16, b: u16, cc: &mut ConditionCodes) -> (r: u16)
    ensures
        (r, *final(cc)) == spec_sub16(a, b, *old(cc)),
{
    let result = a.wrapping_sub(b);
    cc.set_negative(result & 0x8000 != 0);
    cc.set_zero(result == 0);
    cc.set_overflow((a ^ b) & (a ^ result) & 0x8000 != 0);
    cc.set_carry(a < b);
    result
}

// ---------------------------------------------------------------------------
// Load/store flag helpers
// ---------------------------------------------------------------------------

/// Flags of a 16-bit load or store. Sets N, Z, V=0.
pub open spec fn spec_ld16_flags(val: u16, cc: ConditionCodes) -> ConditionCodes {
    ConditionCodes { n: val & 0x8000 != 0, z: val == 0, v: false, ..cc }
}

pub fn ld16_flags(val: u16, cc: &mut ConditionCodes)
    ensures
        *final(cc) == spec_ld16_flags(val, *old(cc)),
{
    cc.set_nz16(val);
    cc.set_overflow(false);
}

/// Flags of an 8-bit load or store. Sets N, Z, V=0.
pub open spec fn spec_ld8_flags(val: u8, cc: ConditionCodes) -> ConditionCodes {
    ConditionCodes { n: val & 0x80 != 0, z: val == 0, v: false, ..cc }
}

pub fn ld8_flags(val: u8, cc: &mut ConditionCodes)
    ensures
        *final(cc) == spec_ld8_flags(val, *old(cc)),
{
    cc.set_nz8(val);
    cc.set_overflow(false);
}

// ---------------------------------------------------------------------------
// Special operations
// ---------------------------------------------------------------------------

/// DAA: decimal adjust A after a binary addition of BCD operands.
/// Adds 0x06 when the low nibble overflowed, 0x60 (latching C) when the high
/// nibble did. Sets N, Z, C; V is left unchanged.
pub open spec fn spec_daa(a: u8, cc: ConditionCodes) -> (u8, ConditionCodes) {
    let low = cc.h || (a & 0x0F) > 9;
    let high = cc.c || a > 0x99;
    let corr = ((if low {
        0x06u8
    } else {
        0u8
    }) + (if high {
        0x60u8
    } else {
        0u8
    })) as u8;
    let r = wadd8(a, corr);
    (r, ConditionCodes { n: r & 0x80 != 0, z: r == 0, c: high, ..cc })
}

pub fn daa(a: u8, cc: &mut ConditionCodes) -> (r: u8)
    ensures
        (r, *final(cc)) == spec_daa(a, *old(cc)),
{
    let mut correction: u8 = 0;
    let mut carry = cc.carry();

    // Lower nibble
    if cc.half_carry() || (a & 0x0F) > 9 {
        correction = correction + 0x06;
    }

    // Upper nibble
    if carry || a > 0x99 {
        correction = correction + 0x60;
        carry = true;
    }

    let result = a.wrapping_add(correction);
    cc.set_negative(result & 0x80 != 0);
    cc.set_zero(result == 0);
    cc.set_carry(carry);
    result
}

/// MUL: unsigned multiply, A times B. Sets Z (product is 0) and C (bit 7 of
/// the product's low byte).
pub open spec fn spec_mul(a: u8, b: u8, cc: ConditionCodes) -> (u16, ConditionCodes) {
    let r = (a * b) as u16;
    (r, ConditionCodes { z: r == 0, c: r & 0x0080 != 0, ..cc })
}

pub fn mul(a: u8, b: u8, cc: &mut ConditionCodes) -> (r: u16)
    ensures
        (r, *final(cc)) == spec_mul(a, b, *old(cc)),
{
    proof {
        assert(a * b <= 0xFE01) by (nonlinear_arith)
            requires
                a <= 0xFF,
                b <= 0xFF,
        ;
    }
    let result = (a as u16) * (b as u16);
    cc.set_zero(result == 0);
    cc.set_carry(result & 0x0080 != 0);
    result
}

/// SEX: sign-extend B into A. If bit 7 of B is set, A becomes 0xFF, else
/// 0x00. Sets N and Z from the extension.
pub open spec fn spec_sex(b: u8, cc: ConditionCodes) -> (u16, ConditionCodes) {
    let ah = if b & 0x80 != 0 {
        0xFFu8
    } else {
        0x00u8
    };
    (word(ah, b), ConditionCodes { n: ah == 0xFF, z: b == 0, ..cc })
}

pub fn sex(b: u8, cc: &mut ConditionCodes) -> (r: u16)
    ensures
        (r, *final(cc)) == spec_sex(b, *old(cc)),
{
    let ah: u8 = if b & 0x80 != 0 {
        0xFF
    } else {
        0x00
    };
    let d = ((ah as u16) << 8) | (b as u16);
    cc.set_negative(ah == 0xFF);
    cc.set_zero(b == 0);
    d
}

} // verus!
