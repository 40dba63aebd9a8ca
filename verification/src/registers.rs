//! The 6809 programmer-visible register file and condition codes.

use vstd::prelude::*;

use crate::words::{hi8, lo8, word};

verus! {

// ---------------------------------------------------------------------------
// Condition Code Register
// ---------------------------------------------------------------------------

/// The 6809 Condition Code register.
///
/// Each flag is held as a bool; `to_byte`/`from_byte` pack and unpack the
/// hardware layout, with bits (LSB to MSB): C, V, Z, N, I, H, F, E.
#[derive(Clone, Copy, Debug)]
pub struct ConditionCodes {
    /// Carry (bit 0)
    pub c: bool,
    /// Overflow (bit 1)
    pub v: bool,
    /// Zero (bit 2)
    pub z: bool,
    /// Negative (bit 3)
    pub n: bool,
    /// IRQ inhibit (bit 4)
    pub i: bool,
    /// Half-carry (bit 5)
    pub h: bool,
    /// FIRQ inhibit (bit 6)
    pub f: bool,
    /// Entire state saved (bit 7)
    pub e: bool,
}

/// The condition codes a packed byte unpacks to.
pub open spec fn cc_from_byte(b: u8) -> ConditionCodes {
    ConditionCodes {
        c: b & 0x01 != 0,
        v: b & 0x02 != 0,
        z: b & 0x04 != 0,
        n: b & 0x08 != 0,
        i: b & 0x10 != 0,
        h: b & 0x20 != 0,
        f: b & 0x40 != 0,
        e: b & 0x80 != 0,
    }
}

/// The all-clear condition codes.
pub open spec fn cc_zero() -> ConditionCodes {
    ConditionCodes { c: false, v: false, z: false, n: false, i: false, h: false, f: false, e: false }
}

impl ConditionCodes {
    /// The packed-byte view of the register.
    pub open spec fn as_byte(self) -> u8 {
        (if self.e { 0x80u8 } else { 0u8 })
        | (if self.f { 0x40u8 } else { 0u8 })
        | (if self.h { 0x20u8 } else { 0u8 })
        | (if self.i { 0x10u8 } else { 0u8 })
        | (if self.n { 0x08u8 } else { 0u8 })
        | (if self.z { 0x04u8 } else { 0u8 })
        | (if self.v { 0x02u8 } else { 0u8 })
        | (if self.c { 0x01u8 } else { 0u8 })
    }

    pub fn new() -> (r: Self)
        ensures
            r == cc_zero(),
    {
        ConditionCodes {
            c: false,
            v: false,
            z: false,
            n: false,
            i: false,
            h: false,
            f: false,
            e: false,
        }
    }

    pub fn from_byte(b: u8) -> (r: Self)
        ensures
            r == cc_from_byte(b),
    {
        ConditionCodes {
            c: b & 0x01 != 0,
            v: b & 0x02 != 0,
            z: b & 0x04 != 0,
            n: b & 0x08 != 0,
            i: b & 0x10 != 0,
            h: b & 0x20 != 0,
            f: b & 0x40 != 0,
            e: b & 0x80 != 0,
        }
    }

    pub fn to_byte(self) -> (r: u8)
        ensures
            r == self.as_byte(),
    {
        (if self.e { 0x80u8 } else { 0u8 })
        | (if self.f { 0x40u8 } else { 0u8 })
        | (if self.h { 0x20u8 } else { 0u8 })
        | (if self.i { 0x10u8 } else { 0u8 })
        | (if self.n { 0x08u8 } else { 0u8 })
        | (if self.z { 0x04u8 } else { 0u8 })
        | (if self.v { 0x02u8 } else { 0u8 })
        | (if self.c { 0x01u8 } else { 0u8 })
    }

    // ---- flag readers ----

    pub fn carry(self) -> (r: bool)
        ensures
            r == self.c,
    {
        self.c
    }

    pub fn overflow(self) -> (r: bool)
        ensures
            r == self.v,
    {
        self.v
    }

    pub fn zero(self) -> (r: bool)
        ensures
            r == self.z,
    {
        self.z
    }

    pub fn negative(self) -> (r: bool)
        ensures
            r == self.n,
    {
        self.n
    }

    pub fn irq_inhibit(self) -> (r: bool)
        ensures
            r == self.i,
    {
        self.i
    }

    pub fn half_carry(self) -> (r: bool)
        ensures
            r == self.h,
    {
        self.h
    }

    pub fn firq_inhibit(self) -> (r: bool)
        ensures
            r == self.f,
    {
        self.f
    }

    pub fn entire(self) -> (r: bool)
        ensures
            r == self.e,
    {
        self.e
    }

    // ---- flag writers ----

    pub fn set_carry(&mut self, v: bool)
        ensures
            *final(self) == (ConditionCodes { c: v, ..*old(self) }),
    {
        self.c = v;
    }

    pub fn set_overflow(&mut self, v: bool)
        ensures
            *final(self) == (ConditionCodes { v: v, ..*old(self) }),
    {
        self.v = v;
    }

    pub fn set_zero(&mut self, v: bool)
        ensures
            *final(self) == (ConditionCodes { z: v, ..*old(self) }),
    {
        self.z = v;
    }

    pub fn set_negative(&mut self, v: bool)
        ensures
            *final(self) == (ConditionCodes { n: v, ..*old(self) }),
    {
        self.n = v;
    }

    pub fn set_irq_inhibit(&mut self, v: bool)
        ensures
            *final(self) == (ConditionCodes { i: v, ..*old(self) }),
    {
        self.i = v;
    }

    pub fn set_half_carry(&mut self, v: bool)
        ensures
            *final(self) == (ConditionCodes { h: v, ..*old(self) }),
    {
        self.h = v;
    }

    pub fn set_firq_inhibit(&mut self, v: bool)
        ensures
            *final(self) == (ConditionCodes { f: v, ..*old(self) }),
    {
        self.f = v;
    }

    pub fn set_entire(&mut self, v: bool)
        ensures
            *final(self) == (ConditionCodes { e: v, ..*old(self) }),
    {
        self.e = v;
    }

    /// Set N and Z based on an 8-bit result.
    pub fn set_nz8(&mut self, val: u8)
        ensures
            *final(self) == (ConditionCodes {
                n: val & 0x80 != 0,
                z: val == 0,
                ..*old(self)
            }),
    {
        self.n = val & 0x80 != 0;
        self.z = val == 0;
    }

    /// Set N and Z based on a 16-bit result.
    pub fn set_nz16(&mut self, val: u16)
        ensures
            *final(self) == (ConditionCodes {
                n: val & 0x8000 != 0,
                z: val == 0,
                ..*old(self)
            }),
    {
        self.n = val & 0x8000 != 0;
        self.z = val == 0;
    }

    /// OR the CC byte with a mask (used by ORCC).
    pub fn or_with(&mut self, mask: u8)
        ensures
            *final(self) == cc_from_byte(old(self).as_byte() | mask),
            final(self).as_byte() == old(self).as_byte() | mask,
    {
        let b = self.to_byte();
        *self = ConditionCodes::from_byte(b | mask);
        proof {
            lemma_cc_byte_round_trip(old(self).as_byte() | mask);
        }
    }

    /// AND the CC byte with a mask (used by ANDCC).
    pub fn and_with(&mut self, mask: u8)
        ensures
            *final(self) == cc_from_byte(old(self).as_byte() & mask),
            final(self).as_byte() == old(self).as_byte() & mask,
    {
        let b = self.to_byte();
        *self = ConditionCodes::from_byte(b & mask);
        proof {
            lemma_cc_byte_round_trip(old(self).as_byte() & mask);
        }
    }
}

/// Unpacking the packed view of any condition codes gives them back:
/// the byte form loses nothing.
pub proof fn lemma_cc_round_trip(cc: ConditionCodes)
    ensures
        cc_from_byte(cc.as_byte()) == cc,
{
    let eb: u8 = if cc.e { 0x80 } else { 0 };
    let fb: u8 = if cc.f { 0x40 } else { 0 };
    let hb: u8 = if cc.h { 0x20 } else { 0 };
    let ib: u8 = if cc.i { 0x10 } else { 0 };
    let nb: u8 = if cc.n { 0x08 } else { 0 };
    let zb: u8 = if cc.z { 0x04 } else { 0 };
    let vb: u8 = if cc.v { 0x02 } else { 0 };
    let cb: u8 = if cc.c { 0x01 } else { 0 };
    let b = eb | fb | hb | ib | nb | zb | vb | cb;
    assert((b & 0x01 == cb) && (b & 0x02 == vb) && (b & 0x04 == zb) && (b & 0x08 == nb)
        && (b & 0x10 == ib) && (b & 0x20 == hb) && (b & 0x40 == fb) && (b & 0x80 == eb))
        by (bit_vector)
        requires
            b == (eb | fb | hb | ib | nb | zb | vb | cb),
            eb == 0x80 || eb == 0,
            fb == 0x40 || fb == 0,
            hb == 0x20 || hb == 0,
            ib == 0x10 || ib == 0,
            nb == 0x08 || nb == 0,
            zb == 0x04 || zb == 0,
            vb == 0x02 || vb == 0,
            cb == 0x01 || cb == 0,
    ;
}

/// Packing the unpacked form of any byte gives the byte back.
pub proof fn lemma_cc_byte_round_trip(b: u8)
    ensures
        cc_from_byte(b).as_byte() == b,
{
    assert(((if b & 0x80 != 0 { 0x80u8 } else { 0u8 })
        | (if b & 0x40 != 0 { 0x40u8 } else { 0u8 })
        | (if b & 0x20 != 0 { 0x20u8 } else { 0u8 })
        | (if b & 0x10 != 0 { 0x10u8 } else { 0u8 })
        | (if b & 0x08 != 0 { 0x08u8 } else { 0u8 })
        | (if b & 0x04 != 0 { 0x04u8 } else { 0u8 })
        | (if b & 0x02 != 0 { 0x02u8 } else { 0u8 })
        | (if b & 0x01 != 0 { 0x01u8 } else { 0u8 })) == b) by (bit_vector);
}

// ---------------------------------------------------------------------------
// Register file
// ---------------------------------------------------------------------------

/// The 6809 programmer-visible register set.
///
/// Register D is stored as a `u16` with A in the high byte and B in the low
/// byte, matching the hardware layout; A and B are views of its halves.
#[derive(Clone, Copy, Debug)]
pub struct Registers {
    /// Accumulator D (A:B). A = high byte, B = low byte.
    pub d: u16,
    /// Index register X
    pub x: u16,
    /// Index register Y
    pub y: u16,
    /// User stack pointer
    pub u: u16,
    /// Hardware stack pointer
    pub s: u16,
    /// Program counter
    pub pc: u16,
    /// Direct page register
    pub dp: u8,
    /// Condition codes
    pub cc: ConditionCodes,
}

/// The all-zero register file.
pub open spec fn reg_zero() -> Registers {
    Registers { d: 0, x: 0, y: 0, u: 0, s: 0, pc: 0, dp: 0, cc: cc_zero() }
}

impl Registers {
    /// Accumulator A: the high byte of D.
    pub open spec fn spec_a(self) -> u8 {
        hi8(self.d)
    }

    /// Accumulator B: the low byte of D.
    pub open spec fn spec_b(self) -> u8 {
        lo8(self.d)
    }

    /// The register file after writing accumulator A, preserving B.
    pub open spec fn with_a(self, v: u8) -> Registers {
        Registers { d: (self.d & 0x00FF) | ((v as u16) << 8), ..self }
    }

    /// The register file after writing accumulator B, preserving A.
    pub open spec fn with_b(self, v: u8) -> Registers {
        Registers { d: (self.d & 0xFF00) | (v as u16), ..self }
    }

    pub fn new() -> (r: Self)
        ensures
            r == reg_zero(),
    {
        Registers { d: 0, x: 0, y: 0, u: 0, s: 0, pc: 0, dp: 0, cc: ConditionCodes::new() }
    }

    // ---- A / B accessors (D = A:B, big-endian) ----

    /// Read accumulator A (high byte of D).
    pub fn a(self) -> (r: u8)
        ensures
            r == self.spec_a(),
    {
        (self.d >> 8) as u8
    }

    /// Read accumulator B (low byte of D).
    pub fn b(self) -> (r: u8)
        ensures
            r == self.spec_b(),
    {
        #[verifier::truncate] (self.d as u8)
    }

    /// Write accumulator A (high byte of D), preserving B.
    pub fn set_a(&mut self, val: u8)
        ensures
            *final(self) == old(self).with_a(val),
            final(self).spec_a() == val,
            final(self).spec_b() == old(self).spec_b(),
    {
        let d0 = self.d;
        self.d = (d0 & 0x00FF) | ((val as u16) << 8);
        proof {
            assert(((((d0 & 0x00FF) | ((val as u16) << 8)) >> 8) as u8 == val)
                && ((((d0 & 0x00FF) | ((val as u16) << 8)) as u8) == (d0 as u8))) by (bit_vector);
        }
    }

    /// Write accumulator B (low byte of D), preserving A.
    pub fn set_b(&mut self, val: u8)
        ensures
            *final(self) == old(self).with_b(val),
            final(self).spec_b() == val,
            final(self).spec_a() == old(self).spec_a(),
    {
        let d0 = self.d;
        self.d = (d0 & 0xFF00) | (val as u16);
        proof {
            assert(((((d0 & 0xFF00) | (val as u16)) as u8) == val)
                && ((((d0 & 0xFF00) | (val as u16)) >> 8) as u8 == (d0 >> 8) as u8)) by (bit_vector);
        }
    }
}

/// D is exactly its two halves joined: writing A then B (or B then A) with
/// the halves of any value reconstructs that value.
pub proof fn lemma_d_from_halves(r: Registers)
    ensures
        word(r.spec_a(), r.spec_b()) == r.d,
{
    crate::words::lemma_word_split(r.d);
}

/// Writing A touches only the high byte of D.
pub proof fn lemma_with_a(r: Registers, v: u8)
    ensures
        r.with_a(v).spec_a() == v,
        r.with_a(v).spec_b() == r.spec_b(),
{
    let d0 = r.d;
    assert(((((d0 & 0x00FF) | ((v as u16) << 8)) >> 8) as u8 == v) && ((((d0 & 0x00FF) | ((v
        as u16) << 8)) as u8) == (d0 as u8))) by (bit_vector);
}

/// Writing B touches only the low byte of D.
pub proof fn lemma_with_b(r: Registers, v: u8)
    ensures
        r.with_b(v).spec_b() == v,
        r.with_b(v).spec_a() == r.spec_a(),
{
    let d0 = r.d;
    assert(((((d0 & 0xFF00) | (v as u16)) as u8) == v) && ((((d0 & 0xFF00) | (v as u16)) >> 8)
        as u8 == (d0 >> 8) as u8)) by (bit_vector);
}

} // verus!
