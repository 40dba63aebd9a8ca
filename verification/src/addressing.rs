//! Indexed addressing mode decoder for the 6809.
//!
//! The post-byte encodes the index register (bits 6..5), the offset form
//! (bit 7 and bits 3..0), and indirection (bit 4). The decoder consumes the
//! post-byte and any offset bytes, updates the index register on
//! auto-increment/decrement, and returns the effective address together with
//! the extra cycles beyond the instruction's base count.

use vstd::prelude::*;

use crate::bus::{mem_fn, Bus};
use crate::cpu::Cpu;
use crate::registers::Registers;
use crate::words::{sign_ext5, sign_ext8, wadd, word, wsub};

verus! {

/// The index register selected by bits 6..5 of the post-byte.
pub open spec fn idx_reg_val(reg: Registers, post: u8) -> u16 {
    let sel = (post >> 5) & 0x03;
    if sel == 0 {
        reg.x
    } else if sel == 1 {
        reg.y
    } else if sel == 2 {
        reg.u
    } else {
        reg.s
    }
}

/// The register file after writing the register selected by bits 6..5.
pub open spec fn idx_reg_set(reg: Registers, post: u8, val: u16) -> Registers {
    let sel = (post >> 5) & 0x03;
    if sel == 0 {
        Registers { x: val, ..reg }
    } else if sel == 1 {
        Registers { y: val, ..reg }
    } else if sel == 2 {
        Registers { u: val, ..reg }
    } else {
        Registers { s: val, ..reg }
    }
}

/// Whether decoding this post-byte writes S (auto-increment/decrement on S),
/// which arms the NMI input.
pub open spec fn indexed_arms_s(post: u8) -> bool {
    post & 0x80 != 0 && (post >> 5) & 0x03 == 3 && post & 0x0F < 4
}

/// The complete effect of decoding one indexed post-byte against register
/// file `reg0` and the bytes that follow in memory: the effective address,
/// the extra cycles, and the register file afterwards (PC advanced past the
/// consumed bytes, index register updated on auto-increment/decrement).
///
/// Illegal sub-modes (7, 10, 14, and 15 without the indirect bit) degrade to
/// address 0 with no extra cycles.
pub open spec fn indexed_outcome(reg0: Registers, m: spec_fn(u16) -> u8) -> (u16, u8, Registers) {
    let post = m(reg0.pc);
    let reg = Registers { pc: wadd(reg0.pc, 1), ..reg0 };
    if post & 0x80 == 0 {
        // 5-bit signed offset from R; one extra cycle, never indirect.
        (wadd(idx_reg_val(reg, post), sign_ext5(post)), 1, reg)
    } else {
        let ind = post & 0x10 != 0;
        let mode = post & 0x0F;
        let r = idx_reg_val(reg, post);
        let eff: (u16, u8, Registers) = if mode == 0 {
            // ,R+
            (r, 2, idx_reg_set(reg, post, wadd(r, 1)))
        } else if mode == 1 {
            // ,R++
            (r, 3, idx_reg_set(reg, post, wadd(r, 2)))
        } else if mode == 2 {
            // ,-R
            (wsub(r, 1), 2, idx_reg_set(reg, post, wsub(r, 1)))
        } else if mode == 3 {
            // ,--R
            (wsub(r, 2), 3, idx_reg_set(reg, post, wsub(r, 2)))
        } else if mode == 4 {
            // ,R
            (r, 0, reg)
        } else if mode == 5 {
            // B,R
            (wadd(r, sign_ext8(reg.spec_b())), 1, reg)
        } else if mode == 6 {
            // A,R
            (wadd(r, sign_ext8(reg.spec_a())), 1, reg)
        } else if mode == 8 {
            // n8,R
            (wadd(r, sign_ext8(m(reg.pc))), 1, (Registers { pc: wadd(reg.pc, 1), ..reg }))
        } else if mode == 9 {
            // n16,R
            (
                wadd(r, word(m(reg.pc), m(wadd(reg.pc, 1)))),
                4,
                (Registers { pc: wadd(reg.pc, 2), ..reg }),
            )
        } else if mode == 11 {
            // D,R
            (wadd(r, reg.d), 4, reg)
        } else if mode == 12 {
            // n8,PC
            (
                wadd(wadd(reg.pc, 1), sign_ext8(m(reg.pc))),
                1,
                (Registers { pc: wadd(reg.pc, 1), ..reg }),
            )
        } else if mode == 13 {
            // n16,PC
            (
                wadd(wadd(reg.pc, 2), word(m(reg.pc), m(wadd(reg.pc, 1)))),
                5,
                (Registers { pc: wadd(reg.pc, 2), ..reg }),
            )
        } else if mode == 15 && ind {
            // [n16]: extended indirect; its 5 extra cycles already include
            // the dereference.
            let ptr = word(m(reg.pc), m(wadd(reg.pc, 1)));
            (
                word(m(ptr), m(wadd(ptr, 1))),
                5,
                (Registers { pc: wadd(reg.pc, 2), ..reg }),
            )
        } else {
            (0, 0, reg)
        };
        if ind && mode != 15 {
            // Indirection: dereference the computed address; 3 more cycles.
            (word(m(eff.0), m(wadd(eff.0, 1))), (eff.1 + 3) as u8, eff.2)
        } else {
            eff
        }
    }
}

/// Decode an indexed addressing post-byte and compute the effective address.
///
/// Returns `(ea, extra_cycles)` where `extra_cycles` is the additional cycle
/// count beyond the base instruction cycles; the register file is updated
/// exactly as [`indexed_outcome`] says, and a write to S arms the NMI input.
#[verifier::rlimit(100)]
pub fn indexed<B: Bus>(cpu: &mut Cpu, bus: &B) -> (r: (u16, u8))
    ensures
        ({
            let eff = indexed_outcome(old(cpu).reg, mem_fn(bus));
            &&& r.0 == eff.0
            &&& r.1 == eff.1
            &&& r.1 <= 8
            &&& *final(cpu) == (Cpu {
                reg: eff.2,
                nmi_armed: old(cpu).nmi_armed || indexed_arms_s(bus.mem(old(cpu).reg.pc)),
                ..*old(cpu)
            })
        }),
{
    let post = cpu.fetch_byte(bus);

    // Bit 7 == 0: 5-bit signed offset from R, no indirection
    if post & 0x80 == 0 {
        let reg = index_reg(cpu, post);
        // Bits 4..0 are a 5-bit signed offset (-16 to +15)
        let offset = if post & 0x10 != 0 {
            // sign-extend: set bits 7..5
            (post | 0xE0) as i8 as i16 as u16
        } else {
            (post & 0x1F) as u16
        };
        let ea = reg.wrapping_add(offset);
        return (ea, 1);
    }

    // Bit 7 == 1: complex indexed modes
    let indirect = post & 0x10 != 0;
    let mode = post & 0x0F;

    let (ea, extra): (u16, u8) = if mode == 0x00 {
        // ,R+ (post-increment by 1)
        let reg = index_reg(cpu, post);
        set_index_reg(cpu, post, reg.wrapping_add(1));
        (reg, 2)
    } else if mode == 0x01 {
        // ,R++ (post-increment by 2)
        let reg = index_reg(cpu, post);
        set_index_reg(cpu, post, reg.wrapping_add(2));
        (reg, 3)
    } else if mode == 0x02 {
        // ,-R (pre-decrement by 1)
        let reg = index_reg(cpu, post).wrapping_sub(1);
        set_index_reg(cpu, post, reg);
        (reg, 2)
    } else if mode == 0x03 {
        // ,--R (pre-decrement by 2)
        let reg = index_reg(cpu, post).wrapping_sub(2);
        set_index_reg(cpu, post, reg);
        (reg, 3)
    } else if mode == 0x04 {
        // ,R (zero offset)
        let ea = index_reg(cpu, post);
        (ea, 0)
    } else if mode == 0x05 {
        // B,R
        let reg = index_reg(cpu, post);
        let offset = cpu.reg.b() as i8 as i16 as u16;
        (reg.wrapping_add(offset), 1)
    } else if mode == 0x06 {
        // A,R
        let reg = index_reg(cpu, post);
        let offset = cpu.reg.a() as i8 as i16 as u16;
        (reg.wrapping_add(offset), 1)
    } else if mode == 0x08 {
        // 8-bit offset, R
        let reg = index_reg(cpu, post);
        let offset = cpu.fetch_byte(bus) as i8 as i16 as u16;
        (reg.wrapping_add(offset), 1)
    } else if mode == 0x09 {
        // 16-bit offset, R
        let reg = index_reg(cpu, post);
        let offset = cpu.fetch_word(bus);
        (reg.wrapping_add(offset), 4)
    } else if mode == 0x0B {
        // D,R
        let reg = index_reg(cpu, post);
        let offset = cpu.reg.d;
        (reg.wrapping_add(offset), 4)
    } else if mode == 0x0C {
        // 8-bit offset, PC
        let offset = cpu.fetch_byte(bus) as i8 as i16 as u16;
        let ea = cpu.reg.pc.wrapping_add(offset);
        (ea, 1)
    } else if mode == 0x0D {
        // 16-bit offset, PC
        let offset = cpu.fetch_word(bus);
        let ea = cpu.reg.pc.wrapping_add(offset);
        (ea, 5)
    } else if mode == 0x0F && indirect {
        // Extended indirect [address]: the 5 extra cycles already include
        // the dereference, so return without the indirect post-pass.
        let ea = cpu.fetch_word(bus);
        let ptr = bus.read_word(ea);
        return (ptr, 5);
    } else {
        // Illegal indexed sub-mode: degrade to address 0, no extra cycles.
        (0, 0)
    };

    if indirect {
        // Add 3 cycles for indirection and dereference the EA
        let ptr = bus.read_word(ea);
        (ptr, extra + 3)
    } else {
        (ea, extra)
    }
}

/// Read the index register selected by bits 6..5 of the post-byte.
fn index_reg(cpu: &Cpu, post: u8) -> (r: u16)
    ensures
        r == idx_reg_val(cpu.reg, post),
{
    let sel = (post >> 5) & 0x03;
    if sel == 0 {
        cpu.reg.x
    } else if sel == 1 {
        cpu.reg.y
    } else if sel == 2 {
        cpu.reg.u
    } else {
        cpu.reg.s
    }
}

/// Write the index register selected by bits 6..5 of the post-byte; a write
/// to S arms the NMI input.
fn set_index_reg(cpu: &mut Cpu, post: u8, val: u16)
    ensures
        *final(cpu) == (Cpu {
            reg: idx_reg_set(old(cpu).reg, post, val),
            nmi_armed: old(cpu).nmi_armed || (post >> 5) & 0x03 == 3,
            ..*old(cpu)
        }),
{
    proof {
        assert((post >> 5) & 0x03 < 4) by (bit_vector);
    }
    let sel = (post >> 5) & 0x03;
    if sel == 0 {
        cpu.reg.x = val;
    } else if sel == 1 {
        cpu.reg.y = val;
    } else if sel == 2 {
        cpu.reg.u = val;
    } else {
        cpu.reg.s = val;
        cpu.arm_nmi();
    }
}

} // verus!
