//! Page 0 opcode implementations (every opcode without a `10`/`11` prefix),
//! together with the stack-bundle (PSHS/PULS/PSHU/PULU) and register-transfer
//! (TFR/EXG) machinery they use.

use vstd::prelude::*;

use crate::addressing::{indexed_arms_s, indexed_outcome};
use crate::alu;
use crate::alu::{spec_adc8, spec_add16, spec_add8, spec_and8, spec_asl8, spec_asr8, spec_clr8, spec_com8, spec_daa, spec_dec8, spec_eor8, spec_inc8, spec_ld16_flags, spec_ld8_flags, spec_lsr8, spec_mul, spec_neg8, spec_or8, spec_rol8, spec_ror8, spec_sbc8, spec_sex, spec_sub16, spec_sub8, spec_tst8};
use crate::bus::{mem_fn, store8, Bus};
use crate::cpu::{entire_frame_fn, Cpu, VEC_SWI};
use crate::registers::{cc_from_byte, ConditionCodes, Registers};
use crate::words::{hi8, lo8, sign_ext8, wadd, word, wsub};

verus! {

// ---------------------------------------------------------------------------
// Base cycle table
// ---------------------------------------------------------------------------

/// Base cycle count of each page-0 opcode. Indexed-mode opcodes charge extra
/// cycles from the post-byte on top of this. Entries of 1 are bookkeeping
/// placeholders for the page prefixes and the illegal opcodes.
pub open spec fn page0_base(op: u8) -> u8 {
    match op {
        0x12 | 0x13 | 0x19 | 0x1D | 0x40 | 0x43 | 0x44 | 0x46 | 0x47 | 0x48 | 0x49 | 0x4A | 0x4C
            | 0x4D | 0x4F | 0x50 | 0x53 | 0x54 | 0x56 | 0x57 | 0x58 | 0x59 | 0x5A | 0x5C | 0x5D
            | 0x5F | 0x80 | 0x81 | 0x82 | 0x84 | 0x85 | 0x86 | 0x88 | 0x89 | 0x8A | 0x8B | 0xC0
            | 0xC1 | 0xC2 | 0xC4 | 0xC5 | 0xC6 | 0xC8 | 0xC9 | 0xCA | 0xCB => 2,
        0x0E | 0x1A | 0x1C | 0x20 | 0x21 | 0x22 | 0x23 | 0x24 | 0x25 | 0x26 | 0x27 | 0x28 | 0x29
            | 0x2A | 0x2B | 0x2C | 0x2D | 0x2E | 0x2F | 0x3A | 0x6E | 0x8E | 0xCC | 0xCE => 3,
        0x30 | 0x31 | 0x32 | 0x33 | 0x7E | 0x83 | 0x8C | 0x90 | 0x91 | 0x92 | 0x94 | 0x95 | 0x96
            | 0x97 | 0x98 | 0x99 | 0x9A | 0x9B | 0xA0 | 0xA1 | 0xA2 | 0xA4 | 0xA5 | 0xA6 | 0xA7
            | 0xA8 | 0xA9 | 0xAA | 0xAB | 0xC3 | 0xD0 | 0xD1 | 0xD2 | 0xD4 | 0xD5 | 0xD6 | 0xD7
            | 0xD8 | 0xD9 | 0xDA | 0xDB | 0xE0 | 0xE1 | 0xE2 | 0xE4 | 0xE5 | 0xE6 | 0xE7 | 0xE8
            | 0xE9 | 0xEA | 0xEB => 4,
        0x16 | 0x34 | 0x35 | 0x36 | 0x37 | 0x39 | 0x9E | 0x9F | 0xAE | 0xAF | 0xB0 | 0xB1 | 0xB2
            | 0xB4 | 0xB5 | 0xB6 | 0xB7 | 0xB8 | 0xB9 | 0xBA | 0xBB | 0xDC | 0xDD | 0xDE | 0xDF
            | 0xEC | 0xED | 0xEE | 0xEF | 0xF0 | 0xF1 | 0xF2 | 0xF4 | 0xF5 | 0xF6 | 0xF7 | 0xF8
            | 0xF9 | 0xFA | 0xFB => 5,
        0x00 | 0x03 | 0x04 | 0x06 | 0x07 | 0x08 | 0x09 | 0x0A | 0x0C | 0x0D | 0x0F | 0x3B | 0x60
            | 0x63 | 0x64 | 0x66 | 0x67 | 0x68 | 0x69 | 0x6A | 0x6C | 0x6D | 0x6F | 0x93 | 0x9C
            | 0xA3 | 0xAC | 0xBE | 0xBF | 0xD3 | 0xE3 | 0xFC | 0xFD | 0xFE | 0xFF => 6,
        0x1F | 0x70 | 0x73 | 0x74 | 0x76 | 0x77 | 0x78 | 0x79 | 0x7A | 0x7C | 0x7D | 0x7F | 0x8D
            | 0x9D | 0xAD | 0xB3 | 0xBC | 0xF3 => 7,
        0x1E | 0xBD => 8,
        0x17 => 9,
        0x3D => 11,
        0x3F => 19,
        0x3C => 21,
        _ => 1,
    }
}

/// Executable mirror of [`page0_base`].
pub fn page0_cycles(op: u8) -> (c: u8)
    ensures
        c == page0_base(op),
        1 <= c <= 21,
{
    match op {
        0x12 | 0x13 | 0x19 | 0x1D | 0x40 | 0x43 | 0x44 | 0x46 | 0x47 | 0x48 | 0x49 | 0x4A | 0x4C
            | 0x4D | 0x4F | 0x50 | 0x53 | 0x54 | 0x56 | 0x57 | 0x58 | 0x59 | 0x5A | 0x5C | 0x5D
            | 0x5F | 0x80 | 0x81 | 0x82 | 0x84 | 0x85 | 0x86 | 0x88 | 0x89 | 0x8A | 0x8B | 0xC0
            | 0xC1 | 0xC2 | 0xC4 | 0xC5 | 0xC6 | 0xC8 | 0xC9 | 0xCA | 0xCB => 2,
        0x0E | 0x1A | 0x1C | 0x20 | 0x21 | 0x22 | 0x23 | 0x24 | 0x25 | 0x26 | 0x27 | 0x28 | 0x29
            | 0x2A | 0x2B | 0x2C | 0x2D | 0x2E | 0x2F | 0x3A | 0x6E | 0x8E | 0xCC | 0xCE => 3,
        0x30 | 0x31 | 0x32 | 0x33 | 0x7E | 0x83 | 0x8C | 0x90 | 0x91 | 0x92 | 0x94 | 0x95 | 0x96
            | 0x97 | 0x98 | 0x99 | 0x9A | 0x9B | 0xA0 | 0xA1 | 0xA2 | 0xA4 | 0xA5 | 0xA6 | 0xA7
            | 0xA8 | 0xA9 | 0xAA | 0xAB | 0xC3 | 0xD0 | 0xD1 | 0xD2 | 0xD4 | 0xD5 | 0xD6 | 0xD7
            | 0xD8 | 0xD9 | 0xDA | 0xDB | 0xE0 | 0xE1 | 0xE2 | 0xE4 | 0xE5 | 0xE6 | 0xE7 | 0xE8
            | 0xE9 | 0xEA | 0xEB => 4,
        0x16 | 0x34 | 0x35 | 0x36 | 0x37 | 0x39 | 0x9E | 0x9F | 0xAE | 0xAF | 0xB0 | 0xB1 | 0xB2
            | 0xB4 | 0xB5 | 0xB6 | 0xB7 | 0xB8 | 0xB9 | 0xBA | 0xBB | 0xDC | 0xDD | 0xDE | 0xDF
            | 0xEC | 0xED | 0xEE | 0xEF | 0xF0 | 0xF1 | 0xF2 | 0xF4 | 0xF5 | 0xF6 | 0xF7 | 0xF8
            | 0xF9 | 0xFA | 0xFB => 5,
        0x00 | 0x03 | 0x04 | 0x06 | 0x07 | 0x08 | 0x09 | 0x0A | 0x0C | 0x0D | 0x0F | 0x3B | 0x60
            | 0x63 | 0x64 | 0x66 | 0x67 | 0x68 | 0x69 | 0x6A | 0x6C | 0x6D | 0x6F | 0x93 | 0x9C
            | 0xA3 | 0xAC | 0xBE | 0xBF | 0xD3 | 0xE3 | 0xFC | 0xFD | 0xFE | 0xFF => 6,
        0x1F | 0x70 | 0x73 | 0x74 | 0x76 | 0x77 | 0x78 | 0x79 | 0x7A | 0x7C | 0x7D | 0x7F | 0x8D
            | 0x9D | 0xAD | 0xB3 | 0xBC | 0xF3 => 7,
        0x1E | 0xBD => 8,
        0x17 => 9,
        0x3D => 11,
        0x3F => 19,
        0x3C => 21,
        _ => 1,
    }
}

/// The page-0 opcodes with no assigned instruction (the two page prefixes
/// included): executing one marks the CPU's `illegal` flag.
pub open spec fn page0_illegal(op: u8) -> bool {
    ||| op == 0x02
    ||| op == 0x0B
    ||| op == 0x10
    ||| op == 0x11
    ||| op == 0x14
    ||| op == 0x15
    ||| op == 0x18
    ||| op == 0x1B
    ||| op == 0x38
    ||| op == 0x42
    ||| op == 0x4B
    ||| op == 0x4E
    ||| op == 0x52
    ||| op == 0x5B
    ||| op == 0x5E
    ||| op == 0x62
    ||| op == 0x6B
    ||| op == 0x72
    ||| op == 0x7B
    ||| op == 0x87
    ||| op == 0x8F
    ||| op == 0xC7
    ||| op == 0xCD
    ||| op == 0xCF
}

// ---------------------------------------------------------------------------
// PSHS / PULS / PSHU / PULU model
// ---------------------------------------------------------------------------
//
// A push bitmask selects, from bit 7 down to bit 0: PC, U (or S), Y, X, DP,
// B, A, CC. Pushes run in that order, each word low-byte-first, so the
// registers end up with CC at the lowest address; pulls run in the reverse
// order. The bundles are modeled as compositions of per-slot spec functions:
// a push acts on (registers, memory contents, cycles spent), a pull on
// (registers, cycles spent) and a read-only memory.

/// The stack pointer a bundle works with: S for PSHS/PULS, U for PSHU/PULU.
pub open spec fn stk_ptr(reg: Registers, hw: bool) -> u16 {
    if hw {
        reg.s
    } else {
        reg.u
    }
}

/// The register file with the bundle's stack pointer replaced.
pub open spec fn stk_set(reg: Registers, hw: bool, v: u16) -> Registers {
    if hw {
        Registers { s: v, ..reg }
    } else {
        Registers { u: v, ..reg }
    }
}

/// One optional word slot of a push bundle: if taken, the word goes low byte
/// first below the stack pointer, which pre-decrements by two; two cycles.
pub open spec fn psh_word(
    st: (Registers, spec_fn(u16) -> u8, int),
    hw: bool,
    take: bool,
    v: u16,
) -> (Registers, spec_fn(u16) -> u8, int) {
    if take {
        let p = stk_ptr(st.0, hw);
        (
            stk_set(st.0, hw, wsub(p, 2)),
            store8(store8(st.1, wsub(p, 1), lo8(v)), wsub(p, 2), hi8(v)),
            st.2 + 2,
        )
    } else {
        st
    }
}

/// One optional byte slot of a push bundle: one cycle.
pub open spec fn psh_byte(
    st: (Registers, spec_fn(u16) -> u8, int),
    hw: bool,
    take: bool,
    v: u8,
) -> (Registers, spec_fn(u16) -> u8, int) {
    if take {
        let p = stk_ptr(st.0, hw);
        (stk_set(st.0, hw, wsub(p, 1)), store8(st.1, wsub(p, 1), v), st.2 + 1)
    } else {
        st
    }
}

/// The word half of a push bundle: the PC, U/S, Y and X slots.
pub open spec fn psh_words(
    st: (Registers, spec_fn(u16) -> u8, int),
    hw: bool,
    pc: u16,
    other: u16,
    y: u16,
    x: u16,
    mask: u8,
) -> (Registers, spec_fn(u16) -> u8, int) {
    psh_word(
        psh_word(psh_word(psh_word(st, hw, mask & 0x80 != 0, pc), hw, mask & 0x40 != 0, other), hw, mask & 0x20 != 0, y),
        hw,
        mask & 0x10 != 0,
        x,
    )
}

/// The byte half of a push bundle: the DP, B, A and CC slots.
pub open spec fn psh_bytes(
    st: (Registers, spec_fn(u16) -> u8, int),
    hw: bool,
    dp: u8,
    b: u8,
    a: u8,
    cc: u8,
    mask: u8,
) -> (Registers, spec_fn(u16) -> u8, int) {
    psh_byte(
        psh_byte(psh_byte(psh_byte(st, hw, mask & 0x08 != 0, dp), hw, mask & 0x04 != 0, b), hw, mask & 0x02 != 0, a),
        hw,
        mask & 0x01 != 0,
        cc,
    )
}

/// The full effect of a push bundle on the registers, the memory and the
/// cycle count: `other` is the value of the bit-6 slot (U for PSHS, S for
/// PSHU).
pub open spec fn psh_bundle(
    reg0: Registers,
    m0: spec_fn(u16) -> u8,
    hw: bool,
    other: u16,
    mask: u8,
) -> (Registers, spec_fn(u16) -> u8, int) {
    psh_bytes(
        psh_words((reg0, m0, 0int), hw, reg0.pc, other, reg0.y, reg0.x, mask),
        hw,
        reg0.dp,
        reg0.spec_b(),
        reg0.spec_a(),
        reg0.cc.as_byte(),
        mask,
    )
}

/// One optional pull slot loading the condition codes; one cycle.
pub open spec fn pul_cc(st: (Registers, int), m: spec_fn(u16) -> u8, hw: bool, take: bool) -> (
    Registers,
    int,
) {
    if take {
        let p = stk_ptr(st.0, hw);
        (stk_set((Registers { cc: cc_from_byte(m(p)), ..st.0 }), hw, wadd(p, 1)), st.1 + 1)
    } else {
        st
    }
}

/// One optional pull slot loading accumulator A; one cycle.
pub open spec fn pul_a(st: (Registers, int), m: spec_fn(u16) -> u8, hw: bool, take: bool) -> (
    Registers,
    int,
) {
    if take {
        let p = stk_ptr(st.0, hw);
        (stk_set(st.0.with_a(m(p)), hw, wadd(p, 1)), st.1 + 1)
    } else {
        st
    }
}

/// One optional pull slot loading accumulator B; one cycle.
pub open spec fn pul_b(st: (Registers, int), m: spec_fn(u16) -> u8, hw: bool, take: bool) -> (
    Registers,
    int,
) {
    if take {
        let p = stk_ptr(st.0, hw);
        (stk_set(st.0.with_b(m(p)), hw, wadd(p, 1)), st.1 + 1)
    } else {
        st
    }
}

/// One optional pull slot loading DP; one cycle.
pub open spec fn pul_dp(st: (Registers, int), m: spec_fn(u16) -> u8, hw: bool, take: bool) -> (
    Registers,
    int,
) {
    if take {
        let p = stk_ptr(st.0, hw);
        (stk_set((Registers { dp: m(p), ..st.0 }), hw, wadd(p, 1)), st.1 + 1)
    } else {
        st
    }
}

/// One optional pull slot loading X, high byte first; two cycles.
pub open spec fn pul_x(st: (Registers, int), m: spec_fn(u16) -> u8, hw: bool, take: bool) -> (
    Registers,
    int,
) {
    if take {
        let p = stk_ptr(st.0, hw);
        (stk_set((Registers { x: word(m(p), m(wadd(p, 1))), ..st.0 }), hw, wadd(p, 2)), st.1 + 2)
    } else {
        st
    }
}

/// One optional pull slot loading Y, high byte first; two cycles.
pub open spec fn pul_y(st: (Registers, int), m: spec_fn(u16) -> u8, hw: bool, take: bool) -> (
    Registers,
    int,
) {
    if take {
        let p = stk_ptr(st.0, hw);
        (stk_set((Registers { y: word(m(p), m(wadd(p, 1))), ..st.0 }), hw, wadd(p, 2)), st.1 + 2)
    } else {
        st
    }
}

/// One optional pull slot loading the other stack pointer: U for PULS, S for PULU; two cycles.
pub open spec fn pul_other(st: (Registers, int), m: spec_fn(u16) -> u8, hw: bool, take: bool) -> (
    Registers,
    int,
) {
    if take {
        let p = stk_ptr(st.0, hw);
        (stk_set((if hw { (Registers { u: word(m(p), m(wadd(p, 1))), ..st.0 }) } else { (Registers { s: word(m(p), m(wadd(p, 1))), ..st.0 }) }), hw, wadd(p, 2)), st.1 + 2)
    } else {
        st
    }
}

/// One optional pull slot loading PC, high byte first; two cycles.
pub open spec fn pul_pc(st: (Registers, int), m: spec_fn(u16) -> u8, hw: bool, take: bool) -> (
    Registers,
    int,
) {
    if take {
        let p = stk_ptr(st.0, hw);
        (stk_set((Registers { pc: word(m(p), m(wadd(p, 1))), ..st.0 }), hw, wadd(p, 2)), st.1 + 2)
    } else {
        st
    }
}

/// The byte half of a pull bundle: the CC, A, B and DP slots.
pub open spec fn pul_lo4(st: (Registers, int), m: spec_fn(u16) -> u8, hw: bool, mask: u8) -> (
    Registers,
    int,
) {
    pul_dp(
        pul_b(pul_a(pul_cc(st, m, hw, mask & 0x01 != 0), m, hw, mask & 0x02 != 0), m, hw, mask & 0x04 != 0),
        m,
        hw,
        mask & 0x08 != 0,
    )
}

/// The word half of a pull bundle: the X, Y, U/S and PC slots.
pub open spec fn pul_hi4(st: (Registers, int), m: spec_fn(u16) -> u8, hw: bool, mask: u8) -> (
    Registers,
    int,
) {
    pul_pc(
        pul_other(pul_y(pul_x(st, m, hw, mask & 0x10 != 0), m, hw, mask & 0x20 != 0), m, hw, mask & 0x40 != 0),
        m,
        hw,
        mask & 0x80 != 0,
    )
}

/// The full effect of a pull bundle on the registers and the cycle count:
/// registers selected by `mask` are pulled in order CC, A, B, DP, X, Y,
/// U-or-S, PC from memory `m`, the stack pointer ending past the frame.
pub open spec fn pul_bundle(reg0: Registers, m: spec_fn(u16) -> u8, hw: bool, mask: u8) -> (
    Registers,
    int,
) {
    pul_hi4(pul_lo4((reg0, 0int), m, hw, mask), m, hw, mask)
}

/// The word half of a push bundle against the hardware stack.
#[verifier::rlimit(100)]
fn psh_words_s<B: Bus>(cpu: &mut Cpu, bus: &mut B, other: u16, mask: u8)
    requires
        old(cpu).cycles <= u64::MAX - 8,
    ensures
        ({
            let st = psh_words(
                (old(cpu).reg, mem_fn(old(bus)), 0int),
                true,
                old(cpu).reg.pc,
                other,
                old(cpu).reg.y,
                old(cpu).reg.x,
                mask,
            );
            &&& *final(cpu) == (Cpu {
                reg: st.0,
                cycles: (old(cpu).cycles + st.2) as u64,
                ..*old(cpu)
            })
            &&& (forall|a: u16| final(bus).mem(a) == (st.1)(a))
        }),
        old(cpu).cycles <= final(cpu).cycles <= old(cpu).cycles + 8,
{
    if mask & 0x80 != 0 {
        let pc = cpu.reg.pc;
        cpu.push_word_s(bus, pc);
        cpu.cycles = cpu.cycles + 2;
    }
    if mask & 0x40 != 0 {
        cpu.push_word_s(bus, other);
        cpu.cycles = cpu.cycles + 2;
    }
    if mask & 0x20 != 0 {
        let y = cpu.reg.y;
        cpu.push_word_s(bus, y);
        cpu.cycles = cpu.cycles + 2;
    }
    if mask & 0x10 != 0 {
        let x = cpu.reg.x;
        cpu.push_word_s(bus, x);
        cpu.cycles = cpu.cycles + 2;
    }
}

/// The byte half of a push bundle: continues a push chain `st_in` whose
/// registers the CPU currently holds and whose memory the bus currently
/// holds.
#[verifier::rlimit(100)]
fn psh_bytes_s<B: Bus>(
    cpu: &mut Cpu,
    bus: &mut B,
    mask: u8,
    Ghost(st_in): Ghost<(Registers, spec_fn(u16) -> u8, int)>,
)
    requires
        old(cpu).cycles <= u64::MAX - 4,
        st_in.0 == old(cpu).reg,
        forall|a: u16| (st_in.1)(a) == old(bus).mem(a),
    ensures
        ({
            let st = psh_bytes(
                st_in,
                true,
                st_in.0.dp,
                st_in.0.spec_b(),
                st_in.0.spec_a(),
                st_in.0.cc.as_byte(),
                mask,
            );
            &&& *final(cpu) == (Cpu {
                reg: st.0,
                cycles: (old(cpu).cycles + (st.2 - st_in.2)) as u64,
                ..*old(cpu)
            })
            &&& (forall|a: u16| final(bus).mem(a) == (st.1)(a))
        }),
        old(cpu).cycles <= final(cpu).cycles <= old(cpu).cycles + 4,
{
    if mask & 0x08 != 0 {
        let dp = cpu.reg.dp;
        cpu.push_byte_s(bus, dp);
        cpu.cycles = cpu.cycles + 1;
    }
    if mask & 0x04 != 0 {
        let b = cpu.reg.b();
        cpu.push_byte_s(bus, b);
        cpu.cycles = cpu.cycles + 1;
    }
    if mask & 0x02 != 0 {
        let a = cpu.reg.a();
        cpu.push_byte_s(bus, a);
        cpu.cycles = cpu.cycles + 1;
    }
    if mask & 0x01 != 0 {
        let cc = cpu.reg.cc.to_byte();
        cpu.push_byte_s(bus, cc);
        cpu.cycles = cpu.cycles + 1;
    }
}

/// The word half of a push bundle against the user stack.
#[verifier::rlimit(100)]
fn psh_words_u<B: Bus>(cpu: &mut Cpu, bus: &mut B, other: u16, mask: u8)
    requires
        old(cpu).cycles <= u64::MAX - 8,
    ensures
        ({
            let st = psh_words(
                (old(cpu).reg, mem_fn(old(bus)), 0int),
                false,
                old(cpu).reg.pc,
                other,
                old(cpu).reg.y,
                old(cpu).reg.x,
                mask,
            );
            &&& *final(cpu) == (Cpu {
                reg: st.0,
                cycles: (old(cpu).cycles + st.2) as u64,
                ..*old(cpu)
            })
            &&& (forall|a: u16| final(bus).mem(a) == (st.1)(a))
        }),
        old(cpu).cycles <= final(cpu).cycles <= old(cpu).cycles + 8,
{
    if mask & 0x80 != 0 {
        let pc = cpu.reg.pc;
        cpu.push_word_u(bus, pc);
        cpu.cycles = cpu.cycles + 2;
    }
    if mask & 0x40 != 0 {
        cpu.push_word_u(bus, other);
        cpu.cycles = cpu.cycles + 2;
    }
    if mask & 0x20 != 0 {
        let y = cpu.reg.y;
        cpu.push_word_u(bus, y);
        cpu.cycles = cpu.cycles + 2;
    }
    if mask & 0x10 != 0 {
        let x = cpu.reg.x;
        cpu.push_word_u(bus, x);
        cpu.cycles = cpu.cycles + 2;
    }
}

/// The byte half of a push bundle: continues a push chain `st_in` whose
/// registers the CPU currently holds and whose memory the bus currently
/// holds.
#[verifier::rlimit(100)]
fn psh_bytes_u<B: Bus>(
    cpu: &mut Cpu,
    bus: &mut B,
    mask: u8,
    Ghost(st_in): Ghost<(Registers, spec_fn(u16) -> u8, int)>,
)
    requires
        old(cpu).cycles <= u64::MAX - 4,
        st_in.0 == old(cpu).reg,
        forall|a: u16| (st_in.1)(a) == old(bus).mem(a),
    ensures
        ({
            let st = psh_bytes(
                st_in,
                false,
                st_in.0.dp,
                st_in.0.spec_b(),
                st_in.0.spec_a(),
                st_in.0.cc.as_byte(),
                mask,
            );
            &&& *final(cpu) == (Cpu {
                reg: st.0,
                cycles: (old(cpu).cycles + (st.2 - st_in.2)) as u64,
                ..*old(cpu)
            })
            &&& (forall|a: u16| final(bus).mem(a) == (st.1)(a))
        }),
        old(cpu).cycles <= final(cpu).cycles <= old(cpu).cycles + 4,
{
    if mask & 0x08 != 0 {
        let dp = cpu.reg.dp;
        cpu.push_byte_u(bus, dp);
        cpu.cycles = cpu.cycles + 1;
    }
    if mask & 0x04 != 0 {
        let b = cpu.reg.b();
        cpu.push_byte_u(bus, b);
        cpu.cycles = cpu.cycles + 1;
    }
    if mask & 0x02 != 0 {
        let a = cpu.reg.a();
        cpu.push_byte_u(bus, a);
        cpu.cycles = cpu.cycles + 1;
    }
    if mask & 0x01 != 0 {
        let cc = cpu.reg.cc.to_byte();
        cpu.push_byte_u(bus, cc);
        cpu.cycles = cpu.cycles + 1;
    }
}

/// PSHS: push the registers selected by the bitmask onto the hardware stack S;
/// the bit-6 slot pushes U. Each byte moved costs a cycle.
#[verifier::rlimit(100)]
pub fn pshs<B: Bus>(cpu: &mut Cpu, bus: &mut B, mask: u8)
    requires
        old(cpu).cycles <= u64::MAX - 12,
    ensures
        ({
            let st = psh_bundle(
                old(cpu).reg,
                mem_fn(old(bus)),
                true,
                old(cpu).reg.u,
                mask,
            );
            &&& *final(cpu) == (Cpu {
                reg: st.0,
                cycles: (old(cpu).cycles + st.2) as u64,
                ..*old(cpu)
            })
            &&& (forall|a: u16| final(bus).mem(a) == (st.1)(a))
        }),
        old(cpu).cycles <= final(cpu).cycles <= old(cpu).cycles + 12,
{
    let ghost stw = psh_words(
        (old(cpu).reg, mem_fn(old(bus)), 0int),
        true,
        old(cpu).reg.pc,
        old(cpu).reg.u,
        old(cpu).reg.y,
        old(cpu).reg.x,
        mask,
    );
    let other = cpu.reg.u;
    psh_words_s(cpu, bus, other, mask);
    psh_bytes_s(cpu, bus, mask, Ghost(stw));
}

/// PSHU: push the registers selected by the bitmask onto the user stack U;
/// the bit-6 slot pushes S. Each byte moved costs a cycle.
#[verifier::rlimit(100)]
pub fn pshu<B: Bus>(cpu: &mut Cpu, bus: &mut B, mask: u8)
    requires
        old(cpu).cycles <= u64::MAX - 12,
    ensures
        ({
            let st = psh_bundle(
                old(cpu).reg,
                mem_fn(old(bus)),
                false,
                old(cpu).reg.s,
                mask,
            );
            &&& *final(cpu) == (Cpu {
                reg: st.0,
                cycles: (old(cpu).cycles + st.2) as u64,
                ..*old(cpu)
            })
            &&& (forall|a: u16| final(bus).mem(a) == (st.1)(a))
        }),
        old(cpu).cycles <= final(cpu).cycles <= old(cpu).cycles + 12,
{
    let ghost stw = psh_words(
        (old(cpu).reg, mem_fn(old(bus)), 0int),
        false,
        old(cpu).reg.pc,
        old(cpu).reg.s,
        old(cpu).reg.y,
        old(cpu).reg.x,
        mask,
    );
    let other = cpu.reg.s;
    psh_words_u(cpu, bus, other, mask);
    proof {
        assert(cpu.reg == stw.0);
        assert(forall|a: u16| bus.mem(a) == (stw.1)(a));
        assert(stw.0.dp == old(cpu).reg.dp && stw.0.d == old(cpu).reg.d && stw.0.cc == old(
            cpu,
        ).reg.cc);
    }
    psh_bytes_u(cpu, bus, mask, Ghost(stw));
}

/// The byte half of a pull bundle against the hardware stack.
#[verifier::rlimit(100)]
fn pul_lo_s<B: Bus>(cpu: &mut Cpu, bus: &B, mask: u8, Ghost(m): Ghost<spec_fn(u16) -> u8>)
    requires
        old(cpu).cycles <= u64::MAX - 4,
        forall|a: u16| m(a) == bus.mem(a),
    ensures
        ({
            let st = pul_lo4((old(cpu).reg, 0int), m, true, mask);
            *final(cpu) == (Cpu {
                reg: st.0,
                cycles: (old(cpu).cycles + st.1) as u64,
                ..*old(cpu)
            })
        }),
        old(cpu).cycles <= final(cpu).cycles <= old(cpu).cycles + 8,
{
    if mask & 0x01 != 0 {
        let v = cpu.pull_byte_s(bus);
        cpu.reg.cc = ConditionCodes::from_byte(v);
        cpu.cycles = cpu.cycles + 1;
    }
    if mask & 0x02 != 0 {
        let v = cpu.pull_byte_s(bus);
        cpu.reg.set_a(v);
        cpu.cycles = cpu.cycles + 1;
    }
    if mask & 0x04 != 0 {
        let v = cpu.pull_byte_s(bus);
        cpu.reg.set_b(v);
        cpu.cycles = cpu.cycles + 1;
    }
    if mask & 0x08 != 0 {
        cpu.reg.dp = cpu.pull_byte_s(bus);
        cpu.cycles = cpu.cycles + 1;
    }
}

/// The word half of a pull bundle: continues a pull chain `st_in` whose
/// registers the CPU currently holds.
#[verifier::rlimit(100)]
fn pul_hi_s<B: Bus>(
    cpu: &mut Cpu,
    bus: &B,
    mask: u8,
    Ghost(m): Ghost<spec_fn(u16) -> u8>,
    Ghost(st_in): Ghost<(Registers, int)>,
)
    requires
        old(cpu).cycles <= u64::MAX - 8,
        st_in.0 == old(cpu).reg,
        forall|a: u16| m(a) == bus.mem(a),
    ensures
        ({
            let st = pul_hi4(st_in, m, true, mask);
            *final(cpu) == (Cpu {
                reg: st.0,
                cycles: (old(cpu).cycles + (st.1 - st_in.1)) as u64,
                ..*old(cpu)
            })
        }),
        old(cpu).cycles <= final(cpu).cycles <= old(cpu).cycles + 8,
{
    if mask & 0x10 != 0 {
        cpu.reg.x = cpu.pull_word_s(bus);
        cpu.cycles = cpu.cycles + 2;
    }
    if mask & 0x20 != 0 {
        cpu.reg.y = cpu.pull_word_s(bus);
        cpu.cycles = cpu.cycles + 2;
    }
    if mask & 0x40 != 0 {
        cpu.reg.u = cpu.pull_word_s(bus);
        cpu.cycles = cpu.cycles + 2;
    }
    if mask & 0x80 != 0 {
        cpu.reg.pc = cpu.pull_word_s(bus);
        cpu.cycles = cpu.cycles + 2;
    }
}

/// The byte half of a pull bundle against the user stack.
#[verifier::rlimit(100)]
fn pul_lo_u<B: Bus>(cpu: &mut Cpu, bus: &B, mask: u8, Ghost(m): Ghost<spec_fn(u16) -> u8>)
    requires
        old(cpu).cycles <= u64::MAX - 4,
        forall|a: u16| m(a) == bus.mem(a),
    ensures
        ({
            let st = pul_lo4((old(cpu).reg, 0int), m, false, mask);
            *final(cpu) == (Cpu {
                reg: st.0,
                cycles: (old(cpu).cycles + st.1) as u64,
                ..*old(cpu)
            })
        }),
        old(cpu).cycles <= final(cpu).cycles <= old(cpu).cycles + 8,
{
    if mask & 0x01 != 0 {
        let v = cpu.pull_byte_u(bus);
        cpu.reg.cc = ConditionCodes::from_byte(v);
        cpu.cycles = cpu.cycles + 1;
    }
    if mask & 0x02 != 0 {
        let v = cpu.pull_byte_u(bus);
        cpu.reg.set_a(v);
        cpu.cycles = cpu.cycles + 1;
    }
    if mask & 0x04 != 0 {
        let v = cpu.pull_byte_u(bus);
        cpu.reg.set_b(v);
        cpu.cycles = cpu.cycles + 1;
    }
    if mask & 0x08 != 0 {
        cpu.reg.dp = cpu.pull_byte_u(bus);
        cpu.cycles = cpu.cycles + 1;
    }
}

/// The word half of a pull bundle: continues a pull chain `st_in` whose
/// registers the CPU currently holds.
#[verifier::rlimit(100)]
fn pul_hi_u<B: Bus>(
    cpu: &mut Cpu,
    bus: &B,
    mask: u8,
    Ghost(m): Ghost<spec_fn(u16) -> u8>,
    Ghost(st_in): Ghost<(Registers, int)>,
)
    requires
        old(cpu).cycles <= u64::MAX - 8,
        st_in.0 == old(cpu).reg,
        forall|a: u16| m(a) == bus.mem(a),
    ensures
        ({
            let st = pul_hi4(st_in, m, false, mask);
            *final(cpu) == (Cpu {
                reg: st.0,
                cycles: (old(cpu).cycles + (st.1 - st_in.1)) as u64,
                nmi_armed: old(cpu).nmi_armed || mask & 0x40 != 0,
                ..*old(cpu)
            })
        }),
        old(cpu).cycles <= final(cpu).cycles <= old(cpu).cycles + 8,
{
    if mask & 0x10 != 0 {
        cpu.reg.x = cpu.pull_word_u(bus);
        cpu.cycles = cpu.cycles + 2;
    }
    if mask & 0x20 != 0 {
        cpu.reg.y = cpu.pull_word_u(bus);
        cpu.cycles = cpu.cycles + 2;
    }
    if mask & 0x40 != 0 {
        cpu.reg.s = cpu.pull_word_u(bus);
        cpu.arm_nmi();
        cpu.cycles = cpu.cycles + 2;
    }
    if mask & 0x80 != 0 {
        cpu.reg.pc = cpu.pull_word_u(bus);
        cpu.cycles = cpu.cycles + 2;
    }
}

/// PULS: pull the registers selected by the bitmask from the hardware stack S,
/// CC first. Each byte moved costs a cycle; the bit-6 slot loads U, and PULS never arms the NMI input.
#[verifier::rlimit(100)]
pub fn puls<B: Bus>(cpu: &mut Cpu, bus: &B, mask: u8)
    requires
        old(cpu).cycles <= u64::MAX - 12,
    ensures
        ({
            let st = pul_bundle(old(cpu).reg, mem_fn(bus), true, mask);
            *final(cpu) == (Cpu {
                reg: st.0,
                cycles: (old(cpu).cycles + st.1) as u64,
                ..*old(cpu)
            })
        }),
        old(cpu).cycles <= final(cpu).cycles <= old(cpu).cycles + 12,
{
    let ghost m = mem_fn(bus);
    let ghost stl = pul_lo4((old(cpu).reg, 0int), m, true, mask);
    pul_lo_s(cpu, bus, mask, Ghost(m));
    pul_hi_s(cpu, bus, mask, Ghost(m), Ghost(stl));
}

/// PULU: pull the registers selected by the bitmask from the user stack U,
/// CC first. Each byte moved costs a cycle; the bit-6 slot loads S, which arms the NMI input.
#[verifier::rlimit(100)]
pub fn pulu<B: Bus>(cpu: &mut Cpu, bus: &B, mask: u8)
    requires
        old(cpu).cycles <= u64::MAX - 12,
    ensures
        ({
            let st = pul_bundle(old(cpu).reg, mem_fn(bus), false, mask);
            *final(cpu) == (Cpu {
                reg: st.0,
                cycles: (old(cpu).cycles + st.1) as u64,
                nmi_armed: old(cpu).nmi_armed || mask & 0x40 != 0,
                ..*old(cpu)
            })
        }),
        old(cpu).cycles <= final(cpu).cycles <= old(cpu).cycles + 12,
{
    let ghost m = mem_fn(bus);
    let ghost stl = pul_lo4((old(cpu).reg, 0int), m, false, mask);
    pul_lo_u(cpu, bus, mask, Ghost(m));
    pul_hi_u(cpu, bus, mask, Ghost(m), Ghost(stl));
}


// ---------------------------------------------------------------------------
// TFR / EXG
// ---------------------------------------------------------------------------

/// Whether a TFR/EXG register code names a 16-bit register (0..5: D, X, Y,
/// U, S, PC). Codes 8..11 are the 8-bit A, B, CC, DP; other codes are
/// undefined and read as 0xFF.
pub open spec fn reg_code_is16(code: u8) -> bool {
    code <= 5
}

/// The value a TFR/EXG register code reads (an 8-bit register in the low
/// byte; undefined codes read 0xFF).
pub open spec fn reg_code_val(reg: Registers, code: u8) -> u16 {
    if code == 0x0 {
        reg.d
    } else if code == 0x1 {
        reg.x
    } else if code == 0x2 {
        reg.y
    } else if code == 0x3 {
        reg.u
    } else if code == 0x4 {
        reg.s
    } else if code == 0x5 {
        reg.pc
    } else if code == 0x8 {
        reg.spec_a() as u16
    } else if code == 0x9 {
        reg.spec_b() as u16
    } else if code == 0xA {
        reg.cc.as_byte() as u16
    } else if code == 0xB {
        reg.dp as u16
    } else {
        0xFF
    }
}

/// The register file after a TFR/EXG register code is written (writes to
/// undefined codes are dropped).
pub open spec fn reg_code_write(reg: Registers, code: u8, val: u16) -> Registers {
    if code == 0x0 {
        Registers { d: val, ..reg }
    } else if code == 0x1 {
        Registers { x: val, ..reg }
    } else if code == 0x2 {
        Registers { y: val, ..reg }
    } else if code == 0x3 {
        Registers { u: val, ..reg }
    } else if code == 0x4 {
        Registers { s: val, ..reg }
    } else if code == 0x5 {
        Registers { pc: val, ..reg }
    } else if code == 0x8 {
        reg.with_a(val as u8)
    } else if code == 0x9 {
        reg.with_b(val as u8)
    } else if code == 0xA {
        Registers { cc: cc_from_byte(val as u8), ..reg }
    } else if code == 0xB {
        Registers { dp: val as u8, ..reg }
    } else {
        reg
    }
}

/// Read a register identified by a 4-bit TFR/EXG code. Returns the value and
/// whether the code names a 16-bit register.
pub fn read_reg(cpu: &Cpu, code: u8) -> (r: (u16, bool))
    ensures
        r.0 == reg_code_val(cpu.reg, code),
        r.1 == reg_code_is16(code),
{
    if code == 0x0 {
        (cpu.reg.d, true)
    } else if code == 0x1 {
        (cpu.reg.x, true)
    } else if code == 0x2 {
        (cpu.reg.y, true)
    } else if code == 0x3 {
        (cpu.reg.u, true)
    } else if code == 0x4 {
        (cpu.reg.s, true)
    } else if code == 0x5 {
        (cpu.reg.pc, true)
    } else if code == 0x8 {
        (cpu.reg.a() as u16, false)
    } else if code == 0x9 {
        (cpu.reg.b() as u16, false)
    } else if code == 0xA {
        (cpu.reg.cc.to_byte() as u16, false)
    } else if code == 0xB {
        (cpu.reg.dp as u16, false)
    } else {
        // undefined register code reads 0xFF
        (0xFF, false)
    }
}

/// Write a register identified by a 4-bit TFR/EXG code; writing S arms the
/// NMI input.
pub fn write_reg(cpu: &mut Cpu, code: u8, val: u16)
    ensures
        *final(cpu) == (Cpu {
            reg: reg_code_write(old(cpu).reg, code, val),
            nmi_armed: old(cpu).nmi_armed || code == 0x4,
            ..*old(cpu)
        }),
{
    if code == 0x0 {
        cpu.reg.d = val;
    } else if code == 0x1 {
        cpu.reg.x = val;
    } else if code == 0x2 {
        cpu.reg.y = val;
    } else if code == 0x3 {
        cpu.reg.u = val;
    } else if code == 0x4 {
        cpu.reg.s = val;
        cpu.arm_nmi();
    } else if code == 0x5 {
        cpu.reg.pc = val;
    } else if code == 0x8 {
        cpu.reg.set_a(#[verifier::truncate] (val as u8));
    } else if code == 0x9 {
        cpu.reg.set_b(#[verifier::truncate] (val as u8));
    } else if code == 0xA {
        cpu.reg.cc = ConditionCodes::from_byte(#[verifier::truncate] (val as u8));
    } else if code == 0xB {
        cpu.reg.dp = #[verifier::truncate] (val as u8);
    }
    // writes to undefined register codes are dropped
}

/// The value a TFR moves: the source value, or the 0xFF/0xFFFF sentinel on a
/// cross-size transfer (undocumented behavior).
pub open spec fn tfr_moved_val(reg: Registers, src: u8, dst: u8) -> u16 {
    if reg_code_is16(src) != reg_code_is16(dst) {
        if reg_code_is16(dst) {
            0xFFFF
        } else {
            0xFF
        }
    } else {
        reg_code_val(reg, src)
    }
}

/// TFR: transfer source register to destination register (post-byte high
/// nibble names the source, low nibble the destination).
pub fn tfr(cpu: &mut Cpu, post: u8)
    ensures
        ({
            let src = (post >> 4) & 0x0F;
            let dst = post & 0x0F;
            *final(cpu) == (Cpu {
                reg: reg_code_write(old(cpu).reg, dst, tfr_moved_val(old(cpu).reg, src, dst)),
                nmi_armed: old(cpu).nmi_armed || dst == 0x4,
                ..*old(cpu)
            })
        }),
{
    let src_code = (post >> 4) & 0x0F;
    let dst_code = post & 0x0F;
    let (src_val, src_16) = read_reg(cpu, src_code);
    let (_, dst_16) = read_reg(cpu, dst_code);

    let val = if src_16 != dst_16 {
        // Mixed 8/16-bit transfer writes the sentinel (undocumented)
        if dst_16 {
            0xFFFF
        } else {
            0xFF
        }
    } else {
        src_val
    };
    write_reg(cpu, dst_code, val);
}

/// EXG: exchange source and destination registers; a cross-size exchange
/// writes the 0xFF/0xFFFF sentinel to both (undocumented behavior).
pub fn exg(cpu: &mut Cpu, post: u8)
    ensures
        ({
            let src = (post >> 4) & 0x0F;
            let dst = post & 0x0F;
            let to_src = if reg_code_is16(src) != reg_code_is16(dst) {
                if reg_code_is16(src) {
                    0xFFFFu16
                } else {
                    0xFFu16
                }
            } else {
                reg_code_val(old(cpu).reg, dst)
            };
            let to_dst = if reg_code_is16(src) != reg_code_is16(dst) {
                if reg_code_is16(dst) {
                    0xFFFFu16
                } else {
                    0xFFu16
                }
            } else {
                reg_code_val(old(cpu).reg, src)
            };
            *final(cpu) == (Cpu {
                reg: reg_code_write(reg_code_write(old(cpu).reg, src, to_src), dst, to_dst),
                nmi_armed: old(cpu).nmi_armed || src == 0x4 || dst == 0x4,
                ..*old(cpu)
            })
        }),
{
    let src_code = (post >> 4) & 0x0F;
    let dst_code = post & 0x0F;
    let (src_val, src_16) = read_reg(cpu, src_code);
    let (dst_val, dst_16) = read_reg(cpu, dst_code);

    if src_16 != dst_16 {
        // Mixed 8/16-bit exchange: both sides get the sentinel (undocumented)
        let sv = if src_16 {
            0xFFFFu16
        } else {
            0xFFu16
        };
        let dv = if dst_16 {
            0xFFFFu16
        } else {
            0xFFu16
        };
        write_reg(cpu, src_code, sv);
        write_reg(cpu, dst_code, dv);
    } else {
        write_reg(cpu, src_code, dst_val);
        write_reg(cpu, dst_code, src_val);
    }
}

/// Opcodes 0x00..0x0F: read-modify-write against a direct-page address.
#[verifier::rlimit(100)]
#[verifier::spinoff_prover]
fn row_direct_rmw<B: Bus>(cpu: &mut Cpu, bus: &mut B, opcode: u8)
    requires
        old(cpu).wf(),
        !old(cpu).cwai,
        !old(cpu).sync,
        0x00 <= opcode < 0x10,
        old(cpu).cycles <= u64::MAX - 43,
    ensures
        final(cpu).wf(),
        old(cpu).cycles <= final(cpu).cycles <= old(cpu).cycles + 12,
        old(cpu).nmi_armed ==> final(cpu).nmi_armed,
        final(cpu).halted == old(cpu).halted,
        final(cpu).illegal == (old(cpu).illegal || page0_illegal(opcode)),
        final(cpu).nmi_pending == old(cpu).nmi_pending,
        final(cpu).firq_line == old(cpu).firq_line,
        final(cpu).irq_line == old(cpu).irq_line,
        final(cpu).sync == old(cpu).sync,
        final(cpu).cwai == old(cpu).cwai,
        ({
            let o = row_direct_rmw_outcome(*old(cpu), mem_fn(old(bus)), opcode);
            &&& *final(cpu) == o.0
            &&& (forall|a: u16| final(bus).mem(a) == (o.1)(a))
        }),
{
    match opcode {
        0x00 | 0x01 => {
            // NEG (with its undocumented alias)
            let addr = cpu.addr_direct(bus);
            let val = bus.read(addr);
            let r = alu::neg8(val, &mut cpu.reg.cc);
            bus.write(addr, r);
        },
        0x03 => {
            // COM
            let addr = cpu.addr_direct(bus);
            let val = bus.read(addr);
            let r = alu::com8(val, &mut cpu.reg.cc);
            bus.write(addr, r);
        },
        0x04 | 0x05 => {
            // LSR (with its undocumented alias)
            let addr = cpu.addr_direct(bus);
            let val = bus.read(addr);
            let r = alu::lsr8(val, &mut cpu.reg.cc);
            bus.write(addr, r);
        },
        0x06 => {
            // ROR
            let addr = cpu.addr_direct(bus);
            let val = bus.read(addr);
            let r = alu::ror8(val, &mut cpu.reg.cc);
            bus.write(addr, r);
        },
        0x07 => {
            // ASR
            let addr = cpu.addr_direct(bus);
            let val = bus.read(addr);
            let r = alu::asr8(val, &mut cpu.reg.cc);
            bus.write(addr, r);
        },
        0x08 => {
            // ASL
            let addr = cpu.addr_direct(bus);
            let val = bus.read(addr);
            let r = alu::asl8(val, &mut cpu.reg.cc);
            bus.write(addr, r);
        },
        0x09 => {
            // ROL
            let addr = cpu.addr_direct(bus);
            let val = bus.read(addr);
            let r = alu::rol8(val, &mut cpu.reg.cc);
            bus.write(addr, r);
        },
        0x0A => {
            // DEC
            let addr = cpu.addr_direct(bus);
            let val = bus.read(addr);
            let r = alu::dec8(val, &mut cpu.reg.cc);
            bus.write(addr, r);
        },
        0x0C => {
            // INC
            let addr = cpu.addr_direct(bus);
            let val = bus.read(addr);
            let r = alu::inc8(val, &mut cpu.reg.cc);
            bus.write(addr, r);
        },
        0x0D => {
            // TST
            let addr = cpu.addr_direct(bus);
            let val = bus.read(addr);
            alu::tst8(val, &mut cpu.reg.cc);
        },
        0x0E => {
            // JMP
            let addr = cpu.addr_direct(bus);
            cpu.reg.pc = addr;
        },
        0x0F => {
            // CLR
            let addr = cpu.addr_direct(bus);
            let r = alu::clr8(&mut cpu.reg.cc);
            bus.write(addr, r);
        },
        _ => {
            // unassigned opcode
            cpu.illegal = true;
        },
    }
}

/// Opcodes 0x60..0x6F: read-modify-write against an indexed address.
#[verifier::rlimit(100)]
#[verifier::spinoff_prover]
fn row_indexed_rmw<B: Bus>(cpu: &mut Cpu, bus: &mut B, opcode: u8)
    requires
        old(cpu).wf(),
        !old(cpu).cwai,
        !old(cpu).sync,
        0x60 <= opcode < 0x70,
        old(cpu).cycles <= u64::MAX - 43,
    ensures
        final(cpu).wf(),
        old(cpu).cycles <= final(cpu).cycles <= old(cpu).cycles + 12,
        old(cpu).nmi_armed ==> final(cpu).nmi_armed,
        final(cpu).halted == old(cpu).halted,
        final(cpu).illegal == (old(cpu).illegal || page0_illegal(opcode)),
        final(cpu).nmi_pending == old(cpu).nmi_pending,
        final(cpu).firq_line == old(cpu).firq_line,
        final(cpu).irq_line == old(cpu).irq_line,
        final(cpu).sync == old(cpu).sync,
        final(cpu).cwai == old(cpu).cwai,
        ({
            let o = row_indexed_rmw_outcome(*old(cpu), mem_fn(old(bus)), opcode);
            &&& *final(cpu) == o.0
            &&& (forall|a: u16| final(bus).mem(a) == (o.1)(a))
        }),
{
    match opcode {
        0x60 | 0x61 => {
            // NEG (with its undocumented alias)
            let (addr, ex) = cpu.addr_indexed(bus);
            cpu.cycles = cpu.cycles + ex as u64;
            let val = bus.read(addr);
            let r = alu::neg8(val, &mut cpu.reg.cc);
            bus.write(addr, r);
        },
        0x63 => {
            // COM
            let (addr, ex) = cpu.addr_indexed(bus);
            cpu.cycles = cpu.cycles + ex as u64;
            let val = bus.read(addr);
            let r = alu::com8(val, &mut cpu.reg.cc);
            bus.write(addr, r);
        },
        0x64 | 0x65 => {
            // LSR (with its undocumented alias)
            let (addr, ex) = cpu.addr_indexed(bus);
            cpu.cycles = cpu.cycles + ex as u64;
            let val = bus.read(addr);
            let r = alu::lsr8(val, &mut cpu.reg.cc);
            bus.write(addr, r);
        },
        0x66 => {
            // ROR
            let (addr, ex) = cpu.addr_indexed(bus);
            cpu.cycles = cpu.cycles + ex as u64;
            let val = bus.read(addr);
            let r = alu::ror8(val, &mut cpu.reg.cc);
            bus.write(addr, r);
        },
        0x67 => {
            // ASR
            let (addr, ex) = cpu.addr_indexed(bus);
            cpu.cycles = cpu.cycles + ex as u64;
            let val = bus.read(addr);
            let r = alu::asr8(val, &mut cpu.reg.cc);
            bus.write(addr, r);
        },
        0x68 => {
            // ASL
            let (addr, ex) = cpu.addr_indexed(bus);
            cpu.cycles = cpu.cycles + ex as u64;
            let val = bus.read(addr);
            let r = alu::asl8(val, &mut cpu.reg.cc);
            bus.write(addr, r);
        },
        0x69 => {
            // ROL
            let (addr, ex) = cpu.addr_indexed(bus);
            cpu.cycles = cpu.cycles + ex as u64;
            let val = bus.read(addr);
            let r = alu::rol8(val, &mut cpu.reg.cc);
            bus.write(addr, r);
        },
        0x6A => {
            // DEC
            let (addr, ex) = cpu.addr_indexed(bus);
            cpu.cycles = cpu.cycles + ex as u64;
            let val = bus.read(addr);
            let r = alu::dec8(val, &mut cpu.reg.cc);
            bus.write(addr, r);
        },
        0x6C => {
            // INC
            let (addr, ex) = cpu.addr_indexed(bus);
            cpu.cycles = cpu.cycles + ex as u64;
            let val = bus.read(addr);
            let r = alu::inc8(val, &mut cpu.reg.cc);
            bus.write(addr, r);
        },
        0x6D => {
            // TST
            let (addr, ex) = cpu.addr_indexed(bus);
            cpu.cycles = cpu.cycles + ex as u64;
            let val = bus.read(addr);
            alu::tst8(val, &mut cpu.reg.cc);
        },
        0x6E => {
            // JMP
            let (addr, ex) = cpu.addr_indexed(bus);
            cpu.cycles = cpu.cycles + ex as u64;
            cpu.reg.pc = addr;
        },
        0x6F => {
            // CLR
            let (addr, ex) = cpu.addr_indexed(bus);
            cpu.cycles = cpu.cycles + ex as u64;
            let r = alu::clr8(&mut cpu.reg.cc);
            bus.write(addr, r);
        },
        _ => {
            // unassigned opcode
            cpu.illegal = true;
        },
    }
}

/// Opcodes 0x70..0x7F: read-modify-write against an extended address.
#[verifier::rlimit(100)]
#[verifier::spinoff_prover]
fn row_extended_rmw<B: Bus>(cpu: &mut Cpu, bus: &mut B, opcode: u8)
    requires
        old(cpu).wf(),
        !old(cpu).cwai,
        !old(cpu).sync,
        0x70 <= opcode < 0x80,
        old(cpu).cycles <= u64::MAX - 43,
    ensures
        final(cpu).wf(),
        old(cpu).cycles <= final(cpu).cycles <= old(cpu).cycles + 12,
        old(cpu).nmi_armed ==> final(cpu).nmi_armed,
        final(cpu).halted == old(cpu).halted,
        final(cpu).illegal == (old(cpu).illegal || page0_illegal(opcode)),
        final(cpu).nmi_pending == old(cpu).nmi_pending,
        final(cpu).firq_line == old(cpu).firq_line,
        final(cpu).irq_line == old(cpu).irq_line,
        final(cpu).sync == old(cpu).sync,
        final(cpu).cwai == old(cpu).cwai,
        ({
            let o = row_extended_rmw_outcome(*old(cpu), mem_fn(old(bus)), opcode);
            &&& *final(cpu) == o.0
            &&& (forall|a: u16| final(bus).mem(a) == (o.1)(a))
        }),
{
    match opcode {
        0x70 | 0x71 => {
            // NEG (with its undocumented alias)
            let addr = cpu.addr_extended(bus);
            let val = bus.read(addr);
            let r = alu::neg8(val, &mut cpu.reg.cc);
            bus.write(addr, r);
        },
        0x73 => {
            // COM
            let addr = cpu.addr_extended(bus);
            let val = bus.read(addr);
            let r = alu::com8(val, &mut cpu.reg.cc);
            bus.write(addr, r);
        },
        0x74 | 0x75 => {
            // LSR (with its undocumented alias)
            let addr = cpu.addr_extended(bus);
            let val = bus.read(addr);
            let r = alu::lsr8(val, &mut cpu.reg.cc);
            bus.write(addr, r);
        },
        0x76 => {
            // ROR
            let addr = cpu.addr_extended(bus);
            let val = bus.read(addr);
            let r = alu::ror8(val, &mut cpu.reg.cc);
            bus.write(addr, r);
        },
        0x77 => {
            // ASR
            let addr = cpu.addr_extended(bus);
            let val = bus.read(addr);
            let r = alu::asr8(val, &mut cpu.reg.cc);
            bus.write(addr, r);
        },
        0x78 => {
            // ASL
            let addr = cpu.addr_extended(bus);
            let val = bus.read(addr);
            let r = alu::asl8(val, &mut cpu.reg.cc);
            bus.write(addr, r);
        },
        0x79 => {
            // ROL
            let addr = cpu.addr_extended(bus);
            let val = bus.read(addr);
            let r = alu::rol8(val, &mut cpu.reg.cc);
            bus.write(addr, r);
        },
        0x7A => {
            // DEC
            let addr = cpu.addr_extended(bus);
            let val = bus.read(addr);
            let r = alu::dec8(val, &mut cpu.reg.cc);
            bus.write(addr, r);
        },
        0x7C => {
            // INC
            let addr = cpu.addr_extended(bus);
            let val = bus.read(addr);
            let r = alu::inc8(val, &mut cpu.reg.cc);
            bus.write(addr, r);
        },
        0x7D => {
            // TST
            let addr = cpu.addr_extended(bus);
            let val = bus.read(addr);
            alu::tst8(val, &mut cpu.reg.cc);
        },
        0x7E => {
            // JMP
            let addr = cpu.addr_extended(bus);
            cpu.reg.pc = addr;
        },
        0x7F => {
            // CLR
            let addr = cpu.addr_extended(bus);
            let r = alu::clr8(&mut cpu.reg.cc);
            bus.write(addr, r);
        },
        _ => {
            // unassigned opcode
            cpu.illegal = true;
        },
    }
}

/// Opcodes 0x40..0x4F: inherent operations on accumulator A.
#[verifier::rlimit(100)]
#[verifier::spinoff_prover]
fn row_inherent_a(cpu: &mut Cpu, opcode: u8)
    requires
        old(cpu).wf(),
        !old(cpu).cwai,
        !old(cpu).sync,
        0x40 <= opcode < 0x50,
    ensures
        final(cpu).wf(),
        final(cpu).cycles == old(cpu).cycles,
        old(cpu).nmi_armed ==> final(cpu).nmi_armed,
        final(cpu).halted == old(cpu).halted,
        final(cpu).illegal == (old(cpu).illegal || page0_illegal(opcode)),
        final(cpu).nmi_pending == old(cpu).nmi_pending,
        final(cpu).firq_line == old(cpu).firq_line,
        final(cpu).irq_line == old(cpu).irq_line,
        final(cpu).sync == old(cpu).sync,
        final(cpu).cwai == old(cpu).cwai,
        *final(cpu) == row_inherent_a_outcome(*old(cpu), opcode),
{
    match opcode {
        0x40 | 0x41 => {
            // NEG (with its undocumented alias)A
            let v = cpu.reg.a();
            let r = alu::neg8(v, &mut cpu.reg.cc);
            cpu.reg.set_a(r);
        },
        0x43 => {
            // COMA
            let v = cpu.reg.a();
            let r = alu::com8(v, &mut cpu.reg.cc);
            cpu.reg.set_a(r);
        },
        0x44 | 0x45 => {
            // LSR (with its undocumented alias)A
            let v = cpu.reg.a();
            let r = alu::lsr8(v, &mut cpu.reg.cc);
            cpu.reg.set_a(r);
        },
        0x46 => {
            // RORA
            let v = cpu.reg.a();
            let r = alu::ror8(v, &mut cpu.reg.cc);
            cpu.reg.set_a(r);
        },
        0x47 => {
            // ASRA
            let v = cpu.reg.a();
            let r = alu::asr8(v, &mut cpu.reg.cc);
            cpu.reg.set_a(r);
        },
        0x48 => {
            // ASLA
            let v = cpu.reg.a();
            let r = alu::asl8(v, &mut cpu.reg.cc);
            cpu.reg.set_a(r);
        },
        0x49 => {
            // ROLA
            let v = cpu.reg.a();
            let r = alu::rol8(v, &mut cpu.reg.cc);
            cpu.reg.set_a(r);
        },
        0x4A => {
            // DECA
            let v = cpu.reg.a();
            let r = alu::dec8(v, &mut cpu.reg.cc);
            cpu.reg.set_a(r);
        },
        0x4C => {
            // INCA
            let v = cpu.reg.a();
            let r = alu::inc8(v, &mut cpu.reg.cc);
            cpu.reg.set_a(r);
        },
        0x4D => {
            // TSTA
            let v = cpu.reg.a();
            alu::tst8(v, &mut cpu.reg.cc);
        },
        0x4F => {
            // CLRA
            let r = alu::clr8(&mut cpu.reg.cc);
            cpu.reg.set_a(r);
        },
        _ => {
            // unassigned opcode
            cpu.illegal = true;
        },
    }
}

/// Opcodes 0x50..0x5F: inherent operations on accumulator B.
#[verifier::rlimit(100)]
#[verifier::spinoff_prover]
fn row_inherent_b(cpu: &mut Cpu, opcode: u8)
    requires
        old(cpu).wf(),
        !old(cpu).cwai,
        !old(cpu).sync,
        0x50 <= opcode < 0x60,
    ensures
        final(cpu).wf(),
        final(cpu).cycles == old(cpu).cycles,
        old(cpu).nmi_armed ==> final(cpu).nmi_armed,
        final(cpu).halted == old(cpu).halted,
        final(cpu).illegal == (old(cpu).illegal || page0_illegal(opcode)),
        final(cpu).nmi_pending == old(cpu).nmi_pending,
        final(cpu).firq_line == old(cpu).firq_line,
        final(cpu).irq_line == old(cpu).irq_line,
        final(cpu).sync == old(cpu).sync,
        final(cpu).cwai == old(cpu).cwai,
        *final(cpu) == row_inherent_b_outcome(*old(cpu), opcode),
{
    match opcode {
        0x50 | 0x51 => {
            // NEG (with its undocumented alias)B
            let v = cpu.reg.b();
            let r = alu::neg8(v, &mut cpu.reg.cc);
            cpu.reg.set_b(r);
        },
        0x53 => {
            // COMB
            let v = cpu.reg.b();
            let r = alu::com8(v, &mut cpu.reg.cc);
            cpu.reg.set_b(r);
        },
        0x54 | 0x55 => {
            // LSR (with its undocumented alias)B
            let v = cpu.reg.b();
            let r = alu::lsr8(v, &mut cpu.reg.cc);
            cpu.reg.set_b(r);
        },
        0x56 => {
            // RORB
            let v = cpu.reg.b();
            let r = alu::ror8(v, &mut cpu.reg.cc);
            cpu.reg.set_b(r);
        },
        0x57 => {
            // ASRB
            let v = cpu.reg.b();
            let r = alu::asr8(v, &mut cpu.reg.cc);
            cpu.reg.set_b(r);
        },
        0x58 => {
            // ASLB
            let v = cpu.reg.b();
            let r = alu::asl8(v, &mut cpu.reg.cc);
            cpu.reg.set_b(r);
        },
        0x59 => {
            // ROLB
            let v = cpu.reg.b();
            let r = alu::rol8(v, &mut cpu.reg.cc);
            cpu.reg.set_b(r);
        },
        0x5A => {
            // DECB
            let v = cpu.reg.b();
            let r = alu::dec8(v, &mut cpu.reg.cc);
            cpu.reg.set_b(r);
        },
        0x5C => {
            // INCB
            let v = cpu.reg.b();
            let r = alu::inc8(v, &mut cpu.reg.cc);
            cpu.reg.set_b(r);
        },
        0x5D => {
            // TSTB
            let v = cpu.reg.b();
            alu::tst8(v, &mut cpu.reg.cc);
        },
        0x5F => {
            // CLRB
            let r = alu::clr8(&mut cpu.reg.cc);
            cpu.reg.set_b(r);
        },
        _ => {
            // unassigned opcode
            cpu.illegal = true;
        },
    }
}

/// Opcodes 0x80..0x8F: accumulator A, D and X operations with immediate operands, plus BSR.
#[verifier::rlimit(100)]
#[verifier::spinoff_prover]
fn row_a_imm<B: Bus>(cpu: &mut Cpu, bus: &mut B, opcode: u8)
    requires
        old(cpu).wf(),
        !old(cpu).cwai,
        !old(cpu).sync,
        0x80 <= opcode < 0x90,
        old(cpu).cycles <= u64::MAX - 43,
    ensures
        final(cpu).wf(),
        old(cpu).cycles <= final(cpu).cycles <= old(cpu).cycles + 12,
        old(cpu).nmi_armed ==> final(cpu).nmi_armed,
        final(cpu).halted == old(cpu).halted,
        final(cpu).illegal == (old(cpu).illegal || page0_illegal(opcode)),
        final(cpu).nmi_pending == old(cpu).nmi_pending,
        final(cpu).firq_line == old(cpu).firq_line,
        final(cpu).irq_line == old(cpu).irq_line,
        final(cpu).sync == old(cpu).sync,
        final(cpu).cwai == old(cpu).cwai,
        ({
            let o = row_a_imm_outcome(*old(cpu), mem_fn(old(bus)), opcode);
            &&& *final(cpu) == o.0
            &&& (forall|a: u16| final(bus).mem(a) == (o.1)(a))
        }),
{
    match opcode {
        0x80 => {
            // SUBA
            let v = cpu.fetch_byte(bus);
            let acc = cpu.reg.a();
            let r = alu::sub8(acc, v, &mut cpu.reg.cc);
            cpu.reg.set_a(r);
        },
        0x81 => {
            // CMPA
            let v = cpu.fetch_byte(bus);
            let acc = cpu.reg.a();
            alu::sub8(acc, v, &mut cpu.reg.cc);
        },
        0x82 => {
            // SBCA
            let v = cpu.fetch_byte(bus);
            let acc = cpu.reg.a();
            let r = alu::sbc8(acc, v, &mut cpu.reg.cc);
            cpu.reg.set_a(r);
        },
        0x83 => {
            // SUBD
            let w = cpu.fetch_word(bus);
            let d = cpu.reg.d;
            let r = alu::sub16(d, w, &mut cpu.reg.cc);
            cpu.reg.d = r;
        },
        0x84 => {
            // ANDA
            let v = cpu.fetch_byte(bus);
            let acc = cpu.reg.a();
            let r = alu::and8(acc, v, &mut cpu.reg.cc);
            cpu.reg.set_a(r);
        },
        0x85 => {
            // BITA
            let v = cpu.fetch_byte(bus);
            let acc = cpu.reg.a();
            alu::and8(acc, v, &mut cpu.reg.cc);
        },
        0x86 => {
            // LDA
            let v = cpu.fetch_byte(bus);
            alu::ld8_flags(v, &mut cpu.reg.cc);
            cpu.reg.set_a(v);
        },
        0x88 => {
            // EORA
            let v = cpu.fetch_byte(bus);
            let acc = cpu.reg.a();
            let r = alu::eor8(acc, v, &mut cpu.reg.cc);
            cpu.reg.set_a(r);
        },
        0x89 => {
            // ADCA
            let v = cpu.fetch_byte(bus);
            let acc = cpu.reg.a();
            let r = alu::adc8(acc, v, &mut cpu.reg.cc);
            cpu.reg.set_a(r);
        },
        0x8A => {
            // ORA
            let v = cpu.fetch_byte(bus);
            let acc = cpu.reg.a();
            let r = alu::or8(acc, v, &mut cpu.reg.cc);
            cpu.reg.set_a(r);
        },
        0x8B => {
            // ADDA
            let v = cpu.fetch_byte(bus);
            let acc = cpu.reg.a();
            let r = alu::add8(acc, v, &mut cpu.reg.cc);
            cpu.reg.set_a(r);
        },
        0x8C => {
            // CMPX
            let w = cpu.fetch_word(bus);
            let x = cpu.reg.x;
            alu::sub16(x, w, &mut cpu.reg.cc);
        },
        0x8D => {
            // BSR
            let addr = cpu.addr_relative8(bus);
            let pc = cpu.reg.pc;
            cpu.push_word_s(bus, pc);
            cpu.reg.pc = addr;
        },
        0x8E => {
            // LDX
            let w = cpu.fetch_word(bus);
            alu::ld16_flags(w, &mut cpu.reg.cc);
            cpu.reg.x = w;
        },
        _ => {
            // unassigned opcode
            cpu.illegal = true;
        },
    }
}

/// Opcodes 0x90..0x9F: accumulator A, D and X operations against a direct-page address, plus JSR.
#[verifier::rlimit(100)]
#[verifier::spinoff_prover]
fn row_a_direct<B: Bus>(cpu: &mut Cpu, bus: &mut B, opcode: u8)
    requires
        old(cpu).wf(),
        !old(cpu).cwai,
        !old(cpu).sync,
        0x90 <= opcode < 0xA0,
        old(cpu).cycles <= u64::MAX - 43,
    ensures
        final(cpu).wf(),
        old(cpu).cycles <= final(cpu).cycles <= old(cpu).cycles + 12,
        old(cpu).nmi_armed ==> final(cpu).nmi_armed,
        final(cpu).halted == old(cpu).halted,
        final(cpu).illegal == (old(cpu).illegal || page0_illegal(opcode)),
        final(cpu).nmi_pending == old(cpu).nmi_pending,
        final(cpu).firq_line == old(cpu).firq_line,
        final(cpu).irq_line == old(cpu).irq_line,
        final(cpu).sync == old(cpu).sync,
        final(cpu).cwai == old(cpu).cwai,
        ({
            let o = row_a_direct_outcome(*old(cpu), mem_fn(old(bus)), opcode);
            &&& *final(cpu) == o.0
            &&& (forall|a: u16| final(bus).mem(a) == (o.1)(a))
        }),
{
    match opcode {
        0x90 => {
            // SUBA
            let addr = cpu.addr_direct(bus);
            let v = bus.read(addr);
            let acc = cpu.reg.a();
            let r = alu::sub8(acc, v, &mut cpu.reg.cc);
            cpu.reg.set_a(r);
        },
        0x91 => {
            // CMPA
            let addr = cpu.addr_direct(bus);
            let v = bus.read(addr);
            let acc = cpu.reg.a();
            alu::sub8(acc, v, &mut cpu.reg.cc);
        },
        0x92 => {
            // SBCA
            let addr = cpu.addr_direct(bus);
            let v = bus.read(addr);
            let acc = cpu.reg.a();
            let r = alu::sbc8(acc, v, &mut cpu.reg.cc);
            cpu.reg.set_a(r);
        },
        0x93 => {
            // SUBD
            let addr = cpu.addr_direct(bus);
            let w = bus.read_word(addr);
            let d = cpu.reg.d;
            let r = alu::sub16(d, w, &mut cpu.reg.cc);
            cpu.reg.d = r;
        },
        0x94 => {
            // ANDA
            let addr = cpu.addr_direct(bus);
            let v = bus.read(addr);
            let acc = cpu.reg.a();
            let r = alu::and8(acc, v, &mut cpu.reg.cc);
            cpu.reg.set_a(r);
        },
        0x95 => {
            // BITA
            let addr = cpu.addr_direct(bus);
            let v = bus.read(addr);
            let acc = cpu.reg.a();
            alu::and8(acc, v, &mut cpu.reg.cc);
        },
        0x96 => {
            // LDA
            let addr = cpu.addr_direct(bus);
            let v = bus.read(addr);
            alu::ld8_flags(v, &mut cpu.reg.cc);
            cpu.reg.set_a(v);
        },
        0x97 => {
            // STA
            let addr = cpu.addr_direct(bus);
            let v = cpu.reg.a();
            alu::ld8_flags(v, &mut cpu.reg.cc);
            bus.write(addr, v);
        },
        0x98 => {
            // EORA
            let addr = cpu.addr_direct(bus);
            let v = bus.read(addr);
            let acc = cpu.reg.a();
            let r = alu::eor8(acc, v, &mut cpu.reg.cc);
            cpu.reg.set_a(r);
        },
        0x99 => {
            // ADCA
            let addr = cpu.addr_direct(bus);
            let v = bus.read(addr);
            let acc = cpu.reg.a();
            let r = alu::adc8(acc, v, &mut cpu.reg.cc);
            cpu.reg.set_a(r);
        },
        0x9A => {
            // ORA
            let addr = cpu.addr_direct(bus);
            let v = bus.read(addr);
            let acc = cpu.reg.a();
            let r = alu::or8(acc, v, &mut cpu.reg.cc);
            cpu.reg.set_a(r);
        },
        0x9B => {
            // ADDA
            let addr = cpu.addr_direct(bus);
            let v = bus.read(addr);
            let acc = cpu.reg.a();
            let r = alu::add8(acc, v, &mut cpu.reg.cc);
            cpu.reg.set_a(r);
        },
        0x9C => {
            // CMPX
            let addr = cpu.addr_direct(bus);
            let w = bus.read_word(addr);
            let x = cpu.reg.x;
            alu::sub16(x, w, &mut cpu.reg.cc);
        },
        0x9D => {
            // JSR
            let addr = cpu.addr_direct(bus);
            let pc = cpu.reg.pc;
            cpu.push_word_s(bus, pc);
            cpu.reg.pc = addr;
        },
        0x9E => {
            // LDX
            let addr = cpu.addr_direct(bus);
            let w = bus.read_word(addr);
            alu::ld16_flags(w, &mut cpu.reg.cc);
            cpu.reg.x = w;
        },
        0x9F => {
            // STX
            let addr = cpu.addr_direct(bus);
            let v = cpu.reg.x;
            alu::ld16_flags(v, &mut cpu.reg.cc);
            bus.write_word(addr, v);
        },
        _ => {
            // unassigned opcode
            cpu.illegal = true;
        },
    }
}

/// Opcodes 0xA0..0xAF: accumulator A, D and X operations against an indexed address, plus JSR.
#[verifier::rlimit(100)]
#[verifier::spinoff_prover]
fn row_a_indexed<B: Bus>(cpu: &mut Cpu, bus: &mut B, opcode: u8)
    requires
        old(cpu).wf(),
        !old(cpu).cwai,
        !old(cpu).sync,
        0xA0 <= opcode < 0xB0,
        old(cpu).cycles <= u64::MAX - 43,
    ensures
        final(cpu).wf(),
        old(cpu).cycles <= final(cpu).cycles <= old(cpu).cycles + 12,
        old(cpu).nmi_armed ==> final(cpu).nmi_armed,
        final(cpu).halted == old(cpu).halted,
        final(cpu).illegal == (old(cpu).illegal || page0_illegal(opcode)),
        final(cpu).nmi_pending == old(cpu).nmi_pending,
        final(cpu).firq_line == old(cpu).firq_line,
        final(cpu).irq_line == old(cpu).irq_line,
        final(cpu).sync == old(cpu).sync,
        final(cpu).cwai == old(cpu).cwai,
        ({
            let o = row_a_indexed_outcome(*old(cpu), mem_fn(old(bus)), opcode);
            &&& *final(cpu) == o.0
            &&& (forall|a: u16| final(bus).mem(a) == (o.1)(a))
        }),
{
    match opcode {
        0xA0 => {
            // SUBA
            let (addr, ex) = cpu.addr_indexed(bus);
            cpu.cycles = cpu.cycles + ex as u64;
            let v = bus.read(addr);
            let acc = cpu.reg.a();
            let r = alu::sub8(acc, v, &mut cpu.reg.cc);
            cpu.reg.set_a(r);
        },
        0xA1 => {
            // CMPA
            let (addr, ex) = cpu.addr_indexed(bus);
            cpu.cycles = cpu.cycles + ex as u64;
            let v = bus.read(addr);
            let acc = cpu.reg.a();
            alu::sub8(acc, v, &mut cpu.reg.cc);
        },
        0xA2 => {
            // SBCA
            let (addr, ex) = cpu.addr_indexed(bus);
            cpu.cycles = cpu.cycles + ex as u64;
            let v = bus.read(addr);
            let acc = cpu.reg.a();
            let r = alu::sbc8(acc, v, &mut cpu.reg.cc);
            cpu.reg.set_a(r);
        },
        0xA3 => {
            // SUBD
            let (addr, ex) = cpu.addr_indexed(bus);
            cpu.cycles = cpu.cycles + ex as u64;
            let w = bus.read_word(addr);
            let d = cpu.reg.d;
            let r = alu::sub16(d, w, &mut cpu.reg.cc);
            cpu.reg.d = r;
        },
        0xA4 => {
            // ANDA
            let (addr, ex) = cpu.addr_indexed(bus);
            cpu.cycles = cpu.cycles + ex as u64;
            let v = bus.read(addr);
            let acc = cpu.reg.a();
            let r = alu::and8(acc, v, &mut cpu.reg.cc);
            cpu.reg.set_a(r);
        },
        0xA5 => {
            // BITA
            let (addr, ex) = cpu.addr_indexed(bus);
            cpu.cycles = cpu.cycles + ex as u64;
            let v = bus.read(addr);
            let acc = cpu.reg.a();
            alu::and8(acc, v, &mut cpu.reg.cc);
        },
        0xA6 => {
            // LDA
            let (addr, ex) = cpu.addr_indexed(bus);
            cpu.cycles = cpu.cycles + ex as u64;
            let v = bus.read(addr);
            alu::ld8_flags(v, &mut cpu.reg.cc);
            cpu.reg.set_a(v);
        },
        0xA7 => {
            // STA
            let (addr, ex) = cpu.addr_indexed(bus);
            cpu.cycles = cpu.cycles + ex as u64;
            let v = cpu.reg.a();
            alu::ld8_flags(v, &mut cpu.reg.cc);
            bus.write(addr, v);
        },
        0xA8 => {
            // EORA
            let (addr, ex) = cpu.addr_indexed(bus);
            cpu.cycles = cpu.cycles + ex as u64;
            let v = bus.read(addr);
            let acc = cpu.reg.a();
            let r = alu::eor8(acc, v, &mut cpu.reg.cc);
            cpu.reg.set_a(r);
        },
        0xA9 => {
            // ADCA
            let (addr, ex) = cpu.addr_indexed(bus);
            cpu.cycles = cpu.cycles + ex as u64;
            let v = bus.read(addr);
            let acc = cpu.reg.a();
            let r = alu::adc8(acc, v, &mut cpu.reg.cc);
            cpu.reg.set_a(r);
        },
        0xAA => {
            // ORA
            let (addr, ex) = cpu.addr_indexed(bus);
            cpu.cycles = cpu.cycles + ex as u64;
            let v = bus.read(addr);
            let acc = cpu.reg.a();
            let r = alu::or8(acc, v, &mut cpu.reg.cc);
            cpu.reg.set_a(r);
        },
        0xAB => {
            // ADDA
            let (addr, ex) = cpu.addr_indexed(bus);
            cpu.cycles = cpu.cycles + ex as u64;
            let v = bus.read(addr);
            let acc = cpu.reg.a();
            let r = alu::add8(acc, v, &mut cpu.reg.cc);
            cpu.reg.set_a(r);
        },
        0xAC => {
            // CMPX
            let (addr, ex) = cpu.addr_indexed(bus);
            cpu.cycles = cpu.cycles + ex as u64;
            let w = bus.read_word(addr);
            let x = cpu.reg.x;
            alu::sub16(x, w, &mut cpu.reg.cc);
        },
        0xAD => {
            // JSR
            let (addr, ex) = cpu.addr_indexed(bus);
            cpu.cycles = cpu.cycles + ex as u64;
            let pc = cpu.reg.pc;
            cpu.push_word_s(bus, pc);
            cpu.reg.pc = addr;
        },
        0xAE => {
            // LDX
            let (addr, ex) = cpu.addr_indexed(bus);
            cpu.cycles = cpu.cycles + ex as u64;
            let w = bus.read_word(addr);
            alu::ld16_flags(w, &mut cpu.reg.cc);
            cpu.reg.x = w;
        },
        0xAF => {
            // STX
            let (addr, ex) = cpu.addr_indexed(bus);
            cpu.cycles = cpu.cycles + ex as u64;
            let v = cpu.reg.x;
            alu::ld16_flags(v, &mut cpu.reg.cc);
            bus.write_word(addr, v);
        },
        _ => {
            // unassigned opcode
            cpu.illegal = true;
        },
    }
}

/// Opcodes 0xB0..0xBF: accumulator A, D and X operations against an extended address, plus JSR.
#[verifier::rlimit(100)]
#[verifier::spinoff_prover]
fn row_a_extended<B: Bus>(cpu: &mut Cpu, bus: &mut B, opcode: u8)
    requires
        old(cpu).wf(),
        !old(cpu).cwai,
        !old(cpu).sync,
        0xB0 <= opcode < 0xC0,
        old(cpu).cycles <= u64::MAX - 43,
    ensures
        final(cpu).wf(),
        old(cpu).cycles <= final(cpu).cycles <= old(cpu).cycles + 12,
        old(cpu).nmi_armed ==> final(cpu).nmi_armed,
        final(cpu).halted == old(cpu).halted,
        final(cpu).illegal == (old(cpu).illegal || page0_illegal(opcode)),
        final(cpu).nmi_pending == old(cpu).nmi_pending,
        final(cpu).firq_line == old(cpu).firq_line,
        final(cpu).irq_line == old(cpu).irq_line,
        final(cpu).sync == old(cpu).sync,
        final(cpu).cwai == old(cpu).cwai,
        ({
            let o = row_a_extended_outcome(*old(cpu), mem_fn(old(bus)), opcode);
            &&& *final(cpu) == o.0
            &&& (forall|a: u16| final(bus).mem(a) == (o.1)(a))
        }),
{
    match opcode {
        0xB0 => {
            // SUBA
            let addr = cpu.addr_extended(bus);
            let v = bus.read(addr);
            let acc = cpu.reg.a();
            let r = alu::sub8(acc, v, &mut cpu.reg.cc);
            cpu.reg.set_a(r);
        },
        0xB1 => {
            // CMPA
            let addr = cpu.addr_extended(bus);
            let v = bus.read(addr);
            let acc = cpu.reg.a();
            alu::sub8(acc, v, &mut cpu.reg.cc);
        },
        0xB2 => {
            // SBCA
            let addr = cpu.addr_extended(bus);
            let v = bus.read(addr);
            let acc = cpu.reg.a();
            let r = alu::sbc8(acc, v, &mut cpu.reg.cc);
            cpu.reg.set_a(r);
        },
        0xB3 => {
            // SUBD
            let addr = cpu.addr_extended(bus);
            let w = bus.read_word(addr);
            let d = cpu.reg.d;
            let r = alu::sub16(d, w, &mut cpu.reg.cc);
            cpu.reg.d = r;
        },
        0xB4 => {
            // ANDA
            let addr = cpu.addr_extended(bus);
            let v = bus.read(addr);
            let acc = cpu.reg.a();
            let r = alu::and8(acc, v, &mut cpu.reg.cc);
            cpu.reg.set_a(r);
        },
        0xB5 => {
            // BITA
            let addr = cpu.addr_extended(bus);
            let v = bus.read(addr);
            let acc = cpu.reg.a();
            alu::and8(acc, v, &mut cpu.reg.cc);
        },
        0xB6 => {
            // LDA
            let addr = cpu.addr_extended(bus);
            let v = bus.read(addr);
            alu::ld8_flags(v, &mut cpu.reg.cc);
            cpu.reg.set_a(v);
        },
        0xB7 => {
            // STA
            let addr = cpu.addr_extended(bus);
            let v = cpu.reg.a();
            alu::ld8_flags(v, &mut cpu.reg.cc);
            bus.write(addr, v);
        },
        0xB8 => {
            // EORA
            let addr = cpu.addr_extended(bus);
            let v = bus.read(addr);
            let acc = cpu.reg.a();
            let r = alu::eor8(acc, v, &mut cpu.reg.cc);
            cpu.reg.set_a(r);
        },
        0xB9 => {
            // ADCA
            let addr = cpu.addr_extended(bus);
            let v = bus.read(addr);
            let acc = cpu.reg.a();
            let r = alu::adc8(acc, v, &mut cpu.reg.cc);
            cpu.reg.set_a(r);
        },
        0xBA => {
            // ORA
            let addr = cpu.addr_extended(bus);
            let v = bus.read(addr);
            let acc = cpu.reg.a();
            let r = alu::or8(acc, v, &mut cpu.reg.cc);
            cpu.reg.set_a(r);
        },
        0xBB => {
            // ADDA
            let addr = cpu.addr_extended(bus);
            let v = bus.read(addr);
            let acc = cpu.reg.a();
            let r = alu::add8(acc, v, &mut cpu.reg.cc);
            cpu.reg.set_a(r);
        },
        0xBC => {
            // CMPX
            let addr = cpu.addr_extended(bus);
            let w = bus.read_word(addr);
            let x = cpu.reg.x;
            alu::sub16(x, w, &mut cpu.reg.cc);
        },
        0xBD => {
            // JSR
            let addr = cpu.addr_extended(bus);
            let pc = cpu.reg.pc;
            cpu.push_word_s(bus, pc);
            cpu.reg.pc = addr;
        },
        0xBE => {
            // LDX
            let addr = cpu.addr_extended(bus);
            let w = bus.read_word(addr);
            alu::ld16_flags(w, &mut cpu.reg.cc);
            cpu.reg.x = w;
        },
        0xBF => {
            // STX
            let addr = cpu.addr_extended(bus);
            let v = cpu.reg.x;
            alu::ld16_flags(v, &mut cpu.reg.cc);
            bus.write_word(addr, v);
        },
        _ => {
            // unassigned opcode
            cpu.illegal = true;
        },
    }
}

/// Opcodes 0xC0..0xCF: accumulator B, D and U operations with immediate operands.
#[verifier::rlimit(100)]
#[verifier::spinoff_prover]
fn row_b_imm<B: Bus>(cpu: &mut Cpu, bus: &mut B, opcode: u8)
    requires
        old(cpu).wf(),
        !old(cpu).cwai,
        !old(cpu).sync,
        0xC0 <= opcode < 0xD0,
        old(cpu).cycles <= u64::MAX - 43,
    ensures
        final(cpu).wf(),
        old(cpu).cycles <= final(cpu).cycles <= old(cpu).cycles + 12,
        old(cpu).nmi_armed ==> final(cpu).nmi_armed,
        final(cpu).halted == old(cpu).halted,
        final(cpu).illegal == (old(cpu).illegal || page0_illegal(opcode)),
        final(cpu).nmi_pending == old(cpu).nmi_pending,
        final(cpu).firq_line == old(cpu).firq_line,
        final(cpu).irq_line == old(cpu).irq_line,
        final(cpu).sync == old(cpu).sync,
        final(cpu).cwai == old(cpu).cwai,
        ({
            let o = row_b_imm_outcome(*old(cpu), mem_fn(old(bus)), opcode);
            &&& *final(cpu) == o.0
            &&& (forall|a: u16| final(bus).mem(a) == (o.1)(a))
        }),
{
    match opcode {
        0xC0 => {
            // SUBB
            let v = cpu.fetch_byte(bus);
            let acc = cpu.reg.b();
            let r = alu::sub8(acc, v, &mut cpu.reg.cc);
            cpu.reg.set_b(r);
        },
        0xC1 => {
            // CMPB
            let v = cpu.fetch_byte(bus);
            let acc = cpu.reg.b();
            alu::sub8(acc, v, &mut cpu.reg.cc);
        },
        0xC2 => {
            // SBCB
            let v = cpu.fetch_byte(bus);
            let acc = cpu.reg.b();
            let r = alu::sbc8(acc, v, &mut cpu.reg.cc);
            cpu.reg.set_b(r);
        },
        0xC3 => {
            // ADDD
            let w = cpu.fetch_word(bus);
            let d = cpu.reg.d;
            let r = alu::add16(d, w, &mut cpu.reg.cc);
            cpu.reg.d = r;
        },
        0xC4 => {
            // ANDB
            let v = cpu.fetch_byte(bus);
            let acc = cpu.reg.b();
            let r = alu::and8(acc, v, &mut cpu.reg.cc);
            cpu.reg.set_b(r);
        },
        0xC5 => {
            // BITB
            let v = cpu.fetch_byte(bus);
            let acc = cpu.reg.b();
            alu::and8(acc, v, &mut cpu.reg.cc);
        },
        0xC6 => {
            // LDB
            let v = cpu.fetch_byte(bus);
            alu::ld8_flags(v, &mut cpu.reg.cc);
            cpu.reg.set_b(v);
        },
        0xC8 => {
            // EORB
            let v = cpu.fetch_byte(bus);
            let acc = cpu.reg.b();
            let r = alu::eor8(acc, v, &mut cpu.reg.cc);
            cpu.reg.set_b(r);
        },
        0xC9 => {
            // ADCB
            let v = cpu.fetch_byte(bus);
            let acc = cpu.reg.b();
            let r = alu::adc8(acc, v, &mut cpu.reg.cc);
            cpu.reg.set_b(r);
        },
        0xCA => {
            // ORB
            let v = cpu.fetch_byte(bus);
            let acc = cpu.reg.b();
            let r = alu::or8(acc, v, &mut cpu.reg.cc);
            cpu.reg.set_b(r);
        },
        0xCB => {
            // ADDB
            let v = cpu.fetch_byte(bus);
            let acc = cpu.reg.b();
            let r = alu::add8(acc, v, &mut cpu.reg.cc);
            cpu.reg.set_b(r);
        },
        0xCC => {
            // LDD
            let w = cpu.fetch_word(bus);
            alu::ld16_flags(w, &mut cpu.reg.cc);
            cpu.reg.d = w;
        },
        0xCE => {
            // LDU
            let w = cpu.fetch_word(bus);
            alu::ld16_flags(w, &mut cpu.reg.cc);
            cpu.reg.u = w;
        },
        _ => {
            // unassigned opcode
            cpu.illegal = true;
        },
    }
}

/// Opcodes 0xD0..0xDF: accumulator B, D and U operations against a direct-page address.
#[verifier::rlimit(100)]
#[verifier::spinoff_prover]
fn row_b_direct<B: Bus>(cpu: &mut Cpu, bus: &mut B, opcode: u8)
    requires
        old(cpu).wf(),
        !old(cpu).cwai,
        !old(cpu).sync,
        0xD0 <= opcode < 0xE0,
        old(cpu).cycles <= u64::MAX - 43,
    ensures
        final(cpu).wf(),
        old(cpu).cycles <= final(cpu).cycles <= old(cpu).cycles + 12,
        old(cpu).nmi_armed ==> final(cpu).nmi_armed,
        final(cpu).halted == old(cpu).halted,
        final(cpu).illegal == (old(cpu).illegal || page0_illegal(opcode)),
        final(cpu).nmi_pending == old(cpu).nmi_pending,
        final(cpu).firq_line == old(cpu).firq_line,
        final(cpu).irq_line == old(cpu).irq_line,
        final(cpu).sync == old(cpu).sync,
        final(cpu).cwai == old(cpu).cwai,
        ({
            let o = row_b_direct_outcome(*old(cpu), mem_fn(old(bus)), opcode);
            &&& *final(cpu) == o.0
            &&& (forall|a: u16| final(bus).mem(a) == (o.1)(a))
        }),
{
    match opcode {
        0xD0 => {
            // SUBB
            let addr = cpu.addr_direct(bus);
            let v = bus.read(addr);
            let acc = cpu.reg.b();
            let r = alu::sub8(acc, v, &mut cpu.reg.cc);
            cpu.reg.set_b(r);
        },
        0xD1 => {
            // CMPB
            let addr = cpu.addr_direct(bus);
            let v = bus.read(addr);
            let acc = cpu.reg.b();
            alu::sub8(acc, v, &mut cpu.reg.cc);
        },
        0xD2 => {
            // SBCB
            let addr = cpu.addr_direct(bus);
            let v = bus.read(addr);
            let acc = cpu.reg.b();
            let r = alu::sbc8(acc, v, &mut cpu.reg.cc);
            cpu.reg.set_b(r);
        },
        0xD3 => {
            // ADDD
            let addr = cpu.addr_direct(bus);
            let w = bus.read_word(addr);
            let d = cpu.reg.d;
            let r = alu::add16(d, w, &mut cpu.reg.cc);
            cpu.reg.d = r;
        },
        0xD4 => {
            // ANDB
            let addr = cpu.addr_direct(bus);
            let v = bus.read(addr);
            let acc = cpu.reg.b();
            let r = alu::and8(acc, v, &mut cpu.reg.cc);
            cpu.reg.set_b(r);
        },
        0xD5 => {
            // BITB
            let addr = cpu.addr_direct(bus);
            let v = bus.read(addr);
            let acc = cpu.reg.b();
            alu::and8(acc, v, &mut cpu.reg.cc);
        },
        0xD6 => {
            // LDB
            let addr = cpu.addr_direct(bus);
            let v = bus.read(addr);
            alu::ld8_flags(v, &mut cpu.reg.cc);
            cpu.reg.set_b(v);
        },
        0xD7 => {
            // STB
            let addr = cpu.addr_direct(bus);
            let v = cpu.reg.b();
            alu::ld8_flags(v, &mut cpu.reg.cc);
            bus.write(addr, v);
        },
        0xD8 => {
            // EORB
            let addr = cpu.addr_direct(bus);
            let v = bus.read(addr);
            let acc = cpu.reg.b();
            let r = alu::eor8(acc, v, &mut cpu.reg.cc);
            cpu.reg.set_b(r);
        },
        0xD9 => {
            // ADCB
            let addr = cpu.addr_direct(bus);
            let v = bus.read(addr);
            let acc = cpu.reg.b();
            let r = alu::adc8(acc, v, &mut cpu.reg.cc);
            cpu.reg.set_b(r);
        },
        0xDA => {
            // ORB
            let addr = cpu.addr_direct(bus);
            let v = bus.read(addr);
            let acc = cpu.reg.b();
            let r = alu::or8(acc, v, &mut cpu.reg.cc);
            cpu.reg.set_b(r);
        },
        0xDB => {
            // ADDB
            let addr = cpu.addr_direct(bus);
            let v = bus.read(addr);
            let acc = cpu.reg.b();
            let r = alu::add8(acc, v, &mut cpu.reg.cc);
            cpu.reg.set_b(r);
        },
        0xDC => {
            // LDD
            let addr = cpu.addr_direct(bus);
            let w = bus.read_word(addr);
            alu::ld16_flags(w, &mut cpu.reg.cc);
            cpu.reg.d = w;
        },
        0xDD => {
            // STD
            let addr = cpu.addr_direct(bus);
            let v = cpu.reg.d;
            alu::ld16_flags(v, &mut cpu.reg.cc);
            bus.write_word(addr, v);
        },
        0xDE => {
            // LDU
            let addr = cpu.addr_direct(bus);
            let w = bus.read_word(addr);
            alu::ld16_flags(w, &mut cpu.reg.cc);
            cpu.reg.u = w;
        },
        0xDF => {
            // STU
            let addr = cpu.addr_direct(bus);
            let v = cpu.reg.u;
            alu::ld16_flags(v, &mut cpu.reg.cc);
            bus.write_word(addr, v);
        },
        _ => {
            // unassigned opcode
            cpu.illegal = true;
        },
    }
}

/// Opcodes 0xE0..0xEF: accumulator B, D and U operations against an indexed address.
#[verifier::rlimit(100)]
#[verifier::spinoff_prover]
fn row_b_indexed<B: Bus>(cpu: &mut Cpu, bus: &mut B, opcode: u8)
    requires
        old(cpu).wf(),
        !old(cpu).cwai,
        !old(cpu).sync,
        0xE0 <= opcode < 0xF0,
        old(cpu).cycles <= u64::MAX - 43,
    ensures
        final(cpu).wf(),
        old(cpu).cycles <= final(cpu).cycles <= old(cpu).cycles + 12,
        old(cpu).nmi_armed ==> final(cpu).nmi_armed,
        final(cpu).halted == old(cpu).halted,
        final(cpu).illegal == (old(cpu).illegal || page0_illegal(opcode)),
        final(cpu).nmi_pending == old(cpu).nmi_pending,
        final(cpu).firq_line == old(cpu).firq_line,
        final(cpu).irq_line == old(cpu).irq_line,
        final(cpu).sync == old(cpu).sync,
        final(cpu).cwai == old(cpu).cwai,
        ({
            let o = row_b_indexed_outcome(*old(cpu), mem_fn(old(bus)), opcode);
            &&& *final(cpu) == o.0
            &&& (forall|a: u16| final(bus).mem(a) == (o.1)(a))
        }),
{
    match opcode {
        0xE0 => {
            // SUBB
            let (addr, ex) = cpu.addr_indexed(bus);
            cpu.cycles = cpu.cycles + ex as u64;
            let v = bus.read(addr);
            let acc = cpu.reg.b();
            let r = alu::sub8(acc, v, &mut cpu.reg.cc);
            cpu.reg.set_b(r);
        },
        0xE1 => {
            // CMPB
            let (addr, ex) = cpu.addr_indexed(bus);
            cpu.cycles = cpu.cycles + ex as u64;
            let v = bus.read(addr);
            let acc = cpu.reg.b();
            alu::sub8(acc, v, &mut cpu.reg.cc);
        },
        0xE2 => {
            // SBCB
            let (addr, ex) = cpu.addr_indexed(bus);
            cpu.cycles = cpu.cycles + ex as u64;
            let v = bus.read(addr);
            let acc = cpu.reg.b();
            let r = alu::sbc8(acc, v, &mut cpu.reg.cc);
            cpu.reg.set_b(r);
        },
        0xE3 => {
            // ADDD
            let (addr, ex) = cpu.addr_indexed(bus);
            cpu.cycles = cpu.cycles + ex as u64;
            let w = bus.read_word(addr);
            let d = cpu.reg.d;
            let r = alu::add16(d, w, &mut cpu.reg.cc);
            cpu.reg.d = r;
        },
        0xE4 => {
            // ANDB
            let (addr, ex) = cpu.addr_indexed(bus);
            cpu.cycles = cpu.cycles + ex as u64;
            let v = bus.read(addr);
            let acc = cpu.reg.b();
            let r = alu::and8(acc, v, &mut cpu.reg.cc);
            cpu.reg.set_b(r);
        },
        0xE5 => {
            // BITB
            let (addr, ex) = cpu.addr_indexed(bus);
            cpu.cycles = cpu.cycles + ex as u64;
            let v = bus.read(addr);
            let acc = cpu.reg.b();
            alu::and8(acc, v, &mut cpu.reg.cc);
        },
        0xE6 => {
            // LDB
            let (addr, ex) = cpu.addr_indexed(bus);
            cpu.cycles = cpu.cycles + ex as u64;
            let v = bus.read(addr);
            alu::ld8_flags(v, &mut cpu.reg.cc);
            cpu.reg.set_b(v);
        },
        0xE7 => {
            // STB
            let (addr, ex) = cpu.addr_indexed(bus);
            cpu.cycles = cpu.cycles + ex as u64;
            let v = cpu.reg.b();
            alu::ld8_flags(v, &mut cpu.reg.cc);
            bus.write(addr, v);
        },
        0xE8 => {
            // EORB
            let (addr, ex) = cpu.addr_indexed(bus);
            cpu.cycles = cpu.cycles + ex as u64;
            let v = bus.read(addr);
            let acc = cpu.reg.b();
            let r = alu::eor8(acc, v, &mut cpu.reg.cc);
            cpu.reg.set_b(r);
        },
        0xE9 => {
            // ADCB
            let (addr, ex) = cpu.addr_indexed(bus);
            cpu.cycles = cpu.cycles + ex as u64;
            let v = bus.read(addr);
            let acc = cpu.reg.b();
            let r = alu::adc8(acc, v, &mut cpu.reg.cc);
            cpu.reg.set_b(r);
        },
        0xEA => {
            // ORB
            let (addr, ex) = cpu.addr_indexed(bus);
            cpu.cycles = cpu.cycles + ex as u64;
            let v = bus.read(addr);
            let acc = cpu.reg.b();
            let r = alu::or8(acc, v, &mut cpu.reg.cc);
            cpu.reg.set_b(r);
        },
        0xEB => {
            // ADDB
            let (addr, ex) = cpu.addr_indexed(bus);
            cpu.cycles = cpu.cycles + ex as u64;
            let v = bus.read(addr);
            let acc = cpu.reg.b();
            let r = alu::add8(acc, v, &mut cpu.reg.cc);
            cpu.reg.set_b(r);
        },
        0xEC => {
            // LDD
            let (addr, ex) = cpu.addr_indexed(bus);
            cpu.cycles = cpu.cycles + ex as u64;
            let w = bus.read_word(addr);
            alu::ld16_flags(w, &mut cpu.reg.cc);
            cpu.reg.d = w;
        },
        0xED => {
            // STD
            let (addr, ex) = cpu.addr_indexed(bus);
            cpu.cycles = cpu.cycles + ex as u64;
            let v = cpu.reg.d;
            alu::ld16_flags(v, &mut cpu.reg.cc);
            bus.write_word(addr, v);
        },
        0xEE => {
            // LDU
            let (addr, ex) = cpu.addr_indexed(bus);
            cpu.cycles = cpu.cycles + ex as u64;
            let w = bus.read_word(addr);
            alu::ld16_flags(w, &mut cpu.reg.cc);
            cpu.reg.u = w;
        },
        0xEF => {
            // STU
            let (addr, ex) = cpu.addr_indexed(bus);
            cpu.cycles = cpu.cycles + ex as u64;
            let v = cpu.reg.u;
            alu::ld16_flags(v, &mut cpu.reg.cc);
            bus.write_word(addr, v);
        },
        _ => {
            // unassigned opcode
            cpu.illegal = true;
        },
    }
}

/// Opcodes 0xF0..0xFF: accumulator B, D and U operations against an extended address.
#[verifier::rlimit(100)]
#[verifier::spinoff_prover]
fn row_b_extended<B: Bus>(cpu: &mut Cpu, bus: &mut B, opcode: u8)
    requires
        old(cpu).wf(),
        !old(cpu).cwai,
        !old(cpu).sync,
        0xF0 <= opcode < 0x100,
        old(cpu).cycles <= u64::MAX - 43,
    ensures
        final(cpu).wf(),
        old(cpu).cycles <= final(cpu).cycles <= old(cpu).cycles + 12,
        old(cpu).nmi_armed ==> final(cpu).nmi_armed,
        final(cpu).halted == old(cpu).halted,
        final(cpu).illegal == (old(cpu).illegal || page0_illegal(opcode)),
        final(cpu).nmi_pending == old(cpu).nmi_pending,
        final(cpu).firq_line == old(cpu).firq_line,
        final(cpu).irq_line == old(cpu).irq_line,
        final(cpu).sync == old(cpu).sync,
        final(cpu).cwai == old(cpu).cwai,
        ({
            let o = row_b_extended_outcome(*old(cpu), mem_fn(old(bus)), opcode);
            &&& *final(cpu) == o.0
            &&& (forall|a: u16| final(bus).mem(a) == (o.1)(a))
        }),
{
    match opcode {
        0xF0 => {
            // SUBB
            let addr = cpu.addr_extended(bus);
            let v = bus.read(addr);
            let acc = cpu.reg.b();
            let r = alu::sub8(acc, v, &mut cpu.reg.cc);
            cpu.reg.set_b(r);
        },
        0xF1 => {
            // CMPB
            let addr = cpu.addr_extended(bus);
            let v = bus.read(addr);
            let acc = cpu.reg.b();
            alu::sub8(acc, v, &mut cpu.reg.cc);
        },
        0xF2 => {
            // SBCB
            let addr = cpu.addr_extended(bus);
            let v = bus.read(addr);
            let acc = cpu.reg.b();
            let r = alu::sbc8(acc, v, &mut cpu.reg.cc);
            cpu.reg.set_b(r);
        },
        0xF3 => {
            // ADDD
            let addr = cpu.addr_extended(bus);
            let w = bus.read_word(addr);
            let d = cpu.reg.d;
            let r = alu::add16(d, w, &mut cpu.reg.cc);
            cpu.reg.d = r;
        },
        0xF4 => {
            // ANDB
            let addr = cpu.addr_extended(bus);
            let v = bus.read(addr);
            let acc = cpu.reg.b();
            let r = alu::and8(acc, v, &mut cpu.reg.cc);
            cpu.reg.set_b(r);
        },
        0xF5 => {
            // BITB
            let addr = cpu.addr_extended(bus);
            let v = bus.read(addr);
            let acc = cpu.reg.b();
            alu::and8(acc, v, &mut cpu.reg.cc);
        },
        0xF6 => {
            // LDB
            let addr = cpu.addr_extended(bus);
            let v = bus.read(addr);
            alu::ld8_flags(v, &mut cpu.reg.cc);
            cpu.reg.set_b(v);
        },
        0xF7 => {
            // STB
            let addr = cpu.addr_extended(bus);
            let v = cpu.reg.b();
            alu::ld8_flags(v, &mut cpu.reg.cc);
            bus.write(addr, v);
        },
        0xF8 => {
            // EORB
            let addr = cpu.addr_extended(bus);
            let v = bus.read(addr);
            let acc = cpu.reg.b();
            let r = alu::eor8(acc, v, &mut cpu.reg.cc);
            cpu.reg.set_b(r);
        },
        0xF9 => {
            // ADCB
            let addr = cpu.addr_extended(bus);
            let v = bus.read(addr);
            let acc = cpu.reg.b();
            let r = alu::adc8(acc, v, &mut cpu.reg.cc);
            cpu.reg.set_b(r);
        },
        0xFA => {
            // ORB
            let addr = cpu.addr_extended(bus);
            let v = bus.read(addr);
            let acc = cpu.reg.b();
            let r = alu::or8(acc, v, &mut cpu.reg.cc);
            cpu.reg.set_b(r);
        },
        0xFB => {
            // ADDB
            let addr = cpu.addr_extended(bus);
            let v = bus.read(addr);
            let acc = cpu.reg.b();
            let r = alu::add8(acc, v, &mut cpu.reg.cc);
            cpu.reg.set_b(r);
        },
        0xFC => {
            // LDD
            let addr = cpu.addr_extended(bus);
            let w = bus.read_word(addr);
            alu::ld16_flags(w, &mut cpu.reg.cc);
            cpu.reg.d = w;
        },
        0xFD => {
            // STD
            let addr = cpu.addr_extended(bus);
            let v = cpu.reg.d;
            alu::ld16_flags(v, &mut cpu.reg.cc);
            bus.write_word(addr, v);
        },
        0xFE => {
            // LDU
            let addr = cpu.addr_extended(bus);
            let w = bus.read_word(addr);
            alu::ld16_flags(w, &mut cpu.reg.cc);
            cpu.reg.u = w;
        },
        0xFF => {
            // STU
            let addr = cpu.addr_extended(bus);
            let v = cpu.reg.u;
            alu::ld16_flags(v, &mut cpu.reg.cc);
            bus.write_word(addr, v);
        },
        _ => {
            // unassigned opcode
            cpu.illegal = true;
        },
    }
}

/// Opcodes 0x10..0x1F: inherent and miscellaneous instructions (NOP, SYNC,
/// long unconditional branches, DAA, condition-code masks, SEX, EXG, TFR).
#[verifier::rlimit(100)]
#[verifier::spinoff_prover]
fn row_misc<B: Bus>(cpu: &mut Cpu, bus: &mut B, opcode: u8)
    requires
        old(cpu).wf(),
        !old(cpu).cwai,
        !old(cpu).sync,
        0x10 <= opcode < 0x20,
        old(cpu).cycles <= u64::MAX - 43,
    ensures
        final(cpu).wf(),
        final(cpu).cycles == old(cpu).cycles,
        old(cpu).nmi_armed ==> final(cpu).nmi_armed,
        final(cpu).halted == old(cpu).halted,
        final(cpu).illegal == (old(cpu).illegal || page0_illegal(opcode)),
        final(cpu).nmi_pending == old(cpu).nmi_pending,
        final(cpu).firq_line == old(cpu).firq_line,
        final(cpu).irq_line == old(cpu).irq_line,
        final(cpu).sync == (old(cpu).sync || opcode == 0x13),
        final(cpu).cwai == old(cpu).cwai,
        ({
            let o = row_misc_outcome(*old(cpu), mem_fn(old(bus)), opcode);
            &&& *final(cpu) == o.0
            &&& (forall|a: u16| final(bus).mem(a) == (o.1)(a))
        }),
{
    match opcode {
        0x12 => {
            // NOP
        },
        0x13 => {
            // SYNC: park until an interrupt input is asserted
            cpu.sync = true;
        },
        0x16 => {
            // LBRA
            let addr = cpu.addr_relative16(bus);
            cpu.reg.pc = addr;
        },
        0x17 => {
            // LBSR
            let addr = cpu.addr_relative16(bus);
            let pc = cpu.reg.pc;
            cpu.push_word_s(bus, pc);
            cpu.reg.pc = addr;
        },
        0x19 => {
            // DAA
            let a = cpu.reg.a();
            let r = alu::daa(a, &mut cpu.reg.cc);
            cpu.reg.set_a(r);
        },
        0x1A => {
            // ORCC immediate
            let val = cpu.fetch_byte(bus);
            cpu.reg.cc.or_with(val);
        },
        0x1C => {
            // ANDCC immediate
            let val = cpu.fetch_byte(bus);
            cpu.reg.cc.and_with(val);
        },
        0x1D => {
            // SEX
            let b = cpu.reg.b();
            let d = alu::sex(b, &mut cpu.reg.cc);
            cpu.reg.d = d;
        },
        0x1E => {
            // EXG
            let post = cpu.fetch_byte(bus);
            exg(cpu, post);
        },
        0x1F => {
            // TFR
            let post = cpu.fetch_byte(bus);
            tfr(cpu, post);
        },
        _ => {
            // unassigned opcode (the page prefixes land here if dispatched)
            cpu.illegal = true;
        },
    }
}

/// Opcodes 0x20..0x2F: short conditional branches with an 8-bit signed
/// offset.
#[verifier::rlimit(100)]
#[verifier::spinoff_prover]
fn row_branch<B: Bus>(cpu: &mut Cpu, bus: &B, opcode: u8)
    requires
        old(cpu).wf(),
        !old(cpu).cwai,
        !old(cpu).sync,
        0x20 <= opcode < 0x30,
    ensures
        final(cpu).wf(),
        final(cpu).cycles == old(cpu).cycles,
        old(cpu).nmi_armed ==> final(cpu).nmi_armed,
        final(cpu).halted == old(cpu).halted,
        final(cpu).illegal == old(cpu).illegal,
        final(cpu).nmi_pending == old(cpu).nmi_pending,
        final(cpu).firq_line == old(cpu).firq_line,
        final(cpu).irq_line == old(cpu).irq_line,
        final(cpu).sync == old(cpu).sync,
        final(cpu).cwai == old(cpu).cwai,
        *final(cpu) == row_branch_outcome(*old(cpu), mem_fn(bus), opcode),
{
    let addr = cpu.addr_relative8(bus);
    let taken: bool = match opcode {
        0x20 => true,  // BRA
        0x21 => false,  // BRN
        0x22 => !cpu.reg.cc.carry() && !cpu.reg.cc.zero(),  // BHI
        0x23 => cpu.reg.cc.carry() || cpu.reg.cc.zero(),  // BLS
        0x24 => !cpu.reg.cc.carry(),  // BHS/BCC
        0x25 => cpu.reg.cc.carry(),  // BLO/BCS
        0x26 => !cpu.reg.cc.zero(),  // BNE
        0x27 => cpu.reg.cc.zero(),  // BEQ
        0x28 => !cpu.reg.cc.overflow(),  // BVC
        0x29 => cpu.reg.cc.overflow(),  // BVS
        0x2A => !cpu.reg.cc.negative(),  // BPL
        0x2B => cpu.reg.cc.negative(),  // BMI
        0x2C => cpu.reg.cc.negative() == cpu.reg.cc.overflow(),  // BGE
        0x2D => cpu.reg.cc.negative() != cpu.reg.cc.overflow(),  // BLT
        0x2E => !cpu.reg.cc.zero() && cpu.reg.cc.negative() == cpu.reg.cc.overflow(),  // BGT
        _ => cpu.reg.cc.zero() || cpu.reg.cc.negative() != cpu.reg.cc.overflow(),  // BLE
    };
    if taken {
        cpu.reg.pc = addr;
    }
}

/// Opcodes 0x30..0x37: the LEA instructions and the four stack bundles.
#[verifier::rlimit(100)]
#[verifier::spinoff_prover]
fn row_lea_bundles<B: Bus>(cpu: &mut Cpu, bus: &mut B, opcode: u8)
    requires
        old(cpu).wf(),
        !old(cpu).cwai,
        !old(cpu).sync,
        0x30 <= opcode < 0x38,
        old(cpu).cycles <= u64::MAX - 43,
    ensures
        final(cpu).wf(),
        old(cpu).cycles <= final(cpu).cycles <= old(cpu).cycles + 12,
        old(cpu).nmi_armed ==> final(cpu).nmi_armed,
        final(cpu).halted == (old(cpu).halted || opcode == 0x3E),
        final(cpu).illegal == (old(cpu).illegal || page0_illegal(opcode)),
        final(cpu).nmi_pending == old(cpu).nmi_pending,
        final(cpu).firq_line == old(cpu).firq_line,
        final(cpu).irq_line == old(cpu).irq_line,
        final(cpu).sync == old(cpu).sync,
        final(cpu).cwai == (old(cpu).cwai || opcode == 0x3C),
        ({
            let o = row_lea_stack_outcome(*old(cpu), mem_fn(old(bus)), opcode);
            &&& *final(cpu) == o.0
            &&& (forall|a: u16| final(bus).mem(a) == (o.1)(a))
        }),
{
    match opcode {
        0x30 => {
            // LEAX indexed: sets Z from the address
            let (ea, extra) = cpu.addr_indexed(bus);
            cpu.reg.x = ea;
            cpu.reg.cc.set_zero(ea == 0);
            cpu.cycles = cpu.cycles + extra as u64;
        },
        0x31 => {
            // LEAY indexed: sets Z from the address
            let (ea, extra) = cpu.addr_indexed(bus);
            cpu.reg.y = ea;
            cpu.reg.cc.set_zero(ea == 0);
            cpu.cycles = cpu.cycles + extra as u64;
        },
        0x32 => {
            // LEAS indexed: no flags; loading S arms the NMI input
            let (ea, extra) = cpu.addr_indexed(bus);
            cpu.reg.s = ea;
            cpu.arm_nmi();
            cpu.cycles = cpu.cycles + extra as u64;
        },
        0x33 => {
            // LEAU indexed: no flags
            let (ea, extra) = cpu.addr_indexed(bus);
            cpu.reg.u = ea;
            cpu.cycles = cpu.cycles + extra as u64;
        },
        0x34 => {
            // PSHS
            let post = cpu.fetch_byte(bus);
            pshs(cpu, bus, post);
        },
        0x35 => {
            // PULS
            let post = cpu.fetch_byte(bus);
            puls(cpu, bus, post);
        },
        0x36 => {
            // PSHU
            let post = cpu.fetch_byte(bus);
            pshu(cpu, bus, post);
        },
        0x37 => {
            // PULU
            let post = cpu.fetch_byte(bus);
            pulu(cpu, bus, post);
        },
        _ => {
            // unassigned opcode
            cpu.illegal = true;
        },
    }
}

/// RTI: restore CC, then the whole state if E was saved, then PC.
#[verifier::rlimit(100)]
#[verifier::spinoff_prover]
fn op_rti<B: Bus>(cpu: &mut Cpu, bus: &B)
    requires
        old(cpu).wf(),
        !old(cpu).cwai,
        !old(cpu).sync,
        old(cpu).cycles <= u64::MAX - 43,
    ensures
        final(cpu).wf(),
        old(cpu).cycles <= final(cpu).cycles <= old(cpu).cycles + 12,
        old(cpu).nmi_armed ==> final(cpu).nmi_armed,
        final(cpu).nmi_pending == old(cpu).nmi_pending,
        final(cpu).firq_line == old(cpu).firq_line,
        final(cpu).irq_line == old(cpu).irq_line,
        final(cpu).sync == old(cpu).sync,
        final(cpu).halted == old(cpu).halted,
        final(cpu).illegal == old(cpu).illegal,
        final(cpu).cwai == old(cpu).cwai,
        *final(cpu) == row_lea_stack_outcome(*old(cpu), mem_fn(bus), 0x3B).0,
{
    // RTI: CC first; if E was saved, restore the whole state
    let cc = cpu.pull_byte_s(bus);
    cpu.reg.cc = ConditionCodes::from_byte(cc);
    if cpu.reg.cc.entire() {
        // full restore costs 15 cycles in all: 6 base + 9 here
        let a = cpu.pull_byte_s(bus);
        cpu.reg.set_a(a);
        let b = cpu.pull_byte_s(bus);
        cpu.reg.set_b(b);
        proof {
            crate::registers::lemma_d_from_halves(cpu.reg);
        }
        cpu.reg.dp = cpu.pull_byte_s(bus);
        cpu.reg.x = cpu.pull_word_s(bus);
        cpu.reg.y = cpu.pull_word_s(bus);
        cpu.reg.u = cpu.pull_word_s(bus);
        cpu.cycles = cpu.cycles + 9;
    }
    cpu.reg.pc = cpu.pull_word_s(bus);
}

/// CWAI: mask CC, set E, push the entire state, and park the CPU.
#[verifier::rlimit(100)]
#[verifier::spinoff_prover]
fn op_cwai<B: Bus>(cpu: &mut Cpu, bus: &mut B)
    requires
        old(cpu).wf(),
        !old(cpu).cwai,
        !old(cpu).sync,
        old(cpu).cycles <= u64::MAX - 43,
    ensures
        final(cpu).wf(),
        old(cpu).cycles <= final(cpu).cycles <= old(cpu).cycles + 12,
        old(cpu).nmi_armed ==> final(cpu).nmi_armed,
        final(cpu).nmi_pending == old(cpu).nmi_pending,
        final(cpu).firq_line == old(cpu).firq_line,
        final(cpu).irq_line == old(cpu).irq_line,
        final(cpu).sync == old(cpu).sync,
        final(cpu).halted == old(cpu).halted,
        final(cpu).illegal == old(cpu).illegal,
        final(cpu).cwai,
        ({
            let o = row_lea_stack_outcome(*old(cpu), mem_fn(old(bus)), 0x3C);
            &&& *final(cpu) == o.0
            &&& (forall|a: u16| final(bus).mem(a) == (o.1)(a))
        }),
{
    // CWAI: mask CC, push the entire state, and wait
    let post = cpu.fetch_byte(bus);
    cpu.reg.cc.and_with(post);
    cpu.reg.cc.set_entire(true);
    cpu.push_entire_state(bus);
    cpu.cwai = true;
}

/// SWI: set E, push the entire state, mask I and F, and vector.
#[verifier::rlimit(100)]
#[verifier::spinoff_prover]
fn op_swi<B: Bus>(cpu: &mut Cpu, bus: &mut B)
    requires
        old(cpu).wf(),
        !old(cpu).cwai,
        !old(cpu).sync,
        old(cpu).cycles <= u64::MAX - 43,
    ensures
        final(cpu).wf(),
        old(cpu).cycles <= final(cpu).cycles <= old(cpu).cycles + 12,
        old(cpu).nmi_armed ==> final(cpu).nmi_armed,
        final(cpu).nmi_pending == old(cpu).nmi_pending,
        final(cpu).firq_line == old(cpu).firq_line,
        final(cpu).irq_line == old(cpu).irq_line,
        final(cpu).sync == old(cpu).sync,
        final(cpu).halted == old(cpu).halted,
        final(cpu).illegal == old(cpu).illegal,
        final(cpu).cwai == old(cpu).cwai,
        ({
            let o = row_lea_stack_outcome(*old(cpu), mem_fn(old(bus)), 0x3F);
            &&& *final(cpu) == o.0
            &&& (forall|a: u16| final(bus).mem(a) == (o.1)(a))
        }),
{
    // SWI: push the entire state, mask I and F, vector
    cpu.reg.cc.set_entire(true);
    cpu.push_entire_state(bus);
    cpu.reg.cc.set_irq_inhibit(true);
    cpu.reg.cc.set_firq_inhibit(true);
    cpu.reg.pc = bus.read_word(crate::cpu::VEC_SWI);
}

/// Opcodes 0x38..0x3F: RTS, ABX, RTI, CWAI, MUL, the undocumented RESET,
/// and SWI.
#[verifier::rlimit(100)]
#[verifier::spinoff_prover]
fn row_stack_misc<B: Bus>(cpu: &mut Cpu, bus: &mut B, opcode: u8)
    requires
        old(cpu).wf(),
        !old(cpu).cwai,
        !old(cpu).sync,
        0x38 <= opcode < 0x40,
        old(cpu).cycles <= u64::MAX - 43,
    ensures
        final(cpu).wf(),
        old(cpu).cycles <= final(cpu).cycles <= old(cpu).cycles + 12,
        old(cpu).nmi_armed ==> final(cpu).nmi_armed,
        final(cpu).halted == (old(cpu).halted || opcode == 0x3E),
        final(cpu).illegal == (old(cpu).illegal || page0_illegal(opcode)),
        final(cpu).nmi_pending == old(cpu).nmi_pending,
        final(cpu).firq_line == old(cpu).firq_line,
        final(cpu).irq_line == old(cpu).irq_line,
        final(cpu).sync == old(cpu).sync,
        final(cpu).cwai == (old(cpu).cwai || opcode == 0x3C),
        ({
            let o = row_lea_stack_outcome(*old(cpu), mem_fn(old(bus)), opcode);
            &&& *final(cpu) == o.0
            &&& (forall|a: u16| final(bus).mem(a) == (o.1)(a))
        }),
{
    match opcode {
        0x39 => {
            // RTS
            cpu.reg.pc = cpu.pull_word_s(bus);
        },
        0x3A => {
            // ABX: X = X + B (unsigned), no flags
            let b = cpu.reg.b();
            cpu.reg.x = cpu.reg.x.wrapping_add(b as u16);
        },
        0x3B => {
            // RTI
            op_rti(cpu, bus);
        },
        0x3C => {
            // CWAI
            op_cwai(cpu, bus);
        },
        0x3D => {
            // MUL
            let a = cpu.reg.a();
            let b = cpu.reg.b();
            let d = alu::mul(a, b, &mut cpu.reg.cc);
            cpu.reg.d = d;
        },
        0x3E => {
            // RESET (undocumented): halt until a hardware reset
            cpu.halted = true;
        },
        0x3F => {
            // SWI
            op_swi(cpu, bus);
        },
        _ => {
            // unassigned opcode
            cpu.illegal = true;
        },
    }
}

/// Opcodes 0x30..0x3F: LEA, the stack bundles, RTS/RTI, ABX, CWAI, MUL, the
/// undocumented RESET, and SWI.
#[verifier::rlimit(100)]
#[verifier::spinoff_prover]
fn row_lea_stack<B: Bus>(cpu: &mut Cpu, bus: &mut B, opcode: u8)
    requires
        old(cpu).wf(),
        !old(cpu).cwai,
        !old(cpu).sync,
        0x30 <= opcode < 0x40,
        old(cpu).cycles <= u64::MAX - 43,
    ensures
        final(cpu).wf(),
        old(cpu).cycles <= final(cpu).cycles <= old(cpu).cycles + 12,
        old(cpu).nmi_armed ==> final(cpu).nmi_armed,
        final(cpu).halted == (old(cpu).halted || opcode == 0x3E),
        final(cpu).illegal == (old(cpu).illegal || page0_illegal(opcode)),
        final(cpu).nmi_pending == old(cpu).nmi_pending,
        final(cpu).firq_line == old(cpu).firq_line,
        final(cpu).irq_line == old(cpu).irq_line,
        final(cpu).sync == old(cpu).sync,
        final(cpu).cwai == (old(cpu).cwai || opcode == 0x3C),
        ({
            let o = row_lea_stack_outcome(*old(cpu), mem_fn(old(bus)), opcode);
            &&& *final(cpu) == o.0
            &&& (forall|a: u16| final(bus).mem(a) == (o.1)(a))
        }),
{
    if opcode < 0x38 {
        row_lea_bundles(cpu, bus, opcode);
    } else {
        row_stack_misc(cpu, bus, opcode);
    }
}

/// Execute one page-0 opcode (already fetched): charge its base cycles, then
/// run its semantics, which may add indexed-mode, stack-bundle or RTI extra
/// cycles. Cycles strictly increase by at least the base-table entry.
pub fn execute<B: Bus>(cpu: &mut Cpu, bus: &mut B, opcode: u8)
    requires
        old(cpu).wf(),
        !old(cpu).cwai,
        !old(cpu).sync,
        old(cpu).cycles <= u64::MAX - 64,
    ensures
        final(cpu).wf(),
        old(cpu).cycles + page0_base(opcode) <= final(cpu).cycles,
        final(cpu).cycles <= old(cpu).cycles + 64,
        old(cpu).nmi_armed ==> final(cpu).nmi_armed,
        final(cpu).halted == (old(cpu).halted || opcode == 0x3E),
        final(cpu).illegal == (old(cpu).illegal || page0_illegal(opcode)),
        final(cpu).nmi_pending == old(cpu).nmi_pending,
        final(cpu).firq_line == old(cpu).firq_line,
        final(cpu).irq_line == old(cpu).irq_line,
        final(cpu).sync == (opcode == 0x13),
        final(cpu).cwai == (opcode == 0x3C),
        ({
            let o = page0_outcome(*old(cpu), mem_fn(old(bus)), opcode);
            &&& *final(cpu) == o.0
            &&& (forall|a: u16| final(bus).mem(a) == (o.1)(a))
        }),
{
    let base = page0_cycles(opcode);
    cpu.cycles = cpu.cycles + base as u64;
    if opcode < 0x10 {
        row_direct_rmw(cpu, bus, opcode);
    } else if opcode < 0x20 {
        row_misc(cpu, bus, opcode);
    } else if opcode < 0x30 {
        row_branch(cpu, bus, opcode);
    } else if opcode < 0x40 {
        row_lea_stack(cpu, bus, opcode);
    } else if opcode < 0x50 {
        row_inherent_a(cpu, opcode);
    } else if opcode < 0x60 {
        row_inherent_b(cpu, opcode);
    } else if opcode < 0x70 {
        row_indexed_rmw(cpu, bus, opcode);
    } else if opcode < 0x80 {
        row_extended_rmw(cpu, bus, opcode);
    } else if opcode < 0x90 {
        row_a_imm(cpu, bus, opcode);
    } else if opcode < 0xA0 {
        row_a_direct(cpu, bus, opcode);
    } else if opcode < 0xB0 {
        row_a_indexed(cpu, bus, opcode);
    } else if opcode < 0xC0 {
        row_a_extended(cpu, bus, opcode);
    } else if opcode < 0xD0 {
        row_b_imm(cpu, bus, opcode);
    } else if opcode < 0xE0 {
        row_b_direct(cpu, bus, opcode);
    } else if opcode < 0xF0 {
        row_b_indexed(cpu, bus, opcode);
    } else {
        row_b_extended(cpu, bus, opcode);
    }
}

/// The effect of one opcode in 0x00..0x0F on the whole CPU and memory.
pub open spec fn row_direct_rmw_outcome(cpu: Cpu, m: spec_fn(u16) -> u8, opcode: u8) -> (Cpu, spec_fn(u16) -> u8) {
    let reg = cpu.reg;
    let ea = word(reg.dp, m(reg.pc));
    let reg1 = Registers { pc: wadd(reg.pc, 1), ..reg };
    let c1 = cpu;
    if opcode == 0x00 || opcode == 0x01 {
        // NEG (and its undocumented alias)
        let rc = spec_neg8(m(ea), reg1.cc);
        ((Cpu { reg: (Registers { cc: rc.1, ..reg1 }), ..c1 }), store8(m, ea, rc.0))
    } else if opcode == 0x03 {
        // COM
        let rc = spec_com8(m(ea), reg1.cc);
        ((Cpu { reg: (Registers { cc: rc.1, ..reg1 }), ..c1 }), store8(m, ea, rc.0))
    } else if opcode == 0x04 || opcode == 0x05 {
        // LSR (and its undocumented alias)
        let rc = spec_lsr8(m(ea), reg1.cc);
        ((Cpu { reg: (Registers { cc: rc.1, ..reg1 }), ..c1 }), store8(m, ea, rc.0))
    } else if opcode == 0x06 {
        // ROR
        let rc = spec_ror8(m(ea), reg1.cc);
        ((Cpu { reg: (Registers { cc: rc.1, ..reg1 }), ..c1 }), store8(m, ea, rc.0))
    } else if opcode == 0x07 {
        // ASR
        let rc = spec_asr8(m(ea), reg1.cc);
        ((Cpu { reg: (Registers { cc: rc.1, ..reg1 }), ..c1 }), store8(m, ea, rc.0))
    } else if opcode == 0x08 {
        // ASL
        let rc = spec_asl8(m(ea), reg1.cc);
        ((Cpu { reg: (Registers { cc: rc.1, ..reg1 }), ..c1 }), store8(m, ea, rc.0))
    } else if opcode == 0x09 {
        // ROL
        let rc = spec_rol8(m(ea), reg1.cc);
        ((Cpu { reg: (Registers { cc: rc.1, ..reg1 }), ..c1 }), store8(m, ea, rc.0))
    } else if opcode == 0x0A {
        // DEC
        let rc = spec_dec8(m(ea), reg1.cc);
        ((Cpu { reg: (Registers { cc: rc.1, ..reg1 }), ..c1 }), store8(m, ea, rc.0))
    } else if opcode == 0x0C {
        // INC
        let rc = spec_inc8(m(ea), reg1.cc);
        ((Cpu { reg: (Registers { cc: rc.1, ..reg1 }), ..c1 }), store8(m, ea, rc.0))
    } else if opcode == 0x0D {
        // TST
        ((Cpu { reg: (Registers { cc: spec_tst8(m(ea), reg1.cc), ..reg1 }), ..c1 }), m)
    } else if opcode == 0x0E {
        // JMP
        ((Cpu { reg: (Registers { pc: ea, ..reg1 }), ..c1 }), m)
    } else if opcode == 0x0F {
        // CLR
        let rc = spec_clr8(reg1.cc);
        ((Cpu { reg: (Registers { cc: rc.1, ..reg1 }), ..c1 }), store8(m, ea, rc.0))
    } else {
        // unassigned opcode
        ((Cpu { illegal: true, ..cpu }), m)
    }
}

/// The effect of one opcode in 0x60..0x6F on the whole CPU and memory.
pub open spec fn row_indexed_rmw_outcome(cpu: Cpu, m: spec_fn(u16) -> u8, opcode: u8) -> (Cpu, spec_fn(u16) -> u8) {
    let reg = cpu.reg;
    let pre = indexed_outcome(reg, m);
    let ea = pre.0;
    let reg1 = pre.2;
    let c1 = Cpu {
        cycles: (cpu.cycles + pre.1) as u64,
        nmi_armed: cpu.nmi_armed || indexed_arms_s(m(reg.pc)),
        ..cpu
    };
    if opcode == 0x60 || opcode == 0x61 {
        // NEG (and its undocumented alias)
        let rc = spec_neg8(m(ea), reg1.cc);
        ((Cpu { reg: (Registers { cc: rc.1, ..reg1 }), ..c1 }), store8(m, ea, rc.0))
    } else if opcode == 0x63 {
        // COM
        let rc = spec_com8(m(ea), reg1.cc);
        ((Cpu { reg: (Registers { cc: rc.1, ..reg1 }), ..c1 }), store8(m, ea, rc.0))
    } else if opcode == 0x64 || opcode == 0x65 {
        // LSR (and its undocumented alias)
        let rc = spec_lsr8(m(ea), reg1.cc);
        ((Cpu { reg: (Registers { cc: rc.1, ..reg1 }), ..c1 }), store8(m, ea, rc.0))
    } else if opcode == 0x66 {
        // ROR
        let rc = spec_ror8(m(ea), reg1.cc);
        ((Cpu { reg: (Registers { cc: rc.1, ..reg1 }), ..c1 }), store8(m, ea, rc.0))
    } else if opcode == 0x67 {
        // ASR
        let rc = spec_asr8(m(ea), reg1.cc);
        ((Cpu { reg: (Registers { cc: rc.1, ..reg1 }), ..c1 }), store8(m, ea, rc.0))
    } else if opcode == 0x68 {
        // ASL
        let rc = spec_asl8(m(ea), reg1.cc);
        ((Cpu { reg: (Registers { cc: rc.1, ..reg1 }), ..c1 }), store8(m, ea, rc.0))
    } else if opcode == 0x69 {
        // ROL
        let rc = spec_rol8(m(ea), reg1.cc);
        ((Cpu { reg: (Registers { cc: rc.1, ..reg1 }), ..c1 }), store8(m, ea, rc.0))
    } else if opcode == 0x6A {
        // DEC
        let rc = spec_dec8(m(ea), reg1.cc);
        ((Cpu { reg: (Registers { cc: rc.1, ..reg1 }), ..c1 }), store8(m, ea, rc.0))
    } else if opcode == 0x6C {
        // INC
        let rc = spec_inc8(m(ea), reg1.cc);
        ((Cpu { reg: (Registers { cc: rc.1, ..reg1 }), ..c1 }), store8(m, ea, rc.0))
    } else if opcode == 0x6D {
        // TST
        ((Cpu { reg: (Registers { cc: spec_tst8(m(ea), reg1.cc), ..reg1 }), ..c1 }), m)
    } else if opcode == 0x6E {
        // JMP
        ((Cpu { reg: (Registers { pc: ea, ..reg1 }), ..c1 }), m)
    } else if opcode == 0x6F {
        // CLR
        let rc = spec_clr8(reg1.cc);
        ((Cpu { reg: (Registers { cc: rc.1, ..reg1 }), ..c1 }), store8(m, ea, rc.0))
    } else {
        // unassigned opcode
        ((Cpu { illegal: true, ..cpu }), m)
    }
}

/// The effect of one opcode in 0x70..0x7F on the whole CPU and memory.
pub open spec fn row_extended_rmw_outcome(cpu: Cpu, m: spec_fn(u16) -> u8, opcode: u8) -> (Cpu, spec_fn(u16) -> u8) {
    let reg = cpu.reg;
    let ea = word(m(reg.pc), m(wadd(reg.pc, 1)));
    let reg1 = Registers { pc: wadd(reg.pc, 2), ..reg };
    let c1 = cpu;
    if opcode == 0x70 || opcode == 0x71 {
        // NEG (and its undocumented alias)
        let rc = spec_neg8(m(ea), reg1.cc);
        ((Cpu { reg: (Registers { cc: rc.1, ..reg1 }), ..c1 }), store8(m, ea, rc.0))
    } else if opcode == 0x73 {
        // COM
        let rc = spec_com8(m(ea), reg1.cc);
        ((Cpu { reg: (Registers { cc: rc.1, ..reg1 }), ..c1 }), store8(m, ea, rc.0))
    } else if opcode == 0x74 || opcode == 0x75 {
        // LSR (and its undocumented alias)
        let rc = spec_lsr8(m(ea), reg1.cc);
        ((Cpu { reg: (Registers { cc: rc.1, ..reg1 }), ..c1 }), store8(m, ea, rc.0))
    } else if opcode == 0x76 {
        // ROR
        let rc = spec_ror8(m(ea), reg1.cc);
        ((Cpu { reg: (Registers { cc: rc.1, ..reg1 }), ..c1 }), store8(m, ea, rc.0))
    } else if opcode == 0x77 {
        // ASR
        let rc = spec_asr8(m(ea), reg1.cc);
        ((Cpu { reg: (Registers { cc: rc.1, ..reg1 }), ..c1 }), store8(m, ea, rc.0))
    } else if opcode == 0x78 {
        // ASL
        let rc = spec_asl8(m(ea), reg1.cc);
        ((Cpu { reg: (Registers { cc: rc.1, ..reg1 }), ..c1 }), store8(m, ea, rc.0))
    } else if opcode == 0x79 {
        // ROL
        let rc = spec_rol8(m(ea), reg1.cc);
        ((Cpu { reg: (Registers { cc: rc.1, ..reg1 }), ..c1 }), store8(m, ea, rc.0))
    } else if opcode == 0x7A {
        // DEC
        let rc = spec_dec8(m(ea), reg1.cc);
        ((Cpu { reg: (Registers { cc: rc.1, ..reg1 }), ..c1 }), store8(m, ea, rc.0))
    } else if opcode == 0x7C {
        // INC
        let rc = spec_inc8(m(ea), reg1.cc);
        ((Cpu { reg: (Registers { cc: rc.1, ..reg1 }), ..c1 }), store8(m, ea, rc.0))
    } else if opcode == 0x7D {
        // TST
        ((Cpu { reg: (Registers { cc: spec_tst8(m(ea), reg1.cc), ..reg1 }), ..c1 }), m)
    } else if opcode == 0x7E {
        // JMP
        ((Cpu { reg: (Registers { pc: ea, ..reg1 }), ..c1 }), m)
    } else if opcode == 0x7F {
        // CLR
        let rc = spec_clr8(reg1.cc);
        ((Cpu { reg: (Registers { cc: rc.1, ..reg1 }), ..c1 }), store8(m, ea, rc.0))
    } else {
        // unassigned opcode
        ((Cpu { illegal: true, ..cpu }), m)
    }
}

/// The effect of one opcode in 0x40..0x4F on the whole CPU.
pub open spec fn row_inherent_a_outcome(cpu: Cpu, opcode: u8) -> Cpu {
    let reg = cpu.reg;
    if opcode == 0x40 || opcode == 0x41 {
        // NEG (and its undocumented alias)A
        let rc = spec_neg8(reg.spec_a(), reg.cc);
        (Cpu { reg: (Registers { cc: rc.1, ..reg }).with_a(rc.0), ..cpu })
    } else if opcode == 0x43 {
        // COMA
        let rc = spec_com8(reg.spec_a(), reg.cc);
        (Cpu { reg: (Registers { cc: rc.1, ..reg }).with_a(rc.0), ..cpu })
    } else if opcode == 0x44 || opcode == 0x45 {
        // LSR (and its undocumented alias)A
        let rc = spec_lsr8(reg.spec_a(), reg.cc);
        (Cpu { reg: (Registers { cc: rc.1, ..reg }).with_a(rc.0), ..cpu })
    } else if opcode == 0x46 {
        // RORA
        let rc = spec_ror8(reg.spec_a(), reg.cc);
        (Cpu { reg: (Registers { cc: rc.1, ..reg }).with_a(rc.0), ..cpu })
    } else if opcode == 0x47 {
        // ASRA
        let rc = spec_asr8(reg.spec_a(), reg.cc);
        (Cpu { reg: (Registers { cc: rc.1, ..reg }).with_a(rc.0), ..cpu })
    } else if opcode == 0x48 {
        // ASLA
        let rc = spec_asl8(reg.spec_a(), reg.cc);
        (Cpu { reg: (Registers { cc: rc.1, ..reg }).with_a(rc.0), ..cpu })
    } else if opcode == 0x49 {
        // ROLA
        let rc = spec_rol8(reg.spec_a(), reg.cc);
        (Cpu { reg: (Registers { cc: rc.1, ..reg }).with_a(rc.0), ..cpu })
    } else if opcode == 0x4A {
        // DECA
        let rc = spec_dec8(reg.spec_a(), reg.cc);
        (Cpu { reg: (Registers { cc: rc.1, ..reg }).with_a(rc.0), ..cpu })
    } else if opcode == 0x4C {
        // INCA
        let rc = spec_inc8(reg.spec_a(), reg.cc);
        (Cpu { reg: (Registers { cc: rc.1, ..reg }).with_a(rc.0), ..cpu })
    } else if opcode == 0x4D {
        // TSTA
        (Cpu { reg: (Registers { cc: spec_tst8(reg.spec_a(), reg.cc), ..reg }), ..cpu })
    } else if opcode == 0x4F {
        // CLRA
        let rc = spec_clr8(reg.cc);
        (Cpu { reg: (Registers { cc: rc.1, ..reg }).with_a(rc.0), ..cpu })
    } else {
        // unassigned opcode
        (Cpu { illegal: true, ..cpu })
    }
}

/// The effect of one opcode in 0x50..0x5F on the whole CPU.
pub open spec fn row_inherent_b_outcome(cpu: Cpu, opcode: u8) -> Cpu {
    let reg = cpu.reg;
    if opcode == 0x50 || opcode == 0x51 {
        // NEG (and its undocumented alias)B
        let rc = spec_neg8(reg.spec_b(), reg.cc);
        (Cpu { reg: (Registers { cc: rc.1, ..reg }).with_b(rc.0), ..cpu })
    } else if opcode == 0x53 {
        // COMB
        let rc = spec_com8(reg.spec_b(), reg.cc);
        (Cpu { reg: (Registers { cc: rc.1, ..reg }).with_b(rc.0), ..cpu })
    } else if opcode == 0x54 || opcode == 0x55 {
        // LSR (and its undocumented alias)B
        let rc = spec_lsr8(reg.spec_b(), reg.cc);
        (Cpu { reg: (Registers { cc: rc.1, ..reg }).with_b(rc.0), ..cpu })
    } else if opcode == 0x56 {
        // RORB
        let rc = spec_ror8(reg.spec_b(), reg.cc);
        (Cpu { reg: (Registers { cc: rc.1, ..reg }).with_b(rc.0), ..cpu })
    } else if opcode == 0x57 {
        // ASRB
        let rc = spec_asr8(reg.spec_b(), reg.cc);
        (Cpu { reg: (Registers { cc: rc.1, ..reg }).with_b(rc.0), ..cpu })
    } else if opcode == 0x58 {
        // ASLB
        let rc = spec_asl8(reg.spec_b(), reg.cc);
        (Cpu { reg: (Registers { cc: rc.1, ..reg }).with_b(rc.0), ..cpu })
    } else if opcode == 0x59 {
        // ROLB
        let rc = spec_rol8(reg.spec_b(), reg.cc);
        (Cpu { reg: (Registers { cc: rc.1, ..reg }).with_b(rc.0), ..cpu })
    } else if opcode == 0x5A {
        // DECB
        let rc = spec_dec8(reg.spec_b(), reg.cc);
        (Cpu { reg: (Registers { cc: rc.1, ..reg }).with_b(rc.0), ..cpu })
    } else if opcode == 0x5C {
        // INCB
        let rc = spec_inc8(reg.spec_b(), reg.cc);
        (Cpu { reg: (Registers { cc: rc.1, ..reg }).with_b(rc.0), ..cpu })
    } else if opcode == 0x5D {
        // TSTB
        (Cpu { reg: (Registers { cc: spec_tst8(reg.spec_b(), reg.cc), ..reg }), ..cpu })
    } else if opcode == 0x5F {
        // CLRB
        let rc = spec_clr8(reg.cc);
        (Cpu { reg: (Registers { cc: rc.1, ..reg }).with_b(rc.0), ..cpu })
    } else {
        // unassigned opcode
        (Cpu { illegal: true, ..cpu })
    }
}

/// The effect of one opcode in 0x80..0x8F on the whole CPU and memory.
pub open spec fn row_a_imm_outcome(cpu: Cpu, m: spec_fn(u16) -> u8, opcode: u8) -> (Cpu, spec_fn(u16) -> u8) {
    let reg = cpu.reg;
    if opcode == 0x80 {
        // SUBA
        let v = m(reg.pc);
        let reg1 = Registers { pc: wadd(reg.pc, 1), ..reg };
        let c1 = cpu;
        let rc = spec_sub8(reg1.spec_a(), v, reg1.cc);
        ((Cpu { reg: (Registers { cc: rc.1, ..reg1 }).with_a(rc.0), ..c1 }), m)
    } else if opcode == 0x81 {
        // CMPA
        let v = m(reg.pc);
        let reg1 = Registers { pc: wadd(reg.pc, 1), ..reg };
        let c1 = cpu;
        let rc = spec_sub8(reg1.spec_a(), v, reg1.cc);
        ((Cpu { reg: (Registers { cc: rc.1, ..reg1 }), ..c1 }), m)
    } else if opcode == 0x82 {
        // SBCA
        let v = m(reg.pc);
        let reg1 = Registers { pc: wadd(reg.pc, 1), ..reg };
        let c1 = cpu;
        let rc = spec_sbc8(reg1.spec_a(), v, reg1.cc);
        ((Cpu { reg: (Registers { cc: rc.1, ..reg1 }).with_a(rc.0), ..c1 }), m)
    } else if opcode == 0x83 {
        // SUBD
        let w = word(m(reg.pc), m(wadd(reg.pc, 1)));
        let reg1 = Registers { pc: wadd(reg.pc, 2), ..reg };
        let c1 = cpu;
        let rc = spec_sub16(reg1.d, w, reg1.cc);
        ((Cpu { reg: (Registers { d: rc.0, cc: rc.1, ..reg1 }), ..c1 }), m)
    } else if opcode == 0x84 {
        // ANDA
        let v = m(reg.pc);
        let reg1 = Registers { pc: wadd(reg.pc, 1), ..reg };
        let c1 = cpu;
        let rc = spec_and8(reg1.spec_a(), v, reg1.cc);
        ((Cpu { reg: (Registers { cc: rc.1, ..reg1 }).with_a(rc.0), ..c1 }), m)
    } else if opcode == 0x85 {
        // BITA
        let v = m(reg.pc);
        let reg1 = Registers { pc: wadd(reg.pc, 1), ..reg };
        let c1 = cpu;
        let rc = spec_and8(reg1.spec_a(), v, reg1.cc);
        ((Cpu { reg: (Registers { cc: rc.1, ..reg1 }), ..c1 }), m)
    } else if opcode == 0x86 {
        // LDA
        let v = m(reg.pc);
        let reg1 = Registers { pc: wadd(reg.pc, 1), ..reg };
        let c1 = cpu;
        ((Cpu { reg: (Registers { cc: spec_ld8_flags(v, reg1.cc), ..reg1 }).with_a(v), ..c1 }), m)
    } else if opcode == 0x88 {
        // EORA
        let v = m(reg.pc);
        let reg1 = Registers { pc: wadd(reg.pc, 1), ..reg };
        let c1 = cpu;
        let rc = spec_eor8(reg1.spec_a(), v, reg1.cc);
        ((Cpu { reg: (Registers { cc: rc.1, ..reg1 }).with_a(rc.0), ..c1 }), m)
    } else if opcode == 0x89 {
        // ADCA
        let v = m(reg.pc);
        let reg1 = Registers { pc: wadd(reg.pc, 1), ..reg };
        let c1 = cpu;
        let rc = spec_adc8(reg1.spec_a(), v, reg1.cc);
        ((Cpu { reg: (Registers { cc: rc.1, ..reg1 }).with_a(rc.0), ..c1 }), m)
    } else if opcode == 0x8A {
        // ORA
        let v = m(reg.pc);
        let reg1 = Registers { pc: wadd(reg.pc, 1), ..reg };
        let c1 = cpu;
        let rc = spec_or8(reg1.spec_a(), v, reg1.cc);
        ((Cpu { reg: (Registers { cc: rc.1, ..reg1 }).with_a(rc.0), ..c1 }), m)
    } else if opcode == 0x8B {
        // ADDA
        let v = m(reg.pc);
        let reg1 = Registers { pc: wadd(reg.pc, 1), ..reg };
        let c1 = cpu;
        let rc = spec_add8(reg1.spec_a(), v, reg1.cc);
        ((Cpu { reg: (Registers { cc: rc.1, ..reg1 }).with_a(rc.0), ..c1 }), m)
    } else if opcode == 0x8C {
        // CMPX
        let w = word(m(reg.pc), m(wadd(reg.pc, 1)));
        let reg1 = Registers { pc: wadd(reg.pc, 2), ..reg };
        let c1 = cpu;
        let rc = spec_sub16(reg1.x, w, reg1.cc);
        ((Cpu { reg: (Registers { cc: rc.1, ..reg1 }), ..c1 }), m)
    } else if opcode == 0x8D {
        // BSR
        let t = wadd(wadd(reg.pc, 1), sign_ext8(m(reg.pc)));
        let reg1 = Registers { pc: wadd(reg.pc, 1), ..reg };
        let m2 = store8(store8(m, wsub(reg1.s, 1), lo8(reg1.pc)), wsub(reg1.s, 2), hi8(reg1.pc));
        ((Cpu { reg: (Registers { pc: t, s: wsub(reg1.s, 2), ..reg1 }), ..cpu }), m2)
    } else if opcode == 0x8E {
        // LDX
        let w = word(m(reg.pc), m(wadd(reg.pc, 1)));
        let reg1 = Registers { pc: wadd(reg.pc, 2), ..reg };
        let c1 = cpu;
        ((Cpu { reg: (Registers { x: w, cc: spec_ld16_flags(w, reg1.cc), ..reg1 }), ..c1 }), m)
    } else {
        // unassigned opcode
        ((Cpu { illegal: true, ..cpu }), m)
    }
}

/// The effect of one opcode in 0x90..0x9F on the whole CPU and memory.
pub open spec fn row_a_direct_outcome(cpu: Cpu, m: spec_fn(u16) -> u8, opcode: u8) -> (Cpu, spec_fn(u16) -> u8) {
    let reg = cpu.reg;
    if opcode == 0x90 {
        // SUBA
        let ea = word(reg.dp, m(reg.pc));
        let reg1 = Registers { pc: wadd(reg.pc, 1), ..reg };
        let c1 = cpu;
        let v = m(ea);
        let rc = spec_sub8(reg1.spec_a(), v, reg1.cc);
        ((Cpu { reg: (Registers { cc: rc.1, ..reg1 }).with_a(rc.0), ..c1 }), m)
    } else if opcode == 0x91 {
        // CMPA
        let ea = word(reg.dp, m(reg.pc));
        let reg1 = Registers { pc: wadd(reg.pc, 1), ..reg };
        let c1 = cpu;
        let v = m(ea);
        let rc = spec_sub8(reg1.spec_a(), v, reg1.cc);
        ((Cpu { reg: (Registers { cc: rc.1, ..reg1 }), ..c1 }), m)
    } else if opcode == 0x92 {
        // SBCA
        let ea = word(reg.dp, m(reg.pc));
        let reg1 = Registers { pc: wadd(reg.pc, 1), ..reg };
        let c1 = cpu;
        let v = m(ea);
        let rc = spec_sbc8(reg1.spec_a(), v, reg1.cc);
        ((Cpu { reg: (Registers { cc: rc.1, ..reg1 }).with_a(rc.0), ..c1 }), m)
    } else if opcode == 0x93 {
        // SUBD
        let ea = word(reg.dp, m(reg.pc));
        let reg1 = Registers { pc: wadd(reg.pc, 1), ..reg };
        let c1 = cpu;
        let w = word(m(ea), m(wadd(ea, 1)));
        let rc = spec_sub16(reg1.d, w, reg1.cc);
        ((Cpu { reg: (Registers { d: rc.0, cc: rc.1, ..reg1 }), ..c1 }), m)
    } else if opcode == 0x94 {
        // ANDA
        let ea = word(reg.dp, m(reg.pc));
        let reg1 = Registers { pc: wadd(reg.pc, 1), ..reg };
        let c1 = cpu;
        let v = m(ea);
        let rc = spec_and8(reg1.spec_a(), v, reg1.cc);
        ((Cpu { reg: (Registers { cc: rc.1, ..reg1 }).with_a(rc.0), ..c1 }), m)
    } else if opcode == 0x95 {
        // BITA
        let ea = word(reg.dp, m(reg.pc));
        let reg1 = Registers { pc: wadd(reg.pc, 1), ..reg };
        let c1 = cpu;
        let v = m(ea);
        let rc = spec_and8(reg1.spec_a(), v, reg1.cc);
        ((Cpu { reg: (Registers { cc: rc.1, ..reg1 }), ..c1 }), m)
    } else if opcode == 0x96 {
        // LDA
        let ea = word(reg.dp, m(reg.pc));
        let reg1 = Registers { pc: wadd(reg.pc, 1), ..reg };
        let c1 = cpu;
        let v = m(ea);
        ((Cpu { reg: (Registers { cc: spec_ld8_flags(v, reg1.cc), ..reg1 }).with_a(v), ..c1 }), m)
    } else if opcode == 0x97 {
        // STA
        let ea = word(reg.dp, m(reg.pc));
        let reg1 = Registers { pc: wadd(reg.pc, 1), ..reg };
        let c1 = cpu;
        let v = reg1.spec_a();
        ((Cpu { reg: (Registers { cc: spec_ld8_flags(v, reg1.cc), ..reg1 }), ..c1 }), store8(m, ea, v))
    } else if opcode == 0x98 {
        // EORA
        let ea = word(reg.dp, m(reg.pc));
        let reg1 = Registers { pc: wadd(reg.pc, 1), ..reg };
        let c1 = cpu;
        let v = m(ea);
        let rc = spec_eor8(reg1.spec_a(), v, reg1.cc);
        ((Cpu { reg: (Registers { cc: rc.1, ..reg1 }).with_a(rc.0), ..c1 }), m)
    } else if opcode == 0x99 {
        // ADCA
        let ea = word(reg.dp, m(reg.pc));
        let reg1 = Registers { pc: wadd(reg.pc, 1), ..reg };
        let c1 = cpu;
        let v = m(ea);
        let rc = spec_adc8(reg1.spec_a(), v, reg1.cc);
        ((Cpu { reg: (Registers { cc: rc.1, ..reg1 }).with_a(rc.0), ..c1 }), m)
    } else if opcode == 0x9A {
        // ORA
        let ea = word(reg.dp, m(reg.pc));
        let reg1 = Registers { pc: wadd(reg.pc, 1), ..reg };
        let c1 = cpu;
        let v = m(ea);
        let rc = spec_or8(reg1.spec_a(), v, reg1.cc);
        ((Cpu { reg: (Registers { cc: rc.1, ..reg1 }).with_a(rc.0), ..c1 }), m)
    } else if opcode == 0x9B {
        // ADDA
        let ea = word(reg.dp, m(reg.pc));
        let reg1 = Registers { pc: wadd(reg.pc, 1), ..reg };
        let c1 = cpu;
        let v = m(ea);
        let rc = spec_add8(reg1.spec_a(), v, reg1.cc);
        ((Cpu { reg: (Registers { cc: rc.1, ..reg1 }).with_a(rc.0), ..c1 }), m)
    } else if opcode == 0x9C {
        // CMPX
        let ea = word(reg.dp, m(reg.pc));
        let reg1 = Registers { pc: wadd(reg.pc, 1), ..reg };
        let c1 = cpu;
        let w = word(m(ea), m(wadd(ea, 1)));
        let rc = spec_sub16(reg1.x, w, reg1.cc);
        ((Cpu { reg: (Registers { cc: rc.1, ..reg1 }), ..c1 }), m)
    } else if opcode == 0x9D {
        // JSR
        let ea = word(reg.dp, m(reg.pc));
        let reg1 = Registers { pc: wadd(reg.pc, 1), ..reg };
        let c1 = cpu;
        let m2 = store8(store8(m, wsub(reg1.s, 1), lo8(reg1.pc)), wsub(reg1.s, 2), hi8(reg1.pc));
        ((Cpu { reg: (Registers { pc: ea, s: wsub(reg1.s, 2), ..reg1 }), ..c1 }), m2)
    } else if opcode == 0x9E {
        // LDX
        let ea = word(reg.dp, m(reg.pc));
        let reg1 = Registers { pc: wadd(reg.pc, 1), ..reg };
        let c1 = cpu;
        let w = word(m(ea), m(wadd(ea, 1)));
        ((Cpu { reg: (Registers { x: w, cc: spec_ld16_flags(w, reg1.cc), ..reg1 }), ..c1 }), m)
    } else if opcode == 0x9F {
        // STX
        let ea = word(reg.dp, m(reg.pc));
        let reg1 = Registers { pc: wadd(reg.pc, 1), ..reg };
        let c1 = cpu;
        let v = reg1.x;
        ((Cpu { reg: (Registers { cc: spec_ld16_flags(v, reg1.cc), ..reg1 }), ..c1 }), store8(store8(m, ea, hi8(v)), wadd(ea, 1), lo8(v)))
    } else {
        // unassigned opcode
        ((Cpu { illegal: true, ..cpu }), m)
    }
}

/// The effect of one opcode in 0xA0..0xAF on the whole CPU and memory.
pub open spec fn row_a_indexed_outcome(cpu: Cpu, m: spec_fn(u16) -> u8, opcode: u8) -> (Cpu, spec_fn(u16) -> u8) {
    let reg = cpu.reg;
    if opcode == 0xA0 {
        // SUBA
        let pre = indexed_outcome(reg, m);
        let ea = pre.0;
        let reg1 = pre.2;
        let c1 = Cpu {
            cycles: (cpu.cycles + pre.1) as u64,
            nmi_armed: cpu.nmi_armed || indexed_arms_s(m(reg.pc)),
            ..cpu
        };
        let v = m(ea);
        let rc = spec_sub8(reg1.spec_a(), v, reg1.cc);
        ((Cpu { reg: (Registers { cc: rc.1, ..reg1 }).with_a(rc.0), ..c1 }), m)
    } else if opcode == 0xA1 {
        // CMPA
        let pre = indexed_outcome(reg, m);
        let ea = pre.0;
        let reg1 = pre.2;
        let c1 = Cpu {
            cycles: (cpu.cycles + pre.1) as u64,
            nmi_armed: cpu.nmi_armed || indexed_arms_s(m(reg.pc)),
            ..cpu
        };
        let v = m(ea);
        let rc = spec_sub8(reg1.spec_a(), v, reg1.cc);
        ((Cpu { reg: (Registers { cc: rc.1, ..reg1 }), ..c1 }), m)
    } else if opcode == 0xA2 {
        // SBCA
        let pre = indexed_outcome(reg, m);
        let ea = pre.0;
        let reg1 = pre.2;
        let c1 = Cpu {
            cycles: (cpu.cycles + pre.1) as u64,
            nmi_armed: cpu.nmi_armed || indexed_arms_s(m(reg.pc)),
            ..cpu
        };
        let v = m(ea);
        let rc = spec_sbc8(reg1.spec_a(), v, reg1.cc);
        ((Cpu { reg: (Registers { cc: rc.1, ..reg1 }).with_a(rc.0), ..c1 }), m)
    } else if opcode == 0xA3 {
        // SUBD
        let pre = indexed_outcome(reg, m);
        let ea = pre.0;
        let reg1 = pre.2;
        let c1 = Cpu {
            cycles: (cpu.cycles + pre.1) as u64,
            nmi_armed: cpu.nmi_armed || indexed_arms_s(m(reg.pc)),
            ..cpu
        };
        let w = word(m(ea), m(wadd(ea, 1)));
        let rc = spec_sub16(reg1.d, w, reg1.cc);
        ((Cpu { reg: (Registers { d: rc.0, cc: rc.1, ..reg1 }), ..c1 }), m)
    } else if opcode == 0xA4 {
        // ANDA
        let pre = indexed_outcome(reg, m);
        let ea = pre.0;
        let reg1 = pre.2;
        let c1 = Cpu {
            cycles: (cpu.cycles + pre.1) as u64,
            nmi_armed: cpu.nmi_armed || indexed_arms_s(m(reg.pc)),
            ..cpu
        };
        let v = m(ea);
        let rc = spec_and8(reg1.spec_a(), v, reg1.cc);
        ((Cpu { reg: (Registers { cc: rc.1, ..reg1 }).with_a(rc.0), ..c1 }), m)
    } else if opcode == 0xA5 {
        // BITA
        let pre = indexed_outcome(reg, m);
        let ea = pre.0;
        let reg1 = pre.2;
        let c1 = Cpu {
            cycles: (cpu.cycles + pre.1) as u64,
            nmi_armed: cpu.nmi_armed || indexed_arms_s(m(reg.pc)),
            ..cpu
        };
        let v = m(ea);
        let rc = spec_and8(reg1.spec_a(), v, reg1.cc);
        ((Cpu { reg: (Registers { cc: rc.1, ..reg1 }), ..c1 }), m)
    } else if opcode == 0xA6 {
        // LDA
        let pre = indexed_outcome(reg, m);
        let ea = pre.0;
        let reg1 = pre.2;
        let c1 = Cpu {
            cycles: (cpu.cycles + pre.1) as u64,
            nmi_armed: cpu.nmi_armed || indexed_arms_s(m(reg.pc)),
            ..cpu
        };
        let v = m(ea);
        ((Cpu { reg: (Registers { cc: spec_ld8_flags(v, reg1.cc), ..reg1 }).with_a(v), ..c1 }), m)
    } else if opcode == 0xA7 {
        // STA
        let pre = indexed_outcome(reg, m);
        let ea = pre.0;
        let reg1 = pre.2;
        let c1 = Cpu {
            cycles: (cpu.cycles + pre.1) as u64,
            nmi_armed: cpu.nmi_armed || indexed_arms_s(m(reg.pc)),
            ..cpu
        };
        let v = reg1.spec_a();
        ((Cpu { reg: (Registers { cc: spec_ld8_flags(v, reg1.cc), ..reg1 }), ..c1 }), store8(m, ea, v))
    } else if opcode == 0xA8 {
        // EORA
        let pre = indexed_outcome(reg, m);
        let ea = pre.0;
        let reg1 = pre.2;
        let c1 = Cpu {
            cycles: (cpu.cycles + pre.1) as u64,
            nmi_armed: cpu.nmi_armed || indexed_arms_s(m(reg.pc)),
            ..cpu
        };
        let v = m(ea);
        let rc = spec_eor8(reg1.spec_a(), v, reg1.cc);
        ((Cpu { reg: (Registers { cc: rc.1, ..reg1 }).with_a(rc.0), ..c1 }), m)
    } else if opcode == 0xA9 {
        // ADCA
        let pre = indexed_outcome(reg, m);
        let ea = pre.0;
        let reg1 = pre.2;
        let c1 = Cpu {
            cycles: (cpu.cycles + pre.1) as u64,
            nmi_armed: cpu.nmi_armed || indexed_arms_s(m(reg.pc)),
            ..cpu
        };
        let v = m(ea);
        let rc = spec_adc8(reg1.spec_a(), v, reg1.cc);
        ((Cpu { reg: (Registers { cc: rc.1, ..reg1 }).with_a(rc.0), ..c1 }), m)
    } else if opcode == 0xAA {
        // ORA
        let pre = indexed_outcome(reg, m);
        let ea = pre.0;
        let reg1 = pre.2;
        let c1 = Cpu {
            cycles: (cpu.cycles + pre.1) as u64,
            nmi_armed: cpu.nmi_armed || indexed_arms_s(m(reg.pc)),
            ..cpu
        };
        let v = m(ea);
        let rc = spec_or8(reg1.spec_a(), v, reg1.cc);
        ((Cpu { reg: (Registers { cc: rc.1, ..reg1 }).with_a(rc.0), ..c1 }), m)
    } else if opcode == 0xAB {
        // ADDA
        let pre = indexed_outcome(reg, m);
        let ea = pre.0;
        let reg1 = pre.2;
        let c1 = Cpu {
            cycles: (cpu.cycles + pre.1) as u64,
            nmi_armed: cpu.nmi_armed || indexed_arms_s(m(reg.pc)),
            ..cpu
        };
        let v = m(ea);
        let rc = spec_add8(reg1.spec_a(), v, reg1.cc);
        ((Cpu { reg: (Registers { cc: rc.1, ..reg1 }).with_a(rc.0), ..c1 }), m)
    } else if opcode == 0xAC {
        // CMPX
        let pre = indexed_outcome(reg, m);
        let ea = pre.0;
        let reg1 = pre.2;
        let c1 = Cpu {
            cycles: (cpu.cycles + pre.1) as u64,
            nmi_armed: cpu.nmi_armed || indexed_arms_s(m(reg.pc)),
            ..cpu
        };
        let w = word(m(ea), m(wadd(ea, 1)));
        let rc = spec_sub16(reg1.x, w, reg1.cc);
        ((Cpu { reg: (Registers { cc: rc.1, ..reg1 }), ..c1 }), m)
    } else if opcode == 0xAD {
        // JSR
        let pre = indexed_outcome(reg, m);
        let ea = pre.0;
        let reg1 = pre.2;
        let c1 = Cpu {
            cycles: (cpu.cycles + pre.1) as u64,
            nmi_armed: cpu.nmi_armed || indexed_arms_s(m(reg.pc)),
            ..cpu
        };
        let m2 = store8(store8(m, wsub(reg1.s, 1), lo8(reg1.pc)), wsub(reg1.s, 2), hi8(reg1.pc));
        ((Cpu { reg: (Registers { pc: ea, s: wsub(reg1.s, 2), ..reg1 }), ..c1 }), m2)
    } else if opcode == 0xAE {
        // LDX
        let pre = indexed_outcome(reg, m);
        let ea = pre.0;
        let reg1 = pre.2;
        let c1 = Cpu {
            cycles: (cpu.cycles + pre.1) as u64,
            nmi_armed: cpu.nmi_armed || indexed_arms_s(m(reg.pc)),
            ..cpu
        };
        let w = word(m(ea), m(wadd(ea, 1)));
        ((Cpu { reg: (Registers { x: w, cc: spec_ld16_flags(w, reg1.cc), ..reg1 }), ..c1 }), m)
    } else if opcode == 0xAF {
        // STX
        let pre = indexed_outcome(reg, m);
        let ea = pre.0;
        let reg1 = pre.2;
        let c1 = Cpu {
            cycles: (cpu.cycles + pre.1) as u64,
            nmi_armed: cpu.nmi_armed || indexed_arms_s(m(reg.pc)),
            ..cpu
        };
        let v = reg1.x;
        ((Cpu { reg: (Registers { cc: spec_ld16_flags(v, reg1.cc), ..reg1 }), ..c1 }), store8(store8(m, ea, hi8(v)), wadd(ea, 1), lo8(v)))
    } else {
        // unassigned opcode
        ((Cpu { illegal: true, ..cpu }), m)
    }
}

/// The effect of one opcode in 0xB0..0xBF on the whole CPU and memory.
pub open spec fn row_a_extended_outcome(cpu: Cpu, m: spec_fn(u16) -> u8, opcode: u8) -> (Cpu, spec_fn(u16) -> u8) {
    let reg = cpu.reg;
    if opcode == 0xB0 {
        // SUBA
        let ea = word(m(reg.pc), m(wadd(reg.pc, 1)));
        let reg1 = Registers { pc: wadd(reg.pc, 2), ..reg };
        let c1 = cpu;
        let v = m(ea);
        let rc = spec_sub8(reg1.spec_a(), v, reg1.cc);
        ((Cpu { reg: (Registers { cc: rc.1, ..reg1 }).with_a(rc.0), ..c1 }), m)
    } else if opcode == 0xB1 {
        // CMPA
        let ea = word(m(reg.pc), m(wadd(reg.pc, 1)));
        let reg1 = Registers { pc: wadd(reg.pc, 2), ..reg };
        let c1 = cpu;
        let v = m(ea);
        let rc = spec_sub8(reg1.spec_a(), v, reg1.cc);
        ((Cpu { reg: (Registers { cc: rc.1, ..reg1 }), ..c1 }), m)
    } else if opcode == 0xB2 {
        // SBCA
        let ea = word(m(reg.pc), m(wadd(reg.pc, 1)));
        let reg1 = Registers { pc: wadd(reg.pc, 2), ..reg };
        let c1 = cpu;
        let v = m(ea);
        let rc = spec_sbc8(reg1.spec_a(), v, reg1.cc);
        ((Cpu { reg: (Registers { cc: rc.1, ..reg1 }).with_a(rc.0), ..c1 }), m)
    } else if opcode == 0xB3 {
        // SUBD
        let ea = word(m(reg.pc), m(wadd(reg.pc, 1)));
        let reg1 = Registers { pc: wadd(reg.pc, 2), ..reg };
        let c1 = cpu;
        let w = word(m(ea), m(wadd(ea, 1)));
        let rc = spec_sub16(reg1.d, w, reg1.cc);
        ((Cpu { reg: (Registers { d: rc.0, cc: rc.1, ..reg1 }), ..c1 }), m)
    } else if opcode == 0xB4 {
        // ANDA
        let ea = word(m(reg.pc), m(wadd(reg.pc, 1)));
        let reg1 = Registers { pc: wadd(reg.pc, 2), ..reg };
        let c1 = cpu;
        let v = m(ea);
        let rc = spec_and8(reg1.spec_a(), v, reg1.cc);
        ((Cpu { reg: (Registers { cc: rc.1, ..reg1 }).with_a(rc.0), ..c1 }), m)
    } else if opcode == 0xB5 {
        // BITA
        let ea = word(m(reg.pc), m(wadd(reg.pc, 1)));
        let reg1 = Registers { pc: wadd(reg.pc, 2), ..reg };
        let c1 = cpu;
        let v = m(ea);
        let rc = spec_and8(reg1.spec_a(), v, reg1.cc);
        ((Cpu { reg: (Registers { cc: rc.1, ..reg1 }), ..c1 }), m)
    } else if opcode == 0xB6 {
        // LDA
        let ea = word(m(reg.pc), m(wadd(reg.pc, 1)));
        let reg1 = Registers { pc: wadd(reg.pc, 2), ..reg };
        let c1 = cpu;
        let v = m(ea);
        ((Cpu { reg: (Registers { cc: spec_ld8_flags(v, reg1.cc), ..reg1 }).with_a(v), ..c1 }), m)
    } else if opcode == 0xB7 {
        // STA
        let ea = word(m(reg.pc), m(wadd(reg.pc, 1)));
        let reg1 = Registers { pc: wadd(reg.pc, 2), ..reg };
        let c1 = cpu;
        let v = reg1.spec_a();
        ((Cpu { reg: (Registers { cc: spec_ld8_flags(v, reg1.cc), ..reg1 }), ..c1 }), store8(m, ea, v))
    } else if opcode == 0xB8 {
        // EORA
        let ea = word(m(reg.pc), m(wadd(reg.pc, 1)));
        let reg1 = Registers { pc: wadd(reg.pc, 2), ..reg };
        let c1 = cpu;
        let v = m(ea);
        let rc = spec_eor8(reg1.spec_a(), v, reg1.cc);
        ((Cpu { reg: (Registers { cc: rc.1, ..reg1 }).with_a(rc.0), ..c1 }), m)
    } else if opcode == 0xB9 {
        // ADCA
        let ea = word(m(reg.pc), m(wadd(reg.pc, 1)));
        let reg1 = Registers { pc: wadd(reg.pc, 2), ..reg };
        let c1 = cpu;
        let v = m(ea);
        let rc = spec_adc8(reg1.spec_a(), v, reg1.cc);
        ((Cpu { reg: (Registers { cc: rc.1, ..reg1 }).with_a(rc.0), ..c1 }), m)
    } else if opcode == 0xBA {
        // ORA
        let ea = word(m(reg.pc), m(wadd(reg.pc, 1)));
        let reg1 = Registers { pc: wadd(reg.pc, 2), ..reg };
        let c1 = cpu;
        let v = m(ea);
        let rc = spec_or8(reg1.spec_a(), v, reg1.cc);
        ((Cpu { reg: (Registers { cc: rc.1, ..reg1 }).with_a(rc.0), ..c1 }), m)
    } else if opcode == 0xBB {
        // ADDA
        let ea = word(m(reg.pc), m(wadd(reg.pc, 1)));
        let reg1 = Registers { pc: wadd(reg.pc, 2), ..reg };
        let c1 = cpu;
        let v = m(ea);
        let rc = spec_add8(reg1.spec_a(), v, reg1.cc);
        ((Cpu { reg: (Registers { cc: rc.1, ..reg1 }).with_a(rc.0), ..c1 }), m)
    } else if opcode == 0xBC {
        // CMPX
        let ea = word(m(reg.pc), m(wadd(reg.pc, 1)));
        let reg1 = Registers { pc: wadd(reg.pc, 2), ..reg };
        let c1 = cpu;
        let w = word(m(ea), m(wadd(ea, 1)));
        let rc = spec_sub16(reg1.x, w, reg1.cc);
        ((Cpu { reg: (Registers { cc: rc.1, ..reg1 }), ..c1 }), m)
    } else if opcode == 0xBD {
        // JSR
        let ea = word(m(reg.pc), m(wadd(reg.pc, 1)));
        let reg1 = Registers { pc: wadd(reg.pc, 2), ..reg };
        let c1 = cpu;
        let m2 = store8(store8(m, wsub(reg1.s, 1), lo8(reg1.pc)), wsub(reg1.s, 2), hi8(reg1.pc));
        ((Cpu { reg: (Registers { pc: ea, s: wsub(reg1.s, 2), ..reg1 }), ..c1 }), m2)
    } else if opcode == 0xBE {
        // LDX
        let ea = word(m(reg.pc), m(wadd(reg.pc, 1)));
        let reg1 = Registers { pc: wadd(reg.pc, 2), ..reg };
        let c1 = cpu;
        let w = word(m(ea), m(wadd(ea, 1)));
        ((Cpu { reg: (Registers { x: w, cc: spec_ld16_flags(w, reg1.cc), ..reg1 }), ..c1 }), m)
    } else if opcode == 0xBF {
        // STX
        let ea = word(m(reg.pc), m(wadd(reg.pc, 1)));
        let reg1 = Registers { pc: wadd(reg.pc, 2), ..reg };
        let c1 = cpu;
        let v = reg1.x;
        ((Cpu { reg: (Registers { cc: spec_ld16_flags(v, reg1.cc), ..reg1 }), ..c1 }), store8(store8(m, ea, hi8(v)), wadd(ea, 1), lo8(v)))
    } else {
        // unassigned opcode
        ((Cpu { illegal: true, ..cpu }), m)
    }
}

/// The effect of one opcode in 0xC0..0xCF on the whole CPU and memory.
pub open spec fn row_b_imm_outcome(cpu: Cpu, m: spec_fn(u16) -> u8, opcode: u8) -> (Cpu, spec_fn(u16) -> u8) {
    let reg = cpu.reg;
    if opcode == 0xC0 {
        // SUBB
        let v = m(reg.pc);
        let reg1 = Registers { pc: wadd(reg.pc, 1), ..reg };
        let c1 = cpu;
        let rc = spec_sub8(reg1.spec_b(), v, reg1.cc);
        ((Cpu { reg: (Registers { cc: rc.1, ..reg1 }).with_b(rc.0), ..c1 }), m)
    } else if opcode == 0xC1 {
        // CMPB
        let v = m(reg.pc);
        let reg1 = Registers { pc: wadd(reg.pc, 1), ..reg };
        let c1 = cpu;
        let rc = spec_sub8(reg1.spec_b(), v, reg1.cc);
        ((Cpu { reg: (Registers { cc: rc.1, ..reg1 }), ..c1 }), m)
    } else if opcode == 0xC2 {
        // SBCB
        let v = m(reg.pc);
        let reg1 = Registers { pc: wadd(reg.pc, 1), ..reg };
        let c1 = cpu;
        let rc = spec_sbc8(reg1.spec_b(), v, reg1.cc);
        ((Cpu { reg: (Registers { cc: rc.1, ..reg1 }).with_b(rc.0), ..c1 }), m)
    } else if opcode == 0xC3 {
        // ADDD
        let w = word(m(reg.pc), m(wadd(reg.pc, 1)));
        let reg1 = Registers { pc: wadd(reg.pc, 2), ..reg };
        let c1 = cpu;
        let rc = spec_add16(reg1.d, w, reg1.cc);
        ((Cpu { reg: (Registers { d: rc.0, cc: rc.1, ..reg1 }), ..c1 }), m)
    } else if opcode == 0xC4 {
        // ANDB
        let v = m(reg.pc);
        let reg1 = Registers { pc: wadd(reg.pc, 1), ..reg };
        let c1 = cpu;
        let rc = spec_and8(reg1.spec_b(), v, reg1.cc);
        ((Cpu { reg: (Registers { cc: rc.1, ..reg1 }).with_b(rc.0), ..c1 }), m)
    } else if opcode == 0xC5 {
        // BITB
        let v = m(reg.pc);
        let reg1 = Registers { pc: wadd(reg.pc, 1), ..reg };
        let c1 = cpu;
        let rc = spec_and8(reg1.spec_b(), v, reg1.cc);
        ((Cpu { reg: (Registers { cc: rc.1, ..reg1 }), ..c1 }), m)
    } else if opcode == 0xC6 {
        // LDB
        let v = m(reg.pc);
        let reg1 = Registers { pc: wadd(reg.pc, 1), ..reg };
        let c1 = cpu;
        ((Cpu { reg: (Registers { cc: spec_ld8_flags(v, reg1.cc), ..reg1 }).with_b(v), ..c1 }), m)
    } else if opcode == 0xC8 {
        // EORB
        let v = m(reg.pc);
        let reg1 = Registers { pc: wadd(reg.pc, 1), ..reg };
        let c1 = cpu;
        let rc = spec_eor8(reg1.spec_b(), v, reg1.cc);
        ((Cpu { reg: (Registers { cc: rc.1, ..reg1 }).with_b(rc.0), ..c1 }), m)
    } else if opcode == 0xC9 {
        // ADCB
        let v = m(reg.pc);
        let reg1 = Registers { pc: wadd(reg.pc, 1), ..reg };
        let c1 = cpu;
        let rc = spec_adc8(reg1.spec_b(), v, reg1.cc);
        ((Cpu { reg: (Registers { cc: rc.1, ..reg1 }).with_b(rc.0), ..c1 }), m)
    } else if opcode == 0xCA {
        // ORB
        let v = m(reg.pc);
        let reg1 = Registers { pc: wadd(reg.pc, 1), ..reg };
        let c1 = cpu;
        let rc = spec_or8(reg1.spec_b(), v, reg1.cc);
        ((Cpu { reg: (Registers { cc: rc.1, ..reg1 }).with_b(rc.0), ..c1 }), m)
    } else if opcode == 0xCB {
        // ADDB
        let v = m(reg.pc);
        let reg1 = Registers { pc: wadd(reg.pc, 1), ..reg };
        let c1 = cpu;
        let rc = spec_add8(reg1.spec_b(), v, reg1.cc);
        ((Cpu { reg: (Registers { cc: rc.1, ..reg1 }).with_b(rc.0), ..c1 }), m)
    } else if opcode == 0xCC {
        // LDD
        let w = word(m(reg.pc), m(wadd(reg.pc, 1)));
        let reg1 = Registers { pc: wadd(reg.pc, 2), ..reg };
        let c1 = cpu;
        ((Cpu { reg: (Registers { d: w, cc: spec_ld16_flags(w, reg1.cc), ..reg1 }), ..c1 }), m)
    } else if opcode == 0xCE {
        // LDU
        let w = word(m(reg.pc), m(wadd(reg.pc, 1)));
        let reg1 = Registers { pc: wadd(reg.pc, 2), ..reg };
        let c1 = cpu;
        ((Cpu { reg: (Registers { u: w, cc: spec_ld16_flags(w, reg1.cc), ..reg1 }), ..c1 }), m)
    } else {
        // unassigned opcode
        ((Cpu { illegal: true, ..cpu }), m)
    }
}

/// The effect of one opcode in 0xD0..0xDF on the whole CPU and memory.
pub open spec fn row_b_direct_outcome(cpu: Cpu, m: spec_fn(u16) -> u8, opcode: u8) -> (Cpu, spec_fn(u16) -> u8) {
    let reg = cpu.reg;
    if opcode == 0xD0 {
        // SUBB
        let ea = word(reg.dp, m(reg.pc));
        let reg1 = Registers { pc: wadd(reg.pc, 1), ..reg };
        let c1 = cpu;
        let v = m(ea);
        let rc = spec_sub8(reg1.spec_b(), v, reg1.cc);
        ((Cpu { reg: (Registers { cc: rc.1, ..reg1 }).with_b(rc.0), ..c1 }), m)
    } else if opcode == 0xD1 {
        // CMPB
        let ea = word(reg.dp, m(reg.pc));
        let reg1 = Registers { pc: wadd(reg.pc, 1), ..reg };
        let c1 = cpu;
        let v = m(ea);
        let rc = spec_sub8(reg1.spec_b(), v, reg1.cc);
        ((Cpu { reg: (Registers { cc: rc.1, ..reg1 }), ..c1 }), m)
    } else if opcode == 0xD2 {
        // SBCB
        let ea = word(reg.dp, m(reg.pc));
        let reg1 = Registers { pc: wadd(reg.pc, 1), ..reg };
        let c1 = cpu;
        let v = m(ea);
        let rc = spec_sbc8(reg1.spec_b(), v, reg1.cc);
        ((Cpu { reg: (Registers { cc: rc.1, ..reg1 }).with_b(rc.0), ..c1 }), m)
    } else if opcode == 0xD3 {
        // ADDD
        let ea = word(reg.dp, m(reg.pc));
        let reg1 = Registers { pc: wadd(reg.pc, 1), ..reg };
        let c1 = cpu;
        let w = word(m(ea), m(wadd(ea, 1)));
        let rc = spec_add16(reg1.d, w, reg1.cc);
        ((Cpu { reg: (Registers { d: rc.0, cc: rc.1, ..reg1 }), ..c1 }), m)
    } else if opcode == 0xD4 {
        // ANDB
        let ea = word(reg.dp, m(reg.pc));
        let reg1 = Registers { pc: wadd(reg.pc, 1), ..reg };
        let c1 = cpu;
        let v = m(ea);
        let rc = spec_and8(reg1.spec_b(), v, reg1.cc);
        ((Cpu { reg: (Registers { cc: rc.1, ..reg1 }).with_b(rc.0), ..c1 }), m)
    } else if opcode == 0xD5 {
        // BITB
        let ea = word(reg.dp, m(reg.pc));
        let reg1 = Registers { pc: wadd(reg.pc, 1), ..reg };
        let c1 = cpu;
        let v = m(ea);
        let rc = spec_and8(reg1.spec_b(), v, reg1.cc);
        ((Cpu { reg: (Registers { cc: rc.1, ..reg1 }), ..c1 }), m)
    } else if opcode == 0xD6 {
        // LDB
        let ea = word(reg.dp, m(reg.pc));
        let reg1 = Registers { pc: wadd(reg.pc, 1), ..reg };
        let c1 = cpu;
        let v = m(ea);
        ((Cpu { reg: (Registers { cc: spec_ld8_flags(v, reg1.cc), ..reg1 }).with_b(v), ..c1 }), m)
    } else if opcode == 0xD7 {
        // STB
        let ea = word(reg.dp, m(reg.pc));
        let reg1 = Registers { pc: wadd(reg.pc, 1), ..reg };
        let c1 = cpu;
        let v = reg1.spec_b();
        ((Cpu { reg: (Registers { cc: spec_ld8_flags(v, reg1.cc), ..reg1 }), ..c1 }), store8(m, ea, v))
    } else if opcode == 0xD8 {
        // EORB
        let ea = word(reg.dp, m(reg.pc));
        let reg1 = Registers { pc: wadd(reg.pc, 1), ..reg };
        let c1 = cpu;
        let v = m(ea);
        let rc = spec_eor8(reg1.spec_b(), v, reg1.cc);
        ((Cpu { reg: (Registers { cc: rc.1, ..reg1 }).with_b(rc.0), ..c1 }), m)
    } else if opcode == 0xD9 {
        // ADCB
        let ea = word(reg.dp, m(reg.pc));
        let reg1 = Registers { pc: wadd(reg.pc, 1), ..reg };
        let c1 = cpu;
        let v = m(ea);
        let rc = spec_adc8(reg1.spec_b(), v, reg1.cc);
        ((Cpu { reg: (Registers { cc: rc.1, ..reg1 }).with_b(rc.0), ..c1 }), m)
    } else if opcode == 0xDA {
        // ORB
        let ea = word(reg.dp, m(reg.pc));
        let reg1 = Registers { pc: wadd(reg.pc, 1), ..reg };
        let c1 = cpu;
        let v = m(ea);
        let rc = spec_or8(reg1.spec_b(), v, reg1.cc);
        ((Cpu { reg: (Registers { cc: rc.1, ..reg1 }).with_b(rc.0), ..c1 }), m)
    } else if opcode == 0xDB {
        // ADDB
        let ea = word(reg.dp, m(reg.pc));
        let reg1 = Registers { pc: wadd(reg.pc, 1), ..reg };
        let c1 = cpu;
        let v = m(ea);
        let rc = spec_add8(reg1.spec_b(), v, reg1.cc);
        ((Cpu { reg: (Registers { cc: rc.1, ..reg1 }).with_b(rc.0), ..c1 }), m)
    } else if opcode == 0xDC {
        // LDD
        let ea = word(reg.dp, m(reg.pc));
        let reg1 = Registers { pc: wadd(reg.pc, 1), ..reg };
        let c1 = cpu;
        let w = word(m(ea), m(wadd(ea, 1)));
        ((Cpu { reg: (Registers { d: w, cc: spec_ld16_flags(w, reg1.cc), ..reg1 }), ..c1 }), m)
    } else if opcode == 0xDD {
        // STD
        let ea = word(reg.dp, m(reg.pc));
        let reg1 = Registers { pc: wadd(reg.pc, 1), ..reg };
        let c1 = cpu;
        let v = reg1.d;
        ((Cpu { reg: (Registers { cc: spec_ld16_flags(v, reg1.cc), ..reg1 }), ..c1 }), store8(store8(m, ea, hi8(v)), wadd(ea, 1), lo8(v)))
    } else if opcode == 0xDE {
        // LDU
        let ea = word(reg.dp, m(reg.pc));
        let reg1 = Registers { pc: wadd(reg.pc, 1), ..reg };
        let c1 = cpu;
        let w = word(m(ea), m(wadd(ea, 1)));
        ((Cpu { reg: (Registers { u: w, cc: spec_ld16_flags(w, reg1.cc), ..reg1 }), ..c1 }), m)
    } else if opcode == 0xDF {
        // STU
        let ea = word(reg.dp, m(reg.pc));
        let reg1 = Registers { pc: wadd(reg.pc, 1), ..reg };
        let c1 = cpu;
        let v = reg1.u;
        ((Cpu { reg: (Registers { cc: spec_ld16_flags(v, reg1.cc), ..reg1 }), ..c1 }), store8(store8(m, ea, hi8(v)), wadd(ea, 1), lo8(v)))
    } else {
        // unassigned opcode
        ((Cpu { illegal: true, ..cpu }), m)
    }
}

/// The effect of one opcode in 0xE0..0xEF on the whole CPU and memory.
pub open spec fn row_b_indexed_outcome(cpu: Cpu, m: spec_fn(u16) -> u8, opcode: u8) -> (Cpu, spec_fn(u16) -> u8) {
    let reg = cpu.reg;
    if opcode == 0xE0 {
        // SUBB
        let pre = indexed_outcome(reg, m);
        let ea = pre.0;
        let reg1 = pre.2;
        let c1 = Cpu {
            cycles: (cpu.cycles + pre.1) as u64,
            nmi_armed: cpu.nmi_armed || indexed_arms_s(m(reg.pc)),
            ..cpu
        };
        let v = m(ea);
        let rc = spec_sub8(reg1.spec_b(), v, reg1.cc);
        ((Cpu { reg: (Registers { cc: rc.1, ..reg1 }).with_b(rc.0), ..c1 }), m)
    } else if opcode == 0xE1 {
        // CMPB
        let pre = indexed_outcome(reg, m);
        let ea = pre.0;
        let reg1 = pre.2;
        let c1 = Cpu {
            cycles: (cpu.cycles + pre.1) as u64,
            nmi_armed: cpu.nmi_armed || indexed_arms_s(m(reg.pc)),
            ..cpu
        };
        let v = m(ea);
        let rc = spec_sub8(reg1.spec_b(), v, reg1.cc);
        ((Cpu { reg: (Registers { cc: rc.1, ..reg1 }), ..c1 }), m)
    } else if opcode == 0xE2 {
        // SBCB
        let pre = indexed_outcome(reg, m);
        let ea = pre.0;
        let reg1 = pre.2;
        let c1 = Cpu {
            cycles: (cpu.cycles + pre.1) as u64,
            nmi_armed: cpu.nmi_armed || indexed_arms_s(m(reg.pc)),
            ..cpu
        };
        let v = m(ea);
        let rc = spec_sbc8(reg1.spec_b(), v, reg1.cc);
        ((Cpu { reg: (Registers { cc: rc.1, ..reg1 }).with_b(rc.0), ..c1 }), m)
    } else if opcode == 0xE3 {
        // ADDD
        let pre = indexed_outcome(reg, m);
        let ea = pre.0;
        let reg1 = pre.2;
        let c1 = Cpu {
            cycles: (cpu.cycles + pre.1) as u64,
            nmi_armed: cpu.nmi_armed || indexed_arms_s(m(reg.pc)),
            ..cpu
        };
        let w = word(m(ea), m(wadd(ea, 1)));
        let rc = spec_add16(reg1.d, w, reg1.cc);
        ((Cpu { reg: (Registers { d: rc.0, cc: rc.1, ..reg1 }), ..c1 }), m)
    } else if opcode == 0xE4 {
        // ANDB
        let pre = indexed_outcome(reg, m);
        let ea = pre.0;
        let reg1 = pre.2;
        let c1 = Cpu {
            cycles: (cpu.cycles + pre.1) as u64,
            nmi_armed: cpu.nmi_armed || indexed_arms_s(m(reg.pc)),
            ..cpu
        };
        let v = m(ea);
        let rc = spec_and8(reg1.spec_b(), v, reg1.cc);
        ((Cpu { reg: (Registers { cc: rc.1, ..reg1 }).with_b(rc.0), ..c1 }), m)
    } else if opcode == 0xE5 {
        // BITB
        let pre = indexed_outcome(reg, m);
        let ea = pre.0;
        let reg1 = pre.2;
        let c1 = Cpu {
            cycles: (cpu.cycles + pre.1) as u64,
            nmi_armed: cpu.nmi_armed || indexed_arms_s(m(reg.pc)),
            ..cpu
        };
        let v = m(ea);
        let rc = spec_and8(reg1.spec_b(), v, reg1.cc);
        ((Cpu { reg: (Registers { cc: rc.1, ..reg1 }), ..c1 }), m)
    } else if opcode == 0xE6 {
        // LDB
        let pre = indexed_outcome(reg, m);
        let ea = pre.0;
        let reg1 = pre.2;
        let c1 = Cpu {
            cycles: (cpu.cycles + pre.1) as u64,
            nmi_armed: cpu.nmi_armed || indexed_arms_s(m(reg.pc)),
            ..cpu
        };
        let v = m(ea);
        ((Cpu { reg: (Registers { cc: spec_ld8_flags(v, reg1.cc), ..reg1 }).with_b(v), ..c1 }), m)
    } else if opcode == 0xE7 {
        // STB
        let pre = indexed_outcome(reg, m);
        let ea = pre.0;
        let reg1 = pre.2;
        let c1 = Cpu {
            cycles: (cpu.cycles + pre.1) as u64,
            nmi_armed: cpu.nmi_armed || indexed_arms_s(m(reg.pc)),
            ..cpu
        };
        let v = reg1.spec_b();
        ((Cpu { reg: (Registers { cc: spec_ld8_flags(v, reg1.cc), ..reg1 }), ..c1 }), store8(m, ea, v))
    } else if opcode == 0xE8 {
        // EORB
        let pre = indexed_outcome(reg, m);
        let ea = pre.0;
        let reg1 = pre.2;
        let c1 = Cpu {
            cycles: (cpu.cycles + pre.1) as u64,
            nmi_armed: cpu.nmi_armed || indexed_arms_s(m(reg.pc)),
            ..cpu
        };
        let v = m(ea);
        let rc = spec_eor8(reg1.spec_b(), v, reg1.cc);
        ((Cpu { reg: (Registers { cc: rc.1, ..reg1 }).with_b(rc.0), ..c1 }), m)
    } else if opcode == 0xE9 {
        // ADCB
        let pre = indexed_outcome(reg, m);
        let ea = pre.0;
        let reg1 = pre.2;
        let c1 = Cpu {
            cycles: (cpu.cycles + pre.1) as u64,
            nmi_armed: cpu.nmi_armed || indexed_arms_s(m(reg.pc)),
            ..cpu
        };
        let v = m(ea);
        let rc = spec_adc8(reg1.spec_b(), v, reg1.cc);
        ((Cpu { reg: (Registers { cc: rc.1, ..reg1 }).with_b(rc.0), ..c1 }), m)
    } else if opcode == 0xEA {
        // ORB
        let pre = indexed_outcome(reg, m);
        let ea = pre.0;
        let reg1 = pre.2;
        let c1 = Cpu {
            cycles: (cpu.cycles + pre.1) as u64,
            nmi_armed: cpu.nmi_armed || indexed_arms_s(m(reg.pc)),
            ..cpu
        };
        let v = m(ea);
        let rc = spec_or8(reg1.spec_b(), v, reg1.cc);
        ((Cpu { reg: (Registers { cc: rc.1, ..reg1 }).with_b(rc.0), ..c1 }), m)
    } else if opcode == 0xEB {
        // ADDB
        let pre = indexed_outcome(reg, m);
        let ea = pre.0;
        let reg1 = pre.2;
        let c1 = Cpu {
            cycles: (cpu.cycles + pre.1) as u64,
            nmi_armed: cpu.nmi_armed || indexed_arms_s(m(reg.pc)),
            ..cpu
        };
        let v = m(ea);
        let rc = spec_add8(reg1.spec_b(), v, reg1.cc);
        ((Cpu { reg: (Registers { cc: rc.1, ..reg1 }).with_b(rc.0), ..c1 }), m)
    } else if opcode == 0xEC {
        // LDD
        let pre = indexed_outcome(reg, m);
        let ea = pre.0;
        let reg1 = pre.2;
        let c1 = Cpu {
            cycles: (cpu.cycles + pre.1) as u64,
            nmi_armed: cpu.nmi_armed || indexed_arms_s(m(reg.pc)),
            ..cpu
        };
        let w = word(m(ea), m(wadd(ea, 1)));
        ((Cpu { reg: (Registers { d: w, cc: spec_ld16_flags(w, reg1.cc), ..reg1 }), ..c1 }), m)
    } else if opcode == 0xED {
        // STD
        let pre = indexed_outcome(reg, m);
        let ea = pre.0;
        let reg1 = pre.2;
        let c1 = Cpu {
            cycles: (cpu.cycles + pre.1) as u64,
            nmi_armed: cpu.nmi_armed || indexed_arms_s(m(reg.pc)),
            ..cpu
        };
        let v = reg1.d;
        ((Cpu { reg: (Registers { cc: spec_ld16_flags(v, reg1.cc), ..reg1 }), ..c1 }), store8(store8(m, ea, hi8(v)), wadd(ea, 1), lo8(v)))
    } else if opcode == 0xEE {
        // LDU
        let pre = indexed_outcome(reg, m);
        let ea = pre.0;
        let reg1 = pre.2;
        let c1 = Cpu {
            cycles: (cpu.cycles + pre.1) as u64,
            nmi_armed: cpu.nmi_armed || indexed_arms_s(m(reg.pc)),
            ..cpu
        };
        let w = word(m(ea), m(wadd(ea, 1)));
        ((Cpu { reg: (Registers { u: w, cc: spec_ld16_flags(w, reg1.cc), ..reg1 }), ..c1 }), m)
    } else if opcode == 0xEF {
        // STU
        let pre = indexed_outcome(reg, m);
        let ea = pre.0;
        let reg1 = pre.2;
        let c1 = Cpu {
            cycles: (cpu.cycles + pre.1) as u64,
            nmi_armed: cpu.nmi_armed || indexed_arms_s(m(reg.pc)),
            ..cpu
        };
        let v = reg1.u;
        ((Cpu { reg: (Registers { cc: spec_ld16_flags(v, reg1.cc), ..reg1 }), ..c1 }), store8(store8(m, ea, hi8(v)), wadd(ea, 1), lo8(v)))
    } else {
        // unassigned opcode
        ((Cpu { illegal: true, ..cpu }), m)
    }
}

/// The effect of one opcode in 0xF0..0xFF on the whole CPU and memory.
pub open spec fn row_b_extended_outcome(cpu: Cpu, m: spec_fn(u16) -> u8, opcode: u8) -> (Cpu, spec_fn(u16) -> u8) {
    let reg = cpu.reg;
    if opcode == 0xF0 {
        // SUBB
        let ea = word(m(reg.pc), m(wadd(reg.pc, 1)));
        let reg1 = Registers { pc: wadd(reg.pc, 2), ..reg };
        let c1 = cpu;
        let v = m(ea);
        let rc = spec_sub8(reg1.spec_b(), v, reg1.cc);
        ((Cpu { reg: (Registers { cc: rc.1, ..reg1 }).with_b(rc.0), ..c1 }), m)
    } else if opcode == 0xF1 {
        // CMPB
        let ea = word(m(reg.pc), m(wadd(reg.pc, 1)));
        let reg1 = Registers { pc: wadd(reg.pc, 2), ..reg };
        let c1 = cpu;
        let v = m(ea);
        let rc = spec_sub8(reg1.spec_b(), v, reg1.cc);
        ((Cpu { reg: (Registers { cc: rc.1, ..reg1 }), ..c1 }), m)
    } else if opcode == 0xF2 {
        // SBCB
        let ea = word(m(reg.pc), m(wadd(reg.pc, 1)));
        let reg1 = Registers { pc: wadd(reg.pc, 2), ..reg };
        let c1 = cpu;
        let v = m(ea);
        let rc = spec_sbc8(reg1.spec_b(), v, reg1.cc);
        ((Cpu { reg: (Registers { cc: rc.1, ..reg1 }).with_b(rc.0), ..c1 }), m)
    } else if opcode == 0xF3 {
        // ADDD
        let ea = word(m(reg.pc), m(wadd(reg.pc, 1)));
        let reg1 = Registers { pc: wadd(reg.pc, 2), ..reg };
        let c1 = cpu;
        let w = word(m(ea), m(wadd(ea, 1)));
        let rc = spec_add16(reg1.d, w, reg1.cc);
        ((Cpu { reg: (Registers { d: rc.0, cc: rc.1, ..reg1 }), ..c1 }), m)
    } else if opcode == 0xF4 {
        // ANDB
        let ea = word(m(reg.pc), m(wadd(reg.pc, 1)));
        let reg1 = Registers { pc: wadd(reg.pc, 2), ..reg };
        let c1 = cpu;
        let v = m(ea);
        let rc = spec_and8(reg1.spec_b(), v, reg1.cc);
        ((Cpu { reg: (Registers { cc: rc.1, ..reg1 }).with_b(rc.0), ..c1 }), m)
    } else if opcode == 0xF5 {
        // BITB
        let ea = word(m(reg.pc), m(wadd(reg.pc, 1)));
        let reg1 = Registers { pc: wadd(reg.pc, 2), ..reg };
        let c1 = cpu;
        let v = m(ea);
        let rc = spec_and8(reg1.spec_b(), v, reg1.cc);
        ((Cpu { reg: (Registers { cc: rc.1, ..reg1 }), ..c1 }), m)
    } else if opcode == 0xF6 {
        // LDB
        let ea = word(m(reg.pc), m(wadd(reg.pc, 1)));
        let reg1 = Registers { pc: wadd(reg.pc, 2), ..reg };
        let c1 = cpu;
        let v = m(ea);
        ((Cpu { reg: (Registers { cc: spec_ld8_flags(v, reg1.cc), ..reg1 }).with_b(v), ..c1 }), m)
    } else if opcode == 0xF7 {
        // STB
        let ea = word(m(reg.pc), m(wadd(reg.pc, 1)));
        let reg1 = Registers { pc: wadd(reg.pc, 2), ..reg };
        let c1 = cpu;
        let v = reg1.spec_b();
        ((Cpu { reg: (Registers { cc: spec_ld8_flags(v, reg1.cc), ..reg1 }), ..c1 }), store8(m, ea, v))
    } else if opcode == 0xF8 {
        // EORB
        let ea = word(m(reg.pc), m(wadd(reg.pc, 1)));
        let reg1 = Registers { pc: wadd(reg.pc, 2), ..reg };
        let c1 = cpu;
        let v = m(ea);
        let rc = spec_eor8(reg1.spec_b(), v, reg1.cc);
        ((Cpu { reg: (Registers { cc: rc.1, ..reg1 }).with_b(rc.0), ..c1 }), m)
    } else if opcode == 0xF9 {
        // ADCB
        let ea = word(m(reg.pc), m(wadd(reg.pc, 1)));
        let reg1 = Registers { pc: wadd(reg.pc, 2), ..reg };
        let c1 = cpu;
        let v = m(ea);
        let rc = spec_adc8(reg1.spec_b(), v, reg1.cc);
        ((Cpu { reg: (Registers { cc: rc.1, ..reg1 }).with_b(rc.0), ..c1 }), m)
    } else if opcode == 0xFA {
        // ORB
        let ea = word(m(reg.pc), m(wadd(reg.pc, 1)));
        let reg1 = Registers { pc: wadd(reg.pc, 2), ..reg };
        let c1 = cpu;
        let v = m(ea);
        let rc = spec_or8(reg1.spec_b(), v, reg1.cc);
        ((Cpu { reg: (Registers { cc: rc.1, ..reg1 }).with_b(rc.0), ..c1 }), m)
    } else if opcode == 0xFB {
        // ADDB
        let ea = word(m(reg.pc), m(wadd(reg.pc, 1)));
        let reg1 = Registers { pc: wadd(reg.pc, 2), ..reg };
        let c1 = cpu;
        let v = m(ea);
        let rc = spec_add8(reg1.spec_b(), v, reg1.cc);
        ((Cpu { reg: (Registers { cc: rc.1, ..reg1 }).with_b(rc.0), ..c1 }), m)
    } else if opcode == 0xFC {
        // LDD
        let ea = word(m(reg.pc), m(wadd(reg.pc, 1)));
        let reg1 = Registers { pc: wadd(reg.pc, 2), ..reg };
        let c1 = cpu;
        let w = word(m(ea), m(wadd(ea, 1)));
        ((Cpu { reg: (Registers { d: w, cc: spec_ld16_flags(w, reg1.cc), ..reg1 }), ..c1 }), m)
    } else if opcode == 0xFD {
        // STD
        let ea = word(m(reg.pc), m(wadd(reg.pc, 1)));
        let reg1 = Registers { pc: wadd(reg.pc, 2), ..reg };
        let c1 = cpu;
        let v = reg1.d;
        ((Cpu { reg: (Registers { cc: spec_ld16_flags(v, reg1.cc), ..reg1 }), ..c1 }), store8(store8(m, ea, hi8(v)), wadd(ea, 1), lo8(v)))
    } else if opcode == 0xFE {
        // LDU
        let ea = word(m(reg.pc), m(wadd(reg.pc, 1)));
        let reg1 = Registers { pc: wadd(reg.pc, 2), ..reg };
        let c1 = cpu;
        let w = word(m(ea), m(wadd(ea, 1)));
        ((Cpu { reg: (Registers { u: w, cc: spec_ld16_flags(w, reg1.cc), ..reg1 }), ..c1 }), m)
    } else if opcode == 0xFF {
        // STU
        let ea = word(m(reg.pc), m(wadd(reg.pc, 1)));
        let reg1 = Registers { pc: wadd(reg.pc, 2), ..reg };
        let c1 = cpu;
        let v = reg1.u;
        ((Cpu { reg: (Registers { cc: spec_ld16_flags(v, reg1.cc), ..reg1 }), ..c1 }), store8(store8(m, ea, hi8(v)), wadd(ea, 1), lo8(v)))
    } else {
        // unassigned opcode
        ((Cpu { illegal: true, ..cpu }), m)
    }
}

/// The effect of one opcode in 0x10..0x1F on the whole CPU and memory.
pub open spec fn row_misc_outcome(cpu: Cpu, m: spec_fn(u16) -> u8, opcode: u8) -> (
    Cpu,
    spec_fn(u16) -> u8,
) {
    let reg = cpu.reg;
    if opcode == 0x12 {
        // NOP
        (cpu, m)
    } else if opcode == 0x13 {
        // SYNC
        ((Cpu { sync: true, ..cpu }), m)
    } else if opcode == 0x16 {
        // LBRA
        let t = wadd(wadd(reg.pc, 2), word(m(reg.pc), m(wadd(reg.pc, 1))));
        ((Cpu { reg: (Registers { pc: t, ..reg }), ..cpu }), m)
    } else if opcode == 0x17 {
        // LBSR
        let t = wadd(wadd(reg.pc, 2), word(m(reg.pc), m(wadd(reg.pc, 1))));
        let ret = wadd(reg.pc, 2);
        let m2 = store8(store8(m, wsub(reg.s, 1), lo8(ret)), wsub(reg.s, 2), hi8(ret));
        ((Cpu { reg: (Registers { pc: t, s: wsub(reg.s, 2), ..reg }), ..cpu }), m2)
    } else if opcode == 0x19 {
        // DAA
        let rc = spec_daa(reg.spec_a(), reg.cc);
        ((Cpu { reg: (Registers { cc: rc.1, ..reg }).with_a(rc.0), ..cpu }), m)
    } else if opcode == 0x1A {
        // ORCC immediate
        let cc2 = cc_from_byte(reg.cc.as_byte() | m(reg.pc));
        ((Cpu { reg: (Registers { pc: wadd(reg.pc, 1), cc: cc2, ..reg }), ..cpu }), m)
    } else if opcode == 0x1C {
        // ANDCC immediate
        let cc2 = cc_from_byte(reg.cc.as_byte() & m(reg.pc));
        ((Cpu { reg: (Registers { pc: wadd(reg.pc, 1), cc: cc2, ..reg }), ..cpu }), m)
    } else if opcode == 0x1D {
        // SEX
        let rc = spec_sex(reg.spec_b(), reg.cc);
        ((Cpu { reg: (Registers { d: rc.0, cc: rc.1, ..reg }), ..cpu }), m)
    } else if opcode == 0x1E {
        // EXG
        let post = m(reg.pc);
        let reg1 = Registers { pc: wadd(reg.pc, 1), ..reg };
        let src = (post >> 4) & 0x0F;
        let dst = post & 0x0F;
        let to_src = if reg_code_is16(src) != reg_code_is16(dst) {
            if reg_code_is16(src) {
                0xFFFFu16
            } else {
                0xFFu16
            }
        } else {
            reg_code_val(reg1, dst)
        };
        let to_dst = if reg_code_is16(src) != reg_code_is16(dst) {
            if reg_code_is16(dst) {
                0xFFFFu16
            } else {
                0xFFu16
            }
        } else {
            reg_code_val(reg1, src)
        };
        (
            (Cpu {
                reg: reg_code_write(reg_code_write(reg1, src, to_src), dst, to_dst),
                nmi_armed: cpu.nmi_armed || src == 0x4 || dst == 0x4,
                ..cpu
            }),
            m,
        )
    } else if opcode == 0x1F {
        // TFR
        let post = m(reg.pc);
        let reg1 = Registers { pc: wadd(reg.pc, 1), ..reg };
        let src = (post >> 4) & 0x0F;
        let dst = post & 0x0F;
        (
            (Cpu {
                reg: reg_code_write(reg1, dst, tfr_moved_val(reg1, src, dst)),
                nmi_armed: cpu.nmi_armed || dst == 0x4,
                ..cpu
            }),
            m,
        )
    } else {
        // unassigned opcode (the page prefixes land here if dispatched)
        ((Cpu { illegal: true, ..cpu }), m)
    }
}

/// Whether a conditional branch is taken under these condition codes; the
/// page-1 long branches carry the same second-byte values 0x21..0x2F.
pub open spec fn branch_taken(cc: ConditionCodes, opcode: u8) -> bool {
    if opcode == 0x20 {
        true  // BRA
    } else if opcode == 0x21 {
        false  // BRN
    } else if opcode == 0x22 {
        !cc.c && !cc.z  // BHI
    } else if opcode == 0x23 {
        cc.c || cc.z  // BLS
    } else if opcode == 0x24 {
        !cc.c  // BHS/BCC
    } else if opcode == 0x25 {
        cc.c  // BLO/BCS
    } else if opcode == 0x26 {
        !cc.z  // BNE
    } else if opcode == 0x27 {
        cc.z  // BEQ
    } else if opcode == 0x28 {
        !cc.v  // BVC
    } else if opcode == 0x29 {
        cc.v  // BVS
    } else if opcode == 0x2A {
        !cc.n  // BPL
    } else if opcode == 0x2B {
        cc.n  // BMI
    } else if opcode == 0x2C {
        cc.n == cc.v  // BGE
    } else if opcode == 0x2D {
        cc.n != cc.v  // BLT
    } else if opcode == 0x2E {
        !cc.z && cc.n == cc.v  // BGT
    } else {
        cc.z || cc.n != cc.v  // BLE
    }
}

/// The effect of one short conditional branch (0x20..0x2F) on the CPU.
pub open spec fn row_branch_outcome(cpu: Cpu, m: spec_fn(u16) -> u8, opcode: u8) -> Cpu {
    let reg = cpu.reg;
    let t = wadd(wadd(reg.pc, 1), sign_ext8(m(reg.pc)));
    let pc2 = if branch_taken(reg.cc, opcode) {
        t
    } else {
        wadd(reg.pc, 1)
    };
    Cpu { reg: (Registers { pc: pc2, ..reg }), ..cpu }
}

/// The effect of one opcode in 0x30..0x3F on the whole CPU and memory.
pub open spec fn row_lea_stack_outcome(cpu: Cpu, m: spec_fn(u16) -> u8, opcode: u8) -> (
    Cpu,
    spec_fn(u16) -> u8,
) {
    let reg = cpu.reg;
    if opcode == 0x30 {
        // LEAX indexed: sets Z from the address
        let pre = indexed_outcome(reg, m);
        let reg2 = Registers { x: pre.0, cc: (ConditionCodes { z: pre.0 == 0, ..pre.2.cc }), ..pre.2 };
        (
            (Cpu {
                reg: reg2,
                cycles: (cpu.cycles + pre.1) as u64,
                nmi_armed: cpu.nmi_armed || indexed_arms_s(m(reg.pc)),
                ..cpu
            }),
            m,
        )
    } else if opcode == 0x31 {
        // LEAY indexed: sets Z from the address
        let pre = indexed_outcome(reg, m);
        let reg2 = Registers { y: pre.0, cc: (ConditionCodes { z: pre.0 == 0, ..pre.2.cc }), ..pre.2 };
        (
            (Cpu {
                reg: reg2,
                cycles: (cpu.cycles + pre.1) as u64,
                nmi_armed: cpu.nmi_armed || indexed_arms_s(m(reg.pc)),
                ..cpu
            }),
            m,
        )
    } else if opcode == 0x32 {
        // LEAS indexed: no flags; loading S arms the NMI input
        let pre = indexed_outcome(reg, m);
        (
            (Cpu {
                reg: (Registers { s: pre.0, ..pre.2 }),
                cycles: (cpu.cycles + pre.1) as u64,
                nmi_armed: true,
                ..cpu
            }),
            m,
        )
    } else if opcode == 0x33 {
        // LEAU indexed: no flags
        let pre = indexed_outcome(reg, m);
        (
            (Cpu {
                reg: (Registers { u: pre.0, ..pre.2 }),
                cycles: (cpu.cycles + pre.1) as u64,
                nmi_armed: cpu.nmi_armed || indexed_arms_s(m(reg.pc)),
                ..cpu
            }),
            m,
        )
    } else if opcode == 0x34 {
        // PSHS
        let mask = m(reg.pc);
        let reg1 = Registers { pc: wadd(reg.pc, 1), ..reg };
        let st = psh_bundle(reg1, m, true, reg1.u, mask);
        ((Cpu { reg: st.0, cycles: (cpu.cycles + st.2) as u64, ..cpu }), st.1)
    } else if opcode == 0x35 {
        // PULS
        let mask = m(reg.pc);
        let reg1 = Registers { pc: wadd(reg.pc, 1), ..reg };
        let st = pul_bundle(reg1, m, true, mask);
        ((Cpu { reg: st.0, cycles: (cpu.cycles + st.1) as u64, ..cpu }), m)
    } else if opcode == 0x36 {
        // PSHU
        let mask = m(reg.pc);
        let reg1 = Registers { pc: wadd(reg.pc, 1), ..reg };
        let st = psh_bundle(reg1, m, false, reg1.s, mask);
        ((Cpu { reg: st.0, cycles: (cpu.cycles + st.2) as u64, ..cpu }), st.1)
    } else if opcode == 0x37 {
        // PULU
        let mask = m(reg.pc);
        let reg1 = Registers { pc: wadd(reg.pc, 1), ..reg };
        let st = pul_bundle(reg1, m, false, mask);
        (
            (Cpu {
                reg: st.0,
                cycles: (cpu.cycles + st.1) as u64,
                nmi_armed: cpu.nmi_armed || mask & 0x40 != 0,
                ..cpu
            }),
            m,
        )
    } else if opcode == 0x39 {
        // RTS
        let pc2 = word(m(reg.s), m(wadd(reg.s, 1)));
        ((Cpu { reg: (Registers { pc: pc2, s: wadd(reg.s, 2), ..reg }), ..cpu }), m)
    } else if opcode == 0x3A {
        // ABX
        ((Cpu { reg: (Registers { x: wadd(reg.x, reg.spec_b() as u16), ..reg }), ..cpu }), m)
    } else if opcode == 0x3B {
        // RTI
        let cc1 = cc_from_byte(m(reg.s));
        if cc1.e {
            (
                (Cpu {
                    reg: (Registers {
                        cc: cc1,
                        d: word(m(wadd(reg.s, 1)), m(wadd(reg.s, 2))),
                        dp: m(wadd(reg.s, 3)),
                        x: word(m(wadd(reg.s, 4)), m(wadd(reg.s, 5))),
                        y: word(m(wadd(reg.s, 6)), m(wadd(reg.s, 7))),
                        u: word(m(wadd(reg.s, 8)), m(wadd(reg.s, 9))),
                        pc: word(m(wadd(reg.s, 10)), m(wadd(reg.s, 11))),
                        s: wadd(reg.s, 12),
                    }),
                    cycles: (cpu.cycles + 9) as u64,
                    ..cpu
                }),
                m,
            )
        } else {
            (
                (Cpu {
                    reg: (Registers {
                        cc: cc1,
                        pc: word(m(wadd(reg.s, 1)), m(wadd(reg.s, 2))),
                        s: wadd(reg.s, 3),
                        ..reg
                    }),
                    ..cpu
                }),
                m,
            )
        }
    } else if opcode == 0x3C {
        // CWAI: mask CC, set E, push the entire state, park
        let cc2 = ConditionCodes { e: true, ..cc_from_byte(reg.cc.as_byte() & m(reg.pc)) };
        let reg2 = Registers { pc: wadd(reg.pc, 1), cc: cc2, ..reg };
        let m2 = entire_frame_fn(reg2, reg2.s, m);
        ((Cpu { reg: (Registers { s: wsub(reg2.s, 12), ..reg2 }), cwai: true, ..cpu }), m2)
    } else if opcode == 0x3D {
        // MUL
        let rc = spec_mul(reg.spec_a(), reg.spec_b(), reg.cc);
        ((Cpu { reg: (Registers { d: rc.0, cc: rc.1, ..reg }), ..cpu }), m)
    } else if opcode == 0x3E {
        // RESET (undocumented): halt
        ((Cpu { halted: true, ..cpu }), m)
    } else if opcode == 0x3F {
        // SWI: set E, push the entire state, mask I and F, vector
        let cc1 = ConditionCodes { e: true, ..reg.cc };
        let reg1 = Registers { cc: cc1, ..reg };
        let m2 = entire_frame_fn(reg1, reg1.s, m);
        let cc2 = ConditionCodes { i: true, f: true, ..cc1 };
        (
            (Cpu {
                reg: (Registers {
                    cc: cc2,
                    pc: word(m2(VEC_SWI), m2(wadd(VEC_SWI, 1))),
                    s: wsub(reg.s, 12),
                    ..reg
                }),
                ..cpu
            }),
            m2,
        )
    } else {
        // unassigned opcode
        ((Cpu { illegal: true, ..cpu }), m)
    }
}

/// The full effect of one page-0 opcode: the base cycle charge, then the
/// row's own effect.
pub open spec fn page0_outcome(cpu: Cpu, m: spec_fn(u16) -> u8, opcode: u8) -> (
    Cpu,
    spec_fn(u16) -> u8,
) {
    let c = Cpu { cycles: (cpu.cycles + page0_base(opcode)) as u64, ..cpu };
    if opcode < 0x10 {
        row_direct_rmw_outcome(c, m, opcode)
    } else if opcode < 0x20 {
        row_misc_outcome(c, m, opcode)
    } else if opcode < 0x30 {
        (row_branch_outcome(c, m, opcode), m)
    } else if opcode < 0x40 {
        row_lea_stack_outcome(c, m, opcode)
    } else if opcode < 0x50 {
        (row_inherent_a_outcome(c, opcode), m)
    } else if opcode < 0x60 {
        (row_inherent_b_outcome(c, opcode), m)
    } else if opcode < 0x70 {
        row_indexed_rmw_outcome(c, m, opcode)
    } else if opcode < 0x80 {
        row_extended_rmw_outcome(c, m, opcode)
    } else if opcode < 0x90 {
        row_a_imm_outcome(c, m, opcode)
    } else if opcode < 0xA0 {
        row_a_direct_outcome(c, m, opcode)
    } else if opcode < 0xB0 {
        row_a_indexed_outcome(c, m, opcode)
    } else if opcode < 0xC0 {
        row_a_extended_outcome(c, m, opcode)
    } else if opcode < 0xD0 {
        row_b_imm_outcome(c, m, opcode)
    } else if opcode < 0xE0 {
        row_b_direct_outcome(c, m, opcode)
    } else if opcode < 0xF0 {
        row_b_indexed_outcome(c, m, opcode)
    } else {
        row_b_extended_outcome(c, m, opcode)
    }
}

} // verus!
