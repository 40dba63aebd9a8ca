//! Page 1 opcode implementations (prefix `0x10`): long conditional branches,
//! SWI2, CMPD, CMPY, LDY/STY and LDS/STS.

use vstd::prelude::*;

use crate::addressing::{indexed_arms_s, indexed_outcome};
use crate::alu;
use crate::alu::{spec_ld16_flags, spec_sub16};
use crate::bus::{mem_fn, store8, Bus};
use crate::cpu::{entire_frame_fn, Cpu, VEC_SWI2};
use crate::opcodes::page0::branch_taken;
use crate::registers::{ConditionCodes, Registers};
use crate::words::{hi8, lo8, wadd, word, wsub};

verus! {

/// Base cycle count of each page-1 opcode. Long branches charge one more
/// when taken; unassigned entries are 0 (the prefix placeholder cycle is
/// charged when one is executed).
pub open spec fn page1_base(op: u8) -> u8 {
    if 0x21 <= op && op <= 0x2F {
        5
    } else if op == 0x3F {
        20
    } else if op == 0x83 || op == 0x8C {
        5
    } else if op == 0x8E || op == 0xCE {
        4
    } else if op == 0x93 || op == 0x9C || op == 0xA3 || op == 0xAC {
        7
    } else if op == 0x9E || op == 0x9F || op == 0xAE || op == 0xAF {
        6
    } else if op == 0xB3 || op == 0xBC {
        8
    } else if op == 0xBE || op == 0xBF || op == 0xFE || op == 0xFF {
        7
    } else if op == 0xDE || op == 0xDF || op == 0xEE || op == 0xEF {
        6
    } else {
        0
    }
}

/// Executable mirror of [`page1_base`].
pub fn page1_cycles(op: u8) -> (c: u8)
    ensures
        c == page1_base(op),
        c <= 20,
{
    if 0x21 <= op && op <= 0x2F {
        5
    } else if op == 0x3F {
        20
    } else if op == 0x83 || op == 0x8C {
        5
    } else if op == 0x8E || op == 0xCE {
        4
    } else if op == 0x93 || op == 0x9C || op == 0xA3 || op == 0xAC {
        7
    } else if op == 0x9E || op == 0x9F || op == 0xAE || op == 0xAF {
        6
    } else if op == 0xB3 || op == 0xBC {
        8
    } else if op == 0xBE || op == 0xBF || op == 0xFE || op == 0xFF {
        7
    } else if op == 0xDE || op == 0xDF || op == 0xEE || op == 0xEF {
        6
    } else {
        0
    }
}

/// The second bytes that name a page-1 instruction.
pub open spec fn page1_legal(op: u8) -> bool {
    ||| (0x21 <= op && op <= 0x2F)
    ||| op == 0x3F
    ||| op == 0x83
    ||| op == 0x8C
    ||| op == 0x8E
    ||| op == 0x93
    ||| op == 0x9C
    ||| op == 0x9E
    ||| op == 0x9F
    ||| op == 0xA3
    ||| op == 0xAC
    ||| op == 0xAE
    ||| op == 0xAF
    ||| op == 0xB3
    ||| op == 0xBC
    ||| op == 0xBE
    ||| op == 0xBF
    ||| op == 0xCE
    ||| op == 0xDE
    ||| op == 0xDF
    ||| op == 0xEE
    ||| op == 0xEF
    ||| op == 0xFE
    ||| op == 0xFF
}

/// The full effect of one page-1 opcode (the second byte after the `0x10`
/// prefix): the base cycle charge, then the instruction's own effect.
pub open spec fn page1_outcome(cpu: Cpu, m: spec_fn(u16) -> u8, opcode: u8) -> (
    Cpu,
    spec_fn(u16) -> u8,
) {
    let c = Cpu { cycles: (cpu.cycles + page1_base(opcode)) as u64, ..cpu };
    let reg = c.reg;
    if 0x21 <= opcode && opcode < 0x30 {
        // long conditional branch: one more cycle when taken
        let t = wadd(wadd(reg.pc, 2), word(m(reg.pc), m(wadd(reg.pc, 1))));
        if branch_taken(reg.cc, opcode) {
            ((Cpu { reg: (Registers { pc: t, ..reg }), cycles: (c.cycles + 1) as u64, ..c }), m)
        } else {
            ((Cpu { reg: (Registers { pc: wadd(reg.pc, 2), ..reg }), ..c }), m)
        }
    } else if opcode == 0x3F {
        // SWI2: pushes the entire state but masks nothing
        let cc1 = ConditionCodes { e: true, ..reg.cc };
        let reg1 = Registers { cc: cc1, ..reg };
        let m2 = entire_frame_fn(reg1, reg1.s, m);
        (
            (Cpu {
                reg: (Registers {
                    cc: cc1,
                    pc: word(m2(VEC_SWI2), m2(wadd(VEC_SWI2, 1))),
                    s: wsub(reg.s, 12),
                    ..reg
                }),
                ..c
            }),
            m2,
        )
    } else if opcode == 0x83 {
        // CMPD immediate
        let w = word(m(reg.pc), m(wadd(reg.pc, 1)));
        let reg1 = Registers { pc: wadd(reg.pc, 2), ..reg };
        let c1 = c;
        let rc = spec_sub16(reg1.d, w, reg1.cc);
        ((Cpu { reg: (Registers { cc: rc.1, ..reg1 }), ..c1 }), m)
    } else if opcode == 0x93 {
        // CMPD direct
        let ea = word(reg.dp, m(reg.pc));
        let reg1 = Registers { pc: wadd(reg.pc, 1), ..reg };
        let c1 = c;
        let w = word(m(ea), m(wadd(ea, 1)));
        let rc = spec_sub16(reg1.d, w, reg1.cc);
        ((Cpu { reg: (Registers { cc: rc.1, ..reg1 }), ..c1 }), m)
    } else if opcode == 0xA3 {
        // CMPD indexed
        let pre = indexed_outcome(reg, m);
        let ea = pre.0;
        let reg1 = pre.2;
        let c1 = Cpu {
            cycles: (c.cycles + pre.1) as u64,
            nmi_armed: c.nmi_armed || indexed_arms_s(m(reg.pc)),
            ..c
        };
        let w = word(m(ea), m(wadd(ea, 1)));
        let rc = spec_sub16(reg1.d, w, reg1.cc);
        ((Cpu { reg: (Registers { cc: rc.1, ..reg1 }), ..c1 }), m)
    } else if opcode == 0xB3 {
        // CMPD extended
        let ea = word(m(reg.pc), m(wadd(reg.pc, 1)));
        let reg1 = Registers { pc: wadd(reg.pc, 2), ..reg };
        let c1 = c;
        let w = word(m(ea), m(wadd(ea, 1)));
        let rc = spec_sub16(reg1.d, w, reg1.cc);
        ((Cpu { reg: (Registers { cc: rc.1, ..reg1 }), ..c1 }), m)
    } else if opcode == 0x8C {
        // CMPY immediate
        let w = word(m(reg.pc), m(wadd(reg.pc, 1)));
        let reg1 = Registers { pc: wadd(reg.pc, 2), ..reg };
        let c1 = c;
        let rc = spec_sub16(reg1.y, w, reg1.cc);
        ((Cpu { reg: (Registers { cc: rc.1, ..reg1 }), ..c1 }), m)
    } else if opcode == 0x9C {
        // CMPY direct
        let ea = word(reg.dp, m(reg.pc));
        let reg1 = Registers { pc: wadd(reg.pc, 1), ..reg };
        let c1 = c;
        let w = word(m(ea), m(wadd(ea, 1)));
        let rc = spec_sub16(reg1.y, w, reg1.cc);
        ((Cpu { reg: (Registers { cc: rc.1, ..reg1 }), ..c1 }), m)
    } else if opcode == 0xAC {
        // CMPY indexed
        let pre = indexed_outcome(reg, m);
        let ea = pre.0;
        let reg1 = pre.2;
        let c1 = Cpu {
            cycles: (c.cycles + pre.1) as u64,
            nmi_armed: c.nmi_armed || indexed_arms_s(m(reg.pc)),
            ..c
        };
        let w = word(m(ea), m(wadd(ea, 1)));
        let rc = spec_sub16(reg1.y, w, reg1.cc);
        ((Cpu { reg: (Registers { cc: rc.1, ..reg1 }), ..c1 }), m)
    } else if opcode == 0xBC {
        // CMPY extended
        let ea = word(m(reg.pc), m(wadd(reg.pc, 1)));
        let reg1 = Registers { pc: wadd(reg.pc, 2), ..reg };
        let c1 = c;
        let w = word(m(ea), m(wadd(ea, 1)));
        let rc = spec_sub16(reg1.y, w, reg1.cc);
        ((Cpu { reg: (Registers { cc: rc.1, ..reg1 }), ..c1 }), m)
    } else if opcode == 0x8E {
        // LDY immediate
        let w = word(m(reg.pc), m(wadd(reg.pc, 1)));
        let reg1 = Registers { pc: wadd(reg.pc, 2), ..reg };
        let c1 = c;
        ((Cpu { reg: (Registers { y: w, cc: spec_ld16_flags(w, reg1.cc), ..reg1 }), ..c1 }), m)
    } else if opcode == 0x9E {
        // LDY direct
        let ea = word(reg.dp, m(reg.pc));
        let reg1 = Registers { pc: wadd(reg.pc, 1), ..reg };
        let c1 = c;
        let w = word(m(ea), m(wadd(ea, 1)));
        ((Cpu { reg: (Registers { y: w, cc: spec_ld16_flags(w, reg1.cc), ..reg1 }), ..c1 }), m)
    } else if opcode == 0x9F {
        // STY direct
        let ea = word(reg.dp, m(reg.pc));
        let reg1 = Registers { pc: wadd(reg.pc, 1), ..reg };
        let c1 = c;
        let v = reg1.y;
        (
            (Cpu { reg: (Registers { cc: spec_ld16_flags(v, reg1.cc), ..reg1 }), ..c1 }),
            store8(store8(m, ea, hi8(v)), wadd(ea, 1), lo8(v)),
        )
    } else if opcode == 0xAE {
        // LDY indexed
        let pre = indexed_outcome(reg, m);
        let ea = pre.0;
        let reg1 = pre.2;
        let c1 = Cpu {
            cycles: (c.cycles + pre.1) as u64,
            nmi_armed: c.nmi_armed || indexed_arms_s(m(reg.pc)),
            ..c
        };
        let w = word(m(ea), m(wadd(ea, 1)));
        ((Cpu { reg: (Registers { y: w, cc: spec_ld16_flags(w, reg1.cc), ..reg1 }), ..c1 }), m)
    } else if opcode == 0xAF {
        // STY indexed
        let pre = indexed_outcome(reg, m);
        let ea = pre.0;
        let reg1 = pre.2;
        let c1 = Cpu {
            cycles: (c.cycles + pre.1) as u64,
            nmi_armed: c.nmi_armed || indexed_arms_s(m(reg.pc)),
            ..c
        };
        let v = reg1.y;
        (
            (Cpu { reg: (Registers { cc: spec_ld16_flags(v, reg1.cc), ..reg1 }), ..c1 }),
            store8(store8(m, ea, hi8(v)), wadd(ea, 1), lo8(v)),
        )
    } else if opcode == 0xBE {
        // LDY extended
        let ea = word(m(reg.pc), m(wadd(reg.pc, 1)));
        let reg1 = Registers { pc: wadd(reg.pc, 2), ..reg };
        let c1 = c;
        let w = word(m(ea), m(wadd(ea, 1)));
        ((Cpu { reg: (Registers { y: w, cc: spec_ld16_flags(w, reg1.cc), ..reg1 }), ..c1 }), m)
    } else if opcode == 0xBF {
        // STY extended
        let ea = word(m(reg.pc), m(wadd(reg.pc, 1)));
        let reg1 = Registers { pc: wadd(reg.pc, 2), ..reg };
        let c1 = c;
        let v = reg1.y;
        (
            (Cpu { reg: (Registers { cc: spec_ld16_flags(v, reg1.cc), ..reg1 }), ..c1 }),
            store8(store8(m, ea, hi8(v)), wadd(ea, 1), lo8(v)),
        )
    } else if opcode == 0xCE {
        // LDS immediate (arms the NMI input)
        let w = word(m(reg.pc), m(wadd(reg.pc, 1)));
        let reg1 = Registers { pc: wadd(reg.pc, 2), ..reg };
        let c1 = c;
        (
            (Cpu {
                reg: (Registers { s: w, cc: spec_ld16_flags(w, reg1.cc), ..reg1 }),
                nmi_armed: true,
                ..c1
            }),
            m,
        )
    } else if opcode == 0xDE {
        // LDS direct (arms the NMI input)
        let ea = word(reg.dp, m(reg.pc));
        let reg1 = Registers { pc: wadd(reg.pc, 1), ..reg };
        let c1 = c;
        let w = word(m(ea), m(wadd(ea, 1)));
        (
            (Cpu {
                reg: (Registers { s: w, cc: spec_ld16_flags(w, reg1.cc), ..reg1 }),
                nmi_armed: true,
                ..c1
            }),
            m,
        )
    } else if opcode == 0xDF {
        // STS direct
        let ea = word(reg.dp, m(reg.pc));
        let reg1 = Registers { pc: wadd(reg.pc, 1), ..reg };
        let c1 = c;
        let v = reg1.s;
        (
            (Cpu { reg: (Registers { cc: spec_ld16_flags(v, reg1.cc), ..reg1 }), ..c1 }),
            store8(store8(m, ea, hi8(v)), wadd(ea, 1), lo8(v)),
        )
    } else if opcode == 0xEE {
        // LDS indexed (arms the NMI input)
        let pre = indexed_outcome(reg, m);
        let ea = pre.0;
        let reg1 = pre.2;
        let c1 = Cpu {
            cycles: (c.cycles + pre.1) as u64,
            nmi_armed: c.nmi_armed || indexed_arms_s(m(reg.pc)),
            ..c
        };
        let w = word(m(ea), m(wadd(ea, 1)));
        (
            (Cpu {
                reg: (Registers { s: w, cc: spec_ld16_flags(w, reg1.cc), ..reg1 }),
                nmi_armed: true,
                ..c1
            }),
            m,
        )
    } else if opcode == 0xEF {
        // STS indexed
        let pre = indexed_outcome(reg, m);
        let ea = pre.0;
        let reg1 = pre.2;
        let c1 = Cpu {
            cycles: (c.cycles + pre.1) as u64,
            nmi_armed: c.nmi_armed || indexed_arms_s(m(reg.pc)),
            ..c
        };
        let v = reg1.s;
        (
            (Cpu { reg: (Registers { cc: spec_ld16_flags(v, reg1.cc), ..reg1 }), ..c1 }),
            store8(store8(m, ea, hi8(v)), wadd(ea, 1), lo8(v)),
        )
    } else if opcode == 0xFE {
        // LDS extended (arms the NMI input)
        let ea = word(m(reg.pc), m(wadd(reg.pc, 1)));
        let reg1 = Registers { pc: wadd(reg.pc, 2), ..reg };
        let c1 = c;
        let w = word(m(ea), m(wadd(ea, 1)));
        (
            (Cpu {
                reg: (Registers { s: w, cc: spec_ld16_flags(w, reg1.cc), ..reg1 }),
                nmi_armed: true,
                ..c1
            }),
            m,
        )
    } else if opcode == 0xFF {
        // STS extended
        let ea = word(m(reg.pc), m(wadd(reg.pc, 1)));
        let reg1 = Registers { pc: wadd(reg.pc, 2), ..reg };
        let c1 = c;
        let v = reg1.s;
        (
            (Cpu { reg: (Registers { cc: spec_ld16_flags(v, reg1.cc), ..reg1 }), ..c1 }),
            store8(store8(m, ea, hi8(v)), wadd(ea, 1), lo8(v)),
        )
    } else {
        // unassigned second byte: the placeholder cycle, marked illegal
        ((Cpu { cycles: (c.cycles + 1) as u64, illegal: true, ..c }), m)
    }
}

/// Long conditional branches (second byte 0x21..0x2F): a 16-bit signed
/// offset, one extra cycle when taken.
#[verifier::rlimit(100)]
#[verifier::spinoff_prover]
fn long_branch<B: Bus>(cpu: &mut Cpu, bus: &B, opcode: u8)
    requires
        old(cpu).wf(),
        !old(cpu).cwai,
        !old(cpu).sync,
        0x21 <= opcode < 0x30,
        old(cpu).cycles <= u64::MAX - 43,
    ensures
        final(cpu).wf(),
        old(cpu).cycles <= final(cpu).cycles <= old(cpu).cycles + 1,
        old(cpu).nmi_armed ==> final(cpu).nmi_armed,
        final(cpu).halted == old(cpu).halted,
        final(cpu).illegal == old(cpu).illegal,
        final(cpu).nmi_pending == old(cpu).nmi_pending,
        final(cpu).firq_line == old(cpu).firq_line,
        final(cpu).irq_line == old(cpu).irq_line,
        final(cpu).sync == old(cpu).sync,
        final(cpu).cwai == old(cpu).cwai,
        *final(cpu) == (if branch_taken(old(cpu).reg.cc, opcode) {
            (Cpu {
                reg: (Registers {
                    pc: wadd(wadd(old(cpu).reg.pc, 2), word(bus.mem(old(cpu).reg.pc), bus.mem(wadd(old(cpu).reg.pc, 1)))),
                    ..old(cpu).reg
                }),
                cycles: (old(cpu).cycles + 1) as u64,
                ..*old(cpu)
            })
        } else {
            (Cpu { reg: (Registers { pc: wadd(old(cpu).reg.pc, 2), ..old(cpu).reg }), ..*old(cpu) })
        }),
{
    let addr = cpu.addr_relative16(bus);
    let taken: bool = match opcode {
        0x21 => false,  // LBRN
        0x22 => !cpu.reg.cc.carry() && !cpu.reg.cc.zero(),  // LBHI
        0x23 => cpu.reg.cc.carry() || cpu.reg.cc.zero(),  // LBLS
        0x24 => !cpu.reg.cc.carry(),  // LBHS/LBCC
        0x25 => cpu.reg.cc.carry(),  // LBLO/LBCS
        0x26 => !cpu.reg.cc.zero(),  // LBNE
        0x27 => cpu.reg.cc.zero(),  // LBEQ
        0x28 => !cpu.reg.cc.overflow(),  // LBVC
        0x29 => cpu.reg.cc.overflow(),  // LBVS
        0x2A => !cpu.reg.cc.negative(),  // LBPL
        0x2B => cpu.reg.cc.negative(),  // LBMI
        0x2C => cpu.reg.cc.negative() == cpu.reg.cc.overflow(),  // LBGE
        0x2D => cpu.reg.cc.negative() != cpu.reg.cc.overflow(),  // LBLT
        0x2E => !cpu.reg.cc.zero() && cpu.reg.cc.negative() == cpu.reg.cc.overflow(),  // LBGT
        _ => cpu.reg.cc.zero() || cpu.reg.cc.negative() != cpu.reg.cc.overflow(),  // LBLE
    };
    if taken {
        cpu.reg.pc = addr;
        cpu.cycles = cpu.cycles + 1;
    }
}

/// SWI2 (second byte 0x3F): the entire state is pushed, nothing is masked.
#[verifier::rlimit(100)]
#[verifier::spinoff_prover]
fn p1_swi2<B: Bus>(cpu: &mut Cpu, bus: &mut B, opcode: u8)
    requires
        opcode == 0x3F,
        old(cpu).wf(),
        !old(cpu).cwai,
        !old(cpu).sync,
        old(cpu).cycles <= u64::MAX - 64,
    ensures
        final(cpu).wf(),
        old(cpu).cycles + page1_base(opcode) <= final(cpu).cycles,
        old(cpu).cycles < final(cpu).cycles <= old(cpu).cycles + 43,
        old(cpu).nmi_armed ==> final(cpu).nmi_armed,
        final(cpu).halted == old(cpu).halted,
        final(cpu).illegal == (old(cpu).illegal || !page1_legal(opcode)),
        final(cpu).nmi_pending == old(cpu).nmi_pending,
        final(cpu).firq_line == old(cpu).firq_line,
        final(cpu).irq_line == old(cpu).irq_line,
        final(cpu).sync == old(cpu).sync,
        final(cpu).cwai == old(cpu).cwai,
        ({
            let o = page1_outcome(*old(cpu), mem_fn(old(bus)), opcode);
            &&& *final(cpu) == o.0
            &&& (forall|a: u16| final(bus).mem(a) == (o.1)(a))
        }),
{
    let base = page1_cycles(opcode);
    cpu.cycles = cpu.cycles + base as u64;
    match opcode {
        0x3F => {
            // SWI2: pushes the entire state but masks nothing
            cpu.reg.cc.set_entire(true);
            cpu.push_entire_state(bus);
            cpu.reg.pc = bus.read_word(VEC_SWI2);
        },
        _ => {
            proof {
                assert(false);
            }
        },
    }
}

/// The CMPD and CMPY forms of page 1.
#[verifier::rlimit(100)]
#[verifier::spinoff_prover]
fn p1_cmp16<B: Bus>(cpu: &mut Cpu, bus: &mut B, opcode: u8)
    requires
        opcode == 0x83 || opcode == 0x93 || opcode == 0xA3 || opcode == 0xB3 || opcode == 0x8C || opcode == 0x9C || opcode == 0xAC || opcode == 0xBC,
        old(cpu).wf(),
        !old(cpu).cwai,
        !old(cpu).sync,
        old(cpu).cycles <= u64::MAX - 64,
    ensures
        final(cpu).wf(),
        old(cpu).cycles + page1_base(opcode) <= final(cpu).cycles,
        old(cpu).cycles < final(cpu).cycles <= old(cpu).cycles + 43,
        old(cpu).nmi_armed ==> final(cpu).nmi_armed,
        final(cpu).halted == old(cpu).halted,
        final(cpu).illegal == (old(cpu).illegal || !page1_legal(opcode)),
        final(cpu).nmi_pending == old(cpu).nmi_pending,
        final(cpu).firq_line == old(cpu).firq_line,
        final(cpu).irq_line == old(cpu).irq_line,
        final(cpu).sync == old(cpu).sync,
        final(cpu).cwai == old(cpu).cwai,
        ({
            let o = page1_outcome(*old(cpu), mem_fn(old(bus)), opcode);
            &&& *final(cpu) == o.0
            &&& (forall|a: u16| final(bus).mem(a) == (o.1)(a))
        }),
{
    let base = page1_cycles(opcode);
    cpu.cycles = cpu.cycles + base as u64;
    match opcode {
        0x83 => {
            // CMPD immediate
            let w = cpu.fetch_word(bus);
            let d = cpu.reg.d;
            alu::sub16(d, w, &mut cpu.reg.cc);
        },
        0x93 => {
            // CMPD direct
            let addr = cpu.addr_direct(bus);
            let w = bus.read_word(addr);
            let d = cpu.reg.d;
            alu::sub16(d, w, &mut cpu.reg.cc);
        },
        0xA3 => {
            // CMPD indexed
            let (addr, ex) = cpu.addr_indexed(bus);
            cpu.cycles = cpu.cycles + ex as u64;
            let w = bus.read_word(addr);
            let d = cpu.reg.d;
            alu::sub16(d, w, &mut cpu.reg.cc);
        },
        0xB3 => {
            // CMPD extended
            let addr = cpu.addr_extended(bus);
            let w = bus.read_word(addr);
            let d = cpu.reg.d;
            alu::sub16(d, w, &mut cpu.reg.cc);
        },
        0x8C => {
            // CMPY immediate
            let w = cpu.fetch_word(bus);
            let y = cpu.reg.y;
            alu::sub16(y, w, &mut cpu.reg.cc);
        },
        0x9C => {
            // CMPY direct
            let addr = cpu.addr_direct(bus);
            let w = bus.read_word(addr);
            let y = cpu.reg.y;
            alu::sub16(y, w, &mut cpu.reg.cc);
        },
        0xAC => {
            // CMPY indexed
            let (addr, ex) = cpu.addr_indexed(bus);
            cpu.cycles = cpu.cycles + ex as u64;
            let w = bus.read_word(addr);
            let y = cpu.reg.y;
            alu::sub16(y, w, &mut cpu.reg.cc);
        },
        0xBC => {
            // CMPY extended
            let addr = cpu.addr_extended(bus);
            let w = bus.read_word(addr);
            let y = cpu.reg.y;
            alu::sub16(y, w, &mut cpu.reg.cc);
        },
        _ => {
            proof {
                assert(false);
            }
        },
    }
}

/// The LDY and STY forms of page 1.
#[verifier::rlimit(100)]
#[verifier::spinoff_prover]
fn p1_ldy_sty<B: Bus>(cpu: &mut Cpu, bus: &mut B, opcode: u8)
    requires
        opcode == 0x8E || opcode == 0x9E || opcode == 0x9F || opcode == 0xAE || opcode == 0xAF || opcode == 0xBE || opcode == 0xBF,
        old(cpu).wf(),
        !old(cpu).cwai,
        !old(cpu).sync,
        old(cpu).cycles <= u64::MAX - 64,
    ensures
        final(cpu).wf(),
        old(cpu).cycles + page1_base(opcode) <= final(cpu).cycles,
        old(cpu).cycles < final(cpu).cycles <= old(cpu).cycles + 43,
        old(cpu).nmi_armed ==> final(cpu).nmi_armed,
        final(cpu).halted == old(cpu).halted,
        final(cpu).illegal == (old(cpu).illegal || !page1_legal(opcode)),
        final(cpu).nmi_pending == old(cpu).nmi_pending,
        final(cpu).firq_line == old(cpu).firq_line,
        final(cpu).irq_line == old(cpu).irq_line,
        final(cpu).sync == old(cpu).sync,
        final(cpu).cwai == old(cpu).cwai,
        ({
            let o = page1_outcome(*old(cpu), mem_fn(old(bus)), opcode);
            &&& *final(cpu) == o.0
            &&& (forall|a: u16| final(bus).mem(a) == (o.1)(a))
        }),
{
    let base = page1_cycles(opcode);
    cpu.cycles = cpu.cycles + base as u64;
    match opcode {
        0x8E => {
            // LDY immediate
            let w = cpu.fetch_word(bus);
            alu::ld16_flags(w, &mut cpu.reg.cc);
            cpu.reg.y = w;
        },
        0x9E => {
            // LDY direct
            let addr = cpu.addr_direct(bus);
            let w = bus.read_word(addr);
            alu::ld16_flags(w, &mut cpu.reg.cc);
            cpu.reg.y = w;
        },
        0x9F => {
            // STY direct
            let addr = cpu.addr_direct(bus);
            let v = cpu.reg.y;
            alu::ld16_flags(v, &mut cpu.reg.cc);
            bus.write_word(addr, v);
        },
        0xAE => {
            // LDY indexed
            let (addr, ex) = cpu.addr_indexed(bus);
            cpu.cycles = cpu.cycles + ex as u64;
            let w = bus.read_word(addr);
            alu::ld16_flags(w, &mut cpu.reg.cc);
            cpu.reg.y = w;
        },
        0xAF => {
            // STY indexed
            let (addr, ex) = cpu.addr_indexed(bus);
            cpu.cycles = cpu.cycles + ex as u64;
            let v = cpu.reg.y;
            alu::ld16_flags(v, &mut cpu.reg.cc);
            bus.write_word(addr, v);
        },
        0xBE => {
            // LDY extended
            let addr = cpu.addr_extended(bus);
            let w = bus.read_word(addr);
            alu::ld16_flags(w, &mut cpu.reg.cc);
            cpu.reg.y = w;
        },
        0xBF => {
            // STY extended
            let addr = cpu.addr_extended(bus);
            let v = cpu.reg.y;
            alu::ld16_flags(v, &mut cpu.reg.cc);
            bus.write_word(addr, v);
        },
        _ => {
            proof {
                assert(false);
            }
        },
    }
}

/// The LDS and STS forms of page 1 (every LDS arms the NMI input).
#[verifier::rlimit(100)]
#[verifier::spinoff_prover]
fn p1_lds_sts<B: Bus>(cpu: &mut Cpu, bus: &mut B, opcode: u8)
    requires
        opcode == 0xCE || opcode == 0xDE || opcode == 0xDF || opcode == 0xEE || opcode == 0xEF || opcode == 0xFE || opcode == 0xFF,
        old(cpu).wf(),
        !old(cpu).cwai,
        !old(cpu).sync,
        old(cpu).cycles <= u64::MAX - 64,
    ensures
        final(cpu).wf(),
        old(cpu).cycles + page1_base(opcode) <= final(cpu).cycles,
        old(cpu).cycles < final(cpu).cycles <= old(cpu).cycles + 43,
        old(cpu).nmi_armed ==> final(cpu).nmi_armed,
        final(cpu).halted == old(cpu).halted,
        final(cpu).illegal == (old(cpu).illegal || !page1_legal(opcode)),
        final(cpu).nmi_pending == old(cpu).nmi_pending,
        final(cpu).firq_line == old(cpu).firq_line,
        final(cpu).irq_line == old(cpu).irq_line,
        final(cpu).sync == old(cpu).sync,
        final(cpu).cwai == old(cpu).cwai,
        ({
            let o = page1_outcome(*old(cpu), mem_fn(old(bus)), opcode);
            &&& *final(cpu) == o.0
            &&& (forall|a: u16| final(bus).mem(a) == (o.1)(a))
        }),
{
    let base = page1_cycles(opcode);
    cpu.cycles = cpu.cycles + base as u64;
    match opcode {
        0xCE => {
            // LDS immediate: loading S arms the NMI input
            let w = cpu.fetch_word(bus);
            alu::ld16_flags(w, &mut cpu.reg.cc);
            cpu.reg.s = w;
            cpu.arm_nmi();
        },
        0xDE => {
            // LDS direct
            let addr = cpu.addr_direct(bus);
            let w = bus.read_word(addr);
            alu::ld16_flags(w, &mut cpu.reg.cc);
            cpu.reg.s = w;
            cpu.arm_nmi();
        },
        0xDF => {
            // STS direct
            let addr = cpu.addr_direct(bus);
            let v = cpu.reg.s;
            alu::ld16_flags(v, &mut cpu.reg.cc);
            bus.write_word(addr, v);
        },
        0xEE => {
            // LDS indexed
            let (addr, ex) = cpu.addr_indexed(bus);
            cpu.cycles = cpu.cycles + ex as u64;
            let w = bus.read_word(addr);
            alu::ld16_flags(w, &mut cpu.reg.cc);
            cpu.reg.s = w;
            cpu.arm_nmi();
        },
        0xEF => {
            // STS indexed
            let (addr, ex) = cpu.addr_indexed(bus);
            cpu.cycles = cpu.cycles + ex as u64;
            let v = cpu.reg.s;
            alu::ld16_flags(v, &mut cpu.reg.cc);
            bus.write_word(addr, v);
        },
        0xFE => {
            // LDS extended
            let addr = cpu.addr_extended(bus);
            let w = bus.read_word(addr);
            alu::ld16_flags(w, &mut cpu.reg.cc);
            cpu.reg.s = w;
            cpu.arm_nmi();
        },
        0xFF => {
            // STS extended
            let addr = cpu.addr_extended(bus);
            let v = cpu.reg.s;
            alu::ld16_flags(v, &mut cpu.reg.cc);
            bus.write_word(addr, v);
        },
        _ => {
            proof {
                assert(false);
            }
        },
    }
}

/// Execute one page-1 opcode (the byte after the `0x10` prefix): charge its
/// base cycles, then run its semantics. Cycles strictly increase; an
/// unassigned second byte costs the one-cycle placeholder and marks
/// `illegal`.
#[verifier::rlimit(100)]
#[verifier::spinoff_prover]
pub fn execute<B: Bus>(cpu: &mut Cpu, bus: &mut B, opcode: u8)
    requires
        old(cpu).wf(),
        !old(cpu).cwai,
        !old(cpu).sync,
        old(cpu).cycles <= u64::MAX - 64,
    ensures
        final(cpu).wf(),
        old(cpu).cycles + page1_base(opcode) <= final(cpu).cycles,
        old(cpu).cycles < final(cpu).cycles <= old(cpu).cycles + 43,
        old(cpu).nmi_armed ==> final(cpu).nmi_armed,
        final(cpu).halted == old(cpu).halted,
        final(cpu).illegal == (old(cpu).illegal || !page1_legal(opcode)),
        final(cpu).nmi_pending == old(cpu).nmi_pending,
        final(cpu).firq_line == old(cpu).firq_line,
        final(cpu).irq_line == old(cpu).irq_line,
        final(cpu).sync == old(cpu).sync,
        final(cpu).cwai == old(cpu).cwai,
        ({
            let o = page1_outcome(*old(cpu), mem_fn(old(bus)), opcode);
            &&& *final(cpu) == o.0
            &&& (forall|a: u16| final(bus).mem(a) == (o.1)(a))
        }),
{
    if 0x21 <= opcode && opcode < 0x30 {
        let base = page1_cycles(opcode);
        cpu.cycles = cpu.cycles + base as u64;
        long_branch(cpu, bus, opcode);
    } else if opcode == 0x3F {
        p1_swi2(cpu, bus, opcode);
    } else if opcode == 0x83 || opcode == 0x93 || opcode == 0xA3 || opcode == 0xB3 || opcode
        == 0x8C || opcode == 0x9C || opcode == 0xAC || opcode == 0xBC {
        p1_cmp16(cpu, bus, opcode);
    } else if opcode == 0x8E || opcode == 0x9E || opcode == 0x9F || opcode == 0xAE || opcode
        == 0xAF || opcode == 0xBE || opcode == 0xBF {
        p1_ldy_sty(cpu, bus, opcode);
    } else if opcode == 0xCE || opcode == 0xDE || opcode == 0xDF || opcode == 0xEE || opcode
        == 0xEF || opcode == 0xFE || opcode == 0xFF {
        p1_lds_sts(cpu, bus, opcode);
    } else {
        // unassigned second byte: the placeholder cycle, marked illegal
        cpu.cycles = cpu.cycles + 1;
        cpu.illegal = true;
    }
}

} // verus!
