//! Page 2 opcode implementations (prefix `0x11`): SWI3, CMPU and CMPS.

use vstd::prelude::*;

use crate::addressing::{indexed_arms_s, indexed_outcome};
use crate::alu;
use crate::alu::spec_sub16;
use crate::bus::{mem_fn, Bus};
use crate::cpu::{entire_frame_fn, Cpu, VEC_SWI3};
use crate::registers::{ConditionCodes, Registers};
use crate::words::{wadd, word, wsub};

verus! {

/// Base cycle count of each page-2 opcode; unassigned entries are 0 (the
/// prefix placeholder cycle is charged when one is executed).
pub open spec fn page2_base(op: u8) -> u8 {
    if op == 0x3F {
        20
    } else if op == 0x83 || op == 0x8C {
        5
    } else if op == 0x93 || op == 0x9C || op == 0xA3 || op == 0xAC {
        7
    } else if op == 0xB3 || op == 0xBC {
        8
    } else {
        0
    }
}

/// Executable mirror of [`page2_base`].
pub fn page2_cycles(op: u8) -> (c: u8)
    ensures
        c == page2_base(op),
        c <= 20,
{
    if op == 0x3F {
        20
    } else if op == 0x83 || op == 0x8C {
        5
    } else if op == 0x93 || op == 0x9C || op == 0xA3 || op == 0xAC {
        7
    } else if op == 0xB3 || op == 0xBC {
        8
    } else {
        0
    }
}

/// The second bytes that name a page-2 instruction.
pub open spec fn page2_legal(op: u8) -> bool {
    ||| op == 0x3F
    ||| op == 0x83
    ||| op == 0x8C
    ||| op == 0x93
    ||| op == 0x9C
    ||| op == 0xA3
    ||| op == 0xAC
    ||| op == 0xB3
    ||| op == 0xBC
}

/// The full effect of one page-2 opcode (the second byte after the `0x11`
/// prefix): the base cycle charge, then the instruction's own effect.
pub open spec fn page2_outcome(cpu: Cpu, m: spec_fn(u16) -> u8, opcode: u8) -> (
    Cpu,
    spec_fn(u16) -> u8,
) {
    let c = Cpu { cycles: (cpu.cycles + page2_base(opcode)) as u64, ..cpu };
    let reg = c.reg;
    if opcode == 0x3F {
        // SWI3: pushes the entire state but masks nothing
        let cc1 = ConditionCodes { e: true, ..reg.cc };
        let reg1 = Registers { cc: cc1, ..reg };
        let m2 = entire_frame_fn(reg1, reg1.s, m);
        (
            (Cpu {
                reg: (Registers {
                    cc: cc1,
                    pc: word(m2(VEC_SWI3), m2(wadd(VEC_SWI3, 1))),
                    s: wsub(reg.s, 12),
                    ..reg
                }),
                ..c
            }),
            m2,
        )
    } else if opcode == 0x83 {
        // CMPU immediate
        let w = word(m(reg.pc), m(wadd(reg.pc, 1)));
        let reg1 = Registers { pc: wadd(reg.pc, 2), ..reg };
        let c1 = c;
        let rc = spec_sub16(reg1.u, w, reg1.cc);
        ((Cpu { reg: (Registers { cc: rc.1, ..reg1 }), ..c1 }), m)
    } else if opcode == 0x93 {
        // CMPU direct
        let ea = word(reg.dp, m(reg.pc));
        let reg1 = Registers { pc: wadd(reg.pc, 1), ..reg };
        let c1 = c;
        let w = word(m(ea), m(wadd(ea, 1)));
        let rc = spec_sub16(reg1.u, w, reg1.cc);
        ((Cpu { reg: (Registers { cc: rc.1, ..reg1 }), ..c1 }), m)
    } else if opcode == 0xA3 {
        // CMPU indexed
        let pre = indexed_outcome(reg, m);
        let reg1 = pre.2;
        let c1 = Cpu {
            cycles: (c.cycles + pre.1) as u64,
            nmi_armed: c.nmi_armed || indexed_arms_s(m(reg.pc)),
            ..c
        };
        let w = word(m(pre.0), m(wadd(pre.0, 1)));
        let rc = spec_sub16(reg1.u, w, reg1.cc);
        ((Cpu { reg: (Registers { cc: rc.1, ..reg1 }), ..c1 }), m)
    } else if opcode == 0xB3 {
        // CMPU extended
        let ea = word(m(reg.pc), m(wadd(reg.pc, 1)));
        let reg1 = Registers { pc: wadd(reg.pc, 2), ..reg };
        let c1 = c;
        let w = word(m(ea), m(wadd(ea, 1)));
        let rc = spec_sub16(reg1.u, w, reg1.cc);
        ((Cpu { reg: (Registers { cc: rc.1, ..reg1 }), ..c1 }), m)
    } else if opcode == 0x8C {
        // CMPS immediate
        let w = word(m(reg.pc), m(wadd(reg.pc, 1)));
        let reg1 = Registers { pc: wadd(reg.pc, 2), ..reg };
        let c1 = c;
        let rc = spec_sub16(reg1.s, w, reg1.cc);
        ((Cpu { reg: (Registers { cc: rc.1, ..reg1 }), ..c1 }), m)
    } else if opcode == 0x9C {
        // CMPS direct
        let ea = word(reg.dp, m(reg.pc));
        let reg1 = Registers { pc: wadd(reg.pc, 1), ..reg };
        let c1 = c;
        let w = word(m(ea), m(wadd(ea, 1)));
        let rc = spec_sub16(reg1.s, w, reg1.cc);
        ((Cpu { reg: (Registers { cc: rc.1, ..reg1 }), ..c1 }), m)
    } else if opcode == 0xAC {
        // CMPS indexed
        let pre = indexed_outcome(reg, m);
        let reg1 = pre.2;
        let c1 = Cpu {
            cycles: (c.cycles + pre.1) as u64,
            nmi_armed: c.nmi_armed || indexed_arms_s(m(reg.pc)),
            ..c
        };
        let w = word(m(pre.0), m(wadd(pre.0, 1)));
        let rc = spec_sub16(reg1.s, w, reg1.cc);
        ((Cpu { reg: (Registers { cc: rc.1, ..reg1 }), ..c1 }), m)
    } else if opcode == 0xBC {
        // CMPS extended
        let ea = word(m(reg.pc), m(wadd(reg.pc, 1)));
        let reg1 = Registers { pc: wadd(reg.pc, 2), ..reg };
        let c1 = c;
        let w = word(m(ea), m(wadd(ea, 1)));
        let rc = spec_sub16(reg1.s, w, reg1.cc);
        ((Cpu { reg: (Registers { cc: rc.1, ..reg1 }), ..c1 }), m)
    } else {
        // unassigned second byte: the placeholder cycle, marked illegal
        ((Cpu { cycles: (c.cycles + 1) as u64, illegal: true, ..c }), m)
    }
}

/// SWI3 (second byte 0x3F): the entire state is pushed, nothing is masked.
#[verifier::rlimit(100)]
#[verifier::spinoff_prover]
fn p2_swi3<B: Bus>(cpu: &mut Cpu, bus: &mut B, opcode: u8)
    requires
        opcode == 0x3F,
        old(cpu).wf(),
        !old(cpu).cwai,
        !old(cpu).sync,
        old(cpu).cycles <= u64::MAX - 64,
    ensures
        final(cpu).wf(),
        old(cpu).cycles + page2_base(opcode) <= final(cpu).cycles,
        old(cpu).cycles < final(cpu).cycles <= old(cpu).cycles + 43,
        old(cpu).nmi_armed ==> final(cpu).nmi_armed,
        final(cpu).halted == old(cpu).halted,
        final(cpu).illegal == (old(cpu).illegal || !page2_legal(opcode)),
        final(cpu).nmi_pending == old(cpu).nmi_pending,
        final(cpu).firq_line == old(cpu).firq_line,
        final(cpu).irq_line == old(cpu).irq_line,
        final(cpu).sync == old(cpu).sync,
        final(cpu).cwai == old(cpu).cwai,
        ({
            let o = page2_outcome(*old(cpu), mem_fn(old(bus)), opcode);
            &&& *final(cpu) == o.0
            &&& (forall|a: u16| final(bus).mem(a) == (o.1)(a))
        }),
{
    let base = page2_cycles(opcode);
    cpu.cycles = cpu.cycles + base as u64;
    match opcode {
        0x3F => {
            // SWI3: pushes the entire state but masks nothing
            cpu.reg.cc.set_entire(true);
            cpu.push_entire_state(bus);
            cpu.reg.pc = bus.read_word(VEC_SWI3);
        },
        _ => {
            proof {
                assert(false);
            }
        },
    }
}

/// The CMPU and CMPS forms of page 2.
#[verifier::rlimit(100)]
#[verifier::spinoff_prover]
fn p2_cmp16<B: Bus>(cpu: &mut Cpu, bus: &mut B, opcode: u8)
    requires
        opcode == 0x83 || opcode == 0x93 || opcode == 0xA3 || opcode == 0xB3 || opcode == 0x8C || opcode == 0x9C || opcode == 0xAC || opcode == 0xBC,
        old(cpu).wf(),
        !old(cpu).cwai,
        !old(cpu).sync,
        old(cpu).cycles <= u64::MAX - 64,
    ensures
        final(cpu).wf(),
        old(cpu).cycles + page2_base(opcode) <= final(cpu).cycles,
        old(cpu).cycles < final(cpu).cycles <= old(cpu).cycles + 43,
        old(cpu).nmi_armed ==> final(cpu).nmi_armed,
        final(cpu).halted == old(cpu).halted,
        final(cpu).illegal == (old(cpu).illegal || !page2_legal(opcode)),
        final(cpu).nmi_pending == old(cpu).nmi_pending,
        final(cpu).firq_line == old(cpu).firq_line,
        final(cpu).irq_line == old(cpu).irq_line,
        final(cpu).sync == old(cpu).sync,
        final(cpu).cwai == old(cpu).cwai,
        ({
            let o = page2_outcome(*old(cpu), mem_fn(old(bus)), opcode);
            &&& *final(cpu) == o.0
            &&& (forall|a: u16| final(bus).mem(a) == (o.1)(a))
        }),
{
    let base = page2_cycles(opcode);
    cpu.cycles = cpu.cycles + base as u64;
    match opcode {
        0x83 => {
            // CMPU immediate
            let w = cpu.fetch_word(bus);
            let u = cpu.reg.u;
            alu::sub16(u, w, &mut cpu.reg.cc);
        },
        0x93 => {
            // CMPU direct
            let addr = cpu.addr_direct(bus);
            let w = bus.read_word(addr);
            let u = cpu.reg.u;
            alu::sub16(u, w, &mut cpu.reg.cc);
        },
        0xA3 => {
            // CMPU indexed
            let (addr, ex) = cpu.addr_indexed(bus);
            cpu.cycles = cpu.cycles + ex as u64;
            let w = bus.read_word(addr);
            let u = cpu.reg.u;
            alu::sub16(u, w, &mut cpu.reg.cc);
        },
        0xB3 => {
            // CMPU extended
            let addr = cpu.addr_extended(bus);
            let w = bus.read_word(addr);
            let u = cpu.reg.u;
            alu::sub16(u, w, &mut cpu.reg.cc);
        },
        0x8C => {
            // CMPS immediate
            let w = cpu.fetch_word(bus);
            let sp = cpu.reg.s;
            alu::sub16(sp, w, &mut cpu.reg.cc);
        },
        0x9C => {
            // CMPS direct
            let addr = cpu.addr_direct(bus);
            let w = bus.read_word(addr);
            let sp = cpu.reg.s;
            alu::sub16(sp, w, &mut cpu.reg.cc);
        },
        0xAC => {
            // CMPS indexed
            let (addr, ex) = cpu.addr_indexed(bus);
            cpu.cycles = cpu.cycles + ex as u64;
            let w = bus.read_word(addr);
            let sp = cpu.reg.s;
            alu::sub16(sp, w, &mut cpu.reg.cc);
        },
        0xBC => {
            // CMPS extended
            let addr = cpu.addr_extended(bus);
            let w = bus.read_word(addr);
            let sp = cpu.reg.s;
            alu::sub16(sp, w, &mut cpu.reg.cc);
        },
        _ => {
            proof {
                assert(false);
            }
        },
    }
}

/// Execute one page-2 opcode (the byte after the `0x11` prefix): charge its
/// base cycles, then run its semantics. Cycles strictly increase; an
/// unassigned second byte costs the one-cycle placeholder and marks
/// `illegal`.
#[verifier::rlimit(100)]
#[verifier::spinoff_prover]
pub fn execute<B: Bus>(cpu: &mut Cpu, bus: &mut B, opcode: u8)
    requires
        old(cpu).wf(),
        !old(cpu).cwai,
        !old(cpu).sync,
        old(cpu).cycles <= u64::MAX - 64,
    ensures
        final(cpu).wf(),
        old(cpu).cycles + page2_base(opcode) <= final(cpu).cycles,
        old(cpu).cycles < final(cpu).cycles <= old(cpu).cycles + 43,
        old(cpu).nmi_armed ==> final(cpu).nmi_armed,
        final(cpu).halted == old(cpu).halted,
        final(cpu).illegal == (old(cpu).illegal || !page2_legal(opcode)),
        final(cpu).nmi_pending == old(cpu).nmi_pending,
        final(cpu).firq_line == old(cpu).firq_line,
        final(cpu).irq_line == old(cpu).irq_line,
        final(cpu).sync == old(cpu).sync,
        final(cpu).cwai == old(cpu).cwai,
        ({
            let o = page2_outcome(*old(cpu), mem_fn(old(bus)), opcode);
            &&& *final(cpu) == o.0
            &&& (forall|a: u16| final(bus).mem(a) == (o.1)(a))
        }),
{
    if opcode == 0x3F {
        p2_swi3(cpu, bus, opcode);
    } else if opcode == 0x83 || opcode == 0x93 || opcode == 0xA3 || opcode == 0xB3 || opcode
        == 0x8C || opcode == 0x9C || opcode == 0xAC || opcode == 0xBC {
        p2_cmp16(cpu, bus, opcode);
    } else {
        // unassigned second byte: the placeholder cycle, marked illegal
        cpu.cycles = cpu.cycles + 1;
        cpu.illegal = true;
    }
}

} // verus!
