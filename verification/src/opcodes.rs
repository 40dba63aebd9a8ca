//! Opcode dispatch for the three 6809 opcode pages: page 0 holds every
//! unprefixed opcode, pages 1 and 2 hang off the `0x10` and `0x11` prefix
//! bytes.

use vstd::prelude::*;

use crate::bus::{mem_fn, Bus};
use crate::cpu::Cpu;
use crate::registers::Registers;
use crate::words::wadd;

pub mod page0;
pub mod page1;
pub mod page2;

verus! {

/// The full effect of one fetched opcode on the whole CPU and memory: a
/// `0x10` or `0x11` prefix consumes the second byte and defers to its page,
/// everything else is a page-0 opcode.
#[verifier::opaque]
pub open spec fn execute_outcome(cpu: Cpu, m: spec_fn(u16) -> u8, opcode: u8) -> (
    Cpu,
    spec_fn(u16) -> u8,
) {
    if opcode == 0x10 {
        let op2 = m(cpu.reg.pc);
        page1::page1_outcome(
            (Cpu { reg: (Registers { pc: wadd(cpu.reg.pc, 1), ..cpu.reg }), ..cpu }),
            m,
            op2,
        )
    } else if opcode == 0x11 {
        let op2 = m(cpu.reg.pc);
        page2::page2_outcome(
            (Cpu { reg: (Registers { pc: wadd(cpu.reg.pc, 1), ..cpu.reg }), ..cpu }),
            m,
            op2,
        )
    } else {
        page0::page0_outcome(cpu, m, opcode)
    }
}

impl Cpu {
    /// Execute a single opcode (already fetched): a `0x10` or `0x11` prefix
    /// fetches the second byte and dispatches its page; everything else is a
    /// page-0 opcode. Cycles strictly increase by at least the opcode's
    /// base-table entry.
    #[verifier::rlimit(100)]
    #[verifier::spinoff_prover]
    pub fn execute<B: Bus>(&mut self, bus: &mut B, opcode: u8)
        requires
            old(self).wf(),
            !old(self).cwai,
            !old(self).sync,
            old(self).cycles <= u64::MAX - 64,
        ensures
            final(self).wf(),
            old(self).cycles < final(self).cycles <= old(self).cycles + 64,
            ({
                let op2 = old(bus).mem(old(self).reg.pc);
                &&& (opcode == 0x10 ==> final(self).cycles >= old(self).cycles
                    + page1::page1_base(op2))
                &&& (opcode == 0x11 ==> final(self).cycles >= old(self).cycles
                    + page2::page2_base(op2))
                &&& (opcode != 0x10 && opcode != 0x11 ==> final(self).cycles >= old(self).cycles
                    + page0::page0_base(opcode))
            }),
            ({
                let op2 = old(bus).mem(old(self).reg.pc);
                final(self).illegal == (old(self).illegal || (opcode == 0x10
                    && !page1::page1_legal(op2)) || (opcode == 0x11 && !page2::page2_legal(op2)) || (
                opcode != 0x10 && opcode != 0x11 && page0::page0_illegal(opcode)))
            }),
            old(self).nmi_armed ==> final(self).nmi_armed,
            final(self).halted == (old(self).halted || opcode == 0x3E),
            final(self).nmi_pending == old(self).nmi_pending,
            final(self).firq_line == old(self).firq_line,
            final(self).irq_line == old(self).irq_line,
            final(self).sync == (opcode == 0x13),
            final(self).cwai == (opcode == 0x3C),
            ({
                let o = execute_outcome(*old(self), mem_fn(old(bus)), opcode);
                &&& *final(self) == o.0
                &&& (forall|a: u16| final(bus).mem(a) == (o.1)(a))
            }),
    {
        proof {
            reveal(execute_outcome);
        }
        if opcode == 0x10 {
            let op2 = self.fetch_byte(bus);
            page1::execute(self, bus, op2);
        } else if opcode == 0x11 {
            let op2 = self.fetch_byte(bus);
            page2::execute(self, bus, op2);
        } else {
            page0::execute(self, bus, opcode);
        }
    }
}

} // verus!
