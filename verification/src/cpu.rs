//! The CPU object: register state, interrupt machinery, stack and fetch
//! helpers, and the step/run drivers.

use vstd::prelude::*;

use crate::bus::{mem_fn, mem_word, store8, Bus};
use crate::registers::{cc_from_byte, cc_zero, reg_zero, ConditionCodes, Registers};
use crate::words::{hi8, lo8, wadd, word, wsub};

verus! {

// ---------------------------------------------------------------------------
// Interrupt vector addresses
// ---------------------------------------------------------------------------

pub const VEC_RESET: u16 = 0xFFFE;
pub const VEC_NMI: u16 = 0xFFFC;
pub const VEC_SWI: u16 = 0xFFFA;
pub const VEC_IRQ: u16 = 0xFFF8;
pub const VEC_FIRQ: u16 = 0xFFF6;
pub const VEC_SWI2: u16 = 0xFFF4;
pub const VEC_SWI3: u16 = 0xFFF2;

/// No single `step` ever consumes more cycles than this; callers keep the
/// cycle counter this far from overflow.
pub const STEP_CYCLE_CAP: u64 = 64;

// ---------------------------------------------------------------------------
// CPU state
// ---------------------------------------------------------------------------

/// Motorola 6809 CPU emulator.
#[derive(Debug)]
pub struct Cpu {
    /// Programmer-visible registers.
    pub reg: Registers,
    /// Total elapsed cycles since reset.
    pub cycles: u64,
    /// CPU is halted (executed the undocumented RESET instruction).
    pub halted: bool,
    /// CPU encountered an illegal opcode.
    pub illegal: bool,
    /// NMI is armed (becomes true after the first write to S).
    pub nmi_armed: bool,
    /// NMI pending (edge-triggered latch, cleared on dispatch).
    pub nmi_pending: bool,
    /// FIRQ line asserted (level-triggered).
    pub firq_line: bool,
    /// IRQ line asserted (level-triggered).
    pub irq_line: bool,
    /// CWAI: entire state already pushed, waiting for an unmasked interrupt.
    pub cwai: bool,
    /// SYNC: waiting for any interrupt edge.
    pub sync: bool,
}

/// What each address of memory holds after the entire register state has been
/// pushed onto the hardware stack that started at `s0`: twelve bytes, CC at
/// the lowest address, then A, B, DP, X, Y, U and PC above it.
pub open spec fn entire_frame_at(reg: Registers, s0: u16, a: u16, old_byte: u8) -> u8 {
    if a == wsub(s0, 12) {
        reg.cc.as_byte()
    } else if a == wsub(s0, 11) {
        reg.spec_a()
    } else if a == wsub(s0, 10) {
        reg.spec_b()
    } else if a == wsub(s0, 9) {
        reg.dp
    } else if a == wsub(s0, 8) {
        hi8(reg.x)
    } else if a == wsub(s0, 7) {
        lo8(reg.x)
    } else if a == wsub(s0, 6) {
        hi8(reg.y)
    } else if a == wsub(s0, 5) {
        lo8(reg.y)
    } else if a == wsub(s0, 4) {
        hi8(reg.u)
    } else if a == wsub(s0, 3) {
        lo8(reg.u)
    } else if a == wsub(s0, 2) {
        hi8(reg.pc)
    } else if a == wsub(s0, 1) {
        lo8(reg.pc)
    } else {
        old_byte
    }
}

/// Memory as a function after the entire register state has been pushed.
pub open spec fn entire_frame_fn(reg: Registers, s0: u16, m: spec_fn(u16) -> u8) -> spec_fn(
    u16,
) -> u8 {
    |a: u16| entire_frame_at(reg, s0, a, m(a))
}

/// The full effect of an interrupt check between instructions: at most one
/// dispatch in priority order (a pending NMI, then an unmasked FIRQ, then an
/// unmasked IRQ), or no change at all. Unless CWAI already saved it, the
/// context is pushed (the whole state with E=1, or just PC and CC with E=0
/// for FIRQ); the masks are applied and PC loads from the vector, read from
/// memory as the push left it.
#[verifier::opaque]
pub open spec fn dispatch_outcome(cpu: Cpu, m: spec_fn(u16) -> u8) -> (Cpu, spec_fn(u16) -> u8) {
    let reg = cpu.reg;
    if cpu.nmi_pending {
        if !cpu.cwai {
            let cc1 = ConditionCodes { e: true, ..reg.cc };
            let m2 = entire_frame_fn((Registers { cc: cc1, ..reg }), reg.s, m);
            (
                (Cpu {
                    reg: (Registers {
                        cc: (ConditionCodes { i: true, f: true, ..cc1 }),
                        pc: word(m2(VEC_NMI), m2(wadd(VEC_NMI, 1))),
                        s: wsub(reg.s, 12),
                        ..reg
                    }),
                    cycles: (cpu.cycles + 19) as u64,
                    nmi_pending: false,
                    cwai: false,
                    ..cpu
                }),
                m2,
            )
        } else {
            (
                (Cpu {
                    reg: (Registers {
                        cc: (ConditionCodes { i: true, f: true, ..reg.cc }),
                        pc: word(m(VEC_NMI), m(wadd(VEC_NMI, 1))),
                        ..reg
                    }),
                    cycles: (cpu.cycles + 19) as u64,
                    nmi_pending: false,
                    cwai: false,
                    ..cpu
                }),
                m,
            )
        }
    } else if cpu.firq_line && !reg.cc.f {
        if !cpu.cwai {
            let cc1 = ConditionCodes { e: false, ..reg.cc };
            let m2 = store8(
                store8(store8(m, wsub(reg.s, 1), lo8(reg.pc)), wsub(reg.s, 2), hi8(reg.pc)),
                wsub(reg.s, 3),
                cc1.as_byte(),
            );
            (
                (Cpu {
                    reg: (Registers {
                        cc: (ConditionCodes { e: false, i: true, f: true, ..reg.cc }),
                        pc: word(m2(VEC_FIRQ), m2(wadd(VEC_FIRQ, 1))),
                        s: wsub(reg.s, 3),
                        ..reg
                    }),
                    cycles: (cpu.cycles + 10) as u64,
                    cwai: false,
                    ..cpu
                }),
                m2,
            )
        } else {
            (
                (Cpu {
                    reg: (Registers {
                        cc: (ConditionCodes { i: true, f: true, ..reg.cc }),
                        pc: word(m(VEC_FIRQ), m(wadd(VEC_FIRQ, 1))),
                        ..reg
                    }),
                    cycles: (cpu.cycles + 10) as u64,
                    cwai: false,
                    ..cpu
                }),
                m,
            )
        }
    } else if cpu.irq_line && !reg.cc.i {
        if !cpu.cwai {
            let cc1 = ConditionCodes { e: true, ..reg.cc };
            let m2 = entire_frame_fn((Registers { cc: cc1, ..reg }), reg.s, m);
            (
                (Cpu {
                    reg: (Registers {
                        cc: (ConditionCodes { i: true, ..cc1 }),
                        pc: word(m2(VEC_IRQ), m2(wadd(VEC_IRQ, 1))),
                        s: wsub(reg.s, 12),
                        ..reg
                    }),
                    cycles: (cpu.cycles + 19) as u64,
                    cwai: false,
                    ..cpu
                }),
                m2,
            )
        } else {
            (
                (Cpu {
                    reg: (Registers {
                        cc: (ConditionCodes { i: true, ..reg.cc }),
                        pc: word(m(VEC_IRQ), m(wadd(VEC_IRQ, 1))),
                        ..reg
                    }),
                    cycles: (cpu.cycles + 19) as u64,
                    cwai: false,
                    ..cpu
                }),
                m,
            )
        }
    } else {
        (cpu, m)
    }
}

/// The full effect of one `step` call: an idle cycle while halted or parked
/// in SYNC or CWAI, an interrupt dispatch, or one fetched and executed
/// instruction; the third component is the cycles the call reports.
pub open spec fn step_outcome(cpu: Cpu, m: spec_fn(u16) -> u8) -> (
    Cpu,
    spec_fn(u16) -> u8,
    u64,
) {
    if cpu.halted {
        (cpu, m, 1)
    } else if cpu.sync && !cpu.int_asserted() {
        ((Cpu { cycles: (cpu.cycles + 1) as u64, ..cpu }), m, 1)
    } else {
        let c1 = if cpu.sync {
            Cpu { sync: false, ..cpu }
        } else {
            cpu
        };
        if c1.will_dispatch() {
            let o = dispatch_outcome(c1, m);
            (o.0, o.1, (o.0.cycles - cpu.cycles) as u64)
        } else if c1.cwai {
            ((Cpu { cycles: (cpu.cycles + 1) as u64, ..c1 }), m, 1)
        } else {
            let op = m(c1.reg.pc);
            let c2 = Cpu { reg: (Registers { pc: wadd(c1.reg.pc, 1), ..c1.reg }), ..c1 };
            let o = crate::opcodes::execute_outcome(c2, m, op);
            (o.0, o.1, (o.0.cycles - cpu.cycles) as u64)
        }
    }
}

/// The state and memory after a number of `step` calls.
pub open spec fn steps_outcome(cpu: Cpu, m: spec_fn(u16) -> u8, n: nat) -> (
    Cpu,
    spec_fn(u16) -> u8,
)
    decreases n,
{
    if n == 0 {
        (cpu, m)
    } else {
        let prev = steps_outcome(cpu, m, (n - 1) as nat);
        let o = step_outcome(prev.0, prev.1);
        (o.0, o.1)
    }
}

impl Cpu {
    /// The CPU object's invariant: the wait states are mutually exclusive,
    /// and an NMI can only be pending once the NMI input is armed.
    pub open spec fn wf(self) -> bool {
        &&& (self.nmi_pending ==> self.nmi_armed)
        &&& !(self.cwai && self.sync)
    }

    /// Some interrupt input is asserted (what wakes SYNC, masked or not).
    pub open spec fn int_asserted(self) -> bool {
        self.nmi_pending || self.firq_line || self.irq_line
    }

    /// An interrupt would be dispatched between instructions: a pending NMI,
    /// or an unmasked FIRQ or IRQ level.
    pub open spec fn will_dispatch(self) -> bool {
        ||| self.nmi_pending
        ||| (self.firq_line && !self.reg.cc.f)
        ||| (self.irq_line && !self.reg.cc.i)
    }

    /// Create a new CPU with all state zeroed.
    pub fn new() -> (r: Self)
        ensures
            r == (Cpu {
                reg: reg_zero(),
                cycles: 0,
                halted: false,
                illegal: false,
                nmi_armed: false,
                nmi_pending: false,
                firq_line: false,
                irq_line: false,
                cwai: false,
                sync: false,
            }),
            r.wf(),
    {
        Cpu {
            reg: Registers::new(),
            cycles: 0,
            halted: false,
            illegal: false,
            nmi_armed: false,
            nmi_pending: false,
            firq_line: false,
            irq_line: false,
            cwai: false,
            sync: false,
        }
    }

    /// Hardware reset: load PC from the reset vector, set the I and F masks,
    /// clear everything else (cycle counter, latches and wait states).
    pub fn reset<B: Bus>(&mut self, bus: &B)
        ensures
            *final(self) == (Cpu {
                reg: (Registers {
                    pc: mem_word(bus, VEC_RESET),
                    cc: (ConditionCodes { i: true, f: true, ..cc_zero() }),
                    ..reg_zero()
                }),
                cycles: 0,
                halted: false,
                illegal: false,
                nmi_armed: false,
                nmi_pending: false,
                firq_line: false,
                irq_line: false,
                cwai: false,
                sync: false,
            }),
            final(self).wf(),
    {
        self.reg = Registers::new();
        self.reg.cc.set_irq_inhibit(true);
        self.reg.cc.set_firq_inhibit(true);
        self.reg.pc = bus.read_word(VEC_RESET);
        self.cycles = 0;
        self.halted = false;
        self.illegal = false;
        self.nmi_armed = false;
        self.nmi_pending = false;
        self.firq_line = false;
        self.irq_line = false;
        self.cwai = false;
        self.sync = false;
    }

    /// Assert or de-assert the IRQ line (level-triggered).
    pub fn set_irq(&mut self, active: bool)
        ensures
            *final(self) == (Cpu { irq_line: active, ..*old(self) }),
    {
        self.irq_line = active;
    }

    /// Assert or de-assert the FIRQ line (level-triggered).
    pub fn set_firq(&mut self, active: bool)
        ensures
            *final(self) == (Cpu { firq_line: active, ..*old(self) }),
    {
        self.firq_line = active;
    }

    /// Trigger an NMI (edge-triggered). Ignored until the NMI input has been
    /// armed by a write to S.
    pub fn trigger_nmi(&mut self)
        ensures
            *final(self) == (Cpu {
                nmi_pending: old(self).nmi_pending || old(self).nmi_armed,
                ..*old(self)
            }),
    {
        if self.nmi_armed {
            self.nmi_pending = true;
        }
    }

    // ---- stack helpers ----

    /// Push a byte onto the hardware stack (S pre-decrements).
    pub fn push_byte_s<B: Bus>(&mut self, bus: &mut B, val: u8)
        ensures
            *final(self) == (Cpu {
                reg: (Registers { s: wsub(old(self).reg.s, 1), ..old(self).reg }),
                ..*old(self)
            }),
            forall|a: u16|
                final(bus).mem(a) == (if a == wsub(old(self).reg.s, 1) {
                    val
                } else {
                    old(bus).mem(a)
                }),
    {
        self.reg.s = self.reg.s.wrapping_sub(1);
        bus.write(self.reg.s, val);
    }

    /// Push a 16-bit word onto the hardware stack: low byte first, so the
    /// high byte ends up at the lower address.
    pub fn push_word_s<B: Bus>(&mut self, bus: &mut B, val: u16)
        ensures
            *final(self) == (Cpu {
                reg: (Registers { s: wsub(old(self).reg.s, 2), ..old(self).reg }),
                ..*old(self)
            }),
            forall|a: u16|
                final(bus).mem(a) == (if a == wsub(old(self).reg.s, 2) {
                    hi8(val)
                } else if a == wsub(old(self).reg.s, 1) {
                    lo8(val)
                } else {
                    old(bus).mem(a)
                }),
    {
        self.push_byte_s(bus, #[verifier::truncate] (val as u8));
        self.push_byte_s(bus, (val >> 8) as u8);
    }

    /// Pull a byte from the hardware stack (S post-increments).
    pub fn pull_byte_s<B: Bus>(&mut self, bus: &B) -> (r: u8)
        ensures
            r == bus.mem(old(self).reg.s),
            *final(self) == (Cpu {
                reg: (Registers { s: wadd(old(self).reg.s, 1), ..old(self).reg }),
                ..*old(self)
            }),
    {
        let val = bus.read(self.reg.s);
        self.reg.s = self.reg.s.wrapping_add(1);
        val
    }

    /// Pull a 16-bit word from the hardware stack, high byte first.
    pub fn pull_word_s<B: Bus>(&mut self, bus: &B) -> (r: u16)
        ensures
            r == mem_word(bus, old(self).reg.s),
            *final(self) == (Cpu {
                reg: (Registers { s: wadd(old(self).reg.s, 2), ..old(self).reg }),
                ..*old(self)
            }),
    {
        let hi = self.pull_byte_s(bus) as u16;
        let lo = self.pull_byte_s(bus) as u16;
        (hi << 8) | lo
    }

    /// Push a byte onto the user stack (U pre-decrements).
    pub fn push_byte_u<B: Bus>(&mut self, bus: &mut B, val: u8)
        ensures
            *final(self) == (Cpu {
                reg: (Registers { u: wsub(old(self).reg.u, 1), ..old(self).reg }),
                ..*old(self)
            }),
            forall|a: u16|
                final(bus).mem(a) == (if a == wsub(old(self).reg.u, 1) {
                    val
                } else {
                    old(bus).mem(a)
                }),
    {
        self.reg.u = self.reg.u.wrapping_sub(1);
        bus.write(self.reg.u, val);
    }

    /// Push a 16-bit word onto the user stack, low byte first.
    pub fn push_word_u<B: Bus>(&mut self, bus: &mut B, val: u16)
        ensures
            *final(self) == (Cpu {
                reg: (Registers { u: wsub(old(self).reg.u, 2), ..old(self).reg }),
                ..*old(self)
            }),
            forall|a: u16|
                final(bus).mem(a) == (if a == wsub(old(self).reg.u, 2) {
                    hi8(val)
                } else if a == wsub(old(self).reg.u, 1) {
                    lo8(val)
                } else {
                    old(bus).mem(a)
                }),
    {
        self.push_byte_u(bus, #[verifier::truncate] (val as u8));
        self.push_byte_u(bus, (val >> 8) as u8);
    }

    /// Pull a byte from the user stack (U post-increments).
    pub fn pull_byte_u<B: Bus>(&mut self, bus: &B) -> (r: u8)
        ensures
            r == bus.mem(old(self).reg.u),
            *final(self) == (Cpu {
                reg: (Registers { u: wadd(old(self).reg.u, 1), ..old(self).reg }),
                ..*old(self)
            }),
    {
        let val = bus.read(self.reg.u);
        self.reg.u = self.reg.u.wrapping_add(1);
        val
    }

    /// Pull a 16-bit word from the user stack, high byte first.
    pub fn pull_word_u<B: Bus>(&mut self, bus: &B) -> (r: u16)
        ensures
            r == word(bus.mem(old(self).reg.u), bus.mem(wadd(old(self).reg.u, 1))),
            *final(self) == (Cpu {
                reg: (Registers { u: wadd(old(self).reg.u, 2), ..old(self).reg }),
                ..*old(self)
            }),
    {
        let hi = self.pull_byte_u(bus) as u16;
        let lo = self.pull_byte_u(bus) as u16;
        (hi << 8) | lo
    }

    /// Push the entire register state onto S (used by NMI, IRQ, SWI, CWAI).
    /// Push order: PC, U, Y, X, DP, B, A, CC, so CC lands at the lowest
    /// address.
    pub fn push_entire_state<B: Bus>(&mut self, bus: &mut B)
        ensures
            *final(self) == (Cpu {
                reg: (Registers { s: wsub(old(self).reg.s, 12), ..old(self).reg }),
                ..*old(self)
            }),
            forall|a: u16|
                final(bus).mem(a) == entire_frame_at(
                    old(self).reg,
                    old(self).reg.s,
                    a,
                    old(bus).mem(a),
                ),
    {
        let pc = self.reg.pc;
        let u = self.reg.u;
        let y = self.reg.y;
        let x = self.reg.x;
        let dp = self.reg.dp;
        let b = self.reg.b();
        let a = self.reg.a();
        let cc = self.reg.cc.to_byte();
        self.push_word_s(bus, pc);
        self.push_word_s(bus, u);
        self.push_word_s(bus, y);
        self.push_word_s(bus, x);
        self.push_byte_s(bus, dp);
        self.push_byte_s(bus, b);
        self.push_byte_s(bus, a);
        self.push_byte_s(bus, cc);
    }

    /// Pull the entire register state from S (the counterpart of
    /// `push_entire_state`; used by the full form of RTI).
    pub fn pull_entire_state<B: Bus>(&mut self, bus: &B)
        ensures
            *final(self) == (Cpu {
                reg: (Registers {
                    cc: cc_from_byte(bus.mem(old(self).reg.s)),
                    d: word(bus.mem(wadd(old(self).reg.s, 1)), bus.mem(wadd(old(self).reg.s, 2))),
                    dp: bus.mem(wadd(old(self).reg.s, 3)),
                    x: word(bus.mem(wadd(old(self).reg.s, 4)), bus.mem(wadd(old(self).reg.s, 5))),
                    y: word(bus.mem(wadd(old(self).reg.s, 6)), bus.mem(wadd(old(self).reg.s, 7))),
                    u: word(bus.mem(wadd(old(self).reg.s, 8)), bus.mem(wadd(old(self).reg.s, 9))),
                    pc: word(
                        bus.mem(wadd(old(self).reg.s, 10)),
                        bus.mem(wadd(old(self).reg.s, 11)),
                    ),
                    s: wadd(old(self).reg.s, 12),
                }),
                ..*old(self)
            }),
    {
        let cc = self.pull_byte_s(bus);
        self.reg.cc = ConditionCodes::from_byte(cc);
        let a = self.pull_byte_s(bus);
        self.reg.set_a(a);
        let b = self.pull_byte_s(bus);
        self.reg.set_b(b);
        self.reg.dp = self.pull_byte_s(bus);
        self.reg.x = self.pull_word_s(bus);
        self.reg.y = self.pull_word_s(bus);
        self.reg.u = self.pull_word_s(bus);
        self.reg.pc = self.pull_word_s(bus);
        proof {
            crate::registers::lemma_d_from_halves(final(self).reg);
        }
    }

    // ---- instruction fetch helpers ----

    /// Fetch a byte at PC and advance PC.
    pub fn fetch_byte<B: Bus>(&mut self, bus: &B) -> (r: u8)
        ensures
            r == bus.mem(old(self).reg.pc),
            *final(self) == (Cpu {
                reg: (Registers { pc: wadd(old(self).reg.pc, 1), ..old(self).reg }),
                ..*old(self)
            }),
    {
        let val = bus.read(self.reg.pc);
        self.reg.pc = self.reg.pc.wrapping_add(1);
        val
    }

    /// Fetch a big-endian 16-bit word at PC and advance PC by 2.
    pub fn fetch_word<B: Bus>(&mut self, bus: &B) -> (r: u16)
        ensures
            r == mem_word(bus, old(self).reg.pc),
            *final(self) == (Cpu {
                reg: (Registers { pc: wadd(old(self).reg.pc, 2), ..old(self).reg }),
                ..*old(self)
            }),
    {
        let hi = self.fetch_byte(bus) as u16;
        let lo = self.fetch_byte(bus) as u16;
        (hi << 8) | lo
    }

    // ---- addressing mode helpers ----

    /// Direct addressing: the effective address is DP joined with the fetched
    /// byte.
    pub fn addr_direct<B: Bus>(&mut self, bus: &B) -> (r: u16)
        ensures
            r == word(old(self).reg.dp, bus.mem(old(self).reg.pc)),
            *final(self) == (Cpu {
                reg: (Registers { pc: wadd(old(self).reg.pc, 1), ..old(self).reg }),
                ..*old(self)
            }),
    {
        let lo = self.fetch_byte(bus) as u16;
        ((self.reg.dp as u16) << 8) | lo
    }

    /// Extended addressing: the effective address is the fetched word.
    pub fn addr_extended<B: Bus>(&mut self, bus: &B) -> (r: u16)
        ensures
            r == mem_word(bus, old(self).reg.pc),
            *final(self) == (Cpu {
                reg: (Registers { pc: wadd(old(self).reg.pc, 2), ..old(self).reg }),
                ..*old(self)
            }),
    {
        self.fetch_word(bus)
    }

    /// Indexed addressing: decode the post-byte and return the effective
    /// address and the extra cycles beyond the base count.
    pub fn addr_indexed<B: Bus>(&mut self, bus: &B) -> (r: (u16, u8))
        ensures
            ({
                let eff = crate::addressing::indexed_outcome(old(self).reg, mem_fn(bus));
                &&& r.0 == eff.0
                &&& r.1 == eff.1
                &&& r.1 <= 8
                &&& *final(self) == (Cpu {
                    reg: eff.2,
                    nmi_armed: old(self).nmi_armed || crate::addressing::indexed_arms_s(
                        bus.mem(old(self).reg.pc),
                    ),
                    ..*old(self)
                })
            }),
    {
        crate::addressing::indexed(self, bus)
    }

    /// Relative 8-bit: the fetched byte, sign extended, offsets the advanced
    /// PC.
    pub fn addr_relative8<B: Bus>(&mut self, bus: &B) -> (r: u16)
        ensures
            r == wadd(
                wadd(old(self).reg.pc, 1),
                crate::words::sign_ext8(bus.mem(old(self).reg.pc)),
            ),
            *final(self) == (Cpu {
                reg: (Registers { pc: wadd(old(self).reg.pc, 1), ..old(self).reg }),
                ..*old(self)
            }),
    {
        let offset = self.fetch_byte(bus) as i8 as i16 as u16;
        self.reg.pc.wrapping_add(offset)
    }

    /// Relative 16-bit: the fetched word offsets the advanced PC
    /// (two's-complement wrap at 16 bits).
    pub fn addr_relative16<B: Bus>(&mut self, bus: &B) -> (r: u16)
        ensures
            r == wadd(wadd(old(self).reg.pc, 2), mem_word(bus, old(self).reg.pc)),
            *final(self) == (Cpu {
                reg: (Registers { pc: wadd(old(self).reg.pc, 2), ..old(self).reg }),
                ..*old(self)
            }),
    {
        let offset = self.fetch_word(bus);
        self.reg.pc.wrapping_add(offset)
    }

    /// Arm the NMI input (every write to S routes through the places that
    /// call this).
    pub fn arm_nmi(&mut self)
        ensures
            *final(self) == (Cpu { nmi_armed: true, ..*old(self) }),
    {
        self.nmi_armed = true;
    }

    // ---- step and run ----

    /// Advance the CPU by exactly one of: one instruction, one interrupt
    /// dispatch, or one idle cycle (halted, or parked in SYNC or CWAI with
    /// nothing to take). Returns the cycles consumed by this call.
    ///
    /// While halted, `step` returns 1 without any side effect. In SYNC the
    /// CPU idles one cycle per call until an interrupt input is asserted; a
    /// masked input still leaves SYNC but is not dispatched. In CWAI the CPU
    /// idles until an interrupt it can take arrives, which is dispatched
    /// without re-pushing. Otherwise an interrupt dispatch or one
    /// fetch-decode-execute runs, and the cycle counter strictly increases
    /// by at least the executed opcode's base-table entry.
    #[verifier::rlimit(100)]
    #[verifier::spinoff_prover]
    pub fn step<B: Bus>(&mut self, bus: &mut B) -> (r: u64)
        requires
            old(self).wf(),
            old(self).cycles <= u64::MAX - STEP_CYCLE_CAP,
        ensures
            final(self).wf(),
            old(self).nmi_armed ==> final(self).nmi_armed,
            old(self).halted ==> r == 1 && *final(self) == *old(self) && (forall|a: u16|
                final(bus).mem(a) == old(bus).mem(a)),
            !old(self).halted ==> old(self).cycles < final(self).cycles <= old(self).cycles
                + STEP_CYCLE_CAP && r == final(self).cycles - old(self).cycles,
            (!old(self).halted && old(self).sync && !old(self).int_asserted()) ==> *final(self)
                == (Cpu { cycles: (old(self).cycles + 1) as u64, ..*old(self) }) && (forall|a: u16|
                final(bus).mem(a) == old(bus).mem(a)),
            (!old(self).halted && old(self).cwai && !old(self).will_dispatch()) ==> *final(self)
                == (Cpu { cycles: (old(self).cycles + 1) as u64, ..*old(self) }) && (forall|a: u16|
                final(bus).mem(a) == old(bus).mem(a)),
            ({
                let op = old(bus).mem(old(self).reg.pc);
                let op2 = old(bus).mem(wadd(old(self).reg.pc, 1));
                (!old(self).halted && !old(self).cwai && !(old(self).sync && !old(
                    self,
                ).int_asserted()) && !old(self).will_dispatch()) ==> final(self).cycles >= old(
                    self,
                ).cycles + (if op == 0x10 {
                    crate::opcodes::page1::page1_base(op2)
                } else if op == 0x11 {
                    crate::opcodes::page2::page2_base(op2)
                } else {
                    crate::opcodes::page0::page0_base(op)
                })
            }),
            ({
                let o = step_outcome(*old(self), mem_fn(old(bus)));
                &&& *final(self) == o.0
                &&& (forall|a: u16| final(bus).mem(a) == (o.1)(a))
                &&& r == o.2
            }),
    {
        if self.halted {
            return 1;
        }
        let start_cycles = self.cycles;

        // SYNC: wait for any interrupt input, masked or not
        if self.sync {
            if self.nmi_pending || self.firq_line || self.irq_line {
                self.sync = false;
            } else {
                self.cycles = self.cycles + 1;
                return 1;
            }
        }

        // Pending interrupts, by priority: NMI, FIRQ, IRQ
        if self.check_interrupts(bus) {
            return self.cycles - start_cycles;
        }

        // CWAI parks the CPU until an interrupt it can take arrives
        if self.cwai {
            self.cycles = self.cycles + 1;
            return 1;
        }

        // Fetch and execute one instruction
        let opcode = self.fetch_byte(bus);
        let ghost pre = *self;
        let ghost mb = mem_fn(bus);
        self.execute(bus, opcode);

        proof {
            let m = mem_fn(old(bus));
            let c1 = if old(self).sync {
                Cpu { sync: false, ..*old(self) }
            } else {
                *old(self)
            };
            let op = m(c1.reg.pc);
            let c2 = Cpu { reg: (Registers { pc: wadd(c1.reg.pc, 1), ..c1.reg }), ..c1 };
            assert(opcode == op);
            assert(mb == m);
            assert(pre == c2);
            assert(*self == crate::opcodes::execute_outcome(pre, mb, opcode).0);
            assert(*self == crate::opcodes::execute_outcome(c2, m, op).0);
        }
        self.cycles - start_cycles
    }

    /// Call `step` until at least `cycle_budget` cycles have elapsed or the
    /// CPU halts; returns the cycles actually consumed.
    pub fn run<B: Bus>(&mut self, bus: &mut B, cycle_budget: u64) -> (r: u64)
        requires
            old(self).wf(),
            old(self).cycles + cycle_budget <= u64::MAX - STEP_CYCLE_CAP,
        ensures
            final(self).wf(),
            r == final(self).cycles - old(self).cycles,
            old(self).cycles <= final(self).cycles,
            final(self).cycles <= old(self).cycles + cycle_budget + STEP_CYCLE_CAP,
            final(self).cycles >= old(self).cycles + cycle_budget || final(self).halted,
            exists|n: nat|
                #![trigger steps_outcome(*old(self), mem_fn(old(bus)), n)]
                (*final(self) == steps_outcome(*old(self), mem_fn(old(bus)), n).0 && (forall|
                    a: u16,
                |
                    final(bus).mem(a) == (steps_outcome(*old(self), mem_fn(old(bus)), n).1)(a))),
    {
        let target = self.cycles + cycle_budget;
        let ghost m0 = mem_fn(bus);
        let ghost mut steps: nat = 0;
        while self.cycles < target && !self.halted
            invariant
                self.wf(),
                target == old(self).cycles + cycle_budget,
                old(self).cycles <= self.cycles,
                self.cycles <= target + STEP_CYCLE_CAP,
                target <= u64::MAX - STEP_CYCLE_CAP,
                *self == steps_outcome(*old(self), m0, steps).0,
                forall|a: u16| bus.mem(a) == (steps_outcome(*old(self), m0, steps).1)(a),
            decreases (if self.cycles < target {
                target - self.cycles
            } else {
                0int
            }),
        {
            proof {
                assert(mem_fn(bus) =~= steps_outcome(*old(self), m0, steps).1);
            }
            self.step(bus);
            proof {
                steps = steps + 1;
            }
        }
        proof {
            assert(*self == steps_outcome(*old(self), m0, steps).0 && (forall|a: u16|
                bus.mem(a) == (steps_outcome(*old(self), m0, steps).1)(a)));
        }
        self.cycles - (target - cycle_budget)
    }

    // ---- interrupt logic ----

    /// Check the interrupt inputs in priority order (NMI, then FIRQ, then
    /// IRQ) and dispatch at most one: save context (unless CWAI already did),
    /// apply the masks, and vector. Returns whether an interrupt was taken.
    #[verifier::rlimit(100)]
    #[verifier::spinoff_prover]
    pub fn check_interrupts<B: Bus>(&mut self, bus: &mut B) -> (taken: bool)
        requires
            old(self).wf(),
            old(self).cycles <= u64::MAX - STEP_CYCLE_CAP,
        ensures
            final(self).wf(),
            taken == old(self).will_dispatch(),
            final(self).nmi_armed == old(self).nmi_armed,
            !taken ==> *final(self) == *old(self) && (forall|a: u16|
                final(bus).mem(a) == old(bus).mem(a)),
            taken ==> ({
                &&& final(self).reg.d == old(self).reg.d
                &&& final(self).reg.x == old(self).reg.x
                &&& final(self).reg.y == old(self).reg.y
                &&& final(self).reg.u == old(self).reg.u
                &&& final(self).reg.dp == old(self).reg.dp
                &&& final(self).halted == old(self).halted
                &&& final(self).illegal == old(self).illegal
                &&& final(self).sync == old(self).sync
                &&& final(self).firq_line == old(self).firq_line
                &&& final(self).irq_line == old(self).irq_line
                &&& final(self).nmi_pending == false
                &&& final(self).cwai == false
            }),
            // NMI: full context (E=1) unless CWAI already pushed; masks I and F.
            old(self).nmi_pending ==> ({
                let cc1 = (ConditionCodes { e: true, ..old(self).reg.cc });
                &&& final(self).cycles == old(self).cycles + 19
                &&& final(self).reg.pc == word(
                    final(bus).mem(VEC_NMI),
                    final(bus).mem(wadd(VEC_NMI, 1)),
                )
                &&& (!old(self).cwai ==> final(self).reg.s == wsub(old(self).reg.s, 12)
                    && final(self).reg.cc == (ConditionCodes {
                    e: true,
                    i: true,
                    f: true,
                    ..old(self).reg.cc
                }) && (forall|a: u16|
                    final(bus).mem(a) == entire_frame_at(
                        (Registers { cc: cc1, ..old(self).reg }),
                        old(self).reg.s,
                        a,
                        old(bus).mem(a),
                    )))
                &&& (old(self).cwai ==> final(self).reg.s == old(self).reg.s && final(self).reg.cc
                    == (ConditionCodes { i: true, f: true, ..old(self).reg.cc }) && (forall|a: u16|
                    final(bus).mem(a) == old(bus).mem(a)))
            }),
            // FIRQ: short context (PC and CC with E=0) unless CWAI already
            // pushed; masks I and F.
            (!old(self).nmi_pending && old(self).firq_line && !old(self).reg.cc.f) ==> ({
                let cc1 = (ConditionCodes { e: false, ..old(self).reg.cc });
                &&& final(self).cycles == old(self).cycles + 10
                &&& final(self).reg.pc == word(
                    final(bus).mem(VEC_FIRQ),
                    final(bus).mem(wadd(VEC_FIRQ, 1)),
                )
                &&& (!old(self).cwai ==> final(self).reg.s == wsub(old(self).reg.s, 3)
                    && final(self).reg.cc == (ConditionCodes {
                    e: false,
                    i: true,
                    f: true,
                    ..old(self).reg.cc
                }) && (forall|a: u16|
                    final(bus).mem(a) == (if a == wsub(old(self).reg.s, 3) {
                        cc1.as_byte()
                    } else if a == wsub(old(self).reg.s, 2) {
                        hi8(old(self).reg.pc)
                    } else if a == wsub(old(self).reg.s, 1) {
                        lo8(old(self).reg.pc)
                    } else {
                        old(bus).mem(a)
                    })))
                &&& (old(self).cwai ==> final(self).reg.s == old(self).reg.s && final(self).reg.cc
                    == (ConditionCodes { i: true, f: true, ..old(self).reg.cc }) && (forall|a: u16|
                    final(bus).mem(a) == old(bus).mem(a)))
            }),
            // IRQ: full context (E=1) unless CWAI already pushed; masks I
            // only.
            (!old(self).nmi_pending && !(old(self).firq_line && !old(self).reg.cc.f) && old(
                self,
            ).irq_line && !old(self).reg.cc.i) ==> ({
                let cc1 = (ConditionCodes { e: true, ..old(self).reg.cc });
                &&& final(self).cycles == old(self).cycles + 19
                &&& final(self).reg.pc == word(
                    final(bus).mem(VEC_IRQ),
                    final(bus).mem(wadd(VEC_IRQ, 1)),
                )
                &&& (!old(self).cwai ==> final(self).reg.s == wsub(old(self).reg.s, 12)
                    && final(self).reg.cc == (ConditionCodes {
                    e: true,
                    i: true,
                    ..old(self).reg.cc
                }) && (forall|a: u16|
                    final(bus).mem(a) == entire_frame_at(
                        (Registers { cc: cc1, ..old(self).reg }),
                        old(self).reg.s,
                        a,
                        old(bus).mem(a),
                    )))
                &&& (old(self).cwai ==> final(self).reg.s == old(self).reg.s && final(self).reg.cc
                    == (ConditionCodes { i: true, ..old(self).reg.cc }) && (forall|a: u16|
                    final(bus).mem(a) == old(bus).mem(a)))
            }),
            taken ==> ({
                let o = dispatch_outcome(*old(self), mem_fn(old(bus)));
                &&& *final(self) == o.0
                &&& (forall|a: u16| final(bus).mem(a) == (o.1)(a))
            }),
    {
        proof {
            reveal(dispatch_outcome);
        }
        // NMI (edge-triggered, highest priority)
        if self.nmi_pending {
            self.nmi_pending = false;
            if !self.cwai {
                self.reg.cc.set_entire(true);
                self.push_entire_state(bus);
            }
            self.cwai = false;
            self.reg.cc.set_irq_inhibit(true);
            self.reg.cc.set_firq_inhibit(true);
            self.reg.pc = bus.read_word(VEC_NMI);
            self.cycles = self.cycles + 19;
            return true;
        }

        // FIRQ (level-triggered): saves only PC and CC, with E clear
        if self.firq_line && !self.reg.cc.firq_inhibit() {
            if !self.cwai {
                self.reg.cc.set_entire(false);
                let pc = self.reg.pc;
                self.push_word_s(bus, pc);
                let ccb = self.reg.cc.to_byte();
                self.push_byte_s(bus, ccb);
            }
            self.cwai = false;
            self.reg.cc.set_irq_inhibit(true);
            self.reg.cc.set_firq_inhibit(true);
            self.reg.pc = bus.read_word(VEC_FIRQ);
            self.cycles = self.cycles + 10;
            return true;
        }

        // IRQ (level-triggered): saves the entire state, F stays as it was
        if self.irq_line && !self.reg.cc.irq_inhibit() {
            if !self.cwai {
                self.reg.cc.set_entire(true);
                self.push_entire_state(bus);
            }
            self.cwai = false;
            self.reg.cc.set_irq_inhibit(true);
            self.reg.pc = bus.read_word(VEC_IRQ);
            self.cycles = self.cycles + 19;
            return true;
        }

        false
    }
}

} // verus!
