//! The memory bus the CPU runs against.
//!
//! The host supplies the bus; the CPU sees it only through this trait. The
//! spec function [`Bus::mem`] is the abstract contents of the 64 KB address
//! space, and every contract of the CPU is stated over it.

use vstd::prelude::*;

use crate::words::{hi8, lo8, wadd, word};

verus! {

/// Interrupt and control signals returned by [`Bus::tick`].
///
/// Each field corresponds to a physical input pin on the 6809 CPU.
/// The default is all signals de-asserted (inactive).
#[derive(Debug, Clone, Copy, PartialEq, Eq)]
pub struct BusSignals {
    /// IRQ line state (active = asserted, level-triggered).
    pub irq: bool,
    /// FIRQ line state (active = asserted, level-triggered).
    pub firq: bool,
    /// NMI request (edge-triggered; `true` triggers once).
    pub nmi: bool,
    /// Request the CPU to halt (e.g. watchdog expiry).
    pub halt: bool,
}

impl Default for BusSignals {
    /// All signals de-asserted.
    fn default() -> (r: Self)
        ensures
            r == (BusSignals { irq: false, firq: false, nmi: false, halt: false }),
    {
        BusSignals { irq: false, firq: false, nmi: false, halt: false }
    }
}

/// The big-endian 16-bit word a bus holds at an address: the high byte at
/// `addr`, the low byte at `addr + 1`, wrapping at the top of memory.
pub open spec fn mem_word<B: Bus + ?Sized>(bus: &B, addr: u16) -> u16 {
    word(bus.mem(addr), bus.mem(wadd(addr, 1)))
}

/// A bus's memory contents as a function of the address.
pub open spec fn mem_fn<B: Bus + ?Sized>(bus: &B) -> spec_fn(u16) -> u8 {
    |a: u16| bus.mem(a)
}

/// Memory contents after one byte is stored.
pub open spec fn store8(m: spec_fn(u16) -> u8, at: u16, v: u8) -> spec_fn(u16) -> u8 {
    |a: u16|
        if a == at {
            v
        } else {
            m(a)
        }
}

/// Memory bus trait for the 6809 CPU.
///
/// Implement this trait to provide the CPU with access to memory and I/O.
/// The 6809 has a 16-bit address bus (a 64 KB address space) and an 8-bit
/// data bus.
///
/// Peripherals that need to advance with CPU time should implement
/// [`tick`](Bus::tick) and return the appropriate [`BusSignals`] to drive the
/// CPU's interrupt lines.
pub trait Bus {
    /// The byte the bus holds at each address. Contracts over the whole CPU
    /// are stated in terms of this view of memory.
    spec fn mem(&self, addr: u16) -> u8;

    /// Read a byte from the given address. Reads have no effect the CPU can
    /// observe.
    fn read(&self, addr: u16) -> (r: u8)
        ensures
            r == self.mem(addr),
    ;

    /// Write a byte to the given address.
    fn write(&mut self, addr: u16, val: u8)
        ensures
            forall|a: u16|
                final(self).mem(a) == (if a == addr {
                    val
                } else {
                    old(self).mem(a)
                }),
    ;

    /// Read a big-endian 16-bit word (high byte at `addr`, low byte at
    /// `addr + 1`, with 16-bit address wrap).
    fn read_word(&self, addr: u16) -> (r: u16)
        ensures
            r == word(self.mem(addr), self.mem(wadd(addr, 1))),
    {
        let hi = self.read(addr) as u16;
        let lo = self.read(addr.wrapping_add(1)) as u16;
        (hi << 8) | lo
    }

    /// Write a big-endian 16-bit word (high byte at `addr`, low byte at
    /// `addr + 1`, with 16-bit address wrap).
    fn write_word(&mut self, addr: u16, val: u16)
        ensures
            forall|a: u16|
                final(self).mem(a) == (if a == wadd(addr, 1) {
                    lo8(val)
                } else if a == addr {
                    hi8(val)
                } else {
                    old(self).mem(a)
                }),
    {
        self.write(addr, (val >> 8) as u8);
        self.write(addr.wrapping_add(1), #[verifier::truncate] (val as u8));
    }

    /// Advance peripherals by `cycles` CPU cycles and return the current
    /// interrupt and control signals.
    ///
    /// Called by the host after each CPU step (or batch of steps); the core
    /// itself never calls it. The host is responsible for feeding the
    /// returned signals back into the CPU via its `set_irq`, `set_firq` and
    /// `trigger_nmi` operations.
    ///
    /// The default implementation is a no-op that reports all signals
    /// inactive, which is correct for a bus with no peripherals.
    fn tick(&mut self, cycles: u64) -> (r: BusSignals)
        default_ensures
            r == (BusSignals { irq: false, firq: false, nmi: false, halt: false }),
            forall|a: u16| final(self).mem(a) == old(self).mem(a),
    {
        let _ = cycles;
        BusSignals::default()
    }
}

} // verus!
