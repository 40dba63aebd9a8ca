//! Scenario and property tests: cycle counts, flag edge cases, stack round
//! trips, interrupts and the wait states.

use mc6809_core::{Bus, Cpu};

struct FlatRam {
    mem: [u8; 65536],
}

impl FlatRam {
    fn new() -> Self {
        Self { mem: [0u8; 65536] }
    }

    fn set_reset_vector(&mut self, addr: u16) {
        self.mem[0xFFFE] = (addr >> 8) as u8;
        self.mem[0xFFFF] = addr as u8;
    }

    fn load(&mut self, addr: u16, bytes: &[u8]) {
        let start = addr as usize;
        self.mem[start..start + bytes.len()].copy_from_slice(bytes);
    }
}

impl Bus for FlatRam {
    fn mem(&self, addr: u16) -> u8 {
        self.mem[addr as usize]
    }
    fn read(&self, addr: u16) -> u8 {
        self.mem[addr as usize]
    }
    fn write(&mut self, addr: u16, val: u8) {
        self.mem[addr as usize] = val;
    }
}

fn boot(program: &[u8], start: u16) -> (Cpu, FlatRam) {
    let mut bus = FlatRam::new();
    bus.set_reset_vector(start);
    bus.load(start, program);
    let mut cpu = Cpu::new();
    cpu.reset(&mut bus);
    (cpu, bus)
}

#[test]
fn reset_seeds_pc_and_masks() {
    let (cpu, _bus) = boot(&[0x12], 0x0400);
    assert_eq!(cpu.reg.pc, 0x0400);
    assert!(cpu.reg.cc.irq_inhibit());
    assert!(cpu.reg.cc.firq_inhibit());
    assert_eq!(cpu.cycles, 0);
    assert!(!cpu.halted);
    assert!(!cpu.illegal);
}

#[test]
fn adda_carry_zero_half() {
    // LDA #$FF, ADDA #$01: A wraps to zero with C, Z and H set
    let (mut cpu, mut bus) = boot(&[0x86, 0xFF, 0x8B, 0x01], 0x0400);
    cpu.step(&mut bus);
    cpu.step(&mut bus);
    assert_eq!(cpu.reg.a(), 0x00);
    assert!(cpu.reg.cc.carry());
    assert!(cpu.reg.cc.zero());
    assert!(cpu.reg.cc.half_carry());
}

#[test]
fn bsr_pushes_return_address() {
    // BSR +2; the return address 0x0402 is pushed big-endian at 0x7FFE
    let (mut cpu, mut bus) = boot(&[0x8D, 0x02, 0x12, 0x12, 0x39], 0x0400);
    cpu.reg.s = 0x8000;
    cpu.step(&mut bus); // BSR
    assert_eq!(cpu.reg.pc, 0x0404);
    assert_eq!(cpu.reg.s, 0x7FFE);
    assert_eq!(bus.mem[0x7FFE], 0x04);
    assert_eq!(bus.mem[0x7FFF], 0x02);
    cpu.step(&mut bus); // RTS
    assert_eq!(cpu.reg.pc, 0x0402);
    assert_eq!(cpu.reg.s, 0x8000);
}

#[test]
fn swi_stacks_cc_with_entire_set() {
    let (mut cpu, mut bus) = boot(&[0x3F], 0x0400);
    cpu.reg.s = 0x8000;
    bus.mem[0xFFFA] = 0x10;
    bus.mem[0xFFFB] = 0x00;
    cpu.step(&mut bus);
    assert_eq!(cpu.reg.pc, 0x1000);
    assert_eq!(cpu.reg.s, 0x7FF4);
    // the CC byte at the lowest stacked address has E set
    assert!(bus.mem[0x7FF4] & 0x80 != 0);
}

#[test]
fn nmi_ignored_until_s_written() {
    let (mut cpu, mut bus) = boot(&[0x12, 0x10, 0xCE, 0x80, 0x00, 0x12], 0x0400);
    bus.mem[0xFFFC] = 0x20;
    bus.mem[0xFFFD] = 0x00;
    // not armed yet: the trigger is ignored and the NOP runs
    cpu.trigger_nmi();
    cpu.step(&mut bus);
    assert_eq!(cpu.reg.pc, 0x0401);
    // LDS #$8000 arms the NMI input
    cpu.step(&mut bus);
    assert_eq!(cpu.reg.s, 0x8000);
    cpu.trigger_nmi();
    cpu.step(&mut bus);
    assert_eq!(cpu.reg.pc, 0x2000);
    assert!(cpu.reg.cc.irq_inhibit());
    assert!(cpu.reg.cc.firq_inhibit());
    assert!(cpu.reg.cc.entire());
}

#[test]
fn pshs_puls_full_round_trip() {
    // PSHS CC,A,B,DP,X,Y,U then PULS of the same set restores everything
    let (mut cpu, mut bus) = boot(&[0x34, 0x7F, 0x35, 0x7F], 0x0400);
    cpu.reg.s = 0x8000;
    cpu.reg.set_a(0x12);
    cpu.reg.set_b(0x34);
    cpu.reg.dp = 0x56;
    cpu.reg.x = 0x789A;
    cpu.reg.y = 0xBCDE;
    cpu.reg.u = 0xF012;
    cpu.reg.cc.set_carry(true);
    cpu.reg.cc.set_negative(true);
    cpu.step(&mut bus); // PSHS
    assert_eq!(cpu.reg.s, 0x8000 - 10);
    cpu.reg.set_a(0);
    cpu.reg.set_b(0);
    cpu.reg.dp = 0;
    cpu.reg.x = 0;
    cpu.reg.y = 0;
    cpu.reg.u = 0;
    cpu.reg.cc.set_carry(false);
    cpu.reg.cc.set_negative(false);
    cpu.step(&mut bus); // PULS
    assert_eq!(cpu.reg.a(), 0x12);
    assert_eq!(cpu.reg.b(), 0x34);
    assert_eq!(cpu.reg.dp, 0x56);
    assert_eq!(cpu.reg.x, 0x789A);
    assert_eq!(cpu.reg.y, 0xBCDE);
    assert_eq!(cpu.reg.u, 0xF012);
    assert!(cpu.reg.cc.carry());
    assert!(cpu.reg.cc.negative());
    assert_eq!(cpu.reg.s, 0x8000);
}

#[test]
fn pshu_pulu_round_trip() {
    // PSHU A,X then PULU A,X against the user stack
    let (mut cpu, mut bus) = boot(&[0x36, 0x12, 0x37, 0x12], 0x0400);
    cpu.reg.u = 0x7000;
    cpu.reg.set_a(0xA5);
    cpu.reg.x = 0x1234;
    cpu.step(&mut bus);
    assert_eq!(cpu.reg.u, 0x7000 - 3);
    cpu.reg.set_a(0);
    cpu.reg.x = 0;
    cpu.step(&mut bus);
    assert_eq!(cpu.reg.a(), 0xA5);
    assert_eq!(cpu.reg.x, 0x1234);
    assert_eq!(cpu.reg.u, 0x7000);
}

#[test]
fn illegal_opcode_marks_and_continues() {
    let (mut cpu, mut bus) = boot(&[0x02, 0x12], 0x0400);
    cpu.step(&mut bus);
    assert!(cpu.illegal);
    assert!(!cpu.halted);
    assert_eq!(cpu.reg.pc, 0x0401);
    cpu.step(&mut bus); // the NOP after it still runs
    assert_eq!(cpu.reg.pc, 0x0402);
}

#[test]
fn illegal_page1_opcode_costs_a_cycle() {
    let (mut cpu, mut bus) = boot(&[0x10, 0x00], 0x0400);
    let cyc = cpu.step(&mut bus);
    assert!(cpu.illegal);
    assert_eq!(cyc, 1);
    assert_eq!(cpu.reg.pc, 0x0402);
}

#[test]
fn reset_opcode_halts() {
    let (mut cpu, mut bus) = boot(&[0x3E, 0x12], 0x0400);
    cpu.step(&mut bus);
    assert!(cpu.halted);
    let pc = cpu.reg.pc;
    let cyc = cpu.step(&mut bus);
    assert_eq!(cyc, 1);
    assert_eq!(cpu.reg.pc, pc); // no further progress while halted
}

#[test]
fn sync_waits_for_interrupt_line() {
    let (mut cpu, mut bus) = boot(&[0x13, 0x12], 0x0400);
    cpu.step(&mut bus); // SYNC
    let pc = cpu.reg.pc;
    let cyc = cpu.step(&mut bus); // parked
    assert_eq!(cyc, 1);
    assert_eq!(cpu.reg.pc, pc);
    // IRQ is masked after reset, so SYNC clears but no dispatch happens
    cpu.set_irq(true);
    cpu.step(&mut bus);
    assert_eq!(cpu.reg.pc, 0x0402); // the NOP ran
}

#[test]
fn cwai_waits_then_vectors_without_repush() {
    // CWAI #$EF clears the I mask, pushes everything, and waits for IRQ
    let (mut cpu, mut bus) = boot(&[0x3C, 0xEF], 0x0400);
    cpu.reg.s = 0x8000;
    bus.mem[0xFFF8] = 0x30;
    bus.mem[0xFFF9] = 0x00;
    cpu.step(&mut bus); // CWAI: pushes 12 bytes and parks
    assert_eq!(cpu.reg.s, 0x8000 - 12);
    let cyc = cpu.step(&mut bus); // nothing pending: idles
    assert_eq!(cyc, 1);
    assert_eq!(cpu.reg.s, 0x8000 - 12);
    cpu.set_irq(true);
    cpu.step(&mut bus); // dispatch without re-pushing
    assert_eq!(cpu.reg.pc, 0x3000);
    assert_eq!(cpu.reg.s, 0x8000 - 12);
}

#[test]
fn firq_pushes_short_frame() {
    let (mut cpu, mut bus) = boot(&[0x1C, 0xBF, 0x12], 0x0400);
    cpu.reg.s = 0x8000;
    bus.mem[0xFFF6] = 0x40;
    bus.mem[0xFFF7] = 0x00;
    cpu.step(&mut bus); // ANDCC #$BF clears the F mask
    cpu.set_firq(true);
    cpu.step(&mut bus); // FIRQ: only PC and CC are pushed
    assert_eq!(cpu.reg.pc, 0x4000);
    assert_eq!(cpu.reg.s, 0x8000 - 3);
    // the stacked CC has E clear
    assert!(bus.mem[0x7FFD] & 0x80 == 0);
    assert!(cpu.reg.cc.irq_inhibit());
    assert!(cpu.reg.cc.firq_inhibit());
}

#[test]
fn irq_pushes_entire_frame_keeps_f() {
    let (mut cpu, mut bus) = boot(&[0x1C, 0xEF, 0x12], 0x0400);
    cpu.reg.s = 0x8000;
    bus.mem[0xFFF8] = 0x50;
    bus.mem[0xFFF9] = 0x00;
    cpu.step(&mut bus); // ANDCC #$EF clears the I mask
    cpu.set_irq(true);
    cpu.step(&mut bus);
    assert_eq!(cpu.reg.pc, 0x5000);
    assert_eq!(cpu.reg.s, 0x8000 - 12);
    assert!(cpu.reg.cc.irq_inhibit());
    assert!(cpu.reg.cc.firq_inhibit()); // F stays set from reset
    assert!(cpu.reg.cc.entire());
}

#[test]
fn rti_full_restores_state() {
    // SWI saves everything; RTI at the handler restores it
    let (mut cpu, mut bus) = boot(&[0x86, 0x77, 0x3F, 0x12], 0x0400);
    cpu.reg.s = 0x8000;
    bus.mem[0xFFFA] = 0x10;
    bus.mem[0xFFFB] = 0x00;
    bus.mem[0x1000] = 0x3B; // RTI
    cpu.step(&mut bus); // LDA #$77
    cpu.step(&mut bus); // SWI
    assert_eq!(cpu.reg.pc, 0x1000);
    cpu.reg.set_a(0x00);
    cpu.step(&mut bus); // RTI
    assert_eq!(cpu.reg.pc, 0x0403);
    assert_eq!(cpu.reg.a(), 0x77);
    assert_eq!(cpu.reg.s, 0x8000);
}

#[test]
fn tfr_cross_size_writes_sentinel() {
    // TFR A,X: an 8-bit source into a 16-bit destination gives 0xFFFF
    let (mut cpu, mut bus) = boot(&[0x86, 0x42, 0x1F, 0x81], 0x0400);
    cpu.step(&mut bus);
    cpu.step(&mut bus);
    assert_eq!(cpu.reg.x, 0xFFFF);
    assert_eq!(cpu.reg.a(), 0x42);
}

#[test]
fn exg_cross_size_writes_both_sentinels() {
    // EXG A,X: both sides get their own-size sentinel
    let (mut cpu, mut bus) = boot(&[0x86, 0x42, 0x8E, 0x12, 0x34, 0x1E, 0x81], 0x0400);
    cpu.step(&mut bus);
    cpu.step(&mut bus);
    cpu.step(&mut bus);
    assert_eq!(cpu.reg.a(), 0xFF);
    assert_eq!(cpu.reg.x, 0xFFFF);
}

#[test]
fn tfr_to_s_arms_nmi() {
    // TFR X,S writes S, arming the NMI input
    let (mut cpu, mut bus) = boot(&[0x8E, 0x80, 0x00, 0x1F, 0x14, 0x12, 0x12], 0x0400);
    bus.mem[0xFFFC] = 0x60;
    bus.mem[0xFFFD] = 0x00;
    cpu.step(&mut bus); // LDX #$8000
    cpu.step(&mut bus); // TFR X,S
    assert_eq!(cpu.reg.s, 0x8000);
    cpu.trigger_nmi();
    cpu.step(&mut bus);
    assert_eq!(cpu.reg.pc, 0x6000);
}

#[test]
fn illegal_indexed_mode_degrades_to_zero() {
    // LDA with post-byte 0x87 (illegal sub-mode 7) reads address 0
    let (mut cpu, mut bus) = boot(&[0xA6, 0x87], 0x0400);
    bus.mem[0x0000] = 0x5A;
    cpu.step(&mut bus);
    assert_eq!(cpu.reg.a(), 0x5A);
}

#[test]
fn read_word_wraps_at_top_of_memory() {
    let mut bus = FlatRam::new();
    bus.mem[0xFFFF] = 0xAB;
    bus.mem[0x0000] = 0xCD;
    assert_eq!(bus.read_word(0xFFFF), 0xABCD);
}

#[test]
fn write_word_is_big_endian() {
    let mut bus = FlatRam::new();
    bus.write_word(0x1234, 0xBEEF);
    assert_eq!(bus.mem[0x1234], 0xBE);
    assert_eq!(bus.mem[0x1235], 0xEF);
}

#[test]
fn run_stops_at_budget() {
    // An endless chain of NOPs: run consumes at least the budget
    let mut bus = FlatRam::new();
    bus.set_reset_vector(0x0400);
    for a in 0x0400..0x0500u16 {
        bus.mem[a as usize] = 0x12;
    }
    let mut cpu = Cpu::new();
    cpu.reset(&mut bus);
    let consumed = cpu.run(&mut bus, 20);
    assert!(consumed >= 20);
    assert_eq!(consumed, cpu.cycles);
}

#[test]
fn run_stops_when_halted() {
    let (mut cpu, mut bus) = boot(&[0x12, 0x3E], 0x0400);
    let consumed = cpu.run(&mut bus, 1000);
    assert!(cpu.halted);
    assert!(consumed < 1000);
}

#[test]
fn indexed_autodec_on_s_arms_nmi() {
    // LDA ,-S decrements S, which counts as a write to S and arms the NMI
    let (mut cpu, mut bus) = boot(&[0xA6, 0xE2, 0x12, 0x12], 0x0400);
    bus.mem[0xFFFC] = 0x70;
    bus.mem[0xFFFD] = 0x00;
    cpu.reg.s = 0x2000;
    cpu.step(&mut bus);
    assert_eq!(cpu.reg.s, 0x1FFF);
    cpu.trigger_nmi();
    cpu.step(&mut bus);
    assert_eq!(cpu.reg.pc, 0x7000);
}

#[test]
fn sta_immediate_form_is_illegal_noop() {
    // opcode 0x87 has no instruction: it is flagged and skipped
    let (mut cpu, mut bus) = boot(&[0x87, 0x12], 0x0400);
    cpu.step(&mut bus);
    assert!(cpu.illegal);
    assert_eq!(cpu.reg.pc, 0x0401);
}

#[test]
fn daa_adjusts_high_nibble_with_carry() {
    // 0x99 + 0x01 = 0x9A; DAA corrects to 0x00 with carry
    let (mut cpu, mut bus) = boot(&[0x86, 0x99, 0x8B, 0x01, 0x19], 0x0400);
    cpu.step(&mut bus);
    cpu.step(&mut bus);
    assert_eq!(cpu.reg.a(), 0x9A);
    cpu.step(&mut bus);
    assert_eq!(cpu.reg.a(), 0x00);
    assert!(cpu.reg.cc.carry());
    assert!(cpu.reg.cc.zero());
}

#[test]
fn lbsr_pushes_and_branches() {
    let (mut cpu, mut bus) = boot(&[0x17, 0x00, 0x10], 0x0400);
    cpu.reg.s = 0x8000;
    cpu.step(&mut bus);
    assert_eq!(cpu.reg.pc, 0x0413);
    assert_eq!(cpu.reg.s, 0x7FFE);
    assert_eq!(bus.mem[0x7FFE], 0x04);
    assert_eq!(bus.mem[0x7FFF], 0x03);
}

#[test]
fn sts_page1_stores_s() {
    let (mut cpu, mut bus) = boot(&[0x10, 0xDF, 0x20], 0x0400);
    cpu.reg.s = 0xBEEF;
    cpu.step(&mut bus);
    assert_eq!(bus.mem[0x0020], 0xBE);
    assert_eq!(bus.mem[0x0021], 0xEF);
}

#[test]
fn cmps_page2_sets_zero() {
    let (mut cpu, mut bus) = boot(&[0x11, 0x8C, 0x12, 0x34], 0x0400);
    cpu.reg.s = 0x1234;
    cpu.step(&mut bus);
    assert!(cpu.reg.cc.zero());
    assert_eq!(cpu.reg.s, 0x1234);
}

#[test]
fn swi2_does_not_mask_interrupts() {
    let (mut cpu, mut bus) = boot(&[0x1C, 0x00, 0x10, 0x3F], 0x0400);
    cpu.reg.s = 0x8000;
    bus.mem[0xFFF4] = 0x55;
    bus.mem[0xFFF5] = 0x00;
    cpu.step(&mut bus); // ANDCC #$00 clears all flags
    cpu.step(&mut bus); // SWI2
    assert_eq!(cpu.reg.pc, 0x5500);
    assert!(!cpu.reg.cc.irq_inhibit());
    assert!(!cpu.reg.cc.firq_inhibit());
    assert!(cpu.reg.cc.entire());
    assert_eq!(cpu.reg.s, 0x8000 - 12);
}

#[test]
fn swi3_vectors_from_fff2() {
    let (mut cpu, mut bus) = boot(&[0x11, 0x3F], 0x0400);
    cpu.reg.s = 0x8000;
    bus.mem[0xFFF2] = 0x66;
    bus.mem[0xFFF3] = 0x00;
    cpu.step(&mut bus);
    assert_eq!(cpu.reg.pc, 0x6600);
    assert_eq!(cpu.reg.s, 0x8000 - 12);
}

#[test]
fn nmi_beats_firq_and_irq() {
    let (mut cpu, mut bus) = boot(&[0x10, 0xCE, 0x80, 0x00, 0x12], 0x0400);
    bus.mem[0xFFFC] = 0x77;
    bus.mem[0xFFFD] = 0x00;
    cpu.step(&mut bus); // LDS #$8000 arms NMI
    cpu.set_irq(true);
    cpu.set_firq(true);
    cpu.trigger_nmi();
    cpu.step(&mut bus);
    assert_eq!(cpu.reg.pc, 0x7700); // the NMI vector wins
}

#[test]
fn leas_sets_no_flags_leax_sets_zero() {
    let (mut cpu, mut bus) = boot(&[0x8E, 0x00, 0x00, 0x30, 0x84, 0x32, 0x84], 0x0400);
    cpu.step(&mut bus); // LDX #0 sets Z
    cpu.step(&mut bus); // LEAX ,X keeps Z set (EA is 0)
    assert!(cpu.reg.cc.zero());
    cpu.step(&mut bus); // LEAS ,X: no flag change, S loaded
    assert!(cpu.reg.cc.zero());
    assert_eq!(cpu.reg.s, 0x0000);
}
