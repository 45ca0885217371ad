//! End-to-end scenarios: small programs placed at a reset vector, ticked, and
//! checked against the documented post-states.

use nes::bus::Bus;
use nes::cpu_6502::Cpu6502;

/// A processor whose bus holds `bytes` at `origin`, with the reset vector
/// pointing there.
fn boot_with_program(origin: u16, bytes: &[u8]) -> Cpu6502 {
    let mut bus = Bus::new();
    let mut address: u16 = origin;
    for &byte in bytes {
        bus.write_u8(address, byte);
        address = address.wrapping_add(1);
    }
    bus.write_u16(0xFFFC, origin);
    Cpu6502::new(bus)
}

#[test]
fn reset_state() {
    let cpu = boot_with_program(0x0200, &[0xEA]);
    assert_eq!(cpu.a(), 0);
    assert_eq!(cpu.x(), 0);
    assert_eq!(cpu.y(), 0);
    assert_eq!(cpu.pc(), 0x0200);
    assert_eq!(cpu.s(), 0xFF);
    assert_eq!(cpu.p(), 0b0011_0100);
    assert_eq!(cpu.cycles(), 0);
    assert!(!cpu.is_halted());
}

#[test]
fn lda_immediate_zero_flag() {
    // LDA #$00, KIL.
    let mut cpu = boot_with_program(0x0200, &[0xA9, 0x00, 0x02]);
    let running: bool = cpu.tick();
    assert!(running);
    assert_eq!(cpu.a(), 0x00);
    assert_eq!(cpu.p() & 0x02, 0x02, "zero flag set");
    assert_eq!(cpu.p() & 0x80, 0x00, "negative flag clear");
    assert_eq!(cpu.pc(), 0x0202);
    assert_eq!(cpu.cycles(), 2);
}

#[test]
fn lda_immediate_negative_flag() {
    let mut cpu = boot_with_program(0x0200, &[0xA9, 0x80, 0x02]);
    cpu.tick();
    assert_eq!(cpu.a(), 0x80);
    assert_eq!(cpu.p() & 0x02, 0x00, "zero flag clear");
    assert_eq!(cpu.p() & 0x80, 0x80, "negative flag set");
}

#[test]
fn adc_with_carry_and_overflow() {
    // LDA #$50, ADC #$50: 0x50 + 0x50 overflows signed but not unsigned.
    let mut cpu = boot_with_program(0x0200, &[0xA9, 0x50, 0x69, 0x50, 0x02]);
    cpu.tick();
    cpu.tick();
    assert_eq!(cpu.a(), 0xA0);
    assert_eq!(cpu.p() & 0x01, 0x00, "carry clear");
    assert_eq!(cpu.p() & 0x40, 0x40, "overflow set");
    assert_eq!(cpu.p() & 0x80, 0x80, "negative set");
    assert_eq!(cpu.p() & 0x02, 0x00, "zero clear");
}

#[test]
fn sbc_borrow() {
    // LDA #$50, SEC, SBC #$F0: borrow occurs, no signed overflow.
    let mut cpu = boot_with_program(0x0200, &[0xA9, 0x50, 0x38, 0xE9, 0xF0, 0x02]);
    cpu.tick();
    cpu.tick();
    cpu.tick();
    assert_eq!(cpu.a(), 0x60);
    assert_eq!(cpu.p() & 0x01, 0x00, "carry clear: borrow taken");
    assert_eq!(cpu.p() & 0x40, 0x00, "overflow clear");
}

#[test]
fn jsr_rts_round_trip() {
    // 0x0200: JSR $0205.  0x0205: RTS.
    let mut cpu = boot_with_program(0x0200, &[0x20, 0x05, 0x02, 0xEA, 0xEA, 0x60]);
    cpu.tick();
    assert_eq!(cpu.pc(), 0x0205);
    assert_eq!(cpu.s(), 0xFD);
    cpu.tick();
    assert_eq!(cpu.pc(), 0x0203, "back to the instruction after the JSR");
    assert_eq!(cpu.s(), 0xFF, "stack pointer restored");
    assert_eq!(cpu.cycles(), 12);
}

#[test]
fn indirect_jmp_page_bug() {
    // JMP ($02FF): the low byte of the target comes from $02FF, the high
    // byte from $0200 (not $0300). The jump itself sits away from page two
    // so that the pointer bytes are free to differ from the opcode bytes.
    let mut bus = Bus::new();
    bus.write_u8(0x0400, 0x6C);
    bus.write_u8(0x0401, 0xFF);
    bus.write_u8(0x0402, 0x02);
    bus.write_u8(0x02FF, 0x34);
    bus.write_u8(0x0200, 0x12);
    bus.write_u8(0x0300, 0x56);
    bus.write_u16(0xFFFC, 0x0400);
    let mut cpu = Cpu6502::new(bus);
    cpu.tick();
    assert_eq!(cpu.pc(), 0x1234, "high byte fetched from $0200, not $0300");
    assert_eq!(cpu.cycles(), 5);
}

#[test]
fn branch_page_cross_costs_two_extra() {
    // BPL +2 at 0x02FD with N clear: the target 0x0301 lies past the page.
    let mut cpu = boot_with_program(0x02FD, &[0x10, 0x02, 0xEA, 0xEA]);
    cpu.tick();
    assert_eq!(cpu.pc(), 0x0301);
    assert_eq!(cpu.cycles(), 4, "2 base + 1 taken + 1 page crossing");
}

#[test]
fn branch_taken_same_page_costs_one_extra() {
    let mut cpu = boot_with_program(0x0200, &[0x10, 0x02, 0xEA, 0xEA, 0x02]);
    cpu.tick();
    assert_eq!(cpu.pc(), 0x0204);
    assert_eq!(cpu.cycles(), 3, "2 base + 1 taken");
}

#[test]
fn branch_not_taken_costs_nothing_extra() {
    // BMI with N clear falls through.
    let mut cpu = boot_with_program(0x0200, &[0x30, 0x02, 0x02]);
    cpu.tick();
    assert_eq!(cpu.pc(), 0x0202);
    assert_eq!(cpu.cycles(), 2);
}

#[test]
fn branch_backward_wraps() {
    // BNE -3 from the end of the operand fetch at 0x0204 lands at 0x0201;
    // Z is clear after LDA #$01.
    let mut cpu = boot_with_program(0x0200, &[0xA9, 0x01, 0xD0, 0xFD]);
    cpu.tick();
    cpu.tick();
    assert_eq!(cpu.pc(), 0x0201);
}

#[test]
fn kil_halts_and_later_ticks_change_nothing() {
    let mut cpu = boot_with_program(0x0200, &[0xEA, 0x02]);
    assert!(cpu.tick(), "NOP keeps running");
    assert!(!cpu.tick(), "KIL halts");
    assert!(cpu.is_halted());
    let pc_after_halt: u16 = cpu.pc();
    let cycles_after_halt: u64 = cpu.cycles();
    assert!(!cpu.tick(), "a halted processor stays halted");
    assert_eq!(cpu.pc(), pc_after_halt, "no progress after halt");
    assert_eq!(cpu.cycles(), cycles_after_halt);
}

#[test]
fn run_stops_on_kil() {
    let mut cpu = boot_with_program(0x0200, &[0xE8, 0xE8, 0xE8, 0x02]);
    let halted: bool = cpu.run(100);
    assert!(halted);
    assert_eq!(cpu.x(), 3);
}

#[test]
fn run_spends_exactly_its_budget_when_nothing_halts() {
    // Four INX before the halt opcode, but only two ticks of budget.
    let mut cpu = boot_with_program(0x0200, &[0xE8, 0xE8, 0xE8, 0xE8, 0x02]);
    let halted: bool = cpu.run(2);
    assert!(!halted);
    assert_eq!(cpu.x(), 2, "exactly two instructions ran");
}

#[test]
fn run_until_stops_when_the_budget_runs_out() {
    let mut cpu = boot_with_program(0x0200, &[0xE8, 0xE8, 0xE8, 0xE8, 0x02]);
    cpu.run_until(|c: &Cpu6502| c.x() == 9, 3);
    assert_eq!(cpu.x(), 3, "the predicate never held: the budget decided");
    assert!(!cpu.is_halted());
}

#[test]
fn run_until_does_not_tick_when_the_predicate_already_holds() {
    let mut cpu = boot_with_program(0x0200, &[0xE8, 0xE8, 0x02]);
    cpu.run_until(|c: &Cpu6502| c.x() == 0, 100);
    assert_eq!(cpu.pc(), 0x0200, "no instruction ran");
    assert_eq!(cpu.cycles(), 0);
}

#[test]
fn run_until_predicate() {
    // INX until X reaches 2.
    let mut cpu = boot_with_program(0x0200, &[0xE8, 0xE8, 0xE8, 0xE8, 0x02]);
    cpu.run_until(|c: &Cpu6502| c.x() == 2, 100);
    assert_eq!(cpu.x(), 2);
    assert!(!cpu.is_halted());
}

#[test]
fn pc_advances_every_ordinary_tick() {
    let mut cpu = boot_with_program(0x0200, &[0xEA, 0xA9, 0x07, 0x02]);
    let before_nop: u16 = cpu.pc();
    cpu.tick();
    assert_ne!(cpu.pc(), before_nop);
    let before_lda: u16 = cpu.pc();
    cpu.tick();
    assert_ne!(cpu.pc(), before_lda);
}

#[test]
fn push_bit_reads_set_throughout() {
    let mut cpu = boot_with_program(0x0200, &[0xA9, 0xFF, 0x48, 0x28, 0x18, 0x02]);
    assert_eq!(cpu.p() & 0x20, 0x20);
    for _ in 0..4 {
        cpu.tick();
        assert_eq!(cpu.p() & 0x20, 0x20, "bit 5 of P always reads set");
    }
}

#[test]
fn brk_pushes_state_and_takes_irq_vector() {
    let mut bus = Bus::new();
    bus.write_u8(0x0200, 0x00);
    bus.write_u16(0xFFFC, 0x0200);
    bus.write_u16(0xFFFE, 0x0400);
    let mut cpu = Cpu6502::new(bus);
    cpu.tick();
    assert_eq!(cpu.pc(), 0x0400);
    assert_eq!(cpu.p() & 0x04, 0x04, "interrupt disable set");
    assert_eq!(cpu.s(), 0xFC);
    assert_eq!(cpu.bus().read_u8(0x01FF), 0x02, "pushed return high byte");
    assert_eq!(cpu.bus().read_u8(0x01FE), 0x02, "pushed return low byte: $0202");
    assert_eq!(cpu.bus().read_u8(0x01FD), 0x34 | 0x30, "pushed P with break bit");
    assert_eq!(cpu.cycles(), 7);
}

#[test]
fn rti_restores_status_and_counter() {
    let mut cpu = boot_with_program(0x0200, &[0x40]);
    cpu.push_stack_u16(0x0400);
    cpu.push_stack_u8(0x00);
    cpu.tick();
    assert_eq!(cpu.pc(), 0x0400);
    assert_eq!(cpu.p(), 0x20, "pulled status with the push bit forced on");
    assert_eq!(cpu.s(), 0xFF);
}
