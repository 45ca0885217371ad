//! The stack primitives and the flag discipline, exercised directly through
//! the public stack and flag operations.

use nes::bus::Bus;
use nes::cpu_6502::{Cpu6502, StatusFlag};

fn fresh_cpu() -> Cpu6502 {
    let mut bus = Bus::new();
    bus.write_u16(0xFFFC, 0x0200);
    Cpu6502::new(bus)
}

#[test]
fn push_pull_u8_round_trips() {
    let mut cpu = fresh_cpu();
    cpu.push_stack_u8(0xAB);
    assert_eq!(cpu.s(), 0xFE, "push decrements S");
    let pulled: u8 = cpu.pull_stack_u8();
    assert_eq!(pulled, 0xAB);
    assert_eq!(cpu.s(), 0xFF, "pull increments S back");
}

#[test]
fn push_pull_u16_round_trips_little_endian() {
    let mut cpu = fresh_cpu();
    cpu.push_stack_u16(0xBEEF);
    assert_eq!(cpu.s(), 0xFD, "a word costs two slots");
    assert_eq!(cpu.bus().read_u8(0x01FF), 0xBE, "high byte at the higher address");
    assert_eq!(cpu.bus().read_u8(0x01FE), 0xEF, "low byte at the lower address");
    let pulled: u16 = cpu.pull_stack_u16();
    assert_eq!(pulled, 0xBEEF);
    assert_eq!(cpu.s(), 0xFF);
}

#[test]
fn stack_pointer_wraps_modulo_256() {
    let mut cpu = fresh_cpu();
    for _ in 0..=0xFF {
        cpu.push_stack_u8(0x11);
    }
    assert_eq!(cpu.s(), 0xFF, "256 pushes wrap the pointer all the way round");
    cpu.push_stack_u8(0x22);
    assert_eq!(cpu.s(), 0xFE);
    assert_eq!(cpu.bus().read_u8(0x01FF), 0x22, "an overflowing push wraps to $01FF");
}

#[test]
fn php_plp_restores_p_with_forced_bits() {
    // SEC, PHP, CLC, PLP: the pulled P has the break bit cleared and the
    // push bit set, everything else as pushed.
    let mut bus = Bus::new();
    for (i, b) in [0x38u8, 0x08, 0x18, 0x28, 0x02].iter().enumerate() {
        bus.write_u8(0x0200 + i as u16, *b);
    }
    bus.write_u16(0xFFFC, 0x0200);
    let mut cpu = Cpu6502::new(bus);
    for _ in 0..4 {
        cpu.tick();
    }
    assert_eq!(cpu.p(), 0x25, "carry restored, break cleared, push set");
    assert_eq!(cpu.s(), 0xFF);
}

#[test]
fn php_pushes_break_and_push_bits() {
    // PHP at the reset vector.
    let mut bus = Bus::new();
    bus.write_u8(0x0200, 0x08);
    bus.write_u16(0xFFFC, 0x0200);
    let mut cpu = Cpu6502::new(bus);
    cpu.tick();
    assert_eq!(cpu.bus().read_u8(0x01FF), 0x34 | 0x30);
}

#[test]
fn set_and_test_status_flags() {
    let mut cpu = fresh_cpu();
    assert!(!cpu.is_status_flag_set(StatusFlag::Carry));
    cpu.set_status_flag(StatusFlag::Carry, true);
    assert!(cpu.is_status_flag_set(StatusFlag::Carry));
    assert_eq!(cpu.get_carry(), 1);
    cpu.set_status_flag(StatusFlag::Carry, false);
    assert!(!cpu.is_status_flag_set(StatusFlag::Carry));
    assert_eq!(cpu.get_carry(), 0);
    assert!(cpu.is_status_flag_set(StatusFlag::Push));
    assert!(cpu.is_status_flag_set(StatusFlag::InterruptDisable));
}

#[test]
fn update_zero_and_negative_follows_result() {
    let mut cpu = fresh_cpu();
    cpu.update_zero_and_negative_flag(0);
    assert!(cpu.is_status_flag_set(StatusFlag::Zero));
    assert!(!cpu.is_status_flag_set(StatusFlag::Negative));
    cpu.update_zero_and_negative_flag(0x80);
    assert!(!cpu.is_status_flag_set(StatusFlag::Zero));
    assert!(cpu.is_status_flag_set(StatusFlag::Negative));
    cpu.update_zero_and_negative_flag(0x7F);
    assert!(!cpu.is_status_flag_set(StatusFlag::Zero));
    assert!(!cpu.is_status_flag_set(StatusFlag::Negative));
}

#[test]
fn update_carry_takes_ninth_bit() {
    let mut cpu = fresh_cpu();
    cpu.update_carry_flag(0x1A0);
    assert!(cpu.is_status_flag_set(StatusFlag::Carry));
    cpu.update_carry_flag(0x0FF);
    assert!(!cpu.is_status_flag_set(StatusFlag::Carry));
}

#[test]
fn update_overflow_detects_sign_flip() {
    let mut cpu = fresh_cpu();
    // A stays zero out of reset: 0 and operand 0x50 agree on the sign bit;
    // a result of 0xA0 flips it.
    cpu.update_overflow_flag(0x50, 0xA0);
    assert!(cpu.is_status_flag_set(StatusFlag::Overflow));
    cpu.update_overflow_flag(0x50, 0x60);
    assert!(!cpu.is_status_flag_set(StatusFlag::Overflow));
}

#[test]
fn flag_instructions_set_and_clear() {
    // SEC SED SEI CLC CLD CLI CLV via a program; V first set through ADC.
    let mut bus = Bus::new();
    for (i, b) in [0x38u8, 0xF8, 0x78, 0x18, 0xD8, 0x58, 0x02].iter().enumerate() {
        bus.write_u8(0x0200 + i as u16, *b);
    }
    bus.write_u16(0xFFFC, 0x0200);
    let mut cpu = Cpu6502::new(bus);
    cpu.tick();
    assert_eq!(cpu.p() & 0x01, 0x01, "SEC");
    cpu.tick();
    assert_eq!(cpu.p() & 0x08, 0x08, "SED");
    cpu.tick();
    assert_eq!(cpu.p() & 0x04, 0x04, "SEI");
    cpu.tick();
    assert_eq!(cpu.p() & 0x01, 0x00, "CLC");
    cpu.tick();
    assert_eq!(cpu.p() & 0x08, 0x00, "CLD");
    cpu.tick();
    assert_eq!(cpu.p() & 0x04, 0x00, "CLI");
}

#[test]
fn fetch_primitives_advance_pc() {
    let mut bus = Bus::new();
    bus.write_u8(0x0200, 0x12);
    bus.write_u8(0x0201, 0x34);
    bus.write_u8(0x0202, 0x56);
    bus.write_u16(0xFFFC, 0x0200);
    let mut cpu = Cpu6502::new(bus);
    assert_eq!(cpu.peek_u8(), 0x12);
    assert_eq!(cpu.pc(), 0x0200, "peek does not advance");
    assert_eq!(cpu.next_u8(), 0x12);
    assert_eq!(cpu.pc(), 0x0201);
    assert_eq!(cpu.next_u16(), 0x5634, "little-endian word");
    assert_eq!(cpu.pc(), 0x0203);
}

#[test]
fn bus_words_are_little_endian() {
    let mut bus = Bus::new();
    bus.write_u16(0x0300, 0x1234);
    assert_eq!(bus.read_u8(0x0300), 0x34, "low byte at the lower address");
    assert_eq!(bus.read_u8(0x0301), 0x12);
    assert_eq!(bus.read_u16(0x0300), 0x1234);
    bus.write_u8(0x0000, 0x99);
    assert_eq!(bus.read_u8(0x0000), 0x99);
}
