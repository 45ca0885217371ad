//! The remaining instruction families, each pinned on at least one exact
//! pre-state and post-state.

use nes::bus::Bus;
use nes::cpu_6502::Cpu6502;

/// A processor with `bytes` at 0x0200 and `data` patched into memory first.
fn start(bytes: &[u8], data: &[(u16, u8)]) -> Cpu6502 {
    let mut bus = Bus::new();
    for &(address, value) in data {
        bus.write_u8(address, value);
    }
    let mut address: u16 = 0x0200;
    for &byte in bytes {
        bus.write_u8(address, byte);
        address = address.wrapping_add(1);
    }
    bus.write_u16(0xFFFC, 0x0200);
    Cpu6502::new(bus)
}

fn step(cpu: &mut Cpu6502, n: usize) {
    for _ in 0..n {
        cpu.tick();
    }
}

#[test]
fn pha_pla_round_trips_accumulator() {
    // LDA #$5A, PHA, LDA #$00, PLA.
    let mut cpu = start(&[0xA9, 0x5A, 0x48, 0xA9, 0x00, 0x68, 0x02], &[]);
    step(&mut cpu, 4);
    assert_eq!(cpu.a(), 0x5A);
    assert_eq!(cpu.s(), 0xFF);
    assert_eq!(cpu.p() & 0x02, 0x00);
}

#[test]
fn tay_tya_and_y_counters() {
    // LDA #$01, TAY, INY, INY, DEY, TYA.
    let mut cpu = start(&[0xA9, 0x01, 0xA8, 0xC8, 0xC8, 0x88, 0x98, 0x02], &[]);
    step(&mut cpu, 6);
    assert_eq!(cpu.y(), 0x02);
    assert_eq!(cpu.a(), 0x02);
}

#[test]
fn iny_wraps_and_sets_zero() {
    // LDY #$FF, INY.
    let mut cpu = start(&[0xA0, 0xFF, 0xC8, 0x02], &[]);
    step(&mut cpu, 2);
    assert_eq!(cpu.y(), 0x00);
    assert_eq!(cpu.p() & 0x02, 0x02);
}

#[test]
fn cpy_and_cpx_compare_their_registers() {
    // LDY #$30, CPY #$20.
    let mut cpu = start(&[0xA0, 0x30, 0xC0, 0x20, 0x02], &[]);
    step(&mut cpu, 2);
    assert_eq!(cpu.p() & 0x01, 0x01, "Y >= operand");
    assert_eq!(cpu.p() & 0x02, 0x00);
}

#[test]
fn sty_and_stx_store_their_registers() {
    // LDX #$11, LDY #$22, STX $30, STY $31.
    let mut cpu = start(&[0xA2, 0x11, 0xA0, 0x22, 0x86, 0x30, 0x84, 0x31, 0x02], &[]);
    step(&mut cpu, 4);
    assert_eq!(cpu.bus().read_u8(0x0030), 0x11);
    assert_eq!(cpu.bus().read_u8(0x0031), 0x22);
}

#[test]
fn asl_memory_sets_carry_and_writes_back() {
    // ASL $10 with $10 = $C1.
    let mut cpu = start(&[0x06, 0x10, 0x02], &[(0x0010, 0xC1)]);
    step(&mut cpu, 1);
    assert_eq!(cpu.bus().read_u8(0x0010), 0x82);
    assert_eq!(cpu.p() & 0x01, 0x01, "old bit 7 went to carry");
    assert_eq!(cpu.p() & 0x80, 0x80);
    assert_eq!(cpu.cycles(), 5);
}

#[test]
fn rol_memory_brings_carry_in() {
    // SEC, ROL $10 with $10 = $80.
    let mut cpu = start(&[0x38, 0x26, 0x10, 0x02], &[(0x0010, 0x80)]);
    step(&mut cpu, 2);
    assert_eq!(cpu.bus().read_u8(0x0010), 0x01);
    assert_eq!(cpu.p() & 0x01, 0x01, "old bit 7 went out to carry");
}

#[test]
fn ror_memory_rotates_through_carry() {
    // SEC, ROR $10 with $10 = $01.
    let mut cpu = start(&[0x38, 0x66, 0x10, 0x02], &[(0x0010, 0x01)]);
    step(&mut cpu, 2);
    assert_eq!(cpu.bus().read_u8(0x0010), 0x80);
    assert_eq!(cpu.p() & 0x01, 0x01);
    assert_eq!(cpu.p() & 0x80, 0x80);
}

#[test]
fn dec_memory_and_flags() {
    // DEC $10 with $10 = $01.
    let mut cpu = start(&[0xC6, 0x10, 0x02], &[(0x0010, 0x01)]);
    step(&mut cpu, 1);
    assert_eq!(cpu.bus().read_u8(0x0010), 0x00);
    assert_eq!(cpu.p() & 0x02, 0x02);
}

#[test]
fn eor_absolute_reads_memory() {
    // LDA #$FF, EOR $0310.
    let mut cpu = start(&[0xA9, 0xFF, 0x4D, 0x10, 0x03, 0x02], &[(0x0310, 0x0F)]);
    step(&mut cpu, 2);
    assert_eq!(cpu.a(), 0xF0);
    assert_eq!(cpu.cycles(), 2 + 4);
}

#[test]
fn absolute_indexed_y_pays_penalty_on_cross() {
    // LDY #$01, LDA $04FF,Y.
    let mut cpu = start(&[0xA0, 0x01, 0xB9, 0xFF, 0x04, 0x02], &[(0x0500, 0x31)]);
    step(&mut cpu, 2);
    assert_eq!(cpu.a(), 0x31);
    assert_eq!(cpu.cycles(), 2 + 4 + 1);
}

#[test]
fn jmp_indirect_without_bug_reads_consecutive_bytes() {
    // JMP ($0310) with an in-page pointer.
    let mut cpu = start(&[0x6C, 0x10, 0x03], &[(0x0310, 0x78), (0x0311, 0x56)]);
    step(&mut cpu, 1);
    assert_eq!(cpu.pc(), 0x5678);
}

#[test]
fn sre_shifts_right_then_xors() {
    // LDA #$0F, SRE $10 with $10 = $03.
    let mut cpu = start(&[0xA9, 0x0F, 0x47, 0x10, 0x02], &[(0x0010, 0x03)]);
    step(&mut cpu, 2);
    assert_eq!(cpu.bus().read_u8(0x0010), 0x01);
    assert_eq!(cpu.a(), 0x0E);
    assert_eq!(cpu.p() & 0x01, 0x01, "old bit 0 of the operand");
}

#[test]
fn rla_rotates_left_then_ands() {
    // SEC, LDA #$03, RLA $10 with $10 = $80.
    let mut cpu = start(&[0x38, 0xA9, 0x03, 0x27, 0x10, 0x02], &[(0x0010, 0x80)]);
    step(&mut cpu, 3);
    assert_eq!(cpu.bus().read_u8(0x0010), 0x01, "carry rotated in");
    assert_eq!(cpu.a(), 0x01);
    assert_eq!(cpu.p() & 0x01, 0x01, "old bit 7 of the operand");
}

#[test]
fn rra_rotates_right_then_adds() {
    // RRA $10 with $10 = $02 and carry clear: memory becomes $01, then
    // A = 0 + $01 + 0.
    let mut cpu = start(&[0x67, 0x10, 0x02], &[(0x0010, 0x02)]);
    step(&mut cpu, 1);
    assert_eq!(cpu.bus().read_u8(0x0010), 0x01);
    assert_eq!(cpu.a(), 0x01);
}

#[test]
fn alr_ands_then_shifts_accumulator() {
    // LDA #$FF, ALR #$03.
    let mut cpu = start(&[0xA9, 0xFF, 0x4B, 0x03, 0x02], &[]);
    step(&mut cpu, 2);
    assert_eq!(cpu.a(), 0x01);
    assert_eq!(cpu.p() & 0x01, 0x01, "old bit 0 of the masked value");
}

#[test]
fn arr_rotates_masked_accumulator() {
    // SEC, LDA #$FF, ARR #$C0: A = ($C0 >> 1) | $80 = $E0; carry from bit 6.
    let mut cpu = start(&[0x38, 0xA9, 0xFF, 0x6B, 0xC0, 0x02], &[]);
    step(&mut cpu, 3);
    assert_eq!(cpu.a(), 0xE0);
    assert_eq!(cpu.p() & 0x01, 0x01, "bit 6 of the result");
    assert_eq!(cpu.p() & 0x40, 0x00, "bits 6 and 5 agree: no overflow");
}

#[test]
fn xaa_takes_x_and_operand() {
    // LDX #$F0, XAA #$3C.
    let mut cpu = start(&[0xA2, 0xF0, 0x8B, 0x3C, 0x02], &[]);
    step(&mut cpu, 2);
    assert_eq!(cpu.a(), 0x30);
}

#[test]
fn shx_stores_x_masked_by_high_byte() {
    // LDX #$FF, SHX $0310,Y with Y=0: stores X AND ($03+1) = $04... AND $FF.
    let mut cpu = start(&[0xA2, 0xFF, 0x9E, 0x10, 0x03, 0x02], &[]);
    step(&mut cpu, 2);
    assert_eq!(cpu.bus().read_u8(0x0310), 0xFF & 0x04);
}

#[test]
fn shy_stores_y_masked_by_high_byte() {
    // LDY #$FF, SHY $0310,X with X=0.
    let mut cpu = start(&[0xA0, 0xFF, 0x9C, 0x10, 0x03, 0x02], &[]);
    step(&mut cpu, 2);
    assert_eq!(cpu.bus().read_u8(0x0310), 0x04);
}

#[test]
fn ahx_stores_a_and_x_and_high_plus_one() {
    // LDA #$FF, LDX #$FF, AHX $0310,Y with Y=0.
    let mut cpu = start(&[0xA9, 0xFF, 0xA2, 0xFF, 0x9F, 0x10, 0x03, 0x02], &[]);
    step(&mut cpu, 3);
    assert_eq!(cpu.bus().read_u8(0x0310), 0x04);
}

#[test]
fn tas_sets_stack_pointer_and_stores() {
    // LDA #$F5, LDX #$5F, TAS $0310,Y with Y=0: S = A AND X = $55.
    let mut cpu = start(&[0xA9, 0xF5, 0xA2, 0x5F, 0x9B, 0x10, 0x03, 0x02], &[]);
    step(&mut cpu, 3);
    assert_eq!(cpu.s(), 0x55);
    assert_eq!(cpu.bus().read_u8(0x0310), 0x55 & 0x04);
}

#[test]
fn sbc_immediate_without_borrow() {
    // SEC, LDA #$40, SBC #$20.
    let mut cpu = start(&[0x38, 0xA9, 0x40, 0xE9, 0x20, 0x02], &[]);
    step(&mut cpu, 3);
    assert_eq!(cpu.a(), 0x20);
    assert_eq!(cpu.p() & 0x01, 0x01, "no borrow: carry stays set");
}

#[test]
fn sbc_alternate_opcode_matches() {
    // The undocumented $EB behaves as SBC immediate.
    let mut cpu = start(&[0x38, 0xA9, 0x40, 0xEB, 0x20, 0x02], &[]);
    step(&mut cpu, 3);
    assert_eq!(cpu.a(), 0x20);
}

#[test]
fn ldy_and_lax_absolute_y_penalty() {
    // LDY #$01, LAX $04FF,Y crosses a page: 2 + 4 + 1 cycles.
    let mut cpu = start(&[0xA0, 0x01, 0xBF, 0xFF, 0x04, 0x02], &[(0x0500, 0x21)]);
    step(&mut cpu, 2);
    assert_eq!(cpu.a(), 0x21);
    assert_eq!(cpu.x(), 0x21);
    assert_eq!(cpu.cycles(), 2 + 4 + 1);
}

#[test]
fn sta_indirect_y_writes_through_pointer() {
    // LDA #$77, LDY #$02, STA ($20),Y.
    let mut cpu = start(
        &[0xA9, 0x77, 0xA0, 0x02, 0x91, 0x20, 0x02],
        &[(0x0020, 0x00), (0x0021, 0x03)],
    );
    step(&mut cpu, 3);
    assert_eq!(cpu.bus().read_u8(0x0302), 0x77);
    assert_eq!(cpu.cycles(), 2 + 2 + 6);
}
