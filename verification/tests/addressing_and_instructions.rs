//! Addressing-mode boundary behaviour, cycle accounting, and a tour of the
//! instruction families, documented and undocumented.

use nes::bus::Bus;
use nes::cpu_6502::Cpu6502;

/// A processor with `bytes` at 0x0200, the reset vector pointing there, and
/// `data` patched into memory first.
fn boot(bytes: &[u8], data: &[(u16, u8)]) -> Cpu6502 {
    let mut bus = Bus::new();
    for &(address, value) in data {
        bus.write_u8(address, value);
    }
    let mut address: u16 = 0x0200;
    for &byte in bytes {
        bus.write_u8(address, byte);
        address = address.wrapping_add(1);
    }
    bus.write_u16(0xFFFC, 0x0200);
    Cpu6502::new(bus)
}

fn run_ticks(cpu: &mut Cpu6502, n: usize) {
    for _ in 0..n {
        cpu.tick();
    }
}

#[test]
fn zero_page_x_wraps_to_zero() {
    // LDX #$01, LDA $FF,X: the effective address wraps to $0000.
    let mut cpu = boot(&[0xA2, 0x01, 0xB5, 0xFF, 0x02], &[(0x0000, 0x77), (0x0100, 0x55)]);
    run_ticks(&mut cpu, 2);
    assert_eq!(cpu.a(), 0x77, "wrapped into the zero page, not $0100");
}

#[test]
fn zero_page_y_wraps() {
    // LDY #$03, LDX $FE,Y reads $0001.
    let mut cpu = boot(&[0xA0, 0x03, 0xB6, 0xFE, 0x02], &[(0x0001, 0x42)]);
    run_ticks(&mut cpu, 2);
    assert_eq!(cpu.x(), 0x42);
}

#[test]
fn absolute_indexed_page_cross_adds_cycle() {
    // LDX #$01, LDA $04FF,X: crossing into $0500 costs one extra cycle.
    let mut cpu = boot(&[0xA2, 0x01, 0xBD, 0xFF, 0x04, 0x02], &[(0x0500, 0x66)]);
    run_ticks(&mut cpu, 2);
    assert_eq!(cpu.a(), 0x66);
    assert_eq!(cpu.cycles(), 2 + 4 + 1);
}

#[test]
fn absolute_indexed_same_page_costs_base() {
    let mut cpu = boot(&[0xA2, 0x01, 0xBD, 0x00, 0x04, 0x02], &[(0x0401, 0x66)]);
    run_ticks(&mut cpu, 2);
    assert_eq!(cpu.a(), 0x66);
    assert_eq!(cpu.cycles(), 2 + 4);
}

#[test]
fn store_never_pays_page_penalty() {
    // LDX #$01, STA $04FF,X: stores take a fixed five cycles.
    let mut cpu = boot(&[0xA2, 0x01, 0x9D, 0xFF, 0x04, 0x02], &[]);
    run_ticks(&mut cpu, 2);
    assert_eq!(cpu.cycles(), 2 + 5);
}

#[test]
fn indirect_x_reads_through_zero_page_pointer() {
    // LDX #$04, LDA ($20,X): pointer at $24/$25 names $0310.
    let mut cpu = boot(
        &[0xA2, 0x04, 0xA1, 0x20, 0x02],
        &[(0x0024, 0x10), (0x0025, 0x03), (0x0310, 0x99)],
    );
    run_ticks(&mut cpu, 2);
    assert_eq!(cpu.a(), 0x99);
}

#[test]
fn indirect_x_pointer_wraps_in_zero_page() {
    // LDA ($FF,X) with X=0: the pointer bytes come from $FF and $00.
    let mut cpu = boot(
        &[0xA1, 0xFF, 0x02],
        &[(0x00FF, 0x22), (0x0000, 0x03), (0x0322, 0x5A)],
    );
    run_ticks(&mut cpu, 1);
    assert_eq!(cpu.a(), 0x5A);
}

#[test]
fn indirect_y_indexes_after_the_pointer() {
    // LDY #$01, LDA ($20),Y: base $0310 plus one.
    let mut cpu = boot(
        &[0xA0, 0x01, 0xB1, 0x20, 0x02],
        &[(0x0020, 0x10), (0x0021, 0x03), (0x0311, 0x88)],
    );
    run_ticks(&mut cpu, 2);
    assert_eq!(cpu.a(), 0x88);
    assert_eq!(cpu.cycles(), 2 + 5, "no page crossed: base cycles only");
}

#[test]
fn indirect_y_page_cross_adds_cycle() {
    // LDY #$10, LDA ($20),Y with base $04F8 reads $0508.
    let mut cpu = boot(
        &[0xA0, 0x10, 0xB1, 0x20, 0x02],
        &[(0x0020, 0xF8), (0x0021, 0x04), (0x0508, 0x13)],
    );
    run_ticks(&mut cpu, 2);
    assert_eq!(cpu.a(), 0x13);
    assert_eq!(cpu.cycles(), 2 + 5 + 1);
}

#[test]
fn stores_and_loads_through_memory() {
    // LDA #$42, STA $10, LDX $10.
    let mut cpu = boot(&[0xA9, 0x42, 0x85, 0x10, 0xA6, 0x10, 0x02], &[]);
    run_ticks(&mut cpu, 3);
    assert_eq!(cpu.bus().read_u8(0x0010), 0x42);
    assert_eq!(cpu.x(), 0x42);
}

#[test]
fn transfers_move_registers_and_flags() {
    // LDA #$80, TAX, TXS, LDX #$00, TSX.
    let mut cpu = boot(&[0xA9, 0x80, 0xAA, 0x9A, 0xA2, 0x00, 0xBA, 0x02], &[]);
    run_ticks(&mut cpu, 3);
    assert_eq!(cpu.x(), 0x80);
    assert_eq!(cpu.s(), 0x80, "TXS copies X into S");
    run_ticks(&mut cpu, 2);
    assert_eq!(cpu.x(), 0x80, "TSX copies S back");
    assert_eq!(cpu.p() & 0x80, 0x80);
}

#[test]
fn compare_sets_carry_zero_negative() {
    // LDA #$10, CMP #$10.
    let mut cpu = boot(&[0xA9, 0x10, 0xC9, 0x10, 0x02], &[]);
    run_ticks(&mut cpu, 2);
    assert_eq!(cpu.p() & 0x01, 0x01, "carry: no borrow");
    assert_eq!(cpu.p() & 0x02, 0x02, "zero: equal");
    // CPX #$20 with X=0 borrows.
    let mut cpu2 = boot(&[0xE0, 0x20, 0x02], &[]);
    run_ticks(&mut cpu2, 1);
    assert_eq!(cpu2.p() & 0x01, 0x00, "borrow clears carry");
    assert_eq!(cpu2.p() & 0x80, 0x80, "result byte is negative");
}

#[test]
fn logic_ops_combine_into_accumulator() {
    // LDA #$F0, AND #$3C, then ORA #$01, then EOR #$FF.
    let mut cpu = boot(&[0xA9, 0xF0, 0x29, 0x3C, 0x09, 0x01, 0x49, 0xFF, 0x02], &[]);
    run_ticks(&mut cpu, 2);
    assert_eq!(cpu.a(), 0x30);
    run_ticks(&mut cpu, 1);
    assert_eq!(cpu.a(), 0x31);
    run_ticks(&mut cpu, 1);
    assert_eq!(cpu.a(), 0xCE);
}

#[test]
fn bit_reads_top_bits_of_operand() {
    // LDA #$00, BIT $10 with $10 = $C0.
    let mut cpu = boot(&[0xA9, 0x00, 0x24, 0x10, 0x02], &[(0x0010, 0xC0)]);
    run_ticks(&mut cpu, 2);
    assert_eq!(cpu.p() & 0x02, 0x02, "zero: A AND operand is zero");
    assert_eq!(cpu.p() & 0x80, 0x80, "negative from bit 7 of the operand");
    assert_eq!(cpu.p() & 0x40, 0x40, "overflow from bit 6 of the operand");
}

#[test]
fn shifts_move_through_carry() {
    // LDA #$81, ASL A: carry takes the old top bit.
    let mut cpu = boot(&[0xA9, 0x81, 0x0A, 0x02], &[]);
    run_ticks(&mut cpu, 2);
    assert_eq!(cpu.a(), 0x02);
    assert_eq!(cpu.p() & 0x01, 0x01);
    // SEC, LDA #$80, ROR A: the carry enters from the top.
    let mut cpu2 = boot(&[0x38, 0xA9, 0x80, 0x6A, 0x02], &[]);
    run_ticks(&mut cpu2, 3);
    assert_eq!(cpu2.a(), 0xC0);
    assert_eq!(cpu2.p() & 0x01, 0x00, "old bottom bit was clear");
    // SEC, ROL A on zero: the carry enters from the bottom.
    let mut cpu3 = boot(&[0x38, 0x2A, 0x02], &[]);
    run_ticks(&mut cpu3, 2);
    assert_eq!(cpu3.a(), 0x01);
    // LSR on memory.
    let mut cpu4 = boot(&[0x46, 0x10, 0x02], &[(0x0010, 0x03)]);
    run_ticks(&mut cpu4, 1);
    assert_eq!(cpu4.bus().read_u8(0x0010), 0x01);
    assert_eq!(cpu4.p() & 0x01, 0x01);
}

#[test]
fn increments_and_decrements_wrap() {
    // DEX from zero wraps to $FF; INC $10 over $FF wraps to zero.
    let mut cpu = boot(&[0xCA, 0xE6, 0x10, 0x02], &[(0x0010, 0xFF)]);
    run_ticks(&mut cpu, 1);
    assert_eq!(cpu.x(), 0xFF);
    assert_eq!(cpu.p() & 0x80, 0x80);
    run_ticks(&mut cpu, 1);
    assert_eq!(cpu.bus().read_u8(0x0010), 0x00);
    assert_eq!(cpu.p() & 0x02, 0x02);
}

#[test]
fn adc_uses_incoming_carry() {
    // SEC, LDA #$00, ADC #$00 yields 1.
    let mut cpu = boot(&[0x38, 0xA9, 0x00, 0x69, 0x00, 0x02], &[]);
    run_ticks(&mut cpu, 3);
    assert_eq!(cpu.a(), 0x01);
    // LDA #$FF, SEC, ADC #$00 carries out.
    let mut cpu2 = boot(&[0xA9, 0xFF, 0x38, 0x69, 0x00, 0x02], &[]);
    run_ticks(&mut cpu2, 3);
    assert_eq!(cpu2.a(), 0x00);
    assert_eq!(cpu2.p() & 0x01, 0x01, "carry out");
    assert_eq!(cpu2.p() & 0x02, 0x02, "zero result");
}

#[test]
fn lax_loads_both_registers() {
    let mut cpu = boot(&[0xA7, 0x10, 0x02], &[(0x0010, 0x55)]);
    run_ticks(&mut cpu, 1);
    assert_eq!(cpu.a(), 0x55);
    assert_eq!(cpu.x(), 0x55);
}

#[test]
fn sax_stores_a_and_x() {
    // LDA #$F0, LDX #$3C, SAX $10.
    let mut cpu = boot(&[0xA9, 0xF0, 0xA2, 0x3C, 0x87, 0x10, 0x02], &[]);
    run_ticks(&mut cpu, 3);
    assert_eq!(cpu.bus().read_u8(0x0010), 0x30);
}

#[test]
fn slo_shifts_then_ors() {
    // LDA #$01, SLO $10 with $10 = $40.
    let mut cpu = boot(&[0xA9, 0x01, 0x07, 0x10, 0x02], &[(0x0010, 0x40)]);
    run_ticks(&mut cpu, 2);
    assert_eq!(cpu.bus().read_u8(0x0010), 0x80);
    assert_eq!(cpu.a(), 0x81);
    assert_eq!(cpu.p() & 0x01, 0x00, "old bit 7 of the operand was clear");
}

#[test]
fn dcp_decrements_then_compares() {
    // LDA #$10, DCP $10 with $10 = $11.
    let mut cpu = boot(&[0xA9, 0x10, 0xC7, 0x10, 0x02], &[(0x0010, 0x11)]);
    run_ticks(&mut cpu, 2);
    assert_eq!(cpu.bus().read_u8(0x0010), 0x10);
    assert_eq!(cpu.p() & 0x02, 0x02, "A equals the decremented value");
    assert_eq!(cpu.p() & 0x01, 0x01);
}

#[test]
fn isc_increments_then_subtracts() {
    // SEC, LDA #$10, ISC $10 with $10 = $04: A = $10 - $05.
    let mut cpu = boot(&[0x38, 0xA9, 0x10, 0xE7, 0x10, 0x02], &[(0x0010, 0x04)]);
    run_ticks(&mut cpu, 3);
    assert_eq!(cpu.bus().read_u8(0x0010), 0x05);
    assert_eq!(cpu.a(), 0x0B);
}

#[test]
fn anc_copies_negative_into_carry() {
    // LDA #$FF, ANC #$80.
    let mut cpu = boot(&[0xA9, 0xFF, 0x0B, 0x80, 0x02], &[]);
    run_ticks(&mut cpu, 2);
    assert_eq!(cpu.a(), 0x80);
    assert_eq!(cpu.p() & 0x80, 0x80);
    assert_eq!(cpu.p() & 0x01, 0x01, "carry copies the negative flag");
}

#[test]
fn axs_subtracts_from_a_and_x() {
    // LDA #$F0, LDX #$3C, AXS #$10: X = ($F0 & $3C) - $10 = $20.
    let mut cpu = boot(&[0xA9, 0xF0, 0xA2, 0x3C, 0xCB, 0x10, 0x02], &[]);
    run_ticks(&mut cpu, 3);
    assert_eq!(cpu.x(), 0x20);
    assert_eq!(cpu.p() & 0x01, 0x01, "no borrow");
}

#[test]
fn nop_variants_consume_operands_and_cycles() {
    // NOP $10 (zero page form) then plain NOP.
    let mut cpu = boot(&[0x04, 0x10, 0xEA, 0x02], &[]);
    run_ticks(&mut cpu, 1);
    assert_eq!(cpu.pc(), 0x0202, "the zero-page NOP consumes its operand");
    assert_eq!(cpu.cycles(), 3);
    run_ticks(&mut cpu, 1);
    assert_eq!(cpu.pc(), 0x0203);
    assert_eq!(cpu.cycles(), 5);
}

#[test]
fn jmp_absolute_sets_pc() {
    let mut cpu = boot(&[0x4C, 0x34, 0x12], &[]);
    run_ticks(&mut cpu, 1);
    assert_eq!(cpu.pc(), 0x1234);
    assert_eq!(cpu.cycles(), 3);
}

#[test]
fn las_masks_stack_pointer() {
    // LAS $0010,Y with Y=0 and $10 = $0F: A, X and S all take S AND $0F.
    let mut cpu = boot(&[0xBB, 0x10, 0x00, 0x02], &[(0x0010, 0x0F)]);
    run_ticks(&mut cpu, 1);
    assert_eq!(cpu.a(), 0x0F);
    assert_eq!(cpu.x(), 0x0F);
    assert_eq!(cpu.s(), 0x0F);
}
