//! The static opcode table: every one of the 256 opcode bytes maps to a
//! mnemonic, an addressing mode, a base cycle count and a page-boundary
//! penalty marker. Undocumented opcodes follow the established NES lore;
//! the KIL family halts the processor.

use vstd::prelude::*;

verus! {

/// The mnemonics: the 56 documented instructions and the undocumented ones.
#[derive(Clone, Copy, PartialEq, Eq, Structural)]
pub enum OpCode {
    Adc,
    Ahx,
    Alr,
    Anc,
    And,
    Arr,
    Asl,
    Axs,
    Bcc,
    Bcs,
    Beq,
    Bit,
    Bmi,
    Bne,
    Bpl,
    Brk,
    Bvc,
    Bvs,
    Clc,
    Cld,
    Cli,
    Clv,
    Cmp,
    Cpx,
    Cpy,
    Dcp,
    Dec,
    Dex,
    Dey,
    Eor,
    Inc,
    Inx,
    Iny,
    Isc,
    Jmp,
    Jsr,
    Kil,
    Las,
    Lax,
    Lda,
    Ldx,
    Ldy,
    Lsr,
    Nop,
    Ora,
    Pha,
    Php,
    Pla,
    Plp,
    Rla,
    Rol,
    Ror,
    Rra,
    Rti,
    Rts,
    Sax,
    Sbc,
    Sec,
    Sed,
    Sei,
    Shx,
    Shy,
    Slo,
    Sre,
    Sta,
    Stx,
    Sty,
    Tas,
    Tax,
    Tay,
    Tsx,
    Txa,
    Txs,
    Tya,
    Xaa,
}

/// The addressing modes. `NoMode` covers implied and accumulator forms that
/// fetch no operand; `Implied` is kept apart so that the resolver can refuse
/// it loudly, as a register-only handler must never ask for an address.
#[derive(Clone, Copy, PartialEq, Eq, Structural)]
pub enum Mode {
    Absolute,
    AbsoluteIndexedX,
    AbsoluteIndexedY,
    Immediate,
    Implied,
    Indirect,
    IndirectX,
    IndirectY,
    Relative,
    ZeroPage,
    ZeroPageX,
    ZeroPageY,
    NoMode,
}

/// How an opcode can earn extra cycles beyond its base count.
#[derive(Clone, Copy, PartialEq, Eq, Structural)]
pub enum ExtraCycle {
    NoExtra,
    PageBoundary,
    IfTaken,
}

/// One row of the opcode table.
#[derive(Clone, Copy, PartialEq, Eq, Structural)]
pub struct OpEntry {
    pub code: OpCode,
    pub mode: Mode,
    pub cycles: u8,
    pub extra: ExtraCycle,
}

/// Builds one table row.
pub open spec fn entry(code: OpCode, mode: Mode, cycles: u8, extra: ExtraCycle) -> OpEntry {
    OpEntry { code, mode, cycles, extra }
}

/// The extra cycle a page crossing costs under a given marker.
pub open spec fn penalty_of(extra: ExtraCycle) -> u8 {
    match extra {
        ExtraCycle::PageBoundary => 1,
        _ => 0,
    }
}

/// The opcode table as the decoder sees it.
pub open spec fn decode(op: u8) -> OpEntry {
    match op {
        0x00 => entry(OpCode::Brk, Mode::NoMode, 7, ExtraCycle::NoExtra),
        0x01 => entry(OpCode::Ora, Mode::IndirectX, 6, ExtraCycle::NoExtra),
        0x02 => entry(OpCode::Kil, Mode::NoMode, 0, ExtraCycle::NoExtra),
        0x03 => entry(OpCode::Slo, Mode::IndirectX, 8, ExtraCycle::NoExtra),
        0x04 => entry(OpCode::Nop, Mode::ZeroPage, 3, ExtraCycle::NoExtra),
        0x05 => entry(OpCode::Ora, Mode::ZeroPage, 3, ExtraCycle::NoExtra),
        0x06 => entry(OpCode::Asl, Mode::ZeroPage, 5, ExtraCycle::NoExtra),
        0x07 => entry(OpCode::Slo, Mode::ZeroPage, 5, ExtraCycle::NoExtra),
        0x08 => entry(OpCode::Php, Mode::NoMode, 3, ExtraCycle::NoExtra),
        0x09 => entry(OpCode::Ora, Mode::Immediate, 2, ExtraCycle::NoExtra),
        0x0a => entry(OpCode::Asl, Mode::NoMode, 2, ExtraCycle::NoExtra),
        0x0b => entry(OpCode::Anc, Mode::Immediate, 2, ExtraCycle::NoExtra),
        0x0c => entry(OpCode::Nop, Mode::Absolute, 4, ExtraCycle::NoExtra),
        0x0d => entry(OpCode::Ora, Mode::Absolute, 4, ExtraCycle::NoExtra),
        0x0e => entry(OpCode::Asl, Mode::Absolute, 6, ExtraCycle::NoExtra),
        0x0f => entry(OpCode::Slo, Mode::Absolute, 6, ExtraCycle::NoExtra),
        0x10 => entry(OpCode::Bpl, Mode::Relative, 2, ExtraCycle::IfTaken),
        0x11 => entry(OpCode::Ora, Mode::IndirectY, 5, ExtraCycle::PageBoundary),
        0x12 => entry(OpCode::Kil, Mode::NoMode, 0, ExtraCycle::NoExtra),
        0x13 => entry(OpCode::Slo, Mode::IndirectY, 8, ExtraCycle::NoExtra),
        0x14 => entry(OpCode::Nop, Mode::ZeroPageX, 4, ExtraCycle::NoExtra),
        0x15 => entry(OpCode::Ora, Mode::ZeroPageX, 4, ExtraCycle::NoExtra),
        0x16 => entry(OpCode::Asl, Mode::ZeroPageX, 6, ExtraCycle::NoExtra),
        0x17 => entry(OpCode::Slo, Mode::ZeroPageX, 6, ExtraCycle::NoExtra),
        0x18 => entry(OpCode::Clc, Mode::NoMode, 2, ExtraCycle::NoExtra),
        0x19 => entry(OpCode::Ora, Mode::AbsoluteIndexedY, 4, ExtraCycle::PageBoundary),
        0x1a => entry(OpCode::Nop, Mode::NoMode, 2, ExtraCycle::NoExtra),
        0x1b => entry(OpCode::Slo, Mode::AbsoluteIndexedY, 7, ExtraCycle::NoExtra),
        0x1c => entry(OpCode::Nop, Mode::AbsoluteIndexedX, 4, ExtraCycle::PageBoundary),
        0x1d => entry(OpCode::Ora, Mode::AbsoluteIndexedX, 4, ExtraCycle::PageBoundary),
        0x1e => entry(OpCode::Asl, Mode::AbsoluteIndexedX, 7, ExtraCycle::NoExtra),
        0x1f => entry(OpCode::Slo, Mode::AbsoluteIndexedX, 7, ExtraCycle::NoExtra),
        0x20 => entry(OpCode::Jsr, Mode::Absolute, 6, ExtraCycle::NoExtra),
        0x21 => entry(OpCode::And, Mode::IndirectX, 6, ExtraCycle::NoExtra),
        0x22 => entry(OpCode::Kil, Mode::NoMode, 0, ExtraCycle::NoExtra),
        0x23 => entry(OpCode::Rla, Mode::IndirectX, 8, ExtraCycle::NoExtra),
        0x24 => entry(OpCode::Bit, Mode::ZeroPage, 3, ExtraCycle::NoExtra),
        0x25 => entry(OpCode::And, Mode::ZeroPage, 3, ExtraCycle::NoExtra),
        0x26 => entry(OpCode::Rol, Mode::ZeroPage, 5, ExtraCycle::NoExtra),
        0x27 => entry(OpCode::Rla, Mode::ZeroPage, 5, ExtraCycle::NoExtra),
        0x28 => entry(OpCode::Plp, Mode::NoMode, 4, ExtraCycle::NoExtra),
        0x29 => entry(OpCode::And, Mode::Immediate, 2, ExtraCycle::NoExtra),
        0x2a => entry(OpCode::Rol, Mode::NoMode, 2, ExtraCycle::NoExtra),
        0x2b => entry(OpCode::Anc, Mode::Immediate, 2, ExtraCycle::NoExtra),
        0x2c => entry(OpCode::Bit, Mode::Absolute, 4, ExtraCycle::NoExtra),
        0x2d => entry(OpCode::And, Mode::Absolute, 4, ExtraCycle::NoExtra),
        0x2e => entry(OpCode::Rol, Mode::Absolute, 6, ExtraCycle::NoExtra),
        0x2f => entry(OpCode::Rla, Mode::Absolute, 6, ExtraCycle::NoExtra),
        0x30 => entry(OpCode::Bmi, Mode::Relative, 2, ExtraCycle::IfTaken),
        0x31 => entry(OpCode::And, Mode::IndirectY, 5, ExtraCycle::PageBoundary),
        0x32 => entry(OpCode::Kil, Mode::NoMode, 0, ExtraCycle::NoExtra),
        0x33 => entry(OpCode::Rla, Mode::IndirectY, 8, ExtraCycle::NoExtra),
        0x34 => entry(OpCode::Nop, Mode::ZeroPageX, 4, ExtraCycle::NoExtra),
        0x35 => entry(OpCode::And, Mode::ZeroPageX, 4, ExtraCycle::NoExtra),
        0x36 => entry(OpCode::Rol, Mode::ZeroPageX, 6, ExtraCycle::NoExtra),
        0x37 => entry(OpCode::Rla, Mode::ZeroPageX, 6, ExtraCycle::NoExtra),
        0x38 => entry(OpCode::Sec, Mode::NoMode, 2, ExtraCycle::NoExtra),
        0x39 => entry(OpCode::And, Mode::AbsoluteIndexedY, 4, ExtraCycle::PageBoundary),
        0x3a => entry(OpCode::Nop, Mode::NoMode, 2, ExtraCycle::NoExtra),
        0x3b => entry(OpCode::Rla, Mode::AbsoluteIndexedY, 7, ExtraCycle::NoExtra),
        0x3c => entry(OpCode::Nop, Mode::AbsoluteIndexedX, 4, ExtraCycle::PageBoundary),
        0x3d => entry(OpCode::And, Mode::AbsoluteIndexedX, 4, ExtraCycle::PageBoundary),
        0x3e => entry(OpCode::Rol, Mode::AbsoluteIndexedX, 7, ExtraCycle::NoExtra),
        0x3f => entry(OpCode::Rla, Mode::AbsoluteIndexedX, 7, ExtraCycle::NoExtra),
        0x40 => entry(OpCode::Rti, Mode::NoMode, 6, ExtraCycle::NoExtra),
        0x41 => entry(OpCode::Eor, Mode::IndirectX, 6, ExtraCycle::NoExtra),
        0x42 => entry(OpCode::Kil, Mode::NoMode, 0, ExtraCycle::NoExtra),
        0x43 => entry(OpCode::Sre, Mode::IndirectX, 8, ExtraCycle::NoExtra),
        0x44 => entry(OpCode::Nop, Mode::ZeroPage, 3, ExtraCycle::NoExtra),
        0x45 => entry(OpCode::Eor, Mode::ZeroPage, 3, ExtraCycle::NoExtra),
        0x46 => entry(OpCode::Lsr, Mode::ZeroPage, 5, ExtraCycle::NoExtra),
        0x47 => entry(OpCode::Sre, Mode::ZeroPage, 5, ExtraCycle::NoExtra),
        0x48 => entry(OpCode::Pha, Mode::NoMode, 3, ExtraCycle::NoExtra),
        0x49 => entry(OpCode::Eor, Mode::Immediate, 2, ExtraCycle::NoExtra),
        0x4a => entry(OpCode::Lsr, Mode::NoMode, 2, ExtraCycle::NoExtra),
        0x4b => entry(OpCode::Alr, Mode::Immediate, 2, ExtraCycle::NoExtra),
        0x4c => entry(OpCode::Jmp, Mode::Absolute, 3, ExtraCycle::NoExtra),
        0x4d => entry(OpCode::Eor, Mode::Absolute, 4, ExtraCycle::NoExtra),
        0x4e => entry(OpCode::Lsr, Mode::Absolute, 6, ExtraCycle::NoExtra),
        0x4f => entry(OpCode::Sre, Mode::Absolute, 6, ExtraCycle::NoExtra),
        0x50 => entry(OpCode::Bvc, Mode::Relative, 2, ExtraCycle::IfTaken),
        0x51 => entry(OpCode::Eor, Mode::IndirectY, 5, ExtraCycle::PageBoundary),
        0x52 => entry(OpCode::Kil, Mode::NoMode, 0, ExtraCycle::NoExtra),
        0x53 => entry(OpCode::Sre, Mode::IndirectY, 8, ExtraCycle::NoExtra),
        0x54 => entry(OpCode::Nop, Mode::ZeroPageX, 4, ExtraCycle::NoExtra),
        0x55 => entry(OpCode::Eor, Mode::ZeroPageX, 4, ExtraCycle::NoExtra),
        0x56 => entry(OpCode::Lsr, Mode::ZeroPageX, 6, ExtraCycle::NoExtra),
        0x57 => entry(OpCode::Sre, Mode::ZeroPageX, 6, ExtraCycle::NoExtra),
        0x58 => entry(OpCode::Cli, Mode::NoMode, 2, ExtraCycle::NoExtra),
        0x59 => entry(OpCode::Eor, Mode::AbsoluteIndexedY, 4, ExtraCycle::PageBoundary),
        0x5a => entry(OpCode::Nop, Mode::NoMode, 2, ExtraCycle::NoExtra),
        0x5b => entry(OpCode::Sre, Mode::AbsoluteIndexedY, 7, ExtraCycle::NoExtra),
        0x5c => entry(OpCode::Nop, Mode::AbsoluteIndexedX, 4, ExtraCycle::PageBoundary),
        0x5d => entry(OpCode::Eor, Mode::AbsoluteIndexedX, 4, ExtraCycle::PageBoundary),
        0x5e => entry(OpCode::Lsr, Mode::AbsoluteIndexedX, 7, ExtraCycle::NoExtra),
        0x5f => entry(OpCode::Sre, Mode::AbsoluteIndexedX, 7, ExtraCycle::NoExtra),
        0x60 => entry(OpCode::Rts, Mode::NoMode, 6, ExtraCycle::NoExtra),
        0x61 => entry(OpCode::Adc, Mode::IndirectX, 6, ExtraCycle::NoExtra),
        0x62 => entry(OpCode::Kil, Mode::NoMode, 0, ExtraCycle::NoExtra),
        0x63 => entry(OpCode::Rra, Mode::IndirectX, 8, ExtraCycle::NoExtra),
        0x64 => entry(OpCode::Nop, Mode::ZeroPage, 3, ExtraCycle::NoExtra),
        0x65 => entry(OpCode::Adc, Mode::ZeroPage, 3, ExtraCycle::NoExtra),
        0x66 => entry(OpCode::Ror, Mode::ZeroPage, 5, ExtraCycle::NoExtra),
        0x67 => entry(OpCode::Rra, Mode::ZeroPage, 5, ExtraCycle::NoExtra),
        0x68 => entry(OpCode::Pla, Mode::NoMode, 4, ExtraCycle::NoExtra),
        0x69 => entry(OpCode::Adc, Mode::Immediate, 2, ExtraCycle::NoExtra),
        0x6a => entry(OpCode::Ror, Mode::NoMode, 2, ExtraCycle::NoExtra),
        0x6b => entry(OpCode::Arr, Mode::Immediate, 2, ExtraCycle::NoExtra),
        0x6c => entry(OpCode::Jmp, Mode::Indirect, 5, ExtraCycle::NoExtra),
        0x6d => entry(OpCode::Adc, Mode::Absolute, 4, ExtraCycle::NoExtra),
        0x6e => entry(OpCode::Ror, Mode::Absolute, 6, ExtraCycle::NoExtra),
        0x6f => entry(OpCode::Rra, Mode::Absolute, 6, ExtraCycle::NoExtra),
        0x70 => entry(OpCode::Bvs, Mode::Relative, 2, ExtraCycle::IfTaken),
        0x71 => entry(OpCode::Adc, Mode::IndirectY, 5, ExtraCycle::PageBoundary),
        0x72 => entry(OpCode::Kil, Mode::NoMode, 0, ExtraCycle::NoExtra),
        0x73 => entry(OpCode::Rra, Mode::IndirectY, 8, ExtraCycle::NoExtra),
        0x74 => entry(OpCode::Nop, Mode::ZeroPageX, 4, ExtraCycle::NoExtra),
        0x75 => entry(OpCode::Adc, Mode::ZeroPageX, 4, ExtraCycle::NoExtra),
        0x76 => entry(OpCode::Ror, Mode::ZeroPageX, 6, ExtraCycle::NoExtra),
        0x77 => entry(OpCode::Rra, Mode::ZeroPageX, 6, ExtraCycle::NoExtra),
        0x78 => entry(OpCode::Sei, Mode::NoMode, 2, ExtraCycle::NoExtra),
        0x79 => entry(OpCode::Adc, Mode::AbsoluteIndexedY, 4, ExtraCycle::PageBoundary),
        0x7a => entry(OpCode::Nop, Mode::NoMode, 2, ExtraCycle::NoExtra),
        0x7b => entry(OpCode::Rra, Mode::AbsoluteIndexedY, 7, ExtraCycle::NoExtra),
        0x7c => entry(OpCode::Nop, Mode::AbsoluteIndexedX, 4, ExtraCycle::PageBoundary),
        0x7d => entry(OpCode::Adc, Mode::AbsoluteIndexedX, 4, ExtraCycle::PageBoundary),
        0x7e => entry(OpCode::Ror, Mode::AbsoluteIndexedX, 7, ExtraCycle::NoExtra),
        0x7f => entry(OpCode::Rra, Mode::AbsoluteIndexedX, 7, ExtraCycle::NoExtra),
        0x80 => entry(OpCode::Nop, Mode::Immediate, 2, ExtraCycle::NoExtra),
        0x81 => entry(OpCode::Sta, Mode::IndirectX, 6, ExtraCycle::NoExtra),
        0x82 => entry(OpCode::Nop, Mode::Immediate, 2, ExtraCycle::NoExtra),
        0x83 => entry(OpCode::Sax, Mode::IndirectX, 6, ExtraCycle::NoExtra),
        0x84 => entry(OpCode::Sty, Mode::ZeroPage, 3, ExtraCycle::NoExtra),
        0x85 => entry(OpCode::Sta, Mode::ZeroPage, 3, ExtraCycle::NoExtra),
        0x86 => entry(OpCode::Stx, Mode::ZeroPage, 3, ExtraCycle::NoExtra),
        0x87 => entry(OpCode::Sax, Mode::ZeroPage, 3, ExtraCycle::NoExtra),
        0x88 => entry(OpCode::Dey, Mode::NoMode, 2, ExtraCycle::NoExtra),
        0x89 => entry(OpCode::Nop, Mode::Immediate, 2, ExtraCycle::NoExtra),
        0x8a => entry(OpCode::Txa, Mode::NoMode, 2, ExtraCycle::NoExtra),
        0x8b => entry(OpCode::Xaa, Mode::Immediate, 2, ExtraCycle::NoExtra),
        0x8c => entry(OpCode::Sty, Mode::Absolute, 4, ExtraCycle::NoExtra),
        0x8d => entry(OpCode::Sta, Mode::Absolute, 4, ExtraCycle::NoExtra),
        0x8e => entry(OpCode::Stx, Mode::Absolute, 4, ExtraCycle::NoExtra),
        0x8f => entry(OpCode::Sax, Mode::Absolute, 4, ExtraCycle::NoExtra),
        0x90 => entry(OpCode::Bcc, Mode::Relative, 2, ExtraCycle::IfTaken),
        0x91 => entry(OpCode::Sta, Mode::IndirectY, 6, ExtraCycle::NoExtra),
        0x92 => entry(OpCode::Kil, Mode::NoMode, 0, ExtraCycle::NoExtra),
        0x93 => entry(OpCode::Ahx, Mode::IndirectY, 6, ExtraCycle::NoExtra),
        0x94 => entry(OpCode::Sty, Mode::ZeroPageX, 4, ExtraCycle::NoExtra),
        0x95 => entry(OpCode::Sta, Mode::ZeroPageX, 4, ExtraCycle::NoExtra),
        0x96 => entry(OpCode::Stx, Mode::ZeroPageY, 4, ExtraCycle::NoExtra),
        0x97 => entry(OpCode::Sax, Mode::ZeroPageY, 4, ExtraCycle::NoExtra),
        0x98 => entry(OpCode::Tya, Mode::NoMode, 2, ExtraCycle::NoExtra),
        0x99 => entry(OpCode::Sta, Mode::AbsoluteIndexedY, 5, ExtraCycle::NoExtra),
        0x9a => entry(OpCode::Txs, Mode::NoMode, 2, ExtraCycle::NoExtra),
        0x9b => entry(OpCode::Tas, Mode::AbsoluteIndexedY, 5, ExtraCycle::NoExtra),
        0x9c => entry(OpCode::Shy, Mode::AbsoluteIndexedX, 5, ExtraCycle::NoExtra),
        0x9d => entry(OpCode::Sta, Mode::AbsoluteIndexedX, 5, ExtraCycle::NoExtra),
        0x9e => entry(OpCode::Shx, Mode::AbsoluteIndexedY, 5, ExtraCycle::NoExtra),
        0x9f => entry(OpCode::Ahx, Mode::AbsoluteIndexedY, 5, ExtraCycle::NoExtra),
        0xa0 => entry(OpCode::Ldy, Mode::Immediate, 2, ExtraCycle::NoExtra),
        0xa1 => entry(OpCode::Lda, Mode::IndirectX, 6, ExtraCycle::NoExtra),
        0xa2 => entry(OpCode::Ldx, Mode::Immediate, 2, ExtraCycle::NoExtra),
        0xa3 => entry(OpCode::Lax, Mode::IndirectX, 6, ExtraCycle::NoExtra),
        0xa4 => entry(OpCode::Ldy, Mode::ZeroPage, 3, ExtraCycle::NoExtra),
        0xa5 => entry(OpCode::Lda, Mode::ZeroPage, 3, ExtraCycle::NoExtra),
        0xa6 => entry(OpCode::Ldx, Mode::ZeroPage, 3, ExtraCycle::NoExtra),
        0xa7 => entry(OpCode::Lax, Mode::ZeroPage, 3, ExtraCycle::NoExtra),
        0xa8 => entry(OpCode::Tay, Mode::NoMode, 2, ExtraCycle::NoExtra),
        0xa9 => entry(OpCode::Lda, Mode::Immediate, 2, ExtraCycle::NoExtra),
        0xaa => entry(OpCode::Tax, Mode::NoMode, 2, ExtraCycle::NoExtra),
        0xab => entry(OpCode::Lax, Mode::Immediate, 2, ExtraCycle::NoExtra),
        0xac => entry(OpCode::Ldy, Mode::Absolute, 4, ExtraCycle::NoExtra),
        0xad => entry(OpCode::Lda, Mode::Absolute, 4, ExtraCycle::NoExtra),
        0xae => entry(OpCode::Ldx, Mode::Absolute, 4, ExtraCycle::NoExtra),
        0xaf => entry(OpCode::Lax, Mode::Absolute, 4, ExtraCycle::NoExtra),
        0xb0 => entry(OpCode::Bcs, Mode::Relative, 2, ExtraCycle::IfTaken),
        0xb1 => entry(OpCode::Lda, Mode::IndirectY, 5, ExtraCycle::PageBoundary),
        0xb2 => entry(OpCode::Kil, Mode::NoMode, 0, ExtraCycle::NoExtra),
        0xb3 => entry(OpCode::Lax, Mode::IndirectY, 5, ExtraCycle::PageBoundary),
        0xb4 => entry(OpCode::Ldy, Mode::ZeroPageX, 4, ExtraCycle::NoExtra),
        0xb5 => entry(OpCode::Lda, Mode::ZeroPageX, 4, ExtraCycle::NoExtra),
        0xb6 => entry(OpCode::Ldx, Mode::ZeroPageY, 4, ExtraCycle::NoExtra),
        0xb7 => entry(OpCode::Lax, Mode::ZeroPageY, 4, ExtraCycle::NoExtra),
        0xb8 => entry(OpCode::Clv, Mode::NoMode, 2, ExtraCycle::NoExtra),
        0xb9 => entry(OpCode::Lda, Mode::AbsoluteIndexedY, 4, ExtraCycle::PageBoundary),
        0xba => entry(OpCode::Tsx, Mode::NoMode, 2, ExtraCycle::NoExtra),
        0xbb => entry(OpCode::Las, Mode::AbsoluteIndexedY, 4, ExtraCycle::PageBoundary),
        0xbc => entry(OpCode::Ldy, Mode::AbsoluteIndexedX, 4, ExtraCycle::PageBoundary),
        0xbd => entry(OpCode::Lda, Mode::AbsoluteIndexedX, 4, ExtraCycle::PageBoundary),
        0xbe => entry(OpCode::Ldx, Mode::AbsoluteIndexedY, 4, ExtraCycle::PageBoundary),
        0xbf => entry(OpCode::Lax, Mode::AbsoluteIndexedY, 4, ExtraCycle::PageBoundary),
        0xc0 => entry(OpCode::Cpy, Mode::Immediate, 2, ExtraCycle::NoExtra),
        0xc1 => entry(OpCode::Cmp, Mode::IndirectX, 6, ExtraCycle::NoExtra),
        0xc2 => entry(OpCode::Nop, Mode::Immediate, 2, ExtraCycle::NoExtra),
        0xc3 => entry(OpCode::Dcp, Mode::IndirectX, 8, ExtraCycle::NoExtra),
        0xc4 => entry(OpCode::Cpy, Mode::ZeroPage, 3, ExtraCycle::NoExtra),
        0xc5 => entry(OpCode::Cmp, Mode::ZeroPage, 3, ExtraCycle::NoExtra),
        0xc6 => entry(OpCode::Dec, Mode::ZeroPage, 5, ExtraCycle::NoExtra),
        0xc7 => entry(OpCode::Dcp, Mode::ZeroPage, 5, ExtraCycle::NoExtra),
        0xc8 => entry(OpCode::Iny, Mode::NoMode, 2, ExtraCycle::NoExtra),
        0xc9 => entry(OpCode::Cmp, Mode::Immediate, 2, ExtraCycle::NoExtra),
        0xca => entry(OpCode::Dex, Mode::NoMode, 2, ExtraCycle::NoExtra),
        0xcb => entry(OpCode::Axs, Mode::Immediate, 2, ExtraCycle::NoExtra),
        0xcc => entry(OpCode::Cpy, Mode::Absolute, 4, ExtraCycle::NoExtra),
        0xcd => entry(OpCode::Cmp, Mode::Absolute, 4, ExtraCycle::NoExtra),
        0xce => entry(OpCode::Dec, Mode::Absolute, 6, ExtraCycle::NoExtra),
        0xcf => entry(OpCode::Dcp, Mode::Absolute, 6, ExtraCycle::NoExtra),
        0xd0 => entry(OpCode::Bne, Mode::Relative, 2, ExtraCycle::IfTaken),
        0xd1 => entry(OpCode::Cmp, Mode::IndirectY, 5, ExtraCycle::PageBoundary),
        0xd2 => entry(OpCode::Kil, Mode::NoMode, 0, ExtraCycle::NoExtra),
        0xd3 => entry(OpCode::Dcp, Mode::IndirectY, 8, ExtraCycle::NoExtra),
        0xd4 => entry(OpCode::Nop, Mode::ZeroPageX, 4, ExtraCycle::NoExtra),
        0xd5 => entry(OpCode::Cmp, Mode::ZeroPageX, 4, ExtraCycle::NoExtra),
        0xd6 => entry(OpCode::Dec, Mode::ZeroPageX, 6, ExtraCycle::NoExtra),
        0xd7 => entry(OpCode::Dcp, Mode::ZeroPageX, 6, ExtraCycle::NoExtra),
        0xd8 => entry(OpCode::Cld, Mode::NoMode, 2, ExtraCycle::NoExtra),
        0xd9 => entry(OpCode::Cmp, Mode::AbsoluteIndexedY, 4, ExtraCycle::PageBoundary),
        0xda => entry(OpCode::Nop, Mode::NoMode, 2, ExtraCycle::NoExtra),
        0xdb => entry(OpCode::Dcp, Mode::AbsoluteIndexedY, 7, ExtraCycle::NoExtra),
        0xdc => entry(OpCode::Nop, Mode::AbsoluteIndexedX, 4, ExtraCycle::PageBoundary),
        0xdd => entry(OpCode::Cmp, Mode::AbsoluteIndexedX, 4, ExtraCycle::PageBoundary),
        0xde => entry(OpCode::Dec, Mode::AbsoluteIndexedX, 7, ExtraCycle::NoExtra),
        0xdf => entry(OpCode::Dcp, Mode::AbsoluteIndexedX, 7, ExtraCycle::NoExtra),
        0xe0 => entry(OpCode::Cpx, Mode::Immediate, 2, ExtraCycle::NoExtra),
        0xe1 => entry(OpCode::Sbc, Mode::IndirectX, 6, ExtraCycle::NoExtra),
        0xe2 => entry(OpCode::Nop, Mode::Immediate, 2, ExtraCycle::NoExtra),
        0xe3 => entry(OpCode::Isc, Mode::IndirectX, 8, ExtraCycle::NoExtra),
        0xe4 => entry(OpCode::Cpx, Mode::ZeroPage, 3, ExtraCycle::NoExtra),
        0xe5 => entry(OpCode::Sbc, Mode::ZeroPage, 3, ExtraCycle::NoExtra),
        0xe6 => entry(OpCode::Inc, Mode::ZeroPage, 5, ExtraCycle::NoExtra),
        0xe7 => entry(OpCode::Isc, Mode::ZeroPage, 5, ExtraCycle::NoExtra),
        0xe8 => entry(OpCode::Inx, Mode::NoMode, 2, ExtraCycle::NoExtra),
        0xe9 => entry(OpCode::Sbc, Mode::Immediate, 2, ExtraCycle::NoExtra),
        0xea => entry(OpCode::Nop, Mode::NoMode, 2, ExtraCycle::NoExtra),
        0xeb => entry(OpCode::Sbc, Mode::Immediate, 2, ExtraCycle::NoExtra),
        0xec => entry(OpCode::Cpx, Mode::Absolute, 4, ExtraCycle::NoExtra),
        0xed => entry(OpCode::Sbc, Mode::Absolute, 4, ExtraCycle::NoExtra),
        0xee => entry(OpCode::Inc, Mode::Absolute, 6, ExtraCycle::NoExtra),
        0xef => entry(OpCode::Isc, Mode::Absolute, 6, ExtraCycle::NoExtra),
        0xf0 => entry(OpCode::Beq, Mode::Relative, 2, ExtraCycle::IfTaken),
        0xf1 => entry(OpCode::Sbc, Mode::IndirectY, 5, ExtraCycle::PageBoundary),
        0xf2 => entry(OpCode::Kil, Mode::NoMode, 0, ExtraCycle::NoExtra),
        0xf3 => entry(OpCode::Isc, Mode::IndirectY, 8, ExtraCycle::NoExtra),
        0xf4 => entry(OpCode::Nop, Mode::ZeroPageX, 4, ExtraCycle::NoExtra),
        0xf5 => entry(OpCode::Sbc, Mode::ZeroPageX, 4, ExtraCycle::NoExtra),
        0xf6 => entry(OpCode::Inc, Mode::ZeroPageX, 6, ExtraCycle::NoExtra),
        0xf7 => entry(OpCode::Isc, Mode::ZeroPageX, 6, ExtraCycle::NoExtra),
        0xf8 => entry(OpCode::Sed, Mode::NoMode, 2, ExtraCycle::NoExtra),
        0xf9 => entry(OpCode::Sbc, Mode::AbsoluteIndexedY, 4, ExtraCycle::PageBoundary),
        0xfa => entry(OpCode::Nop, Mode::NoMode, 2, ExtraCycle::NoExtra),
        0xfb => entry(OpCode::Isc, Mode::AbsoluteIndexedY, 7, ExtraCycle::NoExtra),
        0xfc => entry(OpCode::Nop, Mode::AbsoluteIndexedX, 4, ExtraCycle::PageBoundary),
        0xfd => entry(OpCode::Sbc, Mode::AbsoluteIndexedX, 4, ExtraCycle::PageBoundary),
        0xfe => entry(OpCode::Inc, Mode::AbsoluteIndexedX, 7, ExtraCycle::NoExtra),
        _ => entry(OpCode::Isc, Mode::AbsoluteIndexedX, 7, ExtraCycle::NoExtra),
    }
}

/// The register-only instructions: they fetch no operand at all, and the
/// table pairs each of them with the operand-free mode.
pub open spec fn register_only(code: OpCode) -> bool {
    match code {
        OpCode::Tax | OpCode::Tay | OpCode::Tsx | OpCode::Txa | OpCode::Txs | OpCode::Tya
        | OpCode::Inx | OpCode::Iny | OpCode::Dex | OpCode::Dey | OpCode::Clc | OpCode::Cld
        | OpCode::Cli | OpCode::Clv | OpCode::Sec | OpCode::Sed | OpCode::Sei | OpCode::Pha
        | OpCode::Php | OpCode::Pla | OpCode::Plp | OpCode::Kil | OpCode::Brk | OpCode::Rti
        | OpCode::Rts => true,
        _ => false,
    }
}

/// The table never hands a mode without an operand to an instruction that
/// resolves an effective address, and pairs every register-only instruction
/// with the operand-free mode.
pub open spec fn mode_fits(e: OpEntry) -> bool {
    if register_only(e.code) {
        e.mode == Mode::NoMode
    } else {
        mode_addressable(e)
    }
}

/// The instructions that always resolve an effective address get a mode that
/// carries one.
pub open spec fn mode_addressable(e: OpEntry) -> bool {
    match e.code {
        OpCode::Adc
        | OpCode::Ahx
        | OpCode::Alr
        | OpCode::Anc
        | OpCode::And
        | OpCode::Arr
        | OpCode::Axs
        | OpCode::Bit
        | OpCode::Cmp
        | OpCode::Cpx
        | OpCode::Cpy
        | OpCode::Dcp
        | OpCode::Dec
        | OpCode::Eor
        | OpCode::Inc
        | OpCode::Isc
        | OpCode::Jmp
        | OpCode::Las
        | OpCode::Lax
        | OpCode::Lda
        | OpCode::Ldx
        | OpCode::Ldy
        | OpCode::Ora
        | OpCode::Rla
        | OpCode::Rra
        | OpCode::Sax
        | OpCode::Sbc
        | OpCode::Shx
        | OpCode::Shy
        | OpCode::Slo
        | OpCode::Sre
        | OpCode::Sta
        | OpCode::Stx
        | OpCode::Sty
        | OpCode::Tas
        | OpCode::Xaa => e.mode != Mode::Implied && e.mode != Mode::NoMode,
        _ => true,
    }
}

/// Every row of the table pairs its mnemonic with a fitting mode.
#[verifier::rlimit(100)]
pub proof fn lemma_decode_fits(op: u8)
    ensures
        mode_fits(decode(op)),
{
}

/// Executable twin of `penalty_of`.
pub fn extra_penalty(extra: ExtraCycle) -> (r: u8)
    ensures
        r == penalty_of(extra),
{
    match extra {
        ExtraCycle::PageBoundary => 1,
        _ => 0,
    }
}

/// Builds one table row in executable code.
pub fn build(code: OpCode, mode: Mode, cycles: u8, extra: ExtraCycle) -> (r: OpEntry)
    ensures
        r == entry(code, mode, cycles, extra),
{
    OpEntry { code, mode, cycles, extra }
}

/// Executable twin of `decode`: looks an opcode byte up in the table.
#[verifier::rlimit(100)]
pub fn opcode_entry(op: u8) -> (r: OpEntry)
    ensures
        r == decode(op),
        mode_fits(r),
{
    match op {
        0x00 => build(OpCode::Brk, Mode::NoMode, 7, ExtraCycle::NoExtra),
        0x01 => build(OpCode::Ora, Mode::IndirectX, 6, ExtraCycle::NoExtra),
        0x02 => build(OpCode::Kil, Mode::NoMode, 0, ExtraCycle::NoExtra),
        0x03 => build(OpCode::Slo, Mode::IndirectX, 8, ExtraCycle::NoExtra),
        0x04 => build(OpCode::Nop, Mode::ZeroPage, 3, ExtraCycle::NoExtra),
        0x05 => build(OpCode::Ora, Mode::ZeroPage, 3, ExtraCycle::NoExtra),
        0x06 => build(OpCode::Asl, Mode::ZeroPage, 5, ExtraCycle::NoExtra),
        0x07 => build(OpCode::Slo, Mode::ZeroPage, 5, ExtraCycle::NoExtra),
        0x08 => build(OpCode::Php, Mode::NoMode, 3, ExtraCycle::NoExtra),
        0x09 => build(OpCode::Ora, Mode::Immediate, 2, ExtraCycle::NoExtra),
        0x0a => build(OpCode::Asl, Mode::NoMode, 2, ExtraCycle::NoExtra),
        0x0b => build(OpCode::Anc, Mode::Immediate, 2, ExtraCycle::NoExtra),
        0x0c => build(OpCode::Nop, Mode::Absolute, 4, ExtraCycle::NoExtra),
        0x0d => build(OpCode::Ora, Mode::Absolute, 4, ExtraCycle::NoExtra),
        0x0e => build(OpCode::Asl, Mode::Absolute, 6, ExtraCycle::NoExtra),
        0x0f => build(OpCode::Slo, Mode::Absolute, 6, ExtraCycle::NoExtra),
        0x10 => build(OpCode::Bpl, Mode::Relative, 2, ExtraCycle::IfTaken),
        0x11 => build(OpCode::Ora, Mode::IndirectY, 5, ExtraCycle::PageBoundary),
        0x12 => build(OpCode::Kil, Mode::NoMode, 0, ExtraCycle::NoExtra),
        0x13 => build(OpCode::Slo, Mode::IndirectY, 8, ExtraCycle::NoExtra),
        0x14 => build(OpCode::Nop, Mode::ZeroPageX, 4, ExtraCycle::NoExtra),
        0x15 => build(OpCode::Ora, Mode::ZeroPageX, 4, ExtraCycle::NoExtra),
        0x16 => build(OpCode::Asl, Mode::ZeroPageX, 6, ExtraCycle::NoExtra),
        0x17 => build(OpCode::Slo, Mode::ZeroPageX, 6, ExtraCycle::NoExtra),
        0x18 => build(OpCode::Clc, Mode::NoMode, 2, ExtraCycle::NoExtra),
        0x19 => build(OpCode::Ora, Mode::AbsoluteIndexedY, 4, ExtraCycle::PageBoundary),
        0x1a => build(OpCode::Nop, Mode::NoMode, 2, ExtraCycle::NoExtra),
        0x1b => build(OpCode::Slo, Mode::AbsoluteIndexedY, 7, ExtraCycle::NoExtra),
        0x1c => build(OpCode::Nop, Mode::AbsoluteIndexedX, 4, ExtraCycle::PageBoundary),
        0x1d => build(OpCode::Ora, Mode::AbsoluteIndexedX, 4, ExtraCycle::PageBoundary),
        0x1e => build(OpCode::Asl, Mode::AbsoluteIndexedX, 7, ExtraCycle::NoExtra),
        0x1f => build(OpCode::Slo, Mode::AbsoluteIndexedX, 7, ExtraCycle::NoExtra),
        0x20 => build(OpCode::Jsr, Mode::Absolute, 6, ExtraCycle::NoExtra),
        0x21 => build(OpCode::And, Mode::IndirectX, 6, ExtraCycle::NoExtra),
        0x22 => build(OpCode::Kil, Mode::NoMode, 0, ExtraCycle::NoExtra),
        0x23 => build(OpCode::Rla, Mode::IndirectX, 8, ExtraCycle::NoExtra),
        0x24 => build(OpCode::Bit, Mode::ZeroPage, 3, ExtraCycle::NoExtra),
        0x25 => build(OpCode::And, Mode::ZeroPage, 3, ExtraCycle::NoExtra),
        0x26 => build(OpCode::Rol, Mode::ZeroPage, 5, ExtraCycle::NoExtra),
        0x27 => build(OpCode::Rla, Mode::ZeroPage, 5, ExtraCycle::NoExtra),
        0x28 => build(OpCode::Plp, Mode::NoMode, 4, ExtraCycle::NoExtra),
        0x29 => build(OpCode::And, Mode::Immediate, 2, ExtraCycle::NoExtra),
        0x2a => build(OpCode::Rol, Mode::NoMode, 2, ExtraCycle::NoExtra),
        0x2b => build(OpCode::Anc, Mode::Immediate, 2, ExtraCycle::NoExtra),
        0x2c => build(OpCode::Bit, Mode::Absolute, 4, ExtraCycle::NoExtra),
        0x2d => build(OpCode::And, Mode::Absolute, 4, ExtraCycle::NoExtra),
        0x2e => build(OpCode::Rol, Mode::Absolute, 6, ExtraCycle::NoExtra),
        0x2f => build(OpCode::Rla, Mode::Absolute, 6, ExtraCycle::NoExtra),
        0x30 => build(OpCode::Bmi, Mode::Relative, 2, ExtraCycle::IfTaken),
        0x31 => build(OpCode::And, Mode::IndirectY, 5, ExtraCycle::PageBoundary),
        0x32 => build(OpCode::Kil, Mode::NoMode, 0, ExtraCycle::NoExtra),
        0x33 => build(OpCode::Rla, Mode::IndirectY, 8, ExtraCycle::NoExtra),
        0x34 => build(OpCode::Nop, Mode::ZeroPageX, 4, ExtraCycle::NoExtra),
        0x35 => build(OpCode::And, Mode::ZeroPageX, 4, ExtraCycle::NoExtra),
        0x36 => build(OpCode::Rol, Mode::ZeroPageX, 6, ExtraCycle::NoExtra),
        0x37 => build(OpCode::Rla, Mode::ZeroPageX, 6, ExtraCycle::NoExtra),
        0x38 => build(OpCode::Sec, Mode::NoMode, 2, ExtraCycle::NoExtra),
        0x39 => build(OpCode::And, Mode::AbsoluteIndexedY, 4, ExtraCycle::PageBoundary),
        0x3a => build(OpCode::Nop, Mode::NoMode, 2, ExtraCycle::NoExtra),
        0x3b => build(OpCode::Rla, Mode::AbsoluteIndexedY, 7, ExtraCycle::NoExtra),
        0x3c => build(OpCode::Nop, Mode::AbsoluteIndexedX, 4, ExtraCycle::PageBoundary),
        0x3d => build(OpCode::And, Mode::AbsoluteIndexedX, 4, ExtraCycle::PageBoundary),
        0x3e => build(OpCode::Rol, Mode::AbsoluteIndexedX, 7, ExtraCycle::NoExtra),
        0x3f => build(OpCode::Rla, Mode::AbsoluteIndexedX, 7, ExtraCycle::NoExtra),
        0x40 => build(OpCode::Rti, Mode::NoMode, 6, ExtraCycle::NoExtra),
        0x41 => build(OpCode::Eor, Mode::IndirectX, 6, ExtraCycle::NoExtra),
        0x42 => build(OpCode::Kil, Mode::NoMode, 0, ExtraCycle::NoExtra),
        0x43 => build(OpCode::Sre, Mode::IndirectX, 8, ExtraCycle::NoExtra),
        0x44 => build(OpCode::Nop, Mode::ZeroPage, 3, ExtraCycle::NoExtra),
        0x45 => build(OpCode::Eor, Mode::ZeroPage, 3, ExtraCycle::NoExtra),
        0x46 => build(OpCode::Lsr, Mode::ZeroPage, 5, ExtraCycle::NoExtra),
        0x47 => build(OpCode::Sre, Mode::ZeroPage, 5, ExtraCycle::NoExtra),
        0x48 => build(OpCode::Pha, Mode::NoMode, 3, ExtraCycle::NoExtra),
        0x49 => build(OpCode::Eor, Mode::Immediate, 2, ExtraCycle::NoExtra),
        0x4a => build(OpCode::Lsr, Mode::NoMode, 2, ExtraCycle::NoExtra),
        0x4b => build(OpCode::Alr, Mode::Immediate, 2, ExtraCycle::NoExtra),
        0x4c => build(OpCode::Jmp, Mode::Absolute, 3, ExtraCycle::NoExtra),
        0x4d => build(OpCode::Eor, Mode::Absolute, 4, ExtraCycle::NoExtra),
        0x4e => build(OpCode::Lsr, Mode::Absolute, 6, ExtraCycle::NoExtra),
        0x4f => build(OpCode::Sre, Mode::Absolute, 6, ExtraCycle::NoExtra),
        0x50 => build(OpCode::Bvc, Mode::Relative, 2, ExtraCycle::IfTaken),
        0x51 => build(OpCode::Eor, Mode::IndirectY, 5, ExtraCycle::PageBoundary),
        0x52 => build(OpCode::Kil, Mode::NoMode, 0, ExtraCycle::NoExtra),
        0x53 => build(OpCode::Sre, Mode::IndirectY, 8, ExtraCycle::NoExtra),
        0x54 => build(OpCode::Nop, Mode::ZeroPageX, 4, ExtraCycle::NoExtra),
        0x55 => build(OpCode::Eor, Mode::ZeroPageX, 4, ExtraCycle::NoExtra),
        0x56 => build(OpCode::Lsr, Mode::ZeroPageX, 6, ExtraCycle::NoExtra),
        0x57 => build(OpCode::Sre, Mode::ZeroPageX, 6, ExtraCycle::NoExtra),
        0x58 => build(OpCode::Cli, Mode::NoMode, 2, ExtraCycle::NoExtra),
        0x59 => build(OpCode::Eor, Mode::AbsoluteIndexedY, 4, ExtraCycle::PageBoundary),
        0x5a => build(OpCode::Nop, Mode::NoMode, 2, ExtraCycle::NoExtra),
        0x5b => build(OpCode::Sre, Mode::AbsoluteIndexedY, 7, ExtraCycle::NoExtra),
        0x5c => build(OpCode::Nop, Mode::AbsoluteIndexedX, 4, ExtraCycle::PageBoundary),
        0x5d => build(OpCode::Eor, Mode::AbsoluteIndexedX, 4, ExtraCycle::PageBoundary),
        0x5e => build(OpCode::Lsr, Mode::AbsoluteIndexedX, 7, ExtraCycle::NoExtra),
        0x5f => build(OpCode::Sre, Mode::AbsoluteIndexedX, 7, ExtraCycle::NoExtra),
        0x60 => build(OpCode::Rts, Mode::NoMode, 6, ExtraCycle::NoExtra),
        0x61 => build(OpCode::Adc, Mode::IndirectX, 6, ExtraCycle::NoExtra),
        0x62 => build(OpCode::Kil, Mode::NoMode, 0, ExtraCycle::NoExtra),
        0x63 => build(OpCode::Rra, Mode::IndirectX, 8, ExtraCycle::NoExtra),
        0x64 => build(OpCode::Nop, Mode::ZeroPage, 3, ExtraCycle::NoExtra),
        0x65 => build(OpCode::Adc, Mode::ZeroPage, 3, ExtraCycle::NoExtra),
        0x66 => build(OpCode::Ror, Mode::ZeroPage, 5, ExtraCycle::NoExtra),
        0x67 => build(OpCode::Rra, Mode::ZeroPage, 5, ExtraCycle::NoExtra),
        0x68 => build(OpCode::Pla, Mode::NoMode, 4, ExtraCycle::NoExtra),
        0x69 => build(OpCode::Adc, Mode::Immediate, 2, ExtraCycle::NoExtra),
        0x6a => build(OpCode::Ror, Mode::NoMode, 2, ExtraCycle::NoExtra),
        0x6b => build(OpCode::Arr, Mode::Immediate, 2, ExtraCycle::NoExtra),
        0x6c => build(OpCode::Jmp, Mode::Indirect, 5, ExtraCycle::NoExtra),
        0x6d => build(OpCode::Adc, Mode::Absolute, 4, ExtraCycle::NoExtra),
        0x6e => build(OpCode::Ror, Mode::Absolute, 6, ExtraCycle::NoExtra),
        0x6f => build(OpCode::Rra, Mode::Absolute, 6, ExtraCycle::NoExtra),
        0x70 => build(OpCode::Bvs, Mode::Relative, 2, ExtraCycle::IfTaken),
        0x71 => build(OpCode::Adc, Mode::IndirectY, 5, ExtraCycle::PageBoundary),
        0x72 => build(OpCode::Kil, Mode::NoMode, 0, ExtraCycle::NoExtra),
        0x73 => build(OpCode::Rra, Mode::IndirectY, 8, ExtraCycle::NoExtra),
        0x74 => build(OpCode::Nop, Mode::ZeroPageX, 4, ExtraCycle::NoExtra),
        0x75 => build(OpCode::Adc, Mode::ZeroPageX, 4, ExtraCycle::NoExtra),
        0x76 => build(OpCode::Ror, Mode::ZeroPageX, 6, ExtraCycle::NoExtra),
        0x77 => build(OpCode::Rra, Mode::ZeroPageX, 6, ExtraCycle::NoExtra),
        0x78 => build(OpCode::Sei, Mode::NoMode, 2, ExtraCycle::NoExtra),
        0x79 => build(OpCode::Adc, Mode::AbsoluteIndexedY, 4, ExtraCycle::PageBoundary),
        0x7a => build(OpCode::Nop, Mode::NoMode, 2, ExtraCycle::NoExtra),
        0x7b => build(OpCode::Rra, Mode::AbsoluteIndexedY, 7, ExtraCycle::NoExtra),
        0x7c => build(OpCode::Nop, Mode::AbsoluteIndexedX, 4, ExtraCycle::PageBoundary),
        0x7d => build(OpCode::Adc, Mode::AbsoluteIndexedX, 4, ExtraCycle::PageBoundary),
        0x7e => build(OpCode::Ror, Mode::AbsoluteIndexedX, 7, ExtraCycle::NoExtra),
        0x7f => build(OpCode::Rra, Mode::AbsoluteIndexedX, 7, ExtraCycle::NoExtra),
        0x80 => build(OpCode::Nop, Mode::Immediate, 2, ExtraCycle::NoExtra),
        0x81 => build(OpCode::Sta, Mode::IndirectX, 6, ExtraCycle::NoExtra),
        0x82 => build(OpCode::Nop, Mode::Immediate, 2, ExtraCycle::NoExtra),
        0x83 => build(OpCode::Sax, Mode::IndirectX, 6, ExtraCycle::NoExtra),
        0x84 => build(OpCode::Sty, Mode::ZeroPage, 3, ExtraCycle::NoExtra),
        0x85 => build(OpCode::Sta, Mode::ZeroPage, 3, ExtraCycle::NoExtra),
        0x86 => build(OpCode::Stx, Mode::ZeroPage, 3, ExtraCycle::NoExtra),
        0x87 => build(OpCode::Sax, Mode::ZeroPage, 3, ExtraCycle::NoExtra),
        0x88 => build(OpCode::Dey, Mode::NoMode, 2, ExtraCycle::NoExtra),
        0x89 => build(OpCode::Nop, Mode::Immediate, 2, ExtraCycle::NoExtra),
        0x8a => build(OpCode::Txa, Mode::NoMode, 2, ExtraCycle::NoExtra),
        0x8b => build(OpCode::Xaa, Mode::Immediate, 2, ExtraCycle::NoExtra),
        0x8c => build(OpCode::Sty, Mode::Absolute, 4, ExtraCycle::NoExtra),
        0x8d => build(OpCode::Sta, Mode::Absolute, 4, ExtraCycle::NoExtra),
        0x8e => build(OpCode::Stx, Mode::Absolute, 4, ExtraCycle::NoExtra),
        0x8f => build(OpCode::Sax, Mode::Absolute, 4, ExtraCycle::NoExtra),
        0x90 => build(OpCode::Bcc, Mode::Relative, 2, ExtraCycle::IfTaken),
        0x91 => build(OpCode::Sta, Mode::IndirectY, 6, ExtraCycle::NoExtra),
        0x92 => build(OpCode::Kil, Mode::NoMode, 0, ExtraCycle::NoExtra),
        0x93 => build(OpCode::Ahx, Mode::IndirectY, 6, ExtraCycle::NoExtra),
        0x94 => build(OpCode::Sty, Mode::ZeroPageX, 4, ExtraCycle::NoExtra),
        0x95 => build(OpCode::Sta, Mode::ZeroPageX, 4, ExtraCycle::NoExtra),
        0x96 => build(OpCode::Stx, Mode::ZeroPageY, 4, ExtraCycle::NoExtra),
        0x97 => build(OpCode::Sax, Mode::ZeroPageY, 4, ExtraCycle::NoExtra),
        0x98 => build(OpCode::Tya, Mode::NoMode, 2, ExtraCycle::NoExtra),
        0x99 => build(OpCode::Sta, Mode::AbsoluteIndexedY, 5, ExtraCycle::NoExtra),
        0x9a => build(OpCode::Txs, Mode::NoMode, 2, ExtraCycle::NoExtra),
        0x9b => build(OpCode::Tas, Mode::AbsoluteIndexedY, 5, ExtraCycle::NoExtra),
        0x9c => build(OpCode::Shy, Mode::AbsoluteIndexedX, 5, ExtraCycle::NoExtra),
        0x9d => build(OpCode::Sta, Mode::AbsoluteIndexedX, 5, ExtraCycle::NoExtra),
        0x9e => build(OpCode::Shx, Mode::AbsoluteIndexedY, 5, ExtraCycle::NoExtra),
        0x9f => build(OpCode::Ahx, Mode::AbsoluteIndexedY, 5, ExtraCycle::NoExtra),
        0xa0 => build(OpCode::Ldy, Mode::Immediate, 2, ExtraCycle::NoExtra),
        0xa1 => build(OpCode::Lda, Mode::IndirectX, 6, ExtraCycle::NoExtra),
        0xa2 => build(OpCode::Ldx, Mode::Immediate, 2, ExtraCycle::NoExtra),
        0xa3 => build(OpCode::Lax, Mode::IndirectX, 6, ExtraCycle::NoExtra),
        0xa4 => build(OpCode::Ldy, Mode::ZeroPage, 3, ExtraCycle::NoExtra),
        0xa5 => build(OpCode::Lda, Mode::ZeroPage, 3, ExtraCycle::NoExtra),
        0xa6 => build(OpCode::Ldx, Mode::ZeroPage, 3, ExtraCycle::NoExtra),
        0xa7 => build(OpCode::Lax, Mode::ZeroPage, 3, ExtraCycle::NoExtra),
        0xa8 => build(OpCode::Tay, Mode::NoMode, 2, ExtraCycle::NoExtra),
        0xa9 => build(OpCode::Lda, Mode::Immediate, 2, ExtraCycle::NoExtra),
        0xaa => build(OpCode::Tax, Mode::NoMode, 2, ExtraCycle::NoExtra),
        0xab => build(OpCode::Lax, Mode::Immediate, 2, ExtraCycle::NoExtra),
        0xac => build(OpCode::Ldy, Mode::Absolute, 4, ExtraCycle::NoExtra),
        0xad => build(OpCode::Lda, Mode::Absolute, 4, ExtraCycle::NoExtra),
        0xae => build(OpCode::Ldx, Mode::Absolute, 4, ExtraCycle::NoExtra),
        0xaf => build(OpCode::Lax, Mode::Absolute, 4, ExtraCycle::NoExtra),
        0xb0 => build(OpCode::Bcs, Mode::Relative, 2, ExtraCycle::IfTaken),
        0xb1 => build(OpCode::Lda, Mode::IndirectY, 5, ExtraCycle::PageBoundary),
        0xb2 => build(OpCode::Kil, Mode::NoMode, 0, ExtraCycle::NoExtra),
        0xb3 => build(OpCode::Lax, Mode::IndirectY, 5, ExtraCycle::PageBoundary),
        0xb4 => build(OpCode::Ldy, Mode::ZeroPageX, 4, ExtraCycle::NoExtra),
        0xb5 => build(OpCode::Lda, Mode::ZeroPageX, 4, ExtraCycle::NoExtra),
        0xb6 => build(OpCode::Ldx, Mode::ZeroPageY, 4, ExtraCycle::NoExtra),
        0xb7 => build(OpCode::Lax, Mode::ZeroPageY, 4, ExtraCycle::NoExtra),
        0xb8 => build(OpCode::Clv, Mode::NoMode, 2, ExtraCycle::NoExtra),
        0xb9 => build(OpCode::Lda, Mode::AbsoluteIndexedY, 4, ExtraCycle::PageBoundary),
        0xba => build(OpCode::Tsx, Mode::NoMode, 2, ExtraCycle::NoExtra),
        0xbb => build(OpCode::Las, Mode::AbsoluteIndexedY, 4, ExtraCycle::PageBoundary),
        0xbc => build(OpCode::Ldy, Mode::AbsoluteIndexedX, 4, ExtraCycle::PageBoundary),
        0xbd => build(OpCode::Lda, Mode::AbsoluteIndexedX, 4, ExtraCycle::PageBoundary),
        0xbe => build(OpCode::Ldx, Mode::AbsoluteIndexedY, 4, ExtraCycle::PageBoundary),
        0xbf => build(OpCode::Lax, Mode::AbsoluteIndexedY, 4, ExtraCycle::PageBoundary),
        0xc0 => build(OpCode::Cpy, Mode::Immediate, 2, ExtraCycle::NoExtra),
        0xc1 => build(OpCode::Cmp, Mode::IndirectX, 6, ExtraCycle::NoExtra),
        0xc2 => build(OpCode::Nop, Mode::Immediate, 2, ExtraCycle::NoExtra),
        0xc3 => build(OpCode::Dcp, Mode::IndirectX, 8, ExtraCycle::NoExtra),
        0xc4 => build(OpCode::Cpy, Mode::ZeroPage, 3, ExtraCycle::NoExtra),
        0xc5 => build(OpCode::Cmp, Mode::ZeroPage, 3, ExtraCycle::NoExtra),
        0xc6 => build(OpCode::Dec, Mode::ZeroPage, 5, ExtraCycle::NoExtra),
        0xc7 => build(OpCode::Dcp, Mode::ZeroPage, 5, ExtraCycle::NoExtra),
        0xc8 => build(OpCode::Iny, Mode::NoMode, 2, ExtraCycle::NoExtra),
        0xc9 => build(OpCode::Cmp, Mode::Immediate, 2, ExtraCycle::NoExtra),
        0xca => build(OpCode::Dex, Mode::NoMode, 2, ExtraCycle::NoExtra),
        0xcb => build(OpCode::Axs, Mode::Immediate, 2, ExtraCycle::NoExtra),
        0xcc => build(OpCode::Cpy, Mode::Absolute, 4, ExtraCycle::NoExtra),
        0xcd => build(OpCode::Cmp, Mode::Absolute, 4, ExtraCycle::NoExtra),
        0xce => build(OpCode::Dec, Mode::Absolute, 6, ExtraCycle::NoExtra),
        0xcf => build(OpCode::Dcp, Mode::Absolute, 6, ExtraCycle::NoExtra),
        0xd0 => build(OpCode::Bne, Mode::Relative, 2, ExtraCycle::IfTaken),
        0xd1 => build(OpCode::Cmp, Mode::IndirectY, 5, ExtraCycle::PageBoundary),
        0xd2 => build(OpCode::Kil, Mode::NoMode, 0, ExtraCycle::NoExtra),
        0xd3 => build(OpCode::Dcp, Mode::IndirectY, 8, ExtraCycle::NoExtra),
        0xd4 => build(OpCode::Nop, Mode::ZeroPageX, 4, ExtraCycle::NoExtra),
        0xd5 => build(OpCode::Cmp, Mode::ZeroPageX, 4, ExtraCycle::NoExtra),
        0xd6 => build(OpCode::Dec, Mode::ZeroPageX, 6, ExtraCycle::NoExtra),
        0xd7 => build(OpCode::Dcp, Mode::ZeroPageX, 6, ExtraCycle::NoExtra),
        0xd8 => build(OpCode::Cld, Mode::NoMode, 2, ExtraCycle::NoExtra),
        0xd9 => build(OpCode::Cmp, Mode::AbsoluteIndexedY, 4, ExtraCycle::PageBoundary),
        0xda => build(OpCode::Nop, Mode::NoMode, 2, ExtraCycle::NoExtra),
        0xdb => build(OpCode::Dcp, Mode::AbsoluteIndexedY, 7, ExtraCycle::NoExtra),
        0xdc => build(OpCode::Nop, Mode::AbsoluteIndexedX, 4, ExtraCycle::PageBoundary),
        0xdd => build(OpCode::Cmp, Mode::AbsoluteIndexedX, 4, ExtraCycle::PageBoundary),
        0xde => build(OpCode::Dec, Mode::AbsoluteIndexedX, 7, ExtraCycle::NoExtra),
        0xdf => build(OpCode::Dcp, Mode::AbsoluteIndexedX, 7, ExtraCycle::NoExtra),
        0xe0 => build(OpCode::Cpx, Mode::Immediate, 2, ExtraCycle::NoExtra),
        0xe1 => build(OpCode::Sbc, Mode::IndirectX, 6, ExtraCycle::NoExtra),
        0xe2 => build(OpCode::Nop, Mode::Immediate, 2, ExtraCycle::NoExtra),
        0xe3 => build(OpCode::Isc, Mode::IndirectX, 8, ExtraCycle::NoExtra),
        0xe4 => build(OpCode::Cpx, Mode::ZeroPage, 3, ExtraCycle::NoExtra),
        0xe5 => build(OpCode::Sbc, Mode::ZeroPage, 3, ExtraCycle::NoExtra),
        0xe6 => build(OpCode::Inc, Mode::ZeroPage, 5, ExtraCycle::NoExtra),
        0xe7 => build(OpCode::Isc, Mode::ZeroPage, 5, ExtraCycle::NoExtra),
        0xe8 => build(OpCode::Inx, Mode::NoMode, 2, ExtraCycle::NoExtra),
        0xe9 => build(OpCode::Sbc, Mode::Immediate, 2, ExtraCycle::NoExtra),
        0xea => build(OpCode::Nop, Mode::NoMode, 2, ExtraCycle::NoExtra),
        0xeb => build(OpCode::Sbc, Mode::Immediate, 2, ExtraCycle::NoExtra),
        0xec => build(OpCode::Cpx, Mode::Absolute, 4, ExtraCycle::NoExtra),
        0xed => build(OpCode::Sbc, Mode::Absolute, 4, ExtraCycle::NoExtra),
        0xee => build(OpCode::Inc, Mode::Absolute, 6, ExtraCycle::NoExtra),
        0xef => build(OpCode::Isc, Mode::Absolute, 6, ExtraCycle::NoExtra),
        0xf0 => build(OpCode::Beq, Mode::Relative, 2, ExtraCycle::IfTaken),
        0xf1 => build(OpCode::Sbc, Mode::IndirectY, 5, ExtraCycle::PageBoundary),
        0xf2 => build(OpCode::Kil, Mode::NoMode, 0, ExtraCycle::NoExtra),
        0xf3 => build(OpCode::Isc, Mode::IndirectY, 8, ExtraCycle::NoExtra),
        0xf4 => build(OpCode::Nop, Mode::ZeroPageX, 4, ExtraCycle::NoExtra),
        0xf5 => build(OpCode::Sbc, Mode::ZeroPageX, 4, ExtraCycle::NoExtra),
        0xf6 => build(OpCode::Inc, Mode::ZeroPageX, 6, ExtraCycle::NoExtra),
        0xf7 => build(OpCode::Isc, Mode::ZeroPageX, 6, ExtraCycle::NoExtra),
        0xf8 => build(OpCode::Sed, Mode::NoMode, 2, ExtraCycle::NoExtra),
        0xf9 => build(OpCode::Sbc, Mode::AbsoluteIndexedY, 4, ExtraCycle::PageBoundary),
        0xfa => build(OpCode::Nop, Mode::NoMode, 2, ExtraCycle::NoExtra),
        0xfb => build(OpCode::Isc, Mode::AbsoluteIndexedY, 7, ExtraCycle::NoExtra),
        0xfc => build(OpCode::Nop, Mode::AbsoluteIndexedX, 4, ExtraCycle::PageBoundary),
        0xfd => build(OpCode::Sbc, Mode::AbsoluteIndexedX, 4, ExtraCycle::PageBoundary),
        0xfe => build(OpCode::Inc, Mode::AbsoluteIndexedX, 7, ExtraCycle::NoExtra),
        _ => build(OpCode::Isc, Mode::AbsoluteIndexedX, 7, ExtraCycle::NoExtra),
    }
}

} // verus!
