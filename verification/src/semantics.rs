//! The instruction semantics: one spec function per mnemonic, an
//! effective-address resolver, and the `step` function that ties the opcode
//! table to them. The executable emulator is proved to produce exactly the
//! state these functions describe.

use vstd::prelude::*;

use crate::model::{
    CpuState, FLAG_BREAK, FLAG_CARRY, FLAG_DECIMAL, FLAG_INTERRUPT_DISABLE, FLAG_NEGATIVE,
    FLAG_OVERFLOW, FLAG_PUSH, FLAG_ZERO, IRQ_VECTOR, carry_of, combine, flag_set, hi8, lo8, page,
    pull16, pull8, push16, push8, read16, read16_page_bug, read16_zero_page, read8, restore_status,
    set_flag, write8, zn,
};
use crate::opcodes::{Mode, OpCode, decode, penalty_of};

verus! {

// ---------------------------------------------------------------------------
// Addressing
// ---------------------------------------------------------------------------

/// How many operand bytes a mode fetches after the opcode byte.
pub open spec fn operand_len(mode: Mode) -> u16 {
    match mode {
        Mode::Absolute => 2,
        Mode::AbsoluteIndexedX => 2,
        Mode::AbsoluteIndexedY => 2,
        Mode::Indirect => 2,
        Mode::Immediate => 1,
        Mode::IndirectX => 1,
        Mode::IndirectY => 1,
        Mode::Relative => 1,
        Mode::ZeroPage => 1,
        Mode::ZeroPageX => 1,
        Mode::ZeroPageY => 1,
        Mode::Implied => 0,
        Mode::NoMode => 0,
    }
}

/// The state with the program counter moved past `n` bytes.
pub open spec fn advance(c: CpuState, n: u16) -> CpuState {
    CpuState { pc: c.pc.wrapping_add(n), ..c }
}

/// Charges the page-boundary penalty: `extra` cycles when the base and the
/// effective address lie in different pages, nothing otherwise.
pub open spec fn charge_boundary(c: CpuState, base: u16, eff: u16, extra: u8) -> CpuState {
    if page(base) != page(eff) {
        CpuState { cycles: c.cycles.wrapping_add(extra as u64), ..c }
    } else {
        c
    }
}

/// The target of a relative branch: the operand is a signed byte added to
/// the program counter as it stands after the operand fetch.
pub open spec fn branch_target(pc: u16, off: u8) -> u16 {
    if off < 0x80 {
        pc.wrapping_add(off as u16)
    } else {
        pc.wrapping_add(off as u16).wrapping_sub(0x100)
    }
}

/// Effective-address resolution. Takes the state right after the opcode
/// fetch; yields the state after the operand fetch, with any page-boundary
/// penalty charged, and the effective address. The modes without an operand
/// resolve to address zero here; the executable resolver refuses them loudly
/// instead, since asking for an address in a register-only instruction is a
/// defect in the core.
pub open spec fn resolve(c: CpuState, mode: Mode, extra: u8) -> (CpuState, u16) {
    match mode {
        Mode::Absolute => (advance(c, 2), read16(c.mem, c.pc)),
        Mode::AbsoluteIndexedX => {
            let base = read16(c.mem, c.pc);
            let eff = base.wrapping_add(c.x as u16);
            (charge_boundary(advance(c, 2), base, eff, extra), eff)
        },
        Mode::AbsoluteIndexedY => {
            let base = read16(c.mem, c.pc);
            let eff = base.wrapping_add(c.y as u16);
            (charge_boundary(advance(c, 2), base, eff, extra), eff)
        },
        Mode::Immediate => (advance(c, 1), c.pc),
        Mode::Implied => (c, 0),
        Mode::Indirect => (advance(c, 2), read16_page_bug(c.mem, read16(c.mem, c.pc))),
        Mode::IndirectX => (
            advance(c, 1),
            read16_zero_page(c.mem, read8(c.mem, c.pc).wrapping_add(c.x)),
        ),
        Mode::IndirectY => {
            let base = read16_zero_page(c.mem, read8(c.mem, c.pc));
            let eff = base.wrapping_add(c.y as u16);
            (charge_boundary(advance(c, 1), base, eff, extra), eff)
        },
        Mode::Relative => {
            let off = read8(c.mem, c.pc);
            let c1 = advance(c, 1);
            let eff = branch_target(c1.pc, off);
            (charge_boundary(c1, c1.pc, eff, extra), eff)
        },
        Mode::ZeroPage => (advance(c, 1), read8(c.mem, c.pc) as u16),
        Mode::ZeroPageX => (advance(c, 1), read8(c.mem, c.pc).wrapping_add(c.x) as u16),
        Mode::ZeroPageY => (advance(c, 1), read8(c.mem, c.pc).wrapping_add(c.y) as u16),
        Mode::NoMode => (c, 0),
    }
}

// ---------------------------------------------------------------------------
// Loads, stores, transfers
// ---------------------------------------------------------------------------

pub open spec fn lda(c: CpuState, mode: Mode, extra: u8) -> CpuState {
    let (c1, addr) = resolve(c, mode, extra);
    let v = read8(c1.mem, addr);
    CpuState { a: v, p: zn(c1.p, v), ..c1 }
}

pub open spec fn ldx(c: CpuState, mode: Mode, extra: u8) -> CpuState {
    let (c1, addr) = resolve(c, mode, extra);
    let v = read8(c1.mem, addr);
    CpuState { x: v, p: zn(c1.p, v), ..c1 }
}

pub open spec fn ldy(c: CpuState, mode: Mode, extra: u8) -> CpuState {
    let (c1, addr) = resolve(c, mode, extra);
    let v = read8(c1.mem, addr);
    CpuState { y: v, p: zn(c1.p, v), ..c1 }
}

/// Undocumented: loads the accumulator and X together.
pub open spec fn lax(c: CpuState, mode: Mode, extra: u8) -> CpuState {
    let (c1, addr) = resolve(c, mode, extra);
    let v = read8(c1.mem, addr);
    CpuState { a: v, x: v, p: zn(c1.p, v), ..c1 }
}

pub open spec fn sta(c: CpuState, mode: Mode, extra: u8) -> CpuState {
    let (c1, addr) = resolve(c, mode, extra);
    CpuState { mem: write8(c1.mem, addr, c1.a), ..c1 }
}

pub open spec fn stx(c: CpuState, mode: Mode, extra: u8) -> CpuState {
    let (c1, addr) = resolve(c, mode, extra);
    CpuState { mem: write8(c1.mem, addr, c1.x), ..c1 }
}

pub open spec fn sty(c: CpuState, mode: Mode, extra: u8) -> CpuState {
    let (c1, addr) = resolve(c, mode, extra);
    CpuState { mem: write8(c1.mem, addr, c1.y), ..c1 }
}

/// Undocumented: stores the AND of the accumulator and X; no flags.
pub open spec fn sax(c: CpuState, mode: Mode, extra: u8) -> CpuState {
    let (c1, addr) = resolve(c, mode, extra);
    CpuState { mem: write8(c1.mem, addr, c1.a & c1.x), ..c1 }
}

pub open spec fn tax(c: CpuState) -> CpuState {
    CpuState { x: c.a, p: zn(c.p, c.a), ..c }
}

pub open spec fn tay(c: CpuState) -> CpuState {
    CpuState { y: c.a, p: zn(c.p, c.a), ..c }
}

pub open spec fn txa(c: CpuState) -> CpuState {
    CpuState { a: c.x, p: zn(c.p, c.x), ..c }
}

pub open spec fn tya(c: CpuState) -> CpuState {
    CpuState { a: c.y, p: zn(c.p, c.y), ..c }
}

pub open spec fn tsx(c: CpuState) -> CpuState {
    CpuState { x: c.s, p: zn(c.p, c.s), ..c }
}

/// The one transfer that sets no flags.
pub open spec fn txs(c: CpuState) -> CpuState {
    CpuState { s: c.x, ..c }
}

// ---------------------------------------------------------------------------
// Arithmetic
// ---------------------------------------------------------------------------

/// The signed-overflow condition of add-with-carry: the accumulator and the
/// operand agree on the sign bit and the result differs from it.
pub open spec fn overflow_cond(a: u8, v: u8, r: u8) -> bool {
    !(a ^ v) & (a ^ r) & 0x80 == 0x80
}

/// Add-with-carry of one operand byte into the accumulator: a nine-bit sum
/// whose top bit lands in the carry flag.
pub open spec fn adc_value(c: CpuState, v: u8) -> CpuState {
    let sum = (c.a + v + carry_of(c.p)) as u16;
    let r = (sum % 0x100) as u8;
    let p1 = set_flag(c.p, FLAG_CARRY, sum & 0x100 == 0x100);
    let p2 = set_flag(p1, FLAG_OVERFLOW, overflow_cond(c.a, v, r));
    CpuState { a: r, p: zn(p2, r), ..c }
}

pub open spec fn adc(c: CpuState, mode: Mode, extra: u8) -> CpuState {
    let (c1, addr) = resolve(c, mode, extra);
    adc_value(c1, read8(c1.mem, addr))
}

/// Subtract-with-borrow is add-with-carry of the one's complement.
pub open spec fn sbc(c: CpuState, mode: Mode, extra: u8) -> CpuState {
    let (c1, addr) = resolve(c, mode, extra);
    adc_value(c1, !read8(c1.mem, addr))
}

/// Comparison: computes `reg - v` without storing it; carry says no borrow.
pub open spec fn compare(c: CpuState, reg: u8, v: u8) -> CpuState {
    let r = reg.wrapping_sub(v);
    CpuState { p: zn(set_flag(c.p, FLAG_CARRY, reg >= v), r), ..c }
}

pub open spec fn cmp(c: CpuState, mode: Mode, extra: u8) -> CpuState {
    let (c1, addr) = resolve(c, mode, extra);
    compare(c1, c1.a, read8(c1.mem, addr))
}

pub open spec fn cpx(c: CpuState, mode: Mode, extra: u8) -> CpuState {
    let (c1, addr) = resolve(c, mode, extra);
    compare(c1, c1.x, read8(c1.mem, addr))
}

pub open spec fn cpy(c: CpuState, mode: Mode, extra: u8) -> CpuState {
    let (c1, addr) = resolve(c, mode, extra);
    compare(c1, c1.y, read8(c1.mem, addr))
}

// ---------------------------------------------------------------------------
// Logical
// ---------------------------------------------------------------------------

pub open spec fn and(c: CpuState, mode: Mode, extra: u8) -> CpuState {
    let (c1, addr) = resolve(c, mode, extra);
    let r = c1.a & read8(c1.mem, addr);
    CpuState { a: r, p: zn(c1.p, r), ..c1 }
}

pub open spec fn ora(c: CpuState, mode: Mode, extra: u8) -> CpuState {
    let (c1, addr) = resolve(c, mode, extra);
    let r = c1.a | read8(c1.mem, addr);
    CpuState { a: r, p: zn(c1.p, r), ..c1 }
}

pub open spec fn eor(c: CpuState, mode: Mode, extra: u8) -> CpuState {
    let (c1, addr) = resolve(c, mode, extra);
    let r = c1.a ^ read8(c1.mem, addr);
    CpuState { a: r, p: zn(c1.p, r), ..c1 }
}

/// BIT: zero from the masked operand, negative and overflow straight from
/// the operand's top two bits.
pub open spec fn bit(c: CpuState, mode: Mode, extra: u8) -> CpuState {
    let (c1, addr) = resolve(c, mode, extra);
    let v = read8(c1.mem, addr);
    let p1 = set_flag(c1.p, FLAG_ZERO, c1.a & v == 0);
    let p2 = set_flag(p1, FLAG_NEGATIVE, v & 0x80 == 0x80);
    CpuState { p: set_flag(p2, FLAG_OVERFLOW, v & 0x40 == 0x40), ..c1 }
}

// ---------------------------------------------------------------------------
// Shifts and rotates
// ---------------------------------------------------------------------------

/// Shift left: the old top bit becomes the carry.
pub open spec fn asl(c: CpuState, mode: Mode) -> CpuState {
    match mode {
        Mode::Implied | Mode::NoMode => {
            let v = c.a;
            let r = v << 1;
            CpuState { a: r, p: zn(set_flag(c.p, FLAG_CARRY, v & 0x80 == 0x80), r), ..c }
        },
        _ => {
            let (c1, addr) = resolve(c, mode, 0);
            let v = read8(c1.mem, addr);
            let r = v << 1;
            CpuState {
                mem: write8(c1.mem, addr, r),
                p: zn(set_flag(c1.p, FLAG_CARRY, v & 0x80 == 0x80), r),
                ..c1
            }
        },
    }
}

/// Shift right: the old bottom bit becomes the carry.
pub open spec fn lsr(c: CpuState, mode: Mode) -> CpuState {
    match mode {
        Mode::Implied | Mode::NoMode => {
            let v = c.a;
            let r = v >> 1;
            CpuState { a: r, p: zn(set_flag(c.p, FLAG_CARRY, v & 0x01 == 0x01), r), ..c }
        },
        _ => {
            let (c1, addr) = resolve(c, mode, 0);
            let v = read8(c1.mem, addr);
            let r = v >> 1;
            CpuState {
                mem: write8(c1.mem, addr, r),
                p: zn(set_flag(c1.p, FLAG_CARRY, v & 0x01 == 0x01), r),
                ..c1
            }
        },
    }
}

/// Rotate left through the carry.
pub open spec fn rol(c: CpuState, mode: Mode) -> CpuState {
    match mode {
        Mode::Implied | Mode::NoMode => {
            let v = c.a;
            let r = (v << 1) | carry_of(c.p);
            CpuState { a: r, p: zn(set_flag(c.p, FLAG_CARRY, v & 0x80 == 0x80), r), ..c }
        },
        _ => {
            let (c1, addr) = resolve(c, mode, 0);
            let v = read8(c1.mem, addr);
            let r = (v << 1) | carry_of(c1.p);
            CpuState {
                mem: write8(c1.mem, addr, r),
                p: zn(set_flag(c1.p, FLAG_CARRY, v & 0x80 == 0x80), r),
                ..c1
            }
        },
    }
}

/// Rotate right through the carry.
pub open spec fn ror(c: CpuState, mode: Mode) -> CpuState {
    match mode {
        Mode::Implied | Mode::NoMode => {
            let v = c.a;
            let r = (v >> 1) | (carry_of(c.p) << 7);
            CpuState { a: r, p: zn(set_flag(c.p, FLAG_CARRY, v & 0x01 == 0x01), r), ..c }
        },
        _ => {
            let (c1, addr) = resolve(c, mode, 0);
            let v = read8(c1.mem, addr);
            let r = (v >> 1) | (carry_of(c1.p) << 7);
            CpuState {
                mem: write8(c1.mem, addr, r),
                p: zn(set_flag(c1.p, FLAG_CARRY, v & 0x01 == 0x01), r),
                ..c1
            }
        },
    }
}

// ---------------------------------------------------------------------------
// Increments and decrements
// ---------------------------------------------------------------------------

pub open spec fn inc(c: CpuState, mode: Mode, extra: u8) -> CpuState {
    let (c1, addr) = resolve(c, mode, extra);
    let r = read8(c1.mem, addr).wrapping_add(1);
    CpuState { mem: write8(c1.mem, addr, r), p: zn(c1.p, r), ..c1 }
}

pub open spec fn dec(c: CpuState, mode: Mode, extra: u8) -> CpuState {
    let (c1, addr) = resolve(c, mode, extra);
    let r = read8(c1.mem, addr).wrapping_sub(1);
    CpuState { mem: write8(c1.mem, addr, r), p: zn(c1.p, r), ..c1 }
}

pub open spec fn inx(c: CpuState) -> CpuState {
    let r = c.x.wrapping_add(1);
    CpuState { x: r, p: zn(c.p, r), ..c }
}

pub open spec fn iny(c: CpuState) -> CpuState {
    let r = c.y.wrapping_add(1);
    CpuState { y: r, p: zn(c.p, r), ..c }
}

pub open spec fn dex(c: CpuState) -> CpuState {
    let r = c.x.wrapping_sub(1);
    CpuState { x: r, p: zn(c.p, r), ..c }
}

pub open spec fn dey(c: CpuState) -> CpuState {
    let r = c.y.wrapping_sub(1);
    CpuState { y: r, p: zn(c.p, r), ..c }
}

// ---------------------------------------------------------------------------
// Branches
// ---------------------------------------------------------------------------

/// A relative branch. Not taken: only the operand fetch. Taken: one extra
/// cycle, one more when the target lies in a different page than the program
/// counter after the operand fetch.
pub open spec fn branch(c: CpuState, taken: bool) -> CpuState {
    let off = read8(c.mem, c.pc);
    let c1 = advance(c, 1);
    if taken {
        let t = branch_target(c1.pc, off);
        let c2 = CpuState { cycles: c1.cycles.wrapping_add(1), ..c1 };
        CpuState { pc: t, ..charge_boundary(c2, c1.pc, t, 1) }
    } else {
        c1
    }
}

pub open spec fn bpl(c: CpuState) -> CpuState {
    branch(c, !flag_set(c.p, FLAG_NEGATIVE))
}

pub open spec fn bmi(c: CpuState) -> CpuState {
    branch(c, flag_set(c.p, FLAG_NEGATIVE))
}

pub open spec fn bvc(c: CpuState) -> CpuState {
    branch(c, !flag_set(c.p, FLAG_OVERFLOW))
}

pub open spec fn bvs(c: CpuState) -> CpuState {
    branch(c, flag_set(c.p, FLAG_OVERFLOW))
}

pub open spec fn bcc(c: CpuState) -> CpuState {
    branch(c, !flag_set(c.p, FLAG_CARRY))
}

pub open spec fn bcs(c: CpuState) -> CpuState {
    branch(c, flag_set(c.p, FLAG_CARRY))
}

pub open spec fn bne(c: CpuState) -> CpuState {
    branch(c, !flag_set(c.p, FLAG_ZERO))
}

pub open spec fn beq(c: CpuState) -> CpuState {
    branch(c, flag_set(c.p, FLAG_ZERO))
}

// ---------------------------------------------------------------------------
// Jumps and subroutines
// ---------------------------------------------------------------------------

pub open spec fn jmp(c: CpuState, mode: Mode, extra: u8) -> CpuState {
    let (c1, addr) = resolve(c, mode, extra);
    CpuState { pc: addr, ..c1 }
}

/// Jump to subroutine: pushes the address of its own last byte, high byte
/// first, then jumps.
pub open spec fn jsr(c: CpuState) -> CpuState {
    let (c1, addr) = resolve(c, Mode::Absolute, 0);
    let c2 = push16(c1, c1.pc.wrapping_sub(1));
    CpuState { pc: addr, ..c2 }
}

/// Return from subroutine: the pulled address plus one.
pub open spec fn rts(c: CpuState) -> CpuState {
    let (c1, v) = pull16(c);
    CpuState { pc: v.wrapping_add(1), ..c1 }
}

// ---------------------------------------------------------------------------
// Stack instructions
// ---------------------------------------------------------------------------

pub open spec fn pha(c: CpuState) -> CpuState {
    push8(c, c.a)
}

/// Pushes the status byte with the break and push bits set in the copy.
pub open spec fn php(c: CpuState) -> CpuState {
    push8(c, c.p | 0x30)
}

pub open spec fn pla(c: CpuState) -> CpuState {
    let (c1, v) = pull8(c);
    CpuState { a: v, p: zn(c1.p, v), ..c1 }
}

/// Restores the status byte, forcing the push bit on and the break bit off.
pub open spec fn plp(c: CpuState) -> CpuState {
    let (c1, v) = pull8(c);
    CpuState { p: restore_status(v), ..c1 }
}

// ---------------------------------------------------------------------------
// Flag instructions
// ---------------------------------------------------------------------------

pub open spec fn clc(c: CpuState) -> CpuState {
    CpuState { p: set_flag(c.p, FLAG_CARRY, false), ..c }
}

pub open spec fn sec(c: CpuState) -> CpuState {
    CpuState { p: set_flag(c.p, FLAG_CARRY, true), ..c }
}

pub open spec fn cli(c: CpuState) -> CpuState {
    CpuState { p: set_flag(c.p, FLAG_INTERRUPT_DISABLE, false), ..c }
}

pub open spec fn sei(c: CpuState) -> CpuState {
    CpuState { p: set_flag(c.p, FLAG_INTERRUPT_DISABLE, true), ..c }
}

pub open spec fn clv(c: CpuState) -> CpuState {
    CpuState { p: set_flag(c.p, FLAG_OVERFLOW, false), ..c }
}

pub open spec fn cld(c: CpuState) -> CpuState {
    CpuState { p: set_flag(c.p, FLAG_DECIMAL, false), ..c }
}

pub open spec fn sed(c: CpuState) -> CpuState {
    CpuState { p: set_flag(c.p, FLAG_DECIMAL, true), ..c }
}

// ---------------------------------------------------------------------------
// Software interrupt and returns
// ---------------------------------------------------------------------------

/// BRK: pushes the program counter past its padding byte, pushes the status
/// byte with the break bit set, sets interrupt disable and takes the IRQ
/// vector.
pub open spec fn brk(c: CpuState) -> CpuState {
    let c1 = push16(c, c.pc.wrapping_add(1));
    let c2 = push8(c1, c1.p | 0x30);
    CpuState {
        p: set_flag(c2.p, FLAG_INTERRUPT_DISABLE, true),
        pc: read16(c2.mem, IRQ_VECTOR),
        ..c2
    }
}

/// Return from interrupt: pulls the status byte (push bit forced on, break
/// bit off), then the program counter, with no increment.
pub open spec fn rti(c: CpuState) -> CpuState {
    let (c1, v) = pull8(c);
    let c2 = CpuState { p: restore_status(v), ..c1 };
    let (c3, addr) = pull16(c2);
    CpuState { pc: addr, ..c3 }
}

// ---------------------------------------------------------------------------
// Undocumented combinations
// ---------------------------------------------------------------------------

/// SLO: shift the operand left in memory, then OR it into the accumulator.
pub open spec fn slo(c: CpuState, mode: Mode, extra: u8) -> CpuState {
    let (c1, addr) = resolve(c, mode, extra);
    let v = read8(c1.mem, addr);
    let r = v << 1;
    let a1 = c1.a | r;
    CpuState {
        mem: write8(c1.mem, addr, r),
        a: a1,
        p: zn(set_flag(c1.p, FLAG_CARRY, v & 0x80 == 0x80), a1),
        ..c1
    }
}

/// RLA: rotate the operand left in memory, then AND it into the accumulator.
pub open spec fn rla(c: CpuState, mode: Mode, extra: u8) -> CpuState {
    let (c1, addr) = resolve(c, mode, extra);
    let v = read8(c1.mem, addr);
    let r = (v << 1) | carry_of(c1.p);
    let a1 = c1.a & r;
    CpuState {
        mem: write8(c1.mem, addr, r),
        a: a1,
        p: zn(set_flag(c1.p, FLAG_CARRY, v & 0x80 == 0x80), a1),
        ..c1
    }
}

/// SRE: shift the operand right in memory, then XOR it into the accumulator.
pub open spec fn sre(c: CpuState, mode: Mode, extra: u8) -> CpuState {
    let (c1, addr) = resolve(c, mode, extra);
    let v = read8(c1.mem, addr);
    let r = v >> 1;
    let a1 = c1.a ^ r;
    CpuState {
        mem: write8(c1.mem, addr, r),
        a: a1,
        p: zn(set_flag(c1.p, FLAG_CARRY, v & 0x01 == 0x01), a1),
        ..c1
    }
}

/// RRA: rotate the operand right in memory, then add it with carry.
pub open spec fn rra(c: CpuState, mode: Mode, extra: u8) -> CpuState {
    let (c1, addr) = resolve(c, mode, extra);
    let v = read8(c1.mem, addr);
    let r = (v >> 1) | (carry_of(c1.p) << 7);
    let c2 = CpuState {
        mem: write8(c1.mem, addr, r),
        p: set_flag(c1.p, FLAG_CARRY, v & 0x01 == 0x01),
        ..c1
    };
    adc_value(c2, r)
}

/// DCP: decrement the operand in memory, then compare the accumulator to it.
pub open spec fn dcp(c: CpuState, mode: Mode, extra: u8) -> CpuState {
    let (c1, addr) = resolve(c, mode, extra);
    let r = read8(c1.mem, addr).wrapping_sub(1);
    compare(CpuState { mem: write8(c1.mem, addr, r), ..c1 }, c1.a, r)
}

/// ISC: increment the operand in memory, then subtract it with borrow.
pub open spec fn isc(c: CpuState, mode: Mode, extra: u8) -> CpuState {
    let (c1, addr) = resolve(c, mode, extra);
    let r = read8(c1.mem, addr).wrapping_add(1);
    adc_value(CpuState { mem: write8(c1.mem, addr, r), ..c1 }, !r)
}

/// ANC: AND immediate; the carry copies the negative flag.
pub open spec fn anc(c: CpuState, mode: Mode, extra: u8) -> CpuState {
    let (c1, addr) = resolve(c, mode, extra);
    let a1 = c1.a & read8(c1.mem, addr);
    CpuState { a: a1, p: set_flag(zn(c1.p, a1), FLAG_CARRY, a1 & 0x80 == 0x80), ..c1 }
}

/// ALR: AND immediate, then shift the accumulator right.
pub open spec fn alr(c: CpuState, mode: Mode, extra: u8) -> CpuState {
    let (c1, addr) = resolve(c, mode, extra);
    let a1 = c1.a & read8(c1.mem, addr);
    let r = a1 >> 1;
    CpuState { a: r, p: zn(set_flag(c1.p, FLAG_CARRY, a1 & 0x01 == 0x01), r), ..c1 }
}

/// ARR: AND immediate, rotate the accumulator right; carry from bit 6 of the
/// result, overflow from bits 6 and 5 disagreeing, per the common consensus.
pub open spec fn arr(c: CpuState, mode: Mode, extra: u8) -> CpuState {
    let (c1, addr) = resolve(c, mode, extra);
    let a1 = c1.a & read8(c1.mem, addr);
    let r = (a1 >> 1) | (carry_of(c1.p) << 7);
    let p1 = set_flag(c1.p, FLAG_CARRY, r & 0x40 == 0x40);
    let p2 = set_flag(p1, FLAG_OVERFLOW, ((r >> 6) ^ (r >> 5)) & 0x01 == 0x01);
    CpuState { a: r, p: zn(p2, r), ..c1 }
}

/// XAA: magic-value dependent on hardware; modelled as the common consensus
/// of X AND the immediate operand.
pub open spec fn xaa(c: CpuState, mode: Mode, extra: u8) -> CpuState {
    let (c1, addr) = resolve(c, mode, extra);
    let r = c1.x & read8(c1.mem, addr);
    CpuState { a: r, p: zn(c1.p, r), ..c1 }
}

/// AHX: stores A AND X AND the high byte of the target address plus one.
pub open spec fn ahx(c: CpuState, mode: Mode, extra: u8) -> CpuState {
    let (c1, addr) = resolve(c, mode, extra);
    CpuState { mem: write8(c1.mem, addr, c1.a & c1.x & hi8(addr).wrapping_add(1)), ..c1 }
}

/// SHX: stores X AND the high byte of the target address plus one.
pub open spec fn shx(c: CpuState, mode: Mode, extra: u8) -> CpuState {
    let (c1, addr) = resolve(c, mode, extra);
    CpuState { mem: write8(c1.mem, addr, c1.x & hi8(addr).wrapping_add(1)), ..c1 }
}

/// SHY: stores Y AND the high byte of the target address plus one.
pub open spec fn shy(c: CpuState, mode: Mode, extra: u8) -> CpuState {
    let (c1, addr) = resolve(c, mode, extra);
    CpuState { mem: write8(c1.mem, addr, c1.y & hi8(addr).wrapping_add(1)), ..c1 }
}

/// TAS: the stack pointer becomes A AND X, and the AHX value is stored.
pub open spec fn tas(c: CpuState, mode: Mode, extra: u8) -> CpuState {
    let (c1, addr) = resolve(c, mode, extra);
    CpuState {
        s: c1.a & c1.x,
        mem: write8(c1.mem, addr, c1.a & c1.x & hi8(addr).wrapping_add(1)),
        ..c1
    }
}

/// LAS: loads memory AND the stack pointer into A, X and S.
pub open spec fn las(c: CpuState, mode: Mode, extra: u8) -> CpuState {
    let (c1, addr) = resolve(c, mode, extra);
    let r = read8(c1.mem, addr) & c1.s;
    CpuState { a: r, x: r, s: r, p: zn(c1.p, r), ..c1 }
}

/// AXS: X becomes A AND X minus the immediate operand, without borrow.
pub open spec fn axs(c: CpuState, mode: Mode, extra: u8) -> CpuState {
    let (c1, addr) = resolve(c, mode, extra);
    let v = read8(c1.mem, addr);
    let t = c1.a & c1.x;
    let r = t.wrapping_sub(v);
    CpuState { x: r, p: zn(set_flag(c1.p, FLAG_CARRY, t >= v), r), ..c1 }
}

/// KIL halts the processor irrecoverably.
pub open spec fn kil(c: CpuState) -> CpuState {
    CpuState { halted: true, ..c }
}

/// NOP still fetches its operand, and the undocumented indexed forms still
/// pay the page-boundary penalty.
pub open spec fn nop(c: CpuState, mode: Mode, extra: u8) -> CpuState {
    resolve(c, mode, extra).0
}

// ---------------------------------------------------------------------------
// Dispatch
// ---------------------------------------------------------------------------

/// One instruction, dispatched by mnemonic, on the state right after the
/// opcode fetch and the base cycle charge.
pub open spec fn instr_step(c: CpuState, code: OpCode, mode: Mode, extra: u8) -> CpuState {
    match code {
        OpCode::Adc => adc(c, mode, extra),
        OpCode::Ahx => ahx(c, mode, extra),
        OpCode::Alr => alr(c, mode, extra),
        OpCode::Anc => anc(c, mode, extra),
        OpCode::And => and(c, mode, extra),
        OpCode::Arr => arr(c, mode, extra),
        OpCode::Asl => asl(c, mode),
        OpCode::Axs => axs(c, mode, extra),
        OpCode::Bcc => bcc(c),
        OpCode::Bcs => bcs(c),
        OpCode::Beq => beq(c),
        OpCode::Bit => bit(c, mode, extra),
        OpCode::Bmi => bmi(c),
        OpCode::Bne => bne(c),
        OpCode::Bpl => bpl(c),
        OpCode::Brk => brk(c),
        OpCode::Bvc => bvc(c),
        OpCode::Bvs => bvs(c),
        OpCode::Clc => clc(c),
        OpCode::Cld => cld(c),
        OpCode::Cli => cli(c),
        OpCode::Clv => clv(c),
        OpCode::Cmp => cmp(c, mode, extra),
        OpCode::Cpx => cpx(c, mode, extra),
        OpCode::Cpy => cpy(c, mode, extra),
        OpCode::Dcp => dcp(c, mode, extra),
        OpCode::Dec => dec(c, mode, extra),
        OpCode::Dex => dex(c),
        OpCode::Dey => dey(c),
        OpCode::Eor => eor(c, mode, extra),
        OpCode::Inc => inc(c, mode, extra),
        OpCode::Inx => inx(c),
        OpCode::Iny => iny(c),
        OpCode::Isc => isc(c, mode, extra),
        OpCode::Jmp => jmp(c, mode, extra),
        OpCode::Jsr => jsr(c),
        OpCode::Kil => kil(c),
        OpCode::Las => las(c, mode, extra),
        OpCode::Lax => lax(c, mode, extra),
        OpCode::Lda => lda(c, mode, extra),
        OpCode::Ldx => ldx(c, mode, extra),
        OpCode::Ldy => ldy(c, mode, extra),
        OpCode::Lsr => lsr(c, mode),
        OpCode::Nop => nop(c, mode, extra),
        OpCode::Ora => ora(c, mode, extra),
        OpCode::Pha => pha(c),
        OpCode::Php => php(c),
        OpCode::Pla => pla(c),
        OpCode::Plp => plp(c),
        OpCode::Rla => rla(c, mode, extra),
        OpCode::Rol => rol(c, mode),
        OpCode::Ror => ror(c, mode),
        OpCode::Rra => rra(c, mode, extra),
        OpCode::Rti => rti(c),
        OpCode::Rts => rts(c),
        OpCode::Sax => sax(c, mode, extra),
        OpCode::Sbc => sbc(c, mode, extra),
        OpCode::Sec => sec(c),
        OpCode::Sed => sed(c),
        OpCode::Sei => sei(c),
        OpCode::Shx => shx(c, mode, extra),
        OpCode::Shy => shy(c, mode, extra),
        OpCode::Slo => slo(c, mode, extra),
        OpCode::Sre => sre(c, mode, extra),
        OpCode::Sta => sta(c, mode, extra),
        OpCode::Stx => stx(c, mode, extra),
        OpCode::Sty => sty(c, mode, extra),
        OpCode::Tas => tas(c, mode, extra),
        OpCode::Tax => tax(c),
        OpCode::Tay => tay(c),
        OpCode::Tsx => tsx(c),
        OpCode::Txa => txa(c),
        OpCode::Txs => txs(c),
        OpCode::Tya => tya(c),
        OpCode::Xaa => xaa(c, mode, extra),
    }
}

/// One full instruction on a running processor: fetch the opcode byte,
/// charge the base cycles, dispatch. A halted processor does not move.
pub open spec fn step(c: CpuState) -> CpuState {
    if c.halted {
        c
    } else {
        let e = decode(read8(c.mem, c.pc));
        let c1 = CpuState {
            pc: c.pc.wrapping_add(1),
            cycles: c.cycles.wrapping_add(e.cycles as u64),
            ..c
        };
        instr_step(c1, e.code, e.mode, penalty_of(e.extra))
    }
}

/// The state after `n` full instructions.
pub open spec fn steps(c: CpuState, n: nat) -> CpuState
    decreases n,
{
    if n == 0 {
        c
    } else {
        step(steps(c, (n - 1) as nat))
    }
}

/// The mnemonic the next tick will execute.
pub open spec fn next_code(c: CpuState) -> OpCode {
    decode(read8(c.mem, c.pc)).code
}

/// The instructions that write the program counter themselves: every other
/// instruction leaves it moved past its own bytes.
pub open spec fn writes_pc(code: OpCode) -> bool {
    match code {
        OpCode::Jmp => true,
        OpCode::Jsr => true,
        OpCode::Rts => true,
        OpCode::Rti => true,
        OpCode::Brk => true,
        OpCode::Bcc => true,
        OpCode::Bcs => true,
        OpCode::Beq => true,
        OpCode::Bmi => true,
        OpCode::Bne => true,
        OpCode::Bpl => true,
        OpCode::Bvc => true,
        OpCode::Bvs => true,
        _ => false,
    }
}

} // verus!
