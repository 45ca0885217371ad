//! The processor core: the register file, the stack and flag primitives, the
//! addressing resolver, the instruction handlers and the tick loop. Every
//! method is proved to produce exactly the state the semantics describe.

use vstd::prelude::*;

use crate::bus::Bus;
use crate::model::{
    CpuState, FLAG_BREAK, FLAG_CARRY, FLAG_DECIMAL, FLAG_INTERRUPT_DISABLE, FLAG_NEGATIVE,
    FLAG_OVERFLOW, FLAG_PUSH, FLAG_ZERO, IRQ_VECTOR, MEMORY_SIZE, RESET_STATUS, RESET_VECTOR, boot,
    carry_of, flag_set, pull16, pull8, push16, push8, read16, read16_page_bug, read16_zero_page,
    read8, set_flag, with_p, zn,
};
use crate::opcodes::{Mode, OpCode, OpEntry, extra_penalty, opcode_entry};
use crate::semantics;
use crate::semantics::{advance, charge_boundary, next_code, overflow_cond, resolve, step,
    writes_pc};
use crate::laws;

verus! {

/// The bits of the status register, named.
#[derive(Clone, Copy, PartialEq, Eq, Structural)]
pub enum StatusFlag {
    Carry,
    Zero,
    InterruptDisable,
    Decimal,
    Break,
    Push,
    Overflow,
    Negative,
}

/// The mask a status flag occupies in the status byte.
pub open spec fn flag_mask(flag: StatusFlag) -> u8 {
    match flag {
        StatusFlag::Carry => FLAG_CARRY,
        StatusFlag::Zero => FLAG_ZERO,
        StatusFlag::InterruptDisable => FLAG_INTERRUPT_DISABLE,
        StatusFlag::Decimal => FLAG_DECIMAL,
        StatusFlag::Break => FLAG_BREAK,
        StatusFlag::Push => FLAG_PUSH,
        StatusFlag::Overflow => FLAG_OVERFLOW,
        StatusFlag::Negative => FLAG_NEGATIVE,
    }
}

/// Executable twin of `flag_mask`.
pub fn status_flag_mask(flag: StatusFlag) -> (r: u8)
    ensures
        r == flag_mask(flag),
{
    match flag {
        StatusFlag::Carry => FLAG_CARRY,
        StatusFlag::Zero => FLAG_ZERO,
        StatusFlag::InterruptDisable => FLAG_INTERRUPT_DISABLE,
        StatusFlag::Decimal => FLAG_DECIMAL,
        StatusFlag::Break => FLAG_BREAK,
        StatusFlag::Push => FLAG_PUSH,
        StatusFlag::Overflow => FLAG_OVERFLOW,
        StatusFlag::Negative => FLAG_NEGATIVE,
    }
}

/// The MOS 6502 core, owning its bus for the duration of the emulation.
pub struct Cpu6502 {
    /// The bus holds all the memory the program sees.
    bus: Bus,
    /// Accumulator.
    a: u8,
    /// X index register.
    x: u8,
    /// Y index register.
    y: u8,
    /// Program counter.
    pc: u16,
    /// Stack pointer into page one; the stack grows downward.
    s: u8,
    /// Status register.
    p: u8,
    /// Running cycle counter.
    cycles: u64,
    /// Set when a KIL opcode was executed.
    halted: bool,
}

impl View for Cpu6502 {
    type V = CpuState;

    closed spec fn view(&self) -> CpuState {
        CpuState {
            a: self.a,
            x: self.x,
            y: self.y,
            pc: self.pc,
            s: self.s,
            p: self.p,
            cycles: self.cycles,
            halted: self.halted,
            mem: self.bus@,
        }
    }
}

impl Cpu6502 {
    /// The bus covers the whole address space.
    pub open spec fn bus_ok(&self) -> bool {
        self@.mem.len() == MEMORY_SIZE
    }

    /// Well-formed: full address space, and the always-set status bit reads one.
    pub open spec fn wf(&self) -> bool {
        self@.wf()
    }

    /// Builds the processor over an initialized bus, with reset semantics:
    /// cleared registers, the stack pointer at the top, and the program
    /// counter read from the reset vector.
    pub fn new(bus: Bus) -> (r: Cpu6502)
        requires
            bus.wf(),
        ensures
            r.wf(),
            r@ == boot(bus@),
    {
        let pc: u16 = bus.read_u16(RESET_VECTOR);
        let r = Cpu6502 {
            bus,
            a: 0,
            x: 0,
            y: 0,
            pc,
            s: 0xFF,
            p: RESET_STATUS,
            cycles: 0,
            halted: false,
        };
        proof {
            assert(RESET_STATUS & FLAG_PUSH == FLAG_PUSH) by (bit_vector);
        }
        r
    }

    // -----------------------------------------------------------------------
    // Read-only accessors for the host
    // -----------------------------------------------------------------------

    /// The accumulator.
    pub fn a(&self) -> (r: u8)
        ensures
            r == self@.a,
    {
        self.a
    }

    /// The X index register.
    pub fn x(&self) -> (r: u8)
        ensures
            r == self@.x,
    {
        self.x
    }

    /// The Y index register.
    pub fn y(&self) -> (r: u8)
        ensures
            r == self@.y,
    {
        self.y
    }

    /// The program counter.
    pub fn pc(&self) -> (r: u16)
        ensures
            r == self@.pc,
    {
        self.pc
    }

    /// The stack pointer.
    pub fn s(&self) -> (r: u8)
        ensures
            r == self@.s,
    {
        self.s
    }

    /// The status register.
    pub fn p(&self) -> (r: u8)
        ensures
            r == self@.p,
    {
        self.p
    }

    /// The running cycle counter.
    pub fn cycles(&self) -> (r: u64)
        ensures
            r == self@.cycles,
    {
        self.cycles
    }

    /// Whether a KIL opcode has halted the processor.
    pub fn is_halted(&self) -> (r: bool)
        ensures
            r == self@.halted,
    {
        self.halted
    }

    /// Read-through access to the bus, for display between ticks.
    pub fn bus(&self) -> (r: &Bus)
        ensures
            r@ == self@.mem,
    {
        &self.bus
    }

    // -----------------------------------------------------------------------
    // Fetch primitives
    // -----------------------------------------------------------------------

    /// Reads the byte under the program counter without advancing it.
    pub fn peek_u8(&self) -> (r: u8)
        requires
            self.bus_ok(),
        ensures
            r == read8(self@.mem, self@.pc),
    {
        self.bus.read_u8(self.pc)
    }

    /// Reads the byte under the program counter and moves past it.
    pub fn next_u8(&mut self) -> (r: u8)
        requires
            old(self).bus_ok(),
        ensures
            final(self)@ == advance(old(self)@, 1),
            r == read8(old(self)@.mem, old(self)@.pc),
    {
        let value: u8 = self.bus.read_u8(self.pc);
        self.pc = self.pc.wrapping_add(1);
        value
    }

    /// Reads the little-endian word under the program counter and moves past it.
    pub fn next_u16(&mut self) -> (r: u16)
        requires
            old(self).bus_ok(),
        ensures
            final(self)@ == advance(old(self)@, 2),
            r == read16(old(self)@.mem, old(self)@.pc),
    {
        let value: u16 = self.bus.read_u16(self.pc);
        self.pc = self.pc.wrapping_add(2);
        value
    }

    /// A 16-bit read with the hardware's indirect page bug: a pointer at
    /// `$xxFF` takes its high byte from `$xx00`.
    fn read_u16_page_bug(&self, address: u16) -> (r: u16)
        requires
            self.bus_ok(),
        ensures
            r == read16_page_bug(self@.mem, address),
    {
        let lo: u8 = self.bus.read_u8(address);
        let hi_address: u16 = if address % 0x100 == 0xFF {
            address - 0xFF
        } else {
            address + 1
        };
        let hi: u8 = self.bus.read_u8(hi_address);
        (lo as u16) + (hi as u16) * 0x100
    }

    /// A 16-bit read of a zero-page pointer: both bytes stay in the zero
    /// page, the second wrapping around at `$FF`.
    fn read_u16_zero_page(&self, ptr: u8) -> (r: u16)
        requires
            self.bus_ok(),
        ensures
            r == read16_zero_page(self@.mem, ptr),
    {
        let lo: u8 = self.bus.read_u8(ptr as u16);
        let hi: u8 = self.bus.read_u8(ptr.wrapping_add(1) as u16);
        (lo as u16) + (hi as u16) * 0x100
    }

    // -----------------------------------------------------------------------
    // Addressing
    // -----------------------------------------------------------------------

    /// Adds the page-boundary penalty when the two addresses lie in
    /// different pages.
    pub fn incur_extra_cycle_on_page_boundary(
        &mut self,
        base_address: u16,
        offset_address: u16,
        extra_cycles: u8,
    )
        ensures
            final(self)@ == charge_boundary(old(self)@, base_address, offset_address, extra_cycles),
    {
        let base_page: u8 = (base_address / 0x100) as u8;
        let offset_page: u8 = (offset_address / 0x100) as u8;
        if base_page != offset_page {
            self.cycles = self.cycles.wrapping_add(extra_cycles as u64);
        }
    }

    /// Resolves the effective address of the current instruction: fetches
    /// the operand bytes, charges the page penalty where the mode crosses a
    /// page. The register-only modes carry no address and are refused.
    pub fn get_operand_address(&mut self, mode: Mode, page_boundary_cycle: u8) -> (addr: u16)
        requires
            old(self).bus_ok(),
            mode != Mode::Implied,
            mode != Mode::NoMode,
        ensures
            final(self)@ == resolve(old(self)@, mode, page_boundary_cycle).0,
            addr == resolve(old(self)@, mode, page_boundary_cycle).1,
    {
        match mode {
            Mode::Absolute => self.next_u16(),
            Mode::AbsoluteIndexedX => {
                let base_address: u16 = self.next_u16();
                let offset_address: u16 = base_address.wrapping_add(self.x as u16);
                self.incur_extra_cycle_on_page_boundary(
                    base_address,
                    offset_address,
                    page_boundary_cycle,
                );
                offset_address
            },
            Mode::AbsoluteIndexedY => {
                let base_address: u16 = self.next_u16();
                let offset_address: u16 = base_address.wrapping_add(self.y as u16);
                self.incur_extra_cycle_on_page_boundary(
                    base_address,
                    offset_address,
                    page_boundary_cycle,
                );
                offset_address
            },
            Mode::Immediate => {
                let address: u16 = self.pc;
                self.pc = self.pc.wrapping_add(1);
                address
            },
            Mode::Indirect => {
                let pointer: u16 = self.next_u16();
                self.read_u16_page_bug(pointer)
            },
            Mode::IndirectX => {
                let pointer: u8 = self.next_u8().wrapping_add(self.x);
                self.read_u16_zero_page(pointer)
            },
            Mode::IndirectY => {
                let pointer: u8 = self.next_u8();
                let base_address: u16 = self.read_u16_zero_page(pointer);
                let offset_address: u16 = base_address.wrapping_add(self.y as u16);
                self.incur_extra_cycle_on_page_boundary(
                    base_address,
                    offset_address,
                    page_boundary_cycle,
                );
                offset_address
            },
            Mode::Relative => {
                let relative_offset: u8 = self.next_u8();
                let base_address: u16 = self.pc;
                let offset_address: u16 = if relative_offset < 0x80 {
                    self.pc.wrapping_add(relative_offset as u16)
                } else {
                    self.pc.wrapping_add(relative_offset as u16).wrapping_sub(0x100)
                };
                self.incur_extra_cycle_on_page_boundary(
                    base_address,
                    offset_address,
                    page_boundary_cycle,
                );
                offset_address
            },
            Mode::ZeroPage => {
                let operand: u8 = self.next_u8();
                operand as u16
            },
            Mode::ZeroPageX => {
                let operand: u8 = self.next_u8();
                operand.wrapping_add(self.x) as u16
            },
            Mode::ZeroPageY => {
                let operand: u8 = self.next_u8();
                operand.wrapping_add(self.y) as u16
            },
            Mode::Implied | Mode::NoMode => {
                // Unreachable under the precondition: register-only modes
                // never resolve an address.
                proof {
                    assert(false);
                }
                0
            },
        }
    }

    /// Resolves the effective address and reads the operand byte through it.
    pub fn get_operand(&mut self, mode: Mode, extra_cycle: u8) -> (r: (u16, u8))
        requires
            old(self).bus_ok(),
            mode != Mode::Implied,
            mode != Mode::NoMode,
        ensures
            final(self)@ == resolve(old(self)@, mode, extra_cycle).0,
            r.0 == resolve(old(self)@, mode, extra_cycle).1,
            r.1 == read8(final(self)@.mem, r.0),
    {
        let address: u16 = self.get_operand_address(mode, extra_cycle);
        let value: u8 = self.bus.read_u8(address);
        (address, value)
    }

    // -----------------------------------------------------------------------
    // Flag primitives
    // -----------------------------------------------------------------------

    /// Sets or clears one status flag.
    pub fn set_status_flag(&mut self, status_flag: StatusFlag, value: bool)
        ensures
            final(self)@ == with_p(old(self)@, set_flag(old(self)@.p, flag_mask(status_flag), value)),
    {
        let mask: u8 = status_flag_mask(status_flag);
        if value {
            self.p = self.p | mask;
        } else {
            self.p = self.p & !mask;
        }
    }

    /// Whether one status flag is set.
    pub fn is_status_flag_set(&self, status_flag: StatusFlag) -> (r: bool)
        ensures
            r == flag_set(self@.p, flag_mask(status_flag)),
    {
        let flag: u8 = status_flag_mask(status_flag);
        self.p & flag == flag
    }

    /// The carry bit, as the 9th bit of add-with-carry.
    pub fn get_carry(&self) -> (r: u8)
        ensures
            r == carry_of(self@.p),
    {
        self.p & FLAG_CARRY
    }

    /// Zero and negative are set together from a result byte.
    pub fn update_zero_and_negative_flag(&mut self, value: u8)
        ensures
            final(self)@ == with_p(old(self)@, zn(old(self)@.p, value)),
    {
        self.set_status_flag(StatusFlag::Zero, value == 0);
        self.set_status_flag(StatusFlag::Negative, value & 0x80 == 0x80);
    }

    /// The carry flag takes the 9th bit of a nine-bit arithmetic result.
    pub fn update_carry_flag(&mut self, result: u16)
        ensures
            final(self)@ == with_p(
                old(self)@,
                set_flag(old(self)@.p, FLAG_CARRY, result & 0x100 == 0x100),
            ),
    {
        self.set_status_flag(StatusFlag::Carry, result & 0x100 == 0x100);
    }

    /// The overflow flag records a sign flip of signed addition: the
    /// accumulator and the operand agree on the sign bit, the result differs.
    pub fn update_overflow_flag(&mut self, operand: u8, result: u8)
        ensures
            final(self)@ == with_p(
                old(self)@,
                set_flag(old(self)@.p, FLAG_OVERFLOW, overflow_cond(old(self)@.a, operand, result)),
            ),
    {
        let does_overflow: bool = !(self.a ^ operand) & (self.a ^ result) & 0x80 == 0x80;
        self.set_status_flag(StatusFlag::Overflow, does_overflow);
    }

    // -----------------------------------------------------------------------
    // Stack primitives
    // -----------------------------------------------------------------------

    /// Pushes one byte: it lands at the free slot of page one, and the stack
    /// pointer moves down, wrapping modulo 256.
    pub fn push_stack_u8(&mut self, value: u8)
        requires
            old(self).bus_ok(),
        ensures
            final(self)@ == push8(old(self)@, value),
    {
        let address: u16 = 0x0100 + self.s as u16;
        self.bus.write_u8(address, value);
        self.s = self.s.wrapping_sub(1);
    }

    /// Pulls one byte: the stack pointer moves up first, then the slot it
    /// reaches is read.
    pub fn pull_stack_u8(&mut self) -> (r: u8)
        requires
            old(self).bus_ok(),
        ensures
            final(self)@ == pull8(old(self)@).0,
            r == pull8(old(self)@).1,
    {
        self.s = self.s.wrapping_add(1);
        let address: u16 = 0x0100 + self.s as u16;
        self.bus.read_u8(address)
    }

    /// Pushes a 16-bit value, high byte first, so the low byte sits at the
    /// lower address.
    pub fn push_stack_u16(&mut self, value: u16)
        requires
            old(self).bus_ok(),
        ensures
            final(self)@ == push16(old(self)@, value),
    {
        self.push_stack_u8((value / 0x100) as u8);
        self.push_stack_u8((value % 0x100) as u8);
    }

    /// Pulls a 16-bit value pushed by `push_stack_u16`.
    pub fn pull_stack_u16(&mut self) -> (r: u16)
        requires
            old(self).bus_ok(),
        ensures
            final(self)@ == pull16(old(self)@).0,
            r == pull16(old(self)@).1,
    {
        let lo: u8 = self.pull_stack_u8();
        let hi: u8 = self.pull_stack_u8();
        (lo as u16) + (hi as u16) * 0x100
    }

    // -----------------------------------------------------------------------
    // Loads, stores, transfers
    // -----------------------------------------------------------------------

    pub fn lda(&mut self, mode: Mode, extra: u8)
        requires
            old(self).bus_ok(),
            mode != Mode::Implied,
            mode != Mode::NoMode,
        ensures
            final(self)@ == semantics::lda(old(self)@, mode, extra),
    {
        let (_address, value) = self.get_operand(mode, extra);
        self.a = value;
        self.update_zero_and_negative_flag(value);
    }

    pub fn ldx(&mut self, mode: Mode, extra: u8)
        requires
            old(self).bus_ok(),
            mode != Mode::Implied,
            mode != Mode::NoMode,
        ensures
            final(self)@ == semantics::ldx(old(self)@, mode, extra),
    {
        let (_address, value) = self.get_operand(mode, extra);
        self.x = value;
        self.update_zero_and_negative_flag(value);
    }

    pub fn ldy(&mut self, mode: Mode, extra: u8)
        requires
            old(self).bus_ok(),
            mode != Mode::Implied,
            mode != Mode::NoMode,
        ensures
            final(self)@ == semantics::ldy(old(self)@, mode, extra),
    {
        let (_address, value) = self.get_operand(mode, extra);
        self.y = value;
        self.update_zero_and_negative_flag(value);
    }

    /// Undocumented: loads the accumulator and X together.
    pub fn lax(&mut self, mode: Mode, extra: u8)
        requires
            old(self).bus_ok(),
            mode != Mode::Implied,
            mode != Mode::NoMode,
        ensures
            final(self)@ == semantics::lax(old(self)@, mode, extra),
    {
        let (_address, value) = self.get_operand(mode, extra);
        self.a = value;
        self.x = value;
        self.update_zero_and_negative_flag(value);
    }

    pub fn sta(&mut self, mode: Mode, extra: u8)
        requires
            old(self).bus_ok(),
            mode != Mode::Implied,
            mode != Mode::NoMode,
        ensures
            final(self)@ == semantics::sta(old(self)@, mode, extra),
    {
        let address: u16 = self.get_operand_address(mode, extra);
        self.bus.write_u8(address, self.a);
    }

    pub fn stx(&mut self, mode: Mode, extra: u8)
        requires
            old(self).bus_ok(),
            mode != Mode::Implied,
            mode != Mode::NoMode,
        ensures
            final(self)@ == semantics::stx(old(self)@, mode, extra),
    {
        let address: u16 = self.get_operand_address(mode, extra);
        self.bus.write_u8(address, self.x);
    }

    pub fn sty(&mut self, mode: Mode, extra: u8)
        requires
            old(self).bus_ok(),
            mode != Mode::Implied,
            mode != Mode::NoMode,
        ensures
            final(self)@ == semantics::sty(old(self)@, mode, extra),
    {
        let address: u16 = self.get_operand_address(mode, extra);
        self.bus.write_u8(address, self.y);
    }

    /// Undocumented: stores the AND of the accumulator and X.
    pub fn sax(&mut self, mode: Mode, extra: u8)
        requires
            old(self).bus_ok(),
            mode != Mode::Implied,
            mode != Mode::NoMode,
        ensures
            final(self)@ == semantics::sax(old(self)@, mode, extra),
    {
        let address: u16 = self.get_operand_address(mode, extra);
        self.bus.write_u8(address, self.a & self.x);
    }

    pub fn tax(&mut self)
        ensures
            final(self)@ == semantics::tax(old(self)@),
    {
        let value: u8 = self.a;
        self.x = value;
        self.update_zero_and_negative_flag(value);
    }

    pub fn tay(&mut self)
        ensures
            final(self)@ == semantics::tay(old(self)@),
    {
        let value: u8 = self.a;
        self.y = value;
        self.update_zero_and_negative_flag(value);
    }

    pub fn txa(&mut self)
        ensures
            final(self)@ == semantics::txa(old(self)@),
    {
        let value: u8 = self.x;
        self.a = value;
        self.update_zero_and_negative_flag(value);
    }

    pub fn tya(&mut self)
        ensures
            final(self)@ == semantics::tya(old(self)@),
    {
        let value: u8 = self.y;
        self.a = value;
        self.update_zero_and_negative_flag(value);
    }

    pub fn tsx(&mut self)
        ensures
            final(self)@ == semantics::tsx(old(self)@),
    {
        let value: u8 = self.s;
        self.x = value;
        self.update_zero_and_negative_flag(value);
    }

    /// The one transfer without flags.
    pub fn txs(&mut self)
        ensures
            final(self)@ == semantics::txs(old(self)@),
    {
        self.s = self.x;
    }

    // -----------------------------------------------------------------------
    // Arithmetic
    // -----------------------------------------------------------------------

    /// The nine-bit add-with-carry on the accumulator.
    fn adc_value(&mut self, value: u8)
        ensures
            final(self)@ == semantics::adc_value(old(self)@, value),
    {
        let carry: u8 = self.get_carry();
        let sum: u16 = self.a as u16 + value as u16 + carry as u16;
        let result: u8 = (sum % 0x100) as u8;
        self.update_carry_flag(sum);
        self.update_overflow_flag(value, result);
        self.a = result;
        self.update_zero_and_negative_flag(result);
    }

    pub fn adc(&mut self, mode: Mode, extra: u8)
        requires
            old(self).bus_ok(),
            mode != Mode::Implied,
            mode != Mode::NoMode,
        ensures
            final(self)@ == semantics::adc(old(self)@, mode, extra),
    {
        let (_address, value) = self.get_operand(mode, extra);
        self.adc_value(value);
    }

    /// Subtract-with-borrow is add-with-carry of the one's complement.
    pub fn sbc(&mut self, mode: Mode, extra: u8)
        requires
            old(self).bus_ok(),
            mode != Mode::Implied,
            mode != Mode::NoMode,
        ensures
            final(self)@ == semantics::sbc(old(self)@, mode, extra),
    {
        let (_address, value) = self.get_operand(mode, extra);
        self.adc_value(!value);
    }

    /// Comparison: `reg - value` thrown away; carry says no borrow.
    fn compare_with(&mut self, reg: u8, value: u8)
        ensures
            final(self)@ == semantics::compare(old(self)@, reg, value),
    {
        let result: u8 = reg.wrapping_sub(value);
        self.set_status_flag(StatusFlag::Carry, reg >= value);
        self.update_zero_and_negative_flag(result);
    }

    pub fn cmp(&mut self, mode: Mode, extra: u8)
        requires
            old(self).bus_ok(),
            mode != Mode::Implied,
            mode != Mode::NoMode,
        ensures
            final(self)@ == semantics::cmp(old(self)@, mode, extra),
    {
        let (_address, value) = self.get_operand(mode, extra);
        let reg: u8 = self.a;
        self.compare_with(reg, value);
    }

    pub fn cpx(&mut self, mode: Mode, extra: u8)
        requires
            old(self).bus_ok(),
            mode != Mode::Implied,
            mode != Mode::NoMode,
        ensures
            final(self)@ == semantics::cpx(old(self)@, mode, extra),
    {
        let (_address, value) = self.get_operand(mode, extra);
        let reg: u8 = self.x;
        self.compare_with(reg, value);
    }

    pub fn cpy(&mut self, mode: Mode, extra: u8)
        requires
            old(self).bus_ok(),
            mode != Mode::Implied,
            mode != Mode::NoMode,
        ensures
            final(self)@ == semantics::cpy(old(self)@, mode, extra),
    {
        let (_address, value) = self.get_operand(mode, extra);
        let reg: u8 = self.y;
        self.compare_with(reg, value);
    }

    // -----------------------------------------------------------------------
    // Logical
    // -----------------------------------------------------------------------

    pub fn and(&mut self, mode: Mode, extra: u8)
        requires
            old(self).bus_ok(),
            mode != Mode::Implied,
            mode != Mode::NoMode,
        ensures
            final(self)@ == semantics::and(old(self)@, mode, extra),
    {
        let (_address, value) = self.get_operand(mode, extra);
        let result: u8 = self.a & value;
        self.a = result;
        self.update_zero_and_negative_flag(result);
    }

    pub fn ora(&mut self, mode: Mode, extra: u8)
        requires
            old(self).bus_ok(),
            mode != Mode::Implied,
            mode != Mode::NoMode,
        ensures
            final(self)@ == semantics::ora(old(self)@, mode, extra),
    {
        let (_address, value) = self.get_operand(mode, extra);
        let result: u8 = self.a | value;
        self.a = result;
        self.update_zero_and_negative_flag(result);
    }

    pub fn eor(&mut self, mode: Mode, extra: u8)
        requires
            old(self).bus_ok(),
            mode != Mode::Implied,
            mode != Mode::NoMode,
        ensures
            final(self)@ == semantics::eor(old(self)@, mode, extra),
    {
        let (_address, value) = self.get_operand(mode, extra);
        let result: u8 = self.a ^ value;
        self.a = result;
        self.update_zero_and_negative_flag(result);
    }

    /// BIT: zero from the masked operand, negative and overflow from the
    /// operand's top bits.
    pub fn bit(&mut self, mode: Mode, extra: u8)
        requires
            old(self).bus_ok(),
            mode != Mode::Implied,
            mode != Mode::NoMode,
        ensures
            final(self)@ == semantics::bit(old(self)@, mode, extra),
    {
        let (_address, value) = self.get_operand(mode, extra);
        self.set_status_flag(StatusFlag::Zero, self.a & value == 0);
        self.set_status_flag(StatusFlag::Negative, value & 0x80 == 0x80);
        self.set_status_flag(StatusFlag::Overflow, value & 0x40 == 0x40);
    }

    // -----------------------------------------------------------------------
    // Shifts and rotates
    // -----------------------------------------------------------------------

    pub fn asl(&mut self, mode: Mode)
        requires
            old(self).bus_ok(),
        ensures
            final(self)@ == semantics::asl(old(self)@, mode),
    {
        match mode {
            Mode::Implied | Mode::NoMode => {
                let value: u8 = self.a;
                let result: u8 = value << 1;
                self.set_status_flag(StatusFlag::Carry, value & 0x80 == 0x80);
                self.a = result;
                self.update_zero_and_negative_flag(result);
            },
            _ => {
                let (address, value) = self.get_operand(mode, 0);
                let result: u8 = value << 1;
                self.set_status_flag(StatusFlag::Carry, value & 0x80 == 0x80);
                self.bus.write_u8(address, result);
                self.update_zero_and_negative_flag(result);
            },
        }
    }

    pub fn lsr(&mut self, mode: Mode)
        requires
            old(self).bus_ok(),
        ensures
            final(self)@ == semantics::lsr(old(self)@, mode),
    {
        match mode {
            Mode::Implied | Mode::NoMode => {
                let value: u8 = self.a;
                let result: u8 = value >> 1;
                self.set_status_flag(StatusFlag::Carry, value & 0x01 == 0x01);
                self.a = result;
                self.update_zero_and_negative_flag(result);
            },
            _ => {
                let (address, value) = self.get_operand(mode, 0);
                let result: u8 = value >> 1;
                self.set_status_flag(StatusFlag::Carry, value & 0x01 == 0x01);
                self.bus.write_u8(address, result);
                self.update_zero_and_negative_flag(result);
            },
        }
    }

    pub fn rol(&mut self, mode: Mode)
        requires
            old(self).bus_ok(),
        ensures
            final(self)@ == semantics::rol(old(self)@, mode),
    {
        match mode {
            Mode::Implied | Mode::NoMode => {
                let value: u8 = self.a;
                let result: u8 = (value << 1) | self.get_carry();
                self.set_status_flag(StatusFlag::Carry, value & 0x80 == 0x80);
                self.a = result;
                self.update_zero_and_negative_flag(result);
            },
            _ => {
                let (address, value) = self.get_operand(mode, 0);
                let result: u8 = (value << 1) | self.get_carry();
                self.set_status_flag(StatusFlag::Carry, value & 0x80 == 0x80);
                self.bus.write_u8(address, result);
                self.update_zero_and_negative_flag(result);
            },
        }
    }

    pub fn ror(&mut self, mode: Mode)
        requires
            old(self).bus_ok(),
        ensures
            final(self)@ == semantics::ror(old(self)@, mode),
    {
        match mode {
            Mode::Implied | Mode::NoMode => {
                let value: u8 = self.a;
                let result: u8 = (value >> 1) | (self.get_carry() << 7);
                self.set_status_flag(StatusFlag::Carry, value & 0x01 == 0x01);
                self.a = result;
                self.update_zero_and_negative_flag(result);
            },
            _ => {
                let (address, value) = self.get_operand(mode, 0);
                let result: u8 = (value >> 1) | (self.get_carry() << 7);
                self.set_status_flag(StatusFlag::Carry, value & 0x01 == 0x01);
                self.bus.write_u8(address, result);
                self.update_zero_and_negative_flag(result);
            },
        }
    }

    // -----------------------------------------------------------------------
    // Increments and decrements
    // -----------------------------------------------------------------------

    pub fn inc(&mut self, mode: Mode, extra: u8)
        requires
            old(self).bus_ok(),
            mode != Mode::Implied,
            mode != Mode::NoMode,
        ensures
            final(self)@ == semantics::inc(old(self)@, mode, extra),
    {
        let (address, value) = self.get_operand(mode, extra);
        let result: u8 = value.wrapping_add(1);
        self.bus.write_u8(address, result);
        self.update_zero_and_negative_flag(result);
    }

    pub fn dec(&mut self, mode: Mode, extra: u8)
        requires
            old(self).bus_ok(),
            mode != Mode::Implied,
            mode != Mode::NoMode,
        ensures
            final(self)@ == semantics::dec(old(self)@, mode, extra),
    {
        let (address, value) = self.get_operand(mode, extra);
        let result: u8 = value.wrapping_sub(1);
        self.bus.write_u8(address, result);
        self.update_zero_and_negative_flag(result);
    }

    pub fn inx(&mut self)
        ensures
            final(self)@ == semantics::inx(old(self)@),
    {
        let result: u8 = self.x.wrapping_add(1);
        self.x = result;
        self.update_zero_and_negative_flag(result);
    }

    pub fn iny(&mut self)
        ensures
            final(self)@ == semantics::iny(old(self)@),
    {
        let result: u8 = self.y.wrapping_add(1);
        self.y = result;
        self.update_zero_and_negative_flag(result);
    }

    pub fn dex(&mut self)
        ensures
            final(self)@ == semantics::dex(old(self)@),
    {
        let result: u8 = self.x.wrapping_sub(1);
        self.x = result;
        self.update_zero_and_negative_flag(result);
    }

    pub fn dey(&mut self)
        ensures
            final(self)@ == semantics::dey(old(self)@),
    {
        let result: u8 = self.y.wrapping_sub(1);
        self.y = result;
        self.update_zero_and_negative_flag(result);
    }

    // -----------------------------------------------------------------------
    // Branches
    // -----------------------------------------------------------------------

    /// A relative branch: one extra cycle when taken, one more when the
    /// target lies in another page than the instruction that follows.
    fn branch_if(&mut self, taken: bool)
        requires
            old(self).bus_ok(),
        ensures
            final(self)@ == semantics::branch(old(self)@, taken),
    {
        let offset: u8 = self.next_u8();
        if taken {
            let base_address: u16 = self.pc;
            let target: u16 = if offset < 0x80 {
                self.pc.wrapping_add(offset as u16)
            } else {
                self.pc.wrapping_add(offset as u16).wrapping_sub(0x100)
            };
            self.cycles = self.cycles.wrapping_add(1);
            self.incur_extra_cycle_on_page_boundary(base_address, target, 1);
            self.pc = target;
        }
    }

    pub fn bpl(&mut self)
        requires
            old(self).bus_ok(),
        ensures
            final(self)@ == semantics::bpl(old(self)@),
    {
        let taken: bool = !self.is_status_flag_set(StatusFlag::Negative);
        self.branch_if(taken);
    }

    pub fn bmi(&mut self)
        requires
            old(self).bus_ok(),
        ensures
            final(self)@ == semantics::bmi(old(self)@),
    {
        let taken: bool = self.is_status_flag_set(StatusFlag::Negative);
        self.branch_if(taken);
    }

    pub fn bvc(&mut self)
        requires
            old(self).bus_ok(),
        ensures
            final(self)@ == semantics::bvc(old(self)@),
    {
        let taken: bool = !self.is_status_flag_set(StatusFlag::Overflow);
        self.branch_if(taken);
    }

    pub fn bvs(&mut self)
        requires
            old(self).bus_ok(),
        ensures
            final(self)@ == semantics::bvs(old(self)@),
    {
        let taken: bool = self.is_status_flag_set(StatusFlag::Overflow);
        self.branch_if(taken);
    }

    pub fn bcc(&mut self)
        requires
            old(self).bus_ok(),
        ensures
            final(self)@ == semantics::bcc(old(self)@),
    {
        let taken: bool = !self.is_status_flag_set(StatusFlag::Carry);
        self.branch_if(taken);
    }

    pub fn bcs(&mut self)
        requires
            old(self).bus_ok(),
        ensures
            final(self)@ == semantics::bcs(old(self)@),
    {
        let taken: bool = self.is_status_flag_set(StatusFlag::Carry);
        self.branch_if(taken);
    }

    pub fn bne(&mut self)
        requires
            old(self).bus_ok(),
        ensures
            final(self)@ == semantics::bne(old(self)@),
    {
        let taken: bool = !self.is_status_flag_set(StatusFlag::Zero);
        self.branch_if(taken);
    }

    pub fn beq(&mut self)
        requires
            old(self).bus_ok(),
        ensures
            final(self)@ == semantics::beq(old(self)@),
    {
        let taken: bool = self.is_status_flag_set(StatusFlag::Zero);
        self.branch_if(taken);
    }

    // -----------------------------------------------------------------------
    // Jumps and subroutines
    // -----------------------------------------------------------------------

    pub fn jmp(&mut self, mode: Mode, extra: u8)
        requires
            old(self).bus_ok(),
            mode != Mode::Implied,
            mode != Mode::NoMode,
        ensures
            final(self)@ == semantics::jmp(old(self)@, mode, extra),
    {
        let address: u16 = self.get_operand_address(mode, extra);
        self.pc = address;
    }

    /// Jump to subroutine: pushes the address of its own last byte, high
    /// byte first, then jumps.
    pub fn jsr(&mut self)
        requires
            old(self).bus_ok(),
        ensures
            final(self)@ == semantics::jsr(old(self)@),
    {
        let address: u16 = self.get_operand_address(Mode::Absolute, 0);
        let ret: u16 = self.pc.wrapping_sub(1);
        self.push_stack_u16(ret);
        self.pc = address;
    }

    /// Return from subroutine: the pulled address plus one.
    pub fn rts(&mut self)
        requires
            old(self).bus_ok(),
        ensures
            final(self)@ == semantics::rts(old(self)@),
    {
        let address: u16 = self.pull_stack_u16();
        self.pc = address.wrapping_add(1);
    }

    // -----------------------------------------------------------------------
    // Stack instructions
    // -----------------------------------------------------------------------

    pub fn pha(&mut self)
        requires
            old(self).bus_ok(),
        ensures
            final(self)@ == semantics::pha(old(self)@),
    {
        let value: u8 = self.a;
        self.push_stack_u8(value);
    }

    /// Pushes the status byte with the break and push bits set in the copy.
    pub fn php(&mut self)
        requires
            old(self).bus_ok(),
        ensures
            final(self)@ == semantics::php(old(self)@),
    {
        let value: u8 = self.p | 0x30;
        self.push_stack_u8(value);
    }

    pub fn pla(&mut self)
        requires
            old(self).bus_ok(),
        ensures
            final(self)@ == semantics::pla(old(self)@),
    {
        let value: u8 = self.pull_stack_u8();
        self.a = value;
        self.update_zero_and_negative_flag(value);
    }

    /// Restores the status byte: push bit forced on, break bit off.
    pub fn plp(&mut self)
        requires
            old(self).bus_ok(),
        ensures
            final(self)@ == semantics::plp(old(self)@),
    {
        let value: u8 = self.pull_stack_u8();
        self.p = (value | FLAG_PUSH) & !FLAG_BREAK;
    }

    // -----------------------------------------------------------------------
    // Flag instructions
    // -----------------------------------------------------------------------

    pub fn clc(&mut self)
        ensures
            final(self)@ == semantics::clc(old(self)@),
    {
        self.set_status_flag(StatusFlag::Carry, false);
    }

    pub fn sec(&mut self)
        ensures
            final(self)@ == semantics::sec(old(self)@),
    {
        self.set_status_flag(StatusFlag::Carry, true);
    }

    pub fn cli(&mut self)
        ensures
            final(self)@ == semantics::cli(old(self)@),
    {
        self.set_status_flag(StatusFlag::InterruptDisable, false);
    }

    pub fn sei(&mut self)
        ensures
            final(self)@ == semantics::sei(old(self)@),
    {
        self.set_status_flag(StatusFlag::InterruptDisable, true);
    }

    pub fn clv(&mut self)
        ensures
            final(self)@ == semantics::clv(old(self)@),
    {
        self.set_status_flag(StatusFlag::Overflow, false);
    }

    pub fn cld(&mut self)
        ensures
            final(self)@ == semantics::cld(old(self)@),
    {
        self.set_status_flag(StatusFlag::Decimal, false);
    }

    pub fn sed(&mut self)
        ensures
            final(self)@ == semantics::sed(old(self)@),
    {
        self.set_status_flag(StatusFlag::Decimal, true);
    }

    // -----------------------------------------------------------------------
    // Software interrupt and returns
    // -----------------------------------------------------------------------

    /// BRK: pushes the program counter past its padding byte, pushes the
    /// status byte with the break bit set, sets interrupt disable and takes
    /// the IRQ vector.
    pub fn brk(&mut self)
        requires
            old(self).bus_ok(),
        ensures
            final(self)@ == semantics::brk(old(self)@),
    {
        let ret: u16 = self.pc.wrapping_add(1);
        self.push_stack_u16(ret);
        let pushed: u8 = self.p | 0x30;
        self.push_stack_u8(pushed);
        self.set_status_flag(StatusFlag::InterruptDisable, true);
        self.pc = self.bus.read_u16(IRQ_VECTOR);
    }

    /// Return from interrupt: pulls the status byte, then the program
    /// counter, with no increment.
    pub fn rti(&mut self)
        requires
            old(self).bus_ok(),
        ensures
            final(self)@ == semantics::rti(old(self)@),
    {
        let value: u8 = self.pull_stack_u8();
        self.p = (value | FLAG_PUSH) & !FLAG_BREAK;
        let address: u16 = self.pull_stack_u16();
        self.pc = address;
    }

    // -----------------------------------------------------------------------
    // Undocumented combinations
    // -----------------------------------------------------------------------

    /// SLO: shift the operand left in memory, then OR it into the accumulator.
    pub fn slo(&mut self, mode: Mode, extra: u8)
        requires
            old(self).bus_ok(),
            mode != Mode::Implied,
            mode != Mode::NoMode,
        ensures
            final(self)@ == semantics::slo(old(self)@, mode, extra),
    {
        let (address, value) = self.get_operand(mode, extra);
        let result: u8 = value << 1;
        self.set_status_flag(StatusFlag::Carry, value & 0x80 == 0x80);
        self.bus.write_u8(address, result);
        let a1: u8 = self.a | result;
        self.a = a1;
        self.update_zero_and_negative_flag(a1);
    }

    /// RLA: rotate the operand left in memory, then AND it into the accumulator.
    pub fn rla(&mut self, mode: Mode, extra: u8)
        requires
            old(self).bus_ok(),
            mode != Mode::Implied,
            mode != Mode::NoMode,
        ensures
            final(self)@ == semantics::rla(old(self)@, mode, extra),
    {
        let (address, value) = self.get_operand(mode, extra);
        let result: u8 = (value << 1) | self.get_carry();
        self.set_status_flag(StatusFlag::Carry, value & 0x80 == 0x80);
        self.bus.write_u8(address, result);
        let a1: u8 = self.a & result;
        self.a = a1;
        self.update_zero_and_negative_flag(a1);
    }

    /// SRE: shift the operand right in memory, then XOR it into the accumulator.
    pub fn sre(&mut self, mode: Mode, extra: u8)
        requires
            old(self).bus_ok(),
            mode != Mode::Implied,
            mode != Mode::NoMode,
        ensures
            final(self)@ == semantics::sre(old(self)@, mode, extra),
    {
        let (address, value) = self.get_operand(mode, extra);
        let result: u8 = value >> 1;
        self.set_status_flag(StatusFlag::Carry, value & 0x01 == 0x01);
        self.bus.write_u8(address, result);
        let a1: u8 = self.a ^ result;
        self.a = a1;
        self.update_zero_and_negative_flag(a1);
    }

    /// RRA: rotate the operand right in memory, then add it with carry.
    pub fn rra(&mut self, mode: Mode, extra: u8)
        requires
            old(self).bus_ok(),
            mode != Mode::Implied,
            mode != Mode::NoMode,
        ensures
            final(self)@ == semantics::rra(old(self)@, mode, extra),
    {
        let (address, value) = self.get_operand(mode, extra);
        let result: u8 = (value >> 1) | (self.get_carry() << 7);
        self.set_status_flag(StatusFlag::Carry, value & 0x01 == 0x01);
        self.bus.write_u8(address, result);
        self.adc_value(result);
    }

    /// DCP: decrement the operand in memory, then compare the accumulator.
    pub fn dcp(&mut self, mode: Mode, extra: u8)
        requires
            old(self).bus_ok(),
            mode != Mode::Implied,
            mode != Mode::NoMode,
        ensures
            final(self)@ == semantics::dcp(old(self)@, mode, extra),
    {
        let (address, value) = self.get_operand(mode, extra);
        let result: u8 = value.wrapping_sub(1);
        self.bus.write_u8(address, result);
        let reg: u8 = self.a;
        self.compare_with(reg, result);
    }

    /// ISC: increment the operand in memory, then subtract it with borrow.
    pub fn isc(&mut self, mode: Mode, extra: u8)
        requires
            old(self).bus_ok(),
            mode != Mode::Implied,
            mode != Mode::NoMode,
        ensures
            final(self)@ == semantics::isc(old(self)@, mode, extra),
    {
        let (address, value) = self.get_operand(mode, extra);
        let result: u8 = value.wrapping_add(1);
        self.bus.write_u8(address, result);
        self.adc_value(!result);
    }

    /// ANC: AND immediate; the carry copies the negative flag.
    pub fn anc(&mut self, mode: Mode, extra: u8)
        requires
            old(self).bus_ok(),
            mode != Mode::Implied,
            mode != Mode::NoMode,
        ensures
            final(self)@ == semantics::anc(old(self)@, mode, extra),
    {
        let (_address, value) = self.get_operand(mode, extra);
        let a1: u8 = self.a & value;
        self.a = a1;
        self.update_zero_and_negative_flag(a1);
        self.set_status_flag(StatusFlag::Carry, a1 & 0x80 == 0x80);
    }

    /// ALR: AND immediate, then shift the accumulator right.
    pub fn alr(&mut self, mode: Mode, extra: u8)
        requires
            old(self).bus_ok(),
            mode != Mode::Implied,
            mode != Mode::NoMode,
        ensures
            final(self)@ == semantics::alr(old(self)@, mode, extra),
    {
        let (_address, value) = self.get_operand(mode, extra);
        let a1: u8 = self.a & value;
        let result: u8 = a1 >> 1;
        self.set_status_flag(StatusFlag::Carry, a1 & 0x01 == 0x01);
        self.a = result;
        self.update_zero_and_negative_flag(result);
    }

    /// ARR: AND immediate, rotate the accumulator right; carry and overflow
    /// from the result's middle bits, per the common consensus.
    pub fn arr(&mut self, mode: Mode, extra: u8)
        requires
            old(self).bus_ok(),
            mode != Mode::Implied,
            mode != Mode::NoMode,
        ensures
            final(self)@ == semantics::arr(old(self)@, mode, extra),
    {
        let (_address, value) = self.get_operand(mode, extra);
        let a1: u8 = self.a & value;
        let result: u8 = (a1 >> 1) | (self.get_carry() << 7);
        self.set_status_flag(StatusFlag::Carry, result & 0x40 == 0x40);
        self.set_status_flag(StatusFlag::Overflow, ((result >> 6) ^ (result >> 5)) & 0x01 == 0x01);
        self.a = result;
        self.update_zero_and_negative_flag(result);
    }

    /// XAA: modelled as the common consensus, X AND the immediate operand.
    pub fn xaa(&mut self, mode: Mode, extra: u8)
        requires
            old(self).bus_ok(),
            mode != Mode::Implied,
            mode != Mode::NoMode,
        ensures
            final(self)@ == semantics::xaa(old(self)@, mode, extra),
    {
        let (_address, value) = self.get_operand(mode, extra);
        let result: u8 = self.x & value;
        self.a = result;
        self.update_zero_and_negative_flag(result);
    }

    /// AHX: stores A AND X AND the high byte of the target address plus one.
    pub fn ahx(&mut self, mode: Mode, extra: u8)
        requires
            old(self).bus_ok(),
            mode != Mode::Implied,
            mode != Mode::NoMode,
        ensures
            final(self)@ == semantics::ahx(old(self)@, mode, extra),
    {
        let address: u16 = self.get_operand_address(mode, extra);
        let high: u8 = (address / 0x100) as u8;
        let value: u8 = self.a & self.x & high.wrapping_add(1);
        self.bus.write_u8(address, value);
    }

    /// SHX: stores X AND the high byte of the target address plus one.
    pub fn shx(&mut self, mode: Mode, extra: u8)
        requires
            old(self).bus_ok(),
            mode != Mode::Implied,
            mode != Mode::NoMode,
        ensures
            final(self)@ == semantics::shx(old(self)@, mode, extra),
    {
        let address: u16 = self.get_operand_address(mode, extra);
        let high: u8 = (address / 0x100) as u8;
        let value: u8 = self.x & high.wrapping_add(1);
        self.bus.write_u8(address, value);
    }

    /// SHY: stores Y AND the high byte of the target address plus one.
    pub fn shy(&mut self, mode: Mode, extra: u8)
        requires
            old(self).bus_ok(),
            mode != Mode::Implied,
            mode != Mode::NoMode,
        ensures
            final(self)@ == semantics::shy(old(self)@, mode, extra),
    {
        let address: u16 = self.get_operand_address(mode, extra);
        let high: u8 = (address / 0x100) as u8;
        let value: u8 = self.y & high.wrapping_add(1);
        self.bus.write_u8(address, value);
    }

    /// TAS: the stack pointer becomes A AND X, and the AHX value is stored.
    pub fn tas(&mut self, mode: Mode, extra: u8)
        requires
            old(self).bus_ok(),
            mode != Mode::Implied,
            mode != Mode::NoMode,
        ensures
            final(self)@ == semantics::tas(old(self)@, mode, extra),
    {
        let address: u16 = self.get_operand_address(mode, extra);
        let high: u8 = (address / 0x100) as u8;
        let value: u8 = self.a & self.x & high.wrapping_add(1);
        self.s = self.a & self.x;
        self.bus.write_u8(address, value);
    }

    /// LAS: loads memory AND the stack pointer into A, X and S.
    pub fn las(&mut self, mode: Mode, extra: u8)
        requires
            old(self).bus_ok(),
            mode != Mode::Implied,
            mode != Mode::NoMode,
        ensures
            final(self)@ == semantics::las(old(self)@, mode, extra),
    {
        let (_address, value) = self.get_operand(mode, extra);
        let result: u8 = value & self.s;
        self.a = result;
        self.x = result;
        self.s = result;
        self.update_zero_and_negative_flag(result);
    }

    /// AXS: X becomes A AND X minus the immediate operand, without borrow.
    pub fn axs(&mut self, mode: Mode, extra: u8)
        requires
            old(self).bus_ok(),
            mode != Mode::Implied,
            mode != Mode::NoMode,
        ensures
            final(self)@ == semantics::axs(old(self)@, mode, extra),
    {
        let (_address, value) = self.get_operand(mode, extra);
        let t: u8 = self.a & self.x;
        let result: u8 = t.wrapping_sub(value);
        self.x = result;
        self.set_status_flag(StatusFlag::Carry, t >= value);
        self.update_zero_and_negative_flag(result);
    }

    /// KIL halts the processor irrecoverably.
    pub fn kil(&mut self)
        ensures
            final(self)@ == semantics::kil(old(self)@),
    {
        self.halted = true;
    }

    /// NOP still fetches its operand and pays any page-boundary penalty.
    pub fn nop(&mut self, mode: Mode, extra: u8)
        requires
            old(self).bus_ok(),
        ensures
            final(self)@ == semantics::nop(old(self)@, mode, extra),
    {
        match mode {
            Mode::Implied | Mode::NoMode => {},
            _ => {
                let _address: u16 = self.get_operand_address(mode, extra);
            },
        }
    }

    // -----------------------------------------------------------------------
    // The tick loop
    // -----------------------------------------------------------------------

    /// Runs exactly one instruction: fetches the opcode byte, charges the
    /// base cycles of its table row, dispatches to the handler. Returns
    /// whether the processor is still runnable; a halted processor changes
    /// nothing and keeps answering false.
    ///
    /// The contract carries the global invariants: the always-set status bit
    /// stays set, and the program counter of a running processor moves
    /// unless the instruction is one that writes the program counter itself.
    #[verifier::rlimit(100)]
    pub fn tick(&mut self) -> (running: bool)
        requires
            old(self).wf(),
        ensures
            final(self).wf(),
            final(self)@ == step(old(self)@),
            running == !final(self)@.halted,
            !old(self)@.halted && !writes_pc(next_code(old(self)@)) ==> final(self)@.pc
                != old(self)@.pc,
    {
        if self.halted {
            return false;
        }
        let op: u8 = self.next_u8();
        let entry: OpEntry = opcode_entry(op);
        self.cycles = self.cycles.wrapping_add(entry.cycles as u64);
        self.execute_entry(entry);
        proof {
            laws::lemma_step_wf(old(self)@);
            if !writes_pc(next_code(old(self)@)) {
                laws::lemma_step_advances_pc(old(self)@);
            }
        }
        !self.halted
    }

    /// Dispatches one decoded table row to its instruction handler.
    fn execute_entry(&mut self, entry: OpEntry)
        requires
            old(self).bus_ok(),
            crate::opcodes::mode_fits(entry),
        ensures
            final(self)@ == crate::semantics::instr_step(
                old(self)@,
                entry.code,
                entry.mode,
                crate::opcodes::penalty_of(entry.extra),
            ),
    {
        match entry.code {
            OpCode::Adc | OpCode::Ahx | OpCode::Alr | OpCode::Anc | OpCode::And | OpCode::Arr | OpCode::Asl | OpCode::Axs | OpCode::Bcc | OpCode::Bcs | OpCode::Beq | OpCode::Bit | OpCode::Bmi | OpCode::Bne | OpCode::Bpl | OpCode::Brk | OpCode::Bvc | OpCode::Bvs | OpCode::Clc | OpCode::Cld | OpCode::Cli | OpCode::Clv | OpCode::Cmp | OpCode::Cpx | OpCode::Cpy => self.execute_group_0(entry),
            OpCode::Dcp | OpCode::Dec | OpCode::Dex | OpCode::Dey | OpCode::Eor | OpCode::Inc | OpCode::Inx | OpCode::Iny | OpCode::Isc | OpCode::Jmp | OpCode::Jsr => self.execute_group_1(entry),
            OpCode::Kil | OpCode::Las | OpCode::Lax | OpCode::Lda | OpCode::Ldx | OpCode::Ldy | OpCode::Lsr | OpCode::Nop | OpCode::Ora | OpCode::Pha | OpCode::Php | OpCode::Pla | OpCode::Plp | OpCode::Rla | OpCode::Rol | OpCode::Ror | OpCode::Rra | OpCode::Rti | OpCode::Rts => self.execute_group_2(entry),
            OpCode::Sax | OpCode::Sbc | OpCode::Sec | OpCode::Sed | OpCode::Sei | OpCode::Shx | OpCode::Shy | OpCode::Slo | OpCode::Sre | OpCode::Sta | OpCode::Stx | OpCode::Sty | OpCode::Tas | OpCode::Tax | OpCode::Tay | OpCode::Tsx | OpCode::Txa | OpCode::Txs | OpCode::Tya | OpCode::Xaa => self.execute_group_3(entry),
        }
    }

    /// One quarter of the dispatch table, split to keep each proof small.
    #[verifier::rlimit(100)]
    fn execute_group_0(&mut self, entry: OpEntry)
        requires
            old(self).bus_ok(),
            crate::opcodes::mode_fits(entry),
            (match entry.code {
                OpCode::Adc | OpCode::Ahx | OpCode::Alr | OpCode::Anc | OpCode::And | OpCode::Arr | OpCode::Asl | OpCode::Axs | OpCode::Bcc | OpCode::Bcs | OpCode::Beq | OpCode::Bit | OpCode::Bmi | OpCode::Bne | OpCode::Bpl | OpCode::Brk | OpCode::Bvc | OpCode::Bvs | OpCode::Clc | OpCode::Cld | OpCode::Cli | OpCode::Clv | OpCode::Cmp | OpCode::Cpx | OpCode::Cpy => true,
                _ => false,
            }),
        ensures
            final(self)@ == crate::semantics::instr_step(
                old(self)@,
                entry.code,
                entry.mode,
                crate::opcodes::penalty_of(entry.extra),
            ),
    {
        let pen: u8 = extra_penalty(entry.extra);
        match entry.code {
            OpCode::Adc => {
                self.adc(entry.mode, pen);
                assert(self@ == crate::semantics::instr_step(
                    old(self)@,
                    entry.code,
                    entry.mode,
                    crate::opcodes::penalty_of(entry.extra),
                ));
            },
            OpCode::Ahx => {
                self.ahx(entry.mode, pen);
                assert(self@ == crate::semantics::instr_step(
                    old(self)@,
                    entry.code,
                    entry.mode,
                    crate::opcodes::penalty_of(entry.extra),
                ));
            },
            OpCode::Alr => {
                self.alr(entry.mode, pen);
                assert(self@ == crate::semantics::instr_step(
                    old(self)@,
                    entry.code,
                    entry.mode,
                    crate::opcodes::penalty_of(entry.extra),
                ));
            },
            OpCode::Anc => {
                self.anc(entry.mode, pen);
                assert(self@ == crate::semantics::instr_step(
                    old(self)@,
                    entry.code,
                    entry.mode,
                    crate::opcodes::penalty_of(entry.extra),
                ));
            },
            OpCode::And => {
                self.and(entry.mode, pen);
                assert(self@ == crate::semantics::instr_step(
                    old(self)@,
                    entry.code,
                    entry.mode,
                    crate::opcodes::penalty_of(entry.extra),
                ));
            },
            OpCode::Arr => {
                self.arr(entry.mode, pen);
                assert(self@ == crate::semantics::instr_step(
                    old(self)@,
                    entry.code,
                    entry.mode,
                    crate::opcodes::penalty_of(entry.extra),
                ));
            },
            OpCode::Asl => {
                self.asl(entry.mode);
                assert(self@ == crate::semantics::instr_step(
                    old(self)@,
                    entry.code,
                    entry.mode,
                    crate::opcodes::penalty_of(entry.extra),
                ));
            },
            OpCode::Axs => {
                self.axs(entry.mode, pen);
                assert(self@ == crate::semantics::instr_step(
                    old(self)@,
                    entry.code,
                    entry.mode,
                    crate::opcodes::penalty_of(entry.extra),
                ));
            },
            OpCode::Bcc => {
                self.bcc();
                assert(self@ == crate::semantics::instr_step(
                    old(self)@,
                    entry.code,
                    entry.mode,
                    crate::opcodes::penalty_of(entry.extra),
                ));
            },
            OpCode::Bcs => {
                self.bcs();
                assert(self@ == crate::semantics::instr_step(
                    old(self)@,
                    entry.code,
                    entry.mode,
                    crate::opcodes::penalty_of(entry.extra),
                ));
            },
            OpCode::Beq => {
                self.beq();
                assert(self@ == crate::semantics::instr_step(
                    old(self)@,
                    entry.code,
                    entry.mode,
                    crate::opcodes::penalty_of(entry.extra),
                ));
            },
            OpCode::Bit => {
                self.bit(entry.mode, pen);
                assert(self@ == crate::semantics::instr_step(
                    old(self)@,
                    entry.code,
                    entry.mode,
                    crate::opcodes::penalty_of(entry.extra),
                ));
            },
            OpCode::Bmi => {
                self.bmi();
                assert(self@ == crate::semantics::instr_step(
                    old(self)@,
                    entry.code,
                    entry.mode,
                    crate::opcodes::penalty_of(entry.extra),
                ));
            },
            OpCode::Bne => {
                self.bne();
                assert(self@ == crate::semantics::instr_step(
                    old(self)@,
                    entry.code,
                    entry.mode,
                    crate::opcodes::penalty_of(entry.extra),
                ));
            },
            OpCode::Bpl => {
                self.bpl();
                assert(self@ == crate::semantics::instr_step(
                    old(self)@,
                    entry.code,
                    entry.mode,
                    crate::opcodes::penalty_of(entry.extra),
                ));
            },
            OpCode::Brk => {
                self.brk();
                assert(self@ == crate::semantics::instr_step(
                    old(self)@,
                    entry.code,
                    entry.mode,
                    crate::opcodes::penalty_of(entry.extra),
                ));
            },
            OpCode::Bvc => {
                self.bvc();
                assert(self@ == crate::semantics::instr_step(
                    old(self)@,
                    entry.code,
                    entry.mode,
                    crate::opcodes::penalty_of(entry.extra),
                ));
            },
            OpCode::Bvs => {
                self.bvs();
                assert(self@ == crate::semantics::instr_step(
                    old(self)@,
                    entry.code,
                    entry.mode,
                    crate::opcodes::penalty_of(entry.extra),
                ));
            },
            OpCode::Clc => {
                self.clc();
                assert(self@ == crate::semantics::instr_step(
                    old(self)@,
                    entry.code,
                    entry.mode,
                    crate::opcodes::penalty_of(entry.extra),
                ));
            },
            OpCode::Cld => {
                self.cld();
                assert(self@ == crate::semantics::instr_step(
                    old(self)@,
                    entry.code,
                    entry.mode,
                    crate::opcodes::penalty_of(entry.extra),
                ));
            },
            OpCode::Cli => {
                self.cli();
                assert(self@ == crate::semantics::instr_step(
                    old(self)@,
                    entry.code,
                    entry.mode,
                    crate::opcodes::penalty_of(entry.extra),
                ));
            },
            OpCode::Clv => {
                self.clv();
                assert(self@ == crate::semantics::instr_step(
                    old(self)@,
                    entry.code,
                    entry.mode,
                    crate::opcodes::penalty_of(entry.extra),
                ));
            },
            OpCode::Cmp => {
                self.cmp(entry.mode, pen);
                assert(self@ == crate::semantics::instr_step(
                    old(self)@,
                    entry.code,
                    entry.mode,
                    crate::opcodes::penalty_of(entry.extra),
                ));
            },
            OpCode::Cpx => {
                self.cpx(entry.mode, pen);
                assert(self@ == crate::semantics::instr_step(
                    old(self)@,
                    entry.code,
                    entry.mode,
                    crate::opcodes::penalty_of(entry.extra),
                ));
            },
            OpCode::Cpy => {
                self.cpy(entry.mode, pen);
                assert(self@ == crate::semantics::instr_step(
                    old(self)@,
                    entry.code,
                    entry.mode,
                    crate::opcodes::penalty_of(entry.extra),
                ));
            },
            _ => {
                proof {
                    assert(false);
                }
            },
        }
    }

    /// One quarter of the dispatch table, split to keep each proof small.
    #[verifier::rlimit(100)]
    fn execute_group_1(&mut self, entry: OpEntry)
        requires
            old(self).bus_ok(),
            crate::opcodes::mode_fits(entry),
            (match entry.code {
                OpCode::Dcp | OpCode::Dec | OpCode::Dex | OpCode::Dey | OpCode::Eor | OpCode::Inc | OpCode::Inx | OpCode::Iny | OpCode::Isc | OpCode::Jmp | OpCode::Jsr => true,
                _ => false,
            }),
        ensures
            final(self)@ == crate::semantics::instr_step(
                old(self)@,
                entry.code,
                entry.mode,
                crate::opcodes::penalty_of(entry.extra),
            ),
    {
        let pen: u8 = extra_penalty(entry.extra);
        match entry.code {
            OpCode::Dcp => {
                self.dcp(entry.mode, pen);
                assert(self@ == crate::semantics::instr_step(
                    old(self)@,
                    entry.code,
                    entry.mode,
                    crate::opcodes::penalty_of(entry.extra),
                ));
            },
            OpCode::Dec => {
                self.dec(entry.mode, pen);
                assert(self@ == crate::semantics::instr_step(
                    old(self)@,
                    entry.code,
                    entry.mode,
                    crate::opcodes::penalty_of(entry.extra),
                ));
            },
            OpCode::Dex => {
                self.dex();
                assert(self@ == crate::semantics::instr_step(
                    old(self)@,
                    entry.code,
                    entry.mode,
                    crate::opcodes::penalty_of(entry.extra),
                ));
            },
            OpCode::Dey => {
                self.dey();
                assert(self@ == crate::semantics::instr_step(
                    old(self)@,
                    entry.code,
                    entry.mode,
                    crate::opcodes::penalty_of(entry.extra),
                ));
            },
            OpCode::Eor => {
                self.eor(entry.mode, pen);
                assert(self@ == crate::semantics::instr_step(
                    old(self)@,
                    entry.code,
                    entry.mode,
                    crate::opcodes::penalty_of(entry.extra),
                ));
            },
            OpCode::Inc => {
                self.inc(entry.mode, pen);
                assert(self@ == crate::semantics::instr_step(
                    old(self)@,
                    entry.code,
                    entry.mode,
                    crate::opcodes::penalty_of(entry.extra),
                ));
            },
            OpCode::Inx => {
                self.inx();
                assert(self@ == crate::semantics::instr_step(
                    old(self)@,
                    entry.code,
                    entry.mode,
                    crate::opcodes::penalty_of(entry.extra),
                ));
            },
            OpCode::Iny => {
                self.iny();
                assert(self@ == crate::semantics::instr_step(
                    old(self)@,
                    entry.code,
                    entry.mode,
                    crate::opcodes::penalty_of(entry.extra),
                ));
            },
            OpCode::Isc => {
                self.isc(entry.mode, pen);
                assert(self@ == crate::semantics::instr_step(
                    old(self)@,
                    entry.code,
                    entry.mode,
                    crate::opcodes::penalty_of(entry.extra),
                ));
            },
            OpCode::Jmp => {
                self.jmp(entry.mode, pen);
                assert(self@ == crate::semantics::instr_step(
                    old(self)@,
                    entry.code,
                    entry.mode,
                    crate::opcodes::penalty_of(entry.extra),
                ));
            },
            OpCode::Jsr => {
                self.jsr();
                assert(self@ == crate::semantics::instr_step(
                    old(self)@,
                    entry.code,
                    entry.mode,
                    crate::opcodes::penalty_of(entry.extra),
                ));
            },
            _ => {
                proof {
                    assert(false);
                }
            },
        }
    }

    /// One quarter of the dispatch table, split to keep each proof small.
    #[verifier::rlimit(100)]
    fn execute_group_2(&mut self, entry: OpEntry)
        requires
            old(self).bus_ok(),
            crate::opcodes::mode_fits(entry),
            (match entry.code {
                OpCode::Kil | OpCode::Las | OpCode::Lax | OpCode::Lda | OpCode::Ldx | OpCode::Ldy | OpCode::Lsr | OpCode::Nop | OpCode::Ora | OpCode::Pha | OpCode::Php | OpCode::Pla | OpCode::Plp | OpCode::Rla | OpCode::Rol | OpCode::Ror | OpCode::Rra | OpCode::Rti | OpCode::Rts => true,
                _ => false,
            }),
        ensures
            final(self)@ == crate::semantics::instr_step(
                old(self)@,
                entry.code,
                entry.mode,
                crate::opcodes::penalty_of(entry.extra),
            ),
    {
        let pen: u8 = extra_penalty(entry.extra);
        match entry.code {
            OpCode::Kil => {
                self.kil();
                assert(self@ == crate::semantics::instr_step(
                    old(self)@,
                    entry.code,
                    entry.mode,
                    crate::opcodes::penalty_of(entry.extra),
                ));
            },
            OpCode::Las => {
                self.las(entry.mode, pen);
                assert(self@ == crate::semantics::instr_step(
                    old(self)@,
                    entry.code,
                    entry.mode,
                    crate::opcodes::penalty_of(entry.extra),
                ));
            },
            OpCode::Lax => {
                self.lax(entry.mode, pen);
                assert(self@ == crate::semantics::instr_step(
                    old(self)@,
                    entry.code,
                    entry.mode,
                    crate::opcodes::penalty_of(entry.extra),
                ));
            },
            OpCode::Lda => {
                self.lda(entry.mode, pen);
                assert(self@ == crate::semantics::instr_step(
                    old(self)@,
                    entry.code,
                    entry.mode,
                    crate::opcodes::penalty_of(entry.extra),
                ));
            },
            OpCode::Ldx => {
                self.ldx(entry.mode, pen);
                assert(self@ == crate::semantics::instr_step(
                    old(self)@,
                    entry.code,
                    entry.mode,
                    crate::opcodes::penalty_of(entry.extra),
                ));
            },
            OpCode::Ldy => {
                self.ldy(entry.mode, pen);
                assert(self@ == crate::semantics::instr_step(
                    old(self)@,
                    entry.code,
                    entry.mode,
                    crate::opcodes::penalty_of(entry.extra),
                ));
            },
            OpCode::Lsr => {
                self.lsr(entry.mode);
                assert(self@ == crate::semantics::instr_step(
                    old(self)@,
                    entry.code,
                    entry.mode,
                    crate::opcodes::penalty_of(entry.extra),
                ));
            },
            OpCode::Nop => {
                self.nop(entry.mode, pen);
                assert(self@ == crate::semantics::instr_step(
                    old(self)@,
                    entry.code,
                    entry.mode,
                    crate::opcodes::penalty_of(entry.extra),
                ));
            },
            OpCode::Ora => {
                self.ora(entry.mode, pen);
                assert(self@ == crate::semantics::instr_step(
                    old(self)@,
                    entry.code,
                    entry.mode,
                    crate::opcodes::penalty_of(entry.extra),
                ));
            },
            OpCode::Pha => {
                self.pha();
                assert(self@ == crate::semantics::instr_step(
                    old(self)@,
                    entry.code,
                    entry.mode,
                    crate::opcodes::penalty_of(entry.extra),
                ));
            },
            OpCode::Php => {
                self.php();
                assert(self@ == crate::semantics::instr_step(
                    old(self)@,
                    entry.code,
                    entry.mode,
                    crate::opcodes::penalty_of(entry.extra),
                ));
            },
            OpCode::Pla => {
                self.pla();
                assert(self@ == crate::semantics::instr_step(
                    old(self)@,
                    entry.code,
                    entry.mode,
                    crate::opcodes::penalty_of(entry.extra),
                ));
            },
            OpCode::Plp => {
                self.plp();
                assert(self@ == crate::semantics::instr_step(
                    old(self)@,
                    entry.code,
                    entry.mode,
                    crate::opcodes::penalty_of(entry.extra),
                ));
            },
            OpCode::Rla => {
                self.rla(entry.mode, pen);
                assert(self@ == crate::semantics::instr_step(
                    old(self)@,
                    entry.code,
                    entry.mode,
                    crate::opcodes::penalty_of(entry.extra),
                ));
            },
            OpCode::Rol => {
                self.rol(entry.mode);
                assert(self@ == crate::semantics::instr_step(
                    old(self)@,
                    entry.code,
                    entry.mode,
                    crate::opcodes::penalty_of(entry.extra),
                ));
            },
            OpCode::Ror => {
                self.ror(entry.mode);
                assert(self@ == crate::semantics::instr_step(
                    old(self)@,
                    entry.code,
                    entry.mode,
                    crate::opcodes::penalty_of(entry.extra),
                ));
            },
            OpCode::Rra => {
                self.rra(entry.mode, pen);
                assert(self@ == crate::semantics::instr_step(
                    old(self)@,
                    entry.code,
                    entry.mode,
                    crate::opcodes::penalty_of(entry.extra),
                ));
            },
            OpCode::Rti => {
                self.rti();
                assert(self@ == crate::semantics::instr_step(
                    old(self)@,
                    entry.code,
                    entry.mode,
                    crate::opcodes::penalty_of(entry.extra),
                ));
            },
            OpCode::Rts => {
                self.rts();
                assert(self@ == crate::semantics::instr_step(
                    old(self)@,
                    entry.code,
                    entry.mode,
                    crate::opcodes::penalty_of(entry.extra),
                ));
            },
            _ => {
                proof {
                    assert(false);
                }
            },
        }
    }

    /// One quarter of the dispatch table, split to keep each proof small.
    #[verifier::rlimit(100)]
    fn execute_group_3(&mut self, entry: OpEntry)
        requires
            old(self).bus_ok(),
            crate::opcodes::mode_fits(entry),
            (match entry.code {
                OpCode::Sax | OpCode::Sbc | OpCode::Sec | OpCode::Sed | OpCode::Sei | OpCode::Shx | OpCode::Shy | OpCode::Slo | OpCode::Sre | OpCode::Sta | OpCode::Stx | OpCode::Sty | OpCode::Tas | OpCode::Tax | OpCode::Tay | OpCode::Tsx | OpCode::Txa | OpCode::Txs | OpCode::Tya | OpCode::Xaa => true,
                _ => false,
            }),
        ensures
            final(self)@ == crate::semantics::instr_step(
                old(self)@,
                entry.code,
                entry.mode,
                crate::opcodes::penalty_of(entry.extra),
            ),
    {
        let pen: u8 = extra_penalty(entry.extra);
        match entry.code {
            OpCode::Sax => {
                self.sax(entry.mode, pen);
                assert(self@ == crate::semantics::instr_step(
                    old(self)@,
                    entry.code,
                    entry.mode,
                    crate::opcodes::penalty_of(entry.extra),
                ));
            },
            OpCode::Sbc => {
                self.sbc(entry.mode, pen);
                assert(self@ == crate::semantics::instr_step(
                    old(self)@,
                    entry.code,
                    entry.mode,
                    crate::opcodes::penalty_of(entry.extra),
                ));
            },
            OpCode::Sec => {
                self.sec();
                assert(self@ == crate::semantics::instr_step(
                    old(self)@,
                    entry.code,
                    entry.mode,
                    crate::opcodes::penalty_of(entry.extra),
                ));
            },
            OpCode::Sed => {
                self.sed();
                assert(self@ == crate::semantics::instr_step(
                    old(self)@,
                    entry.code,
                    entry.mode,
                    crate::opcodes::penalty_of(entry.extra),
                ));
            },
            OpCode::Sei => {
                self.sei();
                assert(self@ == crate::semantics::instr_step(
                    old(self)@,
                    entry.code,
                    entry.mode,
                    crate::opcodes::penalty_of(entry.extra),
                ));
            },
            OpCode::Shx => {
                self.shx(entry.mode, pen);
                assert(self@ == crate::semantics::instr_step(
                    old(self)@,
                    entry.code,
                    entry.mode,
                    crate::opcodes::penalty_of(entry.extra),
                ));
            },
            OpCode::Shy => {
                self.shy(entry.mode, pen);
                assert(self@ == crate::semantics::instr_step(
                    old(self)@,
                    entry.code,
                    entry.mode,
                    crate::opcodes::penalty_of(entry.extra),
                ));
            },
            OpCode::Slo => {
                self.slo(entry.mode, pen);
                assert(self@ == crate::semantics::instr_step(
                    old(self)@,
                    entry.code,
                    entry.mode,
                    crate::opcodes::penalty_of(entry.extra),
                ));
            },
            OpCode::Sre => {
                self.sre(entry.mode, pen);
                assert(self@ == crate::semantics::instr_step(
                    old(self)@,
                    entry.code,
                    entry.mode,
                    crate::opcodes::penalty_of(entry.extra),
                ));
            },
            OpCode::Sta => {
                self.sta(entry.mode, pen);
                assert(self@ == crate::semantics::instr_step(
                    old(self)@,
                    entry.code,
                    entry.mode,
                    crate::opcodes::penalty_of(entry.extra),
                ));
            },
            OpCode::Stx => {
                self.stx(entry.mode, pen);
                assert(self@ == crate::semantics::instr_step(
                    old(self)@,
                    entry.code,
                    entry.mode,
                    crate::opcodes::penalty_of(entry.extra),
                ));
            },
            OpCode::Sty => {
                self.sty(entry.mode, pen);
                assert(self@ == crate::semantics::instr_step(
                    old(self)@,
                    entry.code,
                    entry.mode,
                    crate::opcodes::penalty_of(entry.extra),
                ));
            },
            OpCode::Tas => {
                self.tas(entry.mode, pen);
                assert(self@ == crate::semantics::instr_step(
                    old(self)@,
                    entry.code,
                    entry.mode,
                    crate::opcodes::penalty_of(entry.extra),
                ));
            },
            OpCode::Tax => {
                self.tax();
                assert(self@ == crate::semantics::instr_step(
                    old(self)@,
                    entry.code,
                    entry.mode,
                    crate::opcodes::penalty_of(entry.extra),
                ));
            },
            OpCode::Tay => {
                self.tay();
                assert(self@ == crate::semantics::instr_step(
                    old(self)@,
                    entry.code,
                    entry.mode,
                    crate::opcodes::penalty_of(entry.extra),
                ));
            },
            OpCode::Tsx => {
                self.tsx();
                assert(self@ == crate::semantics::instr_step(
                    old(self)@,
                    entry.code,
                    entry.mode,
                    crate::opcodes::penalty_of(entry.extra),
                ));
            },
            OpCode::Txa => {
                self.txa();
                assert(self@ == crate::semantics::instr_step(
                    old(self)@,
                    entry.code,
                    entry.mode,
                    crate::opcodes::penalty_of(entry.extra),
                ));
            },
            OpCode::Txs => {
                self.txs();
                assert(self@ == crate::semantics::instr_step(
                    old(self)@,
                    entry.code,
                    entry.mode,
                    crate::opcodes::penalty_of(entry.extra),
                ));
            },
            OpCode::Tya => {
                self.tya();
                assert(self@ == crate::semantics::instr_step(
                    old(self)@,
                    entry.code,
                    entry.mode,
                    crate::opcodes::penalty_of(entry.extra),
                ));
            },
            OpCode::Xaa => {
                self.xaa(entry.mode, pen);
                assert(self@ == crate::semantics::instr_step(
                    old(self)@,
                    entry.code,
                    entry.mode,
                    crate::opcodes::penalty_of(entry.extra),
                ));
            },
            _ => {
                proof {
                    assert(false);
                }
            },
        }
    }

    /// Ticks until the processor halts on a KIL opcode, or until the given
    /// number of instructions has run: the hardware has no bound of its own,
    /// but a verified loop carries one. Answers whether the processor halted.
    /// The final state is some iterate of `step`, and the loop stops only
    /// for a reason: the processor halted, or the whole budget was spent.
    pub fn run(&mut self, max_ticks: u64) -> (halted: bool)
        requires
            old(self).wf(),
        ensures
            final(self).wf(),
            halted == final(self)@.halted,
            exists|k: nat|
                k <= max_ticks && final(self)@ == crate::semantics::steps(old(self)@, k),
            final(self)@.halted || final(self)@ == crate::semantics::steps(
                old(self)@,
                max_ticks as nat,
            ),
    {
        let mut remaining: u64 = max_ticks;
        let ghost mut done: nat = 0;
        loop
            invariant
                self.wf(),
                remaining <= max_ticks,
                done + remaining == max_ticks,
                self@ == crate::semantics::steps(old(self)@, done),
            ensures
                self.wf(),
                exists|k: nat|
                    k <= max_ticks && self@ == crate::semantics::steps(old(self)@, k),
                self@.halted || self@ == crate::semantics::steps(old(self)@, max_ticks as nat),
            decreases remaining,
        {
            if remaining == 0 {
                break;
            }
            remaining = remaining - 1;
            let running: bool = self.tick();
            proof {
                done = done + 1;
            }
            if !running {
                break;
            }
        }
        self.halted
    }

    /// Ticks while the predicate rejects the state, stopping as well once
    /// the processor halts or the tick budget runs out. The final state is
    /// some iterate of `step`, and the loop stops only for a reason: the
    /// predicate accepted the final state, the processor halted, or the
    /// whole budget was spent.
    pub fn run_until<F: Fn(&Cpu6502) -> bool>(&mut self, predicate: F, max_ticks: u64)
        requires
            old(self).wf(),
            forall|c: &Cpu6502| #[trigger] call_requires(predicate, (c,)),
        ensures
            final(self).wf(),
            exists|k: nat|
                k <= max_ticks && final(self)@ == crate::semantics::steps(old(self)@, k),
            final(self)@.halted || final(self)@ == crate::semantics::steps(
                old(self)@,
                max_ticks as nat,
            ) || exists|c: &Cpu6502| c@ == final(self)@ && call_ensures(predicate, (c,), true),
    {
        let mut remaining: u64 = max_ticks;
        let ghost mut done: nat = 0;
        loop
            invariant
                self.wf(),
                forall|c: &Cpu6502| #[trigger] call_requires(predicate, (c,)),
                remaining <= max_ticks,
                done + remaining == max_ticks,
                self@ == crate::semantics::steps(old(self)@, done),
            ensures
                self.wf(),
                exists|k: nat|
                    k <= max_ticks && self@ == crate::semantics::steps(old(self)@, k),
                self@.halted || self@ == crate::semantics::steps(old(self)@, max_ticks as nat)
                    || exists|c: &Cpu6502| c@ == self@ && call_ensures(predicate, (c,), true),
            decreases remaining,
        {
            let here: &Cpu6502 = &*self;
            let stop: bool = predicate(here);
            if stop {
                break;
            }
            if remaining == 0 {
                break;
            }
            remaining = remaining - 1;
            let running: bool = self.tick();
            proof {
                done = done + 1;
            }
            if !running {
                break;
            }
        }
    }
}

} // verus!
