//! The mathematical model of the processor.
//!
//! Every executable operation of the emulator is specified against the
//! functions in this module: a `CpuState` holds the register file, the cycle
//! counter, the halt flag and the whole address space as a sequence of bytes,
//! and the spec functions below say how one state turns into the next.

use vstd::prelude::*;

verus! {

/// The ghost image of the processor: registers, status byte, stack pointer,
/// program counter, cycle counter, halt flag, and the 65536 bytes the bus holds.
#[verifier::ext_equal]
pub ghost struct CpuState {
    /// Accumulator.
    pub a: u8,
    /// X index register.
    pub x: u8,
    /// Y index register.
    pub y: u8,
    /// Program counter: the address of the next byte to fetch.
    pub pc: u16,
    /// Stack pointer: the next free slot in the stack page.
    pub s: u8,
    /// Status register, laid out N V 1 B D I Z C.
    pub p: u8,
    /// Running cycle counter, accumulated one instruction at a time.
    pub cycles: u64,
    /// Set once a KIL opcode was executed; a halted processor ignores ticks.
    pub halted: bool,
    /// The full 16-bit address space.
    pub mem: Seq<u8>,
}

/// Status register bit masks.
pub const FLAG_CARRY: u8 = 0x01;
pub const FLAG_ZERO: u8 = 0x02;
pub const FLAG_INTERRUPT_DISABLE: u8 = 0x04;
pub const FLAG_DECIMAL: u8 = 0x08;
pub const FLAG_BREAK: u8 = 0x10;
pub const FLAG_PUSH: u8 = 0x20;
pub const FLAG_OVERFLOW: u8 = 0x40;
pub const FLAG_NEGATIVE: u8 = 0x80;

/// Number of addressable bytes.
pub const MEMORY_SIZE: usize = 0x10000;

/// The status byte the processor starts with: interrupt disable, decimal
/// cleared, and the always-set push bit.
pub const RESET_STATUS: u8 = 0x34;

/// The reset vector: the program counter is loaded from here at power-on.
pub const RESET_VECTOR: u16 = 0xFFFC;

/// The IRQ/BRK vector.
pub const IRQ_VECTOR: u16 = 0xFFFE;

impl CpuState {
    /// A state is well formed when its memory covers the whole address space
    /// and the always-set bit of the status register reads one.
    pub open spec fn wf(self) -> bool {
        self.mem.len() == MEMORY_SIZE && flag_set(self.p, FLAG_PUSH)
    }
}

// ---------------------------------------------------------------------------
// Memory
// ---------------------------------------------------------------------------

/// The byte the bus holds at `a`.
pub open spec fn read8(m: Seq<u8>, a: u16) -> u8 {
    m[a as int]
}

/// The memory after storing `v` at `a`.
pub open spec fn write8(m: Seq<u8>, a: u16, v: u8) -> Seq<u8> {
    m.update(a as int, v)
}

/// The low byte of a 16-bit value.
pub open spec fn lo8(v: u16) -> u8 {
    (v % 0x100) as u8
}

/// The high byte of a 16-bit value.
pub open spec fn hi8(v: u16) -> u8 {
    (v / 0x100) as u8
}

/// Little-endian composition of two bytes.
pub open spec fn combine(lo: u8, hi: u8) -> u16 {
    (lo + hi * 0x100) as u16
}

/// Little-endian 16-bit read: low byte at `a`, high byte right after it.
pub open spec fn read16(m: Seq<u8>, a: u16) -> u16 {
    combine(read8(m, a), read8(m, a.wrapping_add(1)))
}

/// Little-endian 16-bit write: low byte at `a`, high byte right after it.
pub open spec fn write16(m: Seq<u8>, a: u16, v: u16) -> Seq<u8> {
    write8(write8(m, a, lo8(v)), a.wrapping_add(1), hi8(v))
}

/// The address the high byte of an indirect jump pointer is fetched from.
/// The hardware never carries into the page: a pointer at `$xxFF` wraps to
/// `$xx00` instead of reaching `$(xx+1)00`.
pub open spec fn bug_next(a: u16) -> u16 {
    if a % 0x100 == 0xFF {
        (a - 0xFF) as u16
    } else {
        (a + 1) as u16
    }
}

/// 16-bit read with the indirect-jump page bug.
pub open spec fn read16_page_bug(m: Seq<u8>, a: u16) -> u16 {
    combine(read8(m, a), read8(m, bug_next(a)))
}

/// 16-bit read of a pointer kept in the zero page: both bytes come from the
/// zero page, the second wrapping around at `$FF`.
pub open spec fn read16_zero_page(m: Seq<u8>, ptr: u8) -> u16 {
    combine(read8(m, ptr as u16), read8(m, ptr.wrapping_add(1) as u16))
}

/// The page of an address: its high byte.
pub open spec fn page(a: u16) -> u8 {
    (a / 0x100) as u8
}

// ---------------------------------------------------------------------------
// Status flags
// ---------------------------------------------------------------------------

/// The status byte with the bits of `mask` set or cleared.
pub open spec fn set_flag(p: u8, mask: u8, on: bool) -> u8 {
    if on {
        p | mask
    } else {
        p & !mask
    }
}

/// Whether all bits of `mask` are set in `p`.
pub open spec fn flag_set(p: u8, mask: u8) -> bool {
    p & mask == mask
}

/// The status byte after recording a result byte: zero iff the result is
/// zero, negative iff its top bit is set.
pub open spec fn zn(p: u8, r: u8) -> u8 {
    set_flag(set_flag(p, FLAG_ZERO, r == 0), FLAG_NEGATIVE, r & 0x80 == 0x80)
}

/// The carry bit of the status byte, as the 9th bit of arithmetic.
pub open spec fn carry_of(p: u8) -> u8 {
    p & FLAG_CARRY
}

/// A status byte pulled from the stack, as the register takes it: the push
/// bit is forced on, the break bit off.
pub open spec fn restore_status(v: u8) -> u8 {
    (v | FLAG_PUSH) & !FLAG_BREAK
}

/// The state with only the status byte replaced.
pub open spec fn with_p(c: CpuState, p: u8) -> CpuState {
    CpuState { p, ..c }
}

/// The state of a processor fresh out of reset on the given memory: cleared
/// registers, the stack pointer at the top, the reset status byte, and the
/// program counter read from the reset vector.
pub open spec fn boot(m: Seq<u8>) -> CpuState {
    CpuState {
        a: 0,
        x: 0,
        y: 0,
        pc: read16(m, RESET_VECTOR),
        s: 0xFF,
        p: RESET_STATUS,
        cycles: 0,
        halted: false,
        mem: m,
    }
}

// ---------------------------------------------------------------------------
// Stack
// ---------------------------------------------------------------------------

/// The stack lives in page one: the effective address of a slot.
pub open spec fn stack_addr(s: u8) -> u16 {
    (0x0100 + s) as u16
}

/// The state after pushing one byte: the byte lands at the free slot and the
/// stack pointer moves down, wrapping modulo 256.
pub open spec fn push8(c: CpuState, v: u8) -> CpuState {
    CpuState { mem: write8(c.mem, stack_addr(c.s), v), s: c.s.wrapping_sub(1), ..c }
}

/// The state after pulling one byte, and the byte pulled: the stack pointer
/// moves up first, then the slot it reaches is read.
pub open spec fn pull8(c: CpuState) -> (CpuState, u8) {
    let s1 = c.s.wrapping_add(1);
    (CpuState { s: s1, ..c }, read8(c.mem, stack_addr(s1)))
}

/// The state after pushing a 16-bit value, high byte first, so that the low
/// byte sits at the lower address.
pub open spec fn push16(c: CpuState, v: u16) -> CpuState {
    push8(push8(c, hi8(v)), lo8(v))
}

/// The state after pulling a 16-bit value, and the value pulled.
pub open spec fn pull16(c: CpuState) -> (CpuState, u16) {
    let (c1, lo) = pull8(c);
    let (c2, hi) = pull8(c1);
    (c2, combine(lo, hi))
}

} // verus!
