//! The laws of the core, stated over the mathematical model and proved once
//! and for all: the global invariants of `step`, the stack round trips, the
//! flag discipline, and the boundary behaviour of addressing and cycles.

use vstd::prelude::*;

use crate::model::{
    CpuState, FLAG_BREAK, FLAG_CARRY, FLAG_NEGATIVE, FLAG_PUSH, FLAG_ZERO, combine, flag_set, hi8,
    lo8, page, pull16, pull8, push16, push8, read8, restore_status, set_flag, stack_addr, zn,
};
use crate::opcodes::{Mode, OpCode, decode, lemma_decode_fits, penalty_of, register_only};
use crate::semantics::{
    advance, branch, branch_target, instr_step, jsr, next_code, operand_len, php, plp, resolve,
    rts, step, writes_pc,
};

verus! {

// ---------------------------------------------------------------------------
// Bit-level helpers
// ---------------------------------------------------------------------------

/// None of the other flag masks touches the always-set push bit.
proof fn lemma_masks_miss_push()
    by (bit_vector)
    ensures
        0x01u8 & 0x20 == 0,
        0x02u8 & 0x20 == 0,
        0x04u8 & 0x20 == 0,
        0x08u8 & 0x20 == 0,
        0x10u8 & 0x20 == 0,
        0x40u8 & 0x20 == 0,
        0x80u8 & 0x20 == 0,
{
}

/// Setting or clearing bits outside the push bit leaves the push bit alone.
proof fn lemma_set_flag_keeps_push()
    by (bit_vector)
    ensures
        forall|p: u8, m: u8, on: bool|
            m & 0x20 == 0 ==> (#[trigger] set_flag(p, m, on)) & 0x20 == p & 0x20,
{
}

/// Recording a result's zero and negative bits leaves the push bit alone.
proof fn lemma_zn_keeps_push()
    by (bit_vector)
    ensures
        forall|p: u8, r: u8| (#[trigger] zn(p, r)) & 0x20 == p & 0x20,
{
}

/// A status byte pulled from the stack always carries the push bit.
proof fn lemma_restore_forces_push()
    by (bit_vector)
    ensures
        forall|v: u8| (#[trigger] restore_status(v)) & 0x20 == 0x20,
{
}

/// Splitting a word into bytes and recombining them is the identity, and the
/// bytes are what division and remainder by 256 say.
proof fn lemma_combine_split()
    by (bit_vector)
    ensures
        forall|v: u16| #[trigger] combine(lo8(v), hi8(v)) == v,
{
}

// ---------------------------------------------------------------------------
// Resolution facts
// ---------------------------------------------------------------------------

/// The resolver only fetches: it moves the program counter past the operand
/// bytes, may charge cycles, and touches nothing else.
pub proof fn lemma_resolve_frame(c: CpuState, mode: Mode, extra: u8)
    ensures
        resolve(c, mode, extra).0.pc == c.pc.wrapping_add(operand_len(mode)),
        resolve(c, mode, extra).0.mem == c.mem,
        resolve(c, mode, extra).0.p == c.p,
        resolve(c, mode, extra).0.s == c.s,
        resolve(c, mode, extra).0.a == c.a,
        resolve(c, mode, extra).0.x == c.x,
        resolve(c, mode, extra).0.y == c.y,
        resolve(c, mode, extra).0.halted == c.halted,
{
}

// ---------------------------------------------------------------------------
// The global invariants of `step`
// ---------------------------------------------------------------------------

/// Every instruction preserves well-formedness: the memory keeps covering
/// the whole address space, and the push bit of the status register stays set.
#[verifier::rlimit(100)]
pub proof fn lemma_instr_step_wf(c: CpuState, code: OpCode, mode: Mode, extra: u8)
    requires
        c.wf(),
    ensures
        instr_step(c, code, mode, extra).wf(),
{
    lemma_masks_miss_push();
    lemma_set_flag_keeps_push();
    lemma_zn_keeps_push();
    lemma_restore_forces_push();
    lemma_resolve_frame(c, mode, extra);
    lemma_resolve_frame(c, mode, 0);
    lemma_resolve_frame(c, Mode::Absolute, 0);
    assert(instr_step(c, code, mode, extra).wf());
}

/// The always-set bit of the status register survives every tick, and so
/// does the shape of memory: `step` preserves well-formedness.
pub proof fn lemma_step_wf(c: CpuState)
    requires
        c.wf(),
    ensures
        step(c).wf(),
{
    if !c.halted {
        let e = decode(read8(c.mem, c.pc));
        let c1 = CpuState {
            pc: c.pc.wrapping_add(1),
            cycles: c.cycles.wrapping_add(e.cycles as u64),
            ..c
        };
        lemma_instr_step_wf(c1, e.code, e.mode, penalty_of(e.extra));
    }
}

/// An instruction that does not write the program counter itself leaves it
/// moved exactly past its own operand bytes.
#[verifier::rlimit(100)]
pub proof fn lemma_instr_step_pc(c: CpuState, code: OpCode, mode: Mode, extra: u8)
    requires
        !writes_pc(code),
        register_only(code) ==> mode == Mode::NoMode,
    ensures
        instr_step(c, code, mode, extra).pc == c.pc.wrapping_add(operand_len(mode)),
{
    lemma_resolve_frame(c, mode, extra);
    lemma_resolve_frame(c, mode, 0);
    assert(instr_step(c, code, mode, extra).pc == c.pc.wrapping_add(operand_len(mode)));
}

/// After a tick of a running processor, the program counter has changed,
/// unless the instruction is one that writes the program counter itself.
pub proof fn lemma_step_advances_pc(c: CpuState)
    requires
        !c.halted,
        !writes_pc(next_code(c)),
    ensures
        step(c).pc != c.pc,
{
    let e = decode(read8(c.mem, c.pc));
    let c1 = CpuState {
        pc: c.pc.wrapping_add(1),
        cycles: c.cycles.wrapping_add(e.cycles as u64),
        ..c
    };
    lemma_decode_fits(read8(c.mem, c.pc));
    lemma_instr_step_pc(c1, e.code, e.mode, penalty_of(e.extra));
    assert(operand_len(e.mode) <= 2);
    assert(step(c).pc == c1.pc.wrapping_add(operand_len(e.mode)));
    assert(c1.pc.wrapping_add(operand_len(e.mode)) != c.pc);
}

// ---------------------------------------------------------------------------
// Stack round trips
// ---------------------------------------------------------------------------

/// Pushing a byte and pulling right away yields the byte back, with the
/// stack pointer restored.
pub proof fn lemma_push_pull_u8(c: CpuState, v: u8)
    requires
        c.wf(),
    ensures
        pull8(push8(c, v)).1 == v,
        pull8(push8(c, v)).0.s == c.s,
{
}

/// The stack pointer moves down by one per pushed byte and up by one per
/// pulled byte, wrapping modulo 256.
pub proof fn lemma_stack_pointer_discipline(c: CpuState, v8: u8, v16: u16)
    ensures
        push8(c, v8).s == c.s.wrapping_sub(1),
        pull8(c).0.s == c.s.wrapping_add(1),
        push16(c, v16).s == c.s.wrapping_sub(2),
        pull16(c).0.s == c.s.wrapping_add(2),
{
}

/// Pushing a word and pulling right away yields the word back, with the
/// stack pointer restored.
pub proof fn lemma_push_pull_u16(c: CpuState, v: u16)
    requires
        c.wf(),
    ensures
        pull16(push16(c, v)).1 == v,
        pull16(push16(c, v)).0.s == c.s,
{
    lemma_combine_split();
    assert(stack_addr(c.s) != stack_addr(c.s.wrapping_sub(1)));
}

/// A pushed word lies little-endian in the stack page: the low byte at the
/// lower address. (At the wrap seam, stack pointer zero, the high byte wraps
/// to the top of the page instead.)
pub proof fn lemma_push16_layout(c: CpuState, v: u16)
    requires
        c.wf(),
        c.s >= 1,
    ensures
        read8(push16(c, v).mem, stack_addr(c.s)) == hi8(v),
        read8(push16(c, v).mem, stack_addr((c.s - 1) as u8)) == lo8(v),
        stack_addr((c.s - 1) as u8) + 1 == stack_addr(c.s),
{
    assert(stack_addr(c.s) != stack_addr(c.s.wrapping_sub(1)));
}

// ---------------------------------------------------------------------------
// Flag discipline
// ---------------------------------------------------------------------------

/// After recording a result byte, the zero flag says exactly that the result
/// was zero, and the negative flag carries exactly its top bit.
pub proof fn lemma_zero_negative_flags()
    by (bit_vector)
    ensures
        forall|p: u8, r: u8| flag_set(#[trigger] zn(p, r), FLAG_ZERO) == (r == 0),
        forall|p: u8, r: u8| flag_set(#[trigger] zn(p, r), FLAG_NEGATIVE) == (r & 0x80 == 0x80),
{
}

/// PHP then PLP restores the status register, except that the break bit
/// reads cleared and the push bit reads set.
pub proof fn lemma_php_plp(c: CpuState)
    requires
        c.wf(),
    ensures
        plp(advance(php(c), 1)).p == restore_status(c.p),
        plp(advance(php(c), 1)).s == c.s,
        flag_set(plp(advance(php(c), 1)).p, FLAG_PUSH),
        !flag_set(plp(advance(php(c), 1)).p, FLAG_BREAK),
        restore_status(c.p) == (c.p | FLAG_PUSH) & !FLAG_BREAK,
{
    let p0 = c.p;
    assert(restore_status(p0 | 0x30) == restore_status(p0)) by (bit_vector);
    assert(flag_set(restore_status(p0), FLAG_PUSH) && !flag_set(restore_status(p0), FLAG_BREAK))
        by (bit_vector);
}

// ---------------------------------------------------------------------------
// Subroutine round trip
// ---------------------------------------------------------------------------

/// A JSR followed at the target by an immediate RTS comes back to the
/// instruction right after the JSR, with the stack pointer restored. Both
/// states are taken right after their opcode fetch, so the return address is
/// the JSR's own address plus three.
pub proof fn lemma_jsr_rts(c: CpuState)
    requires
        c.wf(),
    ensures
        rts(advance(jsr(c), 1)).pc == c.pc.wrapping_add(2),
        rts(advance(jsr(c), 1)).s == c.s,
{
    lemma_combine_split();
    assert(stack_addr(c.s) != stack_addr(c.s.wrapping_sub(1)));
}

// ---------------------------------------------------------------------------
// Boundary behaviour
// ---------------------------------------------------------------------------

/// An indirect jump whose pointer sits at the end of a page takes its high
/// byte from the start of that same page, not from the next one.
pub proof fn lemma_indirect_jump_page_bug(c: CpuState, extra: u8)
    requires
        crate::model::read16(c.mem, c.pc) % 0x100 == 0xFF,
    ensures
        resolve(c, Mode::Indirect, extra).1 == combine(
            read8(c.mem, crate::model::read16(c.mem, c.pc)),
            read8(c.mem, (crate::model::read16(c.mem, c.pc) - 0xFF) as u16),
        ),
{
}

/// Zero-page indexing wraps inside the zero page: the effective address is
/// the operand plus X, modulo 256, with a zero high byte.
pub proof fn lemma_zero_page_x_wraps(c: CpuState, extra: u8)
    ensures
        resolve(c, Mode::ZeroPageX, extra).1 == (read8(c.mem, c.pc) + c.x) % 0x100,
{
    let op = read8(c.mem, c.pc);
    let xx = c.x;
    assert(op.wrapping_add(xx) == (op + xx) % 0x100) by (bit_vector);
}

/// Indexed absolute addressing charges exactly the table's extra cycle when
/// the indexing crosses a page, and nothing when it stays inside one.
pub proof fn lemma_indexed_page_cross_cycle(c: CpuState, extra: u8)
    ensures
        ({
            let base = crate::model::read16(c.mem, c.pc);
            let eff = base.wrapping_add(c.x as u16);
            resolve(c, Mode::AbsoluteIndexedX, extra).0.cycles == if page(base) != page(eff) {
                c.cycles.wrapping_add(extra as u64)
            } else {
                c.cycles
            }
        }),
{
}

/// A branch not taken costs nothing beyond the base cycles; a taken branch
/// costs one extra cycle, and one more when it crosses a page.
pub proof fn lemma_branch_cycles(c: CpuState)
    ensures
        branch(c, false).cycles == c.cycles,
        ({
            let t = branch_target(c.pc.wrapping_add(1), read8(c.mem, c.pc));
            branch(c, true).cycles == if page(c.pc.wrapping_add(1)) != page(t) {
                c.cycles.wrapping_add(2)
            } else {
                c.cycles.wrapping_add(1)
            }
        }),
{
}

} // verus!
