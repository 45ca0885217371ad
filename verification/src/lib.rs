//! A verified core of the MOS 6502 processor as the NES/Famicom uses it:
//! a flat memory bus, a dense 256-entry opcode table, the thirteen addressing
//! modes with their page-boundary cycle penalties, and the per-instruction
//! semantics, stated against a mathematical step function and proved.

pub mod bus;
pub mod cpu_6502;
pub mod laws;
pub mod model;
pub mod opcodes;
pub mod semantics;
