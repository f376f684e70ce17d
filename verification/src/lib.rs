//! Instruction core of a Motorola 68000-family CPU emulator: a byte-addressable
//! memory abstraction, the instruction and addressing-mode model with its
//! canonical disassembly text, a decoder over the sixteen opcode groups, and a
//! fetch/decode/execute engine that owns the architectural state.

pub mod cpu;
pub mod decoder;
pub mod instruction;
pub mod memory;
pub mod render;
