//! A small 8-bit virtual machine: a fixed instruction-set byte-code
//! interpreter with sixteen general-purpose registers, an index register,
//! a program counter, a bounded call stack, two countdown timers and a
//! monochrome XOR-drawn pixel grid.
//!
//! The crate holds the machine core: the data model, the instruction
//! decoder, the opcode semantics and the tick-driven engine state machine.
//! Rendering, tone generation and physical keyboard polling are external
//! collaborators; the engine consumes plain values from them and hands
//! plain values back.
use vstd::prelude::*;

pub mod decoder;
pub mod disasm;
pub mod engine;
pub mod executor;
pub mod framebuffer;
pub mod laws;
pub mod machine;
pub mod ram;
pub mod registers;
pub mod stack;

verus! {

/// Capacity of the byte-addressable store, in bytes.
pub const RAM_SIZE: usize = 4096;

/// Number of general-purpose registers (V0 through VF).
pub const GPR_SIZE: usize = 16;

/// Number of logical keys the keyboard collaborator reports.
pub const KEY_COUNT: usize = 16;

/// Width of the pixel grid.
pub const CHIP8_WIDTH: usize = 64;

/// Height of the pixel grid.
pub const CHIP8_HEIGHT: usize = 32;

/// Greatest number of return addresses the call stack can hold.
pub const STACK_DEPTH: usize = 16;

/// Address at which a loaded program begins; the region below it is
/// reserved for the built-in glyph bitmaps.
pub const PROGRAM_START: usize = 512;

} // verus!
