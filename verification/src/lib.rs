//! Core of a Game Boy emulator: a Z80-derived CPU, its pixel-processing
//! unit (PPU), the interrupt controller that couples them, and the bus that
//! routes byte reads and writes between them, the cartridge and plain RAM.
//!
//! Every register write, flag update and timing step is specified against a
//! mathematical model of the machine state and verified: instruction
//! semantics reproduce the hardware's documented flag rules bit for bit, the
//! PPU's mode counter always partitions the 456-dot scanline as documented,
//! and all 16-bit address and program-counter arithmetic wraps modulo 0x10000
//! by construction.

use vstd::prelude::*;

pub mod clock;
pub mod cpu;
pub mod gpu;
pub mod gameboy;
pub mod gpu_regs;
pub mod interrupt;
pub mod laws;
pub mod mbc;
pub mod mbc1;
pub mod nombc;
pub mod memory;
pub mod num;
pub mod opcode;
pub mod register;

verus! {

/// Hardware model being emulated: the original monochrome unit or the
/// color unit with banked video RAM and indexed palettes.
#[derive(Clone, Copy, PartialEq, Eq, Structural, Debug)]
pub enum Term {
    GB,
    GBC,
}

} // verus!
