//! Core of a NES emulator: a 6502 interpreter, the picture processing unit
//! with its memory-mapped register file, and the bus that joins them.
use vstd::prelude::*;

pub mod bits;
pub mod bus;
pub mod cartridge;
pub mod cpu;
pub mod mem;
pub mod opcode;
pub mod ppu;
pub mod ppu_registers;

verus! {

} // verus!
