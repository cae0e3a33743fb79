//! Instruction core of a 6502-class processor, the memory bus it drives, and
//! the register interface of the picture unit behind that bus.

pub mod bus;
pub mod cartridge;
pub mod cpu;
pub mod ppu;

pub use cpu::CPU;
