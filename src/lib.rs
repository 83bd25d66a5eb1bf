//! Emulation core of an 8-bit handheld console: processor, banked address
//! space, interrupts, timer and scanline picture generator.
//!
//! The address space (`Memory`) is one value that the processor, timer,
//! picture generator and joypad borrow in turn for the length of a call.
//! `Emulator` owns all of them and runs a frame at a time.
pub mod alu;
pub mod cpu;
pub mod emulator;
pub mod graphics;
pub mod joypad;
pub mod laws_cpu;
pub mod laws_mem;
pub mod mem;
pub mod registers;
pub mod sound;
pub mod timer;
pub mod types;

pub use cpu::CPU;
pub use emulator::Emulator;
pub use graphics::Screen;
pub use joypad::Joypad;
pub use mem::{MemModel, Memory};
pub use registers::{CpuFlag, Register, Registers};
pub use sound::{Sound, SoundChannel};
pub use timer::Timer;
pub use types::{
    Color, CpuError, CurrentRamBank, CurrentRomBank, GameInput, KeyState, RomBankingType,
};
