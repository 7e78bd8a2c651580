//! Core of a Game Boy emulator: CPU, memory map, cartridge controllers,
//! picture and audio units, timer and serial port, all driven by one clock.
use vstd::prelude::*;

pub mod apu;
pub mod cartridge;
pub mod counter;
pub mod cpu;
pub mod emulator;
pub mod frame;
pub mod info;
pub mod mmu;
pub mod msg;
pub mod ppu;
pub mod regs;
pub mod serial;
pub mod timer;

pub use emulator::Emulator;
pub use info::{FREQUENCY, SCREEN_RESOLUTION};
pub use msg::{ButtonState, Color, Reply, Request, VideoFrame};

verus! {

/// Why an emulator could not be built from a ROM image or a saved state.
#[derive(Clone, Copy, Debug, PartialEq, Eq, Structural)]
pub enum EmulatorErr {
    SaveFileCorrupted,
    InvalidRomSize,
    RomSizeMismatch,
    UnknownRomSize,
    UnknownRamSize,
    UnknownMBC,
    NotImplemented,
}

} // verus!
