//! Cycle-counting emulator core for the classic 8-bit console: a 6502-family
//! CPU interpreter, the address-bus fabric with its mirroring rules, and the
//! picture unit's register interface and nametable renderer.

use vstd::prelude::*;

pub mod apu;
pub mod bus;
pub mod cartridge;
pub mod cpu;
pub mod debug;
pub mod emulator;
pub mod frame_buffer;
pub mod laws;
pub mod opcode;
pub mod ppu;
pub mod testing;

verus! {

/// Width of the console screen in pixels.
pub const NES_WIDTH: usize = 256;

/// Height of the console screen in pixels.
pub const NES_HEIGHT: usize = 240;

/// Width of the pattern-table debug view in pixels: 16 tiles of 8.
pub const PATTERN_TABLE_WIDTH: usize = 128;

/// Height of the pattern-table debug view in pixels: 32 tiles of 8.
pub const PATTERN_TABLE_HEIGHT: usize = 256;

/// A fault raised during emulation. The loader's errors are recoverable;
/// these indicate a ROM or emulator defect and halt the tick that met them,
/// leaving the machine state where it stood.
#[derive(Clone, Copy, Debug, PartialEq, Eq, Structural)]
pub enum Fault {
    /// The byte at `pc` is not one of the official opcodes.
    UnknownOpcode { code: u8, pc: u16 },
    /// A read of the write-only scroll or address register.
    PpuRegReadUnimplemented(u16),
    /// A read of the cartridge work-RAM window, which no supported mapper
    /// backs.
    CartridgeRamUnimplemented(u16),
    /// A program-ROM read with no cartridge inserted.
    NoCartridge(u16),
    /// A write to an address range no device claims.
    UnimplementedBusWrite(u16),
    /// A program-ROM read past the cartridge's declared size: a mapper
    /// mismatch.
    PrgRomOutOfRange(u16),
}

} // verus!
