//! Core of a Nintendo Entertainment System emulator: a 6502-family CPU
//! interpreter, a dot-stepped picture processing unit, the mapper-0 bus
//! that joins them, the standard controller and the iNES cartridge format.
//!
//! The CPU owns its bus ([`Mapper0`]), and the bus owns the PPU and the
//! controller. A host runs one instruction with [`Cpu::run_instruction`] and
//! then advances the PPU three dots for each cycle it took, with
//! `Cpu::step_ppu`, which delivers the PPU's NMI to the CPU on the dot that
//! raises it and reports when a frame is ready in the PPU's frame buffer.

pub mod controller;
pub mod cpu;
pub mod mapper0;
pub mod opcode;
pub mod parser;
pub mod ppu;

pub use controller::NesController;
pub use cpu::{Cpu, DecodeError, MemoryDevice};
pub use mapper0::Mapper0;
pub use opcode::{read_instruction, Addressing, Instruction, Mode, OpCode};
pub use parser::{parse_rom, INesHeader, INesRom, Mirroring, RomError, TvSystem};
pub use ppu::{Ppu, Tick};
