//! Core of an 8-bit console emulator: a 6502-style CPU with its
//! addressing-mode resolver and instruction engine, the memory-mapped bus,
//! cartridge mappers, and the audio unit's channel and sequencer state
//! machines. The presentation layer (window, audio device, input) lives
//! outside this crate and drives it through the public stepping functions.

pub mod addr;
pub mod apu;
pub mod cpu;
pub mod inst;
pub mod mapper;
pub mod mem;
pub mod opcode;
