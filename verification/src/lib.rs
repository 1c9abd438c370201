//! Cycle-level model of an 8-bit game-console chipset: register file,
//! instruction-execution engine, interrupt controller, memory bus with
//! cartridge bank switching, pixel pipeline and hardware timer.
//!
//! The crate holds the emulation core only; presenting frames in a window
//! and translating host input events into button state live outside it.

pub mod defs;
pub mod register;
pub mod timer;
pub mod util;
pub mod mapper;
pub mod rom;
pub mod joypad;
pub mod ppu;
pub mod mmc;
pub mod cpu;
pub mod rtc;
pub mod gameboy;
