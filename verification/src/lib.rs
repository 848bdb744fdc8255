//! Core of a cycle-stepped emulator for an 8-bit handheld game console.
//!
//! The crate models the three tightly coupled pieces of such a machine:
//! the instruction execution engine ([`cpu::CPU`]), the address-space
//! router ([`mmu::MMU`]) and the cartridge with its memory-bank
//! controller ([`cartridge::Cartridge`]).  Every state transition is
//! specified against a mathematical view of the machine and proved with
//! Verus; loading a cartridge image, arithmetic flag computation, bank
//! resolution and interrupt dispatch all carry exact contracts.
//!
//! Presentation concerns (window, frame pacing, input) and the video,
//! timer and joypad peripherals are outside the core; the router talks
//! to them only through the uniform [`bus::Bus`] capability.

pub mod bits;
pub mod bus;
pub mod cartridge;
pub mod cpu;
pub mod mmu;
pub mod video;
