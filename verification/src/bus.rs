//! The bus capability: the uniform contract implemented by every
//! memory-mapped device (cartridge and, outside the core, the video,
//! timer and joypad peripherals).  The router reaches devices only
//! through these three operations.

use vstd::prelude::*;

verus! {

/// A memory-mapped device: it accepts byte writes, serves byte reads,
/// and advances its internal state by an elapsed-cycle count once per
/// processor step.
pub trait Bus {
    fn write(&mut self, addr: u16, val: u8);

    fn read(&self, addr: u16) -> u8;

    fn update(&mut self, tick: u8);
}

} // verus!
