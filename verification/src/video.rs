//! The router-facing side of the video peripheral.
//!
//! Pixel generation and video timing are outside the core; what the
//! core needs from the peripheral is plain storage behind the bus
//! contract (video RAM, object-attribute memory, the register window)
//! and the two one-shot interrupt lines it raises.  This port holds
//! exactly that.

use vstd::prelude::*;

verus! {

/// Mathematical model of the video port: its three byte regions and
/// the two pending interrupt lines.
#[verifier::ext_equal]
pub struct VideoView {
    pub vram: Seq<u8>,
    pub oam: Seq<u8>,
    pub regs: Seq<u8>,
    pub irq_vblank: bool,
    pub irq_lcdc: bool,
}

impl VideoView {
    /// Well-formedness: the three regions have their architectural
    /// sizes.
    pub open spec fn wf(self) -> bool {
        &&& self.vram.len() == 0x2000
        &&& self.oam.len() == 0xa0
        &&& self.regs.len() == 12
    }

    /// What a read of a video address returns; addresses outside the
    /// video windows read as open bus.
    pub open spec fn read(self, addr: u16) -> u8 {
        if 0x8000 <= addr < 0xa000 {
            self.vram[addr - 0x8000]
        } else if 0xfe00 <= addr < 0xfea0 {
            self.oam[addr - 0xfe00]
        } else if 0xff40 <= addr <= 0xff45 || 0xff47 <= addr <= 0xff4b {
            self.regs[addr - 0xff40]
        } else {
            0xffu8
        }
    }

    /// What a write to a video address does; addresses outside the
    /// video windows are ignored.
    pub open spec fn write(self, addr: u16, val: u8) -> VideoView {
        if 0x8000 <= addr < 0xa000 {
            VideoView { vram: self.vram.update(addr - 0x8000, val), ..self }
        } else if 0xfe00 <= addr < 0xfea0 {
            VideoView { oam: self.oam.update(addr - 0xfe00, val), ..self }
        } else if 0xff40 <= addr <= 0xff45 || 0xff47 <= addr <= 0xff4b {
            VideoView { regs: self.regs.update(addr - 0xff40, val), ..self }
        } else {
            self
        }
    }
}

/// Storage and interrupt lines of the video peripheral, as the address
/// router sees them.  The peripheral's own state machine (scanline
/// timing, pixel generation) lives outside the core and raises the
/// interrupt lines through [`VideoPort::request_vblank`] and
/// [`VideoPort::request_lcdc`].
pub struct VideoPort {
    pub vram: Vec<u8>,
    pub oam: Vec<u8>,
    pub regs: Vec<u8>,
    pub irq_vblank: bool,
    pub irq_lcdc: bool,
}

impl View for VideoPort {
    type V = VideoView;

    open spec fn view(&self) -> VideoView {
        VideoView {
            vram: self.vram@,
            oam: self.oam@,
            regs: self.regs@,
            irq_vblank: self.irq_vblank,
            irq_lcdc: self.irq_lcdc,
        }
    }
}

impl VideoPort {
    /// A video port at power-on: all regions zeroed, no interrupt
    /// pending.
    pub fn new() -> (v: VideoPort)
        ensures
            v@.wf(),
            v@.vram == Seq::new(0x2000, |i: int| 0u8),
            v@.oam == Seq::new(0xa0, |i: int| 0u8),
            v@.regs == Seq::new(12, |i: int| 0u8),
            !v@.irq_vblank,
            !v@.irq_lcdc,
    {
        VideoPort {
            vram: vec![0u8; 0x2000],
            oam: vec![0u8; 0xa0],
            regs: vec![0u8; 12],
            irq_vblank: false,
            irq_lcdc: false,
        }
    }

    /// Read a byte from one of the video windows.
    pub fn read(&self, addr: u16) -> (r: u8)
        requires
            self@.wf(),
        ensures
            r == self@.read(addr),
    {
        if 0x8000 <= addr && addr < 0xa000 {
            self.vram[(addr - 0x8000) as usize]
        } else if 0xfe00 <= addr && addr < 0xfea0 {
            self.oam[(addr - 0xfe00) as usize]
        } else if (0xff40 <= addr && addr <= 0xff45) || (0xff47 <= addr && addr <= 0xff4b) {
            self.regs[(addr - 0xff40) as usize]
        } else {
            0xff
        }
    }

    /// Write a byte to one of the video windows.
    pub fn write(&mut self, addr: u16, val: u8)
        requires
            old(self)@.wf(),
        ensures
            final(self)@ == old(self)@.write(addr, val),
            final(self)@.wf(),
    {
        if 0x8000 <= addr && addr < 0xa000 {
            self.vram.set((addr - 0x8000) as usize, val);
        } else if 0xfe00 <= addr && addr < 0xfea0 {
            self.oam.set((addr - 0xfe00) as usize, val);
        } else if (0xff40 <= addr && addr <= 0xff45) || (0xff47 <= addr && addr <= 0xff4b) {
            self.regs.set((addr - 0xff40) as usize, val);
        }
    }

    /// Advance the port by an elapsed-cycle count.  The port itself has
    /// no time-dependent state; the out-of-scope peripheral drives the
    /// interrupt lines.
    pub fn update(&mut self, _tick: u8)
        ensures
            *final(self) == *old(self),
    {
    }

    /// Raise the vertical-blank interrupt line.  Called by the
    /// out-of-scope video state machine; the router consumes and clears
    /// the line once per step.
    pub fn request_vblank(&mut self)
        ensures
            final(self)@ == (VideoView { irq_vblank: true, ..old(self)@ }),
    {
        self.irq_vblank = true;
    }

    /// Raise the controller-status interrupt line.
    pub fn request_lcdc(&mut self)
        ensures
            final(self)@ == (VideoView { irq_lcdc: true, ..old(self)@ }),
    {
        self.irq_lcdc = true;
    }
}

} // verus!
