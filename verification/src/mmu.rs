//! The address-space router (memory management unit).
//!
//! Owns general-purpose RAM, high RAM and the two shared interrupt
//! bytes; forwards every other mapped range to the device that owns it
//! (cartridge or video port); serves the echo mirror from the same
//! bytes as primary RAM; performs the object-attribute-memory transfer;
//! and, once per processor step, advances all devices and aggregates
//! their one-shot interrupt lines into the shared request byte.

use vstd::prelude::*;

use crate::cartridge::{CartView, Cartridge};
use crate::video::{VideoPort, VideoView};

verus! {

/// Mathematical model of the routed address space.
#[verifier::ext_equal]
pub struct MmuView {
    pub cartridge: CartView,
    pub ram: Seq<u8>,
    pub hram: Seq<u8>,
    pub video: VideoView,
    pub int_flag: u8,
    pub int_enable: u8,
}

impl MmuView {
    /// Well-formedness: the owned regions have their architectural
    /// sizes and the devices are well-formed.
    pub open spec fn wf(self) -> bool {
        &&& self.cartridge.wf()
        &&& self.ram.len() == 0x2000
        &&& self.hram.len() == 0x7f
        &&& self.video.wf()
    }

    /// What a read of an address returns, by the fixed range map.  The
    /// echo range reads the same bytes as primary RAM; unmapped
    /// addresses read as open bus.
    pub open spec fn read(self, addr: u16) -> u8 {
        if addr < 0x8000 {
            self.cartridge.read(addr)
        } else if addr < 0xa000 {
            self.video.read(addr)
        } else if addr < 0xc000 {
            self.cartridge.read(addr)
        } else if addr < 0xe000 {
            self.ram[addr - 0xc000]
        } else if addr < 0xfe00 {
            self.ram[addr - 0xe000]
        } else if addr < 0xfea0 {
            self.video.read(addr)
        } else if addr == 0xff0f {
            self.int_flag
        } else if 0xff40 <= addr <= 0xff45 || 0xff47 <= addr <= 0xff4b {
            self.video.read(addr)
        } else if 0xff80 <= addr <= 0xfffe {
            self.hram[addr - 0xff80]
        } else if addr == 0xffff {
            self.int_enable
        } else {
            0xffu8
        }
    }

    /// The object-attribute-memory transfer: the 0xa0 bytes starting at
    /// `src_hi * 0x100` copied into object-attribute memory.
    pub open spec fn oam_dma(self, src_hi: u8) -> MmuView {
        MmuView {
            video: VideoView {
                oam: Seq::new(0xa0, |i: int| self.read((src_hi * 0x100 + i) as u16)),
                ..self.video
            },
            ..self
        }
    }

    /// What a write to an address does, by the fixed range map.  A
    /// write into the echo range lands in the same bytes as primary
    /// RAM; a write to the transfer register with an in-range source
    /// performs the object-attribute-memory copy; unmapped addresses
    /// ignore the write.
    pub open spec fn write(self, addr: u16, val: u8) -> MmuView {
        if addr < 0x8000 {
            MmuView { cartridge: self.cartridge.write(addr, val), ..self }
        } else if addr < 0xa000 {
            MmuView { video: self.video.write(addr, val), ..self }
        } else if addr < 0xc000 {
            MmuView { cartridge: self.cartridge.write(addr, val), ..self }
        } else if addr < 0xe000 {
            MmuView { ram: self.ram.update(addr - 0xc000, val), ..self }
        } else if addr < 0xfe00 {
            MmuView { ram: self.ram.update(addr - 0xe000, val), ..self }
        } else if addr < 0xfea0 {
            MmuView { video: self.video.write(addr, val), ..self }
        } else if addr == 0xff0f {
            MmuView { int_flag: val, ..self }
        } else if addr == 0xff46 {
            if val <= 0xdf {
                self.oam_dma(val)
            } else {
                self
            }
        } else if 0xff40 <= addr <= 0xff45 || 0xff47 <= addr <= 0xff4b {
            MmuView { video: self.video.write(addr, val), ..self }
        } else if 0xff80 <= addr <= 0xfffe {
            MmuView { hram: self.hram.update(addr - 0xff80, val), ..self }
        } else if addr == 0xffff {
            MmuView { int_enable: val, ..self }
        } else {
            self
        }
    }

    /// One router update: every device advances, then each pending
    /// one-shot interrupt line is folded into the shared request byte
    /// and cleared at its source.
    pub open spec fn update(self) -> MmuView {
        let f1: u8 = if self.video.irq_vblank {
            self.int_flag | 0x01
        } else {
            self.int_flag
        };
        let f2: u8 = if self.video.irq_lcdc {
            f1 | 0x02
        } else {
            f1
        };
        MmuView {
            int_flag: f2,
            video: VideoView { irq_vblank: false, irq_lcdc: false, ..self.video },
            ..self
        }
    }
}

/// The address-space router: owner of general RAM, high RAM and the
/// shared interrupt bytes, and the single path from the processor to
/// every device.
pub struct MMU {
    pub cartridge: Cartridge,
    pub ram: Vec<u8>,
    pub hram: Vec<u8>,
    pub video: VideoPort,
    /// Interrupt request byte: one bit per pending interrupt source.
    pub int_flag: u8,
    /// Interrupt enable byte: the software-writable mask.
    pub int_enable: u8,
}

impl View for MMU {
    type V = MmuView;

    open spec fn view(&self) -> MmuView {
        MmuView {
            cartridge: self.cartridge@,
            ram: self.ram@,
            hram: self.hram@,
            video: self.video@,
            int_flag: self.int_flag,
            int_enable: self.int_enable,
        }
    }
}

impl MMU {
    /// A router at power-on around a loaded cartridge: RAM regions
    /// zeroed, no interrupt requested, none enabled.
    pub fn new(cartridge: Cartridge) -> (m: MMU)
        ensures
            m@.cartridge == cartridge@,
            m@.ram == Seq::new(0x2000, |i: int| 0u8),
            m@.hram == Seq::new(0x7f, |i: int| 0u8),
            m@.video.vram == Seq::new(0x2000, |i: int| 0u8),
            m@.video.oam == Seq::new(0xa0, |i: int| 0u8),
            m@.video.regs == Seq::new(12, |i: int| 0u8),
            !m@.video.irq_vblank && !m@.video.irq_lcdc,
            m@.int_flag == 0 && m@.int_enable == 0,
            cartridge@.wf() ==> m@.wf(),
    {
        MMU {
            cartridge: cartridge,
            ram: vec![0u8; 0x2000],
            hram: vec![0u8; 0x7f],
            video: VideoPort::new(),
            int_flag: 0,
            int_enable: 0,
        }
    }

    /// Read the byte an address resolves to.
    pub fn read(&self, addr: u16) -> (r: u8)
        requires
            self@.wf(),
        ensures
            r == self@.read(addr),
    {
        if addr < 0x8000 {
            self.cartridge.read(addr)
        } else if addr < 0xa000 {
            self.video.read(addr)
        } else if addr < 0xc000 {
            self.cartridge.read(addr)
        } else if addr < 0xe000 {
            self.ram[(addr - 0xc000) as usize]
        } else if addr < 0xfe00 {
            self.ram[(addr - 0xe000) as usize]
        } else if addr < 0xfea0 {
            self.video.read(addr)
        } else if addr == 0xff0f {
            self.int_flag
        } else if (0xff40 <= addr && addr <= 0xff45) || (0xff47 <= addr && addr <= 0xff4b) {
            self.video.read(addr)
        } else if 0xff80 <= addr && addr <= 0xfffe {
            self.hram[(addr - 0xff80) as usize]
        } else if addr == 0xffff {
            self.int_enable
        } else {
            0xff
        }
    }

    /// Perform the object-attribute-memory transfer from source page
    /// `src_hi`.  An out-of-range source is a configuration defect, so
    /// it is excluded here; the router's write path refuses to launch
    /// such a transfer.
    pub fn oam_dma(&mut self, src_hi: u8)
        requires
            old(self)@.wf(),
            src_hi <= 0xdf,
        ensures
            final(self)@ == old(self)@.oam_dma(src_hi),
            final(self)@.wf(),
    {
        let src: u16 = (src_hi as u16) * 0x100;
        let mut i: usize = 0;
        while i < 0xa0
            invariant
                i <= 0xa0,
                src == src_hi * 0x100,
                src_hi <= 0xdf,
                self@.wf(),
                self@ == (MmuView {
                    video: VideoView {
                        oam: Seq::new(0xa0, |k: int|
                            if k < i {
                                old(self)@.read((src_hi * 0x100 + k) as u16)
                            } else {
                                old(self)@.video.oam[k]
                            }),
                        ..old(self)@.video
                    },
                    ..old(self)@
                }),
            decreases 0xa0 - i,
        {
            let b = self.read(src + i as u16);
            proof {
                assert(self@.read((src + i) as u16) == old(self)@.read((src_hi * 0x100 + i) as u16));
            }
            self.video.oam.set(i, b);
            i = i + 1;
            proof {
                assert(self@.video.oam =~= Seq::new(0xa0, |k: int|
                    if k < i {
                        old(self)@.read((src_hi * 0x100 + k) as u16)
                    } else {
                        old(self)@.video.oam[k]
                    }));
            }
        }
        proof {
            assert(self@ =~~= old(self)@.oam_dma(src_hi));
        }
    }

    /// Route a byte write to the device that owns the address.
    pub fn write(&mut self, addr: u16, val: u8)
        requires
            old(self)@.wf(),
        ensures
            final(self)@ == old(self)@.write(addr, val),
            final(self)@.wf(),
    {
        if addr < 0x8000 {
            self.cartridge.write(addr, val);
        } else if addr < 0xa000 {
            self.video.write(addr, val);
        } else if addr < 0xc000 {
            self.cartridge.write(addr, val);
        } else if addr < 0xe000 {
            self.ram.set((addr - 0xc000) as usize, val);
        } else if addr < 0xfe00 {
            self.ram.set((addr - 0xe000) as usize, val);
        } else if addr < 0xfea0 {
            self.video.write(addr, val);
        } else if addr == 0xff0f {
            self.int_flag = val;
        } else if addr == 0xff46 {
            if val <= 0xdf {
                self.oam_dma(val);
            }
        } else if (0xff40 <= addr && addr <= 0xff45) || (0xff47 <= addr && addr <= 0xff4b) {
            self.video.write(addr, val);
        } else if 0xff80 <= addr && addr <= 0xfffe {
            self.hram.set((addr - 0xff80) as usize, val);
        } else if addr == 0xffff {
            self.int_enable = val;
        }
    }

    /// Advance every device by the elapsed cycles, then pull each
    /// device's one-shot interrupt line into the shared request byte,
    /// clearing the line.
    pub fn update(&mut self, cycle: u8)
        requires
            old(self)@.wf(),
        ensures
            final(self)@ == old(self)@.update(),
            final(self)@.wf(),
    {
        self.cartridge.update(cycle);
        self.video.update(cycle);

        if self.video.irq_vblank {
            self.int_flag = self.int_flag | 0x01;
            self.video.irq_vblank = false;
        }

        if self.video.irq_lcdc {
            self.int_flag = self.int_flag | 0x02;
            self.video.irq_lcdc = false;
        }
        proof {
            assert(self@ =~~= old(self)@.update());
        }
    }
}

/// The hardware gap in bank numbering, seen through the router: in
/// ROM-banking mode, writing 0x00 into the low bank field and 0x01
/// into the high field requests bank 0x20, which remaps to 0x21
/// before masking — every read of the upper ROM window then serves
/// physical bank 0x21 reduced by the image's actual bank count.
pub proof fn lemma_bank_remap_through_router(m: MmuView, addr: u16)
    requires
        m.wf(),
        !m.cartridge.mode,
        0x4000 <= addr <= 0x7fff,
    ensures
        ({
            let m2 = m.write(0x2000, 0x00).write(0x4000, 0x01);
            m2.read(addr) == m.cartridge.rom[(0x21int % m.cartridge.rom_bank_count()) * 0x4000 + (
            addr - 0x4000)]
        }),
{
    crate::bits::lemma_u8_low_masks();
}

/// Echo round trip: the echo range and primary RAM alias the same
/// bytes, so a write at `0xe000 + k` reads back at `0xc000 + k`, and
/// the other way round, for every offset `k` the echo range covers.
pub proof fn lemma_echo_ram_round_trip(m: MmuView, k: u16, val: u8)
    requires
        m.wf(),
        k <= 0x1dff,
    ensures
        m.write((0xe000 + k) as u16, val).read((0xc000 + k) as u16) == val,
        m.write((0xc000 + k) as u16, val).read((0xe000 + k) as u16) == val,
{
}

} // verus!
