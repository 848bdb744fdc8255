//! The instruction execution engine.
//!
//! One [`CPU::step`] fetches, decodes and executes a single
//! instruction, advances every device by the cycles it consumed, and
//! then services at most one pending interrupt.  Every instruction's
//! effect on the machine is given by a specification function on
//! [`CpuView`], and every handler is proved to implement its
//! specification exactly: flag semantics, cycle accounting and memory
//! routing included.
//!
//! Cycle accounting: every memory byte read or written costs four
//! cycles (the opcode fetch included); pure register transforms cost
//! nothing further; jumps, calls, returns, stack pushes and the
//! 16-bit additions add one four-cycle synchronization quantum
//! (loads of the stack pointer family add two); an interrupt dispatch
//! costs twenty cycles in all.
//!
//! Unassigned opcode encodings are one-byte no-effect instructions:
//! steady-state emulation never stops on an architecturally possible
//! byte, only loading can fail.

use vstd::prelude::*;

use crate::bits::flags_byte;
use crate::bits::lemma_flags_byte;
use crate::cartridge::Cartridge;
use crate::mmu::{MMU, MmuView};

verus! {

broadcast use lemma_flags_byte;

/// A flags byte with a zero low nibble is exactly the packed form of
/// the four bits read out of it, whichever way one flag is rewritten.
proof fn lemma_flag_update(f: u8, v: bool)
    by (bit_vector)
    requires
        f & 0x0f == 0,
    ensures
        (if v {
            f | 0x80
        } else {
            f & 0x7f
        }) == flags_byte(v, (f >> 6) & 1 == 1, (f >> 5) & 1 == 1, (f >> 4) & 1 == 1),
        (if v {
            f | 0x40
        } else {
            f & 0xbf
        }) == flags_byte((f >> 7) & 1 == 1, v, (f >> 5) & 1 == 1, (f >> 4) & 1 == 1),
        (if v {
            f | 0x20
        } else {
            f & 0xdf
        }) == flags_byte((f >> 7) & 1 == 1, (f >> 6) & 1 == 1, v, (f >> 4) & 1 == 1),
        (if v {
            f | 0x10
        } else {
            f & 0xef
        }) == flags_byte((f >> 7) & 1 == 1, (f >> 6) & 1 == 1, (f >> 5) & 1 == 1, v),
{
}

/// Mathematical model of the processor: the register file, the two
/// pointer registers, the interrupt master switch, the halt latch, the
/// per-step cycle accumulator, and the routed address space.
#[verifier::ext_equal]
pub struct CpuView {
    pub a: u8,
    pub f: u8,
    pub b: u8,
    pub c: u8,
    pub d: u8,
    pub e: u8,
    pub h: u8,
    pub l: u8,
    pub pc: u16,
    pub sp: u16,
    pub ime: bool,
    pub cycle: u8,
    pub halted: bool,
    pub mmu: MmuView,
}

impl CpuView {
    /// Well-formedness: the low nibble of the flags register is zero
    /// and the address space is well-formed.
    pub open spec fn wf(self) -> bool {
        &&& self.f & 0x0f == 0
        &&& self.mmu.wf()
    }

    /// The zero flag: bit 7 of the flags register.
    pub open spec fn f_z(self) -> bool {
        (self.f >> 7) & 1 == 1
    }

    /// The subtract flag: bit 6 of the flags register.
    pub open spec fn f_n(self) -> bool {
        (self.f >> 6) & 1 == 1
    }

    /// The half-carry flag: bit 5 of the flags register.
    pub open spec fn f_h(self) -> bool {
        (self.f >> 5) & 1 == 1
    }

    /// The carry flag: bit 4 of the flags register.
    pub open spec fn f_c(self) -> bool {
        (self.f >> 4) & 1 == 1
    }

    /// The state with the four flags rewritten.
    pub open spec fn with_flags(self, z: bool, n: bool, h: bool, c: bool) -> CpuView {
        CpuView { f: flags_byte(z, n, h, c), ..self }
    }

    /// The accumulator-and-flags pair.
    pub open spec fn af(self) -> u16 {
        ((self.a as u16) << 8 | self.f as u16) as u16
    }

    /// The BC pair.
    pub open spec fn bc(self) -> u16 {
        ((self.b as u16) << 8 | self.c as u16) as u16
    }

    /// The DE pair.
    pub open spec fn de(self) -> u16 {
        ((self.d as u16) << 8 | self.e as u16) as u16
    }

    /// The HL pair.
    pub open spec fn hl(self) -> u16 {
        ((self.h as u16) << 8 | self.l as u16) as u16
    }

    /// The state with the cycle accumulator advanced by `n`.
    pub open spec fn plus_cycles(self, n: u8) -> CpuView {
        CpuView { cycle: self.cycle.wrapping_add(n), ..self }
    }

    /// One memory byte read: the routed byte, and four cycles.
    pub open spec fn read_mem8(self, addr: u16) -> (u8, CpuView) {
        (self.mmu.read(addr), self.plus_cycles(4))
    }

    /// One memory byte write through the router, at four cycles.
    pub open spec fn write_mem8(self, addr: u16, val: u8) -> CpuView {
        CpuView { mmu: self.mmu.write(addr, val), ..self }.plus_cycles(4)
    }

    /// A 16-bit memory read: two byte reads back-to-back, low byte
    /// first.
    pub open spec fn read_mem16(self, addr: u16) -> (u16, CpuView) {
        let lo = self.mmu.read(addr);
        let hi = self.mmu.read(addr.wrapping_add(1));
        ((((hi as u16) << 8) | lo as u16) as u16, self.plus_cycles(4).plus_cycles(4))
    }

    /// A 16-bit memory write: two byte writes back-to-back, low byte
    /// first.
    pub open spec fn write_mem16(self, addr: u16, val: u16) -> CpuView {
        self.write_mem8(addr, (val & 0xff) as u8).write_mem8(
            addr.wrapping_add(1),
            (val >> 8) as u8,
        )
    }

    /// Fetch of the 8-bit immediate at the program counter.
    pub open spec fn read_d8(self) -> (u8, CpuView) {
        let (imm, s) = self.read_mem8(self.pc);
        (imm, CpuView { pc: s.pc.wrapping_add(1), ..s })
    }

    /// Fetch of the 16-bit immediate at the program counter.
    pub open spec fn read_d16(self) -> (u16, CpuView) {
        let (imm, s) = self.read_mem16(self.pc);
        (imm, CpuView { pc: s.pc.wrapping_add(2), ..s })
    }

    /// The 8-bit operand for a three-bit register index: index 6 goes
    /// through memory at HL (and costs a read), the rest are registers.
    pub open spec fn read_r8(self, idx: u8) -> (u8, CpuView) {
        if idx == 0 {
            (self.b, self)
        } else if idx == 1 {
            (self.c, self)
        } else if idx == 2 {
            (self.d, self)
        } else if idx == 3 {
            (self.e, self)
        } else if idx == 4 {
            (self.h, self)
        } else if idx == 5 {
            (self.l, self)
        } else if idx == 6 {
            self.read_mem8(self.hl())
        } else {
            (self.a, self)
        }
    }

    /// Writing the 8-bit operand for a three-bit register index.
    pub open spec fn write_r8(self, idx: u8, val: u8) -> CpuView {
        if idx == 0 {
            CpuView { b: val, ..self }
        } else if idx == 1 {
            CpuView { c: val, ..self }
        } else if idx == 2 {
            CpuView { d: val, ..self }
        } else if idx == 3 {
            CpuView { e: val, ..self }
        } else if idx == 4 {
            CpuView { h: val, ..self }
        } else if idx == 5 {
            CpuView { l: val, ..self }
        } else if idx == 6 {
            self.write_mem8(self.hl(), val)
        } else {
            CpuView { a: val, ..self }
        }
    }

    /// The 16-bit register pair for a two-bit index: BC, DE, HL, SP.
    pub open spec fn read_r16(self, idx: u8) -> u16 {
        if idx == 0 {
            self.bc()
        } else if idx == 1 {
            self.de()
        } else if idx == 2 {
            self.hl()
        } else {
            self.sp
        }
    }

    /// Writing the 16-bit register pair for a two-bit index.
    pub open spec fn write_r16(self, idx: u8, val: u16) -> CpuView {
        if idx == 0 {
            CpuView { b: (val >> 8 & 0xff) as u8, c: (val & 0xff) as u8, ..self }
        } else if idx == 1 {
            CpuView { d: (val >> 8 & 0xff) as u8, e: (val & 0xff) as u8, ..self }
        } else if idx == 2 {
            CpuView { h: (val >> 8 & 0xff) as u8, l: (val & 0xff) as u8, ..self }
        } else {
            CpuView { sp: val, ..self }
        }
    }

    /// The branch condition for a two-bit condition index: not-zero,
    /// zero, not-carry, carry.
    pub open spec fn cc(self, idx: u8) -> bool {
        if idx == 0 {
            !self.f_z()
        } else if idx == 1 {
            self.f_z()
        } else if idx == 2 {
            !self.f_c()
        } else {
            self.f_c()
        }
    }
}

/// The processor core: owns the register file, program counter, stack
/// pointer and interrupt master switch, and drives the address-space
/// router.
pub struct CPU {
    pub mmu: MMU,
    pc: u16,
    sp: u16,
    a: u8,
    f: u8,
    b: u8,
    c: u8,
    d: u8,
    e: u8,
    h: u8,
    l: u8,
    ime: bool,
    cycle: u8,
    halted: bool,
}

impl View for CPU {
    type V = CpuView;

    closed spec fn view(&self) -> CpuView {
        CpuView {
            a: self.a,
            f: self.f,
            b: self.b,
            c: self.c,
            d: self.d,
            e: self.e,
            h: self.h,
            l: self.l,
            pc: self.pc,
            sp: self.sp,
            ime: self.ime,
            cycle: self.cycle,
            halted: self.halted,
            mmu: self.mmu@,
        }
    }
}

impl CPU {
    /// A processor at power-on around a loaded cartridge: the program
    /// counter at the reset vector, every other register zero, the
    /// interrupt master switch off, not halted, and the whole address
    /// space in the router's power-on state: RAM regions zeroed, the
    /// video port zeroed with both interrupt lines quiet.
    pub fn new(cartridge: Cartridge) -> (cpu: CPU)
        ensures
            cpu@.a == 0 && cpu@.f == 0 && cpu@.b == 0 && cpu@.c == 0,
            cpu@.d == 0 && cpu@.e == 0 && cpu@.h == 0 && cpu@.l == 0,
            cpu@.pc == 0x100 && cpu@.sp == 0,
            !cpu@.ime && !cpu@.halted && cpu@.cycle == 0,
            cpu@.mmu.cartridge == cartridge@,
            cpu@.mmu.int_flag == 0 && cpu@.mmu.int_enable == 0,
            cpu@.mmu.ram == Seq::new(0x2000, |i: int| 0u8),
            cpu@.mmu.hram == Seq::new(0x7f, |i: int| 0u8),
            cpu@.mmu.video.vram == Seq::new(0x2000, |i: int| 0u8),
            cpu@.mmu.video.oam == Seq::new(0xa0, |i: int| 0u8),
            cpu@.mmu.video.regs == Seq::new(12, |i: int| 0u8),
            !cpu@.mmu.video.irq_vblank && !cpu@.mmu.video.irq_lcdc,
            cartridge@.wf() ==> cpu@.wf(),
    {
        proof {
            crate::bits::lemma_u8_low_masks();
        }
        CPU {
            mmu: MMU::new(cartridge),
            pc: 0x100,
            sp: 0,
            a: 0,
            f: 0,
            b: 0,
            c: 0,
            d: 0,
            e: 0,
            h: 0,
            l: 0,
            ime: false,
            cycle: 0,
            halted: false,
        }
    }

    /// The program counter.
    pub fn pc(&self) -> (r: u16)
        ensures
            r == self@.pc,
    {
        self.pc
    }

    /// The stack pointer.
    pub fn sp(&self) -> (r: u16)
        ensures
            r == self@.sp,
    {
        self.sp
    }

    /// The interrupt master switch.
    pub fn ime(&self) -> (r: bool)
        ensures
            r == self@.ime,
    {
        self.ime
    }

    /// The halt latch.
    pub fn halted(&self) -> (r: bool)
        ensures
            r == self@.halted,
    {
        self.halted
    }

    /// The accumulator-and-flags pair.
    pub fn af(&self) -> (r: u16)
        ensures
            r == self@.af(),
    {
        (self.a as u16) << 8 | self.f as u16
    }

    /// Set the accumulator-and-flags pair; only the four meaningful
    /// bits of the flags register take, its low nibble stays zero.
    pub fn set_af(&mut self, val: u16)
        ensures
            final(self)@ == (CpuView {
                a: (val >> 8 & 0xff) as u8,
                f: (val & 0xf0) as u8,
                ..old(self)@
            }),
            old(self)@.wf() ==> final(self)@.wf(),
    {
        proof {
            lemma_low_nibble_masked(val);
        }
        self.a = (val >> 8 & 0xff) as u8;
        self.f = (val & 0xf0) as u8;
    }

    /// The BC pair.
    pub fn bc(&self) -> (r: u16)
        ensures
            r == self@.bc(),
    {
        (self.b as u16) << 8 | self.c as u16
    }

    /// Set the BC pair.
    pub fn set_bc(&mut self, val: u16)
        ensures
            final(self)@ == old(self)@.write_r16(0, val),
            old(self)@.wf() ==> final(self)@.wf(),
    {
        self.b = (val >> 8 & 0xff) as u8;
        self.c = (val & 0xff) as u8;
    }

    /// The DE pair.
    pub fn de(&self) -> (r: u16)
        ensures
            r == self@.de(),
    {
        (self.d as u16) << 8 | self.e as u16
    }

    /// Set the DE pair.
    pub fn set_de(&mut self, val: u16)
        ensures
            final(self)@ == old(self)@.write_r16(1, val),
            old(self)@.wf() ==> final(self)@.wf(),
    {
        self.d = (val >> 8 & 0xff) as u8;
        self.e = (val & 0xff) as u8;
    }

    /// The HL pair.
    pub fn hl(&self) -> (r: u16)
        ensures
            r == self@.hl(),
    {
        (self.h as u16) << 8 | self.l as u16
    }

    /// Set the HL pair.
    pub fn set_hl(&mut self, val: u16)
        ensures
            final(self)@ == old(self)@.write_r16(2, val),
            old(self)@.wf() ==> final(self)@.wf(),
    {
        self.h = (val >> 8 & 0xff) as u8;
        self.l = (val & 0xff) as u8;
    }

    /// Set the zero flag.
    pub fn set_f_z(&mut self, z: bool)
        requires
            old(self)@.f & 0x0f == 0,
        ensures
            final(self)@ == old(self)@.with_flags(z, old(self)@.f_n(), old(self)@.f_h(), old(self)@.f_c()),
    {
        proof {
            lemma_flag_update(self.f, z);
        }
        self.f = if z {
            self.f | 0x80
        } else {
            self.f & 0x7f
        };
    }

    /// The zero flag.
    pub fn f_z(&self) -> (r: bool)
        ensures
            r == self@.f_z(),
    {
        (self.f >> 7) & 1 == 1
    }

    /// Set the subtract flag.
    pub fn set_f_n(&mut self, n: bool)
        requires
            old(self)@.f & 0x0f == 0,
        ensures
            final(self)@ == old(self)@.with_flags(old(self)@.f_z(), n, old(self)@.f_h(), old(self)@.f_c()),
    {
        proof {
            lemma_flag_update(self.f, n);
        }
        self.f = if n {
            self.f | 0x40
        } else {
            self.f & 0xbf
        };
    }

    /// The subtract flag.
    pub fn f_n(&self) -> (r: bool)
        ensures
            r == self@.f_n(),
    {
        (self.f >> 6) & 1 == 1
    }

    /// Set the half-carry flag.
    pub fn set_f_h(&mut self, h: bool)
        requires
            old(self)@.f & 0x0f == 0,
        ensures
            final(self)@ == old(self)@.with_flags(old(self)@.f_z(), old(self)@.f_n(), h, old(self)@.f_c()),
    {
        proof {
            lemma_flag_update(self.f, h);
        }
        self.f = if h {
            self.f | 0x20
        } else {
            self.f & 0xdf
        };
    }

    /// The half-carry flag.
    pub fn f_h(&self) -> (r: bool)
        ensures
            r == self@.f_h(),
    {
        (self.f >> 5) & 1 == 1
    }

    /// Set the carry flag.
    pub fn set_f_c(&mut self, c: bool)
        requires
            old(self)@.f & 0x0f == 0,
        ensures
            final(self)@ == old(self)@.with_flags(old(self)@.f_z(), old(self)@.f_n(), old(self)@.f_h(), c),
    {
        proof {
            lemma_flag_update(self.f, c);
        }
        self.f = if c {
            self.f | 0x10
        } else {
            self.f & 0xef
        };
    }

    /// The carry flag.
    pub fn f_c(&self) -> (r: bool)
        ensures
            r == self@.f_c(),
    {
        (self.f >> 4) & 1 == 1
    }

    /// Write one memory byte through the router, at four cycles.
    pub fn write_mem8(&mut self, addr: u16, val: u8)
        requires
            old(self)@.wf(),
        ensures
            final(self)@ == old(self)@.write_mem8(addr, val),
            final(self)@.wf(),
    {
        self.mmu.write(addr, val);
        self.cycle = self.cycle.wrapping_add(4);
    }

    /// Read one memory byte through the router, at four cycles.
    pub fn read_mem8(&mut self, addr: u16) -> (r: u8)
        requires
            old(self)@.wf(),
        ensures
            (r, final(self)@) == old(self)@.read_mem8(addr),
            final(self)@.wf(),
    {
        let ret = self.mmu.read(addr);
        self.cycle = self.cycle.wrapping_add(4);
        ret
    }

    /// Write a 16-bit value: two byte writes, low byte first.
    pub fn write_mem16(&mut self, addr: u16, val: u16)
        requires
            old(self)@.wf(),
        ensures
            final(self)@ == old(self)@.write_mem16(addr, val),
            final(self)@.wf(),
    {
        self.write_mem8(addr, (val & 0xff) as u8);
        self.write_mem8(addr.wrapping_add(1), (val >> 8) as u8);
    }

    /// Read a 16-bit value: two byte reads, low byte first.
    pub fn read_mem16(&mut self, addr: u16) -> (r: u16)
        requires
            old(self)@.wf(),
        ensures
            (r, final(self)@) == old(self)@.read_mem16(addr),
            final(self)@.wf(),
    {
        let lo = self.read_mem8(addr);
        let hi = self.read_mem8(addr.wrapping_add(1));
        (hi as u16) << 8 | lo as u16
    }

    /// Fetch the 8-bit immediate operand at the program counter.
    pub fn read_d8(&mut self) -> (r: u8)
        requires
            old(self)@.wf(),
        ensures
            (r, final(self)@) == old(self)@.read_d8(),
            final(self)@.wf(),
    {
        let pc = self.pc;
        let imm = self.read_mem8(pc);
        self.pc = self.pc.wrapping_add(1);
        imm
    }

    /// Fetch the 16-bit immediate operand at the program counter.
    pub fn read_d16(&mut self) -> (r: u16)
        requires
            old(self)@.wf(),
        ensures
            (r, final(self)@) == old(self)@.read_d16(),
            final(self)@.wf(),
    {
        let pc = self.pc;
        let imm = self.read_mem16(pc);
        self.pc = self.pc.wrapping_add(2);
        imm
    }

    /// Read the 8-bit operand for a three-bit register index; index 6
    /// reads memory at HL.  An index outside the range is a decode
    /// defect, excluded by precondition and proved absent at every
    /// dispatch site.
    pub fn read_r8(&mut self, idx: u8) -> (r: u8)
        requires
            old(self)@.wf(),
            idx < 8,
        ensures
            (r, final(self)@) == old(self)@.read_r8(idx),
            final(self)@.wf(),
    {
        match idx {
            0 => self.b,
            1 => self.c,
            2 => self.d,
            3 => self.e,
            4 => self.h,
            5 => self.l,
            6 => {
                let hl = self.hl();
                self.read_mem8(hl)
            },
            _ => self.a,
        }
    }

    /// Write the 8-bit operand for a three-bit register index; index 6
    /// writes memory at HL.
    pub fn write_r8(&mut self, idx: u8, val: u8)
        requires
            old(self)@.wf(),
            idx < 8,
        ensures
            final(self)@ == old(self)@.write_r8(idx, val),
            final(self)@.wf(),
    {
        match idx {
            0 => self.b = val,
            1 => self.c = val,
            2 => self.d = val,
            3 => self.e = val,
            4 => self.h = val,
            5 => self.l = val,
            6 => {
                let hl = self.hl();
                self.write_mem8(hl, val);
            },
            _ => self.a = val,
        }
    }

    /// Read the 16-bit register pair for a two-bit index.
    pub fn read_r16(&mut self, idx: u8) -> (r: u16)
        requires
            idx < 4,
        ensures
            r == old(self)@.read_r16(idx),
            *final(self) == *old(self),
    {
        match idx {
            0 => self.bc(),
            1 => self.de(),
            2 => self.hl(),
            _ => self.sp,
        }
    }

    /// Write the 16-bit register pair for a two-bit index.
    pub fn write_r16(&mut self, idx: u8, val: u16)
        requires
            idx < 4,
        ensures
            final(self)@ == old(self)@.write_r16(idx, val),
            old(self)@.wf() ==> final(self)@.wf(),
    {
        match idx {
            0 => self.set_bc(val),
            1 => self.set_de(val),
            2 => self.set_hl(val),
            _ => self.sp = val,
        }
    }

    /// The branch condition for a two-bit condition index.
    pub fn cc(&self, idx: u8) -> (r: bool)
        requires
            idx < 4,
        ensures
            r == self@.cc(idx),
    {
        match idx {
            0 => !self.f_z(),
            1 => self.f_z(),
            2 => !self.f_c(),
            _ => self.f_c(),
        }
    }
}

/// Masking a 16-bit value to the high flag nibble leaves a byte with a
/// zero low nibble.
proof fn lemma_low_nibble_masked(val: u16)
    by (bit_vector)
    ensures
        ((val & 0xf0) as u8) & 0x0f == 0,
{
}

impl CpuView {
    /// 8-bit addition into the accumulator: zero from the result byte,
    /// subtract cleared, half-carry out of bit 3, carry out of bit 7.
    pub open spec fn alu_add(self, val: u8) -> CpuView {
        let res = self.a.wrapping_add(val);
        CpuView {
            a: res,
            f: flags_byte(
                res == 0,
                false,
                (self.a & 0xf) + (val & 0xf) > 0xf,
                self.a + val > 0xff,
            ),
            ..self
        }
    }

    /// 8-bit carry-chained addition: the incoming carry joins both the
    /// half-carry and the carry terms.
    pub open spec fn alu_adc(self, val: u8) -> CpuView {
        let cin: u8 = if self.f_c() {
            1
        } else {
            0
        };
        let res = self.a.wrapping_add(val).wrapping_add(cin);
        CpuView {
            a: res,
            f: flags_byte(
                res == 0,
                false,
                (self.a & 0xf) + (val & 0xf) + cin > 0xf,
                self.a + val + cin > 0xff,
            ),
            ..self
        }
    }

    /// 8-bit subtraction from the accumulator: zero from the result
    /// byte, subtract set, half-carry when the low nibble borrows,
    /// carry when the whole byte borrows.
    pub open spec fn alu_sub(self, val: u8) -> CpuView {
        let res = self.a.wrapping_sub(val);
        CpuView {
            a: res,
            f: flags_byte(res == 0, true, (self.a & 0xf) < (val & 0xf), self.a < val),
            ..self
        }
    }

    /// 8-bit carry-chained subtraction: the incoming carry joins both
    /// borrow terms.
    pub open spec fn alu_sbc(self, val: u8) -> CpuView {
        let cin: u8 = if self.f_c() {
            1
        } else {
            0
        };
        let res = self.a.wrapping_sub(val).wrapping_sub(cin);
        CpuView {
            a: res,
            f: flags_byte(
                res == 0,
                true,
                (self.a & 0xf) < (val & 0xf) + cin,
                (self.a as int) < val + cin,
            ),
            ..self
        }
    }

    /// Bitwise AND into the accumulator; half-carry is forced on.
    pub open spec fn alu_and(self, val: u8) -> CpuView {
        let res = self.a & val;
        CpuView { a: res, f: flags_byte(res == 0, false, true, false), ..self }
    }

    /// Bitwise OR into the accumulator.
    pub open spec fn alu_or(self, val: u8) -> CpuView {
        let res = self.a | val;
        CpuView { a: res, f: flags_byte(res == 0, false, false, false), ..self }
    }

    /// Bitwise XOR into the accumulator.
    pub open spec fn alu_xor(self, val: u8) -> CpuView {
        let res = self.a ^ val;
        CpuView { a: res, f: flags_byte(res == 0, false, false, false), ..self }
    }

    /// Compare: the flags of a subtraction, accumulator kept.
    pub open spec fn alu_cp(self, val: u8) -> CpuView {
        CpuView {
            f: flags_byte(self.a == val, true, (self.a & 0x0f) < (val & 0x0f), self.a < val),
            ..self
        }
    }

    /// Decimal adjust: a +0x60/+0x06 (or -0x60/-0x06) correction chosen
    /// from the subtract flag and from the carry/half-carry flags (or
    /// direct byte/nibble thresholds when not coming from a subtract);
    /// zero is recomputed, half-carry always cleared, carry latched on
    /// when the high correction applies after an addition.
    pub open spec fn op_daa(self) -> CpuView {
        if !self.f_n() {
            let hi = self.f_c() || self.a > 0x99;
            let a1 = if hi {
                self.a.wrapping_add(0x60)
            } else {
                self.a
            };
            let c1 = hi || self.f_c();
            let a2 = if self.f_h() || (a1 & 0x0f) > 0x09 {
                a1.wrapping_add(0x06)
            } else {
                a1
            };
            CpuView { a: a2, f: flags_byte(a2 == 0, self.f_n(), false, c1), ..self }
        } else {
            let a1 = if self.f_c() {
                self.a.wrapping_sub(0x60)
            } else {
                self.a
            };
            let a2 = if self.f_h() {
                a1.wrapping_sub(0x06)
            } else {
                a1
            };
            CpuView { a: a2, f: flags_byte(a2 == 0, self.f_n(), false, self.f_c()), ..self }
        }
    }

    /// Complement of the accumulator: subtract and half-carry set.
    pub open spec fn op_cpl(self) -> CpuView {
        CpuView {
            a: !self.a,
            f: flags_byte(self.f_z(), true, true, self.f_c()),
            ..self
        }
    }

    /// Complement of the carry flag; subtract and half-carry cleared.
    pub open spec fn op_ccf(self) -> CpuView {
        self.with_flags(self.f_z(), false, false, !self.f_c())
    }

    /// Set the carry flag; subtract and half-carry cleared.
    pub open spec fn op_scf(self) -> CpuView {
        self.with_flags(self.f_z(), false, false, true)
    }

    /// 16-bit addition into HL: zero kept, subtract cleared, half-carry
    /// out of bit 11, carry out of bit 15, one synchronization quantum.
    pub open spec fn op_add_hl_r16(self, reg: u8) -> CpuView {
        let hl = self.hl();
        let val = self.read_r16(reg);
        let res = hl.wrapping_add(val);
        self.write_r16(2, res).plus_cycles(4).with_flags(
            self.f_z(),
            false,
            (hl & 0xfff) + (val & 0xfff) > 0xfff,
            hl + val > 0xffff,
        )
    }

    /// The stack-pointer-plus-signed-offset value and its flags: zero
    /// and subtract cleared, half-carry and carry computed on the low
    /// byte of the stack pointer.
    pub open spec fn alu_add_sp(self, offset: i8) -> (u16, CpuView) {
        let val = offset as u16;
        (
            self.sp.wrapping_add(val),
            self.with_flags(
                false,
                false,
                (self.sp & 0x0f) + (val & 0x0f) > 0x0f,
                (self.sp & 0xff) + (val & 0xff) > 0xff,
            ),
        )
    }

    /// ADD SP, d8: the signed-offset addition into the stack pointer,
    /// with two synchronization quanta.
    pub open spec fn op_add_sp_d8(self) -> CpuView {
        let (imm, s1) = self.read_d8();
        let (res, s2) = s1.alu_add_sp(imm as i8);
        CpuView { sp: res, ..s2 }.plus_cycles(8)
    }

    /// LD HL, SP+d8: the signed-offset addition stored into HL, with
    /// one synchronization quantum.
    pub open spec fn op_ld_hl_sp_d8(self) -> CpuView {
        let (imm, s1) = self.read_d8();
        let s2 = s1.plus_cycles(4);
        let (res, s3) = s2.alu_add_sp(imm as i8);
        s3.write_r16(2, res)
    }
}

impl CPU {
    /// No operation.
    pub fn nop(&mut self)
        ensures
            *final(self) == *old(self),
    {
    }

    /// 8-bit addition into the accumulator.
    fn _add(&mut self, val: u8)
        requires
            old(self)@.wf(),
        ensures
            final(self)@ == old(self)@.alu_add(val),
            final(self)@.wf(),
    {
        proof {
            crate::bits::lemma_u8_low_masks();
        }
        let half_carry = (self.a & 0xf) + (val & 0xf) > 0xf;
        let carry = (self.a as u16) + (val as u16) > 0xff;
        let res = self.a.wrapping_add(val);

        self.a = res;

        self.set_f_z(res == 0);
        self.set_f_n(false);
        self.set_f_h(half_carry);
        self.set_f_c(carry);
    }

    /// 8-bit carry-chained addition into the accumulator.
    fn _adc(&mut self, val: u8)
        requires
            old(self)@.wf(),
        ensures
            final(self)@ == old(self)@.alu_adc(val),
            final(self)@.wf(),
    {
        proof {
            crate::bits::lemma_u8_low_masks();
        }
        let c: u8 = if self.f_c() {
            1
        } else {
            0
        };
        let res = self.a.wrapping_add(val).wrapping_add(c);
        let half_carry = (self.a & 0xf) + (val & 0xf) + c > 0xf;
        let carry = (self.a as u16) + (val as u16) + (c as u16) > 0xff;

        self.a = res;

        self.set_f_z(res == 0);
        self.set_f_n(false);
        self.set_f_h(half_carry);
        self.set_f_c(carry);
    }

    /// 8-bit subtraction from the accumulator.
    fn _sub(&mut self, val: u8)
        requires
            old(self)@.wf(),
        ensures
            final(self)@ == old(self)@.alu_sub(val),
            final(self)@.wf(),
    {
        let half_carry = (self.a & 0xf) < (val & 0xf);
        let carry = self.a < val;
        let res = self.a.wrapping_sub(val);

        self.a = res;

        self.set_f_z(res == 0);
        self.set_f_n(true);
        self.set_f_h(half_carry);
        self.set_f_c(carry);
    }

    /// 8-bit carry-chained subtraction from the accumulator.
    fn _sbc(&mut self, val: u8)
        requires
            old(self)@.wf(),
        ensures
            final(self)@ == old(self)@.alu_sbc(val),
            final(self)@.wf(),
    {
        proof {
            crate::bits::lemma_u8_low_masks();
        }
        let c: u8 = if self.f_c() {
            1
        } else {
            0
        };
        let res = self.a.wrapping_sub(val).wrapping_sub(c);
        let half_carry = (self.a & 0xf) < (val & 0xf) + c;
        let carry = (self.a as u16) < (val as u16) + (c as u16);

        self.a = res;

        self.set_f_z(res == 0);
        self.set_f_n(true);
        self.set_f_h(half_carry);
        self.set_f_c(carry);
    }

    /// ADD r8.
    pub fn add_r8(&mut self, reg: u8)
        requires
            old(self)@.wf(),
            reg < 8,
        ensures
            final(self)@ == ({
                let (v, s) = old(self)@.read_r8(reg);
                s.alu_add(v)
            }),
            final(self)@.wf(),
    {
        let val = self.read_r8(reg);
        self._add(val);
    }

    /// ADC r8.
    pub fn adc_r8(&mut self, reg: u8)
        requires
            old(self)@.wf(),
            reg < 8,
        ensures
            final(self)@ == ({
                let (v, s) = old(self)@.read_r8(reg);
                s.alu_adc(v)
            }),
            final(self)@.wf(),
    {
        let val = self.read_r8(reg);
        self._adc(val);
    }

    /// SUB r8.
    pub fn sub_r8(&mut self, reg: u8)
        requires
            old(self)@.wf(),
            reg < 8,
        ensures
            final(self)@ == ({
                let (v, s) = old(self)@.read_r8(reg);
                s.alu_sub(v)
            }),
            final(self)@.wf(),
    {
        let val = self.read_r8(reg);
        self._sub(val);
    }

    /// SBC r8.
    pub fn sbc_r8(&mut self, reg: u8)
        requires
            old(self)@.wf(),
            reg < 8,
        ensures
            final(self)@ == ({
                let (v, s) = old(self)@.read_r8(reg);
                s.alu_sbc(v)
            }),
            final(self)@.wf(),
    {
        let val = self.read_r8(reg);
        self._sbc(val);
    }

    /// AND r8.
    pub fn and_r8(&mut self, reg: u8)
        requires
            old(self)@.wf(),
            reg < 8,
        ensures
            final(self)@ == ({
                let (v, s) = old(self)@.read_r8(reg);
                s.alu_and(v)
            }),
            final(self)@.wf(),
    {
        let val = self.read_r8(reg);
        let res = self.a & val;

        self.a = res;

        self.set_f_z(res == 0);
        self.set_f_n(false);
        self.set_f_h(true);
        self.set_f_c(false);
    }

    /// OR r8.
    pub fn or_r8(&mut self, reg: u8)
        requires
            old(self)@.wf(),
            reg < 8,
        ensures
            final(self)@ == ({
                let (v, s) = old(self)@.read_r8(reg);
                s.alu_or(v)
            }),
            final(self)@.wf(),
    {
        let val = self.read_r8(reg);
        let res = self.a | val;

        self.a = res;

        self.set_f_z(res == 0);
        self.set_f_n(false);
        self.set_f_h(false);
        self.set_f_c(false);
    }

    /// XOR r8.
    pub fn xor_r8(&mut self, reg: u8)
        requires
            old(self)@.wf(),
            reg < 8,
        ensures
            final(self)@ == ({
                let (v, s) = old(self)@.read_r8(reg);
                s.alu_xor(v)
            }),
            final(self)@.wf(),
    {
        let val = self.read_r8(reg);
        let res = self.a ^ val;

        self.a = res;

        self.set_f_z(res == 0);
        self.set_f_n(false);
        self.set_f_h(false);
        self.set_f_c(false);
    }

    /// CP r8.
    pub fn cp_r8(&mut self, reg: u8)
        requires
            old(self)@.wf(),
            reg < 8,
        ensures
            final(self)@ == ({
                let (v, s) = old(self)@.read_r8(reg);
                s.alu_cp(v)
            }),
            final(self)@.wf(),
    {
        let a = self.a;
        let val = self.read_r8(reg);

        self.set_f_z(a == val);
        self.set_f_n(true);
        self.set_f_h(a & 0x0f < val & 0x0f);
        self.set_f_c(a < val);
    }

    /// ADD d8.
    pub fn add_d8(&mut self)
        requires
            old(self)@.wf(),
        ensures
            final(self)@ == ({
                let (v, s) = old(self)@.read_d8();
                s.alu_add(v)
            }),
            final(self)@.wf(),
    {
        let val = self.read_d8();
        self._add(val);
    }

    /// ADC d8.
    pub fn adc_d8(&mut self)
        requires
            old(self)@.wf(),
        ensures
            final(self)@ == ({
                let (v, s) = old(self)@.read_d8();
                s.alu_adc(v)
            }),
            final(self)@.wf(),
    {
        let val = self.read_d8();
        self._adc(val);
    }

    /// SUB d8.
    pub fn sub_d8(&mut self)
        requires
            old(self)@.wf(),
        ensures
            final(self)@ == ({
                let (v, s) = old(self)@.read_d8();
                s.alu_sub(v)
            }),
            final(self)@.wf(),
    {
        let val = self.read_d8();
        self._sub(val);
    }

    /// SBC d8.
    pub fn sbc_d8(&mut self)
        requires
            old(self)@.wf(),
        ensures
            final(self)@ == ({
                let (v, s) = old(self)@.read_d8();
                s.alu_sbc(v)
            }),
            final(self)@.wf(),
    {
        let val = self.read_d8();
        self._sbc(val);
    }

    /// AND d8.
    pub fn and_d8(&mut self)
        requires
            old(self)@.wf(),
        ensures
            final(self)@ == ({
                let (v, s) = old(self)@.read_d8();
                s.alu_and(v)
            }),
            final(self)@.wf(),
    {
        let val = self.read_d8();
        let res = self.a & val;

        self.a = res;

        self.set_f_z(res == 0);
        self.set_f_n(false);
        self.set_f_h(true);
        self.set_f_c(false);
    }

    /// OR d8.
    pub fn or_d8(&mut self)
        requires
            old(self)@.wf(),
        ensures
            final(self)@ == ({
                let (v, s) = old(self)@.read_d8();
                s.alu_or(v)
            }),
            final(self)@.wf(),
    {
        let val = self.read_d8();
        let res = self.a | val;

        self.a = res;

        self.set_f_z(res == 0);
        self.set_f_n(false);
        self.set_f_h(false);
        self.set_f_c(false);
    }

    /// XOR d8.
    pub fn xor_d8(&mut self)
        requires
            old(self)@.wf(),
        ensures
            final(self)@ == ({
                let (v, s) = old(self)@.read_d8();
                s.alu_xor(v)
            }),
            final(self)@.wf(),
    {
        let val = self.read_d8();
        let res = self.a ^ val;

        self.a = res;

        self.set_f_z(res == 0);
        self.set_f_n(false);
        self.set_f_h(false);
        self.set_f_c(false);
    }

    /// CP d8.
    pub fn cp_d8(&mut self)
        requires
            old(self)@.wf(),
        ensures
            final(self)@ == ({
                let (v, s) = old(self)@.read_d8();
                s.alu_cp(v)
            }),
            final(self)@.wf(),
    {
        let imm = self.read_d8();
        let a = self.a;

        self.set_f_z(a == imm);
        self.set_f_n(true);
        self.set_f_h(a & 0x0f < imm & 0x0f);
        self.set_f_c(a < imm);
    }

    /// DAA: decimal adjust of the accumulator.
    pub fn daa(&mut self)
        requires
            old(self)@.wf(),
        ensures
            final(self)@ == old(self)@.op_daa(),
            final(self)@.wf(),
    {
        let mut a = self.a;

        if !self.f_n() {
            if self.f_c() || a > 0x99 {
                a = a.wrapping_add(0x60);
                self.set_f_c(true);
            }
            if self.f_h() || a & 0x0f > 0x09 {
                a = a.wrapping_add(0x06);
            }
        } else {
            if self.f_c() {
                a = a.wrapping_sub(0x60);
            }
            if self.f_h() {
                a = a.wrapping_sub(0x06);
            }
        }

        self.a = a;

        self.set_f_z(a == 0);
        self.set_f_h(false);
    }

    /// CPL: complement of the accumulator.
    pub fn cpl(&mut self)
        requires
            old(self)@.wf(),
        ensures
            final(self)@ == old(self)@.op_cpl(),
            final(self)@.wf(),
    {
        self.a = !self.a;
        self.set_f_n(true);
        self.set_f_h(true);
    }

    /// CCF: complement of the carry flag.
    pub fn ccf(&mut self)
        requires
            old(self)@.wf(),
        ensures
            final(self)@ == old(self)@.op_ccf(),
            final(self)@.wf(),
    {
        self.set_f_n(false);
        self.set_f_h(false);

        let c = self.f_c();
        self.set_f_c(!c);
    }

    /// SCF: set the carry flag.
    pub fn scf(&mut self)
        requires
            old(self)@.wf(),
        ensures
            final(self)@ == old(self)@.op_scf(),
            final(self)@.wf(),
    {
        self.set_f_n(false);
        self.set_f_h(false);
        self.set_f_c(true);
    }

    /// ADD HL, r16.
    pub fn add_hl_r16(&mut self, reg: u8)
        requires
            old(self)@.wf(),
            reg < 4,
        ensures
            final(self)@ == old(self)@.op_add_hl_r16(reg),
            final(self)@.wf(),
    {
        proof {
            crate::bits::lemma_u16_low_masks();
        }
        let hl = self.hl();
        let val = self.read_r16(reg);

        let half_carry = (hl & 0xfff) + (val & 0xfff) > 0xfff;
        let carry = (hl as u32) + (val as u32) > 0xffff;
        let res = hl.wrapping_add(val);
        self.set_hl(res);

        self.cycle = self.cycle.wrapping_add(4);

        self.set_f_n(false);
        self.set_f_h(half_carry);
        self.set_f_c(carry);
    }

    /// The stack-pointer-plus-signed-offset value, with its flags.
    fn _add_sp(&mut self, offset: i8) -> (r: u16)
        requires
            old(self)@.wf(),
        ensures
            (r, final(self)@) == old(self)@.alu_add_sp(offset),
            final(self)@.wf(),
    {
        proof {
            crate::bits::lemma_u16_low_masks();
        }
        let val = offset as u16;

        let half_carry = (self.sp & 0x0f) + (val & 0x0f) > 0x0f;
        let carry = (self.sp & 0xff) + (val & 0xff) > 0xff;

        self.set_f_z(false);
        self.set_f_n(false);
        self.set_f_h(half_carry);
        self.set_f_c(carry);

        self.sp.wrapping_add(val)
    }

    /// ADD SP, d8.
    pub fn add_sp_d8(&mut self)
        requires
            old(self)@.wf(),
        ensures
            final(self)@ == old(self)@.op_add_sp_d8(),
            final(self)@.wf(),
    {
        let val = self.read_d8() as i8;
        let res = self._add_sp(val);
        self.sp = res;
        self.cycle = self.cycle.wrapping_add(8);
    }

    /// LD HL, SP+d8.
    pub fn ld_hl_sp_d8(&mut self)
        requires
            old(self)@.wf(),
        ensures
            final(self)@ == old(self)@.op_ld_hl_sp_d8(),
            final(self)@.wf(),
    {
        let offset = self.read_d8() as i8;
        self.cycle = self.cycle.wrapping_add(4);
        let res = self._add_sp(offset);
        self.set_hl(res);
    }
}

impl CpuView {
    /// LD r16, d16.
    pub open spec fn op_ld_r16_d16(self, reg: u8) -> CpuView {
        let (val, s1) = self.read_d16();
        s1.write_r16(reg, val)
    }

    /// LD (d16), SP.
    pub open spec fn op_ld_ind_d16_sp(self) -> CpuView {
        let (addr, s1) = self.read_d16();
        s1.write_mem16(addr, s1.sp)
    }

    /// LD SP, HL, with one synchronization quantum.
    pub open spec fn op_ld_sp_hl(self) -> CpuView {
        CpuView { sp: self.hl(), ..self.plus_cycles(4) }
    }

    /// LD r8, d8.
    pub open spec fn op_ld_r8_d8(self, reg: u8) -> CpuView {
        let (imm, s1) = self.read_d8();
        s1.write_r8(reg, imm)
    }

    /// LD r8, r8.
    pub open spec fn op_ld_r8_r8(self, reg1: u8, reg2: u8) -> CpuView {
        let (val, s1) = self.read_r8(reg2);
        s1.write_r8(reg1, val)
    }

    /// INC r8: zero and half-carry from the increment, subtract
    /// cleared, carry untouched.
    pub open spec fn op_inc_r8(self, reg: u8) -> CpuView {
        let (orig, s1) = self.read_r8(reg);
        let res = orig.wrapping_add(1);
        s1.write_r8(reg, res).with_flags(res == 0, false, orig & 0x0f == 0x0f, self.f_c())
    }

    /// DEC r8: zero and half-borrow from the decrement, subtract set,
    /// carry untouched.
    pub open spec fn op_dec_r8(self, reg: u8) -> CpuView {
        let (orig, s1) = self.read_r8(reg);
        let res = orig.wrapping_sub(1);
        s1.write_r8(reg, res).with_flags(res == 0, true, orig & 0x0f == 0x00, self.f_c())
    }

    /// LD (HL+), A.
    pub open spec fn op_ldi_hl_a(self) -> CpuView {
        let s1 = self.write_mem8(self.hl(), self.a);
        s1.write_r16(2, s1.hl().wrapping_add(1))
    }

    /// LD (HL-), A.
    pub open spec fn op_ldd_hl_a(self) -> CpuView {
        let s1 = self.write_mem8(self.hl(), self.a);
        s1.write_r16(2, s1.hl().wrapping_sub(1))
    }

    /// LD A, (HL+).
    pub open spec fn op_ldi_a_hl(self) -> CpuView {
        let (val, s1) = self.read_mem8(self.hl());
        let s2 = CpuView { a: val, ..s1 };
        s2.write_r16(2, s2.hl().wrapping_add(1))
    }

    /// LD A, (HL-).
    pub open spec fn op_ldd_a_hl(self) -> CpuView {
        let (val, s1) = self.read_mem8(self.hl());
        let s2 = CpuView { a: val, ..s1 };
        s2.write_r16(2, s2.hl().wrapping_sub(1))
    }

    /// LD (BC), A.
    pub open spec fn op_ld_ind_bc_a(self) -> CpuView {
        self.write_mem8(self.bc(), self.a)
    }

    /// LD (DE), A.
    pub open spec fn op_ld_ind_de_a(self) -> CpuView {
        self.write_mem8(self.de(), self.a)
    }

    /// LD A, (BC).
    pub open spec fn op_ld_a_ind_bc(self) -> CpuView {
        let (val, s1) = self.read_mem8(self.bc());
        CpuView { a: val, ..s1 }
    }

    /// LD A, (DE).
    pub open spec fn op_ld_a_ind_de(self) -> CpuView {
        let (val, s1) = self.read_mem8(self.de());
        CpuView { a: val, ..s1 }
    }

    /// LD (0xff00+d8), A.
    pub open spec fn op_ld_io_d8_a(self) -> CpuView {
        let (offset, s1) = self.read_d8();
        s1.write_mem8(0xff00 | offset as u16, s1.a)
    }

    /// LD A, (0xff00+d8).
    pub open spec fn op_ld_a_io_d8(self) -> CpuView {
        let (offset, s1) = self.read_d8();
        let (val, s2) = s1.read_mem8(0xff00 | offset as u16);
        CpuView { a: val, ..s2 }
    }

    /// LD (0xff00+C), A.
    pub open spec fn op_ld_io_c_a(self) -> CpuView {
        self.write_mem8(0xff00 | self.c as u16, self.a)
    }

    /// LD A, (0xff00+C).
    pub open spec fn op_ld_a_io_c(self) -> CpuView {
        let (val, s1) = self.read_mem8(0xff00 | self.c as u16);
        CpuView { a: val, ..s1 }
    }

    /// LD (d16), A.
    pub open spec fn op_ld_ind_d16_a(self) -> CpuView {
        let (addr, s1) = self.read_d16();
        s1.write_mem8(addr, s1.a)
    }

    /// LD A, (d16).
    pub open spec fn op_ld_a_ind_d16(self) -> CpuView {
        let (addr, s1) = self.read_d16();
        let (val, s2) = s1.read_mem8(addr);
        CpuView { a: val, ..s2 }
    }

    /// INC r16, with one synchronization quantum; no flags.
    pub open spec fn op_inc_r16(self, reg: u8) -> CpuView {
        self.write_r16(reg, self.read_r16(reg).wrapping_add(1)).plus_cycles(4)
    }

    /// DEC r16, with one synchronization quantum; no flags.
    pub open spec fn op_dec_r16(self, reg: u8) -> CpuView {
        self.write_r16(reg, self.read_r16(reg).wrapping_sub(1)).plus_cycles(4)
    }

    /// BIT pos, r8: zero from the complement of the tested bit,
    /// subtract cleared, half-carry set, carry untouched.
    pub open spec fn op_bit(self, pos: u8, reg: u8) -> CpuView {
        let (val, s1) = self.read_r8(reg);
        s1.with_flags((val >> pos) & 1 == 0, false, true, self.f_c())
    }

    /// SET pos, r8; no flags.
    pub open spec fn op_set(self, pos: u8, reg: u8) -> CpuView {
        let (val, s1) = self.read_r8(reg);
        s1.write_r8(reg, val | (1u8 << pos))
    }

    /// RES pos, r8; no flags.
    pub open spec fn op_res(self, pos: u8, reg: u8) -> CpuView {
        let (val, s1) = self.read_r8(reg);
        s1.write_r8(reg, val & !(1u8 << pos))
    }

    /// RL r8: rotate left through carry; carry receives the bit
    /// shifted out, zero from the result, subtract and half-carry
    /// cleared.
    pub open spec fn op_rl(self, reg: u8) -> CpuView {
        let (orig, s1) = self.read_r8(reg);
        let res = (orig << 1) | (if self.f_c() {
            1u8
        } else {
            0u8
        });
        s1.write_r8(reg, res).with_flags(res == 0, false, false, (orig >> 7) & 1 == 1)
    }

    /// RLC r8: rotate left; same flag rules as the rest of the family.
    pub open spec fn op_rlc(self, reg: u8) -> CpuView {
        let (orig, s1) = self.read_r8(reg);
        let res = (orig << 1) | (orig >> 7);
        s1.write_r8(reg, res).with_flags(res == 0, false, false, (orig >> 7) & 1 == 1)
    }

    /// RR r8: rotate right through carry.
    pub open spec fn op_rr(self, reg: u8) -> CpuView {
        let (orig, s1) = self.read_r8(reg);
        let res = (orig >> 1) | (if self.f_c() {
            0x80u8
        } else {
            0u8
        });
        s1.write_r8(reg, res).with_flags(res == 0, false, false, orig & 1 == 1)
    }

    /// RRC r8: rotate right.
    pub open spec fn op_rrc(self, reg: u8) -> CpuView {
        let (orig, s1) = self.read_r8(reg);
        let res = (orig >> 1) | (orig << 7);
        s1.write_r8(reg, res).with_flags(res == 0, false, false, orig & 1 == 1)
    }

    /// SLA r8: shift left into carry.
    pub open spec fn op_sla(self, reg: u8) -> CpuView {
        let (orig, s1) = self.read_r8(reg);
        let res = orig << 1;
        s1.write_r8(reg, res).with_flags(res == 0, false, false, orig & 0x80 > 0)
    }

    /// SRA r8: arithmetic shift right into carry, sign bit kept.
    pub open spec fn op_sra(self, reg: u8) -> CpuView {
        let (orig, s1) = self.read_r8(reg);
        let res = (orig >> 1) | (orig & 0x80);
        s1.write_r8(reg, res).with_flags(res == 0, false, false, orig & 1 > 0)
    }

    /// SWAP r8: exchange the two nibbles; carry cleared.
    pub open spec fn op_swap(self, reg: u8) -> CpuView {
        let (orig, s1) = self.read_r8(reg);
        let res = ((orig & 0x0f) << 4) | ((orig & 0xf0) >> 4);
        s1.write_r8(reg, res).with_flags(res == 0, false, false, false)
    }

    /// SRL r8: logical shift right into carry.
    pub open spec fn op_srl(self, reg: u8) -> CpuView {
        let (orig, s1) = self.read_r8(reg);
        let res = orig >> 1;
        s1.write_r8(reg, res).with_flags(res == 0, false, false, orig & 1 == 1)
    }

    /// The short rotate-accumulator forms: the rotate on register 7
    /// with the zero flag forced off.
    pub open spec fn op_rlca(self) -> CpuView {
        let s1 = self.op_rlc(7);
        s1.with_flags(false, s1.f_n(), s1.f_h(), s1.f_c())
    }

    /// RLA: rotate the accumulator left through carry, zero forced off.
    pub open spec fn op_rla(self) -> CpuView {
        let s1 = self.op_rl(7);
        s1.with_flags(false, s1.f_n(), s1.f_h(), s1.f_c())
    }

    /// RRCA: rotate the accumulator right, zero forced off.
    pub open spec fn op_rrca(self) -> CpuView {
        let s1 = self.op_rrc(7);
        s1.with_flags(false, s1.f_n(), s1.f_h(), s1.f_c())
    }

    /// RRA: rotate the accumulator right through carry, zero forced
    /// off.
    pub open spec fn op_rra(self) -> CpuView {
        let s1 = self.op_rr(7);
        s1.with_flags(false, s1.f_n(), s1.f_h(), s1.f_c())
    }
}

impl CPU {
    /// LD r16, d16.
    pub fn ld_r16_d16(&mut self, reg: u8)
        requires
            old(self)@.wf(),
            reg < 4,
        ensures
            final(self)@ == old(self)@.op_ld_r16_d16(reg),
            final(self)@.wf(),
    {
        let val = self.read_d16();
        self.write_r16(reg, val);
    }

    /// LD (d16), SP.
    pub fn ld_ind_d16_sp(&mut self)
        requires
            old(self)@.wf(),
        ensures
            final(self)@ == old(self)@.op_ld_ind_d16_sp(),
            final(self)@.wf(),
    {
        let addr = self.read_d16();
        let sp = self.sp;
        self.write_mem16(addr, sp);
    }

    /// LD SP, HL.
    pub fn ld_sp_hl(&mut self)
        requires
            old(self)@.wf(),
        ensures
            final(self)@ == old(self)@.op_ld_sp_hl(),
            final(self)@.wf(),
    {
        self.cycle = self.cycle.wrapping_add(4);
        self.sp = self.hl();
    }

    /// LD r8, d8.
    pub fn ld_r8_d8(&mut self, reg: u8)
        requires
            old(self)@.wf(),
            reg < 8,
        ensures
            final(self)@ == old(self)@.op_ld_r8_d8(reg),
            final(self)@.wf(),
    {
        let imm = self.read_d8();
        self.write_r8(reg, imm);
    }

    /// LD r8, r8.
    pub fn ld_r8_r8(&mut self, reg1: u8, reg2: u8)
        requires
            old(self)@.wf(),
            reg1 < 8,
            reg2 < 8,
        ensures
            final(self)@ == old(self)@.op_ld_r8_r8(reg1, reg2),
            final(self)@.wf(),
    {
        let val = self.read_r8(reg2);
        self.write_r8(reg1, val);
    }

    /// INC r8.
    pub fn inc_r8(&mut self, reg: u8)
        requires
            old(self)@.wf(),
            reg < 8,
        ensures
            final(self)@ == old(self)@.op_inc_r8(reg),
            final(self)@.wf(),
    {
        let orig = self.read_r8(reg);
        let res = orig.wrapping_add(1);
        self.write_r8(reg, res);

        self.set_f_z(res == 0);
        self.set_f_h(orig & 0x0f == 0x0f);
        self.set_f_n(false);
    }

    /// DEC r8.
    pub fn dec_r8(&mut self, reg: u8)
        requires
            old(self)@.wf(),
            reg < 8,
        ensures
            final(self)@ == old(self)@.op_dec_r8(reg),
            final(self)@.wf(),
    {
        let orig = self.read_r8(reg);
        let res = orig.wrapping_sub(1);
        self.write_r8(reg, res);

        self.set_f_z(res == 0);
        self.set_f_h(orig & 0x0f == 0x00);
        self.set_f_n(true);
    }

    /// LD (HL+), A.
    pub fn ldi_hl_a(&mut self)
        requires
            old(self)@.wf(),
        ensures
            final(self)@ == old(self)@.op_ldi_hl_a(),
            final(self)@.wf(),
    {
        let addr = self.hl();
        let a = self.a;
        self.write_mem8(addr, a);
        let hl = self.hl();
        self.set_hl(hl.wrapping_add(1));
    }

    /// LD (HL-), A.
    pub fn ldd_hl_a(&mut self)
        requires
            old(self)@.wf(),
        ensures
            final(self)@ == old(self)@.op_ldd_hl_a(),
            final(self)@.wf(),
    {
        let addr = self.hl();
        let a = self.a;
        self.write_mem8(addr, a);
        let hl = self.hl();
        self.set_hl(hl.wrapping_sub(1));
    }

    /// LD A, (HL+).
    pub fn ldi_a_hl(&mut self)
        requires
            old(self)@.wf(),
        ensures
            final(self)@ == old(self)@.op_ldi_a_hl(),
            final(self)@.wf(),
    {
        let addr = self.hl();
        self.a = self.read_mem8(addr);
        let hl = self.hl();
        self.set_hl(hl.wrapping_add(1));
    }

    /// LD A, (HL-).
    pub fn ldd_a_hl(&mut self)
        requires
            old(self)@.wf(),
        ensures
            final(self)@ == old(self)@.op_ldd_a_hl(),
            final(self)@.wf(),
    {
        let addr = self.hl();
        self.a = self.read_mem8(addr);
        let hl = self.hl();
        self.set_hl(hl.wrapping_sub(1));
    }

    /// LD (BC), A.
    pub fn ld_ind_bc_a(&mut self)
        requires
            old(self)@.wf(),
        ensures
            final(self)@ == old(self)@.op_ld_ind_bc_a(),
            final(self)@.wf(),
    {
        let addr = self.bc();
        let a = self.a;
        self.write_mem8(addr, a);
    }

    /// LD (DE), A.
    pub fn ld_ind_de_a(&mut self)
        requires
            old(self)@.wf(),
        ensures
            final(self)@ == old(self)@.op_ld_ind_de_a(),
            final(self)@.wf(),
    {
        let addr = self.de();
        let a = self.a;
        self.write_mem8(addr, a);
    }

    /// LD A, (BC).
    pub fn ld_a_ind_bc(&mut self)
        requires
            old(self)@.wf(),
        ensures
            final(self)@ == old(self)@.op_ld_a_ind_bc(),
            final(self)@.wf(),
    {
        let bc = self.bc();
        self.a = self.read_mem8(bc);
    }

    /// LD A, (DE).
    pub fn ld_a_ind_de(&mut self)
        requires
            old(self)@.wf(),
        ensures
            final(self)@ == old(self)@.op_ld_a_ind_de(),
            final(self)@.wf(),
    {
        let de = self.de();
        self.a = self.read_mem8(de);
    }

    /// LD (0xff00+d8), A.
    pub fn ld_io_d8_a(&mut self)
        requires
            old(self)@.wf(),
        ensures
            final(self)@ == old(self)@.op_ld_io_d8_a(),
            final(self)@.wf(),
    {
        let offset = self.read_d8() as u16;
        let addr = 0xff00 | offset;
        let a = self.a;

        self.write_mem8(addr, a);
    }

    /// LD A, (0xff00+d8).
    pub fn ld_a_io_d8(&mut self)
        requires
            old(self)@.wf(),
        ensures
            final(self)@ == old(self)@.op_ld_a_io_d8(),
            final(self)@.wf(),
    {
        let offset = self.read_d8() as u16;
        let addr = 0xff00 | offset;

        self.a = self.read_mem8(addr);
    }

    /// LD (0xff00+C), A.
    pub fn ld_io_c_a(&mut self)
        requires
            old(self)@.wf(),
        ensures
            final(self)@ == old(self)@.op_ld_io_c_a(),
            final(self)@.wf(),
    {
        let addr = 0xff00 | self.c as u16;
        let a = self.a;

        self.write_mem8(addr, a);
    }

    /// LD A, (0xff00+C).
    pub fn ld_a_io_c(&mut self)
        requires
            old(self)@.wf(),
        ensures
            final(self)@ == old(self)@.op_ld_a_io_c(),
            final(self)@.wf(),
    {
        let addr = 0xff00 | self.c as u16;

        self.a = self.read_mem8(addr);
    }

    /// LD (d16), A.
    pub fn ld_ind_d16_a(&mut self)
        requires
            old(self)@.wf(),
        ensures
            final(self)@ == old(self)@.op_ld_ind_d16_a(),
            final(self)@.wf(),
    {
        let addr = self.read_d16();
        let a = self.a;
        self.write_mem8(addr, a);
    }

    /// LD A, (d16).
    pub fn ld_a_ind_d16(&mut self)
        requires
            old(self)@.wf(),
        ensures
            final(self)@ == old(self)@.op_ld_a_ind_d16(),
            final(self)@.wf(),
    {
        let addr = self.read_d16();
        self.a = self.read_mem8(addr);
    }

    /// INC r16.
    pub fn inc_r16(&mut self, reg: u8)
        requires
            old(self)@.wf(),
            reg < 4,
        ensures
            final(self)@ == old(self)@.op_inc_r16(reg),
            final(self)@.wf(),
    {
        let val = self.read_r16(reg);
        self.write_r16(reg, val.wrapping_add(1));

        self.cycle = self.cycle.wrapping_add(4);
    }

    /// DEC r16.
    pub fn dec_r16(&mut self, reg: u8)
        requires
            old(self)@.wf(),
            reg < 4,
        ensures
            final(self)@ == old(self)@.op_dec_r16(reg),
            final(self)@.wf(),
    {
        let val = self.read_r16(reg);
        self.write_r16(reg, val.wrapping_sub(1));

        self.cycle = self.cycle.wrapping_add(4);
    }

    /// BIT pos, r8: test one bit.
    pub fn bit(&mut self, pos: u8, reg: u8)
        requires
            old(self)@.wf(),
            pos < 8,
            reg < 8,
        ensures
            final(self)@ == old(self)@.op_bit(pos, reg),
            final(self)@.wf(),
    {
        let z = (self.read_r8(reg) >> pos) & 1 == 0;
        self.set_f_z(z);
        self.set_f_n(false);
        self.set_f_h(true);
    }

    /// SET pos, r8: set one bit.
    pub fn set(&mut self, pos: u8, reg: u8)
        requires
            old(self)@.wf(),
            pos < 8,
            reg < 8,
        ensures
            final(self)@ == old(self)@.op_set(pos, reg),
            final(self)@.wf(),
    {
        let val = self.read_r8(reg);
        self.write_r8(reg, val | (1u8 << pos));
    }

    /// RES pos, r8: reset one bit.
    pub fn res(&mut self, pos: u8, reg: u8)
        requires
            old(self)@.wf(),
            pos < 8,
            reg < 8,
        ensures
            final(self)@ == old(self)@.op_res(pos, reg),
            final(self)@.wf(),
    {
        let val = self.read_r8(reg);
        self.write_r8(reg, val & !(1u8 << pos));
    }

    /// Rotate left through carry.
    fn _rl(&mut self, reg: u8)
        requires
            old(self)@.wf(),
            reg < 8,
        ensures
            final(self)@ == old(self)@.op_rl(reg),
            final(self)@.wf(),
    {
        let cin: u8 = if self.f_c() {
            1
        } else {
            0
        };
        let orig = self.read_r8(reg);
        let res = (orig << 1) | cin;
        self.write_r8(reg, res);

        self.set_f_z(res == 0);
        self.set_f_n(false);
        self.set_f_h(false);
        self.set_f_c((orig >> 7) & 1 == 1);
    }

    /// RL r8.
    pub fn rl(&mut self, reg: u8)
        requires
            old(self)@.wf(),
            reg < 8,
        ensures
            final(self)@ == old(self)@.op_rl(reg),
            final(self)@.wf(),
    {
        self._rl(reg);
    }

    /// Rotate left.
    fn _rlc(&mut self, reg: u8)
        requires
            old(self)@.wf(),
            reg < 8,
        ensures
            final(self)@ == old(self)@.op_rlc(reg),
            final(self)@.wf(),
    {
        let orig = self.read_r8(reg);
        let res = (orig << 1) | (orig >> 7);
        self.write_r8(reg, res);

        self.set_f_z(res == 0);
        self.set_f_n(false);
        self.set_f_h(false);
        self.set_f_c((orig >> 7) & 1 == 1);
    }

    /// RLC r8.
    pub fn rlc(&mut self, reg: u8)
        requires
            old(self)@.wf(),
            reg < 8,
        ensures
            final(self)@ == old(self)@.op_rlc(reg),
            final(self)@.wf(),
    {
        self._rlc(reg);
    }

    /// Rotate right through carry.
    fn _rr(&mut self, reg: u8)
        requires
            old(self)@.wf(),
            reg < 8,
        ensures
            final(self)@ == old(self)@.op_rr(reg),
            final(self)@.wf(),
    {
        let cin: u8 = if self.f_c() {
            0x80
        } else {
            0
        };
        let orig = self.read_r8(reg);
        let res = (orig >> 1) | cin;
        self.write_r8(reg, res);

        self.set_f_z(res == 0);
        self.set_f_n(false);
        self.set_f_h(false);
        self.set_f_c(orig & 1 == 1);
    }

    /// RR r8.
    pub fn rr(&mut self, reg: u8)
        requires
            old(self)@.wf(),
            reg < 8,
        ensures
            final(self)@ == old(self)@.op_rr(reg),
            final(self)@.wf(),
    {
        self._rr(reg);
    }

    /// Rotate right.
    fn _rrc(&mut self, reg: u8)
        requires
            old(self)@.wf(),
            reg < 8,
        ensures
            final(self)@ == old(self)@.op_rrc(reg),
            final(self)@.wf(),
    {
        let orig = self.read_r8(reg);
        let res = (orig >> 1) | (orig << 7);
        self.write_r8(reg, res);

        self.set_f_z(res == 0);
        self.set_f_n(false);
        self.set_f_h(false);
        self.set_f_c(orig & 1 == 1);
    }

    /// RRC r8.
    pub fn rrc(&mut self, reg: u8)
        requires
            old(self)@.wf(),
            reg < 8,
        ensures
            final(self)@ == old(self)@.op_rrc(reg),
            final(self)@.wf(),
    {
        self._rrc(reg);
    }

    /// SLA r8: shift left into carry.
    pub fn sla(&mut self, reg: u8)
        requires
            old(self)@.wf(),
            reg < 8,
        ensures
            final(self)@ == old(self)@.op_sla(reg),
            final(self)@.wf(),
    {
        let orig = self.read_r8(reg);
        let res = orig << 1;
        self.write_r8(reg, res);

        self.set_f_z(res == 0);
        self.set_f_n(false);
        self.set_f_h(false);
        self.set_f_c(orig & 0x80 > 0);
    }

    /// SRA r8: arithmetic shift right into carry.
    pub fn sra(&mut self, reg: u8)
        requires
            old(self)@.wf(),
            reg < 8,
        ensures
            final(self)@ == old(self)@.op_sra(reg),
            final(self)@.wf(),
    {
        let orig = self.read_r8(reg);
        let res = (orig >> 1) | (orig & 0x80);
        self.write_r8(reg, res);

        self.set_f_z(res == 0);
        self.set_f_n(false);
        self.set_f_h(false);
        self.set_f_c(orig & 1 > 0);
    }

    /// SWAP r8: exchange the two nibbles.
    pub fn swap(&mut self, reg: u8)
        requires
            old(self)@.wf(),
            reg < 8,
        ensures
            final(self)@ == old(self)@.op_swap(reg),
            final(self)@.wf(),
    {
        let orig = self.read_r8(reg);
        let res = ((orig & 0x0f) << 4) | ((orig & 0xf0) >> 4);
        self.write_r8(reg, res);

        self.set_f_z(res == 0);
        self.set_f_n(false);
        self.set_f_h(false);
        self.set_f_c(false);
    }

    /// SRL r8: logical shift right into carry.
    pub fn srl(&mut self, reg: u8)
        requires
            old(self)@.wf(),
            reg < 8,
        ensures
            final(self)@ == old(self)@.op_srl(reg),
            final(self)@.wf(),
    {
        let orig = self.read_r8(reg);
        let res = orig >> 1;
        self.write_r8(reg, res);

        self.set_f_z(res == 0);
        self.set_f_n(false);
        self.set_f_h(false);
        self.set_f_c(orig & 1 == 1);
    }

    /// RLCA: rotate the accumulator left, zero forced off.
    pub fn rlca(&mut self)
        requires
            old(self)@.wf(),
        ensures
            final(self)@ == old(self)@.op_rlca(),
            final(self)@.wf(),
    {
        self._rlc(7);
        self.set_f_z(false);
    }

    /// RLA: rotate the accumulator left through carry, zero forced off.
    pub fn rla(&mut self)
        requires
            old(self)@.wf(),
        ensures
            final(self)@ == old(self)@.op_rla(),
            final(self)@.wf(),
    {
        self._rl(7);
        self.set_f_z(false);
    }

    /// RRCA: rotate the accumulator right, zero forced off.
    pub fn rrca(&mut self)
        requires
            old(self)@.wf(),
        ensures
            final(self)@ == old(self)@.op_rrca(),
            final(self)@.wf(),
    {
        self._rrc(7);
        self.set_f_z(false);
    }

    /// RRA: rotate the accumulator right through carry, zero forced
    /// off.
    pub fn rra(&mut self)
        requires
            old(self)@.wf(),
        ensures
            final(self)@ == old(self)@.op_rra(),
            final(self)@.wf(),
    {
        self._rr(7);
        self.set_f_z(false);
    }
}

impl CpuView {
    /// An unconditional jump: the program counter moved, one
    /// synchronization quantum.
    pub open spec fn op_jp(self, addr: u16) -> CpuView {
        CpuView { pc: addr, ..self.plus_cycles(4) }
    }

    /// JP cc, d16.
    pub open spec fn op_jp_cc_d8(self, cci: u8) -> CpuView {
        let (addr, s1) = self.read_d16();
        if s1.cc(cci) {
            s1.op_jp(addr)
        } else {
            s1
        }
    }

    /// JP d16.
    pub open spec fn op_jp_d16(self) -> CpuView {
        let (addr, s1) = self.read_d16();
        s1.op_jp(addr)
    }

    /// JP HL: no synchronization quantum.
    pub open spec fn op_jp_hl(self) -> CpuView {
        CpuView { pc: self.hl(), ..self }
    }

    /// A relative jump: the signed offset added to the program
    /// counter, one synchronization quantum.
    pub open spec fn op_jr(self, offset: i8) -> CpuView {
        CpuView { pc: self.pc.wrapping_add(offset as u16), ..self.plus_cycles(4) }
    }

    /// JR cc, d8.
    pub open spec fn op_jr_cc_d8(self, cci: u8) -> CpuView {
        let (imm, s1) = self.read_d8();
        if s1.cc(cci) {
            s1.op_jr(imm as i8)
        } else {
            s1
        }
    }

    /// JR d8.
    pub open spec fn op_jr_d8(self) -> CpuView {
        let (imm, s1) = self.read_d8();
        s1.op_jr(imm as i8)
    }

    /// A call: the program counter pushed below the moved stack
    /// pointer, then the jump, with one synchronization quantum.
    pub open spec fn op_call(self, addr: u16) -> CpuView {
        let s1 = CpuView { sp: self.sp.wrapping_sub(2), ..self }.plus_cycles(4);
        let s2 = s1.write_mem16(s1.sp, s1.pc);
        CpuView { pc: addr, ..s2 }
    }

    /// CALL d16.
    pub open spec fn op_call_d16(self) -> CpuView {
        let (addr, s1) = self.read_d16();
        s1.op_call(addr)
    }

    /// CALL cc, d16.
    pub open spec fn op_call_cc_d16(self, cci: u8) -> CpuView {
        let (addr, s1) = self.read_d16();
        if s1.cc(cci) {
            s1.op_call(addr)
        } else {
            s1
        }
    }

    /// RST: a call to a fixed low address.
    pub open spec fn op_rst(self, addr: u8) -> CpuView {
        self.op_call(addr as u16)
    }

    /// A return: the program counter popped, one synchronization
    /// quantum.
    pub open spec fn op_ret(self) -> CpuView {
        let (val, s1) = self.read_mem16(self.sp);
        CpuView { pc: val, sp: s1.sp.wrapping_add(2), ..s1 }.plus_cycles(4)
    }

    /// RET cc: the condition test costs a quantum of its own.
    pub open spec fn op_ret_cc(self, cci: u8) -> CpuView {
        let s1 = self.plus_cycles(4);
        if s1.cc(cci) {
            s1.op_ret()
        } else {
            s1
        }
    }

    /// RETI: return with the interrupt master switch restored.
    pub open spec fn op_reti(self) -> CpuView {
        CpuView { ime: true, ..self }.op_ret()
    }

    /// A push: the value stored below the moved stack pointer, with
    /// one synchronization quantum.
    pub open spec fn push16(self, val: u16) -> CpuView {
        let s1 = CpuView { sp: self.sp.wrapping_sub(2), ..self }.plus_cycles(4);
        s1.write_mem16(s1.sp, val)
    }

    /// PUSH BC.
    pub open spec fn op_push_bc(self) -> CpuView {
        self.push16(self.bc())
    }

    /// PUSH DE.
    pub open spec fn op_push_de(self) -> CpuView {
        self.push16(self.de())
    }

    /// PUSH HL.
    pub open spec fn op_push_hl(self) -> CpuView {
        self.push16(self.hl())
    }

    /// PUSH AF.
    pub open spec fn op_push_af(self) -> CpuView {
        self.push16(self.af())
    }

    /// POP BC.
    pub open spec fn op_pop_bc(self) -> CpuView {
        let (val, s1) = self.read_mem16(self.sp);
        CpuView { sp: s1.sp.wrapping_add(2), ..s1.write_r16(0, val) }
    }

    /// POP DE.
    pub open spec fn op_pop_de(self) -> CpuView {
        let (val, s1) = self.read_mem16(self.sp);
        CpuView { sp: s1.sp.wrapping_add(2), ..s1.write_r16(1, val) }
    }

    /// POP HL.
    pub open spec fn op_pop_hl(self) -> CpuView {
        let (val, s1) = self.read_mem16(self.sp);
        CpuView { sp: s1.sp.wrapping_add(2), ..s1.write_r16(2, val) }
    }

    /// POP AF: only the four meaningful flag bits land in the flags
    /// register, its low nibble stays zero.
    pub open spec fn op_pop_af(self) -> CpuView {
        let (val, s1) = self.read_mem16(self.sp);
        let masked = (val & 0xfff0) as u16;
        CpuView {
            a: (masked >> 8 & 0xff) as u8,
            f: (masked & 0xf0) as u8,
            sp: s1.sp.wrapping_add(2),
            ..s1
        }
    }

    /// DI: clear the interrupt master switch.
    pub open spec fn op_di(self) -> CpuView {
        CpuView { ime: false, ..self }
    }

    /// EI: set the interrupt master switch.
    pub open spec fn op_ei(self) -> CpuView {
        CpuView { ime: true, ..self }
    }

    /// HALT: latch the halt state; the processor stops fetching until
    /// an interrupt wakes it.
    pub open spec fn op_halt(self) -> CpuView {
        CpuView { halted: true, ..self }
    }

    /// The extended opcode space behind the distinguished prefix byte:
    /// a second fetch dispatches the rotate/shift/bit-test/bit-set/
    /// bit-reset families over the three-bit register field and the
    /// three-bit position field.
    pub open spec fn op_prefix(self) -> CpuView {
        let (op, s1) = self.read_d8();
        let pos = ((op / 8) % 8) as u8;
        let reg = (op % 8) as u8;
        if op <= 0x07 {
            s1.op_rlc(reg)
        } else if op <= 0x0f {
            s1.op_rrc(reg)
        } else if op <= 0x17 {
            s1.op_rl(reg)
        } else if op <= 0x1f {
            s1.op_rr(reg)
        } else if op <= 0x27 {
            s1.op_sla(reg)
        } else if op <= 0x2f {
            s1.op_sra(reg)
        } else if op <= 0x37 {
            s1.op_swap(reg)
        } else if op <= 0x3f {
            s1.op_srl(reg)
        } else if op <= 0x7f {
            s1.op_bit(pos, reg)
        } else if op <= 0xbf {
            s1.op_res(pos, reg)
        } else {
            s1.op_set(pos, reg)
        }
    }
}

impl CPU {
    /// The core of every jump.
    fn _jp(&mut self, addr: u16)
        requires
            old(self)@.wf(),
        ensures
            final(self)@ == old(self)@.op_jp(addr),
            final(self)@.wf(),
    {
        self.pc = addr;
        self.cycle = self.cycle.wrapping_add(4);
    }

    /// JP cc, d16.
    pub fn jp_cc_d8(&mut self, cci: u8)
        requires
            old(self)@.wf(),
            cci < 4,
        ensures
            final(self)@ == old(self)@.op_jp_cc_d8(cci),
            final(self)@.wf(),
    {
        let addr = self.read_d16();
        if self.cc(cci) {
            self._jp(addr);
        }
    }

    /// JP d16.
    pub fn jp_d16(&mut self)
        requires
            old(self)@.wf(),
        ensures
            final(self)@ == old(self)@.op_jp_d16(),
            final(self)@.wf(),
    {
        let address = self.read_d16();
        self._jp(address);
    }

    /// JP HL.
    pub fn jp_hl(&mut self)
        requires
            old(self)@.wf(),
        ensures
            final(self)@ == old(self)@.op_jp_hl(),
            final(self)@.wf(),
    {
        self.pc = self.hl();
    }

    /// The core of every relative jump.
    fn _jr(&mut self, offset: i8)
        requires
            old(self)@.wf(),
        ensures
            final(self)@ == old(self)@.op_jr(offset),
            final(self)@.wf(),
    {
        self.pc = self.pc.wrapping_add(offset as u16);
        self.cycle = self.cycle.wrapping_add(4);
    }

    /// JR cc, d8.
    pub fn jr_cc_d8(&mut self, cci: u8)
        requires
            old(self)@.wf(),
            cci < 4,
        ensures
            final(self)@ == old(self)@.op_jr_cc_d8(cci),
            final(self)@.wf(),
    {
        let offset = self.read_d8() as i8;
        if self.cc(cci) {
            self._jr(offset);
        }
    }

    /// JR d8.
    pub fn jr_d8(&mut self)
        requires
            old(self)@.wf(),
        ensures
            final(self)@ == old(self)@.op_jr_d8(),
            final(self)@.wf(),
    {
        let offset = self.read_d8() as i8;
        self._jr(offset);
    }

    /// The core of every call.
    fn _call(&mut self, addr: u16)
        requires
            old(self)@.wf(),
        ensures
            final(self)@ == old(self)@.op_call(addr),
            final(self)@.wf(),
    {
        self.sp = self.sp.wrapping_sub(2);
        let sp = self.sp;
        let pc = self.pc;

        self.cycle = self.cycle.wrapping_add(4);

        self.write_mem16(sp, pc);
        self.pc = addr;
    }

    /// CALL d16.
    pub fn call_d16(&mut self)
        requires
            old(self)@.wf(),
        ensures
            final(self)@ == old(self)@.op_call_d16(),
            final(self)@.wf(),
    {
        let addr = self.read_d16();
        self._call(addr);
    }

    /// CALL cc, d16.
    pub fn call_cc_d16(&mut self, cci: u8)
        requires
            old(self)@.wf(),
            cci < 4,
        ensures
            final(self)@ == old(self)@.op_call_cc_d16(cci),
            final(self)@.wf(),
    {
        let addr = self.read_d16();

        if self.cc(cci) {
            self._call(addr);
        }
    }

    /// RST: call a fixed low address.
    pub fn rst(&mut self, addr: u8)
        requires
            old(self)@.wf(),
        ensures
            final(self)@ == old(self)@.op_rst(addr),
            final(self)@.wf(),
    {
        self._call(addr as u16);
    }

    /// The core of every return.
    fn _ret(&mut self)
        requires
            old(self)@.wf(),
        ensures
            final(self)@ == old(self)@.op_ret(),
            final(self)@.wf(),
    {
        let sp = self.sp;
        self.pc = self.read_mem16(sp);
        self.sp = self.sp.wrapping_add(2);

        self.cycle = self.cycle.wrapping_add(4);
    }

    /// RET.
    pub fn ret(&mut self)
        requires
            old(self)@.wf(),
        ensures
            final(self)@ == old(self)@.op_ret(),
            final(self)@.wf(),
    {
        self._ret();
    }

    /// RET cc.
    pub fn ret_cc(&mut self, cci: u8)
        requires
            old(self)@.wf(),
            cci < 4,
        ensures
            final(self)@ == old(self)@.op_ret_cc(cci),
            final(self)@.wf(),
    {
        self.cycle = self.cycle.wrapping_add(4);

        if self.cc(cci) {
            self._ret();
        }
    }

    /// PUSH BC.
    pub fn push_bc(&mut self)
        requires
            old(self)@.wf(),
        ensures
            final(self)@ == old(self)@.op_push_bc(),
            final(self)@.wf(),
    {
        self.sp = self.sp.wrapping_sub(2);
        let val = self.bc();
        let sp = self.sp;

        self.cycle = self.cycle.wrapping_add(4);

        self.write_mem16(sp, val);
    }

    /// PUSH DE.
    pub fn push_de(&mut self)
        requires
            old(self)@.wf(),
        ensures
            final(self)@ == old(self)@.op_push_de(),
            final(self)@.wf(),
    {
        self.sp = self.sp.wrapping_sub(2);
        let val = self.de();
        let sp = self.sp;

        self.cycle = self.cycle.wrapping_add(4);

        self.write_mem16(sp, val);
    }

    /// PUSH HL.
    pub fn push_hl(&mut self)
        requires
            old(self)@.wf(),
        ensures
            final(self)@ == old(self)@.op_push_hl(),
            final(self)@.wf(),
    {
        self.sp = self.sp.wrapping_sub(2);
        let val = self.hl();
        let sp = self.sp;

        self.cycle = self.cycle.wrapping_add(4);

        self.write_mem16(sp, val);
    }

    /// PUSH AF.
    pub fn push_af(&mut self)
        requires
            old(self)@.wf(),
        ensures
            final(self)@ == old(self)@.op_push_af(),
            final(self)@.wf(),
    {
        self.sp = self.sp.wrapping_sub(2);
        let val = self.af();
        let sp = self.sp;

        self.cycle = self.cycle.wrapping_add(4);

        self.write_mem16(sp, val);
    }

    /// POP BC.
    pub fn pop_bc(&mut self)
        requires
            old(self)@.wf(),
        ensures
            final(self)@ == old(self)@.op_pop_bc(),
            final(self)@.wf(),
    {
        let sp = self.sp;
        let val = self.read_mem16(sp);
        self.set_bc(val);
        self.sp = self.sp.wrapping_add(2);
    }

    /// POP DE.
    pub fn pop_de(&mut self)
        requires
            old(self)@.wf(),
        ensures
            final(self)@ == old(self)@.op_pop_de(),
            final(self)@.wf(),
    {
        let sp = self.sp;
        let val = self.read_mem16(sp);
        self.set_de(val);
        self.sp = self.sp.wrapping_add(2);
    }

    /// POP HL.
    pub fn pop_hl(&mut self)
        requires
            old(self)@.wf(),
        ensures
            final(self)@ == old(self)@.op_pop_hl(),
            final(self)@.wf(),
    {
        let sp = self.sp;
        let val = self.read_mem16(sp);
        self.set_hl(val);
        self.sp = self.sp.wrapping_add(2);
    }

    /// POP AF: the low nibble of the flags register stays zero.
    pub fn pop_af(&mut self)
        requires
            old(self)@.wf(),
        ensures
            final(self)@ == old(self)@.op_pop_af(),
            final(self)@.wf(),
    {
        let sp = self.sp;
        let val = self.read_mem16(sp) & 0xfff0;
        self.set_af(val);
        self.sp = self.sp.wrapping_add(2);
    }

    /// DI: disable interrupts.
    pub fn di(&mut self)
        ensures
            final(self)@ == old(self)@.op_di(),
            old(self)@.wf() ==> final(self)@.wf(),
    {
        self.ime = false;
    }

    /// EI: enable interrupts.
    pub fn ei(&mut self)
        ensures
            final(self)@ == old(self)@.op_ei(),
            old(self)@.wf() ==> final(self)@.wf(),
    {
        self.ime = true;
    }

    /// RETI: enable interrupts and return.
    pub fn reti(&mut self)
        requires
            old(self)@.wf(),
        ensures
            final(self)@ == old(self)@.op_reti(),
            final(self)@.wf(),
    {
        self.ime = true;
        self._ret();
    }

    /// HALT: stop fetching until an interrupt wakes the processor.
    pub fn halt(&mut self)
        ensures
            final(self)@ == old(self)@.op_halt(),
            old(self)@.wf() ==> final(self)@.wf(),
    {
        self.halted = true;
    }

    /// Dispatch of the extended opcode space behind the prefix byte.
    pub fn prefix(&mut self)
        requires
            old(self)@.wf(),
        ensures
            final(self)@ == old(self)@.op_prefix(),
            final(self)@.wf(),
    {
        let opcode = self.read_d8();
        let pos = (opcode / 8) % 8;
        let reg = opcode % 8;

        match opcode {
            0x00..=0x07 => self.rlc(reg),
            0x08..=0x0f => self.rrc(reg),
            0x10..=0x17 => self.rl(reg),
            0x18..=0x1f => self.rr(reg),
            0x20..=0x27 => self.sla(reg),
            0x28..=0x2f => self.sra(reg),
            0x30..=0x37 => self.swap(reg),
            0x38..=0x3f => self.srl(reg),
            0x40..=0x7f => self.bit(pos, reg),
            0x80..=0xbf => self.res(pos, reg),
            0xc0..=0xff => self.set(pos, reg),
        }
    }
}

impl CpuView {
    /// The effect of the opcode `op` on the state right after its
    /// fetch: the primary dispatch table.  Opcode values with no
    /// assigned handler are one-byte no-effect instructions.
    pub open spec fn exec_op(self, op: u8) -> CpuView {
        let reg = (op % 8) as u8;
        let reg2 = ((op / 8) % 8) as u8;
        let pair = ((op / 16) % 4) as u8;
        let cci = ((op / 8) % 4) as u8;
        if op == 0x00 {
            self
        } else if op == 0x01 || op == 0x11 || op == 0x21 || op == 0x31 {
            self.op_ld_r16_d16(pair)
        } else if op == 0x02 {
            self.op_ld_ind_bc_a()
        } else if op == 0x12 {
            self.op_ld_ind_de_a()
        } else if op == 0x22 {
            self.op_ldi_hl_a()
        } else if op == 0x32 {
            self.op_ldd_hl_a()
        } else if op == 0x03 || op == 0x13 || op == 0x23 || op == 0x33 {
            self.op_inc_r16(pair)
        } else if op == 0x04 || op == 0x0c || op == 0x14 || op == 0x1c || op == 0x24 || op == 0x2c
            || op == 0x34 || op == 0x3c {
            self.op_inc_r8(reg2)
        } else if op == 0x05 || op == 0x0d || op == 0x15 || op == 0x1d || op == 0x25 || op == 0x2d
            || op == 0x35 || op == 0x3d {
            self.op_dec_r8(reg2)
        } else if op == 0x06 || op == 0x0e || op == 0x16 || op == 0x1e || op == 0x26 || op == 0x2e
            || op == 0x36 || op == 0x3e {
            self.op_ld_r8_d8(reg2)
        } else if op == 0x07 {
            self.op_rlca()
        } else if op == 0x0f {
            self.op_rrca()
        } else if op == 0x17 {
            self.op_rla()
        } else if op == 0x1f {
            self.op_rra()
        } else if op == 0x08 {
            self.op_ld_ind_d16_sp()
        } else if op == 0x09 || op == 0x19 || op == 0x29 || op == 0x39 {
            self.op_add_hl_r16(pair)
        } else if op == 0x0a {
            self.op_ld_a_ind_bc()
        } else if op == 0x1a {
            self.op_ld_a_ind_de()
        } else if op == 0x2a {
            self.op_ldi_a_hl()
        } else if op == 0x3a {
            self.op_ldd_a_hl()
        } else if op == 0x0b || op == 0x1b || op == 0x2b || op == 0x3b {
            self.op_dec_r16(pair)
        } else if op == 0x18 {
            self.op_jr_d8()
        } else if op == 0x20 || op == 0x28 || op == 0x30 || op == 0x38 {
            self.op_jr_cc_d8(cci)
        } else if op == 0x27 {
            self.op_daa()
        } else if op == 0x2f {
            self.op_cpl()
        } else if op == 0x37 {
            self.op_scf()
        } else if op == 0x3f {
            self.op_ccf()
        } else if op == 0x76 {
            self.op_halt()
        } else if 0x40 <= op <= 0x75 || 0x77 <= op <= 0x7f {
            self.op_ld_r8_r8(reg2, reg)
        } else if 0x80 <= op <= 0x87 {
            let (v, s) = self.read_r8(reg);
            s.alu_add(v)
        } else if 0x88 <= op <= 0x8f {
            let (v, s) = self.read_r8(reg);
            s.alu_adc(v)
        } else if 0x90 <= op <= 0x97 {
            let (v, s) = self.read_r8(reg);
            s.alu_sub(v)
        } else if 0x98 <= op <= 0x9f {
            let (v, s) = self.read_r8(reg);
            s.alu_sbc(v)
        } else if 0xa0 <= op <= 0xa7 {
            let (v, s) = self.read_r8(reg);
            s.alu_and(v)
        } else if 0xa8 <= op <= 0xaf {
            let (v, s) = self.read_r8(reg);
            s.alu_xor(v)
        } else if 0xb0 <= op <= 0xb7 {
            let (v, s) = self.read_r8(reg);
            s.alu_or(v)
        } else if 0xb8 <= op <= 0xbf {
            let (v, s) = self.read_r8(reg);
            s.alu_cp(v)
        } else if op == 0xc0 || op == 0xc8 || op == 0xd0 || op == 0xd8 {
            self.op_ret_cc(cci)
        } else if op == 0xc1 {
            self.op_pop_bc()
        } else if op == 0xd1 {
            self.op_pop_de()
        } else if op == 0xe1 {
            self.op_pop_hl()
        } else if op == 0xf1 {
            self.op_pop_af()
        } else if op == 0xc2 || op == 0xca || op == 0xd2 || op == 0xda {
            self.op_jp_cc_d8(cci)
        } else if op == 0xc3 {
            self.op_jp_d16()
        } else if op == 0xc4 || op == 0xcc || op == 0xd4 || op == 0xdc {
            self.op_call_cc_d16(cci)
        } else if op == 0xc5 {
            self.op_push_bc()
        } else if op == 0xd5 {
            self.op_push_de()
        } else if op == 0xe5 {
            self.op_push_hl()
        } else if op == 0xf5 {
            self.op_push_af()
        } else if op == 0xc6 {
            let (v, s) = self.read_d8();
            s.alu_add(v)
        } else if op == 0xce {
            let (v, s) = self.read_d8();
            s.alu_adc(v)
        } else if op == 0xd6 {
            let (v, s) = self.read_d8();
            s.alu_sub(v)
        } else if op == 0xde {
            let (v, s) = self.read_d8();
            s.alu_sbc(v)
        } else if op == 0xe6 {
            let (v, s) = self.read_d8();
            s.alu_and(v)
        } else if op == 0xee {
            let (v, s) = self.read_d8();
            s.alu_xor(v)
        } else if op == 0xf6 {
            let (v, s) = self.read_d8();
            s.alu_or(v)
        } else if op == 0xfe {
            let (v, s) = self.read_d8();
            s.alu_cp(v)
        } else if op == 0xc7 || op == 0xcf || op == 0xd7 || op == 0xdf || op == 0xe7 || op == 0xef
            || op == 0xf7 || op == 0xff {
            self.op_rst((reg2 * 8) as u8)
        } else if op == 0xc9 {
            self.op_ret()
        } else if op == 0xd9 {
            self.op_reti()
        } else if op == 0xcb {
            self.op_prefix()
        } else if op == 0xcd {
            self.op_call_d16()
        } else if op == 0xe0 {
            self.op_ld_io_d8_a()
        } else if op == 0xf0 {
            self.op_ld_a_io_d8()
        } else if op == 0xe2 {
            self.op_ld_io_c_a()
        } else if op == 0xf2 {
            self.op_ld_a_io_c()
        } else if op == 0xe8 {
            self.op_add_sp_d8()
        } else if op == 0xf8 {
            self.op_ld_hl_sp_d8()
        } else if op == 0xf9 {
            self.op_ld_sp_hl()
        } else if op == 0xe9 {
            self.op_jp_hl()
        } else if op == 0xea {
            self.op_ld_ind_d16_a()
        } else if op == 0xfa {
            self.op_ld_a_ind_d16()
        } else if op == 0xf3 {
            self.op_di()
        } else if op == 0xfb {
            self.op_ei()
        } else {
            self
        }
    }

    /// One whole instruction: the opcode fetched at the program
    /// counter, then its effect.
    pub open spec fn instr(self) -> CpuView {
        let (op, s1) = self.read_d8();
        s1.exec_op(op)
    }
}

impl CPU {
    /// Fetch the opcode at the program counter and execute its
    /// handler.  A value with no assigned handler is a one-byte
    /// no-effect instruction: emulation continues.
    #[verifier::rlimit(100)]
    #[verifier::spinoff_prover]
    pub fn fetch_and_exec(&mut self)
        requires
            old(self)@.wf(),
        ensures
            final(self)@ == old(self)@.instr(),
            final(self)@.wf(),
    {
        let opcode = self.read_d8();
        let reg = opcode % 8;
        let reg2 = (opcode / 8) % 8;
        let pair = (opcode / 16) % 4;
        let cci = (opcode / 8) % 4;

        match opcode {
            0x00 => self.nop(),
            0x01 | 0x11 | 0x21 | 0x31 => self.ld_r16_d16(pair),
            0x02 => self.ld_ind_bc_a(),
            0x12 => self.ld_ind_de_a(),
            0x22 => self.ldi_hl_a(),
            0x32 => self.ldd_hl_a(),
            0x03 | 0x13 | 0x23 | 0x33 => self.inc_r16(pair),
            0x04 | 0x0c | 0x14 | 0x1c | 0x24 | 0x2c | 0x34 | 0x3c => self.inc_r8(reg2),
            0x05 | 0x0d | 0x15 | 0x1d | 0x25 | 0x2d | 0x35 | 0x3d => self.dec_r8(reg2),
            0x06 | 0x0e | 0x16 | 0x1e | 0x26 | 0x2e | 0x36 | 0x3e => self.ld_r8_d8(reg2),
            0x07 => self.rlca(),
            0x0f => self.rrca(),
            0x17 => self.rla(),
            0x1f => self.rra(),
            0x08 => self.ld_ind_d16_sp(),
            0x09 | 0x19 | 0x29 | 0x39 => self.add_hl_r16(pair),
            0x0a => self.ld_a_ind_bc(),
            0x1a => self.ld_a_ind_de(),
            0x2a => self.ldi_a_hl(),
            0x3a => self.ldd_a_hl(),
            0x0b | 0x1b | 0x2b | 0x3b => self.dec_r16(pair),
            0x18 => self.jr_d8(),
            0x20 | 0x28 | 0x30 | 0x38 => self.jr_cc_d8(cci),
            0x27 => self.daa(),
            0x2f => self.cpl(),
            0x37 => self.scf(),
            0x3f => self.ccf(),
            0x76 => self.halt(),
            0x40..=0x75 | 0x77..=0x7f => self.ld_r8_r8(reg2, reg),
            0x80..=0x87 => self.add_r8(reg),
            0x88..=0x8f => self.adc_r8(reg),
            0x90..=0x97 => self.sub_r8(reg),
            0x98..=0x9f => self.sbc_r8(reg),
            0xa0..=0xa7 => self.and_r8(reg),
            0xa8..=0xaf => self.xor_r8(reg),
            0xb0..=0xb7 => self.or_r8(reg),
            0xb8..=0xbf => self.cp_r8(reg),
            0xc0 | 0xc8 | 0xd0 | 0xd8 => self.ret_cc(cci),
            0xc1 => self.pop_bc(),
            0xd1 => self.pop_de(),
            0xe1 => self.pop_hl(),
            0xf1 => self.pop_af(),
            0xc2 | 0xca | 0xd2 | 0xda => self.jp_cc_d8(cci),
            0xc3 => self.jp_d16(),
            0xc4 | 0xcc | 0xd4 | 0xdc => self.call_cc_d16(cci),
            0xc5 => self.push_bc(),
            0xd5 => self.push_de(),
            0xe5 => self.push_hl(),
            0xf5 => self.push_af(),
            0xc6 => self.add_d8(),
            0xce => self.adc_d8(),
            0xd6 => self.sub_d8(),
            0xde => self.sbc_d8(),
            0xe6 => self.and_d8(),
            0xee => self.xor_d8(),
            0xf6 => self.or_d8(),
            0xfe => self.cp_d8(),
            0xc7 | 0xcf | 0xd7 | 0xdf | 0xe7 | 0xef | 0xf7 | 0xff => self.rst(reg2 * 8),
            0xc9 => self.ret(),
            0xd9 => self.reti(),
            0xcb => self.prefix(),
            0xcd => self.call_d16(),
            0xe0 => self.ld_io_d8_a(),
            0xf0 => self.ld_a_io_d8(),
            0xe2 => self.ld_io_c_a(),
            0xf2 => self.ld_a_io_c(),
            0xe8 => self.add_sp_d8(),
            0xf8 => self.ld_hl_sp_d8(),
            0xf9 => self.ld_sp_hl(),
            0xe9 => self.jp_hl(),
            0xea => self.ld_ind_d16_a(),
            0xfa => self.ld_a_ind_d16(),
            0xf3 => self.di(),
            0xfb => self.ei(),
            // Reserved encodings: no assigned handler, no effect.
            _ => self.nop(),
        }
    }
}

impl CpuView {
    /// The interrupt poll after an instruction, taken only with the
    /// master switch on.  When some source is both requested and
    /// enabled, the lowest-numbered one fires: its request bit is
    /// cleared, the master switch and the halt latch drop, the program
    /// counter is pushed and jumps to the source's fixed service
    /// routine, at a fixed twenty-cycle dispatch cost.
    pub open spec fn irq_dispatch(self) -> CpuView {
        let pending = self.mmu.int_flag & self.mmu.int_enable;
        if pending & 0x1f == 0 {
            self
        } else {
            let idx: u8 = if pending & 0x01 != 0 {
                0
            } else if pending & 0x02 != 0 {
                1
            } else if pending & 0x04 != 0 {
                2
            } else if pending & 0x08 != 0 {
                3
            } else {
                4
            };
            let mask: u8 = if idx == 0 {
                0xfe
            } else if idx == 1 {
                0xfd
            } else if idx == 2 {
                0xfb
            } else if idx == 3 {
                0xf7
            } else {
                0xef
            };
            let s1 = CpuView {
                ime: false,
                halted: false,
                mmu: MmuView { int_flag: self.mmu.int_flag & mask, ..self.mmu },
                ..self
            };
            let s2 = CpuView { sp: s1.sp.wrapping_sub(2), ..s1 }.plus_cycles(12);
            let s3 = s2.write_mem16(s2.sp, s2.pc);
            CpuView { pc: (0x40 + idx * 8) as u16, ..s3 }
        }
    }

    /// One whole processor step: the instruction phase (or the fixed
    /// four-cycle halted idle), a device update, and — with the master
    /// switch on — the interrupt poll and a second device update.
    /// The second component is the step's total cycle count.
    pub open spec fn step_spec(self) -> (CpuView, u8) {
        let s0 = CpuView { cycle: 0, ..self };
        let s1 = if s0.halted {
            s0.plus_cycles(4)
        } else {
            s0.instr()
        };
        let s2 = CpuView { mmu: s1.mmu.update(), ..s1 };
        if s2.ime {
            let s3 = CpuView { cycle: 0, ..s2 };
            let s4 = s3.irq_dispatch();
            let s5 = CpuView { mmu: s4.mmu.update(), ..s4 };
            (s5, s1.cycle.wrapping_add(s4.cycle))
        } else {
            (s2, s1.cycle)
        }
    }
}

impl CPU {
    /// Poll the pending/enabled interrupt bits and service the
    /// lowest-numbered pending source, if any.
    pub fn check_irqs(&mut self)
        requires
            old(self)@.wf(),
        ensures
            final(self)@ == old(self)@.irq_dispatch(),
            final(self)@.wf(),
    {
        let pending = self.mmu.int_flag & self.mmu.int_enable;
        if pending & 0x1f != 0 {
            let idx: u8 = if pending & 0x01 != 0 {
                0
            } else if pending & 0x02 != 0 {
                1
            } else if pending & 0x04 != 0 {
                2
            } else if pending & 0x08 != 0 {
                3
            } else {
                4
            };
            let mask: u8 = if idx == 0 {
                0xfe
            } else if idx == 1 {
                0xfd
            } else if idx == 2 {
                0xfb
            } else if idx == 3 {
                0xf7
            } else {
                0xef
            };
            self.mmu.int_flag = self.mmu.int_flag & mask;
            self.ime = false;
            self.halted = false;
            self.sp = self.sp.wrapping_sub(2);
            self.cycle = self.cycle.wrapping_add(12);
            let sp = self.sp;
            let pc = self.pc;
            self.write_mem16(sp, pc);
            self.pc = 0x40 + (idx as u16) * 8;
        }
    }

    /// One processor step: execute one instruction (or idle four
    /// cycles while halted), advance every device, then service at
    /// most one pending interrupt.  Returns the number of cycles the
    /// step consumed, for the embedding loop to pace frame timing.
    pub fn step(&mut self) -> (t: u8)
        requires
            old(self)@.wf(),
        ensures
            final(self)@ == old(self)@.step_spec().0,
            t == old(self)@.step_spec().1,
            final(self)@.wf(),
    {
        self.cycle = 0;

        if self.halted {
            self.cycle = self.cycle.wrapping_add(4);
        } else {
            self.fetch_and_exec();
        }

        let mut total_cycle: u8 = self.cycle;

        let cycle = self.cycle;
        self.mmu.update(cycle);

        if self.ime {
            self.cycle = 0;
            self.check_irqs();
            let cycle2 = self.cycle;
            self.mmu.update(cycle2);
            total_cycle = total_cycle.wrapping_add(cycle2);
        }
        total_cycle
    }
}

/// Flag semantics of the 8-bit addition and subtraction: the add sets
/// carry exactly when the true sum exceeds 255 and half-carry exactly
/// when the low nibbles' sum exceeds 15; the sub sets carry exactly
/// when the subtrahend is larger and half-carry exactly when its low
/// nibble is larger; zero tracks the result byte and the subtract flag
/// tells the families apart.
pub proof fn lemma_add_sub_flags(s: CpuView, v: u8)
    ensures
        s.alu_add(v).f_c() == (s.a + v > 255),
        s.alu_add(v).f_h() == (s.a % 16 + v % 16 > 15),
        s.alu_add(v).f_z() == ((s.a + v) % 256 == 0),
        !s.alu_add(v).f_n(),
        s.alu_add(v).a == (s.a + v) % 256,
        s.alu_sub(v).f_c() == (s.a < v),
        s.alu_sub(v).f_h() == (s.a % 16 < v % 16),
        s.alu_sub(v).f_z() == (s.a == v),
        s.alu_sub(v).f_n(),
{
    crate::bits::lemma_u8_low_masks();
}

/// The flags-register low nibble is zero after any flag write: every
/// flag-setting operation stores a packed flags byte.
pub proof fn lemma_flags_low_nibble(s: CpuView, z: bool, n: bool, h: bool, c: bool)
    ensures
        s.with_flags(z, n, h, c).f & 0x0f == 0,
{
}

/// Decimal adjust is idempotent on an already-adjusted zero result:
/// with a zero accumulator and no pending subtract, half-carry or
/// carry, the adjustment changes nothing and reports zero.
pub proof fn lemma_daa_adjusted_zero(s: CpuView)
    requires
        s.a == 0,
        !s.f_n(),
        !s.f_h(),
        !s.f_c(),
    ensures
        s.op_daa().a == 0,
        s.op_daa().f_z(),
        !s.op_daa().f_c(),
        !s.op_daa().f_h(),
{
}

/// Interrupt priority: when the lowest-numbered source is both
/// requested and enabled, a dispatch serves exactly it — the program
/// counter vectors to its service routine, only its request bit is
/// cleared (bit 1 in particular survives), and the master switch
/// drops — whatever higher sources are pending.  The pushed return
/// address must not land on the request register itself.
pub proof fn lemma_irq_priority(s: CpuView)
    requires
        s.mmu.int_flag & s.mmu.int_enable & 0x01 != 0,
        s.sp.wrapping_sub(2) != 0xff0f,
        s.sp.wrapping_sub(1) != 0xff0f,
    ensures
        s.irq_dispatch().pc == 0x40,
        s.irq_dispatch().mmu.int_flag == s.mmu.int_flag & 0xfe,
        s.irq_dispatch().mmu.int_flag & 0x02 == s.mmu.int_flag & 0x02,
        !s.irq_dispatch().ime,
        !s.irq_dispatch().halted,
{
    let p = s.mmu.int_flag & s.mmu.int_enable;
    assert(p & 0x01 != 0 ==> p & 0x1f != 0) by (bit_vector);
    let f = s.mmu.int_flag;
    assert((f & 0xfe) & 0x02 == f & 0x02) by (bit_vector);
}

/// Interrupt priority through a whole step: with sources 0 and 1 both
/// requested and enabled, a step of a halted processor wakes it and
/// services source 0 first — only its request bit is cleared, the
/// program counter vectors to 0x40 with the old one pushed on the
/// stack, and the step costs the halted idle plus the fixed dispatch
/// cost.  The stack must sit in working RAM, clear of its echo.
pub proof fn lemma_step_services_lowest_interrupt(s: CpuView)
    requires
        s.wf(),
        s.halted,
        s.ime,
        !s.mmu.video.irq_vblank,
        !s.mmu.video.irq_lcdc,
        s.mmu.int_flag == 0x03,
        s.mmu.int_enable == 0x03,
        0xc002 <= s.sp <= 0xe000,
    ensures
        ({
            let (s9, t) = s.step_spec();
            &&& s9.pc == 0x40
            &&& s9.mmu.int_flag == 0x02
            &&& !s9.ime
            &&& !s9.halted
            &&& s9.sp == s.sp - 2
            &&& s9.mmu.read(s9.sp) == (s.pc & 0xff) as u8
            &&& s9.mmu.read((s9.sp + 1) as u16) == (s.pc >> 8) as u8
            &&& t == 4 + 20
        }),
{
    assert(0x03u8 & 0x03 == 0x03 && 0x03u8 & 0x1f == 0x03 && 0x03u8 & 0x01 == 0x01 && 0x03u8
        & 0xfe == 0x02) by (bit_vector);
}

} // verus!


