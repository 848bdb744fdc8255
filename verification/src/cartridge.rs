//! The cartridge and its memory-bank controller.
//!
//! A cartridge owns an immutable program ROM image, a mutable external
//! RAM image, header metadata parsed once at load time, and the four
//! CPU-writable bank-control registers.  Loading validates the header
//! (checksum, size codes) and is the only fatal failure point of the
//! core; afterwards every read and write is total and proved in-bounds,
//! with bank arithmetic reduced modulo the actual bank count of the
//! image.

use vstd::prelude::*;

use crate::bits::lemma_u8_low_masks;

verus! {

/// Destination-market code at header offset 0x14a.
#[derive(Clone, Copy, Debug, PartialEq, Eq, Structural)]
pub enum DestinationCode {
    Japanese,
    NonJapanese,
    Unknown,
}

/// Bank-controller kind at header offset 0x147.
#[derive(Clone, Copy, Debug, PartialEq, Eq, Structural)]
pub enum CartridgeType {
    RomOnly,
    Mbc1,
    Mbc1Ram,
    Mbc1RamBattery,
    Mbc2,
    Mbc2Battery,
    RomRam,
    RomRamBattery,
    Mmm01,
    Mmm01Ram,
    Mmm01RamBattery,
    Mbc3,
    Mbc3Ram,
    Mbc3RamBattery,
    Mbc3TimerBattery,
    Mbc3TimerRamBattery,
    Mbc5,
    Mbc5Ram,
    Mbc5RamBattery,
    Mbc5Rumble,
    Mbc5RumbleRam,
    Mbc5RumbleRamBattery,
    Mbc6,
    Mbc7SensorRumbleRamBattery,
    PocketCamera,
    BandaiTama5,
    HuC3,
    HuC1RamBattery,
}

/// Why a cartridge image was refused at load time.  These are the fatal
/// load errors: they surface to the embedding application before any
/// instruction executes, and nothing after a successful load can fail.
#[derive(Clone, Copy, Debug, PartialEq, Eq, Structural)]
pub enum CartridgeError {
    /// The image is shorter than the fixed header region.
    TooShort,
    /// The header checksum byte does not match the recomputed value.
    BadChecksum,
    /// The declared ROM-size code is not a supported code.
    BadRomSize,
    /// The image length differs from the declared ROM size.
    RomSizeMismatch,
    /// The declared RAM-size code is not a recognized code.
    BadRamSize,
}

/// Mathematical model of a cartridge: the two byte images, the parsed
/// header fields, and the bank-control registers.
#[verifier::ext_equal]
pub struct CartView {
    pub rom: Seq<u8>,
    pub ram: Seq<u8>,
    pub entry_point: Seq<u8>,
    pub logo: Seq<u8>,
    pub title: Seq<u8>,
    pub new_licensee_code: Seq<u8>,
    pub sgb_flag: bool,
    pub cartridge_type: CartridgeType,
    pub rom_size: usize,
    pub ram_size: usize,
    pub destination_code: DestinationCode,
    pub old_licensee_code: u8,
    pub mask_rom_version_number: u8,
    pub header_checksum: u8,
    pub ram_enable: bool,
    pub bank_lo: u8,
    pub bank_hi: u8,
    pub mode: bool,
}

/// Declared ROM size in bytes for a header size code (0 through 8).
pub open spec fn spec_rom_size(code: u8) -> usize {
    if code == 0 {
        0x8000
    } else if code == 1 {
        0x10000
    } else if code == 2 {
        0x20000
    } else if code == 3 {
        0x40000
    } else if code == 4 {
        0x80000
    } else if code == 5 {
        0x100000
    } else if code == 6 {
        0x200000
    } else if code == 7 {
        0x400000
    } else if code == 8 {
        0x800000
    } else {
        0
    }
}

/// Declared RAM size in bytes for a header size code (0 through 5).
pub open spec fn spec_ram_size(code: u8) -> usize {
    if code == 0 {
        0
    } else if code == 1 {
        0x800
    } else if code == 2 {
        0x2000
    } else if code == 3 {
        0x8000
    } else if code == 4 {
        0x20000
    } else if code == 5 {
        0x10000
    } else {
        0
    }
}

/// The ROM sizes a loaded image can have: a power-of-two multiple of
/// 32 KiB up to 8 MiB.
pub open spec fn valid_rom_size(n: usize) -> bool {
    ||| n == 0x8000
    ||| n == 0x10000
    ||| n == 0x20000
    ||| n == 0x40000
    ||| n == 0x80000
    ||| n == 0x100000
    ||| n == 0x200000
    ||| n == 0x400000
    ||| n == 0x800000
}

/// The RAM sizes a loaded image can declare.
pub open spec fn valid_ram_size(n: usize) -> bool {
    ||| n == 0
    ||| n == 0x800
    ||| n == 0x2000
    ||| n == 0x8000
    ||| n == 0x20000
    ||| n == 0x10000
}

/// Bank-controller kind for a header type code; unassigned codes fall
/// back to a plain ROM.
pub open spec fn spec_cartridge_type(code: u8) -> CartridgeType {
    if code == 0x00 {
        CartridgeType::RomOnly
    } else if code == 0x01 {
        CartridgeType::Mbc1
    } else if code == 0x02 {
        CartridgeType::Mbc1Ram
    } else if code == 0x03 {
        CartridgeType::Mbc1RamBattery
    } else if code == 0x05 {
        CartridgeType::Mbc2
    } else if code == 0x06 {
        CartridgeType::Mbc2Battery
    } else if code == 0x08 {
        CartridgeType::RomRam
    } else if code == 0x09 {
        CartridgeType::RomRamBattery
    } else if code == 0x0b {
        CartridgeType::Mmm01
    } else if code == 0x0c {
        CartridgeType::Mmm01Ram
    } else if code == 0x0d {
        CartridgeType::Mmm01RamBattery
    } else if code == 0x11 {
        CartridgeType::Mbc3
    } else if code == 0x12 {
        CartridgeType::Mbc3Ram
    } else if code == 0x13 {
        CartridgeType::Mbc3RamBattery
    } else if code == 0x0f {
        CartridgeType::Mbc3TimerBattery
    } else if code == 0x10 {
        CartridgeType::Mbc3TimerRamBattery
    } else if code == 0x19 {
        CartridgeType::Mbc5
    } else if code == 0x1a {
        CartridgeType::Mbc5Ram
    } else if code == 0x1b {
        CartridgeType::Mbc5RamBattery
    } else if code == 0x1c {
        CartridgeType::Mbc5Rumble
    } else if code == 0x1d {
        CartridgeType::Mbc5RumbleRam
    } else if code == 0x1e {
        CartridgeType::Mbc5RumbleRamBattery
    } else if code == 0x20 {
        CartridgeType::Mbc6
    } else if code == 0x22 {
        CartridgeType::Mbc7SensorRumbleRamBattery
    } else if code == 0xfc {
        CartridgeType::PocketCamera
    } else if code == 0xfd {
        CartridgeType::BandaiTama5
    } else if code == 0xfe {
        CartridgeType::HuC3
    } else if code == 0xff {
        CartridgeType::HuC1RamBattery
    } else {
        CartridgeType::RomOnly
    }
}

/// Destination code for a header byte; unassigned codes are unknown.
pub open spec fn spec_destination_code(code: u8) -> DestinationCode {
    if code == 0x00 {
        DestinationCode::Japanese
    } else if code == 0x01 {
        DestinationCode::NonJapanese
    } else {
        DestinationCode::Unknown
    }
}

/// Running header checksum over bytes 0x134 up to (excluding) `n`:
/// each byte folds in as `acc - byte - 1`, wrapping.
pub open spec fn checksum_upto(rom: Seq<u8>, n: int) -> u8
    decreases n,
{
    if n <= 0x134 {
        0u8
    } else {
        checksum_upto(rom, n - 1).wrapping_sub(rom[n - 1]).wrapping_sub(1)
    }
}

/// The header checksum of an image: the fold over bytes 0x134..0x14d.
pub open spec fn spec_header_checksum(rom: Seq<u8>) -> u8 {
    checksum_upto(rom, 0x14d)
}

/// Which fatal load error (if any) an image is refused with, checked in
/// the order the loader checks them.
pub open spec fn load_error(rom: Seq<u8>) -> Option<CartridgeError> {
    if rom.len() < 0x150 {
        Some(CartridgeError::TooShort)
    } else if spec_header_checksum(rom) != rom[0x14d] {
        Some(CartridgeError::BadChecksum)
    } else if rom[0x148] > 8 {
        Some(CartridgeError::BadRomSize)
    } else if rom.len() != spec_rom_size(rom[0x148]) {
        Some(CartridgeError::RomSizeMismatch)
    } else if rom[0x149] > 5 {
        Some(CartridgeError::BadRamSize)
    } else {
        None
    }
}

/// The cartridge state right after a successful load: header fields
/// parsed from their fixed offsets, RAM zeroed, bank registers at
/// power-on values.
pub open spec fn spec_load(rom: Seq<u8>) -> CartView {
    CartView {
        rom: rom,
        ram: Seq::new(spec_ram_size(rom[0x149]) as nat, |i: int| 0u8),
        entry_point: rom.subrange(0x100, 0x103),
        logo: rom.subrange(0x104, 0x133),
        title: rom.subrange(0x134, 0x143),
        new_licensee_code: rom.subrange(0x144, 0x145),
        sgb_flag: rom[0x146] == 0x03,
        cartridge_type: spec_cartridge_type(rom[0x147]),
        rom_size: spec_rom_size(rom[0x148]),
        ram_size: spec_ram_size(rom[0x149]),
        destination_code: spec_destination_code(rom[0x14a]),
        old_licensee_code: rom[0x14b],
        mask_rom_version_number: rom[0x14c],
        header_checksum: spec_header_checksum(rom),
        ram_enable: false,
        bank_lo: 0,
        bank_hi: 0,
        mode: false,
    }
}

impl CartView {
    /// Well-formedness: the images have their declared sizes, the sizes
    /// are recognized codes' sizes, and the bank registers hold only
    /// their meaningful bits.
    pub open spec fn wf(self) -> bool {
        &&& self.rom.len() == self.rom_size
        &&& valid_rom_size(self.rom_size)
        &&& self.ram.len() == self.ram_size
        &&& valid_ram_size(self.ram_size)
        &&& self.bank_lo < 0x20
        &&& self.bank_hi < 0x04
    }

    /// Number of 16 KiB banks in the ROM image.
    pub open spec fn rom_bank_count(self) -> int {
        self.rom.len() as int / 0x4000
    }

    /// The bank number requested by the registers, before masking: the
    /// low five-bit field, with zero remapped to one (the hardware
    /// cannot address a multiple of 0x20 through the upper window), and
    /// the two-bit high field contributing only in ROM-banking mode.
    pub open spec fn bank_field(self) -> int {
        let lo: int = if self.bank_lo == 0 {
            1
        } else {
            self.bank_lo as int
        };
        if self.mode {
            lo
        } else {
            self.bank_hi * 32 + lo
        }
    }

    /// The physical bank the upper ROM window reads: the requested bank
    /// reduced by the actual bank count of the image.
    pub open spec fn effective_rom_bank(self) -> int {
        self.bank_field() % self.rom_bank_count()
    }

    /// The external-RAM bank: selected by the high field only in
    /// RAM-banking mode, otherwise bank zero.
    pub open spec fn ram_bank(self) -> int {
        if self.mode {
            self.bank_hi as int
        } else {
            0
        }
    }

    /// Physical index into the RAM image for an external-RAM window
    /// address, reduced by the actual RAM size.
    pub open spec fn ram_index(self, addr: u16) -> int {
        (self.ram_bank() * 0x2000 + (addr - 0xa000)) % self.ram.len() as int
    }

    /// What a read returns: the low ROM window always reads physical
    /// bank zero, the high window reads the effective bank, the RAM
    /// window reads only while armed, and everything else is the fixed
    /// disabled-read value.
    pub open spec fn read(self, addr: u16) -> u8 {
        if addr < 0x4000 {
            self.rom[addr as int]
        } else if addr < 0x8000 {
            self.rom[self.effective_rom_bank() * 0x4000 + (addr - 0x4000)]
        } else if 0xa000 <= addr < 0xc000 {
            if self.ram_enable && self.ram.len() > 0 {
                self.ram[self.ram_index(addr)]
            } else {
                0xffu8
            }
        } else {
            0xffu8
        }
    }

    /// What a write does: each 8 KiB-aligned window below the ROM top
    /// sets one bank-control register, the external-RAM window stores a
    /// byte only while armed, and everything else is ignored.
    pub open spec fn write(self, addr: u16, val: u8) -> CartView {
        if addr < 0x2000 {
            CartView { ram_enable: val & 0x0f == 0x0a, ..self }
        } else if addr < 0x4000 {
            CartView { bank_lo: val & 0x1f, ..self }
        } else if addr < 0x6000 {
            CartView { bank_hi: val & 0x03, ..self }
        } else if addr < 0x8000 {
            CartView { mode: val & 0x01 == 1, ..self }
        } else if 0xa000 <= addr < 0xc000 {
            if self.ram_enable && self.ram.len() > 0 {
                CartView { ram: self.ram.update(self.ram_index(addr), val), ..self }
            } else {
                self
            }
        } else {
            self
        }
    }
}

/// A cartridge: program ROM, external RAM, parsed header metadata and
/// the bank-control registers.
pub struct Cartridge {
    pub rom: Vec<u8>,
    pub ram: Vec<u8>,
    pub entry_point: Vec<u8>,
    pub logo: Vec<u8>,
    pub title: Vec<u8>,
    pub new_licensee_code: Vec<u8>,
    pub sgb_flag: bool,
    pub cartridge_type: CartridgeType,
    pub rom_size: usize,
    pub ram_size: usize,
    pub destination_code: DestinationCode,
    pub old_licensee_code: u8,
    pub mask_rom_version_number: u8,
    pub header_checksum: u8,
    pub ram_enable: bool,
    pub bank_lo: u8,
    pub bank_hi: u8,
    pub mode: bool,
}

impl View for Cartridge {
    type V = CartView;

    open spec fn view(&self) -> CartView {
        CartView {
            rom: self.rom@,
            ram: self.ram@,
            entry_point: self.entry_point@,
            logo: self.logo@,
            title: self.title@,
            new_licensee_code: self.new_licensee_code@,
            sgb_flag: self.sgb_flag,
            cartridge_type: self.cartridge_type,
            rom_size: self.rom_size,
            ram_size: self.ram_size,
            destination_code: self.destination_code,
            old_licensee_code: self.old_licensee_code,
            mask_rom_version_number: self.mask_rom_version_number,
            header_checksum: self.header_checksum,
            ram_enable: self.ram_enable,
            bank_lo: self.bank_lo,
            bank_hi: self.bank_hi,
            mode: self.mode,
        }
    }
}

impl CartridgeType {
    /// The display name of a bank-controller kind.
    pub open spec fn spec_name(self) -> Seq<char> {
        match self {
            CartridgeType::RomOnly => "ROM ONLY"@,
            CartridgeType::Mbc1 => "MBC1"@,
            CartridgeType::Mbc1Ram => "MBC1+RAM"@,
            CartridgeType::Mbc1RamBattery => "MBC1+RAM+BATTERY"@,
            CartridgeType::Mbc2 => "MBC2"@,
            CartridgeType::Mbc2Battery => "MBC2+BATTERY"@,
            CartridgeType::RomRam => "ROM+RAM"@,
            CartridgeType::RomRamBattery => "ROM+RAM+BATTERY"@,
            CartridgeType::Mmm01 => "MMM01"@,
            CartridgeType::Mmm01Ram => "MMM01+RAM"@,
            CartridgeType::Mmm01RamBattery => "MMM01+RAM+BATTERY"@,
            CartridgeType::Mbc3 => "MBC3"@,
            CartridgeType::Mbc3Ram => "MBC3+RAM"@,
            CartridgeType::Mbc3RamBattery => "MBC3+RAM+BATTERY"@,
            CartridgeType::Mbc3TimerBattery => "MBC3+TIMER+BATTERY"@,
            CartridgeType::Mbc3TimerRamBattery => "MBC3+TIMER+RAM+BATTERY"@,
            CartridgeType::Mbc5 => "MBC5"@,
            CartridgeType::Mbc5Ram => "MBC5+RAM"@,
            CartridgeType::Mbc5RamBattery => "MBC5+RAM+BATTERY"@,
            CartridgeType::Mbc5Rumble => "MBC5+RUMBLE"@,
            CartridgeType::Mbc5RumbleRam => "MBC5+RUMBLE+RAM"@,
            CartridgeType::Mbc5RumbleRamBattery => "MBC5+RUMBLE+RAM+BATTERY"@,
            CartridgeType::Mbc6 => "MBC6"@,
            CartridgeType::Mbc7SensorRumbleRamBattery => "MBC7+SENSOR+RUMBLE+RAM+BATTERY"@,
            CartridgeType::PocketCamera => "POCKET CAMERA"@,
            CartridgeType::BandaiTama5 => "BANDAI TAMA5"@,
            CartridgeType::HuC3 => "HuC3"@,
            CartridgeType::HuC1RamBattery => "HuC1+RAM+BATTERY"@,
        }
    }

    /// Display name of the bank-controller kind.
    pub fn as_str(&self) -> (r: &'static str)
        ensures
            r@ == self.spec_name(),
    {
        match self {
            CartridgeType::RomOnly => "ROM ONLY",
            CartridgeType::Mbc1 => "MBC1",
            CartridgeType::Mbc1Ram => "MBC1+RAM",
            CartridgeType::Mbc1RamBattery => "MBC1+RAM+BATTERY",
            CartridgeType::Mbc2 => "MBC2",
            CartridgeType::Mbc2Battery => "MBC2+BATTERY",
            CartridgeType::RomRam => "ROM+RAM",
            CartridgeType::RomRamBattery => "ROM+RAM+BATTERY",
            CartridgeType::Mmm01 => "MMM01",
            CartridgeType::Mmm01Ram => "MMM01+RAM",
            CartridgeType::Mmm01RamBattery => "MMM01+RAM+BATTERY",
            CartridgeType::Mbc3 => "MBC3",
            CartridgeType::Mbc3Ram => "MBC3+RAM",
            CartridgeType::Mbc3RamBattery => "MBC3+RAM+BATTERY",
            CartridgeType::Mbc3TimerBattery => "MBC3+TIMER+BATTERY",
            CartridgeType::Mbc3TimerRamBattery => "MBC3+TIMER+RAM+BATTERY",
            CartridgeType::Mbc5 => "MBC5",
            CartridgeType::Mbc5Ram => "MBC5+RAM",
            CartridgeType::Mbc5RamBattery => "MBC5+RAM+BATTERY",
            CartridgeType::Mbc5Rumble => "MBC5+RUMBLE",
            CartridgeType::Mbc5RumbleRam => "MBC5+RUMBLE+RAM",
            CartridgeType::Mbc5RumbleRamBattery => "MBC5+RUMBLE+RAM+BATTERY",
            CartridgeType::Mbc6 => "MBC6",
            CartridgeType::Mbc7SensorRumbleRamBattery => "MBC7+SENSOR+RUMBLE+RAM+BATTERY",
            CartridgeType::PocketCamera => "POCKET CAMERA",
            CartridgeType::BandaiTama5 => "BANDAI TAMA5",
            CartridgeType::HuC3 => "HuC3",
            CartridgeType::HuC1RamBattery => "HuC1+RAM+BATTERY",
        }
    }
}

impl Cartridge {
    /// Load a cartridge image: parse the fixed header region, verify
    /// the header checksum and the declared sizes, and set the bank
    /// registers to their power-on values.  Returns exactly the error
    /// that [`load_error`] assigns to a refused image.
    pub fn new(rom: Vec<u8>) -> (r: Result<Cartridge, CartridgeError>)
        ensures
            match r {
                Ok(c) => load_error(rom@) is None && c@ == spec_load(rom@) && c@.wf(),
                Err(e) => load_error(rom@) == Some(e),
            },
    {
        if rom.len() < 0x150 {
            return Err(CartridgeError::TooShort);
        }
        let checksum = Self::header_checksum(&rom);
        if checksum != rom[0x14d] {
            return Err(CartridgeError::BadChecksum);
        }
        if rom[0x148] > 8 {
            return Err(CartridgeError::BadRomSize);
        }
        let rom_size = Self::rom_size(&rom);
        if rom.len() != rom_size {
            return Err(CartridgeError::RomSizeMismatch);
        }
        if rom[0x149] > 5 {
            return Err(CartridgeError::BadRamSize);
        }
        let ram_size = Self::ram_size(&rom);
        let c = Cartridge {
            entry_point: Self::entry_point(&rom),
            logo: Self::logo(&rom),
            title: Self::title(&rom),
            new_licensee_code: Self::new_licensee_code(&rom),
            sgb_flag: Self::sgb_flag(&rom),
            cartridge_type: Self::cartridge_type(&rom),
            rom_size: rom_size,
            ram_size: ram_size,
            destination_code: Self::destination_code(&rom),
            old_licensee_code: Self::old_licensee_code(&rom),
            mask_rom_version_number: Self::mask_rom_version_number(&rom),
            header_checksum: checksum,
            ram: vec![0u8; ram_size],
            rom: rom,
            ram_enable: false,
            bank_lo: 0,
            bank_hi: 0,
            mode: false,
        };
        proof {
            assert(c@ =~~= spec_load(c.rom@));
        }
        Ok(c)
    }

    /// Bytes of one half-open header range, in order.
    fn copy_range(rom: &Vec<u8>, start: usize, end: usize) -> (r: Vec<u8>)
        requires
            start <= end <= rom@.len(),
        ensures
            r@ == rom@.subrange(start as int, end as int),
    {
        let mut r: Vec<u8> = Vec::new();
        let mut i: usize = start;
        while i < end
            invariant
                start <= i <= end <= rom@.len(),
                r@ == rom@.subrange(start as int, i as int),
            decreases end - i,
        {
            r.push(rom[i]);
            i = i + 1;
            proof {
                assert(r@ =~= rom@.subrange(start as int, i as int));
            }
        }
        r
    }

    /// Entry-point bytes, header offsets 0x100..0x103.
    fn entry_point(rom: &Vec<u8>) -> (r: Vec<u8>)
        requires
            rom@.len() >= 0x150,
        ensures
            r@ == rom@.subrange(0x100, 0x103),
    {
        Self::copy_range(rom, 0x100, 0x103)
    }

    /// Logo bytes, header offsets 0x104..0x133.
    fn logo(rom: &Vec<u8>) -> (r: Vec<u8>)
        requires
            rom@.len() >= 0x150,
        ensures
            r@ == rom@.subrange(0x104, 0x133),
    {
        Self::copy_range(rom, 0x104, 0x133)
    }

    /// Title bytes, header offsets 0x134..0x143.
    fn title(rom: &Vec<u8>) -> (r: Vec<u8>)
        requires
            rom@.len() >= 0x150,
        ensures
            r@ == rom@.subrange(0x134, 0x143),
    {
        Self::copy_range(rom, 0x134, 0x143)
    }

    /// New-licensee-code bytes, header offsets 0x144..0x145.
    fn new_licensee_code(rom: &Vec<u8>) -> (r: Vec<u8>)
        requires
            rom@.len() >= 0x150,
        ensures
            r@ == rom@.subrange(0x144, 0x145),
    {
        Self::copy_range(rom, 0x144, 0x145)
    }

    /// Super-console flag, header offset 0x146.
    fn sgb_flag(rom: &Vec<u8>) -> (r: bool)
        requires
            rom@.len() >= 0x150,
        ensures
            r == (rom@[0x146] == 0x03),
    {
        0x03 == rom[0x146]
    }

    /// Bank-controller kind, header offset 0x147.
    fn cartridge_type(rom: &Vec<u8>) -> (r: CartridgeType)
        requires
            rom@.len() >= 0x150,
        ensures
            r == spec_cartridge_type(rom@[0x147]),
    {
        Self::cartridge_type_from_code(rom[0x147])
    }

    /// Decode a bank-controller type code; unassigned codes fall back
    /// to a plain ROM.
    pub fn cartridge_type_from_code(code: u8) -> (r: CartridgeType)
        ensures
            r == spec_cartridge_type(code),
    {
        match code {
            0x00 => CartridgeType::RomOnly,
            0x01 => CartridgeType::Mbc1,
            0x02 => CartridgeType::Mbc1Ram,
            0x03 => CartridgeType::Mbc1RamBattery,
            0x05 => CartridgeType::Mbc2,
            0x06 => CartridgeType::Mbc2Battery,
            0x08 => CartridgeType::RomRam,
            0x09 => CartridgeType::RomRamBattery,
            0x0b => CartridgeType::Mmm01,
            0x0c => CartridgeType::Mmm01Ram,
            0x0d => CartridgeType::Mmm01RamBattery,
            0x11 => CartridgeType::Mbc3,
            0x12 => CartridgeType::Mbc3Ram,
            0x13 => CartridgeType::Mbc3RamBattery,
            0x0f => CartridgeType::Mbc3TimerBattery,
            0x10 => CartridgeType::Mbc3TimerRamBattery,
            0x19 => CartridgeType::Mbc5,
            0x1a => CartridgeType::Mbc5Ram,
            0x1b => CartridgeType::Mbc5RamBattery,
            0x1c => CartridgeType::Mbc5Rumble,
            0x1d => CartridgeType::Mbc5RumbleRam,
            0x1e => CartridgeType::Mbc5RumbleRamBattery,
            0x20 => CartridgeType::Mbc6,
            0x22 => CartridgeType::Mbc7SensorRumbleRamBattery,
            0xfc => CartridgeType::PocketCamera,
            0xfd => CartridgeType::BandaiTama5,
            0xfe => CartridgeType::HuC3,
            0xff => CartridgeType::HuC1RamBattery,
            _ => CartridgeType::RomOnly,
        }
    }

    /// Destination code, header offset 0x14a.
    fn destination_code(rom: &Vec<u8>) -> (r: DestinationCode)
        requires
            rom@.len() >= 0x150,
        ensures
            r == spec_destination_code(rom@[0x14a]),
    {
        match rom[0x14a] {
            0x00 => DestinationCode::Japanese,
            0x01 => DestinationCode::NonJapanese,
            _ => DestinationCode::Unknown,
        }
    }

    /// Old licensee code, header offset 0x14b.
    fn old_licensee_code(rom: &Vec<u8>) -> (r: u8)
        requires
            rom@.len() >= 0x150,
        ensures
            r == rom@[0x14b],
    {
        rom[0x14b]
    }

    /// Mask ROM version number, header offset 0x14c.
    fn mask_rom_version_number(rom: &Vec<u8>) -> (r: u8)
        requires
            rom@.len() >= 0x150,
        ensures
            r == rom@[0x14c],
    {
        rom[0x14c]
    }

    /// Recompute the header checksum: fold `acc - byte - 1`, wrapping,
    /// over header offsets 0x134..0x14d.
    fn header_checksum(rom: &Vec<u8>) -> (r: u8)
        requires
            rom@.len() >= 0x150,
        ensures
            r == spec_header_checksum(rom@),
    {
        let mut checksum: u8 = 0;
        let mut i: usize = 0x134;
        while i < 0x14d
            invariant
                0x134 <= i <= 0x14d,
                rom@.len() >= 0x150,
                checksum == checksum_upto(rom@, i as int),
            decreases 0x14d - i,
        {
            checksum = checksum.wrapping_sub(rom[i]).wrapping_sub(1);
            i = i + 1;
        }
        checksum
    }

    /// Declared ROM size in bytes, header offset 0x148.
    fn rom_size(rom: &Vec<u8>) -> (r: usize)
        requires
            rom@.len() >= 0x150,
            rom@[0x148] <= 8,
        ensures
            r == spec_rom_size(rom@[0x148]),
    {
        match rom[0x148] {
            0 => 0x8000,
            1 => 0x10000,
            2 => 0x20000,
            3 => 0x40000,
            4 => 0x80000,
            5 => 0x100000,
            6 => 0x200000,
            7 => 0x400000,
            _ => 0x800000,
        }
    }

    /// Declared RAM size in bytes, header offset 0x149.
    fn ram_size(rom: &Vec<u8>) -> (r: usize)
        requires
            rom@.len() >= 0x150,
            rom@[0x149] <= 5,
        ensures
            r == spec_ram_size(rom@[0x149]),
    {
        match rom[0x149] {
            0 => 0,
            1 => 0x800,
            2 => 0x2000,
            3 => 0x8000,
            4 => 0x20000,
            _ => 0x10000,
        }
    }

    /// The physical ROM bank the upper window currently reads.
    pub fn effective_rom_bank(&self) -> (b: usize)
        requires
            self@.wf(),
        ensures
            b == self@.effective_rom_bank(),
            b < self@.rom_bank_count(),
    {
        let lo: usize = if self.bank_lo == 0 {
            1
        } else {
            self.bank_lo as usize
        };
        let field: usize = if self.mode {
            lo
        } else {
            (self.bank_hi as usize) * 32 + lo
        };
        let count: usize = self.rom.len() / 0x4000;
        field % count
    }

    /// Read a byte through the cartridge's bus window.
    pub fn read(&self, addr: u16) -> (r: u8)
        requires
            self@.wf(),
        ensures
            r == self@.read(addr),
    {
        if addr < 0x4000 {
            self.rom[addr as usize]
        } else if addr < 0x8000 {
            let bank = self.effective_rom_bank();
            self.rom[bank * 0x4000 + (addr as usize - 0x4000)]
        } else if 0xa000 <= addr && addr < 0xc000 {
            if self.ram_enable && self.ram.len() > 0 {
                self.ram[self.ram_index(addr)]
            } else {
                0xff
            }
        } else {
            0xff
        }
    }

    /// Physical index into external RAM for a RAM-window address.
    fn ram_index(&self, addr: u16) -> (i: usize)
        requires
            0xa000 <= addr < 0xc000,
            self.ram.len() > 0,
        ensures
            i == self@.ram_index(addr),
            i < self.ram.len(),
    {
        let rbank: usize = if self.mode {
            self.bank_hi as usize
        } else {
            0
        };
        (rbank * 0x2000 + (addr as usize - 0xa000)) % self.ram.len()
    }

    /// Write a byte through the cartridge's bus window: bank-register
    /// decode below the ROM top, a RAM store while armed, and nothing
    /// anywhere else.
    pub fn write(&mut self, addr: u16, val: u8)
        ensures
            final(self)@ == old(self)@.write(addr, val),
            old(self)@.wf() ==> final(self)@.wf(),
    {
        proof {
            lemma_u8_low_masks();
        }
        if addr < 0x2000 {
            self.ram_enable = (val & 0x0f) == 0x0a;
        } else if addr < 0x4000 {
            self.bank_lo = val & 0x1f;
        } else if addr < 0x6000 {
            self.bank_hi = val & 0x03;
        } else if addr < 0x8000 {
            self.mode = (val & 0x01) == 1;
        } else if 0xa000 <= addr && addr < 0xc000 {
            if self.ram_enable && self.ram.len() > 0 {
                let i = self.ram_index(addr);
                self.ram.set(i, val);
            }
        }
    }

    /// Advance the cartridge by an elapsed-cycle count.  The bank
    /// controller has no time-dependent state, so nothing changes.
    pub fn update(&mut self, _tick: u8)
        ensures
            *final(self) == *old(self),
    {
    }

    /// The cartridge title as text.  The header's title bytes must be
    /// well-formed text; a loaded image with a mangled title field has
    /// no textual title.
    pub fn title_to_string(&self) -> (r: String)
        requires
            vstd::utf8::valid_utf8(self@.title),
        ensures
            r@ == vstd::utf8::decode_utf8(self@.title),
    {
        utf8_to_string(&self.title)
    }

    /// The declared ROM size as display text.
    pub fn rom_to_string(&self) -> (r: String)
        ensures
            r@ == rom_size_text(self@.rom_size),
    {
        if self.rom_size == 0x8000 {
            String::from_str("ROM size 32KB")
        } else if self.rom_size == 0x10000 {
            String::from_str("ROM size 64KB")
        } else if self.rom_size == 0x20000 {
            String::from_str("ROM size 128KB")
        } else if self.rom_size == 0x40000 {
            String::from_str("ROM size 256KB")
        } else if self.rom_size == 0x80000 {
            String::from_str("ROM size 512KB")
        } else if self.rom_size == 0x100000 {
            String::from_str("ROM size 1024KB")
        } else if self.rom_size == 0x200000 {
            String::from_str("ROM size 2048KB")
        } else if self.rom_size == 0x400000 {
            String::from_str("ROM size 4096KB")
        } else {
            String::from_str("ROM size 8192KB")
        }
    }

    /// The declared RAM size as display text.
    pub fn ram_to_string(&self) -> (r: String)
        ensures
            r@ == ram_size_text(self@.ram_size),
    {
        if self.ram_size == 0 {
            String::from_str("RAM size 0KB")
        } else if self.ram_size == 0x800 {
            String::from_str("RAM size 2KB")
        } else if self.ram_size == 0x2000 {
            String::from_str("RAM size 8KB")
        } else if self.ram_size == 0x8000 {
            String::from_str("RAM size 32KB")
        } else if self.ram_size == 0x20000 {
            String::from_str("RAM size 128KB")
        } else {
            String::from_str("RAM size 64KB")
        }
    }

    /// Restore external RAM from a save-data image.  The image is taken
    /// only when its length matches the cartridge's RAM size; the
    /// return value says whether it was.
    pub fn load_ram(&mut self, data: &Vec<u8>) -> (loaded: bool)
        ensures
            loaded == (data@.len() == old(self)@.ram.len()),
            loaded ==> final(self)@ == (CartView { ram: data@, ..old(self)@ }),
            !loaded ==> *final(self) == *old(self),
            old(self)@.wf() ==> final(self)@.wf(),
    {
        if data.len() == self.ram.len() {
            self.ram = Self::copy_range(data, 0, data.len());
            proof {
                assert(self.ram@ =~= data@);
            }
            true
        } else {
            false
        }
    }
}

/// The display text for a declared ROM size.
pub open spec fn rom_size_text(n: usize) -> Seq<char> {
    if n == 0x8000 {
        "ROM size 32KB"@
    } else if n == 0x10000 {
        "ROM size 64KB"@
    } else if n == 0x20000 {
        "ROM size 128KB"@
    } else if n == 0x40000 {
        "ROM size 256KB"@
    } else if n == 0x80000 {
        "ROM size 512KB"@
    } else if n == 0x100000 {
        "ROM size 1024KB"@
    } else if n == 0x200000 {
        "ROM size 2048KB"@
    } else if n == 0x400000 {
        "ROM size 4096KB"@
    } else {
        "ROM size 8192KB"@
    }
}

/// The display text for a declared RAM size.
pub open spec fn ram_size_text(n: usize) -> Seq<char> {
    if n == 0 {
        "RAM size 0KB"@
    } else if n == 0x800 {
        "RAM size 2KB"@
    } else if n == 0x2000 {
        "RAM size 8KB"@
    } else if n == 0x8000 {
        "RAM size 32KB"@
    } else if n == 0x20000 {
        "RAM size 128KB"@
    } else {
        "RAM size 64KB"@
    }
}

/// Relies on String::from_utf8: a byte vector holding valid UTF-8 text
/// decodes to exactly the scalar sequence that the UTF-8 coding
/// assigns to those bytes.
#[verifier::external_body]
fn utf8_to_string(bytes: &Vec<u8>) -> (r: String)
    requires
        vstd::utf8::valid_utf8(bytes@),
    ensures
        r@ == vstd::utf8::decode_utf8(bytes@),
{
    match String::from_utf8(bytes.clone()) {
        Ok(s) => s,
        Err(_) => String::new(),
    }
}

/// A bank-field whose five-bit low part is zero is remapped one bank
/// up, whatever the high field and mode: field value 0 requests
/// physical bank 1, field value 0x20 requests 0x21, and so on.
pub proof fn lemma_bank_zero_remap(c: CartView)
    requires
        c.bank_lo == 0,
    ensures
        c.mode ==> c.bank_field() == 1,
        !c.mode ==> c.bank_field() == c.bank_hi * 32 + 1,
{
}

/// Reduction by the actual bank count keeps every request inside the
/// image: a two-bank cartridge only ever serves bank 0 or bank 1.
pub proof fn lemma_two_bank_mask(c: CartView)
    requires
        c.wf(),
        c.rom.len() == 0x8000,
    ensures
        0 <= c.effective_rom_bank() < 2,
{
}

} // verus!
