use gbcore::cartridge::{Cartridge, CartridgeError, CartridgeType, DestinationCode};

/// The header checksum formula: a wrapping fold of `acc - byte - 1`
/// over offsets 0x134..0x14d.
fn checksum_of(rom: &[u8]) -> u8 {
    let mut acc: u8 = 0;
    for i in 0x134..0x14d {
        acc = acc.wrapping_sub(rom[i]).wrapping_sub(1);
    }
    acc
}

/// A minimal valid image: 32 KiB, ROM-only, no RAM, checksum fixed up.
fn minimal_rom() -> Vec<u8> {
    let mut rom = vec![0u8; 0x8000];
    let cs = checksum_of(&rom);
    rom[0x14d] = cs;
    rom
}

#[test]
fn load_minimal_rom() {
    let cart = Cartridge::new(minimal_rom()).unwrap();
    assert_eq!(cart.rom_size, 0x8000);
    assert_eq!(cart.ram_size, 0);
    assert!(matches!(cart.cartridge_type, CartridgeType::RomOnly));
    assert!(matches!(cart.destination_code, DestinationCode::Japanese));
    assert!(!cart.sgb_flag);
    assert_eq!(cart.ram.len(), 0);
}

#[test]
fn checksum_of_zero_header_with_one_byte() {
    // All-zero header except a single 0x01 at 0x134: the fold gives
    // 0 - 1 - 1, then 24 more times - 0 - 1: 256*k - 26 = 230.
    let mut rom = vec![0u8; 0x8000];
    rom[0x134] = 0x01;
    assert_eq!(checksum_of(&rom), 230);
    rom[0x14d] = 230;
    let cart = Cartridge::new(rom).unwrap();
    assert_eq!(cart.header_checksum, 230);
}

#[test]
fn wrong_checksum_fails_to_load() {
    let mut rom = minimal_rom();
    rom[0x14d] = rom[0x14d].wrapping_add(1);
    assert!(matches!(Cartridge::new(rom), Err(CartridgeError::BadChecksum)));
}

#[test]
fn short_image_fails_to_load() {
    let rom = vec![0u8; 0x100];
    assert!(matches!(Cartridge::new(rom), Err(CartridgeError::TooShort)));
}

#[test]
fn bad_rom_size_code_fails_to_load() {
    let mut rom = vec![0u8; 0x8000];
    rom[0x148] = 9;
    let cs = checksum_of(&rom);
    rom[0x14d] = cs;
    assert!(matches!(Cartridge::new(rom), Err(CartridgeError::BadRomSize)));
}

#[test]
fn rom_size_mismatch_fails_to_load() {
    let mut rom = vec![0u8; 0x8000];
    rom[0x148] = 1; // declares 64 KiB but the image is 32 KiB
    let cs = checksum_of(&rom);
    rom[0x14d] = cs;
    assert!(matches!(Cartridge::new(rom), Err(CartridgeError::RomSizeMismatch)));
}

#[test]
fn bad_ram_size_code_fails_to_load() {
    let mut rom = vec![0u8; 0x8000];
    rom[0x149] = 6;
    let cs = checksum_of(&rom);
    rom[0x14d] = cs;
    assert!(matches!(Cartridge::new(rom), Err(CartridgeError::BadRamSize)));
}

/// An MBC1 image with 8 KiB of external RAM.
fn mbc1_rom_with_ram() -> Vec<u8> {
    let mut rom = vec![0u8; 0x8000];
    rom[0x147] = 0x01; // MBC1
    rom[0x149] = 2; // 8 KiB RAM
    let cs = checksum_of(&rom);
    rom[0x14d] = cs;
    rom
}

#[test]
fn external_ram_armed_and_disarmed() {
    let mut cart = Cartridge::new(mbc1_rom_with_ram()).unwrap();
    assert_eq!(cart.ram.len(), 0x2000);
    // Disarmed: reads give the fixed disabled value, writes vanish.
    assert_eq!(cart.read(0xa000), 0xff);
    cart.write(0xa000, 0x5a);
    assert_eq!(cart.ram[0], 0);
    // Any low nibble 0x0a arms RAM.
    cart.write(0x0000, 0x1a);
    cart.write(0xa000, 0x5a);
    assert_eq!(cart.read(0xa000), 0x5a);
    // Anything else disarms it again.
    cart.write(0x0000, 0x00);
    assert_eq!(cart.read(0xa000), 0xff);
}

/// A large image (8 MiB, 512 banks) so bank requests stay unmasked.
fn big_rom() -> Vec<u8> {
    let mut rom = vec![0u8; 0x800000];
    rom[0x147] = 0x01; // MBC1
    rom[0x148] = 8; // 8 MiB
    let cs = checksum_of(&rom);
    rom[0x14d] = cs;
    rom
}

#[test]
fn bank_field_zero_maps_to_bank_one() {
    let mut cart = Cartridge::new(big_rom()).unwrap();
    // Power-on: low field 0, high field 0 -> physical bank 1.
    assert_eq!(cart.effective_rom_bank(), 0x01);
    cart.write(0x2000, 0x00);
    assert_eq!(cart.effective_rom_bank(), 0x01);
}

#[test]
fn bank_field_0x20_maps_to_bank_0x21() {
    let mut cart = Cartridge::new(big_rom()).unwrap();
    cart.write(0x2000, 0x00); // low five bits zero
    cart.write(0x4000, 0x01); // high field 1: request 0x20
    assert_eq!(cart.effective_rom_bank(), 0x21);
}

#[test]
fn two_bank_image_masks_every_request() {
    let mut cart = Cartridge::new(minimal_rom()).unwrap();
    for field in 0u8..0x20 {
        cart.write(0x2000, field);
        let bank = cart.effective_rom_bank();
        assert!(bank == 0 || bank == 1);
    }
    // An even request wraps to bank 0, an odd one to bank 1.
    cart.write(0x2000, 0x12);
    assert_eq!(cart.effective_rom_bank(), 0);
    cart.write(0x2000, 0x13);
    assert_eq!(cart.effective_rom_bank(), 1);
}

#[test]
fn high_window_reads_effective_bank() {
    let mut rom = vec![0u8; 0x20000]; // 8 banks
    rom[0x147] = 0x01;
    rom[0x148] = 2;
    rom[0x4000] = 0x11; // bank 1, offset 0
    rom[0x8000] = 0x22; // bank 2, offset 0
    rom[0xc123] = 0x33; // bank 3, offset 0x123
    let cs = checksum_of(&rom);
    rom[0x14d] = cs;
    let mut cart = Cartridge::new(rom).unwrap();
    assert_eq!(cart.read(0x4000), 0x11);
    cart.write(0x2000, 2);
    assert_eq!(cart.read(0x4000), 0x22);
    cart.write(0x2000, 3);
    assert_eq!(cart.read(0x4123), 0x33);
    // The low window always reads physical bank 0.
    assert_eq!(cart.read(0x0147), 0x01);
}

#[test]
fn banking_mode_selects_ram_bank() {
    let mut rom = vec![0u8; 0x8000];
    rom[0x147] = 0x03; // MBC1+RAM+BATTERY
    rom[0x149] = 3; // 32 KiB RAM: four banks
    let cs = checksum_of(&rom);
    rom[0x14d] = cs;
    let mut cart = Cartridge::new(rom).unwrap();
    cart.write(0x0000, 0x0a); // arm RAM
    cart.write(0x6000, 0x01); // RAM-banking mode
    cart.write(0x4000, 0x02); // RAM bank 2
    cart.write(0xa000, 0x77);
    assert_eq!(cart.ram[2 * 0x2000], 0x77);
    // Back in ROM-banking mode the window shows bank 0 again.
    cart.write(0x6000, 0x00);
    assert_eq!(cart.read(0xa000), 0x00);
    cart.write(0x6000, 0x01);
    assert_eq!(cart.read(0xa000), 0x77);
}

#[test]
fn load_ram_restores_save_data() {
    let mut cart = Cartridge::new(mbc1_rom_with_ram()).unwrap();
    let save = vec![0xabu8; 0x2000];
    assert!(cart.load_ram(&save));
    cart.write(0x0000, 0x0a);
    assert_eq!(cart.read(0xa000), 0xab);
    // A wrong-sized image is refused and changes nothing.
    let bad = vec![0xcdu8; 0x100];
    assert!(!cart.load_ram(&bad));
    assert_eq!(cart.read(0xa000), 0xab);
}

#[test]
fn header_fields_parse_from_fixed_offsets() {
    let mut rom = vec![0u8; 0x8000];
    let title = b"TESTTITLE";
    rom[0x134..0x134 + title.len()].copy_from_slice(title);
    rom[0x146] = 0x03; // super-console flag
    rom[0x14a] = 0x01; // non-Japanese
    rom[0x14b] = 0x33; // old licensee code
    rom[0x14c] = 0x02; // mask ROM version
    let cs = checksum_of(&rom);
    rom[0x14d] = cs;
    let cart = Cartridge::new(rom).unwrap();
    assert_eq!(&cart.title[..9], title);
    assert_eq!(cart.title.len(), 0x143 - 0x134);
    assert_eq!(cart.entry_point.len(), 3);
    assert_eq!(cart.logo.len(), 0x133 - 0x104);
    assert_eq!(cart.new_licensee_code.len(), 1);
    assert!(cart.sgb_flag);
    assert!(matches!(cart.destination_code, DestinationCode::NonJapanese));
    assert_eq!(cart.old_licensee_code, 0x33);
    assert_eq!(cart.mask_rom_version_number, 0x02);
    let t = cart.title_to_string();
    assert!(t.starts_with("TESTTITLE"));
    assert_eq!(t.len(), 15);
}

#[test]
fn size_display_text() {
    let cart = Cartridge::new(minimal_rom()).unwrap();
    assert_eq!(cart.rom_to_string(), "ROM size 32KB");
    assert_eq!(cart.ram_to_string(), "RAM size 0KB");
    let cart2 = Cartridge::new(mbc1_rom_with_ram()).unwrap();
    assert_eq!(cart2.ram_to_string(), "RAM size 8KB");
}

#[test]
fn cartridge_type_names() {
    assert_eq!(Cartridge::cartridge_type_from_code(0x00).as_str(), "ROM ONLY");
    assert_eq!(Cartridge::cartridge_type_from_code(0x01).as_str(), "MBC1");
    assert_eq!(Cartridge::cartridge_type_from_code(0x03).as_str(), "MBC1+RAM+BATTERY");
    assert_eq!(Cartridge::cartridge_type_from_code(0x13).as_str(), "MBC3+RAM+BATTERY");
    assert_eq!(Cartridge::cartridge_type_from_code(0x1e).as_str(), "MBC5+RUMBLE+RAM+BATTERY");
    assert_eq!(Cartridge::cartridge_type_from_code(0xff).as_str(), "HuC1+RAM+BATTERY");
    // An unassigned code falls back to a plain ROM.
    assert_eq!(Cartridge::cartridge_type_from_code(0x42).as_str(), "ROM ONLY");
}
