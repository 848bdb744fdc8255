use gbcore::cartridge::Cartridge;
use gbcore::mmu::MMU;

/// The header checksum formula.
fn checksum_of(rom: &[u8]) -> u8 {
    let mut acc: u8 = 0;
    for i in 0x134..0x14d {
        acc = acc.wrapping_sub(rom[i]).wrapping_sub(1);
    }
    acc
}

fn minimal_mmu() -> MMU {
    let mut rom = vec![0u8; 0x8000];
    let cs = checksum_of(&rom);
    rom[0x14d] = cs;
    MMU::new(Cartridge::new(rom).unwrap())
}

#[test]
fn echo_ram_round_trip_full_range() {
    let mut mmu = minimal_mmu();
    for k in 0u16..0x1e00 {
        let b = (k % 251) as u8;
        mmu.write(0xe000 + k, b);
        assert_eq!(mmu.read(0xc000 + k), b);
        let b2 = b.wrapping_add(1);
        mmu.write(0xc000 + k, b2);
        assert_eq!(mmu.read(0xe000 + k), b2);
    }
}

#[test]
fn ram_and_hram_round_trip() {
    let mut mmu = minimal_mmu();
    mmu.write(0xc000, 0x11);
    mmu.write(0xdfff, 0x22);
    mmu.write(0xff80, 0x33);
    mmu.write(0xfffe, 0x44);
    assert_eq!(mmu.read(0xc000), 0x11);
    assert_eq!(mmu.read(0xdfff), 0x22);
    assert_eq!(mmu.read(0xff80), 0x33);
    assert_eq!(mmu.read(0xfffe), 0x44);
}

#[test]
fn video_regions_route_to_the_video_port() {
    let mut mmu = minimal_mmu();
    mmu.write(0x8000, 0x55);
    mmu.write(0x9fff, 0x66);
    mmu.write(0xfe00, 0x77);
    mmu.write(0xfe9f, 0x88);
    mmu.write(0xff40, 0x99);
    mmu.write(0xff4b, 0xaa);
    assert_eq!(mmu.read(0x8000), 0x55);
    assert_eq!(mmu.read(0x9fff), 0x66);
    assert_eq!(mmu.read(0xfe00), 0x77);
    assert_eq!(mmu.read(0xfe9f), 0x88);
    assert_eq!(mmu.read(0xff40), 0x99);
    assert_eq!(mmu.read(0xff4b), 0xaa);
    assert_eq!(mmu.video.vram[0], 0x55);
    assert_eq!(mmu.video.oam[0], 0x77);
}

#[test]
fn unmapped_addresses_read_open_bus() {
    let mut mmu = minimal_mmu();
    assert_eq!(mmu.read(0xfea5), 0xff);
    assert_eq!(mmu.read(0xff00), 0xff);
    assert_eq!(mmu.read(0xff46), 0xff);
    mmu.write(0xfea5, 0x12);
    assert_eq!(mmu.read(0xfea5), 0xff);
}

#[test]
fn interrupt_registers_are_mapped() {
    let mut mmu = minimal_mmu();
    mmu.write(0xff0f, 0x15);
    mmu.write(0xffff, 0x1f);
    assert_eq!(mmu.read(0xff0f), 0x15);
    assert_eq!(mmu.read(0xffff), 0x1f);
    assert_eq!(mmu.int_flag, 0x15);
    assert_eq!(mmu.int_enable, 0x1f);
}

#[test]
fn rom_window_reads_through_the_cartridge() {
    let mut rom = vec![0u8; 0x8000];
    rom[0x0000] = 0xaa;
    rom[0x4abc] = 0xbb;
    let cs = checksum_of(&rom);
    rom[0x14d] = cs;
    let mmu = MMU::new(Cartridge::new(rom).unwrap());
    assert_eq!(mmu.read(0x0000), 0xaa);
    // Power-on bank field 0 remaps to bank 1: the high window shows
    // the second 16 KiB of the image.
    assert_eq!(mmu.read(0x4abc), 0xbb);
}

#[test]
fn oam_dma_copies_a_block_from_working_ram() {
    let mut mmu = minimal_mmu();
    for i in 0u16..0xa0 {
        mmu.write(0xc200 + i, (i as u8).wrapping_mul(3));
    }
    mmu.write(0xff46, 0xc2);
    for i in 0u16..0xa0 {
        assert_eq!(mmu.read(0xfe00 + i), (i as u8).wrapping_mul(3));
    }
}

#[test]
fn oam_dma_with_an_out_of_range_source_is_refused() {
    let mut mmu = minimal_mmu();
    mmu.write(0xfe00, 0x42);
    mmu.write(0xff46, 0xe1); // source 0xe100 lies outside the window
    assert_eq!(mmu.read(0xfe00), 0x42);
}

#[test]
fn update_aggregates_interrupt_lines() {
    let mut mmu = minimal_mmu();
    assert_eq!(mmu.int_flag, 0);
    mmu.video.request_vblank();
    mmu.update(4);
    assert_eq!(mmu.int_flag, 0x01);
    assert!(!mmu.video.irq_vblank);
    mmu.video.request_lcdc();
    mmu.update(4);
    assert_eq!(mmu.int_flag, 0x03);
    assert!(!mmu.video.irq_lcdc);
    // The lines are one-shot: another update adds nothing.
    mmu.write(0xff0f, 0);
    mmu.update(4);
    assert_eq!(mmu.int_flag, 0);
}

#[test]
fn writes_below_the_rom_top_reach_the_bank_registers() {
    let mut mmu = minimal_mmu();
    mmu.write(0x2000, 0x15);
    assert_eq!(mmu.cartridge.bank_lo, 0x15);
    mmu.write(0x4000, 0x02);
    assert_eq!(mmu.cartridge.bank_hi, 0x02);
    mmu.write(0x6000, 0x01);
    assert!(mmu.cartridge.mode);
    mmu.write(0x0000, 0x0a);
    assert!(mmu.cartridge.ram_enable);
}
