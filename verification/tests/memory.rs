use jeebie::mbc::{Cartridge, CartridgeError, RomOnly};
use jeebie::mmu::MMU;

fn banked_rom(banks: usize) -> Vec<u8> {
    // each bank filled with its own index so reads identify the bank
    let mut rom = vec![0u8; banks * 0x4000];
    for b in 0..banks {
        for i in 0..0x4000 {
            rom[b * 0x4000 + i] = b as u8;
        }
    }
    rom[0x147] = 0x01; // banked controller
    rom
}

#[test]
fn work_ram_round_trip_over_whole_region() {
    let mut mmu = MMU::new();
    let mut addr: u32 = 0xC000;
    while addr < 0xE000 {
        let v = (addr % 251) as u8;
        mmu.write_b(addr as u16, v);
        assert_eq!(mmu.read_b(addr as u16), v);
        addr += 1;
    }
}

#[test]
fn echo_region_mirrors_work_ram() {
    let mut mmu = MMU::new();
    mmu.write_b(0xC123, 0x7E);
    assert_eq!(mmu.read_b(0xE123), 0x7E);
    mmu.write_b(0xE200, 0x55);
    assert_eq!(mmu.read_b(0xC200), 0x55);
}

#[test]
fn high_ram_and_ie_round_trip() {
    let mut mmu = MMU::new();
    mmu.write_b(0xFF80, 0x11);
    mmu.write_b(0xFFFE, 0x22);
    mmu.write_b(0xFFFF, 0x1F);
    assert_eq!(mmu.read_b(0xFF80), 0x11);
    assert_eq!(mmu.read_b(0xFFFE), 0x22);
    assert_eq!(mmu.read_b(0xFFFF), 0x1F);
}

#[test]
fn unowned_gap_reads_fixed_value_and_ignores_writes() {
    let mut mmu = MMU::new();
    assert_eq!(mmu.read_b(0xFEA0), 0xFF);
    mmu.write_b(0xFEA0, 0x12);
    assert_eq!(mmu.read_b(0xFEA0), 0xFF);
    assert_eq!(mmu.read_b(0xFEFF), 0xFF);
}

#[test]
fn words_are_little_endian() {
    let mut mmu = MMU::new();
    mmu.write_w(0xC000, 0xBEEF);
    assert_eq!(mmu.read_b(0xC000), 0xEF);
    assert_eq!(mmu.read_b(0xC001), 0xBE);
    assert_eq!(mmu.read_w(0xC000), 0xBEEF);
}

#[test]
fn dma_copies_a_page_into_the_sprite_table() {
    let mut mmu = MMU::new();
    for i in 0..0xA0u16 {
        mmu.write_b(0xC000 + i, (i as u8).wrapping_mul(3));
    }
    mmu.write_b(0xFF46, 0xC0);
    for i in 0..0xA0u16 {
        assert_eq!(mmu.read_b(0xFE00 + i), (i as u8).wrapping_mul(3));
    }
    // the trigger value itself lands in the I/O block
    assert_eq!(mmu.read_b(0xFF46), 0xC0);
}

#[test]
fn rom_only_ignores_rom_writes_and_backs_external_ram() {
    let mut rom = vec![0u8; 0x8000];
    rom[0x0042] = 0x99;
    let mut m = RomOnly::with_data(rom);
    assert_eq!(m.read(0x0042), 0x99);
    m.write(0x0042, 0x11);
    assert_eq!(m.read(0x0042), 0x99, "ROM bytes never change");
    m.write(0xA010, 0x77);
    assert_eq!(m.read(0xA010), 0x77);
}

#[test]
fn rom_only_new_is_all_zero() {
    let m = RomOnly::new();
    assert_eq!(m.read(0x0000), 0);
    assert_eq!(m.read(0x7FFF), 0);
    assert_eq!(m.read(0xA000), 0);
}

#[test]
fn short_rom_reads_past_the_image_give_fixed_value() {
    let m = RomOnly::with_data(vec![0xAB; 16]);
    assert_eq!(m.read(0x000F), 0xAB);
    assert_eq!(m.read(0x0010), 0xFF);
    assert_eq!(m.read(0x7FFF), 0xFF);
}

#[test]
fn banked_selecting_bank_k_reads_that_bank() {
    let rom = banked_rom(8);
    let mut cart = Cartridge::new(rom).unwrap();
    // bank 1 is selected at reset
    assert_eq!(cart.read(0x4000), 1);
    for k in 2..8u8 {
        cart.write(0x2000, k);
        assert_eq!(cart.read(0x4000), k);
        assert_eq!(cart.read(0x7FFF), k);
    }
    // the fixed window still reads bank 0
    assert_eq!(cart.read(0x0000), 0);
}

#[test]
fn banked_bank_zero_behaves_as_bank_one() {
    let rom = banked_rom(4);
    let mut cart = Cartridge::new(rom).unwrap();
    cart.write(0x2000, 2);
    assert_eq!(cart.read(0x4000), 2);
    cart.write(0x2000, 0);
    assert_eq!(cart.read(0x4000), 1, "selecting bank 0 lands on bank 1");
}

#[test]
fn banked_ram_is_gated_by_the_enable_latch() {
    let rom = banked_rom(2);
    let mut cart = Cartridge::new(rom).unwrap();
    // disabled: reads are fixed, writes ignored
    cart.write(0xA000, 0x12);
    assert_eq!(cart.read(0xA000), 0xFF);
    // enable with the magic low nibble
    cart.write(0x0000, 0x0A);
    cart.write(0xA000, 0x12);
    assert_eq!(cart.read(0xA000), 0x12);
    // disable again
    cart.write(0x0000, 0x00);
    assert_eq!(cart.read(0xA000), 0xFF);
}

#[test]
fn banked_ram_banks_switch_in_mode_one() {
    let rom = banked_rom(2);
    let mut cart = Cartridge::new(rom).unwrap();
    cart.write(0x0000, 0x0A); // enable RAM
    cart.write(0x6000, 0x01); // mode 1: RAM banking active
    cart.write(0x4000, 0x00);
    cart.write(0xA000, 0xAA);
    cart.write(0x4000, 0x01);
    cart.write(0xA000, 0xBB);
    cart.write(0x4000, 0x00);
    assert_eq!(cart.read(0xA000), 0xAA);
    cart.write(0x4000, 0x01);
    assert_eq!(cart.read(0xA000), 0xBB);
}

#[test]
fn empty_image_is_rejected() {
    let r = Cartridge::new(Vec::new());
    assert_eq!(r.err(), Some(CartridgeError::EmptyImage));
}

#[test]
fn unsupported_controller_byte_is_rejected() {
    let mut rom = vec![0u8; 0x8000];
    rom[0x147] = 0x20;
    let r = Cartridge::new(rom);
    assert_eq!(r.err(), Some(CartridgeError::UnsupportedController(0x20)));
}

#[test]
fn supported_controller_bytes_are_accepted() {
    for kind in [0x00u8, 0x01, 0x03, 0x08, 0x0F, 0x13, 0x19, 0x1E] {
        let mut rom = vec![0u8; 0x8000];
        rom[0x147] = kind;
        assert!(Cartridge::new(rom).is_ok(), "kind {kind:#x} must load");
    }
}

#[test]
fn error_descriptions_are_stable() {
    assert_eq!(CartridgeError::EmptyImage.describe(), "cartridge image is empty");
    assert_eq!(
        CartridgeError::UnsupportedController(9).describe(),
        "unsupported memory bank controller type"
    );
}

#[test]
fn mmu_routes_vram_and_cartridge() {
    let rom = banked_rom(2);
    let cart = Cartridge::new(rom).unwrap();
    let mut mmu = MMU::new_with_rom(cart);
    assert_eq!(mmu.read_b(0x4000), 1);
    mmu.write_b(0x8000, 0x3C);
    assert_eq!(mmu.read_b(0x8000), 0x3C);
    // a ROM-range write reaches the controller's bank latch, not the bytes
    mmu.write_b(0x2000, 0x01);
    assert_eq!(mmu.read_b(0x0000), 0);
}
