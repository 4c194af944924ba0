//! Cartridge and palette loader tests.

use jadeite::cart::{Cart, Mirroring, TVSystem};
use jadeite::palette::Palette;

fn base_image(prg_pages: u8, chr_pages: u8) -> Vec<u8> {
    let mut image = vec![0u8; 16];
    image[0] = 0x4E;
    image[1] = 0x45;
    image[2] = 0x53;
    image[3] = 0x1A;
    image[4] = prg_pages;
    image[5] = chr_pages;
    image.extend(vec![0u8; prg_pages as usize * 16384]);
    image.extend(vec![0u8; chr_pages as usize * 8192]);
    image
}

#[test]
fn parses_header_fields() {
    let mut image = base_image(2, 1);
    image[6] = 0b0000_0011; // vertical mirroring, save RAM
    image[8] = 2;
    image[9] = 1; // PAL
    let cart = Cart::read_from(&image).unwrap();
    assert_eq!(cart.data.prg_rom_page_count, 2);
    assert_eq!(cart.data.chr_rom_page_count, 1);
    assert_eq!(cart.data.mirroring, Mirroring::Vertical);
    assert!(cart.data.sram_enable);
    assert!(!cart.data.trainer_present);
    assert_eq!(cart.data.mapper_id, 0);
    assert_eq!(cart.data.ram_banks, 2);
    assert_eq!(cart.data.tv_system, TVSystem::PAL);
    assert_eq!(cart.data.prg_rom.len(), 32768);
    assert_eq!(cart.data.chr_rom.len(), 8192);
    assert_eq!(cart.data.chr_ram.len(), 0);
}

#[test]
fn character_ram_appears_when_no_character_rom() {
    let image = base_image(1, 0);
    let cart = Cart::read_from(&image).unwrap();
    assert_eq!(cart.data.chr_rom.len(), 0);
    assert_eq!(cart.data.chr_ram.len(), 8192);
}

#[test]
fn trainer_is_read_when_flagged() {
    let mut image = vec![0u8; 16];
    image[0] = 0x4E;
    image[1] = 0x45;
    image[2] = 0x53;
    image[3] = 0x1A;
    image[4] = 1;
    image[5] = 0;
    image[6] = 0b0000_0100;
    let mut trainer = vec![0u8; 512];
    trainer[0] = 0x77;
    image.extend(trainer);
    image.extend(vec![0u8; 16384]);
    let cart = Cart::read_from(&image).unwrap();
    assert!(cart.data.trainer_present);
    let t = cart.data.trainer.as_ref().unwrap();
    assert_eq!(t.len(), 512);
    assert_eq!(t[0], 0x77);
}

#[test]
fn truncated_image_is_rejected() {
    assert!(Cart::read_from(&vec![0u8; 10]).is_err());
    let mut image = base_image(1, 1);
    image.truncate(16 + 1000);
    assert!(Cart::read_from(&image).is_err());
}

#[test]
fn unsupported_mapper_is_rejected() {
    let mut image = base_image(1, 1);
    image[6] = 0x10; // mapper 1
    assert!(Cart::read_from(&image).is_err());
}

#[test]
fn rom_reads_route_through_the_mapper() {
    let mut image = base_image(1, 1);
    image[16] = 0xAB; // program ROM offset 0
    image[16 + 0x3FFF] = 0xCD; // program ROM last byte
    let cart = Cart::read_from(&image).unwrap();
    // One page mirrors $8000..$BFFF onto $C000..$FFFF.
    assert_eq!(cart.cpu_read(0x8000), 0xAB);
    assert_eq!(cart.cpu_read(0xC000), 0xAB);
    assert_eq!(cart.cpu_read(0xFFFF), 0xCD);
}

#[test]
fn character_writes_land_in_character_ram_only() {
    let image = base_image(1, 0);
    let mut cart = Cart::read_from(&image).unwrap();
    cart.ppu_write(0x0123, 0x42);
    assert_eq!(cart.ppu_read(0x0123), 0x42);
    let image2 = base_image(1, 1);
    let mut cart2 = Cart::read_from(&image2).unwrap();
    cart2.ppu_write(0x0123, 0x42);
    assert_eq!(cart2.ppu_read(0x0123), 0x00);
}

#[test]
fn palette_decodes_64_triples() {
    let mut data = Vec::new();
    for i in 0..192u32 {
        data.push((i % 256) as u8);
    }
    let pal = Palette::read_data(&data).unwrap();
    assert_eq!(pal.color(0), jadeite::palette::Color { r: 0, g: 1, b: 2 });
    assert_eq!(pal.color(63), jadeite::palette::Color { r: 189, g: 190, b: 191 });
    assert!(Palette::read_data(&vec![0u8; 191]).is_err());
}
