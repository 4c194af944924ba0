//! PPU tests: frame timing, VBlank entry and the interrupt edge, the
//! register ports, and video memory behind the data port.

use jadeite::cart::Cart;
use jadeite::console::Console;
use jadeite::ppu::Ppu;

fn make_cart() -> Cart {
    let mut image = vec![0u8; 16 + 16384 + 8192];
    image[0] = 0x4E;
    image[1] = 0x45;
    image[2] = 0x53;
    image[3] = 0x1A;
    image[4] = 1;
    image[5] = 1;
    image[16 + 0x3FFC] = 0x00;
    image[16 + 0x3FFD] = 0xC0;
    Cart::read_from(&image).unwrap()
}

/// Step a fresh PPU to an exact scanline and dot.
fn ppu_at(cart: &Cart, scanline: u16, dot: u16) -> Ppu {
    let mut ppu = Ppu::new();
    while !(ppu.scanline == scanline && ppu.dot == dot) {
        ppu.step(cart);
    }
    ppu
}

#[test]
fn reset_position_is_prerender_line() {
    let ppu = Ppu::new();
    assert_eq!(ppu.scanline, 261);
    assert_eq!(ppu.dot, 0);
}

#[test]
fn vblank_entry_after_342_dots_from_line_240() {
    let cart = make_cart();
    let mut ppu = ppu_at(&cart, 240, 0);
    // Enable the interrupt at VBlank entry.
    let mut c = make_cart();
    ppu.write(&mut c, 0x2000, 0x80);
    assert!(!ppu.ppu_status.vblank || ppu.scanline == 240);
    // Passing the pre-render line earlier cleared the flag.
    assert!(!ppu.ppu_status.vblank);
    for _ in 0..342 {
        ppu.step(&cart);
    }
    assert_eq!(ppu.scanline, 241);
    assert_eq!(ppu.dot, 1);
    assert!(ppu.ppu_status.vblank);
    assert!(ppu.nmi_signal);
}

#[test]
fn console_consumes_the_interrupt_signal() {
    // A cartridge full of NOPs whose interrupt vector points at $C100.
    let mut image = vec![0u8; 16 + 16384 + 8192];
    image[0] = 0x4E;
    image[1] = 0x45;
    image[2] = 0x53;
    image[3] = 0x1A;
    image[4] = 1;
    image[5] = 1;
    for i in 0..16384 {
        image[16 + i] = 0xEA;
    }
    image[16 + 0x3FFA] = 0x00;
    image[16 + 0x3FFB] = 0xC1;
    image[16 + 0x3FFC] = 0x00;
    image[16 + 0x3FFD] = 0xC0;
    let mut nes = Console::new();
    nes.insert_cart(Cart::read_from(&image).unwrap());
    nes.reset_to(0xC000);
    // Enable NMI at VBlank.
    nes.cpu_bus.write(0x2000, 0x80);
    // Run console ticks until the PPU raises the signal; the console latches
    // it and the CPU services it within the same tick, so neither the
    // signal nor the latch is ever visible afterwards -- only the jump
    // through the interrupt vector is.
    let mut serviced = false;
    for _ in 0..120000 {
        if nes.step().is_err() {
            break;
        }
        assert!(!nes.cpu_bus.ppu.nmi_signal, "signal must be consumed the same tick");
        assert!(!nes.cpu.nmi_triggered, "the latch is serviced the tick it is set");
        if nes.cpu.reg.PC == 0xC100 {
            serviced = true;
            break;
        }
    }
    assert!(serviced);
}

#[test]
fn exactly_one_interrupt_per_frame() {
    let cart = make_cart();
    let mut ppu = ppu_at(&cart, 0, 0);
    let mut c = make_cart();
    ppu.write(&mut c, 0x2000, 0x80);
    let mut raises = 0;
    for _ in 0..(2 * 89342) {
        ppu.step(&cart);
        if ppu.nmi_signal {
            raises += 1;
            ppu.nmi_signal = false;
        }
    }
    assert_eq!(raises, 2);
}

#[test]
fn status_read_clears_vblank_and_toggle() {
    let cart = make_cart();
    let mut ppu = ppu_at(&cart, 241, 1);
    assert!(ppu.ppu_status.vblank);
    // Write half an address so the shared toggle is set.
    let mut c = make_cart();
    ppu.write(&mut c, 0x2006, 0x21);
    assert!(ppu.write_toggle);
    let status = ppu.read(&cart, 0x2002);
    assert_ne!(status & 0x80, 0);
    assert!(!ppu.ppu_status.vblank);
    assert!(!ppu.write_toggle);
    let status2 = ppu.read(&cart, 0x2002);
    assert_eq!(status2 & 0x80, 0);
}

#[test]
fn data_port_writes_and_reads_video_ram() {
    let mut nes = Console::new();
    nes.insert_cart(make_cart());
    // $2006 twice: address $2100; $2007 writes walk the address forward.
    nes.cpu_bus.write(0x2006, 0x21);
    nes.cpu_bus.write(0x2006, 0x00);
    nes.cpu_bus.write(0x2007, 0xAB);
    nes.cpu_bus.write(0x2007, 0xCD);
    // Reset the address and read the bytes back.
    nes.cpu_bus.write(0x2006, 0x21);
    nes.cpu_bus.write(0x2006, 0x00);
    assert_eq!(nes.cpu_bus.read(0x2007), 0xAB);
    assert_eq!(nes.cpu_bus.read(0x2007), 0xCD);
}

#[test]
fn ppu_register_ports_mirror_every_eight_bytes() {
    let mut nes = Console::new();
    nes.insert_cart(make_cart());
    // Writing the address latch through a mirror at $3FF6 behaves like
    // $2006, and a write through $2008+6 too.
    nes.cpu_bus.write(0x3FF6, 0x21);
    nes.cpu_bus.write(0x200E, 0x04);
    nes.cpu_bus.write(0x2007, 0x77);
    nes.cpu_bus.write(0x2006, 0x21);
    nes.cpu_bus.write(0x2006, 0x04);
    assert_eq!(nes.cpu_bus.read(0x2007), 0x77);
}

#[test]
fn palette_ram_aliases_every_fourth_entry() {
    let mut nes = Console::new();
    nes.insert_cart(make_cart());
    // Write $3F10 through the data port; it must alias $3F00.
    nes.cpu_bus.write(0x2006, 0x3F);
    nes.cpu_bus.write(0x2006, 0x10);
    nes.cpu_bus.write(0x2007, 0x2C);
    nes.cpu_bus.write(0x2006, 0x3F);
    nes.cpu_bus.write(0x2006, 0x00);
    assert_eq!(nes.cpu_bus.read(0x2007), 0x2C);
}

#[test]
fn scroll_latch_takes_x_then_y() {
    let cart = make_cart();
    let mut ppu = Ppu::new();
    let mut c = make_cart();
    ppu.write(&mut c, 0x2005, 0x12);
    ppu.write(&mut c, 0x2005, 0x34);
    assert_eq!(ppu.ppu_scroll.x, 0x12);
    assert_eq!(ppu.ppu_scroll.y, 0x34);
    let _ = ppu.read(&cart, 0x2002);
    ppu.write(&mut c, 0x2005, 0x56);
    assert_eq!(ppu.ppu_scroll.x, 0x56);
    assert_eq!(ppu.ppu_scroll.y, 0x34);
}

#[test]
fn vblank_flag_clears_on_the_prerender_line() {
    let cart = make_cart();
    let mut ppu = ppu_at(&cart, 241, 1);
    assert!(ppu.ppu_status.vblank);
    let mut p2 = ppu_at(&cart, 261, 1);
    assert!(!p2.ppu_status.vblank);
    assert!(!p2.ppu_status.sprite0_hit);
    assert!(!p2.ppu_status.overflow);
    // Quiet the unused-variable lints by exercising both.
    ppu.step(&cart);
    p2.step(&cart);
}

#[test]
fn framebuffer_has_a_full_frame_of_pixels() {
    let ppu = Ppu::new();
    assert_eq!(ppu.output.len(), 256 * 240);
    let px = ppu.output[0];
    assert_eq!((px.r, px.g, px.b, px.a), (0x22, 0x22, 0x22, 0xFF));
}

#[test]
fn debug_view_draws_tiles_and_palette() {
    // A cartridge whose first tile has plane 0 all ones: color index 1 for
    // every pixel of tile (0,0).
    let mut image = vec![0u8; 16 + 16384 + 8192];
    image[0] = 0x4E;
    image[1] = 0x45;
    image[2] = 0x53;
    image[3] = 0x1A;
    image[4] = 1;
    image[5] = 1;
    for i in 0..8 {
        image[16 + 16384 + i] = 0xFF; // plane 0 of tile 0
    }
    let cart = Cart::read_from(&image).unwrap();
    let mut ppu = Ppu::new();
    // Give palette entry 1 a recognizable color.
    let mut pal_bytes = vec![0u8; 192];
    pal_bytes[3] = 10;
    pal_bytes[4] = 20;
    pal_bytes[5] = 30;
    let pal = jadeite::palette::Palette::read_data(&pal_bytes).unwrap();
    ppu.set_palette(pal);
    ppu.draw_debug(&cart);
    // Top-left pixel of the left bank shows palette entry 1.
    let px = ppu.output[0];
    assert_eq!((px.r, px.g, px.b), (10, 20, 30));
    // The palette strip fills the bottom 32 rows; its first swatch is
    // palette entry 0 (black here).
    let strip = ppu.output[208 * 256];
    assert_eq!((strip.r, strip.g, strip.b), (0, 0, 0));
    assert_eq!(strip.a, 0xFF);
}

#[test]
fn background_render_reads_pattern_and_palette() {
    // Tile 0 with only the first row of plane 0 set: the background's top
    // pixel row gets color index 1, the row below color 0. The nametable
    // is zero, so every cell shows tile 0; the attribute table is zero, so
    // quadrant 0 is used.
    let mut image = vec![0u8; 16 + 16384 + 8192];
    image[0] = 0x4E;
    image[1] = 0x45;
    image[2] = 0x53;
    image[3] = 0x1A;
    image[4] = 1;
    image[5] = 1;
    image[16 + 16384] = 0xFF;
    let cart = Cart::read_from(&image).unwrap();
    let mut pal_bytes = vec![0u8; 192];
    pal_bytes[3] = 10;
    pal_bytes[4] = 20;
    pal_bytes[5] = 30;
    let pal = jadeite::palette::Palette::read_data(&pal_bytes).unwrap();
    let mut ppu = Ppu::new();
    ppu.set_palette(pal);
    // Step to VBlank entry, where the frame is rendered.
    while !(ppu.scanline == 241 && ppu.dot == 1) {
        ppu.step(&cart);
    }
    // Row 0 uses fine Y 0, whose low plane is all ones: color 1.
    let top = ppu.output[0];
    assert_eq!((top.r, top.g, top.b, top.a), (10, 20, 30, 0xFF));
    // Row 1 uses fine Y 1, whose planes are zero: color 0 (black here).
    let below = ppu.output[256];
    assert_eq!((below.r, below.g, below.b), (0, 0, 0));
}
