//! Instruction-level tests: shifts, rotates, memory increments, zero-page
//! wrap-around, indexed indirection, and interrupt entry.

use jadeite::cart::Cart;
use jadeite::console::Console;

fn make_cart(prog: &[u8]) -> Cart {
    let mut image = vec![0u8; 16 + 16384 + 8192];
    image[0] = 0x4E;
    image[1] = 0x45;
    image[2] = 0x53;
    image[3] = 0x1A;
    image[4] = 1;
    image[5] = 1;
    for (i, b) in prog.iter().enumerate() {
        image[16 + i] = *b;
    }
    image[16 + 0x3FFC] = 0x00;
    image[16 + 0x3FFD] = 0xC0;
    // Interrupt vector for the non-maskable interrupt: $C050.
    image[16 + 0x3FFA] = 0x50;
    image[16 + 0x3FFB] = 0xC0;
    Cart::read_from(&image).unwrap()
}

fn boot(prog: &[u8]) -> Console {
    let mut nes = Console::new();
    nes.insert_cart(make_cart(prog));
    nes.reset_to(0xC000);
    nes.next().unwrap(); // drain the reset stall
    nes
}

fn run(nes: &mut Console, n: usize) {
    for _ in 0..n {
        nes.next().unwrap();
    }
}

#[test]
fn shifts_and_rotates_on_the_accumulator() {
    let mut nes = boot(&[
        0xA9, 0x81, // LDA #$81
        0x0A, // ASL A -> 0x02, carry out 1
        0x2A, // ROL A -> 0x05 (carry rotated in)
        0x4A, // LSR A -> 0x02, carry out 1
        0x6A, // ROR A -> 0x81 (carry rotated into bit 7)
    ]);
    run(&mut nes, 2);
    assert_eq!(nes.cpu.reg.A, 0x02);
    assert!(nes.cpu.reg.P.carry);
    run(&mut nes, 1);
    assert_eq!(nes.cpu.reg.A, 0x05);
    assert!(!nes.cpu.reg.P.carry);
    run(&mut nes, 1);
    assert_eq!(nes.cpu.reg.A, 0x02);
    assert!(nes.cpu.reg.P.carry);
    run(&mut nes, 1);
    assert_eq!(nes.cpu.reg.A, 0x81);
    assert!(!nes.cpu.reg.P.carry);
    assert!(nes.cpu.reg.P.negative);
}

#[test]
fn memory_increment_and_decrement_wrap() {
    let mut nes = boot(&[
        0xE6, 0x10, // INC $10
        0xC6, 0x20, // DEC $20
    ]);
    nes.cpu_bus.write(0x0010, 0xFF);
    nes.cpu_bus.write(0x0020, 0x00);
    run(&mut nes, 1);
    assert_eq!(nes.cpu_bus.read(0x0010), 0x00);
    assert!(nes.cpu.reg.P.zero);
    run(&mut nes, 1);
    assert_eq!(nes.cpu_bus.read(0x0020), 0xFF);
    assert!(nes.cpu.reg.P.negative);
}

#[test]
fn zero_page_indexed_wraps_within_the_page() {
    // LDA $F0,X with X=0x20 must read $0010, not $0110.
    let mut nes = boot(&[
        0xA2, 0x20, // LDX #$20
        0xB5, 0xF0, // LDA $F0,X
    ]);
    nes.cpu_bus.write(0x0010, 0x5A);
    nes.cpu_bus.write(0x0110, 0xA5);
    run(&mut nes, 2);
    assert_eq!(nes.cpu.reg.A, 0x5A);
}

#[test]
fn indexed_indirect_and_indirect_indexed() {
    // ($40,X) with X=2: pointer at $42/$43 -> $0300.
    // ($50),Y with Y=4: pointer at $50/$51 -> $0300 + 4.
    let mut nes = boot(&[
        0xA2, 0x02, // LDX #$02
        0xA1, 0x40, // LDA ($40,X)
        0xA0, 0x04, // LDY #$04
        0xB1, 0x50, // LDA ($50),Y
    ]);
    nes.cpu_bus.write(0x0042, 0x00);
    nes.cpu_bus.write(0x0043, 0x03);
    nes.cpu_bus.write(0x0300, 0x77);
    nes.cpu_bus.write(0x0050, 0x00);
    nes.cpu_bus.write(0x0051, 0x03);
    nes.cpu_bus.write(0x0304, 0x88);
    run(&mut nes, 2);
    assert_eq!(nes.cpu.reg.A, 0x77);
    run(&mut nes, 2);
    assert_eq!(nes.cpu.reg.A, 0x88);
}

#[test]
fn indirect_indexed_page_cross_costs_one_more() {
    // ($50),Y reads 5 cycles, 6 when the sum crosses a page.
    let mut nes = boot(&[
        0xA0, 0x10, // LDY #$10
        0xB1, 0x50, // LDA ($50),Y -> $0300+0x10, no cross
        0xB1, 0x60, // LDA ($60),Y -> $02F8+0x10, cross
    ]);
    nes.cpu_bus.write(0x0050, 0x00);
    nes.cpu_bus.write(0x0051, 0x03);
    nes.cpu_bus.write(0x0060, 0xF8);
    nes.cpu_bus.write(0x0061, 0x02);
    run(&mut nes, 1);
    let t0 = nes.cpu.clock_count;
    run(&mut nes, 1);
    assert_eq!(nes.cpu.clock_count - t0, 5);
    let t1 = nes.cpu.clock_count;
    run(&mut nes, 1);
    assert_eq!(nes.cpu.clock_count - t1, 6);
}

#[test]
fn compare_sets_carry_zero_negative() {
    let mut nes = boot(&[
        0xA9, 0x40, // LDA #$40
        0xC9, 0x30, // CMP #$30: A > M
        0xC9, 0x40, // CMP #$40: A == M
        0xC9, 0x50, // CMP #$50: A < M
    ]);
    run(&mut nes, 2);
    assert!(nes.cpu.reg.P.carry && !nes.cpu.reg.P.zero);
    run(&mut nes, 1);
    assert!(nes.cpu.reg.P.carry && nes.cpu.reg.P.zero);
    run(&mut nes, 1);
    assert!(!nes.cpu.reg.P.carry && !nes.cpu.reg.P.zero);
    assert!(nes.cpu.reg.P.negative);
}

#[test]
fn sbc_borrows_through_carry() {
    let mut nes = boot(&[
        0x38, // SEC
        0xA9, 0x10, // LDA #$10
        0xE9, 0x01, // SBC #$01 -> 0x0F, carry still set
        0xE9, 0x20, // SBC #$20 -> 0xEF, borrow (carry clear)
    ]);
    run(&mut nes, 3);
    assert_eq!(nes.cpu.reg.A, 0x0F);
    assert!(nes.cpu.reg.P.carry);
    run(&mut nes, 1);
    assert_eq!(nes.cpu.reg.A, 0xEF);
    assert!(!nes.cpu.reg.P.carry);
}

#[test]
fn bit_test_copies_operand_bits() {
    let mut nes = boot(&[
        0xA9, 0x0F, // LDA #$0F
        0x24, 0x10, // BIT $10
    ]);
    nes.cpu_bus.write(0x0010, 0xC0);
    run(&mut nes, 2);
    assert!(nes.cpu.reg.P.negative);
    assert!(nes.cpu.reg.P.overflow);
    assert!(nes.cpu.reg.P.zero); // 0x0F & 0xC0 == 0
    assert_eq!(nes.cpu.reg.A, 0x0F); // untouched
}

#[test]
fn transfers_and_register_counters() {
    let mut nes = boot(&[
        0xA9, 0x41, // LDA #$41
        0xAA, // TAX
        0xE8, // INX
        0x8A, // TXA
        0xA8, // TAY
        0x88, // DEY
        0xBA, // TSX
    ]);
    run(&mut nes, 7);
    assert_eq!(nes.cpu.reg.A, 0x42);
    assert_eq!(nes.cpu.reg.X, 0xFD); // TSX copied the stack pointer
    assert_eq!(nes.cpu.reg.Y, 0x41);
}

#[test]
fn stores_land_in_work_ram() {
    let mut nes = boot(&[
        0xA9, 0x11, // LDA #$11
        0xA2, 0x22, // LDX #$22
        0xA0, 0x33, // LDY #$33
        0x85, 0x40, // STA $40
        0x86, 0x41, // STX $41
        0x84, 0x42, // STY $42
    ]);
    run(&mut nes, 6);
    assert_eq!(nes.cpu_bus.read(0x0040), 0x11);
    assert_eq!(nes.cpu_bus.read(0x0041), 0x22);
    assert_eq!(nes.cpu_bus.read(0x0042), 0x33);
}

#[test]
fn nonmaskable_interrupt_entry() {
    let mut nes = boot(&[0xEA, 0xEA]); // NOP NOP
    let s_before = nes.cpu.reg.S;
    nes.cpu.nmi_triggered = true;
    nes.next().unwrap(); // the boundary services the interrupt
    assert_eq!(nes.cpu.reg.PC, 0xC050);
    assert!(nes.cpu.reg.P.interrupt);
    assert!(!nes.cpu.nmi_triggered);
    assert_eq!(nes.cpu.reg.S, s_before.wrapping_sub(3));
    // The pushed status has the break bit clear and the unused bit set.
    let pushed_p = nes.cpu_bus.read(0x0100 + (s_before.wrapping_sub(2)) as u16);
    assert_eq!(pushed_p & 0x10, 0);
    assert_ne!(pushed_p & 0x20, 0);
}

#[test]
fn brk_pushes_and_jumps_through_the_vector() {
    // The interrupt request vector at $FFFE/$FFFF doubles as the BRK
    // vector; the cartridge image leaves it at $0000, so check the pushes
    // and the pushed status byte.
    let mut nes = boot(&[0x00]); // BRK
    let s_before = nes.cpu.reg.S;
    nes.next().unwrap();
    assert_eq!(nes.cpu.reg.S, s_before.wrapping_sub(3));
    // BRK pushes the program counter advanced past one padding byte.
    let lo = nes.cpu_bus.read(0x0100 + (s_before.wrapping_sub(1)) as u16);
    let hi = nes.cpu_bus.read(0x0100 + s_before as u16);
    assert_eq!(((hi as u16) << 8) | lo as u16, 0xC002);
    // The pushed status byte has the break bit set; the live flag does not.
    let pushed_p = nes.cpu_bus.read(0x0100 + (s_before.wrapping_sub(2)) as u16);
    assert_ne!(pushed_p & 0x10, 0);
    assert!(!nes.cpu.reg.P.brk);
}

#[test]
fn eor_and_ora_and_and() {
    let mut nes = boot(&[
        0xA9, 0b1100_0011, // LDA
        0x29, 0b1010_1010, // AND -> 1000_0010
        0x09, 0b0000_1111, // ORA -> 1000_1111
        0x49, 0b1111_1111, // EOR -> 0111_0000
    ]);
    run(&mut nes, 2);
    assert_eq!(nes.cpu.reg.A, 0b1000_0010);
    run(&mut nes, 1);
    assert_eq!(nes.cpu.reg.A, 0b1000_1111);
    run(&mut nes, 1);
    assert_eq!(nes.cpu.reg.A, 0b0111_0000);
    assert!(!nes.cpu.reg.P.negative);
}

#[test]
fn rmw_on_memory_stores_the_shifted_byte() {
    let mut nes = boot(&[
        0x06, 0x10, // ASL $10
        0x46, 0x10, // LSR $10
    ]);
    nes.cpu_bus.write(0x0010, 0b0100_0001);
    run(&mut nes, 1);
    assert_eq!(nes.cpu_bus.read(0x0010), 0b1000_0010);
    run(&mut nes, 1);
    assert_eq!(nes.cpu_bus.read(0x0010), 0b0100_0001);
}

#[test]
fn pha_pla_round_trip() {
    let mut nes = boot(&[
        0xA9, 0x7E, // LDA #$7E
        0x48, // PHA
        0xA9, 0x00, // LDA #$00
        0x68, // PLA
    ]);
    run(&mut nes, 4);
    assert_eq!(nes.cpu.reg.A, 0x7E);
    assert!(!nes.cpu.reg.P.zero);
}
