//! CPU tests: reset, flag packing, stack discipline, instruction timing,
//! and the addressing corner cases.

use jadeite::cart::Cart;
use jadeite::console::Console;
use jadeite::cpu::Cpu;
use jadeite::cpu_bus::CpuBus;
use jadeite::regs::RegStatus;

/// A minimal one-page cartridge image whose program ROM starts with `prog`.
/// The reset vector points at `$C000`, which the single mirrored page maps
/// to program ROM offset 0.
fn make_cart(prog: &[u8]) -> Cart {
    let mut image = vec![0u8; 16 + 16384];
    image[0] = 0x4E;
    image[1] = 0x45;
    image[2] = 0x53;
    image[3] = 0x1A;
    image[4] = 1; // one 16 KiB program page
    image[5] = 1; // one 8 KiB character page
    let chr = vec![0u8; 8192];
    image.extend_from_slice(&chr);
    for (i, b) in prog.iter().enumerate() {
        image[16 + i] = *b;
    }
    // Reset vector: $C000.
    image[16 + 0x3FFC] = 0x00;
    image[16 + 0x3FFD] = 0xC0;
    Cart::read_from(&image).unwrap()
}

fn console_with(prog: &[u8]) -> Console {
    let mut nes = Console::new();
    nes.insert_cart(make_cart(prog));
    nes
}

/// Run console ticks until the next instruction boundary.
fn run_one(nes: &mut Console) {
    nes.next().unwrap();
}

#[test]
fn reset_state() {
    let mut nes = console_with(&[0xEA]);
    nes.reset_to(0xC000);
    assert_eq!(nes.cpu.reg.A, 0);
    assert_eq!(nes.cpu.reg.X, 0);
    assert_eq!(nes.cpu.reg.Y, 0);
    assert_eq!(nes.cpu.reg.S, 0xFD);
    assert!(nes.cpu.reg.P.interrupt);
    assert_eq!(nes.cpu.cycles, 7);
    assert_eq!(nes.cpu.reg.PC, 0xC000);
}

#[test]
fn reset_reads_the_vector() {
    let mut nes = console_with(&[0xEA]);
    nes.reset();
    assert_eq!(nes.cpu.reg.PC, 0xC000);
    assert_eq!(nes.cpu.reg.S, 0xFD);
    assert_eq!(nes.cpu.cycles, 7);
}

#[test]
fn lda_immediate_sets_flags() {
    let mut nes = console_with(&[0xA9, 0x00]);
    nes.reset_to(0xC000);
    run_one(&mut nes); // drain the reset stall
    let before = nes.cpu.clock_count;
    run_one(&mut nes); // LDA #$00
    assert_eq!(nes.cpu.reg.A, 0);
    assert!(nes.cpu.reg.P.zero);
    assert!(!nes.cpu.reg.P.negative);
    assert_eq!(nes.cpu.reg.PC, 0xC002);
    assert_eq!(nes.cpu.clock_count - before, 2);
}

#[test]
fn lda_negative_value() {
    let mut nes = console_with(&[0xA9, 0x80]);
    nes.reset_to(0xC000);
    run_one(&mut nes);
    run_one(&mut nes);
    assert_eq!(nes.cpu.reg.A, 0x80);
    assert!(!nes.cpu.reg.P.zero);
    assert!(nes.cpu.reg.P.negative);
}

#[test]
fn jsr_rts_round_trip() {
    // JSR $C010 at $C000, RTS at $C010.
    let mut prog = vec![0x20, 0x10, 0xC0];
    prog.resize(0x10, 0xEA);
    prog.push(0x60);
    let mut nes = console_with(&prog);
    nes.reset_to(0xC000);
    run_one(&mut nes);
    let s_before = nes.cpu.reg.S;
    let before = nes.cpu.clock_count;
    run_one(&mut nes); // JSR
    assert_eq!(nes.cpu.reg.PC, 0xC010);
    run_one(&mut nes); // RTS
    assert_eq!(nes.cpu.reg.PC, 0xC003);
    assert_eq!(nes.cpu.reg.S, s_before);
    assert_eq!(nes.cpu.clock_count - before, 12);
}

#[test]
fn indirect_jmp_page_wrap_bug() {
    // JMP ($02FF) with [$02FF]=0x34, [$0200]=0x12, [$0300]=0xFF must land
    // on $1234, never reading $0300.
    let mut nes = console_with(&[0x6C, 0xFF, 0x02]);
    nes.reset_to(0xC000);
    nes.cpu_bus.write(0x02FF, 0x34);
    nes.cpu_bus.write(0x0200, 0x12);
    nes.cpu_bus.write(0x0300, 0xFF);
    run_one(&mut nes);
    run_one(&mut nes); // JMP ($02FF)
    assert_eq!(nes.cpu.reg.PC, 0x1234);
}

#[test]
fn stack_is_lifo_and_wraps() {
    let mut bus = CpuBus::new();
    bus.cart = Some(make_cart(&[0xEA]));
    let mut cpu = Cpu::new();
    // A virgin CPU has S = 0: the first push wraps the pointer to $FF.
    assert_eq!(cpu.reg.S, 0);
    cpu.push_stack(&mut bus, 0x11);
    assert_eq!(cpu.reg.S, 0xFF);
    cpu.push_stack(&mut bus, 0x22);
    cpu.push_stack(&mut bus, 0x33);
    assert_eq!(cpu.reg.S, 0xFD);
    assert_eq!(cpu.pop_stack(&mut bus), 0x33);
    assert_eq!(cpu.pop_stack(&mut bus), 0x22);
    assert_eq!(cpu.pop_stack(&mut bus), 0x11);
    assert_eq!(cpu.reg.S, 0);
    // A long sequence comes back in reverse order, the pointer wrapping
    // modulo 256 on the way.
    let n = 200u16;
    for i in 0..n {
        cpu.push_stack(&mut bus, (i % 251) as u8);
    }
    assert_eq!(cpu.reg.S, (0u16.wrapping_sub(n) & 0xFF) as u8);
    for i in (0..n).rev() {
        assert_eq!(cpu.pop_stack(&mut bus), (i % 251) as u8);
    }
    assert_eq!(cpu.reg.S, 0);
}

#[test]
fn flag_packing_round_trips() {
    for b in 0u16..=255 {
        let f = RegStatus::from_byte(b as u8);
        assert_eq!(f.to_byte(), b as u8);
    }
    let f = RegStatus {
        carry: true,
        zero: false,
        interrupt: true,
        decimal: false,
        brk: true,
        unused: false,
        overflow: true,
        negative: false,
    };
    assert_eq!(RegStatus::from_byte(f.to_byte()), f);
    assert_eq!(f.to_byte(), 0b0101_0101);
}

#[test]
fn plp_keeps_break_and_unused_bits() {
    // PHP pushes with B and unused forced on; PLP must ignore bits 4 and 5
    // of the pulled byte and keep the current ones.
    let mut nes = console_with(&[
        0x38, // SEC
        0x08, // PHP
        0x18, // CLC
        0x28, // PLP
    ]);
    nes.reset_to(0xC000);
    run_one(&mut nes);
    run_one(&mut nes); // SEC
    let before = nes.cpu.reg.P;
    run_one(&mut nes); // PHP
    run_one(&mut nes); // CLC
    assert!(!nes.cpu.reg.P.carry);
    run_one(&mut nes); // PLP
    let after = nes.cpu.reg.P;
    assert!(after.carry);
    assert_eq!(after.brk, before.brk);
    assert_eq!(after.unused, before.unused);
}

#[test]
fn page_cross_penalty_reads() {
    // LDA $C0F0,X with X=0x20 crosses into $C110: 4 + 1 cycles.
    let mut nes = console_with(&[
        0xA2, 0x20, // LDX #$20
        0xBD, 0xF0, 0xC0, // LDA $C0F0,X
        0xBD, 0x00, 0xC0, // LDA $C000,X (no cross)
    ]);
    nes.reset_to(0xC000);
    run_one(&mut nes);
    run_one(&mut nes); // LDX
    let before = nes.cpu.clock_count;
    run_one(&mut nes); // LDA crossing
    assert_eq!(nes.cpu.clock_count - before, 5);
    let before2 = nes.cpu.clock_count;
    run_one(&mut nes); // LDA not crossing
    assert_eq!(nes.cpu.clock_count - before2, 4);
}

#[test]
fn page_cross_never_charged_for_writes() {
    // STA $02F0,X with X=0x20 crosses a page but always takes 5 cycles.
    let mut nes = console_with(&[
        0xA2, 0x20, // LDX #$20
        0x9D, 0xF0, 0x02, // STA $02F0,X
    ]);
    nes.reset_to(0xC000);
    run_one(&mut nes);
    run_one(&mut nes); // LDX
    let before = nes.cpu.clock_count;
    run_one(&mut nes); // STA
    assert_eq!(nes.cpu.clock_count - before, 5);
}

#[test]
fn branch_timing() {
    // Untaken branch: 2 cycles. Taken, same page: 3. Taken across a page: 4.
    let mut nes = console_with(&[
        0x18, // CLC
        0xB0, 0x02, // BCS +2 (untaken)
        0x90, 0x01, // BCC +1 (taken, same page)
        0xEA, // NOP (skipped)
        0x90, 0x78, // BCC +0x78 (taken, crosses into $C180)
    ]);
    nes.reset_to(0xC000);
    run_one(&mut nes);
    run_one(&mut nes); // CLC
    let t0 = nes.cpu.clock_count;
    run_one(&mut nes); // BCS untaken
    assert_eq!(nes.cpu.clock_count - t0, 2);
    let t1 = nes.cpu.clock_count;
    run_one(&mut nes); // BCC taken
    assert_eq!(nes.cpu.clock_count - t1, 3);
    assert_eq!(nes.cpu.reg.PC, 0xC006);
    let t2 = nes.cpu.clock_count;
    run_one(&mut nes); // BCC taken across page: $C008 + 0x78 = $C080? stays same page
    let taken = nes.cpu.clock_count - t2;
    assert_eq!(nes.cpu.reg.PC, 0xC080);
    assert_eq!(taken, 3);
}

#[test]
fn branch_crossing_page_costs_four() {
    // Place a BNE at $C0FD whose taken target crosses into page $C1xx.
    let mut prog = vec![0xEA; 0x100];
    prog[0x00] = 0xA9; // LDA #$01 so the zero flag is clear
    prog[0x01] = 0x01;
    prog[0xFD] = 0xD0; // BNE +0x10 -> $C10F
    prog[0xFE] = 0x10;
    let mut nes = console_with(&prog);
    nes.reset_to(0xC000);
    run_one(&mut nes);
    run_one(&mut nes); // LDA
    // Walk the NOP run up to $C0FD.
    while nes.cpu.reg.PC != 0xC0FD {
        run_one(&mut nes);
    }
    let before = nes.cpu.clock_count;
    run_one(&mut nes); // BNE across page
    assert_eq!(nes.cpu.reg.PC, 0xC10F);
    assert_eq!(nes.cpu.clock_count - before, 4);
}

#[test]
fn adc_carry_and_overflow() {
    let mut nes = console_with(&[
        0xA9, 0x7F, // LDA #$7F
        0x69, 0x01, // ADC #$01 -> 0x80, overflow set
        0xA9, 0xFF, // LDA #$FF
        0x69, 0x01, // ADC #$01 -> 0x00, carry set
    ]);
    nes.reset_to(0xC000);
    run_one(&mut nes);
    run_one(&mut nes);
    run_one(&mut nes);
    assert_eq!(nes.cpu.reg.A, 0x80);
    assert!(nes.cpu.reg.P.overflow);
    assert!(nes.cpu.reg.P.negative);
    assert!(!nes.cpu.reg.P.carry);
    run_one(&mut nes);
    run_one(&mut nes);
    assert_eq!(nes.cpu.reg.A, 0x00);
    assert!(nes.cpu.reg.P.carry);
    assert!(nes.cpu.reg.P.zero);
}

#[test]
fn illegal_opcode_is_fatal() {
    let mut nes = console_with(&[0x02]);
    nes.reset_to(0xC000);
    run_one(&mut nes);
    let r = nes.next();
    assert_eq!(r, Err(jadeite::cpu::EmuError::IllegalOpcode(0x02)));
}

#[test]
fn ram_mirrors_across_the_first_eight_kib() {
    let mut nes = console_with(&[0xEA]);
    nes.cpu_bus.write(0x0000, 0x5A);
    assert_eq!(nes.cpu_bus.read(0x0800), 0x5A);
    assert_eq!(nes.cpu_bus.read(0x1000), 0x5A);
    assert_eq!(nes.cpu_bus.read(0x1800), 0x5A);
    nes.cpu_bus.write(0x1FFF, 0xA5);
    assert_eq!(nes.cpu_bus.read(0x07FF), 0xA5);
}
