//! Whole-console tests: deterministic re-runs and the trace rendering.

use jadeite::cart::Cart;
use jadeite::console::Console;

fn make_cart(prog: &[u8]) -> Cart {
    let mut image = vec![0u8; 16 + 16384 + 8192];
    image[0] = 0x4E;
    image[1] = 0x45;
    image[2] = 0x53;
    image[3] = 0x1A;
    image[4] = 1;
    image[5] = 1;
    for (i, b) in prog.iter().enumerate() {
        image[16 + i] = *b;
    }
    image[16 + 0x3FFC] = 0x00;
    image[16 + 0x3FFD] = 0xC0;
    Cart::read_from(&image).unwrap()
}

/// A small program that loops forever, exercising loads, stores, arithmetic
/// and branches.
fn looping_program() -> Vec<u8> {
    vec![
        0xA2, 0x00, // LDX #$00
        0xE8, // INX
        0x8A, // TXA
        0x69, 0x33, // ADC #$33
        0x8D, 0x00, 0x02, // STA $0200
        0xAD, 0x00, 0x02, // LDA $0200
        0xC9, 0x00, // CMP #$00
        0xD0, 0xF2, // BNE back to INX
        0x4C, 0x02, 0xC0, // JMP $C002
    ]
}

fn run_trace(instructions: usize) -> Vec<String> {
    let mut nes = Console::new();
    nes.insert_cart(make_cart(&looping_program()));
    nes.reset_to(0xC000);
    let mut lines = Vec::with_capacity(instructions);
    for _ in 0..instructions {
        lines.push(nes.trace_line());
        nes.next().unwrap();
    }
    lines
}

#[test]
fn two_runs_trace_identically() {
    // Two independent runs from the same reset state must produce
    // byte-identical trace logs over ten thousand instructions.
    let a = run_trace(10_000);
    let b = run_trace(10_000);
    assert_eq!(a.len(), b.len());
    for (x, y) in a.iter().zip(b.iter()) {
        assert_eq!(x, y);
    }
}

#[test]
fn trace_line_format() {
    let mut nes = Console::new();
    nes.insert_cart(make_cart(&looping_program()));
    nes.reset_to(0xC000);
    let line = nes.trace_line();
    assert_eq!(
        line,
        "C000: LDX #$00  A:00 X:00 Y:00 P:04 SP:FD  CYC:7 SL:261 D:0"
    );
}

#[test]
fn console_clocks_three_dots_per_cpu_cycle() {
    let mut nes = Console::new();
    nes.insert_cart(make_cart(&looping_program()));
    nes.reset_to(0xC000);
    let dots_before = nes.cpu_bus.ppu.clock_count;
    let cycles_before = nes.cpu.clock_count;
    for _ in 0..100 {
        nes.step().unwrap();
    }
    assert_eq!(nes.cpu.clock_count - cycles_before, 100);
    assert_eq!(nes.cpu_bus.ppu.clock_count - dots_before, 300);
}
