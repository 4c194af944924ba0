//! Cycle-synchronized core of an 8-bit home-console emulator: a 6502-class
//! CPU, a picture processing unit, the buses that connect them to a cartridge
//! mapper, and the instruction decoder that feeds the CPU.

pub mod cart;
pub mod console;
pub mod cpu;
pub mod cpu_bus;
pub mod cpu_ops;
pub mod disasm;
pub mod hexfmt;
pub mod mapper;
pub mod optable;
pub mod palette;
pub mod ppu;
pub mod ppu_bus;
pub mod regs;
pub mod rom;
