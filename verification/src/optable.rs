//! The instruction table: a constant 256-entry map from opcode byte to
//! mnemonic, addressing mode, byte length, base cycle count, and the
//! page-cross penalty category (0 = none, 1 or 2 = +1 cycle on page cross,
//! except for write-style operations, which never pay the penalty).

use vstd::prelude::*;

verus! {

/// The instruction mnemonics of the 6502, plus `XXX` for illegal opcodes.
#[allow(missing_docs)]
#[derive(Clone, Copy, Debug, PartialEq, Eq, Structural)]
pub enum Mnemonic {
    BRK, ORA, ASL, PHP, BPL, CLC, JSR, AND,
    BIT, ROL, PLP, BMI, SEC, RTI, EOR, LSR,
    PHA, JMP, BVC, CLI, RTS, ADC, ROR, PLA,
    BVS, SEI, STA, STY, STX, DEY, TXA, BCC,
    TYA, TXS, LDY, LDA, LDX, TAY, TAX, BCS,
    CLV, TSX, CPY, CMP, DEC, INY, DEX, BNE,
    CLD, CPX, SBC, INC, INX, NOP, BEQ, SED,
    XXX,
}

/// The addressing modes of the 6502.
#[allow(missing_docs)]
#[derive(Clone, Copy, Debug, PartialEq, Eq, Structural)]
pub enum AddrMode {
    Accum,
    Imm,
    Absolute,
    ZP,
    IdxZPX,
    IdxZPY,
    IdxAbsX,
    IdxAbsY,
    Implied,
    Relative,
    IdxIndX,
    IndIdxY,
    Indirect,
}

/// One entry of the instruction table.
#[derive(Clone, Copy, Debug, PartialEq, Eq, Structural)]
pub struct Operation {
    /// The opcode byte this entry decodes.
    pub opcode: u8,
    /// Operation mnemonic; `XXX` for illegal opcodes.
    pub mnemonic: Mnemonic,
    /// Addressing mode, which determines how the operand bytes are read.
    pub addr_mode: AddrMode,
    /// Instruction length in bytes: 1, 2 or 3.
    pub size: u8,
    /// Base cycle count, before page-cross and branch penalties.
    pub cycles: u8,
    /// Page-cross penalty category: 0 none, 1 or 2 mean +1 on page cross.
    pub extra_cycles: u8,
}

/// How many operand bytes follow an opcode in each addressing mode, plus one
/// for the opcode itself.
pub open spec fn mode_len(m: AddrMode) -> u8 {
    match m {
        AddrMode::Accum => 1,
        AddrMode::Imm => 2,
        AddrMode::Absolute => 3,
        AddrMode::ZP => 2,
        AddrMode::IdxZPX => 2,
        AddrMode::IdxZPY => 2,
        AddrMode::IdxAbsX => 3,
        AddrMode::IdxAbsY => 3,
        AddrMode::Implied => 1,
        AddrMode::Relative => 2,
        AddrMode::IdxIndX => 2,
        AddrMode::IndIdxY => 2,
        AddrMode::Indirect => 3,
    }
}

/// Write-style operations always take their declared cycles, whatever the
/// addressing arithmetic did to the page bits.
pub open spec fn is_write_style(m: Mnemonic) -> bool {
    m == Mnemonic::ASL || m == Mnemonic::DEC || m == Mnemonic::INC || m == Mnemonic::LSR
        || m == Mnemonic::ROL || m == Mnemonic::ROR || m == Mnemonic::STA
}

/// The instruction table itself, as a specification-level map.
pub open spec fn optable(b: u8) -> Operation {
    match b {
        0x00u8 => Operation { opcode: 0x00, mnemonic: Mnemonic::BRK, addr_mode: AddrMode::Implied, size: 1, cycles: 7, extra_cycles: 0 },
        0x01u8 => Operation { opcode: 0x01, mnemonic: Mnemonic::ORA, addr_mode: AddrMode::IdxIndX, size: 2, cycles: 6, extra_cycles: 0 },
        0x02u8 => Operation { opcode: 0x02, mnemonic: Mnemonic::XXX, addr_mode: AddrMode::Implied, size: 1, cycles: 2, extra_cycles: 0 },
        0x03u8 => Operation { opcode: 0x03, mnemonic: Mnemonic::XXX, addr_mode: AddrMode::Implied, size: 1, cycles: 2, extra_cycles: 0 },
        0x04u8 => Operation { opcode: 0x04, mnemonic: Mnemonic::XXX, addr_mode: AddrMode::Implied, size: 1, cycles: 2, extra_cycles: 0 },
        0x05u8 => Operation { opcode: 0x05, mnemonic: Mnemonic::ORA, addr_mode: AddrMode::ZP, size: 2, cycles: 3, extra_cycles: 0 },
        0x06u8 => Operation { opcode: 0x06, mnemonic: Mnemonic::ASL, addr_mode: AddrMode::ZP, size: 2, cycles: 5, extra_cycles: 0 },
        0x07u8 => Operation { opcode: 0x07, mnemonic: Mnemonic::XXX, addr_mode: AddrMode::Implied, size: 1, cycles: 2, extra_cycles: 0 },
        0x08u8 => Operation { opcode: 0x08, mnemonic: Mnemonic::PHP, addr_mode: AddrMode::Implied, size: 1, cycles: 3, extra_cycles: 0 },
        0x09u8 => Operation { opcode: 0x09, mnemonic: Mnemonic::ORA, addr_mode: AddrMode::Imm, size: 2, cycles: 2, extra_cycles: 0 },
        0x0au8 => Operation { opcode: 0x0a, mnemonic: Mnemonic::ASL, addr_mode: AddrMode::Accum, size: 1, cycles: 2, extra_cycles: 0 },
        0x0bu8 => Operation { opcode: 0x0b, mnemonic: Mnemonic::XXX, addr_mode: AddrMode::Implied, size: 1, cycles: 2, extra_cycles: 0 },
        0x0cu8 => Operation { opcode: 0x0c, mnemonic: Mnemonic::XXX, addr_mode: AddrMode::Implied, size: 1, cycles: 2, extra_cycles: 0 },
        0x0du8 => Operation { opcode: 0x0d, mnemonic: Mnemonic::ORA, addr_mode: AddrMode::Absolute, size: 3, cycles: 4, extra_cycles: 0 },
        0x0eu8 => Operation { opcode: 0x0e, mnemonic: Mnemonic::ASL, addr_mode: AddrMode::Absolute, size: 3, cycles: 6, extra_cycles: 0 },
        0x0fu8 => Operation { opcode: 0x0f, mnemonic: Mnemonic::XXX, addr_mode: AddrMode::Implied, size: 1, cycles: 2, extra_cycles: 0 },
        0x10u8 => Operation { opcode: 0x10, mnemonic: Mnemonic::BPL, addr_mode: AddrMode::Relative, size: 2, cycles: 2, extra_cycles: 1 },
        0x11u8 => Operation { opcode: 0x11, mnemonic: Mnemonic::ORA, addr_mode: AddrMode::IndIdxY, size: 2, cycles: 5, extra_cycles: 2 },
        0x12u8 => Operation { opcode: 0x12, mnemonic: Mnemonic::XXX, addr_mode: AddrMode::Implied, size: 1, cycles: 2, extra_cycles: 0 },
        0x13u8 => Operation { opcode: 0x13, mnemonic: Mnemonic::XXX, addr_mode: AddrMode::Implied, size: 1, cycles: 2, extra_cycles: 0 },
        0x14u8 => Operation { opcode: 0x14, mnemonic: Mnemonic::XXX, addr_mode: AddrMode::Implied, size: 1, cycles: 2, extra_cycles: 0 },
        0x15u8 => Operation { opcode: 0x15, mnemonic: Mnemonic::ORA, addr_mode: AddrMode::IdxZPX, size: 2, cycles: 4, extra_cycles: 0 },
        0x16u8 => Operation { opcode: 0x16, mnemonic: Mnemonic::ASL, addr_mode: AddrMode::IdxZPX, size: 2, cycles: 6, extra_cycles: 0 },
        0x17u8 => Operation { opcode: 0x17, mnemonic: Mnemonic::XXX, addr_mode: AddrMode::Implied, size: 1, cycles: 2, extra_cycles: 0 },
        0x18u8 => Operation { opcode: 0x18, mnemonic: Mnemonic::CLC, addr_mode: AddrMode::Implied, size: 1, cycles: 2, extra_cycles: 0 },
        0x19u8 => Operation { opcode: 0x19, mnemonic: Mnemonic::ORA, addr_mode: AddrMode::IdxAbsY, size: 3, cycles: 4, extra_cycles: 2 },
        0x1au8 => Operation { opcode: 0x1a, mnemonic: Mnemonic::XXX, addr_mode: AddrMode::Implied, size: 1, cycles: 2, extra_cycles: 0 },
        0x1bu8 => Operation { opcode: 0x1b, mnemonic: Mnemonic::XXX, addr_mode: AddrMode::Implied, size: 1, cycles: 2, extra_cycles: 0 },
        0x1cu8 => Operation { opcode: 0x1c, mnemonic: Mnemonic::XXX, addr_mode: AddrMode::Implied, size: 1, cycles: 2, extra_cycles: 0 },
        0x1du8 => Operation { opcode: 0x1d, mnemonic: Mnemonic::ORA, addr_mode: AddrMode::IdxAbsX, size: 3, cycles: 4, extra_cycles: 2 },
        0x1eu8 => Operation { opcode: 0x1e, mnemonic: Mnemonic::ASL, addr_mode: AddrMode::IdxAbsX, size: 3, cycles: 7, extra_cycles: 0 },
        0x1fu8 => Operation { opcode: 0x1f, mnemonic: Mnemonic::XXX, addr_mode: AddrMode::Implied, size: 1, cycles: 2, extra_cycles: 0 },
        0x20u8 => Operation { opcode: 0x20, mnemonic: Mnemonic::JSR, addr_mode: AddrMode::Absolute, size: 3, cycles: 6, extra_cycles: 0 },
        0x21u8 => Operation { opcode: 0x21, mnemonic: Mnemonic::AND, addr_mode: AddrMode::IdxIndX, size: 2, cycles: 6, extra_cycles: 0 },
        0x22u8 => Operation { opcode: 0x22, mnemonic: Mnemonic::XXX, addr_mode: AddrMode::Implied, size: 1, cycles: 2, extra_cycles: 0 },
        0x23u8 => Operation { opcode: 0x23, mnemonic: Mnemonic::XXX, addr_mode: AddrMode::Implied, size: 1, cycles: 2, extra_cycles: 0 },
        0x24u8 => Operation { opcode: 0x24, mnemonic: Mnemonic::BIT, addr_mode: AddrMode::ZP, size: 2, cycles: 3, extra_cycles: 0 },
        0x25u8 => Operation { opcode: 0x25, mnemonic: Mnemonic::AND, addr_mode: AddrMode::ZP, size: 2, cycles: 3, extra_cycles: 0 },
        0x26u8 => Operation { opcode: 0x26, mnemonic: Mnemonic::ROL, addr_mode: AddrMode::ZP, size: 2, cycles: 5, extra_cycles: 0 },
        0x27u8 => Operation { opcode: 0x27, mnemonic: Mnemonic::XXX, addr_mode: AddrMode::Implied, size: 1, cycles: 2, extra_cycles: 0 },
        0x28u8 => Operation { opcode: 0x28, mnemonic: Mnemonic::PLP, addr_mode: AddrMode::Implied, size: 1, cycles: 4, extra_cycles: 0 },
        0x29u8 => Operation { opcode: 0x29, mnemonic: Mnemonic::AND, addr_mode: AddrMode::Imm, size: 2, cycles: 2, extra_cycles: 0 },
        0x2au8 => Operation { opcode: 0x2a, mnemonic: Mnemonic::ROL, addr_mode: AddrMode::Accum, size: 1, cycles: 2, extra_cycles: 0 },
        0x2bu8 => Operation { opcode: 0x2b, mnemonic: Mnemonic::XXX, addr_mode: AddrMode::Implied, size: 1, cycles: 2, extra_cycles: 0 },
        0x2cu8 => Operation { opcode: 0x2c, mnemonic: Mnemonic::BIT, addr_mode: AddrMode::Absolute, size: 3, cycles: 4, extra_cycles: 0 },
        0x2du8 => Operation { opcode: 0x2d, mnemonic: Mnemonic::AND, addr_mode: AddrMode::Absolute, size: 3, cycles: 4, extra_cycles: 0 },
        0x2eu8 => Operation { opcode: 0x2e, mnemonic: Mnemonic::ROL, addr_mode: AddrMode::Absolute, size: 3, cycles: 6, extra_cycles: 0 },
        0x2fu8 => Operation { opcode: 0x2f, mnemonic: Mnemonic::XXX, addr_mode: AddrMode::Implied, size: 1, cycles: 2, extra_cycles: 0 },
        0x30u8 => Operation { opcode: 0x30, mnemonic: Mnemonic::BMI, addr_mode: AddrMode::Relative, size: 2, cycles: 2, extra_cycles: 1 },
        0x31u8 => Operation { opcode: 0x31, mnemonic: Mnemonic::AND, addr_mode: AddrMode::IndIdxY, size: 2, cycles: 5, extra_cycles: 2 },
        0x32u8 => Operation { opcode: 0x32, mnemonic: Mnemonic::XXX, addr_mode: AddrMode::Implied, size: 1, cycles: 2, extra_cycles: 0 },
        0x33u8 => Operation { opcode: 0x33, mnemonic: Mnemonic::XXX, addr_mode: AddrMode::Implied, size: 1, cycles: 2, extra_cycles: 0 },
        0x34u8 => Operation { opcode: 0x34, mnemonic: Mnemonic::XXX, addr_mode: AddrMode::Implied, size: 1, cycles: 2, extra_cycles: 0 },
        0x35u8 => Operation { opcode: 0x35, mnemonic: Mnemonic::AND, addr_mode: AddrMode::IdxZPX, size: 2, cycles: 4, extra_cycles: 0 },
        0x36u8 => Operation { opcode: 0x36, mnemonic: Mnemonic::ROL, addr_mode: AddrMode::IdxZPX, size: 2, cycles: 6, extra_cycles: 0 },
        0x37u8 => Operation { opcode: 0x37, mnemonic: Mnemonic::XXX, addr_mode: AddrMode::Implied, size: 1, cycles: 2, extra_cycles: 0 },
        0x38u8 => Operation { opcode: 0x38, mnemonic: Mnemonic::SEC, addr_mode: AddrMode::Implied, size: 1, cycles: 2, extra_cycles: 0 },
        0x39u8 => Operation { opcode: 0x39, mnemonic: Mnemonic::AND, addr_mode: AddrMode::IdxAbsY, size: 3, cycles: 4, extra_cycles: 2 },
        0x3au8 => Operation { opcode: 0x3a, mnemonic: Mnemonic::XXX, addr_mode: AddrMode::Implied, size: 1, cycles: 2, extra_cycles: 0 },
        0x3bu8 => Operation { opcode: 0x3b, mnemonic: Mnemonic::XXX, addr_mode: AddrMode::Implied, size: 1, cycles: 2, extra_cycles: 0 },
        0x3cu8 => Operation { opcode: 0x3c, mnemonic: Mnemonic::XXX, addr_mode: AddrMode::Implied, size: 1, cycles: 2, extra_cycles: 0 },
        0x3du8 => Operation { opcode: 0x3d, mnemonic: Mnemonic::AND, addr_mode: AddrMode::IdxAbsX, size: 3, cycles: 4, extra_cycles: 2 },
        0x3eu8 => Operation { opcode: 0x3e, mnemonic: Mnemonic::ROL, addr_mode: AddrMode::IdxAbsX, size: 3, cycles: 7, extra_cycles: 0 },
        0x3fu8 => Operation { opcode: 0x3f, mnemonic: Mnemonic::XXX, addr_mode: AddrMode::Implied, size: 1, cycles: 2, extra_cycles: 0 },
        0x40u8 => Operation { opcode: 0x40, mnemonic: Mnemonic::RTI, addr_mode: AddrMode::Implied, size: 1, cycles: 6, extra_cycles: 0 },
        0x41u8 => Operation { opcode: 0x41, mnemonic: Mnemonic::EOR, addr_mode: AddrMode::IdxIndX, size: 2, cycles: 6, extra_cycles: 0 },
        0x42u8 => Operation { opcode: 0x42, mnemonic: Mnemonic::XXX, addr_mode: AddrMode::Implied, size: 1, cycles: 2, extra_cycles: 0 },
        0x43u8 => Operation { opcode: 0x43, mnemonic: Mnemonic::XXX, addr_mode: AddrMode::Implied, size: 1, cycles: 2, extra_cycles: 0 },
        0x44u8 => Operation { opcode: 0x44, mnemonic: Mnemonic::XXX, addr_mode: AddrMode::Implied, size: 1, cycles: 2, extra_cycles: 0 },
        0x45u8 => Operation { opcode: 0x45, mnemonic: Mnemonic::EOR, addr_mode: AddrMode::ZP, size: 2, cycles: 3, extra_cycles: 0 },
        0x46u8 => Operation { opcode: 0x46, mnemonic: Mnemonic::LSR, addr_mode: AddrMode::ZP, size: 2, cycles: 5, extra_cycles: 0 },
        0x47u8 => Operation { opcode: 0x47, mnemonic: Mnemonic::XXX, addr_mode: AddrMode::Implied, size: 1, cycles: 2, extra_cycles: 0 },
        0x48u8 => Operation { opcode: 0x48, mnemonic: Mnemonic::PHA, addr_mode: AddrMode::Implied, size: 1, cycles: 3, extra_cycles: 0 },
        0x49u8 => Operation { opcode: 0x49, mnemonic: Mnemonic::EOR, addr_mode: AddrMode::Imm, size: 2, cycles: 2, extra_cycles: 0 },
        0x4au8 => Operation { opcode: 0x4a, mnemonic: Mnemonic::LSR, addr_mode: AddrMode::Accum, size: 1, cycles: 2, extra_cycles: 0 },
        0x4bu8 => Operation { opcode: 0x4b, mnemonic: Mnemonic::XXX, addr_mode: AddrMode::Implied, size: 1, cycles: 2, extra_cycles: 0 },
        0x4cu8 => Operation { opcode: 0x4c, mnemonic: Mnemonic::JMP, addr_mode: AddrMode::Absolute, size: 3, cycles: 3, extra_cycles: 0 },
        0x4du8 => Operation { opcode: 0x4d, mnemonic: Mnemonic::EOR, addr_mode: AddrMode::Absolute, size: 3, cycles: 4, extra_cycles: 0 },
        0x4eu8 => Operation { opcode: 0x4e, mnemonic: Mnemonic::LSR, addr_mode: AddrMode::Absolute, size: 3, cycles: 6, extra_cycles: 0 },
        0x4fu8 => Operation { opcode: 0x4f, mnemonic: Mnemonic::XXX, addr_mode: AddrMode::Implied, size: 1, cycles: 2, extra_cycles: 0 },
        0x50u8 => Operation { opcode: 0x50, mnemonic: Mnemonic::BVC, addr_mode: AddrMode::Relative, size: 2, cycles: 2, extra_cycles: 1 },
        0x51u8 => Operation { opcode: 0x51, mnemonic: Mnemonic::EOR, addr_mode: AddrMode::IndIdxY, size: 2, cycles: 5, extra_cycles: 2 },
        0x52u8 => Operation { opcode: 0x52, mnemonic: Mnemonic::XXX, addr_mode: AddrMode::Implied, size: 1, cycles: 2, extra_cycles: 0 },
        0x53u8 => Operation { opcode: 0x53, mnemonic: Mnemonic::XXX, addr_mode: AddrMode::Implied, size: 1, cycles: 2, extra_cycles: 0 },
        0x54u8 => Operation { opcode: 0x54, mnemonic: Mnemonic::XXX, addr_mode: AddrMode::Implied, size: 1, cycles: 2, extra_cycles: 0 },
        0x55u8 => Operation { opcode: 0x55, mnemonic: Mnemonic::EOR, addr_mode: AddrMode::IdxZPX, size: 2, cycles: 4, extra_cycles: 0 },
        0x56u8 => Operation { opcode: 0x56, mnemonic: Mnemonic::LSR, addr_mode: AddrMode::IdxZPX, size: 2, cycles: 6, extra_cycles: 0 },
        0x57u8 => Operation { opcode: 0x57, mnemonic: Mnemonic::XXX, addr_mode: AddrMode::Implied, size: 1, cycles: 2, extra_cycles: 0 },
        0x58u8 => Operation { opcode: 0x58, mnemonic: Mnemonic::CLI, addr_mode: AddrMode::Implied, size: 1, cycles: 2, extra_cycles: 0 },
        0x59u8 => Operation { opcode: 0x59, mnemonic: Mnemonic::EOR, addr_mode: AddrMode::IdxAbsY, size: 3, cycles: 4, extra_cycles: 2 },
        0x5au8 => Operation { opcode: 0x5a, mnemonic: Mnemonic::XXX, addr_mode: AddrMode::Implied, size: 1, cycles: 2, extra_cycles: 0 },
        0x5bu8 => Operation { opcode: 0x5b, mnemonic: Mnemonic::XXX, addr_mode: AddrMode::Implied, size: 1, cycles: 2, extra_cycles: 0 },
        0x5cu8 => Operation { opcode: 0x5c, mnemonic: Mnemonic::XXX, addr_mode: AddrMode::Implied, size: 1, cycles: 2, extra_cycles: 0 },
        0x5du8 => Operation { opcode: 0x5d, mnemonic: Mnemonic::EOR, addr_mode: AddrMode::IdxAbsX, size: 3, cycles: 4, extra_cycles: 2 },
        0x5eu8 => Operation { opcode: 0x5e, mnemonic: Mnemonic::LSR, addr_mode: AddrMode::IdxAbsX, size: 3, cycles: 7, extra_cycles: 0 },
        0x5fu8 => Operation { opcode: 0x5f, mnemonic: Mnemonic::XXX, addr_mode: AddrMode::Implied, size: 1, cycles: 2, extra_cycles: 0 },
        0x60u8 => Operation { opcode: 0x60, mnemonic: Mnemonic::RTS, addr_mode: AddrMode::Implied, size: 1, cycles: 6, extra_cycles: 0 },
        0x61u8 => Operation { opcode: 0x61, mnemonic: Mnemonic::ADC, addr_mode: AddrMode::IdxIndX, size: 2, cycles: 6, extra_cycles: 0 },
        0x62u8 => Operation { opcode: 0x62, mnemonic: Mnemonic::XXX, addr_mode: AddrMode::Implied, size: 1, cycles: 2, extra_cycles: 0 },
        0x63u8 => Operation { opcode: 0x63, mnemonic: Mnemonic::XXX, addr_mode: AddrMode::Implied, size: 1, cycles: 2, extra_cycles: 0 },
        0x64u8 => Operation { opcode: 0x64, mnemonic: Mnemonic::XXX, addr_mode: AddrMode::Implied, size: 1, cycles: 2, extra_cycles: 0 },
        0x65u8 => Operation { opcode: 0x65, mnemonic: Mnemonic::ADC, addr_mode: AddrMode::ZP, size: 2, cycles: 3, extra_cycles: 0 },
        0x66u8 => Operation { opcode: 0x66, mnemonic: Mnemonic::ROR, addr_mode: AddrMode::ZP, size: 2, cycles: 5, extra_cycles: 0 },
        0x67u8 => Operation { opcode: 0x67, mnemonic: Mnemonic::XXX, addr_mode: AddrMode::Implied, size: 1, cycles: 2, extra_cycles: 0 },
        0x68u8 => Operation { opcode: 0x68, mnemonic: Mnemonic::PLA, addr_mode: AddrMode::Implied, size: 1, cycles: 4, extra_cycles: 0 },
        0x69u8 => Operation { opcode: 0x69, mnemonic: Mnemonic::ADC, addr_mode: AddrMode::Imm, size: 2, cycles: 2, extra_cycles: 0 },
        0x6au8 => Operation { opcode: 0x6a, mnemonic: Mnemonic::ROR, addr_mode: AddrMode::Accum, size: 1, cycles: 2, extra_cycles: 0 },
        0x6bu8 => Operation { opcode: 0x6b, mnemonic: Mnemonic::XXX, addr_mode: AddrMode::Implied, size: 1, cycles: 2, extra_cycles: 0 },
        0x6cu8 => Operation { opcode: 0x6c, mnemonic: Mnemonic::JMP, addr_mode: AddrMode::Indirect, size: 3, cycles: 5, extra_cycles: 0 },
        0x6du8 => Operation { opcode: 0x6d, mnemonic: Mnemonic::ADC, addr_mode: AddrMode::Absolute, size: 3, cycles: 4, extra_cycles: 0 },
        0x6eu8 => Operation { opcode: 0x6e, mnemonic: Mnemonic::ROR, addr_mode: AddrMode::Absolute, size: 3, cycles: 6, extra_cycles: 0 },
        0x6fu8 => Operation { opcode: 0x6f, mnemonic: Mnemonic::XXX, addr_mode: AddrMode::Implied, size: 1, cycles: 2, extra_cycles: 0 },
        0x70u8 => Operation { opcode: 0x70, mnemonic: Mnemonic::BVS, addr_mode: AddrMode::Relative, size: 2, cycles: 2, extra_cycles: 1 },
        0x71u8 => Operation { opcode: 0x71, mnemonic: Mnemonic::ADC, addr_mode: AddrMode::IndIdxY, size: 2, cycles: 5, extra_cycles: 2 },
        0x72u8 => Operation { opcode: 0x72, mnemonic: Mnemonic::XXX, addr_mode: AddrMode::Implied, size: 1, cycles: 2, extra_cycles: 0 },
        0x73u8 => Operation { opcode: 0x73, mnemonic: Mnemonic::XXX, addr_mode: AddrMode::Implied, size: 1, cycles: 2, extra_cycles: 0 },
        0x74u8 => Operation { opcode: 0x74, mnemonic: Mnemonic::XXX, addr_mode: AddrMode::Implied, size: 1, cycles: 2, extra_cycles: 0 },
        0x75u8 => Operation { opcode: 0x75, mnemonic: Mnemonic::ADC, addr_mode: AddrMode::IdxZPX, size: 2, cycles: 4, extra_cycles: 0 },
        0x76u8 => Operation { opcode: 0x76, mnemonic: Mnemonic::ROR, addr_mode: AddrMode::IdxZPX, size: 2, cycles: 6, extra_cycles: 0 },
        0x77u8 => Operation { opcode: 0x77, mnemonic: Mnemonic::XXX, addr_mode: AddrMode::Implied, size: 1, cycles: 2, extra_cycles: 0 },
        0x78u8 => Operation { opcode: 0x78, mnemonic: Mnemonic::SEI, addr_mode: AddrMode::Implied, size: 1, cycles: 2, extra_cycles: 0 },
        0x79u8 => Operation { opcode: 0x79, mnemonic: Mnemonic::ADC, addr_mode: AddrMode::IdxAbsY, size: 3, cycles: 4, extra_cycles: 2 },
        0x7au8 => Operation { opcode: 0x7a, mnemonic: Mnemonic::XXX, addr_mode: AddrMode::Implied, size: 1, cycles: 2, extra_cycles: 0 },
        0x7bu8 => Operation { opcode: 0x7b, mnemonic: Mnemonic::XXX, addr_mode: AddrMode::Implied, size: 1, cycles: 2, extra_cycles: 0 },
        0x7cu8 => Operation { opcode: 0x7c, mnemonic: Mnemonic::XXX, addr_mode: AddrMode::Implied, size: 1, cycles: 2, extra_cycles: 0 },
        0x7du8 => Operation { opcode: 0x7d, mnemonic: Mnemonic::ADC, addr_mode: AddrMode::IdxAbsX, size: 3, cycles: 4, extra_cycles: 2 },
        0x7eu8 => Operation { opcode: 0x7e, mnemonic: Mnemonic::ROR, addr_mode: AddrMode::IdxAbsX, size: 3, cycles: 7, extra_cycles: 0 },
        0x7fu8 => Operation { opcode: 0x7f, mnemonic: Mnemonic::XXX, addr_mode: AddrMode::Implied, size: 1, cycles: 2, extra_cycles: 0 },
        0x80u8 => Operation { opcode: 0x80, mnemonic: Mnemonic::XXX, addr_mode: AddrMode::Implied, size: 1, cycles: 2, extra_cycles: 0 },
        0x81u8 => Operation { opcode: 0x81, mnemonic: Mnemonic::STA, addr_mode: AddrMode::IdxIndX, size: 2, cycles: 6, extra_cycles: 0 },
        0x82u8 => Operation { opcode: 0x82, mnemonic: Mnemonic::XXX, addr_mode: AddrMode::Implied, size: 1, cycles: 2, extra_cycles: 0 },
        0x83u8 => Operation { opcode: 0x83, mnemonic: Mnemonic::XXX, addr_mode: AddrMode::Implied, size: 1, cycles: 2, extra_cycles: 0 },
        0x84u8 => Operation { opcode: 0x84, mnemonic: Mnemonic::STY, addr_mode: AddrMode::ZP, size: 2, cycles: 3, extra_cycles: 0 },
        0x85u8 => Operation { opcode: 0x85, mnemonic: Mnemonic::STA, addr_mode: AddrMode::ZP, size: 2, cycles: 3, extra_cycles: 0 },
        0x86u8 => Operation { opcode: 0x86, mnemonic: Mnemonic::STX, addr_mode: AddrMode::ZP, size: 2, cycles: 3, extra_cycles: 0 },
        0x87u8 => Operation { opcode: 0x87, mnemonic: Mnemonic::XXX, addr_mode: AddrMode::Implied, size: 1, cycles: 2, extra_cycles: 0 },
        0x88u8 => Operation { opcode: 0x88, mnemonic: Mnemonic::DEY, addr_mode: AddrMode::Implied, size: 1, cycles: 2, extra_cycles: 0 },
        0x89u8 => Operation { opcode: 0x89, mnemonic: Mnemonic::XXX, addr_mode: AddrMode::Implied, size: 1, cycles: 2, extra_cycles: 0 },
        0x8au8 => Operation { opcode: 0x8a, mnemonic: Mnemonic::TXA, addr_mode: AddrMode::Implied, size: 1, cycles: 2, extra_cycles: 0 },
        0x8bu8 => Operation { opcode: 0x8b, mnemonic: Mnemonic::XXX, addr_mode: AddrMode::Implied, size: 1, cycles: 2, extra_cycles: 0 },
        0x8cu8 => Operation { opcode: 0x8c, mnemonic: Mnemonic::STY, addr_mode: AddrMode::Absolute, size: 3, cycles: 4, extra_cycles: 0 },
        0x8du8 => Operation { opcode: 0x8d, mnemonic: Mnemonic::STA, addr_mode: AddrMode::Absolute, size: 3, cycles: 4, extra_cycles: 0 },
        0x8eu8 => Operation { opcode: 0x8e, mnemonic: Mnemonic::STX, addr_mode: AddrMode::Absolute, size: 3, cycles: 4, extra_cycles: 0 },
        0x8fu8 => Operation { opcode: 0x8f, mnemonic: Mnemonic::XXX, addr_mode: AddrMode::Implied, size: 1, cycles: 2, extra_cycles: 0 },
        0x90u8 => Operation { opcode: 0x90, mnemonic: Mnemonic::BCC, addr_mode: AddrMode::Relative, size: 2, cycles: 2, extra_cycles: 1 },
        0x91u8 => Operation { opcode: 0x91, mnemonic: Mnemonic::STA, addr_mode: AddrMode::IndIdxY, size: 2, cycles: 6, extra_cycles: 0 },
        0x92u8 => Operation { opcode: 0x92, mnemonic: Mnemonic::XXX, addr_mode: AddrMode::Implied, size: 1, cycles: 2, extra_cycles: 0 },
        0x93u8 => Operation { opcode: 0x93, mnemonic: Mnemonic::XXX, addr_mode: AddrMode::Implied, size: 1, cycles: 2, extra_cycles: 0 },
        0x94u8 => Operation { opcode: 0x94, mnemonic: Mnemonic::STY, addr_mode: AddrMode::IdxZPX, size: 2, cycles: 4, extra_cycles: 0 },
        0x95u8 => Operation { opcode: 0x95, mnemonic: Mnemonic::STA, addr_mode: AddrMode::IdxZPX, size: 2, cycles: 4, extra_cycles: 0 },
        0x96u8 => Operation { opcode: 0x96, mnemonic: Mnemonic::STX, addr_mode: AddrMode::IdxZPY, size: 2, cycles: 4, extra_cycles: 0 },
        0x97u8 => Operation { opcode: 0x97, mnemonic: Mnemonic::XXX, addr_mode: AddrMode::Implied, size: 1, cycles: 2, extra_cycles: 0 },
        0x98u8 => Operation { opcode: 0x98, mnemonic: Mnemonic::TYA, addr_mode: AddrMode::Implied, size: 1, cycles: 2, extra_cycles: 0 },
        0x99u8 => Operation { opcode: 0x99, mnemonic: Mnemonic::STA, addr_mode: AddrMode::IdxAbsY, size: 3, cycles: 5, extra_cycles: 0 },
        0x9au8 => Operation { opcode: 0x9a, mnemonic: Mnemonic::TXS, addr_mode: AddrMode::Implied, size: 1, cycles: 2, extra_cycles: 0 },
        0x9bu8 => Operation { opcode: 0x9b, mnemonic: Mnemonic::XXX, addr_mode: AddrMode::Implied, size: 1, cycles: 2, extra_cycles: 0 },
        0x9cu8 => Operation { opcode: 0x9c, mnemonic: Mnemonic::XXX, addr_mode: AddrMode::Implied, size: 1, cycles: 2, extra_cycles: 0 },
        0x9du8 => Operation { opcode: 0x9d, mnemonic: Mnemonic::STA, addr_mode: AddrMode::IdxAbsX, size: 3, cycles: 5, extra_cycles: 0 },
        0x9eu8 => Operation { opcode: 0x9e, mnemonic: Mnemonic::XXX, addr_mode: AddrMode::Implied, size: 1, cycles: 2, extra_cycles: 0 },
        0x9fu8 => Operation { opcode: 0x9f, mnemonic: Mnemonic::XXX, addr_mode: AddrMode::Implied, size: 1, cycles: 2, extra_cycles: 0 },
        0xa0u8 => Operation { opcode: 0xa0, mnemonic: Mnemonic::LDY, addr_mode: AddrMode::Imm, size: 2, cycles: 2, extra_cycles: 0 },
        0xa1u8 => Operation { opcode: 0xa1, mnemonic: Mnemonic::LDA, addr_mode: AddrMode::IdxIndX, size: 2, cycles: 6, extra_cycles: 0 },
        0xa2u8 => Operation { opcode: 0xa2, mnemonic: Mnemonic::LDX, addr_mode: AddrMode::Imm, size: 2, cycles: 2, extra_cycles: 0 },
        0xa3u8 => Operation { opcode: 0xa3, mnemonic: Mnemonic::XXX, addr_mode: AddrMode::Implied, size: 1, cycles: 2, extra_cycles: 0 },
        0xa4u8 => Operation { opcode: 0xa4, mnemonic: Mnemonic::LDY, addr_mode: AddrMode::ZP, size: 2, cycles: 3, extra_cycles: 0 },
        0xa5u8 => Operation { opcode: 0xa5, mnemonic: Mnemonic::LDA, addr_mode: AddrMode::ZP, size: 2, cycles: 3, extra_cycles: 0 },
        0xa6u8 => Operation { opcode: 0xa6, mnemonic: Mnemonic::LDX, addr_mode: AddrMode::ZP, size: 2, cycles: 3, extra_cycles: 0 },
        0xa7u8 => Operation { opcode: 0xa7, mnemonic: Mnemonic::XXX, addr_mode: AddrMode::Implied, size: 1, cycles: 2, extra_cycles: 0 },
        0xa8u8 => Operation { opcode: 0xa8, mnemonic: Mnemonic::TAY, addr_mode: AddrMode::Implied, size: 1, cycles: 2, extra_cycles: 0 },
        0xa9u8 => Operation { opcode: 0xa9, mnemonic: Mnemonic::LDA, addr_mode: AddrMode::Imm, size: 2, cycles: 2, extra_cycles: 0 },
        0xaau8 => Operation { opcode: 0xaa, mnemonic: Mnemonic::TAX, addr_mode: AddrMode::Implied, size: 1, cycles: 2, extra_cycles: 0 },
        0xabu8 => Operation { opcode: 0xab, mnemonic: Mnemonic::XXX, addr_mode: AddrMode::Implied, size: 1, cycles: 2, extra_cycles: 0 },
        0xacu8 => Operation { opcode: 0xac, mnemonic: Mnemonic::LDY, addr_mode: AddrMode::Absolute, size: 3, cycles: 4, extra_cycles: 0 },
        0xadu8 => Operation { opcode: 0xad, mnemonic: Mnemonic::LDA, addr_mode: AddrMode::Absolute, size: 3, cycles: 4, extra_cycles: 0 },
        0xaeu8 => Operation { opcode: 0xae, mnemonic: Mnemonic::LDX, addr_mode: AddrMode::Absolute, size: 3, cycles: 4, extra_cycles: 0 },
        0xafu8 => Operation { opcode: 0xaf, mnemonic: Mnemonic::XXX, addr_mode: AddrMode::Implied, size: 1, cycles: 2, extra_cycles: 0 },
        0xb0u8 => Operation { opcode: 0xb0, mnemonic: Mnemonic::BCS, addr_mode: AddrMode::Relative, size: 2, cycles: 2, extra_cycles: 1 },
        0xb1u8 => Operation { opcode: 0xb1, mnemonic: Mnemonic::LDA, addr_mode: AddrMode::IndIdxY, size: 2, cycles: 5, extra_cycles: 2 },
        0xb2u8 => Operation { opcode: 0xb2, mnemonic: Mnemonic::XXX, addr_mode: AddrMode::Implied, size: 1, cycles: 2, extra_cycles: 0 },
        0xb3u8 => Operation { opcode: 0xb3, mnemonic: Mnemonic::XXX, addr_mode: AddrMode::Implied, size: 1, cycles: 2, extra_cycles: 0 },
        0xb4u8 => Operation { opcode: 0xb4, mnemonic: Mnemonic::LDY, addr_mode: AddrMode::IdxZPX, size: 2, cycles: 4, extra_cycles: 0 },
        0xb5u8 => Operation { opcode: 0xb5, mnemonic: Mnemonic::LDA, addr_mode: AddrMode::IdxZPX, size: 2, cycles: 4, extra_cycles: 0 },
        0xb6u8 => Operation { opcode: 0xb6, mnemonic: Mnemonic::LDX, addr_mode: AddrMode::IdxZPY, size: 2, cycles: 4, extra_cycles: 0 },
        0xb7u8 => Operation { opcode: 0xb7, mnemonic: Mnemonic::XXX, addr_mode: AddrMode::Implied, size: 1, cycles: 2, extra_cycles: 0 },
        0xb8u8 => Operation { opcode: 0xb8, mnemonic: Mnemonic::CLV, addr_mode: AddrMode::Implied, size: 1, cycles: 2, extra_cycles: 0 },
        0xb9u8 => Operation { opcode: 0xb9, mnemonic: Mnemonic::LDA, addr_mode: AddrMode::IdxAbsY, size: 3, cycles: 4, extra_cycles: 2 },
        0xbau8 => Operation { opcode: 0xba, mnemonic: Mnemonic::TSX, addr_mode: AddrMode::Implied, size: 1, cycles: 2, extra_cycles: 0 },
        0xbbu8 => Operation { opcode: 0xbb, mnemonic: Mnemonic::XXX, addr_mode: AddrMode::Implied, size: 1, cycles: 2, extra_cycles: 0 },
        0xbcu8 => Operation { opcode: 0xbc, mnemonic: Mnemonic::LDY, addr_mode: AddrMode::IdxAbsX, size: 3, cycles: 4, extra_cycles: 1 },
        0xbdu8 => Operation { opcode: 0xbd, mnemonic: Mnemonic::LDA, addr_mode: AddrMode::IdxAbsX, size: 3, cycles: 4, extra_cycles: 2 },
        0xbeu8 => Operation { opcode: 0xbe, mnemonic: Mnemonic::LDX, addr_mode: AddrMode::IdxAbsY, size: 3, cycles: 4, extra_cycles: 2 },
        0xbfu8 => Operation { opcode: 0xbf, mnemonic: Mnemonic::XXX, addr_mode: AddrMode::Implied, size: 1, cycles: 2, extra_cycles: 0 },
        0xc0u8 => Operation { opcode: 0xc0, mnemonic: Mnemonic::CPY, addr_mode: AddrMode::Imm, size: 2, cycles: 2, extra_cycles: 0 },
        0xc1u8 => Operation { opcode: 0xc1, mnemonic: Mnemonic::CMP, addr_mode: AddrMode::IdxIndX, size: 2, cycles: 6, extra_cycles: 0 },
        0xc2u8 => Operation { opcode: 0xc2, mnemonic: Mnemonic::XXX, addr_mode: AddrMode::Implied, size: 1, cycles: 2, extra_cycles: 0 },
        0xc3u8 => Operation { opcode: 0xc3, mnemonic: Mnemonic::XXX, addr_mode: AddrMode::Implied, size: 1, cycles: 2, extra_cycles: 0 },
        0xc4u8 => Operation { opcode: 0xc4, mnemonic: Mnemonic::CPY, addr_mode: AddrMode::ZP, size: 2, cycles: 3, extra_cycles: 0 },
        0xc5u8 => Operation { opcode: 0xc5, mnemonic: Mnemonic::CMP, addr_mode: AddrMode::ZP, size: 2, cycles: 3, extra_cycles: 0 },
        0xc6u8 => Operation { opcode: 0xc6, mnemonic: Mnemonic::DEC, addr_mode: AddrMode::ZP, size: 2, cycles: 5, extra_cycles: 0 },
        0xc7u8 => Operation { opcode: 0xc7, mnemonic: Mnemonic::XXX, addr_mode: AddrMode::Implied, size: 1, cycles: 2, extra_cycles: 0 },
        0xc8u8 => Operation { opcode: 0xc8, mnemonic: Mnemonic::INY, addr_mode: AddrMode::Implied, size: 1, cycles: 2, extra_cycles: 0 },
        0xc9u8 => Operation { opcode: 0xc9, mnemonic: Mnemonic::CMP, addr_mode: AddrMode::Imm, size: 2, cycles: 2, extra_cycles: 0 },
        0xcau8 => Operation { opcode: 0xca, mnemonic: Mnemonic::DEX, addr_mode: AddrMode::Implied, size: 1, cycles: 2, extra_cycles: 0 },
        0xcbu8 => Operation { opcode: 0xcb, mnemonic: Mnemonic::XXX, addr_mode: AddrMode::Implied, size: 1, cycles: 2, extra_cycles: 0 },
        0xccu8 => Operation { opcode: 0xcc, mnemonic: Mnemonic::CPY, addr_mode: AddrMode::Absolute, size: 3, cycles: 4, extra_cycles: 0 },
        0xcdu8 => Operation { opcode: 0xcd, mnemonic: Mnemonic::CMP, addr_mode: AddrMode::Absolute, size: 3, cycles: 4, extra_cycles: 0 },
        0xceu8 => Operation { opcode: 0xce, mnemonic: Mnemonic::DEC, addr_mode: AddrMode::Absolute, size: 3, cycles: 6, extra_cycles: 0 },
        0xcfu8 => Operation { opcode: 0xcf, mnemonic: Mnemonic::XXX, addr_mode: AddrMode::Implied, size: 1, cycles: 2, extra_cycles: 0 },
        0xd0u8 => Operation { opcode: 0xd0, mnemonic: Mnemonic::BNE, addr_mode: AddrMode::Relative, size: 2, cycles: 2, extra_cycles: 1 },
        0xd1u8 => Operation { opcode: 0xd1, mnemonic: Mnemonic::CMP, addr_mode: AddrMode::IndIdxY, size: 2, cycles: 5, extra_cycles: 2 },
        0xd2u8 => Operation { opcode: 0xd2, mnemonic: Mnemonic::XXX, addr_mode: AddrMode::Implied, size: 1, cycles: 2, extra_cycles: 0 },
        0xd3u8 => Operation { opcode: 0xd3, mnemonic: Mnemonic::XXX, addr_mode: AddrMode::Implied, size: 1, cycles: 2, extra_cycles: 0 },
        0xd4u8 => Operation { opcode: 0xd4, mnemonic: Mnemonic::XXX, addr_mode: AddrMode::Implied, size: 1, cycles: 2, extra_cycles: 0 },
        0xd5u8 => Operation { opcode: 0xd5, mnemonic: Mnemonic::CMP, addr_mode: AddrMode::IdxZPX, size: 2, cycles: 4, extra_cycles: 0 },
        0xd6u8 => Operation { opcode: 0xd6, mnemonic: Mnemonic::DEC, addr_mode: AddrMode::IdxZPX, size: 2, cycles: 6, extra_cycles: 0 },
        0xd7u8 => Operation { opcode: 0xd7, mnemonic: Mnemonic::XXX, addr_mode: AddrMode::Implied, size: 1, cycles: 2, extra_cycles: 0 },
        0xd8u8 => Operation { opcode: 0xd8, mnemonic: Mnemonic::CLD, addr_mode: AddrMode::Implied, size: 1, cycles: 2, extra_cycles: 0 },
        0xd9u8 => Operation { opcode: 0xd9, mnemonic: Mnemonic::CMP, addr_mode: AddrMode::IdxAbsY, size: 3, cycles: 4, extra_cycles: 2 },
        0xdau8 => Operation { opcode: 0xda, mnemonic: Mnemonic::XXX, addr_mode: AddrMode::Implied, size: 1, cycles: 2, extra_cycles: 0 },
        0xdbu8 => Operation { opcode: 0xdb, mnemonic: Mnemonic::XXX, addr_mode: AddrMode::Implied, size: 1, cycles: 2, extra_cycles: 0 },
        0xdcu8 => Operation { opcode: 0xdc, mnemonic: Mnemonic::XXX, addr_mode: AddrMode::Implied, size: 1, cycles: 2, extra_cycles: 0 },
        0xddu8 => Operation { opcode: 0xdd, mnemonic: Mnemonic::CMP, addr_mode: AddrMode::IdxAbsX, size: 3, cycles: 4, extra_cycles: 0 },
        0xdeu8 => Operation { opcode: 0xde, mnemonic: Mnemonic::DEC, addr_mode: AddrMode::IdxAbsX, size: 3, cycles: 7, extra_cycles: 0 },
        0xdfu8 => Operation { opcode: 0xdf, mnemonic: Mnemonic::XXX, addr_mode: AddrMode::Implied, size: 1, cycles: 2, extra_cycles: 0 },
        0xe0u8 => Operation { opcode: 0xe0, mnemonic: Mnemonic::CPX, addr_mode: AddrMode::Imm, size: 2, cycles: 2, extra_cycles: 0 },
        0xe1u8 => Operation { opcode: 0xe1, mnemonic: Mnemonic::SBC, addr_mode: AddrMode::IdxIndX, size: 2, cycles: 6, extra_cycles: 0 },
        0xe2u8 => Operation { opcode: 0xe2, mnemonic: Mnemonic::XXX, addr_mode: AddrMode::Implied, size: 1, cycles: 2, extra_cycles: 0 },
        0xe3u8 => Operation { opcode: 0xe3, mnemonic: Mnemonic::XXX, addr_mode: AddrMode::Implied, size: 1, cycles: 2, extra_cycles: 0 },
        0xe4u8 => Operation { opcode: 0xe4, mnemonic: Mnemonic::CPX, addr_mode: AddrMode::ZP, size: 2, cycles: 3, extra_cycles: 0 },
        0xe5u8 => Operation { opcode: 0xe5, mnemonic: Mnemonic::SBC, addr_mode: AddrMode::ZP, size: 2, cycles: 3, extra_cycles: 0 },
        0xe6u8 => Operation { opcode: 0xe6, mnemonic: Mnemonic::INC, addr_mode: AddrMode::ZP, size: 2, cycles: 5, extra_cycles: 0 },
        0xe7u8 => Operation { opcode: 0xe7, mnemonic: Mnemonic::XXX, addr_mode: AddrMode::Implied, size: 1, cycles: 2, extra_cycles: 0 },
        0xe8u8 => Operation { opcode: 0xe8, mnemonic: Mnemonic::INX, addr_mode: AddrMode::Implied, size: 1, cycles: 2, extra_cycles: 0 },
        0xe9u8 => Operation { opcode: 0xe9, mnemonic: Mnemonic::SBC, addr_mode: AddrMode::Imm, size: 2, cycles: 2, extra_cycles: 0 },
        0xeau8 => Operation { opcode: 0xea, mnemonic: Mnemonic::NOP, addr_mode: AddrMode::Implied, size: 1, cycles: 2, extra_cycles: 0 },
        0xebu8 => Operation { opcode: 0xeb, mnemonic: Mnemonic::XXX, addr_mode: AddrMode::Implied, size: 1, cycles: 2, extra_cycles: 0 },
        0xecu8 => Operation { opcode: 0xec, mnemonic: Mnemonic::CPX, addr_mode: AddrMode::Absolute, size: 3, cycles: 4, extra_cycles: 0 },
        0xedu8 => Operation { opcode: 0xed, mnemonic: Mnemonic::SBC, addr_mode: AddrMode::Absolute, size: 3, cycles: 4, extra_cycles: 0 },
        0xeeu8 => Operation { opcode: 0xee, mnemonic: Mnemonic::INC, addr_mode: AddrMode::Absolute, size: 3, cycles: 6, extra_cycles: 0 },
        0xefu8 => Operation { opcode: 0xef, mnemonic: Mnemonic::XXX, addr_mode: AddrMode::Implied, size: 1, cycles: 2, extra_cycles: 0 },
        0xf0u8 => Operation { opcode: 0xf0, mnemonic: Mnemonic::BEQ, addr_mode: AddrMode::Relative, size: 2, cycles: 2, extra_cycles: 1 },
        0xf1u8 => Operation { opcode: 0xf1, mnemonic: Mnemonic::SBC, addr_mode: AddrMode::IndIdxY, size: 2, cycles: 5, extra_cycles: 2 },
        0xf2u8 => Operation { opcode: 0xf2, mnemonic: Mnemonic::XXX, addr_mode: AddrMode::Implied, size: 1, cycles: 2, extra_cycles: 0 },
        0xf3u8 => Operation { opcode: 0xf3, mnemonic: Mnemonic::XXX, addr_mode: AddrMode::Implied, size: 1, cycles: 2, extra_cycles: 0 },
        0xf4u8 => Operation { opcode: 0xf4, mnemonic: Mnemonic::XXX, addr_mode: AddrMode::Implied, size: 1, cycles: 2, extra_cycles: 0 },
        0xf5u8 => Operation { opcode: 0xf5, mnemonic: Mnemonic::SBC, addr_mode: AddrMode::IdxZPX, size: 2, cycles: 4, extra_cycles: 0 },
        0xf6u8 => Operation { opcode: 0xf6, mnemonic: Mnemonic::INC, addr_mode: AddrMode::IdxZPX, size: 2, cycles: 6, extra_cycles: 0 },
        0xf7u8 => Operation { opcode: 0xf7, mnemonic: Mnemonic::XXX, addr_mode: AddrMode::Implied, size: 1, cycles: 2, extra_cycles: 0 },
        0xf8u8 => Operation { opcode: 0xf8, mnemonic: Mnemonic::SED, addr_mode: AddrMode::Implied, size: 1, cycles: 2, extra_cycles: 0 },
        0xf9u8 => Operation { opcode: 0xf9, mnemonic: Mnemonic::SBC, addr_mode: AddrMode::IdxAbsY, size: 3, cycles: 4, extra_cycles: 2 },
        0xfau8 => Operation { opcode: 0xfa, mnemonic: Mnemonic::XXX, addr_mode: AddrMode::Implied, size: 1, cycles: 2, extra_cycles: 0 },
        0xfbu8 => Operation { opcode: 0xfb, mnemonic: Mnemonic::XXX, addr_mode: AddrMode::Implied, size: 1, cycles: 2, extra_cycles: 0 },
        0xfcu8 => Operation { opcode: 0xfc, mnemonic: Mnemonic::XXX, addr_mode: AddrMode::Implied, size: 1, cycles: 2, extra_cycles: 0 },
        0xfdu8 => Operation { opcode: 0xfd, mnemonic: Mnemonic::SBC, addr_mode: AddrMode::IdxAbsX, size: 3, cycles: 4, extra_cycles: 2 },
        0xfeu8 => Operation { opcode: 0xfe, mnemonic: Mnemonic::INC, addr_mode: AddrMode::IdxAbsX, size: 3, cycles: 7, extra_cycles: 0 },
        _ => Operation { opcode: 0xff, mnemonic: Mnemonic::XXX, addr_mode: AddrMode::Implied, size: 1, cycles: 2, extra_cycles: 0 },
    }
}
/// Look an opcode byte up in the instruction table.
pub fn op_for(b: u8) -> (r: Operation)
    ensures
        r == optable(b),
{
    match b {
        0x00u8 => Operation { opcode: 0x00, mnemonic: Mnemonic::BRK, addr_mode: AddrMode::Implied, size: 1, cycles: 7, extra_cycles: 0 },
        0x01u8 => Operation { opcode: 0x01, mnemonic: Mnemonic::ORA, addr_mode: AddrMode::IdxIndX, size: 2, cycles: 6, extra_cycles: 0 },
        0x02u8 => Operation { opcode: 0x02, mnemonic: Mnemonic::XXX, addr_mode: AddrMode::Implied, size: 1, cycles: 2, extra_cycles: 0 },
        0x03u8 => Operation { opcode: 0x03, mnemonic: Mnemonic::XXX, addr_mode: AddrMode::Implied, size: 1, cycles: 2, extra_cycles: 0 },
        0x04u8 => Operation { opcode: 0x04, mnemonic: Mnemonic::XXX, addr_mode: AddrMode::Implied, size: 1, cycles: 2, extra_cycles: 0 },
        0x05u8 => Operation { opcode: 0x05, mnemonic: Mnemonic::ORA, addr_mode: AddrMode::ZP, size: 2, cycles: 3, extra_cycles: 0 },
        0x06u8 => Operation { opcode: 0x06, mnemonic: Mnemonic::ASL, addr_mode: AddrMode::ZP, size: 2, cycles: 5, extra_cycles: 0 },
        0x07u8 => Operation { opcode: 0x07, mnemonic: Mnemonic::XXX, addr_mode: AddrMode::Implied, size: 1, cycles: 2, extra_cycles: 0 },
        0x08u8 => Operation { opcode: 0x08, mnemonic: Mnemonic::PHP, addr_mode: AddrMode::Implied, size: 1, cycles: 3, extra_cycles: 0 },
        0x09u8 => Operation { opcode: 0x09, mnemonic: Mnemonic::ORA, addr_mode: AddrMode::Imm, size: 2, cycles: 2, extra_cycles: 0 },
        0x0au8 => Operation { opcode: 0x0a, mnemonic: Mnemonic::ASL, addr_mode: AddrMode::Accum, size: 1, cycles: 2, extra_cycles: 0 },
        0x0bu8 => Operation { opcode: 0x0b, mnemonic: Mnemonic::XXX, addr_mode: AddrMode::Implied, size: 1, cycles: 2, extra_cycles: 0 },
        0x0cu8 => Operation { opcode: 0x0c, mnemonic: Mnemonic::XXX, addr_mode: AddrMode::Implied, size: 1, cycles: 2, extra_cycles: 0 },
        0x0du8 => Operation { opcode: 0x0d, mnemonic: Mnemonic::ORA, addr_mode: AddrMode::Absolute, size: 3, cycles: 4, extra_cycles: 0 },
        0x0eu8 => Operation { opcode: 0x0e, mnemonic: Mnemonic::ASL, addr_mode: AddrMode::Absolute, size: 3, cycles: 6, extra_cycles: 0 },
        0x0fu8 => Operation { opcode: 0x0f, mnemonic: Mnemonic::XXX, addr_mode: AddrMode::Implied, size: 1, cycles: 2, extra_cycles: 0 },
        0x10u8 => Operation { opcode: 0x10, mnemonic: Mnemonic::BPL, addr_mode: AddrMode::Relative, size: 2, cycles: 2, extra_cycles: 1 },
        0x11u8 => Operation { opcode: 0x11, mnemonic: Mnemonic::ORA, addr_mode: AddrMode::IndIdxY, size: 2, cycles: 5, extra_cycles: 2 },
        0x12u8 => Operation { opcode: 0x12, mnemonic: Mnemonic::XXX, addr_mode: AddrMode::Implied, size: 1, cycles: 2, extra_cycles: 0 },
        0x13u8 => Operation { opcode: 0x13, mnemonic: Mnemonic::XXX, addr_mode: AddrMode::Implied, size: 1, cycles: 2, extra_cycles: 0 },
        0x14u8 => Operation { opcode: 0x14, mnemonic: Mnemonic::XXX, addr_mode: AddrMode::Implied, size: 1, cycles: 2, extra_cycles: 0 },
        0x15u8 => Operation { opcode: 0x15, mnemonic: Mnemonic::ORA, addr_mode: AddrMode::IdxZPX, size: 2, cycles: 4, extra_cycles: 0 },
        0x16u8 => Operation { opcode: 0x16, mnemonic: Mnemonic::ASL, addr_mode: AddrMode::IdxZPX, size: 2, cycles: 6, extra_cycles: 0 },
        0x17u8 => Operation { opcode: 0x17, mnemonic: Mnemonic::XXX, addr_mode: AddrMode::Implied, size: 1, cycles: 2, extra_cycles: 0 },
        0x18u8 => Operation { opcode: 0x18, mnemonic: Mnemonic::CLC, addr_mode: AddrMode::Implied, size: 1, cycles: 2, extra_cycles: 0 },
        0x19u8 => Operation { opcode: 0x19, mnemonic: Mnemonic::ORA, addr_mode: AddrMode::IdxAbsY, size: 3, cycles: 4, extra_cycles: 2 },
        0x1au8 => Operation { opcode: 0x1a, mnemonic: Mnemonic::XXX, addr_mode: AddrMode::Implied, size: 1, cycles: 2, extra_cycles: 0 },
        0x1bu8 => Operation { opcode: 0x1b, mnemonic: Mnemonic::XXX, addr_mode: AddrMode::Implied, size: 1, cycles: 2, extra_cycles: 0 },
        0x1cu8 => Operation { opcode: 0x1c, mnemonic: Mnemonic::XXX, addr_mode: AddrMode::Implied, size: 1, cycles: 2, extra_cycles: 0 },
        0x1du8 => Operation { opcode: 0x1d, mnemonic: Mnemonic::ORA, addr_mode: AddrMode::IdxAbsX, size: 3, cycles: 4, extra_cycles: 2 },
        0x1eu8 => Operation { opcode: 0x1e, mnemonic: Mnemonic::ASL, addr_mode: AddrMode::IdxAbsX, size: 3, cycles: 7, extra_cycles: 0 },
        0x1fu8 => Operation { opcode: 0x1f, mnemonic: Mnemonic::XXX, addr_mode: AddrMode::Implied, size: 1, cycles: 2, extra_cycles: 0 },
        0x20u8 => Operation { opcode: 0x20, mnemonic: Mnemonic::JSR, addr_mode: AddrMode::Absolute, size: 3, cycles: 6, extra_cycles: 0 },
        0x21u8 => Operation { opcode: 0x21, mnemonic: Mnemonic::AND, addr_mode: AddrMode::IdxIndX, size: 2, cycles: 6, extra_cycles: 0 },
        0x22u8 => Operation { opcode: 0x22, mnemonic: Mnemonic::XXX, addr_mode: AddrMode::Implied, size: 1, cycles: 2, extra_cycles: 0 },
        0x23u8 => Operation { opcode: 0x23, mnemonic: Mnemonic::XXX, addr_mode: AddrMode::Implied, size: 1, cycles: 2, extra_cycles: 0 },
        0x24u8 => Operation { opcode: 0x24, mnemonic: Mnemonic::BIT, addr_mode: AddrMode::ZP, size: 2, cycles: 3, extra_cycles: 0 },
        0x25u8 => Operation { opcode: 0x25, mnemonic: Mnemonic::AND, addr_mode: AddrMode::ZP, size: 2, cycles: 3, extra_cycles: 0 },
        0x26u8 => Operation { opcode: 0x26, mnemonic: Mnemonic::ROL, addr_mode: AddrMode::ZP, size: 2, cycles: 5, extra_cycles: 0 },
        0x27u8 => Operation { opcode: 0x27, mnemonic: Mnemonic::XXX, addr_mode: AddrMode::Implied, size: 1, cycles: 2, extra_cycles: 0 },
        0x28u8 => Operation { opcode: 0x28, mnemonic: Mnemonic::PLP, addr_mode: AddrMode::Implied, size: 1, cycles: 4, extra_cycles: 0 },
        0x29u8 => Operation { opcode: 0x29, mnemonic: Mnemonic::AND, addr_mode: AddrMode::Imm, size: 2, cycles: 2, extra_cycles: 0 },
        0x2au8 => Operation { opcode: 0x2a, mnemonic: Mnemonic::ROL, addr_mode: AddrMode::Accum, size: 1, cycles: 2, extra_cycles: 0 },
        0x2bu8 => Operation { opcode: 0x2b, mnemonic: Mnemonic::XXX, addr_mode: AddrMode::Implied, size: 1, cycles: 2, extra_cycles: 0 },
        0x2cu8 => Operation { opcode: 0x2c, mnemonic: Mnemonic::BIT, addr_mode: AddrMode::Absolute, size: 3, cycles: 4, extra_cycles: 0 },
        0x2du8 => Operation { opcode: 0x2d, mnemonic: Mnemonic::AND, addr_mode: AddrMode::Absolute, size: 3, cycles: 4, extra_cycles: 0 },
        0x2eu8 => Operation { opcode: 0x2e, mnemonic: Mnemonic::ROL, addr_mode: AddrMode::Absolute, size: 3, cycles: 6, extra_cycles: 0 },
        0x2fu8 => Operation { opcode: 0x2f, mnemonic: Mnemonic::XXX, addr_mode: AddrMode::Implied, size: 1, cycles: 2, extra_cycles: 0 },
        0x30u8 => Operation { opcode: 0x30, mnemonic: Mnemonic::BMI, addr_mode: AddrMode::Relative, size: 2, cycles: 2, extra_cycles: 1 },
        0x31u8 => Operation { opcode: 0x31, mnemonic: Mnemonic::AND, addr_mode: AddrMode::IndIdxY, size: 2, cycles: 5, extra_cycles: 2 },
        0x32u8 => Operation { opcode: 0x32, mnemonic: Mnemonic::XXX, addr_mode: AddrMode::Implied, size: 1, cycles: 2, extra_cycles: 0 },
        0x33u8 => Operation { opcode: 0x33, mnemonic: Mnemonic::XXX, addr_mode: AddrMode::Implied, size: 1, cycles: 2, extra_cycles: 0 },
        0x34u8 => Operation { opcode: 0x34, mnemonic: Mnemonic::XXX, addr_mode: AddrMode::Implied, size: 1, cycles: 2, extra_cycles: 0 },
        0x35u8 => Operation { opcode: 0x35, mnemonic: Mnemonic::AND, addr_mode: AddrMode::IdxZPX, size: 2, cycles: 4, extra_cycles: 0 },
        0x36u8 => Operation { opcode: 0x36, mnemonic: Mnemonic::ROL, addr_mode: AddrMode::IdxZPX, size: 2, cycles: 6, extra_cycles: 0 },
        0x37u8 => Operation { opcode: 0x37, mnemonic: Mnemonic::XXX, addr_mode: AddrMode::Implied, size: 1, cycles: 2, extra_cycles: 0 },
        0x38u8 => Operation { opcode: 0x38, mnemonic: Mnemonic::SEC, addr_mode: AddrMode::Implied, size: 1, cycles: 2, extra_cycles: 0 },
        0x39u8 => Operation { opcode: 0x39, mnemonic: Mnemonic::AND, addr_mode: AddrMode::IdxAbsY, size: 3, cycles: 4, extra_cycles: 2 },
        0x3au8 => Operation { opcode: 0x3a, mnemonic: Mnemonic::XXX, addr_mode: AddrMode::Implied, size: 1, cycles: 2, extra_cycles: 0 },
        0x3bu8 => Operation { opcode: 0x3b, mnemonic: Mnemonic::XXX, addr_mode: AddrMode::Implied, size: 1, cycles: 2, extra_cycles: 0 },
        0x3cu8 => Operation { opcode: 0x3c, mnemonic: Mnemonic::XXX, addr_mode: AddrMode::Implied, size: 1, cycles: 2, extra_cycles: 0 },
        0x3du8 => Operation { opcode: 0x3d, mnemonic: Mnemonic::AND, addr_mode: AddrMode::IdxAbsX, size: 3, cycles: 4, extra_cycles: 2 },
        0x3eu8 => Operation { opcode: 0x3e, mnemonic: Mnemonic::ROL, addr_mode: AddrMode::IdxAbsX, size: 3, cycles: 7, extra_cycles: 0 },
        0x3fu8 => Operation { opcode: 0x3f, mnemonic: Mnemonic::XXX, addr_mode: AddrMode::Implied, size: 1, cycles: 2, extra_cycles: 0 },
        0x40u8 => Operation { opcode: 0x40, mnemonic: Mnemonic::RTI, addr_mode: AddrMode::Implied, size: 1, cycles: 6, extra_cycles: 0 },
        0x41u8 => Operation { opcode: 0x41, mnemonic: Mnemonic::EOR, addr_mode: AddrMode::IdxIndX, size: 2, cycles: 6, extra_cycles: 0 },
        0x42u8 => Operation { opcode: 0x42, mnemonic: Mnemonic::XXX, addr_mode: AddrMode::Implied, size: 1, cycles: 2, extra_cycles: 0 },
        0x43u8 => Operation { opcode: 0x43, mnemonic: Mnemonic::XXX, addr_mode: AddrMode::Implied, size: 1, cycles: 2, extra_cycles: 0 },
        0x44u8 => Operation { opcode: 0x44, mnemonic: Mnemonic::XXX, addr_mode: AddrMode::Implied, size: 1, cycles: 2, extra_cycles: 0 },
        0x45u8 => Operation { opcode: 0x45, mnemonic: Mnemonic::EOR, addr_mode: AddrMode::ZP, size: 2, cycles: 3, extra_cycles: 0 },
        0x46u8 => Operation { opcode: 0x46, mnemonic: Mnemonic::LSR, addr_mode: AddrMode::ZP, size: 2, cycles: 5, extra_cycles: 0 },
        0x47u8 => Operation { opcode: 0x47, mnemonic: Mnemonic::XXX, addr_mode: AddrMode::Implied, size: 1, cycles: 2, extra_cycles: 0 },
        0x48u8 => Operation { opcode: 0x48, mnemonic: Mnemonic::PHA, addr_mode: AddrMode::Implied, size: 1, cycles: 3, extra_cycles: 0 },
        0x49u8 => Operation { opcode: 0x49, mnemonic: Mnemonic::EOR, addr_mode: AddrMode::Imm, size: 2, cycles: 2, extra_cycles: 0 },
        0x4au8 => Operation { opcode: 0x4a, mnemonic: Mnemonic::LSR, addr_mode: AddrMode::Accum, size: 1, cycles: 2, extra_cycles: 0 },
        0x4bu8 => Operation { opcode: 0x4b, mnemonic: Mnemonic::XXX, addr_mode: AddrMode::Implied, size: 1, cycles: 2, extra_cycles: 0 },
        0x4cu8 => Operation { opcode: 0x4c, mnemonic: Mnemonic::JMP, addr_mode: AddrMode::Absolute, size: 3, cycles: 3, extra_cycles: 0 },
        0x4du8 => Operation { opcode: 0x4d, mnemonic: Mnemonic::EOR, addr_mode: AddrMode::Absolute, size: 3, cycles: 4, extra_cycles: 0 },
        0x4eu8 => Operation { opcode: 0x4e, mnemonic: Mnemonic::LSR, addr_mode: AddrMode::Absolute, size: 3, cycles: 6, extra_cycles: 0 },
        0x4fu8 => Operation { opcode: 0x4f, mnemonic: Mnemonic::XXX, addr_mode: AddrMode::Implied, size: 1, cycles: 2, extra_cycles: 0 },
        0x50u8 => Operation { opcode: 0x50, mnemonic: Mnemonic::BVC, addr_mode: AddrMode::Relative, size: 2, cycles: 2, extra_cycles: 1 },
        0x51u8 => Operation { opcode: 0x51, mnemonic: Mnemonic::EOR, addr_mode: AddrMode::IndIdxY, size: 2, cycles: 5, extra_cycles: 2 },
        0x52u8 => Operation { opcode: 0x52, mnemonic: Mnemonic::XXX, addr_mode: AddrMode::Implied, size: 1, cycles: 2, extra_cycles: 0 },
        0x53u8 => Operation { opcode: 0x53, mnemonic: Mnemonic::XXX, addr_mode: AddrMode::Implied, size: 1, cycles: 2, extra_cycles: 0 },
        0x54u8 => Operation { opcode: 0x54, mnemonic: Mnemonic::XXX, addr_mode: AddrMode::Implied, size: 1, cycles: 2, extra_cycles: 0 },
        0x55u8 => Operation { opcode: 0x55, mnemonic: Mnemonic::EOR, addr_mode: AddrMode::IdxZPX, size: 2, cycles: 4, extra_cycles: 0 },
        0x56u8 => Operation { opcode: 0x56, mnemonic: Mnemonic::LSR, addr_mode: AddrMode::IdxZPX, size: 2, cycles: 6, extra_cycles: 0 },
        0x57u8 => Operation { opcode: 0x57, mnemonic: Mnemonic::XXX, addr_mode: AddrMode::Implied, size: 1, cycles: 2, extra_cycles: 0 },
        0x58u8 => Operation { opcode: 0x58, mnemonic: Mnemonic::CLI, addr_mode: AddrMode::Implied, size: 1, cycles: 2, extra_cycles: 0 },
        0x59u8 => Operation { opcode: 0x59, mnemonic: Mnemonic::EOR, addr_mode: AddrMode::IdxAbsY, size: 3, cycles: 4, extra_cycles: 2 },
        0x5au8 => Operation { opcode: 0x5a, mnemonic: Mnemonic::XXX, addr_mode: AddrMode::Implied, size: 1, cycles: 2, extra_cycles: 0 },
        0x5bu8 => Operation { opcode: 0x5b, mnemonic: Mnemonic::XXX, addr_mode: AddrMode::Implied, size: 1, cycles: 2, extra_cycles: 0 },
        0x5cu8 => Operation { opcode: 0x5c, mnemonic: Mnemonic::XXX, addr_mode: AddrMode::Implied, size: 1, cycles: 2, extra_cycles: 0 },
        0x5du8 => Operation { opcode: 0x5d, mnemonic: Mnemonic::EOR, addr_mode: AddrMode::IdxAbsX, size: 3, cycles: 4, extra_cycles: 2 },
        0x5eu8 => Operation { opcode: 0x5e, mnemonic: Mnemonic::LSR, addr_mode: AddrMode::IdxAbsX, size: 3, cycles: 7, extra_cycles: 0 },
        0x5fu8 => Operation { opcode: 0x5f, mnemonic: Mnemonic::XXX, addr_mode: AddrMode::Implied, size: 1, cycles: 2, extra_cycles: 0 },
        0x60u8 => Operation { opcode: 0x60, mnemonic: Mnemonic::RTS, addr_mode: AddrMode::Implied, size: 1, cycles: 6, extra_cycles: 0 },
        0x61u8 => Operation { opcode: 0x61, mnemonic: Mnemonic::ADC, addr_mode: AddrMode::IdxIndX, size: 2, cycles: 6, extra_cycles: 0 },
        0x62u8 => Operation { opcode: 0x62, mnemonic: Mnemonic::XXX, addr_mode: AddrMode::Implied, size: 1, cycles: 2, extra_cycles: 0 },
        0x63u8 => Operation { opcode: 0x63, mnemonic: Mnemonic::XXX, addr_mode: AddrMode::Implied, size: 1, cycles: 2, extra_cycles: 0 },
        0x64u8 => Operation { opcode: 0x64, mnemonic: Mnemonic::XXX, addr_mode: AddrMode::Implied, size: 1, cycles: 2, extra_cycles: 0 },
        0x65u8 => Operation { opcode: 0x65, mnemonic: Mnemonic::ADC, addr_mode: AddrMode::ZP, size: 2, cycles: 3, extra_cycles: 0 },
        0x66u8 => Operation { opcode: 0x66, mnemonic: Mnemonic::ROR, addr_mode: AddrMode::ZP, size: 2, cycles: 5, extra_cycles: 0 },
        0x67u8 => Operation { opcode: 0x67, mnemonic: Mnemonic::XXX, addr_mode: AddrMode::Implied, size: 1, cycles: 2, extra_cycles: 0 },
        0x68u8 => Operation { opcode: 0x68, mnemonic: Mnemonic::PLA, addr_mode: AddrMode::Implied, size: 1, cycles: 4, extra_cycles: 0 },
        0x69u8 => Operation { opcode: 0x69, mnemonic: Mnemonic::ADC, addr_mode: AddrMode::Imm, size: 2, cycles: 2, extra_cycles: 0 },
        0x6au8 => Operation { opcode: 0x6a, mnemonic: Mnemonic::ROR, addr_mode: AddrMode::Accum, size: 1, cycles: 2, extra_cycles: 0 },
        0x6bu8 => Operation { opcode: 0x6b, mnemonic: Mnemonic::XXX, addr_mode: AddrMode::Implied, size: 1, cycles: 2, extra_cycles: 0 },
        0x6cu8 => Operation { opcode: 0x6c, mnemonic: Mnemonic::JMP, addr_mode: AddrMode::Indirect, size: 3, cycles: 5, extra_cycles: 0 },
        0x6du8 => Operation { opcode: 0x6d, mnemonic: Mnemonic::ADC, addr_mode: AddrMode::Absolute, size: 3, cycles: 4, extra_cycles: 0 },
        0x6eu8 => Operation { opcode: 0x6e, mnemonic: Mnemonic::ROR, addr_mode: AddrMode::Absolute, size: 3, cycles: 6, extra_cycles: 0 },
        0x6fu8 => Operation { opcode: 0x6f, mnemonic: Mnemonic::XXX, addr_mode: AddrMode::Implied, size: 1, cycles: 2, extra_cycles: 0 },
        0x70u8 => Operation { opcode: 0x70, mnemonic: Mnemonic::BVS, addr_mode: AddrMode::Relative, size: 2, cycles: 2, extra_cycles: 1 },
        0x71u8 => Operation { opcode: 0x71, mnemonic: Mnemonic::ADC, addr_mode: AddrMode::IndIdxY, size: 2, cycles: 5, extra_cycles: 2 },
        0x72u8 => Operation { opcode: 0x72, mnemonic: Mnemonic::XXX, addr_mode: AddrMode::Implied, size: 1, cycles: 2, extra_cycles: 0 },
        0x73u8 => Operation { opcode: 0x73, mnemonic: Mnemonic::XXX, addr_mode: AddrMode::Implied, size: 1, cycles: 2, extra_cycles: 0 },
        0x74u8 => Operation { opcode: 0x74, mnemonic: Mnemonic::XXX, addr_mode: AddrMode::Implied, size: 1, cycles: 2, extra_cycles: 0 },
        0x75u8 => Operation { opcode: 0x75, mnemonic: Mnemonic::ADC, addr_mode: AddrMode::IdxZPX, size: 2, cycles: 4, extra_cycles: 0 },
        0x76u8 => Operation { opcode: 0x76, mnemonic: Mnemonic::ROR, addr_mode: AddrMode::IdxZPX, size: 2, cycles: 6, extra_cycles: 0 },
        0x77u8 => Operation { opcode: 0x77, mnemonic: Mnemonic::XXX, addr_mode: AddrMode::Implied, size: 1, cycles: 2, extra_cycles: 0 },
        0x78u8 => Operation { opcode: 0x78, mnemonic: Mnemonic::SEI, addr_mode: AddrMode::Implied, size: 1, cycles: 2, extra_cycles: 0 },
        0x79u8 => Operation { opcode: 0x79, mnemonic: Mnemonic::ADC, addr_mode: AddrMode::IdxAbsY, size: 3, cycles: 4, extra_cycles: 2 },
        0x7au8 => Operation { opcode: 0x7a, mnemonic: Mnemonic::XXX, addr_mode: AddrMode::Implied, size: 1, cycles: 2, extra_cycles: 0 },
        0x7bu8 => Operation { opcode: 0x7b, mnemonic: Mnemonic::XXX, addr_mode: AddrMode::Implied, size: 1, cycles: 2, extra_cycles: 0 },
        0x7cu8 => Operation { opcode: 0x7c, mnemonic: Mnemonic::XXX, addr_mode: AddrMode::Implied, size: 1, cycles: 2, extra_cycles: 0 },
        0x7du8 => Operation { opcode: 0x7d, mnemonic: Mnemonic::ADC, addr_mode: AddrMode::IdxAbsX, size: 3, cycles: 4, extra_cycles: 2 },
        0x7eu8 => Operation { opcode: 0x7e, mnemonic: Mnemonic::ROR, addr_mode: AddrMode::IdxAbsX, size: 3, cycles: 7, extra_cycles: 0 },
        0x7fu8 => Operation { opcode: 0x7f, mnemonic: Mnemonic::XXX, addr_mode: AddrMode::Implied, size: 1, cycles: 2, extra_cycles: 0 },
        0x80u8 => Operation { opcode: 0x80, mnemonic: Mnemonic::XXX, addr_mode: AddrMode::Implied, size: 1, cycles: 2, extra_cycles: 0 },
        0x81u8 => Operation { opcode: 0x81, mnemonic: Mnemonic::STA, addr_mode: AddrMode::IdxIndX, size: 2, cycles: 6, extra_cycles: 0 },
        0x82u8 => Operation { opcode: 0x82, mnemonic: Mnemonic::XXX, addr_mode: AddrMode::Implied, size: 1, cycles: 2, extra_cycles: 0 },
        0x83u8 => Operation { opcode: 0x83, mnemonic: Mnemonic::XXX, addr_mode: AddrMode::Implied, size: 1, cycles: 2, extra_cycles: 0 },
        0x84u8 => Operation { opcode: 0x84, mnemonic: Mnemonic::STY, addr_mode: AddrMode::ZP, size: 2, cycles: 3, extra_cycles: 0 },
        0x85u8 => Operation { opcode: 0x85, mnemonic: Mnemonic::STA, addr_mode: AddrMode::ZP, size: 2, cycles: 3, extra_cycles: 0 },
        0x86u8 => Operation { opcode: 0x86, mnemonic: Mnemonic::STX, addr_mode: AddrMode::ZP, size: 2, cycles: 3, extra_cycles: 0 },
        0x87u8 => Operation { opcode: 0x87, mnemonic: Mnemonic::XXX, addr_mode: AddrMode::Implied, size: 1, cycles: 2, extra_cycles: 0 },
        0x88u8 => Operation { opcode: 0x88, mnemonic: Mnemonic::DEY, addr_mode: AddrMode::Implied, size: 1, cycles: 2, extra_cycles: 0 },
        0x89u8 => Operation { opcode: 0x89, mnemonic: Mnemonic::XXX, addr_mode: AddrMode::Implied, size: 1, cycles: 2, extra_cycles: 0 },
        0x8au8 => Operation { opcode: 0x8a, mnemonic: Mnemonic::TXA, addr_mode: AddrMode::Implied, size: 1, cycles: 2, extra_cycles: 0 },
        0x8bu8 => Operation { opcode: 0x8b, mnemonic: Mnemonic::XXX, addr_mode: AddrMode::Implied, size: 1, cycles: 2, extra_cycles: 0 },
        0x8cu8 => Operation { opcode: 0x8c, mnemonic: Mnemonic::STY, addr_mode: AddrMode::Absolute, size: 3, cycles: 4, extra_cycles: 0 },
        0x8du8 => Operation { opcode: 0x8d, mnemonic: Mnemonic::STA, addr_mode: AddrMode::Absolute, size: 3, cycles: 4, extra_cycles: 0 },
        0x8eu8 => Operation { opcode: 0x8e, mnemonic: Mnemonic::STX, addr_mode: AddrMode::Absolute, size: 3, cycles: 4, extra_cycles: 0 },
        0x8fu8 => Operation { opcode: 0x8f, mnemonic: Mnemonic::XXX, addr_mode: AddrMode::Implied, size: 1, cycles: 2, extra_cycles: 0 },
        0x90u8 => Operation { opcode: 0x90, mnemonic: Mnemonic::BCC, addr_mode: AddrMode::Relative, size: 2, cycles: 2, extra_cycles: 1 },
        0x91u8 => Operation { opcode: 0x91, mnemonic: Mnemonic::STA, addr_mode: AddrMode::IndIdxY, size: 2, cycles: 6, extra_cycles: 0 },
        0x92u8 => Operation { opcode: 0x92, mnemonic: Mnemonic::XXX, addr_mode: AddrMode::Implied, size: 1, cycles: 2, extra_cycles: 0 },
        0x93u8 => Operation { opcode: 0x93, mnemonic: Mnemonic::XXX, addr_mode: AddrMode::Implied, size: 1, cycles: 2, extra_cycles: 0 },
        0x94u8 => Operation { opcode: 0x94, mnemonic: Mnemonic::STY, addr_mode: AddrMode::IdxZPX, size: 2, cycles: 4, extra_cycles: 0 },
        0x95u8 => Operation { opcode: 0x95, mnemonic: Mnemonic::STA, addr_mode: AddrMode::IdxZPX, size: 2, cycles: 4, extra_cycles: 0 },
        0x96u8 => Operation { opcode: 0x96, mnemonic: Mnemonic::STX, addr_mode: AddrMode::IdxZPY, size: 2, cycles: 4, extra_cycles: 0 },
        0x97u8 => Operation { opcode: 0x97, mnemonic: Mnemonic::XXX, addr_mode: AddrMode::Implied, size: 1, cycles: 2, extra_cycles: 0 },
        0x98u8 => Operation { opcode: 0x98, mnemonic: Mnemonic::TYA, addr_mode: AddrMode::Implied, size: 1, cycles: 2, extra_cycles: 0 },
        0x99u8 => Operation { opcode: 0x99, mnemonic: Mnemonic::STA, addr_mode: AddrMode::IdxAbsY, size: 3, cycles: 5, extra_cycles: 0 },
        0x9au8 => Operation { opcode: 0x9a, mnemonic: Mnemonic::TXS, addr_mode: AddrMode::Implied, size: 1, cycles: 2, extra_cycles: 0 },
        0x9bu8 => Operation { opcode: 0x9b, mnemonic: Mnemonic::XXX, addr_mode: AddrMode::Implied, size: 1, cycles: 2, extra_cycles: 0 },
        0x9cu8 => Operation { opcode: 0x9c, mnemonic: Mnemonic::XXX, addr_mode: AddrMode::Implied, size: 1, cycles: 2, extra_cycles: 0 },
        0x9du8 => Operation { opcode: 0x9d, mnemonic: Mnemonic::STA, addr_mode: AddrMode::IdxAbsX, size: 3, cycles: 5, extra_cycles: 0 },
        0x9eu8 => Operation { opcode: 0x9e, mnemonic: Mnemonic::XXX, addr_mode: AddrMode::Implied, size: 1, cycles: 2, extra_cycles: 0 },
        0x9fu8 => Operation { opcode: 0x9f, mnemonic: Mnemonic::XXX, addr_mode: AddrMode::Implied, size: 1, cycles: 2, extra_cycles: 0 },
        0xa0u8 => Operation { opcode: 0xa0, mnemonic: Mnemonic::LDY, addr_mode: AddrMode::Imm, size: 2, cycles: 2, extra_cycles: 0 },
        0xa1u8 => Operation { opcode: 0xa1, mnemonic: Mnemonic::LDA, addr_mode: AddrMode::IdxIndX, size: 2, cycles: 6, extra_cycles: 0 },
        0xa2u8 => Operation { opcode: 0xa2, mnemonic: Mnemonic::LDX, addr_mode: AddrMode::Imm, size: 2, cycles: 2, extra_cycles: 0 },
        0xa3u8 => Operation { opcode: 0xa3, mnemonic: Mnemonic::XXX, addr_mode: AddrMode::Implied, size: 1, cycles: 2, extra_cycles: 0 },
        0xa4u8 => Operation { opcode: 0xa4, mnemonic: Mnemonic::LDY, addr_mode: AddrMode::ZP, size: 2, cycles: 3, extra_cycles: 0 },
        0xa5u8 => Operation { opcode: 0xa5, mnemonic: Mnemonic::LDA, addr_mode: AddrMode::ZP, size: 2, cycles: 3, extra_cycles: 0 },
        0xa6u8 => Operation { opcode: 0xa6, mnemonic: Mnemonic::LDX, addr_mode: AddrMode::ZP, size: 2, cycles: 3, extra_cycles: 0 },
        0xa7u8 => Operation { opcode: 0xa7, mnemonic: Mnemonic::XXX, addr_mode: AddrMode::Implied, size: 1, cycles: 2, extra_cycles: 0 },
        0xa8u8 => Operation { opcode: 0xa8, mnemonic: Mnemonic::TAY, addr_mode: AddrMode::Implied, size: 1, cycles: 2, extra_cycles: 0 },
        0xa9u8 => Operation { opcode: 0xa9, mnemonic: Mnemonic::LDA, addr_mode: AddrMode::Imm, size: 2, cycles: 2, extra_cycles: 0 },
        0xaau8 => Operation { opcode: 0xaa, mnemonic: Mnemonic::TAX, addr_mode: AddrMode::Implied, size: 1, cycles: 2, extra_cycles: 0 },
        0xabu8 => Operation { opcode: 0xab, mnemonic: Mnemonic::XXX, addr_mode: AddrMode::Implied, size: 1, cycles: 2, extra_cycles: 0 },
        0xacu8 => Operation { opcode: 0xac, mnemonic: Mnemonic::LDY, addr_mode: AddrMode::Absolute, size: 3, cycles: 4, extra_cycles: 0 },
        0xadu8 => Operation { opcode: 0xad, mnemonic: Mnemonic::LDA, addr_mode: AddrMode::Absolute, size: 3, cycles: 4, extra_cycles: 0 },
        0xaeu8 => Operation { opcode: 0xae, mnemonic: Mnemonic::LDX, addr_mode: AddrMode::Absolute, size: 3, cycles: 4, extra_cycles: 0 },
        0xafu8 => Operation { opcode: 0xaf, mnemonic: Mnemonic::XXX, addr_mode: AddrMode::Implied, size: 1, cycles: 2, extra_cycles: 0 },
        0xb0u8 => Operation { opcode: 0xb0, mnemonic: Mnemonic::BCS, addr_mode: AddrMode::Relative, size: 2, cycles: 2, extra_cycles: 1 },
        0xb1u8 => Operation { opcode: 0xb1, mnemonic: Mnemonic::LDA, addr_mode: AddrMode::IndIdxY, size: 2, cycles: 5, extra_cycles: 2 },
        0xb2u8 => Operation { opcode: 0xb2, mnemonic: Mnemonic::XXX, addr_mode: AddrMode::Implied, size: 1, cycles: 2, extra_cycles: 0 },
        0xb3u8 => Operation { opcode: 0xb3, mnemonic: Mnemonic::XXX, addr_mode: AddrMode::Implied, size: 1, cycles: 2, extra_cycles: 0 },
        0xb4u8 => Operation { opcode: 0xb4, mnemonic: Mnemonic::LDY, addr_mode: AddrMode::IdxZPX, size: 2, cycles: 4, extra_cycles: 0 },
        0xb5u8 => Operation { opcode: 0xb5, mnemonic: Mnemonic::LDA, addr_mode: AddrMode::IdxZPX, size: 2, cycles: 4, extra_cycles: 0 },
        0xb6u8 => Operation { opcode: 0xb6, mnemonic: Mnemonic::LDX, addr_mode: AddrMode::IdxZPY, size: 2, cycles: 4, extra_cycles: 0 },
        0xb7u8 => Operation { opcode: 0xb7, mnemonic: Mnemonic::XXX, addr_mode: AddrMode::Implied, size: 1, cycles: 2, extra_cycles: 0 },
        0xb8u8 => Operation { opcode: 0xb8, mnemonic: Mnemonic::CLV, addr_mode: AddrMode::Implied, size: 1, cycles: 2, extra_cycles: 0 },
        0xb9u8 => Operation { opcode: 0xb9, mnemonic: Mnemonic::LDA, addr_mode: AddrMode::IdxAbsY, size: 3, cycles: 4, extra_cycles: 2 },
        0xbau8 => Operation { opcode: 0xba, mnemonic: Mnemonic::TSX, addr_mode: AddrMode::Implied, size: 1, cycles: 2, extra_cycles: 0 },
        0xbbu8 => Operation { opcode: 0xbb, mnemonic: Mnemonic::XXX, addr_mode: AddrMode::Implied, size: 1, cycles: 2, extra_cycles: 0 },
        0xbcu8 => Operation { opcode: 0xbc, mnemonic: Mnemonic::LDY, addr_mode: AddrMode::IdxAbsX, size: 3, cycles: 4, extra_cycles: 1 },
        0xbdu8 => Operation { opcode: 0xbd, mnemonic: Mnemonic::LDA, addr_mode: AddrMode::IdxAbsX, size: 3, cycles: 4, extra_cycles: 2 },
        0xbeu8 => Operation { opcode: 0xbe, mnemonic: Mnemonic::LDX, addr_mode: AddrMode::IdxAbsY, size: 3, cycles: 4, extra_cycles: 2 },
        0xbfu8 => Operation { opcode: 0xbf, mnemonic: Mnemonic::XXX, addr_mode: AddrMode::Implied, size: 1, cycles: 2, extra_cycles: 0 },
        0xc0u8 => Operation { opcode: 0xc0, mnemonic: Mnemonic::CPY, addr_mode: AddrMode::Imm, size: 2, cycles: 2, extra_cycles: 0 },
        0xc1u8 => Operation { opcode: 0xc1, mnemonic: Mnemonic::CMP, addr_mode: AddrMode::IdxIndX, size: 2, cycles: 6, extra_cycles: 0 },
        0xc2u8 => Operation { opcode: 0xc2, mnemonic: Mnemonic::XXX, addr_mode: AddrMode::Implied, size: 1, cycles: 2, extra_cycles: 0 },
        0xc3u8 => Operation { opcode: 0xc3, mnemonic: Mnemonic::XXX, addr_mode: AddrMode::Implied, size: 1, cycles: 2, extra_cycles: 0 },
        0xc4u8 => Operation { opcode: 0xc4, mnemonic: Mnemonic::CPY, addr_mode: AddrMode::ZP, size: 2, cycles: 3, extra_cycles: 0 },
        0xc5u8 => Operation { opcode: 0xc5, mnemonic: Mnemonic::CMP, addr_mode: AddrMode::ZP, size: 2, cycles: 3, extra_cycles: 0 },
        0xc6u8 => Operation { opcode: 0xc6, mnemonic: Mnemonic::DEC, addr_mode: AddrMode::ZP, size: 2, cycles: 5, extra_cycles: 0 },
        0xc7u8 => Operation { opcode: 0xc7, mnemonic: Mnemonic::XXX, addr_mode: AddrMode::Implied, size: 1, cycles: 2, extra_cycles: 0 },
        0xc8u8 => Operation { opcode: 0xc8, mnemonic: Mnemonic::INY, addr_mode: AddrMode::Implied, size: 1, cycles: 2, extra_cycles: 0 },
        0xc9u8 => Operation { opcode: 0xc9, mnemonic: Mnemonic::CMP, addr_mode: AddrMode::Imm, size: 2, cycles: 2, extra_cycles: 0 },
        0xcau8 => Operation { opcode: 0xca, mnemonic: Mnemonic::DEX, addr_mode: AddrMode::Implied, size: 1, cycles: 2, extra_cycles: 0 },
        0xcbu8 => Operation { opcode: 0xcb, mnemonic: Mnemonic::XXX, addr_mode: AddrMode::Implied, size: 1, cycles: 2, extra_cycles: 0 },
        0xccu8 => Operation { opcode: 0xcc, mnemonic: Mnemonic::CPY, addr_mode: AddrMode::Absolute, size: 3, cycles: 4, extra_cycles: 0 },
        0xcdu8 => Operation { opcode: 0xcd, mnemonic: Mnemonic::CMP, addr_mode: AddrMode::Absolute, size: 3, cycles: 4, extra_cycles: 0 },
        0xceu8 => Operation { opcode: 0xce, mnemonic: Mnemonic::DEC, addr_mode: AddrMode::Absolute, size: 3, cycles: 6, extra_cycles: 0 },
        0xcfu8 => Operation { opcode: 0xcf, mnemonic: Mnemonic::XXX, addr_mode: AddrMode::Implied, size: 1, cycles: 2, extra_cycles: 0 },
        0xd0u8 => Operation { opcode: 0xd0, mnemonic: Mnemonic::BNE, addr_mode: AddrMode::Relative, size: 2, cycles: 2, extra_cycles: 1 },
        0xd1u8 => Operation { opcode: 0xd1, mnemonic: Mnemonic::CMP, addr_mode: AddrMode::IndIdxY, size: 2, cycles: 5, extra_cycles: 2 },
        0xd2u8 => Operation { opcode: 0xd2, mnemonic: Mnemonic::XXX, addr_mode: AddrMode::Implied, size: 1, cycles: 2, extra_cycles: 0 },
        0xd3u8 => Operation { opcode: 0xd3, mnemonic: Mnemonic::XXX, addr_mode: AddrMode::Implied, size: 1, cycles: 2, extra_cycles: 0 },
        0xd4u8 => Operation { opcode: 0xd4, mnemonic: Mnemonic::XXX, addr_mode: AddrMode::Implied, size: 1, cycles: 2, extra_cycles: 0 },
        0xd5u8 => Operation { opcode: 0xd5, mnemonic: Mnemonic::CMP, addr_mode: AddrMode::IdxZPX, size: 2, cycles: 4, extra_cycles: 0 },
        0xd6u8 => Operation { opcode: 0xd6, mnemonic: Mnemonic::DEC, addr_mode: AddrMode::IdxZPX, size: 2, cycles: 6, extra_cycles: 0 },
        0xd7u8 => Operation { opcode: 0xd7, mnemonic: Mnemonic::XXX, addr_mode: AddrMode::Implied, size: 1, cycles: 2, extra_cycles: 0 },
        0xd8u8 => Operation { opcode: 0xd8, mnemonic: Mnemonic::CLD, addr_mode: AddrMode::Implied, size: 1, cycles: 2, extra_cycles: 0 },
        0xd9u8 => Operation { opcode: 0xd9, mnemonic: Mnemonic::CMP, addr_mode: AddrMode::IdxAbsY, size: 3, cycles: 4, extra_cycles: 2 },
        0xdau8 => Operation { opcode: 0xda, mnemonic: Mnemonic::XXX, addr_mode: AddrMode::Implied, size: 1, cycles: 2, extra_cycles: 0 },
        0xdbu8 => Operation { opcode: 0xdb, mnemonic: Mnemonic::XXX, addr_mode: AddrMode::Implied, size: 1, cycles: 2, extra_cycles: 0 },
        0xdcu8 => Operation { opcode: 0xdc, mnemonic: Mnemonic::XXX, addr_mode: AddrMode::Implied, size: 1, cycles: 2, extra_cycles: 0 },
        0xddu8 => Operation { opcode: 0xdd, mnemonic: Mnemonic::CMP, addr_mode: AddrMode::IdxAbsX, size: 3, cycles: 4, extra_cycles: 0 },
        0xdeu8 => Operation { opcode: 0xde, mnemonic: Mnemonic::DEC, addr_mode: AddrMode::IdxAbsX, size: 3, cycles: 7, extra_cycles: 0 },
        0xdfu8 => Operation { opcode: 0xdf, mnemonic: Mnemonic::XXX, addr_mode: AddrMode::Implied, size: 1, cycles: 2, extra_cycles: 0 },
        0xe0u8 => Operation { opcode: 0xe0, mnemonic: Mnemonic::CPX, addr_mode: AddrMode::Imm, size: 2, cycles: 2, extra_cycles: 0 },
        0xe1u8 => Operation { opcode: 0xe1, mnemonic: Mnemonic::SBC, addr_mode: AddrMode::IdxIndX, size: 2, cycles: 6, extra_cycles: 0 },
        0xe2u8 => Operation { opcode: 0xe2, mnemonic: Mnemonic::XXX, addr_mode: AddrMode::Implied, size: 1, cycles: 2, extra_cycles: 0 },
        0xe3u8 => Operation { opcode: 0xe3, mnemonic: Mnemonic::XXX, addr_mode: AddrMode::Implied, size: 1, cycles: 2, extra_cycles: 0 },
        0xe4u8 => Operation { opcode: 0xe4, mnemonic: Mnemonic::CPX, addr_mode: AddrMode::ZP, size: 2, cycles: 3, extra_cycles: 0 },
        0xe5u8 => Operation { opcode: 0xe5, mnemonic: Mnemonic::SBC, addr_mode: AddrMode::ZP, size: 2, cycles: 3, extra_cycles: 0 },
        0xe6u8 => Operation { opcode: 0xe6, mnemonic: Mnemonic::INC, addr_mode: AddrMode::ZP, size: 2, cycles: 5, extra_cycles: 0 },
        0xe7u8 => Operation { opcode: 0xe7, mnemonic: Mnemonic::XXX, addr_mode: AddrMode::Implied, size: 1, cycles: 2, extra_cycles: 0 },
        0xe8u8 => Operation { opcode: 0xe8, mnemonic: Mnemonic::INX, addr_mode: AddrMode::Implied, size: 1, cycles: 2, extra_cycles: 0 },
        0xe9u8 => Operation { opcode: 0xe9, mnemonic: Mnemonic::SBC, addr_mode: AddrMode::Imm, size: 2, cycles: 2, extra_cycles: 0 },
        0xeau8 => Operation { opcode: 0xea, mnemonic: Mnemonic::NOP, addr_mode: AddrMode::Implied, size: 1, cycles: 2, extra_cycles: 0 },
        0xebu8 => Operation { opcode: 0xeb, mnemonic: Mnemonic::XXX, addr_mode: AddrMode::Implied, size: 1, cycles: 2, extra_cycles: 0 },
        0xecu8 => Operation { opcode: 0xec, mnemonic: Mnemonic::CPX, addr_mode: AddrMode::Absolute, size: 3, cycles: 4, extra_cycles: 0 },
        0xedu8 => Operation { opcode: 0xed, mnemonic: Mnemonic::SBC, addr_mode: AddrMode::Absolute, size: 3, cycles: 4, extra_cycles: 0 },
        0xeeu8 => Operation { opcode: 0xee, mnemonic: Mnemonic::INC, addr_mode: AddrMode::Absolute, size: 3, cycles: 6, extra_cycles: 0 },
        0xefu8 => Operation { opcode: 0xef, mnemonic: Mnemonic::XXX, addr_mode: AddrMode::Implied, size: 1, cycles: 2, extra_cycles: 0 },
        0xf0u8 => Operation { opcode: 0xf0, mnemonic: Mnemonic::BEQ, addr_mode: AddrMode::Relative, size: 2, cycles: 2, extra_cycles: 1 },
        0xf1u8 => Operation { opcode: 0xf1, mnemonic: Mnemonic::SBC, addr_mode: AddrMode::IndIdxY, size: 2, cycles: 5, extra_cycles: 2 },
        0xf2u8 => Operation { opcode: 0xf2, mnemonic: Mnemonic::XXX, addr_mode: AddrMode::Implied, size: 1, cycles: 2, extra_cycles: 0 },
        0xf3u8 => Operation { opcode: 0xf3, mnemonic: Mnemonic::XXX, addr_mode: AddrMode::Implied, size: 1, cycles: 2, extra_cycles: 0 },
        0xf4u8 => Operation { opcode: 0xf4, mnemonic: Mnemonic::XXX, addr_mode: AddrMode::Implied, size: 1, cycles: 2, extra_cycles: 0 },
        0xf5u8 => Operation { opcode: 0xf5, mnemonic: Mnemonic::SBC, addr_mode: AddrMode::IdxZPX, size: 2, cycles: 4, extra_cycles: 0 },
        0xf6u8 => Operation { opcode: 0xf6, mnemonic: Mnemonic::INC, addr_mode: AddrMode::IdxZPX, size: 2, cycles: 6, extra_cycles: 0 },
        0xf7u8 => Operation { opcode: 0xf7, mnemonic: Mnemonic::XXX, addr_mode: AddrMode::Implied, size: 1, cycles: 2, extra_cycles: 0 },
        0xf8u8 => Operation { opcode: 0xf8, mnemonic: Mnemonic::SED, addr_mode: AddrMode::Implied, size: 1, cycles: 2, extra_cycles: 0 },
        0xf9u8 => Operation { opcode: 0xf9, mnemonic: Mnemonic::SBC, addr_mode: AddrMode::IdxAbsY, size: 3, cycles: 4, extra_cycles: 2 },
        0xfau8 => Operation { opcode: 0xfa, mnemonic: Mnemonic::XXX, addr_mode: AddrMode::Implied, size: 1, cycles: 2, extra_cycles: 0 },
        0xfbu8 => Operation { opcode: 0xfb, mnemonic: Mnemonic::XXX, addr_mode: AddrMode::Implied, size: 1, cycles: 2, extra_cycles: 0 },
        0xfcu8 => Operation { opcode: 0xfc, mnemonic: Mnemonic::XXX, addr_mode: AddrMode::Implied, size: 1, cycles: 2, extra_cycles: 0 },
        0xfdu8 => Operation { opcode: 0xfd, mnemonic: Mnemonic::SBC, addr_mode: AddrMode::IdxAbsX, size: 3, cycles: 4, extra_cycles: 2 },
        0xfeu8 => Operation { opcode: 0xfe, mnemonic: Mnemonic::INC, addr_mode: AddrMode::IdxAbsX, size: 3, cycles: 7, extra_cycles: 0 },
        _ => Operation { opcode: 0xff, mnemonic: Mnemonic::XXX, addr_mode: AddrMode::Implied, size: 1, cycles: 2, extra_cycles: 0 },
    }
}

/// Every table entry is internally consistent: its length matches its
/// addressing mode, lies in 1..=3, its base cycle count is in 2..=7, and the
/// opcode field holds the byte the entry is indexed by.
pub proof fn lemma_optable_wf(b: u8)
    ensures
        optable(b).opcode == b,
        optable(b).size == mode_len(optable(b).addr_mode),
        1 <= optable(b).size <= 3,
        2 <= optable(b).cycles <= 7,
        optable(b).extra_cycles <= 2,
{
}

/// A full table entry as handed to callers that also want to know whether the
/// opcode is a documented one.
#[derive(Clone, Copy, Debug, PartialEq, Eq, Structural)]
pub struct Opcode {
    /// The opcode byte.
    pub value: u8,
    /// Operation mnemonic; `XXX` for illegal opcodes.
    pub mnemonic: Mnemonic,
    /// Addressing mode.
    pub addr_mode: AddrMode,
    /// Instruction length in bytes.
    pub len: u8,
    /// Base cycle count.
    pub cycles: u8,
    /// Page-cross penalty category.
    pub cycle_penalty_category: u8,
    /// Whether this is a documented opcode.
    pub legal: bool,
}

/// The `Opcode` row for one opcode byte.
pub open spec fn opcode_row(b: u8) -> Opcode {
    Opcode {
        value: b,
        mnemonic: optable(b).mnemonic,
        addr_mode: optable(b).addr_mode,
        len: optable(b).size,
        cycles: optable(b).cycles,
        cycle_penalty_category: optable(b).extra_cycles,
        legal: optable(b).mnemonic != Mnemonic::XXX,
    }
}

impl Opcode {
    /// The number of cycles a page crossing actually costs for this opcode:
    /// 1 when the entry is in a penalty category and the operation is not
    /// write-style, otherwise 0.
    pub fn cycle_penalty(&self) -> (r: u8)
        ensures
            r == spec_cycle_penalty(self.cycle_penalty_category, self.mnemonic),
    {
        if self.cycle_penalty_category == 0 {
            return 0;
        }
        match self.mnemonic {
            Mnemonic::ASL | Mnemonic::DEC | Mnemonic::INC | Mnemonic::LSR | Mnemonic::ROL
                | Mnemonic::ROR | Mnemonic::STA => 0,
            _ => 1,
        }
    }
}

/// The effective page-cross penalty for a penalty category and a mnemonic.
pub open spec fn spec_cycle_penalty(category: u8, m: Mnemonic) -> u8 {
    if category == 0 || is_write_style(m) {
        0
    } else {
        1
    }
}

/// Push all 256 table rows onto `table`, in opcode order.
pub fn add_all_ops(table: &mut Vec<Opcode>)
    ensures
        final(table)@.len() == old(table)@.len() + 256,
        forall|i: int| 0 <= i < old(table)@.len() ==> final(table)@[i] == old(table)@[i],
        forall|i: int|
            0 <= i < 256 ==> #[trigger] final(table)@[old(table)@.len() + i] == opcode_row(
                i as u8,
            ),
{
    let ghost base = table@.len();
    let mut b: usize = 0;
    while b < 256
        invariant
            b <= 256,
            table@.len() == base + b,
            forall|i: int| 0 <= i < base ==> table@[i] == old(table)@[i],
            forall|i: int| 0 <= i < b ==> #[trigger] table@[base + i] == opcode_row(i as u8),
        decreases 256 - b,
    {
        let op = op_for(b as u8);
        table.push(Opcode {
            value: op.opcode,
            mnemonic: op.mnemonic,
            addr_mode: op.addr_mode,
            len: op.size,
            cycles: op.cycles,
            cycle_penalty_category: op.extra_cycles,
            legal: !matches!(op.mnemonic, Mnemonic::XXX),
        });
        b += 1;
    }
}

/// Build the full 256-entry opcode table.
pub fn create_opcode_table() -> (table: Vec<Opcode>)
    ensures
        table@.len() == 256,
        forall|i: int| 0 <= i < 256 ==> table@[i] == opcode_row(i as u8),
{
    let mut table: Vec<Opcode> = Vec::new();
    add_all_ops(&mut table);
    proof {
        assert forall|i: int| 0 <= i < 256 implies table@[i] == opcode_row(i as u8) by {
            assert(table@[0 + i] == opcode_row(i as u8));
        }
    }
    table
}


/// Operations that read an operand value through the addressing target.
pub open spec fn is_fetch_style(m: Mnemonic) -> bool {
    m == Mnemonic::ADC || m == Mnemonic::AND || m == Mnemonic::BIT || m == Mnemonic::CMP
        || m == Mnemonic::CPX || m == Mnemonic::CPY || m == Mnemonic::EOR || m == Mnemonic::LDA
        || m == Mnemonic::LDX || m == Mnemonic::LDY || m == Mnemonic::ORA || m == Mnemonic::SBC
}

/// Operations that read, modify and write their target.
pub open spec fn is_rmw_style(m: Mnemonic) -> bool {
    m == Mnemonic::ASL || m == Mnemonic::LSR || m == Mnemonic::ROL || m == Mnemonic::ROR
}

/// Operations that write a register to a memory target.
pub open spec fn is_store_only_style(m: Mnemonic) -> bool {
    m == Mnemonic::STA || m == Mnemonic::STX || m == Mnemonic::STY || m == Mnemonic::INC
        || m == Mnemonic::DEC
}

/// The conditional branches.
pub open spec fn is_branch_style(m: Mnemonic) -> bool {
    m == Mnemonic::BCC || m == Mnemonic::BCS || m == Mnemonic::BEQ || m == Mnemonic::BMI
        || m == Mnemonic::BNE || m == Mnemonic::BPL || m == Mnemonic::BVC || m == Mnemonic::BVS
}

/// Operations that overwrite the program counter themselves: jumps, calls,
/// returns, the forced interrupt, and taken branches.
pub open spec fn is_control_style(m: Mnemonic) -> bool {
    is_branch_style(m) || m == Mnemonic::JMP || m == Mnemonic::JSR || m == Mnemonic::RTS
        || m == Mnemonic::RTI || m == Mnemonic::BRK
}

/// Each mnemonic appears in the table only with addressing modes that suit
/// it: value readers never with implied or accumulator modes, shifts only
/// with the accumulator or a memory mode, stores only with memory modes,
/// branches only with relative mode, and jumps with absolute or indirect
/// mode.
pub proof fn lemma_optable_modes(b: u8)
    ensures
        is_fetch_style(optable(b).mnemonic) ==> optable(b).addr_mode != AddrMode::Implied
            && optable(b).addr_mode != AddrMode::Accum,
        is_rmw_style(optable(b).mnemonic) ==> optable(b).addr_mode != AddrMode::Implied
            && optable(b).addr_mode != AddrMode::Imm,
        is_store_only_style(optable(b).mnemonic) ==> optable(b).addr_mode != AddrMode::Implied
            && optable(b).addr_mode != AddrMode::Imm && optable(b).addr_mode != AddrMode::Accum,
        is_branch_style(optable(b).mnemonic) ==> optable(b).addr_mode == AddrMode::Relative,
        optable(b).mnemonic == Mnemonic::JMP || optable(b).mnemonic == Mnemonic::JSR
            ==> optable(b).addr_mode == AddrMode::Absolute || optable(b).addr_mode
            == AddrMode::Indirect,
{
}

} // verus!
