//! The disassembler: a pure decoder from a byte source to instruction
//! records, and the text rendering of one record.

use vstd::prelude::*;

use crate::hexfmt::{hex2, hex4, push_hex2, push_hex4};
use crate::optable::{op_for, optable, AddrMode, Mnemonic, Operation};

verus! {

/// The operand bytes of one decoded instruction.
#[derive(Clone, Copy, Debug, PartialEq, Eq, Structural)]
pub enum Operand {
    /// No operand byte follows the opcode.
    Null,
    /// One operand byte.
    Byte(u8),
    /// Two operand bytes, assembled little-endian.
    Word(u16),
}

/// One decoded instruction: its table entry, its operand, and the offset it
/// was decoded from.
#[derive(Clone, Copy, Debug, PartialEq, Eq, Structural)]
pub struct Instruction {
    /// The instruction table entry for the opcode byte.
    pub op: Operation,
    /// The operand, whose shape matches `op.size`.
    pub operand: Operand,
    /// The offset of the opcode byte in the source.
    pub offset: u16,
}

/// The operand shape an instruction length calls for: no operand for length
/// 1, one byte for length 2, a word for length 3.
pub open spec fn operand_matches(size: u8, operand: Operand) -> bool {
    match operand {
        Operand::Null => size == 1,
        Operand::Byte(_) => size == 2,
        Operand::Word(_) => size == 3,
    }
}

/// A random-access source of code bytes.
pub trait ByteSource {
    /// The byte this source holds at an offset, if any.
    spec fn byte_at(&self, offset: u16) -> Option<u8>;

    /// Read the byte at an offset; `Err` when the source has none there.
    fn read_byte(&self, offset: u16) -> (r: Result<u8, ()>)
        ensures
            match self.byte_at(offset) {
                Some(b) => r == Ok::<u8, ()>(b),
                None => r == Err::<u8, ()>(()),
            },
    ;
}

impl ByteSource for Vec<u8> {
    open spec fn byte_at(&self, offset: u16) -> Option<u8> {
        if offset < self@.len() {
            Some(self@[offset as int])
        } else {
            None
        }
    }

    fn read_byte(&self, offset: u16) -> (r: Result<u8, ()>) {
        if (offset as usize) < self.len() {
            Ok(self[offset as usize])
        } else {
            Err(())
        }
    }
}

/// What decoding one instruction at an offset yields: `None` when the source
/// is missing the opcode byte or an operand byte, or when an operand offset
/// does not fit in 16 bits.
pub open spec fn spec_disasm_one<T: ByteSource>(data: &T, offset: u16) -> Option<Instruction> {
    match data.byte_at(offset) {
        None => None,
        Some(b) => {
            let op = optable(b);
            if op.size == 1 {
                Some(Instruction { op, operand: Operand::Null, offset })
            } else if op.size == 2 {
                if offset + 1 <= 0xFFFF {
                    match data.byte_at((offset + 1) as u16) {
                        Some(o) => Some(Instruction { op, operand: Operand::Byte(o), offset }),
                        None => None,
                    }
                } else {
                    None
                }
            } else {
                if offset + 2 <= 0xFFFF {
                    match (data.byte_at((offset + 1) as u16), data.byte_at((offset + 2) as u16)) {
                        (Some(lo), Some(hi)) => Some(
                            Instruction {
                                op,
                                operand: Operand::Word((lo + hi * 256) as u16),
                                offset,
                            },
                        ),
                        _ => None,
                    }
                } else {
                    None
                }
            }
        },
    }
}

/// Disassemble one instruction at `offset`: look the opcode byte up in the
/// instruction table and read as many operand bytes as its length asks for.
pub fn disasm_one<T: ByteSource>(data: &T, offset: u16) -> (r: Result<Instruction, ()>)
    ensures
        match spec_disasm_one(data, offset) {
            Some(i) => r == Ok::<Instruction, ()>(i),
            None => r == Err::<Instruction, ()>(()),
        },
        r matches Ok(i) ==> i.op == optable(data.byte_at(offset)->Some_0) && i.offset == offset
            && operand_matches(i.op.size, i.operand),
{
    let b = data.read_byte(offset)?;
    let op = op_for(b);
    proof {
        crate::optable::lemma_optable_wf(b);
    }
    if op.size == 1 {
        Ok(Instruction { op, operand: Operand::Null, offset })
    } else if op.size == 2 {
        if offset > 0xFFFE {
            return Err(());
        }
        let o = data.read_byte(offset + 1)?;
        Ok(Instruction { op, operand: Operand::Byte(o), offset })
    } else {
        if offset > 0xFFFD {
            return Err(());
        }
        let lo = data.read_byte(offset + 1)?;
        let hi = data.read_byte(offset + 2)?;
        Ok(Instruction { op, operand: Operand::Word(lo as u16 + hi as u16 * 256), offset })
    }
}

/// Decoding any opcode byte succeeds whenever the two bytes after it are
/// present, and yields that byte's table entry: every byte value decodes.
pub proof fn lemma_decode_any_byte<T: ByteSource>(data: &T, offset: u16, b: u8)
    requires
        data.byte_at(offset) == Some(b),
        offset + 2 <= 0xFFFF,
        data.byte_at((offset + 1) as u16) is Some,
        data.byte_at((offset + 2) as u16) is Some,
    ensures
        spec_disasm_one(data, offset) matches Some(i) && i.op == optable(b) && i.offset == offset
            && operand_matches(i.op.size, i.operand),
{
    crate::optable::lemma_optable_wf(b);
}

/// A cursor that disassembles a source one instruction at a time.
pub struct AsmIter<'a, T: ByteSource> {
    data: &'a T,
    offset: u16,
    done: bool,
}

impl<'a, T: ByteSource> AsmIter<'a, T> {
    /// The source this cursor reads.
    pub closed spec fn data_view(&self) -> &T {
        self.data
    }

    /// The offset the next instruction will be decoded from.
    pub closed spec fn spec_offset(&self) -> u16 {
        self.offset
    }

    /// Whether the cursor has stopped.
    pub closed spec fn spec_done(&self) -> bool {
        self.done
    }

    /// A cursor over `data` starting at `offset`.
    pub fn new(data: &'a T, offset: u16) -> (r: Self)
        ensures
            r.data_view() == data,
            r.spec_offset() == offset,
            !r.spec_done(),
    {
        AsmIter { data, offset, done: false }
    }

    /// The offset reached so far: the start offset plus the sizes of all
    /// instructions handed out.
    pub fn bytes_read(&self) -> (r: u16)
        ensures
            r == self.spec_offset(),
    {
        self.offset
    }

    /// Decode the next instruction and advance past it. `None` once the
    /// source runs out of bytes or the offset would leave 16 bits.
    pub fn next(&mut self) -> (r: Option<Instruction>)
        ensures
            final(self).data_view() == old(self).data_view(),
            old(self).spec_done() ==> r is None && *final(self) == *old(self),
            !old(self).spec_done() ==> match spec_disasm_one(
                old(self).data_view(),
                old(self).spec_offset(),
            ) {
                Some(i) => r == Some(i) && (if old(self).spec_offset() + i.op.size <= 0xFFFF {
                    final(self).spec_offset() == old(self).spec_offset() + i.op.size
                        && !final(self).spec_done()
                } else {
                    final(self).spec_offset() == old(self).spec_offset()
                        && final(self).spec_done()
                }),
                None => r is None && final(self).spec_offset() == old(self).spec_offset()
                    && final(self).spec_done(),
            },
    {
        if self.done {
            return None;
        }
        match disasm_one(self.data, self.offset) {
            Ok(instr) => {
                proof {
                    crate::optable::lemma_optable_wf(
                        old(self).data_view().byte_at(old(self).spec_offset())->Some_0,
                    );
                }
                if self.offset <= 0xFFFF - instr.op.size as u16 {
                    self.offset = self.offset + instr.op.size as u16;
                } else {
                    self.done = true;
                }
                Some(instr)
            },
            Err(()) => {
                self.done = true;
                None
            },
        }
    }
}

/// A cursor over disassembled instructions from `data`, starting at `offset`.
pub fn disasm<'a, T: ByteSource>(data: &'a T, offset: u16) -> (r: AsmIter<'a, T>)
    ensures
        r.data_view() == data,
        r.spec_offset() == offset,
        !r.spec_done(),
{
    AsmIter::new(data, offset)
}

/// Disassemble from `offset` to the end of the source (or until an
/// instruction cannot be completed) and collect the records. Consecutive
/// records are adjacent: each offset is the previous offset plus the previous
/// instruction's size. The run is maximal: it ends only where decoding the
/// next record fails, or where the next offset would not fit in 16 bits.
pub fn disasm_all<T: ByteSource>(data: &T, offset: u16) -> (out: Vec<Instruction>)
    ensures
        out@.len() > 0 ==> out@[0] == spec_disasm_one(data, offset)->Some_0
            && spec_disasm_one(data, offset) is Some && out@[0].offset == offset,
        out@.len() == 0 ==> spec_disasm_one(data, offset) is None,
        forall|k: int|
            0 <= k < out@.len() ==> (#[trigger] out@[k]) == spec_disasm_one(
                data,
                out@[k].offset,
            )->Some_0 && spec_disasm_one(data, out@[k].offset) is Some,
        forall|k: int|
            0 < k < out@.len() ==> (#[trigger] out@[k]).offset == out@[k - 1].offset + out@[k
                - 1].op.size,
        out@.len() > 0 ==> out@[out@.len() - 1].offset + out@[out@.len() - 1].op.size > 0xFFFF
            || spec_disasm_one(
            data,
            (out@[out@.len() - 1].offset + out@[out@.len() - 1].op.size) as u16,
        ) is None,
{
    let mut iter = AsmIter::new(data, offset);
    let mut out: Vec<Instruction> = Vec::new();
    loop
        invariant
            iter.data_view() == data,
            out@.len() == 0 ==> !iter.spec_done() && iter.spec_offset() == offset,
            out@.len() > 0 ==> out@[0].offset == offset,
            forall|k: int|
                0 <= k < out@.len() ==> (#[trigger] out@[k]) == spec_disasm_one(
                    data,
                    out@[k].offset,
                )->Some_0 && spec_disasm_one(data, out@[k].offset) is Some,
            forall|k: int|
                0 < k < out@.len() ==> (#[trigger] out@[k]).offset == out@[k - 1].offset + out@[k
                    - 1].op.size,
            out@.len() > 0 && !iter.spec_done() ==> iter.spec_offset() == out@[out@.len()
                - 1].offset + out@[out@.len() - 1].op.size,
            iter.spec_done() ==> out@.len() > 0 && out@[out@.len() - 1].offset + out@[out@.len()
                - 1].op.size > 0xFFFF,
        decreases (if iter.spec_done() { 0int } else { 1int }), 0x10000 - iter.spec_offset(),
    {
        let n = iter.next();
        match n {
            Some(instr) => {
                out.push(instr);
            },
            None => {
                return out;
            },
        }
    }
}

/// The three-letter name of a mnemonic.
pub open spec fn mnemonic_chars(m: Mnemonic) -> Seq<char> {
    match m {
        Mnemonic::BRK => "BRK"@,
        Mnemonic::ORA => "ORA"@,
        Mnemonic::ASL => "ASL"@,
        Mnemonic::PHP => "PHP"@,
        Mnemonic::BPL => "BPL"@,
        Mnemonic::CLC => "CLC"@,
        Mnemonic::JSR => "JSR"@,
        Mnemonic::AND => "AND"@,
        Mnemonic::BIT => "BIT"@,
        Mnemonic::ROL => "ROL"@,
        Mnemonic::PLP => "PLP"@,
        Mnemonic::BMI => "BMI"@,
        Mnemonic::SEC => "SEC"@,
        Mnemonic::RTI => "RTI"@,
        Mnemonic::EOR => "EOR"@,
        Mnemonic::LSR => "LSR"@,
        Mnemonic::PHA => "PHA"@,
        Mnemonic::JMP => "JMP"@,
        Mnemonic::BVC => "BVC"@,
        Mnemonic::CLI => "CLI"@,
        Mnemonic::RTS => "RTS"@,
        Mnemonic::ADC => "ADC"@,
        Mnemonic::ROR => "ROR"@,
        Mnemonic::PLA => "PLA"@,
        Mnemonic::BVS => "BVS"@,
        Mnemonic::SEI => "SEI"@,
        Mnemonic::STA => "STA"@,
        Mnemonic::STY => "STY"@,
        Mnemonic::STX => "STX"@,
        Mnemonic::DEY => "DEY"@,
        Mnemonic::TXA => "TXA"@,
        Mnemonic::BCC => "BCC"@,
        Mnemonic::TYA => "TYA"@,
        Mnemonic::TXS => "TXS"@,
        Mnemonic::LDY => "LDY"@,
        Mnemonic::LDA => "LDA"@,
        Mnemonic::LDX => "LDX"@,
        Mnemonic::TAY => "TAY"@,
        Mnemonic::TAX => "TAX"@,
        Mnemonic::BCS => "BCS"@,
        Mnemonic::CLV => "CLV"@,
        Mnemonic::TSX => "TSX"@,
        Mnemonic::CPY => "CPY"@,
        Mnemonic::CMP => "CMP"@,
        Mnemonic::DEC => "DEC"@,
        Mnemonic::INY => "INY"@,
        Mnemonic::DEX => "DEX"@,
        Mnemonic::BNE => "BNE"@,
        Mnemonic::CLD => "CLD"@,
        Mnemonic::CPX => "CPX"@,
        Mnemonic::SBC => "SBC"@,
        Mnemonic::INC => "INC"@,
        Mnemonic::INX => "INX"@,
        Mnemonic::NOP => "NOP"@,
        Mnemonic::BEQ => "BEQ"@,
        Mnemonic::SED => "SED"@,
        Mnemonic::XXX => "XXX"@,
    }
}

/// The three-letter name of a mnemonic, as a string slice.
pub fn mnemonic_name(m: Mnemonic) -> (r: &'static str)
    ensures
        r@ == mnemonic_chars(m),
{
    match m {
        Mnemonic::BRK => "BRK",
        Mnemonic::ORA => "ORA",
        Mnemonic::ASL => "ASL",
        Mnemonic::PHP => "PHP",
        Mnemonic::BPL => "BPL",
        Mnemonic::CLC => "CLC",
        Mnemonic::JSR => "JSR",
        Mnemonic::AND => "AND",
        Mnemonic::BIT => "BIT",
        Mnemonic::ROL => "ROL",
        Mnemonic::PLP => "PLP",
        Mnemonic::BMI => "BMI",
        Mnemonic::SEC => "SEC",
        Mnemonic::RTI => "RTI",
        Mnemonic::EOR => "EOR",
        Mnemonic::LSR => "LSR",
        Mnemonic::PHA => "PHA",
        Mnemonic::JMP => "JMP",
        Mnemonic::BVC => "BVC",
        Mnemonic::CLI => "CLI",
        Mnemonic::RTS => "RTS",
        Mnemonic::ADC => "ADC",
        Mnemonic::ROR => "ROR",
        Mnemonic::PLA => "PLA",
        Mnemonic::BVS => "BVS",
        Mnemonic::SEI => "SEI",
        Mnemonic::STA => "STA",
        Mnemonic::STY => "STY",
        Mnemonic::STX => "STX",
        Mnemonic::DEY => "DEY",
        Mnemonic::TXA => "TXA",
        Mnemonic::BCC => "BCC",
        Mnemonic::TYA => "TYA",
        Mnemonic::TXS => "TXS",
        Mnemonic::LDY => "LDY",
        Mnemonic::LDA => "LDA",
        Mnemonic::LDX => "LDX",
        Mnemonic::TAY => "TAY",
        Mnemonic::TAX => "TAX",
        Mnemonic::BCS => "BCS",
        Mnemonic::CLV => "CLV",
        Mnemonic::TSX => "TSX",
        Mnemonic::CPY => "CPY",
        Mnemonic::CMP => "CMP",
        Mnemonic::DEC => "DEC",
        Mnemonic::INY => "INY",
        Mnemonic::DEX => "DEX",
        Mnemonic::BNE => "BNE",
        Mnemonic::CLD => "CLD",
        Mnemonic::CPX => "CPX",
        Mnemonic::SBC => "SBC",
        Mnemonic::INC => "INC",
        Mnemonic::INX => "INX",
        Mnemonic::NOP => "NOP",
        Mnemonic::BEQ => "BEQ",
        Mnemonic::SED => "SED",
        Mnemonic::XXX => "XXX",
    }
}


impl Instruction {
    /// The operand text of the rendered instruction, decoration included:
    /// `#$xx` for immediate and zero-page operands, `$xxxx` for absolute,
    /// `($xxxx)` for indirect, an `,X` or `,Y` suffix for indexed modes,
    /// `A` for accumulator, the absolute branch target for relative mode,
    /// and nothing for implied mode.
    pub open spec fn operand_text(&self, upper: bool) -> Seq<char> {
        match self.op.addr_mode {
            AddrMode::Accum => " A"@,
            AddrMode::Implied => ""@,
            AddrMode::Imm => " #$"@ + hex2(self.operand->Byte_0, upper),
            AddrMode::ZP => " #$"@ + hex2(self.operand->Byte_0, upper),
            AddrMode::IdxZPX => " $"@ + hex2(self.operand->Byte_0, upper) + ",X"@,
            AddrMode::IdxZPY => " $"@ + hex2(self.operand->Byte_0, upper) + ",Y"@,
            AddrMode::Absolute => " $"@ + hex4(self.operand->Word_0, upper),
            AddrMode::IdxAbsX => " $"@ + hex4(self.operand->Word_0, upper) + ",X"@,
            AddrMode::IdxAbsY => " $"@ + hex4(self.operand->Word_0, upper) + ",Y"@,
            AddrMode::Indirect => " ($"@ + hex4(self.operand->Word_0, upper) + ")"@,
            AddrMode::IdxIndX => " ($"@ + hex2(self.operand->Byte_0, upper) + ",X)"@,
            AddrMode::IndIdxY => " ($"@ + hex2(self.operand->Byte_0, upper) + "),Y"@,
            AddrMode::Relative => " $"@ + hex4(
                rel_target(self.offset, self.op.size, self.operand->Byte_0),
                upper,
            ),
        }
    }

    /// The rendered instruction: offset, colon, mnemonic, operand text.
    pub open spec fn text_spec(&self, upper: bool) -> Seq<char> {
        hex4(self.offset, upper) + ": "@ + mnemonic_chars(self.op.mnemonic) + self.operand_text(
            upper,
        )
    }

    /// Render the instruction with upper-case hexadecimal digits.
    pub fn text(&self) -> (r: String)
        requires
            operand_matches(self.op.size, self.operand),
            self.op.size == crate::optable::mode_len(self.op.addr_mode),
        ensures
            r@ == self.text_spec(true),
    {
        self.render(true)
    }

    /// Render the instruction with lower-case hexadecimal digits, as trace
    /// logs write them.
    pub fn text_lowercase(&self) -> (r: String)
        requires
            operand_matches(self.op.size, self.operand),
            self.op.size == crate::optable::mode_len(self.op.addr_mode),
        ensures
            r@ == self.text_spec(false),
    {
        self.render(false)
    }

    /// Render the operand text alone.
    #[verifier::rlimit(30)]
    pub fn operand_string(&self, upper: bool) -> (r: String)
        requires
            operand_matches(self.op.size, self.operand),
            self.op.size == crate::optable::mode_len(self.op.addr_mode),
        ensures
            r@ == self.operand_text(upper),
    {
        let mut s = String::new();
        match self.op.addr_mode {
            AddrMode::Accum => {
                s.append(" A");
                proof {
                    assert(s@ =~= self.operand_text(upper));
                }
            },
            AddrMode::Implied => {
                proof {
                    reveal_strlit("");
                    assert(s@ =~= self.operand_text(upper));
                }
            },
            AddrMode::Imm | AddrMode::ZP => {
                s.append(" #$");
                let b = match self.operand {
                    Operand::Byte(b) => b,
                    _ => 0,
                };
                push_hex2(&mut s, b, upper);
                proof {
                    assert(s@ =~= self.operand_text(upper));
                }
            },
            AddrMode::IdxZPX | AddrMode::IdxZPY => {
                s.append(" $");
                let b = match self.operand {
                    Operand::Byte(b) => b,
                    _ => 0,
                };
                push_hex2(&mut s, b, upper);
                s.append(
                    if matches!(self.op.addr_mode, AddrMode::IdxZPX) {
                        ",X"
                    } else {
                        ",Y"
                    },
                );
                proof {
                    assert(s@ =~= self.operand_text(upper));
                }
            },
            AddrMode::Absolute | AddrMode::IdxAbsX | AddrMode::IdxAbsY => {
                s.append(" $");
                let w = match self.operand {
                    Operand::Word(w) => w,
                    _ => 0,
                };
                push_hex4(&mut s, w, upper);
                match self.op.addr_mode {
                    AddrMode::IdxAbsX => s.append(",X"),
                    AddrMode::IdxAbsY => s.append(",Y"),
                    _ => {},
                }
                proof {
                    assert(s@ =~= self.operand_text(upper));
                }
            },
            AddrMode::Indirect => {
                s.append(" ($");
                let w = match self.operand {
                    Operand::Word(w) => w,
                    _ => 0,
                };
                push_hex4(&mut s, w, upper);
                s.append(")");
                proof {
                    assert(s@ =~= self.operand_text(upper));
                }
            },
            AddrMode::IdxIndX | AddrMode::IndIdxY => {
                s.append(" ($");
                let b = match self.operand {
                    Operand::Byte(b) => b,
                    _ => 0,
                };
                push_hex2(&mut s, b, upper);
                s.append(
                    if matches!(self.op.addr_mode, AddrMode::IdxIndX) {
                        ",X)"
                    } else {
                        "),Y"
                    },
                );
                proof {
                    assert(s@ =~= self.operand_text(upper));
                }
            },
            AddrMode::Relative => {
                s.append(" $");
                let b = match self.operand {
                    Operand::Byte(b) => b,
                    _ => 0,
                };
                push_hex4(&mut s, rel_target_exec(self.offset, self.op.size, b), upper);
                proof {
                    assert(s@ =~= self.operand_text(upper));
                }
            },
        }
        s
    }

    /// Render the instruction in the chosen digit case.
    pub fn render(&self, upper: bool) -> (r: String)
        requires
            operand_matches(self.op.size, self.operand),
            self.op.size == crate::optable::mode_len(self.op.addr_mode),
        ensures
            r@ == self.text_spec(upper),
    {
        let mut s = String::new();
        push_hex4(&mut s, self.offset, upper);
        s.append(": ");
        s.append(mnemonic_name(self.op.mnemonic));
        let tail = self.operand_string(upper);
        s.append(tail.as_str());
        proof {
            assert(s@ =~= self.text_spec(upper));
        }
        s
    }
}

/// The absolute target of a relative branch: the offset just past the
/// instruction plus the sign-extended operand, wrapping in 16 bits.
pub open spec fn rel_target(offset: u16, size: u8, operand: u8) -> u16 {
    ((offset + size + (if operand >= 0x80 {
        operand + 0xFF00
    } else {
        operand as int
    })) % 0x10000) as u16
}

/// Compute the absolute target of a relative branch.
pub fn rel_target_exec(offset: u16, size: u8, operand: u8) -> (r: u16)
    ensures
        r == rel_target(offset, size, operand),
{
    let delta: u16 = if operand >= 0x80 {
        0xFF00u16 | (operand as u16)
    } else {
        operand as u16
    };
    proof {
        assert(operand >= 0x80 ==> (0xFF00u16 | (operand as u16)) == operand + 0xFF00)
            by (bit_vector);
    }
    let t = offset.wrapping_add(size as u16).wrapping_add(delta);
    proof {
        vstd::arithmetic::div_mod::lemma_add_mod_noop(
            (offset + size) as int,
            delta as int,
            0x10000,
        );
        vstd::arithmetic::div_mod::lemma_small_mod((((offset + size) % 0x10000) as nat), 0x10000);
        vstd::arithmetic::div_mod::lemma_small_mod(delta as nat, 0x10000);
    }
    t
}

} // verus!
