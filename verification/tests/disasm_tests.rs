//! Disassembler tests: single records, cursors, whole-buffer runs, and the
//! rendered text.

use jadeite::disasm::{disasm, disasm_all, disasm_one};
use jadeite::optable::{op_for, AddrMode, Mnemonic};

fn hex_to_bin(s: &str) -> Vec<u8> {
    s.split_ascii_whitespace()
        .map(|x| u8::from_str_radix(x, 16).unwrap())
        .collect()
}

#[test]
fn disasm_disasm_one_ok() {
    let prog = hex_to_bin("a9 01 8d 00 02 a9 05 8d 01 02 a9 08 8d 02 02");
    let instr = disasm_one(&prog, 0);
    let s = instr.unwrap().text();

    assert_eq!(s, "0000: LDA #$01");
}

#[test]
fn disasm_disasm_ok() {
    let prog = hex_to_bin("a9 01 8d 00 02 a9 05 8d 01 02 a9 08 8d 02 02");
    let mut iter = disasm(&prog, 0);

    assert_eq!(iter.next().map(|i| i.text()), Some("0000: LDA #$01".to_owned()));
    assert_eq!(iter.next().map(|i| i.text()), Some("0002: STA $0200".to_owned()));
    assert_eq!(iter.next().map(|i| i.text()), Some("0005: LDA #$05".to_owned()));
    assert_eq!(iter.next().map(|i| i.text()), Some("0007: STA $0201".to_owned()));
    assert_eq!(iter.next().map(|i| i.text()), Some("000A: LDA #$08".to_owned()));
    assert_eq!(iter.next().map(|i| i.text()), Some("000C: STA $0202".to_owned()));
    assert_eq!(iter.next().map(|i| i.text()), None);
}

#[test]
fn disasm_disasm_all_ok() {
    let prog = hex_to_bin("a9 01 8d 00 02 a9 05 8d 01 02 a9 08 8d 02 02");
    let instr = disasm_all(&prog, 0);
    let lines: Vec<_> = instr.iter().map(|ln| ln.text()).collect();

    assert_eq!(lines[0], "0000: LDA #$01");
    assert_eq!(lines[1], "0002: STA $0200");
    assert_eq!(lines[2], "0005: LDA #$05");
    assert_eq!(lines[3], "0007: STA $0201");
    assert_eq!(lines[4], "000A: LDA #$08");
    assert_eq!(lines[5], "000C: STA $0202");
}

#[test]
fn lib_disasm_one_ok() {
    let prog = hex_to_bin("a9 01 8d 00 02 a9 05 8d 01 02 a9 08 8d 02 02");
    let instr = disasm_one(&prog, 0);
    let s = instr.unwrap().text_lowercase();

    assert_eq!(s, "0000: LDA #$01");
}

#[test]
fn lib_disasm_ok() {
    let prog = hex_to_bin("a9 01 8d 00 02 a9 05 8d 01 02 a9 08 8d 02 02");
    let mut iter = disasm(&prog, 0);

    assert_eq!(iter.next().map(|i| i.text_lowercase()), Some("0000: LDA #$01".to_owned()));
    assert_eq!(iter.next().map(|i| i.text_lowercase()), Some("0002: STA $0200".to_owned()));
    assert_eq!(iter.next().map(|i| i.text_lowercase()), Some("0005: LDA #$05".to_owned()));
    assert_eq!(iter.next().map(|i| i.text_lowercase()), Some("0007: STA $0201".to_owned()));
    assert_eq!(iter.next().map(|i| i.text_lowercase()), Some("000a: LDA #$08".to_owned()));
    assert_eq!(iter.next().map(|i| i.text_lowercase()), Some("000c: STA $0202".to_owned()));
    assert_eq!(iter.next().map(|i| i.text_lowercase()), None);
}

#[test]
fn lib_disasm_all_ok() {
    let prog = hex_to_bin("a9 01 8d 00 02 a9 05 8d 01 02 a9 08 8d 02 02");
    let instr = disasm_all(&prog, 0);
    let lines: Vec<_> = instr.iter().map(|ln| ln.text_lowercase()).collect();

    assert_eq!(lines[0], "0000: LDA #$01");
    assert_eq!(lines[1], "0002: STA $0200");
    assert_eq!(lines[2], "0005: LDA #$05");
    assert_eq!(lines[3], "0007: STA $0201");
    assert_eq!(lines[4], "000a: LDA #$08");
    assert_eq!(lines[5], "000c: STA $0202");
}

#[test]
fn every_byte_decodes_with_its_table_length() {
    // A stream of any first byte followed by zeros decodes to one record
    // whose length is the table's length for that byte.
    for b in 0u16..=255 {
        let prog = vec![b as u8, 0, 0];
        let instr = disasm_one(&prog, 0).unwrap();
        let op = op_for(b as u8);
        assert_eq!(instr.op.size, op.size);
        assert!(instr.op.size >= 1 && instr.op.size <= 3);
        assert_eq!(instr.op.opcode, b as u8);
    }
}

#[test]
fn repeated_disassembly_advances_by_sizes() {
    let prog = hex_to_bin("a9 01 8d 00 02 ea 4c 00 c0 00");
    let records = disasm_all(&prog, 0);
    let mut expected_offset = 0u16;
    for r in &records {
        assert_eq!(r.offset, expected_offset);
        expected_offset += r.op.size as u16;
    }
    assert_eq!(expected_offset as usize, prog.len());
}

#[test]
fn cursor_reports_bytes_read() {
    let prog = hex_to_bin("a9 01 8d 00 02");
    let mut iter = disasm(&prog, 0);
    assert_eq!(iter.bytes_read(), 0);
    iter.next().unwrap();
    assert_eq!(iter.bytes_read(), 2);
    iter.next().unwrap();
    assert_eq!(iter.bytes_read(), 5);
}

#[test]
fn relative_branch_renders_absolute_target() {
    // BNE with offset -2 from 0x0010: target = 0x10 + 2 - 2 = 0x0010.
    let prog = vec![0xd0, 0xfe];
    let instr = disasm_one(&prog, 0x0).unwrap();
    assert_eq!(instr.text(), "0000: BNE $0000");
    // BEQ with offset +4 from 0: target = 0 + 2 + 4 = 6.
    let prog2 = vec![0xf0, 0x04];
    let instr2 = disasm_one(&prog2, 0).unwrap();
    assert_eq!(instr2.text(), "0000: BEQ $0006");
}

#[test]
fn table_entries_match_the_documented_rows() {
    let lda_imm = op_for(0xa9);
    assert_eq!(lda_imm.mnemonic, Mnemonic::LDA);
    assert_eq!(lda_imm.addr_mode, AddrMode::Imm);
    assert_eq!(lda_imm.size, 2);
    assert_eq!(lda_imm.cycles, 2);
    let jmp_ind = op_for(0x6c);
    assert_eq!(jmp_ind.mnemonic, Mnemonic::JMP);
    assert_eq!(jmp_ind.addr_mode, AddrMode::Indirect);
    assert_eq!(jmp_ind.size, 3);
    assert_eq!(jmp_ind.cycles, 5);
    let illegal = op_for(0x02);
    assert_eq!(illegal.mnemonic, Mnemonic::XXX);
}

#[test]
fn opcode_table_has_full_rows() {
    let table = jadeite::optable::create_opcode_table();
    assert_eq!(table.len(), 256);
    assert_eq!(table[0xa9].mnemonic, Mnemonic::LDA);
    assert!(table[0xa9].legal);
    assert!(!table[0x02].legal);
    // Write-style opcodes never pay the page-cross penalty.
    assert_eq!(table[0x1e].cycle_penalty(), 0); // ASL abs,X
    assert_eq!(table[0x9d].cycle_penalty(), 0); // STA abs,X
    assert_eq!(table[0xbd].cycle_penalty(), 1); // LDA abs,X
    assert_eq!(table[0xd0].cycle_penalty(), 1); // BNE rel
}
