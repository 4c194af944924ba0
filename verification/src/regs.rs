//! CPU register file and the status register's bit packing.

use vstd::prelude::*;

verus! {

/// The processor status register, one field per flag bit.
#[derive(Clone, Copy, Debug, PartialEq, Eq, Structural)]
pub struct RegStatus {
    /// `C`, bit 0: carry.
    pub carry: bool,
    /// `Z`, bit 1: zero.
    pub zero: bool,
    /// `I`, bit 2: interrupt disable.
    pub interrupt: bool,
    /// `D`, bit 3: decimal mode (decoded but unused on this machine).
    pub decimal: bool,
    /// `B`, bit 4: break.
    pub brk: bool,
    /// Bit 5: unused; reads as 1 when the register is pushed.
    pub unused: bool,
    /// `V`, bit 6: overflow.
    pub overflow: bool,
    /// `N`, bit 7: negative.
    pub negative: bool,
}

/// The byte encoding of the status register: C, Z, I, D, B, unused, V, N in
/// bits 0 through 7.
pub open spec fn status_to_byte(p: RegStatus) -> u8 {
    (if p.carry { 0x01u8 } else { 0u8 }) | (if p.zero { 0x02u8 } else { 0u8 })
        | (if p.interrupt { 0x04u8 } else { 0u8 }) | (if p.decimal { 0x08u8 } else { 0u8 })
        | (if p.brk { 0x10u8 } else { 0u8 }) | (if p.unused { 0x20u8 } else { 0u8 })
        | (if p.overflow { 0x40u8 } else { 0u8 }) | (if p.negative { 0x80u8 } else { 0u8 })
}

/// The status register that a byte decodes to, one flag per bit.
pub open spec fn status_from_byte(b: u8) -> RegStatus {
    RegStatus {
        carry: b & 0x01 != 0,
        zero: b & 0x02 != 0,
        interrupt: b & 0x04 != 0,
        decimal: b & 0x08 != 0,
        brk: b & 0x10 != 0,
        unused: b & 0x20 != 0,
        overflow: b & 0x40 != 0,
        negative: b & 0x80 != 0,
    }
}

impl RegStatus {
    /// Pack the flags into their byte encoding.
    pub fn to_byte(&self) -> (r: u8)
        ensures
            r == status_to_byte(*self),
    {
        (if self.carry { 0x01u8 } else { 0u8 }) | (if self.zero { 0x02u8 } else { 0u8 })
            | (if self.interrupt { 0x04u8 } else { 0u8 })
            | (if self.decimal { 0x08u8 } else { 0u8 }) | (if self.brk { 0x10u8 } else { 0u8 })
            | (if self.unused { 0x20u8 } else { 0u8 })
            | (if self.overflow { 0x40u8 } else { 0u8 })
            | (if self.negative { 0x80u8 } else { 0u8 })
    }

    /// Unpack a byte into flags.
    pub fn from_byte(b: u8) -> (r: RegStatus)
        ensures
            r == status_from_byte(b),
    {
        RegStatus {
            carry: b & 0x01 != 0,
            zero: b & 0x02 != 0,
            interrupt: b & 0x04 != 0,
            decimal: b & 0x08 != 0,
            brk: b & 0x10 != 0,
            unused: b & 0x20 != 0,
            overflow: b & 0x40 != 0,
            negative: b & 0x80 != 0,
        }
    }

    /// All flags clear.
    pub fn zeroed() -> (r: RegStatus)
        ensures
            r == status_from_byte(0),
    {
        proof {
            assert(0u8 & 0x01 == 0 && 0u8 & 0x02 == 0 && 0u8 & 0x04 == 0 && 0u8 & 0x08 == 0
                && 0u8 & 0x10 == 0 && 0u8 & 0x20 == 0 && 0u8 & 0x40 == 0 && 0u8 & 0x80 == 0)
                by (bit_vector);
        }
        RegStatus {
            carry: false,
            zero: false,
            interrupt: false,
            decimal: false,
            brk: false,
            unused: false,
            overflow: false,
            negative: false,
        }
    }
}

/// Unpacking the packed flags gives the flags back: the byte encoding loses
/// nothing.
pub proof fn lemma_flags_roundtrip(f: RegStatus)
    ensures
        status_from_byte(status_to_byte(f)) == f,
{
    let b = status_to_byte(f);
    let c: u8 = if f.carry { 0x01 } else { 0 };
    let z: u8 = if f.zero { 0x02 } else { 0 };
    let i: u8 = if f.interrupt { 0x04 } else { 0 };
    let d: u8 = if f.decimal { 0x08 } else { 0 };
    let k: u8 = if f.brk { 0x10 } else { 0 };
    let u: u8 = if f.unused { 0x20 } else { 0 };
    let v: u8 = if f.overflow { 0x40 } else { 0 };
    let n: u8 = if f.negative { 0x80 } else { 0 };
    assert((c | z | i | d | k | u | v | n) & 0x01 == c && (c | z | i | d | k | u | v | n) & 0x02
        == z && (c | z | i | d | k | u | v | n) & 0x04 == i && (c | z | i | d | k | u | v | n)
        & 0x08 == d && (c | z | i | d | k | u | v | n) & 0x10 == k && (c | z | i | d | k | u | v
        | n) & 0x20 == u && (c | z | i | d | k | u | v | n) & 0x40 == v && (c | z | i | d | k | u
        | v | n) & 0x80 == n) by (bit_vector)
        requires
            (c == 0x01 || c == 0) && (z == 0x02 || z == 0) && (i == 0x04 || i == 0) && (d == 0x08
                || d == 0) && (k == 0x10 || k == 0) && (u == 0x20 || u == 0) && (v == 0x40 || v
                == 0) && (n == 0x80 || n == 0),
    ;
}

/// Packing the unpacked byte gives the byte back: every bit of the encoding
/// carries a flag.
pub proof fn lemma_byte_roundtrip(b: u8)
    ensures
        status_to_byte(status_from_byte(b)) == b,
{
    assert((if b & 0x01 != 0 { 0x01u8 } else { 0u8 }) | (if b & 0x02 != 0 { 0x02u8 } else { 0u8 })
        | (if b & 0x04 != 0 { 0x04u8 } else { 0u8 }) | (if b & 0x08 != 0 { 0x08u8 } else { 0u8 })
        | (if b & 0x10 != 0 { 0x10u8 } else { 0u8 }) | (if b & 0x20 != 0 { 0x20u8 } else { 0u8 })
        | (if b & 0x40 != 0 { 0x40u8 } else { 0u8 }) | (if b & 0x80 != 0 { 0x80u8 } else { 0u8 })
        == b) by (bit_vector);
}


/// The status byte after a pull of the status register: the pulled byte
/// with bits 4 and 5 replaced by the current break and unused bits. Packing
/// the flags the pull produces gives exactly that byte back.
pub proof fn lemma_plp_packing(cur: RegStatus, b: u8)
    ensures
        status_to_byte(
            status_from_byte((b & 0xCF) | (status_to_byte(cur) & 0x30)),
        ) == (b & !0x30u8) | (status_to_byte(cur) & 0x30),
{
    lemma_byte_roundtrip((b & 0xCF) | (status_to_byte(cur) & 0x30));
    assert(b & 0xCF == b & !0x30u8) by (bit_vector);
}

/// The register file of the CPU.
#[allow(non_snake_case)]
#[derive(Clone, Copy, Debug, PartialEq, Eq, Structural)]
pub struct Reg {
    /// Accumulator.
    pub A: u8,
    /// Index register Y.
    pub Y: u8,
    /// Index register X.
    pub X: u8,
    /// Program counter.
    pub PC: u16,
    /// Stack pointer: the low byte of an address in page 1.
    pub S: u8,
    /// Status register.
    pub P: RegStatus,
}

impl Reg {
    /// All registers zero, all flags clear.
    pub fn zeroed() -> (r: Reg)
        ensures
            r.A == 0 && r.X == 0 && r.Y == 0 && r.PC == 0 && r.S == 0,
            r.P == status_from_byte(0),
    {
        Reg { A: 0, Y: 0, X: 0, PC: 0, S: 0, P: RegStatus::zeroed() }
    }
}

} // verus!
