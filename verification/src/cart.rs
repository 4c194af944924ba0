//! The cartridge: header fields and memory images parsed from an iNES byte
//! stream, and the routing of CPU and PPU accesses through the mapper.

use vstd::prelude::*;

use crate::mapper::{Mapper, Mapper000};

verus! {

/// Nametable mirroring arrangement selected by the cartridge.
#[derive(Clone, Copy, Debug, PartialEq, Eq, Structural)]
pub enum Mirroring {
    /// Vertically adjacent nametables are the same.
    Vertical,
    /// Horizontally adjacent nametables are the same.
    Horizontal,
}

/// Television system the cartridge targets.
#[derive(Clone, Copy, Debug, PartialEq, Eq, Structural)]
pub enum TVSystem {
    /// 60 Hz NTSC timing.
    NTSC,
    /// 50 Hz PAL timing.
    PAL,
}

/// Header fields and memory images of a loaded cartridge.
pub struct CartData {
    /// Number of 16 KiB program ROM pages.
    pub prg_rom_page_count: u8,
    /// Number of 8 KiB character ROM pages; 0 means character RAM instead.
    pub chr_rom_page_count: u8,
    /// Nametable mirroring arrangement.
    pub mirroring: Mirroring,
    /// Whether battery-backed save RAM is present.
    pub sram_enable: bool,
    /// Whether a 512-byte trainer precedes the program ROM.
    pub trainer_present: bool,
    /// Whether the cartridge provides four-screen video RAM.
    pub four_screen_vram_layout: bool,
    /// Mapper number from the two header nibbles.
    pub mapper_id: u16,
    /// Whether this is a VS System cartridge.
    pub is_vs_system: bool,
    /// Number of 8 KiB RAM banks; 0 is read as one bank.
    pub ram_banks: u8,
    /// Television system.
    pub tv_system: TVSystem,
    /// The trainer bytes, when present.
    pub trainer: Option<Vec<u8>>,
    /// Program ROM, `prg_rom_page_count` times 16 KiB.
    pub prg_rom: Vec<u8>,
    /// Character ROM, `chr_rom_page_count` times 8 KiB.
    pub chr_rom: Vec<u8>,
    /// Whatever follows the character ROM in the container.
    pub extra_bytes: Vec<u8>,
    /// Character RAM, 8 KiB when no character ROM is present.
    pub chr_ram: Vec<u8>,
}

/// The specification-level image of a cartridge's data.
#[verifier::ext_equal]
pub struct CartView {
    /// Number of 16 KiB program ROM pages.
    pub prg_rom_page_count: u8,
    /// Number of 8 KiB character ROM pages.
    pub chr_rom_page_count: u8,
    /// Nametable mirroring arrangement.
    pub mirroring: Mirroring,
    /// Whether battery-backed save RAM is present.
    pub sram_enable: bool,
    /// Whether a trainer is present.
    pub trainer_present: bool,
    /// Whether four-screen video RAM is provided.
    pub four_screen_vram_layout: bool,
    /// Mapper number.
    pub mapper_id: u16,
    /// Whether this is a VS System cartridge.
    pub is_vs_system: bool,
    /// Number of RAM banks.
    pub ram_banks: u8,
    /// Television system.
    pub tv_system: TVSystem,
    /// The trainer bytes, when present.
    pub trainer: Option<Seq<u8>>,
    /// Program ROM bytes.
    pub prg_rom: Seq<u8>,
    /// Character ROM bytes.
    pub chr_rom: Seq<u8>,
    /// Trailing container bytes.
    pub extra_bytes: Seq<u8>,
    /// Character RAM bytes.
    pub chr_ram: Seq<u8>,
}

impl View for CartData {
    type V = CartView;

    open spec fn view(&self) -> CartView {
        CartView {
            prg_rom_page_count: self.prg_rom_page_count,
            chr_rom_page_count: self.chr_rom_page_count,
            mirroring: self.mirroring,
            sram_enable: self.sram_enable,
            trainer_present: self.trainer_present,
            four_screen_vram_layout: self.four_screen_vram_layout,
            mapper_id: self.mapper_id,
            is_vs_system: self.is_vs_system,
            ram_banks: self.ram_banks,
            tv_system: self.tv_system,
            trainer: match self.trainer {
                Some(t) => Some(t@),
                None => None,
            },
            prg_rom: self.prg_rom@,
            chr_rom: self.chr_rom@,
            extra_bytes: self.extra_bytes@,
            chr_ram: self.chr_ram@,
        }
    }
}

/// The invariant of a loadable cartridge: page counts the only supported
/// mapper can address, and memory images sized to their page counts.
pub open spec fn cart_wf(c: CartView) -> bool {
    &&& (c.prg_rom_page_count == 1 || c.prg_rom_page_count == 2)
    &&& c.prg_rom.len() == 16384 * c.prg_rom_page_count
    &&& c.chr_rom.len() == 8192 * c.chr_rom_page_count
    &&& c.chr_ram.len() == (if c.chr_rom_page_count == 0 {
        8192int
    } else {
        0int
    })
    &&& c.mapper_id == 0
}

/// A cartridge: its data and the mapper that translates addresses for it.
pub struct Cart {
    /// Header fields and memory images.
    pub data: CartData,
    /// The address translator; mapper 0 is the only supported one.
    pub mapper: Mapper000,
}

impl View for Cart {
    type V = CartView;

    open spec fn view(&self) -> CartView {
        self.data@
    }
}

impl Cart {
    /// Whether this cartridge satisfies the loadable invariant.
    pub open spec fn wf(&self) -> bool {
        cart_wf(self@)
    }

    /// Parse a cartridge from the bytes of an iNES container: a 16-byte
    /// header, an optional 512-byte trainer, program ROM, character ROM, and
    /// trailing bytes. `Err` when the container is truncated, when a header
    /// field names an unsupported mapper, or when the program ROM page count
    /// is not 1 or 2.
    pub fn read_from(src: &Vec<u8>) -> (r: Result<Cart, ()>)
        ensures
            r is Ok <==> ines_loadable(src@),
            r matches Ok(c) ==> c.wf() && c@ == spec_parse_ines(src@),
    {
        if src.len() < 16 {
            return Err(());
        }
        let prg_rom_page_count = src[4];
        let chr_rom_page_count = src[5];
        let flags6 = src[6];
        let flags7 = src[7];
        let mirroring = if flags6 & 0x01 == 0 {
            Mirroring::Horizontal
        } else {
            Mirroring::Vertical
        };
        let sram_enable = flags6 & 0x02 != 0;
        let trainer_present = flags6 & 0x04 != 0;
        let four_screen_vram_layout = flags6 & 0x08 != 0;
        let mapper_id: u16 = ((flags7 & 0xF0) as u16) | ((flags6 >> 4) as u16);
        let is_vs_system = flags7 & 0x01 != 0;
        let ram_banks = src[8];
        let tv_system = if src[9] & 0x01 == 0 {
            TVSystem::NTSC
        } else {
            TVSystem::PAL
        };
        if mapper_id != 0 {
            return Err(());
        }
        if !(prg_rom_page_count == 1 || prg_rom_page_count == 2) {
            return Err(());
        }
        let trainer_len: usize = if trainer_present {
            512
        } else {
            0
        };
        let prg_len: usize = 16384 * (prg_rom_page_count as usize);
        let chr_len: usize = 8192 * (chr_rom_page_count as usize);
        let body_start: usize = 16 + trainer_len;
        if src.len() < body_start {
            return Err(());
        }
        if src.len() - body_start < prg_len {
            return Err(());
        }
        if src.len() - body_start - prg_len < chr_len {
            return Err(());
        }
        let trainer: Option<Vec<u8>> = if trainer_present {
            Some(copy_range(src, 16, 512))
        } else {
            None
        };
        let prg_rom = copy_range(src, body_start, prg_len);
        let chr_rom = copy_range(src, body_start + prg_len, chr_len);
        let extra_start = body_start + prg_len + chr_len;
        let extra_bytes = copy_range(src, extra_start, src.len() - extra_start);
        let chr_ram_len: usize = if chr_rom_page_count == 0 {
            8192
        } else {
            0
        };
        let chr_ram = vec_zeroes(chr_ram_len);
        let c = Cart {
            data: CartData {
                prg_rom_page_count,
                chr_rom_page_count,
                mirroring,
                sram_enable,
                trainer_present,
                four_screen_vram_layout,
                mapper_id,
                is_vs_system,
                ram_banks,
                tv_system,
                trainer,
                prg_rom,
                chr_rom,
                extra_bytes,
                chr_ram,
            },
            mapper: Mapper000::new(),
        };
        proof {
            assert(c@ =~= spec_parse_ines(src@)) by {
                assert(c@.trainer == spec_parse_ines(src@).trainer);
                assert(c@.prg_rom =~= spec_parse_ines(src@).prg_rom);
                assert(c@.chr_rom =~= spec_parse_ines(src@).chr_rom);
                assert(c@.extra_bytes =~= spec_parse_ines(src@).extra_bytes);
                assert(c@.chr_ram =~= spec_parse_ines(src@).chr_ram);
            }
        }
        Ok(c)
    }

    /// A CPU read in the cartridge space, routed through the mapper.
    pub fn cpu_read(&self, addr: u16) -> (r: u8)
        requires
            self.wf(),
            0x8000 <= addr,
        ensures
            r == crate::mapper::spec_prg_read(self@, addr),
    {
        self.mapper.cpu_read(&self.data, addr)
    }

    /// A CPU write in the cartridge space; the mapper ignores it.
    pub fn cpu_write(&mut self, addr: u16, value: u8)
        requires
            old(self).wf(),
            0x8000 <= addr,
        ensures
            final(self)@ == old(self)@,
            final(self).wf(),
    {
        let m = self.mapper;
        m.cpu_write(&mut self.data, addr, value);
    }

    /// A PPU read in the pattern-table space, routed through the mapper.
    pub fn ppu_read(&self, addr: u16) -> (r: u8)
        requires
            self.wf(),
            addr < 0x2000,
        ensures
            r == crate::mapper::spec_chr_read(self@, addr),
    {
        self.mapper.ppu_read(&self.data, addr)
    }

    /// A PPU write in the pattern-table space: lands in character RAM when
    /// the cartridge has no character ROM, and is ignored otherwise.
    pub fn ppu_write(&mut self, addr: u16, value: u8)
        requires
            old(self).wf(),
            addr < 0x2000,
        ensures
            final(self)@ == crate::mapper::spec_chr_write(old(self)@, addr, value),
            final(self).wf(),
    {
        let m = self.mapper;
        m.ppu_write(&mut self.data, addr, value);
    }
}

/// Whether a byte sequence is a loadable iNES container: long enough for its
/// header, trainer and ROM images, naming mapper 0 and 1 or 2 program pages.
pub open spec fn ines_loadable(s: Seq<u8>) -> bool {
    &&& s.len() >= 16
    &&& ((s[7] & 0xF0) as u16 | (s[6] >> 4) as u16) == 0
    &&& (s[4] == 1 || s[4] == 2)
    &&& s.len() >= 16 + (if s[6] & 0x04 != 0 {
        512int
    } else {
        0int
    }) + 16384 * s[4] + 8192 * s[5]
}

/// The cartridge image that parsing a loadable iNES container yields.
pub open spec fn spec_parse_ines(s: Seq<u8>) -> CartView {
    let trainer_len: int = if s[6] & 0x04 != 0 {
        512int
    } else {
        0int
    };
    let body = 16 + trainer_len;
    let prg_len = 16384 * s[4];
    let chr_len = 8192 * s[5];
    CartView {
        prg_rom_page_count: s[4],
        chr_rom_page_count: s[5],
        mirroring: if s[6] & 0x01 == 0 {
            Mirroring::Horizontal
        } else {
            Mirroring::Vertical
        },
        sram_enable: s[6] & 0x02 != 0,
        trainer_present: s[6] & 0x04 != 0,
        four_screen_vram_layout: s[6] & 0x08 != 0,
        mapper_id: (s[7] & 0xF0) as u16 | (s[6] >> 4) as u16,
        is_vs_system: s[7] & 0x01 != 0,
        ram_banks: s[8],
        tv_system: if s[9] & 0x01 == 0 {
            TVSystem::NTSC
        } else {
            TVSystem::PAL
        },
        trainer: if s[6] & 0x04 != 0 {
            Some(s.subrange(16int, 16 + 512int))
        } else {
            None
        },
        prg_rom: s.subrange(body, body + prg_len),
        chr_rom: s.subrange(body + prg_len, body + prg_len + chr_len),
        extra_bytes: s.subrange(body + prg_len + chr_len, s.len() as int),
        chr_ram: Seq::new(
            (if s[5] == 0 {
                8192nat
            } else {
                0nat
            }),
            |i: int| 0u8,
        ),
    }
}

/// Copy `len` bytes of `src` starting at `start` into a fresh vector.
pub(crate) fn copy_range(src: &Vec<u8>, start: usize, len: usize) -> (r: Vec<u8>)
    requires
        start + len <= src@.len(),
    ensures
        r@ == src@.subrange(start as int, start + len),
{
    let n = src.len();
    let mut out: Vec<u8> = Vec::new();
    let mut i: usize = 0;
    while i < len
        invariant
            i <= len,
            n == src@.len(),
            start + len <= n,
            out@ =~= src@.subrange(start as int, start + i),
        decreases len - i,
    {
        out.push(src[start + i]);
        proof {
            assert(out@ =~= src@.subrange(start as int, start + i + 1));
        }
        i += 1;
    }
    out
}

/// A vector of `len` zero bytes.
pub(crate) fn vec_zeroes(len: usize) -> (r: Vec<u8>)
    ensures
        r@ =~= Seq::new(len as nat, |i: int| 0u8),
{
    let mut out: Vec<u8> = Vec::new();
    let mut i: usize = 0;
    while i < len
        invariant
            i <= len,
            out@ =~= Seq::new(i as nat, |j: int| 0u8),
        decreases len - i,
    {
        out.push(0);
        proof {
            assert(out@ =~= Seq::new((i + 1) as nat, |j: int| 0u8));
        }
        i += 1;
    }
    out
}

} // verus!
