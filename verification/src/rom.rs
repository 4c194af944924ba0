//! A standalone view of an iNES container: header fields and the raw
//! memory images, with no mapper attached.

use vstd::prelude::*;

verus! {

/// Nametable mirroring arrangement named by a container header.
#[derive(Clone, Copy, Debug, PartialEq, Eq, Structural)]
pub enum Mirroring {
    /// Vertically adjacent nametables are the same.
    Vertical,
    /// Horizontally adjacent nametables are the same.
    Horizontal,
}

/// Television system named by a container header.
#[derive(Clone, Copy, Debug, PartialEq, Eq, Structural)]
pub enum TVSystem {
    /// 60 Hz NTSC timing.
    NTSC,
    /// 50 Hz PAL timing.
    PAL,
}

/// An iNES container, parsed but not wired to any mapper.
pub struct Rom {
    /// Number of 16 KiB program ROM pages.
    pub prg_rom_page_count: u8,
    /// Number of 8 KiB character ROM pages.
    pub chr_rom_page_count: u8,
    /// Nametable mirroring arrangement.
    pub mirroring: Mirroring,
    /// Whether battery-backed save RAM is present.
    pub sram_enable: bool,
    /// Whether a 512-byte trainer precedes the program ROM.
    pub trainer_present: bool,
    /// Whether the cartridge provides four-screen video RAM.
    pub four_screen_vram_layout: bool,
    /// Mapper number from the two header nibbles.
    pub mapper: u8,
    /// Whether this is a VS System cartridge.
    pub is_vs_system: bool,
    /// Number of 8 KiB RAM banks.
    pub ram_banks: u8,
    /// Television system.
    pub tv_system: TVSystem,
    /// The trainer bytes, when present.
    pub trainer: Option<Vec<u8>>,
    /// Program ROM bytes.
    pub prg_rom: Vec<u8>,
    /// Character ROM bytes.
    pub chr_rom: Vec<u8>,
    /// Whatever follows the character ROM in the container.
    pub extra_bytes: Vec<u8>,
}

/// Whether a byte sequence is long enough for its own header, trainer and
/// ROM images.
pub open spec fn rom_loadable(s: Seq<u8>) -> bool {
    &&& s.len() >= 16
    &&& s.len() >= 16 + (if s[6] & 0x04 != 0 {
        512int
    } else {
        0int
    }) + 16384 * s[4] + 8192 * s[5]
}

impl Rom {
    /// Parse an iNES container, any mapper accepted. `Err` when the
    /// container is shorter than its header promises.
    pub fn read_from(src: &Vec<u8>) -> (r: Result<Rom, ()>)
        ensures
            r is Ok <==> rom_loadable(src@),
            r matches Ok(rom) ==> {
                &&& rom.prg_rom_page_count == src@[4]
                &&& rom.chr_rom_page_count == src@[5]
                &&& rom.mirroring == (if src@[6] & 0x01 == 0 {
                    Mirroring::Horizontal
                } else {
                    Mirroring::Vertical
                })
                &&& rom.sram_enable == (src@[6] & 0x02 != 0)
                &&& rom.trainer_present == (src@[6] & 0x04 != 0)
                &&& rom.four_screen_vram_layout == (src@[6] & 0x08 != 0)
                &&& rom.mapper == (src@[7] & 0xF0) | (src@[6] >> 4)
                &&& rom.is_vs_system == (src@[7] & 0x01 != 0)
                &&& rom.ram_banks == src@[8]
                &&& rom.tv_system == (if src@[9] & 0x01 == 0 {
                    TVSystem::NTSC
                } else {
                    TVSystem::PAL
                })
                &&& rom.prg_rom@.len() == 16384 * src@[4]
                &&& rom.chr_rom@.len() == 8192 * src@[5]
                &&& (rom.trainer is Some <==> src@[6] & 0x04 != 0)
                &&& ({
                    let body = 16 + (if src@[6] & 0x04 != 0 {
                        512int
                    } else {
                        0int
                    });
                    let prg_len = 16384 * src@[4];
                    let chr_len = 8192 * src@[5];
                    &&& rom.prg_rom@ == src@.subrange(body, body + prg_len)
                    &&& rom.chr_rom@ == src@.subrange(body + prg_len, body + prg_len + chr_len)
                    &&& rom.extra_bytes@ == src@.subrange(
                        body + prg_len + chr_len,
                        src@.len() as int,
                    )
                    &&& (src@[6] & 0x04 != 0 ==> rom.trainer->Some_0@ == src@.subrange(
                        16int,
                        16 + 512int,
                    ))
                })
            },
    {
        if src.len() < 16 {
            return Err(());
        }
        let prg_rom_page_count = src[4];
        let chr_rom_page_count = src[5];
        let flags6 = src[6];
        let flags7 = src[7];
        let mirroring = if flags6 & 0x01 == 0 {
            Mirroring::Horizontal
        } else {
            Mirroring::Vertical
        };
        let sram_enable = flags6 & 0x02 != 0;
        let trainer_present = flags6 & 0x04 != 0;
        let four_screen_vram_layout = flags6 & 0x08 != 0;
        let mapper = (flags7 & 0xF0) | (flags6 >> 4);
        let is_vs_system = flags7 & 0x01 != 0;
        let ram_banks = src[8];
        let tv_system = if src[9] & 0x01 == 0 {
            TVSystem::NTSC
        } else {
            TVSystem::PAL
        };
        let trainer_len: usize = if trainer_present {
            512
        } else {
            0
        };
        let prg_len: usize = 16384 * (prg_rom_page_count as usize);
        let chr_len: usize = 8192 * (chr_rom_page_count as usize);
        let body_start: usize = 16 + trainer_len;
        if src.len() < body_start {
            return Err(());
        }
        if src.len() - body_start < prg_len {
            return Err(());
        }
        if src.len() - body_start - prg_len < chr_len {
            return Err(());
        }
        let trainer: Option<Vec<u8>> = if trainer_present {
            Some(crate::cart::copy_range(src, 16, 512))
        } else {
            None
        };
        let prg_rom = crate::cart::copy_range(src, body_start, prg_len);
        let chr_rom = crate::cart::copy_range(src, body_start + prg_len, chr_len);
        let extra_start = body_start + prg_len + chr_len;
        let extra_bytes = crate::cart::copy_range(src, extra_start, src.len() - extra_start);
        Ok(
            Rom {
                prg_rom_page_count,
                chr_rom_page_count,
                mirroring,
                sram_enable,
                trainer_present,
                four_screen_vram_layout,
                mapper,
                is_vs_system,
                ram_banks,
                tv_system,
                trainer,
                prg_rom,
                chr_rom,
                extra_bytes,
            },
        )
    }
}

} // verus!
