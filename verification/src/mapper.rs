//! Cartridge mappers: the address translators between the console's buses
//! and the cartridge memories. Mapper 0 (NROM) is the one this library
//! supports.

use vstd::prelude::*;

use crate::cart::{cart_wf, CartData, CartView};

verus! {

/// The address mask a cartridge's program ROM is read through: one 16 KiB
/// page repeats, two pages fill the space.
pub open spec fn prg_mask(c: CartView) -> u16 {
    if c.prg_rom_page_count == 2 {
        0x7FFFu16
    } else {
        0x3FFFu16
    }
}

/// The program ROM byte a CPU read in `$8000..=$FFFF` returns.
pub open spec fn spec_prg_read(c: CartView, addr: u16) -> u8 {
    c.prg_rom[(addr & prg_mask(c)) as int]
}

/// The pattern-table byte a PPU read in `$0000..=$1FFF` returns: character
/// ROM when the cartridge has any, character RAM otherwise.
pub open spec fn spec_chr_read(c: CartView, addr: u16) -> u8 {
    if c.chr_rom_page_count > 0 {
        c.chr_rom[addr as int]
    } else {
        c.chr_ram[addr as int]
    }
}

/// The cartridge after a PPU write in `$0000..=$1FFF`: character RAM takes
/// the byte when the cartridge has no character ROM; otherwise nothing
/// changes.
pub open spec fn spec_chr_write(c: CartView, addr: u16, value: u8) -> CartView {
    if c.chr_rom_page_count == 0 {
        CartView { chr_ram: c.chr_ram.update((addr & 0x1FFF) as int, value), ..c }
    } else {
        c
    }
}

/// The capability set of a cartridge mapper: translate CPU and PPU accesses
/// into the cartridge memories. Every method asks for a well-formed
/// cartridge and addresses in its own window.
pub trait Mapper: Sized {
    /// The mapper's number in the iNES header.
    fn id(&self) -> u16;

    /// The mapper's conventional name.
    fn name(&self) -> String;

    /// Translate a CPU read in `$8000..=$FFFF`.
    fn cpu_read(&self, cart: &CartData, addr: u16) -> (r: u8)
        requires
            cart_wf(cart@),
            0x8000 <= addr,
        ensures
            r == spec_prg_read(cart@, addr),
    ;

    /// Translate a CPU write in `$8000..=$FFFF`.
    fn cpu_write(&self, cart: &mut CartData, addr: u16, value: u8)
        requires
            cart_wf(old(cart)@),
            0x8000 <= addr,
        ensures
            final(cart)@ == old(cart)@,
    ;

    /// Translate a PPU read in `$0000..=$1FFF`.
    fn ppu_read(&self, cart: &CartData, addr: u16) -> (r: u8)
        requires
            cart_wf(cart@),
            addr < 0x2000,
        ensures
            r == spec_chr_read(cart@, addr),
    ;

    /// Translate a PPU write in `$0000..=$1FFF`.
    fn ppu_write(&self, cart: &mut CartData, addr: u16, value: u8)
        requires
            cart_wf(old(cart)@),
            addr < 0x2000,
        ensures
            final(cart)@ == spec_chr_write(old(cart)@, addr, value),
            cart_wf(final(cart)@),
    ;
}

/// Mapper 0, NROM: program ROM mirrored through a page mask, character
/// memory addressed directly.
#[derive(Clone, Copy, Debug, PartialEq, Eq, Structural)]
pub struct Mapper000 {}

impl Mapper000 {
    /// The NROM mapper.
    pub fn new() -> (r: Self)
        ensures
            r == (Mapper000 {  }),
    {
        Mapper000 {  }
    }
}

impl Mapper for Mapper000 {
    fn id(&self) -> u16 {
        0
    }

    fn name(&self) -> String {
        String::from_str("NROM")
    }

    fn cpu_read(&self, cart: &CartData, addr: u16) -> (r: u8) {
        let mask: u16 = if cart.prg_rom_page_count == 2 {
            0x7FFF
        } else {
            0x3FFF
        };
        proof {
            assert(addr & 0x7FFFu16 < 0x8000 && addr & 0x3FFFu16 < 0x4000) by (bit_vector);
        }
        cart.prg_rom[(addr & mask) as usize]
    }

    fn cpu_write(&self, cart: &mut CartData, addr: u16, value: u8) {
    }

    fn ppu_read(&self, cart: &CartData, addr: u16) -> (r: u8) {
        if cart.chr_rom_page_count > 0 {
            cart.chr_rom[addr as usize]
        } else {
            cart.chr_ram[addr as usize]
        }
    }

    fn ppu_write(&self, cart: &mut CartData, addr: u16, value: u8) {
        if cart.chr_rom_page_count == 0 {
            proof {
                assert(addr & 0x1FFFu16 < 0x2000) by (bit_vector);
            }
            let i = (addr & 0x1FFF) as usize;
            cart.chr_ram.set(i, value);
            proof {
                assert(cart@ =~= spec_chr_write(old(cart)@, addr, value));
            }
        } else {
            proof {
                assert(cart@ =~= spec_chr_write(old(cart)@, addr, value));
            }
        }
    }
}

} // verus!
