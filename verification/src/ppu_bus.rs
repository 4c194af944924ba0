//! The PPU-side address decoder: pattern tables through the cartridge
//! mapper, nametable video RAM with the cartridge's mirroring, and the
//! 32-entry palette RAM with its aliases.

use vstd::prelude::*;

use crate::cart::{Cart, CartView, Mirroring};
use crate::mapper::{spec_chr_read, spec_chr_write};

verus! {

/// The PPU-side memories: 2 KiB of nametable video RAM and the 32 palette
/// RAM entries.
pub struct PpuBus {
    /// Nametable video RAM.
    pub vram: Vec<u8>,
    /// Palette RAM.
    pub palette_ram: Vec<u8>,
}

/// The specification-level image of the PPU-side memories.
#[verifier::ext_equal]
pub struct PpuBusView {
    /// Nametable video RAM bytes.
    pub vram: Seq<u8>,
    /// Palette RAM bytes.
    pub palette_ram: Seq<u8>,
}

impl View for PpuBus {
    type V = PpuBusView;

    open spec fn view(&self) -> PpuBusView {
        PpuBusView { vram: self.vram@, palette_ram: self.palette_ram@ }
    }
}

/// The video RAM cell a nametable address falls on: the address is first
/// folded into the 4 KiB nametable window, then one nametable-select bit is
/// collapsed by the cartridge's mirroring.
pub open spec fn vram_index(m: Mirroring, addr: u16) -> u16 {
    let base = addr & 0x0FFF;
    match m {
        Mirroring::Horizontal => base & 0x07FF,
        Mirroring::Vertical => ((base & 0x0800) >> 1) | (base & 0x03FF),
    }
}

/// The palette RAM entry an address in `$3F00..=$3FFF` falls on: a 32-entry
/// window in which `$3F10`, `$3F14`, `$3F18` and `$3F1C` alias the entry 16
/// below.
pub open spec fn palette_index(addr: u16) -> u16 {
    let i = addr & 0x1F;
    if i == 0x10 || i == 0x14 || i == 0x18 || i == 0x1C {
        (i - 0x10) as u16
    } else {
        i
    }
}

/// The byte a PPU-space read returns.
pub open spec fn spec_ppu_bus_read(v: PpuBusView, c: CartView, addr: u16) -> u8 {
    if addr < 0x2000 {
        spec_chr_read(c, addr)
    } else if addr < 0x3F00 {
        v.vram[vram_index(c.mirroring, addr) as int]
    } else {
        v.palette_ram[palette_index(addr) as int]
    }
}

/// The PPU-side memories and the cartridge after a PPU-space write.
pub open spec fn spec_ppu_bus_write(v: PpuBusView, c: CartView, addr: u16, value: u8) -> (
    PpuBusView,
    CartView,
) {
    if addr < 0x2000 {
        (v, spec_chr_write(c, addr, value))
    } else if addr < 0x3F00 {
        (
            PpuBusView { vram: v.vram.update(vram_index(c.mirroring, addr) as int, value), ..v },
            c,
        )
    } else {
        (
            PpuBusView {
                palette_ram: v.palette_ram.update(palette_index(addr) as int, value),
                ..v
            },
            c,
        )
    }
}

/// Every nametable index lands inside the 2 KiB video RAM, and every palette
/// index inside the 32 entries.
pub proof fn lemma_ppu_index_bounds(m: Mirroring, addr: u16)
    ensures
        vram_index(m, addr) < 0x800,
        palette_index(addr) < 32,
{
    let base = addr & 0x0FFF;
    assert((addr & 0x0FFF) & 0x07FF < 0x800 && ((((addr & 0x0FFF) & 0x0800) >> 1) | ((addr
        & 0x0FFF) & 0x03FF)) < 0x800 && addr & 0x1F < 32) by (bit_vector);
}

impl PpuBus {
    /// Both memories present at their fixed sizes.
    pub open spec fn wf(&self) -> bool {
        self@.vram.len() == 0x800 && self@.palette_ram.len() == 32
    }

    /// Fresh PPU-side memories, zero-filled.
    pub fn new() -> (r: PpuBus)
        ensures
            r.wf(),
            forall|i: int| 0 <= i < 0x800 ==> r@.vram[i] == 0,
            forall|i: int| 0 <= i < 32 ==> r@.palette_ram[i] == 0,
    {
        let vram = crate::cart::vec_zeroes(0x800);
        let palette_ram = crate::cart::vec_zeroes(32);
        PpuBus { vram, palette_ram }
    }

    /// The video RAM cell index an address decodes to.
    pub fn vram_index_of(&self, m: Mirroring, addr: u16) -> (r: u16)
        ensures
            r == vram_index(m, addr),
            r < 0x800,
    {
        proof {
            lemma_ppu_index_bounds(m, addr);
        }
        let base = addr & 0x0FFF;
        match m {
            Mirroring::Horizontal => base & 0x07FF,
            Mirroring::Vertical => ((base & 0x0800) >> 1) | (base & 0x03FF),
        }
    }

    /// Read one byte of PPU address space.
    pub fn read(&self, cart: &Cart, addr: u16) -> (r: u8)
        requires
            self.wf(),
            cart.wf(),
            addr < 0x4000,
        ensures
            r == spec_ppu_bus_read(self@, cart@, addr),
    {
        if addr < 0x2000 {
            cart.ppu_read(addr)
        } else if addr < 0x3F00 {
            let i = self.vram_index_of(cart.data.mirroring, addr);
            self.vram[i as usize]
        } else {
            proof {
                lemma_ppu_index_bounds(cart@.mirroring, addr);
            }
            let i = addr & 0x1F;
            let i = if i == 0x10 || i == 0x14 || i == 0x18 || i == 0x1C {
                i - 0x10
            } else {
                i
            };
            self.palette_ram[i as usize]
        }
    }

    /// Write one byte of PPU address space.
    pub fn write(&mut self, cart: &mut Cart, addr: u16, value: u8)
        requires
            old(self).wf(),
            old(cart).wf(),
            addr < 0x4000,
        ensures
            (final(self)@, final(cart)@) == spec_ppu_bus_write(
                old(self)@,
                old(cart)@,
                addr,
                value,
            ),
            final(self).wf(),
            final(cart).wf(),
    {
        if addr < 0x2000 {
            cart.ppu_write(addr, value);
        } else if addr < 0x3F00 {
            let i = self.vram_index_of(cart.data.mirroring, addr);
            self.vram.set(i as usize, value);
        } else {
            proof {
                lemma_ppu_index_bounds(cart@.mirroring, addr);
            }
            let i = addr & 0x1F;
            let i = if i == 0x10 || i == 0x14 || i == 0x18 || i == 0x1C {
                i - 0x10
            } else {
                i
            };
            self.palette_ram.set(i as usize, value);
        }
    }
}

/// Writing a nametable cell is observable at every address that mirrors it:
/// two nametable addresses whose collapsed indices agree read the same cell.
pub proof fn lemma_vram_mirroring(v: PpuBusView, c: CartView, a1: u16, a2: u16)
    requires
        0x2000 <= a1 < 0x3F00,
        0x2000 <= a2 < 0x3F00,
        vram_index(c.mirroring, a1) == vram_index(c.mirroring, a2),
    ensures
        spec_ppu_bus_read(v, c, a1) == spec_ppu_bus_read(v, c, a2),
{
}

} // verus!
