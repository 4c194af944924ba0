//! The CPU-side address decoder: work RAM with mirroring, the PPU register
//! ports with mirroring, the stubbed APU and input region, and cartridge
//! ROM through the mapper.

use vstd::prelude::*;

use crate::cart::{Cart, CartView};
use crate::mapper::spec_prg_read;
use crate::ppu::{
    spec_reg_read_state, spec_reg_read_val, spec_reg_write_cart, spec_reg_write_ppu, Ppu, PpuView,
};

verus! {

/// The CPU-side bus: 2 KiB of work RAM, the PPU, and the cartridge slot.
pub struct CpuBus {
    /// Work RAM, mirrored four times across `$0000..=$1FFF`.
    pub ram: Vec<u8>,
    /// The picture processing unit, reached through `$2000..=$3FFF`.
    pub ppu: Ppu,
    /// The cartridge, reached through `$8000..=$FFFF`.
    pub cart: Option<Cart>,
}

/// The specification-level image of the CPU-side bus.
#[verifier::ext_equal]
pub struct CpuBusView {
    /// Work RAM bytes.
    pub ram: Seq<u8>,
    /// The PPU.
    pub ppu: PpuView,
    /// The cartridge, when one is inserted.
    pub cart: Option<CartView>,
}

impl View for CpuBus {
    type V = CpuBusView;

    open spec fn view(&self) -> CpuBusView {
        CpuBusView {
            ram: self.ram@,
            ppu: self.ppu@,
            cart: match self.cart {
                Some(c) => Some(c@),
                None => None,
            },
        }
    }
}

/// The work RAM cell an address below `$2000` falls on.
pub open spec fn ram_index(addr: u16) -> u16 {
    addr & 0x07FF
}

/// The PPU register port an address in `$2000..=$3FFF` falls on.
pub open spec fn ppu_port(addr: u16) -> u16 {
    (0x2000 | (addr & 0x0007)) as u16
}

/// The byte a CPU-space read returns: work RAM below `$2000`, a PPU register
/// port below `$4000`, 0 in the stubbed APU and unmapped regions, cartridge
/// ROM from `$8000` up.
pub open spec fn spec_cpu_read_val(b: CpuBusView, addr: u16) -> u8 {
    if addr < 0x2000 {
        b.ram[ram_index(addr) as int]
    } else if addr < 0x4000 {
        spec_reg_read_val(b.ppu, b.cart->Some_0, ppu_port(addr))
    } else if addr < 0x8000 {
        0
    } else {
        spec_prg_read(b.cart->Some_0, addr)
    }
}

/// The bus after a CPU-space read: only a PPU register read has side
/// effects.
pub open spec fn spec_cpu_read_state(b: CpuBusView, addr: u16) -> CpuBusView {
    if 0x2000 <= addr && addr < 0x4000 {
        CpuBusView { ppu: spec_reg_read_state(b.ppu, b.cart->Some_0, ppu_port(addr)), ..b }
    } else {
        b
    }
}

/// The bus after a CPU-space write: work RAM takes bytes below `$2000`, the
/// PPU below `$4000`; the APU and unmapped regions swallow them; cartridge
/// ROM ignores them.
pub open spec fn spec_cpu_write(b: CpuBusView, addr: u16, value: u8) -> CpuBusView {
    if addr < 0x2000 {
        CpuBusView { ram: b.ram.update(ram_index(addr) as int, value), ..b }
    } else if addr < 0x4000 {
        CpuBusView {
            ppu: spec_reg_write_ppu(b.ppu, b.cart->Some_0, ppu_port(addr), value),
            cart: Some(spec_reg_write_cart(b.ppu, b.cart->Some_0, ppu_port(addr), value)),
            ..b
        }
    } else {
        b
    }
}

/// Mirrored work RAM indices stay below 2 KiB, and mirrored PPU ports stay
/// on the eight registers.
pub proof fn lemma_cpu_index_bounds(addr: u16)
    ensures
        ram_index(addr) < 0x800,
        0x2000 <= ppu_port(addr) <= 0x2007,
{
    assert(addr & 0x07FF < 0x800 && 0x2000 <= (0x2000u16 | (addr & 0x0007)) && (0x2000u16 | (addr
        & 0x0007)) <= 0x2007) by (bit_vector);
}

/// Work RAM mirroring: two addresses below `$2000` that agree on their low
/// 11 bits read and write the same cell; so do two PPU port addresses below
/// `$4000` that agree on their low 3 bits.
pub proof fn lemma_cpu_mirroring(b: CpuBusView, a1: u16, a2: u16)
    requires
        a1 < 0x2000 && a2 < 0x2000 && a1 & 0x07FF == a2 & 0x07FF,
    ensures
        spec_cpu_read_val(b, a1) == spec_cpu_read_val(b, a2),
        spec_cpu_write(b, a1, 0) == spec_cpu_write(b, a2, 0),
{
}

impl CpuBus {
    /// The structural invariant: full-size work RAM, a well-formed PPU, and
    /// a well-formed cartridge when one is inserted.
    pub open spec fn wf(&self) -> bool {
        &&& self.ram@.len() == 0x800
        &&& self.ppu.wf()
        &&& match self.cart {
            Some(c) => c.wf(),
            None => true,
        }
    }

    /// Whether a cartridge is inserted.
    pub open spec fn has_cart(&self) -> bool {
        self.cart is Some
    }

    /// A fresh bus: zeroed work RAM, a powered-on PPU, no cartridge.
    pub fn new() -> (r: CpuBus)
        ensures
            r.wf(),
            !r.has_cart(),
            forall|i: int| 0 <= i < 0x800 ==> r@.ram[i] == 0,
            r@.ppu.scanline == 261 && r@.ppu.dot == 0 && r@.ppu.clock_count == 0,
            r@.ppu.ppu_status.vblank && !r@.ppu.nmi_signal && !r@.ppu.write_toggle,
            r@.ppu.ppu_ctrl == crate::ppu::ctrl_from_byte(0),
            r@.ppu.ppu_addr.value == 0,
            forall|i: int|
                0 <= i < 61440 ==> r@.ppu.output[i] == (crate::ppu::Pixel {
                    r: 0x22,
                    g: 0x22,
                    b: 0x22,
                    a: 0xFF,
                }),
            forall|i: int| 0 <= i < 0x800 ==> r@.ppu.bus.vram[i] == 0,
            forall|i: int| 0 <= i < 32 ==> r@.ppu.bus.palette_ram[i] == 0,
    {
        let ppu = Ppu::new();
        CpuBus { ram: crate::cart::vec_zeroes(0x800), ppu, cart: None }
    }

    /// Read one byte of CPU address space. A read of a PPU register port can
    /// change the PPU; nothing else moves.
    pub fn read(&mut self, addr: u16) -> (r: u8)
        requires
            old(self).wf(),
            old(self).has_cart(),
        ensures
            final(self).wf(),
            final(self).has_cart(),
            r == spec_cpu_read_val(old(self)@, addr),
            final(self)@ == spec_cpu_read_state(old(self)@, addr),
    {
        proof {
            lemma_cpu_index_bounds(addr);
        }
        if addr < 0x2000 {
            let i = addr & 0x07FF;
            return self.ram[i as usize];
        }
        if addr < 0x4000 {
            let reg = 0x2000 | (addr & 0x0007);
            let r = match &self.cart {
                Some(c) => self.ppu.read(c, reg),
                None => 0,
            };
            return r;
        }
        if addr < 0x8000 {
            return 0;
        }
        match &self.cart {
            Some(c) => c.cpu_read(addr),
            None => 0,
        }
    }

    /// Read one byte without side effects, for trace formatting: like
    /// `read`, except that the PPU register region reads as 0 and the PPU is
    /// left alone.
    pub fn peek(&self, addr: u16) -> (r: u8)
        requires
            self.wf(),
            self.has_cart(),
        ensures
            r == spec_cpu_peek(self@, addr),
    {
        proof {
            lemma_cpu_index_bounds(addr);
        }
        if addr < 0x2000 {
            let i = addr & 0x07FF;
            return self.ram[i as usize];
        }
        if addr < 0x8000 {
            return 0;
        }
        match &self.cart {
            Some(c) => c.cpu_read(addr),
            None => 0,
        }
    }

    /// Write one byte of CPU address space.
    pub fn write(&mut self, addr: u16, value: u8)
        requires
            old(self).wf(),
            old(self).has_cart(),
        ensures
            final(self).wf(),
            final(self).has_cart(),
            final(self)@ == spec_cpu_write(old(self)@, addr, value),
    {
        proof {
            lemma_cpu_index_bounds(addr);
        }
        if addr < 0x2000 {
            let i = addr & 0x07FF;
            self.ram.set(i as usize, value);
            proof {
                assert(self@ =~= spec_cpu_write(old(self)@, addr, value));
            }
            return;
        }
        if addr < 0x4000 {
            let reg = 0x2000 | (addr & 0x0007);
            match &mut self.cart {
                Some(c) => {
                    self.ppu.write(c, reg, value);
                },
                None => {},
            }
            proof {
                assert(self@ =~= spec_cpu_write(old(self)@, addr, value));
            }
            return;
        }
        if addr < 0x8000 {
            return;
        }
        match &mut self.cart {
            Some(c) => {
                c.cpu_write(addr, value);
            },
            None => {},
        }
        proof {
            assert(self@ =~= spec_cpu_write(old(self)@, addr, value));
        }
    }
}

/// The byte a side-effect-free peek returns.
pub open spec fn spec_cpu_peek(b: CpuBusView, addr: u16) -> u8 {
    if addr < 0x2000 {
        b.ram[ram_index(addr) as int]
    } else if addr < 0x8000 {
        0
    } else {
        spec_prg_read(b.cart->Some_0, addr)
    }
}

/// The column headers of a page dump.
pub open spec fn dump_header(n: int) -> Seq<char>
    decreases n,
{
    if n <= 0 {
        Seq::<char>::empty()
    } else {
        dump_header(n - 1) + "  0x"@ + crate::hexfmt::hex2((n - 1) as u8, true)
    }
}

/// The cells of one page-dump row: sixteen bytes, each four spaces then two
/// lower-case digits.
pub open spec fn dump_cells(b: CpuBusView, base: u16, row: int, n: int) -> Seq<char>
    decreases n,
{
    if n <= 0 {
        Seq::<char>::empty()
    } else {
        dump_cells(b, base, row, n - 1) + "    "@ + crate::hexfmt::hex2(
            spec_cpu_peek(b, crate::cpu::wrap_add16(base, (row * 16 + (n - 1)) as u16)),
            false,
        )
    }
}

/// The rows of a page dump: each row's address label and its sixteen cells.
pub open spec fn dump_rows(b: CpuBusView, base: u16, n: int) -> Seq<char>
    decreases n,
{
    if n <= 0 {
        Seq::<char>::empty()
    } else {
        dump_rows(b, base, n - 1) + "0x"@ + crate::hexfmt::hex4(
            crate::cpu::wrap_add16(base, ((n - 1) * 16) as u16),
            true,
        ) + dump_cells(b, base, n - 1, 16) + "\n"@
    }
}

/// A full page dump: column headers, a blank line, then sixteen rows of
/// sixteen bytes.
pub open spec fn spec_print_page(b: CpuBusView, base: u16) -> Seq<char> {
    "      "@ + dump_header(16) + "\n\n"@ + dump_rows(b, base, 16)
}

impl CpuBus {
    /// Render a 256-byte page as a hexadecimal table: a column header line,
    /// a blank line, then sixteen rows of sixteen bytes read without side
    /// effects.
    pub fn print_page(&self, base: u16) -> (r: String)
        requires
            self.wf(),
            self.has_cart(),
        ensures
            r@ == spec_print_page(self@, base),
    {
        let mut s = String::new();
        s.append("      ");
        let mut col: usize = 0;
        while col < 16
            invariant
                col <= 16,
                s@ == "      "@ + dump_header(col as int),
            decreases 16 - col,
        {
            s.append("  0x");
            crate::hexfmt::push_hex2(&mut s, col as u8, true);
            proof {
                assert(s@ =~= "      "@ + dump_header(col + 1));
            }
            col += 1;
        }
        s.append("\n\n");
        let ghost head = s@;
        proof {
            assert(head =~= "      "@ + dump_header(16) + "\n\n"@);
        }
        let mut row: usize = 0;
        while row < 16
            invariant
                row <= 16,
                self.wf(),
                self.has_cart(),
                head == "      "@ + dump_header(16) + "\n\n"@,
                s@ == head + dump_rows(self@, base, row as int),
            decreases 16 - row,
        {
            s.append("0x");
            crate::hexfmt::push_hex4(
                &mut s,
                crate::cpu::wrap_add16_exec(base, (row as u16) * 16),
                true,
            );
            let ghost row_start = s@;
            let mut col2: usize = 0;
            while col2 < 16
                invariant
                    col2 <= 16,
                    row < 16,
                    self.wf(),
                    self.has_cart(),
                    s@ == row_start + dump_cells(self@, base, row as int, col2 as int),
                decreases 16 - col2,
            {
                s.append("    ");
                let addr = crate::cpu::wrap_add16_exec(
                    base,
                    (row as u16) * 16 + (col2 as u16),
                );
                let v = self.peek(addr);
                crate::hexfmt::push_hex2(&mut s, v, false);
                proof {
                    assert(s@ =~= row_start + dump_cells(
                        self@,
                        base,
                        row as int,
                        col2 + 1,
                    ));
                }
                col2 += 1;
            }
            s.append("\n");
            proof {
                assert(s@ =~= head + dump_rows(self@, base, row + 1));
            }
            row += 1;
        }
        proof {
            assert(s@ =~= spec_print_page(self@, base));
        }
        s
    }
}

} // verus!
