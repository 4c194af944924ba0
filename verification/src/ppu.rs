//! The picture processing unit: a scanline/dot state machine that raises
//! VBlank and the non-maskable interrupt, exposes its register ports to the
//! CPU bus, and renders the background into a framebuffer.

use vstd::prelude::*;

use crate::cart::{Cart, CartView};
use crate::palette::{Color, Palette};
use crate::ppu_bus::{spec_ppu_bus_read, spec_ppu_bus_write, PpuBus, PpuBusView};

verus! {

/// Dots per scanline.
pub const DOTS_PER_LINE: u16 = 341;

/// Scanlines per frame.
pub const LINES_PER_FRAME: u16 = 262;

/// Dots per frame.
pub const DOTS_PER_FRAME: u32 = 89342;

/// The `$2000` control register, decoded.
#[derive(Clone, Copy, Debug, PartialEq, Eq, Structural)]
pub struct RegPPUCtrl {
    /// `N`, bits 0..1: base nametable.
    pub nametable_select: u8,
    /// `I`, bit 2: video RAM address increment of 32 instead of 1.
    pub increment_mode: bool,
    /// `S`, bit 3: sprite pattern table.
    pub sprite_table_select: bool,
    /// `B`, bit 4: background pattern table.
    pub bg_table_select: bool,
    /// `H`, bit 5: 8 by 16 sprites.
    pub sprite_height: bool,
    /// `P`, bit 6: master/slave select.
    pub ppu_master_slave: bool,
    /// `V`, bit 7: raise the non-maskable interrupt at VBlank entry.
    pub nmi_enable: bool,
}

/// The control register a byte decodes to.
pub open spec fn ctrl_from_byte(b: u8) -> RegPPUCtrl {
    RegPPUCtrl {
        nametable_select: b & 0x03,
        increment_mode: b & 0x04 != 0,
        sprite_table_select: b & 0x08 != 0,
        bg_table_select: b & 0x10 != 0,
        sprite_height: b & 0x20 != 0,
        ppu_master_slave: b & 0x40 != 0,
        nmi_enable: b & 0x80 != 0,
    }
}

impl RegPPUCtrl {
    /// Decode a write to `$2000`.
    pub fn from_byte(b: u8) -> (r: RegPPUCtrl)
        ensures
            r == ctrl_from_byte(b),
    {
        RegPPUCtrl {
            nametable_select: b & 0x03,
            increment_mode: b & 0x04 != 0,
            sprite_table_select: b & 0x08 != 0,
            bg_table_select: b & 0x10 != 0,
            sprite_height: b & 0x20 != 0,
            ppu_master_slave: b & 0x40 != 0,
            nmi_enable: b & 0x80 != 0,
        }
    }

    /// All control bits clear.
    pub fn zeroed() -> (r: RegPPUCtrl)
        ensures
            r == ctrl_from_byte(0),
    {
        proof {
            assert(0u8 & 0x03 == 0 && 0u8 & 0x04 == 0 && 0u8 & 0x08 == 0 && 0u8 & 0x10 == 0 && 0u8
                & 0x20 == 0 && 0u8 & 0x40 == 0 && 0u8 & 0x80 == 0) by (bit_vector);
        }
        RegPPUCtrl {
            nametable_select: 0,
            increment_mode: false,
            sprite_table_select: false,
            bg_table_select: false,
            sprite_height: false,
            ppu_master_slave: false,
            nmi_enable: false,
        }
    }
}

/// The `$2001` mask register, decoded.
#[derive(Clone, Copy, Debug, PartialEq, Eq, Structural)]
pub struct RegPPUMask {
    /// Bit 0: greyscale display.
    pub greyscale: bool,
    /// Bit 1: show the background in the leftmost eight pixels.
    pub bg_left_col_enable: bool,
    /// Bit 2: show sprites in the leftmost eight pixels.
    pub sprite_left_col_enable: bool,
    /// Bit 3: show the background.
    pub bg_enable: bool,
    /// Bit 4: show sprites.
    pub sprite_enable: bool,
    /// Bit 5: emphasize red.
    pub ce_r: bool,
    /// Bit 6: emphasize green.
    pub ce_g: bool,
    /// Bit 7: emphasize blue.
    pub ce_b: bool,
}

/// The mask register a byte decodes to.
pub open spec fn mask_from_byte(b: u8) -> RegPPUMask {
    RegPPUMask {
        greyscale: b & 0x01 != 0,
        bg_left_col_enable: b & 0x02 != 0,
        sprite_left_col_enable: b & 0x04 != 0,
        bg_enable: b & 0x08 != 0,
        sprite_enable: b & 0x10 != 0,
        ce_r: b & 0x20 != 0,
        ce_g: b & 0x40 != 0,
        ce_b: b & 0x80 != 0,
    }
}

impl RegPPUMask {
    /// Decode a write to `$2001`.
    pub fn from_byte(b: u8) -> (r: RegPPUMask)
        ensures
            r == mask_from_byte(b),
    {
        RegPPUMask {
            greyscale: b & 0x01 != 0,
            bg_left_col_enable: b & 0x02 != 0,
            sprite_left_col_enable: b & 0x04 != 0,
            bg_enable: b & 0x08 != 0,
            sprite_enable: b & 0x10 != 0,
            ce_r: b & 0x20 != 0,
            ce_g: b & 0x40 != 0,
            ce_b: b & 0x80 != 0,
        }
    }

    /// All mask bits clear.
    pub fn zeroed() -> (r: RegPPUMask)
        ensures
            r == mask_from_byte(0),
    {
        proof {
            assert(0u8 & 0x01 == 0 && 0u8 & 0x02 == 0 && 0u8 & 0x04 == 0 && 0u8 & 0x08 == 0 && 0u8
                & 0x10 == 0 && 0u8 & 0x20 == 0 && 0u8 & 0x40 == 0 && 0u8 & 0x80 == 0)
                by (bit_vector);
        }
        RegPPUMask {
            greyscale: false,
            bg_left_col_enable: false,
            sprite_left_col_enable: false,
            bg_enable: false,
            sprite_enable: false,
            ce_r: false,
            ce_g: false,
            ce_b: false,
        }
    }
}

/// The `$2002` status register.
#[derive(Clone, Copy, Debug, PartialEq, Eq, Structural)]
pub struct RegPPUStatus {
    /// `O`, bit 5: sprite overflow.
    pub overflow: bool,
    /// `S`, bit 6: sprite 0 hit.
    pub sprite0_hit: bool,
    /// `V`, bit 7: vertical blank has started.
    pub vblank: bool,
}

/// The byte a status register read returns: overflow, sprite 0 hit and
/// VBlank in bits 5, 6 and 7.
pub open spec fn status_reg_byte(s: RegPPUStatus) -> u8 {
    (if s.overflow { 0x20u8 } else { 0u8 }) | (if s.sprite0_hit { 0x40u8 } else { 0u8 }) | (if s.vblank { 0x80u8 } else { 0u8 })
}

impl RegPPUStatus {
    /// Pack the status register into its byte encoding.
    pub fn to_byte(&self) -> (r: u8)
        ensures
            r == status_reg_byte(*self),
    {
        (if self.overflow { 0x20u8 } else { 0u8 }) | (if self.sprite0_hit { 0x40u8 } else { 0u8 })
            | (if self.vblank { 0x80u8 } else { 0u8 })
    }
}

/// The two-write `$2005` scroll latch.
#[derive(Clone, Copy, Debug, PartialEq, Eq, Structural)]
pub struct PPUScroll {
    /// Horizontal scroll, set by the first write.
    pub x: u8,
    /// Vertical scroll, set by the second write.
    pub y: u8,
}

impl PPUScroll {
    /// Store one write: the first of a pair sets the horizontal scroll, the
    /// second the vertical. The shared toggle is kept by the PPU.
    pub fn store(&mut self, second: bool, b: u8)
        ensures
            !second ==> *final(self) == (PPUScroll { x: b, ..*old(self) }),
            second ==> *final(self) == (PPUScroll { y: b, ..*old(self) }),
    {
        if second {
            self.y = b;
        } else {
            self.x = b;
        }
    }
}

/// The two-write `$2006` video RAM address latch.
#[derive(Clone, Copy, Debug, PartialEq, Eq, Structural)]
pub struct PPUAddress {
    /// The accumulated address.
    pub value: u16,
}

impl PPUAddress {
    /// Store one write: the first of a pair sets the high byte, the second
    /// the low byte. The shared toggle is kept by the PPU.
    pub fn store(&mut self, second: bool, b: u8)
        ensures
            !second ==> final(self).value == ((b as u16) << 8 | (old(self).value & 0x00FF)),
            second ==> final(self).value == ((old(self).value & 0xFF00) | b as u16),
    {
        if second {
            self.value = (self.value & 0xFF00) | b as u16;
        } else {
            self.value = (b as u16) << 8 | (self.value & 0x00FF);
        }
    }
}

/// One framebuffer pixel, in R, G, B, A order.
#[derive(Clone, Copy, Debug, PartialEq, Eq, Structural)]
pub struct Pixel {
    /// Red component.
    pub r: u8,
    /// Green component.
    pub g: u8,
    /// Blue component.
    pub b: u8,
    /// Alpha component; the PPU always writes 0xFF.
    pub a: u8,
}

impl Pixel {
    /// Black, fully opaque.
    pub fn zeros() -> (r: Pixel)
        ensures
            r == (Pixel { r: 0, g: 0, b: 0, a: 0xFF }),
    {
        Pixel { r: 0, g: 0, b: 0, a: 0xFF }
    }

    /// A pixel from its four components.
    pub fn new(r: u8, g: u8, b: u8, a: u8) -> (p: Pixel)
        ensures
            p == (Pixel { r, g, b, a }),
    {
        Pixel { r, g, b, a }
    }
}

/// The picture processing unit.
pub struct Ppu {
    /// `$2000`, write: control register.
    pub ppu_ctrl: RegPPUCtrl,
    /// `$2001`, write: mask register.
    pub ppu_mask: RegPPUMask,
    /// `$2002`, read: status register.
    pub ppu_status: RegPPUStatus,
    /// `$2003`, write: OAM address (the OAM port itself is stubbed).
    pub oam_addr: u8,
    /// `$2005`, write twice: scroll latch.
    pub ppu_scroll: PPUScroll,
    /// `$2006`, write twice: video RAM address latch.
    pub ppu_addr: PPUAddress,
    /// The shared second-write toggle of `$2005` and `$2006`, reset by a
    /// `$2002` read.
    pub write_toggle: bool,
    /// `$2007`: the last byte that went through the data port.
    pub ppu_data: u8,
    /// `$4014`, write: OAM direct memory access page (stubbed).
    pub oam_dma: u8,
    /// The PPU-side memories.
    pub bus: PpuBus,
    /// The fixed 64-entry color palette.
    pub color_palette: Palette,
    /// Dots elapsed in the current frame.
    pub clock_count: u32,
    /// Current scanline, 0 through 261; 261 is the pre-render line.
    pub scanline: u16,
    /// Current dot within the scanline, 0 through 340.
    pub dot: u16,
    /// Set when VBlank entry raises the non-maskable interrupt; the console
    /// consumes and clears it.
    pub nmi_signal: bool,
    /// The 256 by 240 framebuffer.
    pub output: Vec<Pixel>,
}

/// The specification-level image of the PPU.
#[verifier::ext_equal]
pub struct PpuView {
    /// Control register.
    pub ppu_ctrl: RegPPUCtrl,
    /// Mask register.
    pub ppu_mask: RegPPUMask,
    /// Status register.
    pub ppu_status: RegPPUStatus,
    /// OAM address register.
    pub oam_addr: u8,
    /// Scroll latch.
    pub ppu_scroll: PPUScroll,
    /// Video RAM address latch.
    pub ppu_addr: PPUAddress,
    /// Shared second-write toggle.
    pub write_toggle: bool,
    /// Data port latch.
    pub ppu_data: u8,
    /// OAM direct memory access page.
    pub oam_dma: u8,
    /// PPU-side memories.
    pub bus: PpuBusView,
    /// Color palette entries.
    pub color_palette: Seq<Color>,
    /// Dots elapsed in the current frame.
    pub clock_count: u32,
    /// Current scanline.
    pub scanline: u16,
    /// Current dot.
    pub dot: u16,
    /// Pending interrupt signal.
    pub nmi_signal: bool,
    /// Framebuffer contents.
    pub output: Seq<Pixel>,
}

impl View for Ppu {
    type V = PpuView;

    open spec fn view(&self) -> PpuView {
        PpuView {
            ppu_ctrl: self.ppu_ctrl,
            ppu_mask: self.ppu_mask,
            ppu_status: self.ppu_status,
            oam_addr: self.oam_addr,
            ppu_scroll: self.ppu_scroll,
            ppu_addr: self.ppu_addr,
            write_toggle: self.write_toggle,
            ppu_data: self.ppu_data,
            oam_dma: self.oam_dma,
            bus: self.bus@,
            color_palette: self.color_palette@,
            clock_count: self.clock_count,
            scanline: self.scanline,
            dot: self.dot,
            nmi_signal: self.nmi_signal,
            output: self.output@,
        }
    }
}

/// One background pixel of the rendered frame, by the per-scanline fetch
/// model: nametable byte, attribute byte, two pattern-table slivers, the
/// attribute quadrant picked by the coarse coordinates, and a palette
/// lookup.
pub open spec fn bg_pixel(
    ctrl: RegPPUCtrl,
    bus: PpuBusView,
    c: CartView,
    pal: Seq<Color>,
    row: int,
    col: int,
) -> Pixel {
    let coarse_x = (col / 8) as u16;
    let coarse_y = (row / 8) as u16;
    let fine_y = (row % 8) as u16;
    let half: u16 = if ctrl.bg_table_select {
        1
    } else {
        0
    };
    let v = coarse_x | (coarse_y << 5) | ((ctrl.nametable_select as u16) << 10) | (fine_y << 12);
    let tile = spec_ppu_bus_read(bus, c, 0x2000 | (v & 0x0FFF)) as u16;
    let attr_addr = 0x23C0 | (v & 0x0C00) | ((v >> 4) & 0x38) | ((v >> 2) & 0x07);
    let attr = spec_ppu_bus_read(bus, c, attr_addr);
    let lo = spec_ppu_bus_read(bus, c, fine_y | (tile << 4) | (half << 12));
    let hi = spec_ppu_bus_read(bus, c, (fine_y | 8) | (tile << 4) | (half << 12));
    let i = col % 8;
    let sh = (7 - i) as u8;
    let bit_lo = (lo >> sh) & 1;
    let bit_hi = (hi >> sh) & 1;
    let color_idx = (bit_lo | (bit_hi << 1)) as u16;
    let shift = (((coarse_y % 4) & 2) | (((coarse_x % 4) & 2) >> 1)) << 1;
    let quadrant = ((attr as u16) >> shift) & 3;
    let idx = (quadrant << 2) | color_idx;
    let color = pal[idx as int];
    Pixel { r: color.r, g: color.g, b: color.b, a: 0xFF }
}

/// The whole background frame, row-major.
#[verifier::opaque]
pub open spec fn bg_frame(
    ctrl: RegPPUCtrl,
    bus: PpuBusView,
    pal: Seq<Color>,
    c: CartView,
) -> Seq<Pixel> {
    Seq::new(61440, |k: int| bg_pixel(ctrl, bus, c, pal, k / 256, k % 256))
}

/// The scanline and dot one step later: the dot advances and wraps at the
/// end of the scanline, the scanline wraps at the end of the frame.
pub open spec fn next_position(scanline: u16, dot: u16) -> (u16, u16) {
    if dot == 340 {
        (if scanline == 261 {
            0u16
        } else {
            (scanline + 1) as u16
        }, 0u16)
    } else {
        (scanline, (dot + 1) as u16)
    }
}

/// The dot index of a position within the frame.
pub open spec fn frame_pos(scanline: u16, dot: u16) -> int {
    scanline * 341 + dot
}

/// The PPU one dot later: the position advances; on arrival at scanline
/// 241, dot 1 VBlank is set, the interrupt signal takes the control
/// register's enable bit, and the frame is rendered; on arrival at scanline
/// 261, dot 1 VBlank, sprite 0 hit and overflow are cleared.
pub open spec fn spec_ppu_step(p: PpuView, c: CartView) -> PpuView {
    let pos = next_position(p.scanline, p.dot);
    let clock = if p.clock_count + 1 == 89342 {
        0u32
    } else {
        (p.clock_count + 1) as u32
    };
    let moved = PpuView { scanline: pos.0, dot: pos.1, clock_count: clock, ..p };
    if pos.0 == 241 && pos.1 == 1 {
        PpuView {
            ppu_status: RegPPUStatus { vblank: true, ..p.ppu_status },
            nmi_signal: p.ppu_ctrl.nmi_enable,
            output: bg_frame(p.ppu_ctrl, p.bus, p.color_palette, c),
            ..moved
        }
    } else if pos.0 == 261 && pos.1 == 1 {
        PpuView {
            ppu_status: RegPPUStatus { vblank: false, sprite0_hit: false, overflow: false },
            ..moved
        }
    } else {
        moved
    }
}

impl Ppu {
    /// The structural invariant: position inside the frame, memories at
    /// their sizes, 64 palette entries, a full framebuffer.
    pub open spec fn wf(&self) -> bool {
        &&& self.scanline < 262
        &&& self.dot < 341
        &&& self.clock_count < 89342
        &&& self.bus.wf()
        &&& self.color_palette.wf()
        &&& self.output@.len() == 61440
    }

    /// A freshly powered-on PPU: position at the pre-render line, VBlank
    /// flag set, black palette, framebuffer filled with dark grey.
    pub fn new() -> (r: Ppu)
        ensures
            r.wf(),
            r.scanline == 261 && r.dot == 0 && r.clock_count == 0,
            r.ppu_status.vblank == true && !r.nmi_signal,
            !r.write_toggle,
            r.ppu_ctrl == ctrl_from_byte(0) && r.ppu_mask == mask_from_byte(0),
            r.ppu_addr.value == 0,
            r.oam_addr == 0 && r.ppu_data == 0,
            forall|i: int|
                0 <= i < 61440 ==> r@.output[i] == (Pixel { r: 0x22, g: 0x22, b: 0x22, a: 0xFF }),
            forall|i: int| 0 <= i < 0x800 ==> r@.bus.vram[i] == 0,
            forall|i: int| 0 <= i < 32 ==> r@.bus.palette_ram[i] == 0,
    {
        let mut output: Vec<Pixel> = Vec::new();
        let mut i: usize = 0;
        while i < 61440
            invariant
                i <= 61440,
                output@.len() == i,
                forall|j: int|
                    0 <= j < i ==> output@[j] == (Pixel { r: 0x22, g: 0x22, b: 0x22, a: 0xFF }),
            decreases 61440 - i,
        {
            output.push(Pixel { r: 0x22, g: 0x22, b: 0x22, a: 0xFF });
            i += 1;
        }
        Ppu {
            ppu_ctrl: RegPPUCtrl::zeroed(),
            ppu_mask: RegPPUMask::zeroed(),
            ppu_status: RegPPUStatus { overflow: false, sprite0_hit: false, vblank: true },
            oam_addr: 0,
            ppu_scroll: PPUScroll { x: 0, y: 0 },
            ppu_addr: PPUAddress { value: 0 },
            write_toggle: false,
            ppu_data: 0,
            oam_dma: 0,
            bus: PpuBus::new(),
            color_palette: Palette::new(),
            clock_count: 0,
            scanline: 261,
            dot: 0,
            nmi_signal: false,
            output,
        }
    }

    /// Install a color palette.
    pub fn set_palette(&mut self, palette: Palette)
        requires
            palette.wf(),
        ensures
            *final(self) == (Ppu { color_palette: palette, ..*old(self) }),
    {
        self.color_palette = palette;
    }

    /// Enter the vertical blank: set the VBlank flag, raise the interrupt
    /// signal when the control register enables it, and render the frame.
    pub fn enter_vblank(&mut self, cart: &Cart)
        requires
            old(self).wf(),
            cart.wf(),
        ensures
            final(self).wf(),
            final(self)@ == (PpuView {
                ppu_status: RegPPUStatus { vblank: true, ..old(self)@.ppu_status },
                nmi_signal: old(self)@.ppu_ctrl.nmi_enable,
                output: bg_frame(
                    old(self)@.ppu_ctrl,
                    old(self)@.bus,
                    old(self)@.color_palette,
                    cart@,
                ),
                ..old(self)@
            }),
    {
        self.draw_bg(cart);
        self.ppu_status.vblank = true;
        self.nmi_signal = self.ppu_ctrl.nmi_enable;
    }

    /// Arrive at the pre-render line: clear VBlank, sprite 0 hit and
    /// overflow.
    pub fn leave_vblank(&mut self)
        ensures
            final(self)@ == (PpuView {
                ppu_status: RegPPUStatus { vblank: false, sprite0_hit: false, overflow: false },
                ..old(self)@
            }),
            old(self).wf() ==> final(self).wf(),
    {
        self.ppu_status.vblank = false;
        self.ppu_status.sprite0_hit = false;
        self.ppu_status.overflow = false;
    }

    /// Advance the PPU by one dot.
    #[verifier::rlimit(50)]
    pub fn step(&mut self, cart: &Cart)
        requires
            old(self).wf(),
            cart.wf(),
        ensures
            final(self).wf(),
            final(self)@ == spec_ppu_step(old(self)@, cart@),
    {
        if self.dot == 340 {
            self.dot = 0;
            self.scanline = if self.scanline == 261 {
                0
            } else {
                self.scanline + 1
            };
        } else {
            self.dot = self.dot + 1;
        }
        self.clock_count = if self.clock_count + 1 == 89342 {
            0
        } else {
            self.clock_count + 1
        };
        if self.scanline == 241 && self.dot == 1 {
            self.enter_vblank(cart);
            proof {
                assert(self@ =~= spec_ppu_step(old(self)@, cart@));
            }
        } else if self.scanline == 261 && self.dot == 1 {
            self.leave_vblank();
            proof {
                assert(self@ =~= spec_ppu_step(old(self)@, cart@));
            }
        } else {
            proof {
                assert(self@ =~= spec_ppu_step(old(self)@, cart@));
            }
        }
    }

    /// Compute one background pixel.
    #[verifier::rlimit(60)]
    pub fn bg_pixel_at(&self, cart: &Cart, row: usize, col: usize) -> (r: Pixel)
        requires
            self.wf(),
            cart.wf(),
            row < 240,
            col < 256,
        ensures
            r == bg_pixel(
                self@.ppu_ctrl,
                self@.bus,
                cart@,
                self@.color_palette,
                row as int,
                col as int,
            ),
    {
        let coarse_x = (col / 8) as u16;
        let coarse_y = (row / 8) as u16;
        let fine_y = (row % 8) as u16;
        let half: u16 = if self.ppu_ctrl.bg_table_select {
            1
        } else {
            0
        };
        let v = coarse_x | (coarse_y << 5) | ((self.ppu_ctrl.nametable_select as u16) << 10) | (
        fine_y << 12);
        proof {
            assert(0x2000u16 | (v & 0x0FFF) < 0x4000) by (bit_vector);
            assert(0x23C0u16 | (v & 0x0C00) | ((v >> 4) & 0x38) | ((v >> 2) & 0x07) < 0x4000)
                by (bit_vector);
        }
        let tile = self.bus.read(cart, 0x2000 | (v & 0x0FFF)) as u16;
        let attr_addr = 0x23C0 | (v & 0x0C00) | ((v >> 4) & 0x38) | ((v >> 2) & 0x07);
        let attr = self.bus.read(cart, attr_addr);
        proof {
            let t = tile;
            let f = fine_y;
            let h = half;
            assert(t < 256 && f < 8 && h <= 1 ==> f | (t << 4) | (h << 12) < 0x4000 && (f | 8) | (
            t << 4) | (h << 12) < 0x4000) by (bit_vector);
        }
        let lo = self.bus.read(cart, fine_y | (tile << 4) | (half << 12));
        let hi = self.bus.read(cart, (fine_y | 8) | (tile << 4) | (half << 12));
        let sh: u8 = (7 - (col % 8)) as u8;
        let bit_lo = (lo >> sh) & 1;
        let bit_hi = (hi >> sh) & 1;
        let color_idx = (bit_lo | (bit_hi << 1)) as u16;
        proof {
            let cy = coarse_y;
            let cx = coarse_x;
            assert((((cy % 4) & 2) | (((cx % 4) & 2) >> 1)) << 1 <= 6) by (bit_vector);
        }
        let shift = (((coarse_y % 4) & 2) | (((coarse_x % 4) & 2) >> 1)) << 1;
        let quadrant = ((attr as u16) >> shift) & 3;
        let idx = (quadrant << 2) | color_idx;
        proof {
            let l8 = lo;
            let h8 = hi;
            assert((l8 >> sh) & 1 < 2 && (h8 >> sh) & 1 < 2) by (bit_vector);
            let bl = bit_lo;
            let bh = bit_hi;
            assert(bl < 2 && bh < 2 ==> (bl | (bh << 1)) < 4) by (bit_vector);
            let a16 = attr as u16;
            let ci = color_idx;
            assert(ci < 4 ==> (((a16 >> shift) & 3) << 2) | ci < 16) by (bit_vector);
        }
        let color = self.color_palette.color(idx as usize);
        Pixel { r: color.r, g: color.g, b: color.b, a: 0xFF }
    }

    /// Render the background frame into the framebuffer.
    pub fn draw_bg(&mut self, cart: &Cart)
        requires
            old(self).wf(),
            cart.wf(),
        ensures
            final(self).wf(),
            final(self)@ == (PpuView {
                output: bg_frame(
                    old(self)@.ppu_ctrl,
                    old(self)@.bus,
                    old(self)@.color_palette,
                    cart@,
                ),
                ..old(self)@
            }),
    {
        let ghost p0 = self@;
        let mut row: usize = 0;
        while row < 240
            invariant
                row <= 240,
                self.wf(),
                cart.wf(),
                self@ == (PpuView { output: self@.output, ..p0 }),
                self@.output.len() == 61440,
                forall|k: int|
                    0 <= k < row * 256 ==> self@.output[k] == #[trigger] bg_frame(p0.ppu_ctrl, p0.bus, p0.color_palette, cart@)[k],
            decreases 240 - row,
        {
            let mut col: usize = 0;
            while col < 256
                invariant
                    row < 240,
                    col <= 256,
                    self.wf(),
                    cart.wf(),
                    self@ == (PpuView { output: self@.output, ..p0 }),
                    self@.output.len() == 61440,
                    forall|k: int|
                        0 <= k < row * 256 + col ==> self@.output[k] == #[trigger] bg_frame(
                            p0.ppu_ctrl,
                            p0.bus,
                            p0.color_palette,
                            cart@,
                        )[k],
                decreases 256 - col,
            {
                let pix = self.bg_pixel_at(cart, row, col);
                let px = row * 256 + col;
                self.output.set(px, pix);
                proof {
                    reveal(bg_frame);
                    let k = px as int;
                    assert(k / 256 == row && k % 256 == col) by (nonlinear_arith)
                        requires
                            row < 240 && col < 256 && k == row * 256 + col,
                    ;
                    assert(self@.output[k] == bg_frame(p0.ppu_ctrl, p0.bus, p0.color_palette, cart@)[k]);
                }
                col += 1;
            }
            proof {
                assert(row * 256 + 256 == (row + 1) * 256) by (nonlinear_arith);
            }
            row += 1;
        }
        proof {
            reveal(bg_frame);
            assert(self@.output =~= bg_frame(p0.ppu_ctrl, p0.bus, p0.color_palette, cart@));
            assert(self@ =~= (PpuView { output: bg_frame(p0.ppu_ctrl, p0.bus, p0.color_palette, cart@), ..p0 }));
        }
    }
}

/// The byte a CPU read of a PPU register port returns: the status byte at
/// `$2002`, the data port at `$2007`, 0 for the write-only ports.
pub open spec fn spec_reg_read_val(p: PpuView, c: CartView, addr: u16) -> u8 {
    if addr == 0x2002 {
        status_reg_byte(p.ppu_status)
    } else if addr == 0x2007 {
        spec_ppu_bus_read(p.bus, c, (p.ppu_addr.value & 0x3FFF) as u16)
    } else {
        0
    }
}

/// The video RAM address step the control register selects.
pub open spec fn vram_increment(ctrl: RegPPUCtrl) -> u16 {
    if ctrl.increment_mode {
        32u16
    } else {
        1u16
    }
}

/// The PPU after a CPU read of a register port: a `$2002` read clears the
/// VBlank flag and the shared write toggle; a `$2007` read latches the byte
/// and advances the video RAM address; other ports change nothing.
pub open spec fn spec_reg_read_state(p: PpuView, c: CartView, addr: u16) -> PpuView {
    if addr == 0x2002 {
        PpuView {
            ppu_status: RegPPUStatus { vblank: false, ..p.ppu_status },
            write_toggle: false,
            ..p
        }
    } else if addr == 0x2007 {
        PpuView {
            ppu_data: spec_ppu_bus_read(p.bus, c, (p.ppu_addr.value & 0x3FFF) as u16),
            ppu_addr: PPUAddress {
                value: ((p.ppu_addr.value + vram_increment(p.ppu_ctrl)) % 0x10000) as u16,
            },
            ..p
        }
    } else {
        p
    }
}

/// The PPU after a CPU write to a register port.
pub open spec fn spec_reg_write_ppu(p: PpuView, c: CartView, addr: u16, value: u8) -> PpuView {
    if addr == 0x2000 {
        PpuView { ppu_ctrl: ctrl_from_byte(value), ..p }
    } else if addr == 0x2001 {
        PpuView { ppu_mask: mask_from_byte(value), ..p }
    } else if addr == 0x2003 {
        PpuView { oam_addr: value, ..p }
    } else if addr == 0x2005 {
        PpuView {
            ppu_scroll: if p.write_toggle {
                PPUScroll { y: value, ..p.ppu_scroll }
            } else {
                PPUScroll { x: value, ..p.ppu_scroll }
            },
            write_toggle: !p.write_toggle,
            ..p
        }
    } else if addr == 0x2006 {
        PpuView {
            ppu_addr: if p.write_toggle {
                PPUAddress { value: (p.ppu_addr.value & 0xFF00) | value as u16 }
            } else {
                PPUAddress { value: (value as u16) << 8 | (p.ppu_addr.value & 0x00FF) }
            },
            write_toggle: !p.write_toggle,
            ..p
        }
    } else if addr == 0x2007 {
        PpuView {
            bus: spec_ppu_bus_write(p.bus, c, (p.ppu_addr.value & 0x3FFF) as u16, value).0,
            ppu_data: value,
            ppu_addr: PPUAddress {
                value: ((p.ppu_addr.value + vram_increment(p.ppu_ctrl)) % 0x10000) as u16,
            },
            ..p
        }
    } else {
        p
    }
}

/// The cartridge after a CPU write to a register port: only the data port
/// can reach it, through a pattern-table write.
pub open spec fn spec_reg_write_cart(p: PpuView, c: CartView, addr: u16, value: u8) -> CartView {
    if addr == 0x2007 {
        spec_ppu_bus_write(p.bus, c, (p.ppu_addr.value & 0x3FFF) as u16, value).1
    } else {
        c
    }
}

impl Ppu {
    /// The video RAM address step currently selected.
    pub fn increment(&self) -> (r: u16)
        ensures
            r == vram_increment(self@.ppu_ctrl),
    {
        if self.ppu_ctrl.increment_mode {
            32
        } else {
            1
        }
    }

    /// A CPU read of a register port, `$2000` through `$2007`. Reading
    /// `$2002` clears the VBlank flag and the shared write toggle; reading
    /// `$2007` reads video memory at the address latch and advances it; the
    /// write-only ports read as 0.
    pub fn read(&mut self, cart: &Cart, addr: u16) -> (r: u8)
        requires
            old(self).wf(),
            cart.wf(),
            0x2000 <= addr <= 0x2007,
        ensures
            final(self).wf(),
            r == spec_reg_read_val(old(self)@, cart@, addr),
            final(self)@ == spec_reg_read_state(old(self)@, cart@, addr),
    {
        if addr == 0x2002 {
            let r = self.ppu_status.to_byte();
            self.ppu_status.vblank = false;
            self.write_toggle = false;
            proof {
                assert(self@ =~= spec_reg_read_state(old(self)@, cart@, addr));
            }
            r
        } else if addr == 0x2007 {
            proof {
                let a = old(self).ppu_addr.value;
                assert(a & 0x3FFF < 0x4000) by (bit_vector);
            }
            let r = self.bus.read(cart, self.ppu_addr.value & 0x3FFF);
            self.ppu_data = r;
            let inc = self.increment();
            self.ppu_addr.value = self.ppu_addr.value.wrapping_add(inc);
            proof {
                assert(self@ =~= spec_reg_read_state(old(self)@, cart@, addr));
            }
            r
        } else {
            proof {
                assert(self@ =~= spec_reg_read_state(old(self)@, cart@, addr));
            }
            0
        }
    }

    /// A CPU write to a register port, `$2000` through `$2007`. The status
    /// port `$2002` and the stubbed OAM data port `$2004` swallow the write.
    pub fn write(&mut self, cart: &mut Cart, addr: u16, value: u8)
        requires
            old(self).wf(),
            old(cart).wf(),
            0x2000 <= addr <= 0x2007,
        ensures
            final(self).wf(),
            final(cart).wf(),
            final(self)@ == spec_reg_write_ppu(old(self)@, old(cart)@, addr, value),
            final(cart)@ == spec_reg_write_cart(old(self)@, old(cart)@, addr, value),
    {
        if addr == 0x2000 {
            self.ppu_ctrl = RegPPUCtrl::from_byte(value);
            return;
        }
        if addr == 0x2001 {
            self.ppu_mask = RegPPUMask::from_byte(value);
            return;
        }
        if addr == 0x2003 {
            self.oam_addr = value;
            return;
        }
        if addr == 0x2005 {
            let second = self.write_toggle;
            self.ppu_scroll.store(second, value);
            self.write_toggle = !second;
            return;
        }
        if addr == 0x2006 {
            let second = self.write_toggle;
            self.ppu_addr.store(second, value);
            self.write_toggle = !second;
            return;
        }
        if addr == 0x2007 {
            proof {
                let a = old(self).ppu_addr.value;
                assert(a & 0x3FFF < 0x4000) by (bit_vector);
            }
            let a = self.ppu_addr.value & 0x3FFF;
            self.bus.write(cart, a, value);
            self.ppu_data = value;
            let inc = self.increment();
            self.ppu_addr.value = self.ppu_addr.value.wrapping_add(inc);
            return;
        }
    }
}

/// The dot index of a PPU's position within its frame.
pub open spec fn view_pos(p: PpuView) -> int {
    p.scanline * 341 + p.dot
}

/// The frame position at which VBlank entry happens: scanline 241, dot 1.
pub open spec fn vblank_entry_pos() -> int {
    241int * 341 + 1
}

/// How many dots lie between a position and the next VBlank entry: the
/// count of steps after which the position lands on scanline 241, dot 1.
/// Always between 1 and one whole frame.
pub open spec fn dots_until_entry(p: PpuView) -> int {
    let pos = view_pos(p);
    if pos < vblank_entry_pos() {
        vblank_entry_pos() - pos
    } else {
        vblank_entry_pos() + 89342 - pos
    }
}

/// One step moves the frame position forward by one dot, wrapping at the
/// frame's end; the step raises the interrupt signal exactly when it lands
/// on the VBlank entry position with interrupts enabled, and never clears a
/// signal already raised.
pub proof fn lemma_step_position(p: PpuView, c: CartView)
    requires
        p.scanline < 262,
        p.dot < 341,
    ensures
        view_pos(spec_ppu_step(p, c)) == (view_pos(p) + 1) % 89342,
        spec_ppu_step(p, c).nmi_signal == (if view_pos(spec_ppu_step(p, c))
            == vblank_entry_pos() {
            p.ppu_ctrl.nmi_enable
        } else {
            p.nmi_signal
        }),
        spec_ppu_step(p, c).ppu_status.vblank == (if view_pos(spec_ppu_step(p, c))
            == vblank_entry_pos() {
            true
        } else if view_pos(spec_ppu_step(p, c)) == 261 * 341 + 1 {
            false
        } else {
            p.ppu_status.vblank
        }),
{
    let q = spec_ppu_step(p, c);
    assert(view_pos(p) < 89342) by (nonlinear_arith)
        requires
            p.scanline < 262 && p.dot < 341,
    ;
    if p.dot == 340 {
        if p.scanline == 261 {
            assert(view_pos(p) == 89341) by (nonlinear_arith)
                requires
                    p.scanline == 261 && p.dot == 340,
            ;
            assert(view_pos(q) == 0);
            assert((89341int + 1) % 89342 == 0);
        } else {
            assert(view_pos(q) == (p.scanline + 1) * 341) by (nonlinear_arith)
                requires
                    q.scanline == p.scanline + 1 && q.dot == 0,
            ;
            assert((p.scanline + 1) * 341 == view_pos(p) + 1) by (nonlinear_arith)
                requires
                    p.dot == 340,
            ;
            vstd::arithmetic::div_mod::lemma_small_mod((view_pos(p) + 1) as nat, 89342);
        }
    } else {
        vstd::arithmetic::div_mod::lemma_small_mod((view_pos(p) + 1) as nat, 89342);
    }
    assert(q.scanline == 241 && q.dot == 1 <==> view_pos(q) == vblank_entry_pos())
        by (nonlinear_arith)
        requires
            q.scanline < 262 && q.dot < 341 && view_pos(q) == q.scanline * 341 + q.dot,
    ;
    assert(q.scanline == 261 && q.dot == 1 <==> view_pos(q) == 261 * 341 + 1)
        by (nonlinear_arith)
        requires
            q.scanline < 262 && q.dot < 341 && view_pos(q) == q.scanline * 341 + q.dot,
    ;
}

/// Within any window of one frame's worth of steps there is at most one step
/// at which VBlank entry happens: two step counts in `1..=89342` that both
/// land on the entry position are the same count. With the previous lemma,
/// this is the sense in which at most one interrupt is raised per frame.
pub proof fn lemma_one_vblank_entry_per_frame(pos0: int, k1: int, k2: int)
    requires
        0 <= pos0 < 89342,
        1 <= k1 <= 89342,
        1 <= k2 <= 89342,
        (pos0 + k1) % 89342 == vblank_entry_pos(),
        (pos0 + k2) % 89342 == vblank_entry_pos(),
    ensures
        k1 == k2,
{
    vstd::arithmetic::div_mod::lemma_mod_twice(pos0 + k1, 89342);
    vstd::arithmetic::div_mod::lemma_mod_twice(pos0 + k2, 89342);
    if k1 != k2 {
        vstd::arithmetic::div_mod::lemma_fundamental_div_mod(pos0 + k1, 89342);
        vstd::arithmetic::div_mod::lemma_fundamental_div_mod(pos0 + k2, 89342);
        let d1 = (pos0 + k1) / 89342;
        let d2 = (pos0 + k2) / 89342;
        assert(k1 - k2 == 89342 * (d1 - d2));
        assert(0 <= pos0 + k1 < 2 * 89342 && 0 <= pos0 + k2 < 2 * 89342);
        vstd::arithmetic::div_mod::lemma_div_pos_is_pos(pos0 + k1, 89342);
        vstd::arithmetic::div_mod::lemma_div_pos_is_pos(pos0 + k2, 89342);
        assert(d1 < 2 && d2 < 2) by (nonlinear_arith)
            requires
                d1 == (pos0 + k1) / 89342 && d2 == (pos0 + k2) / 89342 && 0 <= pos0 + k1 < 2
                    * 89342 && 0 <= pos0 + k2 < 2 * 89342,
        ;
        assert(false) by (nonlinear_arith)
            requires
                k1 - k2 == 89342 * (d1 - d2) && 0 <= d1 < 2 && 0 <= d2 < 2 && 1 <= k1 <= 89342
                    && 1 <= k2 <= 89342 && k1 != k2,
        ;
    }
}

/// In any window of one frame's worth of steps there is at least one step at
/// which the position lands on VBlank entry: the step count it takes from a
/// given position.
pub proof fn lemma_vblank_entry_reached(pos0: int) -> (k: int)
    requires
        0 <= pos0 < 89342,
    ensures
        1 <= k <= 89342,
        (pos0 + k) % 89342 == vblank_entry_pos(),
{
    let target = vblank_entry_pos();
    let k = if target > pos0 {
        target - pos0
    } else {
        target + 89342 - pos0
    };
    if target > pos0 {
        vstd::arithmetic::div_mod::lemma_small_mod(target as nat, 89342);
    } else {
        assert((target + 89342) % 89342 == target % 89342) by {
            vstd::arithmetic::div_mod::lemma_mod_add_multiples_vanish(target, 89342);
        }
        vstd::arithmetic::div_mod::lemma_small_mod(target as nat, 89342);
    }
    k
}

/// One pixel of an 8 by 8 tile rendered from its sixteen bytes: two bit
/// planes eight bytes apart, combined into a two-bit palette index.
pub open spec fn tile_pixel(tile: Seq<u8>, pal: Seq<Color>, x: int, y: int) -> Pixel {
    let b0 = tile[y];
    let b1 = tile[y + 8];
    let sh = (7 - x) as u8;
    let bit0 = (b0 >> sh) & 1;
    let bit1 = (b1 >> sh) & 1;
    let c = pal[(bit0 | (bit1 << 1)) as int];
    Pixel { r: c.r, g: c.g, b: c.b, a: 0xFF }
}

/// Whether framebuffer cell `k` lies in the 8 by 8 block whose top-left
/// pixel is at column `px`, row `py`.
pub open spec fn tile_region(k: int, px: int, py: int) -> bool {
    px <= k % 256 < px + 8 && py <= k / 256 < py + 8
}

/// Draw one 8 by 8 tile into the framebuffer at tile coordinates
/// `(tx, ty)`, offset by `(ox, oy)` pixels.
pub fn draw_tile(
    tile_data: &Vec<u8>,
    output: &mut Vec<Pixel>,
    tx: usize,
    ty: usize,
    ox: usize,
    oy: usize,
    palette: &Palette,
)
    requires
        tile_data@.len() == 16,
        old(output)@.len() == 61440,
        palette.wf(),
        tx * 8 + ox + 8 <= 256,
        ty * 8 + oy + 8 <= 240,
    ensures
        final(output)@.len() == 61440,
        forall|k: int|
            0 <= k < 61440 ==> #[trigger] final(output)@[k] == (if tile_region(
                k,
                (tx * 8 + ox) as int,
                (ty * 8 + oy) as int,
            ) {
                tile_pixel(
                    tile_data@,
                    palette@,
                    k % 256 - (tx * 8 + ox),
                    k / 256 - (ty * 8 + oy),
                )
            } else {
                old(output)@[k]
            }),
{
    let px = tx * 8 + ox;
    let py = ty * 8 + oy;
    let mut y: usize = 0;
    while y < 8
        invariant
            y <= 8,
            px == tx * 8 + ox,
            py == ty * 8 + oy,
            px + 8 <= 256,
            py + 8 <= 240,
            tile_data@.len() == 16,
            palette.wf(),
            output@.len() == 61440,
            forall|k: int|
                0 <= k < 61440 ==> #[trigger] output@[k] == (if tile_region(
                    k,
                    px as int,
                    py as int,
                ) && k / 256 - py < y {
                    tile_pixel(tile_data@, palette@, k % 256 - px, k / 256 - py)
                } else {
                    old(output)@[k]
                }),
        decreases 8 - y,
    {
        let mut x: usize = 0;
        while x < 8
            invariant
                y < 8,
                x <= 8,
                px == tx * 8 + ox,
                py == ty * 8 + oy,
                px + 8 <= 256,
                py + 8 <= 240,
                tile_data@.len() == 16,
                palette.wf(),
                output@.len() == 61440,
                forall|k: int|
                    0 <= k < 61440 ==> #[trigger] output@[k] == (if tile_region(
                        k,
                        px as int,
                        py as int,
                    ) && (k / 256 - py < y || (k / 256 - py == y && k % 256 - px < x)) {
                        tile_pixel(tile_data@, palette@, k % 256 - px, k / 256 - py)
                    } else {
                        old(output)@[k]
                    }),
            decreases 8 - x,
        {
            let b0 = tile_data[y];
            let b1 = tile_data[y + 8];
            let sh: u8 = (7 - x) as u8;
            let bit0 = (b0 >> sh) & 1;
            let bit1 = (b1 >> sh) & 1;
            let v = bit0 | (bit1 << 1);
            proof {
                let l = b0;
                let h = b1;
                assert((l >> sh) & 1 < 2 && (h >> sh) & 1 < 2) by (bit_vector);
                let a = bit0;
                let b = bit1;
                assert(a < 2 && b < 2 ==> (a | (b << 1)) < 4) by (bit_vector);
            }
            let c = palette.color(v as usize);
            let k = (py + y) * 256 + (px + x);
            output.set(k, Pixel { r: c.r, g: c.g, b: c.b, a: 0xFF });
            proof {
                assert(k / 256 == py + y && k % 256 == px + x) by (nonlinear_arith)
                    requires
                        k == (py + y) * 256 + (px + x) && px + x < 256 && py + y < 240,
                ;
            }
            x += 1;
        }
        y += 1;
    }
}

/// One pixel of the palette strip: sixteen 16 by 8 swatches per row, four
/// rows, one palette entry each.
pub open spec fn palette_sample(pal: Seq<Color>, y: int, x: int) -> Pixel {
    let c = pal[(y / 8) * 16 + x / 16];
    Pixel { r: c.r, g: c.g, b: c.b, a: 0xFF }
}

/// Draw the 64 palette entries as a strip of swatches across the bottom 32
/// rows of the framebuffer.
pub fn draw_palette(output: &mut Vec<Pixel>, palette: &Palette)
    requires
        old(output)@.len() == 61440,
        palette.wf(),
    ensures
        final(output)@.len() == 61440,
        forall|k: int|
            0 <= k < 61440 ==> #[trigger] final(output)@[k] == (if k / 256 >= 208 {
                palette_sample(palette@, k / 256 - 208, k % 256)
            } else {
                old(output)@[k]
            }),
{
    let mut y: usize = 0;
    while y < 32
        invariant
            y <= 32,
            palette.wf(),
            output@.len() == 61440,
            forall|k: int|
                0 <= k < 61440 ==> #[trigger] output@[k] == (if 208 <= k / 256 < 208 + y {
                    palette_sample(palette@, k / 256 - 208, k % 256)
                } else {
                    old(output)@[k]
                }),
        decreases 32 - y,
    {
        let mut x: usize = 0;
        while x < 256
            invariant
                y < 32,
                x <= 256,
                palette.wf(),
                output@.len() == 61440,
                forall|k: int|
                    0 <= k < 61440 ==> #[trigger] output@[k] == (if 208 <= k / 256 < 208 + y || (
                    k / 256 == 208 + y && k % 256 < x) {
                        palette_sample(palette@, k / 256 - 208, k % 256)
                    } else {
                        old(output)@[k]
                    }),
            decreases 256 - x,
        {
            proof {
                assert((y as int / 8) * 16 + x as int / 16 < 64) by (nonlinear_arith)
                    requires
                        y < 32 && x < 256,
                ;
            }
            let c = palette.color((y / 8) * 16 + x / 16);
            let k = (208 + y) * 256 + x;
            output.set(k, Pixel { r: c.r, g: c.g, b: c.b, a: 0xFF });
            proof {
                assert(k / 256 == 208 + y && k % 256 == x) by (nonlinear_arith)
                    requires
                        k == (208 + y) * 256 + x && x < 256 && y < 32,
                ;
            }
            x += 1;
        }
        y += 1;
    }
}

impl Ppu {
    /// Draw the two 128 by 128 pattern-table banks side by side into the
    /// top of the framebuffer, and the palette strip across the bottom: a
    /// debugging view of character memory. Registers, memories and position
    /// are untouched; only the framebuffer changes.
    pub fn draw_debug(&mut self, cart: &Cart)
        requires
            old(self).wf(),
            cart.wf(),
        ensures
            final(self).wf(),
            final(self)@ == (PpuView { output: final(self)@.output, ..old(self)@ }),
    {
        let mut ty: usize = 0;
        while ty < 16
            invariant
                ty <= 16,
                self.wf(),
                cart.wf(),
                self@ == (PpuView { output: self@.output, ..old(self)@ }),
            decreases 16 - ty,
        {
            let mut tx: usize = 0;
            while tx < 16
                invariant
                    ty < 16,
                    tx <= 16,
                    self.wf(),
                    cart.wf(),
                    self@ == (PpuView { output: self@.output, ..old(self)@ }),
                decreases 16 - tx,
            {
                let base = (ty * 16 + tx) * 16;
                let mut tile: Vec<u8> = Vec::new();
                let mut i: usize = 0;
                while i < 16
                    invariant
                        i <= 16,
                        tile@.len() == i,
                        ty < 16,
                        tx < 16,
                        base == (ty * 16 + tx) * 16,
                        self.wf(),
                        cart.wf(),
                    decreases 16 - i,
                {
                    let addr = (base + i) as u16;
                    proof {
                        assert(base + i < 0x1000) by (nonlinear_arith)
                            requires
                                base == (ty * 16 + tx) * 16 && ty < 16 && tx < 16 && i < 16,
                        ;
                    }
                    tile.push(self.bus.read(cart, addr));
                    i += 1;
                }
                draw_tile(&tile, &mut self.output, tx, ty, 0, 0, &self.color_palette);
                let mut right: Vec<u8> = Vec::new();
                let mut j: usize = 0;
                while j < 16
                    invariant
                        j <= 16,
                        right@.len() == j,
                        ty < 16,
                        tx < 16,
                        base == (ty * 16 + tx) * 16,
                        self.wf(),
                        cart.wf(),
                    decreases 16 - j,
                {
                    proof {
                        assert(base + j < 0x1000) by (nonlinear_arith)
                            requires
                                base == (ty * 16 + tx) * 16 && ty < 16 && tx < 16 && j < 16,
                        ;
                    }
                    let addr = ((base + j) as u16) | 0x1000;
                    proof {
                        let a = (base + j) as u16;
                        assert(a < 0x1000 ==> (a | 0x1000) < 0x2000) by (bit_vector);
                    }
                    right.push(self.bus.read(cart, addr));
                    j += 1;
                }
                draw_tile(&right, &mut self.output, tx, ty, 128, 0, &self.color_palette);
                tx += 1;
            }
            ty += 1;
        }
        draw_palette(&mut self.output, &self.color_palette);
    }
}

} // verus!
