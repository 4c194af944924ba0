//! The console: the CPU, the CPU-side bus (which owns the PPU and the
//! cartridge slot), and the lockstep clocking of three PPU dots per CPU
//! cycle.

use vstd::prelude::*;

use crate::cpu::{
    lemma_nmi_bus_touches_ram_only, spec_nmi_bus, spec_nmi_cpu, wrap_add64, wrap_inc64, Cpu,
    EmuError,
};
use crate::cpu_bus::spec_cpu_read_val;
use crate::cpu_bus::{CpuBus, CpuBusView};
use crate::hexfmt::{dec_rep, hex2, push_dec, push_hex2};
use crate::cpu_bus::spec_cpu_peek;
use crate::disasm::{Instruction, Operand};
use crate::optable::{op_for, optable, Mnemonic};
use crate::ppu::{dots_until_entry, spec_ppu_step, vblank_entry_pos, view_pos, PpuView};
use crate::regs::status_to_byte;

verus! {

/// The whole system: CPU and the bus tree that holds everything else.
pub struct Console {
    /// The CPU.
    pub cpu: Cpu,
    /// The CPU-side bus: work RAM, the PPU and its memories, the cartridge.
    pub cpu_bus: CpuBus,
}

/// The console after one PPU dot: the PPU advances, and a raised interrupt
/// signal is moved into the CPU's latch the same step.
pub open spec fn spec_console_dot(c: Cpu, b: CpuBusView) -> (Cpu, CpuBusView) {
    let p2 = spec_ppu_step(b.ppu, b.cart->Some_0);
    if p2.nmi_signal {
        (
            Cpu { nmi_triggered: true, ..c },
            CpuBusView { ppu: PpuView { nmi_signal: false, ..p2 }, ..b },
        )
    } else {
        (c, CpuBusView { ppu: p2, ..b })
    }
}

/// The console after the three PPU dots that precede one CPU cycle.
pub open spec fn spec_console_dots3(c: Cpu, b: CpuBusView) -> (Cpu, CpuBusView) {
    let s1 = spec_console_dot(c, b);
    let s2 = spec_console_dot(s1.0, s1.1);
    spec_console_dot(s2.0, s2.1)
}

/// One console dot, observed: the PPU position advances by one dot and the
/// distance to the next VBlank entry shrinks by one (wrapping over a whole
/// frame at the entry itself); the interrupt signal never survives the dot,
/// the control register, memories and cartridge stand, and the CPU is
/// untouched except that the dot that lands on the entry with interrupts
/// enabled sets the latch.
pub proof fn lemma_console_dot_progress(c: Cpu, b: CpuBusView)
    requires
        b.ppu.scanline < 262,
        b.ppu.dot < 341,
    ensures
        ({
            let s = spec_console_dot(c, b);
            &&& s.1.ppu.scanline < 262 && s.1.ppu.dot < 341
            &&& !s.1.ppu.nmi_signal
            &&& s.1.ppu.ppu_ctrl == b.ppu.ppu_ctrl
            &&& s.1.ram == b.ram && s.1.cart == b.cart
            &&& view_pos(s.1.ppu) == (view_pos(b.ppu) + 1) % 89342
            &&& s.0.cycles == c.cycles && s.0.clock_count == c.clock_count && s.0.reg == c.reg
                && s.0.ops == c.ops
            &&& (s.0 == c || s.0 == (Cpu { nmi_triggered: true, ..c }))
            &&& (!b.ppu.nmi_signal ==> s.0 == (if dots_until_entry(b.ppu) == 1
                && b.ppu.ppu_ctrl.nmi_enable {
                Cpu { nmi_triggered: true, ..c }
            } else {
                c
            }))
            &&& (!b.ppu.nmi_signal ==> dots_until_entry(s.1.ppu) == (if dots_until_entry(b.ppu)
                == 1 {
                89342int
            } else {
                dots_until_entry(b.ppu) - 1
            }))
        }),
{
    crate::ppu::lemma_step_position(b.ppu, b.cart->Some_0);
    let pos = view_pos(b.ppu);
    assert(0 <= pos < 89342) by (nonlinear_arith)
        requires
            b.ppu.scanline < 262 && b.ppu.dot < 341 && pos == b.ppu.scanline * 341 + b.ppu.dot,
    ;
    let p2 = spec_ppu_step(b.ppu, b.cart->Some_0);
    if pos == 89341 {
        assert(view_pos(p2) == 0) by {
            vstd::arithmetic::div_mod::lemma_mod_self_0(89342);
        }
    } else {
        vstd::arithmetic::div_mod::lemma_small_mod((pos + 1) as nat, 89342);
    }
    assert(p2.scanline < 262 && p2.dot < 341) by (nonlinear_arith)
        requires
            0 <= view_pos(p2) < 89342 && view_pos(p2) == p2.scanline * 341 + p2.dot && p2.dot
                < 341 && p2.scanline < 262,
    ;
}

/// Three console dots, observed: the position advances by three, the
/// entry distance shrinks by three (wrapping over a frame when the entry
/// falls inside the window), and the CPU latch is set exactly when the
/// entry fell inside the window with interrupts enabled.
pub proof fn lemma_console_dots3_progress(c: Cpu, b: CpuBusView)
    requires
        b.ppu.scanline < 262,
        b.ppu.dot < 341,
        !b.ppu.nmi_signal,
        !c.nmi_triggered,
    ensures
        ({
            let s = spec_console_dots3(c, b);
            &&& s.1.ppu.scanline < 262 && s.1.ppu.dot < 341
            &&& !s.1.ppu.nmi_signal
            &&& s.1.ppu.ppu_ctrl == b.ppu.ppu_ctrl
            &&& s.1.ram == b.ram && s.1.cart == b.cart
            &&& s.0.cycles == c.cycles && s.0.clock_count == c.clock_count && s.0.reg == c.reg
                && s.0.ops == c.ops
            &&& (s.0.nmi_triggered <==> dots_until_entry(b.ppu) <= 3
                && b.ppu.ppu_ctrl.nmi_enable)
            &&& s.0 == (if s.0.nmi_triggered {
                Cpu { nmi_triggered: true, ..c }
            } else {
                c
            })
            &&& view_pos(s.1.ppu) == (view_pos(b.ppu) + 3) % 89342
            &&& dots_until_entry(s.1.ppu) == (if dots_until_entry(b.ppu) <= 3 {
                dots_until_entry(b.ppu) + 89342 - 3
            } else {
                dots_until_entry(b.ppu) - 3
            })
        }),
{
    let s1 = spec_console_dot(c, b);
    lemma_console_dot_progress(c, b);
    let s2 = spec_console_dot(s1.0, s1.1);
    lemma_console_dot_progress(s1.0, s1.1);
    let s3 = spec_console_dot(s2.0, s2.1);
    lemma_console_dot_progress(s2.0, s2.1);
    let m = 89342int;
    let pos = view_pos(b.ppu);
    vstd::arithmetic::div_mod::lemma_add_mod_noop(pos + 1, 1, m);
    vstd::arithmetic::div_mod::lemma_small_mod(1nat, m as nat);
    vstd::arithmetic::div_mod::lemma_mod_twice(pos + 1, m);
    vstd::arithmetic::div_mod::lemma_add_mod_noop(pos + 2, 1, m);
    vstd::arithmetic::div_mod::lemma_mod_twice(pos + 2, m);
}

/// Three console dots when the latch may already stand: the position and
/// entry distance move as in the clean case, and the latch holds afterwards
/// exactly when it held before or the entry fell inside the window with
/// interrupts enabled.
pub proof fn lemma_console_dots3_progress_weak(c: Cpu, b: CpuBusView)
    requires
        b.ppu.scanline < 262,
        b.ppu.dot < 341,
        !b.ppu.nmi_signal,
    ensures
        ({
            let s = spec_console_dots3(c, b);
            &&& s.1.ppu.scanline < 262 && s.1.ppu.dot < 341
            &&& !s.1.ppu.nmi_signal
            &&& s.1.ppu.ppu_ctrl == b.ppu.ppu_ctrl
            &&& s.1.ram == b.ram && s.1.cart == b.cart
            &&& s.0.cycles == c.cycles && s.0.clock_count == c.clock_count && s.0.reg == c.reg
                && s.0.ops == c.ops
            &&& (s.0.nmi_triggered <==> c.nmi_triggered || (dots_until_entry(b.ppu) <= 3
                && b.ppu.ppu_ctrl.nmi_enable))
            &&& s.0 == (if s.0.nmi_triggered {
                Cpu { nmi_triggered: true, ..c }
            } else {
                c
            })
            &&& view_pos(s.1.ppu) == (view_pos(b.ppu) + 3) % 89342
            &&& dots_until_entry(s.1.ppu) == (if dots_until_entry(b.ppu) <= 3 {
                dots_until_entry(b.ppu) + 89342 - 3
            } else {
                dots_until_entry(b.ppu) - 3
            })
        }),
{
    let s1 = spec_console_dot(c, b);
    lemma_console_dot_progress(c, b);
    let s2 = spec_console_dot(s1.0, s1.1);
    lemma_console_dot_progress(s1.0, s1.1);
    let s3 = spec_console_dot(s2.0, s2.1);
    lemma_console_dot_progress(s2.0, s2.1);
    let m = 89342int;
    let pos = view_pos(b.ppu);
    vstd::arithmetic::div_mod::lemma_add_mod_noop(pos + 1, 1, m);
    vstd::arithmetic::div_mod::lemma_small_mod(1nat, m as nat);
    vstd::arithmetic::div_mod::lemma_mod_twice(pos + 1, m);
    vstd::arithmetic::div_mod::lemma_add_mod_noop(pos + 2, 1, m);
    vstd::arithmetic::div_mod::lemma_mod_twice(pos + 2, m);
}

impl Console {
    /// The structural invariant: the bus tree is well-formed.
    pub open spec fn wf(&self) -> bool {
        self.cpu_bus.wf()
    }

    /// Whether a cartridge is inserted.
    pub open spec fn has_cart(&self) -> bool {
        self.cpu_bus.has_cart()
    }

    /// A fresh console: powered-off CPU, zeroed work and video memories, a
    /// PPU at the pre-render line, no cartridge.
    pub fn new() -> (r: Console)
        ensures
            r.wf(),
            !r.has_cart(),
            r.cpu == Cpu::spec_powered_off(),
            forall|i: int| 0 <= i < 0x800 ==> r.cpu_bus@.ram[i] == 0,
            forall|i: int| 0 <= i < 0x800 ==> r.cpu_bus@.ppu.bus.vram[i] == 0,
            forall|i: int| 0 <= i < 32 ==> r.cpu_bus@.ppu.bus.palette_ram[i] == 0,
            r.cpu_bus@.ppu.scanline == 261 && r.cpu_bus@.ppu.dot == 0,
            r.cpu_bus@.ppu.clock_count == 0 && !r.cpu_bus@.ppu.nmi_signal,
            !r.cpu_bus@.ppu.write_toggle,
    {
        Console { cpu: Cpu::new(), cpu_bus: CpuBus::new() }
    }

    /// Insert a cartridge.
    pub fn insert_cart(&mut self, cart: crate::cart::Cart)
        requires
            old(self).wf(),
            cart.wf(),
        ensures
            final(self).wf(),
            final(self).has_cart(),
            final(self).cpu == old(self).cpu,
            final(self).cpu_bus@ == (CpuBusView { cart: Some(cart@), ..old(self).cpu_bus@ }),
    {
        self.cpu_bus.cart = Some(cart);
    }

    /// Reset the CPU through the reset vector.
    pub fn reset(&mut self)
        requires
            old(self).wf(),
            old(self).has_cart(),
        ensures
            final(self).wf(),
            final(self).has_cart(),
            final(self).cpu_bus@ == old(self).cpu_bus@,
            final(self).cpu.reg.S == 0xFD && final(self).cpu.reg.P.interrupt && final(self).cpu.cycles == 7,
            final(self).cpu.reg.PC == (spec_cpu_read_val(old(self).cpu_bus@, 0xFFFC) as u16 | ((
            spec_cpu_read_val(old(self).cpu_bus@, 0xFFFD) as u16) << 8)) as u16,
    {
        self.cpu.reset(&mut self.cpu_bus);
    }

    /// Reset the CPU to a caller-chosen target address.
    pub fn reset_to(&mut self, offset: u16)
        ensures
            final(self).cpu_bus == old(self).cpu_bus,
            final(self).cpu.reg.PC == offset && final(self).cpu.reg.S == 0xFD && final(self).cpu.reg.P.interrupt && final(self).cpu.cycles == 7 && final(self).cpu.clock_count
                == 7 && !final(self).cpu.nmi_triggered,
            final(self).cpu.reg.A == old(self).cpu.reg.A && final(self).cpu.reg.X == old(self).cpu.reg.X && final(self).cpu.reg.Y == old(self).cpu.reg.Y,
    {
        self.cpu.reset_to(offset);
    }

    /// Advance the PPU one dot and move a raised interrupt signal into the
    /// CPU's latch.
    pub fn ppu_step(&mut self)
        requires
            old(self).wf(),
            old(self).has_cart(),
        ensures
            final(self).wf(),
            final(self).has_cart(),
            (final(self).cpu, final(self).cpu_bus@) == spec_console_dot(
                old(self).cpu,
                old(self).cpu_bus@,
            ),
    {
        match &self.cpu_bus.cart {
            Some(c) => {
                self.cpu_bus.ppu.step(c);
            },
            None => {},
        }
        if self.cpu_bus.ppu.nmi_signal {
            self.cpu.nmi_triggered = true;
            self.cpu_bus.ppu.nmi_signal = false;
        }
    }

    /// One console tick: three PPU dots, each latching a raised interrupt,
    /// then one CPU cycle. A latched interrupt is serviced first, whatever
    /// the cycle budget; otherwise, at an instruction boundary the next
    /// instruction is fetched and executed in full. `Err` exactly when the
    /// CPU fetches an illegal opcode this tick.
    pub fn step(&mut self) -> (r: Result<(), EmuError>)
        requires
            old(self).wf(),
            old(self).has_cart(),
        ensures
            final(self).wf(),
            final(self).has_cart(),
            ({
                let s3 = spec_console_dots3(old(self).cpu, old(self).cpu_bus@);
                &&& s3.0.nmi_triggered ==> r is Ok && final(self).cpu == (Cpu {
                    nmi_triggered: false,
                    clock_count: wrap_inc64(s3.0.clock_count),
                    reg: spec_nmi_cpu(s3.0, s3.1).reg,
                    ..s3.0
                }) && final(self).cpu_bus@ == spec_nmi_bus(s3.0, s3.1)
                &&& !s3.0.nmi_triggered && s3.0.cycles > 0 ==> r is Ok && final(self).cpu == (Cpu {
                    cycles: (s3.0.cycles - 1) as u8,
                    clock_count: wrap_inc64(s3.0.clock_count),
                    ..s3.0
                }) && final(self).cpu_bus@ == s3.1
                &&& !s3.0.nmi_triggered && s3.0.cycles == 0 ==> ({
                    let b0 = spec_cpu_read_val(s3.1, s3.0.reg.PC);
                    let e = crate::cpu_ops::spec_exec_instruction(s3.0, s3.1);
                    &&& (r is Err <==> optable(b0).mnemonic == Mnemonic::XXX)
                    &&& (r matches Err(ee) ==> ee == EmuError::IllegalOpcode(b0))
                    &&& (r is Ok ==> final(self).cpu == (Cpu {
                        cycles: (e.0.cycles - 1) as u8,
                        clock_count: wrap_inc64(e.0.clock_count),
                        ..e.0
                    }) && final(self).cpu_bus@ == e.1 && 2 <= e.0.cycles <= 10
                        && e.0.clock_count == s3.0.clock_count && 1 <= final(self).cpu.cycles
                        <= 9 && final(self).cpu.ops == wrap_inc64(s3.0.ops) && final(self).cpu.nmi_triggered == s3.0.nmi_triggered)
                })
            }),
    {
        self.ppu_step();
        self.ppu_step();
        self.ppu_step();
        let r = self.cpu.step(&mut self.cpu_bus);
        r
    }

    /// Run console ticks until the CPU reaches an instruction boundary: a
    /// latched interrupt is serviced, or one instruction completes, or the
    /// remaining budget of the current instruction drains. Every tick moves
    /// the PPU exactly three dots before the CPU's cycle: over the whole
    /// call the CPU clock advances by the tick count and the PPU position
    /// by three dots per tick.
    pub fn next(&mut self) -> (r: Result<(), EmuError>)
        requires
            old(self).wf(),
            old(self).has_cart(),
        ensures
            final(self).wf(),
            final(self).has_cart(),
            r is Ok ==> final(self).cpu.cycles == 0,
            r is Ok ==> exists|k: int|
                0 <= k && #[trigger] wrap_add64(old(self).cpu.clock_count, k) == final(self).cpu.clock_count && view_pos(final(self).cpu_bus@.ppu) == (view_pos(
                    old(self).cpu_bus@.ppu,
                ) + 3 * k) % 89342,
    {
        if self.cpu_bus.ppu.nmi_signal {
            self.cpu.nmi_triggered = true;
            self.cpu_bus.ppu.nmi_signal = false;
        }
        let ghost pos0 = view_pos(self.cpu_bus@.ppu);
        let ghost clock0 = self.cpu.clock_count;
        let ghost mut ticks: int = 0;
        proof {
            crate::cpu::lemma_wrap_add64_zero(clock0);
            vstd::arithmetic::div_mod::lemma_small_mod(pos0 as nat, 89342);
            assert(0 <= pos0 < 89342) by (nonlinear_arith)
                requires
                    self.cpu_bus.ppu.scanline < 262 && self.cpu_bus.ppu.dot < 341 && pos0
                        == self.cpu_bus.ppu.scanline * 341 + self.cpu_bus.ppu.dot,
            ;
        }
        let r0 = self.tick_counted(Ghost(pos0), Ghost(clock0), Ghost(ticks));
        proof {
            ticks = ticks + 1;
        }
        match r0 {
            Ok(()) => {},
            Err(e) => {
                return Err(e);
            },
        }
        while self.cpu.cycles > 0
            invariant
                self.wf(),
                self.has_cart(),
                !self.cpu.nmi_triggered,
                !self.cpu_bus@.ppu.nmi_signal,
                ticks >= 0,
                self.cpu.clock_count == wrap_add64(clock0, ticks),
                view_pos(self.cpu_bus@.ppu) == (pos0 + 3 * ticks) % 89342,
            decreases self.cpu.cycles + (if self.cpu_bus@.ppu.ppu_ctrl.nmi_enable
                && dots_until_entry(self.cpu_bus@.ppu) <= 3 * self.cpu.cycles + 3 {
                1int
            } else {
                0int
            }),
        {
            let rs = self.tick_counted(Ghost(pos0), Ghost(clock0), Ghost(ticks));
            proof {
                ticks = ticks + 1;
            }
            match rs {
                Ok(()) => {},
                Err(e) => {
                    return Err(e);
                },
            }
        }
        Ok(())
    }

    /// One tick, with the ghost bookkeeping that `next` threads through its
    /// loop: the tick count rises by one, the clock follows it, the PPU
    /// position advances three dots, and neither the interrupt latch nor
    /// the signal survives the tick.
    fn tick_counted(
        &mut self,
        Ghost(pos0): Ghost<int>,
        Ghost(clock0): Ghost<u64>,
        Ghost(ticks): Ghost<int>,
    ) -> (r: Result<(), EmuError>)
        requires
            old(self).wf(),
            old(self).has_cart(),
            !old(self).cpu_bus@.ppu.nmi_signal,
            ticks >= 0,
            old(self).cpu.clock_count == wrap_add64(clock0, ticks),
            view_pos(old(self).cpu_bus@.ppu) == (pos0 + 3 * ticks) % 89342,
        ensures
            final(self).wf(),
            final(self).has_cart(),
            r is Ok ==> !final(self).cpu.nmi_triggered && !final(self).cpu_bus@.ppu.nmi_signal
                && final(self).cpu.clock_count == wrap_add64(clock0, ticks + 1) && view_pos(
                final(self).cpu_bus@.ppu,
            ) == (pos0 + 3 * (ticks + 1)) % 89342,
            r is Ok && !old(self).cpu.nmi_triggered && old(self).cpu.cycles > 0 ==> ({
                let had_fire = dots_until_entry(old(self).cpu_bus@.ppu) <= 3 && old(self).cpu_bus@.ppu.ppu_ctrl.nmi_enable;
                &&& final(self).cpu_bus@.ppu.ppu_ctrl.nmi_enable == old(self).cpu_bus@.ppu.ppu_ctrl.nmi_enable
                &&& (had_fire ==> final(self).cpu.cycles == old(self).cpu.cycles
                    && dots_until_entry(final(self).cpu_bus@.ppu) == dots_until_entry(
                    old(self).cpu_bus@.ppu,
                ) + 89342 - 3)
                &&& (!had_fire ==> final(self).cpu.cycles == old(self).cpu.cycles - 1 && (
                dots_until_entry(old(self).cpu_bus@.ppu) > 3 ==> dots_until_entry(
                    final(self).cpu_bus@.ppu,
                ) == dots_until_entry(old(self).cpu_bus@.ppu) - 3))
            }),
    {
        proof {
            lemma_console_dots3_progress_weak(old(self).cpu, old(self).cpu_bus@);
        }
        let r = self.step();
        proof {
            let s3 = spec_console_dots3(old(self).cpu, old(self).cpu_bus@);
            if r is Ok {
                crate::cpu::lemma_wrap_add64_inc(clock0, ticks);
                vstd::arithmetic::div_mod::lemma_add_mod_noop(pos0 + 3 * ticks, 3, 89342);
                vstd::arithmetic::div_mod::lemma_small_mod(3nat, 89342);
                vstd::arithmetic::div_mod::lemma_mod_twice(pos0 + 3 * ticks, 89342);
                if s3.0.nmi_triggered {
                    lemma_nmi_bus_touches_ram_only(s3.0, s3.1);
                } else if s3.0.cycles == 0 {
                    crate::cpu_ops::lemma_exec_keeps_position(s3.0, s3.1);
                }
            }
        }
        r
    }

    /// The instruction the trace shows at the program counter, decoded from
    /// side-effect-free reads.
    pub open spec fn spec_instr_at(b: CpuBusView, pc: u16) -> Instruction {
        let op = optable(spec_cpu_peek(b, pc));
        Instruction {
            op,
            operand: if op.size == 1 {
                Operand::Null
            } else if op.size == 2 {
                Operand::Byte(spec_cpu_peek(b, crate::cpu::wrap_add16(pc, 1)))
            } else {
                Operand::Word(
                    (spec_cpu_peek(b, crate::cpu::wrap_add16(pc, 1)) as u16 | ((spec_cpu_peek(
                        b,
                        crate::cpu::wrap_add16(pc, 2),
                    ) as u16) << 8)) as u16,
                )
            },
            offset: pc,
        }
    }

    /// One line of the execution trace: the instruction at the program
    /// counter, the registers, the packed status, the stack pointer, the
    /// cycle count, and the PPU position. A pure rendering of the state;
    /// two equal states give equal lines.
    pub fn trace_line(&self) -> (r: String)
        requires
            self.wf(),
            self.has_cart(),
        ensures
            r@ == spec_trace_line(self.cpu, self.cpu_bus@),
    {
        let pc = self.cpu.reg.PC;
        let b0 = self.cpu_bus.peek(pc);
        let op = op_for(b0);
        proof {
            crate::optable::lemma_optable_wf(b0);
        }
        let operand = if op.size == 1 {
            Operand::Null
        } else if op.size == 2 {
            Operand::Byte(self.cpu_bus.peek(crate::cpu::wrap_add16_exec(pc, 1)))
        } else {
            let lo = self.cpu_bus.peek(crate::cpu::wrap_add16_exec(pc, 1));
            let hi = self.cpu_bus.peek(crate::cpu::wrap_add16_exec(pc, 2));
            Operand::Word(lo as u16 | ((hi as u16) << 8))
        };
        let instr = Instruction { op, operand, offset: pc };
        let mut s = instr.render(true);
        s.append("  A:");
        push_hex2(&mut s, self.cpu.reg.A, true);
        s.append(" X:");
        push_hex2(&mut s, self.cpu.reg.X, true);
        s.append(" Y:");
        push_hex2(&mut s, self.cpu.reg.Y, true);
        s.append(" P:");
        let p = crate::regs::RegStatus::to_byte(&self.cpu.reg.P);
        push_hex2(&mut s, p, true);
        s.append(" SP:");
        push_hex2(&mut s, self.cpu.reg.S, true);
        s.append("  CYC:");
        push_dec(&mut s, self.cpu.clock_count);
        s.append(" SL:");
        push_dec(&mut s, self.cpu_bus.ppu.scanline as u64);
        s.append(" D:");
        push_dec(&mut s, self.cpu_bus.ppu.dot as u64);
        proof {
            assert(s@ =~= spec_trace_line(self.cpu, self.cpu_bus@));
        }
        s
    }
}

/// The trace line a console state renders to.
pub open spec fn spec_trace_line(c: Cpu, b: CpuBusView) -> Seq<char> {
    Console::spec_instr_at(b, c.reg.PC).text_spec(true) + "  A:"@ + hex2(c.reg.A, true) + " X:"@
        + hex2(c.reg.X, true) + " Y:"@ + hex2(c.reg.Y, true) + " P:"@ + hex2(
        status_to_byte(c.reg.P),
        true,
    ) + " SP:"@ + hex2(c.reg.S, true) + "  CYC:"@ + dec_rep(c.clock_count as nat) + " SL:"@
        + dec_rep(b.ppu.scanline as nat) + " D:"@ + dec_rep(b.ppu.dot as nat)
}

} // verus!
