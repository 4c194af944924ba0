//! The 6502-class CPU core: fetch, decode through the instruction table,
//! addressing-mode resolution, stack discipline, interrupts, and the cycle
//! budget.

use vstd::prelude::*;

use crate::cpu_bus::{
    spec_cpu_read_state, spec_cpu_read_val, spec_cpu_write, CpuBus, CpuBusView,
};
use crate::disasm::{operand_matches, Instruction, Operand};
use crate::optable::{
    mode_len, op_for, optable, spec_cycle_penalty, AddrMode, Mnemonic, Operation,
};
use crate::regs::{status_from_byte, status_to_byte, Reg, RegStatus};

verus! {

/// A fatal condition the core surfaces instead of recovering from.
#[derive(Clone, Copy, Debug, PartialEq, Eq, Structural)]
pub enum EmuError {
    /// An opcode the instruction table marks illegal was fetched.
    IllegalOpcode(u8),
}

/// Where an instruction's operand lives after addressing-mode resolution.
#[derive(Clone, Copy, Debug, PartialEq, Eq, Structural)]
pub enum InstructionTarget {
    /// No explicit target; the operation's target is implied.
    Null,
    /// The accumulator.
    Accumulator,
    /// The operand byte itself.
    Immediate(u8),
    /// A resolved memory address.
    MemoryAddress(u16),
}

/// The CPU: registers, cycle budget, penalty accumulators, interrupt latch,
/// and the cumulative clock.
#[derive(Clone, Copy, Debug, PartialEq, Eq, Structural)]
pub struct Cpu {
    /// The register file.
    pub reg: Reg,
    /// Cycles left before the next instruction fetch; 0 at an instruction
    /// boundary.
    pub cycles: u8,
    /// Instructions executed so far.
    pub ops: u64,
    /// Extra cycles the current instruction's taken branch cost: 0, 1 or 2.
    pub extra_cycles_branch: u8,
    /// Whether the current instruction's addressing crossed a page: 0 or 1.
    pub extra_cycles_page_bounds: u8,
    /// The non-maskable interrupt latch, filled by the console from the PPU.
    pub nmi_triggered: bool,
    /// Cycles elapsed since reset.
    pub clock_count: u64,
}

/// A byte value decremented with wrap-around.
pub open spec fn wrap_dec8(v: u8) -> u8 {
    if v == 0 {
        0xFFu8
    } else {
        (v - 1) as u8
    }
}

/// A byte value incremented with wrap-around.
pub open spec fn wrap_inc8(v: u8) -> u8 {
    if v == 0xFF {
        0u8
    } else {
        (v + 1) as u8
    }
}

/// A 16-bit sum with wrap-around.
pub open spec fn wrap_add16(x: u16, y: u16) -> u16 {
    ((x + y) % 0x10000) as u16
}

/// Compute a 16-bit sum with wrap-around.
pub fn wrap_add16_exec(x: u16, y: u16) -> (r: u16)
    ensures
        r == wrap_add16(x, y),
{
    let r = x.wrapping_add(y);
    proof {
        if x + y < 0x10000 {
            vstd::arithmetic::div_mod::lemma_small_mod((x + y) as nat, 0x10000);
        } else {
            let d = x + y - 0x10000;
            vstd::arithmetic::div_mod::lemma_small_mod(d as nat, 0x10000);
            vstd::arithmetic::div_mod::lemma_mod_add_multiples_vanish(d, 0x10000);
        }
    }
    r
}

/// The low byte of a zero-page sum: addresses formed inside the zero page
/// wrap at 256.
pub open spec fn zp_wrap(x: int) -> u16 {
    (x % 256) as u16
}

/// The stack cell the stack pointer names: page 1 at the pointer's low
/// byte.
pub open spec fn stack_addr(s: u8) -> u16 {
    (0x0100 + s) as u16
}

/// The bus after one stack push at stack pointer `s`.
pub open spec fn spec_push(b: CpuBusView, s: u8, v: u8) -> CpuBusView {
    spec_cpu_write(b, stack_addr(s), v)
}

/// The byte a pop reads once the stack pointer has risen to `s`.
pub open spec fn spec_pop_val(b: CpuBusView, s: u8) -> u8 {
    spec_cpu_read_val(b, stack_addr(s))
}

/// The value an instruction target yields.
pub open spec fn spec_fetch_val(cpu: Cpu, b: CpuBusView, t: InstructionTarget) -> u8 {
    match t {
        InstructionTarget::Null => 0,
        InstructionTarget::Accumulator => cpu.reg.A,
        InstructionTarget::Immediate(v) => v,
        InstructionTarget::MemoryAddress(a) => spec_cpu_read_val(b, a),
    }
}

/// The bus after an instruction target is fetched: only a memory target
/// touches the bus.
pub open spec fn spec_fetch_bus(b: CpuBusView, t: InstructionTarget) -> CpuBusView {
    match t {
        InstructionTarget::MemoryAddress(a) => spec_cpu_read_state(b, a),
        _ => b,
    }
}

/// The bus after a value is stored to an instruction target.
pub open spec fn spec_store_bus(b: CpuBusView, t: InstructionTarget, v: u8) -> CpuBusView {
    match t {
        InstructionTarget::MemoryAddress(a) => spec_cpu_write(b, a, v),
        _ => b,
    }
}

/// The CPU after a value is stored to an instruction target: only the
/// accumulator target changes the CPU.
pub open spec fn spec_store_cpu(cpu: Cpu, t: InstructionTarget, v: u8) -> Cpu {
    match t {
        InstructionTarget::Accumulator => Cpu { reg: Reg { A: v, ..cpu.reg }, ..cpu },
        _ => cpu,
    }
}

/// The zero and negative flags an operation result sets.
pub open spec fn nz_flags(p: RegStatus, v: u8) -> RegStatus {
    RegStatus { zero: v == 0, negative: v & 0x80 != 0, ..p }
}

/// The resolved target of one addressing mode, before any penalty
/// bookkeeping.
pub open spec fn spec_resolve_target(
    cpu: Cpu,
    b: CpuBusView,
    mode: AddrMode,
    operand: Operand,
) -> InstructionTarget {
    match mode {
        AddrMode::Accum => InstructionTarget::Accumulator,
        AddrMode::Implied => InstructionTarget::Null,
        AddrMode::Imm => InstructionTarget::Immediate(operand->Byte_0),
        AddrMode::Absolute => InstructionTarget::MemoryAddress(operand->Word_0),
        AddrMode::ZP => InstructionTarget::MemoryAddress(operand->Byte_0 as u16),
        AddrMode::IdxZPX => InstructionTarget::MemoryAddress(
            zp_wrap(operand->Byte_0 + cpu.reg.X),
        ),
        AddrMode::IdxZPY => InstructionTarget::MemoryAddress(
            zp_wrap(operand->Byte_0 + cpu.reg.Y),
        ),
        AddrMode::IdxAbsX => InstructionTarget::MemoryAddress(
            wrap_add16(operand->Word_0, cpu.reg.X as u16),
        ),
        AddrMode::IdxAbsY => InstructionTarget::MemoryAddress(
            wrap_add16(operand->Word_0, cpu.reg.Y as u16),
        ),
        AddrMode::Relative => InstructionTarget::MemoryAddress(
            wrap_add16(cpu.reg.PC, sign_extend(operand->Byte_0)),
        ),
        AddrMode::IdxIndX => InstructionTarget::MemoryAddress(
            {
                let zp = zp_wrap(operand->Byte_0 + cpu.reg.X);
                let lo = spec_cpu_read_val(b, zp);
                let hi = spec_cpu_read_val(b, zp_wrap(zp + 1));
                (lo as u16 | ((hi as u16) << 8)) as u16
            },
        ),
        AddrMode::IndIdxY => InstructionTarget::MemoryAddress(
            wrap_add16(indirect_base(b, operand->Byte_0), cpu.reg.Y as u16),
        ),
        AddrMode::Indirect => InstructionTarget::MemoryAddress(
            {
                let loc = operand->Word_0;
                let lo = spec_cpu_read_val(b, loc);
                let hi = spec_cpu_read_val(
                    spec_cpu_read_state(b, loc),
                    indirect_bug_high_addr(loc),
                );
                (lo as u16 | ((hi as u16) << 8)) as u16
            },
        ),
    }
}

/// The 16-bit base address that a zero-page pointer holds, read
/// little-endian with the second byte wrapping inside the zero page.
pub open spec fn indirect_base(b: CpuBusView, zp: u8) -> u16 {
    let lo = spec_cpu_read_val(b, zp as u16);
    let hi = spec_cpu_read_val(b, zp_wrap(zp + 1));
    (lo as u16 | ((hi as u16) << 8)) as u16
}

/// The address an indirect jump reads its high byte from: the increment of
/// the low byte wraps within the same page, as the documented 6502 bug has
/// it. For a pointer `$xxFF` the high byte comes from `$xx00`.
pub open spec fn indirect_bug_high_addr(loc: u16) -> u16 {
    ((loc & 0xFF00) + ((loc + 1) % 256)) as u16
}

/// A relative operand sign-extended to 16 bits.
pub open spec fn sign_extend(operand: u8) -> u16 {
    if operand >= 0x80 {
        (0xFF00u16 | operand as u16) as u16
    } else {
        operand as u16
    }
}

/// The bus after addressing-mode resolution: only an indirect jump reads
/// outside the zero page, with its two reads; all other modes leave the bus
/// as it stands.
pub open spec fn spec_resolve_bus(b: CpuBusView, mode: AddrMode, operand: Operand) -> CpuBusView {
    match mode {
        AddrMode::Indirect => spec_cpu_read_state(
            spec_cpu_read_state(b, operand->Word_0),
            indirect_bug_high_addr(operand->Word_0),
        ),
        _ => b,
    }
}

/// Whether an indexed absolute access crosses a page: the high byte of the
/// sum differs from the high byte of the base.
pub open spec fn page_crossed(base: u16, target: u16) -> bool {
    base & 0xFF00 != target & 0xFF00
}

/// The page-cross flag addressing-mode resolution leaves behind: 1 when an
/// indexed absolute or indirect-indexed access crossed a page, 0 otherwise.
pub open spec fn spec_resolve_extra(cpu: Cpu, b: CpuBusView, mode: AddrMode, operand: Operand) -> u8 {
    match mode {
        AddrMode::IdxAbsX => if page_crossed(
            operand->Word_0,
            wrap_add16(operand->Word_0, cpu.reg.X as u16),
        ) {
            1u8
        } else {
            0u8
        },
        AddrMode::IdxAbsY => if page_crossed(
            operand->Word_0,
            wrap_add16(operand->Word_0, cpu.reg.Y as u16),
        ) {
            1u8
        } else {
            0u8
        },
        AddrMode::IndIdxY => if page_crossed(
            indirect_base(b, operand->Byte_0),
            wrap_add16(indirect_base(b, operand->Byte_0), cpu.reg.Y as u16),
        ) {
            1u8
        } else {
            0u8
        },
        _ => 0u8,
    }
}

impl Cpu {
    /// The powered-off state: all registers zero, no budget, no pending
    /// interrupt.
    pub open spec fn spec_powered_off() -> Cpu {
        Cpu {
            reg: Reg { A: 0, Y: 0, X: 0, PC: 0, S: 0, P: status_from_byte(0) },
            cycles: 0,
            ops: 0,
            extra_cycles_branch: 0,
            extra_cycles_page_bounds: 0,
            nmi_triggered: false,
            clock_count: 0,
        }
    }

    /// A powered-off CPU: all registers zero, no budget, no pending
    /// interrupt.
    pub fn new() -> (r: Cpu)
        ensures
            r == Cpu::spec_powered_off(),
    {
        Cpu {
            reg: Reg::zeroed(),
            cycles: 0,
            ops: 0,
            extra_cycles_branch: 0,
            extra_cycles_page_bounds: 0,
            nmi_triggered: false,
            clock_count: 0,
        }
    }

    /// Read the byte at the program counter and advance it by one, wrapping
    /// in 16 bits.
    pub fn pc_advance(&mut self, bus: &mut CpuBus) -> (r: u8)
        requires
            old(bus).wf(),
            old(bus).has_cart(),
        ensures
            final(bus).wf(),
            final(bus).has_cart(),
            r == spec_cpu_read_val(old(bus)@, old(self).reg.PC),
            final(bus)@ == spec_cpu_read_state(old(bus)@, old(self).reg.PC),
            *final(self) == (Cpu {
                reg: Reg { PC: wrap_add16(old(self).reg.PC, 1), ..old(self).reg },
                ..*old(self)
            }),
    {
        let byte = bus.read(self.reg.PC);
        self.reg.PC = wrap_add16_exec(self.reg.PC, 1);
        byte
    }

    /// Reset the CPU to a target address: 7 cycles of startup, stack
    /// pointer at `$FD`, interrupts disabled, pending interrupt cleared.
    pub fn reset_to(&mut self, offset: u16)
        ensures
            *final(self) == (Cpu {
                reg: Reg {
                    PC: offset,
                    S: 0xFD,
                    P: RegStatus { interrupt: true, ..old(self).reg.P },
                    ..old(self).reg
                },
                cycles: 7,
                clock_count: 7,
                nmi_triggered: false,
                ..*old(self)
            }),
    {
        self.cycles = 7;
        self.clock_count = 7;
        self.reg.P.interrupt = true;
        self.reg.PC = offset;
        self.reg.S = 0xFD;
        self.nmi_triggered = false;
    }

    /// Reset the CPU, taking the target from the reset vector at
    /// `$FFFC`/`$FFFD`.
    pub fn reset(&mut self, bus: &mut CpuBus)
        requires
            old(bus).wf(),
            old(bus).has_cart(),
        ensures
            final(bus).wf(),
            final(bus).has_cart(),
            final(bus)@ == old(bus)@,
            *final(self) == (Cpu {
                reg: Reg {
                    PC: (spec_cpu_read_val(old(bus)@, 0xFFFC) as u16 | ((spec_cpu_read_val(
                        old(bus)@,
                        0xFFFD,
                    ) as u16) << 8)) as u16,
                    S: 0xFD,
                    P: RegStatus { interrupt: true, ..old(self).reg.P },
                    ..old(self).reg
                },
                cycles: 7,
                clock_count: 7,
                nmi_triggered: false,
                ..*old(self)
            }),
    {
        let pc_lo = bus.read(0xFFFC) as u16;
        let pc_hi = bus.read(0xFFFD) as u16;
        let pc = pc_lo | (pc_hi << 8);
        self.reset_to(pc);
    }

    /// Push one byte: write at the stack cell, then lower the pointer with
    /// wrap-around.
    pub fn push_stack(&mut self, bus: &mut CpuBus, value: u8)
        requires
            old(bus).wf(),
            old(bus).has_cart(),
        ensures
            final(bus).wf(),
            final(bus).has_cart(),
            final(bus)@ == spec_push(old(bus)@, old(self).reg.S, value),
            *final(self) == (Cpu {
                reg: Reg { S: wrap_dec8(old(self).reg.S), ..old(self).reg },
                ..*old(self)
            }),
    {
        let s16 = self.reg.S as u16;
        proof {
            assert(0x0100u16 | s16 == 0x0100 + s16) by (bit_vector)
                requires
                    s16 < 0x100,
            ;
        }
        let addr = 0x0100u16 | s16;
        bus.write(addr, value);
        self.reg.S = if self.reg.S == 0 {
            0xFF
        } else {
            self.reg.S - 1
        };
    }

    /// Pop one byte: raise the pointer with wrap-around, then read the
    /// stack cell.
    pub fn pop_stack(&mut self, bus: &mut CpuBus) -> (r: u8)
        requires
            old(bus).wf(),
            old(bus).has_cart(),
        ensures
            final(bus).wf(),
            final(bus).has_cart(),
            final(bus)@ == old(bus)@,
            r == spec_pop_val(old(bus)@, wrap_inc8(old(self).reg.S)),
            *final(self) == (Cpu {
                reg: Reg { S: wrap_inc8(old(self).reg.S), ..old(self).reg },
                ..*old(self)
            }),
    {
        self.reg.S = if self.reg.S == 0xFF {
            0
        } else {
            self.reg.S + 1
        };
        let s16 = self.reg.S as u16;
        proof {
            assert(0x0100u16 | s16 == 0x0100 + s16) by (bit_vector)
                requires
                    s16 < 0x100,
            ;
        }
        let addr = 0x0100u16 | s16;
        bus.read(addr)
    }

    /// The value an instruction target yields. All operations go through
    /// this, so none branches on the addressing mode itself.
    pub fn fetch(&self, bus: &mut CpuBus, target: InstructionTarget) -> (r: u8)
        requires
            old(bus).wf(),
            old(bus).has_cart(),
        ensures
            final(bus).wf(),
            final(bus).has_cart(),
            r == spec_fetch_val(*self, old(bus)@, target),
            final(bus)@ == spec_fetch_bus(old(bus)@, target),
    {
        match target {
            InstructionTarget::Null => 0,
            InstructionTarget::Accumulator => self.reg.A,
            InstructionTarget::Immediate(b) => b,
            InstructionTarget::MemoryAddress(addr) => bus.read(addr),
        }
    }

    /// Store a value to an instruction target: the accumulator or a memory
    /// cell.
    pub fn store(&mut self, value: u8, bus: &mut CpuBus, target: InstructionTarget)
        requires
            old(bus).wf(),
            old(bus).has_cart(),
            target is Accumulator || target is MemoryAddress,
        ensures
            final(bus).wf(),
            final(bus).has_cart(),
            final(bus)@ == spec_store_bus(old(bus)@, target, value),
            *final(self) == spec_store_cpu(*old(self), target, value),
    {
        match target {
            InstructionTarget::Accumulator => {
                self.reg.A = value;
            },
            InstructionTarget::MemoryAddress(addr) => {
                bus.write(addr, value);
            },
            _ => {},
        }
    }

    /// Take a branch to a resolved target: one extra cycle, a second when
    /// the target page differs from the page of the program counter after
    /// the fetch.
    pub fn branch(&mut self, target: InstructionTarget)
        requires
            target is MemoryAddress,
        ensures
            *final(self) == (Cpu {
                reg: Reg { PC: target->MemoryAddress_0, ..old(self).reg },
                extra_cycles_branch: if page_crossed(old(self).reg.PC, target->MemoryAddress_0) {
                    2u8
                } else {
                    1u8
                },
                ..*old(self)
            }),
    {
        let addr_target = match target {
            InstructionTarget::MemoryAddress(w) => w,
            _ => 0,
        };
        self.extra_cycles_branch = 1;
        if (self.reg.PC & 0xFF00) != (addr_target & 0xFF00) {
            self.extra_cycles_branch = 2;
        }
        self.reg.PC = addr_target;
    }

    /// Service the non-maskable interrupt: push the program counter high
    /// byte first, push the status with the break bit clear and the unused
    /// bit set, disable interrupts, and jump through the vector at
    /// `$FFFA`/`$FFFB`.
    pub fn nmi(&mut self, bus: &mut CpuBus)
        requires
            old(bus).wf(),
            old(bus).has_cart(),
        ensures
            final(bus).wf(),
            final(bus).has_cart(),
            final(bus)@ == spec_nmi_bus(*old(self), old(bus)@),
            *final(self) == spec_nmi_cpu(*old(self), old(bus)@),
    {
        let pc = self.reg.PC;
        self.push_stack(bus, (pc >> 8) as u8);
        self.push_stack(bus, (pc & 0xFF) as u8);
        let mut p = self.reg.P;
        p.brk = false;
        p.unused = true;
        let pb = RegStatus::to_byte(&p);
        self.push_stack(bus, pb);
        let pcl = bus.read(0xFFFA) as u16;
        let pch = bus.read(0xFFFB) as u16;
        self.reg.PC = pcl | (pch << 8);
        self.reg.P.interrupt = true;
    }
}

/// The bus after the three pushes of interrupt entry.
pub open spec fn spec_nmi_bus(cpu: Cpu, b: CpuBusView) -> CpuBusView {
    let s = cpu.reg.S;
    let b1 = spec_push(b, s, (cpu.reg.PC >> 8) as u8);
    let b2 = spec_push(b1, wrap_dec8(s), (cpu.reg.PC & 0xFF) as u8);
    spec_push(
        b2,
        wrap_dec8(wrap_dec8(s)),
        status_to_byte(RegStatus { brk: false, unused: true, ..cpu.reg.P }),
    )
}

/// The CPU after interrupt entry: stack pointer three lower, interrupts
/// disabled, the program counter loaded from the vector as the bus stands
/// after the pushes.
pub open spec fn spec_nmi_cpu(cpu: Cpu, b: CpuBusView) -> Cpu {
    let pushed = spec_nmi_bus(cpu, b);
    Cpu {
        reg: Reg {
            PC: (spec_cpu_read_val(pushed, 0xFFFA) as u16 | ((spec_cpu_read_val(
                pushed,
                0xFFFB,
            ) as u16) << 8)) as u16,
            S: wrap_dec8(wrap_dec8(wrap_dec8(cpu.reg.S))),
            P: RegStatus { interrupt: true, ..cpu.reg.P },
            ..cpu.reg
        },
        ..cpu
    }
}

/// Interrupt entry only pushes to the stack: the PPU and the cartridge are
/// exactly as they stood.
pub proof fn lemma_nmi_bus_touches_ram_only(cpu: Cpu, b: CpuBusView)
    ensures
        spec_nmi_bus(cpu, b).ppu == b.ppu,
        spec_nmi_bus(cpu, b).cart == b.cart,
{
}

impl Cpu {
    /// Resolve an instruction's addressing mode to a target, recording the
    /// page-cross flag for the indexed modes that pay one.
    pub fn resolve_target(&mut self, bus: &mut CpuBus, instr: &Instruction) -> (t:
        InstructionTarget)
        requires
            old(bus).wf(),
            old(bus).has_cart(),
            operand_matches(instr.op.size, instr.operand),
            instr.op.size == mode_len(instr.op.addr_mode),
        ensures
            final(bus).wf(),
            final(bus).has_cart(),
            t == spec_resolve_target(*old(self), old(bus)@, instr.op.addr_mode, instr.operand),
            final(bus)@ == spec_resolve_bus(old(bus)@, instr.op.addr_mode, instr.operand),
            *final(self) == (Cpu {
                extra_cycles_page_bounds: spec_resolve_extra(
                    *old(self),
                    old(bus)@,
                    instr.op.addr_mode,
                    instr.operand,
                ),
                ..*old(self)
            }),
            (t is Null <==> instr.op.addr_mode is Implied),
            (t is Accumulator <==> instr.op.addr_mode is Accum),
            (t is Immediate <==> instr.op.addr_mode is Imm),
    {
        self.extra_cycles_page_bounds = 0;
        match instr.op.addr_mode {
            AddrMode::Accum => InstructionTarget::Accumulator,
            AddrMode::Implied => InstructionTarget::Null,
            AddrMode::Imm => {
                let b = match instr.operand {
                    Operand::Byte(b) => b,
                    _ => 0,
                };
                let t = InstructionTarget::Immediate(b);
                proof {
                    assert(t == spec_resolve_target(
                        *old(self),
                        old(bus)@,
                        instr.op.addr_mode,
                        instr.operand,
                    ));
                }
                t
            },
            AddrMode::Absolute => {
                let w = match instr.operand {
                    Operand::Word(w) => w,
                    _ => 0,
                };
                let t = InstructionTarget::MemoryAddress(w);
                proof {
                    assert(t == spec_resolve_target(
                        *old(self),
                        old(bus)@,
                        instr.op.addr_mode,
                        instr.operand,
                    ));
                }
                t
            },
            AddrMode::ZP => {
                let b = match instr.operand {
                    Operand::Byte(b) => b,
                    _ => 0,
                };
                let t = InstructionTarget::MemoryAddress(b as u16);
                proof {
                    assert(t == spec_resolve_target(
                        *old(self),
                        old(bus)@,
                        instr.op.addr_mode,
                        instr.operand,
                    ));
                }
                t
            },
            AddrMode::IdxZPX => {
                let b = match instr.operand {
                    Operand::Byte(b) => b,
                    _ => 0,
                };
                let sum = b as u16 + self.reg.X as u16;
                proof {
                    assert(sum & 0xFF == sum % 256) by (bit_vector);
                }
                let t = InstructionTarget::MemoryAddress(sum & 0xFF);
                proof {
                    assert(t == spec_resolve_target(
                        *old(self),
                        old(bus)@,
                        instr.op.addr_mode,
                        instr.operand,
                    ));
                }
                t
            },
            AddrMode::IdxZPY => {
                let b = match instr.operand {
                    Operand::Byte(b) => b,
                    _ => 0,
                };
                let sum = b as u16 + self.reg.Y as u16;
                proof {
                    assert(sum & 0xFF == sum % 256) by (bit_vector);
                }
                let t = InstructionTarget::MemoryAddress(sum & 0xFF);
                proof {
                    assert(t == spec_resolve_target(
                        *old(self),
                        old(bus)@,
                        instr.op.addr_mode,
                        instr.operand,
                    ));
                }
                t
            },
            AddrMode::IdxAbsX => {
                let w = match instr.operand {
                    Operand::Word(w) => w,
                    _ => 0,
                };
                let t = wrap_add16_exec(w, self.reg.X as u16);
                if (w & 0xFF00) != (t & 0xFF00) {
                    self.extra_cycles_page_bounds = 1;
                }
                let t = InstructionTarget::MemoryAddress(t);
                proof {
                    assert(t == spec_resolve_target(
                        *old(self),
                        old(bus)@,
                        instr.op.addr_mode,
                        instr.operand,
                    ));
                }
                t
            },
            AddrMode::IdxAbsY => {
                let w = match instr.operand {
                    Operand::Word(w) => w,
                    _ => 0,
                };
                let t = wrap_add16_exec(w, self.reg.Y as u16);
                if (w & 0xFF00) != (t & 0xFF00) {
                    self.extra_cycles_page_bounds = 1;
                }
                let t = InstructionTarget::MemoryAddress(t);
                proof {
                    assert(t == spec_resolve_target(
                        *old(self),
                        old(bus)@,
                        instr.op.addr_mode,
                        instr.operand,
                    ));
                }
                t
            },
            AddrMode::Relative => {
                let b = match instr.operand {
                    Operand::Byte(b) => b,
                    _ => 0,
                };
                let delta: u16 = if b >= 0x80 {
                    0xFF00u16 | (b as u16)
                } else {
                    b as u16
                };
                let t = InstructionTarget::MemoryAddress(wrap_add16_exec(self.reg.PC, delta));
                proof {
                    assert(t == spec_resolve_target(
                        *old(self),
                        old(bus)@,
                        instr.op.addr_mode,
                        instr.operand,
                    ));
                }
                t
            },
            AddrMode::IdxIndX => {
                let b = match instr.operand {
                    Operand::Byte(b) => b,
                    _ => 0,
                };
                let sum = b as u16 + self.reg.X as u16;
                let zp = sum & 0xFF;
                proof {
                    assert(sum & 0xFF == sum % 256 && sum & 0xFF < 0x100) by (bit_vector);
                }
                let zp1 = zp + 1;
                proof {
                    assert(zp < 0x100 ==> (zp1 & 0xFF == zp1 % 256 && zp1 & 0xFF < 0x100 && zp1
                        == zp + 1)) by (bit_vector)
                        requires
                            zp1 == zp + 1,
                    ;
                    assert(zp1 % 256 == (zp + 1) % 256);
                }
                let lo = bus.read(zp) as u16;
                let hi = bus.read(zp1 & 0xFF) as u16;
                let t = InstructionTarget::MemoryAddress(lo | (hi << 8));
                proof {
                    assert(t == spec_resolve_target(
                        *old(self),
                        old(bus)@,
                        instr.op.addr_mode,
                        instr.operand,
                    ));
                }
                t
            },
            AddrMode::IndIdxY => {
                let b = match instr.operand {
                    Operand::Byte(b) => b,
                    _ => 0,
                };
                let zp = b as u16;
                let zp1 = zp + 1;
                proof {
                    assert(zp < 0x100 ==> (zp1 & 0xFF == zp1 % 256 && zp1 & 0xFF < 0x100))
                        by (bit_vector)
                        requires
                            zp1 == zp + 1,
                    ;
                }
                let lo = bus.read(zp) as u16;
                let hi = bus.read(zp1 & 0xFF) as u16;
                let base = lo | (hi << 8);
                let t = wrap_add16_exec(base, self.reg.Y as u16);
                if (base & 0xFF00) != (t & 0xFF00) {
                    self.extra_cycles_page_bounds = 1;
                }
                let t = InstructionTarget::MemoryAddress(t);
                proof {
                    assert(t == spec_resolve_target(
                        *old(self),
                        old(bus)@,
                        instr.op.addr_mode,
                        instr.operand,
                    ));
                }
                t
            },
            AddrMode::Indirect => {
                let loc = match instr.operand {
                    Operand::Word(w) => w,
                    _ => 0,
                };
                let locp = wrap_add16_exec(loc, 1);
                let hi_addr = (loc & 0xFF00) | (locp & 0x00FF);
                proof {
                    assert((loc & 0xFF00) | (locp & 0x00FF) == (loc & 0xFF00) + (locp & 0x00FF)
                        && locp & 0x00FF == locp % 256) by (bit_vector);
                    if loc == 0xFFFF {
                        assert(locp == 0);
                    } else {
                        vstd::arithmetic::div_mod::lemma_small_mod((loc + 1) as nat, 0x10000);
                    }
                    assert(locp % 256 == (loc + 1) % 256);
                }
                let lo = bus.read(loc) as u16;
                let hi = bus.read(hi_addr) as u16;
                let t = InstructionTarget::MemoryAddress(lo | (hi << 8));
                proof {
                    assert(t == spec_resolve_target(
                        *old(self),
                        old(bus)@,
                        instr.op.addr_mode,
                        instr.operand,
                    ));
                }
                t
            },
        }
    }
}

/// A 64-bit counter incremented with wrap-around.
pub open spec fn wrap_inc64(v: u64) -> u64 {
    if v == 0xFFFF_FFFF_FFFF_FFFFu64 {
        0u64
    } else {
        (v + 1) as u64
    }
}

/// A 64-bit counter advanced by `k` with wrap-around.
pub open spec fn wrap_add64(x: u64, k: int) -> u64 {
    ((x + k) % 0x1_0000_0000_0000_0000) as u64
}

/// Incrementing an advanced counter advances it one further.
pub proof fn lemma_wrap_add64_inc(x: u64, k: int)
    requires
        k >= 0,
    ensures
        wrap_inc64(wrap_add64(x, k)) == wrap_add64(x, k + 1),
{
    let m = 0x1_0000_0000_0000_0000int;
    vstd::arithmetic::div_mod::lemma_add_mod_noop(x + k, 1, m);
    vstd::arithmetic::div_mod::lemma_small_mod(1nat, m as nat);
    let v = (x + k) % m;
    if v == m - 1 {
        vstd::arithmetic::div_mod::lemma_mod_self_0(m);
    } else {
        vstd::arithmetic::div_mod::lemma_small_mod((v + 1) as nat, m as nat);
    }
}

/// Advancing a counter twice is advancing it by the sum.
pub proof fn lemma_wrap_add64_assoc(x: u64, a: int, b: int)
    requires
        0 <= a,
        0 <= b < 0x1_0000_0000_0000_0000,
    ensures
        wrap_add64(wrap_add64(x, a), b) == wrap_add64(x, a + b),
{
    let m = 0x1_0000_0000_0000_0000int;
    vstd::arithmetic::div_mod::lemma_add_mod_noop(x + a, b, m);
    vstd::arithmetic::div_mod::lemma_small_mod(b as nat, m as nat);
    vstd::arithmetic::div_mod::lemma_mod_twice(x + a, m);
}

/// A counter that advances by nothing stands still.
pub proof fn lemma_wrap_add64_zero(x: u64)
    ensures
        wrap_add64(x, 0) == x,
{
    vstd::arithmetic::div_mod::lemma_small_mod(x as nat, 0x1_0000_0000_0000_0000nat);
}

impl Cpu {
    /// Close an instruction's bookkeeping: charge the base cycles, the
    /// page-cross penalty where the opcode pays one, and the branch extras,
    /// and count the instruction.
    pub fn finish_instruction(&mut self, op: Operation)
        requires
            old(self).cycles == 0,
            old(self).extra_cycles_page_bounds <= 1,
            old(self).extra_cycles_branch <= 2,
            2 <= op.cycles <= 7,
        ensures
            *final(self) == (Cpu {
                cycles: (op.cycles + old(self).extra_cycles_page_bounds * spec_cycle_penalty(
                    op.extra_cycles,
                    op.mnemonic,
                ) + old(self).extra_cycles_branch) as u8,
                ops: wrap_inc64(old(self).ops),
                ..*old(self)
            }),
    {
        let pen: u8 = if op.extra_cycles == 0 {
            0
        } else {
            match op.mnemonic {
                Mnemonic::ASL | Mnemonic::DEC | Mnemonic::INC | Mnemonic::LSR | Mnemonic::ROL
                    | Mnemonic::ROR | Mnemonic::STA => 0,
                _ => 1,
            }
        };
        self.cycles = op.cycles + self.extra_cycles_page_bounds * pen + self.extra_cycles_branch;
        self.ops = if self.ops == 0xFFFF_FFFF_FFFF_FFFF {
            0
        } else {
            self.ops + 1
        };
    }

    /// Fetch, decode and execute one instruction. `Err` exactly when the
    /// byte at the program counter is an illegal opcode; otherwise the
    /// instruction runs, the program counter having advanced past the
    /// operand bytes first, and the cycle budget takes the table's base
    /// cycles plus the page-cross penalty and branch extras actually
    /// incurred.
    #[verifier::rlimit(100)]
    pub fn process_instruction(&mut self, bus: &mut CpuBus) -> (r: Result<(), EmuError>)
        requires
            old(bus).wf(),
            old(bus).has_cart(),
            old(self).cycles == 0,
        ensures
            final(bus).wf(),
            final(bus).has_cart(),
            ({
                let b0 = spec_cpu_read_val(old(bus)@, old(self).reg.PC);
                &&& (r is Err <==> optable(b0).mnemonic == Mnemonic::XXX)
                &&& (r matches Err(e) ==> e == EmuError::IllegalOpcode(b0))
                &&& (r is Ok ==> *final(self) == crate::cpu_ops::spec_exec_instruction(
                    *old(self),
                    old(bus)@,
                ).0 && final(bus)@ == crate::cpu_ops::spec_exec_instruction(
                    *old(self),
                    old(bus)@,
                ).1)
                &&& (r is Ok ==> final(self).cycles == optable(b0).cycles + final(self).extra_cycles_page_bounds * spec_cycle_penalty(
                    optable(b0).extra_cycles,
                    optable(b0).mnemonic,
                ) + final(self).extra_cycles_branch && final(self).extra_cycles_page_bounds <= 1
                    && final(self).extra_cycles_branch <= 2 && 2 <= final(self).cycles <= 10
                    && final(self).ops == wrap_inc64(old(self).ops) && final(self).clock_count
                    == old(self).clock_count && final(self).nmi_triggered == old(self).nmi_triggered && final(self).cycles >= 2)
                &&& (r is Ok && !crate::optable::is_control_style(optable(b0).mnemonic) ==> final(self).reg.PC == wrap_add16(old(self).reg.PC, optable(b0).size as u16))
            }),
    {
        self.reg.P.unused = true;
        self.extra_cycles_branch = 0;
        self.extra_cycles_page_bounds = 0;
        let pc0 = self.reg.PC;
        let opcode = bus.read(pc0);
        let op = op_for(opcode);
        proof {
            crate::optable::lemma_optable_wf(opcode);
            crate::optable::lemma_optable_modes(opcode);
        }
        if matches!(op.mnemonic, Mnemonic::XXX) {
            return Err(EmuError::IllegalOpcode(opcode));
        }
        let operand = if op.size == 1 {
            Operand::Null
        } else if op.size == 2 {
            Operand::Byte(bus.read(wrap_add16_exec(pc0, 1)))
        } else {
            let lo = bus.read(wrap_add16_exec(pc0, 1));
            let hi = bus.read(wrap_add16_exec(pc0, 2));
            Operand::Word(lo as u16 | ((hi as u16) << 8))
        };
        self.reg.PC = wrap_add16_exec(pc0, op.size as u16);
        let instr = Instruction { op, operand, offset: pc0 };
        let target = self.resolve_target(bus, &instr);
        self.execute_op(bus, op, target);
        proof {
            reveal(crate::cpu_ops::spec_exec_instruction);
            assert(*self == crate::cpu_ops::spec_exec_instruction(*old(self), old(bus)@).0);
            assert(bus@ == crate::cpu_ops::spec_exec_instruction(*old(self), old(bus)@).1);
        }
        Ok(())
    }

    /// Run one already-resolved operation and close the instruction's
    /// bookkeeping.
    #[verifier::rlimit(100)]
    pub fn execute_op(&mut self, bus: &mut CpuBus, op: Operation, target: InstructionTarget)
        requires
            old(bus).wf(),
            old(bus).has_cart(),
            old(self).cycles == 0,
            old(self).extra_cycles_branch == 0,
            old(self).extra_cycles_page_bounds <= 1,
            2 <= op.cycles <= 7,
            op.mnemonic != Mnemonic::XXX,
            crate::optable::is_rmw_style(op.mnemonic) ==> target is Accumulator
                || target is MemoryAddress,
            crate::optable::is_store_only_style(op.mnemonic) ==> target is MemoryAddress,
            crate::optable::is_branch_style(op.mnemonic) || op.mnemonic == Mnemonic::JMP
                || op.mnemonic == Mnemonic::JSR ==> target is MemoryAddress,
        ensures
            final(bus).wf(),
            final(bus).has_cart(),
            *final(self) == crate::cpu_ops::spec_apply_finish(
                op,
                *old(self),
                old(bus)@,
                target,
            ).0,
            final(bus)@ == crate::cpu_ops::spec_apply_finish(op, *old(self), old(bus)@, target).1,
            final(self).cycles == op.cycles + final(self).extra_cycles_page_bounds
                * spec_cycle_penalty(op.extra_cycles, op.mnemonic) + final(self).extra_cycles_branch,
            final(self).extra_cycles_page_bounds <= 1,
            final(self).extra_cycles_branch <= 2,
            2 <= final(self).cycles <= 10,
            final(self).ops == wrap_inc64(old(self).ops),
            final(self).clock_count == old(self).clock_count,
            final(self).nmi_triggered == old(self).nmi_triggered,
            !crate::optable::is_control_style(op.mnemonic) ==> final(self).reg.PC == old(self).reg.PC,
    {
        proof {
            reveal(crate::cpu_ops::spec_apply_op);
        }
        match op.mnemonic {
            Mnemonic::ADC => {
                self.op_adc(bus, target);
                self.finish_instruction(op);
                proof {
                    assert(*self == crate::cpu_ops::spec_apply_finish(
                        op,
                        *old(self),
                        old(bus)@,
                        target,
                    ).0);
                    assert(bus@ == crate::cpu_ops::spec_apply_finish(
                        op,
                        *old(self),
                        old(bus)@,
                        target,
                    ).1);
                }
                return;
            },
            Mnemonic::AND => {
                self.op_and(bus, target);
                self.finish_instruction(op);
                proof {
                    assert(*self == crate::cpu_ops::spec_apply_finish(
                        op,
                        *old(self),
                        old(bus)@,
                        target,
                    ).0);
                    assert(bus@ == crate::cpu_ops::spec_apply_finish(
                        op,
                        *old(self),
                        old(bus)@,
                        target,
                    ).1);
                }
                return;
            },
            Mnemonic::ASL => {
                self.op_asl(bus, target);
                self.finish_instruction(op);
                proof {
                    assert(*self == crate::cpu_ops::spec_apply_finish(
                        op,
                        *old(self),
                        old(bus)@,
                        target,
                    ).0);
                    assert(bus@ == crate::cpu_ops::spec_apply_finish(
                        op,
                        *old(self),
                        old(bus)@,
                        target,
                    ).1);
                }
                return;
            },
            Mnemonic::BCC => {
                self.op_bcc(target);
                self.finish_instruction(op);
                proof {
                    assert(*self == crate::cpu_ops::spec_apply_finish(
                        op,
                        *old(self),
                        old(bus)@,
                        target,
                    ).0);
                    assert(bus@ == crate::cpu_ops::spec_apply_finish(
                        op,
                        *old(self),
                        old(bus)@,
                        target,
                    ).1);
                }
                return;
            },
            Mnemonic::BCS => {
                self.op_bcs(target);
                self.finish_instruction(op);
                proof {
                    assert(*self == crate::cpu_ops::spec_apply_finish(
                        op,
                        *old(self),
                        old(bus)@,
                        target,
                    ).0);
                    assert(bus@ == crate::cpu_ops::spec_apply_finish(
                        op,
                        *old(self),
                        old(bus)@,
                        target,
                    ).1);
                }
                return;
            },
            Mnemonic::BEQ => {
                self.op_beq(target);
                self.finish_instruction(op);
                proof {
                    assert(*self == crate::cpu_ops::spec_apply_finish(
                        op,
                        *old(self),
                        old(bus)@,
                        target,
                    ).0);
                    assert(bus@ == crate::cpu_ops::spec_apply_finish(
                        op,
                        *old(self),
                        old(bus)@,
                        target,
                    ).1);
                }
                return;
            },
            Mnemonic::BIT => {
                self.op_bit(bus, target);
                self.finish_instruction(op);
                proof {
                    assert(*self == crate::cpu_ops::spec_apply_finish(
                        op,
                        *old(self),
                        old(bus)@,
                        target,
                    ).0);
                    assert(bus@ == crate::cpu_ops::spec_apply_finish(
                        op,
                        *old(self),
                        old(bus)@,
                        target,
                    ).1);
                }
                return;
            },
            Mnemonic::BMI => {
                self.op_bmi(target);
                self.finish_instruction(op);
                proof {
                    assert(*self == crate::cpu_ops::spec_apply_finish(
                        op,
                        *old(self),
                        old(bus)@,
                        target,
                    ).0);
                    assert(bus@ == crate::cpu_ops::spec_apply_finish(
                        op,
                        *old(self),
                        old(bus)@,
                        target,
                    ).1);
                }
                return;
            },
            Mnemonic::BNE => {
                self.op_bne(target);
                self.finish_instruction(op);
                proof {
                    assert(*self == crate::cpu_ops::spec_apply_finish(
                        op,
                        *old(self),
                        old(bus)@,
                        target,
                    ).0);
                    assert(bus@ == crate::cpu_ops::spec_apply_finish(
                        op,
                        *old(self),
                        old(bus)@,
                        target,
                    ).1);
                }
                return;
            },
            Mnemonic::BPL => {
                self.op_bpl(target);
                self.finish_instruction(op);
                proof {
                    assert(*self == crate::cpu_ops::spec_apply_finish(
                        op,
                        *old(self),
                        old(bus)@,
                        target,
                    ).0);
                    assert(bus@ == crate::cpu_ops::spec_apply_finish(
                        op,
                        *old(self),
                        old(bus)@,
                        target,
                    ).1);
                }
                return;
            },
            Mnemonic::BRK => {
                self.op_brk(bus);
                self.finish_instruction(op);
                proof {
                    assert(*self == crate::cpu_ops::spec_apply_finish(
                        op,
                        *old(self),
                        old(bus)@,
                        target,
                    ).0);
                    assert(bus@ == crate::cpu_ops::spec_apply_finish(
                        op,
                        *old(self),
                        old(bus)@,
                        target,
                    ).1);
                }
                return;
            },
            Mnemonic::BVC => {
                self.op_bvc(target);
                self.finish_instruction(op);
                proof {
                    assert(*self == crate::cpu_ops::spec_apply_finish(
                        op,
                        *old(self),
                        old(bus)@,
                        target,
                    ).0);
                    assert(bus@ == crate::cpu_ops::spec_apply_finish(
                        op,
                        *old(self),
                        old(bus)@,
                        target,
                    ).1);
                }
                return;
            },
            Mnemonic::BVS => {
                self.op_bvs(target);
                self.finish_instruction(op);
                proof {
                    assert(*self == crate::cpu_ops::spec_apply_finish(
                        op,
                        *old(self),
                        old(bus)@,
                        target,
                    ).0);
                    assert(bus@ == crate::cpu_ops::spec_apply_finish(
                        op,
                        *old(self),
                        old(bus)@,
                        target,
                    ).1);
                }
                return;
            },
            Mnemonic::CLC => {
                self.op_clc();
                self.finish_instruction(op);
                proof {
                    assert(*self == crate::cpu_ops::spec_apply_finish(
                        op,
                        *old(self),
                        old(bus)@,
                        target,
                    ).0);
                    assert(bus@ == crate::cpu_ops::spec_apply_finish(
                        op,
                        *old(self),
                        old(bus)@,
                        target,
                    ).1);
                }
                return;
            },
            Mnemonic::CLD => {
                self.op_cld();
                self.finish_instruction(op);
                proof {
                    assert(*self == crate::cpu_ops::spec_apply_finish(
                        op,
                        *old(self),
                        old(bus)@,
                        target,
                    ).0);
                    assert(bus@ == crate::cpu_ops::spec_apply_finish(
                        op,
                        *old(self),
                        old(bus)@,
                        target,
                    ).1);
                }
                return;
            },
            Mnemonic::CLI => {
                self.op_cli();
                self.finish_instruction(op);
                proof {
                    assert(*self == crate::cpu_ops::spec_apply_finish(
                        op,
                        *old(self),
                        old(bus)@,
                        target,
                    ).0);
                    assert(bus@ == crate::cpu_ops::spec_apply_finish(
                        op,
                        *old(self),
                        old(bus)@,
                        target,
                    ).1);
                }
                return;
            },
            Mnemonic::CLV => {
                self.op_clv();
                self.finish_instruction(op);
                proof {
                    assert(*self == crate::cpu_ops::spec_apply_finish(
                        op,
                        *old(self),
                        old(bus)@,
                        target,
                    ).0);
                    assert(bus@ == crate::cpu_ops::spec_apply_finish(
                        op,
                        *old(self),
                        old(bus)@,
                        target,
                    ).1);
                }
                return;
            },
            Mnemonic::CMP => {
                self.op_cmp(bus, target);
                self.finish_instruction(op);
                proof {
                    assert(*self == crate::cpu_ops::spec_apply_finish(
                        op,
                        *old(self),
                        old(bus)@,
                        target,
                    ).0);
                    assert(bus@ == crate::cpu_ops::spec_apply_finish(
                        op,
                        *old(self),
                        old(bus)@,
                        target,
                    ).1);
                }
                return;
            },
            Mnemonic::CPX => {
                self.op_cpx(bus, target);
                self.finish_instruction(op);
                proof {
                    assert(*self == crate::cpu_ops::spec_apply_finish(
                        op,
                        *old(self),
                        old(bus)@,
                        target,
                    ).0);
                    assert(bus@ == crate::cpu_ops::spec_apply_finish(
                        op,
                        *old(self),
                        old(bus)@,
                        target,
                    ).1);
                }
                return;
            },
            Mnemonic::CPY => {
                self.op_cpy(bus, target);
                self.finish_instruction(op);
                proof {
                    assert(*self == crate::cpu_ops::spec_apply_finish(
                        op,
                        *old(self),
                        old(bus)@,
                        target,
                    ).0);
                    assert(bus@ == crate::cpu_ops::spec_apply_finish(
                        op,
                        *old(self),
                        old(bus)@,
                        target,
                    ).1);
                }
                return;
            },
            Mnemonic::DEC => {
                self.op_dec(bus, target);
                self.finish_instruction(op);
                proof {
                    assert(*self == crate::cpu_ops::spec_apply_finish(
                        op,
                        *old(self),
                        old(bus)@,
                        target,
                    ).0);
                    assert(bus@ == crate::cpu_ops::spec_apply_finish(
                        op,
                        *old(self),
                        old(bus)@,
                        target,
                    ).1);
                }
                return;
            },
            Mnemonic::DEX => {
                self.op_dex();
                self.finish_instruction(op);
                proof {
                    assert(*self == crate::cpu_ops::spec_apply_finish(
                        op,
                        *old(self),
                        old(bus)@,
                        target,
                    ).0);
                    assert(bus@ == crate::cpu_ops::spec_apply_finish(
                        op,
                        *old(self),
                        old(bus)@,
                        target,
                    ).1);
                }
                return;
            },
            Mnemonic::DEY => {
                self.op_dey();
                self.finish_instruction(op);
                proof {
                    assert(*self == crate::cpu_ops::spec_apply_finish(
                        op,
                        *old(self),
                        old(bus)@,
                        target,
                    ).0);
                    assert(bus@ == crate::cpu_ops::spec_apply_finish(
                        op,
                        *old(self),
                        old(bus)@,
                        target,
                    ).1);
                }
                return;
            },
            Mnemonic::EOR => {
                self.op_eor(bus, target);
                self.finish_instruction(op);
                proof {
                    assert(*self == crate::cpu_ops::spec_apply_finish(
                        op,
                        *old(self),
                        old(bus)@,
                        target,
                    ).0);
                    assert(bus@ == crate::cpu_ops::spec_apply_finish(
                        op,
                        *old(self),
                        old(bus)@,
                        target,
                    ).1);
                }
                return;
            },
            Mnemonic::INC => {
                self.op_inc(bus, target);
                self.finish_instruction(op);
                proof {
                    assert(*self == crate::cpu_ops::spec_apply_finish(
                        op,
                        *old(self),
                        old(bus)@,
                        target,
                    ).0);
                    assert(bus@ == crate::cpu_ops::spec_apply_finish(
                        op,
                        *old(self),
                        old(bus)@,
                        target,
                    ).1);
                }
                return;
            },
            Mnemonic::INX => {
                self.op_inx();
                self.finish_instruction(op);
                proof {
                    assert(*self == crate::cpu_ops::spec_apply_finish(
                        op,
                        *old(self),
                        old(bus)@,
                        target,
                    ).0);
                    assert(bus@ == crate::cpu_ops::spec_apply_finish(
                        op,
                        *old(self),
                        old(bus)@,
                        target,
                    ).1);
                }
                return;
            },
            Mnemonic::INY => {
                self.op_iny();
                self.finish_instruction(op);
                proof {
                    assert(*self == crate::cpu_ops::spec_apply_finish(
                        op,
                        *old(self),
                        old(bus)@,
                        target,
                    ).0);
                    assert(bus@ == crate::cpu_ops::spec_apply_finish(
                        op,
                        *old(self),
                        old(bus)@,
                        target,
                    ).1);
                }
                return;
            },
            Mnemonic::JMP => {
                self.op_jmp(target);
                self.finish_instruction(op);
                proof {
                    assert(*self == crate::cpu_ops::spec_apply_finish(
                        op,
                        *old(self),
                        old(bus)@,
                        target,
                    ).0);
                    assert(bus@ == crate::cpu_ops::spec_apply_finish(
                        op,
                        *old(self),
                        old(bus)@,
                        target,
                    ).1);
                }
                return;
            },
            Mnemonic::JSR => {
                self.op_jsr(bus, target);
                self.finish_instruction(op);
                proof {
                    assert(*self == crate::cpu_ops::spec_apply_finish(
                        op,
                        *old(self),
                        old(bus)@,
                        target,
                    ).0);
                    assert(bus@ == crate::cpu_ops::spec_apply_finish(
                        op,
                        *old(self),
                        old(bus)@,
                        target,
                    ).1);
                }
                return;
            },
            Mnemonic::LDA => {
                self.op_lda(bus, target);
                self.finish_instruction(op);
                proof {
                    assert(*self == crate::cpu_ops::spec_apply_finish(
                        op,
                        *old(self),
                        old(bus)@,
                        target,
                    ).0);
                    assert(bus@ == crate::cpu_ops::spec_apply_finish(
                        op,
                        *old(self),
                        old(bus)@,
                        target,
                    ).1);
                }
                return;
            },
            Mnemonic::LDX => {
                self.op_ldx(bus, target);
                self.finish_instruction(op);
                proof {
                    assert(*self == crate::cpu_ops::spec_apply_finish(
                        op,
                        *old(self),
                        old(bus)@,
                        target,
                    ).0);
                    assert(bus@ == crate::cpu_ops::spec_apply_finish(
                        op,
                        *old(self),
                        old(bus)@,
                        target,
                    ).1);
                }
                return;
            },
            Mnemonic::LDY => {
                self.op_ldy(bus, target);
                self.finish_instruction(op);
                proof {
                    assert(*self == crate::cpu_ops::spec_apply_finish(
                        op,
                        *old(self),
                        old(bus)@,
                        target,
                    ).0);
                    assert(bus@ == crate::cpu_ops::spec_apply_finish(
                        op,
                        *old(self),
                        old(bus)@,
                        target,
                    ).1);
                }
                return;
            },
            Mnemonic::LSR => {
                self.op_lsr(bus, target);
                self.finish_instruction(op);
                proof {
                    assert(*self == crate::cpu_ops::spec_apply_finish(
                        op,
                        *old(self),
                        old(bus)@,
                        target,
                    ).0);
                    assert(bus@ == crate::cpu_ops::spec_apply_finish(
                        op,
                        *old(self),
                        old(bus)@,
                        target,
                    ).1);
                }
                return;
            },
            Mnemonic::NOP => {
                self.op_nop();
                self.finish_instruction(op);
                proof {
                    assert(*self == crate::cpu_ops::spec_apply_finish(
                        op,
                        *old(self),
                        old(bus)@,
                        target,
                    ).0);
                    assert(bus@ == crate::cpu_ops::spec_apply_finish(
                        op,
                        *old(self),
                        old(bus)@,
                        target,
                    ).1);
                }
                return;
            },
            Mnemonic::ORA => {
                self.op_ora(bus, target);
                self.finish_instruction(op);
                proof {
                    assert(*self == crate::cpu_ops::spec_apply_finish(
                        op,
                        *old(self),
                        old(bus)@,
                        target,
                    ).0);
                    assert(bus@ == crate::cpu_ops::spec_apply_finish(
                        op,
                        *old(self),
                        old(bus)@,
                        target,
                    ).1);
                }
                return;
            },
            Mnemonic::PHA => {
                self.op_pha(bus);
                self.finish_instruction(op);
                proof {
                    assert(*self == crate::cpu_ops::spec_apply_finish(
                        op,
                        *old(self),
                        old(bus)@,
                        target,
                    ).0);
                    assert(bus@ == crate::cpu_ops::spec_apply_finish(
                        op,
                        *old(self),
                        old(bus)@,
                        target,
                    ).1);
                }
                return;
            },
            Mnemonic::PHP => {
                self.op_php(bus);
                self.finish_instruction(op);
                proof {
                    assert(*self == crate::cpu_ops::spec_apply_finish(
                        op,
                        *old(self),
                        old(bus)@,
                        target,
                    ).0);
                    assert(bus@ == crate::cpu_ops::spec_apply_finish(
                        op,
                        *old(self),
                        old(bus)@,
                        target,
                    ).1);
                }
                return;
            },
            Mnemonic::PLA => {
                self.op_pla(bus);
                self.finish_instruction(op);
                proof {
                    assert(*self == crate::cpu_ops::spec_apply_finish(
                        op,
                        *old(self),
                        old(bus)@,
                        target,
                    ).0);
                    assert(bus@ == crate::cpu_ops::spec_apply_finish(
                        op,
                        *old(self),
                        old(bus)@,
                        target,
                    ).1);
                }
                return;
            },
            Mnemonic::PLP => {
                self.op_plp(bus);
                self.finish_instruction(op);
                proof {
                    assert(*self == crate::cpu_ops::spec_apply_finish(
                        op,
                        *old(self),
                        old(bus)@,
                        target,
                    ).0);
                    assert(bus@ == crate::cpu_ops::spec_apply_finish(
                        op,
                        *old(self),
                        old(bus)@,
                        target,
                    ).1);
                }
                return;
            },
            Mnemonic::ROL => {
                self.op_rol(bus, target);
                self.finish_instruction(op);
                proof {
                    assert(*self == crate::cpu_ops::spec_apply_finish(
                        op,
                        *old(self),
                        old(bus)@,
                        target,
                    ).0);
                    assert(bus@ == crate::cpu_ops::spec_apply_finish(
                        op,
                        *old(self),
                        old(bus)@,
                        target,
                    ).1);
                }
                return;
            },
            Mnemonic::ROR => {
                self.op_ror(bus, target);
                self.finish_instruction(op);
                proof {
                    assert(*self == crate::cpu_ops::spec_apply_finish(
                        op,
                        *old(self),
                        old(bus)@,
                        target,
                    ).0);
                    assert(bus@ == crate::cpu_ops::spec_apply_finish(
                        op,
                        *old(self),
                        old(bus)@,
                        target,
                    ).1);
                }
                return;
            },
            Mnemonic::RTI => {
                self.op_rti(bus);
                self.finish_instruction(op);
                proof {
                    assert(*self == crate::cpu_ops::spec_apply_finish(
                        op,
                        *old(self),
                        old(bus)@,
                        target,
                    ).0);
                    assert(bus@ == crate::cpu_ops::spec_apply_finish(
                        op,
                        *old(self),
                        old(bus)@,
                        target,
                    ).1);
                }
                return;
            },
            Mnemonic::RTS => {
                self.op_rts(bus);
                self.finish_instruction(op);
                proof {
                    assert(*self == crate::cpu_ops::spec_apply_finish(
                        op,
                        *old(self),
                        old(bus)@,
                        target,
                    ).0);
                    assert(bus@ == crate::cpu_ops::spec_apply_finish(
                        op,
                        *old(self),
                        old(bus)@,
                        target,
                    ).1);
                }
                return;
            },
            Mnemonic::SBC => {
                self.op_sbc(bus, target);
                self.finish_instruction(op);
                proof {
                    assert(*self == crate::cpu_ops::spec_apply_finish(
                        op,
                        *old(self),
                        old(bus)@,
                        target,
                    ).0);
                    assert(bus@ == crate::cpu_ops::spec_apply_finish(
                        op,
                        *old(self),
                        old(bus)@,
                        target,
                    ).1);
                }
                return;
            },
            Mnemonic::SEC => {
                self.op_sec();
                self.finish_instruction(op);
                proof {
                    assert(*self == crate::cpu_ops::spec_apply_finish(
                        op,
                        *old(self),
                        old(bus)@,
                        target,
                    ).0);
                    assert(bus@ == crate::cpu_ops::spec_apply_finish(
                        op,
                        *old(self),
                        old(bus)@,
                        target,
                    ).1);
                }
                return;
            },
            Mnemonic::SED => {
                self.op_sed();
                self.finish_instruction(op);
                proof {
                    assert(*self == crate::cpu_ops::spec_apply_finish(
                        op,
                        *old(self),
                        old(bus)@,
                        target,
                    ).0);
                    assert(bus@ == crate::cpu_ops::spec_apply_finish(
                        op,
                        *old(self),
                        old(bus)@,
                        target,
                    ).1);
                }
                return;
            },
            Mnemonic::SEI => {
                self.op_sei();
                self.finish_instruction(op);
                proof {
                    assert(*self == crate::cpu_ops::spec_apply_finish(
                        op,
                        *old(self),
                        old(bus)@,
                        target,
                    ).0);
                    assert(bus@ == crate::cpu_ops::spec_apply_finish(
                        op,
                        *old(self),
                        old(bus)@,
                        target,
                    ).1);
                }
                return;
            },
            Mnemonic::STA => {
                self.op_sta(bus, target);
                self.finish_instruction(op);
                proof {
                    assert(*self == crate::cpu_ops::spec_apply_finish(
                        op,
                        *old(self),
                        old(bus)@,
                        target,
                    ).0);
                    assert(bus@ == crate::cpu_ops::spec_apply_finish(
                        op,
                        *old(self),
                        old(bus)@,
                        target,
                    ).1);
                }
                return;
            },
            Mnemonic::STX => {
                self.op_stx(bus, target);
                self.finish_instruction(op);
                proof {
                    assert(*self == crate::cpu_ops::spec_apply_finish(
                        op,
                        *old(self),
                        old(bus)@,
                        target,
                    ).0);
                    assert(bus@ == crate::cpu_ops::spec_apply_finish(
                        op,
                        *old(self),
                        old(bus)@,
                        target,
                    ).1);
                }
                return;
            },
            Mnemonic::STY => {
                self.op_sty(bus, target);
                self.finish_instruction(op);
                proof {
                    assert(*self == crate::cpu_ops::spec_apply_finish(
                        op,
                        *old(self),
                        old(bus)@,
                        target,
                    ).0);
                    assert(bus@ == crate::cpu_ops::spec_apply_finish(
                        op,
                        *old(self),
                        old(bus)@,
                        target,
                    ).1);
                }
                return;
            },
            Mnemonic::TAX => {
                self.op_tax();
                self.finish_instruction(op);
                proof {
                    assert(*self == crate::cpu_ops::spec_apply_finish(
                        op,
                        *old(self),
                        old(bus)@,
                        target,
                    ).0);
                    assert(bus@ == crate::cpu_ops::spec_apply_finish(
                        op,
                        *old(self),
                        old(bus)@,
                        target,
                    ).1);
                }
                return;
            },
            Mnemonic::TAY => {
                self.op_tay();
                self.finish_instruction(op);
                proof {
                    assert(*self == crate::cpu_ops::spec_apply_finish(
                        op,
                        *old(self),
                        old(bus)@,
                        target,
                    ).0);
                    assert(bus@ == crate::cpu_ops::spec_apply_finish(
                        op,
                        *old(self),
                        old(bus)@,
                        target,
                    ).1);
                }
                return;
            },
            Mnemonic::TSX => {
                self.op_tsx();
                self.finish_instruction(op);
                proof {
                    assert(*self == crate::cpu_ops::spec_apply_finish(
                        op,
                        *old(self),
                        old(bus)@,
                        target,
                    ).0);
                    assert(bus@ == crate::cpu_ops::spec_apply_finish(
                        op,
                        *old(self),
                        old(bus)@,
                        target,
                    ).1);
                }
                return;
            },
            Mnemonic::TXA => {
                self.op_txa();
                self.finish_instruction(op);
                proof {
                    assert(*self == crate::cpu_ops::spec_apply_finish(
                        op,
                        *old(self),
                        old(bus)@,
                        target,
                    ).0);
                    assert(bus@ == crate::cpu_ops::spec_apply_finish(
                        op,
                        *old(self),
                        old(bus)@,
                        target,
                    ).1);
                }
                return;
            },
            Mnemonic::TXS => {
                self.op_txs();
                self.finish_instruction(op);
                proof {
                    assert(*self == crate::cpu_ops::spec_apply_finish(
                        op,
                        *old(self),
                        old(bus)@,
                        target,
                    ).0);
                    assert(bus@ == crate::cpu_ops::spec_apply_finish(
                        op,
                        *old(self),
                        old(bus)@,
                        target,
                    ).1);
                }
                return;
            },
            Mnemonic::TYA => {
                self.op_tya();
                self.finish_instruction(op);
                proof {
                    assert(*self == crate::cpu_ops::spec_apply_finish(
                        op,
                        *old(self),
                        old(bus)@,
                        target,
                    ).0);
                    assert(bus@ == crate::cpu_ops::spec_apply_finish(
                        op,
                        *old(self),
                        old(bus)@,
                        target,
                    ).1);
                }
                return;
            },
            Mnemonic::XXX => {
                return;
            },
        }
    }

    /// Advance the CPU by one cycle. A pending interrupt is serviced first,
    /// whatever the cycle budget, and consumes the call; otherwise, at an
    /// instruction boundary the next instruction is fetched, executed and
    /// charged, and one budgeted cycle is consumed. The clock advances by
    /// one per call.
    pub fn step(&mut self, bus: &mut CpuBus) -> (r: Result<(), EmuError>)
        requires
            old(bus).wf(),
            old(bus).has_cart(),
        ensures
            final(bus).wf(),
            final(bus).has_cart(),
            old(self).nmi_triggered ==> r is Ok && *final(self) == (Cpu {
                nmi_triggered: false,
                clock_count: wrap_inc64(old(self).clock_count),
                reg: spec_nmi_cpu(*old(self), old(bus)@).reg,
                ..*old(self)
            }) && final(bus)@ == spec_nmi_bus(*old(self), old(bus)@),
            !old(self).nmi_triggered && old(self).cycles > 0 ==> r is Ok && *final(self) == (Cpu {
                cycles: (old(self).cycles - 1) as u8,
                clock_count: wrap_inc64(old(self).clock_count),
                ..*old(self)
            }) && final(bus)@ == old(bus)@,
            !old(self).nmi_triggered && old(self).cycles == 0 ==> ({
                let b0 = spec_cpu_read_val(old(bus)@, old(self).reg.PC);
                let e = crate::cpu_ops::spec_exec_instruction(*old(self), old(bus)@);
                &&& (r is Err <==> optable(b0).mnemonic == Mnemonic::XXX)
                &&& (r matches Err(ee) ==> ee == EmuError::IllegalOpcode(b0))
                &&& (r is Ok ==> *final(self) == (Cpu {
                    cycles: (e.0.cycles - 1) as u8,
                    clock_count: wrap_inc64(e.0.clock_count),
                    ..e.0
                }) && final(bus)@ == e.1 && 2 <= e.0.cycles <= 10 && e.0.clock_count == old(self).clock_count && 1 <= final(self).cycles <= 9 && final(self).ops
                    == wrap_inc64(old(self).ops) && final(self).clock_count == wrap_inc64(
                    old(self).clock_count,
                ) && final(self).nmi_triggered == old(self).nmi_triggered)
            }),
    {
        if self.nmi_triggered {
            self.nmi(bus);
            self.nmi_triggered = false;
        } else {
            if self.cycles == 0 {
                match self.process_instruction(bus) {
                    Ok(()) => {},
                    Err(e) => {
                        return Err(e);
                    },
                }
            }
            self.cycles = self.cycles - 1;
        }
        self.clock_count = if self.clock_count == 0xFFFF_FFFF_FFFF_FFFF {
            0
        } else {
            self.clock_count + 1
        };
        Ok(())
    }

    /// Step until the CPU reaches an instruction boundary: the cycle budget
    /// returns to zero. A pending interrupt is serviced first; from a
    /// boundary one instruction is fetched, executed and its budget drained;
    /// from the middle of an instruction the remaining budget is drained.
    /// The clock advances by one per cycle consumed.
    pub fn next(&mut self, bus: &mut CpuBus) -> (r: Result<(), EmuError>)
        requires
            old(bus).wf(),
            old(bus).has_cart(),
        ensures
            final(bus).wf(),
            final(bus).has_cart(),
            r is Ok ==> final(self).cycles == 0,
            old(self).nmi_triggered ==> r is Ok && *final(self) == (Cpu {
                cycles: 0,
                clock_count: wrap_add64(old(self).clock_count, 1 + old(self).cycles),
                nmi_triggered: false,
                reg: spec_nmi_cpu(*old(self), old(bus)@).reg,
                ..*old(self)
            }) && final(bus)@ == spec_nmi_bus(*old(self), old(bus)@),
            !old(self).nmi_triggered && old(self).cycles > 0 ==> r is Ok && *final(self) == (Cpu {
                cycles: 0,
                clock_count: wrap_add64(old(self).clock_count, old(self).cycles as int),
                ..*old(self)
            }) && final(bus)@ == old(bus)@,
            !old(self).nmi_triggered && old(self).cycles == 0 ==> ({
                let b0 = spec_cpu_read_val(old(bus)@, old(self).reg.PC);
                let e = crate::cpu_ops::spec_exec_instruction(*old(self), old(bus)@);
                &&& (r is Err <==> optable(b0).mnemonic == Mnemonic::XXX)
                &&& (r matches Err(ee) ==> ee == EmuError::IllegalOpcode(b0))
                &&& (r is Ok ==> *final(self) == (Cpu {
                    cycles: 0,
                    clock_count: wrap_add64(e.0.clock_count, e.0.cycles as int),
                    ..e.0
                }) && final(bus)@ == e.1)
            }),
    {
        match self.step(bus) {
            Ok(()) => {},
            Err(e) => {
                return Err(e);
            },
        }
        let ghost mid_cpu = *self;
        let ghost mid_bus = bus@;
        proof {
            lemma_wrap_add64_zero(mid_cpu.clock_count);
        }
        while self.cycles > 0
            invariant
                bus.wf(),
                bus.has_cart(),
                !self.nmi_triggered,
                self.cycles <= mid_cpu.cycles,
                *self == (Cpu {
                    cycles: self.cycles,
                    clock_count: wrap_add64(mid_cpu.clock_count, mid_cpu.cycles - self.cycles),
                    ..mid_cpu
                }),
                bus@ == mid_bus,
            decreases self.cycles,
        {
            proof {
                lemma_wrap_add64_inc(mid_cpu.clock_count, mid_cpu.cycles - self.cycles);
            }
            match self.step(bus) {
                Ok(()) => {},
                Err(e) => {
                    return Err(e);
                },
            }
        }
        proof {
            lemma_wrap_add64_zero(old(self).clock_count);
            lemma_wrap_add64_inc(old(self).clock_count, 0);
            if old(self).nmi_triggered {
                lemma_wrap_add64_assoc(old(self).clock_count, 1, old(self).cycles as int);
            } else if old(self).cycles > 0 {
                lemma_wrap_add64_assoc(old(self).clock_count, 1, old(self).cycles - 1);
            } else {
                let e = crate::cpu_ops::spec_exec_instruction(*old(self), old(bus)@);
                lemma_wrap_add64_zero(e.0.clock_count);
                lemma_wrap_add64_inc(e.0.clock_count, 0);
                lemma_wrap_add64_assoc(e.0.clock_count, 1, e.0.cycles - 1);
            }
        }
        Ok(())
    }
}

/// The instruction cost model: base cycles from the table, one more when a
/// page was crossed and the opcode pays the penalty, plus the branch
/// extras.
pub open spec fn instr_cost(op: Operation, crossed: bool, branch_extra: u8) -> int {
    op.cycles + (if crossed {
        spec_cycle_penalty(op.extra_cycles, op.mnemonic) as int
    } else {
        0int
    }) + branch_extra
}

/// The budget an instruction charges is exactly the cost model: the
/// page-cross flag is 0 or 1, and multiplying the penalty by it is the same
/// as paying it when crossed.
pub proof fn lemma_cycles_formula(op: Operation, pb: u8, br: u8)
    requires
        pb <= 1,
    ensures
        op.cycles + pb * spec_cycle_penalty(op.extra_cycles, op.mnemonic) + br == instr_cost(
            op,
            pb == 1,
            br,
        ),
{
}

/// Page-cross penalty: an opcode in penalty category 1 or 2 whose operation
/// is not write-style pays exactly one extra cycle when the page is
/// crossed, and none when it is not.
pub proof fn lemma_page_cross_penalty(b: u8, branch_extra: u8)
    requires
        optable(b).extra_cycles == 1 || optable(b).extra_cycles == 2,
        !crate::optable::is_write_style(optable(b).mnemonic),
    ensures
        instr_cost(optable(b), true, branch_extra) == instr_cost(optable(b), false, branch_extra)
            + 1,
{
}

/// Write-style operations never pay the page-cross penalty, whatever their
/// penalty category says.
pub proof fn lemma_write_style_no_penalty(b: u8, branch_extra: u8)
    requires
        crate::optable::is_write_style(optable(b).mnemonic),
    ensures
        instr_cost(optable(b), true, branch_extra) == instr_cost(
            optable(b),
            false,
            branch_extra,
        ),
{
}

/// Branch timing: every branch opcode has base cost 2; untaken it costs 2,
/// taken it costs 3, and taken across a page boundary it costs 4.
pub proof fn lemma_branch_timing(b: u8, cpu: Cpu, target: u16)
    requires
        crate::optable::is_branch_style(optable(b).mnemonic),
    ensures
        optable(b).cycles == 2,
        instr_cost(optable(b), false, 0) == 2,
        instr_cost(
            optable(b),
            false,
            crate::cpu_ops::branch_cpu(cpu, target).extra_cycles_branch,
        ) == (if page_crossed(cpu.reg.PC, target) {
            4int
        } else {
            3int
        }),
{
}

/// The indirect jump bug: a pointer whose low byte is `$FF` reads its high
/// byte from offset 0 of the same page, not from the next page.
pub proof fn lemma_indirect_jmp_bug(loc: u16)
    requires
        loc & 0x00FF == 0x00FF,
    ensures
        indirect_bug_high_addr(loc) == loc & 0xFF00,
{
    assert(loc & 0x00FF == 0x00FF ==> loc % 256 == 255) by (bit_vector);
    assert((loc + 1) % 256 == 0) by {
        assert(loc % 256 == 255);
        vstd::arithmetic::div_mod::lemma_add_mod_noop(loc as int, 1, 256);
    }
    assert((loc & 0xFF00) + 0 == loc & 0xFF00);
}

/// Resolving an indirect jump whose pointer sits at the last byte of a page
/// yields a target whose high byte was read from offset 0 of that same
/// page: address resolution never touches the following page.
pub proof fn lemma_indirect_target_page_wrap(cpu: Cpu, b: CpuBusView, ptr: u16)
    requires
        ptr & 0x00FF == 0x00FF,
    ensures
        spec_resolve_target(cpu, b, AddrMode::Indirect, Operand::Word(ptr))
            == InstructionTarget::MemoryAddress(
            (spec_cpu_read_val(b, ptr) as u16 | ((spec_cpu_read_val(
                spec_cpu_read_state(b, ptr),
                (ptr & 0xFF00) as u16,
            ) as u16) << 8)) as u16,
        ),
{
    lemma_indirect_jmp_bug(ptr);
}

/// The stack pointer after `n` pushes.
pub open spec fn wrap_dec_n(s: u8, n: nat) -> u8
    decreases n,
{
    if n == 0 {
        s
    } else {
        wrap_dec8(wrap_dec_n(s, (n - 1) as nat))
    }
}

/// The stack pointer after `n` pushes, arithmetically: the start pointer
/// minus `n`, modulo 256.
pub proof fn lemma_wrap_dec_n_val(s: u8, n: nat)
    ensures
        wrap_dec_n(s, n) == ((s - n) % 256) as u8,
    decreases n,
{
    if n == 0 {
        vstd::arithmetic::div_mod::lemma_small_mod(s as nat, 256);
    } else {
        lemma_wrap_dec_n_val(s, (n - 1) as nat);
        let prev = wrap_dec_n(s, (n - 1) as nat);
        assert(prev == ((s - (n - 1)) % 256) as u8);
        vstd::arithmetic::div_mod::lemma_mod_add_multiples_vanish(s - n, 256);
        if prev == 0 {
            vstd::arithmetic::div_mod::lemma_sub_mod_noop(s - (n - 1), 1, 256);
            assert((s - n) % 256 == ((s - (n - 1)) % 256 - 1int % 256) % 256);
            vstd::arithmetic::div_mod::lemma_small_mod(1nat, 256);
            vstd::arithmetic::div_mod::lemma_mod_add_multiples_vanish((prev as int) - 1, 256);
            assert((s - n) % 256 == 255);
        } else {
            vstd::arithmetic::div_mod::lemma_sub_mod_noop(s - (n - 1), 1, 256);
            vstd::arithmetic::div_mod::lemma_small_mod(1nat, 256);
            vstd::arithmetic::div_mod::lemma_small_mod((prev - 1) as nat, 256);
            assert((s - n) % 256 == (prev - 1) % 256);
        }
    }
}

/// The bus after pushing a sequence of bytes, first element first.
pub open spec fn spec_push_seq(b: CpuBusView, s: u8, vs: Seq<u8>) -> CpuBusView
    decreases vs.len(),
{
    if vs.len() == 0 {
        b
    } else {
        spec_push_seq(spec_push(b, s, vs[0]), wrap_dec8(s), vs.skip(1))
    }
}

/// Pushing does not disturb other stack cells: after a push at pointer
/// `s`, every stack cell at a different pointer reads as before.
pub proof fn lemma_push_preserves_other_cells(b: CpuBusView, s: u8, v: u8, t: u8)
    requires
        b.ram.len() == 0x800,
        t != s,
    ensures
        spec_pop_val(spec_push(b, s, v), t) == spec_pop_val(b, t),
        spec_push(b, s, v).ram.len() == 0x800,
{
    let a_s = stack_addr(s);
    let a_t = stack_addr(t);
    assert(crate::cpu_bus::ram_index(a_s) == a_s && crate::cpu_bus::ram_index(a_t) == a_t) by {
        let s16 = s as u16;
        let t16 = t as u16;
        assert(((0x0100 + s16) as u16) & 0x07FF == 0x0100 + s16 && ((0x0100 + t16) as u16)
            & 0x07FF == 0x0100 + t16) by (bit_vector)
            requires
                s16 < 0x100 && t16 < 0x100,
        ;
    }
}

/// Pushing then popping returns the pushed byte with the stack pointer
/// restored: one round of last-in, first-out.
pub proof fn lemma_stack_push_pop(b: CpuBusView, s: u8, v: u8)
    requires
        b.ram.len() == 0x800,
    ensures
        wrap_inc8(wrap_dec8(s)) == s,
        spec_pop_val(spec_push(b, s, v), s) == v,
{
    let a = stack_addr(s);
    assert(crate::cpu_bus::ram_index(a) == a && a < 0x800) by {
        let s16 = s as u16;
        assert(((0x0100 + s16) as u16) & 0x07FF == 0x0100 + s16 && 0x0100 + s16 < 0x800)
            by (bit_vector)
            requires
                s16 < 0x100,
        ;
    }
}

/// Last-in, first-out for sequences of any length up to the stack's size:
/// after pushing the bytes of `vs` in order, the cell reached by `j` pushes
/// from the start still holds `vs[j]` for every `j`; in particular pops,
/// which walk the pointers in the reverse of the push order, return the
/// bytes in reverse order of pushing. The stack pointer wraps modulo 256.
pub proof fn lemma_stack_lifo(b: CpuBusView, s: u8, vs: Seq<u8>, j: int)
    requires
        b.ram.len() == 0x800,
        vs.len() <= 256,
        0 <= j < vs.len(),
    ensures
        spec_pop_val(spec_push_seq(b, s, vs), wrap_dec_n(s, j as nat)) == vs[j],
        spec_push_seq(b, s, vs).ram.len() == 0x800,
    decreases vs.len(),
{
    let pushed1 = spec_push(b, s, vs[0]);
    assert(pushed1.ram.len() == 0x800) by {
        lemma_push_preserves_other_cells(b, s, vs[0], wrap_inc8(s));
    }
    if j == 0 {
        lemma_stack_push_pop(b, s, vs[0]);
        assert(forall|k: int|
            0 <= k < vs.skip(1).len() ==> #[trigger] wrap_dec_n(wrap_dec8(s), k as nat) != s) by {
            assert forall|k: int|
                0 <= k < vs.skip(1).len() implies #[trigger] wrap_dec_n(wrap_dec8(s), k as nat)
                != s by {
                lemma_wrap_dec_n_shift(s, (k + 1) as nat);
                lemma_wrap_dec_n_val(s, (k + 1) as nat);
                vstd::arithmetic::div_mod::lemma_small_mod(s as nat, 256);
                if wrap_dec_n(s, (k + 1) as nat) == s {
                    assert((s - (k + 1)) % 256 == (s as int) % 256);
                    vstd::arithmetic::div_mod::lemma_mod_add_multiples_vanish(s - (k + 1), 256);
                    assert((s - (k + 1) + 256) % 256 == (s as int) % 256);
                    vstd::arithmetic::div_mod::lemma_small_mod((s - (k + 1) + 256) as nat, 256);
                    assert(false);
                }
            }
        }
        lemma_seq_cells_untouched(pushed1, wrap_dec8(s), vs.skip(1), s);
    } else {
        lemma_stack_lifo(pushed1, wrap_dec8(s), vs.skip(1), j - 1);
        assert(wrap_dec_n(wrap_dec8(s), (j - 1) as nat) == wrap_dec_n(s, j as nat)) by {
            lemma_wrap_dec_n_shift(s, j as nat);
        }
        assert(vs.skip(1)[j - 1] == vs[j]);
    }
}

/// Unrolling one push from the front of the pointer walk.
pub proof fn lemma_wrap_dec_n_shift(s: u8, n: nat)
    requires
        n >= 1,
    ensures
        wrap_dec_n(wrap_dec8(s), (n - 1) as nat) == wrap_dec_n(s, n),
    decreases n,
{
    if n == 1 {
        assert(wrap_dec_n(wrap_dec8(s), 0) == wrap_dec8(s));
        assert(wrap_dec_n(s, 0) == s);
        assert(wrap_dec_n(s, 1) == wrap_dec8(wrap_dec_n(s, 0)));
    } else {
        lemma_wrap_dec_n_shift(s, (n - 1) as nat);
        assert(wrap_dec_n(s, n) == wrap_dec8(wrap_dec_n(s, (n - 1) as nat)));
        assert(wrap_dec_n(wrap_dec8(s), (n - 1) as nat) == wrap_dec8(
            wrap_dec_n(wrap_dec8(s), (n - 2) as nat),
        ));
    }
}

/// A sequence of pushes at pointers below a cell leaves that cell alone, as
/// long as the walk does not wrap all the way around onto it.
pub proof fn lemma_seq_cells_untouched(b: CpuBusView, s: u8, vs: Seq<u8>, t: u8)
    requires
        b.ram.len() == 0x800,
        vs.len() <= 255,
        forall|k: int| 0 <= k < vs.len() ==> #[trigger] wrap_dec_n(s, k as nat) != t,
    ensures
        spec_pop_val(spec_push_seq(b, s, vs), t) == spec_pop_val(b, t),
        spec_push_seq(b, s, vs).ram.len() == 0x800,
    decreases vs.len(),
{
    if vs.len() > 0 {
        assert(wrap_dec_n(s, (0int) as nat) != t);
        lemma_push_preserves_other_cells(b, s, vs[0], t);
        assert(forall|k: int|
            0 <= k < vs.skip(1).len() ==> #[trigger] wrap_dec_n(wrap_dec8(s), k as nat) != t) by {
            assert forall|k: int|
                0 <= k < vs.skip(1).len() implies #[trigger] wrap_dec_n(wrap_dec8(s), k as nat)
                != t by {
                lemma_wrap_dec_n_shift(s, (k + 1) as nat);
                assert(wrap_dec_n(s, (k + 1) as nat) != t);
            }
        }
        lemma_seq_cells_untouched(spec_push(b, s, vs[0]), wrap_dec8(s), vs.skip(1), t);
    }
}

} // verus!
