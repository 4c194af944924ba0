//! The instruction set: one method per documented operation, each with an
//! exact account of what it does to the registers, the flags, and the bus.

use vstd::prelude::*;

use crate::cpu::{
    nz_flags, page_crossed, spec_fetch_bus, spec_fetch_val, spec_pop_val, spec_push,
    spec_resolve_bus, spec_resolve_extra, spec_resolve_target, spec_store_bus, spec_store_cpu,
    wrap_add16, wrap_dec8, wrap_inc64, wrap_inc8, Cpu, InstructionTarget,
};
use crate::cpu_bus::{spec_cpu_read_state, spec_cpu_read_val, CpuBus, CpuBusView};
use crate::disasm::Operand;
use crate::optable::{optable, spec_cycle_penalty, Mnemonic};
use crate::regs::{status_from_byte, status_to_byte, Reg, RegStatus};

verus! {

/// A byte difference with wrap-around.
pub open spec fn wrap_sub8(a: u8, m: u8) -> u8 {
    if a >= m {
        (a - m) as u8
    } else {
        (a + 256 - m) as u8
    }
}

/// A 16-bit value decremented with wrap-around.
pub open spec fn wrap_dec16(v: u16) -> u16 {
    if v == 0 {
        0xFFFFu16
    } else {
        (v - 1) as u16
    }
}

/// The CPU after add-with-carry of an operand byte: the sum of accumulator,
/// operand and carry, with carry out of bit 7 and signed overflow out of
/// bit 6.
pub open spec fn adc_cpu(cpu: Cpu, m: u8) -> Cpu {
    let total = cpu.reg.A + m + (if cpu.reg.P.carry {
        1int
    } else {
        0int
    });
    let r = (total % 256) as u8;
    Cpu {
        reg: Reg {
            A: r,
            P: RegStatus {
                carry: total > 255,
                overflow: ((cpu.reg.A ^ r) & (m ^ r) & 0x80) != 0,
                zero: r == 0,
                negative: r & 0x80 != 0,
                ..cpu.reg.P
            },
            ..cpu.reg
        },
        ..cpu
    }
}

/// Subtract-with-carry is add-with-carry of the operand's complement.
pub open spec fn sbc_cpu(cpu: Cpu, m: u8) -> Cpu {
    adc_cpu(cpu, !m)
}

/// The CPU after a bitwise operation left its result in the accumulator.
pub open spec fn acc_nz_cpu(cpu: Cpu, r: u8) -> Cpu {
    Cpu { reg: Reg { A: r, P: nz_flags(cpu.reg.P, r), ..cpu.reg }, ..cpu }
}

/// The CPU after a compare of a register against an operand byte: carry when
/// the register is no smaller, zero on equality, negative from the wrapped
/// difference.
pub open spec fn cmp_flags(p: RegStatus, reg: u8, m: u8) -> RegStatus {
    RegStatus {
        carry: reg >= m,
        zero: reg == m,
        negative: wrap_sub8(reg, m) & 0x80 != 0,
        ..p
    }
}

/// The CPU after a bit test: negative and overflow copied from the operand's
/// top bits, zero from the masked accumulator; the accumulator itself stays.
pub open spec fn bit_cpu(cpu: Cpu, m: u8) -> Cpu {
    Cpu {
        reg: Reg {
            P: RegStatus {
                negative: m & 0x80 != 0,
                overflow: m & 0x40 != 0,
                zero: cpu.reg.A & m == 0,
                ..cpu.reg.P
            },
            ..cpu.reg
        },
        ..cpu
    }
}

/// The flags a shift or rotate leaves: the shifted-out bit in carry, zero
/// and negative from the result.
pub open spec fn shift_flags(p: RegStatus, carry_out: bool, r: u8) -> RegStatus {
    RegStatus { carry: carry_out, ..nz_flags(p, r) }
}

/// The CPU after a taken branch: the program counter moves to the target,
/// and the branch pays one extra cycle, or two when the target page differs
/// from the page of the program counter after the fetch.
pub open spec fn branch_cpu(cpu: Cpu, target: u16) -> Cpu {
    Cpu {
        reg: Reg { PC: target, ..cpu.reg },
        extra_cycles_branch: if page_crossed(cpu.reg.PC, target) {
            2u8
        } else {
            1u8
        },
        ..cpu
    }
}

impl Cpu {
    /// Add with carry.
    pub fn op_adc(&mut self, bus: &mut CpuBus, target: InstructionTarget)
        requires
            old(bus).wf(),
            old(bus).has_cart(),
        ensures
            final(bus).wf(),
            final(bus).has_cart(),
            final(bus)@ == spec_fetch_bus(old(bus)@, target),
            *final(self) == adc_cpu(
                *old(self),
                spec_fetch_val(*old(self), old(bus)@, target),
            ),
    {
        let m = self.fetch(bus, target);
        let a = self.reg.A;
        let sum: u16 = a as u16 + m as u16 + (if self.reg.P.carry {
            1
        } else {
            0
        });
        self.reg.P.carry = sum > 255;
        let r = (sum % 256) as u8;
        self.reg.A = r;
        self.reg.P.overflow = ((a ^ r) & (m ^ r) & 0x80) != 0;
        self.reg.P.zero = r == 0;
        self.reg.P.negative = r & 0x80 != 0;
    }

    /// Subtract with carry: add-with-carry of the complement.
    pub fn op_sbc(&mut self, bus: &mut CpuBus, target: InstructionTarget)
        requires
            old(bus).wf(),
            old(bus).has_cart(),
        ensures
            final(bus).wf(),
            final(bus).has_cart(),
            final(bus)@ == spec_fetch_bus(old(bus)@, target),
            *final(self) == sbc_cpu(
                *old(self),
                spec_fetch_val(*old(self), old(bus)@, target),
            ),
    {
        let fetched = self.fetch(bus, target);
        let m = !fetched;
        let a = self.reg.A;
        let sum: u16 = a as u16 + m as u16 + (if self.reg.P.carry {
            1
        } else {
            0
        });
        self.reg.P.carry = sum > 255;
        let r = (sum % 256) as u8;
        self.reg.A = r;
        self.reg.P.overflow = ((a ^ r) & (m ^ r) & 0x80) != 0;
        self.reg.P.zero = r == 0;
        self.reg.P.negative = r & 0x80 != 0;
    }

    /// Bitwise and into the accumulator.
    pub fn op_and(&mut self, bus: &mut CpuBus, target: InstructionTarget)
        requires
            old(bus).wf(),
            old(bus).has_cart(),
        ensures
            final(bus).wf(),
            final(bus).has_cart(),
            final(bus)@ == spec_fetch_bus(old(bus)@, target),
            *final(self) == acc_nz_cpu(
                *old(self),
                old(self).reg.A & spec_fetch_val(*old(self), old(bus)@, target),
            ),
    {
        let m = self.fetch(bus, target);
        let r = self.reg.A & m;
        self.reg.A = r;
        self.reg.P.zero = r == 0;
        self.reg.P.negative = r & 0x80 != 0;
    }

    /// Bitwise or into the accumulator.
    pub fn op_ora(&mut self, bus: &mut CpuBus, target: InstructionTarget)
        requires
            old(bus).wf(),
            old(bus).has_cart(),
        ensures
            final(bus).wf(),
            final(bus).has_cart(),
            final(bus)@ == spec_fetch_bus(old(bus)@, target),
            *final(self) == acc_nz_cpu(
                *old(self),
                old(self).reg.A | spec_fetch_val(*old(self), old(bus)@, target),
            ),
    {
        let m = self.fetch(bus, target);
        let r = self.reg.A | m;
        self.reg.A = r;
        self.reg.P.zero = r == 0;
        self.reg.P.negative = r & 0x80 != 0;
    }

    /// Bitwise exclusive or into the accumulator.
    pub fn op_eor(&mut self, bus: &mut CpuBus, target: InstructionTarget)
        requires
            old(bus).wf(),
            old(bus).has_cart(),
        ensures
            final(bus).wf(),
            final(bus).has_cart(),
            final(bus)@ == spec_fetch_bus(old(bus)@, target),
            *final(self) == acc_nz_cpu(
                *old(self),
                old(self).reg.A ^ spec_fetch_val(*old(self), old(bus)@, target),
            ),
    {
        let m = self.fetch(bus, target);
        let r = self.reg.A ^ m;
        self.reg.A = r;
        self.reg.P.zero = r == 0;
        self.reg.P.negative = r & 0x80 != 0;
    }

    /// Load the accumulator.
    pub fn op_lda(&mut self, bus: &mut CpuBus, target: InstructionTarget)
        requires
            old(bus).wf(),
            old(bus).has_cart(),
        ensures
            final(bus).wf(),
            final(bus).has_cart(),
            final(bus)@ == spec_fetch_bus(old(bus)@, target),
            *final(self) == acc_nz_cpu(
                *old(self),
                spec_fetch_val(*old(self), old(bus)@, target),
            ),
    {
        let m = self.fetch(bus, target);
        self.reg.A = m;
        self.reg.P.zero = m == 0;
        self.reg.P.negative = m & 0x80 != 0;
    }

    /// Load the X index register.
    pub fn op_ldx(&mut self, bus: &mut CpuBus, target: InstructionTarget)
        requires
            old(bus).wf(),
            old(bus).has_cart(),
        ensures
            final(bus).wf(),
            final(bus).has_cart(),
            final(bus)@ == spec_fetch_bus(old(bus)@, target),
            *final(self) == (Cpu {
                reg: Reg {
                    X: spec_fetch_val(*old(self), old(bus)@, target),
                    P: nz_flags(
                        old(self).reg.P,
                        spec_fetch_val(*old(self), old(bus)@, target),
                    ),
                    ..old(self).reg
                },
                ..*old(self)
            }),
    {
        let m = self.fetch(bus, target);
        self.reg.X = m;
        self.reg.P.zero = m == 0;
        self.reg.P.negative = m & 0x80 != 0;
    }

    /// Load the Y index register.
    pub fn op_ldy(&mut self, bus: &mut CpuBus, target: InstructionTarget)
        requires
            old(bus).wf(),
            old(bus).has_cart(),
        ensures
            final(bus).wf(),
            final(bus).has_cart(),
            final(bus)@ == spec_fetch_bus(old(bus)@, target),
            *final(self) == (Cpu {
                reg: Reg {
                    Y: spec_fetch_val(*old(self), old(bus)@, target),
                    P: nz_flags(
                        old(self).reg.P,
                        spec_fetch_val(*old(self), old(bus)@, target),
                    ),
                    ..old(self).reg
                },
                ..*old(self)
            }),
    {
        let m = self.fetch(bus, target);
        self.reg.Y = m;
        self.reg.P.zero = m == 0;
        self.reg.P.negative = m & 0x80 != 0;
    }

    /// Compare the accumulator with an operand.
    pub fn op_cmp(&mut self, bus: &mut CpuBus, target: InstructionTarget)
        requires
            old(bus).wf(),
            old(bus).has_cart(),
        ensures
            final(bus).wf(),
            final(bus).has_cart(),
            final(bus)@ == spec_fetch_bus(old(bus)@, target),
            *final(self) == (Cpu {
                reg: Reg {
                    P: cmp_flags(
                        old(self).reg.P,
                        old(self).reg.A,
                        spec_fetch_val(*old(self), old(bus)@, target),
                    ),
                    ..old(self).reg
                },
                ..*old(self)
            }),
    {
        let m = self.fetch(bus, target);
        let a = self.reg.A;
        let result = a.wrapping_sub(m);
        self.reg.P.carry = a >= m;
        self.reg.P.zero = a == m;
        self.reg.P.negative = result & 0x80 != 0;
    }

    /// Compare the X index register with an operand.
    pub fn op_cpx(&mut self, bus: &mut CpuBus, target: InstructionTarget)
        requires
            old(bus).wf(),
            old(bus).has_cart(),
        ensures
            final(bus).wf(),
            final(bus).has_cart(),
            final(bus)@ == spec_fetch_bus(old(bus)@, target),
            *final(self) == (Cpu {
                reg: Reg {
                    P: cmp_flags(
                        old(self).reg.P,
                        old(self).reg.X,
                        spec_fetch_val(*old(self), old(bus)@, target),
                    ),
                    ..old(self).reg
                },
                ..*old(self)
            }),
    {
        let m = self.fetch(bus, target);
        let x = self.reg.X;
        let result = x.wrapping_sub(m);
        self.reg.P.carry = x >= m;
        self.reg.P.zero = x == m;
        self.reg.P.negative = result & 0x80 != 0;
    }

    /// Compare the Y index register with an operand.
    pub fn op_cpy(&mut self, bus: &mut CpuBus, target: InstructionTarget)
        requires
            old(bus).wf(),
            old(bus).has_cart(),
        ensures
            final(bus).wf(),
            final(bus).has_cart(),
            final(bus)@ == spec_fetch_bus(old(bus)@, target),
            *final(self) == (Cpu {
                reg: Reg {
                    P: cmp_flags(
                        old(self).reg.P,
                        old(self).reg.Y,
                        spec_fetch_val(*old(self), old(bus)@, target),
                    ),
                    ..old(self).reg
                },
                ..*old(self)
            }),
    {
        let m = self.fetch(bus, target);
        let y = self.reg.Y;
        let result = y.wrapping_sub(m);
        self.reg.P.carry = y >= m;
        self.reg.P.zero = y == m;
        self.reg.P.negative = result & 0x80 != 0;
    }

    /// Bit test: flags from the operand and the masked accumulator; the
    /// accumulator itself is untouched.
    pub fn op_bit(&mut self, bus: &mut CpuBus, target: InstructionTarget)
        requires
            old(bus).wf(),
            old(bus).has_cart(),
        ensures
            final(bus).wf(),
            final(bus).has_cart(),
            final(bus)@ == spec_fetch_bus(old(bus)@, target),
            *final(self) == bit_cpu(
                *old(self),
                spec_fetch_val(*old(self), old(bus)@, target),
            ),
    {
        let m = self.fetch(bus, target);
        self.reg.P.negative = m & 0x80 != 0;
        self.reg.P.overflow = m & 0x40 != 0;
        self.reg.P.zero = self.reg.A & m == 0;
    }

    /// Arithmetic shift left of the target.
    pub fn op_asl(&mut self, bus: &mut CpuBus, target: InstructionTarget)
        requires
            old(bus).wf(),
            old(bus).has_cart(),
            target is Accumulator || target is MemoryAddress,
        ensures
            final(bus).wf(),
            final(bus).has_cart(),
            final(bus)@ == spec_store_bus(
                spec_fetch_bus(old(bus)@, target),
                target,
                spec_fetch_val(*old(self), old(bus)@, target) << 1,
            ),
            *final(self) == (Cpu {
                reg: Reg {
                    P: shift_flags(
                        old(self).reg.P,
                        spec_fetch_val(*old(self), old(bus)@, target) & 0x80 != 0,
                        spec_fetch_val(*old(self), old(bus)@, target) << 1,
                    ),
                    ..spec_store_cpu(
                        *old(self),
                        target,
                        spec_fetch_val(*old(self), old(bus)@, target) << 1,
                    ).reg
                },
                ..*old(self)
            }),
    {
        let m = self.fetch(bus, target);
        let r = m << 1;
        self.store(r, bus, target);
        self.reg.P.carry = m & 0x80 != 0;
        self.reg.P.zero = r == 0;
        self.reg.P.negative = r & 0x80 != 0;
    }

    /// Logical shift right of the target.
    pub fn op_lsr(&mut self, bus: &mut CpuBus, target: InstructionTarget)
        requires
            old(bus).wf(),
            old(bus).has_cart(),
            target is Accumulator || target is MemoryAddress,
        ensures
            final(bus).wf(),
            final(bus).has_cart(),
            final(bus)@ == spec_store_bus(
                spec_fetch_bus(old(bus)@, target),
                target,
                spec_fetch_val(*old(self), old(bus)@, target) >> 1,
            ),
            *final(self) == (Cpu {
                reg: Reg {
                    P: shift_flags(
                        old(self).reg.P,
                        spec_fetch_val(*old(self), old(bus)@, target) & 0x01 != 0,
                        spec_fetch_val(*old(self), old(bus)@, target) >> 1,
                    ),
                    ..spec_store_cpu(
                        *old(self),
                        target,
                        spec_fetch_val(*old(self), old(bus)@, target) >> 1,
                    ).reg
                },
                ..*old(self)
            }),
    {
        let m = self.fetch(bus, target);
        let r = m >> 1;
        self.store(r, bus, target);
        self.reg.P.carry = m & 0x01 != 0;
        self.reg.P.zero = r == 0;
        self.reg.P.negative = r & 0x80 != 0;
    }

    /// Rotate left through carry.
    pub fn op_rol(&mut self, bus: &mut CpuBus, target: InstructionTarget)
        requires
            old(bus).wf(),
            old(bus).has_cart(),
            target is Accumulator || target is MemoryAddress,
        ensures
            final(bus).wf(),
            final(bus).has_cart(),
            final(bus)@ == spec_store_bus(
                spec_fetch_bus(old(bus)@, target),
                target,
                (spec_fetch_val(*old(self), old(bus)@, target) << 1) | (if old(self).reg.P.carry {
                    1u8
                } else {
                    0u8
                }),
            ),
            *final(self) == (Cpu {
                reg: Reg {
                    P: shift_flags(
                        old(self).reg.P,
                        spec_fetch_val(*old(self), old(bus)@, target) & 0x80 != 0,
                        (spec_fetch_val(*old(self), old(bus)@, target) << 1) | (if old(self).reg.P.carry {
                            1u8
                        } else {
                            0u8
                        }),
                    ),
                    ..spec_store_cpu(
                        *old(self),
                        target,
                        (spec_fetch_val(*old(self), old(bus)@, target) << 1) | (if old(self).reg.P.carry {
                            1u8
                        } else {
                            0u8
                        }),
                    ).reg
                },
                ..*old(self)
            }),
    {
        let m = self.fetch(bus, target);
        let old_carry: u8 = if self.reg.P.carry {
            1
        } else {
            0
        };
        let r = (m << 1) | old_carry;
        self.store(r, bus, target);
        self.reg.P.carry = m & 0x80 != 0;
        self.reg.P.zero = r == 0;
        self.reg.P.negative = r & 0x80 != 0;
    }

    /// Rotate right through carry.
    pub fn op_ror(&mut self, bus: &mut CpuBus, target: InstructionTarget)
        requires
            old(bus).wf(),
            old(bus).has_cart(),
            target is Accumulator || target is MemoryAddress,
        ensures
            final(bus).wf(),
            final(bus).has_cart(),
            final(bus)@ == spec_store_bus(
                spec_fetch_bus(old(bus)@, target),
                target,
                (spec_fetch_val(*old(self), old(bus)@, target) >> 1) | (if old(self).reg.P.carry {
                    0x80u8
                } else {
                    0u8
                }),
            ),
            *final(self) == (Cpu {
                reg: Reg {
                    P: shift_flags(
                        old(self).reg.P,
                        spec_fetch_val(*old(self), old(bus)@, target) & 0x01 != 0,
                        (spec_fetch_val(*old(self), old(bus)@, target) >> 1) | (if old(self).reg.P.carry {
                            0x80u8
                        } else {
                            0u8
                        }),
                    ),
                    ..spec_store_cpu(
                        *old(self),
                        target,
                        (spec_fetch_val(*old(self), old(bus)@, target) >> 1) | (if old(self).reg.P.carry {
                            0x80u8
                        } else {
                            0u8
                        }),
                    ).reg
                },
                ..*old(self)
            }),
    {
        let m = self.fetch(bus, target);
        let old_carry: u8 = if self.reg.P.carry {
            0x80
        } else {
            0
        };
        let r = (m >> 1) | old_carry;
        self.store(r, bus, target);
        self.reg.P.carry = m & 0x01 != 0;
        self.reg.P.zero = r == 0;
        self.reg.P.negative = r & 0x80 != 0;
    }

    /// Increment the target memory cell.
    #[verifier::rlimit(60)]
    pub fn op_inc(&mut self, bus: &mut CpuBus, target: InstructionTarget)
        requires
            old(bus).wf(),
            old(bus).has_cart(),
            target is MemoryAddress,
        ensures
            final(bus).wf(),
            final(bus).has_cart(),
            final(bus)@ == spec_store_bus(
                spec_fetch_bus(old(bus)@, target),
                target,
                wrap_inc8(spec_fetch_val(*old(self), old(bus)@, target)),
            ),
            *final(self) == (Cpu {
                reg: Reg {
                    P: nz_flags(
                        old(self).reg.P,
                        wrap_inc8(spec_fetch_val(*old(self), old(bus)@, target)),
                    ),
                    ..old(self).reg
                },
                ..*old(self)
            }),
    {
        let m = self.fetch(bus, target);
        let r = if m == 0xFF {
            0
        } else {
            m + 1
        };
        self.reg.P.zero = r == 0;
        self.reg.P.negative = r & 0x80 != 0;
        self.store(r, bus, target);
    }

    /// Decrement the target memory cell.
    #[verifier::rlimit(60)]
    pub fn op_dec(&mut self, bus: &mut CpuBus, target: InstructionTarget)
        requires
            old(bus).wf(),
            old(bus).has_cart(),
            target is MemoryAddress,
        ensures
            final(bus).wf(),
            final(bus).has_cart(),
            final(bus)@ == spec_store_bus(
                spec_fetch_bus(old(bus)@, target),
                target,
                wrap_dec8(spec_fetch_val(*old(self), old(bus)@, target)),
            ),
            *final(self) == (Cpu {
                reg: Reg {
                    P: nz_flags(
                        old(self).reg.P,
                        wrap_dec8(spec_fetch_val(*old(self), old(bus)@, target)),
                    ),
                    ..old(self).reg
                },
                ..*old(self)
            }),
    {
        let m = self.fetch(bus, target);
        let r = if m == 0 {
            0xFF
        } else {
            m - 1
        };
        self.reg.P.zero = r == 0;
        self.reg.P.negative = r & 0x80 != 0;
        self.store(r, bus, target);
    }

    /// Increment the X index register.
    pub fn op_inx(&mut self)
        ensures
            *final(self) == (Cpu {
                reg: Reg {
                    X: wrap_inc8(old(self).reg.X),
                    P: nz_flags(old(self).reg.P, wrap_inc8(old(self).reg.X)),
                    ..old(self).reg
                },
                ..*old(self)
            }),
    {
        let x = if self.reg.X == 0xFF {
            0
        } else {
            self.reg.X + 1
        };
        self.reg.X = x;
        self.reg.P.zero = x == 0;
        self.reg.P.negative = x & 0x80 != 0;
    }

    /// Increment the Y index register.
    pub fn op_iny(&mut self)
        ensures
            *final(self) == (Cpu {
                reg: Reg {
                    Y: wrap_inc8(old(self).reg.Y),
                    P: nz_flags(old(self).reg.P, wrap_inc8(old(self).reg.Y)),
                    ..old(self).reg
                },
                ..*old(self)
            }),
    {
        let y = if self.reg.Y == 0xFF {
            0
        } else {
            self.reg.Y + 1
        };
        self.reg.Y = y;
        self.reg.P.zero = y == 0;
        self.reg.P.negative = y & 0x80 != 0;
    }

    /// Decrement the X index register.
    pub fn op_dex(&mut self)
        ensures
            *final(self) == (Cpu {
                reg: Reg {
                    X: wrap_dec8(old(self).reg.X),
                    P: nz_flags(old(self).reg.P, wrap_dec8(old(self).reg.X)),
                    ..old(self).reg
                },
                ..*old(self)
            }),
    {
        let x = if self.reg.X == 0 {
            0xFF
        } else {
            self.reg.X - 1
        };
        self.reg.X = x;
        self.reg.P.zero = x == 0;
        self.reg.P.negative = x & 0x80 != 0;
    }

    /// Decrement the Y index register.
    pub fn op_dey(&mut self)
        ensures
            *final(self) == (Cpu {
                reg: Reg {
                    Y: wrap_dec8(old(self).reg.Y),
                    P: nz_flags(old(self).reg.P, wrap_dec8(old(self).reg.Y)),
                    ..old(self).reg
                },
                ..*old(self)
            }),
    {
        let y = if self.reg.Y == 0 {
            0xFF
        } else {
            self.reg.Y - 1
        };
        self.reg.Y = y;
        self.reg.P.zero = y == 0;
        self.reg.P.negative = y & 0x80 != 0;
    }

    /// Store the accumulator at the target.
    pub fn op_sta(&mut self, bus: &mut CpuBus, target: InstructionTarget)
        requires
            old(bus).wf(),
            old(bus).has_cart(),
            target is MemoryAddress,
        ensures
            final(bus).wf(),
            final(bus).has_cart(),
            final(bus)@ == spec_store_bus(old(bus)@, target, old(self).reg.A),
            *final(self) == *old(self),
    {
        let a = self.reg.A;
        self.store(a, bus, target);
    }

    /// Store the X index register at the target.
    pub fn op_stx(&mut self, bus: &mut CpuBus, target: InstructionTarget)
        requires
            old(bus).wf(),
            old(bus).has_cart(),
            target is MemoryAddress,
        ensures
            final(bus).wf(),
            final(bus).has_cart(),
            final(bus)@ == spec_store_bus(old(bus)@, target, old(self).reg.X),
            *final(self) == *old(self),
    {
        let x = self.reg.X;
        self.store(x, bus, target);
    }

    /// Store the Y index register at the target.
    pub fn op_sty(&mut self, bus: &mut CpuBus, target: InstructionTarget)
        requires
            old(bus).wf(),
            old(bus).has_cart(),
            target is MemoryAddress,
        ensures
            final(bus).wf(),
            final(bus).has_cart(),
            final(bus)@ == spec_store_bus(old(bus)@, target, old(self).reg.Y),
            *final(self) == *old(self),
    {
        let y = self.reg.Y;
        self.store(y, bus, target);
    }

    /// Transfer the accumulator to X.
    pub fn op_tax(&mut self)
        ensures
            *final(self) == (Cpu {
                reg: Reg {
                    X: old(self).reg.A,
                    P: nz_flags(old(self).reg.P, old(self).reg.A),
                    ..old(self).reg
                },
                ..*old(self)
            }),
    {
        self.reg.X = self.reg.A;
        self.reg.P.zero = self.reg.X == 0;
        self.reg.P.negative = self.reg.X & 0x80 != 0;
    }

    /// Transfer the accumulator to Y.
    pub fn op_tay(&mut self)
        ensures
            *final(self) == (Cpu {
                reg: Reg {
                    Y: old(self).reg.A,
                    P: nz_flags(old(self).reg.P, old(self).reg.A),
                    ..old(self).reg
                },
                ..*old(self)
            }),
    {
        self.reg.Y = self.reg.A;
        self.reg.P.zero = self.reg.Y == 0;
        self.reg.P.negative = self.reg.Y & 0x80 != 0;
    }

    /// Transfer the stack pointer to X.
    pub fn op_tsx(&mut self)
        ensures
            *final(self) == (Cpu {
                reg: Reg {
                    X: old(self).reg.S,
                    P: nz_flags(old(self).reg.P, old(self).reg.S),
                    ..old(self).reg
                },
                ..*old(self)
            }),
    {
        self.reg.X = self.reg.S;
        self.reg.P.zero = self.reg.X == 0;
        self.reg.P.negative = self.reg.X & 0x80 != 0;
    }

    /// Transfer X to the accumulator.
    pub fn op_txa(&mut self)
        ensures
            *final(self) == (Cpu {
                reg: Reg {
                    A: old(self).reg.X,
                    P: nz_flags(old(self).reg.P, old(self).reg.X),
                    ..old(self).reg
                },
                ..*old(self)
            }),
    {
        self.reg.A = self.reg.X;
        self.reg.P.zero = self.reg.A == 0;
        self.reg.P.negative = self.reg.A & 0x80 != 0;
    }

    /// Transfer X to the stack pointer; no flags change.
    pub fn op_txs(&mut self)
        ensures
            *final(self) == (Cpu { reg: Reg { S: old(self).reg.X, ..old(self).reg }, ..*old(self) }),
    {
        self.reg.S = self.reg.X;
    }

    /// Transfer Y to the accumulator.
    pub fn op_tya(&mut self)
        ensures
            *final(self) == (Cpu {
                reg: Reg {
                    A: old(self).reg.Y,
                    P: nz_flags(old(self).reg.P, old(self).reg.Y),
                    ..old(self).reg
                },
                ..*old(self)
            }),
    {
        self.reg.A = self.reg.Y;
        self.reg.P.zero = self.reg.A == 0;
        self.reg.P.negative = self.reg.A & 0x80 != 0;
    }

    /// Clear the carry flag.
    pub fn op_clc(&mut self)
        ensures
            *final(self) == (Cpu {
                reg: Reg {
                    P: RegStatus { carry: false, ..old(self).reg.P },
                    ..old(self).reg
                },
                ..*old(self)
            }),
    {
        self.reg.P.carry = false;
    }

    /// Set the carry flag.
    pub fn op_sec(&mut self)
        ensures
            *final(self) == (Cpu {
                reg: Reg {
                    P: RegStatus { carry: true, ..old(self).reg.P },
                    ..old(self).reg
                },
                ..*old(self)
            }),
    {
        self.reg.P.carry = true;
    }

    /// Clear the decimal flag.
    pub fn op_cld(&mut self)
        ensures
            *final(self) == (Cpu {
                reg: Reg {
                    P: RegStatus { decimal: false, ..old(self).reg.P },
                    ..old(self).reg
                },
                ..*old(self)
            }),
    {
        self.reg.P.decimal = false;
    }

    /// Set the decimal flag.
    pub fn op_sed(&mut self)
        ensures
            *final(self) == (Cpu {
                reg: Reg {
                    P: RegStatus { decimal: true, ..old(self).reg.P },
                    ..old(self).reg
                },
                ..*old(self)
            }),
    {
        self.reg.P.decimal = true;
    }

    /// Clear the interrupt-disable flag.
    pub fn op_cli(&mut self)
        ensures
            *final(self) == (Cpu {
                reg: Reg {
                    P: RegStatus { interrupt: false, ..old(self).reg.P },
                    ..old(self).reg
                },
                ..*old(self)
            }),
    {
        self.reg.P.interrupt = false;
    }

    /// Set the interrupt-disable flag.
    pub fn op_sei(&mut self)
        ensures
            *final(self) == (Cpu {
                reg: Reg {
                    P: RegStatus { interrupt: true, ..old(self).reg.P },
                    ..old(self).reg
                },
                ..*old(self)
            }),
    {
        self.reg.P.interrupt = true;
    }

    /// Clear the overflow flag.
    pub fn op_clv(&mut self)
        ensures
            *final(self) == (Cpu {
                reg: Reg {
                    P: RegStatus { overflow: false, ..old(self).reg.P },
                    ..old(self).reg
                },
                ..*old(self)
            }),
    {
        self.reg.P.overflow = false;
    }

    /// No operation.
    pub fn op_nop(&mut self)
        ensures
            *final(self) == *old(self),
    {
    }

    /// Jump to the resolved target.
    pub fn op_jmp(&mut self, target: InstructionTarget)
        requires
            target is MemoryAddress,
        ensures
            *final(self) == (Cpu {
                reg: Reg { PC: target->MemoryAddress_0, ..old(self).reg },
                ..*old(self)
            }),
    {
        self.reg.PC = match target {
            InstructionTarget::MemoryAddress(w) => w,
            _ => 0,
        };
    }

    /// Branch when the carry flag is clear.
    pub fn op_bcc(&mut self, target: InstructionTarget)
        requires
            target is MemoryAddress,
        ensures
            *final(self) == (if !old(self).reg.P.carry {
                branch_cpu(*old(self), target->MemoryAddress_0)
            } else {
                *old(self)
            }),
    {
        if !self.reg.P.carry {
            self.branch(target);
        }
    }

    /// Branch when the carry flag is set.
    pub fn op_bcs(&mut self, target: InstructionTarget)
        requires
            target is MemoryAddress,
        ensures
            *final(self) == (if old(self).reg.P.carry {
                branch_cpu(*old(self), target->MemoryAddress_0)
            } else {
                *old(self)
            }),
    {
        if self.reg.P.carry {
            self.branch(target);
        }
    }

    /// Branch when the zero flag is set.
    pub fn op_beq(&mut self, target: InstructionTarget)
        requires
            target is MemoryAddress,
        ensures
            *final(self) == (if old(self).reg.P.zero {
                branch_cpu(*old(self), target->MemoryAddress_0)
            } else {
                *old(self)
            }),
    {
        if self.reg.P.zero {
            self.branch(target);
        }
    }

    /// Branch when the zero flag is clear.
    pub fn op_bne(&mut self, target: InstructionTarget)
        requires
            target is MemoryAddress,
        ensures
            *final(self) == (if !old(self).reg.P.zero {
                branch_cpu(*old(self), target->MemoryAddress_0)
            } else {
                *old(self)
            }),
    {
        if !self.reg.P.zero {
            self.branch(target);
        }
    }

    /// Branch when the negative flag is set.
    pub fn op_bmi(&mut self, target: InstructionTarget)
        requires
            target is MemoryAddress,
        ensures
            *final(self) == (if old(self).reg.P.negative {
                branch_cpu(*old(self), target->MemoryAddress_0)
            } else {
                *old(self)
            }),
    {
        if self.reg.P.negative {
            self.branch(target);
        }
    }

    /// Branch when the negative flag is clear.
    pub fn op_bpl(&mut self, target: InstructionTarget)
        requires
            target is MemoryAddress,
        ensures
            *final(self) == (if !old(self).reg.P.negative {
                branch_cpu(*old(self), target->MemoryAddress_0)
            } else {
                *old(self)
            }),
    {
        if !self.reg.P.negative {
            self.branch(target);
        }
    }

    /// Branch when the overflow flag is set.
    pub fn op_bvs(&mut self, target: InstructionTarget)
        requires
            target is MemoryAddress,
        ensures
            *final(self) == (if old(self).reg.P.overflow {
                branch_cpu(*old(self), target->MemoryAddress_0)
            } else {
                *old(self)
            }),
    {
        if self.reg.P.overflow {
            self.branch(target);
        }
    }

    /// Branch when the overflow flag is clear.
    pub fn op_bvc(&mut self, target: InstructionTarget)
        requires
            target is MemoryAddress,
        ensures
            *final(self) == (if !old(self).reg.P.overflow {
                branch_cpu(*old(self), target->MemoryAddress_0)
            } else {
                *old(self)
            }),
    {
        if !self.reg.P.overflow {
            self.branch(target);
        }
    }

    /// Push the accumulator.
    pub fn op_pha(&mut self, bus: &mut CpuBus)
        requires
            old(bus).wf(),
            old(bus).has_cart(),
        ensures
            final(bus).wf(),
            final(bus).has_cart(),
            final(bus)@ == spec_push(old(bus)@, old(self).reg.S, old(self).reg.A),
            *final(self) == (Cpu {
                reg: Reg { S: wrap_dec8(old(self).reg.S), ..old(self).reg },
                ..*old(self)
            }),
    {
        let a = self.reg.A;
        self.push_stack(bus, a);
    }

    /// Push the status register with the break and unused bits set.
    pub fn op_php(&mut self, bus: &mut CpuBus)
        requires
            old(bus).wf(),
            old(bus).has_cart(),
        ensures
            final(bus).wf(),
            final(bus).has_cart(),
            final(bus)@ == spec_push(
                old(bus)@,
                old(self).reg.S,
                status_to_byte(RegStatus { brk: true, unused: true, ..old(self).reg.P }),
            ),
            *final(self) == (Cpu {
                reg: Reg { S: wrap_dec8(old(self).reg.S), ..old(self).reg },
                ..*old(self)
            }),
    {
        let mut status = self.reg.P;
        status.brk = true;
        status.unused = true;
        let b = RegStatus::to_byte(&status);
        self.push_stack(bus, b);
    }

    /// Pop into the accumulator.
    pub fn op_pla(&mut self, bus: &mut CpuBus)
        requires
            old(bus).wf(),
            old(bus).has_cart(),
        ensures
            final(bus).wf(),
            final(bus).has_cart(),
            final(bus)@ == old(bus)@,
            *final(self) == (Cpu {
                reg: Reg {
                    A: spec_pop_val(old(bus)@, wrap_inc8(old(self).reg.S)),
                    S: wrap_inc8(old(self).reg.S),
                    P: nz_flags(
                        old(self).reg.P,
                        spec_pop_val(old(bus)@, wrap_inc8(old(self).reg.S)),
                    ),
                    ..old(self).reg
                },
                ..*old(self)
            }),
    {
        let byte = self.pop_stack(bus);
        self.reg.A = byte;
        self.reg.P.zero = byte == 0;
        self.reg.P.negative = byte & 0x80 != 0;
    }

    /// Pop the status register, keeping the current break and unused bits.
    pub fn op_plp(&mut self, bus: &mut CpuBus)
        requires
            old(bus).wf(),
            old(bus).has_cart(),
        ensures
            final(bus).wf(),
            final(bus).has_cart(),
            final(bus)@ == old(bus)@,
            *final(self) == (Cpu {
                reg: Reg {
                    S: wrap_inc8(old(self).reg.S),
                    P: status_from_byte(
                        (spec_pop_val(old(bus)@, wrap_inc8(old(self).reg.S)) & 0xCF) | (
                        status_to_byte(old(self).reg.P) & 0x30),
                    ),
                    ..old(self).reg
                },
                ..*old(self)
            }),
    {
        let kept: u8 = RegStatus::to_byte(&self.reg.P) & 0x30;
        let popped: u8 = self.pop_stack(bus) & 0xCF;
        self.reg.P = RegStatus::from_byte(popped | kept);
    }

    /// Jump to subroutine: push the address of the instruction's last byte,
    /// high byte first, then jump.
    pub fn op_jsr(&mut self, bus: &mut CpuBus, target: InstructionTarget)
        requires
            old(bus).wf(),
            old(bus).has_cart(),
            target is MemoryAddress,
        ensures
            final(bus).wf(),
            final(bus).has_cart(),
            final(bus)@ == spec_push(
                spec_push(old(bus)@, old(self).reg.S, (wrap_dec16(old(self).reg.PC) >> 8) as u8),
                wrap_dec8(old(self).reg.S),
                (wrap_dec16(old(self).reg.PC) & 0xFF) as u8,
            ),
            *final(self) == (Cpu {
                reg: Reg {
                    PC: target->MemoryAddress_0,
                    S: wrap_dec8(wrap_dec8(old(self).reg.S)),
                    ..old(self).reg
                },
                ..*old(self)
            }),
    {
        let loc = if self.reg.PC == 0 {
            0xFFFF
        } else {
            self.reg.PC - 1
        };
        let hi = (loc >> 8) as u8;
        let lo = (loc & 0xFF) as u8;
        self.push_stack(bus, hi);
        self.push_stack(bus, lo);
        self.reg.PC = match target {
            InstructionTarget::MemoryAddress(w) => w,
            _ => 0,
        };
    }

    /// Return from subroutine: pop the program counter, low byte first, and
    /// step past it.
    pub fn op_rts(&mut self, bus: &mut CpuBus)
        requires
            old(bus).wf(),
            old(bus).has_cart(),
        ensures
            final(bus).wf(),
            final(bus).has_cart(),
            final(bus)@ == old(bus)@,
            *final(self) == (Cpu {
                reg: Reg {
                    PC: wrap_add16(
                        (spec_pop_val(old(bus)@, wrap_inc8(old(self).reg.S)) as u16 | ((
                        spec_pop_val(old(bus)@, wrap_inc8(wrap_inc8(old(self).reg.S))) as u16)
                            << 8)) as u16,
                        1,
                    ),
                    S: wrap_inc8(wrap_inc8(old(self).reg.S)),
                    ..old(self).reg
                },
                ..*old(self)
            }),
    {
        let lo = self.pop_stack(bus) as u16;
        let hi = self.pop_stack(bus) as u16;
        self.reg.PC = crate::cpu::wrap_add16_exec(lo | (hi << 8), 1);
    }

    /// Return from interrupt: pop the status register, then the program
    /// counter, low byte first.
    pub fn op_rti(&mut self, bus: &mut CpuBus)
        requires
            old(bus).wf(),
            old(bus).has_cart(),
        ensures
            final(bus).wf(),
            final(bus).has_cart(),
            final(bus)@ == old(bus)@,
            *final(self) == (Cpu {
                reg: Reg {
                    P: status_from_byte(spec_pop_val(old(bus)@, wrap_inc8(old(self).reg.S))),
                    PC: (spec_pop_val(old(bus)@, wrap_inc8(wrap_inc8(old(self).reg.S))) as u16 | (
                    (spec_pop_val(
                        old(bus)@,
                        wrap_inc8(wrap_inc8(wrap_inc8(old(self).reg.S))),
                    ) as u16) << 8)) as u16,
                    S: wrap_inc8(wrap_inc8(wrap_inc8(old(self).reg.S))),
                    ..old(self).reg
                },
                ..*old(self)
            }),
    {
        let p = self.pop_stack(bus);
        self.reg.P = RegStatus::from_byte(p);
        let lo = self.pop_stack(bus) as u16;
        let hi = self.pop_stack(bus) as u16;
        self.reg.PC = lo | (hi << 8);
    }

    /// Force an interrupt: push the incremented program counter high byte
    /// first, push the status with the break and unused bits set in the
    /// pushed byte only, and jump through the vector at `$FFFE`/`$FFFF`.
    pub fn op_brk(&mut self, bus: &mut CpuBus)
        requires
            old(bus).wf(),
            old(bus).has_cart(),
        ensures
            final(bus).wf(),
            final(bus).has_cart(),
            final(bus)@ == spec_brk_bus(*old(self), old(bus)@),
            *final(self) == (Cpu {
                reg: Reg {
                    PC: (spec_cpu_read_val(spec_brk_bus(*old(self), old(bus)@), 0xFFFE) as u16 | (
                    (spec_cpu_read_val(spec_brk_bus(*old(self), old(bus)@), 0xFFFF) as u16)
                        << 8)) as u16,
                    S: wrap_dec8(wrap_dec8(wrap_dec8(old(self).reg.S))),
                    ..old(self).reg
                },
                ..*old(self)
            }),
    {
        let pc1 = crate::cpu::wrap_add16_exec(self.reg.PC, 1);
        let hi = (pc1 >> 8) as u8;
        let lo = (pc1 & 0xFF) as u8;
        self.push_stack(bus, hi);
        self.push_stack(bus, lo);
        let mut pushed = self.reg.P;
        pushed.brk = true;
        pushed.unused = true;
        let pb = RegStatus::to_byte(&pushed);
        self.push_stack(bus, pb);
        let vlo = bus.read(0xFFFE) as u16;
        let vhi = bus.read(0xFFFF) as u16;
        self.reg.PC = vlo | (vhi << 8);
    }
}

/// The bus after the three pushes of a forced interrupt: the incremented
/// program counter, high byte first, then the status with break and unused
/// set.
pub open spec fn spec_brk_bus(cpu: Cpu, b: CpuBusView) -> CpuBusView {
    let pc1 = wrap_add16(cpu.reg.PC, 1);
    let b1 = spec_push(b, cpu.reg.S, (pc1 >> 8) as u8);
    let b2 = spec_push(b1, wrap_dec8(cpu.reg.S), (pc1 & 0xFF) as u8);
    spec_push(
        b2,
        wrap_dec8(wrap_dec8(cpu.reg.S)),
        status_to_byte(RegStatus { brk: true, unused: true, ..cpu.reg.P }),
    )
}


/// The registers and the bus after one operation runs on a resolved target:
/// the mnemonic's arm repeats that operation's own contract.
#[verifier::opaque]
pub open spec fn spec_apply_op(m: Mnemonic, cpu: Cpu, b: CpuBusView, t: InstructionTarget) -> (
    Cpu,
    CpuBusView,
) {
    let fv = spec_fetch_val(cpu, b, t);
    let fb = spec_fetch_bus(b, t);
    match m {
        Mnemonic::ADC => (adc_cpu(cpu, fv), fb),
        Mnemonic::SBC => (sbc_cpu(cpu, fv), fb),
        Mnemonic::AND => (acc_nz_cpu(cpu, cpu.reg.A & fv), fb),
        Mnemonic::ORA => (acc_nz_cpu(cpu, cpu.reg.A | fv), fb),
        Mnemonic::EOR => (acc_nz_cpu(cpu, cpu.reg.A ^ fv), fb),
        Mnemonic::LDA => (acc_nz_cpu(cpu, fv), fb),
        Mnemonic::LDX => (
            Cpu { reg: Reg { X: fv, P: nz_flags(cpu.reg.P, fv), ..cpu.reg }, ..cpu },
            fb,
        ),
        Mnemonic::LDY => (
            Cpu { reg: Reg { Y: fv, P: nz_flags(cpu.reg.P, fv), ..cpu.reg }, ..cpu },
            fb,
        ),
        Mnemonic::CMP => (
            Cpu { reg: Reg { P: cmp_flags(cpu.reg.P, cpu.reg.A, fv), ..cpu.reg }, ..cpu },
            fb,
        ),
        Mnemonic::CPX => (
            Cpu { reg: Reg { P: cmp_flags(cpu.reg.P, cpu.reg.X, fv), ..cpu.reg }, ..cpu },
            fb,
        ),
        Mnemonic::CPY => (
            Cpu { reg: Reg { P: cmp_flags(cpu.reg.P, cpu.reg.Y, fv), ..cpu.reg }, ..cpu },
            fb,
        ),
        Mnemonic::BIT => (bit_cpu(cpu, fv), fb),
        Mnemonic::ASL => (
            Cpu {
                reg: Reg {
                    P: shift_flags(cpu.reg.P, fv & 0x80 != 0, fv << 1),
                    ..spec_store_cpu(cpu, t, fv << 1).reg
                },
                ..cpu
            },
            spec_store_bus(fb, t, fv << 1),
        ),
        Mnemonic::LSR => (
            Cpu {
                reg: Reg {
                    P: shift_flags(cpu.reg.P, fv & 0x01 != 0, fv >> 1),
                    ..spec_store_cpu(cpu, t, fv >> 1).reg
                },
                ..cpu
            },
            spec_store_bus(fb, t, fv >> 1),
        ),
        Mnemonic::ROL => (
            Cpu {
                reg: Reg {
                    P: shift_flags(
                        cpu.reg.P,
                        fv & 0x80 != 0,
                        (fv << 1) | (if cpu.reg.P.carry {
                            1u8
                        } else {
                            0u8
                        }),
                    ),
                    ..spec_store_cpu(
                        cpu,
                        t,
                        (fv << 1) | (if cpu.reg.P.carry {
                            1u8
                        } else {
                            0u8
                        }),
                    ).reg
                },
                ..cpu
            },
            spec_store_bus(
                fb,
                t,
                (fv << 1) | (if cpu.reg.P.carry {
                    1u8
                } else {
                    0u8
                }),
            ),
        ),
        Mnemonic::ROR => (
            Cpu {
                reg: Reg {
                    P: shift_flags(
                        cpu.reg.P,
                        fv & 0x01 != 0,
                        (fv >> 1) | (if cpu.reg.P.carry {
                            0x80u8
                        } else {
                            0u8
                        }),
                    ),
                    ..spec_store_cpu(
                        cpu,
                        t,
                        (fv >> 1) | (if cpu.reg.P.carry {
                            0x80u8
                        } else {
                            0u8
                        }),
                    ).reg
                },
                ..cpu
            },
            spec_store_bus(
                fb,
                t,
                (fv >> 1) | (if cpu.reg.P.carry {
                    0x80u8
                } else {
                    0u8
                }),
            ),
        ),
        Mnemonic::INC => (
            Cpu { reg: Reg { P: nz_flags(cpu.reg.P, wrap_inc8(fv)), ..cpu.reg }, ..cpu },
            spec_store_bus(fb, t, wrap_inc8(fv)),
        ),
        Mnemonic::DEC => (
            Cpu { reg: Reg { P: nz_flags(cpu.reg.P, wrap_dec8(fv)), ..cpu.reg }, ..cpu },
            spec_store_bus(fb, t, wrap_dec8(fv)),
        ),
        Mnemonic::INX => (
            Cpu {
                reg: Reg {
                    X: wrap_inc8(cpu.reg.X),
                    P: nz_flags(cpu.reg.P, wrap_inc8(cpu.reg.X)),
                    ..cpu.reg
                },
                ..cpu
            },
            b,
        ),
        Mnemonic::INY => (
            Cpu {
                reg: Reg {
                    Y: wrap_inc8(cpu.reg.Y),
                    P: nz_flags(cpu.reg.P, wrap_inc8(cpu.reg.Y)),
                    ..cpu.reg
                },
                ..cpu
            },
            b,
        ),
        Mnemonic::DEX => (
            Cpu {
                reg: Reg {
                    X: wrap_dec8(cpu.reg.X),
                    P: nz_flags(cpu.reg.P, wrap_dec8(cpu.reg.X)),
                    ..cpu.reg
                },
                ..cpu
            },
            b,
        ),
        Mnemonic::DEY => (
            Cpu {
                reg: Reg {
                    Y: wrap_dec8(cpu.reg.Y),
                    P: nz_flags(cpu.reg.P, wrap_dec8(cpu.reg.Y)),
                    ..cpu.reg
                },
                ..cpu
            },
            b,
        ),
        Mnemonic::STA => (cpu, spec_store_bus(b, t, cpu.reg.A)),
        Mnemonic::STX => (cpu, spec_store_bus(b, t, cpu.reg.X)),
        Mnemonic::STY => (cpu, spec_store_bus(b, t, cpu.reg.Y)),
        Mnemonic::TAX => (
            Cpu {
                reg: Reg { X: cpu.reg.A, P: nz_flags(cpu.reg.P, cpu.reg.A), ..cpu.reg },
                ..cpu
            },
            b,
        ),
        Mnemonic::TAY => (
            Cpu {
                reg: Reg { Y: cpu.reg.A, P: nz_flags(cpu.reg.P, cpu.reg.A), ..cpu.reg },
                ..cpu
            },
            b,
        ),
        Mnemonic::TSX => (
            Cpu {
                reg: Reg { X: cpu.reg.S, P: nz_flags(cpu.reg.P, cpu.reg.S), ..cpu.reg },
                ..cpu
            },
            b,
        ),
        Mnemonic::TXA => (
            Cpu {
                reg: Reg { A: cpu.reg.X, P: nz_flags(cpu.reg.P, cpu.reg.X), ..cpu.reg },
                ..cpu
            },
            b,
        ),
        Mnemonic::TXS => (Cpu { reg: Reg { S: cpu.reg.X, ..cpu.reg }, ..cpu }, b),
        Mnemonic::TYA => (
            Cpu {
                reg: Reg { A: cpu.reg.Y, P: nz_flags(cpu.reg.P, cpu.reg.Y), ..cpu.reg },
                ..cpu
            },
            b,
        ),
        Mnemonic::CLC => (
            Cpu { reg: Reg { P: RegStatus { carry: false, ..cpu.reg.P }, ..cpu.reg }, ..cpu },
            b,
        ),
        Mnemonic::SEC => (
            Cpu { reg: Reg { P: RegStatus { carry: true, ..cpu.reg.P }, ..cpu.reg }, ..cpu },
            b,
        ),
        Mnemonic::CLD => (
            Cpu { reg: Reg { P: RegStatus { decimal: false, ..cpu.reg.P }, ..cpu.reg }, ..cpu },
            b,
        ),
        Mnemonic::SED => (
            Cpu { reg: Reg { P: RegStatus { decimal: true, ..cpu.reg.P }, ..cpu.reg }, ..cpu },
            b,
        ),
        Mnemonic::CLI => (
            Cpu {
                reg: Reg { P: RegStatus { interrupt: false, ..cpu.reg.P }, ..cpu.reg },
                ..cpu
            },
            b,
        ),
        Mnemonic::SEI => (
            Cpu { reg: Reg { P: RegStatus { interrupt: true, ..cpu.reg.P }, ..cpu.reg }, ..cpu },
            b,
        ),
        Mnemonic::CLV => (
            Cpu {
                reg: Reg { P: RegStatus { overflow: false, ..cpu.reg.P }, ..cpu.reg },
                ..cpu
            },
            b,
        ),
        Mnemonic::NOP => (cpu, b),
        Mnemonic::JMP => (
            Cpu { reg: Reg { PC: t->MemoryAddress_0, ..cpu.reg }, ..cpu },
            b,
        ),
        Mnemonic::BCC => (
            if !cpu.reg.P.carry {
                branch_cpu(cpu, t->MemoryAddress_0)
            } else {
                cpu
            },
            b,
        ),
        Mnemonic::BCS => (
            if cpu.reg.P.carry {
                branch_cpu(cpu, t->MemoryAddress_0)
            } else {
                cpu
            },
            b,
        ),
        Mnemonic::BEQ => (
            if cpu.reg.P.zero {
                branch_cpu(cpu, t->MemoryAddress_0)
            } else {
                cpu
            },
            b,
        ),
        Mnemonic::BNE => (
            if !cpu.reg.P.zero {
                branch_cpu(cpu, t->MemoryAddress_0)
            } else {
                cpu
            },
            b,
        ),
        Mnemonic::BMI => (
            if cpu.reg.P.negative {
                branch_cpu(cpu, t->MemoryAddress_0)
            } else {
                cpu
            },
            b,
        ),
        Mnemonic::BPL => (
            if !cpu.reg.P.negative {
                branch_cpu(cpu, t->MemoryAddress_0)
            } else {
                cpu
            },
            b,
        ),
        Mnemonic::BVS => (
            if cpu.reg.P.overflow {
                branch_cpu(cpu, t->MemoryAddress_0)
            } else {
                cpu
            },
            b,
        ),
        Mnemonic::BVC => (
            if !cpu.reg.P.overflow {
                branch_cpu(cpu, t->MemoryAddress_0)
            } else {
                cpu
            },
            b,
        ),
        Mnemonic::PHA => (
            Cpu { reg: Reg { S: wrap_dec8(cpu.reg.S), ..cpu.reg }, ..cpu },
            spec_push(b, cpu.reg.S, cpu.reg.A),
        ),
        Mnemonic::PHP => (
            Cpu { reg: Reg { S: wrap_dec8(cpu.reg.S), ..cpu.reg }, ..cpu },
            spec_push(
                b,
                cpu.reg.S,
                status_to_byte(RegStatus { brk: true, unused: true, ..cpu.reg.P }),
            ),
        ),
        Mnemonic::PLA => (
            Cpu {
                reg: Reg {
                    A: spec_pop_val(b, wrap_inc8(cpu.reg.S)),
                    S: wrap_inc8(cpu.reg.S),
                    P: nz_flags(cpu.reg.P, spec_pop_val(b, wrap_inc8(cpu.reg.S))),
                    ..cpu.reg
                },
                ..cpu
            },
            b,
        ),
        Mnemonic::PLP => (
            Cpu {
                reg: Reg {
                    S: wrap_inc8(cpu.reg.S),
                    P: status_from_byte(
                        (spec_pop_val(b, wrap_inc8(cpu.reg.S)) & 0xCF) | (status_to_byte(
                            cpu.reg.P,
                        ) & 0x30),
                    ),
                    ..cpu.reg
                },
                ..cpu
            },
            b,
        ),
        Mnemonic::JSR => (
            Cpu {
                reg: Reg {
                    PC: t->MemoryAddress_0,
                    S: wrap_dec8(wrap_dec8(cpu.reg.S)),
                    ..cpu.reg
                },
                ..cpu
            },
            spec_push(
                spec_push(b, cpu.reg.S, (wrap_dec16(cpu.reg.PC) >> 8) as u8),
                wrap_dec8(cpu.reg.S),
                (wrap_dec16(cpu.reg.PC) & 0xFF) as u8,
            ),
        ),
        Mnemonic::RTS => (
            Cpu {
                reg: Reg {
                    PC: wrap_add16(
                        (spec_pop_val(b, wrap_inc8(cpu.reg.S)) as u16 | ((spec_pop_val(
                            b,
                            wrap_inc8(wrap_inc8(cpu.reg.S)),
                        ) as u16) << 8)) as u16,
                        1,
                    ),
                    S: wrap_inc8(wrap_inc8(cpu.reg.S)),
                    ..cpu.reg
                },
                ..cpu
            },
            b,
        ),
        Mnemonic::RTI => (
            Cpu {
                reg: Reg {
                    P: status_from_byte(spec_pop_val(b, wrap_inc8(cpu.reg.S))),
                    PC: (spec_pop_val(b, wrap_inc8(wrap_inc8(cpu.reg.S))) as u16 | ((spec_pop_val(
                        b,
                        wrap_inc8(wrap_inc8(wrap_inc8(cpu.reg.S))),
                    ) as u16) << 8)) as u16,
                    S: wrap_inc8(wrap_inc8(wrap_inc8(cpu.reg.S))),
                    ..cpu.reg
                },
                ..cpu
            },
            b,
        ),
        Mnemonic::BRK => (
            Cpu {
                reg: Reg {
                    PC: (spec_cpu_read_val(spec_brk_bus(cpu, b), 0xFFFE) as u16 | ((
                    spec_cpu_read_val(spec_brk_bus(cpu, b), 0xFFFF) as u16) << 8)) as u16,
                    S: wrap_dec8(wrap_dec8(wrap_dec8(cpu.reg.S))),
                    ..cpu.reg
                },
                ..cpu
            },
            spec_brk_bus(cpu, b),
        ),
        Mnemonic::XXX => (cpu, b),
    }
}

/// The operand an instruction's length reads after the opcode byte, and the
/// bus once those reads happened.
pub open spec fn spec_operand_bytes(b1: CpuBusView, pc: u16, size: u8) -> (Operand, CpuBusView) {
    if size == 1 {
        (Operand::Null, b1)
    } else if size == 2 {
        (
            Operand::Byte(spec_cpu_read_val(b1, wrap_add16(pc, 1))),
            spec_cpu_read_state(b1, wrap_add16(pc, 1)),
        )
    } else {
        let lo = spec_cpu_read_val(b1, wrap_add16(pc, 1));
        let bm = spec_cpu_read_state(b1, wrap_add16(pc, 1));
        let hi = spec_cpu_read_val(bm, wrap_add16(pc, 2));
        (
            Operand::Word((lo as u16 | ((hi as u16) << 8)) as u16),
            spec_cpu_read_state(bm, wrap_add16(pc, 2)),
        )
    }
}

/// The CPU and the bus after an operation runs on a resolved target and the
/// instruction's bookkeeping closes: base cycles plus the page-cross
/// penalty and branch extras actually incurred, and the instruction
/// counter.
pub open spec fn spec_apply_finish(
    op: crate::optable::Operation,
    cpu: Cpu,
    b: CpuBusView,
    t: InstructionTarget,
) -> (Cpu, CpuBusView) {
    let applied = spec_apply_op(op.mnemonic, cpu, b, t);
    (
        Cpu {
            cycles: (op.cycles + applied.0.extra_cycles_page_bounds * spec_cycle_penalty(
                op.extra_cycles,
                op.mnemonic,
            ) + applied.0.extra_cycles_branch) as u8,
            ops: wrap_inc64(applied.0.ops),
            ..applied.0
        },
        applied.1,
    )
}

/// The CPU and the bus after one whole instruction: the flags and penalty
/// accumulators are prepared, the opcode and operand bytes are read through
/// the bus, the program counter advances past them, the addressing mode
/// resolves (recording any page crossing), the operation runs, and the
/// cycle budget takes the base cost plus the penalties actually incurred.
#[verifier::opaque]
pub open spec fn spec_exec_instruction(cpu0: Cpu, b0: CpuBusView) -> (Cpu, CpuBusView) {
    let cpu1 = Cpu {
        reg: Reg { P: RegStatus { unused: true, ..cpu0.reg.P }, ..cpu0.reg },
        extra_cycles_branch: 0,
        extra_cycles_page_bounds: 0,
        ..cpu0
    };
    let opcode = spec_cpu_read_val(b0, cpu0.reg.PC);
    let b1 = spec_cpu_read_state(b0, cpu0.reg.PC);
    let op = optable(opcode);
    let ob = spec_operand_bytes(b1, cpu0.reg.PC, op.size);
    let cpu2 = Cpu {
        reg: Reg { PC: wrap_add16(cpu0.reg.PC, op.size as u16), ..cpu1.reg },
        ..cpu1
    };
    let t = spec_resolve_target(cpu2, ob.1, op.addr_mode, ob.0);
    let b3 = spec_resolve_bus(ob.1, op.addr_mode, ob.0);
    let cpu3 = Cpu {
        extra_cycles_page_bounds: spec_resolve_extra(cpu2, ob.1, op.addr_mode, ob.0),
        ..cpu2
    };
    spec_apply_finish(op, cpu3, b3, t)
}


/// A CPU-space read never moves the PPU's frame position or its pending
/// interrupt signal.
pub proof fn lemma_read_state_keeps_position(b: CpuBusView, a: u16)
    ensures
        spec_cpu_read_state(b, a).ppu.scanline == b.ppu.scanline,
        spec_cpu_read_state(b, a).ppu.dot == b.ppu.dot,
        spec_cpu_read_state(b, a).ppu.nmi_signal == b.ppu.nmi_signal,
{
}

/// A CPU-space write never moves the PPU's frame position or its pending
/// interrupt signal.
pub proof fn lemma_write_keeps_position(b: CpuBusView, a: u16, v: u8)
    ensures
        crate::cpu_bus::spec_cpu_write(b, a, v).ppu.scanline == b.ppu.scanline,
        crate::cpu_bus::spec_cpu_write(b, a, v).ppu.dot == b.ppu.dot,
        crate::cpu_bus::spec_cpu_write(b, a, v).ppu.nmi_signal == b.ppu.nmi_signal,
{
}

/// Fetching through a target leaves the PPU's frame position and pending
/// signal alone.
pub proof fn lemma_fetch_keeps_position(b: CpuBusView, t: InstructionTarget)
    ensures
        spec_fetch_bus(b, t).ppu.scanline == b.ppu.scanline,
        spec_fetch_bus(b, t).ppu.dot == b.ppu.dot,
        spec_fetch_bus(b, t).ppu.nmi_signal == b.ppu.nmi_signal,
{
    match t {
        InstructionTarget::MemoryAddress(a) => lemma_read_state_keeps_position(b, a),
        _ => {},
    }
}

/// Storing through a target leaves the PPU's frame position and pending
/// signal alone.
pub proof fn lemma_store_keeps_position(b: CpuBusView, t: InstructionTarget, v: u8)
    ensures
        spec_store_bus(b, t, v).ppu.scanline == b.ppu.scanline,
        spec_store_bus(b, t, v).ppu.dot == b.ppu.dot,
        spec_store_bus(b, t, v).ppu.nmi_signal == b.ppu.nmi_signal,
{
    match t {
        InstructionTarget::MemoryAddress(a) => lemma_write_keeps_position(b, a, v),
        _ => {},
    }
}

/// A stack push leaves the PPU's frame position and pending signal alone.
pub proof fn lemma_push_keeps_position(b: CpuBusView, s: u8, v: u8)
    ensures
        spec_push(b, s, v).ppu.scanline == b.ppu.scanline,
        spec_push(b, s, v).ppu.dot == b.ppu.dot,
        spec_push(b, s, v).ppu.nmi_signal == b.ppu.nmi_signal,
{
    lemma_write_keeps_position(b, crate::cpu::stack_addr(s), v);
}

/// No single operation moves the PPU's frame position or its pending
/// interrupt signal: every bus access an operation makes is a read or a
/// write, and neither touches them.
#[verifier::rlimit(100)]
pub proof fn lemma_apply_keeps_position(m: Mnemonic, cpu: Cpu, b: CpuBusView, t: InstructionTarget)
    ensures
        ({
            let a = spec_apply_op(m, cpu, b, t);
            &&& a.1.ppu.scanline == b.ppu.scanline
            &&& a.1.ppu.dot == b.ppu.dot
            &&& a.1.ppu.nmi_signal == b.ppu.nmi_signal
        }),
{
    reveal(spec_apply_op);
    let fv = spec_fetch_val(cpu, b, t);
    let fb = spec_fetch_bus(b, t);
    let c01: u8 = if cpu.reg.P.carry {
        1
    } else {
        0
    };
    let c80: u8 = if cpu.reg.P.carry {
        0x80
    } else {
        0
    };
    lemma_fetch_keeps_position(b, t);
    match m {
            Mnemonic::ADC => {
                lemma_fetch_keeps_position(b, t);
                assert(spec_apply_op(m, cpu, b, t).1.ppu.scanline == b.ppu.scanline
                    && spec_apply_op(m, cpu, b, t).1.ppu.dot == b.ppu.dot && spec_apply_op(
                    m,
                    cpu,
                    b,
                    t,
                ).1.ppu.nmi_signal == b.ppu.nmi_signal);
            },
            Mnemonic::SBC => {
                lemma_fetch_keeps_position(b, t);
                assert(spec_apply_op(m, cpu, b, t).1.ppu.scanline == b.ppu.scanline
                    && spec_apply_op(m, cpu, b, t).1.ppu.dot == b.ppu.dot && spec_apply_op(
                    m,
                    cpu,
                    b,
                    t,
                ).1.ppu.nmi_signal == b.ppu.nmi_signal);
            },
            Mnemonic::AND => {
                lemma_fetch_keeps_position(b, t);
                assert(spec_apply_op(m, cpu, b, t).1.ppu.scanline == b.ppu.scanline
                    && spec_apply_op(m, cpu, b, t).1.ppu.dot == b.ppu.dot && spec_apply_op(
                    m,
                    cpu,
                    b,
                    t,
                ).1.ppu.nmi_signal == b.ppu.nmi_signal);
            },
            Mnemonic::ORA => {
                lemma_fetch_keeps_position(b, t);
                assert(spec_apply_op(m, cpu, b, t).1.ppu.scanline == b.ppu.scanline
                    && spec_apply_op(m, cpu, b, t).1.ppu.dot == b.ppu.dot && spec_apply_op(
                    m,
                    cpu,
                    b,
                    t,
                ).1.ppu.nmi_signal == b.ppu.nmi_signal);
            },
            Mnemonic::EOR => {
                lemma_fetch_keeps_position(b, t);
                assert(spec_apply_op(m, cpu, b, t).1.ppu.scanline == b.ppu.scanline
                    && spec_apply_op(m, cpu, b, t).1.ppu.dot == b.ppu.dot && spec_apply_op(
                    m,
                    cpu,
                    b,
                    t,
                ).1.ppu.nmi_signal == b.ppu.nmi_signal);
            },
            Mnemonic::LDA => {
                lemma_fetch_keeps_position(b, t);
                assert(spec_apply_op(m, cpu, b, t).1.ppu.scanline == b.ppu.scanline
                    && spec_apply_op(m, cpu, b, t).1.ppu.dot == b.ppu.dot && spec_apply_op(
                    m,
                    cpu,
                    b,
                    t,
                ).1.ppu.nmi_signal == b.ppu.nmi_signal);
            },
            Mnemonic::LDX => {
                lemma_fetch_keeps_position(b, t);
                assert(spec_apply_op(m, cpu, b, t).1.ppu.scanline == b.ppu.scanline
                    && spec_apply_op(m, cpu, b, t).1.ppu.dot == b.ppu.dot && spec_apply_op(
                    m,
                    cpu,
                    b,
                    t,
                ).1.ppu.nmi_signal == b.ppu.nmi_signal);
            },
            Mnemonic::LDY => {
                lemma_fetch_keeps_position(b, t);
                assert(spec_apply_op(m, cpu, b, t).1.ppu.scanline == b.ppu.scanline
                    && spec_apply_op(m, cpu, b, t).1.ppu.dot == b.ppu.dot && spec_apply_op(
                    m,
                    cpu,
                    b,
                    t,
                ).1.ppu.nmi_signal == b.ppu.nmi_signal);
            },
            Mnemonic::CMP => {
                lemma_fetch_keeps_position(b, t);
                assert(spec_apply_op(m, cpu, b, t).1.ppu.scanline == b.ppu.scanline
                    && spec_apply_op(m, cpu, b, t).1.ppu.dot == b.ppu.dot && spec_apply_op(
                    m,
                    cpu,
                    b,
                    t,
                ).1.ppu.nmi_signal == b.ppu.nmi_signal);
            },
            Mnemonic::CPX => {
                lemma_fetch_keeps_position(b, t);
                assert(spec_apply_op(m, cpu, b, t).1.ppu.scanline == b.ppu.scanline
                    && spec_apply_op(m, cpu, b, t).1.ppu.dot == b.ppu.dot && spec_apply_op(
                    m,
                    cpu,
                    b,
                    t,
                ).1.ppu.nmi_signal == b.ppu.nmi_signal);
            },
            Mnemonic::CPY => {
                lemma_fetch_keeps_position(b, t);
                assert(spec_apply_op(m, cpu, b, t).1.ppu.scanline == b.ppu.scanline
                    && spec_apply_op(m, cpu, b, t).1.ppu.dot == b.ppu.dot && spec_apply_op(
                    m,
                    cpu,
                    b,
                    t,
                ).1.ppu.nmi_signal == b.ppu.nmi_signal);
            },
            Mnemonic::BIT => {
                lemma_fetch_keeps_position(b, t);
                assert(spec_apply_op(m, cpu, b, t).1.ppu.scanline == b.ppu.scanline
                    && spec_apply_op(m, cpu, b, t).1.ppu.dot == b.ppu.dot && spec_apply_op(
                    m,
                    cpu,
                    b,
                    t,
                ).1.ppu.nmi_signal == b.ppu.nmi_signal);
            },
            Mnemonic::ASL => {
                lemma_fetch_keeps_position(b, t);
                lemma_store_keeps_position(fb, t, fv << 1);
                assert(spec_apply_op(m, cpu, b, t).1.ppu.scanline == b.ppu.scanline
                    && spec_apply_op(m, cpu, b, t).1.ppu.dot == b.ppu.dot && spec_apply_op(
                    m,
                    cpu,
                    b,
                    t,
                ).1.ppu.nmi_signal == b.ppu.nmi_signal);
            },
            Mnemonic::LSR => {
                lemma_fetch_keeps_position(b, t);
                lemma_store_keeps_position(fb, t, fv >> 1);
                assert(spec_apply_op(m, cpu, b, t).1.ppu.scanline == b.ppu.scanline
                    && spec_apply_op(m, cpu, b, t).1.ppu.dot == b.ppu.dot && spec_apply_op(
                    m,
                    cpu,
                    b,
                    t,
                ).1.ppu.nmi_signal == b.ppu.nmi_signal);
            },
            Mnemonic::ROL => {
                lemma_fetch_keeps_position(b, t);
                lemma_store_keeps_position(fb, t, (fv << 1) | c01);
                assert(spec_apply_op(m, cpu, b, t).1.ppu.scanline == b.ppu.scanline
                    && spec_apply_op(m, cpu, b, t).1.ppu.dot == b.ppu.dot && spec_apply_op(
                    m,
                    cpu,
                    b,
                    t,
                ).1.ppu.nmi_signal == b.ppu.nmi_signal);
            },
            Mnemonic::ROR => {
                lemma_fetch_keeps_position(b, t);
                lemma_store_keeps_position(fb, t, (fv >> 1) | c80);
                assert(spec_apply_op(m, cpu, b, t).1.ppu.scanline == b.ppu.scanline
                    && spec_apply_op(m, cpu, b, t).1.ppu.dot == b.ppu.dot && spec_apply_op(
                    m,
                    cpu,
                    b,
                    t,
                ).1.ppu.nmi_signal == b.ppu.nmi_signal);
            },
            Mnemonic::INC => {
                lemma_fetch_keeps_position(b, t);
                lemma_store_keeps_position(fb, t, wrap_inc8(fv));
                assert(spec_apply_op(m, cpu, b, t).1.ppu.scanline == b.ppu.scanline
                    && spec_apply_op(m, cpu, b, t).1.ppu.dot == b.ppu.dot && spec_apply_op(
                    m,
                    cpu,
                    b,
                    t,
                ).1.ppu.nmi_signal == b.ppu.nmi_signal);
            },
            Mnemonic::DEC => {
                lemma_fetch_keeps_position(b, t);
                lemma_store_keeps_position(fb, t, wrap_dec8(fv));
                assert(spec_apply_op(m, cpu, b, t).1.ppu.scanline == b.ppu.scanline
                    && spec_apply_op(m, cpu, b, t).1.ppu.dot == b.ppu.dot && spec_apply_op(
                    m,
                    cpu,
                    b,
                    t,
                ).1.ppu.nmi_signal == b.ppu.nmi_signal);
            },
            Mnemonic::STA => {
                lemma_store_keeps_position(b, t, cpu.reg.A);
                assert(spec_apply_op(m, cpu, b, t).1.ppu.scanline == b.ppu.scanline
                    && spec_apply_op(m, cpu, b, t).1.ppu.dot == b.ppu.dot && spec_apply_op(
                    m,
                    cpu,
                    b,
                    t,
                ).1.ppu.nmi_signal == b.ppu.nmi_signal);
            },
            Mnemonic::STX => {
                lemma_store_keeps_position(b, t, cpu.reg.X);
                assert(spec_apply_op(m, cpu, b, t).1.ppu.scanline == b.ppu.scanline
                    && spec_apply_op(m, cpu, b, t).1.ppu.dot == b.ppu.dot && spec_apply_op(
                    m,
                    cpu,
                    b,
                    t,
                ).1.ppu.nmi_signal == b.ppu.nmi_signal);
            },
            Mnemonic::STY => {
                lemma_store_keeps_position(b, t, cpu.reg.Y);
                assert(spec_apply_op(m, cpu, b, t).1.ppu.scanline == b.ppu.scanline
                    && spec_apply_op(m, cpu, b, t).1.ppu.dot == b.ppu.dot && spec_apply_op(
                    m,
                    cpu,
                    b,
                    t,
                ).1.ppu.nmi_signal == b.ppu.nmi_signal);
            },
            Mnemonic::PHA => {
                lemma_push_keeps_position(b, cpu.reg.S, cpu.reg.A);
                assert(spec_apply_op(m, cpu, b, t).1.ppu.scanline == b.ppu.scanline
                    && spec_apply_op(m, cpu, b, t).1.ppu.dot == b.ppu.dot && spec_apply_op(
                    m,
                    cpu,
                    b,
                    t,
                ).1.ppu.nmi_signal == b.ppu.nmi_signal);
            },
            Mnemonic::PHP => {
                lemma_push_keeps_position(
                    b,
                    cpu.reg.S,
                    status_to_byte(RegStatus { brk: true, unused: true, ..cpu.reg.P }),
                );
                assert(spec_apply_op(m, cpu, b, t).1.ppu.scanline == b.ppu.scanline
                    && spec_apply_op(m, cpu, b, t).1.ppu.dot == b.ppu.dot && spec_apply_op(
                    m,
                    cpu,
                    b,
                    t,
                ).1.ppu.nmi_signal == b.ppu.nmi_signal);
            },
            Mnemonic::JSR => {
                let hi = (wrap_dec16(cpu.reg.PC) >> 8) as u8;
                let lo = (wrap_dec16(cpu.reg.PC) & 0xFF) as u8;
                lemma_push_keeps_position(b, cpu.reg.S, hi);
                lemma_push_keeps_position(spec_push(b, cpu.reg.S, hi), wrap_dec8(cpu.reg.S), lo);
                assert(spec_apply_op(m, cpu, b, t).1.ppu.scanline == b.ppu.scanline
                    && spec_apply_op(m, cpu, b, t).1.ppu.dot == b.ppu.dot && spec_apply_op(
                    m,
                    cpu,
                    b,
                    t,
                ).1.ppu.nmi_signal == b.ppu.nmi_signal);
            },
            Mnemonic::BRK => {
                let pc1 = wrap_add16(cpu.reg.PC, 1);
                let pb = status_to_byte(RegStatus { brk: true, unused: true, ..cpu.reg.P });
                let b1 = spec_push(b, cpu.reg.S, (pc1 >> 8) as u8);
                let b2 = spec_push(b1, wrap_dec8(cpu.reg.S), (pc1 & 0xFF) as u8);
                lemma_push_keeps_position(b, cpu.reg.S, (pc1 >> 8) as u8);
                lemma_push_keeps_position(b1, wrap_dec8(cpu.reg.S), (pc1 & 0xFF) as u8);
                lemma_push_keeps_position(b2, wrap_dec8(wrap_dec8(cpu.reg.S)), pb);
                assert(spec_apply_op(m, cpu, b, t).1.ppu.scanline == b.ppu.scanline
                    && spec_apply_op(m, cpu, b, t).1.ppu.dot == b.ppu.dot && spec_apply_op(
                    m,
                    cpu,
                    b,
                    t,
                ).1.ppu.nmi_signal == b.ppu.nmi_signal);
            },
            Mnemonic::INX => {
                assert(spec_apply_op(m, cpu, b, t).1.ppu.scanline == b.ppu.scanline
                    && spec_apply_op(m, cpu, b, t).1.ppu.dot == b.ppu.dot && spec_apply_op(
                    m,
                    cpu,
                    b,
                    t,
                ).1.ppu.nmi_signal == b.ppu.nmi_signal);
            },
            Mnemonic::INY => {
                assert(spec_apply_op(m, cpu, b, t).1.ppu.scanline == b.ppu.scanline
                    && spec_apply_op(m, cpu, b, t).1.ppu.dot == b.ppu.dot && spec_apply_op(
                    m,
                    cpu,
                    b,
                    t,
                ).1.ppu.nmi_signal == b.ppu.nmi_signal);
            },
            Mnemonic::DEX => {
                assert(spec_apply_op(m, cpu, b, t).1.ppu.scanline == b.ppu.scanline
                    && spec_apply_op(m, cpu, b, t).1.ppu.dot == b.ppu.dot && spec_apply_op(
                    m,
                    cpu,
                    b,
                    t,
                ).1.ppu.nmi_signal == b.ppu.nmi_signal);
            },
            Mnemonic::DEY => {
                assert(spec_apply_op(m, cpu, b, t).1.ppu.scanline == b.ppu.scanline
                    && spec_apply_op(m, cpu, b, t).1.ppu.dot == b.ppu.dot && spec_apply_op(
                    m,
                    cpu,
                    b,
                    t,
                ).1.ppu.nmi_signal == b.ppu.nmi_signal);
            },
            Mnemonic::TAX => {
                assert(spec_apply_op(m, cpu, b, t).1.ppu.scanline == b.ppu.scanline
                    && spec_apply_op(m, cpu, b, t).1.ppu.dot == b.ppu.dot && spec_apply_op(
                    m,
                    cpu,
                    b,
                    t,
                ).1.ppu.nmi_signal == b.ppu.nmi_signal);
            },
            Mnemonic::TAY => {
                assert(spec_apply_op(m, cpu, b, t).1.ppu.scanline == b.ppu.scanline
                    && spec_apply_op(m, cpu, b, t).1.ppu.dot == b.ppu.dot && spec_apply_op(
                    m,
                    cpu,
                    b,
                    t,
                ).1.ppu.nmi_signal == b.ppu.nmi_signal);
            },
            Mnemonic::TSX => {
                assert(spec_apply_op(m, cpu, b, t).1.ppu.scanline == b.ppu.scanline
                    && spec_apply_op(m, cpu, b, t).1.ppu.dot == b.ppu.dot && spec_apply_op(
                    m,
                    cpu,
                    b,
                    t,
                ).1.ppu.nmi_signal == b.ppu.nmi_signal);
            },
            Mnemonic::TXA => {
                assert(spec_apply_op(m, cpu, b, t).1.ppu.scanline == b.ppu.scanline
                    && spec_apply_op(m, cpu, b, t).1.ppu.dot == b.ppu.dot && spec_apply_op(
                    m,
                    cpu,
                    b,
                    t,
                ).1.ppu.nmi_signal == b.ppu.nmi_signal);
            },
            Mnemonic::TXS => {
                assert(spec_apply_op(m, cpu, b, t).1.ppu.scanline == b.ppu.scanline
                    && spec_apply_op(m, cpu, b, t).1.ppu.dot == b.ppu.dot && spec_apply_op(
                    m,
                    cpu,
                    b,
                    t,
                ).1.ppu.nmi_signal == b.ppu.nmi_signal);
            },
            Mnemonic::TYA => {
                assert(spec_apply_op(m, cpu, b, t).1.ppu.scanline == b.ppu.scanline
                    && spec_apply_op(m, cpu, b, t).1.ppu.dot == b.ppu.dot && spec_apply_op(
                    m,
                    cpu,
                    b,
                    t,
                ).1.ppu.nmi_signal == b.ppu.nmi_signal);
            },
            Mnemonic::CLC => {
                assert(spec_apply_op(m, cpu, b, t).1.ppu.scanline == b.ppu.scanline
                    && spec_apply_op(m, cpu, b, t).1.ppu.dot == b.ppu.dot && spec_apply_op(
                    m,
                    cpu,
                    b,
                    t,
                ).1.ppu.nmi_signal == b.ppu.nmi_signal);
            },
            Mnemonic::SEC => {
                assert(spec_apply_op(m, cpu, b, t).1.ppu.scanline == b.ppu.scanline
                    && spec_apply_op(m, cpu, b, t).1.ppu.dot == b.ppu.dot && spec_apply_op(
                    m,
                    cpu,
                    b,
                    t,
                ).1.ppu.nmi_signal == b.ppu.nmi_signal);
            },
            Mnemonic::CLD => {
                assert(spec_apply_op(m, cpu, b, t).1.ppu.scanline == b.ppu.scanline
                    && spec_apply_op(m, cpu, b, t).1.ppu.dot == b.ppu.dot && spec_apply_op(
                    m,
                    cpu,
                    b,
                    t,
                ).1.ppu.nmi_signal == b.ppu.nmi_signal);
            },
            Mnemonic::SED => {
                assert(spec_apply_op(m, cpu, b, t).1.ppu.scanline == b.ppu.scanline
                    && spec_apply_op(m, cpu, b, t).1.ppu.dot == b.ppu.dot && spec_apply_op(
                    m,
                    cpu,
                    b,
                    t,
                ).1.ppu.nmi_signal == b.ppu.nmi_signal);
            },
            Mnemonic::CLI => {
                assert(spec_apply_op(m, cpu, b, t).1.ppu.scanline == b.ppu.scanline
                    && spec_apply_op(m, cpu, b, t).1.ppu.dot == b.ppu.dot && spec_apply_op(
                    m,
                    cpu,
                    b,
                    t,
                ).1.ppu.nmi_signal == b.ppu.nmi_signal);
            },
            Mnemonic::SEI => {
                assert(spec_apply_op(m, cpu, b, t).1.ppu.scanline == b.ppu.scanline
                    && spec_apply_op(m, cpu, b, t).1.ppu.dot == b.ppu.dot && spec_apply_op(
                    m,
                    cpu,
                    b,
                    t,
                ).1.ppu.nmi_signal == b.ppu.nmi_signal);
            },
            Mnemonic::CLV => {
                assert(spec_apply_op(m, cpu, b, t).1.ppu.scanline == b.ppu.scanline
                    && spec_apply_op(m, cpu, b, t).1.ppu.dot == b.ppu.dot && spec_apply_op(
                    m,
                    cpu,
                    b,
                    t,
                ).1.ppu.nmi_signal == b.ppu.nmi_signal);
            },
            Mnemonic::NOP => {
                assert(spec_apply_op(m, cpu, b, t).1.ppu.scanline == b.ppu.scanline
                    && spec_apply_op(m, cpu, b, t).1.ppu.dot == b.ppu.dot && spec_apply_op(
                    m,
                    cpu,
                    b,
                    t,
                ).1.ppu.nmi_signal == b.ppu.nmi_signal);
            },
            Mnemonic::JMP => {
                assert(spec_apply_op(m, cpu, b, t).1.ppu.scanline == b.ppu.scanline
                    && spec_apply_op(m, cpu, b, t).1.ppu.dot == b.ppu.dot && spec_apply_op(
                    m,
                    cpu,
                    b,
                    t,
                ).1.ppu.nmi_signal == b.ppu.nmi_signal);
            },
            Mnemonic::BCC => {
                assert(spec_apply_op(m, cpu, b, t).1.ppu.scanline == b.ppu.scanline
                    && spec_apply_op(m, cpu, b, t).1.ppu.dot == b.ppu.dot && spec_apply_op(
                    m,
                    cpu,
                    b,
                    t,
                ).1.ppu.nmi_signal == b.ppu.nmi_signal);
            },
            Mnemonic::BCS => {
                assert(spec_apply_op(m, cpu, b, t).1.ppu.scanline == b.ppu.scanline
                    && spec_apply_op(m, cpu, b, t).1.ppu.dot == b.ppu.dot && spec_apply_op(
                    m,
                    cpu,
                    b,
                    t,
                ).1.ppu.nmi_signal == b.ppu.nmi_signal);
            },
            Mnemonic::BEQ => {
                assert(spec_apply_op(m, cpu, b, t).1.ppu.scanline == b.ppu.scanline
                    && spec_apply_op(m, cpu, b, t).1.ppu.dot == b.ppu.dot && spec_apply_op(
                    m,
                    cpu,
                    b,
                    t,
                ).1.ppu.nmi_signal == b.ppu.nmi_signal);
            },
            Mnemonic::BNE => {
                assert(spec_apply_op(m, cpu, b, t).1.ppu.scanline == b.ppu.scanline
                    && spec_apply_op(m, cpu, b, t).1.ppu.dot == b.ppu.dot && spec_apply_op(
                    m,
                    cpu,
                    b,
                    t,
                ).1.ppu.nmi_signal == b.ppu.nmi_signal);
            },
            Mnemonic::BMI => {
                assert(spec_apply_op(m, cpu, b, t).1.ppu.scanline == b.ppu.scanline
                    && spec_apply_op(m, cpu, b, t).1.ppu.dot == b.ppu.dot && spec_apply_op(
                    m,
                    cpu,
                    b,
                    t,
                ).1.ppu.nmi_signal == b.ppu.nmi_signal);
            },
            Mnemonic::BPL => {
                assert(spec_apply_op(m, cpu, b, t).1.ppu.scanline == b.ppu.scanline
                    && spec_apply_op(m, cpu, b, t).1.ppu.dot == b.ppu.dot && spec_apply_op(
                    m,
                    cpu,
                    b,
                    t,
                ).1.ppu.nmi_signal == b.ppu.nmi_signal);
            },
            Mnemonic::BVS => {
                assert(spec_apply_op(m, cpu, b, t).1.ppu.scanline == b.ppu.scanline
                    && spec_apply_op(m, cpu, b, t).1.ppu.dot == b.ppu.dot && spec_apply_op(
                    m,
                    cpu,
                    b,
                    t,
                ).1.ppu.nmi_signal == b.ppu.nmi_signal);
            },
            Mnemonic::BVC => {
                assert(spec_apply_op(m, cpu, b, t).1.ppu.scanline == b.ppu.scanline
                    && spec_apply_op(m, cpu, b, t).1.ppu.dot == b.ppu.dot && spec_apply_op(
                    m,
                    cpu,
                    b,
                    t,
                ).1.ppu.nmi_signal == b.ppu.nmi_signal);
            },
            Mnemonic::PLA => {
                assert(spec_apply_op(m, cpu, b, t).1.ppu.scanline == b.ppu.scanline
                    && spec_apply_op(m, cpu, b, t).1.ppu.dot == b.ppu.dot && spec_apply_op(
                    m,
                    cpu,
                    b,
                    t,
                ).1.ppu.nmi_signal == b.ppu.nmi_signal);
            },
            Mnemonic::PLP => {
                assert(spec_apply_op(m, cpu, b, t).1.ppu.scanline == b.ppu.scanline
                    && spec_apply_op(m, cpu, b, t).1.ppu.dot == b.ppu.dot && spec_apply_op(
                    m,
                    cpu,
                    b,
                    t,
                ).1.ppu.nmi_signal == b.ppu.nmi_signal);
            },
            Mnemonic::RTS => {
                assert(spec_apply_op(m, cpu, b, t).1.ppu.scanline == b.ppu.scanline
                    && spec_apply_op(m, cpu, b, t).1.ppu.dot == b.ppu.dot && spec_apply_op(
                    m,
                    cpu,
                    b,
                    t,
                ).1.ppu.nmi_signal == b.ppu.nmi_signal);
            },
            Mnemonic::RTI => {
                assert(spec_apply_op(m, cpu, b, t).1.ppu.scanline == b.ppu.scanline
                    && spec_apply_op(m, cpu, b, t).1.ppu.dot == b.ppu.dot && spec_apply_op(
                    m,
                    cpu,
                    b,
                    t,
                ).1.ppu.nmi_signal == b.ppu.nmi_signal);
            },
            Mnemonic::XXX => {
                assert(spec_apply_op(m, cpu, b, t).1.ppu.scanline == b.ppu.scanline
                    && spec_apply_op(m, cpu, b, t).1.ppu.dot == b.ppu.dot && spec_apply_op(
                    m,
                    cpu,
                    b,
                    t,
                ).1.ppu.nmi_signal == b.ppu.nmi_signal);
            },
    }
}

/// No instruction moves the PPU's frame position or its pending interrupt
/// signal: its opcode, operand and addressing reads and the operation's own
/// accesses all go through the bus as reads or writes.
#[verifier::rlimit(100)]
pub proof fn lemma_exec_keeps_position(cpu: Cpu, b: CpuBusView)
    ensures
        ({
            let e = spec_exec_instruction(cpu, b);
            &&& e.1.ppu.scanline == b.ppu.scanline
            &&& e.1.ppu.dot == b.ppu.dot
            &&& e.1.ppu.nmi_signal == b.ppu.nmi_signal
        }),
{
    reveal(spec_exec_instruction);
    let cpu1 = Cpu {
        reg: Reg { P: RegStatus { unused: true, ..cpu.reg.P }, ..cpu.reg },
        extra_cycles_branch: 0,
        extra_cycles_page_bounds: 0,
        ..cpu
    };
    let opcode = spec_cpu_read_val(b, cpu.reg.PC);
    let b1 = spec_cpu_read_state(b, cpu.reg.PC);
    let op = optable(opcode);
    let ob = spec_operand_bytes(b1, cpu.reg.PC, op.size);
    let cpu2 = Cpu {
        reg: Reg { PC: wrap_add16(cpu.reg.PC, op.size as u16), ..cpu1.reg },
        ..cpu1
    };
    let t = spec_resolve_target(cpu2, ob.1, op.addr_mode, ob.0);
    let b3 = spec_resolve_bus(ob.1, op.addr_mode, ob.0);
    let cpu3 = Cpu {
        extra_cycles_page_bounds: spec_resolve_extra(cpu2, ob.1, op.addr_mode, ob.0),
        ..cpu2
    };
    lemma_read_state_keeps_position(b, cpu.reg.PC);
    lemma_read_state_keeps_position(b1, wrap_add16(cpu.reg.PC, 1));
    let bm = spec_cpu_read_state(b1, wrap_add16(cpu.reg.PC, 1));
    lemma_read_state_keeps_position(bm, wrap_add16(cpu.reg.PC, 2));
    match op.addr_mode {
        crate::optable::AddrMode::Indirect => {
            lemma_read_state_keeps_position(ob.1, ob.0->Word_0);
            lemma_read_state_keeps_position(
                spec_cpu_read_state(ob.1, ob.0->Word_0),
                crate::cpu::indirect_bug_high_addr(ob.0->Word_0),
            );
        },
        _ => {},
    }
    assert(b3.ppu.scanline == b.ppu.scanline && b3.ppu.dot == b.ppu.dot && b3.ppu.nmi_signal
        == b.ppu.nmi_signal);
    lemma_apply_keeps_position(op.mnemonic, cpu3, b3, t);
}

} // verus!
