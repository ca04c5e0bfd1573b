use vstd::prelude::*;
use crate::cpu::CPU;
use crate::cpu::addressing::AddressingMode;
use crate::cpu::status::{Status, lemma_status_flags_disjoint};
use crate::flags::{lemma_flag_kept, lemma_flag_written};

verus! {

/// The three operations that combine the accumulator with an operand.
#[derive(Clone, Copy, Debug, PartialEq, Eq, Structural)]
pub enum LogicalOp {
    EOR,
    AND,
    ORA,
}

impl LogicalOp {
    /// The accumulator `a` combined with the operand `v`.
    pub open spec fn apply(self, a: u8, v: u8) -> u8 {
        match self {
            LogicalOp::AND => a & v,
            LogicalOp::ORA => a | v,
            LogicalOp::EOR => a ^ v,
        }
    }
}

/// The logical instructions: AND, ORA, EOR and the flag-only BIT.
///
/// `bit_op` is the one routine behind AND, ORA and EOR. The entry points
/// named after a mnemonic pay the page-crossing cycle; those ending in
/// `_no_inc` do not, for use inside instructions that have paid already.
pub trait Logical: Sized {
    /// Whether `bit_op` can run: `mode` yields an operand and the cycle
    /// counter has room for the extra cycle.
    spec fn can_combine(&self, mode: AddressingMode) -> bool;

    /// The state that `bit_op` leaves.
    spec fn combined(&self, mode: AddressingMode, op: LogicalOp, does_inc_cycle: bool) -> Self;

    /// Whether `bit` can run: `mode` names a place in memory.
    spec fn can_test(&self, mode: AddressingMode) -> bool;

    /// The state that `bit` leaves.
    spec fn tested(&self, mode: AddressingMode) -> Self;

    fn bit_op(&mut self, mode: AddressingMode, op: LogicalOp, does_inc_cycle: bool)
        requires
            old(self).can_combine(mode),
        ensures
            *final(self) == old(self).combined(mode, op, does_inc_cycle),
    ;

    fn bit(&mut self, mode: AddressingMode)
        requires
            old(self).can_test(mode),
        ensures
            *final(self) == old(self).tested(mode),
    ;

    fn and(&mut self, mode: AddressingMode)
        requires
            old(self).can_combine(mode),
        ensures
            *final(self) == old(self).combined(mode, LogicalOp::AND, true),
    {
        self.bit_op(mode, LogicalOp::AND, true);
    }

    fn and_no_inc(&mut self, mode: AddressingMode)
        requires
            old(self).can_combine(mode),
        ensures
            *final(self) == old(self).combined(mode, LogicalOp::AND, false),
    {
        self.bit_op(mode, LogicalOp::AND, false);
    }

    fn ora(&mut self, mode: AddressingMode)
        requires
            old(self).can_combine(mode),
        ensures
            *final(self) == old(self).combined(mode, LogicalOp::ORA, true),
    {
        self.bit_op(mode, LogicalOp::ORA, true);
    }

    fn ora_no_inc(&mut self, mode: AddressingMode)
        requires
            old(self).can_combine(mode),
        ensures
            *final(self) == old(self).combined(mode, LogicalOp::ORA, false),
    {
        self.bit_op(mode, LogicalOp::ORA, false);
    }

    fn eor(&mut self, mode: AddressingMode)
        requires
            old(self).can_combine(mode),
        ensures
            *final(self) == old(self).combined(mode, LogicalOp::EOR, true),
    {
        self.bit_op(mode, LogicalOp::EOR, true);
    }

    fn eor_no_inc(&mut self, mode: AddressingMode)
        requires
            old(self).can_combine(mode),
        ensures
            *final(self) == old(self).combined(mode, LogicalOp::EOR, false),
    {
        self.bit_op(mode, LogicalOp::EOR, false);
    }
}

/// AND, ORA and EOR, piece by piece: the accumulator takes the combination
/// of its old value with the operand, Zero tells whether the result is 0,
/// Negative copies bit 7 of the result, the other six flags stay, and at most
/// the one cycle for a page crossing is charged. Index registers, stack
/// pointer, program counter and memory stay as they are.
pub proof fn lemma_combined(cpu: CPU, mode: AddressingMode, op: LogicalOp, does_inc_cycle: bool)
    requires
        cpu.has_room(1),
    ensures
        ({
            let after = cpu.combined(mode, op, does_inc_cycle);
            let result = op.apply(cpu.acc, cpu.operand(mode));
            &&& after.acc == result
            &&& after.status.has(Status::ZERO) == (result == 0)
            &&& after.status.has(Status::NEGATIVE) == (result & 0x80 != 0)
            &&& after.status.has(Status::CARRY) == cpu.status.has(Status::CARRY)
            &&& after.status.has(Status::INTERRUPT_DISABLE) == cpu.status.has(
                Status::INTERRUPT_DISABLE,
            )
            &&& after.status.has(Status::DECIMAL) == cpu.status.has(Status::DECIMAL)
            &&& after.status.has(Status::BREAK) == cpu.status.has(Status::BREAK)
            &&& after.status.has(Status::UNUSED) == cpu.status.has(Status::UNUSED)
            &&& after.status.has(Status::OVERFLOW) == cpu.status.has(Status::OVERFLOW)
            &&& after.cycle_count == cpu.cycle_count + if cpu.penalty(mode) && does_inc_cycle {
                1int
            } else {
                0int
            }
            &&& after.x == cpu.x
            &&& after.y == cpu.y
            &&& after.sp == cpu.sp
            &&& after.pc == cpu.pc
            &&& after.bus.memory == cpu.bus.memory
        }),
{
    let result = op.apply(cpu.acc, cpu.operand(mode));
    let charged = if cpu.penalty(mode) && does_inc_cycle {
        cpu.ticked(1)
    } else {
        cpu
    };
    (CPU { acc: result, ..charged }).lemma_with_zn(result);
}

/// BIT, piece by piece: Zero tells whether accumulator and operand share no
/// bit, Negative copies bit 7 of the operand and Overflow its bit 6; the
/// accumulator and everything else but these three flags stay as they are.
pub proof fn lemma_tested(cpu: CPU, mode: AddressingMode)
    ensures
        ({
            let after = cpu.tested(mode);
            let value = cpu.operand(mode);
            &&& after.status.has(Status::ZERO) == (cpu.acc & value == 0)
            &&& after.status.has(Status::NEGATIVE) == (value & 0x80 != 0)
            &&& after.status.has(Status::OVERFLOW) == (value & 0x40 != 0)
            &&& after.status.has(Status::CARRY) == cpu.status.has(Status::CARRY)
            &&& after.status.has(Status::INTERRUPT_DISABLE) == cpu.status.has(
                Status::INTERRUPT_DISABLE,
            )
            &&& after.status.has(Status::DECIMAL) == cpu.status.has(Status::DECIMAL)
            &&& after.status.has(Status::BREAK) == cpu.status.has(Status::BREAK)
            &&& after.status.has(Status::UNUSED) == cpu.status.has(Status::UNUSED)
            &&& after == (CPU { status: after.status, ..cpu })
        }),
{
    let value = cpu.operand(mode);
    let acc = cpu.acc;
    assert(value & acc == acc & value) by (bit_vector);
    let zero = value & acc == 0;
    let negative = value & 0x80 != 0;
    let overflow = value & 0x40 != 0;
    let s0 = cpu.status;
    let s1 = s0.with(Status::ZERO, zero);
    let s2 = s1.with(Status::NEGATIVE, negative);
    lemma_status_flags_disjoint();
    lemma_flag_written(s0.bits, Status::ZERO, zero);
    lemma_flag_kept(s1.bits, Status::NEGATIVE, negative, Status::ZERO);
    lemma_flag_written(s1.bits, Status::NEGATIVE, negative);
    lemma_flag_kept(s2.bits, Status::OVERFLOW, overflow, Status::ZERO);
    lemma_flag_kept(s2.bits, Status::OVERFLOW, overflow, Status::NEGATIVE);
    lemma_flag_written(s2.bits, Status::OVERFLOW, overflow);
    lemma_flag_kept(s0.bits, Status::ZERO, zero, Status::CARRY);
    lemma_flag_kept(s1.bits, Status::NEGATIVE, negative, Status::CARRY);
    lemma_flag_kept(s2.bits, Status::OVERFLOW, overflow, Status::CARRY);
    lemma_flag_kept(s0.bits, Status::ZERO, zero, Status::INTERRUPT_DISABLE);
    lemma_flag_kept(s1.bits, Status::NEGATIVE, negative, Status::INTERRUPT_DISABLE);
    lemma_flag_kept(s2.bits, Status::OVERFLOW, overflow, Status::INTERRUPT_DISABLE);
    lemma_flag_kept(s0.bits, Status::ZERO, zero, Status::DECIMAL);
    lemma_flag_kept(s1.bits, Status::NEGATIVE, negative, Status::DECIMAL);
    lemma_flag_kept(s2.bits, Status::OVERFLOW, overflow, Status::DECIMAL);
    lemma_flag_kept(s0.bits, Status::ZERO, zero, Status::BREAK);
    lemma_flag_kept(s1.bits, Status::NEGATIVE, negative, Status::BREAK);
    lemma_flag_kept(s2.bits, Status::OVERFLOW, overflow, Status::BREAK);
    lemma_flag_kept(s0.bits, Status::ZERO, zero, Status::UNUSED);
    lemma_flag_kept(s1.bits, Status::NEGATIVE, negative, Status::UNUSED);
    lemma_flag_kept(s2.bits, Status::OVERFLOW, overflow, Status::UNUSED);
}

impl Logical for CPU {
    open spec fn can_combine(&self, mode: AddressingMode) -> bool {
        &&& mode != AddressingMode::Implicit
        &&& mode != AddressingMode::Accumulator
        &&& self.has_room(1)
    }

    /// The operand is read, the extra cycle is charged where it is owed and
    /// asked for, the accumulator takes the result, and Zero and Negative
    /// follow the result. Nothing else changes.
    open spec fn combined(&self, mode: AddressingMode, op: LogicalOp, does_inc_cycle: bool) -> CPU {
        let result = op.apply(self.acc, self.operand(mode));
        let charged = if self.penalty(mode) && does_inc_cycle {
            self.ticked(1)
        } else {
            *self
        };
        CPU { acc: result, ..charged }.with_zn(result)
    }

    open spec fn can_test(&self, mode: AddressingMode) -> bool {
        mode.has_memory_operand()
    }

    /// Zero tells whether operand and accumulator share no bit; Negative and
    /// Overflow copy bits 7 and 6 of the operand. Nothing else changes.
    open spec fn tested(&self, mode: AddressingMode) -> CPU {
        let value = self.operand(mode);
        CPU {
            status: self.status.with(Status::ZERO, value & self.acc == 0).with(
                Status::NEGATIVE,
                value & 0x80 != 0,
            ).with(Status::OVERFLOW, value & 0x40 != 0),
            ..*self
        }
    }

    fn bit_op(&mut self, mode: AddressingMode, op: LogicalOp, does_inc_cycle: bool)
        ensures
            final(self).acc == op.apply(old(self).acc, old(self).operand(mode)),
            final(self).status.has(Status::ZERO) == (final(self).acc == 0),
            final(self).status.has(Status::NEGATIVE) == (final(self).acc & 0x80 != 0),
            final(self).cycle_count == old(self).cycle_count + (if old(self).penalty(mode)
                && does_inc_cycle {
                1int
            } else {
                0int
            }),
    {
        proof {
            lemma_combined(*old(self), mode, op, does_inc_cycle);
        }
        let (addr, inc_cycles) = self.get_absolute_addr(mode, self.pc).unwrap();
        let val = self.read(addr);
        if inc_cycles && does_inc_cycle {
            self.tick(1);
        }
        self.acc = match op {
            LogicalOp::AND => self.acc & val,
            LogicalOp::ORA => self.acc | val,
            LogicalOp::EOR => self.acc ^ val,
        };
        self.status.set(Status::ZERO, self.acc == 0);
        self.status.set(Status::NEGATIVE, self.acc & 0x80 != 0);
    }

    fn bit(&mut self, mode: AddressingMode)
        ensures
            final(self).acc == old(self).acc,
            final(self).status.has(Status::ZERO) == (old(self).acc & old(self).operand(mode) == 0),
            final(self).status.has(Status::NEGATIVE) == (old(self).operand(mode) & 0x80 != 0),
            final(self).status.has(Status::OVERFLOW) == (old(self).operand(mode) & 0x40 != 0),
    {
        proof {
            lemma_tested(*old(self), mode);
        }
        let addr = self.get_operand_addr(mode).unwrap();
        let val = self.read(addr);
        self.status.set(Status::ZERO, (val & self.acc) == 0);
        self.status.set(Status::NEGATIVE, val & 0x80 != 0);
        self.status.set(Status::OVERFLOW, val & 0x40 != 0);
    }
}

/// AND, ORA and EOR pay at most the page-crossing cycle; BIT pays nothing.
pub proof fn lemma_logical_cost(cpu: CPU, mode: AddressingMode)
    requires
        cpu.has_room(1),
    ensures
        forall|op: LogicalOp, does_inc_cycle: bool|
            cpu.costs_at_most(#[trigger] cpu.combined(mode, op, does_inc_cycle), 1),
        cpu.costs_at_most(cpu.tested(mode), 0),
{
    cpu.bus.ppu.lemma_advanced_by_nothing();
}

} // verus!
