use vstd::prelude::*;
use crate::cpu::CPU;
use crate::cpu::addressing::AddressingMode;
use crate::cpu::logical::{Logical, LogicalOp};
use crate::cpu::status::Status;

verus! {

/// The four ways of moving the bits of a byte by one place.
#[derive(Clone, Copy, Debug, PartialEq, Eq, Structural)]
pub enum ShiftOp {
    ASL,
    LSR,
    ROL,
    ROR,
}

impl ShiftOp {
    /// The byte that comes out: to the left the value doubles modulo 256, to
    /// the right it halves; a rotation brings the old carry `carry` in at
    /// the end that a shift leaves empty.
    pub open spec fn result(self, value: u8, carry: bool) -> u8 {
        let c: int = if carry {
            1
        } else {
            0
        };
        match self {
            ShiftOp::ASL => ((value * 2) % 256) as u8,
            ShiftOp::LSR => (value / 2) as u8,
            ShiftOp::ROL => ((value * 2) % 256 + c) as u8,
            ShiftOp::ROR => (value / 2 + 128 * c) as u8,
        }
    }

    /// The bit that falls out, which becomes the new carry: bit 7 when moving
    /// left, bit 0 when moving right.
    pub open spec fn carry_out(self, value: u8) -> bool {
        match self {
            ShiftOp::ASL | ShiftOp::ROL => value >= 128,
            ShiftOp::LSR | ShiftOp::ROR => value % 2 == 1,
        }
    }
}

/// The shifts and masks of the processor, as arithmetic.
pub proof fn lemma_shift_bits(value: u8)
    ensures
        value << 1 == (value * 2) % 256,
        value >> 1 == value / 2,
        (value << 1) | 1 == (value * 2) % 256 + 1,
        (value >> 1) | 0x80 == value / 2 + 128,
        (value & 0x80 != 0) == (value >= 128),
        (value & 0x01 != 0) == (value % 2 == 1),
{
    assert(value << 1 == (value * 2) % 256) by (bit_vector);
    assert(value >> 1 == value / 2) by (bit_vector);
    assert((value << 1) | 1 == (value * 2) % 256 + 1) by (bit_vector);
    assert((value >> 1) | 0x80 == value / 2 + 128) by (bit_vector);
    assert((value & 0x80 != 0) == (value >= 128)) by (bit_vector);
    assert((value & 0x01 != 0) == (value % 2 == 1)) by (bit_vector);
}

impl CPU {
    /// Whether a shift can run in `mode`: on the accumulator or on a byte in memory.
    pub open spec fn can_shift(self, mode: AddressingMode) -> bool {
        mode == AddressingMode::Accumulator || mode.has_memory_operand()
    }

    /// The byte that a shift in `mode` works on.
    pub open spec fn shift_input(self, mode: AddressingMode) -> u8 {
        if mode == AddressingMode::Accumulator {
            self.acc
        } else {
            self.operand(mode)
        }
    }

    /// ASL, LSR, ROL, ROR: the accumulator, or the byte in memory, is moved by
    /// one place; Carry takes the bit that fell out, Zero and Negative follow
    /// the result. A shift in memory never pays the page-crossing cycle.
    pub open spec fn shifted(self, mode: AddressingMode, op: ShiftOp) -> CPU {
        let value = self.shift_input(mode);
        let result = op.result(value, self.status.has(Status::CARRY));
        let placed = if mode == AddressingMode::Accumulator {
            CPU { acc: result, ..self }
        } else {
            self.wrote(self.target(mode), result)
        };
        placed.with_flag(Status::CARRY, op.carry_out(value)).with_zn(result)
    }

    /// SLO: the byte in memory is shifted left, then joined into the
    /// accumulator with OR.
    pub open spec fn after_slo(self, mode: AddressingMode) -> CPU {
        self.shifted(mode, ShiftOp::ASL).combined(mode, LogicalOp::ORA, false)
    }

    /// RLA: the byte in memory is rotated left, then joined into the
    /// accumulator with AND.
    pub open spec fn after_rla(self, mode: AddressingMode) -> CPU {
        self.shifted(mode, ShiftOp::ROL).combined(mode, LogicalOp::AND, false)
    }

    /// SRE: the byte in memory is shifted right, then joined into the
    /// accumulator with exclusive OR.
    pub open spec fn after_sre(self, mode: AddressingMode) -> CPU {
        self.shifted(mode, ShiftOp::LSR).combined(mode, LogicalOp::EOR, false)
    }

    /// RRA: the byte in memory is rotated right, then added to the
    /// accumulator with the carry that the rotation left.
    pub open spec fn after_rra(self, mode: AddressingMode) -> CPU {
        let rotated = self.shifted(mode, ShiftOp::ROR);
        rotated.added(rotated.operand(mode))
    }

    /// ANC: AND with the operand, and Carry copies Negative.
    pub open spec fn after_anc(self, mode: AddressingMode) -> CPU {
        let anded = self.combined(mode, LogicalOp::AND, true);
        anded.with_flag(Status::CARRY, anded.acc >= 128)
    }

    /// ASR: AND with the operand, then the accumulator is shifted right.
    pub open spec fn after_asr(self, mode: AddressingMode) -> CPU {
        self.combined(mode, LogicalOp::AND, true).shifted(AddressingMode::Accumulator, ShiftOp::LSR)
    }

    /// ARR: AND with the operand, then the accumulator is rotated right;
    /// Carry takes bit 6 of the result, Overflow tells whether bits 6 and 5
    /// of the result differ.
    pub open spec fn after_arr(self, mode: AddressingMode) -> CPU {
        let anded = self.combined(mode, LogicalOp::AND, true);
        let result = ShiftOp::ROR.result(anded.acc, self.status.has(Status::CARRY));
        CPU { acc: result, ..anded }.with_zn(result).with_flag(
            Status::CARRY,
            (result / 64) % 2 == 1,
        ).with_flag(Status::OVERFLOW, (result / 64) % 2 != (result / 32) % 2)
    }

    /// Moves the bits of the accumulator, or of the byte in memory, by one place.
    pub fn shift(&mut self, mode: AddressingMode, op: ShiftOp)
        requires
            old(self).can_shift(mode),
        ensures
            *final(self) == old(self).shifted(mode, op),
    {
        let in_memory = match mode {
            AddressingMode::Accumulator => false,
            _ => true,
        };
        let addr = if in_memory {
            self.store_addr(mode)
        } else {
            0
        };
        let value = if in_memory {
            self.read(addr)
        } else {
            self.acc
        };
        let carry = self.status.contains(Status::CARRY);
        proof {
            lemma_shift_bits(value);
        }
        let (result, carry_out) = match op {
            ShiftOp::ASL => (value << 1, value & 0x80 != 0),
            ShiftOp::LSR => (value >> 1, value & 0x01 != 0),
            ShiftOp::ROL => (
                if carry {
                    (value << 1) | 1
                } else {
                    value << 1
                },
                value & 0x80 != 0,
            ),
            ShiftOp::ROR => (
                if carry {
                    (value >> 1) | 0x80
                } else {
                    value >> 1
                },
                value & 0x01 != 0,
            ),
        };
        if in_memory {
            self.write(addr, result);
        } else {
            self.acc = result;
        }
        self.status.set(Status::CARRY, carry_out);
        self.set_zn(result);
    }

    pub fn asl(&mut self, mode: AddressingMode)
        requires
            old(self).can_shift(mode),
        ensures
            *final(self) == old(self).shifted(mode, ShiftOp::ASL),
    {
        self.shift(mode, ShiftOp::ASL);
    }

    pub fn lsr(&mut self, mode: AddressingMode)
        requires
            old(self).can_shift(mode),
        ensures
            *final(self) == old(self).shifted(mode, ShiftOp::LSR),
    {
        self.shift(mode, ShiftOp::LSR);
    }

    pub fn rol(&mut self, mode: AddressingMode)
        requires
            old(self).can_shift(mode),
        ensures
            *final(self) == old(self).shifted(mode, ShiftOp::ROL),
    {
        self.shift(mode, ShiftOp::ROL);
    }

    pub fn ror(&mut self, mode: AddressingMode)
        requires
            old(self).can_shift(mode),
        ensures
            *final(self) == old(self).shifted(mode, ShiftOp::ROR),
    {
        self.shift(mode, ShiftOp::ROR);
    }

    pub fn slo(&mut self, mode: AddressingMode)
        requires
            mode.has_memory_operand(),
            old(self).has_room(1),
        ensures
            *final(self) == old(self).after_slo(mode),
    {
        self.shift(mode, ShiftOp::ASL);
        self.ora_no_inc(mode);
    }

    pub fn rla(&mut self, mode: AddressingMode)
        requires
            mode.has_memory_operand(),
            old(self).has_room(1),
        ensures
            *final(self) == old(self).after_rla(mode),
    {
        self.shift(mode, ShiftOp::ROL);
        self.and_no_inc(mode);
    }

    pub fn sre(&mut self, mode: AddressingMode)
        requires
            mode.has_memory_operand(),
            old(self).has_room(1),
        ensures
            *final(self) == old(self).after_sre(mode),
    {
        self.shift(mode, ShiftOp::LSR);
        self.eor_no_inc(mode);
    }

    pub fn rra(&mut self, mode: AddressingMode)
        requires
            mode.has_memory_operand(),
        ensures
            *final(self) == old(self).after_rra(mode),
    {
        self.shift(mode, ShiftOp::ROR);
        let addr = self.store_addr(mode);
        let value = self.read(addr);
        self.add_to_acc(value);
    }

    pub fn anc(&mut self, mode: AddressingMode)
        requires
            old(self).can_read(mode),
        ensures
            *final(self) == old(self).after_anc(mode),
    {
        self.and(mode);
        proof {
            lemma_shift_bits(self.acc);
        }
        self.status.set(Status::CARRY, self.acc & 0x80 != 0);
    }

    pub fn asr(&mut self, mode: AddressingMode)
        requires
            old(self).can_read(mode),
        ensures
            *final(self) == old(self).after_asr(mode),
    {
        self.and(mode);
        self.shift(AddressingMode::Accumulator, ShiftOp::LSR);
    }

    pub fn arr(&mut self, mode: AddressingMode)
        requires
            old(self).can_read(mode),
        ensures
            *final(self) == old(self).after_arr(mode),
    {
        let carry = self.status.contains(Status::CARRY);
        self.and(mode);
        proof {
            lemma_shift_bits(self.acc);
        }
        let result = if carry {
            (self.acc >> 1) | 0x80
        } else {
            self.acc >> 1
        };
        let bit_6 = (result >> 6) & 1 == 1;
        let bit_5 = (result >> 5) & 1 == 1;
        proof {
            assert(((result >> 6) & 1 == 1) == ((result / 64) % 2 == 1)) by (bit_vector);
            assert(((result >> 5) & 1 == 1) == ((result / 32) % 2 == 1)) by (bit_vector);
        }
        self.acc = result;
        self.set_zn(result);
        self.status.set(Status::CARRY, bit_6);
        self.status.set(Status::OVERFLOW, bit_6 != bit_5);
    }
}

/// Shifts pay nothing, alone or joined with a logical operation or an
/// addition; the three that begin with an AND pay at most the page-crossing cycle.
pub proof fn lemma_shift_cost(cpu: CPU, mode: AddressingMode)
    requires
        cpu.has_room(1),
    ensures
        forall|op: ShiftOp| cpu.costs_at_most(#[trigger] cpu.shifted(mode, op), 0),
        cpu.costs_at_most(cpu.after_slo(mode), 0),
        cpu.costs_at_most(cpu.after_rla(mode), 0),
        cpu.costs_at_most(cpu.after_sre(mode), 0),
        cpu.costs_at_most(cpu.after_rra(mode), 0),
        cpu.costs_at_most(cpu.after_anc(mode), 1),
        cpu.costs_at_most(cpu.after_asr(mode), 1),
        cpu.costs_at_most(cpu.after_arr(mode), 1),
{
    cpu.bus.ppu.lemma_advanced_by_nothing();
}

} // verus!
