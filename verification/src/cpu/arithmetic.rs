use vstd::prelude::*;
use crate::cpu::CPU;
use crate::cpu::addressing::AddressingMode;
use crate::cpu::status::Status;

verus! {

/// A byte read as a number from -128 to 127.
pub open spec fn signed(value: u8) -> int {
    if value < 128 {
        value as int
    } else {
        value - 256
    }
}

/// The test that the processor makes for signed overflow, on the bits: the
/// two operands `a` and `v` have the same sign and the result `r` has the other.
pub proof fn lemma_overflow_bits(a: u8, v: u8, r: u8)
    ensures
        ((v ^ r) & (r ^ a) & 0x80 != 0) == ((a < 128 && v < 128 && r >= 128) || (a >= 128 && v
            >= 128 && r < 128)),
{
    assert(((v ^ r) & (r ^ a) & 0x80 != 0) == ((a < 128 && v < 128 && r >= 128) || (a >= 128 && v
        >= 128 && r < 128))) by (bit_vector);
}

impl CPU {
    /// The carry flag as a number.
    pub open spec fn carry(self) -> int {
        if self.status.has(Status::CARRY) {
            1
        } else {
            0
        }
    }

    /// The accumulator plus `value` plus the carry. The result is the sum
    /// modulo 256; Carry tells that the sum passed 255, Overflow that the
    /// sum of the signed readings left the range of a signed byte. Decimal
    /// mode plays no part.
    pub open spec fn added(self, value: u8) -> CPU {
        let sum = self.acc + value + self.carry();
        let signed_sum = signed(self.acc) + signed(value) + self.carry();
        let result = (sum % 256) as u8;
        CPU { acc: result, ..self }.with_flag(Status::CARRY, sum > 255).with_flag(
            Status::OVERFLOW,
            signed_sum < -128 || signed_sum > 127,
        ).with_zn(result)
    }

    /// The accumulator minus `value` minus the borrow, which is the carry
    /// inverted: the same as adding the complement of `value`.
    pub open spec fn subtracted(self, value: u8) -> CPU {
        self.added((255 - value) as u8)
    }

    /// `register` compared with `value`: Carry where it is at least `value`,
    /// Zero and Negative from the difference modulo 256.
    pub open spec fn compared(self, register: u8, value: u8) -> CPU {
        self.with_flag(Status::CARRY, register >= value).with_zn(register.wrapping_sub(value))
    }

    /// The processor with the byte at `addr` replaced by `value`, and Zero
    /// and Negative following it.
    pub open spec fn modified(self, addr: u16, value: u8) -> CPU {
        self.wrote(addr, value).with_zn(value)
    }

    /// ADC: the operand is added to the accumulator.
    pub open spec fn after_adc(self, mode: AddressingMode) -> CPU {
        self.charged(mode).added(self.operand(mode))
    }

    /// SBC: the operand is subtracted from the accumulator.
    pub open spec fn after_sbc(self, mode: AddressingMode) -> CPU {
        self.charged(mode).subtracted(self.operand(mode))
    }

    /// CMP: the accumulator is compared with the operand.
    pub open spec fn after_cmp(self, mode: AddressingMode) -> CPU {
        self.charged(mode).compared(self.acc, self.operand(mode))
    }

    /// CPX: X is compared with the operand.
    pub open spec fn after_cpx(self, mode: AddressingMode) -> CPU {
        self.charged(mode).compared(self.x, self.operand(mode))
    }

    /// CPY: Y is compared with the operand.
    pub open spec fn after_cpy(self, mode: AddressingMode) -> CPU {
        self.charged(mode).compared(self.y, self.operand(mode))
    }

    /// INC: the byte in memory goes up by one, from 255 to 0.
    pub open spec fn after_inc(self, mode: AddressingMode) -> CPU {
        self.modified(self.target(mode), self.operand(mode).wrapping_add(1))
    }

    /// DEC: the byte in memory goes down by one, from 0 to 255.
    pub open spec fn after_dec(self, mode: AddressingMode) -> CPU {
        self.modified(self.target(mode), self.operand(mode).wrapping_sub(1))
    }

    /// INX: X goes up by one.
    pub open spec fn after_inx(self) -> CPU {
        CPU { x: self.x.wrapping_add(1), ..self }.with_zn(self.x.wrapping_add(1))
    }

    /// INY: Y goes up by one.
    pub open spec fn after_iny(self) -> CPU {
        CPU { y: self.y.wrapping_add(1), ..self }.with_zn(self.y.wrapping_add(1))
    }

    /// DEX: X goes down by one.
    pub open spec fn after_dex(self) -> CPU {
        CPU { x: self.x.wrapping_sub(1), ..self }.with_zn(self.x.wrapping_sub(1))
    }

    /// DEY: Y goes down by one.
    pub open spec fn after_dey(self) -> CPU {
        CPU { y: self.y.wrapping_sub(1), ..self }.with_zn(self.y.wrapping_sub(1))
    }

    /// DCP: the byte in memory goes down by one, and the accumulator is
    /// compared with the new byte.
    pub open spec fn after_dcp(self, mode: AddressingMode) -> CPU {
        let value = self.operand(mode).wrapping_sub(1);
        self.wrote(self.target(mode), value).compared(self.acc, value)
    }

    /// ISB: the byte in memory goes up by one, and the new byte is
    /// subtracted from the accumulator.
    pub open spec fn after_isb(self, mode: AddressingMode) -> CPU {
        let value = self.operand(mode).wrapping_add(1);
        self.wrote(self.target(mode), value).subtracted(value)
    }

    /// AXS: X takes the bits that accumulator and X share, less the operand;
    /// the flags are those of comparing the shared bits with the operand.
    pub open spec fn after_axs(self, mode: AddressingMode) -> CPU {
        let shared = self.acc & self.x;
        let value = self.operand(mode);
        CPU { x: shared.wrapping_sub(value), ..self.charged(mode) }.compared(shared, value)
    }

    /// What `subtracted` computes, said directly: with the borrow `1 - carry`,
    /// the result is the difference modulo 256, Carry tells that nothing had
    /// to be borrowed, and Overflow that the signed difference left the range.
    pub proof fn lemma_subtracted(self, value: u8)
        ensures
            ({
                let difference = self.acc - value - (1 - self.carry());
                let signed_difference = signed(self.acc) - signed(value) - (1 - self.carry());
                let result = (difference % 256) as u8;
                self.subtracted(value) == (CPU { acc: result, ..self }).with_flag(
                    Status::CARRY,
                    difference >= 0,
                ).with_flag(
                    Status::OVERFLOW,
                    signed_difference < -128 || signed_difference > 127,
                ).with_zn(result)
            }),
    {
    }

    /// Adds `value` and the carry to the accumulator.
    pub fn add_to_acc(&mut self, value: u8)
        ensures
            *final(self) == old(self).added(value),
    {
        let carry: u16 = if self.status.contains(Status::CARRY) {
            1
        } else {
            0
        };
        let sum: u16 = self.acc as u16 + value as u16 + carry;
        let result: u8 = (sum % 256) as u8;
        let overflow = (value ^ result) & (result ^ self.acc) & 0x80 != 0;
        proof {
            lemma_overflow_bits(self.acc, value, result);
        }
        self.acc = result;
        self.status.set(Status::CARRY, sum > 0xFF);
        self.status.set(Status::OVERFLOW, overflow);
        self.set_zn(result);
    }

    /// Subtracts `value` and the borrow from the accumulator.
    pub fn sub_from_acc(&mut self, value: u8)
        ensures
            *final(self) == old(self).subtracted(value),
    {
        proof {
            assert(value ^ 0xFF == 255 - value) by (bit_vector);
        }
        self.add_to_acc(value ^ 0xFF);
    }

    /// Compares `register` with `value`.
    pub fn compare(&mut self, register: u8, value: u8)
        ensures
            *final(self) == old(self).compared(register, value),
    {
        self.status.set(Status::CARRY, register >= value);
        self.set_zn(register.wrapping_sub(value));
    }

    pub fn adc(&mut self, mode: AddressingMode)
        requires
            old(self).can_read(mode),
        ensures
            *final(self) == old(self).after_adc(mode),
    {
        let value = self.fetch(mode);
        self.add_to_acc(value);
    }

    pub fn sbc(&mut self, mode: AddressingMode)
        requires
            old(self).can_read(mode),
        ensures
            *final(self) == old(self).after_sbc(mode),
    {
        let value = self.fetch(mode);
        self.sub_from_acc(value);
    }

    pub fn cmp(&mut self, mode: AddressingMode)
        requires
            old(self).can_read(mode),
        ensures
            *final(self) == old(self).after_cmp(mode),
    {
        let value = self.fetch(mode);
        self.compare(self.acc, value);
    }

    pub fn cpx(&mut self, mode: AddressingMode)
        requires
            old(self).can_read(mode),
        ensures
            *final(self) == old(self).after_cpx(mode),
    {
        let value = self.fetch(mode);
        self.compare(self.x, value);
    }

    pub fn cpy(&mut self, mode: AddressingMode)
        requires
            old(self).can_read(mode),
        ensures
            *final(self) == old(self).after_cpy(mode),
    {
        let value = self.fetch(mode);
        self.compare(self.y, value);
    }

    pub fn inc(&mut self, mode: AddressingMode)
        requires
            mode.has_memory_operand(),
        ensures
            *final(self) == old(self).after_inc(mode),
    {
        let addr = self.store_addr(mode);
        let value = self.read(addr).wrapping_add(1);
        self.write(addr, value);
        self.set_zn(value);
    }

    pub fn dec(&mut self, mode: AddressingMode)
        requires
            mode.has_memory_operand(),
        ensures
            *final(self) == old(self).after_dec(mode),
    {
        let addr = self.store_addr(mode);
        let value = self.read(addr).wrapping_sub(1);
        self.write(addr, value);
        self.set_zn(value);
    }

    pub fn inx(&mut self)
        ensures
            *final(self) == old(self).after_inx(),
    {
        self.x = self.x.wrapping_add(1);
        self.set_zn(self.x);
    }

    pub fn iny(&mut self)
        ensures
            *final(self) == old(self).after_iny(),
    {
        self.y = self.y.wrapping_add(1);
        self.set_zn(self.y);
    }

    pub fn dex(&mut self)
        ensures
            *final(self) == old(self).after_dex(),
    {
        self.x = self.x.wrapping_sub(1);
        self.set_zn(self.x);
    }

    pub fn dey(&mut self)
        ensures
            *final(self) == old(self).after_dey(),
    {
        self.y = self.y.wrapping_sub(1);
        self.set_zn(self.y);
    }

    pub fn dcp(&mut self, mode: AddressingMode)
        requires
            mode.has_memory_operand(),
        ensures
            *final(self) == old(self).after_dcp(mode),
    {
        let addr = self.store_addr(mode);
        let value = self.read(addr).wrapping_sub(1);
        self.write(addr, value);
        self.compare(self.acc, value);
    }

    pub fn isb(&mut self, mode: AddressingMode)
        requires
            mode.has_memory_operand(),
        ensures
            *final(self) == old(self).after_isb(mode),
    {
        let addr = self.store_addr(mode);
        let value = self.read(addr).wrapping_add(1);
        self.write(addr, value);
        self.sub_from_acc(value);
    }

    pub fn axs(&mut self, mode: AddressingMode)
        requires
            old(self).can_read(mode),
        ensures
            *final(self) == old(self).after_axs(mode),
    {
        let value = self.fetch(mode);
        let shared = self.acc & self.x;
        self.x = shared.wrapping_sub(value);
        self.compare(shared, value);
    }
}

/// Additions and comparisons pay at most the page-crossing cycle; what
/// changes a byte in memory or a register in place pays nothing.
pub proof fn lemma_arithmetic_cost(cpu: CPU, mode: AddressingMode)
    requires
        cpu.has_room(1),
    ensures
        cpu.costs_at_most(cpu.after_adc(mode), 1),
        cpu.costs_at_most(cpu.after_sbc(mode), 1),
        cpu.costs_at_most(cpu.after_cmp(mode), 1),
        cpu.costs_at_most(cpu.after_cpx(mode), 1),
        cpu.costs_at_most(cpu.after_cpy(mode), 1),
        cpu.costs_at_most(cpu.after_axs(mode), 1),
        cpu.costs_at_most(cpu.after_inc(mode), 0),
        cpu.costs_at_most(cpu.after_dec(mode), 0),
        cpu.costs_at_most(cpu.after_inx(), 0),
        cpu.costs_at_most(cpu.after_iny(), 0),
        cpu.costs_at_most(cpu.after_dex(), 0),
        cpu.costs_at_most(cpu.after_dey(), 0),
        cpu.costs_at_most(cpu.after_dcp(mode), 0),
        cpu.costs_at_most(cpu.after_isb(mode), 0),
{
    cpu.bus.ppu.lemma_advanced_by_nothing();
}

} // verus!
