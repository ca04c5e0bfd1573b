use vstd::prelude::*;
use crate::cpu::CPU;
use crate::cpu::addressing::AddressingMode;

verus! {

impl CPU {
    /// Whether an instruction that reads its operand can run in `mode`: the
    /// mode yields an operand, and the cycle counter has room for the extra cycle.
    pub open spec fn can_read(self, mode: AddressingMode) -> bool {
        &&& mode != AddressingMode::Implicit
        &&& mode != AddressingMode::Accumulator
        &&& self.has_room(1)
    }

    /// LDA: the accumulator takes the operand; Zero and Negative follow it.
    pub open spec fn after_lda(self, mode: AddressingMode) -> CPU {
        let value = self.operand(mode);
        CPU { acc: value, ..self.charged(mode) }.with_zn(value)
    }

    /// LDX: X takes the operand; Zero and Negative follow it.
    pub open spec fn after_ldx(self, mode: AddressingMode) -> CPU {
        let value = self.operand(mode);
        CPU { x: value, ..self.charged(mode) }.with_zn(value)
    }

    /// LDY: Y takes the operand; Zero and Negative follow it.
    pub open spec fn after_ldy(self, mode: AddressingMode) -> CPU {
        let value = self.operand(mode);
        CPU { y: value, ..self.charged(mode) }.with_zn(value)
    }

    /// LAX: accumulator and X both take the operand.
    pub open spec fn after_lax(self, mode: AddressingMode) -> CPU {
        let value = self.operand(mode);
        CPU { acc: value, x: value, ..self.charged(mode) }.with_zn(value)
    }

    /// LXA: accumulator and X both take the operand. The processor mixes an
    /// unstable constant into the result; it is taken as all ones here, which
    /// leaves the operand as it is.
    pub open spec fn after_lxa(self, mode: AddressingMode) -> CPU {
        self.after_lax(mode)
    }

    /// STA: the accumulator is stored; no flag changes.
    pub open spec fn after_sta(self, mode: AddressingMode) -> CPU {
        self.wrote(self.target(mode), self.acc)
    }

    /// STX: X is stored.
    pub open spec fn after_stx(self, mode: AddressingMode) -> CPU {
        self.wrote(self.target(mode), self.x)
    }

    /// STY: Y is stored.
    pub open spec fn after_sty(self, mode: AddressingMode) -> CPU {
        self.wrote(self.target(mode), self.y)
    }

    /// SAX: the bits that accumulator and X share are stored; no flag changes.
    pub open spec fn after_sax(self, mode: AddressingMode) -> CPU {
        self.wrote(self.target(mode), self.acc & self.x)
    }

    /// The byte that SHX and SHY combine with the register: the high byte of
    /// the instruction's base address, plus one.
    pub open spec fn high_byte_plus_one(self) -> u8 {
        self.byte(self.pc.wrapping_add(1)).wrapping_add(1)
    }

    /// SHX: X, masked by the high byte of the base address plus one, is stored.
    pub open spec fn after_shx(self, mode: AddressingMode) -> CPU {
        self.wrote(self.target(mode), self.x & self.high_byte_plus_one())
    }

    /// SHY: Y, masked by the high byte of the base address plus one, is stored.
    pub open spec fn after_shy(self, mode: AddressingMode) -> CPU {
        self.wrote(self.target(mode), self.y & self.high_byte_plus_one())
    }

    /// TAX: X takes the accumulator.
    pub open spec fn after_tax(self) -> CPU {
        CPU { x: self.acc, ..self }.with_zn(self.acc)
    }

    /// TAY: Y takes the accumulator.
    pub open spec fn after_tay(self) -> CPU {
        CPU { y: self.acc, ..self }.with_zn(self.acc)
    }

    /// TXA: the accumulator takes X.
    pub open spec fn after_txa(self) -> CPU {
        CPU { acc: self.x, ..self }.with_zn(self.x)
    }

    /// TYA: the accumulator takes Y.
    pub open spec fn after_tya(self) -> CPU {
        CPU { acc: self.y, ..self }.with_zn(self.y)
    }

    /// TSX: X takes the stack pointer.
    pub open spec fn after_tsx(self) -> CPU {
        CPU { x: self.sp, ..self }.with_zn(self.sp)
    }

    /// TXS: the stack pointer takes X; no flag changes.
    pub open spec fn after_txs(self) -> CPU {
        CPU { sp: self.x, ..self }
    }

    pub fn lda(&mut self, mode: AddressingMode)
        requires
            old(self).can_read(mode),
        ensures
            *final(self) == old(self).after_lda(mode),
    {
        let value = self.fetch(mode);
        self.acc = value;
        self.set_zn(value);
    }

    pub fn ldx(&mut self, mode: AddressingMode)
        requires
            old(self).can_read(mode),
        ensures
            *final(self) == old(self).after_ldx(mode),
    {
        let value = self.fetch(mode);
        self.x = value;
        self.set_zn(value);
    }

    pub fn ldy(&mut self, mode: AddressingMode)
        requires
            old(self).can_read(mode),
        ensures
            *final(self) == old(self).after_ldy(mode),
    {
        let value = self.fetch(mode);
        self.y = value;
        self.set_zn(value);
    }

    pub fn lax(&mut self, mode: AddressingMode)
        requires
            old(self).can_read(mode),
        ensures
            *final(self) == old(self).after_lax(mode),
    {
        let value = self.fetch(mode);
        self.acc = value;
        self.x = value;
        self.set_zn(value);
    }

    pub fn lxa(&mut self, mode: AddressingMode)
        requires
            old(self).can_read(mode),
        ensures
            *final(self) == old(self).after_lxa(mode),
    {
        self.lax(mode);
    }

    pub fn sta(&mut self, mode: AddressingMode)
        requires
            mode.has_memory_operand(),
        ensures
            *final(self) == old(self).after_sta(mode),
    {
        let addr = self.store_addr(mode);
        self.write(addr, self.acc);
    }

    pub fn stx(&mut self, mode: AddressingMode)
        requires
            mode.has_memory_operand(),
        ensures
            *final(self) == old(self).after_stx(mode),
    {
        let addr = self.store_addr(mode);
        self.write(addr, self.x);
    }

    pub fn sty(&mut self, mode: AddressingMode)
        requires
            mode.has_memory_operand(),
        ensures
            *final(self) == old(self).after_sty(mode),
    {
        let addr = self.store_addr(mode);
        self.write(addr, self.y);
    }

    pub fn sax(&mut self, mode: AddressingMode)
        requires
            mode.has_memory_operand(),
        ensures
            *final(self) == old(self).after_sax(mode),
    {
        let addr = self.store_addr(mode);
        self.write(addr, self.acc & self.x);
    }

    pub fn shx(&mut self, mode: AddressingMode)
        requires
            mode.has_memory_operand(),
        ensures
            *final(self) == old(self).after_shx(mode),
    {
        let addr = self.store_addr(mode);
        let high = self.read(self.pc.wrapping_add(1)).wrapping_add(1);
        self.write(addr, self.x & high);
    }

    pub fn shy(&mut self, mode: AddressingMode)
        requires
            mode.has_memory_operand(),
        ensures
            *final(self) == old(self).after_shy(mode),
    {
        let addr = self.store_addr(mode);
        let high = self.read(self.pc.wrapping_add(1)).wrapping_add(1);
        self.write(addr, self.y & high);
    }

    pub fn tax(&mut self)
        ensures
            *final(self) == old(self).after_tax(),
    {
        self.x = self.acc;
        self.set_zn(self.x);
    }

    pub fn tay(&mut self)
        ensures
            *final(self) == old(self).after_tay(),
    {
        self.y = self.acc;
        self.set_zn(self.y);
    }

    pub fn txa(&mut self)
        ensures
            *final(self) == old(self).after_txa(),
    {
        self.acc = self.x;
        self.set_zn(self.acc);
    }

    pub fn tya(&mut self)
        ensures
            *final(self) == old(self).after_tya(),
    {
        self.acc = self.y;
        self.set_zn(self.acc);
    }

    pub fn tsx(&mut self)
        ensures
            *final(self) == old(self).after_tsx(),
    {
        self.x = self.sp;
        self.set_zn(self.x);
    }

    pub fn txs(&mut self)
        ensures
            *final(self) == old(self).after_txs(),
    {
        self.sp = self.x;
    }
}

/// Loads pay at most the page-crossing cycle; stores and transfers pay nothing.
pub proof fn lemma_load_store_cost(cpu: CPU, mode: AddressingMode)
    requires
        cpu.has_room(1),
    ensures
        cpu.costs_at_most(cpu.after_lda(mode), 1),
        cpu.costs_at_most(cpu.after_ldx(mode), 1),
        cpu.costs_at_most(cpu.after_ldy(mode), 1),
        cpu.costs_at_most(cpu.after_lax(mode), 1),
        cpu.costs_at_most(cpu.after_lxa(mode), 1),
        cpu.costs_at_most(cpu.after_sta(mode), 0),
        cpu.costs_at_most(cpu.after_stx(mode), 0),
        cpu.costs_at_most(cpu.after_sty(mode), 0),
        cpu.costs_at_most(cpu.after_sax(mode), 0),
        cpu.costs_at_most(cpu.after_shx(mode), 0),
        cpu.costs_at_most(cpu.after_shy(mode), 0),
        cpu.costs_at_most(cpu.after_tax(), 0),
        cpu.costs_at_most(cpu.after_tay(), 0),
        cpu.costs_at_most(cpu.after_txa(), 0),
        cpu.costs_at_most(cpu.after_tya(), 0),
        cpu.costs_at_most(cpu.after_tsx(), 0),
        cpu.costs_at_most(cpu.after_txs(), 0),
{
    cpu.bus.ppu.lemma_advanced_by_nothing();
}

} // verus!
