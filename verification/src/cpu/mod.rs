use vstd::prelude::*;
use crate::bus::Bus;
use crate::cpu::addressing::{
    AddressingMode,
    jump_word_at,
    lemma_page_bits,
    lemma_word_bits,
    page_crossed,
    resolve,
    resolved_addr,
    resolved_penalty,
    word,
    word_at,
    zero_page_word_at,
};
use crate::cpu::op::{Registry, op_table};
use crate::cpu::status::{Status, lemma_status_flags_disjoint};
use crate::flags::{lemma_flag_kept, lemma_flag_written};

pub mod addressing;
pub mod arithmetic;
pub mod control;
pub mod engine;
pub mod instruction;
pub mod load_store;
pub mod logical;
pub mod op;
pub mod shift;
pub mod status;
pub mod tracer;

verus! {

/// The processor: its registers, its cycle counter, and the bus it drives.
pub struct CPU {
    pub acc: u8,
    pub x: u8,
    pub y: u8,
    pub sp: u8,
    pub pc: u16,
    pub status: Status,
    pub cycle_count: u64,
    pub bus: Bus,
    pub logging_enabled: bool,
    pub ops: Registry,
}

impl CPU {
    /// The processor after `cycles` cycles were charged: the counter and
    /// the bus move on together.
    pub open spec fn ticked(self, cycles: u8) -> CPU {
        CPU {
            cycle_count: (self.cycle_count + cycles) as u64,
            bus: self.bus.ticked(cycles),
            ..self
        }
    }

    /// Whether the clocks of `after` have moved on together from where they
    /// stand here: the cycle counter has not gone back, and the picture unit
    /// has moved by as many cycles as were counted.
    pub open spec fn clocks_agree(self, after: CPU) -> bool {
        &&& self.cycle_count <= after.cycle_count
        &&& after.bus.ppu == self.bus.ppu.advanced((after.cycle_count - self.cycle_count) as nat)
    }

    /// Whether `after` has been charged at most `most` cycles more than this
    /// one, on the cycle counter and on the bus alike.
    pub open spec fn costs_at_most(self, after: CPU, most: int) -> bool {
        &&& self.clocks_agree(after)
        &&& after.cycle_count <= self.cycle_count + most
    }

    /// Whether the cycle counter can take `cycles` more.
    pub open spec fn has_room(self, cycles: int) -> bool {
        self.cycle_count + cycles <= u64::MAX
    }

    /// The byte at `addr`.
    pub open spec fn byte(self, addr: u16) -> u8 {
        self.bus.memory[addr as int]
    }

    /// The processor with `value` stored at `addr`.
    pub open spec fn wrote(self, addr: u16, value: u8) -> CPU {
        CPU { bus: self.bus.written(addr, value), ..self }
    }

    /// The processor with Zero and Negative set from `value`: Zero where it
    /// is 0, Negative where its bit 7 is set.
    pub open spec fn with_zn(self, value: u8) -> CPU {
        CPU {
            status: self.status.with(Status::ZERO, value == 0).with(
                Status::NEGATIVE,
                value & 0x80 != 0,
            ),
            ..self
        }
    }

    /// The processor with the flag `flag` set to `value`.
    pub open spec fn with_flag(self, flag: u8, value: bool) -> CPU {
        CPU { status: self.status.with(flag, value), ..self }
    }

    /// The address of the operand in `mode`, with the program counter at the
    /// first operand byte.
    pub open spec fn target(self, mode: AddressingMode) -> u16 {
        resolved_addr(mode, self.bus.memory@, self.x, self.y, self.pc)
    }

    /// The operand in `mode`: the byte at `target(mode)`.
    pub open spec fn operand(self, mode: AddressingMode) -> u8 {
        self.byte(self.target(mode))
    }

    /// Whether reaching the operand in `mode` owes the extra cycle.
    pub open spec fn penalty(self, mode: AddressingMode) -> bool {
        resolved_penalty(mode, self.bus.memory@, self.x, self.y, self.pc)
    }

    /// The processor after the extra cycle of `mode` was charged, where one is owed.
    pub open spec fn charged(self, mode: AddressingMode) -> CPU {
        if self.penalty(mode) {
            self.ticked(1)
        } else {
            self
        }
    }

    /// Where the stack pointer `sp` points: the stack is page one.
    pub open spec fn stack_addr(sp: u8) -> u16 {
        (0x0100 + sp) as u16
    }

    /// The processor after `value` was pushed: stored where the stack pointer
    /// points, which then moves down by one, from `0x00` to `0xFF`.
    pub open spec fn pushed(self, value: u8) -> CPU {
        CPU { sp: self.sp.wrapping_sub(1), ..self.wrote(Self::stack_addr(self.sp), value) }
    }

    /// The processor after a word was pushed, high byte first.
    pub open spec fn pushed_16(self, value: u16) -> CPU {
        self.pushed((value / 256) as u8).pushed((value % 256) as u8)
    }

    /// The byte that a pull gives: the one above the stack pointer.
    pub open spec fn top(self) -> u8 {
        self.byte(Self::stack_addr(self.sp.wrapping_add(1)))
    }

    /// The processor after a pull: the stack pointer moves up by one, from
    /// `0xFF` to `0x00`.
    pub open spec fn pulled(self) -> CPU {
        CPU { sp: self.sp.wrapping_add(1), ..self }
    }

    /// The word that two pulls give, low byte first.
    pub open spec fn top_16(self) -> u16 {
        word(self.top(), self.pulled().top())
    }

    /// What `with_zn` does, flag by flag: Zero and Negative follow `value`,
    /// the other six flags stay.
    pub proof fn lemma_with_zn(self, value: u8)
        ensures
            self.with_zn(value).status.has(Status::ZERO) == (value == 0),
            self.with_zn(value).status.has(Status::NEGATIVE) == (value & 0x80 != 0),
            self.with_zn(value).status.has(Status::NEGATIVE) == (value >= 128),
            self.with_zn(value).status.has(Status::CARRY) == self.status.has(Status::CARRY),
            self.with_zn(value).status.has(Status::INTERRUPT_DISABLE) == self.status.has(
                Status::INTERRUPT_DISABLE,
            ),
            self.with_zn(value).status.has(Status::DECIMAL) == self.status.has(Status::DECIMAL),
            self.with_zn(value).status.has(Status::BREAK) == self.status.has(Status::BREAK),
            self.with_zn(value).status.has(Status::UNUSED) == self.status.has(Status::UNUSED),
            self.with_zn(value).status.has(Status::OVERFLOW) == self.status.has(Status::OVERFLOW),
    {
        lemma_status_flags_disjoint();
        let zero = value == 0;
        let negative = value & 0x80 != 0;
        assert((value & 0x80 != 0) == (value >= 128)) by (bit_vector);
        let s1 = self.status.with(Status::ZERO, zero);
        lemma_flag_written(self.status.bits, Status::ZERO, zero);
        lemma_flag_kept(s1.bits, Status::NEGATIVE, negative, Status::ZERO);
        lemma_flag_written(s1.bits, Status::NEGATIVE, negative);
        lemma_flag_kept(self.status.bits, Status::ZERO, zero, Status::CARRY);
        lemma_flag_kept(s1.bits, Status::NEGATIVE, negative, Status::CARRY);
        lemma_flag_kept(self.status.bits, Status::ZERO, zero, Status::INTERRUPT_DISABLE);
        lemma_flag_kept(s1.bits, Status::NEGATIVE, negative, Status::INTERRUPT_DISABLE);
        lemma_flag_kept(self.status.bits, Status::ZERO, zero, Status::DECIMAL);
        lemma_flag_kept(s1.bits, Status::NEGATIVE, negative, Status::DECIMAL);
        lemma_flag_kept(self.status.bits, Status::ZERO, zero, Status::BREAK);
        lemma_flag_kept(s1.bits, Status::NEGATIVE, negative, Status::BREAK);
        lemma_flag_kept(self.status.bits, Status::ZERO, zero, Status::UNUSED);
        lemma_flag_kept(s1.bits, Status::NEGATIVE, negative, Status::UNUSED);
        lemma_flag_kept(self.status.bits, Status::ZERO, zero, Status::OVERFLOW);
        lemma_flag_kept(s1.bits, Status::NEGATIVE, negative, Status::OVERFLOW);
    }

    /// The operand's address and the extra-cycle flag for `mode`, with the
    /// first operand byte at `addr`.
    pub open spec fn resolved(self, mode: AddressingMode, addr: u16) -> Option<(u16, bool)> {
        resolve(mode, self.bus.memory@, self.x, self.y, addr)
    }

    /// What `get_operand_addr` gives: the address of a memory operand, with
    /// the program counter standing at the first operand byte.
    pub open spec fn operand_addr(self, mode: AddressingMode) -> Option<u16> {
        if mode.has_memory_operand() {
            Some(resolved_addr(mode, self.bus.memory@, self.x, self.y, self.pc))
        } else {
            None
        }
    }

    /// The processor at power-on, wired to `bus`: registers zero, stack
    /// pointer `0xFD`, flags `0x24`, no cycle counted, tracing off.
    pub fn new(bus: Bus) -> (cpu: CPU)
        ensures
            cpu.acc == 0,
            cpu.x == 0,
            cpu.y == 0,
            cpu.sp == 0xFD,
            cpu.pc == 0,
            cpu.status.bits == 0x24,
            cpu.cycle_count == 0,
            cpu.bus == bus,
            !cpu.logging_enabled,
            cpu.ops@ == op_table(),
    {
        CPU {
            acc: 0,
            x: 0,
            y: 0,
            sp: 0xFD,
            pc: 0,
            status: Status::new(),
            cycle_count: 0,
            bus,
            logging_enabled: false,
            ops: Registry::new(),
        }
    }

    pub fn enable_logging(&mut self)
        ensures
            *final(self) == (CPU { logging_enabled: true, ..*old(self) }),
    {
        self.logging_enabled = true;
    }

    pub fn read(&self, addr: u16) -> (value: u8)
        ensures
            value == self.bus.memory[addr as int],
    {
        self.bus.read(addr)
    }

    pub fn write(&mut self, addr: u16, value: u8)
        ensures
            *final(self) == old(self).wrote(addr, value),
            final(self).bus.memory@ == old(self).bus.memory@.update(addr as int, value),
    {
        self.bus.write(addr, value);
    }

    /// Sets Zero and Negative from `value`.
    pub fn set_zn(&mut self, value: u8)
        ensures
            *final(self) == old(self).with_zn(value),
    {
        self.status.set(Status::ZERO, value == 0);
        self.status.set(Status::NEGATIVE, value & 0x80 != 0);
    }

    /// Sets or clears one flag.
    pub fn set_flag(&mut self, flag: u8, value: bool)
        ensures
            *final(self) == old(self).with_flag(flag, value),
    {
        self.status.set(flag, value);
    }

    /// Reads the operand in `mode` and charges the extra cycle where the
    /// mode owes one.
    pub fn fetch(&mut self, mode: AddressingMode) -> (value: u8)
        requires
            mode != AddressingMode::Implicit,
            mode != AddressingMode::Accumulator,
            old(self).has_room(1),
        ensures
            value == old(self).operand(mode),
            *final(self) == old(self).charged(mode),
    {
        let (addr, penalty) = self.get_absolute_addr(mode, self.pc).unwrap();
        let value = self.read(addr);
        if penalty {
            self.tick(1);
        }
        value
    }

    /// The address of the operand in `mode`, for an instruction that stores.
    pub fn store_addr(&self, mode: AddressingMode) -> (addr: u16)
        requires
            mode.has_memory_operand(),
        ensures
            addr == self.target(mode),
    {
        self.get_absolute_addr(mode, self.pc).unwrap().0
    }

    /// Pushes `value` on the stack.
    pub fn push(&mut self, value: u8)
        ensures
            *final(self) == old(self).pushed(value),
    {
        self.write(0x0100 + self.sp as u16, value);
        self.sp = self.sp.wrapping_sub(1);
    }

    /// Pushes a word, high byte first.
    pub fn push_16(&mut self, value: u16)
        ensures
            *final(self) == old(self).pushed_16(value),
    {
        self.push((value >> 8) as u8);
        self.push((value & 0xFF) as u8);
        proof {
            assert(value >> 8 == value / 256) by (bit_vector);
            assert(value & 0xFF == value % 256) by (bit_vector);
        }
    }

    /// Pulls a byte from the stack.
    pub fn pull(&mut self) -> (value: u8)
        ensures
            value == old(self).top(),
            *final(self) == old(self).pulled(),
    {
        self.sp = self.sp.wrapping_add(1);
        self.read(0x0100 + self.sp as u16)
    }

    /// Pulls a word from the stack, low byte first.
    pub fn pull_16(&mut self) -> (value: u16)
        ensures
            value == old(self).top_16(),
            *final(self) == old(self).pulled().pulled(),
    {
        let lo = self.pull();
        let hi = self.pull();
        proof {
            lemma_word_bits(lo, hi);
        }
        ((hi as u16) << 8) | (lo as u16)
    }

    /// The word at `addr`, low byte first.
    pub fn read_16(&self, addr: u16) -> (value: u16)
        ensures
            value == word_at(self.bus.memory@, addr),
    {
        let lo = self.bus.read(addr);
        let hi = self.bus.read(addr.wrapping_add(1));
        proof {
            lemma_word_bits(lo, hi);
        }
        ((hi as u16) << 8) | (lo as u16)
    }

    /// The word in the zero page at `zp`, low byte first, wrapping within the page.
    pub fn read_16_zero_page(&self, zp: u8) -> (value: u16)
        ensures
            value == zero_page_word_at(self.bus.memory@, zp),
    {
        let lo = self.bus.read(zp as u16);
        let hi = self.bus.read(zp.wrapping_add(1) as u16);
        proof {
            lemma_word_bits(lo, hi);
        }
        ((hi as u16) << 8) | (lo as u16)
    }

    /// The target of an indirect jump through `pointer`, read the way the
    /// processor does: the high byte comes from the pointer's own page.
    pub fn read_16_jump(&self, pointer: u16) -> (value: u16)
        ensures
            value == jump_word_at(self.bus.memory@, pointer),
    {
        proof {
            lemma_page_bits(pointer, pointer);
        }
        if pointer & 0x00FF == 0x00FF {
            let lo = self.bus.read(pointer);
            let hi = self.bus.read(pointer & 0xFF00);
            proof {
                lemma_word_bits(lo, hi);
            }
            ((hi as u16) << 8) | (lo as u16)
        } else {
            self.read_16(pointer)
        }
    }

    /// Charges `cycles` cycles.
    pub fn tick(&mut self, cycles: u8)
        requires
            old(self).cycle_count + cycles <= u64::MAX,
        ensures
            *final(self) == old(self).ticked(cycles),
    {
        self.bus.tick(cycles);
        self.cycle_count = self.cycle_count + cycles as u64;
    }

    /// Resolves `mode` with the first operand byte at `addr`. Nothing is
    /// charged and nothing changes; the caller charges the extra cycle.
    pub fn get_absolute_addr(&self, mode: AddressingMode, addr: u16) -> (r: Option<(u16, bool)>)
        ensures
            r == self.resolved(mode, addr),
            r is None <==> (mode == AddressingMode::Implicit || mode == AddressingMode::Accumulator),
    {
        proof {
            reveal(resolve);
        }
        match mode {
            AddressingMode::Implicit | AddressingMode::Accumulator => None,
            AddressingMode::Immediate | AddressingMode::Relative => Some((addr, false)),
            AddressingMode::ZeroPage => Some((self.read(addr) as u16, false)),
            AddressingMode::ZeroPageX => Some((self.read(addr).wrapping_add(self.x) as u16, false)),
            AddressingMode::ZeroPageY => Some((self.read(addr).wrapping_add(self.y) as u16, false)),
            AddressingMode::Absolute => Some((self.read_16(addr), false)),
            AddressingMode::AbsoluteX | AddressingMode::AbsoluteXW => {
                let base = self.read_16(addr);
                let target = base.wrapping_add(self.x as u16);
                proof {
                    lemma_page_bits(base, target);
                }
                Some((target, mode.is_write() || (base & 0xFF00) != (target & 0xFF00)))
            },
            AddressingMode::AbsoluteY | AddressingMode::AbsoluteYW => {
                let base = self.read_16(addr);
                let target = base.wrapping_add(self.y as u16);
                proof {
                    lemma_page_bits(base, target);
                }
                Some((target, mode.is_write() || (base & 0xFF00) != (target & 0xFF00)))
            },
            AddressingMode::Indirect => {
                let pointer = self.read_16(addr);
                Some((self.read_16_jump(pointer), false))
            },
            AddressingMode::IndexedIndirect => {
                let zp = self.read(addr).wrapping_add(self.x);
                Some((self.read_16_zero_page(zp), false))
            },
            AddressingMode::IndirectIndexed | AddressingMode::IndirectIndexedW => {
                let base = self.read_16_zero_page(self.read(addr));
                let target = base.wrapping_add(self.y as u16);
                proof {
                    lemma_page_bits(base, target);
                }
                Some((target, mode.is_write() || (base & 0xFF00) != (target & 0xFF00)))
            },
        }
    }

    /// The address of the operand of the instruction being executed, whose
    /// first operand byte the program counter points at; `None` for the modes
    /// that have no operand in memory.
    pub fn get_operand_addr(&self, mode: AddressingMode) -> (r: Option<u16>)
        ensures
            r == self.operand_addr(mode),
            r is Some <==> mode.has_memory_operand(),
    {
        match mode {
            AddressingMode::Immediate | AddressingMode::Accumulator | AddressingMode::Implicit => None,
            _ => match self.get_absolute_addr(mode, self.pc) {
                Some((addr, _)) => Some(addr),
                None => None,
            },
        }
    }
}

} // verus!
