use vstd::prelude::*;
use crate::cpu::CPU;
use crate::cpu::addressing::{AddressingMode, page_crossed, word_at};
use crate::cpu::status::Status;

verus! {

/// Where the processor finds the address of its interrupt routine.
pub const INTERRUPT_VECTOR: u16 = 0xFFFE;

/// Where the processor finds the address at which it starts after a reset.
pub const RESET_VECTOR: u16 = 0xFFFC;

/// The flags as they are pushed by an instruction: Break and the unused bit set.
pub open spec fn pushed_flags(bits: u8) -> u8 {
    bits | 0x30
}

/// The flags as they are pulled: Break cleared, the unused bit set.
pub open spec fn pulled_flags(bits: u8) -> u8 {
    (bits & 0xEF) | 0x20
}

/// `addr` moved by `displacement` read as a signed byte, modulo 65536.
pub open spec fn displaced(addr: u16, displacement: u8) -> u16 {
    if displacement < 0x80 {
        addr.wrapping_add(displacement as u16)
    } else {
        addr.wrapping_sub((256 - displacement) as u16)
    }
}

impl CPU {
    /// JMP: the program counter takes the operand's address.
    pub open spec fn after_jmp(self, mode: AddressingMode) -> CPU {
        CPU { pc: self.target(mode), ..self }
    }

    /// JSR: the address of the instruction's last byte is pushed, and the
    /// program counter takes the operand's address.
    pub open spec fn after_jsr(self, mode: AddressingMode) -> CPU {
        CPU { pc: self.target(mode), ..self.pushed_16(self.pc.wrapping_add(1)) }
    }

    /// RTS: the program counter takes the pulled address plus one.
    pub open spec fn after_rts(self) -> CPU {
        CPU { pc: self.top_16().wrapping_add(1), ..self.pulled().pulled() }
    }

    /// RTI: the flags are pulled, then the program counter.
    pub open spec fn after_rti(self) -> CPU {
        let flags = self.pulled();
        CPU {
            status: Status { bits: pulled_flags(self.top()) },
            pc: flags.top_16(),
            ..flags.pulled().pulled()
        }
    }

    /// BRK: the address two past the opcode and the flags are pushed,
    /// interrupts are disabled, and the program counter takes the interrupt vector.
    pub open spec fn after_brk(self) -> CPU {
        let saved = self.pushed_16(self.pc.wrapping_add(1)).pushed(pushed_flags(self.status.bits));
        CPU { pc: word_at(saved.bus.memory@, INTERRUPT_VECTOR), ..saved }.with_flag(
            Status::INTERRUPT_DISABLE,
            true,
        )
    }

    /// PHA: the accumulator is pushed.
    pub open spec fn after_pha(self) -> CPU {
        self.pushed(self.acc)
    }

    /// PHP: the flags are pushed, Break and the unused bit set in the copy.
    pub open spec fn after_php(self) -> CPU {
        self.pushed(pushed_flags(self.status.bits))
    }

    /// PLA: the accumulator is pulled; Zero and Negative follow it.
    pub open spec fn after_pla(self) -> CPU {
        CPU { acc: self.top(), ..self.pulled() }.with_zn(self.top())
    }

    /// PLP: the flags are pulled.
    pub open spec fn after_plp(self) -> CPU {
        CPU { status: Status { bits: pulled_flags(self.top()) }, ..self.pulled() }
    }

    /// Where a branch goes if taken: the address after the instruction, moved
    /// by the displacement at the program counter.
    pub open spec fn branch_destination(self) -> u16 {
        displaced(self.pc.wrapping_add(1), self.byte(self.pc))
    }

    /// A branch. Not taken, it goes on with the next instruction. Taken, it
    /// costs one cycle, and one more where the destination lies in another
    /// page than the next instruction.
    pub open spec fn branched(self, taken: bool) -> CPU {
        let next = self.pc.wrapping_add(1);
        if taken {
            let destination = self.branch_destination();
            let cycles: u8 = if page_crossed(next, destination) {
                2
            } else {
                1
            };
            CPU { pc: destination, ..self.ticked(cycles) }
        } else {
            CPU { pc: next, ..self }
        }
    }

    pub fn jmp(&mut self, mode: AddressingMode)
        requires
            mode.has_memory_operand(),
        ensures
            *final(self) == old(self).after_jmp(mode),
    {
        self.pc = self.store_addr(mode);
    }

    pub fn jsr(&mut self, mode: AddressingMode)
        requires
            mode == AddressingMode::Absolute,
        ensures
            *final(self) == old(self).after_jsr(mode),
    {
        let destination = self.store_addr(mode);
        self.push_16(self.pc.wrapping_add(1));
        self.pc = destination;
    }

    pub fn rts(&mut self)
        ensures
            *final(self) == old(self).after_rts(),
    {
        let addr = self.pull_16();
        self.pc = addr.wrapping_add(1);
    }

    pub fn rti(&mut self)
        ensures
            *final(self) == old(self).after_rti(),
    {
        let flags = self.pull();
        self.status = Status::from_bits_truncate((flags & 0xEF) | 0x20);
        self.pc = self.pull_16();
    }

    pub fn brk(&mut self)
        ensures
            *final(self) == old(self).after_brk(),
    {
        self.push_16(self.pc.wrapping_add(1));
        self.push(self.status.bits() | 0x30);
        self.status.insert(Status::INTERRUPT_DISABLE);
        self.pc = self.read_16(INTERRUPT_VECTOR);
    }

    pub fn pha(&mut self)
        ensures
            *final(self) == old(self).after_pha(),
    {
        self.push(self.acc);
    }

    pub fn php(&mut self)
        ensures
            *final(self) == old(self).after_php(),
    {
        self.push(self.status.bits() | 0x30);
    }

    pub fn pla(&mut self)
        ensures
            *final(self) == old(self).after_pla(),
    {
        self.acc = self.pull();
        self.set_zn(self.acc);
    }

    pub fn plp(&mut self)
        ensures
            *final(self) == old(self).after_plp(),
    {
        let flags = self.pull();
        self.status = Status::from_bits_truncate((flags & 0xEF) | 0x20);
    }

    /// Branches where `taken` says so.
    pub fn branch(&mut self, taken: bool)
        requires
            old(self).has_room(2),
        ensures
            *final(self) == old(self).branched(taken),
    {
        let displacement = self.read(self.pc);
        let next = self.pc.wrapping_add(1);
        if taken {
            let destination = if displacement < 0x80 {
                next.wrapping_add(displacement as u16)
            } else {
                next.wrapping_sub(256 - displacement as u16)
            };
            if next / 256 != destination / 256 {
                self.tick(2);
            } else {
                self.tick(1);
            }
            self.pc = destination;
        } else {
            self.pc = next;
        }
    }
}

/// A branch pays at most two cycles; jumps, returns, the software interrupt
/// and the stack instructions pay nothing.
pub proof fn lemma_control_cost(cpu: CPU, mode: AddressingMode)
    requires
        cpu.has_room(2),
    ensures
        forall|taken: bool| cpu.costs_at_most(#[trigger] cpu.branched(taken), 2),
        cpu.costs_at_most(cpu.after_jmp(mode), 0),
        cpu.costs_at_most(cpu.after_jsr(mode), 0),
        cpu.costs_at_most(cpu.after_rts(), 0),
        cpu.costs_at_most(cpu.after_rti(), 0),
        cpu.costs_at_most(cpu.after_brk(), 0),
        cpu.costs_at_most(cpu.after_pha(), 0),
        cpu.costs_at_most(cpu.after_php(), 0),
        cpu.costs_at_most(cpu.after_pla(), 0),
        cpu.costs_at_most(cpu.after_plp(), 0),
{
    cpu.bus.ppu.lemma_advanced_by_nothing();
}

} // verus!
