use vstd::prelude::*;
use vstd::string::*;
use crate::cpu::CPU;
use crate::cpu::addressing::{AddressingMode, jump_word_at, lemma_word_bits, resolved_addr, word};
use crate::cpu::control::displaced;
use crate::cpu::op::{Op, has_opcode, lemma_lookup_found, lookup_spec};
use crate::text::{
    dec,
    hex2,
    hex4,
    hex_min2,
    pad_left,
    pad_right,
    push_dec,
    push_hex2,
    push_hex4,
    push_hex_min2,
    push_padded_left,
    push_padded_right,
};

verus! {

/// Where a branch at `pc` with the displacement byte `displacement` goes: the
/// address after the two-byte instruction, moved by the displacement read as a
/// signed number.
pub open spec fn branch_target(pc: u16, displacement: u8) -> u16 {
    displaced(pc.wrapping_add(2), displacement)
}

/// Whether a mnemonic begins with the letter J, as the jumps do.
pub open spec fn is_jump_mnemonic(name: Seq<char>) -> bool {
    name.len() > 0 && name[0] == 'J'
}

/// What one line of the trace shows: the instruction about to run, the
/// operand it resolves to, and the registers and clocks before it runs.
///
/// `lo` and `hi` are the operand bytes, as far as the instruction has them.
/// `mem_addr` and `stored_value` are the resolved address and the byte there,
/// for the modes that name a place in memory; `jump_target` is where an
/// indirect jump goes.
#[derive(Clone, Copy, Debug)]
pub struct TraceLine<'a> {
    pub pc: u16,
    pub op: Op<'a>,
    pub lo: u8,
    pub hi: u8,
    pub mem_addr: u16,
    pub stored_value: u8,
    pub jump_target: u16,
    pub acc: u8,
    pub x: u8,
    pub y: u8,
    pub status: u8,
    pub sp: u8,
    pub scanline: u16,
    pub cycle: u16,
    pub cycle_count: u64,
}

impl<'a> TraceLine<'a> {
    /// The bytes of the instruction in hexadecimal, a space between them.
    pub open spec fn hex_dump(self) -> Seq<char> {
        let length = self.op.addressing_mode.instruction_length();
        if length == 1 {
            hex2(self.op.hex)
        } else if length == 2 {
            hex2(self.op.hex) + " "@ + hex2(self.lo)
        } else {
            hex2(self.op.hex) + " "@ + hex2(self.lo) + " "@ + hex2(self.hi)
        }
    }

    /// The operand as an assembler listing writes it, followed by what it
    /// resolves to; empty where the instruction has no operand.
    pub open spec fn operand_text(self) -> Seq<char> {
        let address = word(self.lo, self.hi);
        match self.op.addressing_mode {
            AddressingMode::Implicit => Seq::empty(),
            AddressingMode::Accumulator => "A"@,
            AddressingMode::Immediate => "#$"@ + hex2(self.lo),
            AddressingMode::ZeroPage => "$"@ + hex_min2(self.mem_addr) + " = "@ + hex2(
                self.stored_value,
            ),
            AddressingMode::ZeroPageX => "$"@ + hex2(self.lo) + ",X @ "@ + hex_min2(self.mem_addr)
                + " = "@ + hex2(self.stored_value),
            AddressingMode::ZeroPageY => "$"@ + hex2(self.lo) + ",Y @ "@ + hex_min2(self.mem_addr)
                + " = "@ + hex2(self.stored_value),
            AddressingMode::IndexedIndirect => "($"@ + hex2(self.lo) + ",X) @ "@ + hex2(
                self.lo.wrapping_add(self.x),
            ) + " = "@ + hex4(self.mem_addr) + " = "@ + hex2(self.stored_value),
            AddressingMode::IndirectIndexed | AddressingMode::IndirectIndexedW => "($"@ + hex2(
                self.lo,
            ) + "),Y = "@ + hex4(self.mem_addr.wrapping_sub(self.y as u16)) + " @ "@ + hex4(
                self.mem_addr,
            ) + " = "@ + hex2(self.stored_value),
            AddressingMode::Relative => "$"@ + hex4(branch_target(self.pc, self.lo)),
            AddressingMode::Indirect => if self.op.hex == 0x6c {
                "($"@ + hex4(address) + ") = "@ + hex4(self.jump_target)
            } else {
                "$"@ + hex4(address)
            },
            AddressingMode::Absolute => if is_jump_mnemonic(self.op.name@) {
                "$"@ + hex4(address)
            } else {
                "$"@ + hex4(self.mem_addr) + " = "@ + hex2(self.stored_value)
            },
            AddressingMode::AbsoluteX | AddressingMode::AbsoluteXW => "$"@ + hex4(address)
                + ",X @ "@ + hex4(self.mem_addr) + " = "@ + hex2(self.stored_value),
            AddressingMode::AbsoluteY | AddressingMode::AbsoluteYW => "$"@ + hex4(address)
                + ",Y @ "@ + hex4(self.mem_addr) + " = "@ + hex2(self.stored_value),
        }
    }

    /// The left part of the line: address, instruction bytes in a column of
    /// eight, the mnemonic flush right in a column of four, and the operand
    /// where there is one.
    pub open spec fn assembly_text(self) -> Seq<char> {
        let head = hex4(self.pc) + "  "@ + pad_right(self.hex_dump(), 8) + " "@ + pad_left(
            self.op.name@,
            4,
        );
        if self.operand_text().len() == 0 {
            head
        } else {
            head + " "@ + self.operand_text()
        }
    }

    /// The right part of the line: registers, the picture unit's scanline and
    /// dot, each flush right in a column of three, and the cycle count.
    pub open spec fn register_text(self) -> Seq<char> {
        " A:"@ + hex2(self.acc) + " X:"@ + hex2(self.x) + " Y:"@ + hex2(self.y) + " P:"@ + hex2(
            self.status,
        ) + " SP:"@ + hex2(self.sp) + " PPU:"@ + pad_left(dec(self.scanline as nat), 3) + ","@
            + pad_left(dec(self.cycle as nat), 3) + " CYC:"@ + dec(self.cycle_count as nat)
    }

    /// The whole line: the assembly in a column of 47, then the registers.
    pub open spec fn text(self) -> Seq<char> {
        pad_right(self.assembly_text(), 47) + self.register_text()
    }

    fn hex_dump_string(&self) -> (s: String)
        requires
            self.op.consistent(),
        ensures
            s@ == self.hex_dump(),
    {
        let mut s = String::new();
        push_hex2(&mut s, self.op.hex);
        if self.op.size >= 2 {
            s.append(" ");
            push_hex2(&mut s, self.lo);
        }
        if self.op.size >= 3 {
            s.append(" ");
            push_hex2(&mut s, self.hi);
        }
        assert(s@ =~= self.hex_dump());
        s
    }

    fn branch_target(&self) -> (target: u16)
        ensures
            target == branch_target(self.pc, self.lo),
    {
        let next = self.pc.wrapping_add(2);
        if self.lo < 0x80 {
            next.wrapping_add(self.lo as u16)
        } else {
            next.wrapping_sub(256 - self.lo as u16)
        }
    }

    fn is_jump(&self) -> (b: bool)
        ensures
            b == is_jump_mnemonic(self.op.name@),
    {
        self.op.name.unicode_len() > 0 && self.op.name.get_char(0) == 'J'
    }

    fn operand_string(&self) -> (s: String)
        ensures
            s@ == self.operand_text(),
    {
        let mut s = String::new();
        proof {
            lemma_word_bits(self.lo, self.hi);
        }
        let address: u16 = ((self.hi as u16) << 8) | (self.lo as u16);
        match self.op.addressing_mode {
            AddressingMode::Implicit => {},
            AddressingMode::Accumulator => {
                s.append("A");
            },
            AddressingMode::Immediate => {
                s.append("#$");
                push_hex2(&mut s, self.lo);
            },
            AddressingMode::ZeroPage => {
                s.append("$");
                push_hex_min2(&mut s, self.mem_addr);
                s.append(" = ");
                push_hex2(&mut s, self.stored_value);
            },
            AddressingMode::ZeroPageX => {
                s.append("$");
                push_hex2(&mut s, self.lo);
                s.append(",X @ ");
                push_hex_min2(&mut s, self.mem_addr);
                s.append(" = ");
                push_hex2(&mut s, self.stored_value);
            },
            AddressingMode::ZeroPageY => {
                s.append("$");
                push_hex2(&mut s, self.lo);
                s.append(",Y @ ");
                push_hex_min2(&mut s, self.mem_addr);
                s.append(" = ");
                push_hex2(&mut s, self.stored_value);
            },
            AddressingMode::IndexedIndirect => {
                s.append("($");
                push_hex2(&mut s, self.lo);
                s.append(",X) @ ");
                push_hex2(&mut s, self.lo.wrapping_add(self.x));
                s.append(" = ");
                push_hex4(&mut s, self.mem_addr);
                s.append(" = ");
                push_hex2(&mut s, self.stored_value);
            },
            AddressingMode::IndirectIndexed | AddressingMode::IndirectIndexedW => {
                s.append("($");
                push_hex2(&mut s, self.lo);
                s.append("),Y = ");
                push_hex4(&mut s, self.mem_addr.wrapping_sub(self.y as u16));
                s.append(" @ ");
                push_hex4(&mut s, self.mem_addr);
                s.append(" = ");
                push_hex2(&mut s, self.stored_value);
            },
            AddressingMode::Relative => {
                s.append("$");
                push_hex4(&mut s, self.branch_target());
            },
            AddressingMode::Indirect => {
                if self.op.hex == 0x6c {
                    s.append("($");
                    push_hex4(&mut s, address);
                    s.append(") = ");
                    push_hex4(&mut s, self.jump_target);
                } else {
                    s.append("$");
                    push_hex4(&mut s, address);
                }
            },
            AddressingMode::Absolute => {
                if self.is_jump() {
                    s.append("$");
                    push_hex4(&mut s, address);
                } else {
                    s.append("$");
                    push_hex4(&mut s, self.mem_addr);
                    s.append(" = ");
                    push_hex2(&mut s, self.stored_value);
                }
            },
            AddressingMode::AbsoluteX | AddressingMode::AbsoluteXW => {
                s.append("$");
                push_hex4(&mut s, address);
                s.append(",X @ ");
                push_hex4(&mut s, self.mem_addr);
                s.append(" = ");
                push_hex2(&mut s, self.stored_value);
            },
            AddressingMode::AbsoluteY | AddressingMode::AbsoluteYW => {
                s.append("$");
                push_hex4(&mut s, address);
                s.append(",Y @ ");
                push_hex4(&mut s, self.mem_addr);
                s.append(" = ");
                push_hex2(&mut s, self.stored_value);
            },
        }
        assert(s@ =~= self.operand_text());
        s
    }

    fn assembly_string(&self) -> (s: String)
        requires
            self.op.consistent(),
        ensures
            s@ == self.assembly_text(),
    {
        let mut s = String::new();
        push_hex4(&mut s, self.pc);
        s.append("  ");
        let dump = self.hex_dump_string();
        push_padded_right(&mut s, dump.as_str(), 8);
        s.append(" ");
        push_padded_left(&mut s, self.op.name, 4);
        let operand = self.operand_string();
        if operand.as_str().unicode_len() > 0 {
            s.append(" ");
            s.append(operand.as_str());
        }
        assert(s@ =~= self.assembly_text());
        s
    }

    fn register_string(&self) -> (s: String)
        ensures
            s@ == self.register_text(),
    {
        let mut s = String::new();
        s.append(" A:");
        push_hex2(&mut s, self.acc);
        s.append(" X:");
        push_hex2(&mut s, self.x);
        s.append(" Y:");
        push_hex2(&mut s, self.y);
        s.append(" P:");
        push_hex2(&mut s, self.status);
        s.append(" SP:");
        push_hex2(&mut s, self.sp);
        s.append(" PPU:");
        let mut scanline = String::new();
        push_dec(&mut scanline, self.scanline as u64);
        push_padded_left(&mut s, scanline.as_str(), 3);
        s.append(",");
        let mut cycle = String::new();
        push_dec(&mut cycle, self.cycle as u64);
        push_padded_left(&mut s, cycle.as_str(), 3);
        s.append(" CYC:");
        push_dec(&mut s, self.cycle_count);
        assert(s@ =~= self.register_text());
        s
    }

    /// The line as text, in capitals throughout.
    pub fn render(&self) -> (line: String)
        requires
            self.op.well_formed(),
        ensures
            line@ == self.text(),
    {
        let mut line = String::new();
        let assembly = self.assembly_string();
        push_padded_right(&mut line, assembly.as_str(), 47);
        let registers = self.register_string();
        line.append(registers.as_str());
        assert(line@ =~= self.text());
        line
    }
}

/// Something that can describe the instruction it is about to run.
pub trait Loggable {
    /// Whether `log` can run in this state.
    spec fn can_log(&self) -> bool;

    /// The line that `log` gives, `None` while tracing is off.
    spec fn log_text(&self) -> Option<Seq<char>>;

    /// The trace line for the instruction at the program counter. It reads
    /// and formats; the state stays as it is, and nothing is charged.
    fn log(&self) -> (line: Option<String>)
        requires
            self.can_log(),
        ensures
            line is Some <==> self.log_text() is Some,
            line matches Some(text) ==> self.log_text() == Some(text@),
    ;
}

impl CPU {
    /// The trace line for the instruction at the program counter, where the
    /// byte there is an opcode of the table.
    pub open spec fn trace_line(self) -> TraceLine<'static> {
        let mem = self.bus.memory@;
        let op = lookup_spec(mem[self.pc as int])->0;
        let mode = op.addressing_mode;
        let length = mode.instruction_length();
        let lo = if length >= 2 {
            mem[self.pc.wrapping_add(1) as int]
        } else {
            0
        };
        let hi = if length >= 3 {
            mem[self.pc.wrapping_add(2) as int]
        } else {
            0
        };
        let resolves = mode.has_memory_operand() && mode != AddressingMode::Relative && mode
            != AddressingMode::Indirect;
        let mem_addr = if resolves {
            resolved_addr(mode, mem, self.x, self.y, self.pc.wrapping_add(1))
        } else {
            0
        };
        TraceLine {
            pc: self.pc,
            op,
            lo,
            hi,
            mem_addr,
            stored_value: if resolves {
                mem[mem_addr as int]
            } else {
                0
            },
            jump_target: if mode == AddressingMode::Indirect {
                jump_word_at(mem, word(lo, hi))
            } else {
                0
            },
            acc: self.acc,
            x: self.x,
            y: self.y,
            status: self.status.bits,
            sp: self.sp,
            scanline: self.bus.ppu.scanline,
            cycle: self.bus.ppu.cycle,
            cycle_count: self.cycle_count,
        }
    }

    /// Gathers what the trace line of the next instruction shows.
    pub fn trace(&self) -> (t: TraceLine<'static>)
        requires
            has_opcode(self.bus.memory[self.pc as int]),
        ensures
            t == self.trace_line(),
            t.op.well_formed(),
    {
        let code = self.read(self.pc);
        proof {
            lemma_lookup_found(code);
        }
        let op = self.ops.lookup(code).unwrap();
        let begin = self.pc;
        let mode = op.addressing_mode;
        let (mem_addr, stored_value) = match mode {
            AddressingMode::Immediate
            | AddressingMode::Implicit
            | AddressingMode::Accumulator
            | AddressingMode::Relative
            | AddressingMode::Indirect => (0, 0),
            _ => {
                let addr = self.get_absolute_addr(mode, begin.wrapping_add(1)).unwrap().0;
                (addr, self.read(addr))
            },
        };
        let lo = if op.size >= 2 {
            self.read(begin.wrapping_add(1))
        } else {
            0
        };
        let hi = if op.size >= 3 {
            self.read(begin.wrapping_add(2))
        } else {
            0
        };
        let jump_target = match mode {
            AddressingMode::Indirect => {
                proof {
                    lemma_word_bits(lo, hi);
                }
                self.read_16_jump(((hi as u16) << 8) | (lo as u16))
            },
            _ => 0,
        };
        TraceLine {
            pc: begin,
            op,
            lo,
            hi,
            mem_addr,
            stored_value,
            jump_target,
            acc: self.acc,
            x: self.x,
            y: self.y,
            status: self.status.bits(),
            sp: self.sp,
            scanline: self.bus.ppu.scanline,
            cycle: self.bus.ppu.cycle,
            cycle_count: self.cycle_count,
        }
    }
}

impl Loggable for CPU {
    /// While tracing is on, the byte at the program counter must be an opcode
    /// of the table.
    open spec fn can_log(&self) -> bool {
        self.logging_enabled ==> has_opcode(self.bus.memory[self.pc as int])
    }

    open spec fn log_text(&self) -> Option<Seq<char>> {
        if self.logging_enabled {
            Some(self.trace_line().text())
        } else {
            None
        }
    }

    fn log(&self) -> (line: Option<String>) {
        if self.logging_enabled {
            Some(self.trace().render())
        } else {
            None
        }
    }
}

} // verus!
