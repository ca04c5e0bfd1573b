use vstd::prelude::*;
use crate::cpu::CPU;
use crate::cpu::addressing::{AddressingMode, word_at};
use crate::cpu::arithmetic::lemma_arithmetic_cost;
use crate::cpu::control::{RESET_VECTOR, lemma_control_cost};
use crate::cpu::instruction::{Instruction, lemma_row_instruction};
use crate::cpu::load_store::lemma_load_store_cost;
use crate::cpu::logical::{Logical, LogicalOp, lemma_logical_cost};
use crate::cpu::op::{Op, has_opcode, lemma_lookup_found, lookup_spec, op_table};
use crate::cpu::shift::{ShiftOp, lemma_shift_cost};
use crate::cpu::status::Status;
use crate::cpu::tracer::Loggable;

verus! {

/// Why `run` came to an end.
#[derive(Clone, Copy, Debug, PartialEq, Eq, Structural)]
pub enum Stop {
    /// The cycle counter has reached the budget.
    BudgetReached,
    /// The byte at the program counter is no opcode of the table.
    UnknownOpcode,
    /// The cycle counter has no room for another instruction.
    CounterFull,
}

/// The texts of a list of lines.
pub open spec fn lines(list: Seq<String>) -> Seq<Seq<char>> {
    list.map_values(|line: String| line@)
}

/// Every opcode of the table costs between two and eight cycles.
pub proof fn lemma_table_costs()
    ensures
        forall|i: int| 0 <= i < op_table().len() ==> 2 <= (#[trigger] op_table()[i]).cycles <= 8,
{
    reveal(op_table);
}

impl CPU {
    /// An undocumented NOP: where it has an operand, the operand is read and
    /// dropped, which can cost the page-crossing cycle.
    pub open spec fn after_skip(self, mode: AddressingMode) -> CPU {
        if mode == AddressingMode::Implicit {
            self
        } else {
            self.charged(mode)
        }
    }

    /// The processor after `instruction` has done its work on an operand in
    /// `mode`, with the program counter at the first operand byte when it begins.
    pub open spec fn executed(self, instruction: Instruction, mode: AddressingMode) -> CPU {
        match instruction {
            Instruction::Adc => self.after_adc(mode),
            Instruction::And => self.combined(mode, LogicalOp::AND, true),
            Instruction::Asl => self.shifted(mode, ShiftOp::ASL),
            Instruction::Bcc => self.branched(!self.status.has(Status::CARRY)),
            Instruction::Bcs => self.branched(self.status.has(Status::CARRY)),
            Instruction::Beq => self.branched(self.status.has(Status::ZERO)),
            Instruction::Bit => self.tested(mode),
            Instruction::Bmi => self.branched(self.status.has(Status::NEGATIVE)),
            Instruction::Bne => self.branched(!self.status.has(Status::ZERO)),
            Instruction::Bpl => self.branched(!self.status.has(Status::NEGATIVE)),
            Instruction::Brk => self.after_brk(),
            Instruction::Bvc => self.branched(!self.status.has(Status::OVERFLOW)),
            Instruction::Bvs => self.branched(self.status.has(Status::OVERFLOW)),
            Instruction::Clc => self.with_flag(Status::CARRY, false),
            Instruction::Cld => self.with_flag(Status::DECIMAL, false),
            Instruction::Cli => self.with_flag(Status::INTERRUPT_DISABLE, false),
            Instruction::Clv => self.with_flag(Status::OVERFLOW, false),
            Instruction::Cmp => self.after_cmp(mode),
            Instruction::Cpx => self.after_cpx(mode),
            Instruction::Cpy => self.after_cpy(mode),
            Instruction::Dec => self.after_dec(mode),
            Instruction::Dex => self.after_dex(),
            Instruction::Dey => self.after_dey(),
            Instruction::Eor => self.combined(mode, LogicalOp::EOR, true),
            Instruction::Inc => self.after_inc(mode),
            Instruction::Inx => self.after_inx(),
            Instruction::Iny => self.after_iny(),
            Instruction::Jmp => self.after_jmp(mode),
            Instruction::Jsr => self.after_jsr(mode),
            Instruction::Lda => self.after_lda(mode),
            Instruction::Ldx => self.after_ldx(mode),
            Instruction::Ldy => self.after_ldy(mode),
            Instruction::Lsr => self.shifted(mode, ShiftOp::LSR),
            Instruction::Nop => self,
            Instruction::Ora => self.combined(mode, LogicalOp::ORA, true),
            Instruction::Pha => self.after_pha(),
            Instruction::Php => self.after_php(),
            Instruction::Pla => self.after_pla(),
            Instruction::Plp => self.after_plp(),
            Instruction::Rol => self.shifted(mode, ShiftOp::ROL),
            Instruction::Ror => self.shifted(mode, ShiftOp::ROR),
            Instruction::Rti => self.after_rti(),
            Instruction::Rts => self.after_rts(),
            Instruction::Sbc => self.after_sbc(mode),
            Instruction::Sec => self.with_flag(Status::CARRY, true),
            Instruction::Sed => self.with_flag(Status::DECIMAL, true),
            Instruction::Sei => self.with_flag(Status::INTERRUPT_DISABLE, true),
            Instruction::Sta => self.after_sta(mode),
            Instruction::Stx => self.after_stx(mode),
            Instruction::Sty => self.after_sty(mode),
            Instruction::Tax => self.after_tax(),
            Instruction::Tay => self.after_tay(),
            Instruction::Tsx => self.after_tsx(),
            Instruction::Txa => self.after_txa(),
            Instruction::Txs => self.after_txs(),
            Instruction::Tya => self.after_tya(),
            Instruction::Anc => self.after_anc(mode),
            Instruction::Arr => self.after_arr(mode),
            Instruction::Asr => self.after_asr(mode),
            Instruction::Axs => self.after_axs(mode),
            Instruction::Dcp => self.after_dcp(mode),
            Instruction::Isb => self.after_isb(mode),
            Instruction::Lax => self.after_lax(mode),
            Instruction::Lxa => self.after_lxa(mode),
            Instruction::Skip => self.after_skip(mode),
            Instruction::Rla => self.after_rla(mode),
            Instruction::Rra => self.after_rra(mode),
            Instruction::Sax => self.after_sax(mode),
            Instruction::Shx => self.after_shx(mode),
            Instruction::Shy => self.after_shy(mode),
            Instruction::Slo => self.after_slo(mode),
            Instruction::Sre => self.after_sre(mode),
        }
    }

    /// The row of the table for the byte at the program counter.
    pub open spec fn next_op(self) -> Op<'static> {
        lookup_spec(self.byte(self.pc))->0
    }

    /// Whether `step` can run: the byte at the program counter is an opcode
    /// of the table, and the cycle counter has room for the instruction and
    /// its penalties.
    pub open spec fn can_step(self) -> bool {
        &&& has_opcode(self.byte(self.pc))
        &&& self.has_room(self.next_op().cycles + 2)
    }

    /// The processor one instruction later. The opcode is fetched and the
    /// program counter moves to the operand; the handler named by the
    /// mnemonic runs; the program counter moves past the operand, unless the
    /// instruction set it; the base cost of the opcode is charged on top of
    /// what the handler charged.
    pub open spec fn stepped(self) -> CPU {
        let op = self.next_op();
        let instruction = Instruction::named(op.name@)->0;
        let done = (CPU { pc: self.pc.wrapping_add(1), ..self }).executed(
            instruction,
            op.addressing_mode,
        );
        let placed = if instruction.sets_program_counter() {
            done
        } else {
            CPU { pc: done.pc.wrapping_add((op.size - 1) as u16), ..done }
        };
        placed.ticked(op.cycles)
    }

    /// The cycles left until the counter reaches `max_cycles`.
    pub open spec fn budget_left(self, max_cycles: u64) -> nat {
        if self.cycle_count < max_cycles {
            (max_cycles - self.cycle_count) as nat
        } else {
            0
        }
    }

    /// The processor after `run`: instructions are run one after the other
    /// as long as the cycle counter is below `max_cycles` and `step` can run.
    pub open spec fn ran(self, max_cycles: u64) -> CPU
        decreases self.budget_left(max_cycles),
    {
        if self.cycle_count < max_cycles && self.can_step() {
            proof {
                self.lemma_step_cost();
            }
            self.stepped().ran(max_cycles)
        } else {
            self
        }
    }

    /// The trace lines that `run` gives: one for each instruction run, as far
    /// as tracing is on.
    pub open spec fn ran_trace(self, max_cycles: u64) -> Seq<Seq<char>>
        decreases self.budget_left(max_cycles),
    {
        if self.cycle_count < max_cycles && self.can_step() {
            proof {
                self.lemma_step_cost();
            }
            let line = if self.logging_enabled {
                seq![self.trace_line().text()]
            } else {
                Seq::empty()
            };
            line + self.stepped().ran_trace(max_cycles)
        } else {
            Seq::empty()
        }
    }

    /// Why the processor does not go on, with the cycle budget `max_cycles`.
    pub open spec fn stop(self, max_cycles: u64) -> Stop {
        if self.cycle_count >= max_cycles {
            Stop::BudgetReached
        } else if !has_opcode(self.byte(self.pc)) {
            Stop::UnknownOpcode
        } else {
            Stop::CounterFull
        }
    }

    /// A handler charges the penalties only: two cycles at most. It never
    /// takes cycles back.
    pub proof fn lemma_executed_cost(self, instruction: Instruction, mode: AddressingMode)
        requires
            self.has_room(2),
        ensures
            self.costs_at_most(self.executed(instruction, mode), 2),
    {
        match instruction {
            Instruction::Lda | Instruction::Ldx | Instruction::Ldy | Instruction::Lax
            | Instruction::Lxa | Instruction::Sta | Instruction::Stx | Instruction::Sty
            | Instruction::Sax | Instruction::Shx | Instruction::Shy | Instruction::Tax
            | Instruction::Tay | Instruction::Txa | Instruction::Tya | Instruction::Tsx
            | Instruction::Txs => {
                lemma_load_store_cost(self, mode);
            },
            Instruction::Adc | Instruction::Sbc | Instruction::Cmp | Instruction::Cpx
            | Instruction::Cpy | Instruction::Axs | Instruction::Inc | Instruction::Dec
            | Instruction::Inx | Instruction::Iny | Instruction::Dex | Instruction::Dey
            | Instruction::Dcp | Instruction::Isb => {
                lemma_arithmetic_cost(self, mode);
            },
            Instruction::Asl | Instruction::Lsr | Instruction::Rol | Instruction::Ror
            | Instruction::Slo | Instruction::Rla | Instruction::Sre | Instruction::Rra
            | Instruction::Anc | Instruction::Asr | Instruction::Arr => {
                lemma_shift_cost(self, mode);
            },
            Instruction::Bcc | Instruction::Bcs | Instruction::Beq | Instruction::Bmi
            | Instruction::Bne | Instruction::Bpl | Instruction::Bvc | Instruction::Bvs
            | Instruction::Jmp | Instruction::Jsr | Instruction::Rts | Instruction::Rti
            | Instruction::Brk | Instruction::Pha | Instruction::Php | Instruction::Pla
            | Instruction::Plp => {
                lemma_control_cost(self, mode);
            },
            Instruction::And | Instruction::Ora | Instruction::Eor | Instruction::Bit => {
                lemma_logical_cost(self, mode);
            },
            Instruction::Clc | Instruction::Cld | Instruction::Cli | Instruction::Clv
            | Instruction::Nop | Instruction::Sec | Instruction::Sed | Instruction::Sei
            | Instruction::Skip => {
                self.bus.ppu.lemma_advanced_by_nothing();
            },
        }
    }

    /// An instruction costs what the table says for its opcode, and up to
    /// two cycles more; the cycle counter never stands still or goes back.
    pub proof fn lemma_step_cost(self)
        requires
            self.can_step(),
        ensures
            2 <= self.next_op().cycles <= 8,
            self.cycle_count + self.next_op().cycles <= self.stepped().cycle_count,
            self.costs_at_most(self.stepped(), self.next_op().cycles + 2),
    {
        lemma_lookup_found(self.byte(self.pc));
        lemma_table_costs();
        let op = self.next_op();
        let entered = CPU { pc: self.pc.wrapping_add(1), ..self };
        let done = entered.executed(Instruction::named(op.name@)->0, op.addressing_mode);
        entered.lemma_executed_cost(Instruction::named(op.name@)->0, op.addressing_mode);
        self.bus.ppu.lemma_advanced(
            (done.cycle_count - self.cycle_count) as nat,
            op.cycles as nat,
        );
    }

    /// Over a whole run the clocks stay together: the picture unit has moved
    /// by exactly the cycles that were counted.
    pub proof fn lemma_ran_clocks(self, max_cycles: u64)
        ensures
            self.clocks_agree(self.ran(max_cycles)),
        decreases self.budget_left(max_cycles),
    {
        if self.cycle_count < max_cycles && self.can_step() {
            self.lemma_step_cost();
            let next = self.stepped();
            next.lemma_ran_clocks(max_cycles);
            self.bus.ppu.lemma_advanced(
                (next.cycle_count - self.cycle_count) as nat,
                (next.ran(max_cycles).cycle_count - next.cycle_count) as nat,
            );
        } else {
            self.bus.ppu.lemma_advanced_by_nothing();
        }
    }

    /// The processor after a reset: registers cleared, stack pointer `0xFD`,
    /// flags `0x24`, the program counter taken from the reset vector, and seven
    /// cycles charged. Memory and the cycles counted so far stay.
    pub open spec fn after_reset(self) -> CPU {
        CPU {
            acc: 0,
            x: 0,
            y: 0,
            sp: 0xFD,
            status: Status { bits: 0x24 },
            pc: word_at(self.bus.memory@, RESET_VECTOR),
            ..self.ticked(7)
        }
    }

    pub fn skip(&mut self, mode: AddressingMode)
        requires
            mode != AddressingMode::Accumulator,
            old(self).has_room(1),
        ensures
            *final(self) == old(self).after_skip(mode),
    {
        match mode {
            AddressingMode::Implicit => {},
            _ => {
                self.fetch(mode);
            },
        }
    }

    /// Runs the handler of `instruction` on an operand in `mode`. At most
    /// two cycles are charged: the penalties; the base cost is left to `step`.
    pub fn execute(&mut self, instruction: Instruction, mode: AddressingMode)
        requires
            instruction.accepts(mode),
            old(self).has_room(2),
        ensures
            *final(self) == old(self).executed(instruction, mode),
            old(self).cycle_count <= final(self).cycle_count <= old(self).cycle_count + 2,
    {
        match instruction {
            Instruction::Adc => {
                self.adc(mode);
            },
            Instruction::And => {
                self.and(mode);
            },
            Instruction::Asl => {
                self.asl(mode);
            },
            Instruction::Bcc => {
                let taken = !self.status.contains(Status::CARRY);
                self.branch(taken);
            },
            Instruction::Bcs => {
                let taken = self.status.contains(Status::CARRY);
                self.branch(taken);
            },
            Instruction::Beq => {
                let taken = self.status.contains(Status::ZERO);
                self.branch(taken);
            },
            Instruction::Bit => {
                self.bit(mode);
            },
            Instruction::Bmi => {
                let taken = self.status.contains(Status::NEGATIVE);
                self.branch(taken);
            },
            Instruction::Bne => {
                let taken = !self.status.contains(Status::ZERO);
                self.branch(taken);
            },
            Instruction::Bpl => {
                let taken = !self.status.contains(Status::NEGATIVE);
                self.branch(taken);
            },
            Instruction::Brk => {
                self.brk();
            },
            Instruction::Bvc => {
                let taken = !self.status.contains(Status::OVERFLOW);
                self.branch(taken);
            },
            Instruction::Bvs => {
                let taken = self.status.contains(Status::OVERFLOW);
                self.branch(taken);
            },
            Instruction::Clc => {
                self.set_flag(Status::CARRY, false);
            },
            Instruction::Cld => {
                self.set_flag(Status::DECIMAL, false);
            },
            Instruction::Cli => {
                self.set_flag(Status::INTERRUPT_DISABLE, false);
            },
            Instruction::Clv => {
                self.set_flag(Status::OVERFLOW, false);
            },
            Instruction::Cmp => {
                self.cmp(mode);
            },
            Instruction::Cpx => {
                self.cpx(mode);
            },
            Instruction::Cpy => {
                self.cpy(mode);
            },
            Instruction::Dec => {
                self.dec(mode);
            },
            Instruction::Dex => {
                self.dex();
            },
            Instruction::Dey => {
                self.dey();
            },
            Instruction::Eor => {
                self.eor(mode);
            },
            Instruction::Inc => {
                self.inc(mode);
            },
            Instruction::Inx => {
                self.inx();
            },
            Instruction::Iny => {
                self.iny();
            },
            Instruction::Jmp => {
                self.jmp(mode);
            },
            Instruction::Jsr => {
                self.jsr(mode);
            },
            Instruction::Lda => {
                self.lda(mode);
            },
            Instruction::Ldx => {
                self.ldx(mode);
            },
            Instruction::Ldy => {
                self.ldy(mode);
            },
            Instruction::Lsr => {
                self.lsr(mode);
            },
            Instruction::Nop => {
            },
            Instruction::Ora => {
                self.ora(mode);
            },
            Instruction::Pha => {
                self.pha();
            },
            Instruction::Php => {
                self.php();
            },
            Instruction::Pla => {
                self.pla();
            },
            Instruction::Plp => {
                self.plp();
            },
            Instruction::Rol => {
                self.rol(mode);
            },
            Instruction::Ror => {
                self.ror(mode);
            },
            Instruction::Rti => {
                self.rti();
            },
            Instruction::Rts => {
                self.rts();
            },
            Instruction::Sbc => {
                self.sbc(mode);
            },
            Instruction::Sec => {
                self.set_flag(Status::CARRY, true);
            },
            Instruction::Sed => {
                self.set_flag(Status::DECIMAL, true);
            },
            Instruction::Sei => {
                self.set_flag(Status::INTERRUPT_DISABLE, true);
            },
            Instruction::Sta => {
                self.sta(mode);
            },
            Instruction::Stx => {
                self.stx(mode);
            },
            Instruction::Sty => {
                self.sty(mode);
            },
            Instruction::Tax => {
                self.tax();
            },
            Instruction::Tay => {
                self.tay();
            },
            Instruction::Tsx => {
                self.tsx();
            },
            Instruction::Txa => {
                self.txa();
            },
            Instruction::Txs => {
                self.txs();
            },
            Instruction::Tya => {
                self.tya();
            },
            Instruction::Anc => {
                self.anc(mode);
            },
            Instruction::Arr => {
                self.arr(mode);
            },
            Instruction::Asr => {
                self.asr(mode);
            },
            Instruction::Axs => {
                self.axs(mode);
            },
            Instruction::Dcp => {
                self.dcp(mode);
            },
            Instruction::Isb => {
                self.isb(mode);
            },
            Instruction::Lax => {
                self.lax(mode);
            },
            Instruction::Lxa => {
                self.lxa(mode);
            },
            Instruction::Skip => {
                self.skip(mode);
            },
            Instruction::Rla => {
                self.rla(mode);
            },
            Instruction::Rra => {
                self.rra(mode);
            },
            Instruction::Sax => {
                self.sax(mode);
            },
            Instruction::Shx => {
                self.shx(mode);
            },
            Instruction::Shy => {
                self.shy(mode);
            },
            Instruction::Slo => {
                self.slo(mode);
            },
            Instruction::Sre => {
                self.sre(mode);
            },
        }
    }

    /// Whether `step` can run now.
    pub fn ready(&self) -> (b: bool)
        ensures
            b == self.can_step(),
    {
        match self.ops.lookup(self.read(self.pc)) {
            Some(op) => self.cycle_count <= u64::MAX - 2 - op.cycles as u64,
            None => false,
        }
    }

    /// Runs one instruction. Gives the trace line for it, made before
    /// anything changed, while tracing is on.
    pub fn step(&mut self) -> (line: Option<String>)
        requires
            old(self).can_step(),
        ensures
            *final(self) == old(self).stepped(),
            final(self).cycle_count >= old(self).cycle_count + old(self).next_op().cycles,
            line is Some <==> old(self).logging_enabled,
            line matches Some(text) ==> old(self).log_text() == Some(text@),
    {
        let line = self.log();
        let code = self.read(self.pc);
        proof {
            lemma_lookup_found(code);
        }
        let op = self.ops.lookup(code).unwrap();
        proof {
            lemma_row_instruction(op);
        }
        let instruction = Instruction::decode(code).unwrap();
        self.pc = self.pc.wrapping_add(1);
        self.execute(instruction, op.addressing_mode);
        if !instruction.jumps() {
            self.pc = self.pc.wrapping_add(op.size - 1);
        }
        self.tick(op.cycles);
        line
    }

    /// Runs instructions until the cycle counter has reached `max_cycles` or
    /// the processor cannot go on, and tells which it was. The trace lines
    /// of the instructions run are added to `trace`, in order.
    pub fn run(&mut self, max_cycles: u64, trace: &mut Vec<String>) -> (stop: Stop)
        ensures
            *final(self) == old(self).ran(max_cycles),
            stop == final(self).stop(max_cycles),
            lines(final(trace)@) == lines(old(trace)@) + old(self).ran_trace(max_cycles),
    {
        assert(lines(trace@) + self.ran_trace(max_cycles) =~= lines(old(trace)@) + old(
            self,
        ).ran_trace(max_cycles));
        while self.cycle_count < max_cycles && self.ready()
            invariant
                self.ran(max_cycles) == old(self).ran(max_cycles),
                lines(trace@) + self.ran_trace(max_cycles) == lines(old(trace)@) + old(
                    self,
                ).ran_trace(max_cycles),
            decreases self.budget_left(max_cycles),
        {
            let ghost before = *self;
            let ghost written = trace@;
            proof {
                before.lemma_step_cost();
            }
            match self.step() {
                Some(line) => {
                    trace.push(line);
                    assert(lines(trace@) =~= lines(written).push(line@));
                },
                None => {},
            }
            assert(lines(trace@) + self.ran_trace(max_cycles) =~= lines(written)
                + before.ran_trace(max_cycles));
        }
        if self.cycle_count >= max_cycles {
            Stop::BudgetReached
        } else if self.ops.lookup(self.read(self.pc)).is_none() {
            Stop::UnknownOpcode
        } else {
            Stop::CounterFull
        }
    }

    /// Resets the processor.
    pub fn reset(&mut self)
        requires
            old(self).has_room(7),
        ensures
            *final(self) == old(self).after_reset(),
    {
        self.acc = 0;
        self.x = 0;
        self.y = 0;
        self.sp = 0xFD;
        self.status = Status::new();
        self.pc = self.read_16(RESET_VECTOR);
        self.tick(7);
    }
}

} // verus!
