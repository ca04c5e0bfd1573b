use vstd::prelude::*;
use crate::cpu::addressing::AddressingMode;
use crate::cpu::op::{
    Op,
    has_opcode,
    lemma_absent_opcodes,
    lemma_lookup_found,
    lookup_spec,
    op_table,
};

verus! {

/// What an opcode does, apart from where its operand lies. The documented
/// instructions come first; from `Anc` on follow the undocumented ones. `Skip`
/// is the undocumented NOP, which may have an operand.
#[derive(Clone, Copy, Debug, PartialEq, Eq, Structural)]
pub enum Instruction {
    Adc,
    And,
    Asl,
    Bcc,
    Bcs,
    Beq,
    Bit,
    Bmi,
    Bne,
    Bpl,
    Brk,
    Bvc,
    Bvs,
    Clc,
    Cld,
    Cli,
    Clv,
    Cmp,
    Cpx,
    Cpy,
    Dec,
    Dex,
    Dey,
    Eor,
    Inc,
    Inx,
    Iny,
    Jmp,
    Jsr,
    Lda,
    Ldx,
    Ldy,
    Lsr,
    Nop,
    Ora,
    Pha,
    Php,
    Pla,
    Plp,
    Rol,
    Ror,
    Rti,
    Rts,
    Sbc,
    Sec,
    Sed,
    Sei,
    Sta,
    Stx,
    Sty,
    Tax,
    Tay,
    Tsx,
    Txa,
    Txs,
    Tya,
    Anc,
    Arr,
    Asr,
    Axs,
    Dcp,
    Isb,
    Lax,
    Lxa,
    Skip,
    Rla,
    Rra,
    Sax,
    Shx,
    Shy,
    Slo,
    Sre,
}

/// A number that tells the mnemonics of the table apart: it is made of the
/// length and the first four characters, and is 0 for a word of less than
/// three characters.
spec fn mnemonic_key(name: Seq<char>) -> int {
    let fourth: int = if name.len() > 3 {
        name[3] as int
    } else {
        0
    };
    if name.len() < 3 {
        0
    } else {
        name.len() + 8 * (name[0] as int + 256 * (name[1] as int + 256 * (name[2] as int + 256
            * fourth)))
    }
}

/// The keys of the mnemonics: no two are the same, so no two mnemonics are.
proof fn lemma_mnemonic_keys()
    ensures
        mnemonic_key("ADC"@) == 35267083,
        mnemonic_key("AND"@) == 35811851,
        mnemonic_key("ASL"@) == 40016395,
        mnemonic_key("BCC"@) == 35265043,
        mnemonic_key("BCS"@) == 43653651,
        mnemonic_key("BEQ"@) == 42609171,
        mnemonic_key("BIT"@) == 44190227,
        mnemonic_key("BMI"@) == 38431251,
        mnemonic_key("BNE"@) == 36336147,
        mnemonic_key("BPL"@) == 40010259,
        mnemonic_key("BRK"@) == 39490067,
        mnemonic_key("BVC"@) == 35303955,
        mnemonic_key("BVS"@) == 43692563,
        mnemonic_key("CLC"@) == 35283483,
        mnemonic_key("CLD"@) == 35807771,
        mnemonic_key("CLI"@) == 38429211,
        mnemonic_key("CLV"@) == 45244955,
        mnemonic_key("CMP"@) == 42101275,
        mnemonic_key("CPX"@) == 46301723,
        mnemonic_key("CPY"@) == 46826011,
        mnemonic_key("DEC"@) == 35269155,
        mnemonic_key("DEX"@) == 46279203,
        mnemonic_key("DEY"@) == 46803491,
        mnemonic_key("EOR"@) == 43153963,
        mnemonic_key("INC"@) == 35287627,
        mnemonic_key("INX"@) == 46297675,
        mnemonic_key("INY"@) == 46821963,
        mnemonic_key("JMP"@) == 42101331,
        mnemonic_key("JSR"@) == 43162195,
        mnemonic_key("LDA"@) == 34218595,
        mnemonic_key("LDX"@) == 46277219,
        mnemonic_key("LDY"@) == 46801507,
        mnemonic_key("LSR"@) == 43162211,
        mnemonic_key("NOP"@) == 42105459,
        mnemonic_key("ORA"@) == 34247291,
        mnemonic_key("PHA"@) == 34226819,
        mnemonic_key("PHP"@) == 42091139,
        mnemonic_key("PLA"@) == 34235011,
        mnemonic_key("PLP"@) == 42099331,
        mnemonic_key("ROL"@) == 40008339,
        mnemonic_key("ROR"@) == 43154067,
        mnemonic_key("RTI"@) == 38445715,
        mnemonic_key("RTS"@) == 43688595,
        mnemonic_key("SBC"@) == 35263131,
        mnemonic_key("SEC"@) == 35269275,
        mnemonic_key("SED"@) == 35793563,
        mnemonic_key("SEI"@) == 38415003,
        mnemonic_key("STA"@) == 34251419,
        mnemonic_key("STX"@) == 46310043,
        mnemonic_key("STY"@) == 46834331,
        mnemonic_key("TAX"@) == 46271139,
        mnemonic_key("TAY"@) == 46795427,
        mnemonic_key("TSX"@) == 46308003,
        mnemonic_key("TXA"@) == 34259619,
        mnemonic_key("TXS"@) == 43696803,
        mnemonic_key("TYA"@) == 34261667,
        mnemonic_key("*ANC"@) == 9033615700,
        mnemonic_key("*ARR"@) == 11048978772,
        mnemonic_key("*ASR"@) == 11049503060,
        mnemonic_key("*AXS"@) == 11186342228,
        mnemonic_key("*DCP"@) == 10772685140,
        mnemonic_key("*ISB"@) == 8902035796,
        mnemonic_key("*LAX"@) == 11845394772,
        mnemonic_key("*LXA"@) == 8770445652,
        mnemonic_key("*NOP"@) == 10778997076,
        mnemonic_key("*RLA"@) == 8764166484,
        mnemonic_key("*RRA"@) == 8767312212,
        mnemonic_key("*SAX"@) == 11845409108,
        mnemonic_key("*SBC"@) == 9027361108,
        mnemonic_key("*SHX"@) == 11849079124,
        mnemonic_key("*SHY"@) == 11983296852,
        mnemonic_key("*SLO"@) == 10643216724,
        mnemonic_key("*SRE"@) == 9304185172,
{
    reveal_strlit("ADC");
    reveal_strlit("AND");
    reveal_strlit("ASL");
    reveal_strlit("BCC");
    reveal_strlit("BCS");
    reveal_strlit("BEQ");
    reveal_strlit("BIT");
    reveal_strlit("BMI");
    reveal_strlit("BNE");
    reveal_strlit("BPL");
    reveal_strlit("BRK");
    reveal_strlit("BVC");
    reveal_strlit("BVS");
    reveal_strlit("CLC");
    reveal_strlit("CLD");
    reveal_strlit("CLI");
    reveal_strlit("CLV");
    reveal_strlit("CMP");
    reveal_strlit("CPX");
    reveal_strlit("CPY");
    reveal_strlit("DEC");
    reveal_strlit("DEX");
    reveal_strlit("DEY");
    reveal_strlit("EOR");
    reveal_strlit("INC");
    reveal_strlit("INX");
    reveal_strlit("INY");
    reveal_strlit("JMP");
    reveal_strlit("JSR");
    reveal_strlit("LDA");
    reveal_strlit("LDX");
    reveal_strlit("LDY");
    reveal_strlit("LSR");
    reveal_strlit("NOP");
    reveal_strlit("ORA");
    reveal_strlit("PHA");
    reveal_strlit("PHP");
    reveal_strlit("PLA");
    reveal_strlit("PLP");
    reveal_strlit("ROL");
    reveal_strlit("ROR");
    reveal_strlit("RTI");
    reveal_strlit("RTS");
    reveal_strlit("SBC");
    reveal_strlit("SEC");
    reveal_strlit("SED");
    reveal_strlit("SEI");
    reveal_strlit("STA");
    reveal_strlit("STX");
    reveal_strlit("STY");
    reveal_strlit("TAX");
    reveal_strlit("TAY");
    reveal_strlit("TSX");
    reveal_strlit("TXA");
    reveal_strlit("TXS");
    reveal_strlit("TYA");
    reveal_strlit("*ANC");
    reveal_strlit("*ARR");
    reveal_strlit("*ASR");
    reveal_strlit("*AXS");
    reveal_strlit("*DCP");
    reveal_strlit("*ISB");
    reveal_strlit("*LAX");
    reveal_strlit("*LXA");
    reveal_strlit("*NOP");
    reveal_strlit("*RLA");
    reveal_strlit("*RRA");
    reveal_strlit("*SAX");
    reveal_strlit("*SBC");
    reveal_strlit("*SHX");
    reveal_strlit("*SHY");
    reveal_strlit("*SLO");
    reveal_strlit("*SRE");
}

/// The mnemonic of the opcode byte `code`; the empty word where the table has none.
spec fn mnemonic_of(code: u8) -> Seq<char> {
    match code {
        0x61 | 0x65 | 0x69 | 0x6d | 0x71 | 0x75 | 0x79 | 0x7d => "ADC"@,
        0x21 | 0x25 | 0x29 | 0x2d | 0x31 | 0x35 | 0x39 | 0x3d => "AND"@,
        0x06 | 0x0a | 0x0e | 0x16 | 0x1e => "ASL"@,
        0x90 => "BCC"@,
        0xb0 => "BCS"@,
        0xf0 => "BEQ"@,
        0x24 | 0x2c => "BIT"@,
        0x30 => "BMI"@,
        0xd0 => "BNE"@,
        0x10 => "BPL"@,
        0x00 => "BRK"@,
        0x50 => "BVC"@,
        0x70 => "BVS"@,
        0x18 => "CLC"@,
        0xd8 => "CLD"@,
        0x58 => "CLI"@,
        0xb8 => "CLV"@,
        0xc1 | 0xc5 | 0xc9 | 0xcd | 0xd1 | 0xd5 | 0xd9 | 0xdd => "CMP"@,
        0xe0 | 0xe4 | 0xec => "CPX"@,
        0xc0 | 0xc4 | 0xcc => "CPY"@,
        0xc6 | 0xce | 0xd6 | 0xde => "DEC"@,
        0xca => "DEX"@,
        0x88 => "DEY"@,
        0x41 | 0x45 | 0x49 | 0x4d | 0x51 | 0x55 | 0x59 | 0x5d => "EOR"@,
        0xe6 | 0xee | 0xf6 | 0xfe => "INC"@,
        0xe8 => "INX"@,
        0xc8 => "INY"@,
        0x4c | 0x6c => "JMP"@,
        0x20 => "JSR"@,
        0xa1 | 0xa5 | 0xa9 | 0xad | 0xb1 | 0xb5 | 0xb9 | 0xbd => "LDA"@,
        0xa2 | 0xa6 | 0xae | 0xb6 | 0xbe => "LDX"@,
        0xa0 | 0xa4 | 0xac | 0xb4 | 0xbc => "LDY"@,
        0x46 | 0x4a | 0x4e | 0x56 | 0x5e => "LSR"@,
        0xea => "NOP"@,
        0x01 | 0x05 | 0x09 | 0x0d | 0x11 | 0x15 | 0x19 | 0x1d => "ORA"@,
        0x48 => "PHA"@,
        0x08 => "PHP"@,
        0x68 => "PLA"@,
        0x28 => "PLP"@,
        0x26 | 0x2a | 0x2e | 0x36 | 0x3e => "ROL"@,
        0x66 | 0x6a | 0x6e | 0x76 | 0x7e => "ROR"@,
        0x40 => "RTI"@,
        0x60 => "RTS"@,
        0xe1 | 0xe5 | 0xe9 | 0xed | 0xf1 | 0xf5 | 0xf9 | 0xfd => "SBC"@,
        0x38 => "SEC"@,
        0xf8 => "SED"@,
        0x78 => "SEI"@,
        0x81 | 0x85 | 0x8d | 0x91 | 0x95 | 0x99 | 0x9d => "STA"@,
        0x86 | 0x8e | 0x96 => "STX"@,
        0x84 | 0x8c | 0x94 => "STY"@,
        0xaa => "TAX"@,
        0xa8 => "TAY"@,
        0xba => "TSX"@,
        0x8a => "TXA"@,
        0x9a => "TXS"@,
        0x98 => "TYA"@,
        0x0b | 0x2b => "*ANC"@,
        0x6b => "*ARR"@,
        0x4b => "*ASR"@,
        0xcb => "*AXS"@,
        0xc3 | 0xc7 | 0xcf | 0xd3 | 0xd7 | 0xdb | 0xdf => "*DCP"@,
        0xe3 | 0xe7 | 0xef | 0xf3 | 0xf7 | 0xfb | 0xff => "*ISB"@,
        0xa3 | 0xa7 | 0xaf | 0xb3 | 0xb7 | 0xbf => "*LAX"@,
        0xab => "*LXA"@,
        0x04 | 0x0c | 0x14 | 0x1a | 0x1c | 0x34 | 0x3a | 0x3c | 0x44 | 0x54 | 0x5a | 0x5c
        | 0x64 | 0x74 | 0x7a | 0x7c | 0x80 | 0x82 | 0x89 | 0xc2 | 0xd4 | 0xda | 0xdc | 0xe2
        | 0xf4 | 0xfa | 0xfc => "*NOP"@,
        0x23 | 0x27 | 0x2f | 0x33 | 0x37 | 0x3b | 0x3f => "*RLA"@,
        0x63 | 0x67 | 0x6f | 0x73 | 0x77 | 0x7b | 0x7f => "*RRA"@,
        0x83 | 0x87 | 0x8f | 0x97 => "*SAX"@,
        0xeb => "*SBC"@,
        0x9e => "*SHX"@,
        0x9c => "*SHY"@,
        0x03 | 0x07 | 0x0f | 0x13 | 0x17 | 0x1b | 0x1f => "*SLO"@,
        0x43 | 0x47 | 0x4f | 0x53 | 0x57 | 0x5b | 0x5f => "*SRE"@,
        _ => Seq::empty(),
    }
}

/// Each row of the table has the mnemonic that `decode` assumes for its byte.
proof fn lemma_table_mnemonic_of()
    ensures
        forall|i: int|
            0 <= i < op_table().len() ==> (#[trigger] op_table()[i]).name@ == mnemonic_of(
                op_table()[i].hex,
            ),
{
    reveal(op_table);
}

impl Instruction {
    /// The instruction that the mnemonic `name` stands for. A leading `*`
    /// marks an undocumented opcode; `*SBC` is the documented SBC again.
    pub open spec fn named(name: Seq<char>) -> Option<Instruction> {
        if name == "ADC"@ {
            Some(Instruction::Adc)
        } else if name == "AND"@ {
            Some(Instruction::And)
        } else if name == "ASL"@ {
            Some(Instruction::Asl)
        } else if name == "BCC"@ {
            Some(Instruction::Bcc)
        } else if name == "BCS"@ {
            Some(Instruction::Bcs)
        } else if name == "BEQ"@ {
            Some(Instruction::Beq)
        } else if name == "BIT"@ {
            Some(Instruction::Bit)
        } else if name == "BMI"@ {
            Some(Instruction::Bmi)
        } else if name == "BNE"@ {
            Some(Instruction::Bne)
        } else if name == "BPL"@ {
            Some(Instruction::Bpl)
        } else if name == "BRK"@ {
            Some(Instruction::Brk)
        } else if name == "BVC"@ {
            Some(Instruction::Bvc)
        } else if name == "BVS"@ {
            Some(Instruction::Bvs)
        } else if name == "CLC"@ {
            Some(Instruction::Clc)
        } else if name == "CLD"@ {
            Some(Instruction::Cld)
        } else if name == "CLI"@ {
            Some(Instruction::Cli)
        } else if name == "CLV"@ {
            Some(Instruction::Clv)
        } else if name == "CMP"@ {
            Some(Instruction::Cmp)
        } else if name == "CPX"@ {
            Some(Instruction::Cpx)
        } else if name == "CPY"@ {
            Some(Instruction::Cpy)
        } else if name == "DEC"@ {
            Some(Instruction::Dec)
        } else if name == "DEX"@ {
            Some(Instruction::Dex)
        } else if name == "DEY"@ {
            Some(Instruction::Dey)
        } else if name == "EOR"@ {
            Some(Instruction::Eor)
        } else if name == "INC"@ {
            Some(Instruction::Inc)
        } else if name == "INX"@ {
            Some(Instruction::Inx)
        } else if name == "INY"@ {
            Some(Instruction::Iny)
        } else if name == "JMP"@ {
            Some(Instruction::Jmp)
        } else if name == "JSR"@ {
            Some(Instruction::Jsr)
        } else if name == "LDA"@ {
            Some(Instruction::Lda)
        } else if name == "LDX"@ {
            Some(Instruction::Ldx)
        } else if name == "LDY"@ {
            Some(Instruction::Ldy)
        } else if name == "LSR"@ {
            Some(Instruction::Lsr)
        } else if name == "NOP"@ {
            Some(Instruction::Nop)
        } else if name == "ORA"@ {
            Some(Instruction::Ora)
        } else if name == "PHA"@ {
            Some(Instruction::Pha)
        } else if name == "PHP"@ {
            Some(Instruction::Php)
        } else if name == "PLA"@ {
            Some(Instruction::Pla)
        } else if name == "PLP"@ {
            Some(Instruction::Plp)
        } else if name == "ROL"@ {
            Some(Instruction::Rol)
        } else if name == "ROR"@ {
            Some(Instruction::Ror)
        } else if name == "RTI"@ {
            Some(Instruction::Rti)
        } else if name == "RTS"@ {
            Some(Instruction::Rts)
        } else if name == "SBC"@ {
            Some(Instruction::Sbc)
        } else if name == "SEC"@ {
            Some(Instruction::Sec)
        } else if name == "SED"@ {
            Some(Instruction::Sed)
        } else if name == "SEI"@ {
            Some(Instruction::Sei)
        } else if name == "STA"@ {
            Some(Instruction::Sta)
        } else if name == "STX"@ {
            Some(Instruction::Stx)
        } else if name == "STY"@ {
            Some(Instruction::Sty)
        } else if name == "TAX"@ {
            Some(Instruction::Tax)
        } else if name == "TAY"@ {
            Some(Instruction::Tay)
        } else if name == "TSX"@ {
            Some(Instruction::Tsx)
        } else if name == "TXA"@ {
            Some(Instruction::Txa)
        } else if name == "TXS"@ {
            Some(Instruction::Txs)
        } else if name == "TYA"@ {
            Some(Instruction::Tya)
        } else if name == "*ANC"@ {
            Some(Instruction::Anc)
        } else if name == "*ARR"@ {
            Some(Instruction::Arr)
        } else if name == "*ASR"@ {
            Some(Instruction::Asr)
        } else if name == "*AXS"@ {
            Some(Instruction::Axs)
        } else if name == "*DCP"@ {
            Some(Instruction::Dcp)
        } else if name == "*ISB"@ {
            Some(Instruction::Isb)
        } else if name == "*LAX"@ {
            Some(Instruction::Lax)
        } else if name == "*LXA"@ {
            Some(Instruction::Lxa)
        } else if name == "*NOP"@ {
            Some(Instruction::Skip)
        } else if name == "*RLA"@ {
            Some(Instruction::Rla)
        } else if name == "*RRA"@ {
            Some(Instruction::Rra)
        } else if name == "*SAX"@ {
            Some(Instruction::Sax)
        } else if name == "*SBC"@ {
            Some(Instruction::Sbc)
        } else if name == "*SHX"@ {
            Some(Instruction::Shx)
        } else if name == "*SHY"@ {
            Some(Instruction::Shy)
        } else if name == "*SLO"@ {
            Some(Instruction::Slo)
        } else if name == "*SRE"@ {
            Some(Instruction::Sre)
        } else {
            None
        }
    }

    /// Whether the instruction can take its operand in `mode`: one that
    /// reads needs an operand, one that writes needs a place in memory, a
    /// shift works on the accumulator or in memory, and JSR takes an address.
    pub open spec fn accepts(self, mode: AddressingMode) -> bool {
        match self {
            Instruction::Adc | Instruction::And | Instruction::Cmp | Instruction::Cpx
            | Instruction::Cpy | Instruction::Eor | Instruction::Lda | Instruction::Ldx
            | Instruction::Ldy | Instruction::Ora | Instruction::Sbc | Instruction::Anc
            | Instruction::Arr | Instruction::Asr | Instruction::Axs | Instruction::Lax
            | Instruction::Lxa => mode != AddressingMode::Implicit
                && mode != AddressingMode::Accumulator,
            Instruction::Bit | Instruction::Dec | Instruction::Inc | Instruction::Jmp
            | Instruction::Sta | Instruction::Stx | Instruction::Sty | Instruction::Dcp
            | Instruction::Isb | Instruction::Rla | Instruction::Rra | Instruction::Sax
            | Instruction::Shx | Instruction::Shy | Instruction::Slo | Instruction::Sre => mode.has_memory_operand(),
            Instruction::Asl | Instruction::Lsr | Instruction::Rol | Instruction::Ror => mode == AddressingMode::Accumulator
                || mode.has_memory_operand(),
            Instruction::Jsr => mode == AddressingMode::Absolute,
            Instruction::Skip => mode != AddressingMode::Accumulator,
            _ => true,
        }
    }

    /// Whether the instruction says itself where the program goes on: the
    /// jumps, the returns, the software interrupt and the branches.
    pub open spec fn sets_program_counter(self) -> bool {
        match self {
            Instruction::Bcc | Instruction::Bcs | Instruction::Beq | Instruction::Bmi
            | Instruction::Bne | Instruction::Bpl | Instruction::Brk | Instruction::Bvc
            | Instruction::Bvs | Instruction::Jmp | Instruction::Jsr | Instruction::Rti
            | Instruction::Rts => true,
            _ => false,
        }
    }

    /// Whether the instruction sets the program counter itself.
    pub fn jumps(self) -> (b: bool)
        ensures
            b == self.sets_program_counter(),
    {
        match self {
            Instruction::Bcc | Instruction::Bcs | Instruction::Beq | Instruction::Bmi
            | Instruction::Bne | Instruction::Bpl | Instruction::Brk | Instruction::Bvc
            | Instruction::Bvs | Instruction::Jmp | Instruction::Jsr | Instruction::Rti
            | Instruction::Rts => true,
            _ => false,
        }
    }

    /// The instruction of the opcode byte `code`, `None` where the table has
    /// no such byte.
    pub fn decode(code: u8) -> (r: Option<Instruction>)
        ensures
            r is Some <==> has_opcode(code),
            has_opcode(code) ==> r == Instruction::named(lookup_spec(code)->0.name@),
    {
        proof {
            lemma_decoded(code);
            lemma_named();
            assert(decoded(code) == Instruction::named(mnemonic_of(code)));
        }
        match code {
            0x61 | 0x65 | 0x69 | 0x6d | 0x71 | 0x75 | 0x79 | 0x7d => Some(Instruction::Adc),
            0x21 | 0x25 | 0x29 | 0x2d | 0x31 | 0x35 | 0x39 | 0x3d => Some(Instruction::And),
            0x06 | 0x0a | 0x0e | 0x16 | 0x1e => Some(Instruction::Asl),
            0x90 => Some(Instruction::Bcc),
            0xb0 => Some(Instruction::Bcs),
            0xf0 => Some(Instruction::Beq),
            0x24 | 0x2c => Some(Instruction::Bit),
            0x30 => Some(Instruction::Bmi),
            0xd0 => Some(Instruction::Bne),
            0x10 => Some(Instruction::Bpl),
            0x00 => Some(Instruction::Brk),
            0x50 => Some(Instruction::Bvc),
            0x70 => Some(Instruction::Bvs),
            0x18 => Some(Instruction::Clc),
            0xd8 => Some(Instruction::Cld),
            0x58 => Some(Instruction::Cli),
            0xb8 => Some(Instruction::Clv),
            0xc1 | 0xc5 | 0xc9 | 0xcd | 0xd1 | 0xd5 | 0xd9 | 0xdd => Some(Instruction::Cmp),
            0xe0 | 0xe4 | 0xec => Some(Instruction::Cpx),
            0xc0 | 0xc4 | 0xcc => Some(Instruction::Cpy),
            0xc6 | 0xce | 0xd6 | 0xde => Some(Instruction::Dec),
            0xca => Some(Instruction::Dex),
            0x88 => Some(Instruction::Dey),
            0x41 | 0x45 | 0x49 | 0x4d | 0x51 | 0x55 | 0x59 | 0x5d => Some(Instruction::Eor),
            0xe6 | 0xee | 0xf6 | 0xfe => Some(Instruction::Inc),
            0xe8 => Some(Instruction::Inx),
            0xc8 => Some(Instruction::Iny),
            0x4c | 0x6c => Some(Instruction::Jmp),
            0x20 => Some(Instruction::Jsr),
            0xa1 | 0xa5 | 0xa9 | 0xad | 0xb1 | 0xb5 | 0xb9 | 0xbd => Some(Instruction::Lda),
            0xa2 | 0xa6 | 0xae | 0xb6 | 0xbe => Some(Instruction::Ldx),
            0xa0 | 0xa4 | 0xac | 0xb4 | 0xbc => Some(Instruction::Ldy),
            0x46 | 0x4a | 0x4e | 0x56 | 0x5e => Some(Instruction::Lsr),
            0xea => Some(Instruction::Nop),
            0x01 | 0x05 | 0x09 | 0x0d | 0x11 | 0x15 | 0x19 | 0x1d => Some(Instruction::Ora),
            0x48 => Some(Instruction::Pha),
            0x08 => Some(Instruction::Php),
            0x68 => Some(Instruction::Pla),
            0x28 => Some(Instruction::Plp),
            0x26 | 0x2a | 0x2e | 0x36 | 0x3e => Some(Instruction::Rol),
            0x66 | 0x6a | 0x6e | 0x76 | 0x7e => Some(Instruction::Ror),
            0x40 => Some(Instruction::Rti),
            0x60 => Some(Instruction::Rts),
            0xe1 | 0xe5 | 0xe9 | 0xeb | 0xed | 0xf1 | 0xf5 | 0xf9 | 0xfd => Some(Instruction::Sbc),
            0x38 => Some(Instruction::Sec),
            0xf8 => Some(Instruction::Sed),
            0x78 => Some(Instruction::Sei),
            0x81 | 0x85 | 0x8d | 0x91 | 0x95 | 0x99 | 0x9d => Some(Instruction::Sta),
            0x86 | 0x8e | 0x96 => Some(Instruction::Stx),
            0x84 | 0x8c | 0x94 => Some(Instruction::Sty),
            0xaa => Some(Instruction::Tax),
            0xa8 => Some(Instruction::Tay),
            0xba => Some(Instruction::Tsx),
            0x8a => Some(Instruction::Txa),
            0x9a => Some(Instruction::Txs),
            0x98 => Some(Instruction::Tya),
            0x0b | 0x2b => Some(Instruction::Anc),
            0x6b => Some(Instruction::Arr),
            0x4b => Some(Instruction::Asr),
            0xcb => Some(Instruction::Axs),
            0xc3 | 0xc7 | 0xcf | 0xd3 | 0xd7 | 0xdb | 0xdf => Some(Instruction::Dcp),
            0xe3 | 0xe7 | 0xef | 0xf3 | 0xf7 | 0xfb | 0xff => Some(Instruction::Isb),
            0xa3 | 0xa7 | 0xaf | 0xb3 | 0xb7 | 0xbf => Some(Instruction::Lax),
            0xab => Some(Instruction::Lxa),
            0x04 | 0x0c | 0x14 | 0x1a | 0x1c | 0x34 | 0x3a | 0x3c | 0x44 | 0x54 | 0x5a | 0x5c
            | 0x64 | 0x74 | 0x7a | 0x7c | 0x80 | 0x82 | 0x89 | 0xc2 | 0xd4 | 0xda | 0xdc | 0xe2
            | 0xf4 | 0xfa | 0xfc => Some(Instruction::Skip),
            0x23 | 0x27 | 0x2f | 0x33 | 0x37 | 0x3b | 0x3f => Some(Instruction::Rla),
            0x63 | 0x67 | 0x6f | 0x73 | 0x77 | 0x7b | 0x7f => Some(Instruction::Rra),
            0x83 | 0x87 | 0x8f | 0x97 => Some(Instruction::Sax),
            0x9e => Some(Instruction::Shx),
            0x9c => Some(Instruction::Shy),
            0x03 | 0x07 | 0x0f | 0x13 | 0x17 | 0x1b | 0x1f => Some(Instruction::Slo),
            0x43 | 0x47 | 0x4f | 0x53 | 0x57 | 0x5b | 0x5f => Some(Instruction::Sre),
            _ => None,
        }
    }
}

/// What each mnemonic of the table stands for.
pub proof fn lemma_named()
    ensures
        Instruction::named("ADC"@) == Some(Instruction::Adc),
        Instruction::named("AND"@) == Some(Instruction::And),
        Instruction::named("ASL"@) == Some(Instruction::Asl),
        Instruction::named("BCC"@) == Some(Instruction::Bcc),
        Instruction::named("BCS"@) == Some(Instruction::Bcs),
        Instruction::named("BEQ"@) == Some(Instruction::Beq),
        Instruction::named("BIT"@) == Some(Instruction::Bit),
        Instruction::named("BMI"@) == Some(Instruction::Bmi),
        Instruction::named("BNE"@) == Some(Instruction::Bne),
        Instruction::named("BPL"@) == Some(Instruction::Bpl),
        Instruction::named("BRK"@) == Some(Instruction::Brk),
        Instruction::named("BVC"@) == Some(Instruction::Bvc),
        Instruction::named("BVS"@) == Some(Instruction::Bvs),
        Instruction::named("CLC"@) == Some(Instruction::Clc),
        Instruction::named("CLD"@) == Some(Instruction::Cld),
        Instruction::named("CLI"@) == Some(Instruction::Cli),
        Instruction::named("CLV"@) == Some(Instruction::Clv),
        Instruction::named("CMP"@) == Some(Instruction::Cmp),
        Instruction::named("CPX"@) == Some(Instruction::Cpx),
        Instruction::named("CPY"@) == Some(Instruction::Cpy),
        Instruction::named("DEC"@) == Some(Instruction::Dec),
        Instruction::named("DEX"@) == Some(Instruction::Dex),
        Instruction::named("DEY"@) == Some(Instruction::Dey),
        Instruction::named("EOR"@) == Some(Instruction::Eor),
        Instruction::named("INC"@) == Some(Instruction::Inc),
        Instruction::named("INX"@) == Some(Instruction::Inx),
        Instruction::named("INY"@) == Some(Instruction::Iny),
        Instruction::named("JMP"@) == Some(Instruction::Jmp),
        Instruction::named("JSR"@) == Some(Instruction::Jsr),
        Instruction::named("LDA"@) == Some(Instruction::Lda),
        Instruction::named("LDX"@) == Some(Instruction::Ldx),
        Instruction::named("LDY"@) == Some(Instruction::Ldy),
        Instruction::named("LSR"@) == Some(Instruction::Lsr),
        Instruction::named("NOP"@) == Some(Instruction::Nop),
        Instruction::named("ORA"@) == Some(Instruction::Ora),
        Instruction::named("PHA"@) == Some(Instruction::Pha),
        Instruction::named("PHP"@) == Some(Instruction::Php),
        Instruction::named("PLA"@) == Some(Instruction::Pla),
        Instruction::named("PLP"@) == Some(Instruction::Plp),
        Instruction::named("ROL"@) == Some(Instruction::Rol),
        Instruction::named("ROR"@) == Some(Instruction::Ror),
        Instruction::named("RTI"@) == Some(Instruction::Rti),
        Instruction::named("RTS"@) == Some(Instruction::Rts),
        Instruction::named("SBC"@) == Some(Instruction::Sbc),
        Instruction::named("SEC"@) == Some(Instruction::Sec),
        Instruction::named("SED"@) == Some(Instruction::Sed),
        Instruction::named("SEI"@) == Some(Instruction::Sei),
        Instruction::named("STA"@) == Some(Instruction::Sta),
        Instruction::named("STX"@) == Some(Instruction::Stx),
        Instruction::named("STY"@) == Some(Instruction::Sty),
        Instruction::named("TAX"@) == Some(Instruction::Tax),
        Instruction::named("TAY"@) == Some(Instruction::Tay),
        Instruction::named("TSX"@) == Some(Instruction::Tsx),
        Instruction::named("TXA"@) == Some(Instruction::Txa),
        Instruction::named("TXS"@) == Some(Instruction::Txs),
        Instruction::named("TYA"@) == Some(Instruction::Tya),
        Instruction::named("*ANC"@) == Some(Instruction::Anc),
        Instruction::named("*ARR"@) == Some(Instruction::Arr),
        Instruction::named("*ASR"@) == Some(Instruction::Asr),
        Instruction::named("*AXS"@) == Some(Instruction::Axs),
        Instruction::named("*DCP"@) == Some(Instruction::Dcp),
        Instruction::named("*ISB"@) == Some(Instruction::Isb),
        Instruction::named("*LAX"@) == Some(Instruction::Lax),
        Instruction::named("*LXA"@) == Some(Instruction::Lxa),
        Instruction::named("*NOP"@) == Some(Instruction::Skip),
        Instruction::named("*RLA"@) == Some(Instruction::Rla),
        Instruction::named("*RRA"@) == Some(Instruction::Rra),
        Instruction::named("*SAX"@) == Some(Instruction::Sax),
        Instruction::named("*SBC"@) == Some(Instruction::Sbc),
        Instruction::named("*SHX"@) == Some(Instruction::Shx),
        Instruction::named("*SHY"@) == Some(Instruction::Shy),
        Instruction::named("*SLO"@) == Some(Instruction::Slo),
        Instruction::named("*SRE"@) == Some(Instruction::Sre),
{
    lemma_mnemonic_keys();
}

/// The instruction of `code`, found through the mnemonic that `mnemonic_of` gives.
spec fn decoded(code: u8) -> Option<Instruction> {
    Instruction::named(mnemonic_of(code))
}

/// `decoded` finds an instruction exactly for the bytes of the table, whose
/// rows have the mnemonic that `mnemonic_of` gives.
proof fn lemma_decoded(code: u8)
    ensures
        has_opcode(code) <==> decoded(code) is Some,
        has_opcode(code) ==> lookup_spec(code)->0.name@ == mnemonic_of(code),
        Instruction::named(Seq::<char>::empty()) is None,
{
    lemma_named();
    lemma_mnemonic_keys();
    assert(mnemonic_key(Seq::<char>::empty()) == 0);
    lemma_table_mnemonic_of();
    lemma_absent_opcodes();
    if has_opcode(code) {
        lemma_lookup_found(code);
    }
}

proof fn lemma_row_accepts(i: int)
    requires
        0 <= i < op_table().len(),
    ensures
        decoded(op_table()[i].hex) is Some,
        decoded(op_table()[i].hex)->0.accepts(op_table()[i].addressing_mode),
{
    lemma_named();
    reveal(op_table);
}

/// Every row of the table names an instruction, and gives it a mode that
/// the instruction accepts.
pub proof fn lemma_table_instructions()
    ensures
        forall|i: int|
            0 <= i < op_table().len() ==> {
                let op = #[trigger] op_table()[i];
                &&& Instruction::named(op.name@) is Some
                &&& Instruction::named(op.name@)->0.accepts(op.addressing_mode)
            },
{
    lemma_table_mnemonic_of();
    assert forall|i: int| 0 <= i < op_table().len() implies {
        let op = #[trigger] op_table()[i];
        &&& Instruction::named(op.name@) is Some
        &&& Instruction::named(op.name@)->0.accepts(op.addressing_mode)
    } by {
        lemma_row_accepts(i);
    }
}

/// The row that a lookup finds names an instruction that accepts the row's mode.
pub proof fn lemma_row_instruction(op: Op)
    requires
        lookup_spec(op.hex) == Some(op),
    ensures
        Instruction::named(op.name@) is Some,
        Instruction::named(op.name@)->0.accepts(op.addressing_mode),
        1 <= op.size <= 3,
{
    lemma_lookup_found(op.hex);
    lemma_table_instructions();
}

} // verus!
