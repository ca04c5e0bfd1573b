use vstd::prelude::*;
use crate::cpu::addressing::AddressingMode;

verus! {

/// One row of the opcode table: what the byte `hex` means.
///
/// `name` is the mnemonic, with a leading `*` on the undocumented opcodes;
/// `cycles` is the cost before any penalty; `size` counts the opcode byte and
/// its operand bytes.
#[derive(Clone, Copy, Debug)]
pub struct Op<'a> {
    pub hex: u8,
    pub name: &'a str,
    pub addressing_mode: AddressingMode,
    pub cycles: u8,
    pub size: u16,
}

/// A mnemonic as the table writes them: capital letters, digits and the
/// marker `*`, and at least one of them.
pub open spec fn is_plain_mnemonic(name: Seq<char>) -> bool {
    &&& name.len() > 0
    &&& forall|i: int|
        0 <= i < name.len() ==> {
            let c = #[trigger] name[i];
            ('A' <= c && c <= 'Z') || ('0' <= c && c <= '9') || c == '*'
        }
}

impl<'a> Op<'a> {
    /// The declared size agrees with the addressing mode.
    pub open spec fn consistent(self) -> bool {
        self.size == self.addressing_mode.instruction_length()
    }

    /// The entry is fit for the registry: its size agrees with its mode and
    /// its mnemonic is written in the table's alphabet.
    pub open spec fn well_formed(self) -> bool {
        self.consistent() && is_plain_mnemonic(self.name@)
    }

    pub fn new(hex: u8, name: &'a str, addressing_mode: AddressingMode, cycles: u8, size: u16) -> (op:
        Op<'a>)
        ensures
            op == (Op { hex, name, addressing_mode, cycles, size }),
    {
        Op { hex, name, addressing_mode, cycles, size }
    }
}

/// The opcode table, in ascending order of opcode byte.
#[verifier::opaque]
pub open spec fn op_table() -> Seq<Op<'static>> {
    seq![
        Op { hex: 0x00, name: "BRK", addressing_mode: AddressingMode::Implicit, cycles: 7, size: 1 },
        Op { hex: 0x01, name: "ORA", addressing_mode: AddressingMode::IndexedIndirect, cycles: 6, size: 2 },
        Op { hex: 0x03, name: "*SLO", addressing_mode: AddressingMode::IndexedIndirect, cycles: 8, size: 2 },
        Op { hex: 0x04, name: "*NOP", addressing_mode: AddressingMode::ZeroPage, cycles: 3, size: 2 },
        Op { hex: 0x05, name: "ORA", addressing_mode: AddressingMode::ZeroPage, cycles: 3, size: 2 },
        Op { hex: 0x06, name: "ASL", addressing_mode: AddressingMode::ZeroPage, cycles: 5, size: 2 },
        Op { hex: 0x07, name: "*SLO", addressing_mode: AddressingMode::ZeroPage, cycles: 5, size: 2 },
        Op { hex: 0x08, name: "PHP", addressing_mode: AddressingMode::Implicit, cycles: 3, size: 1 },
        Op { hex: 0x09, name: "ORA", addressing_mode: AddressingMode::Immediate, cycles: 2, size: 2 },
        Op { hex: 0x0a, name: "ASL", addressing_mode: AddressingMode::Accumulator, cycles: 2, size: 1 },
        Op { hex: 0x0b, name: "*ANC", addressing_mode: AddressingMode::Immediate, cycles: 2, size: 2 },
        Op { hex: 0x0c, name: "*NOP", addressing_mode: AddressingMode::Absolute, cycles: 4, size: 3 },
        Op { hex: 0x0d, name: "ORA", addressing_mode: AddressingMode::Absolute, cycles: 4, size: 3 },
        Op { hex: 0x0e, name: "ASL", addressing_mode: AddressingMode::Absolute, cycles: 6, size: 3 },
        Op { hex: 0x0f, name: "*SLO", addressing_mode: AddressingMode::Absolute, cycles: 6, size: 3 },
        // ------------------------------------------------------------
        Op { hex: 0x10, name: "BPL", addressing_mode: AddressingMode::Relative, cycles: 2, size: 2 },
        Op { hex: 0x11, name: "ORA", addressing_mode: AddressingMode::IndirectIndexed, cycles: 5, size: 2 },
        Op { hex: 0x13, name: "*SLO", addressing_mode: AddressingMode::IndirectIndexedW, cycles: 8, size: 2 },
        Op { hex: 0x14, name: "*NOP", addressing_mode: AddressingMode::ZeroPageX, cycles: 4, size: 2 },
        Op { hex: 0x15, name: "ORA", addressing_mode: AddressingMode::ZeroPageX, cycles: 4, size: 2 },
        Op { hex: 0x16, name: "ASL", addressing_mode: AddressingMode::ZeroPageX, cycles: 6, size: 2 },
        Op { hex: 0x17, name: "*SLO", addressing_mode: AddressingMode::ZeroPageX, cycles: 6, size: 2 },
        Op { hex: 0x18, name: "CLC", addressing_mode: AddressingMode::Implicit, cycles: 2, size: 1 },
        Op { hex: 0x19, name: "ORA", addressing_mode: AddressingMode::AbsoluteY, cycles: 4, size: 3 },
        Op { hex: 0x1a, name: "*NOP", addressing_mode: AddressingMode::Implicit, cycles: 2, size: 1 },
        Op { hex: 0x1b, name: "*SLO", addressing_mode: AddressingMode::AbsoluteYW, cycles: 7, size: 3 },
        Op { hex: 0x1c, name: "*NOP", addressing_mode: AddressingMode::AbsoluteX, cycles: 4, size: 3 },
        Op { hex: 0x1d, name: "ORA", addressing_mode: AddressingMode::AbsoluteX, cycles: 4, size: 3 },
        Op { hex: 0x1e, name: "ASL", addressing_mode: AddressingMode::AbsoluteXW, cycles: 7, size: 3 },
        Op { hex: 0x1f, name: "*SLO", addressing_mode: AddressingMode::AbsoluteXW, cycles: 7, size: 3 },
        // ------------------------------------------------------------
        Op { hex: 0x20, name: "JSR", addressing_mode: AddressingMode::Absolute, cycles: 6, size: 3 },
        Op { hex: 0x21, name: "AND", addressing_mode: AddressingMode::IndexedIndirect, cycles: 6, size: 2 },
        Op { hex: 0x23, name: "*RLA", addressing_mode: AddressingMode::IndexedIndirect, cycles: 8, size: 2 },
        Op { hex: 0x24, name: "BIT", addressing_mode: AddressingMode::ZeroPage, cycles: 3, size: 2 },
        Op { hex: 0x25, name: "AND", addressing_mode: AddressingMode::ZeroPage, cycles: 3, size: 2 },
        Op { hex: 0x26, name: "ROL", addressing_mode: AddressingMode::ZeroPage, cycles: 5, size: 2 },
        Op { hex: 0x27, name: "*RLA", addressing_mode: AddressingMode::ZeroPage, cycles: 5, size: 2 },
        Op { hex: 0x28, name: "PLP", addressing_mode: AddressingMode::Implicit, cycles: 4, size: 1 },
        Op { hex: 0x29, name: "AND", addressing_mode: AddressingMode::Immediate, cycles: 2, size: 2 },
        Op { hex: 0x2a, name: "ROL", addressing_mode: AddressingMode::Accumulator, cycles: 2, size: 1 },
        Op { hex: 0x2b, name: "*ANC", addressing_mode: AddressingMode::Immediate, cycles: 2, size: 2 },
        Op { hex: 0x2c, name: "BIT", addressing_mode: AddressingMode::Absolute, cycles: 4, size: 3 },
        Op { hex: 0x2d, name: "AND", addressing_mode: AddressingMode::Absolute, cycles: 4, size: 3 },
        Op { hex: 0x2e, name: "ROL", addressing_mode: AddressingMode::Absolute, cycles: 6, size: 3 },
        Op { hex: 0x2f, name: "*RLA", addressing_mode: AddressingMode::Absolute, cycles: 6, size: 3 },
        // ------------------------------------------------------------
        Op { hex: 0x30, name: "BMI", addressing_mode: AddressingMode::Relative, cycles: 2, size: 2 },
        Op { hex: 0x31, name: "AND", addressing_mode: AddressingMode::IndirectIndexed, cycles: 5, size: 2 },
        Op { hex: 0x33, name: "*RLA", addressing_mode: AddressingMode::IndirectIndexedW, cycles: 8, size: 2 },
        Op { hex: 0x34, name: "*NOP", addressing_mode: AddressingMode::ZeroPageX, cycles: 4, size: 2 },
        Op { hex: 0x35, name: "AND", addressing_mode: AddressingMode::ZeroPageX, cycles: 4, size: 2 },
        Op { hex: 0x36, name: "ROL", addressing_mode: AddressingMode::ZeroPageX, cycles: 6, size: 2 },
        Op { hex: 0x37, name: "*RLA", addressing_mode: AddressingMode::ZeroPageX, cycles: 6, size: 2 },
        Op { hex: 0x38, name: "SEC", addressing_mode: AddressingMode::Implicit, cycles: 2, size: 1 },
        Op { hex: 0x39, name: "AND", addressing_mode: AddressingMode::AbsoluteY, cycles: 4, size: 3 },
        Op { hex: 0x3a, name: "*NOP", addressing_mode: AddressingMode::Implicit, cycles: 2, size: 1 },
        Op { hex: 0x3b, name: "*RLA", addressing_mode: AddressingMode::AbsoluteYW, cycles: 7, size: 3 },
        Op { hex: 0x3c, name: "*NOP", addressing_mode: AddressingMode::AbsoluteX, cycles: 4, size: 3 },
        Op { hex: 0x3d, name: "AND", addressing_mode: AddressingMode::AbsoluteX, cycles: 4, size: 3 },
        Op { hex: 0x3e, name: "ROL", addressing_mode: AddressingMode::AbsoluteXW, cycles: 7, size: 3 },
        Op { hex: 0x3f, name: "*RLA", addressing_mode: AddressingMode::AbsoluteXW, cycles: 7, size: 3 },
        // ------------------------------------------------------------
        Op { hex: 0x40, name: "RTI", addressing_mode: AddressingMode::Implicit, cycles: 6, size: 1 },
        Op { hex: 0x41, name: "EOR", addressing_mode: AddressingMode::IndexedIndirect, cycles: 6, size: 2 },
        Op { hex: 0x43, name: "*SRE", addressing_mode: AddressingMode::IndexedIndirect, cycles: 8, size: 2 },
        Op { hex: 0x44, name: "*NOP", addressing_mode: AddressingMode::ZeroPage, cycles: 3, size: 2 },
        Op { hex: 0x45, name: "EOR", addressing_mode: AddressingMode::ZeroPage, cycles: 3, size: 2 },
        Op { hex: 0x46, name: "LSR", addressing_mode: AddressingMode::ZeroPage, cycles: 5, size: 2 },
        Op { hex: 0x47, name: "*SRE", addressing_mode: AddressingMode::ZeroPage, cycles: 5, size: 2 },
        Op { hex: 0x48, name: "PHA", addressing_mode: AddressingMode::Implicit, cycles: 3, size: 1 },
        Op { hex: 0x49, name: "EOR", addressing_mode: AddressingMode::Immediate, cycles: 2, size: 2 },
        Op { hex: 0x4a, name: "LSR", addressing_mode: AddressingMode::Accumulator, cycles: 2, size: 1 },
        Op { hex: 0x4b, name: "*ASR", addressing_mode: AddressingMode::Immediate, cycles: 2, size: 2 },
        Op { hex: 0x4c, name: "JMP", addressing_mode: AddressingMode::Absolute, cycles: 3, size: 3 },
        Op { hex: 0x4d, name: "EOR", addressing_mode: AddressingMode::Absolute, cycles: 4, size: 3 },
        Op { hex: 0x4e, name: "LSR", addressing_mode: AddressingMode::Absolute, cycles: 6, size: 3 },
        Op { hex: 0x4f, name: "*SRE", addressing_mode: AddressingMode::Absolute, cycles: 6, size: 3 },
        // ------------------------------------------------------------
        Op { hex: 0x50, name: "BVC", addressing_mode: AddressingMode::Relative, cycles: 2, size: 2 },
        Op { hex: 0x51, name: "EOR", addressing_mode: AddressingMode::IndirectIndexed, cycles: 5, size: 2 },
        Op { hex: 0x53, name: "*SRE", addressing_mode: AddressingMode::IndirectIndexedW, cycles: 8, size: 2 },
        Op { hex: 0x54, name: "*NOP", addressing_mode: AddressingMode::ZeroPageX, cycles: 4, size: 2 },
        Op { hex: 0x55, name: "EOR", addressing_mode: AddressingMode::ZeroPageX, cycles: 4, size: 2 },
        Op { hex: 0x56, name: "LSR", addressing_mode: AddressingMode::ZeroPageX, cycles: 6, size: 2 },
        Op { hex: 0x57, name: "*SRE", addressing_mode: AddressingMode::ZeroPageX, cycles: 6, size: 2 },
        Op { hex: 0x58, name: "CLI", addressing_mode: AddressingMode::Implicit, cycles: 2, size: 1 },
        Op { hex: 0x59, name: "EOR", addressing_mode: AddressingMode::AbsoluteY, cycles: 4, size: 3 },
        Op { hex: 0x5a, name: "*NOP", addressing_mode: AddressingMode::Implicit, cycles: 2, size: 1 },
        Op { hex: 0x5b, name: "*SRE", addressing_mode: AddressingMode::AbsoluteYW, cycles: 7, size: 3 },
        Op { hex: 0x5c, name: "*NOP", addressing_mode: AddressingMode::AbsoluteX, cycles: 4, size: 3 },
        Op { hex: 0x5d, name: "EOR", addressing_mode: AddressingMode::AbsoluteX, cycles: 4, size: 3 },
        Op { hex: 0x5e, name: "LSR", addressing_mode: AddressingMode::AbsoluteXW, cycles: 7, size: 3 },
        Op { hex: 0x5f, name: "*SRE", addressing_mode: AddressingMode::AbsoluteXW, cycles: 7, size: 3 },
        // ------------------------------------------------------------
        Op { hex: 0x60, name: "RTS", addressing_mode: AddressingMode::Implicit, cycles: 6, size: 1 },
        Op { hex: 0x61, name: "ADC", addressing_mode: AddressingMode::IndexedIndirect, cycles: 6, size: 2 },
        Op { hex: 0x63, name: "*RRA", addressing_mode: AddressingMode::IndexedIndirect, cycles: 8, size: 2 },
        Op { hex: 0x64, name: "*NOP", addressing_mode: AddressingMode::ZeroPage, cycles: 3, size: 2 },
        Op { hex: 0x65, name: "ADC", addressing_mode: AddressingMode::ZeroPage, cycles: 3, size: 2 },
        Op { hex: 0x66, name: "ROR", addressing_mode: AddressingMode::ZeroPage, cycles: 5, size: 2 },
        Op { hex: 0x67, name: "*RRA", addressing_mode: AddressingMode::ZeroPage, cycles: 5, size: 2 },
        Op { hex: 0x68, name: "PLA", addressing_mode: AddressingMode::Implicit, cycles: 4, size: 1 },
        Op { hex: 0x69, name: "ADC", addressing_mode: AddressingMode::Immediate, cycles: 2, size: 2 },
        Op { hex: 0x6a, name: "ROR", addressing_mode: AddressingMode::Accumulator, cycles: 2, size: 1 },
        Op { hex: 0x6b, name: "*ARR", addressing_mode: AddressingMode::Immediate, cycles: 2, size: 2 },
        Op { hex: 0x6c, name: "JMP", addressing_mode: AddressingMode::Indirect, cycles: 5, size: 3 },
        Op { hex: 0x6d, name: "ADC", addressing_mode: AddressingMode::Absolute, cycles: 4, size: 3 },
        Op { hex: 0x6e, name: "ROR", addressing_mode: AddressingMode::Absolute, cycles: 6, size: 3 },
        Op { hex: 0x6f, name: "*RRA", addressing_mode: AddressingMode::Absolute, cycles: 6, size: 3 },
        // ------------------------------------------------------------
        Op { hex: 0x70, name: "BVS", addressing_mode: AddressingMode::Relative, cycles: 2, size: 2 },
        Op { hex: 0x71, name: "ADC", addressing_mode: AddressingMode::IndirectIndexed, cycles: 5, size: 2 },
        Op { hex: 0x73, name: "*RRA", addressing_mode: AddressingMode::IndirectIndexedW, cycles: 8, size: 2 },
        Op { hex: 0x74, name: "*NOP", addressing_mode: AddressingMode::ZeroPageX, cycles: 4, size: 2 },
        Op { hex: 0x75, name: "ADC", addressing_mode: AddressingMode::ZeroPageX, cycles: 4, size: 2 },
        Op { hex: 0x76, name: "ROR", addressing_mode: AddressingMode::ZeroPageX, cycles: 6, size: 2 },
        Op { hex: 0x77, name: "*RRA", addressing_mode: AddressingMode::ZeroPageX, cycles: 6, size: 2 },
        Op { hex: 0x78, name: "SEI", addressing_mode: AddressingMode::Implicit, cycles: 2, size: 1 },
        Op { hex: 0x79, name: "ADC", addressing_mode: AddressingMode::AbsoluteY, cycles: 4, size: 3 },
        Op { hex: 0x7a, name: "*NOP", addressing_mode: AddressingMode::Implicit, cycles: 2, size: 1 },
        Op { hex: 0x7b, name: "*RRA", addressing_mode: AddressingMode::AbsoluteYW, cycles: 7, size: 3 },
        Op { hex: 0x7c, name: "*NOP", addressing_mode: AddressingMode::AbsoluteX, cycles: 4, size: 3 },
        Op { hex: 0x7d, name: "ADC", addressing_mode: AddressingMode::AbsoluteX, cycles: 4, size: 3 },
        Op { hex: 0x7e, name: "ROR", addressing_mode: AddressingMode::AbsoluteXW, cycles: 7, size: 3 },
        Op { hex: 0x7f, name: "*RRA", addressing_mode: AddressingMode::AbsoluteXW, cycles: 7, size: 3 },
        // ------------------------------------------------------------
        Op { hex: 0x80, name: "*NOP", addressing_mode: AddressingMode::Immediate, cycles: 2, size: 2 },
        Op { hex: 0x81, name: "STA", addressing_mode: AddressingMode::IndexedIndirect, cycles: 6, size: 2 },
        Op { hex: 0x82, name: "*NOP", addressing_mode: AddressingMode::Immediate, cycles: 2, size: 2 },
        Op { hex: 0x83, name: "*SAX", addressing_mode: AddressingMode::IndexedIndirect, cycles: 6, size: 2 },
        Op { hex: 0x84, name: "STY", addressing_mode: AddressingMode::ZeroPage, cycles: 3, size: 2 },
        Op { hex: 0x85, name: "STA", addressing_mode: AddressingMode::ZeroPage, cycles: 3, size: 2 },
        Op { hex: 0x86, name: "STX", addressing_mode: AddressingMode::ZeroPage, cycles: 3, size: 2 },
        Op { hex: 0x87, name: "*SAX", addressing_mode: AddressingMode::ZeroPage, cycles: 3, size: 2 },
        Op { hex: 0x88, name: "DEY", addressing_mode: AddressingMode::Implicit, cycles: 2, size: 1 },
        Op { hex: 0x89, name: "*NOP", addressing_mode: AddressingMode::Immediate, cycles: 2, size: 2 },
        Op { hex: 0x8a, name: "TXA", addressing_mode: AddressingMode::Implicit, cycles: 2, size: 1 },
        Op { hex: 0x8c, name: "STY", addressing_mode: AddressingMode::Absolute, cycles: 4, size: 3 },
        Op { hex: 0x8d, name: "STA", addressing_mode: AddressingMode::Absolute, cycles: 4, size: 3 },
        Op { hex: 0x8e, name: "STX", addressing_mode: AddressingMode::Absolute, cycles: 4, size: 3 },
        Op { hex: 0x8f, name: "*SAX", addressing_mode: AddressingMode::Absolute, cycles: 4, size: 3 },
        // ------------------------------------------------------------
        Op { hex: 0x90, name: "BCC", addressing_mode: AddressingMode::Relative, cycles: 2, size: 2 },
        Op { hex: 0x91, name: "STA", addressing_mode: AddressingMode::IndirectIndexedW, cycles: 6, size: 2 },
        Op { hex: 0x94, name: "STY", addressing_mode: AddressingMode::ZeroPageX, cycles: 4, size: 2 },
        Op { hex: 0x95, name: "STA", addressing_mode: AddressingMode::ZeroPageX, cycles: 4, size: 2 },
        Op { hex: 0x96, name: "STX", addressing_mode: AddressingMode::ZeroPageY, cycles: 4, size: 2 },
        Op { hex: 0x97, name: "*SAX", addressing_mode: AddressingMode::ZeroPageY, cycles: 4, size: 2 },
        Op { hex: 0x98, name: "TYA", addressing_mode: AddressingMode::Implicit, cycles: 2, size: 1 },
        Op { hex: 0x99, name: "STA", addressing_mode: AddressingMode::AbsoluteYW, cycles: 5, size: 3 },
        Op { hex: 0x9a, name: "TXS", addressing_mode: AddressingMode::Implicit, cycles: 2, size: 1 },
        Op { hex: 0x9c, name: "*SHY", addressing_mode: AddressingMode::AbsoluteXW, cycles: 5, size: 3 },
        Op { hex: 0x9d, name: "STA", addressing_mode: AddressingMode::AbsoluteXW, cycles: 5, size: 3 },
        Op { hex: 0x9e, name: "*SHX", addressing_mode: AddressingMode::AbsoluteYW, cycles: 5, size: 3 },
        // ------------------------------------------------------------
        Op { hex: 0xa0, name: "LDY", addressing_mode: AddressingMode::Immediate, cycles: 2, size: 2 },
        Op { hex: 0xa1, name: "LDA", addressing_mode: AddressingMode::IndexedIndirect, cycles: 6, size: 2 },
        Op { hex: 0xa2, name: "LDX", addressing_mode: AddressingMode::Immediate, cycles: 2, size: 2 },
        Op { hex: 0xa3, name: "*LAX", addressing_mode: AddressingMode::IndexedIndirect, cycles: 6, size: 2 },
        Op { hex: 0xa4, name: "LDY", addressing_mode: AddressingMode::ZeroPage, cycles: 3, size: 2 },
        Op { hex: 0xa5, name: "LDA", addressing_mode: AddressingMode::ZeroPage, cycles: 3, size: 2 },
        Op { hex: 0xa6, name: "LDX", addressing_mode: AddressingMode::ZeroPage, cycles: 3, size: 2 },
        Op { hex: 0xa7, name: "*LAX", addressing_mode: AddressingMode::ZeroPage, cycles: 3, size: 2 },
        Op { hex: 0xa8, name: "TAY", addressing_mode: AddressingMode::Implicit, cycles: 2, size: 1 },
        Op { hex: 0xa9, name: "LDA", addressing_mode: AddressingMode::Immediate, cycles: 2, size: 2 },
        Op { hex: 0xaa, name: "TAX", addressing_mode: AddressingMode::Implicit, cycles: 2, size: 1 },
        Op { hex: 0xab, name: "*LXA", addressing_mode: AddressingMode::Immediate, cycles: 2, size: 2 },
        Op { hex: 0xac, name: "LDY", addressing_mode: AddressingMode::Absolute, cycles: 4, size: 3 },
        Op { hex: 0xad, name: "LDA", addressing_mode: AddressingMode::Absolute, cycles: 4, size: 3 },
        Op { hex: 0xae, name: "LDX", addressing_mode: AddressingMode::Absolute, cycles: 4, size: 3 },
        Op { hex: 0xaf, name: "*LAX", addressing_mode: AddressingMode::Absolute, cycles: 4, size: 3 },
        // ------------------------------------------------------------
        Op { hex: 0xb0, name: "BCS", addressing_mode: AddressingMode::Relative, cycles: 2, size: 2 },
        Op { hex: 0xb1, name: "LDA", addressing_mode: AddressingMode::IndirectIndexed, cycles: 5, size: 2 },
        Op { hex: 0xb3, name: "*LAX", addressing_mode: AddressingMode::IndirectIndexed, cycles: 5, size: 2 },
        Op { hex: 0xb4, name: "LDY", addressing_mode: AddressingMode::ZeroPageX, cycles: 4, size: 2 },
        Op { hex: 0xb5, name: "LDA", addressing_mode: AddressingMode::ZeroPageX, cycles: 4, size: 2 },
        Op { hex: 0xb6, name: "LDX", addressing_mode: AddressingMode::ZeroPageY, cycles: 4, size: 2 },
        Op { hex: 0xb7, name: "*LAX", addressing_mode: AddressingMode::ZeroPageY, cycles: 4, size: 2 },
        Op { hex: 0xb8, name: "CLV", addressing_mode: AddressingMode::Implicit, cycles: 2, size: 1 },
        Op { hex: 0xb9, name: "LDA", addressing_mode: AddressingMode::AbsoluteY, cycles: 4, size: 3 },
        Op { hex: 0xba, name: "TSX", addressing_mode: AddressingMode::Implicit, cycles: 2, size: 1 },
        Op { hex: 0xbc, name: "LDY", addressing_mode: AddressingMode::AbsoluteX, cycles: 4, size: 3 },
        Op { hex: 0xbd, name: "LDA", addressing_mode: AddressingMode::AbsoluteX, cycles: 4, size: 3 },
        Op { hex: 0xbe, name: "LDX", addressing_mode: AddressingMode::AbsoluteY, cycles: 4, size: 3 },
        Op { hex: 0xbf, name: "*LAX", addressing_mode: AddressingMode::AbsoluteY, cycles: 4, size: 3 },
        // ------------------------------------------------------------
        Op { hex: 0xc0, name: "CPY", addressing_mode: AddressingMode::Immediate, cycles: 2, size: 2 },
        Op { hex: 0xc1, name: "CMP", addressing_mode: AddressingMode::IndexedIndirect, cycles: 6, size: 2 },
        Op { hex: 0xc2, name: "*NOP", addressing_mode: AddressingMode::Immediate, cycles: 2, size: 2 },
        Op { hex: 0xc3, name: "*DCP", addressing_mode: AddressingMode::IndexedIndirect, cycles: 8, size: 2 },
        Op { hex: 0xc4, name: "CPY", addressing_mode: AddressingMode::ZeroPage, cycles: 3, size: 2 },
        Op { hex: 0xc5, name: "CMP", addressing_mode: AddressingMode::ZeroPage, cycles: 3, size: 2 },
        Op { hex: 0xc6, name: "DEC", addressing_mode: AddressingMode::ZeroPage, cycles: 5, size: 2 },
        Op { hex: 0xc7, name: "*DCP", addressing_mode: AddressingMode::ZeroPage, cycles: 5, size: 2 },
        Op { hex: 0xc8, name: "INY", addressing_mode: AddressingMode::Implicit, cycles: 2, size: 1 },
        Op { hex: 0xc9, name: "CMP", addressing_mode: AddressingMode::Immediate, cycles: 2, size: 2 },
        Op { hex: 0xca, name: "DEX", addressing_mode: AddressingMode::Implicit, cycles: 2, size: 1 },
        Op { hex: 0xcb, name: "*AXS", addressing_mode: AddressingMode::Immediate, cycles: 2, size: 2 },
        Op { hex: 0xcc, name: "CPY", addressing_mode: AddressingMode::Absolute, cycles: 4, size: 3 },
        Op { hex: 0xcd, name: "CMP", addressing_mode: AddressingMode::Absolute, cycles: 4, size: 3 },
        Op { hex: 0xce, name: "DEC", addressing_mode: AddressingMode::Absolute, cycles: 6, size: 3 },
        Op { hex: 0xcf, name: "*DCP", addressing_mode: AddressingMode::Absolute, cycles: 6, size: 3 },
        // ------------------------------------------------------------
        Op { hex: 0xd0, name: "BNE", addressing_mode: AddressingMode::Relative, cycles: 2, size: 2 },
        Op { hex: 0xd1, name: "CMP", addressing_mode: AddressingMode::IndirectIndexed, cycles: 5, size: 2 },
        Op { hex: 0xd3, name: "*DCP", addressing_mode: AddressingMode::IndirectIndexedW, cycles: 8, size: 2 },
        Op { hex: 0xd4, name: "*NOP", addressing_mode: AddressingMode::ZeroPageX, cycles: 4, size: 2 },
        Op { hex: 0xd5, name: "CMP", addressing_mode: AddressingMode::ZeroPageX, cycles: 4, size: 2 },
        Op { hex: 0xd6, name: "DEC", addressing_mode: AddressingMode::ZeroPageX, cycles: 6, size: 2 },
        Op { hex: 0xd7, name: "*DCP", addressing_mode: AddressingMode::ZeroPageX, cycles: 6, size: 2 },
        Op { hex: 0xd8, name: "CLD", addressing_mode: AddressingMode::Implicit, cycles: 2, size: 1 },
        Op { hex: 0xd9, name: "CMP", addressing_mode: AddressingMode::AbsoluteY, cycles: 4, size: 3 },
        Op { hex: 0xda, name: "*NOP", addressing_mode: AddressingMode::Implicit, cycles: 2, size: 1 },
        Op { hex: 0xdb, name: "*DCP", addressing_mode: AddressingMode::AbsoluteYW, cycles: 7, size: 3 },
        Op { hex: 0xdc, name: "*NOP", addressing_mode: AddressingMode::AbsoluteX, cycles: 4, size: 3 },
        Op { hex: 0xdd, name: "CMP", addressing_mode: AddressingMode::AbsoluteX, cycles: 4, size: 3 },
        Op { hex: 0xde, name: "DEC", addressing_mode: AddressingMode::AbsoluteXW, cycles: 7, size: 3 },
        Op { hex: 0xdf, name: "*DCP", addressing_mode: AddressingMode::AbsoluteXW, cycles: 7, size: 3 },
        // ------------------------------------------------------------
        Op { hex: 0xe0, name: "CPX", addressing_mode: AddressingMode::Immediate, cycles: 2, size: 2 },
        Op { hex: 0xe1, name: "SBC", addressing_mode: AddressingMode::IndexedIndirect, cycles: 6, size: 2 },
        Op { hex: 0xe2, name: "*NOP", addressing_mode: AddressingMode::Immediate, cycles: 2, size: 2 },
        Op { hex: 0xe3, name: "*ISB", addressing_mode: AddressingMode::IndexedIndirect, cycles: 8, size: 2 },
        Op { hex: 0xe4, name: "CPX", addressing_mode: AddressingMode::ZeroPage, cycles: 3, size: 2 },
        Op { hex: 0xe5, name: "SBC", addressing_mode: AddressingMode::ZeroPage, cycles: 3, size: 2 },
        Op { hex: 0xe6, name: "INC", addressing_mode: AddressingMode::ZeroPage, cycles: 5, size: 2 },
        Op { hex: 0xe7, name: "*ISB", addressing_mode: AddressingMode::ZeroPage, cycles: 5, size: 2 },
        Op { hex: 0xe8, name: "INX", addressing_mode: AddressingMode::Implicit, cycles: 2, size: 1 },
        Op { hex: 0xe9, name: "SBC", addressing_mode: AddressingMode::Immediate, cycles: 2, size: 2 },
        Op { hex: 0xea, name: "NOP", addressing_mode: AddressingMode::Implicit, cycles: 2, size: 1 },
        Op { hex: 0xeb, name: "*SBC", addressing_mode: AddressingMode::Immediate, cycles: 2, size: 2 },
        Op { hex: 0xec, name: "CPX", addressing_mode: AddressingMode::Absolute, cycles: 4, size: 3 },
        Op { hex: 0xed, name: "SBC", addressing_mode: AddressingMode::Absolute, cycles: 4, size: 3 },
        Op { hex: 0xee, name: "INC", addressing_mode: AddressingMode::Absolute, cycles: 6, size: 3 },
        Op { hex: 0xef, name: "*ISB", addressing_mode: AddressingMode::Absolute, cycles: 6, size: 3 },
        // ------------------------------------------------------------
        Op { hex: 0xf0, name: "BEQ", addressing_mode: AddressingMode::Relative, cycles: 2, size: 2 },
        Op { hex: 0xf1, name: "SBC", addressing_mode: AddressingMode::IndirectIndexed, cycles: 5, size: 2 },
        Op { hex: 0xf3, name: "*ISB", addressing_mode: AddressingMode::IndirectIndexedW, cycles: 8, size: 2 },
        Op { hex: 0xf4, name: "*NOP", addressing_mode: AddressingMode::ZeroPageX, cycles: 4, size: 2 },
        Op { hex: 0xf5, name: "SBC", addressing_mode: AddressingMode::ZeroPageX, cycles: 4, size: 2 },
        Op { hex: 0xf6, name: "INC", addressing_mode: AddressingMode::ZeroPageX, cycles: 6, size: 2 },
        Op { hex: 0xf7, name: "*ISB", addressing_mode: AddressingMode::ZeroPageX, cycles: 6, size: 2 },
        Op { hex: 0xf8, name: "SED", addressing_mode: AddressingMode::Implicit, cycles: 2, size: 1 },
        Op { hex: 0xf9, name: "SBC", addressing_mode: AddressingMode::AbsoluteY, cycles: 4, size: 3 },
        Op { hex: 0xfa, name: "*NOP", addressing_mode: AddressingMode::Implicit, cycles: 2, size: 1 },
        Op { hex: 0xfb, name: "*ISB", addressing_mode: AddressingMode::AbsoluteYW, cycles: 7, size: 3 },
        Op { hex: 0xfc, name: "*NOP", addressing_mode: AddressingMode::AbsoluteX, cycles: 4, size: 3 },
        Op { hex: 0xfd, name: "SBC", addressing_mode: AddressingMode::AbsoluteX, cycles: 4, size: 3 },
        Op { hex: 0xfe, name: "INC", addressing_mode: AddressingMode::AbsoluteXW, cycles: 7, size: 3 },
        Op { hex: 0xff, name: "*ISB", addressing_mode: AddressingMode::AbsoluteXW, cycles: 7, size: 3 },
    ]
}

/// Whether some row of the table has the opcode byte `code`.
pub open spec fn has_opcode(code: u8) -> bool {
    exists|i: int| 0 <= i < op_table().len() && #[trigger] op_table()[i].hex == code
}

/// The position of `code` in the table, meaningful where `has_opcode(code)`.
pub open spec fn index_of(code: u8) -> int {
    choose|i: int| 0 <= i < op_table().len() && #[trigger] op_table()[i].hex == code
}

/// The row for `code`, or `None` where the table has none.
pub open spec fn lookup_spec(code: u8) -> Option<Op<'static>> {
    if has_opcode(code) {
        Some(op_table()[index_of(code)])
    } else {
        None
    }
}

/// The bytes that the table leaves out: the twelve that halt the processor
/// and five undocumented opcodes whose result is not stable.
pub open spec fn is_absent(code: u8) -> bool {
    ||| code == 0x02
    ||| code == 0x12
    ||| code == 0x22
    ||| code == 0x32
    ||| code == 0x42
    ||| code == 0x52
    ||| code == 0x62
    ||| code == 0x72
    ||| code == 0x8b
    ||| code == 0x92
    ||| code == 0x93
    ||| code == 0x9b
    ||| code == 0x9f
    ||| code == 0xb2
    ||| code == 0xbb
    ||| code == 0xd2
    ||| code == 0xf2
}

/// The table has 239 rows and their opcode bytes strictly ascend.
pub proof fn lemma_table_sorted()
    ensures
        op_table().len() == 239,
        forall|i: int, j: int| 0 <= i < j < 239 ==> op_table()[i].hex < op_table()[j].hex,
{
    reveal(op_table);
}

/// No two rows of the table share an opcode byte.
pub proof fn lemma_table_unique()
    ensures
        forall|i: int, j: int|
            0 <= i < op_table().len() && 0 <= j < op_table().len() && op_table()[i].hex
                == op_table()[j].hex ==> i == j,
{
    lemma_table_sorted();
    assert forall|i: int, j: int|
        0 <= i < op_table().len() && 0 <= j < op_table().len() && op_table()[i].hex
            == op_table()[j].hex implies i == j by {
        if i < j {
            assert(op_table()[i].hex < op_table()[j].hex);
        } else if j < i {
            assert(op_table()[j].hex < op_table()[i].hex);
        }
    }
}

/// In every row the size is the one that the addressing mode calls for.
pub proof fn lemma_table_consistent()
    ensures
        forall|i: int| 0 <= i < op_table().len() ==> (#[trigger] op_table()[i]).consistent(),
{
    reveal(op_table);
}

/// Every mnemonic of the table is made of capital letters, digits and `*`.
pub proof fn lemma_table_mnemonics()
    ensures
        forall|i: int|
            0 <= i < op_table().len() ==> is_plain_mnemonic((#[trigger] op_table()[i]).name@),
{
    reveal(op_table);
    reveal_strlit("*ANC");
    reveal_strlit("*ARR");
    reveal_strlit("*ASR");
    reveal_strlit("*AXS");
    reveal_strlit("*DCP");
    reveal_strlit("*ISB");
    reveal_strlit("*LAX");
    reveal_strlit("*LXA");
    reveal_strlit("*NOP");
    reveal_strlit("*RLA");
    reveal_strlit("*RRA");
    reveal_strlit("*SAX");
    reveal_strlit("*SBC");
    reveal_strlit("*SHX");
    reveal_strlit("*SHY");
    reveal_strlit("*SLO");
    reveal_strlit("*SRE");
    reveal_strlit("ADC");
    reveal_strlit("AND");
    reveal_strlit("ASL");
    reveal_strlit("BCC");
    reveal_strlit("BCS");
    reveal_strlit("BEQ");
    reveal_strlit("BIT");
    reveal_strlit("BMI");
    reveal_strlit("BNE");
    reveal_strlit("BPL");
    reveal_strlit("BRK");
    reveal_strlit("BVC");
    reveal_strlit("BVS");
    reveal_strlit("CLC");
    reveal_strlit("CLD");
    reveal_strlit("CLI");
    reveal_strlit("CLV");
    reveal_strlit("CMP");
    reveal_strlit("CPX");
    reveal_strlit("CPY");
    reveal_strlit("DEC");
    reveal_strlit("DEX");
    reveal_strlit("DEY");
    reveal_strlit("EOR");
    reveal_strlit("INC");
    reveal_strlit("INX");
    reveal_strlit("INY");
    reveal_strlit("JMP");
    reveal_strlit("JSR");
    reveal_strlit("LDA");
    reveal_strlit("LDX");
    reveal_strlit("LDY");
    reveal_strlit("LSR");
    reveal_strlit("NOP");
    reveal_strlit("ORA");
    reveal_strlit("PHA");
    reveal_strlit("PHP");
    reveal_strlit("PLA");
    reveal_strlit("PLP");
    reveal_strlit("ROL");
    reveal_strlit("ROR");
    reveal_strlit("RTI");
    reveal_strlit("RTS");
    reveal_strlit("SBC");
    reveal_strlit("SEC");
    reveal_strlit("SED");
    reveal_strlit("SEI");
    reveal_strlit("STA");
    reveal_strlit("STX");
    reveal_strlit("STY");
    reveal_strlit("TAX");
    reveal_strlit("TAY");
    reveal_strlit("TSX");
    reveal_strlit("TXA");
    reveal_strlit("TXS");
    reveal_strlit("TYA");
}

/// Every row of the table is well formed.
pub proof fn lemma_table_well_formed()
    ensures
        forall|i: int| 0 <= i < op_table().len() ==> (#[trigger] op_table()[i]).well_formed(),
{
    lemma_table_consistent();
    lemma_table_mnemonics();
}

/// A byte has exactly one row, found by `lookup_spec`, or none: the row at
/// position `i` is the one that a lookup of its byte gives.
pub proof fn lemma_lookup_row(i: int)
    requires
        0 <= i < op_table().len(),
    ensures
        lookup_spec(op_table()[i].hex) == Some(op_table()[i]),
{
    lemma_table_unique();
    let code = op_table()[i].hex;
    assert(has_opcode(code));
    assert(index_of(code) == i);
}

/// What a lookup finds carries the byte that was asked for, and is well formed.
pub proof fn lemma_lookup_found(code: u8)
    requires
        has_opcode(code),
    ensures
        lookup_spec(code) is Some,
        lookup_spec(code)->0.hex == code,
        lookup_spec(code)->0.well_formed(),
        lookup_spec(code)->0 == op_table()[index_of(code)],
        0 <= index_of(code) < op_table().len(),
{
    lemma_table_well_formed();
}

/// Of the 256 byte values, the table lacks exactly the seventeen of `is_absent`.
pub proof fn lemma_absent_opcodes()
    ensures
        forall|code: u8| #[trigger] has_opcode(code) <==> !is_absent(code),
        forall|code: u8| lookup_spec(code) is None <==> #[trigger] is_absent(code),
{
    assert forall|code: u8| #[trigger] has_opcode(code) <==> !is_absent(code) by {
        lemma_has_opcode(code);
    }
}

proof fn lemma_has_opcode(code: u8)
    ensures
        has_opcode(code) <==> !is_absent(code),
{
    reveal(op_table);
    let t = op_table();
    if has_opcode(code) {
        let i = index_of(code);
        assert(t[i].hex == code);
        assert(!is_absent(code));
    }
    if !is_absent(code) {
        let i: int = witness_index(code);
        assert(0 <= i < t.len() && t[i].hex == code);
    }
}

/// Where the row of `code` stands: the byte itself, less the absent bytes below it.
spec fn witness_index(code: u8) -> int {
    code - absent_below(code)
}

spec fn absent_below(code: u8) -> int {
    (if code > 0x02 { 1int } else { 0 }) + (if code > 0x12 { 1int } else { 0 })
    + (if code > 0x22 { 1int } else { 0 }) + (if code > 0x32 { 1int } else { 0 })
    + (if code > 0x42 { 1int } else { 0 }) + (if code > 0x52 { 1int } else { 0 })
    + (if code > 0x62 { 1int } else { 0 }) + (if code > 0x72 { 1int } else { 0 })
    + (if code > 0x8b { 1int } else { 0 }) + (if code > 0x92 { 1int } else { 0 })
    + (if code > 0x93 { 1int } else { 0 }) + (if code > 0x9b { 1int } else { 0 })
    + (if code > 0x9f { 1int } else { 0 }) + (if code > 0xb2 { 1int } else { 0 })
    + (if code > 0xbb { 1int } else { 0 }) + (if code > 0xd2 { 1int } else { 0 })
    + (if code > 0xf2 { 1int } else { 0 })
}

/// The opcode table as a value: built once, never changed, searched by byte.
pub struct Registry {
    ops: Vec<Op<'static>>,
}

impl View for Registry {
    type V = Seq<Op<'static>>;

    closed spec fn view(&self) -> Seq<Op<'static>> {
        self.ops@
    }
}

impl Registry {
    #[verifier::type_invariant]
    spec fn holds_the_table(self) -> bool {
        self.ops@ == op_table()
    }

    /// Builds the table.
    pub fn new() -> (r: Registry)
        ensures
            r@ == op_table(),
    {
        proof {
            reveal(op_table);
        }
        let ops = vec![
            Op::new(0x00, "BRK", AddressingMode::Implicit, 7, 1),
            Op::new(0x01, "ORA", AddressingMode::IndexedIndirect, 6, 2),
            Op::new(0x03, "*SLO", AddressingMode::IndexedIndirect, 8, 2),
            Op::new(0x04, "*NOP", AddressingMode::ZeroPage, 3, 2),
            Op::new(0x05, "ORA", AddressingMode::ZeroPage, 3, 2),
            Op::new(0x06, "ASL", AddressingMode::ZeroPage, 5, 2),
            Op::new(0x07, "*SLO", AddressingMode::ZeroPage, 5, 2),
            Op::new(0x08, "PHP", AddressingMode::Implicit, 3, 1),
            Op::new(0x09, "ORA", AddressingMode::Immediate, 2, 2),
            Op::new(0x0a, "ASL", AddressingMode::Accumulator, 2, 1),
            Op::new(0x0b, "*ANC", AddressingMode::Immediate, 2, 2),
            Op::new(0x0c, "*NOP", AddressingMode::Absolute, 4, 3),
            Op::new(0x0d, "ORA", AddressingMode::Absolute, 4, 3),
            Op::new(0x0e, "ASL", AddressingMode::Absolute, 6, 3),
            Op::new(0x0f, "*SLO", AddressingMode::Absolute, 6, 3),
            // ------------------------------------------------------------
            Op::new(0x10, "BPL", AddressingMode::Relative, 2, 2),
            Op::new(0x11, "ORA", AddressingMode::IndirectIndexed, 5, 2),
            Op::new(0x13, "*SLO", AddressingMode::IndirectIndexedW, 8, 2),
            Op::new(0x14, "*NOP", AddressingMode::ZeroPageX, 4, 2),
            Op::new(0x15, "ORA", AddressingMode::ZeroPageX, 4, 2),
            Op::new(0x16, "ASL", AddressingMode::ZeroPageX, 6, 2),
            Op::new(0x17, "*SLO", AddressingMode::ZeroPageX, 6, 2),
            Op::new(0x18, "CLC", AddressingMode::Implicit, 2, 1),
            Op::new(0x19, "ORA", AddressingMode::AbsoluteY, 4, 3),
            Op::new(0x1a, "*NOP", AddressingMode::Implicit, 2, 1),
            Op::new(0x1b, "*SLO", AddressingMode::AbsoluteYW, 7, 3),
            Op::new(0x1c, "*NOP", AddressingMode::AbsoluteX, 4, 3),
            Op::new(0x1d, "ORA", AddressingMode::AbsoluteX, 4, 3),
            Op::new(0x1e, "ASL", AddressingMode::AbsoluteXW, 7, 3),
            Op::new(0x1f, "*SLO", AddressingMode::AbsoluteXW, 7, 3),
            // ------------------------------------------------------------
            Op::new(0x20, "JSR", AddressingMode::Absolute, 6, 3),
            Op::new(0x21, "AND", AddressingMode::IndexedIndirect, 6, 2),
            Op::new(0x23, "*RLA", AddressingMode::IndexedIndirect, 8, 2),
            Op::new(0x24, "BIT", AddressingMode::ZeroPage, 3, 2),
            Op::new(0x25, "AND", AddressingMode::ZeroPage, 3, 2),
            Op::new(0x26, "ROL", AddressingMode::ZeroPage, 5, 2),
            Op::new(0x27, "*RLA", AddressingMode::ZeroPage, 5, 2),
            Op::new(0x28, "PLP", AddressingMode::Implicit, 4, 1),
            Op::new(0x29, "AND", AddressingMode::Immediate, 2, 2),
            Op::new(0x2a, "ROL", AddressingMode::Accumulator, 2, 1),
            Op::new(0x2b, "*ANC", AddressingMode::Immediate, 2, 2),
            Op::new(0x2c, "BIT", AddressingMode::Absolute, 4, 3),
            Op::new(0x2d, "AND", AddressingMode::Absolute, 4, 3),
            Op::new(0x2e, "ROL", AddressingMode::Absolute, 6, 3),
            Op::new(0x2f, "*RLA", AddressingMode::Absolute, 6, 3),
            // ------------------------------------------------------------
            Op::new(0x30, "BMI", AddressingMode::Relative, 2, 2),
            Op::new(0x31, "AND", AddressingMode::IndirectIndexed, 5, 2),
            Op::new(0x33, "*RLA", AddressingMode::IndirectIndexedW, 8, 2),
            Op::new(0x34, "*NOP", AddressingMode::ZeroPageX, 4, 2),
            Op::new(0x35, "AND", AddressingMode::ZeroPageX, 4, 2),
            Op::new(0x36, "ROL", AddressingMode::ZeroPageX, 6, 2),
            Op::new(0x37, "*RLA", AddressingMode::ZeroPageX, 6, 2),
            Op::new(0x38, "SEC", AddressingMode::Implicit, 2, 1),
            Op::new(0x39, "AND", AddressingMode::AbsoluteY, 4, 3),
            Op::new(0x3a, "*NOP", AddressingMode::Implicit, 2, 1),
            Op::new(0x3b, "*RLA", AddressingMode::AbsoluteYW, 7, 3),
            Op::new(0x3c, "*NOP", AddressingMode::AbsoluteX, 4, 3),
            Op::new(0x3d, "AND", AddressingMode::AbsoluteX, 4, 3),
            Op::new(0x3e, "ROL", AddressingMode::AbsoluteXW, 7, 3),
            Op::new(0x3f, "*RLA", AddressingMode::AbsoluteXW, 7, 3),
            // ------------------------------------------------------------
            Op::new(0x40, "RTI", AddressingMode::Implicit, 6, 1),
            Op::new(0x41, "EOR", AddressingMode::IndexedIndirect, 6, 2),
            Op::new(0x43, "*SRE", AddressingMode::IndexedIndirect, 8, 2),
            Op::new(0x44, "*NOP", AddressingMode::ZeroPage, 3, 2),
            Op::new(0x45, "EOR", AddressingMode::ZeroPage, 3, 2),
            Op::new(0x46, "LSR", AddressingMode::ZeroPage, 5, 2),
            Op::new(0x47, "*SRE", AddressingMode::ZeroPage, 5, 2),
            Op::new(0x48, "PHA", AddressingMode::Implicit, 3, 1),
            Op::new(0x49, "EOR", AddressingMode::Immediate, 2, 2),
            Op::new(0x4a, "LSR", AddressingMode::Accumulator, 2, 1),
            Op::new(0x4b, "*ASR", AddressingMode::Immediate, 2, 2),
            Op::new(0x4c, "JMP", AddressingMode::Absolute, 3, 3),
            Op::new(0x4d, "EOR", AddressingMode::Absolute, 4, 3),
            Op::new(0x4e, "LSR", AddressingMode::Absolute, 6, 3),
            Op::new(0x4f, "*SRE", AddressingMode::Absolute, 6, 3),
            // ------------------------------------------------------------
            Op::new(0x50, "BVC", AddressingMode::Relative, 2, 2),
            Op::new(0x51, "EOR", AddressingMode::IndirectIndexed, 5, 2),
            Op::new(0x53, "*SRE", AddressingMode::IndirectIndexedW, 8, 2),
            Op::new(0x54, "*NOP", AddressingMode::ZeroPageX, 4, 2),
            Op::new(0x55, "EOR", AddressingMode::ZeroPageX, 4, 2),
            Op::new(0x56, "LSR", AddressingMode::ZeroPageX, 6, 2),
            Op::new(0x57, "*SRE", AddressingMode::ZeroPageX, 6, 2),
            Op::new(0x58, "CLI", AddressingMode::Implicit, 2, 1),
            Op::new(0x59, "EOR", AddressingMode::AbsoluteY, 4, 3),
            Op::new(0x5a, "*NOP", AddressingMode::Implicit, 2, 1),
            Op::new(0x5b, "*SRE", AddressingMode::AbsoluteYW, 7, 3),
            Op::new(0x5c, "*NOP", AddressingMode::AbsoluteX, 4, 3),
            Op::new(0x5d, "EOR", AddressingMode::AbsoluteX, 4, 3),
            Op::new(0x5e, "LSR", AddressingMode::AbsoluteXW, 7, 3),
            Op::new(0x5f, "*SRE", AddressingMode::AbsoluteXW, 7, 3),
            // ------------------------------------------------------------
            Op::new(0x60, "RTS", AddressingMode::Implicit, 6, 1),
            Op::new(0x61, "ADC", AddressingMode::IndexedIndirect, 6, 2),
            Op::new(0x63, "*RRA", AddressingMode::IndexedIndirect, 8, 2),
            Op::new(0x64, "*NOP", AddressingMode::ZeroPage, 3, 2),
            Op::new(0x65, "ADC", AddressingMode::ZeroPage, 3, 2),
            Op::new(0x66, "ROR", AddressingMode::ZeroPage, 5, 2),
            Op::new(0x67, "*RRA", AddressingMode::ZeroPage, 5, 2),
            Op::new(0x68, "PLA", AddressingMode::Implicit, 4, 1),
            Op::new(0x69, "ADC", AddressingMode::Immediate, 2, 2),
            Op::new(0x6a, "ROR", AddressingMode::Accumulator, 2, 1),
            Op::new(0x6b, "*ARR", AddressingMode::Immediate, 2, 2),
            Op::new(0x6c, "JMP", AddressingMode::Indirect, 5, 3),
            Op::new(0x6d, "ADC", AddressingMode::Absolute, 4, 3),
            Op::new(0x6e, "ROR", AddressingMode::Absolute, 6, 3),
            Op::new(0x6f, "*RRA", AddressingMode::Absolute, 6, 3),
            // ------------------------------------------------------------
            Op::new(0x70, "BVS", AddressingMode::Relative, 2, 2),
            Op::new(0x71, "ADC", AddressingMode::IndirectIndexed, 5, 2),
            Op::new(0x73, "*RRA", AddressingMode::IndirectIndexedW, 8, 2),
            Op::new(0x74, "*NOP", AddressingMode::ZeroPageX, 4, 2),
            Op::new(0x75, "ADC", AddressingMode::ZeroPageX, 4, 2),
            Op::new(0x76, "ROR", AddressingMode::ZeroPageX, 6, 2),
            Op::new(0x77, "*RRA", AddressingMode::ZeroPageX, 6, 2),
            Op::new(0x78, "SEI", AddressingMode::Implicit, 2, 1),
            Op::new(0x79, "ADC", AddressingMode::AbsoluteY, 4, 3),
            Op::new(0x7a, "*NOP", AddressingMode::Implicit, 2, 1),
            Op::new(0x7b, "*RRA", AddressingMode::AbsoluteYW, 7, 3),
            Op::new(0x7c, "*NOP", AddressingMode::AbsoluteX, 4, 3),
            Op::new(0x7d, "ADC", AddressingMode::AbsoluteX, 4, 3),
            Op::new(0x7e, "ROR", AddressingMode::AbsoluteXW, 7, 3),
            Op::new(0x7f, "*RRA", AddressingMode::AbsoluteXW, 7, 3),
            // ------------------------------------------------------------
            Op::new(0x80, "*NOP", AddressingMode::Immediate, 2, 2),
            Op::new(0x81, "STA", AddressingMode::IndexedIndirect, 6, 2),
            Op::new(0x82, "*NOP", AddressingMode::Immediate, 2, 2),
            Op::new(0x83, "*SAX", AddressingMode::IndexedIndirect, 6, 2),
            Op::new(0x84, "STY", AddressingMode::ZeroPage, 3, 2),
            Op::new(0x85, "STA", AddressingMode::ZeroPage, 3, 2),
            Op::new(0x86, "STX", AddressingMode::ZeroPage, 3, 2),
            Op::new(0x87, "*SAX", AddressingMode::ZeroPage, 3, 2),
            Op::new(0x88, "DEY", AddressingMode::Implicit, 2, 1),
            Op::new(0x89, "*NOP", AddressingMode::Immediate, 2, 2),
            Op::new(0x8a, "TXA", AddressingMode::Implicit, 2, 1),
            Op::new(0x8c, "STY", AddressingMode::Absolute, 4, 3),
            Op::new(0x8d, "STA", AddressingMode::Absolute, 4, 3),
            Op::new(0x8e, "STX", AddressingMode::Absolute, 4, 3),
            Op::new(0x8f, "*SAX", AddressingMode::Absolute, 4, 3),
            // ------------------------------------------------------------
            Op::new(0x90, "BCC", AddressingMode::Relative, 2, 2),
            Op::new(0x91, "STA", AddressingMode::IndirectIndexedW, 6, 2),
            Op::new(0x94, "STY", AddressingMode::ZeroPageX, 4, 2),
            Op::new(0x95, "STA", AddressingMode::ZeroPageX, 4, 2),
            Op::new(0x96, "STX", AddressingMode::ZeroPageY, 4, 2),
            Op::new(0x97, "*SAX", AddressingMode::ZeroPageY, 4, 2),
            Op::new(0x98, "TYA", AddressingMode::Implicit, 2, 1),
            Op::new(0x99, "STA", AddressingMode::AbsoluteYW, 5, 3),
            Op::new(0x9a, "TXS", AddressingMode::Implicit, 2, 1),
            Op::new(0x9c, "*SHY", AddressingMode::AbsoluteXW, 5, 3),
            Op::new(0x9d, "STA", AddressingMode::AbsoluteXW, 5, 3),
            Op::new(0x9e, "*SHX", AddressingMode::AbsoluteYW, 5, 3),
            // ------------------------------------------------------------
            Op::new(0xa0, "LDY", AddressingMode::Immediate, 2, 2),
            Op::new(0xa1, "LDA", AddressingMode::IndexedIndirect, 6, 2),
            Op::new(0xa2, "LDX", AddressingMode::Immediate, 2, 2),
            Op::new(0xa3, "*LAX", AddressingMode::IndexedIndirect, 6, 2),
            Op::new(0xa4, "LDY", AddressingMode::ZeroPage, 3, 2),
            Op::new(0xa5, "LDA", AddressingMode::ZeroPage, 3, 2),
            Op::new(0xa6, "LDX", AddressingMode::ZeroPage, 3, 2),
            Op::new(0xa7, "*LAX", AddressingMode::ZeroPage, 3, 2),
            Op::new(0xa8, "TAY", AddressingMode::Implicit, 2, 1),
            Op::new(0xa9, "LDA", AddressingMode::Immediate, 2, 2),
            Op::new(0xaa, "TAX", AddressingMode::Implicit, 2, 1),
            Op::new(0xab, "*LXA", AddressingMode::Immediate, 2, 2),
            Op::new(0xac, "LDY", AddressingMode::Absolute, 4, 3),
            Op::new(0xad, "LDA", AddressingMode::Absolute, 4, 3),
            Op::new(0xae, "LDX", AddressingMode::Absolute, 4, 3),
            Op::new(0xaf, "*LAX", AddressingMode::Absolute, 4, 3),
            // ------------------------------------------------------------
            Op::new(0xb0, "BCS", AddressingMode::Relative, 2, 2),
            Op::new(0xb1, "LDA", AddressingMode::IndirectIndexed, 5, 2),
            Op::new(0xb3, "*LAX", AddressingMode::IndirectIndexed, 5, 2),
            Op::new(0xb4, "LDY", AddressingMode::ZeroPageX, 4, 2),
            Op::new(0xb5, "LDA", AddressingMode::ZeroPageX, 4, 2),
            Op::new(0xb6, "LDX", AddressingMode::ZeroPageY, 4, 2),
            Op::new(0xb7, "*LAX", AddressingMode::ZeroPageY, 4, 2),
            Op::new(0xb8, "CLV", AddressingMode::Implicit, 2, 1),
            Op::new(0xb9, "LDA", AddressingMode::AbsoluteY, 4, 3),
            Op::new(0xba, "TSX", AddressingMode::Implicit, 2, 1),
            Op::new(0xbc, "LDY", AddressingMode::AbsoluteX, 4, 3),
            Op::new(0xbd, "LDA", AddressingMode::AbsoluteX, 4, 3),
            Op::new(0xbe, "LDX", AddressingMode::AbsoluteY, 4, 3),
            Op::new(0xbf, "*LAX", AddressingMode::AbsoluteY, 4, 3),
            // ------------------------------------------------------------
            Op::new(0xc0, "CPY", AddressingMode::Immediate, 2, 2),
            Op::new(0xc1, "CMP", AddressingMode::IndexedIndirect, 6, 2),
            Op::new(0xc2, "*NOP", AddressingMode::Immediate, 2, 2),
            Op::new(0xc3, "*DCP", AddressingMode::IndexedIndirect, 8, 2),
            Op::new(0xc4, "CPY", AddressingMode::ZeroPage, 3, 2),
            Op::new(0xc5, "CMP", AddressingMode::ZeroPage, 3, 2),
            Op::new(0xc6, "DEC", AddressingMode::ZeroPage, 5, 2),
            Op::new(0xc7, "*DCP", AddressingMode::ZeroPage, 5, 2),
            Op::new(0xc8, "INY", AddressingMode::Implicit, 2, 1),
            Op::new(0xc9, "CMP", AddressingMode::Immediate, 2, 2),
            Op::new(0xca, "DEX", AddressingMode::Implicit, 2, 1),
            Op::new(0xcb, "*AXS", AddressingMode::Immediate, 2, 2),
            Op::new(0xcc, "CPY", AddressingMode::Absolute, 4, 3),
            Op::new(0xcd, "CMP", AddressingMode::Absolute, 4, 3),
            Op::new(0xce, "DEC", AddressingMode::Absolute, 6, 3),
            Op::new(0xcf, "*DCP", AddressingMode::Absolute, 6, 3),
            // ------------------------------------------------------------
            Op::new(0xd0, "BNE", AddressingMode::Relative, 2, 2),
            Op::new(0xd1, "CMP", AddressingMode::IndirectIndexed, 5, 2),
            Op::new(0xd3, "*DCP", AddressingMode::IndirectIndexedW, 8, 2),
            Op::new(0xd4, "*NOP", AddressingMode::ZeroPageX, 4, 2),
            Op::new(0xd5, "CMP", AddressingMode::ZeroPageX, 4, 2),
            Op::new(0xd6, "DEC", AddressingMode::ZeroPageX, 6, 2),
            Op::new(0xd7, "*DCP", AddressingMode::ZeroPageX, 6, 2),
            Op::new(0xd8, "CLD", AddressingMode::Implicit, 2, 1),
            Op::new(0xd9, "CMP", AddressingMode::AbsoluteY, 4, 3),
            Op::new(0xda, "*NOP", AddressingMode::Implicit, 2, 1),
            Op::new(0xdb, "*DCP", AddressingMode::AbsoluteYW, 7, 3),
            Op::new(0xdc, "*NOP", AddressingMode::AbsoluteX, 4, 3),
            Op::new(0xdd, "CMP", AddressingMode::AbsoluteX, 4, 3),
            Op::new(0xde, "DEC", AddressingMode::AbsoluteXW, 7, 3),
            Op::new(0xdf, "*DCP", AddressingMode::AbsoluteXW, 7, 3),
            // ------------------------------------------------------------
            Op::new(0xe0, "CPX", AddressingMode::Immediate, 2, 2),
            Op::new(0xe1, "SBC", AddressingMode::IndexedIndirect, 6, 2),
            Op::new(0xe2, "*NOP", AddressingMode::Immediate, 2, 2),
            Op::new(0xe3, "*ISB", AddressingMode::IndexedIndirect, 8, 2),
            Op::new(0xe4, "CPX", AddressingMode::ZeroPage, 3, 2),
            Op::new(0xe5, "SBC", AddressingMode::ZeroPage, 3, 2),
            Op::new(0xe6, "INC", AddressingMode::ZeroPage, 5, 2),
            Op::new(0xe7, "*ISB", AddressingMode::ZeroPage, 5, 2),
            Op::new(0xe8, "INX", AddressingMode::Implicit, 2, 1),
            Op::new(0xe9, "SBC", AddressingMode::Immediate, 2, 2),
            Op::new(0xea, "NOP", AddressingMode::Implicit, 2, 1),
            Op::new(0xeb, "*SBC", AddressingMode::Immediate, 2, 2),
            Op::new(0xec, "CPX", AddressingMode::Absolute, 4, 3),
            Op::new(0xed, "SBC", AddressingMode::Absolute, 4, 3),
            Op::new(0xee, "INC", AddressingMode::Absolute, 6, 3),
            Op::new(0xef, "*ISB", AddressingMode::Absolute, 6, 3),
            // ------------------------------------------------------------
            Op::new(0xf0, "BEQ", AddressingMode::Relative, 2, 2),
            Op::new(0xf1, "SBC", AddressingMode::IndirectIndexed, 5, 2),
            Op::new(0xf3, "*ISB", AddressingMode::IndirectIndexedW, 8, 2),
            Op::new(0xf4, "*NOP", AddressingMode::ZeroPageX, 4, 2),
            Op::new(0xf5, "SBC", AddressingMode::ZeroPageX, 4, 2),
            Op::new(0xf6, "INC", AddressingMode::ZeroPageX, 6, 2),
            Op::new(0xf7, "*ISB", AddressingMode::ZeroPageX, 6, 2),
            Op::new(0xf8, "SED", AddressingMode::Implicit, 2, 1),
            Op::new(0xf9, "SBC", AddressingMode::AbsoluteY, 4, 3),
            Op::new(0xfa, "*NOP", AddressingMode::Implicit, 2, 1),
            Op::new(0xfb, "*ISB", AddressingMode::AbsoluteYW, 7, 3),
            Op::new(0xfc, "*NOP", AddressingMode::AbsoluteX, 4, 3),
            Op::new(0xfd, "SBC", AddressingMode::AbsoluteX, 4, 3),
            Op::new(0xfe, "INC", AddressingMode::AbsoluteXW, 7, 3),
            Op::new(0xff, "*ISB", AddressingMode::AbsoluteXW, 7, 3),
        ];
        Registry { ops }
    }

    /// Number of rows.
    pub fn len(&self) -> (n: usize)
        ensures
            n == op_table().len(),
    {
        proof {
            use_type_invariant(self);
        }
        self.ops.len()
    }

    /// The row at position `i`, counted from the lowest opcode byte.
    pub fn get(&self, i: usize) -> (op: Option<Op<'static>>)
        ensures
            op == (if i < op_table().len() {
                Some(op_table()[i as int])
            } else {
                None
            }),
    {
        proof {
            use_type_invariant(self);
        }
        if i < self.ops.len() {
            Some(self.ops[i])
        } else {
            None
        }
    }

    /// Finds the row for `code` by binary search.
    pub fn lookup(&self, code: u8) -> (r: Option<Op<'static>>)
        ensures
            r == lookup_spec(code),
            r is Some <==> has_opcode(code),
            r matches Some(op) ==> op.hex == code && op.well_formed(),
    {
        proof {
            use_type_invariant(self);
        }
        let mut lo: usize = 0;
        let mut hi: usize = self.ops.len();
        while lo < hi
            invariant
                self.ops@ == op_table(),
                lo <= hi <= self.ops.len(),
                forall|i: int| 0 <= i < lo ==> (#[trigger] op_table()[i]).hex < code,
                forall|i: int| hi <= i < op_table().len() ==> (#[trigger] op_table()[i]).hex > code,
            decreases hi - lo,
        {
            let mid: usize = lo + (hi - lo) / 2;
            let op = self.ops[mid];
            proof {
                lemma_table_sorted();
            }
            if op.hex == code {
                proof {
                    lemma_lookup_row(mid as int);
                    lemma_lookup_found(code);
                }
                return Some(op);
            } else if op.hex < code {
                lo = mid + 1;
            } else {
                hi = mid;
            }
        }
        assert(!has_opcode(code));
        None
    }
}

} // verus!
