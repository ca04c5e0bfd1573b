use nes::cpu::addressing::AddressingMode;
use nes::cpu::op::{Op, Registry};

fn expected_length(mode: AddressingMode) -> u16 {
    match mode {
        AddressingMode::Implicit | AddressingMode::Accumulator => 1,
        AddressingMode::Immediate
        | AddressingMode::ZeroPage
        | AddressingMode::ZeroPageX
        | AddressingMode::ZeroPageY
        | AddressingMode::Relative
        | AddressingMode::IndexedIndirect
        | AddressingMode::IndirectIndexed
        | AddressingMode::IndirectIndexedW => 2,
        _ => 3,
    }
}

#[test]
fn op_new_keeps_its_arguments() {
    let op = Op::new(0xa9, "LDA", AddressingMode::Immediate, 2, 2);
    assert_eq!(op.hex, 0xa9);
    assert_eq!(op.name, "LDA");
    assert_eq!(op.addressing_mode, AddressingMode::Immediate);
    assert_eq!(op.cycles, 2);
    assert_eq!(op.size, 2);
}

#[test]
fn table_has_239_rows() {
    let ops = Registry::new();
    assert_eq!(ops.len(), 239);
    assert!(ops.get(238).is_some());
    assert!(ops.get(239).is_none());
}

#[test]
fn table_is_strictly_ascending() {
    let ops = Registry::new();
    for i in 1..ops.len() {
        assert!(ops.get(i - 1).unwrap().hex < ops.get(i).unwrap().hex);
    }
}

#[test]
fn every_byte_is_found_once_or_absent() {
    let ops = Registry::new();
    let absent: [u8; 17] = [
        0x02, 0x12, 0x22, 0x32, 0x42, 0x52, 0x62, 0x72, 0x8b, 0x92, 0x93, 0x9b, 0x9f, 0xb2, 0xbb,
        0xd2, 0xf2,
    ];
    let mut found = 0;
    for code in 0..=255u8 {
        match ops.lookup(code) {
            Some(op) => {
                assert_eq!(op.hex, code);
                assert!(!absent.contains(&code));
                found += 1;
            }
            None => assert!(absent.contains(&code)),
        }
    }
    assert_eq!(found, 239);
}

#[test]
fn size_agrees_with_mode_in_every_row() {
    let ops = Registry::new();
    for i in 0..ops.len() {
        let op = ops.get(i).unwrap();
        assert_eq!(op.size, expected_length(op.addressing_mode), "opcode {:02x}", op.hex);
        assert_eq!(op.addressing_mode.length(), op.size);
    }
}

#[test]
fn mnemonics_are_capitals_with_an_optional_marker() {
    let ops = Registry::new();
    for i in 0..ops.len() {
        let op = ops.get(i).unwrap();
        assert!(op.name.len() == 3 || op.name.len() == 4);
        assert!(op.name.chars().all(|c| c.is_ascii_uppercase() || c == '*'));
        assert_eq!(op.name.len() == 4, op.name.starts_with('*'));
    }
}

#[test]
fn lookup_finds_known_rows() {
    let ops = Registry::new();
    let brk = ops.lookup(0x00).unwrap();
    assert_eq!((brk.name, brk.addressing_mode, brk.cycles, brk.size), ("BRK", AddressingMode::Implicit, 7, 1));
    let and = ops.lookup(0x29).unwrap();
    assert_eq!((and.name, and.addressing_mode, and.cycles, and.size), ("AND", AddressingMode::Immediate, 2, 2));
    let jmp = ops.lookup(0x6c).unwrap();
    assert_eq!((jmp.name, jmp.addressing_mode, jmp.cycles, jmp.size), ("JMP", AddressingMode::Indirect, 5, 3));
    let sta = ops.lookup(0x9d).unwrap();
    assert_eq!((sta.name, sta.addressing_mode, sta.cycles, sta.size), ("STA", AddressingMode::AbsoluteXW, 5, 3));
    let isb = ops.lookup(0xff).unwrap();
    assert_eq!((isb.name, isb.addressing_mode, isb.cycles, isb.size), ("*ISB", AddressingMode::AbsoluteXW, 7, 3));
}

#[test]
fn unknown_opcode_is_not_found() {
    let ops = Registry::new();
    assert!(ops.lookup(0x02).is_none());
    assert!(ops.lookup(0x8b).is_none());
    assert!(ops.lookup(0xf2).is_none());
}

#[test]
fn write_variants_are_told_apart() {
    assert!(AddressingMode::AbsoluteXW.is_write());
    assert!(AddressingMode::AbsoluteYW.is_write());
    assert!(AddressingMode::IndirectIndexedW.is_write());
    assert!(!AddressingMode::AbsoluteX.is_write());
    assert!(!AddressingMode::AbsoluteY.is_write());
    assert!(!AddressingMode::IndirectIndexed.is_write());
    assert!(!AddressingMode::ZeroPage.is_write());
}
