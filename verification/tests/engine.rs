use nes::bus::Bus;
use nes::cpu::addressing::AddressingMode;
use nes::cpu::engine::Stop;
use nes::cpu::instruction::Instruction;
use nes::cpu::op::Registry;
use nes::cpu::status::Status;
use nes::cpu::CPU;

fn machine(start: u16, program: &[u8]) -> CPU {
    let mut bus = Bus::new();
    bus.load(start, program);
    bus.write(0xFFFC, (start & 0xFF) as u8);
    bus.write(0xFFFD, (start >> 8) as u8);
    let mut cpu = CPU::new(bus);
    cpu.reset();
    cpu
}

fn run(cpu: &mut CPU, steps: usize) {
    for _ in 0..steps {
        assert!(cpu.ready());
        cpu.step();
    }
}

#[test]
fn reset_reads_the_vector_and_costs_seven_cycles() {
    let mut bus = Bus::new();
    bus.write(0xFFFC, 0x00);
    bus.write(0xFFFD, 0xC0);
    bus.write(0x0044, 0x55);
    let mut cpu = CPU::new(bus);
    cpu.acc = 1;
    cpu.x = 2;
    cpu.y = 3;
    cpu.sp = 0x10;
    cpu.status = Status::from_bits_truncate(0xFF);
    cpu.cycle_count = 100;
    cpu.reset();
    assert_eq!((cpu.acc, cpu.x, cpu.y, cpu.sp, cpu.pc), (0, 0, 0, 0xFD, 0xC000));
    assert_eq!(cpu.status.bits(), 0x24);
    assert_eq!(cpu.cycle_count, 107);
    assert_eq!((cpu.bus.ppu.scanline, cpu.bus.ppu.cycle), (0, 21));
    assert_eq!(cpu.read(0x0044), 0x55);
}

#[test]
fn trace_of_a_known_program_start() {
    let mut bus = Bus::new();
    bus.load(0xC000, &[0x4C, 0xF5, 0xC5]);
    bus.load(0xC5F5, &[0xA2, 0x00, 0x86, 0x00, 0x86, 0x10, 0x86, 0x11, 0x20, 0x2D, 0xC7]);
    bus.load(0xC72D, &[0xEA, 0x38, 0xB0, 0x04]);
    bus.load(0xC735, &[0xEA, 0x18, 0xB0, 0x03, 0x90, 0x0A]);
    bus.load(0xC745, &[0xEA]);
    bus.load(0xFFFC, &[0x00, 0xC0]);
    let mut cpu = CPU::new(bus);
    cpu.reset();
    cpu.enable_logging();
    let expected = [
        "C000  4C F5 C5  JMP $C5F5                       A:00 X:00 Y:00 P:24 SP:FD PPU:  0, 21 CYC:7",
        "C5F5  A2 00     LDX #$00                        A:00 X:00 Y:00 P:24 SP:FD PPU:  0, 30 CYC:10",
        "C5F7  86 00     STX $00 = 00                    A:00 X:00 Y:00 P:26 SP:FD PPU:  0, 36 CYC:12",
        "C5F9  86 10     STX $10 = 00                    A:00 X:00 Y:00 P:26 SP:FD PPU:  0, 45 CYC:15",
        "C5FB  86 11     STX $11 = 00                    A:00 X:00 Y:00 P:26 SP:FD PPU:  0, 54 CYC:18",
        "C5FD  20 2D C7  JSR $C72D                       A:00 X:00 Y:00 P:26 SP:FD PPU:  0, 63 CYC:21",
        "C72D  EA        NOP                             A:00 X:00 Y:00 P:26 SP:FB PPU:  0, 81 CYC:27",
        "C72E  38        SEC                             A:00 X:00 Y:00 P:26 SP:FB PPU:  0, 87 CYC:29",
        "C72F  B0 04     BCS $C735                       A:00 X:00 Y:00 P:27 SP:FB PPU:  0, 93 CYC:31",
        "C735  EA        NOP                             A:00 X:00 Y:00 P:27 SP:FB PPU:  0,102 CYC:34",
        "C736  18        CLC                             A:00 X:00 Y:00 P:27 SP:FB PPU:  0,108 CYC:36",
        "C737  B0 03     BCS $C73C                       A:00 X:00 Y:00 P:26 SP:FB PPU:  0,114 CYC:38",
        "C739  90 0A     BCC $C745                       A:00 X:00 Y:00 P:26 SP:FB PPU:  0,120 CYC:40",
        "C745  EA        NOP                             A:00 X:00 Y:00 P:26 SP:FB PPU:  0,129 CYC:43",
    ];
    for want in expected {
        assert!(cpu.ready());
        let got = cpu.step().unwrap();
        assert_eq!(got, want);
    }
    assert_eq!(cpu.pc, 0xC746);
    assert_eq!(cpu.cycle_count, 45);
}

#[test]
fn step_gives_no_line_while_tracing_is_off() {
    let mut cpu = machine(0x8000, &[0xEA]);
    assert_eq!(cpu.step(), None);
    assert_eq!(cpu.pc, 0x8001);
    assert_eq!(cpu.cycle_count, 9);
}

#[test]
fn unknown_opcode_stops_the_machine() {
    let cpu = machine(0x8000, &[0x02]);
    assert!(!cpu.ready());
    assert!(Registry::new().lookup(0x02).is_none());
    assert_eq!(Instruction::decode(0x02), None);
}

#[test]
fn a_full_cycle_counter_stops_the_machine() {
    let mut cpu = machine(0x8000, &[0xEA]);
    cpu.cycle_count = u64::MAX - 3;
    assert!(!cpu.ready());
    cpu.cycle_count = u64::MAX - 4;
    assert!(cpu.ready());
    cpu.step();
    assert_eq!(cpu.cycle_count, u64::MAX - 2);
}

#[test]
fn decode_agrees_with_the_table() {
    let ops = Registry::new();
    for code in 0..=255u8 {
        match (ops.lookup(code), Instruction::decode(code)) {
            (None, None) => {}
            (Some(op), Some(instruction)) => {
                let name = format!("{:?}", instruction).to_uppercase();
                let expected = match op.name {
                    "*NOP" => "SKIP",
                    other => other.trim_start_matches('*'),
                };
                assert_eq!(name, expected, "opcode {:02x}", code);
            }
            other => panic!("opcode {:02x}: {:?}", code, other),
        }
    }
}

#[test]
fn every_opcode_of_the_table_can_be_stepped() {
    let ops = Registry::new();
    for code in 0..=255u8 {
        if let Some(op) = ops.lookup(code) {
            let mut cpu = machine(0x8000, &[code, 0x10, 0x02]);
            let before = cpu.cycle_count;
            assert!(cpu.ready());
            cpu.step();
            let spent = cpu.cycle_count - before;
            assert!(spent >= op.cycles as u64 && spent <= op.cycles as u64 + 2, "opcode {:02x}", code);
            assert_eq!(cpu.bus.ppu.cycle as u64, (21 + 3 * spent) % 341);
        }
    }
}

#[test]
fn program_counter_moves_by_the_size_of_the_instruction() {
    let ops = Registry::new();
    for code in 0..=255u8 {
        if let Some(op) = ops.lookup(code) {
            let jumps = matches!(op.name, "JMP" | "JSR" | "RTS" | "RTI" | "BRK")
                || op.addressing_mode == AddressingMode::Relative;
            if !jumps {
                let mut cpu = machine(0x8000, &[code, 0x10, 0x02]);
                cpu.step();
                assert_eq!(cpu.pc, 0x8000 + op.size, "opcode {:02x}", code);
            }
        }
    }
}

#[test]
fn load_store_and_transfer() {
    // LDA #$80; TAX; LDY #$00; STA $10; STX $0200; STY $11; TXS; TSX; TYA
    let mut cpu = machine(0x8000, &[0xA9, 0x80, 0xAA, 0xA0, 0x00, 0x85, 0x10, 0x8E, 0x00, 0x02, 0x84, 0x11, 0x9A, 0xBA, 0x98]);
    cpu.step();
    assert_eq!(cpu.acc, 0x80);
    assert_eq!(cpu.status.bits(), 0xA4);
    cpu.step();
    assert_eq!(cpu.x, 0x80);
    cpu.step();
    assert_eq!(cpu.y, 0);
    assert_eq!(cpu.status.bits(), 0x26);
    run(&mut cpu, 3);
    assert_eq!((cpu.read(0x10), cpu.read(0x0200), cpu.read(0x11)), (0x80, 0x80, 0x00));
    assert_eq!(cpu.status.bits(), 0x26);
    cpu.step();
    assert_eq!(cpu.sp, 0x80);
    assert_eq!(cpu.status.bits(), 0x26);
    cpu.step();
    assert_eq!(cpu.status.bits(), 0xA4);
    cpu.step();
    assert_eq!(cpu.acc, 0);
    assert_eq!(cpu.status.bits(), 0x26);
    assert_eq!(cpu.cycle_count, 7 + 2 + 2 + 2 + 3 + 4 + 3 + 2 + 2 + 2);
}

#[test]
fn page_crossing_load_costs_a_cycle_and_a_store_does_not() {
    // LDA $12FF,X with X=1 crosses; STA $12FF,X always takes five
    let mut cpu = machine(0x8000, &[0xBD, 0xFF, 0x12, 0x9D, 0xFF, 0x12, 0xBD, 0x00, 0x12, 0x9D, 0x00, 0x12]);
    cpu.x = 1;
    cpu.write(0x1300, 0x77);
    cpu.step();
    assert_eq!(cpu.acc, 0x77);
    assert_eq!(cpu.cycle_count, 7 + 5);
    cpu.step();
    assert_eq!(cpu.cycle_count, 7 + 5 + 5);
    cpu.step();
    assert_eq!(cpu.cycle_count, 7 + 5 + 5 + 4);
    cpu.step();
    assert_eq!(cpu.cycle_count, 7 + 5 + 5 + 4 + 5);
    assert_eq!(cpu.read(0x1201), 0);
}

#[test]
fn branch_costs() {
    // not taken: 2; taken in page: 3; taken across a page: 4
    let mut cpu = machine(0x80F0, &[0xB0, 0x10, 0x90, 0x02, 0xEA, 0xEA, 0x90, 0x20]);
    cpu.step();
    assert_eq!((cpu.pc, cpu.cycle_count), (0x80F2, 9));
    cpu.step();
    assert_eq!((cpu.pc, cpu.cycle_count), (0x80F6, 12));
    cpu.step();
    assert_eq!((cpu.pc, cpu.cycle_count), (0x8118, 16));
}

#[test]
fn branch_backwards() {
    let mut cpu = machine(0x8000, &[0xEA, 0xD0, 0xFD]);
    cpu.step();
    cpu.step();
    assert_eq!((cpu.pc, cpu.cycle_count), (0x8000, 12));
}

#[test]
fn each_branch_tests_its_flag() {
    let cases: [(u8, u8, bool); 8] = [
        (0x10, Status::NEGATIVE, false),
        (0x30, Status::NEGATIVE, true),
        (0x50, Status::OVERFLOW, false),
        (0x70, Status::OVERFLOW, true),
        (0x90, Status::CARRY, false),
        (0xB0, Status::CARRY, true),
        (0xD0, Status::ZERO, false),
        (0xF0, Status::ZERO, true),
    ];
    for (code, flag, when) in cases {
        for set in [false, true] {
            let mut cpu = machine(0x8000, &[code, 0x05]);
            cpu.status.set(flag, set);
            cpu.step();
            let taken = set == when;
            assert_eq!(cpu.pc, if taken { 0x8007 } else { 0x8002 }, "opcode {:02x}", code);
            assert_eq!(cpu.cycle_count, if taken { 10 } else { 9 });
        }
    }
}

#[test]
fn flag_instructions() {
    // SEC SED SEI CLC CLD CLI; CLV with overflow set
    let mut cpu = machine(0x8000, &[0x38, 0xF8, 0x78, 0x18, 0xD8, 0x58, 0xB8]);
    cpu.status = Status::from_bits_truncate(0x60);
    run(&mut cpu, 3);
    assert_eq!(cpu.status.bits(), 0x6D);
    run(&mut cpu, 3);
    assert_eq!(cpu.status.bits(), 0x60);
    cpu.step();
    assert_eq!(cpu.status.bits(), 0x20);
    assert_eq!(cpu.cycle_count, 7 + 14);
}

#[test]
fn jump_to_subroutine_and_back() {
    let mut bus = Bus::new();
    bus.load(0x8000, &[0x20, 0x00, 0x90, 0xEA]);
    bus.load(0x9000, &[0x60]);
    bus.load(0xFFFC, &[0x00, 0x80]);
    let mut cpu = CPU::new(bus);
    cpu.reset();
    cpu.step();
    assert_eq!((cpu.pc, cpu.sp), (0x9000, 0xFB));
    assert_eq!((cpu.read(0x01FD), cpu.read(0x01FC)), (0x80, 0x02));
    cpu.step();
    assert_eq!((cpu.pc, cpu.sp), (0x8003, 0xFD));
    assert_eq!(cpu.cycle_count, 7 + 6 + 6);
}

#[test]
fn indirect_jump_keeps_the_page_quirk() {
    let mut bus = Bus::new();
    bus.load(0x8000, &[0x6C, 0xFF, 0x30]);
    bus.write(0x30FF, 0x80);
    bus.write(0x3000, 0x50);
    bus.write(0x3100, 0x40);
    bus.load(0xFFFC, &[0x00, 0x80]);
    let mut cpu = CPU::new(bus);
    cpu.reset();
    cpu.step();
    assert_eq!(cpu.pc, 0x5080);
    assert_eq!(cpu.cycle_count, 12);
}

#[test]
fn software_interrupt_and_return() {
    let mut bus = Bus::new();
    bus.load(0x8000, &[0x00, 0xFF, 0xEA]);
    bus.load(0x9000, &[0x40]);
    bus.load(0xFFFC, &[0x00, 0x80]);
    bus.load(0xFFFE, &[0x00, 0x90]);
    let mut cpu = CPU::new(bus);
    cpu.reset();
    cpu.status = Status::from_bits_truncate(0x21);
    cpu.step();
    assert_eq!((cpu.pc, cpu.sp), (0x9000, 0xFA));
    assert_eq!(cpu.status.bits(), 0x25);
    assert_eq!((cpu.read(0x01FD), cpu.read(0x01FC), cpu.read(0x01FB)), (0x80, 0x02, 0x31));
    cpu.step();
    assert_eq!((cpu.pc, cpu.sp), (0x8002, 0xFD));
    assert_eq!(cpu.status.bits(), 0x21);
    assert_eq!(cpu.cycle_count, 7 + 7 + 6);
}

#[test]
fn stack_instructions() {
    // PHA, PHP, PLA, PLP
    let mut cpu = machine(0x8000, &[0x48, 0x08, 0x68, 0x28]);
    cpu.acc = 0xCF;
    cpu.step();
    assert_eq!((cpu.sp, cpu.read(0x01FD)), (0xFC, 0xCF));
    cpu.step();
    assert_eq!((cpu.sp, cpu.read(0x01FC)), (0xFB, 0x34));
    assert_eq!(cpu.status.bits(), 0x24);
    cpu.step();
    assert_eq!((cpu.sp, cpu.acc), (0xFC, 0x34));
    assert_eq!(cpu.status.bits(), 0x24);
    cpu.step();
    assert_eq!(cpu.sp, 0xFD);
    assert_eq!(cpu.status.bits(), 0xEF);
    assert_eq!(cpu.cycle_count, 7 + 3 + 3 + 4 + 4);
}

#[test]
fn stack_pointer_wraps_within_page_one() {
    let mut cpu = machine(0x8000, &[0x48, 0x68, 0x68]);
    cpu.sp = 0x00;
    cpu.acc = 0x42;
    cpu.write(0x0101, 0x99);
    cpu.step();
    assert_eq!((cpu.sp, cpu.read(0x0100)), (0xFF, 0x42));
    cpu.step();
    assert_eq!((cpu.sp, cpu.acc), (0x00, 0x42));
    cpu.step();
    assert_eq!((cpu.sp, cpu.acc), (0x01, 0x99));
}

#[test]
fn logical_instructions_through_step() {
    // AND #$0F; ORA #$80; EOR #$FF; BIT $10
    let mut cpu = machine(0x8000, &[0x29, 0x0F, 0x09, 0x80, 0x49, 0xFF, 0x24, 0x10]);
    cpu.acc = 0x3C;
    cpu.write(0x10, 0x40);
    cpu.step();
    assert_eq!((cpu.acc, cpu.status.bits()), (0x0C, 0x24));
    cpu.step();
    assert_eq!((cpu.acc, cpu.status.bits()), (0x8C, 0xA4));
    cpu.step();
    assert_eq!((cpu.acc, cpu.status.bits()), (0x73, 0x24));
    cpu.step();
    assert_eq!((cpu.acc, cpu.status.bits()), (0x73, 0x64));
    assert_eq!(cpu.pc, 0x8008);
    assert_eq!(cpu.cycle_count, 7 + 2 + 2 + 2 + 3);
}

#[test]
fn run_stops_at_the_first_instruction_boundary_past_the_budget() {
    // NOP NOP NOP NOP: two cycles each, after the seven of the reset
    let mut cpu = machine(0x8000, &[0xEA, 0xEA, 0xEA, 0xEA]);
    let mut trace = Vec::new();
    assert_eq!(cpu.run(10, &mut trace), Stop::BudgetReached);
    assert_eq!((cpu.pc, cpu.cycle_count), (0x8002, 11));
    assert_eq!(cpu.run(11, &mut trace), Stop::BudgetReached);
    assert_eq!((cpu.pc, cpu.cycle_count), (0x8002, 11));
    assert_eq!(cpu.run(12, &mut trace), Stop::BudgetReached);
    assert_eq!((cpu.pc, cpu.cycle_count), (0x8003, 13));
    assert!(trace.is_empty());
}

#[test]
fn run_with_no_budget_does_nothing() {
    let mut cpu = machine(0x8000, &[0xEA]);
    let mut trace = vec![String::from("kept")];
    cpu.enable_logging();
    assert_eq!(cpu.run(0, &mut trace), Stop::BudgetReached);
    assert_eq!(cpu.run(7, &mut trace), Stop::BudgetReached);
    assert_eq!((cpu.pc, cpu.cycle_count), (0x8000, 7));
    assert_eq!(trace, vec![String::from("kept")]);
}

#[test]
fn run_stops_at_an_unknown_opcode() {
    // LDA #$01; an undefined byte
    let mut cpu = machine(0x8000, &[0xA9, 0x01, 0x02, 0xEA]);
    let mut trace = Vec::new();
    assert_eq!(cpu.run(u64::MAX, &mut trace), Stop::UnknownOpcode);
    assert_eq!((cpu.pc, cpu.acc, cpu.cycle_count), (0x8002, 1, 9));
    assert_eq!(cpu.run(u64::MAX, &mut trace), Stop::UnknownOpcode);
    assert_eq!((cpu.pc, cpu.acc, cpu.cycle_count), (0x8002, 1, 9));
}

#[test]
fn run_stops_before_the_counter_overflows() {
    let mut cpu = machine(0x8000, &[0xEA, 0xEA, 0xEA, 0xEA]);
    cpu.cycle_count = u64::MAX - 7;
    let mut trace = Vec::new();
    assert_eq!(cpu.run(u64::MAX, &mut trace), Stop::CounterFull);
    assert_eq!((cpu.pc, cpu.cycle_count), (0x8002, u64::MAX - 3));
}

#[test]
fn run_collects_the_trace_in_order() {
    let mut cpu = machine(0x8000, &[0xA2, 0x05, 0xCA, 0xD0, 0xFD, 0xEA]);
    cpu.enable_logging();
    let mut trace = vec![String::from("first")];
    assert_eq!(cpu.run(7 + 2 + 5 * 2 + 4 * 3 + 2, &mut trace), Stop::BudgetReached);
    assert_eq!(cpu.pc, 0x8005);
    assert_eq!(trace.len(), 1 + 1 + 5 * 2);
    assert_eq!(trace[0], "first");
    assert_eq!(trace[1], "8000  A2 05     LDX #$05                        A:00 X:00 Y:00 P:24 SP:FD PPU:  0, 21 CYC:7");
    assert_eq!(trace[2], "8002  CA        DEX                             A:00 X:05 Y:00 P:24 SP:FD PPU:  0, 27 CYC:9");
    assert_eq!(trace[3], "8003  D0 FD     BNE $8002                       A:00 X:04 Y:00 P:24 SP:FD PPU:  0, 33 CYC:11");
    assert_eq!(trace[11], "8003  D0 FD     BNE $8002                       A:00 X:00 Y:00 P:26 SP:FD PPU:  0, 93 CYC:31");
    let same = {
        let mut other = machine(0x8000, &[0xA2, 0x05, 0xCA, 0xD0, 0xFD, 0xEA]);
        other.enable_logging();
        let mut lines = Vec::new();
        while other.pc != 0x8005 {
            lines.push(other.step().unwrap());
        }
        lines
    };
    assert_eq!(&trace[1..], &same[..]);
}
