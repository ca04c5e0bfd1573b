use nes::bus::Bus;
use nes::cpu::addressing::AddressingMode;
use nes::cpu::op::Op;
use nes::cpu::status::Status;
use nes::cpu::tracer::{Loggable, TraceLine};
use nes::cpu::CPU;

fn traced(pc: u16, memory: &[(u16, u8)], regs: (u8, u8, u8, u8, u8), ppu: (u16, u16), cycles: u64) -> String {
    let mut bus = Bus::new();
    for &(addr, value) in memory {
        bus.write(addr, value);
    }
    bus.ppu.scanline = ppu.0;
    bus.ppu.cycle = ppu.1;
    let mut cpu = CPU::new(bus);
    cpu.pc = pc;
    cpu.acc = regs.0;
    cpu.x = regs.1;
    cpu.y = regs.2;
    cpu.status = Status::from_bits_truncate(regs.3);
    cpu.sp = regs.4;
    cpu.cycle_count = cycles;
    cpu.enable_logging();
    cpu.log().unwrap()
}

#[test]
fn trace_jump_absolute() {
    let line = traced(0xC000, &[(0xC000, 0x4C), (0xC001, 0xF5), (0xC002, 0xC5)], (0x00, 0x00, 0x00, 0x24, 0xFD), (0, 21), 7);
    assert_eq!(line, "C000  4C F5 C5  JMP $C5F5                       A:00 X:00 Y:00 P:24 SP:FD PPU:  0, 21 CYC:7");
}

#[test]
fn trace_load_immediate() {
    let line = traced(0xC5F5, &[(0xC5F5, 0xA2), (0xC5F6, 0x00)], (0x00, 0x00, 0x00, 0x24, 0xFD), (0, 30), 10);
    assert_eq!(line, "C5F5  A2 00     LDX #$00                        A:00 X:00 Y:00 P:24 SP:FD PPU:  0, 30 CYC:10");
}

#[test]
fn trace_store_zero_page() {
    let line = traced(0xC5F7, &[(0xC5F7, 0x86), (0xC5F8, 0x00)], (0x00, 0x00, 0x00, 0x26, 0xFD), (0, 36), 12);
    assert_eq!(line, "C5F7  86 00     STX $00 = 00                    A:00 X:00 Y:00 P:26 SP:FD PPU:  0, 36 CYC:12");
}

#[test]
fn trace_jump_to_subroutine() {
    let line = traced(0xC5FD, &[(0xC5FD, 0x20), (0xC5FE, 0x2D), (0xC5FF, 0xC7)], (0x00, 0x00, 0x00, 0x26, 0xFD), (0, 63), 21);
    assert_eq!(line, "C5FD  20 2D C7  JSR $C72D                       A:00 X:00 Y:00 P:26 SP:FD PPU:  0, 63 CYC:21");
}

#[test]
fn trace_implied() {
    let line = traced(0xC72D, &[(0xC72D, 0xEA)], (0x00, 0x00, 0x00, 0x26, 0xFB), (0, 81), 27);
    assert_eq!(line, "C72D  EA        NOP                             A:00 X:00 Y:00 P:26 SP:FB PPU:  0, 81 CYC:27");
}

#[test]
fn trace_accumulator() {
    let line = traced(0xD0B5, &[(0xD0B5, 0x4A)], (0x01, 0x00, 0x00, 0x65, 0xFB), (30, 101), 3442);
    assert_eq!(line, "D0B5  4A        LSR A                           A:01 X:00 Y:00 P:65 SP:FB PPU: 30,101 CYC:3442");
}

#[test]
fn trace_branch_forward() {
    let line = traced(0xC72F, &[(0xC72F, 0xB0), (0xC730, 0x04)], (0x00, 0x00, 0x00, 0x27, 0xFB), (0, 93), 31);
    assert_eq!(line, "C72F  B0 04     BCS $C735                       A:00 X:00 Y:00 P:27 SP:FB PPU:  0, 93 CYC:31");
}

#[test]
fn trace_branch_backward() {
    let line = traced(0xC000, &[(0xC000, 0xD0), (0xC001, 0xFE)], (0x00, 0x00, 0x00, 0x24, 0xFD), (0, 0), 0);
    assert_eq!(line, "C000  D0 FE     BNE $C000                       A:00 X:00 Y:00 P:24 SP:FD PPU:  0,  0 CYC:0");
}

#[test]
fn trace_undocumented_marker() {
    let line = traced(0xC6BD, &[(0xC6BD, 0x04), (0xC6BE, 0xA9)], (0x55, 0x11, 0x53, 0xA4, 0xFB), (117, 161), 13383);
    assert_eq!(line, "C6BD  04 A9    *NOP $A9 = 00                    A:55 X:11 Y:53 P:A4 SP:FB PPU:117,161 CYC:13383");
}

#[test]
fn trace_zero_page_x() {
    let line = traced(0xC000, &[(0xC000, 0xB4), (0xC001, 0x33), (0x0036, 0xAA)], (0x00, 0x03, 0x00, 0x24, 0xFD), (0, 0), 0);
    assert_eq!(line, "C000  B4 33     LDY $33,X @ 36 = AA             A:00 X:03 Y:00 P:24 SP:FD PPU:  0,  0 CYC:0");
}

#[test]
fn trace_zero_page_y() {
    let line = traced(0xC000, &[(0xC000, 0xB6), (0xC001, 0xFF), (0x0001, 0x12)], (0x00, 0x00, 0x02, 0x24, 0xFD), (0, 0), 0);
    assert_eq!(line, "C000  B6 FF     LDX $FF,Y @ 01 = 12             A:00 X:00 Y:02 P:24 SP:FD PPU:  0,  0 CYC:0");
}

#[test]
fn trace_indexed_indirect() {
    let line = traced(0xCFF2, &[(0xCFF2, 0xA1), (0xCFF3, 0x80), (0x0080, 0x00), (0x0081, 0x02), (0x0200, 0x5A)], (0x5C, 0x00, 0x69, 0x27, 0x80), (77, 36), 8792);
    assert_eq!(line, "CFF2  A1 80     LDA ($80,X) @ 80 = 0200 = 5A    A:5C X:00 Y:69 P:27 SP:80 PPU: 77, 36 CYC:8792");
}

#[test]
fn trace_indirect_indexed() {
    let line = traced(0xD922, &[(0xD922, 0xB1), (0xD923, 0x89), (0x0089, 0x00), (0x008A, 0x03), (0x0300, 0x89)], (0x00, 0x65, 0x00, 0x27, 0x80), (84, 212), 9636);
    assert_eq!(line, "D922  B1 89     LDA ($89),Y = 0300 @ 0300 = 89  A:00 X:65 Y:00 P:27 SP:80 PPU: 84,212 CYC:9636");
}

#[test]
fn trace_indirect_indexed_wraps() {
    let line = traced(0xD940, &[(0xD940, 0xB1), (0xD941, 0x97), (0x0097, 0xFF), (0x0098, 0xFF), (0x0033, 0xA3)], (0x00, 0x65, 0x34, 0x27, 0x80), (0, 0), 0);
    assert_eq!(line, "D940  B1 97     LDA ($97),Y = FFFF @ 0033 = A3  A:00 X:65 Y:34 P:27 SP:80 PPU:  0,  0 CYC:0");
}

#[test]
fn trace_jump_indirect() {
    let line = traced(0xDB7B, &[(0xDB7B, 0x6C), (0xDB7C, 0x00), (0xDB7D, 0x02), (0x0200, 0x7E), (0x0201, 0xDB)], (0xDB, 0x07, 0x00, 0xE5, 0xFB), (93, 187), 10593);
    assert_eq!(line, "DB7B  6C 00 02  JMP ($0200) = DB7E              A:DB X:07 Y:00 P:E5 SP:FB PPU: 93,187 CYC:10593");
}

#[test]
fn trace_jump_indirect_at_page_end() {
    let line = traced(0xC000, &[(0xC000, 0x6C), (0xC001, 0xFF), (0xC002, 0x30), (0x30FF, 0x80), (0x3000, 0x50), (0x3100, 0x40)], (0x00, 0x00, 0x00, 0x24, 0xFD), (0, 0), 0);
    assert_eq!(line, "C000  6C FF 30  JMP ($30FF) = 5080              A:00 X:00 Y:00 P:24 SP:FD PPU:  0,  0 CYC:0");
}

#[test]
fn trace_absolute() {
    let line = traced(0xC7E5, &[(0xC7E5, 0x8D), (0xC7E6, 0x00), (0xC7E7, 0x02), (0x0200, 0x77)], (0x00, 0x00, 0x00, 0x24, 0xFD), (0, 0), 0);
    assert_eq!(line, "C7E5  8D 00 02  STA $0200 = 77                  A:00 X:00 Y:00 P:24 SP:FD PPU:  0,  0 CYC:0");
}

#[test]
fn trace_absolute_x_write() {
    let line = traced(0xC000, &[(0xC000, 0x9D), (0xC001, 0x00), (0xC002, 0x02), (0x0205, 0x01)], (0x00, 0x05, 0x00, 0x24, 0xFD), (0, 0), 0);
    assert_eq!(line, "C000  9D 00 02  STA $0200,X @ 0205 = 01         A:00 X:05 Y:00 P:24 SP:FD PPU:  0,  0 CYC:0");
}

#[test]
fn trace_absolute_y() {
    let line = traced(0xD9A6, &[(0xD9A6, 0xB9), (0xD9A7, 0x00), (0xD9A8, 0x03), (0x0300, 0x89)], (0x00, 0x00, 0x00, 0x27, 0x80), (0, 0), 0);
    assert_eq!(line, "D9A6  B9 00 03  LDA $0300,Y @ 0300 = 89         A:00 X:00 Y:00 P:27 SP:80 PPU:  0,  0 CYC:0");
}

#[test]
fn trace_undocumented_absolute_y_write() {
    let line = traced(0xC000, &[(0xC000, 0xDB), (0xC001, 0xFF), (0xC002, 0x04), (0x0500, 0xEB)], (0x00, 0x00, 0x01, 0x24, 0xFD), (0, 0), 0);
    assert_eq!(line, "C000  DB FF 04 *DCP $04FF,Y @ 0500 = EB         A:00 X:00 Y:01 P:24 SP:FD PPU:  0,  0 CYC:0");
}

#[test]
fn trace_wide_clocks() {
    let line = traced(0xC000, &[(0xC000, 0xEA)], (0xFF, 0xFE, 0xFD, 0xFC, 0xFB), (241, 340), 18446744073709551615);
    assert_eq!(line, "C000  EA        NOP                             A:FF X:FE Y:FD P:FC SP:FB PPU:241,340 CYC:18446744073709551615");
}

#[test]
fn trace_operand_bytes_wrap_at_the_top_of_memory() {
    let line = traced(0xFFFF, &[(0xFFFF, 0x4C), (0x0000, 0x34), (0x0001, 0x12)], (0x00, 0x00, 0x00, 0x24, 0xFD), (0, 0), 0);
    assert_eq!(line, "FFFF  4C 34 12  JMP $1234                       A:00 X:00 Y:00 P:24 SP:FD PPU:  0,  0 CYC:0");
}

#[test]
fn no_line_while_tracing_is_off() {
    let mut bus = Bus::new();
    bus.write(0, 0xEA);
    let cpu = CPU::new(bus);
    assert_eq!(cpu.log(), None);
}

#[test]
fn tracing_changes_nothing() {
    let mut bus = Bus::new();
    bus.load(0xC000, &[0x3D, 0xFF, 0x12]);
    let mut cpu = CPU::new(bus);
    cpu.pc = 0xC000;
    cpu.x = 1;
    cpu.enable_logging();
    let first = cpu.log().unwrap();
    let second = cpu.log().unwrap();
    assert_eq!(first, second);
    assert_eq!(cpu.cycle_count, 0);
    assert_eq!((cpu.bus.ppu.scanline, cpu.bus.ppu.cycle), (0, 0));
    assert_eq!(cpu.pc, 0xC000);
    assert_eq!(first, "C000  3D FF 12  AND $12FF,X @ 1300 = 00         A:00 X:01 Y:00 P:24 SP:FD PPU:  0,  0 CYC:0");
}

#[test]
fn trace_gathers_operand_and_registers() {
    let mut bus = Bus::new();
    bus.load(0x8000, &[0x31, 0x10]);
    bus.load(0x0010, &[0xFF, 0x02]);
    bus.write(0x0300, 0x5A);
    let mut cpu = CPU::new(bus);
    cpu.pc = 0x8000;
    cpu.y = 1;
    cpu.acc = 0x0F;
    cpu.tick(7);
    let t = cpu.trace();
    assert_eq!(t.pc, 0x8000);
    assert_eq!(t.op.hex, 0x31);
    assert_eq!(t.op.name, "AND");
    assert_eq!((t.lo, t.hi), (0x10, 0));
    assert_eq!((t.mem_addr, t.stored_value, t.jump_target), (0x0300, 0x5A, 0));
    assert_eq!((t.acc, t.x, t.y, t.status, t.sp), (0x0F, 0, 1, 0x24, 0xFD));
    assert_eq!((t.scanline, t.cycle, t.cycle_count), (0, 21, 7));
}

#[test]
fn render_of_a_hand_made_line() {
    let t = TraceLine {
        pc: 0x0123,
        op: Op::new(0x6c, "JMP", AddressingMode::Indirect, 5, 3),
        lo: 0xCD,
        hi: 0xAB,
        mem_addr: 0,
        stored_value: 0,
        jump_target: 0x4567,
        acc: 0x89,
        x: 0xAB,
        y: 0xCD,
        status: 0xEF,
        sp: 0x01,
        scanline: 7,
        cycle: 100,
        cycle_count: 1234567890,
    };
    assert_eq!(t.render(), "0123  6C CD AB  JMP ($ABCD) = 4567              A:89 X:AB Y:CD P:EF SP:01 PPU:  7,100 CYC:1234567890");
}

#[test]
fn render_shows_a_zero_page_address_beyond_the_page_in_full() {
    let t = TraceLine {
        pc: 0,
        op: Op::new(0xa5, "LDA", AddressingMode::ZeroPage, 3, 2),
        lo: 0x10,
        hi: 0,
        mem_addr: 0x0ABC,
        stored_value: 0x01,
        jump_target: 0,
        acc: 0,
        x: 0,
        y: 0,
        status: 0,
        sp: 0,
        scanline: 0,
        cycle: 0,
        cycle_count: 0,
    };
    assert_eq!(t.render(), "0000  A5 10     LDA $ABC = 01                   A:00 X:00 Y:00 P:00 SP:00 PPU:  0,  0 CYC:0");
}
