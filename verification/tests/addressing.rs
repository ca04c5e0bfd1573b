use nes::bus::Bus;
use nes::cpu::addressing::AddressingMode;
use nes::cpu::CPU;

fn cpu_with(bytes: &[(u16, u8)]) -> CPU {
    let mut bus = Bus::new();
    for &(addr, value) in bytes {
        bus.write(addr, value);
    }
    CPU::new(bus)
}

#[test]
fn power_on_state() {
    let cpu = CPU::new(Bus::new());
    assert_eq!((cpu.acc, cpu.x, cpu.y, cpu.sp, cpu.pc), (0, 0, 0, 0xFD, 0));
    assert_eq!(cpu.status.bits(), 0x24);
    assert_eq!(cpu.cycle_count, 0);
    assert!(!cpu.logging_enabled);
}

#[test]
fn modes_without_an_operand_resolve_to_nothing() {
    let cpu = cpu_with(&[]);
    assert_eq!(cpu.get_absolute_addr(AddressingMode::Implicit, 0x8000), None);
    assert_eq!(cpu.get_absolute_addr(AddressingMode::Accumulator, 0x8000), None);
}

#[test]
fn immediate_and_relative_resolve_to_the_operand_byte() {
    let cpu = cpu_with(&[(0x8000, 0x42)]);
    assert_eq!(cpu.get_absolute_addr(AddressingMode::Immediate, 0x8000), Some((0x8000, false)));
    assert_eq!(cpu.get_absolute_addr(AddressingMode::Relative, 0x8000), Some((0x8000, false)));
}

#[test]
fn zero_page_modes_wrap_within_the_page() {
    let mut cpu = cpu_with(&[(0x8000, 0xF0)]);
    cpu.x = 0x20;
    cpu.y = 0x0F;
    assert_eq!(cpu.get_absolute_addr(AddressingMode::ZeroPage, 0x8000), Some((0x00F0, false)));
    assert_eq!(cpu.get_absolute_addr(AddressingMode::ZeroPageX, 0x8000), Some((0x0010, false)));
    assert_eq!(cpu.get_absolute_addr(AddressingMode::ZeroPageY, 0x8000), Some((0x00FF, false)));
}

#[test]
fn absolute_reads_a_little_endian_word() {
    let cpu = cpu_with(&[(0x8000, 0x34), (0x8001, 0x12)]);
    assert_eq!(cpu.get_absolute_addr(AddressingMode::Absolute, 0x8000), Some((0x1234, false)));
    assert_eq!(cpu.read_16(0x8000), 0x1234);
}

#[test]
fn read_16_wraps_at_the_top_of_memory() {
    let cpu = cpu_with(&[(0xFFFF, 0xCD), (0x0000, 0xAB)]);
    assert_eq!(cpu.read_16(0xFFFF), 0xABCD);
}

#[test]
fn page_cross_penalty_on_indexed_reads() {
    let mut cpu = cpu_with(&[(0x8000, 0xFF), (0x8001, 0x12), (0x8010, 0x00), (0x8011, 0x12)]);
    cpu.x = 1;
    cpu.y = 1;
    assert_eq!(cpu.get_absolute_addr(AddressingMode::AbsoluteX, 0x8000), Some((0x1300, true)));
    assert_eq!(cpu.get_absolute_addr(AddressingMode::AbsoluteY, 0x8000), Some((0x1300, true)));
    assert_eq!(cpu.get_absolute_addr(AddressingMode::AbsoluteX, 0x8010), Some((0x1201, false)));
    assert_eq!(cpu.get_absolute_addr(AddressingMode::AbsoluteY, 0x8010), Some((0x1201, false)));
}

#[test]
fn write_variants_always_owe_the_cycle() {
    let mut cpu = cpu_with(&[(0x8000, 0xFF), (0x8001, 0x12), (0x8010, 0x00), (0x8011, 0x12)]);
    cpu.x = 1;
    cpu.y = 1;
    assert_eq!(cpu.get_absolute_addr(AddressingMode::AbsoluteXW, 0x8000), Some((0x1300, true)));
    assert_eq!(cpu.get_absolute_addr(AddressingMode::AbsoluteYW, 0x8000), Some((0x1300, true)));
    assert_eq!(cpu.get_absolute_addr(AddressingMode::AbsoluteXW, 0x8010), Some((0x1201, true)));
    assert_eq!(cpu.get_absolute_addr(AddressingMode::AbsoluteYW, 0x8010), Some((0x1201, true)));
}

#[test]
fn absolute_indexed_wraps_at_the_top_of_memory() {
    let mut cpu = cpu_with(&[(0x8000, 0xFF), (0x8001, 0xFF)]);
    cpu.x = 2;
    assert_eq!(cpu.get_absolute_addr(AddressingMode::AbsoluteX, 0x8000), Some((0x0001, true)));
}

#[test]
fn indirect_jump_stays_in_the_pointer_page() {
    let cpu = cpu_with(&[
        (0x8000, 0xFF),
        (0x8001, 0x30),
        (0x30FF, 0x80),
        (0x3000, 0x50),
        (0x3100, 0x40),
    ]);
    assert_eq!(cpu.get_absolute_addr(AddressingMode::Indirect, 0x8000), Some((0x5080, false)));
    assert_eq!(cpu.read_16_jump(0x30FF), 0x5080);
}

#[test]
fn indirect_jump_within_a_page_reads_the_next_byte() {
    let cpu = cpu_with(&[(0x8000, 0x00), (0x8001, 0x02), (0x0200, 0x7E), (0x0201, 0xDB)]);
    assert_eq!(cpu.get_absolute_addr(AddressingMode::Indirect, 0x8000), Some((0xDB7E, false)));
}

#[test]
fn indexed_indirect_adds_x_before_the_pointer_is_read() {
    let mut cpu = cpu_with(&[(0x8000, 0xFE), (0x00FF, 0x34), (0x0000, 0x12)]);
    cpu.x = 1;
    assert_eq!(cpu.get_absolute_addr(AddressingMode::IndexedIndirect, 0x8000), Some((0x1234, false)));
}

#[test]
fn indirect_indexed_adds_y_after_the_pointer_is_read() {
    let mut cpu = cpu_with(&[(0x8000, 0x80), (0x0080, 0xFF), (0x0081, 0x02), (0x8010, 0x90), (0x0090, 0x00), (0x0091, 0x03)]);
    cpu.y = 1;
    assert_eq!(cpu.get_absolute_addr(AddressingMode::IndirectIndexed, 0x8000), Some((0x0300, true)));
    assert_eq!(cpu.get_absolute_addr(AddressingMode::IndirectIndexedW, 0x8000), Some((0x0300, true)));
    assert_eq!(cpu.get_absolute_addr(AddressingMode::IndirectIndexed, 0x8010), Some((0x0301, false)));
    assert_eq!(cpu.get_absolute_addr(AddressingMode::IndirectIndexedW, 0x8010), Some((0x0301, true)));
}

#[test]
fn zero_page_pointer_wraps_within_the_page() {
    let cpu = cpu_with(&[(0x00FF, 0x34), (0x0000, 0x12), (0x0100, 0x99)]);
    assert_eq!(cpu.read_16_zero_page(0xFF), 0x1234);
}

#[test]
fn operand_address_is_none_without_a_memory_operand() {
    let mut cpu = cpu_with(&[(0x8000, 0x34), (0x8001, 0x12)]);
    cpu.pc = 0x8000;
    assert_eq!(cpu.get_operand_addr(AddressingMode::Immediate), None);
    assert_eq!(cpu.get_operand_addr(AddressingMode::Accumulator), None);
    assert_eq!(cpu.get_operand_addr(AddressingMode::Implicit), None);
    assert_eq!(cpu.get_operand_addr(AddressingMode::ZeroPage), Some(0x0034));
    assert_eq!(cpu.get_operand_addr(AddressingMode::Absolute), Some(0x1234));
}

#[test]
fn tick_moves_counter_and_picture_unit_together() {
    let mut cpu = CPU::new(Bus::new());
    cpu.tick(7);
    assert_eq!(cpu.cycle_count, 7);
    assert_eq!((cpu.bus.ppu.scanline, cpu.bus.ppu.cycle), (0, 21));
    cpu.tick(107);
    assert_eq!(cpu.cycle_count, 114);
    assert_eq!((cpu.bus.ppu.scanline, cpu.bus.ppu.cycle), (1, 1));
}

#[test]
fn picture_unit_starts_a_new_frame_after_262_scanlines() {
    let mut bus = Bus::new();
    bus.ppu.scanline = 261;
    bus.ppu.cycle = 339;
    bus.tick(1);
    assert_eq!((bus.ppu.scanline, bus.ppu.cycle), (0, 1));
}

#[test]
fn bus_reads_back_what_was_written() {
    let mut bus = Bus::new();
    assert_eq!(bus.read(0x1234), 0);
    bus.write(0x1234, 0x56);
    bus.write(0xFFFF, 0x78);
    assert_eq!(bus.read(0x1234), 0x56);
    assert_eq!(bus.read(0xFFFF), 0x78);
    assert_eq!(bus.read(0x1235), 0);
}

#[test]
fn load_copies_as_far_as_memory_reaches() {
    let mut bus = Bus::new();
    bus.load(0xFFFE, &[1, 2, 3, 4]);
    assert_eq!(bus.read(0xFFFE), 1);
    assert_eq!(bus.read(0xFFFF), 2);
    assert_eq!(bus.read(0x0000), 0);
    bus.load(0x8000, &[0xA9, 0x10]);
    assert_eq!(bus.read(0x8000), 0xA9);
    assert_eq!(bus.read(0x8001), 0x10);
    assert_eq!(bus.read(0x8002), 0);
}

#[test]
fn cpu_write_changes_only_memory() {
    let mut cpu = CPU::new(Bus::new());
    cpu.write(0x0200, 0x99);
    assert_eq!(cpu.read(0x0200), 0x99);
    assert_eq!(cpu.cycle_count, 0);
    assert_eq!(cpu.status.bits(), 0x24);
}
