use nes::cpu::status::Status;
use nes::ppu::mask::Mask;
use nes::ppu::PPU;

#[test]
fn status_flags_are_the_eight_bits() {
    assert_eq!(Status::CARRY, 0x01);
    assert_eq!(Status::ZERO, 0x02);
    assert_eq!(Status::INTERRUPT_DISABLE, 0x04);
    assert_eq!(Status::DECIMAL, 0x08);
    assert_eq!(Status::BREAK, 0x10);
    assert_eq!(Status::UNUSED, 0x20);
    assert_eq!(Status::OVERFLOW, 0x40);
    assert_eq!(Status::NEGATIVE, 0x80);
}

#[test]
fn status_at_power_on_has_unused_and_interrupt_disable() {
    let status = Status::new();
    assert_eq!(status.bits(), 0x24);
    assert!(status.contains(Status::UNUSED));
    assert!(status.contains(Status::INTERRUPT_DISABLE));
    assert!(!status.contains(Status::CARRY));
}

#[test]
fn status_set_writes_one_flag() {
    let mut status = Status::from_bits_truncate(0x24);
    status.set(Status::CARRY, true);
    assert_eq!(status.bits(), 0x25);
    status.set(Status::CARRY, true);
    assert_eq!(status.bits(), 0x25);
    status.set(Status::INTERRUPT_DISABLE, false);
    assert_eq!(status.bits(), 0x21);
    status.insert(Status::NEGATIVE);
    assert_eq!(status.bits(), 0xA1);
    status.remove(Status::UNUSED);
    assert_eq!(status.bits(), 0x81);
    assert!(status.contains(Status::NEGATIVE));
    assert!(!status.contains(Status::ZERO));
}

#[test]
fn mask_new_is_empty() {
    assert_eq!(Mask::new().bits(), 0);
    assert_eq!(Mask::default().bits(), 0);
    assert_eq!(Mask::new(), Mask::from_bits_truncate(0));
}

#[test]
fn mask_flags_are_the_eight_bits() {
    assert_eq!(Mask::GREYSCALE, 1 << 0);
    assert_eq!(Mask::SHOW_LEFT_BACKGROUND, 1 << 1);
    assert_eq!(Mask::SHOW_LEFT_SPRITES, 1 << 2);
    assert_eq!(Mask::SHOW_BACKGROUND, 1 << 3);
    assert_eq!(Mask::SHOW_SPRITES, 1 << 4);
    assert_eq!(Mask::EMPHASIZE_RED, 1 << 5);
    assert_eq!(Mask::EMPHASIZE_GREEN, 1 << 6);
    assert_eq!(Mask::EMPHASIZE_BLUE, 1 << 7);
}

#[test]
fn mask_set_and_contains() {
    let mut mask = Mask::new();
    mask.set(Mask::SHOW_BACKGROUND, true);
    mask.set(Mask::SHOW_SPRITES, true);
    assert_eq!(mask.bits(), 0x18);
    assert!(mask.contains(Mask::SHOW_SPRITES));
    assert!(!mask.contains(Mask::GREYSCALE));
    mask.set(Mask::SHOW_BACKGROUND, false);
    assert_eq!(mask.bits(), 0x10);
}

#[test]
fn picture_unit_counts_three_dots_a_cycle() {
    let mut ppu = PPU::new();
    assert_eq!((ppu.scanline, ppu.cycle, ppu.mask.bits()), (0, 0, 0));
    ppu.tick(1);
    assert_eq!((ppu.scanline, ppu.cycle), (0, 3));
    ppu.tick(255);
    assert_eq!((ppu.scanline, ppu.cycle), (2, 86));
}

#[test]
fn picture_unit_stays_while_no_cycle_passes() {
    let mut ppu = PPU::new();
    ppu.scanline = 300;
    ppu.cycle = 400;
    ppu.tick(0);
    assert_eq!((ppu.scanline, ppu.cycle), (300, 400));
    ppu.tick(1);
    assert_eq!((ppu.scanline, ppu.cycle), (39, 62));
}

#[test]
fn picture_unit_moves_the_same_in_one_part_or_two() {
    for (scanline, cycle) in [(0u16, 0u16), (0, 338), (100, 340), (261, 339), (261, 340)] {
        for first in [1u8, 2, 7, 113, 255] {
            for second in [1u8, 3, 114, 255] {
                let mut parts = PPU::new();
                parts.scanline = scanline;
                parts.cycle = cycle;
                let mut whole = parts;
                parts.tick(first);
                parts.tick(second);
                let total = first as u32 + second as u32;
                whole.tick((total / 2) as u8);
                whole.tick((total - total / 2) as u8);
                assert_eq!((parts.scanline, parts.cycle), (whole.scanline, whole.cycle));
                let dots = scanline as u32 * 341 + cycle as u32 + 3 * total;
                assert_eq!((parts.scanline as u32, parts.cycle as u32), ((dots / 341) % 262, dots % 341));
            }
        }
    }
}
