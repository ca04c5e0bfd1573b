use nes::text::{push_dec, push_hex2, push_hex4, push_hex_min2, push_padded_left, push_padded_right, push_spaces};

#[test]
fn hex2_is_two_capital_digits() {
    let mut s = String::new();
    push_hex2(&mut s, 0x00);
    push_hex2(&mut s, 0x0A);
    push_hex2(&mut s, 0xF5);
    push_hex2(&mut s, 0xFF);
    assert_eq!(s, "000AF5FF");
}

#[test]
fn hex4_is_four_capital_digits() {
    let mut s = String::from("$");
    push_hex4(&mut s, 0x0000);
    push_hex4(&mut s, 0x01AB);
    push_hex4(&mut s, 0xFFFF);
    assert_eq!(s, "$000001ABFFFF");
}

#[test]
fn hex_min2_grows_with_the_value() {
    let mut s = String::new();
    push_hex_min2(&mut s, 0x7);
    s.push(' ');
    push_hex_min2(&mut s, 0xFF);
    s.push(' ');
    push_hex_min2(&mut s, 0x100);
    s.push(' ');
    push_hex_min2(&mut s, 0xFFF);
    s.push(' ');
    push_hex_min2(&mut s, 0x1000);
    assert_eq!(s, "07 FF 100 FFF 1000");
}

#[test]
fn dec_has_no_leading_zeros() {
    let mut s = String::new();
    push_dec(&mut s, 0);
    s.push(' ');
    push_dec(&mut s, 7);
    s.push(' ');
    push_dec(&mut s, 10);
    s.push(' ');
    push_dec(&mut s, 26554);
    s.push(' ');
    push_dec(&mut s, u64::MAX);
    assert_eq!(s, "0 7 10 26554 18446744073709551615");
}

#[test]
fn spaces_and_padding() {
    let mut s = String::from("[");
    push_spaces(&mut s, 0);
    push_spaces(&mut s, 3);
    s.push('|');
    push_padded_left(&mut s, "7", 3);
    s.push('|');
    push_padded_left(&mut s, "*NOP", 4);
    s.push('|');
    push_padded_left(&mut s, "12345", 3);
    s.push('|');
    push_padded_right(&mut s, "A9", 8);
    s.push('|');
    push_padded_right(&mut s, "4C F5 C5", 8);
    s.push('|');
    push_padded_right(&mut s, "123456789", 8);
    s.push(']');
    assert_eq!(s, "[   |  7|*NOP|12345|A9      |4C F5 C5|123456789]");
}
