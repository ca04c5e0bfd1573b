use vstd::prelude::*;
use vstd::string::*;

verus! {

/// The digit for `d` in base sixteen, capital letters above nine.
pub open spec fn digit_char(d: int) -> char {
    if d == 0 {
        '0'
    } else if d == 1 {
        '1'
    } else if d == 2 {
        '2'
    } else if d == 3 {
        '3'
    } else if d == 4 {
        '4'
    } else if d == 5 {
        '5'
    } else if d == 6 {
        '6'
    } else if d == 7 {
        '7'
    } else if d == 8 {
        '8'
    } else if d == 9 {
        '9'
    } else if d == 10 {
        'A'
    } else if d == 11 {
        'B'
    } else if d == 12 {
        'C'
    } else if d == 13 {
        'D'
    } else if d == 14 {
        'E'
    } else {
        'F'
    }
}

/// `v` as two hexadecimal digits.
pub open spec fn hex2(v: u8) -> Seq<char> {
    seq![digit_char(v as int / 16), digit_char(v as int % 16)]
}

/// `v` as four hexadecimal digits.
pub open spec fn hex4(v: u16) -> Seq<char> {
    hex2((v / 256) as u8) + hex2((v % 256) as u8)
}

/// `v` in hexadecimal with as many digits as it needs, but at least two.
pub open spec fn hex_min2(v: u16) -> Seq<char> {
    if v < 0x100 {
        hex2(v as u8)
    } else if v < 0x1000 {
        seq![digit_char(v as int / 256)] + hex2((v % 256) as u8)
    } else {
        hex4(v)
    }
}

/// `n` in decimal, without leading zeros.
pub open spec fn dec(n: nat) -> Seq<char>
    decreases n,
{
    if n < 10 {
        seq![digit_char(n as int)]
    } else {
        dec(n / 10).push(digit_char((n % 10) as int))
    }
}

/// `n` spaces.
pub open spec fn spaces(n: nat) -> Seq<char> {
    Seq::new(n, |i: int| ' ')
}

/// `s` with spaces in front until it is `width` characters long; `s` itself
/// where it is that long already.
pub open spec fn pad_left(s: Seq<char>, width: nat) -> Seq<char> {
    if s.len() < width {
        spaces((width - s.len()) as nat) + s
    } else {
        s
    }
}

/// `s` with spaces behind it until it is `width` characters long; `s` itself
/// where it is that long already.
pub open spec fn pad_right(s: Seq<char>, width: nat) -> Seq<char> {
    if s.len() < width {
        s + spaces((width - s.len()) as nat)
    } else {
        s
    }
}

fn hex_digit(d: u8) -> (s: &'static str)
    requires
        d < 16,
    ensures
        s@ == seq![digit_char(d as int)],
{
    proof {
        reveal_strlit("0");
        reveal_strlit("1");
        reveal_strlit("2");
        reveal_strlit("3");
        reveal_strlit("4");
        reveal_strlit("5");
        reveal_strlit("6");
        reveal_strlit("7");
        reveal_strlit("8");
        reveal_strlit("9");
        reveal_strlit("A");
        reveal_strlit("B");
        reveal_strlit("C");
        reveal_strlit("D");
        reveal_strlit("E");
        reveal_strlit("F");
    }
    let s = match d {
        0 => "0",
        1 => "1",
        2 => "2",
        3 => "3",
        4 => "4",
        5 => "5",
        6 => "6",
        7 => "7",
        8 => "8",
        9 => "9",
        10 => "A",
        11 => "B",
        12 => "C",
        13 => "D",
        14 => "E",
        _ => "F",
    };
    assert(s@ =~= seq![digit_char(d as int)]);
    s
}

/// Appends `v` as two hexadecimal digits.
pub fn push_hex2(out: &mut String, v: u8)
    ensures
        final(out)@ == old(out)@ + hex2(v),
{
    out.append(hex_digit(v / 16));
    out.append(hex_digit(v % 16));
    assert(out@ =~= old(out)@ + hex2(v));
}

/// Appends `v` as four hexadecimal digits.
pub fn push_hex4(out: &mut String, v: u16)
    ensures
        final(out)@ == old(out)@ + hex4(v),
{
    push_hex2(out, (v / 256) as u8);
    push_hex2(out, (v % 256) as u8);
    assert(out@ =~= old(out)@ + hex4(v));
}

/// Appends `v` in hexadecimal, two digits or more.
pub fn push_hex_min2(out: &mut String, v: u16)
    ensures
        final(out)@ == old(out)@ + hex_min2(v),
{
    if v < 0x100 {
        push_hex2(out, v as u8);
    } else if v < 0x1000 {
        out.append(hex_digit((v / 256) as u8));
        push_hex2(out, (v % 256) as u8);
        assert(out@ =~= old(out)@ + hex_min2(v));
    } else {
        push_hex4(out, v);
    }
}

/// Appends `n` in decimal.
pub fn push_dec(out: &mut String, n: u64)
    ensures
        final(out)@ == old(out)@ + dec(n as nat),
    decreases n,
{
    if n >= 10 {
        push_dec(out, n / 10);
    }
    out.append(hex_digit((n % 10) as u8));
    assert(out@ =~= old(out)@ + dec(n as nat));
}

/// Appends `n` spaces.
pub fn push_spaces(out: &mut String, n: usize)
    ensures
        final(out)@ == old(out)@ + spaces(n as nat),
{
    proof {
        reveal_strlit(" ");
    }
    let mut i: usize = 0;
    assert(out@ =~= old(out)@ + spaces(0));
    while i < n
        invariant
            i <= n,
            out@ == old(out)@ + spaces(i as nat),
            " "@ == seq![' '],
        decreases n - i,
    {
        let ghost before = out@;
        out.append(" ");
        i += 1;
        assert(out@ =~= old(out)@ + spaces(i as nat));
    }
}

/// Appends `s`, with spaces in front of it where it is shorter than `width`.
pub fn push_padded_left(out: &mut String, s: &str, width: usize)
    ensures
        final(out)@ == old(out)@ + pad_left(s@, width as nat),
{
    let len = s.unicode_len();
    if len < width {
        push_spaces(out, width - len);
    }
    out.append(s);
    assert(out@ =~= old(out)@ + pad_left(s@, width as nat));
}

/// Appends `s`, with spaces behind it where it is shorter than `width`.
pub fn push_padded_right(out: &mut String, s: &str, width: usize)
    ensures
        final(out)@ == old(out)@ + pad_right(s@, width as nat),
{
    let len = s.unicode_len();
    out.append(s);
    if len < width {
        push_spaces(out, width - len);
    }
    assert(out@ =~= old(out)@ + pad_right(s@, width as nat));
}

} // verus!
