//! Number formatting for the messages the panel shows.

use vstd::prelude::*;

verus! {

/// The character of a digit below 16, lower-case for the hexadecimal ones.
pub open spec fn digit_char(d: int) -> char {
    if d == 0 {
        '0'
    } else if d == 1 {
        '1'
    } else if d == 2 {
        '2'
    } else if d == 3 {
        '3'
    } else if d == 4 {
        '4'
    } else if d == 5 {
        '5'
    } else if d == 6 {
        '6'
    } else if d == 7 {
        '7'
    } else if d == 8 {
        '8'
    } else if d == 9 {
        '9'
    } else if d == 10 {
        'a'
    } else if d == 11 {
        'b'
    } else if d == 12 {
        'c'
    } else if d == 13 {
        'd'
    } else if d == 14 {
        'e'
    } else {
        'f'
    }
}

/// Decimal digits of `n`, as `{}` prints an unsigned integer.
pub open spec fn decimal(n: nat) -> Seq<char>
    decreases n,
{
    if n < 10 {
        seq![digit_char(n as int)]
    } else {
        decimal(n / 10) + seq![digit_char((n % 10) as int)]
    }
}

/// Four lower-case hexadecimal digits of `n`, as `{:04x}` prints a `u16`.
pub open spec fn hex4(n: u16) -> Seq<char> {
    seq![
        digit_char((n / 4096) as int),
        digit_char(((n / 256) % 16) as int),
        digit_char(((n / 16) % 16) as int),
        digit_char((n % 16) as int),
    ]
}

/// The one-character text of a digit below 16.
pub fn digit_str(d: u32) -> (text: &'static str)
    requires
        d < 16,
    ensures
        text@ == seq![digit_char(d as int)],
{
    let text = match d {
        0 => "0",
        1 => "1",
        2 => "2",
        3 => "3",
        4 => "4",
        5 => "5",
        6 => "6",
        7 => "7",
        8 => "8",
        9 => "9",
        10 => "a",
        11 => "b",
        12 => "c",
        13 => "d",
        14 => "e",
        _ => "f",
    };
    proof {
        reveal_strlit("0");
        reveal_strlit("1");
        reveal_strlit("2");
        reveal_strlit("3");
        reveal_strlit("4");
        reveal_strlit("5");
        reveal_strlit("6");
        reveal_strlit("7");
        reveal_strlit("8");
        reveal_strlit("9");
        reveal_strlit("a");
        reveal_strlit("b");
        reveal_strlit("c");
        reveal_strlit("d");
        reveal_strlit("e");
        reveal_strlit("f");
    }
    text
}

/// Appends the decimal digits of `n` to `out`.
pub fn push_decimal(out: &mut String, n: u64)
    ensures
        final(out)@ == old(out)@ + decimal(n as nat),
    decreases n,
{
    if n >= 10 {
        push_decimal(out, n / 10);
    }
    out.append(digit_str((n % 10) as u32));
    assert(old(out)@ + decimal(n as nat) =~= if n >= 10 {
        old(out)@ + decimal((n / 10) as nat) + seq![digit_char((n % 10) as int)]
    } else {
        old(out)@ + seq![digit_char((n % 10) as int)]
    });
}

/// Appends the four lower-case hexadecimal digits of `n` to `out`.
pub fn push_hex4(out: &mut String, n: u16)
    ensures
        final(out)@ == old(out)@ + hex4(n),
{
    let v = n as u32;
    out.append(digit_str(v / 4096));
    out.append(digit_str((v / 256) % 16));
    out.append(digit_str((v / 16) % 16));
    out.append(digit_str(v % 16));
    assert(out@ =~= old(out)@ + hex4(n));
}

/// The upper-case character of a digit below 16.
pub open spec fn upper_digit_char(d: int) -> char {
    if d == 10 {
        'A'
    } else if d == 11 {
        'B'
    } else if d == 12 {
        'C'
    } else if d == 13 {
        'D'
    } else if d == 14 {
        'E'
    } else if d == 15 {
        'F'
    } else {
        digit_char(d)
    }
}

/// Two upper-case hexadecimal digits of `n`, as `{:02X}` prints a `u8`.
pub open spec fn hex2_upper(n: u8) -> Seq<char> {
    seq![upper_digit_char((n / 16) as int), upper_digit_char((n % 16) as int)]
}

/// The one-character upper-case text of a digit below 16.
pub fn upper_digit_str(d: u32) -> (text: &'static str)
    requires
        d < 16,
    ensures
        text@ == seq![upper_digit_char(d as int)],
{
    if d < 10 {
        return digit_str(d);
    }
    let text = match d {
        10 => "A",
        11 => "B",
        12 => "C",
        13 => "D",
        14 => "E",
        _ => "F",
    };
    proof {
        reveal_strlit("A");
        reveal_strlit("B");
        reveal_strlit("C");
        reveal_strlit("D");
        reveal_strlit("E");
        reveal_strlit("F");
    }
    text
}

/// Appends the two upper-case hexadecimal digits of `n` to `out`.
pub fn push_hex2_upper(out: &mut String, n: u8)
    ensures
        final(out)@ == old(out)@ + hex2_upper(n),
{
    let v = n as u32;
    out.append(upper_digit_str(v / 16));
    out.append(upper_digit_str(v % 16));
    assert(out@ =~= old(out)@ + hex2_upper(n));
}

} // verus!
