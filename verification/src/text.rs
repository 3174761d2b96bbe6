//! Building message text: decimal and hexadecimal renderings of numbers.
use vstd::prelude::*;

verus! {

/// The character of a digit value below 16: `0`-`9`, then `A`-`F`.
pub open spec fn digit_char(d: int) -> char {
    if d < 10 {
        (('0' as int) + d) as char
    } else {
        (('A' as int) + d - 10) as char
    }
}

/// Decimal rendering of `n`, without leading zeros ("0" for zero).
pub open spec fn decimal(n: nat) -> Seq<char>
    decreases n,
{
    if n < 10 {
        seq![digit_char(n as int)]
    } else {
        decimal(n / 10).push(digit_char((n % 10) as int))
    }
}

/// Two upper-case hexadecimal digits of a byte.
pub open spec fn hex_byte(b: u8) -> Seq<char> {
    seq![digit_char(b as int / 16), digit_char(b as int % 16)]
}

/// A one-character string holding the digit of `d`.
fn digit_str(d: u8) -> (s: &'static str)
    requires
        d < 16,
    ensures
        s@ == seq![digit_char(d as int)],
{
    proof {
        reveal_strlit("0");
        reveal_strlit("1");
        reveal_strlit("2");
        reveal_strlit("3");
        reveal_strlit("4");
        reveal_strlit("5");
        reveal_strlit("6");
        reveal_strlit("7");
        reveal_strlit("8");
        reveal_strlit("9");
        reveal_strlit("A");
        reveal_strlit("B");
        reveal_strlit("C");
        reveal_strlit("D");
        reveal_strlit("E");
        reveal_strlit("F");
    }
    match d {
        0 => "0",
        1 => "1",
        2 => "2",
        3 => "3",
        4 => "4",
        5 => "5",
        6 => "6",
        7 => "7",
        8 => "8",
        9 => "9",
        10 => "A",
        11 => "B",
        12 => "C",
        13 => "D",
        14 => "E",
        _ => "F",
    }
}

/// Append the decimal rendering of `n` to `out`.
pub fn push_decimal(out: &mut String, n: u64)
    ensures
        final(out)@ == old(out)@ + decimal(n as nat),
    decreases n,
{
    if n < 10 {
        out.append(digit_str(n as u8));
    } else {
        push_decimal(out, n / 10);
        out.append(digit_str((n % 10) as u8));
        assert(old(out)@ + decimal(n as nat) =~= old(out)@ + decimal((n / 10) as nat) + seq![
            digit_char((n % 10) as int),
        ]);
    }
}

/// Append two upper-case hexadecimal digits of `b` to `out`.
pub fn push_hex_byte(out: &mut String, b: u8)
    ensures
        final(out)@ == old(out)@ + hex_byte(b),
{
    out.append(digit_str(b / 16));
    out.append(digit_str(b % 16));
    assert(old(out)@ + hex_byte(b) =~= old(out)@ + seq![digit_char(b as int / 16)] + seq![
        digit_char(b as int % 16),
    ]);
}

/// A lower-case hexadecimal digit.
pub open spec fn lower_digit_char(d: int) -> char {
    if d < 10 {
        (('0' as int) + d) as char
    } else {
        (('a' as int) + d - 10) as char
    }
}

/// Two lower-case hexadecimal digits of a byte.
pub open spec fn lower_hex_byte(b: u8) -> Seq<char> {
    seq![lower_digit_char(b as int / 16), lower_digit_char(b as int % 16)]
}

/// Four lower-case hexadecimal digits of a 16-bit value.
pub open spec fn lower_hex_word(w: u16) -> Seq<char> {
    lower_hex_byte((w as int / 256) as u8) + lower_hex_byte((w as int % 256) as u8)
}

/// A one-character string holding the lower-case digit of `d`.
fn lower_digit_str(d: u8) -> (s: &'static str)
    requires
        d < 16,
    ensures
        s@ == seq![lower_digit_char(d as int)],
{
    if d < 10 {
        digit_str(d)
    } else {
        proof {
            reveal_strlit("a");
            reveal_strlit("b");
            reveal_strlit("c");
            reveal_strlit("d");
            reveal_strlit("e");
            reveal_strlit("f");
        }
        match d {
            10 => "a",
            11 => "b",
            12 => "c",
            13 => "d",
            14 => "e",
            _ => "f",
        }
    }
}

/// Append two lower-case hexadecimal digits of `b` to `out`.
pub fn push_lower_hex_byte(out: &mut String, b: u8)
    ensures
        final(out)@ == old(out)@ + lower_hex_byte(b),
{
    out.append(lower_digit_str(b / 16));
    out.append(lower_digit_str(b % 16));
    assert(old(out)@ + lower_hex_byte(b) =~= old(out)@ + seq![lower_digit_char(b as int / 16)]
        + seq![lower_digit_char(b as int % 16)]);
}

/// Append four lower-case hexadecimal digits of `w` to `out`.
pub fn push_lower_hex_word(out: &mut String, w: u16)
    ensures
        final(out)@ == old(out)@ + lower_hex_word(w),
{
    push_lower_hex_byte(out, (w / 256) as u8);
    push_lower_hex_byte(out, (w % 256) as u8);
    assert(old(out)@ + lower_hex_word(w) =~= old(out)@ + lower_hex_byte((w / 256) as u8)
        + lower_hex_byte((w % 256) as u8));
}

/// Whether two strings hold the same characters.
pub fn str_eq(a: &str, b: &str) -> (r: bool)
    ensures
        r == (a@ == b@),
{
    let n = a.unicode_len();
    if n != b.unicode_len() {
        return false;
    }
    let mut i: usize = 0;
    while i < n
        invariant
            n == a@.len() == b@.len(),
            0 <= i <= n,
            forall|j: int| 0 <= j < i ==> a@[j] == b@[j],
        decreases n - i,
    {
        if a.get_char(i) != b.get_char(i) {
            return false;
        }
        i = i + 1;
    }
    assert(a@ =~= b@);
    true
}

} // verus!
