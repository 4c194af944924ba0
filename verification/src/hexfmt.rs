//! Hexadecimal and decimal text rendering used by the disassembler and the
//! trace formatter.

use vstd::prelude::*;

verus! {

/// The hexadecimal digit character for a value below 16.
pub open spec fn hex_char(n: u8, upper: bool) -> char {
    if n == 0 {
        '0'
    } else if n == 1 {
        '1'
    } else if n == 2 {
        '2'
    } else if n == 3 {
        '3'
    } else if n == 4 {
        '4'
    } else if n == 5 {
        '5'
    } else if n == 6 {
        '6'
    } else if n == 7 {
        '7'
    } else if n == 8 {
        '8'
    } else if n == 9 {
        '9'
    } else if n == 10 {
        if upper { 'A' } else { 'a' }
    } else if n == 11 {
        if upper { 'B' } else { 'b' }
    } else if n == 12 {
        if upper { 'C' } else { 'c' }
    } else if n == 13 {
        if upper { 'D' } else { 'd' }
    } else if n == 14 {
        if upper { 'E' } else { 'e' }
    } else {
        if upper { 'F' } else { 'f' }
    }
}

/// Two hexadecimal digits for a byte, high digit first.
pub open spec fn hex2(b: u8, upper: bool) -> Seq<char> {
    seq![hex_char(b / 16, upper), hex_char(b % 16, upper)]
}

/// Four hexadecimal digits for a word, high byte first.
pub open spec fn hex4(w: u16, upper: bool) -> Seq<char> {
    hex2((w / 256) as u8, upper) + hex2((w % 256) as u8, upper)
}

/// The hexadecimal digit string for a value below 16.
fn hex_digit_str(n: u8, upper: bool) -> (r: &'static str)
    requires
        n < 16,
    ensures
        r@ =~= seq![hex_char(n, upper)],
{
    let s: &'static str = match n {
        0 => "0",
        1 => "1",
        2 => "2",
        3 => "3",
        4 => "4",
        5 => "5",
        6 => "6",
        7 => "7",
        8 => "8",
        9 => "9",
        10 => if upper { "A" } else { "a" },
        11 => if upper { "B" } else { "b" },
        12 => if upper { "C" } else { "c" },
        13 => if upper { "D" } else { "d" },
        14 => if upper { "E" } else { "e" },
        _ => if upper { "F" } else { "f" },
    };
    proof {
        reveal_strlit("0");
        reveal_strlit("1");
        reveal_strlit("2");
        reveal_strlit("3");
        reveal_strlit("4");
        reveal_strlit("5");
        reveal_strlit("6");
        reveal_strlit("7");
        reveal_strlit("8");
        reveal_strlit("9");
        reveal_strlit("A");
        reveal_strlit("B");
        reveal_strlit("C");
        reveal_strlit("D");
        reveal_strlit("E");
        reveal_strlit("F");
        reveal_strlit("a");
        reveal_strlit("b");
        reveal_strlit("c");
        reveal_strlit("d");
        reveal_strlit("e");
        reveal_strlit("f");
    }
    s
}

/// Append the two hexadecimal digits of a byte.
pub fn push_hex2(s: &mut String, b: u8, upper: bool)
    ensures
        final(s)@ == old(s)@ + hex2(b, upper),
{
    s.append(hex_digit_str(b / 16, upper));
    s.append(hex_digit_str(b % 16, upper));
    proof {
        assert(old(s)@ + hex2(b, upper) =~= old(s)@ + seq![hex_char(b / 16, upper)] + seq![
            hex_char(b % 16, upper)
        ]);
    }
}

/// Append the four hexadecimal digits of a word.
pub fn push_hex4(s: &mut String, w: u16, upper: bool)
    ensures
        final(s)@ == old(s)@ + hex4(w, upper),
{
    push_hex2(s, (w / 256) as u8, upper);
    push_hex2(s, (w % 256) as u8, upper);
    proof {
        assert(old(s)@ + hex4(w, upper) =~= old(s)@ + hex2((w / 256) as u8, upper) + hex2(
            (w % 256) as u8,
            upper,
        ));
    }
}

/// The decimal digit character for a value below 10.
pub open spec fn dec_char(n: u8) -> char {
    hex_char(n, true)
}

/// The decimal digit string of a number, most significant digit first, with
/// no leading zeros except for the number 0 itself.
pub open spec fn dec_rep(n: nat) -> Seq<char>
    decreases n,
{
    if n < 10 {
        seq![dec_char(n as u8)]
    } else {
        dec_rep(n / 10) + seq![dec_char((n % 10) as u8)]
    }
}

/// Append the decimal digits of a number.
pub fn push_dec(s: &mut String, n: u64)
    ensures
        final(s)@ == old(s)@ + dec_rep(n as nat),
    decreases n,
{
    if n >= 10 {
        push_dec(s, n / 10);
    }
    s.append(hex_digit_str((n % 10) as u8, true));
    proof {
        if n >= 10 {
            assert(old(s)@ + dec_rep(n as nat) =~= old(s)@ + dec_rep((n / 10) as nat) + seq![
                dec_char((n % 10) as u8)
            ]);
        } else {
            assert(old(s)@ + dec_rep(n as nat) =~= old(s)@ + seq![dec_char((n % 10) as u8)]);
        }
    }
}

} // verus!
