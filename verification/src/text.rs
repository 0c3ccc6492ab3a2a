//! Textual forms of the numbers that a report shows: decimal ports and
//! octets, dotted IPv4 addresses, hexadecimal byte values and the letter
//! column of a dump.

use vstd::prelude::*;

verus! {

/// Trusted: `String::push` of the standard library appends the given
/// character to the end of the string and changes nothing else.
pub assume_specification[ String::push ](s: &mut String, ch: char)
    ensures
        final(s)@ == old(s)@.push(ch),
;

/// The character of a decimal digit `d`, for `d` below ten.
pub open spec fn decimal_digit(d: nat) -> char {
    (48 + d) as char
}

/// Decimal notation of `n`: no sign, no leading zero, `"0"` for zero.
pub open spec fn decimal(n: nat) -> Seq<char>
    decreases n,
{
    if n < 10 {
        seq![decimal_digit(n)]
    } else {
        decimal(n / 10).push(decimal_digit(n % 10))
    }
}

/// Dot-decimal notation of four octets, as in `192.168.0.1`.
pub open spec fn dotted_quad(octets: Seq<u8>) -> Seq<char>
    recommends
        octets.len() == 4,
{
    decimal(octets[0] as nat) + seq!['.'] + decimal(octets[1] as nat) + seq!['.'] + decimal(
        octets[2] as nat,
    ) + seq!['.'] + decimal(octets[3] as nat)
}

/// The character of a hexadecimal digit `d`, for `d` below sixteen, with
/// upper-case letters.
pub open spec fn hex_digit(d: nat) -> char {
    if d < 10 {
        (48 + d) as char
    } else {
        (55 + d) as char
    }
}

/// Whether `b` is the ASCII code of a letter, `A` to `Z` or `a` to `z`.
pub open spec fn is_ascii_letter(b: u8) -> bool {
    (65 <= b && b <= 90) || (97 <= b && b <= 122)
}

/// What the letter column of a dump shows for the byte `b`: the letter
/// itself, or a full stop for any byte that is no ASCII letter.
pub open spec fn ascii_cell(b: u8) -> char {
    if is_ascii_letter(b) {
        b as char
    } else {
        '.'
    }
}

/// Appends the decimal notation of `n` to `out`.
pub fn push_decimal(out: &mut String, n: u16)
    ensures
        final(out)@ == old(out)@ + decimal(n as nat),
    decreases n,
{
    if n >= 10 {
        push_decimal(out, n / 10);
    }
    let d: u8 = (n % 10) as u8;
    out.push((48u8 + d) as char);
}

/// The decimal text of a port number.
pub fn port_text(port: u16) -> (text: String)
    ensures
        text@ == decimal(port as nat),
{
    let mut text = String::new();
    push_decimal(&mut text, port);
    text
}

/// The dot-decimal text of an IPv4 address given by its four octets.
pub fn ipv4_text(octets: &[u8; 4]) -> (text: String)
    ensures
        text@ == dotted_quad(octets@),
{
    let mut text = String::new();
    push_decimal(&mut text, octets[0] as u16);
    text.push('.');
    push_decimal(&mut text, octets[1] as u16);
    text.push('.');
    push_decimal(&mut text, octets[2] as u16);
    text.push('.');
    push_decimal(&mut text, octets[3] as u16);
    text
}

/// The upper-case hexadecimal digit of `d`.
pub fn hex_digit_char(d: u8) -> (c: char)
    requires
        d < 16,
    ensures
        c == hex_digit(d as nat),
{
    if d < 10 {
        (48u8 + d) as char
    } else {
        (55u8 + d) as char
    }
}

/// The character that the letter column shows for `b`.
pub fn ascii_char(b: u8) -> (c: char)
    ensures
        c == ascii_cell(b),
        is_ascii_letter(b) ==> c == b as char,
        !is_ascii_letter(b) ==> c == '.',
{
    if (65 <= b && b <= 90) || (97 <= b && b <= 122) {
        b as char
    } else {
        '.'
    }
}

} // verus!
