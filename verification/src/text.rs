//! Text rendering of numbers as the device protocol's identifiers need it.

use vstd::prelude::*;
use vstd::string::*;

verus! {

/// The lowercase hexadecimal digit for a value below sixteen.
pub open spec fn hex_digit(d: int) -> char {
    if d == 0 {
        '0'
    } else if d == 1 {
        '1'
    } else if d == 2 {
        '2'
    } else if d == 3 {
        '3'
    } else if d == 4 {
        '4'
    } else if d == 5 {
        '5'
    } else if d == 6 {
        '6'
    } else if d == 7 {
        '7'
    } else if d == 8 {
        '8'
    } else if d == 9 {
        '9'
    } else if d == 10 {
        'a'
    } else if d == 11 {
        'b'
    } else if d == 12 {
        'c'
    } else if d == 13 {
        'd'
    } else if d == 14 {
        'e'
    } else {
        'f'
    }
}

/// The decimal digit for a value below ten.
pub open spec fn dec_digit(d: int) -> char {
    hex_digit(d)
}

/// A 32-bit number as eight lowercase hexadecimal digits, most significant first.
pub open spec fn hex8(n: u32) -> Seq<char> {
    seq![
        hex_digit((n as int / 0x1000_0000) % 16),
        hex_digit((n as int / 0x100_0000) % 16),
        hex_digit((n as int / 0x10_0000) % 16),
        hex_digit((n as int / 0x1_0000) % 16),
        hex_digit((n as int / 0x1000) % 16),
        hex_digit((n as int / 0x100) % 16),
        hex_digit((n as int / 0x10) % 16),
        hex_digit(n as int % 16),
    ]
}

/// A natural number in decimal, without leading zeros.
pub open spec fn decimal(n: nat) -> Seq<char>
    decreases n,
{
    if n < 10 {
        seq![dec_digit(n as int)]
    } else {
        decimal(n / 10).push(dec_digit((n % 10) as int))
    }
}

/// An integer in decimal, with a leading minus sign when negative.
pub open spec fn signed_decimal(i: int) -> Seq<char> {
    if i < 0 {
        seq!['-'] + decimal((-i) as nat)
    } else {
        decimal(i as nat)
    }
}

/// `String::push` of std. Taken on trust: the string afterwards is the
/// string before with the one character appended.
#[verifier::external_body]
pub(crate) fn push_char(s: &mut String, c: char)
    ensures
        final(s)@ == old(s)@.push(c),
{
    s.push(c)
}

pub(crate) fn digit_char(d: u32) -> (c: char)
    requires
        d < 16,
    ensures
        c == hex_digit(d as int),
{
    if d == 0 {
        '0'
    } else if d == 1 {
        '1'
    } else if d == 2 {
        '2'
    } else if d == 3 {
        '3'
    } else if d == 4 {
        '4'
    } else if d == 5 {
        '5'
    } else if d == 6 {
        '6'
    } else if d == 7 {
        '7'
    } else if d == 8 {
        '8'
    } else if d == 9 {
        '9'
    } else if d == 10 {
        'a'
    } else if d == 11 {
        'b'
    } else if d == 12 {
        'c'
    } else if d == 13 {
        'd'
    } else if d == 14 {
        'e'
    } else {
        'f'
    }
}

/// Appends the eight hexadecimal digits of `n` to `s`.
pub fn push_hex8(s: &mut String, n: u32)
    ensures
        final(s)@ == old(s)@ + hex8(n),
{
    push_char(s, digit_char((n / 0x1000_0000) % 16));
    push_char(s, digit_char((n / 0x100_0000) % 16));
    push_char(s, digit_char((n / 0x10_0000) % 16));
    push_char(s, digit_char((n / 0x1_0000) % 16));
    push_char(s, digit_char((n / 0x1000) % 16));
    push_char(s, digit_char((n / 0x100) % 16));
    push_char(s, digit_char((n / 0x10) % 16));
    push_char(s, digit_char(n % 16));
    assert(s@ =~= old(s)@ + hex8(n));
}

/// The identifier string of a node number: its eight hexadecimal digits.
pub fn node_id_string(n: u32) -> (s: String)
    ensures
        s@ == hex8(n),
{
    let mut s = String::new();
    push_hex8(&mut s, n);
    assert(s@ =~= hex8(n));
    s
}

/// Appends `n` in decimal to `s`.
pub fn push_decimal(s: &mut String, n: u64)
    ensures
        final(s)@ == old(s)@ + decimal(n as nat),
    decreases n,
{
    if n >= 10 {
        push_decimal(s, n / 10);
    }
    push_char(s, digit_char((n % 10) as u32));
    assert(s@ =~= old(s)@ + decimal(n as nat));
}

/// Appends `i` in decimal, with its sign, to `s`.
pub fn push_signed_decimal(s: &mut String, i: i32)
    ensures
        final(s)@ == old(s)@ + signed_decimal(i as int),
{
    if i < 0 {
        push_char(s, '-');
        let magnitude: u64 = (-(i as i64)) as u64;
        push_decimal(s, magnitude);
        assert(s@ =~= old(s)@ + signed_decimal(i as int));
    } else {
        push_decimal(s, i as u64);
    }
}

/// An uptime in seconds as days, hours, minutes and seconds, led by the
/// largest unit that is not zero; with days the seconds are left out.
pub open spec fn uptime_text(seconds: u32) -> Seq<char> {
    let days = (seconds / 86400) as nat;
    let hours = ((seconds % 86400) / 3600) as nat;
    let minutes = ((seconds % 3600) / 60) as nat;
    let secs = (seconds % 60) as nat;
    if days > 0 {
        decimal(days) + seq!['d', ' '] + decimal(hours) + seq!['h', ' '] + decimal(minutes)
            + seq!['m']
    } else if hours > 0 {
        decimal(hours) + seq!['h', ' '] + decimal(minutes) + seq!['m', ' '] + decimal(secs)
            + seq!['s']
    } else if minutes > 0 {
        decimal(minutes) + seq!['m', ' '] + decimal(secs) + seq!['s']
    } else {
        decimal(secs) + seq!['s']
    }
}

/// Appends `n` in decimal and then the unit letter `unit` to `s`.
fn push_amount(s: &mut String, n: u32, unit: char)
    ensures
        final(s)@ == old(s)@ + decimal(n as nat) + seq![unit],
{
    push_decimal(s, n as u64);
    push_char(s, unit);
    assert(s@ =~= old(s)@ + decimal(n as nat) + seq![unit]);
}

/// Formats an uptime in seconds for reading.
pub fn format_uptime(seconds: u32) -> (s: String)
    ensures
        s@ == uptime_text(seconds),
{
    let days = seconds / 86400;
    let hours = (seconds % 86400) / 3600;
    let minutes = (seconds % 3600) / 60;
    let secs = seconds % 60;
    let mut s = String::new();
    if days > 0 {
        push_amount(&mut s, days, 'd');
        push_char(&mut s, ' ');
        push_amount(&mut s, hours, 'h');
        push_char(&mut s, ' ');
        push_amount(&mut s, minutes, 'm');
        assert(s@ =~= uptime_text(seconds));
    } else if hours > 0 {
        push_amount(&mut s, hours, 'h');
        push_char(&mut s, ' ');
        push_amount(&mut s, minutes, 'm');
        push_char(&mut s, ' ');
        push_amount(&mut s, secs, 's');
        assert(s@ =~= uptime_text(seconds));
    } else if minutes > 0 {
        push_amount(&mut s, minutes, 'm');
        push_char(&mut s, ' ');
        push_amount(&mut s, secs, 's');
        assert(s@ =~= uptime_text(seconds));
    } else {
        push_amount(&mut s, secs, 's');
        assert(s@ =~= uptime_text(seconds));
    }
    s
}

} // verus!
