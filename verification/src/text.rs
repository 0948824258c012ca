//! Small verified text-building helpers: single-character pushes, decimal
//! rendering of integers, and fixed-width zero padding.

use vstd::prelude::*;

verus! {

/// Relies on std's `String::push`: appends exactly one character to the end
/// of the string.
#[verifier::external_body]
pub fn push_char(s: &mut String, c: char)
    ensures
        final(s)@ == old(s)@ + seq![c],
{
    s.push(c);
}

/// The decimal digit character for a value below ten.
pub open spec fn spec_digit_char(d: int) -> char {
    if d == 0 {
        '0'
    } else if d == 1 {
        '1'
    } else if d == 2 {
        '2'
    } else if d == 3 {
        '3'
    } else if d == 4 {
        '4'
    } else if d == 5 {
        '5'
    } else if d == 6 {
        '6'
    } else if d == 7 {
        '7'
    } else if d == 8 {
        '8'
    } else {
        '9'
    }
}

/// The usual decimal rendering of a non-negative integer, most significant
/// digit first, with no leading zeros (except for zero itself).
pub open spec fn spec_dec(n: nat) -> Seq<char>
    decreases n,
{
    if n < 10 {
        seq![spec_digit_char(n as int)]
    } else {
        spec_dec(n / 10) + seq![spec_digit_char((n % 10) as int)]
    }
}

/// The decimal rendering of a possibly negative integer: a leading minus
/// sign, then the digits of its absolute value.
pub open spec fn spec_dec_int(n: int) -> Seq<char> {
    if n < 0 {
        seq!['-'] + spec_dec((-n) as nat)
    } else {
        spec_dec(n as nat)
    }
}

fn digit_char(d: u64) -> (c: char)
    requires
        d < 10,
    ensures
        c == spec_digit_char(d as int),
{
    match d {
        0 => '0',
        1 => '1',
        2 => '2',
        3 => '3',
        4 => '4',
        5 => '5',
        6 => '6',
        7 => '7',
        8 => '8',
        _ => '9',
    }
}

/// Renders a `u64` in decimal.
pub fn fmt_u64(n: u64) -> (r: String)
    ensures
        r@ == spec_dec(n as nat),
    decreases n,
{
    if n < 10 {
        let mut s = String::new();
        push_char(&mut s, digit_char(n));
        s
    } else {
        let mut s = fmt_u64(n / 10);
        push_char(&mut s, digit_char(n % 10));
        s
    }
}

/// Renders a `usize` in decimal.
pub fn fmt_usize(n: usize) -> (r: String)
    ensures
        r@ == spec_dec(n as nat),
{
    fmt_u64(n as u64)
}

/// Renders an `i64` in decimal, with a leading minus sign when negative.
pub fn fmt_i64(n: i64) -> (r: String)
    requires
        n > i64::MIN,
    ensures
        r@ == spec_dec_int(n as int),
{
    if n < 0 {
        let mut s = String::new();
        push_char(&mut s, '-');
        let t = fmt_u64((-n) as u64);
        s.append(t.as_str());
        s
    } else {
        fmt_u64(n as u64)
    }
}

/// The decimal rendering of a value below 100, padded to two digits with a
/// leading zero.
pub open spec fn spec_pad2(n: nat) -> Seq<char> {
    if n < 10 {
        seq!['0'] + spec_dec(n)
    } else {
        spec_dec(n)
    }
}

/// Renders a value below 100, zero-padded to two digits.
pub fn fmt_pad2(n: u64) -> (r: String)
    requires
        n < 100,
    ensures
        r@ == spec_pad2(n as nat),
{
    let mut s = String::new();
    if n < 10 {
        push_char(&mut s, '0');
    }
    let t = fmt_u64(n);
    s.append(t.as_str());
    s
}

/// The decimal rendering of a value below 10000, padded to four digits with
/// leading zeros.
pub open spec fn spec_pad4(n: nat) -> Seq<char> {
    if n < 10 {
        seq!['0', '0', '0'] + spec_dec(n)
    } else if n < 100 {
        seq!['0', '0'] + spec_dec(n)
    } else if n < 1000 {
        seq!['0'] + spec_dec(n)
    } else {
        spec_dec(n)
    }
}

/// Renders a value below 10000, zero-padded to four digits.
pub fn fmt_pad4(n: u64) -> (r: String)
    requires
        n < 10000,
    ensures
        r@ == spec_pad4(n as nat),
{
    let mut s = String::new();
    if n < 10 {
        push_char(&mut s, '0');
        push_char(&mut s, '0');
        push_char(&mut s, '0');
        assert(s@ =~= seq!['0', '0', '0']);
    } else if n < 100 {
        push_char(&mut s, '0');
        push_char(&mut s, '0');
        assert(s@ =~= seq!['0', '0']);
    } else if n < 1000 {
        push_char(&mut s, '0');
    }
    let t = fmt_u64(n);
    s.append(t.as_str());
    s
}

/// The rendering of a boolean, as std's `Display` writes it.
pub open spec fn spec_bool_str(b: bool) -> Seq<char> {
    if b {
        "true"@
    } else {
        "false"@
    }
}

/// Renders a boolean as `"true"` or `"false"`.
pub fn bool_str(b: bool) -> (r: &'static str)
    ensures
        r@ == spec_bool_str(b),
{
    if b {
        "true"
    } else {
        "false"
    }
}

} // verus!
