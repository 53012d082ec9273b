//! Character-level helpers shared by the logfmt formatter and the wire
//! serializer: decimal and hexadecimal rendering of integers, the control
//! character predicate, and the conversion from a character buffer to `String`.

use vstd::prelude::*;

verus! {

/// A character in the Unicode `Cc` (control) category.
pub open spec fn spec_is_control(c: char) -> bool {
    (c as u32) < 0x20 || (0x7f <= (c as u32) && (c as u32) <= 0x9f)
}

/// Decides membership in the Unicode `Cc` (control) category.
pub fn is_control_char(c: char) -> (r: bool)
    ensures
        r == spec_is_control(c),
{
    let u = c as u32;
    u < 0x20 || (0x7f <= u && u <= 0x9f)
}

/// The character for one decimal digit.
pub open spec fn spec_dec_digit(d: nat) -> char {
    if d == 0 {
        '0'
    } else if d == 1 {
        '1'
    } else if d == 2 {
        '2'
    } else if d == 3 {
        '3'
    } else if d == 4 {
        '4'
    } else if d == 5 {
        '5'
    } else if d == 6 {
        '6'
    } else if d == 7 {
        '7'
    } else if d == 8 {
        '8'
    } else {
        '9'
    }
}

/// The character for one hexadecimal digit, lower case.
pub open spec fn spec_hex_digit(d: nat) -> char {
    if d < 10 {
        spec_dec_digit(d)
    } else if d == 10 {
        'a'
    } else if d == 11 {
        'b'
    } else if d == 12 {
        'c'
    } else if d == 13 {
        'd'
    } else if d == 14 {
        'e'
    } else {
        'f'
    }
}

/// The decimal rendering of a non-negative integer, most significant digit
/// first, with no leading zeros (a single `'0'` for zero).
pub open spec fn spec_dec_digits(n: nat) -> Seq<char>
    decreases n,
{
    if n < 10 {
        seq![spec_dec_digit(n)]
    } else {
        spec_dec_digits(n / 10).push(spec_dec_digit(n % 10))
    }
}

/// The hexadecimal rendering of a non-negative integer, lower case, most
/// significant digit first, with no leading zeros.
pub open spec fn spec_hex_digits(n: nat) -> Seq<char>
    decreases n,
{
    if n < 16 {
        seq![spec_hex_digit(n)]
    } else {
        spec_hex_digits(n / 16).push(spec_hex_digit(n % 16))
    }
}

fn dec_digit_char(d: u8) -> (r: char)
    requires
        d < 10,
    ensures
        r == spec_dec_digit(d as nat),
{
    if d == 0 {
        '0'
    } else if d == 1 {
        '1'
    } else if d == 2 {
        '2'
    } else if d == 3 {
        '3'
    } else if d == 4 {
        '4'
    } else if d == 5 {
        '5'
    } else if d == 6 {
        '6'
    } else if d == 7 {
        '7'
    } else if d == 8 {
        '8'
    } else {
        '9'
    }
}

pub fn hex_digit_char(d: u8) -> (r: char)
    requires
        d < 16,
    ensures
        r == spec_hex_digit(d as nat),
{
    if d < 10 {
        dec_digit_char(d)
    } else if d == 10 {
        'a'
    } else if d == 11 {
        'b'
    } else if d == 12 {
        'c'
    } else if d == 13 {
        'd'
    } else if d == 14 {
        'e'
    } else {
        'f'
    }
}

/// Appends the decimal rendering of `n` to `out`.
pub fn push_dec_u128(n: u128, out: &mut Vec<char>)
    ensures
        final(out)@ == old(out)@ + spec_dec_digits(n as nat),
    decreases n,
{
    if n < 10 {
        out.push(dec_digit_char(n as u8));
        assert(out@ =~= old(out)@ + spec_dec_digits(n as nat));
    } else {
        push_dec_u128(n / 10, out);
        out.push(dec_digit_char((n % 10) as u8));
        assert(out@ =~= old(out)@ + spec_dec_digits(n as nat));
    }
}

/// Appends the lower-case hexadecimal rendering of `n` to `out`.
pub fn push_hex_u32(n: u32, out: &mut Vec<char>)
    ensures
        final(out)@ == old(out)@ + spec_hex_digits(n as nat),
    decreases n,
{
    if n < 16 {
        out.push(hex_digit_char(n as u8));
        assert(out@ =~= old(out)@ + spec_hex_digits(n as nat));
    } else {
        push_hex_u32(n / 16, out);
        out.push(hex_digit_char((n % 16) as u8));
        assert(out@ =~= old(out)@ + spec_hex_digits(n as nat));
    }
}

/// Relies on `String::from_iter` over `char`: collecting characters yields the
/// string of exactly those characters, in order.
#[verifier::external_body]
pub fn chars_to_string(v: &Vec<char>) -> (r: String)
    ensures
        r@ == v@,
{
    v.iter().collect()
}

} // verus!
