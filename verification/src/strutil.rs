use vstd::prelude::*;

verus! {

// ---------------------------------------------------------------------------
// Conversions between strings and character vectors.
//
// All textual logic in this crate (JSON parsing and writing, header escaping)
// works over `Vec<char>`, whose view is the same `Seq<char>` that `String`
// and `&str` have, so these two conversions are exact.
// ---------------------------------------------------------------------------

/// Relies on str::chars: the iterator yields exactly the characters of the
/// string, in order.
#[verifier::external_body]
pub fn str_chars(s: &str) -> (r: Vec<char>)
    ensures
        r@ == s@,
{
    s.chars().collect()
}

/// Relies on String's FromIterator<char> impl: the collected string consists
/// of exactly the given characters, in order.
#[verifier::external_body]
pub fn chars_string(v: &Vec<char>) -> (r: String)
    ensures
        r@ == v@,
{
    v.iter().collect()
}

/// Compares a string with a literal by contents.
pub fn string_eq_str(a: &String, b: &str) -> (r: bool)
    ensures
        r == (a@ == b@),
{
    let bs: String = b.to_owned();
    *a == bs
}

// ---------------------------------------------------------------------------
// Decimal digits.
// ---------------------------------------------------------------------------

/// The decimal digit character for a value below ten.
pub open spec fn dec_digit(d: int) -> char
    recommends
        0 <= d < 10,
{
    (('0' as u32) + d as u32) as char
}

/// The decimal representation of a natural number, without leading zeros
/// (a single zero stands for itself).
pub open spec fn spec_u64_dec(n: nat) -> Seq<char>
    decreases n,
{
    if n < 10 {
        seq![dec_digit(n as int)]
    } else {
        spec_u64_dec(n / 10) + seq![dec_digit((n % 10) as int)]
    }
}

fn dec_digit_exec(d: u64) -> (r: char)
    requires
        d < 10,
    ensures
        r == dec_digit(d as int),
{
    (('0' as u8) + (d as u8)) as char
}

/// Writes a number in decimal, as the `Range` header and the JSON writer need.
pub fn u64_dec_chars(n: u64) -> (r: Vec<char>)
    ensures
        r@ == spec_u64_dec(n as nat),
    decreases n,
{
    if n < 10 {
        let mut v: Vec<char> = Vec::new();
        v.push(dec_digit_exec(n));
        v
    } else {
        let mut v = u64_dec_chars(n / 10);
        v.push(dec_digit_exec(n % 10));
        assert(v@ =~= spec_u64_dec((n / 10) as nat) + seq![dec_digit((n % 10) as int)]);
        v
    }
}

/// The numeric value of a decimal digit character, or `None` for any other
/// character.
pub open spec fn spec_dec_val(c: char) -> Option<int> {
    if '0' <= c && c <= '9' {
        Some((c as u32) as int - ('0' as u32) as int)
    } else {
        None
    }
}

pub fn dec_val(c: char) -> (r: Option<u32>)
    ensures
        match r {
            Some(d) => spec_dec_val(c) == Some(d as int) && d < 10,
            None => spec_dec_val(c) is None,
        },
{
    if '0' <= c && c <= '9' {
        Some((c as u32) - ('0' as u32))
    } else {
        None
    }
}

// ---------------------------------------------------------------------------
// Hexadecimal digits, lower case.
// ---------------------------------------------------------------------------

/// The lower-case hexadecimal digit character for a value below sixteen.
pub open spec fn hex_digit(d: int) -> char
    recommends
        0 <= d < 16,
{
    if d < 10 {
        (('0' as u32) + d as u32) as char
    } else {
        (('a' as u32) + (d - 10) as u32) as char
    }
}

/// The shortest lower-case hexadecimal representation of a natural number.
pub open spec fn spec_hex_min(n: nat) -> Seq<char>
    decreases n,
{
    if n < 16 {
        seq![hex_digit(n as int)]
    } else {
        spec_hex_min(n / 16) + seq![hex_digit((n % 16) as int)]
    }
}

/// Lower-case hexadecimal, zero-padded on the left to at least four digits:
/// the shape that a `\uXXXX` header escape uses.
pub open spec fn spec_hex_pad4(n: nat) -> Seq<char> {
    if n < 0x10000 {
        seq![
            hex_digit((n / 0x1000) as int),
            hex_digit(((n / 0x100) % 16) as int),
            hex_digit(((n / 16) % 16) as int),
            hex_digit((n % 16) as int),
        ]
    } else {
        spec_hex_min(n)
    }
}

fn hex_digit_exec(d: u32) -> (r: char)
    requires
        d < 16,
    ensures
        r == hex_digit(d as int),
{
    if d < 10 {
        (('0' as u8) + (d as u8)) as char
    } else {
        (('a' as u8) + ((d - 10) as u8)) as char
    }
}

fn hex_min_chars(n: u32) -> (r: Vec<char>)
    ensures
        r@ == spec_hex_min(n as nat),
    decreases n,
{
    if n < 16 {
        let mut v: Vec<char> = Vec::new();
        v.push(hex_digit_exec(n));
        v
    } else {
        let mut v = hex_min_chars(n / 16);
        v.push(hex_digit_exec(n % 16));
        assert(v@ =~= spec_hex_min((n / 16) as nat) + seq![hex_digit((n % 16) as int)]);
        v
    }
}

/// Writes a code point the way a `\uXXXX` escape shows it: at least four
/// lower-case hexadecimal digits.
pub fn hex_pad4_chars(n: u32) -> (r: Vec<char>)
    ensures
        r@ == spec_hex_pad4(n as nat),
{
    if n < 0x10000 {
        let mut v: Vec<char> = Vec::new();
        v.push(hex_digit_exec(n / 0x1000));
        v.push(hex_digit_exec((n / 0x100) % 16));
        v.push(hex_digit_exec((n / 16) % 16));
        v.push(hex_digit_exec(n % 16));
        assert(v@ =~= spec_hex_pad4(n as nat));
        v
    } else {
        hex_min_chars(n)
    }
}

/// The numeric value of a lower- or upper-case hexadecimal digit character.
pub open spec fn spec_hex_val(c: char) -> Option<int> {
    if '0' <= c && c <= '9' {
        Some((c as u32) as int - ('0' as u32) as int)
    } else if 'a' <= c && c <= 'f' {
        Some((c as u32) as int - ('a' as u32) as int + 10)
    } else if 'A' <= c && c <= 'F' {
        Some((c as u32) as int - ('A' as u32) as int + 10)
    } else {
        None
    }
}

pub fn hex_val(c: char) -> (r: Option<u32>)
    ensures
        match r {
            Some(d) => spec_hex_val(c) == Some(d as int) && d < 16,
            None => spec_hex_val(c) is None,
        },
{
    if '0' <= c && c <= '9' {
        Some((c as u32) - ('0' as u32))
    } else if 'a' <= c && c <= 'f' {
        Some((c as u32) - ('a' as u32) + 10)
    } else if 'A' <= c && c <= 'F' {
        Some((c as u32) - ('A' as u32) + 10)
    } else {
        None
    }
}

// ---------------------------------------------------------------------------
// Unicode scalar values.
// ---------------------------------------------------------------------------

/// Whether a code point is a Unicode scalar value, that is, a value a `char`
/// can hold.
pub open spec fn is_scalar_value(n: u32) -> bool {
    n < 0xD800 || (0xE000 <= n && n <= 0x10FFFF)
}

/// Relies on char::from_u32: it returns the character for exactly the
/// Unicode scalar values and nothing else.
pub assume_specification[ char::from_u32 ](n: u32) -> (r: Option<char>)
    ensures
        r matches Some(c) ==> c as u32 == n,
        (r is Some) == is_scalar_value(n),
;

/// Turns a code point into the character it stands for.
pub fn char_of_u32(n: u32) -> (r: char)
    requires
        is_scalar_value(n),
    ensures
        r as u32 == n,
{
    if let Some(c) = char::from_u32(n) {
        c
    } else {
        assert(false);
        ' '
    }
}


/// Copies a byte slice into an owned vector.
pub fn bytes_to_vec(b: &[u8]) -> (r: Vec<u8>)
    ensures
        r@ == b@,
{
    let mut v: Vec<u8> = Vec::new();
    let mut i: usize = 0;
    while i < b.len()
        invariant
            i <= b@.len(),
            v@ == b@.take(i as int),
        decreases b@.len() - i,
    {
        v.push(b[i]);
        assert(v@ =~= b@.take(i + 1));
        i = i + 1;
    }
    assert(v@ =~= b@);
    v
}

} // verus!
