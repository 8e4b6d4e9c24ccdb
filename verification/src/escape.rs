//! Escaping parameters into an HTTP header value.
//!
//! The wire protocol sends upload and download parameters in a header, and
//! HTTP headers cannot carry non-ASCII characters or ASCII DEL.  Any such
//! character is replaced with a JSON-style `\uXXXX` sequence; everything
//! else passes through unchanged.

use vstd::prelude::*;
use crate::strutil::{
    spec_hex_pad4, hex_pad4_chars, spec_hex_val, hex_val, hex_digit, spec_hex_min, str_chars,
    chars_string, char_of_u32,
};

verus! {

/// How one character appears in the escaped header value: anything at or
/// above ASCII DEL (0x7F) becomes `\u` followed by its code point in at
/// least four lower-case hex digits, anything below passes through.
pub open spec fn spec_escape_header_char(c: char) -> Seq<char> {
    if (c as u32) >= 0x7f {
        seq!['\\', 'u'] + spec_hex_pad4((c as u32) as nat)
    } else {
        seq![c]
    }
}

pub open spec fn spec_escape_header_prefix(s: Seq<char>, k: int) -> Seq<char>
    decreases k,
{
    if k <= 0 {
        Seq::empty()
    } else {
        spec_escape_header_prefix(s, k - 1) + spec_escape_header_char(s[k - 1])
    }
}

/// The escaped form of a header value.
pub open spec fn spec_escape_header(s: Seq<char>) -> Seq<char> {
    spec_escape_header_prefix(s, s.len() as int)
}

/// Replaces any non-ASCII character (and ASCII DEL, 0x7F) with a JSON-style
/// `\uXXXX` sequence; returns everything else unmodified.
pub fn json_escape_header(s: &str) -> (r: String)
    ensures
        r@ == spec_escape_header(s@),
{
    let cs = str_chars(s);
    let mut out: Vec<char> = Vec::new();
    let mut k: usize = 0;
    while k < cs.len()
        invariant
            k <= cs@.len(),
            cs@ == s@,
            out@ == spec_escape_header_prefix(s@, k as int),
        decreases cs@.len() - k,
    {
        let c = cs[k];
        if (c as u32) >= 0x7f {
            out.push('\\');
            out.push('u');
            let mut h = hex_pad4_chars(c as u32);
            out.append(&mut h);
            assert(out@ =~= spec_escape_header_prefix(s@, k as int) + spec_escape_header_char(
                s@[k as int],
            ));
        } else {
            out.push(c);
            assert(out@ =~= spec_escape_header_prefix(s@, k as int) + spec_escape_header_char(
                s@[k as int],
            ));
        }
        k = k + 1;
    }
    chars_string(&out)
}

// ---------------------------------------------------------------------------
// The escaping laws.
// ---------------------------------------------------------------------------

proof fn lemma_hex_min_ascii(n: nat)
    ensures
        forall|i: int|
            0 <= i < spec_hex_min(n).len() ==> (#[trigger] spec_hex_min(n)[i] as u32) < 0x7f,
    decreases n,
{
    if n >= 16 {
        lemma_hex_min_ascii(n / 16);
        assert forall|i: int|
            0 <= i < spec_hex_min(n).len() implies (#[trigger] spec_hex_min(n)[i] as u32)
            < 0x7f by {
            if i < spec_hex_min(n / 16).len() {
                assert(spec_hex_min(n)[i] == spec_hex_min(n / 16)[i]);
            } else {
                assert(spec_hex_min(n)[i] == hex_digit((n % 16) as int));
            }
        }
    }
}

proof fn lemma_hex_pad4_ascii(n: nat)
    ensures
        forall|i: int|
            0 <= i < spec_hex_pad4(n).len() ==> (#[trigger] spec_hex_pad4(n)[i] as u32) < 0x7f,
{
    if n >= 0x10000 {
        lemma_hex_min_ascii(n);
    }
}

/// Law: the escaped form is safe for an HTTP header.  Every character of
/// the output is below ASCII DEL, whatever the input holds.
pub proof fn lemma_escape_header_safe(s: Seq<char>)
    ensures
        forall|i: int|
            0 <= i < spec_escape_header(s).len() ==> (#[trigger] spec_escape_header(s)[i]
                as u32) < 0x7f,
{
    lemma_escape_header_prefix_safe(s, s.len() as int);
}

proof fn lemma_escape_header_prefix_safe(s: Seq<char>, k: int)
    ensures
        forall|i: int|
            0 <= i < spec_escape_header_prefix(s, k).len() ==> (
            #[trigger] spec_escape_header_prefix(s, k)[i] as u32) < 0x7f,
    decreases k,
{
    if k > 0 {
        lemma_escape_header_prefix_safe(s, k - 1);
        lemma_hex_pad4_ascii((s[k - 1] as u32) as nat);
        let p = spec_escape_header_prefix(s, k - 1);
        let e = spec_escape_header_char(s[k - 1]);
        assert forall|i: int|
            0 <= i < spec_escape_header_prefix(s, k).len() implies (
        #[trigger] spec_escape_header_prefix(s, k)[i] as u32) < 0x7f by {
            if i < p.len() {
                assert(spec_escape_header_prefix(s, k)[i] == p[i]);
            } else {
                assert(spec_escape_header_prefix(s, k)[i] == e[i - p.len()]);
                if (s[k - 1] as u32) >= 0x7f {
                    assert(e == seq!['\\', 'u'] + spec_hex_pad4((s[k - 1] as u32) as nat));
                } else {
                    assert(e == seq![s[k - 1]]);
                }
            }
        }
    }
}

/// Law: on input that is entirely below ASCII DEL, escaping is the
/// identity: the output is the input.
pub proof fn lemma_escape_header_ascii_identity(s: Seq<char>)
    requires
        forall|i: int| 0 <= i < s.len() ==> (#[trigger] s[i] as u32) < 0x7f,
    ensures
        spec_escape_header(s) == s,
{
    lemma_escape_header_prefix_identity(s, s.len() as int);
    assert(spec_escape_header(s) =~= s);
}

proof fn lemma_escape_header_prefix_identity(s: Seq<char>, k: int)
    requires
        0 <= k <= s.len(),
        forall|i: int| 0 <= i < s.len() ==> (#[trigger] s[i] as u32) < 0x7f,
    ensures
        spec_escape_header_prefix(s, k) =~= s.take(k),
    decreases k,
{
    if k > 0 {
        lemma_escape_header_prefix_identity(s, k - 1);
        assert(spec_escape_header_char(s[k - 1]) == seq![s[k - 1]]);
        assert(spec_escape_header_prefix(s, k) =~= s.take(k));
    }
}

// ---------------------------------------------------------------------------
// Unescaping, and the round trip.
// ---------------------------------------------------------------------------

/// Undoes the escaping: a `\u` followed by exactly four hex digits becomes
/// the character with that code point, anything else passes through.  `None`
/// when a `\` is not followed by four hex digits that name a Unicode scalar
/// value.
pub open spec fn spec_unescape_header(s: Seq<char>, i: int) -> Option<Seq<char>>
    decreases s.len() - i,
{
    if i < 0 || i >= s.len() {
        Some(Seq::empty())
    } else if s[i] == '\\' {
        if i + 6 <= s.len() && s[i + 1] == 'u' {
            match (
                spec_hex_val(s[i + 2]),
                spec_hex_val(s[i + 3]),
                spec_hex_val(s[i + 4]),
                spec_hex_val(s[i + 5]),
            ) {
                (Some(d1), Some(d2), Some(d3), Some(d4)) => {
                    let v = d1 * 4096 + d2 * 256 + d3 * 16 + d4;
                    if 0xD800 <= v < 0xE000 {
                        None
                    } else {
                        match spec_unescape_header(s, i + 6) {
                            Some(rest) => Some(seq![v as char] + rest),
                            None => None,
                        }
                    }
                },
                _ => None,
            }
        } else {
            None
        }
    } else {
        match spec_unescape_header(s, i + 1) {
            Some(rest) => Some(seq![s[i]] + rest),
            None => None,
        }
    }
}

/// Undoes the header escaping.
pub fn json_unescape_header(s: &str) -> (r: Option<String>)
    ensures
        match r {
            Some(t) => spec_unescape_header(s@, 0) == Some(t@),
            None => spec_unescape_header(s@, 0) is None,
        },
{
    let cs = str_chars(s);
    let mut out: Vec<char> = Vec::new();
    let mut j: usize = 0;
    loop
        invariant
            j <= cs@.len(),
            cs@ == s@,
            (match spec_unescape_header(s@, j as int) {
                Some(rest) => spec_unescape_header(s@, 0) == Some(out@ + rest),
                None => spec_unescape_header(s@, 0) is None,
            }),
        decreases cs@.len() - j,
    {
        if j >= cs.len() {
            assert(out@ + Seq::<char>::empty() =~= out@);
            return Some(chars_string(&out));
        }
        let c = cs[j];
        if c == '\\' {
            if cs.len() - j < 6 {
                return None;
            }
            if cs[j + 1] != 'u' {
                return None;
            }
            let h1 = hex_val(cs[j + 2]);
            let h2 = hex_val(cs[j + 3]);
            let h3 = hex_val(cs[j + 4]);
            let h4 = hex_val(cs[j + 5]);
            match (h1, h2, h3, h4) {
                (Some(d1), Some(d2), Some(d3), Some(d4)) => {
                    let v: u32 = d1 * 4096 + d2 * 256 + d3 * 16 + d4;
                    if 0xD800 <= v && v < 0xE000 {
                        return None;
                    }
                    let ch = char_of_u32(v);
                    assert(ch == (v as int) as char);
                    proof {
                        if let Some(rest) = spec_unescape_header(s@, j + 6) {
                            assert(out@ + (seq![ch] + rest) =~= (out@ + seq![ch]) + rest);
                        }
                    }
                    out.push(ch);
                    j = j + 6;
                },
                _ => {
                    return None;
                },
            }
        } else {
            proof {
                if let Some(rest) = spec_unescape_header(s@, j + 1) {
                    assert(out@ + (seq![c] + rest) =~= (out@ + seq![c]) + rest);
                }
            }
            out.push(c);
            j = j + 1;
        }
    }
}

/// A character is a Unicode scalar value, so it is never a surrogate, and
/// the character its code point names is the character itself.
proof fn lemma_char_code(c: char)
    ensures
        (c as int) < 0xD800 || (c as int) >= 0xE000,
        (((c as u32) as int) as char) == c,
{
    let v = (c as u32) as int;
    assert(v as char == c);
}

proof fn lemma_hex_digit_val(d: nat)
    requires
        d < 16,
    ensures
        spec_hex_val(hex_digit(d as int)) == Some(d as int),
{
}

/// The four padded hex digits of a code point below 0x10000 decode back to
/// it.
proof fn lemma_hex_pad4_round_trip(n: nat)
    requires
        n < 0x10000,
    ensures
        spec_hex_pad4(n).len() == 4,
        ({
            let h = spec_hex_pad4(n);
            match (spec_hex_val(h[0]), spec_hex_val(h[1]), spec_hex_val(h[2]), spec_hex_val(
                h[3],
            )) {
                (Some(d1), Some(d2), Some(d3), Some(d4)) => d1 * 4096 + d2 * 256 + d3 * 16 + d4
                    == n,
                _ => false,
            }
        }),
{
    let d1 = n / 0x1000;
    let d2 = (n / 0x100) % 16;
    let d3 = (n / 16) % 16;
    let d4 = n % 16;
    lemma_hex_digit_val(d1);
    lemma_hex_digit_val(d2);
    lemma_hex_digit_val(d3);
    lemma_hex_digit_val(d4);
    assert(d1 * 4096 + d2 * 256 + d3 * 16 + d4 == n) by (nonlinear_arith)
        requires
            d1 == n / 0x1000,
            d2 == (n / 0x100) % 16,
            d3 == (n / 16) % 16,
            d4 == n % 16,
            n < 0x10000,
    ;
}

/// A front-to-back reading of the escaped form, easier to relate to
/// unescaping, which also reads from the front.
proof fn lemma_escape_header_unfold_front(s: Seq<char>)
    requires
        s.len() > 0,
    ensures
        spec_escape_header(s) == spec_escape_header_char(s[0]) + spec_escape_header(
            s.drop_first(),
        ),
    decreases s.len(),
{
    lemma_escape_prefix_shift(s, s.len() as int);
    assert(spec_escape_header_prefix(s.drop_first(), s.len() - 1) == spec_escape_header(
        s.drop_first(),
    ));
}

proof fn lemma_escape_prefix_shift(s: Seq<char>, k: int)
    requires
        1 <= k <= s.len(),
    ensures
        spec_escape_header_prefix(s, k) == spec_escape_header_char(s[0])
            + spec_escape_header_prefix(s.drop_first(), k - 1),
    decreases k,
{
    if k == 1 {
        assert(spec_escape_header_prefix(s, 0) =~= Seq::<char>::empty());
        assert(spec_escape_header_prefix(s.drop_first(), 0) =~= Seq::<char>::empty());
        assert(spec_escape_header_prefix(s, 1) =~= spec_escape_header_char(s[0])
            + spec_escape_header_prefix(s.drop_first(), 0));
    } else {
        lemma_escape_prefix_shift(s, k - 1);
        assert(s.drop_first()[k - 2] == s[k - 1]);
        assert(spec_escape_header_prefix(s, k) =~= spec_escape_header_char(s[0])
            + spec_escape_header_prefix(s.drop_first(), k - 1));
    }
}

/// Law: escaping round-trips.  For any input without a backslash (escaping
/// its output could not otherwise be told apart from the input's own text)
/// and without characters above 0xFFFF (their escapes carry more than four
/// digits), unescaping the escaped form yields the input again.  Inputs
/// with characters at or above 0x80, and DEL, are exactly the ones the
/// escaping changes, and they are covered here.
pub proof fn lemma_escape_header_round_trip(s: Seq<char>)
    requires
        forall|i: int| 0 <= i < s.len() ==> (#[trigger] s[i]) != '\\',
        forall|i: int| 0 <= i < s.len() ==> (#[trigger] s[i] as u32) < 0x10000,
    ensures
        spec_unescape_header(spec_escape_header(s), 0) == Some(s),
    decreases s.len(),
{
    if s.len() == 0 {
        assert(spec_escape_header(s) =~= Seq::<char>::empty());
    } else {
        let c = s[0];
        let rest = s.drop_first();
        lemma_escape_header_unfold_front(s);
        lemma_escape_header_round_trip(rest);
        let e = spec_escape_header(s);
        let er = spec_escape_header(rest);
        if (c as u32) >= 0x7f {
            let n = (c as u32) as nat;
            lemma_hex_pad4_round_trip(n);
            lemma_hex_pad4_ascii(n);
            assert(e =~= seq!['\\', 'u'] + spec_hex_pad4(n) + er);
            assert(e[0] == '\\' && e[1] == 'u');
            assert(e[2] == spec_hex_pad4(n)[0] && e[3] == spec_hex_pad4(n)[1] && e[4]
                == spec_hex_pad4(n)[2] && e[5] == spec_hex_pad4(n)[3]);
            assert(e.subrange(6, e.len() as int) =~= er);
            lemma_unescape_offset(e, er, 6);
            assert(spec_unescape_header(e, 6) == Some(rest));
            lemma_char_code(c);
            assert(spec_unescape_header(e, 0) == Some(seq![c] + rest));
            assert(seq![c] + rest =~= s);
        } else {
            assert(e =~= seq![c] + er);
            assert(e[0] == c && c != '\\');
            assert(e.subrange(1, e.len() as int) =~= er);
            lemma_unescape_offset(e, er, 1);
            assert(spec_unescape_header(e, 1) == Some(rest));
            assert(spec_unescape_header(e, 0) == Some(seq![c] + rest));
            assert(seq![c] + rest =~= s);
        }
    }
}

proof fn lemma_unescape_offset(s: Seq<char>, t: Seq<char>, at: int)
    requires
        0 <= at <= s.len(),
        s.subrange(at, s.len() as int) =~= t,
    ensures
        spec_unescape_header(s, at) == spec_unescape_header(t, 0),
    decreases s.len() - at,
{
    if at >= s.len() {
    } else {
        assert(s[at] == t[0]);
        if s[at] == '\\' {
            if at + 6 <= s.len() && s[at + 1] == 'u' {
                assert(s[at + 1] == t[1] && s[at + 2] == t[2] && s[at + 3] == t[3] && s[at + 4]
                    == t[4] && s[at + 5] == t[5]);
                assert(s.subrange(at + 6, s.len() as int) =~= t.subrange(6, t.len() as int));
                lemma_unescape_offset(s, t.subrange(6, t.len() as int), at + 6);
                lemma_unescape_offset(t, t.subrange(6, t.len() as int), 6);
            } else {
                assert(!(t.len() >= 6 && t[1] == 'u'));
            }
        } else {
            assert(s.subrange(at + 1, s.len() as int) =~= t.drop_first());
            lemma_unescape_offset(s, t.drop_first(), at + 1);
            lemma_unescape_offset(t, t.drop_first(), 1);
        }
    }
}


} // verus!
