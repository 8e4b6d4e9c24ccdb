use vstd::prelude::*;
use crate::strutil::{
    spec_dec_val, spec_hex_val, dec_val, hex_val, char_of_u32, str_chars, chars_string,
    spec_u64_dec, u64_dec_chars, spec_hex_pad4, hex_pad4_chars,
};

verus! {

/// A JSON value as this library models it: object members keep their textual
/// order, and numbers are restricted to integers, which is all the wire
/// protocol uses.
pub enum Json {
    Null,
    Bool(bool),
    Int(i64),
    Str(String),
    Arr(Vec<Json>),
    Obj(Vec<(String, Json)>),
}

/// The mathematical shape of a [`Json`] value, used by contracts.
pub enum JsonVal {
    Null,
    Bool(bool),
    Int(i64),
    Str(Seq<char>),
    Arr(Seq<JsonVal>),
    Obj(Seq<(Seq<char>, JsonVal)>),
}

impl View for Json {
    type V = JsonVal;

    open spec fn view(&self) -> JsonVal
        decreases self,
    {
        match self {
            Json::Null => JsonVal::Null,
            Json::Bool(b) => JsonVal::Bool(*b),
            Json::Int(i) => JsonVal::Int(*i),
            Json::Str(s) => JsonVal::Str(s@),
            Json::Arr(items) => JsonVal::Arr(view_items(items@)),
            Json::Obj(members) => JsonVal::Obj(view_members(members@)),
        }
    }
}

pub open spec fn view_items(s: Seq<Json>) -> Seq<JsonVal>
    decreases s,
{
    if s.len() == 0 {
        Seq::empty()
    } else {
        seq![s[0]@] + view_items(s.drop_first())
    }
}

pub open spec fn view_members(s: Seq<(String, Json)>) -> Seq<(Seq<char>, JsonVal)>
    decreases s,
{
    if s.len() == 0 {
        Seq::empty()
    } else {
        seq![(s[0].0@, s[0].1@)] + view_members(s.drop_first())
    }
}

pub proof fn lemma_view_items_cons(a: Json, r: Seq<Json>)
    ensures
        view_items(seq![a] + r) == seq![a@] + view_items(r),
{
    let s = seq![a] + r;
    assert(s.len() > 0);
    assert(s[0] == a);
    assert(s.drop_first() =~= r);
}

pub proof fn lemma_view_members_cons(k: String, a: Json, r: Seq<(String, Json)>)
    ensures
        view_members(seq![(k, a)] + r) == seq![(k@, a@)] + view_members(r),
{
    let s = seq![(k, a)] + r;
    assert(s.len() > 0);
    assert(s[0] == (k, a));
    assert(s.drop_first() =~= r);
}

pub proof fn lemma_view_items_index(s: Seq<Json>)
    ensures
        view_items(s).len() == s.len(),
        forall|i: int| 0 <= i < s.len() ==> #[trigger] view_items(s)[i] == s[i]@,
    decreases s,
{
    if s.len() > 0 {
        lemma_view_items_index(s.drop_first());
        assert(view_items(s) == seq![s[0]@] + view_items(s.drop_first()));
        assert forall|i: int| 0 <= i < s.len() implies #[trigger] view_items(s)[i] == s[i]@ by {
            if i > 0 {
                assert(view_items(s)[i] == view_items(s.drop_first())[i - 1]);
                assert(s.drop_first()[i - 1] == s[i]);
            }
        }
    }
}

pub proof fn lemma_view_members_index(s: Seq<(String, Json)>)
    ensures
        view_members(s).len() == s.len(),
        forall|i: int|
            0 <= i < s.len() ==> #[trigger] view_members(s)[i] == (s[i].0@, s[i].1@),
    decreases s,
{
    if s.len() > 0 {
        lemma_view_members_index(s.drop_first());
        assert(view_members(s) == seq![(s[0].0@, s[0].1@)] + view_members(s.drop_first()));
        assert forall|i: int|
            0 <= i < s.len() implies #[trigger] view_members(s)[i] == (s[i].0@, s[i].1@) by {
            if i > 0 {
                assert(view_members(s)[i] == view_members(s.drop_first())[i - 1]);
                assert(s.drop_first()[i - 1] == s[i]);
            }
        }
    }
}

// ---------------------------------------------------------------------------
// Parsing.
//
// The grammar is standard JSON restricted in two documented ways: numbers are
// integers that fit in an `i64` (the wire protocol only uses such numbers),
// and a `\u` escape must denote a Unicode scalar value on its own (surrogate
// pairs are rejected).  The spec functions below define the parse exactly;
// every executable function returns precisely what its spec function says.
// ---------------------------------------------------------------------------

pub open spec fn is_json_ws(c: char) -> bool {
    c == ' ' || c == '\t' || c == '\n' || c == '\r'
}

pub open spec fn spec_skip_ws(s: Seq<char>, i: int) -> int
    decreases s.len() - i,
{
    if 0 <= i < s.len() && is_json_ws(s[i]) {
        spec_skip_ws(s, i + 1)
    } else {
        i
    }
}

pub proof fn lemma_skip_ws_bounds(s: Seq<char>, i: int)
    requires
        0 <= i <= s.len(),
    ensures
        i <= spec_skip_ws(s, i) <= s.len(),
    decreases s.len() - i,
{
    if i < s.len() && is_json_ws(s[i]) {
        lemma_skip_ws_bounds(s, i + 1);
    }
}

fn is_ws_exec(c: char) -> (r: bool)
    ensures
        r == is_json_ws(c),
{
    c == ' ' || c == '\t' || c == '\n' || c == '\r'
}

fn skip_ws(s: &Vec<char>, i: usize) -> (r: usize)
    requires
        i <= s@.len(),
    ensures
        r as int == spec_skip_ws(s@, i as int),
        i <= r <= s@.len(),
{
    let mut j = i;
    while j < s.len() && is_ws_exec(s[j])
        invariant
            i <= j <= s@.len(),
            spec_skip_ws(s@, i as int) == spec_skip_ws(s@, j as int),
        decreases s@.len() - j,
    {
        j = j + 1;
    }
    j
}

/// Parses the inside of a JSON string, starting just after the opening quote;
/// on success, the characters it denotes and the index just past the closing
/// quote.
pub open spec fn spec_parse_string_body(s: Seq<char>, i: int) -> Option<(Seq<char>, int)>
    decreases s.len() - i,
{
    if i < 0 || i >= s.len() {
        None
    } else {
        let c = s[i];
        if c == '"' {
            Some((Seq::empty(), i + 1))
        } else if c == '\\' {
            if i + 1 >= s.len() {
                None
            } else {
                let e = s[i + 1];
                if e == '"' || e == '\\' || e == '/' {
                    match spec_parse_string_body(s, i + 2) {
                        Some(p) => Some((seq![e] + p.0, p.1)),
                        None => None,
                    }
                } else if e == 'b' || e == 'f' || e == 'n' || e == 'r' || e == 't' {
                    match spec_parse_string_body(s, i + 2) {
                        Some(p) => Some((seq![spec_short_escape(e)] + p.0, p.1)),
                        None => None,
                    }
                } else if e == 'u' {
                    if i + 6 > s.len() {
                        None
                    } else {
                        match (
                            spec_hex_val(s[i + 2]),
                            spec_hex_val(s[i + 3]),
                            spec_hex_val(s[i + 4]),
                            spec_hex_val(s[i + 5]),
                        ) {
                            (Some(d1), Some(d2), Some(d3), Some(d4)) => {
                                let v = d1 * 4096 + d2 * 256 + d3 * 16 + d4;
                                if 0xD800 <= v < 0xE000 {
                                    None
                                } else {
                                    match spec_parse_string_body(s, i + 6) {
                                        Some(p) => Some((seq![v as char] + p.0, p.1)),
                                        None => None,
                                    }
                                }
                            },
                            _ => None,
                        }
                    }
                } else {
                    None
                }
            }
        } else if (c as u32) < 0x20 {
            None
        } else {
            match spec_parse_string_body(s, i + 1) {
                Some(p) => Some((seq![c] + p.0, p.1)),
                None => None,
            }
        }
    }
}

/// The character a short escape such as `\n` denotes.
pub open spec fn spec_short_escape(e: char) -> char {
    if e == 'b' {
        '\u{0008}'
    } else if e == 'f' {
        '\u{000C}'
    } else if e == 'n' {
        '\n'
    } else if e == 'r' {
        '\r'
    } else {
        '\t'
    }
}

pub proof fn lemma_parse_string_body_bounds(s: Seq<char>, i: int)
    requires
        0 <= i,
    ensures
        spec_parse_string_body(s, i) matches Some(p) ==> i < p.1 <= s.len(),
    decreases s.len() - i,
{
    if 0 <= i < s.len() {
        let c = s[i];
        if c == '\\' && i + 1 < s.len() {
            if i + 2 <= s.len() {
                lemma_parse_string_body_bounds(s, i + 2);
            }
            if i + 6 <= s.len() {
                lemma_parse_string_body_bounds(s, i + 6);
            }
        } else {
            lemma_parse_string_body_bounds(s, i + 1);
        }
    }
}

fn parse_string_body(s: &Vec<char>, i: usize) -> (r: Option<(Vec<char>, usize)>)
    requires
        i <= s@.len(),
    ensures
        match r {
            Some(p) => spec_parse_string_body(s@, i as int) == Some((p.0@, p.1 as int)) && i
                < p.1 <= s@.len(),
            None => spec_parse_string_body(s@, i as int) is None,
        },
{
    proof {
        lemma_parse_string_body_bounds(s@, i as int);
    }
    let mut out: Vec<char> = Vec::new();
    let mut j = i;
    loop
        invariant
            i <= j <= s@.len(),
            (match spec_parse_string_body(s@, j as int) {
                Some(p) => spec_parse_string_body(s@, i as int) == Some((out@ + p.0, p.1)),
                None => spec_parse_string_body(s@, i as int) is None,
            }),
        decreases s@.len() - j,
    {
        if j >= s.len() {
            return None;
        }
        let c = s[j];
        if c == '"' {
            assert(out@ + Seq::<char>::empty() =~= out@);
            proof {
                lemma_parse_string_body_bounds(s@, i as int);
            }
            return Some((out, j + 1));
        } else if c == '\\' {
            if j + 1 >= s.len() {
                return None;
            }
            let e = s[j + 1];
            if e == '"' || e == '\\' || e == '/' {
                proof {
                    if let Some(p) = spec_parse_string_body(s@, j + 2) {
                        assert(out@ + (seq![e] + p.0) =~= (out@ + seq![e]) + p.0);
                    }
                }
                out.push(e);
                j = j + 2;
            } else if e == 'b' || e == 'f' || e == 'n' || e == 'r' || e == 't' {
                let d = if e == 'b' {
                    '\u{0008}'
                } else if e == 'f' {
                    '\u{000C}'
                } else if e == 'n' {
                    '\n'
                } else if e == 'r' {
                    '\r'
                } else {
                    '\t'
                };
                assert(d == spec_short_escape(e));
                proof {
                    if let Some(p) = spec_parse_string_body(s@, j + 2) {
                        assert(out@ + (seq![d] + p.0) =~= (out@ + seq![d]) + p.0);
                    }
                }
                out.push(d);
                j = j + 2;
            } else if e == 'u' {
                if s.len() - j < 6 {
                    return None;
                }
                let h1 = hex_val(s[j + 2]);
                let h2 = hex_val(s[j + 3]);
                let h3 = hex_val(s[j + 4]);
                let h4 = hex_val(s[j + 5]);
                match (h1, h2, h3, h4) {
                    (Some(d1), Some(d2), Some(d3), Some(d4)) => {
                        let v: u32 = d1 * 4096 + d2 * 256 + d3 * 16 + d4;
                        if 0xD800 <= v && v < 0xE000 {
                            return None;
                        }
                        let ch = char_of_u32(v);
                        assert(ch == (v as int) as char);
                        proof {
                            if let Some(p) = spec_parse_string_body(s@, j + 6) {
                                assert(out@ + (seq![ch] + p.0) =~= (out@ + seq![ch]) + p.0);
                            }
                        }
                        out.push(ch);
                        j = j + 6;
                    },
                    _ => {
                        return None;
                    },
                }
            } else {
                return None;
            }
        } else if (c as u32) < 0x20 {
            return None;
        } else {
            proof {
                if let Some(p) = spec_parse_string_body(s@, j + 1) {
                    assert(out@ + (seq![c] + p.0) =~= (out@ + seq![c]) + p.0);
                }
            }
            out.push(c);
            j = j + 1;
        }
    }
}

// ---------------------------------------------------------------------------
// Numbers.
// ---------------------------------------------------------------------------

/// The first index at or after `i` that does not hold a decimal digit.
pub open spec fn spec_scan_digits(s: Seq<char>, i: int) -> int
    decreases s.len() - i,
{
    if 0 <= i < s.len() && spec_dec_val(s[i]) is Some {
        spec_scan_digits(s, i + 1)
    } else {
        i
    }
}

pub proof fn lemma_scan_digits_bounds(s: Seq<char>, i: int)
    requires
        0 <= i <= s.len(),
    ensures
        i <= spec_scan_digits(s, i) <= s.len(),
    decreases s.len() - i,
{
    if i < s.len() && spec_dec_val(s[i]) is Some {
        lemma_scan_digits_bounds(s, i + 1);
    }
}

/// The value of the decimal digits `s[i..j]`.
pub open spec fn spec_digits_val(s: Seq<char>, i: int, j: int) -> int
    decreases j - i,
{
    if i >= j {
        0
    } else {
        spec_digits_val(s, i, j - 1) * 10 + match spec_dec_val(s[j - 1]) {
            Some(d) => d,
            None => 0,
        }
    }
}

pub proof fn lemma_digits_val_nonneg(s: Seq<char>, i: int, j: int)
    ensures
        spec_digits_val(s, i, j) >= 0,
    decreases j - i,
{
    if i < j {
        lemma_digits_val_nonneg(s, i, j - 1);
        assert(spec_dec_val(s[j - 1]) matches Some(d) ==> d >= 0);
    }
}

pub proof fn lemma_digits_val_mono(s: Seq<char>, i: int, j: int, k: int)
    requires
        i <= j <= k,
    ensures
        spec_digits_val(s, i, j) <= spec_digits_val(s, i, k),
    decreases k - j,
{
    if j < k {
        lemma_digits_val_mono(s, i, j, k - 1);
        lemma_digits_val_nonneg(s, i, k - 1);
    }
}

/// Parses an integer at `i` (an optional minus sign and at least one digit);
/// the value must fit in an `i64`.
pub open spec fn spec_parse_number(s: Seq<char>, i: int) -> Option<(JsonVal, int)> {
    if i < 0 || i >= s.len() {
        None
    } else {
        let neg = s[i] == '-';
        let st = if neg {
            i + 1
        } else {
            i
        };
        let j = spec_scan_digits(s, st);
        if j == st {
            None
        } else {
            let v = spec_digits_val(s, st, j);
            if neg {
                if v <= 0x8000000000000000 {
                    Some((JsonVal::Int((-v) as i64), j))
                } else {
                    None
                }
            } else {
                if v <= 0x7fffffffffffffff {
                    Some((JsonVal::Int(v as i64), j))
                } else {
                    None
                }
            }
        }
    }
}

fn parse_number(s: &Vec<char>, i: usize) -> (r: Option<(Json, usize)>)
    requires
        i < s@.len(),
    ensures
        match r {
            Some(p) => spec_parse_number(s@, i as int) == Some((p.0@, p.1 as int)) && i < p.1
                <= s@.len(),
            None => spec_parse_number(s@, i as int) is None,
        },
{
    let n = s.len();
    let neg = s[i] == '-';
    let st = if neg {
        i + 1
    } else {
        i
    };
    proof {
        lemma_scan_digits_bounds(s@, st as int);
    }
    let mut j = st;
    let mut acc: u64 = 0;
    let mut big = false;
    while j < s.len() && dec_val(s[j]).is_some()
        invariant
            st <= j <= s@.len(),
            st <= s@.len(),
            spec_scan_digits(s@, st as int) == spec_scan_digits(s@, j as int),
            !big ==> acc as int == spec_digits_val(s@, st as int, j as int),
            big ==> spec_digits_val(s@, st as int, j as int) > u64::MAX,
        decreases s@.len() - j,
    {
        let d = dec_val(s[j]).unwrap();
        proof {
            lemma_digits_val_nonneg(s@, st as int, j as int);
        }
        if !big && acc <= (u64::MAX - d as u64) / 10 {
            acc = acc * 10 + d as u64;
        } else {
            big = true;
        }
        j = j + 1;
    }
    // At exit, j is exactly spec_scan_digits(s@, st).
    if j == st {
        return None;
    }
    if big {
        proof {
            lemma_digits_val_nonneg(s@, st as int, j as int);
        }
        return None;
    }
    if neg {
        if acc <= 0x7fffffffffffffff {
            Some((Json::Int(-(acc as i64)), j))
        } else if acc == 0x8000000000000000 {
            Some((Json::Int(i64::MIN), j))
        } else {
            None
        }
    } else {
        if acc <= 0x7fffffffffffffff {
            Some((Json::Int(acc as i64), j))
        } else {
            None
        }
    }
}

// ---------------------------------------------------------------------------
// Values, arrays, objects.
//
// The fuel parameter bounds the recursion; the top-level parse supplies the
// input's length, which every realistic nesting depth is far below.  The
// executable parser carries the same fuel, so it returns exactly what the
// spec functions say in every case.
// ---------------------------------------------------------------------------

pub open spec fn spec_parse_value(s: Seq<char>, i: int, fuel: nat) -> Option<(JsonVal, int)>
    decreases fuel, 0int,
{
    if fuel == 0 {
        None
    } else if i < 0 || i >= s.len() {
        None
    } else {
        let c = s[i];
        if c == 'n' {
            if i + 4 <= s.len() && s[i + 1] == 'u' && s[i + 2] == 'l' && s[i + 3] == 'l' {
                Some((JsonVal::Null, i + 4))
            } else {
                None
            }
        } else if c == 't' {
            if i + 4 <= s.len() && s[i + 1] == 'r' && s[i + 2] == 'u' && s[i + 3] == 'e' {
                Some((JsonVal::Bool(true), i + 4))
            } else {
                None
            }
        } else if c == 'f' {
            if i + 5 <= s.len() && s[i + 1] == 'a' && s[i + 2] == 'l' && s[i + 3] == 's' && s[i
                + 4] == 'e' {
                Some((JsonVal::Bool(false), i + 5))
            } else {
                None
            }
        } else if c == '"' {
            match spec_parse_string_body(s, i + 1) {
                Some(p) => Some((JsonVal::Str(p.0), p.1)),
                None => None,
            }
        } else if c == '-' || spec_dec_val(c) is Some {
            spec_parse_number(s, i)
        } else if c == '[' {
            match spec_parse_elems(s, i + 1, (fuel - 1) as nat) {
                Some(p) => Some((JsonVal::Arr(p.0), p.1)),
                None => None,
            }
        } else if c == '{' {
            match spec_parse_members(s, i + 1, (fuel - 1) as nat) {
                Some(p) => Some((JsonVal::Obj(p.0), p.1)),
                None => None,
            }
        } else {
            None
        }
    }
}

/// Parses what follows an array's opening bracket.
pub open spec fn spec_parse_elems(s: Seq<char>, i: int, fuel: nat) -> Option<(Seq<JsonVal>, int)>
    decreases fuel, 1int,
{
    let j = spec_skip_ws(s, i);
    if j < s.len() && s[j] == ']' {
        Some((Seq::empty(), j + 1))
    } else {
        spec_parse_elems_rest(s, j, fuel)
    }
}

/// Parses one array element at `i` and whatever elements follow it.
pub open spec fn spec_parse_elems_rest(s: Seq<char>, i: int, fuel: nat) -> Option<
    (Seq<JsonVal>, int),
>
    decreases fuel, 0int,
{
    if fuel == 0 {
        None
    } else {
        match spec_parse_value(s, i, (fuel - 1) as nat) {
            None => None,
            Some(p) => {
                let k = spec_skip_ws(s, p.1);
                if k < s.len() && s[k] == ',' {
                    match spec_parse_elems_rest(s, spec_skip_ws(s, k + 1), (fuel - 1) as nat) {
                        Some(q) => Some((seq![p.0] + q.0, q.1)),
                        None => None,
                    }
                } else if k < s.len() && s[k] == ']' {
                    Some((seq![p.0], k + 1))
                } else {
                    None
                }
            },
        }
    }
}

/// Parses what follows an object's opening brace.
pub open spec fn spec_parse_members(s: Seq<char>, i: int, fuel: nat) -> Option<
    (Seq<(Seq<char>, JsonVal)>, int),
>
    decreases fuel, 1int,
{
    let j = spec_skip_ws(s, i);
    if j < s.len() && s[j] == '}' {
        Some((Seq::empty(), j + 1))
    } else {
        spec_parse_members_rest(s, j, fuel)
    }
}

/// Parses one object member at `i` and whatever members follow it.
pub open spec fn spec_parse_members_rest(s: Seq<char>, i: int, fuel: nat) -> Option<
    (Seq<(Seq<char>, JsonVal)>, int),
>
    decreases fuel, 0int,
{
    if fuel == 0 {
        None
    } else if !(0 <= i < s.len() && s[i] == '"') {
        None
    } else {
        match spec_parse_string_body(s, i + 1) {
            None => None,
            Some(key) => {
                let c = spec_skip_ws(s, key.1);
                if !(c < s.len() && s[c] == ':') {
                    None
                } else {
                    match spec_parse_value(s, spec_skip_ws(s, c + 1), (fuel - 1) as nat) {
                        None => None,
                        Some(p) => {
                            let k = spec_skip_ws(s, p.1);
                            if k < s.len() && s[k] == ',' {
                                let k2 = spec_skip_ws(s, k + 1);
                                match spec_parse_members_rest(s, k2, (fuel - 1) as nat) {
                                    Some(q) => Some((seq![(key.0, p.0)] + q.0, q.1)),
                                    None => None,
                                }
                            } else if k < s.len() && s[k] == '}' {
                                Some((seq![(key.0, p.0)], k + 1))
                            } else {
                                None
                            }
                        },
                    }
                }
            },
        }
    }
}

fn parse_value(s: &Vec<char>, i: usize, fuel: usize) -> (r: Option<(Json, usize)>)
    requires
        i <= s@.len(),
    ensures
        match r {
            Some(p) => spec_parse_value(s@, i as int, fuel as nat) == Some((p.0@, p.1 as int))
                && i < p.1 <= s@.len(),
            None => spec_parse_value(s@, i as int, fuel as nat) is None,
        },
    decreases fuel, 0int,
{
    if fuel == 0 {
        return None;
    }
    let n = s.len();
    if i >= n {
        return None;
    }
    let c = s[i];
    if c == 'n' {
        if n - i >= 4 && s[i + 1] == 'u' && s[i + 2] == 'l' && s[i + 3] == 'l' {
            Some((Json::Null, i + 4))
        } else {
            None
        }
    } else if c == 't' {
        if n - i >= 4 && s[i + 1] == 'r' && s[i + 2] == 'u' && s[i + 3] == 'e' {
            Some((Json::Bool(true), i + 4))
        } else {
            None
        }
    } else if c == 'f' {
        if n - i >= 5 && s[i + 1] == 'a' && s[i + 2] == 'l' && s[i + 3] == 's' && s[i + 4]
            == 'e' {
            Some((Json::Bool(false), i + 5))
        } else {
            None
        }
    } else if c == '"' {
        match parse_string_body(s, i + 1) {
            Some(p) => Some((Json::Str(chars_string(&p.0)), p.1)),
            None => None,
        }
    } else if c == '-' || dec_val(c).is_some() {
        parse_number(s, i)
    } else if c == '[' {
        match parse_elems(s, i + 1, fuel - 1) {
            Some(p) => Some((Json::Arr(p.0), p.1)),
            None => None,
        }
    } else if c == '{' {
        match parse_members(s, i + 1, fuel - 1) {
            Some(p) => Some((Json::Obj(p.0), p.1)),
            None => None,
        }
    } else {
        None
    }
}

fn parse_elems(s: &Vec<char>, i: usize, fuel: usize) -> (r: Option<(Vec<Json>, usize)>)
    requires
        i <= s@.len(),
    ensures
        match r {
            Some(p) => spec_parse_elems(s@, i as int, fuel as nat) == Some((view_items(p.0@),
            p.1 as int)) && i < p.1 <= s@.len(),
            None => spec_parse_elems(s@, i as int, fuel as nat) is None,
        },
    decreases fuel, 1int,
{
    let j = skip_ws(s, i);
    if j < s.len() && s[j] == ']' {
        let out: Vec<Json> = Vec::new();
        assert(view_items(out@) =~= Seq::<JsonVal>::empty());
        Some((out, j + 1))
    } else {
        parse_elems_rest(s, j, fuel)
    }
}

fn parse_elems_rest(s: &Vec<char>, i: usize, fuel: usize) -> (r: Option<(Vec<Json>, usize)>)
    requires
        i <= s@.len(),
    ensures
        match r {
            Some(p) => spec_parse_elems_rest(s@, i as int, fuel as nat) == Some((view_items(
                p.0@,
            ), p.1 as int)) && i < p.1 <= s@.len(),
            None => spec_parse_elems_rest(s@, i as int, fuel as nat) is None,
        },
    decreases fuel, 0int,
{
    if fuel == 0 {
        return None;
    }
    match parse_value(s, i, fuel - 1) {
        None => None,
        Some((v, j)) => {
            let k = skip_ws(s, j);
            if k < s.len() && s[k] == ',' {
                let k2 = skip_ws(s, k + 1);
                match parse_elems_rest(s, k2, fuel - 1) {
                    Some((mut rest, j3)) => {
                        let ghost rest0 = rest@;
                        let mut out: Vec<Json> = Vec::new();
                        out.push(v);
                        out.append(&mut rest);
                        proof {
                            assert(out@ =~= seq![v] + rest0);
                            lemma_view_items_cons(v, rest0);
                        }
                        Some((out, j3))
                    },
                    None => None,
                }
            } else if k < s.len() && s[k] == ']' {
                let mut out: Vec<Json> = Vec::new();
                out.push(v);
                proof {
                    assert(out@ =~= seq![v] + Seq::<Json>::empty());
                    lemma_view_items_cons(v, Seq::empty());
                    assert(view_items(out@) =~= seq![v@]);
                }
                Some((out, k + 1))
            } else {
                None
            }
        },
    }
}

fn parse_members(s: &Vec<char>, i: usize, fuel: usize) -> (r: Option<
    (Vec<(String, Json)>, usize),
>)
    requires
        i <= s@.len(),
    ensures
        match r {
            Some(p) => spec_parse_members(s@, i as int, fuel as nat) == Some((view_members(
                p.0@,
            ), p.1 as int)) && i < p.1 <= s@.len(),
            None => spec_parse_members(s@, i as int, fuel as nat) is None,
        },
    decreases fuel, 1int,
{
    let j = skip_ws(s, i);
    if j < s.len() && s[j] == '}' {
        let out: Vec<(String, Json)> = Vec::new();
        assert(view_members(out@) =~= Seq::<(Seq<char>, JsonVal)>::empty());
        Some((out, j + 1))
    } else {
        parse_members_rest(s, j, fuel)
    }
}

fn parse_members_rest(s: &Vec<char>, i: usize, fuel: usize) -> (r: Option<
    (Vec<(String, Json)>, usize),
>)
    requires
        i <= s@.len(),
    ensures
        match r {
            Some(p) => spec_parse_members_rest(s@, i as int, fuel as nat) == Some((view_members(
                p.0@,
            ), p.1 as int)) && i < p.1 <= s@.len(),
            None => spec_parse_members_rest(s@, i as int, fuel as nat) is None,
        },
    decreases fuel, 0int,
{
    if fuel == 0 {
        return None;
    }
    if !(i < s.len() && s[i] == '"') {
        return None;
    }
    match parse_string_body(s, i + 1) {
        None => None,
        Some((key_chars, j)) => {
            let key = chars_string(&key_chars);
            let c = skip_ws(s, j);
            if !(c < s.len() && s[c] == ':') {
                return None;
            }
            let vstart = skip_ws(s, c + 1);
            match parse_value(s, vstart, fuel - 1) {
                None => None,
                Some((v, j2)) => {
                    let k = skip_ws(s, j2);
                    if k < s.len() && s[k] == ',' {
                        let k2 = skip_ws(s, k + 1);
                        match parse_members_rest(s, k2, fuel - 1) {
                            Some((mut rest, j3)) => {
                                let ghost rest0 = rest@;
                                let ghost kv = (key, v);
                                let mut out: Vec<(String, Json)> = Vec::new();
                                out.push((key, v));
                                out.append(&mut rest);
                                proof {
                                    assert(out@ =~= seq![kv] + rest0);
                                    lemma_view_members_cons(kv.0, kv.1, rest0);
                                }
                                Some((out, j3))
                            },
                            None => None,
                        }
                    } else if k < s.len() && s[k] == '}' {
                        let ghost kv = (key, v);
                        let mut out: Vec<(String, Json)> = Vec::new();
                        out.push((key, v));
                        proof {
                            assert(out@ =~= seq![kv] + Seq::<(String, Json)>::empty());
                            lemma_view_members_cons(kv.0, kv.1, Seq::empty());
                            assert(view_members(out@) =~= seq![(kv.0@, kv.1@)]);
                        }
                        Some((out, k + 1))
                    } else {
                        None
                    }
                },
            }
        },
    }
}

/// Parses a complete JSON text: one value, with whitespace allowed around it.
pub open spec fn spec_parse_json(s: Seq<char>) -> Option<JsonVal> {
    let i = spec_skip_ws(s, 0);
    match spec_parse_value(s, i, s.len()) {
        Some(p) => if spec_skip_ws(s, p.1) == s.len() {
            Some(p.0)
        } else {
            None
        },
        None => None,
    }
}

/// Parses a complete JSON text.
pub fn parse_json(s: &str) -> (r: Option<Json>)
    ensures
        match r {
            Some(j) => spec_parse_json(s@) == Some(j@),
            None => spec_parse_json(s@) is None,
        },
{
    let chars = str_chars(s);
    let i = skip_ws(&chars, 0);
    match parse_value(&chars, i, chars.len()) {
        Some((v, j)) => {
            let k = skip_ws(&chars, j);
            if k == chars.len() {
                Some(v)
            } else {
                None
            }
        },
        None => None,
    }
}


// ---------------------------------------------------------------------------
// Writing.
//
// The writer is deterministic: object members are written in the order they
// are held, strings escape exactly the characters JSON requires, and there
// is no optional whitespace.  Two equal values therefore always produce the
// same text.
// ---------------------------------------------------------------------------

/// How one character appears inside a written JSON string.
pub open spec fn spec_escape_char(c: char) -> Seq<char> {
    if c == '"' {
        seq!['\\', '"']
    } else if c == '\\' {
        seq!['\\', '\\']
    } else if c == '\u{0008}' {
        seq!['\\', 'b']
    } else if c == '\u{000C}' {
        seq!['\\', 'f']
    } else if c == '\n' {
        seq!['\\', 'n']
    } else if c == '\r' {
        seq!['\\', 'r']
    } else if c == '\t' {
        seq!['\\', 't']
    } else if (c as u32) < 0x20 {
        seq!['\\', 'u'] + spec_hex_pad4((c as u32) as nat)
    } else {
        seq![c]
    }
}

pub open spec fn spec_escape_prefix(s: Seq<char>, k: int) -> Seq<char>
    decreases k,
{
    if k <= 0 {
        Seq::empty()
    } else {
        spec_escape_prefix(s, k - 1) + spec_escape_char(s[k - 1])
    }
}

/// A string's characters as they appear between the written quotes.
pub open spec fn spec_escape_string(s: Seq<char>) -> Seq<char> {
    spec_escape_prefix(s, s.len() as int)
}

/// An integer as written: a minus sign when negative, then decimal digits.
pub open spec fn spec_write_int(n: int) -> Seq<char> {
    if n >= 0 {
        spec_u64_dec(n as nat)
    } else {
        seq!['-'] + spec_u64_dec((-n) as nat)
    }
}

/// The text the writer produces for a value.
pub open spec fn spec_write_json(v: JsonVal) -> Seq<char>
    decreases v, 0int,
{
    match v {
        JsonVal::Null => seq!['n', 'u', 'l', 'l'],
        JsonVal::Bool(b) => if b {
            seq!['t', 'r', 'u', 'e']
        } else {
            seq!['f', 'a', 'l', 's', 'e']
        },
        JsonVal::Int(n) => spec_write_int(n as int),
        JsonVal::Str(s) => seq!['"'] + spec_escape_string(s) + seq!['"'],
        JsonVal::Arr(items) => seq!['['] + spec_write_elems(items, items.len() as int) + seq![']'],
        JsonVal::Obj(ms) => seq!['{'] + spec_write_membs(ms, ms.len() as int) + seq!['}'],
    }
}

/// The first `k` array elements as written, commas between them.
pub open spec fn spec_write_elems(items: Seq<JsonVal>, k: int) -> Seq<char>
    decreases items, k,
{
    if k <= 0 || k > items.len() {
        Seq::empty()
    } else if k == 1 {
        spec_write_json(items[0])
    } else {
        spec_write_elems(items, k - 1) + seq![','] + spec_write_json(items[k - 1])
    }
}

/// One object member as written.
pub open spec fn spec_write_memb(m: (Seq<char>, JsonVal)) -> Seq<char>
    decreases m, 0int,
{
    seq!['"'] + spec_escape_string(m.0) + seq!['"', ':'] + spec_write_json(m.1)
}

/// The first `k` object members as written, commas between them.
pub open spec fn spec_write_membs(ms: Seq<(Seq<char>, JsonVal)>, k: int) -> Seq<char>
    decreases ms, k,
{
    if k <= 0 || k > ms.len() {
        Seq::empty()
    } else if k == 1 {
        spec_write_memb(ms[0])
    } else {
        spec_write_membs(ms, k - 1) + seq![','] + spec_write_memb(ms[k - 1])
    }
}

fn escape_char_into(c: char, out: &mut Vec<char>)
    ensures
        final(out)@ == old(out)@ + spec_escape_char(c),
{
    if c == '"' {
        out.push('\\');
        out.push('"');
    } else if c == '\\' {
        out.push('\\');
        out.push('\\');
    } else if c == '\u{0008}' {
        out.push('\\');
        out.push('b');
    } else if c == '\u{000C}' {
        out.push('\\');
        out.push('f');
    } else if c == '\n' {
        out.push('\\');
        out.push('n');
    } else if c == '\r' {
        out.push('\\');
        out.push('r');
    } else if c == '\t' {
        out.push('\\');
        out.push('t');
    } else if (c as u32) < 0x20 {
        out.push('\\');
        out.push('u');
        let mut h = hex_pad4_chars(c as u32);
        out.append(&mut h);
        assert(out@ =~= old(out)@ + spec_escape_char(c));
    } else {
        out.push(c);
    }
    assert(out@ =~= old(out)@ + spec_escape_char(c));
}

fn escape_string_into(s: &String, out: &mut Vec<char>)
    ensures
        final(out)@ == old(out)@ + spec_escape_string(s@),
{
    let cs = str_chars(s.as_str());
    let mut k: usize = 0;
    while k < cs.len()
        invariant
            k <= cs@.len(),
            cs@ == s@,
            out@ == old(out)@ + spec_escape_prefix(s@, k as int),
        decreases cs@.len() - k,
    {
        escape_char_into(cs[k], out);
        assert(out@ =~= old(out)@ + (spec_escape_prefix(s@, k as int) + spec_escape_char(
            s@[k as int],
        )));
        k = k + 1;
    }
}

fn write_int_into(n: i64, out: &mut Vec<char>)
    ensures
        final(out)@ == old(out)@ + spec_write_int(n as int),
{
    if n >= 0 {
        let mut d = u64_dec_chars(n as u64);
        out.append(&mut d);
    } else {
        let m: u64 = if n == i64::MIN {
            9223372036854775808u64
        } else {
            (-n) as u64
        };
        assert(m as nat == (-(n as int)) as nat);
        out.push('-');
        let mut d = u64_dec_chars(m);
        out.append(&mut d);
        assert(out@ =~= old(out)@ + spec_write_int(n as int));
    }
}

/// Writes a value as JSON text.
#[verifier::loop_isolation(false)]
pub fn write_json(j: &Json) -> (r: Vec<char>)
    ensures
        r@ == spec_write_json(j@),
    decreases j, 0int,
{
    let mut out: Vec<char> = Vec::new();
    match j {
        Json::Null => {
            out.push('n');
            out.push('u');
            out.push('l');
            out.push('l');
            assert(out@ =~= spec_write_json(j@));
        },
        Json::Bool(b) => {
            if *b {
                out.push('t');
                out.push('r');
                out.push('u');
                out.push('e');
            } else {
                out.push('f');
                out.push('a');
                out.push('l');
                out.push('s');
                out.push('e');
            }
            assert(out@ =~= spec_write_json(j@));
        },
        Json::Int(n) => {
            write_int_into(*n, &mut out);
        },
        Json::Str(s) => {
            out.push('"');
            escape_string_into(s, &mut out);
            out.push('"');
            assert(out@ =~= spec_write_json(j@));
        },
        Json::Arr(items) => {
            proof {
                lemma_view_items_index(items@);
            }
            let ghost vitems = view_items(items@);
            out.push('[');
            let mut k: usize = 0;
            while k < items.len()
                invariant
                    k <= items@.len(),
                    vitems == view_items(items@),
                    vitems.len() == items@.len(),
                    forall|i: int| 0 <= i < items@.len() ==> vitems[i] == #[trigger] items@[i]@,
                    out@ == seq!['['] + spec_write_elems(vitems, k as int),
                decreases items@.len() - k,
            {
                if k > 0 {
                    out.push(',');
                }
                proof {
                    assert(decreases_to!(*j => j->Arr_0));
                    assert(j->Arr_0 == *items);
                    assert(decreases_to!(*items => items@));
                    assert(decreases_to!(items@ => items@[k as int]));
                }
                let mut part = write_json(&items[k]);
                out.append(&mut part);
                proof {
                    if k == 0 {
                        assert(out@ =~= seq!['['] + spec_write_elems(vitems, 1));
                    } else {
                        assert(out@ =~= seq!['['] + (spec_write_elems(vitems, k as int) + seq![
                            ',',
                        ] + spec_write_json(vitems[k as int])));
                    }
                }
                k = k + 1;
            }
            out.push(']');
            assert(out@ =~= spec_write_json(j@));
        },
        Json::Obj(members) => {
            proof {
                lemma_view_members_index(members@);
            }
            let ghost vms = view_members(members@);
            out.push('{');
            let mut k: usize = 0;
            while k < members.len()
                invariant
                    k <= members@.len(),
                    vms == view_members(members@),
                    vms.len() == members@.len(),
                    forall|i: int|
                        0 <= i < members@.len() ==> vms[i] == (
                        #[trigger] members@[i].0@,
                        members@[i].1@,
                        ),
                    out@ == seq!['{'] + spec_write_membs(vms, k as int),
                decreases members@.len() - k,
            {
                if k > 0 {
                    out.push(',');
                }
                let ghost out_mid = out@;
                out.push('"');
                escape_string_into(&members[k].0, &mut out);
                out.push('"');
                out.push(':');
                proof {
                    assert(decreases_to!(*j => j->Obj_0));
                    assert(j->Obj_0 == *members);
                    assert(decreases_to!(*members => members@));
                    assert(decreases_to!(members@ => members@[k as int]));
                    assert(decreases_to!(members@[k as int] => members@[k as int].1));
                }
                let mut part = write_json(&members[k].1);
                out.append(&mut part);
                proof {
                    assert(out@ =~= out_mid + spec_write_memb(vms[k as int]));
                    if k == 0 {
                        assert(out@ =~= seq!['{'] + spec_write_membs(vms, 1));
                    } else {
                        assert(out@ =~= seq!['{'] + (spec_write_membs(vms, k as int) + seq![
                            ',',
                        ] + spec_write_memb(vms[k as int])));
                    }
                }
                k = k + 1;
            }
            out.push('}');
            assert(out@ =~= spec_write_json(j@));
        },
    }
    out
}

/// Writes a value as a JSON string.
pub fn write_json_string(j: &Json) -> (r: String)
    ensures
        r@ == spec_write_json(j@),
{
    let chars = write_json(j);
    chars_string(&chars)
}


// ---------------------------------------------------------------------------
// Reading objects.
//
// The typed layer reads an object the way the wire format defines it: a
// known key must occur exactly once (a duplicate is an error), an unknown
// key is ignored, and the first occurrence carries the value.
// ---------------------------------------------------------------------------

/// How many of the first `i` members have the given key.
pub open spec fn spec_key_count(ms: Seq<(Seq<char>, JsonVal)>, key: Seq<char>, i: int) -> int
    decreases i,
{
    if i <= 0 {
        0
    } else {
        spec_key_count(ms, key, i - 1) + if ms[i - 1].0 == key {
            1int
        } else {
            0int
        }
    }
}

/// The value of the first of the first `i` members with the given key.
pub open spec fn spec_key_first(ms: Seq<(Seq<char>, JsonVal)>, key: Seq<char>, i: int) -> Option<
    JsonVal,
>
    decreases i,
{
    if i <= 0 {
        None
    } else {
        match spec_key_first(ms, key, i - 1) {
            Some(v) => Some(v),
            None => if ms[i - 1].0 == key {
                Some(ms[i - 1].1)
            } else {
                None
            },
        }
    }
}

/// How many members have the given key.
pub open spec fn key_count(ms: Seq<(Seq<char>, JsonVal)>, key: Seq<char>) -> int {
    spec_key_count(ms, key, ms.len() as int)
}

/// The value of the first member with the given key.
pub open spec fn key_first(ms: Seq<(Seq<char>, JsonVal)>, key: Seq<char>) -> Option<JsonVal> {
    spec_key_first(ms, key, ms.len() as int)
}

/// Counts the members with the given key and finds the first of them.
#[verifier::loop_isolation(false)]
pub fn scan_members(members: &Vec<(String, Json)>, key: &str) -> (r: (usize, Option<usize>))
    ensures
        r.0 as int == key_count(view_members(members@), key@),
        match r.1 {
            Some(idx) => idx < members@.len() && view_members(members@)[idx as int].0 == key@
                && key_first(view_members(members@), key@) == Some(
                view_members(members@)[idx as int].1,
            ),
            None => key_first(view_members(members@), key@) is None && r.0 == 0,
        },
{
    proof {
        lemma_view_members_index(members@);
    }
    let ghost ms = view_members(members@);
    let mut cnt: usize = 0;
    let mut first: Option<usize> = None;
    let mut i: usize = 0;
    while i < members.len()
        invariant
            i <= members@.len(),
            cnt as int == spec_key_count(ms, key@, i as int),
            cnt <= i,
            match first {
                Some(idx) => idx < i && ms[idx as int].0 == key@ && spec_key_first(
                    ms,
                    key@,
                    i as int,
                ) == Some(ms[idx as int].1),
                None => spec_key_first(ms, key@, i as int) is None && cnt == 0,
            },
        decreases members@.len() - i,
    {
        if crate::strutil::string_eq_str(&members[i].0, key) {
            cnt = cnt + 1;
            if first.is_none() {
                first = Some(i);
            }
        }
        i = i + 1;
    }
    (cnt, first)
}

// ---------------------------------------------------------------------------
// The typed layer.
// ---------------------------------------------------------------------------

/// A type the wire protocol can deserialize from a JSON value.  The spec
/// function decides alone which values parse and what they denote.
pub trait FromJson: Sized + View {
    /// The typed view a JSON value denotes, if any.
    spec fn spec_from_json(v: JsonVal) -> Option<Self::V>;

    /// Reads a value; `spec_from_json` says exactly when this succeeds and
    /// what it returns.
    fn from_json(v: &Json) -> (r: Option<Self>)
        ensures
            match r {
                Some(x) => Self::spec_from_json(v@) == Some(x@),
                None => Self::spec_from_json(v@) is None,
            },
    ;
}

/// A type the wire protocol can serialize as a JSON value.  Serialization
/// can be refused (the catch-all variant of a forward-compatible union has
/// no wire form), which `spec_to_json` decides.
pub trait ToJson: View {
    /// The JSON value a typed value is written as, if any.
    spec fn spec_to_json(v: Self::V) -> Option<JsonVal>;

    /// Writes the value; `spec_to_json` says exactly what comes out.
    fn to_json(&self) -> (r: Option<Json>)
        ensures
            match r {
                Some(j) => Self::spec_to_json(self@) == Some(j@),
                None => Self::spec_to_json(self@) is None,
            },
    ;
}


// ---------------------------------------------------------------------------
// Union objects.
//
// The wire format writes a union value as an object whose first member is
// named ".tag" and holds the variant's name as a string; a variant's fields,
// if any, follow as further members.
// ---------------------------------------------------------------------------

/// The tag of a union object, when its first member is a ".tag" string.
pub open spec fn spec_union_tag(v: JsonVal) -> Option<Seq<char>> {
    match v {
        JsonVal::Obj(ms) => if ms.len() >= 1 && ms[0].0 == ".tag"@ && ms[0].1 is Str {
            Some(ms[0].1->Str_0)
        } else {
            None
        },
        _ => None,
    }
}

/// Reads a union object's tag.
pub fn union_tag(v: &Json) -> (r: Option<String>)
    ensures
        match r {
            Some(t) => spec_union_tag(v@) == Some(t@),
            None => spec_union_tag(v@) is None,
        },
{
    match v {
        Json::Obj(members) => {
            proof {
                lemma_view_members_index(members@);
            }
            if members.len() == 0 {
                return None;
            }
            if !crate::strutil::string_eq_str(&members[0].0, ".tag") {
                return None;
            }
            match &members[0].1 {
                Json::Str(s) => Some(s.clone()),
                _ => None,
            }
        },
        _ => None,
    }
}

/// Builds the one-member object a payload-free union variant is written as.
pub fn tag_obj(tag: &str) -> (r: Json)
    ensures
        r@ == JsonVal::Obj(seq![(".tag"@, JsonVal::Str(tag@))]),
{
    let mut ms: Vec<(String, Json)> = Vec::new();
    ms.push((".tag".to_owned(), Json::Str(tag.to_owned())));
    proof {
        lemma_view_members_index(ms@);
        assert(view_members(ms@) =~= seq![(".tag"@, JsonVal::Str(tag@))]);
    }
    Json::Obj(ms)
}

impl ToJson for () {
    open spec fn spec_to_json(v: ()) -> Option<JsonVal> {
        Some(JsonVal::Null)
    }

    fn to_json(&self) -> (r: Option<Json>) {
        Some(Json::Null)
    }
}

impl FromJson for () {
    open spec fn spec_from_json(v: JsonVal) -> Option<()> {
        if v is Null {
            Some(())
        } else {
            None
        }
    }

    fn from_json(v: &Json) -> (r: Option<()>) {
        match v {
            Json::Null => Some(()),
            _ => None,
        }
    }
}

} // verus!
