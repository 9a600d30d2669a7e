use vstd::prelude::*;
use vstd::utf8::{
    decode_utf8, decode_utf8_encode_utf8, encode_scalar, encode_utf8, is_scalar, valid_utf8,
};

use crate::raw_text::string_from_utf8;

verus! {

/// The message prefix for a scheduled fetch whose transport failed.
pub open spec fn request_failure_prefix() -> Seq<char> {
    "Request failed: "@
}

/// The message prefix for a body that is not the expected JSON envelope.
pub open spec fn parse_failure_prefix() -> Seq<char> {
    "Failed to parse response: "@
}

/// True of the JSON whitespace bytes: space, tab, line feed, carriage return.
pub open spec fn is_ws_byte(b: u8) -> bool {
    b == 0x20 || b == 0x09 || b == 0x0A || b == 0x0D
}

/// The position of the first byte at or after `i` that is not JSON whitespace.
pub open spec fn spec_skip_ws(s: Seq<u8>, i: int) -> int
    decreases s.len() - i,
{
    if 0 <= i < s.len() && is_ws_byte(s[i]) {
        spec_skip_ws(s, i + 1)
    } else {
        i
    }
}

/// True of the bytes that are hexadecimal digits, either case.
pub open spec fn is_hex_digit(b: u8) -> bool {
    (0x30 <= b && b <= 0x39) || (0x41 <= b && b <= 0x46) || (0x61 <= b && b <= 0x66)
}

/// The value of a hexadecimal digit byte.
pub open spec fn hex_digit_value(b: u8) -> u32
    recommends
        is_hex_digit(b),
{
    if 0x30 <= b && b <= 0x39 {
        (b - 0x30) as u32
    } else if 0x41 <= b && b <= 0x46 {
        (b - 0x41 + 10) as u32
    } else {
        (b - 0x61 + 10) as u32
    }
}

/// True when four hexadecimal digits stand at position `i`.
pub open spec fn hex4_at(s: Seq<u8>, i: int) -> bool {
    &&& 0 <= i
    &&& i + 4 <= s.len()
    &&& is_hex_digit(s[i])
    &&& is_hex_digit(s[i + 1])
    &&& is_hex_digit(s[i + 2])
    &&& is_hex_digit(s[i + 3])
}

/// The value of the four hexadecimal digits at position `i`.
pub open spec fn hex4_value(s: Seq<u8>, i: int) -> u32
    recommends
        hex4_at(s, i),
{
    (hex_digit_value(s[i]) * 0x1000 + hex_digit_value(s[i + 1]) * 0x100 + hex_digit_value(
        s[i + 2],
    ) * 0x10 + hex_digit_value(s[i + 3])) as u32
}

/// What a single-character JSON escape denotes, if the byte after the
/// backslash is one.
pub open spec fn escape_byte(e: u8) -> Option<u8> {
    if e == 0x22 {
        Some(0x22u8)
    } else if e == 0x5C {
        Some(0x5Cu8)
    } else if e == 0x2F {
        Some(0x2Fu8)
    } else if e == 0x62 {
        Some(0x08u8)
    } else if e == 0x66 {
        Some(0x0Cu8)
    } else if e == 0x6E {
        Some(0x0Au8)
    } else if e == 0x72 {
        Some(0x0Du8)
    } else if e == 0x74 {
        Some(0x09u8)
    } else {
        None
    }
}

/// The Unicode scalar that a JSON surrogate escape pair denotes.
pub open spec fn supplementary_scalar(hi: u32, lo: u32) -> u32
    recommends
        0xD800 <= hi <= 0xDBFF,
        0xDC00 <= lo <= 0xDFFF,
{
    (0x10000 + (hi - 0xD800) * 0x400 + (lo - 0xDC00)) as u32
}

/// The body of a JSON string from position `i` (just after the opening
/// quote) to its closing quote: the UTF-8 bytes the string denotes, with
/// every escape replaced by what it stands for, and the position just after
/// the closing quote. `None` when no well-formed string body starts there.
pub open spec fn spec_string_rest(s: Seq<u8>, i: int) -> Option<(Seq<u8>, int)>
    decreases s.len() - i,
{
    if i < 0 || i >= s.len() {
        None
    } else if s[i] == 0x22 {
        Some((Seq::empty(), i + 1))
    } else if s[i] == 0x5C {
        if i + 2 <= s.len() && escape_byte(s[i + 1]) is Some {
            match (escape_byte(s[i + 1]), spec_string_rest(s, i + 2)) {
                (Some(b), Some(t)) => Some((seq![b] + t.0, t.1)),
                _ => None,
            }
        } else if i + 1 < s.len() && s[i + 1] == 0x75 {
            if hex4_at(s, i + 2) {
                let v = hex4_value(s, i + 2);
                if 0xD800 <= v && v <= 0xDBFF {
                    if i + 8 <= s.len() && s[i + 6] == 0x5C && s[i + 7] == 0x75 && hex4_at(
                        s,
                        i + 8,
                    ) {
                        let w = hex4_value(s, i + 8);
                        if 0xDC00 <= w && w <= 0xDFFF {
                            match spec_string_rest(s, i + 12) {
                                Some(t) => Some(
                                    (encode_scalar(supplementary_scalar(v, w)) + t.0, t.1),
                                ),
                                None => None,
                            }
                        } else {
                            None
                        }
                    } else {
                        None
                    }
                } else if 0xDC00 <= v && v <= 0xDFFF {
                    None
                } else {
                    match spec_string_rest(s, i + 6) {
                        Some(t) => Some((encode_scalar(v) + t.0, t.1)),
                        None => None,
                    }
                }
            } else {
                None
            }
        } else {
            None
        }
    } else if s[i] >= 0x20 {
        match spec_string_rest(s, i + 1) {
            Some(t) => Some((seq![s[i]] + t.0, t.1)),
            None => None,
        }
    } else {
        None
    }
}

/// A JSON string at position `i`: an opening quote followed by a string
/// body. Yields the denoted bytes and the position after the closing quote.
pub open spec fn spec_string_at(s: Seq<u8>, i: int) -> Option<(Seq<u8>, int)> {
    if 0 <= i < s.len() && s[i] == 0x22 {
        spec_string_rest(s, i + 1)
    } else {
        None
    }
}

/// The UTF-8 bytes of the one key the envelope admits.
pub open spec fn text_key() -> Seq<u8> {
    seq![0x74u8, 0x65u8, 0x78u8, 0x74u8]
}

/// What the envelope denotes: a JSON object holding exactly one member,
/// whose key is `text` and whose value is a string, with nothing but
/// whitespace around the tokens. Yields the bytes of the `text` value.
pub open spec fn spec_envelope_text(s: Seq<u8>) -> Option<Seq<u8>> {
    let i = spec_skip_ws(s, 0);
    if i < s.len() && s[i] == 0x7B {
        match spec_string_at(s, spec_skip_ws(s, i + 1)) {
            Some(key) => if key.0 == text_key() {
                let l = spec_skip_ws(s, key.1);
                if l < s.len() && s[l] == 0x3A {
                    match spec_string_at(s, spec_skip_ws(s, l + 1)) {
                        Some(value) => {
                            let p = spec_skip_ws(s, value.1);
                            if p < s.len() && s[p] == 0x7D && spec_skip_ws(s, p + 1) == s.len() {
                                Some(value.0)
                            } else {
                                None
                            }
                        },
                        None => None,
                    }
                } else {
                    None
                }
            } else {
                None
            },
            None => None,
        }
    } else {
        None
    }
}

fn ws_byte(b: u8) -> (r: bool)
    ensures
        r == is_ws_byte(b),
{
    b == 0x20 || b == 0x09 || b == 0x0A || b == 0x0D
}

fn skip_ws(s: &Vec<u8>, i: usize) -> (r: usize)
    requires
        i <= s@.len(),
    ensures
        i <= r <= s@.len(),
        r == spec_skip_ws(s@, i as int),
    decreases s@.len() - i,
{
    let mut j = i;
    while j < s.len() && ws_byte(s[j])
        invariant
            i <= j <= s@.len(),
            spec_skip_ws(s@, i as int) == spec_skip_ws(s@, j as int),
        decreases s@.len() - j,
    {
        j = j + 1;
    }
    j
}

fn hex_digit(b: u8) -> (r: Option<u8>)
    ensures
        r matches Some(v) ==> is_hex_digit(b) && v == hex_digit_value(b) && v <= 15,
        r is None ==> !is_hex_digit(b),
{
    if 0x30 <= b && b <= 0x39 {
        Some(b - 0x30)
    } else if 0x41 <= b && b <= 0x46 {
        Some(b - 0x41 + 10)
    } else if 0x61 <= b && b <= 0x66 {
        Some(b - 0x61 + 10)
    } else {
        None
    }
}

fn hex4(s: &Vec<u8>, i: usize) -> (r: Option<u32>)
    requires
        i <= s@.len(),
    ensures
        r matches Some(v) ==> hex4_at(s@, i as int) && v == hex4_value(s@, i as int) && v
            <= 0xFFFF,
        r is None ==> !hex4_at(s@, i as int),
{
    if s.len() - i < 4 {
        return None;
    }
    let d0 = match hex_digit(s[i]) {
        Some(v) => v,
        None => {
            return None;
        },
    };
    let d1 = match hex_digit(s[i + 1]) {
        Some(v) => v,
        None => {
            return None;
        },
    };
    let d2 = match hex_digit(s[i + 2]) {
        Some(v) => v,
        None => {
            return None;
        },
    };
    let d3 = match hex_digit(s[i + 3]) {
        Some(v) => v,
        None => {
            return None;
        },
    };
    Some((d0 as u32) * 0x1000 + (d1 as u32) * 0x100 + (d2 as u32) * 0x10 + (d3 as u32))
}

fn escape_byte_exec(e: u8) -> (r: Option<u8>)
    ensures
        r == escape_byte(e),
{
    if e == 0x22 {
        Some(0x22u8)
    } else if e == 0x5C {
        Some(0x5Cu8)
    } else if e == 0x2F {
        Some(0x2Fu8)
    } else if e == 0x62 {
        Some(0x08u8)
    } else if e == 0x66 {
        Some(0x0Cu8)
    } else if e == 0x6E {
        Some(0x0Au8)
    } else if e == 0x72 {
        Some(0x0Du8)
    } else if e == 0x74 {
        Some(0x09u8)
    } else {
        None
    }
}

fn encode_scalar_bytes(v: u32) -> (r: Vec<u8>)
    requires
        is_scalar(v),
    ensures
        r@ == encode_scalar(v),
{
    let mut out: Vec<u8> = Vec::new();
    if v <= 0x7F {
        out.push((v & 0x7F) as u8);
        proof {
            assert(out@ =~= encode_scalar(v));
        }
    } else if v <= 0x7FF {
        out.push(0xC0u8 | ((v >> 6) & 0x1F) as u8);
        out.push(0x80u8 | (v & 0x3F) as u8);
        proof {
            assert(out@ =~= encode_scalar(v));
        }
    } else if v <= 0xFFFF {
        out.push(0xE0u8 | ((v >> 12) & 0x0F) as u8);
        out.push(0x80u8 | ((v >> 6) & 0x3F) as u8);
        out.push(0x80u8 | (v & 0x3F) as u8);
        proof {
            assert(out@ =~= encode_scalar(v));
        }
    } else {
        out.push(0xF0u8 | ((v >> 18) & 0x7) as u8);
        out.push(0x80u8 | ((v >> 12) & 0x3F) as u8);
        out.push(0x80u8 | ((v >> 6) & 0x3F) as u8);
        out.push(0x80u8 | (v & 0x3F) as u8);
        proof {
            assert(out@ =~= encode_scalar(v));
        }
    }
    out
}

fn prepend_byte(b: u8, rest: Vec<u8>) -> (r: Vec<u8>)
    ensures
        r@ == seq![b] + rest@,
{
    let ghost rest0 = rest@;
    let mut out: Vec<u8> = Vec::new();
    let mut tail = rest;
    out.push(b);
    out.append(&mut tail);
    proof {
        assert(out@ =~= seq![b] + rest0);
    }
    out
}

fn concat_bytes(front: Vec<u8>, back: Vec<u8>) -> (r: Vec<u8>)
    ensures
        r@ == front@ + back@,
{
    let mut out = front;
    let mut tail = back;
    out.append(&mut tail);
    out
}

fn string_rest(s: &Vec<u8>, i: usize) -> (r: Option<(Vec<u8>, usize)>)
    requires
        i <= s@.len(),
    ensures
        r matches Some(p) ==> p.1 <= s@.len() && spec_string_rest(s@, i as int) == Some(
            (p.0@, p.1 as int),
        ),
        r is None ==> spec_string_rest(s@, i as int) is None,
    decreases s@.len() - i,
{
    if i >= s.len() {
        return None;
    }
    let b = s[i];
    if b == 0x22 {
        let empty: Vec<u8> = Vec::new();
        proof {
            assert(empty@ =~= Seq::<u8>::empty());
        }
        return Some((empty, i + 1));
    }
    if b == 0x5C {
        if s.len() - i < 2 {
            return None;
        }
        let e = s[i + 1];
        match escape_byte_exec(e) {
            Some(eb) => {
                return match string_rest(s, i + 2) {
                    Some(p) => Some((prepend_byte(eb, p.0), p.1)),
                    None => None,
                };
            },
            None => {},
        }
        if e != 0x75 {
            return None;
        }
        let v = match hex4(s, i + 2) {
            Some(v) => v,
            None => {
                return None;
            },
        };
        if 0xD800 <= v && v <= 0xDBFF {
            if !(s.len() - i >= 8 && s[i + 6] == 0x5C && s[i + 7] == 0x75) {
                return None;
            }
            let w = match hex4(s, i + 8) {
                Some(w) => w,
                None => {
                    return None;
                },
            };
            if !(0xDC00 <= w && w <= 0xDFFF) {
                return None;
            }
            let scalar = 0x10000 + (v - 0xD800) * 0x400 + (w - 0xDC00);
            proof {
                assert(scalar == supplementary_scalar(v, w));
                assert(is_scalar(scalar));
            }
            return match string_rest(s, i + 12) {
                Some(p) => Some((concat_bytes(encode_scalar_bytes(scalar), p.0), p.1)),
                None => None,
            };
        }
        if 0xDC00 <= v && v <= 0xDFFF {
            return None;
        }
        proof {
            assert(is_scalar(v));
        }
        return match string_rest(s, i + 6) {
            Some(p) => Some((concat_bytes(encode_scalar_bytes(v), p.0), p.1)),
            None => None,
        };
    }
    if b >= 0x20 {
        return match string_rest(s, i + 1) {
            Some(p) => Some((prepend_byte(b, p.0), p.1)),
            None => None,
        };
    }
    None
}

fn string_at(s: &Vec<u8>, i: usize) -> (r: Option<(Vec<u8>, usize)>)
    requires
        i <= s@.len(),
    ensures
        r matches Some(p) ==> p.1 <= s@.len() && spec_string_at(s@, i as int) == Some(
            (p.0@, p.1 as int),
        ),
        r is None ==> spec_string_at(s@, i as int) is None,
{
    if i < s.len() && s[i] == 0x22 {
        string_rest(s, i + 1)
    } else {
        None
    }
}

/// Parses the JSON envelope `{"text": "<string>"}`, and nothing of any other
/// shape. Yields the UTF-8 bytes that the `text` string denotes.
pub fn envelope_text_bytes(s: &Vec<u8>) -> (r: Option<Vec<u8>>)
    ensures
        r matches Some(v) ==> spec_envelope_text(s@) == Some(v@),
        r is None ==> spec_envelope_text(s@) is None,
{
    let i = skip_ws(s, 0);
    if !(i < s.len() && s[i] == 0x7B) {
        return None;
    }
    let j = skip_ws(s, i + 1);
    let key = match string_at(s, j) {
        Some(p) => p,
        None => {
            return None;
        },
    };
    let key_ok = key.0.len() == 4 && key.0[0] == 0x74 && key.0[1] == 0x65 && key.0[2] == 0x78
        && key.0[3] == 0x74;
    proof {
        if key_ok {
            assert(key.0@ =~= text_key());
        } else {
            assert(key.0@ != text_key());
        }
    }
    if !key_ok {
        return None;
    }
    let l = skip_ws(s, key.1);
    if !(l < s.len() && s[l] == 0x3A) {
        return None;
    }
    let m = skip_ws(s, l + 1);
    let value = match string_at(s, m) {
        Some(p) => p,
        None => {
            return None;
        },
    };
    let p = skip_ws(s, value.1);
    if p < s.len() && s[p] == 0x7D {
        let q = skip_ws(s, p + 1);
        if q == s.len() {
            return Some(value.0);
        }
    }
    None
}

/// Reads a fetched body for the scheduling design: the `text` field of the
/// JSON envelope, or the exact parse-failure message.
pub fn parse_envelope(body: &Vec<u8>) -> (r: Result<String, String>)
    ensures
        r matches Ok(s) ==> spec_envelope_text(body@) == Some(encode_utf8(s@)),
        (match spec_envelope_text(body@) {
            Some(t) => valid_utf8(t) ==> (r matches Ok(s) && s@ == decode_utf8(t)),
            None => r is Err,
        }),
        r matches Err(m) ==> (exists|d: Seq<char>| m@ == parse_failure_prefix() + d),
{
    match envelope_text_bytes(body) {
        Some(bytes) => {
            let ghost t = bytes@;
            match string_from_utf8(bytes) {
                Ok(s) => {
                    proof {
                        decode_utf8_encode_utf8(t);
                    }
                    Ok(s)
                },
                Err(d) => {
                    let mut m = String::from_str("Failed to parse response: ");
                    m.append(d.as_str());
                    proof {
                        assert(m@ == parse_failure_prefix() + d@);
                    }
                    Err(m)
                },
            }
        },
        None => {
            let mut m = String::from_str("Failed to parse response: ");
            m.append("expected an object with a single text field");
            proof {
                assert(m@ == parse_failure_prefix()
                    + "expected an object with a single text field"@);
            }
            Err(m)
        },
    }
}

/// The scheduled task's final result, from the transport's outcome: a
/// transport failure becomes the exact "Request failed" message; a received
/// body must be the JSON envelope, and its `text` field is the result.
pub fn task_outcome(transport: Result<Vec<u8>, String>) -> (r: Result<String, String>)
    ensures
        transport matches Err(d) ==> (r matches Err(m) && m@ == request_failure_prefix() + d@),
        transport matches Ok(body) ==> (r matches Ok(s) ==> spec_envelope_text(body@) == Some(
            encode_utf8(s@),
        )),
        transport matches Ok(body) ==> (match spec_envelope_text(body@) {
            Some(t) => valid_utf8(t) ==> (r matches Ok(s) && s@ == decode_utf8(t)),
            None => r is Err,
        }),
        transport matches Ok(body) ==> (r matches Err(m) ==> (exists|d: Seq<char>|
            m@ == parse_failure_prefix() + d)),
{
    match transport {
        Ok(body) => parse_envelope(&body),
        Err(d) => {
            let mut m = String::from_str("Request failed: ");
            m.append(d.as_str());
            Err(m)
        },
    }
}

} // verus!
