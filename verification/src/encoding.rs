//! Wire formats built by the client: `application/x-www-form-urlencoded`
//! query strings, JSON string literals and arrays, and the validity rule for
//! HTTP header values.

use vstd::prelude::*;
use vstd::string::*;
use vstd::utf8::encode_utf8;

use crate::text::{hex_lower_char, hex_upper_char, push_char, spec_hex_lower, spec_hex_upper};

verus! {

/// Whether a byte may stand in an HTTP header value: horizontal tab or any
/// byte from space upward except delete.
pub open spec fn spec_header_byte_ok(b: u8) -> bool {
    b == 9 || (32 <= b && b != 127)
}

/// Whether every byte of a header value is allowed.
pub open spec fn spec_header_bytes_ok(bs: Seq<u8>) -> bool {
    forall|i: int| 0 <= i < bs.len() ==> spec_header_byte_ok(bs[i])
}

/// Checks that `s` can be sent as an HTTP header value.
pub fn header_value_ok(s: &str) -> (r: bool)
    ensures
        r == spec_header_bytes_ok(s.spec_bytes()),
{
    let bs = s.as_bytes_vec();
    let mut i: usize = 0;
    while i < bs.len()
        invariant
            bs@ == s.spec_bytes(),
            i <= bs@.len(),
            forall|j: int| 0 <= j < i ==> spec_header_byte_ok(bs@[j]),
        decreases bs@.len() - i,
    {
        let b = bs[i];
        if !(b == 9 || (32 <= b && b != 127)) {
            proof {
                assert(!spec_header_byte_ok(bs@[i as int]));
            }
            return false;
        }
        i += 1;
    }
    true
}

/// Whether a byte passes through form-urlencoding unchanged.
pub open spec fn spec_form_byte_plain(b: u8) -> bool {
    (48 <= b && b <= 57) || (65 <= b && b <= 90) || (97 <= b && b <= 122) || b == 42 || b == 45
        || b == 46 || b == 95
}

/// The form-urlencoding of one byte: alphanumerics and `*-._` pass through,
/// space becomes `+`, everything else becomes `%` with two uppercase
/// hexadecimal digits.
pub open spec fn spec_form_byte(b: u8) -> Seq<char> {
    if b == 32 {
        seq!['+']
    } else if spec_form_byte_plain(b) {
        seq![b as char]
    } else {
        seq!['%', spec_hex_upper(b as int / 16), spec_hex_upper(b as int % 16)]
    }
}

/// The form-urlencoding of a byte sequence.
pub open spec fn spec_form_encoded(bs: Seq<u8>) -> Seq<char>
    decreases bs.len(),
{
    if bs.len() == 0 {
        Seq::empty()
    } else {
        spec_form_encoded(bs.drop_last()) + spec_form_byte(bs.last())
    }
}

/// Appends the form-urlencoding of the bytes of `s` to `out`.
pub fn form_encode_append(out: &mut String, s: &str)
    ensures
        final(out)@ == old(out)@ + spec_form_encoded(s.spec_bytes()),
{
    let bs = s.as_bytes_vec();
    let mut i: usize = 0;
    proof {
        assert(out@ =~= old(out)@ + spec_form_encoded(bs@.take(0)));
    }
    while i < bs.len()
        invariant
            bs@ == s.spec_bytes(),
            i <= bs@.len(),
            out@ == old(out)@ + spec_form_encoded(bs@.take(i as int)),
        decreases bs@.len() - i,
    {
        let b = bs[i];
        let ghost prev = out@;
        if b == 32 {
            push_char(out, '+');
        } else if (48 <= b && b <= 57) || (65 <= b && b <= 90) || (97 <= b && b <= 122) || b == 42
            || b == 45 || b == 46 || b == 95 {
            push_char(out, b as char);
        } else {
            push_char(out, '%');
            push_char(out, hex_upper_char(b / 16));
            push_char(out, hex_upper_char(b % 16));
        }
        proof {
            assert(out@ =~= prev + spec_form_byte(bs@[i as int]));
            assert(bs@.take(i + 1).drop_last() =~= bs@.take(i as int));
            assert(bs@.take(i + 1).last() == bs@[i as int]);
            assert(out@ =~= old(out)@ + spec_form_encoded(bs@.take(i + 1)));
        }
        i += 1;
    }
    proof {
        assert(bs@.take(bs@.len() as int) =~= bs@);
    }
}

/// The query-string rendering of one key/value pair: both sides
/// form-urlencoded from their UTF-8 bytes, joined by `=`.
pub open spec fn spec_query_pair(k: Seq<char>, v: Seq<char>) -> Seq<char> {
    spec_form_encoded(encode_utf8(k)) + seq!['='] + spec_form_encoded(encode_utf8(v))
}

/// The query-string rendering of a parameter list, pairs joined by `&`, in
/// the order given.
pub open spec fn spec_query(ps: Seq<(String, String)>) -> Seq<char>
    decreases ps.len(),
{
    if ps.len() == 0 {
        Seq::empty()
    } else if ps.len() == 1 {
        spec_query_pair(ps[0].0@, ps[0].1@)
    } else {
        spec_query(ps.drop_last()) + seq!['&'] + spec_query_pair(ps.last().0@, ps.last().1@)
    }
}

/// Renders a parameter list as a query string.
pub fn query_string(params: &Vec<(String, String)>) -> (r: String)
    ensures
        r@ == spec_query(params@),
{
    let mut out = String::new();
    let mut i: usize = 0;
    proof {
        assert(out@ =~= spec_query(params@.take(0)));
    }
    while i < params.len()
        invariant
            i <= params@.len(),
            out@ == spec_query(params@.take(i as int)),
        decreases params@.len() - i,
    {
        if i > 0 {
            push_char(&mut out, '&');
        }
        let pair = &params[i];
        let ghost mid = out@;
        form_encode_append(&mut out, pair.0.as_str());
        push_char(&mut out, '=');
        form_encode_append(&mut out, pair.1.as_str());
        proof {
            assert(out@ =~= mid + spec_query_pair(params@[i as int].0@, params@[i as int].1@));
            assert(params@.take(i + 1).drop_last() =~= params@.take(i as int));
            assert(params@.take(i + 1).last() == params@[i as int]);
            assert(out@ =~= spec_query(params@.take(i + 1)));
        }
        i += 1;
    }
    proof {
        assert(params@.take(params@.len() as int) =~= params@);
    }
    out
}

/// The JSON escaping of one character, as a JSON emitter writes it inside a
/// string literal: quote and backslash get a backslash, the named control
/// characters use their short forms, other control characters use a
/// four-digit `\u` escape with lowercase hexadecimal digits, and everything
/// else passes through.
pub open spec fn spec_json_escape_char(c: char) -> Seq<char> {
    if c == '"' {
        seq!['\\', '"']
    } else if c == '\\' {
        seq!['\\', '\\']
    } else if c == '\u{8}' {
        seq!['\\', 'b']
    } else if c == '\t' {
        seq!['\\', 't']
    } else if c == '\n' {
        seq!['\\', 'n']
    } else if c == '\u{c}' {
        seq!['\\', 'f']
    } else if c == '\r' {
        seq!['\\', 'r']
    } else if (c as u32) < 32 {
        seq!['\\', 'u', '0', '0', spec_hex_lower(c as u32 as int / 16), spec_hex_lower(
            c as u32 as int % 16,
        )]
    } else {
        seq![c]
    }
}

/// The JSON escaping of a character sequence.
pub open spec fn spec_json_escaped(s: Seq<char>) -> Seq<char>
    decreases s.len(),
{
    if s.len() == 0 {
        Seq::empty()
    } else {
        spec_json_escaped(s.drop_last()) + spec_json_escape_char(s.last())
    }
}

/// The JSON string literal for a character sequence: the escaped characters
/// between double quotes.
pub open spec fn spec_json_string(s: Seq<char>) -> Seq<char> {
    seq!['"'] + spec_json_escaped(s) + seq!['"']
}

/// Appends the JSON string literal for `s` to `out`.
pub fn json_string_append(out: &mut String, s: &str)
    ensures
        final(out)@ == old(out)@ + spec_json_string(s@),
{
    push_char(out, '"');
    let n = s.unicode_len();
    let mut i: usize = 0;
    proof {
        assert(out@ =~= old(out)@ + seq!['"'] + spec_json_escaped(s@.take(0)));
    }
    while i < n
        invariant
            n == s@.len(),
            i <= n,
            out@ == old(out)@ + seq!['"'] + spec_json_escaped(s@.take(i as int)),
        decreases n - i,
    {
        let c = s.get_char(i);
        let ghost prev = out@;
        if c == '"' {
            push_char(out, '\\');
            push_char(out, '"');
        } else if c == '\\' {
            push_char(out, '\\');
            push_char(out, '\\');
        } else if c == '\u{8}' {
            push_char(out, '\\');
            push_char(out, 'b');
        } else if c == '\t' {
            push_char(out, '\\');
            push_char(out, 't');
        } else if c == '\n' {
            push_char(out, '\\');
            push_char(out, 'n');
        } else if c == '\u{c}' {
            push_char(out, '\\');
            push_char(out, 'f');
        } else if c == '\r' {
            push_char(out, '\\');
            push_char(out, 'r');
        } else if (c as u32) < 32 {
            let code = c as u32;
            push_char(out, '\\');
            push_char(out, 'u');
            push_char(out, '0');
            push_char(out, '0');
            push_char(out, hex_lower_char((code / 16) as u8));
            push_char(out, hex_lower_char((code % 16) as u8));
        } else {
            push_char(out, c);
        }
        proof {
            assert(out@ =~= prev + spec_json_escape_char(s@[i as int]));
            assert(s@.take(i + 1).drop_last() =~= s@.take(i as int));
            assert(s@.take(i + 1).last() == s@[i as int]);
            assert(out@ =~= old(out)@ + seq!['"'] + spec_json_escaped(s@.take(i + 1)));
        }
        i += 1;
    }
    push_char(out, '"');
    proof {
        assert(s@.take(s@.len() as int) =~= s@);
        assert(out@ =~= old(out)@ + spec_json_string(s@));
    }
}

/// The comma-joined JSON string literals for a sequence of strings, in the
/// order given.
pub open spec fn spec_json_strings(ss: Seq<String>) -> Seq<char>
    decreases ss.len(),
{
    if ss.len() == 0 {
        Seq::empty()
    } else if ss.len() == 1 {
        spec_json_string(ss[0]@)
    } else {
        spec_json_strings(ss.drop_last()) + seq![','] + spec_json_string(ss.last()@)
    }
}

/// The JSON array of string literals for a sequence of strings.
pub open spec fn spec_json_string_array(ss: Seq<String>) -> Seq<char> {
    seq!['['] + spec_json_strings(ss) + seq![']']
}

/// Appends the JSON array of string literals for `ss` to `out`.
pub fn json_string_array_append(out: &mut String, ss: &Vec<String>)
    ensures
        final(out)@ == old(out)@ + spec_json_string_array(ss@),
{
    push_char(out, '[');
    let mut i: usize = 0;
    proof {
        assert(out@ =~= old(out)@ + seq!['['] + spec_json_strings(ss@.take(0)));
    }
    while i < ss.len()
        invariant
            i <= ss@.len(),
            out@ == old(out)@ + seq!['['] + spec_json_strings(ss@.take(i as int)),
        decreases ss@.len() - i,
    {
        if i > 0 {
            push_char(out, ',');
        }
        let ghost mid = out@;
        json_string_append(out, ss[i].as_str());
        proof {
            assert(out@ =~= mid + spec_json_string(ss@[i as int]@));
            assert(ss@.take(i + 1).drop_last() =~= ss@.take(i as int));
            assert(ss@.take(i + 1).last() == ss@[i as int]);
            assert(out@ =~= old(out)@ + seq!['['] + spec_json_strings(ss@.take(i + 1)));
        }
        i += 1;
    }
    push_char(out, ']');
    proof {
        assert(ss@.take(ss@.len() as int) =~= ss@);
        assert(out@ =~= old(out)@ + spec_json_string_array(ss@));
    }
}

} // verus!
