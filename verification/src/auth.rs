//! Authorization header values: Basic credentials encoded through base64,
//! and Bearer tokens.

use vstd::prelude::*;
use vstd::string::*;
use vstd::utf8::{encode_utf8, is_ascii_chars, is_ascii_chars_encode_utf8};

use crate::encoding::{spec_header_byte_ok, spec_header_bytes_ok};

verus! {

/// The base64 rendering of a byte sequence: standard alphabet with `=`
/// padding, a function of the bytes alone.
pub uninterp spec fn base64_of(bytes: Seq<u8>) -> Seq<char>;

/// Whether a character can occur in a standard base64 rendering: the
/// alphabet `A-Z a-z 0-9 + /` and the padding `=`.
pub open spec fn spec_base64_char(c: char) -> bool {
    (65 <= c as u32 && c as u32 <= 90) || (97 <= c as u32 && c as u32 <= 122) || (48 <= c as u32
        && c as u32 <= 57) || c as u32 == 43 || c as u32 == 47 || c as u32 == 61
}

/// Relies on base64::encode: renders the bytes in the standard alphabet
/// with `=` padding, depending on the bytes alone.
#[verifier::external_body]
fn base64_encode(input: &Vec<u8>) -> (r: String)
    ensures
        r@ == base64_of(input@),
        forall|i: int| 0 <= i < r@.len() ==> spec_base64_char(#[trigger] r@[i]),
{
    base64::encode(input.as_slice())
}

/// The bytes a Basic credential encodes: the UTF-8 of the username, a
/// colon, and the UTF-8 of the API key.
pub open spec fn spec_basic_input(username: Seq<char>, apikey: Seq<char>) -> Seq<u8> {
    encode_utf8(username) + seq![58u8] + encode_utf8(apikey)
}

/// The Basic Authorization header value for a username and API key.
pub open spec fn spec_basic_auth(username: Seq<char>, apikey: Seq<char>) -> Seq<char> {
    "Basic "@ + base64_of(spec_basic_input(username, apikey))
}

/// The Bearer Authorization header value for a token.
pub open spec fn spec_bearer_auth(token: Seq<char>) -> Seq<char> {
    "Bearer "@ + token
}

/// A character with a code between space and `z` is ASCII and, as a byte,
/// legal in a header value.
proof fn lemma_header_char_byte(c: char)
    requires
        32 <= c as u32,
        c as u32 <= 122,
    ensures
        '\0' <= c <= '\u{7f}',
        spec_header_byte_ok(c as u8),
{
}

/// Builds the Basic Authorization header value `Basic <base64(user:key)>`.
/// Whatever the credentials hold, the value's bytes are always legal in a
/// header: base64 output is plain ASCII.
pub fn basic_auth_value(username: &str, apikey: &str) -> (r: String)
    ensures
        r@ == spec_basic_auth(username@, apikey@),
        spec_header_bytes_ok(encode_utf8(r@)),
{
    let mut bytes = username.as_bytes_vec();
    bytes.push(58u8);
    let mut rest = apikey.as_bytes_vec();
    bytes.append(&mut rest);
    proof {
        assert(bytes@ =~= spec_basic_input(username@, apikey@));
    }
    let encoded = base64_encode(&bytes);
    let mut out = String::new();
    out.append("Basic ");
    out.append(encoded.as_str());
    proof {
        assert(out@ =~= spec_basic_auth(username@, apikey@));
        reveal_strlit("Basic ");
        assert(out@ == "Basic "@ + encoded@);
        assert forall|i: int| 0 <= i < out@.len() implies (32 <= out@[i] as u32 && out@[i] as u32
            <= 122) by {
            assert(out@[i] == ("Basic "@ + encoded@)[i]);
            if i < 6 {
                assert(out@[i] == "Basic "@[i]);
                if i == 0 {
                    assert(out@[i] == 'B');
                } else if i == 1 {
                    assert(out@[i] == 'a');
                } else if i == 2 {
                    assert(out@[i] == 's');
                } else if i == 3 {
                    assert(out@[i] == 'i');
                } else if i == 4 {
                    assert(out@[i] == 'c');
                } else {
                    assert(out@[i] == ' ');
                }
            } else {
                assert(out@[i] == encoded@[i - 6]);
                assert(spec_base64_char(encoded@[i - 6]));
            }
        }
        assert forall|i: int| 0 <= i < out@.len() implies '\0' <= #[trigger] out@[i]
            <= '\u{7f}' by {
            lemma_header_char_byte(out@[i]);
        }
        assert(is_ascii_chars(out@));
        is_ascii_chars_encode_utf8(out@);
        assert forall|i: int| 0 <= i < encode_utf8(out@).len() implies spec_header_byte_ok(
            encode_utf8(out@)[i],
        ) by {
            assert(encode_utf8(out@)[i] == out@[i] as u8);
            lemma_header_char_byte(out@[i]);
        }
    }
    out
}

/// Builds the Bearer Authorization header value `Bearer <token>`.
pub fn bearer_auth_value(token: &str) -> (r: String)
    ensures
        r@ == spec_bearer_auth(token@),
{
    let mut out = String::new();
    out.append("Bearer ");
    out.append(token);
    proof {
        assert(out@ =~= spec_bearer_auth(token@));
    }
    out
}

} // verus!
