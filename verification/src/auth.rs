//! Edge authentication.
//!
//! A backend that holds a secret gets a signed header on every request sent
//! to it: the time, the point of presence, and the HMAC-SHA256 of the two
//! under the secret. The same digest, under the empty key, gives the short
//! hash by which a deployment of rules is recognised.

use crate::text::{decimal, opt_text, push_decimal, push_str, string_from_chars};
use crate::types::{BackendNodeData, BackendNodeDataView};
use vstd::prelude::*;

verus! {

// ---------------------------------------------------------------------------
// Trusted items: HMAC-SHA256 and hexadecimal text
// ---------------------------------------------------------------------------

/// The HMAC-SHA256 of `input` under `key`.
pub uninterp spec fn hmac_sha256_of(input: Seq<u8>, key: Seq<u8>) -> Seq<u8>;

/// `hmac_sha256::HMAC::mac`: the 32 bytes of the message authentication code
/// of `input` under `key`. The result is named [`hmac_sha256_of`].
#[verifier::external_body]
fn hmac_sha256(input: &[u8], key: &[u8]) -> (r: Vec<u8>)
    ensures
        r@ == hmac_sha256_of(input@, key@),
        r@.len() == 32,
{
    hmac_sha256::HMAC::mac(input, key).to_vec()
}

/// The character of a hexadecimal digit, in lower case.
pub open spec fn hex_digit(d: nat) -> char
    recommends
        d < 16,
{
    if d < 10 {
        (('0' as u8) + d as u8) as char
    } else {
        (('a' as u8) + (d - 10) as u8) as char
    }
}

/// Bytes as hexadecimal text: two lower-case digits for each byte, the high
/// digit first.
pub open spec fn hex_text(bytes: Seq<u8>) -> Seq<char>
    decreases bytes.len(),
{
    if bytes.len() == 0 {
        Seq::empty()
    } else {
        hex_text(bytes.drop_last()).push(hex_digit((bytes.last() / 16) as nat)).push(
            hex_digit((bytes.last() % 16) as nat),
        )
    }
}

/// `hex::encode`: the bytes as lower-case hexadecimal text, two digits for
/// each byte.
#[verifier::external_body]
fn hex_encode(bytes: &[u8]) -> (r: String)
    ensures
        r@ == hex_text(bytes@),
{
    hex::encode(bytes)
}

// ---------------------------------------------------------------------------
// The signed header
// ---------------------------------------------------------------------------

/// The text that is signed: the time in seconds, a comma, and the point of
/// presence.
pub open spec fn signed_text(now_secs: u64, pop: Seq<char>) -> Seq<char> {
    decimal(now_secs as nat) + seq![','] + pop
}

/// The value of the authentication header for a secret: the signed text, and
/// after `,0x` its HMAC-SHA256 under the secret in hexadecimal.
pub open spec fn signed_header(secret: Seq<char>, now_secs: u64, pop: Seq<char>) -> Seq<char> {
    let text = signed_text(now_secs, pop);
    text + ",0x"@ + hex_text(
        hmac_sha256_of(vstd::utf8::encode_utf8(text), vstd::utf8::encode_utf8(secret)),
    )
}

/// The authentication header of a request to a backend: none where the
/// backend holds no secret or an empty one.
pub open spec fn edge_auth_of(
    backend: BackendNodeDataView,
    now_secs: u64,
    pop: Seq<char>,
) -> Option<Seq<char>> {
    match backend.edge_auth_secret {
        Some(secret) => if secret.len() > 0 {
            Some(signed_header(secret, now_secs, pop))
        } else {
            None
        },
        None => None,
    }
}

/// Builds the value of the `Edge-Auth` header for a request to a backend.
/// `now_secs` is the time in seconds since the epoch and `pop` the point of
/// presence, empty where it is not known.
pub fn edge_auth_header(backend: &BackendNodeData, now_secs: u64, pop: &str) -> (r: Option<String>)
    ensures
        opt_text(r) == edge_auth_of(backend@, now_secs, pop@),
{
    let secret = match &backend.edge_auth_secret {
        Some(s) => s,
        None => return None,
    };
    if secret.as_str().unicode_len() == 0 {
        return None;
    }
    let mut text_chars: Vec<char> = Vec::new();
    push_decimal(&mut text_chars, now_secs as u128);
    text_chars.push(',');
    push_str(&mut text_chars, pop);
    let text = string_from_chars(&text_chars);
    proof {
        assert(text@ =~= signed_text(now_secs, pop@));
    }
    let digest = hmac_sha256(text.as_str().as_bytes(), secret.as_str().as_bytes());
    let hex = hex_encode(digest.as_slice());
    let mut out: Vec<char> = text_chars;
    push_str(&mut out, ",0x");
    push_str(&mut out, hex.as_str());
    proof {
        assert(out@ =~= signed_header(secret@, now_secs, pop@));
    }
    Some(string_from_chars(&out))
}

// ---------------------------------------------------------------------------
// The hash of the rules
// ---------------------------------------------------------------------------

/// The hash that identifies packed rules: the first eight bytes of their
/// HMAC-SHA256 under the empty key, in hexadecimal.
pub open spec fn rules_hash_of(rules_packed: Seq<char>) -> Seq<char> {
    hex_text(hmac_sha256_of(vstd::utf8::encode_utf8(rules_packed), Seq::empty()).take(8))
}

/// The hash that identifies packed rules.
pub fn rules_hash(rules_packed: &str) -> (r: String)
    ensures
        r@ == rules_hash_of(rules_packed@),
{
    let key: Vec<u8> = Vec::new();
    let digest = hmac_sha256(rules_packed.as_bytes(), key.as_slice());
    let mut head: Vec<u8> = Vec::new();
    let mut i: usize = 0;
    while i < 8
        invariant
            i <= 8,
            digest@.len() == 32,
            head@ == digest@.take(i as int),
        decreases 8 - i,
    {
        head.push(digest[i]);
        proof {
            assert(digest@.take(i + 1) =~= digest@.take(i as int).push(digest@[i as int]));
        }
        i += 1;
    }
    hex_encode(head.as_slice())
}

} // verus!
