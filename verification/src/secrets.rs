//! Secrets: the session signing secret and the upstream API key.
use vstd::prelude::*;

verus! {

/// The lowercase hexadecimal digit for `d` in `0..16`.
pub open spec fn hex_digit(d: int) -> char {
    if d < 10 {
        (48 + d) as char
    } else {
        (87 + d) as char
    }
}

/// `bytes` written as lowercase hexadecimal, two digits per byte, high digit first.
pub open spec fn hex_lower(bytes: Seq<u8>) -> Seq<char> {
    Seq::new(
        2 * bytes.len(),
        |i: int|
            if i % 2 == 0 {
                hex_digit(bytes[i / 2] as int / 16)
            } else {
                hex_digit(bytes[i / 2] as int % 16)
            },
    )
}

/// `s` is the lowercase hexadecimal text of some `n` bytes.
pub open spec fn is_hex_of_len(s: Seq<char>, n: nat) -> bool {
    exists|bytes: Seq<u8>| bytes.len() == n && #[trigger] hex_lower(bytes) == s
}

/// The characters `0`-`9` and `a`-`f`.
pub open spec fn is_lower_hex_char(c: char) -> bool {
    ('0' <= c && c <= '9') || ('a' <= c && c <= 'f')
}

/// Hex text is twice as long as its bytes and holds only lowercase hex digits.
pub proof fn lemma_hex_lower_digits(bytes: Seq<u8>)
    ensures
        hex_lower(bytes).len() == 2 * bytes.len(),
        forall|i: int| 0 <= i < hex_lower(bytes).len() ==> is_lower_hex_char(#[trigger] hex_lower(bytes)[i]),
{
    assert forall|i: int| 0 <= i < hex_lower(bytes).len() implies is_lower_hex_char(#[trigger] hex_lower(bytes)[i]) by {
        let b = bytes[i / 2] as int;
        assert(0 <= b / 16 < 16);
        assert(0 <= b % 16 < 16);
    }
}

/// Calls `hex::encode`, which writes each byte as two lowercase hex digits.
#[verifier::external_body]
fn hex_encode(bytes: &[u8]) -> (r: String)
    ensures
        r@ == hex_lower(bytes@),
{
    hex::encode(bytes)
}

/// Calls `rand::thread_rng().fill_bytes(..)` on the whole vector. Only the
/// length is stated: the bytes are random.
#[verifier::external_body]
fn fill_random(bytes: &mut Vec<u8>)
    ensures
        final(bytes)@.len() == old(bytes)@.len(),
{
    rand::RngCore::fill_bytes(&mut rand::thread_rng(), bytes.as_mut_slice())
}

/// A random hex string of `n` bytes: `2 * n` lowercase hex digits.
pub fn generate_random_hex(n: usize) -> (r: String)
    ensures
        is_hex_of_len(r@, n as nat),
        r@.len() == 2 * n,
{
    let mut bytes: Vec<u8> = vec![0u8; n];
    fill_random(&mut bytes);
    let r = hex_encode(bytes.as_slice());
    assert(hex_lower(bytes@) == r@);
    r
}

/// The session secret: the configured value where it is set and not empty,
/// else a fresh random 64-digit hex string.
pub fn init_session_secret(configured: Option<String>) -> (r: String)
    ensures
        match configured {
            Some(s) if s@.len() > 0 => r@ == s@,
            _ => r@.len() == 64 && is_hex_of_len(r@, 32),
        },
{
    match configured {
        Some(secret) if !secret.as_str().is_empty() => secret,
        _ => generate_random_hex(32),
    }
}

/// The upstream API key: the configured value where it is set and not empty.
/// `None` means the server cannot start.
pub fn load_api_key(configured: Option<String>) -> (r: Option<String>)
    ensures
        match configured {
            Some(k) if k@.len() > 0 => r == Some(k),
            _ => r is None,
        },
{
    match configured {
        Some(key) if !key.as_str().is_empty() => Some(key),
        _ => None,
    }
}

} // verus!
