//! PKCE material and the small codecs the flows need.
//!
//! A code verifier is 32 random bytes in URL-safe base64 without padding; the
//! matching challenge is the SHA-256 of the verifier in the same encoding.
//! The device flow also derives a stable client registration key as the
//! lowercase hex of the SHA-256 of the issuer start URL.

use base64::engine::general_purpose::URL_SAFE_NO_PAD;
use base64::Engine as _;
use sha2::Digest;
use sha2::Sha256;
use vstd::prelude::*;

verus! {

/// The SHA-256 digest of the UTF-8 bytes of a string.
pub uninterp spec fn sha256_of(s: Seq<char>) -> Seq<u8>;

/// The URL-safe base64 encoding, without padding, of a byte string.
pub uninterp spec fn b64url_of(data: Seq<u8>) -> Seq<char>;

/// The lowercase hexadecimal encoding of a byte string.
pub uninterp spec fn hex_of(data: Seq<u8>) -> Seq<char>;

/// A character of the URL-safe base64 alphabet: letters, digits, `-` and
/// `_`; the unpadded encoding never emits `=`.
pub open spec fn is_b64url_char(c: char) -> bool {
    ('A' <= c <= 'Z') || ('a' <= c <= 'z') || ('0' <= c <= '9') || c == '-' || c == '_'
}

/// Every character of the string is from the URL-safe base64 alphabet.
pub open spec fn is_b64url_text(s: Seq<char>) -> bool {
    forall|i: int| 0 <= i < s.len() ==> is_b64url_char(#[trigger] s[i])
}

/// How many characters unpadded base64 uses for `n` input bytes: four per
/// whole three-byte group, and one more than the remainder for a partial one.
pub open spec fn b64url_len(n: nat) -> nat {
    4 * (n / 3) + if n % 3 == 0 {
        0nat
    } else {
        n % 3 + 1
    }
}

/// Relies on sha2's `Sha256::digest`: the digest depends on the input bytes
/// alone and is always 32 bytes long.
#[verifier::external_body]
fn sha256_str(s: &str) -> (r: Vec<u8>)
    ensures
        r@ == sha256_of(s@),
        r@.len() == 32,
{
    Sha256::digest(s.as_bytes()).to_vec()
}

/// Relies on base64's `URL_SAFE_NO_PAD` engine: the encoding depends on the
/// input alone, its length is `encoded_len` without padding, and every
/// output character comes from the URL-safe alphabet.
#[verifier::external_body]
fn b64url_nopad(data: &Vec<u8>) -> (r: String)
    ensures
        r@ == b64url_of(data@),
        r@.len() == b64url_len(data@.len()),
        is_b64url_text(r@),
{
    URL_SAFE_NO_PAD.encode(data)
}

/// Relies on hex's `encode`: two lowercase digits for each input byte,
/// depending on the input alone.
#[verifier::external_body]
fn hex_lower(data: &Vec<u8>) -> (r: String)
    ensures
        r@ == hex_of(data@),
        r@.len() == 2 * data@.len(),
{
    hex::encode(data)
}

/// Relies on rand's `fill` over the thread generator: 32 bytes, nothing else
/// promised of their values.
#[verifier::external_body]
fn random_bytes_32() -> (r: Vec<u8>)
    ensures
        r@.len() == 32,
{
    let mut bytes = [0u8; 32];
    rand::fill(&mut bytes[..]);
    bytes.to_vec()
}

/// Relies on uuid's `new_v4` and its hyphenated display: a fresh random
/// identifier, 36 characters in the 8-4-4-4-12 form.
#[verifier::external_body]
pub(crate) fn new_uuid() -> (r: String)
    ensures
        r@.len() == 36,
{
    uuid::Uuid::new_v4().to_string()
}

/// Generate a PKCE code verifier: 32 random bytes, URL-safe base64 without
/// padding, which is always 43 characters from the URL-safe alphabet.
pub fn generate_code_verifier() -> (r: String)
    ensures
        r@.len() == 43,
        is_b64url_text(r@),
{
    let bytes = random_bytes_32();
    b64url_nopad(&bytes)
}

/// The code challenge derived from a verifier: URL-safe unpadded base64 of
/// its SHA-256 digest.
pub open spec fn code_challenge_spec(verifier: Seq<char>) -> Seq<char> {
    b64url_of(sha256_of(verifier))
}

/// Generate the PKCE code challenge for `verifier`.
pub fn generate_code_challenge(verifier: &str) -> (r: String)
    ensures
        r@ == code_challenge_spec(verifier@),
        r@.len() == 43,
        is_b64url_text(r@),
{
    let digest = sha256_str(verifier);
    b64url_nopad(&digest)
}

/// The stable key under which a device-flow client registration is cached:
/// lowercase hex of the SHA-256 of the issuer start URL.
pub open spec fn client_id_hash_spec(start_url: Seq<char>) -> Seq<char> {
    hex_of(sha256_of(start_url))
}

/// Derive the client registration key for a start URL; always 64 hex digits.
pub fn compute_client_id_hash(start_url: &str) -> (r: String)
    ensures
        r@ == client_id_hash_spec(start_url@),
        r@.len() == 64,
{
    let digest = sha256_str(start_url);
    hex_lower(&digest)
}

/// Generate a PKCE code verifier for the redirect-correlated flow; same
/// construction as `generate_code_verifier`.
pub fn generate_code_verifier_social() -> (r: String)
    ensures
        r@.len() == 43,
        is_b64url_text(r@),
{
    generate_code_verifier()
}

/// The code challenge for the redirect-correlated flow; same construction as
/// `generate_code_challenge`.
pub fn generate_code_challenge_social(verifier: &str) -> (r: String)
    ensures
        r@ == code_challenge_spec(verifier@),
        r@.len() == 43,
        is_b64url_text(r@),
{
    generate_code_challenge(verifier)
}

} // verus!
