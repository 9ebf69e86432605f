//! Refresh-token helpers: random raw tokens and their stored hashes.
//!
//! A raw token is 32 random bytes in URL-safe base64 without padding; only
//! the lowercase hex SHA-256 digest of a raw token is ever stored.

use base64::Engine;
use rand::RngCore;
use sha2::Digest;
use vstd::prelude::*;
use vstd::string::*;

verus! {

// ── Hex encoding ──────────────────────────────────────────────────────────────

/// The lowercase hexadecimal digit for a nibble `n` (0..16).
pub open spec fn hex_digit(n: int) -> char {
    if n < 10 {
        ((48 + n) as u8) as char
    } else {
        ((97 + n - 10) as u8) as char
    }
}

/// Whether `c` is one of `0-9a-f`.
pub open spec fn is_lower_hex_char(c: char) -> bool {
    ('0' <= c && c <= '9') || ('a' <= c && c <= 'f')
}

/// Lowercase hex encoding of a byte string: two digits per byte, high nibble first.
pub open spec fn hex_lower(bytes: Seq<u8>) -> Seq<char>
    decreases bytes.len(),
{
    if bytes.len() == 0 {
        Seq::empty()
    } else {
        hex_lower(bytes.drop_last()) + seq![
            hex_digit(bytes.last() as int / 16),
            hex_digit(bytes.last() as int % 16),
        ]
    }
}

/// A hex encoding has two characters per byte, each a lowercase hex digit.
pub proof fn lemma_hex_lower_shape(bytes: Seq<u8>)
    ensures
        hex_lower(bytes).len() == 2 * bytes.len(),
        forall|i: int| 0 <= i < hex_lower(bytes).len() ==> is_lower_hex_char(#[trigger] hex_lower(bytes)[i]),
    decreases bytes.len(),
{
    if bytes.len() > 0 {
        lemma_hex_lower_shape(bytes.drop_last());
    }
}

proof fn lemma_hex_digit_injective(x: int, y: int)
    requires
        0 <= x < 16,
        0 <= y < 16,
        hex_digit(x) == hex_digit(y),
    ensures
        x == y,
{
    let cx = hex_digit(x) as u32;
    let cy = hex_digit(y) as u32;
    assert(x < 10 ==> cx == 48 + x);
    assert(x >= 10 ==> cx == 87 + x);
    assert(y < 10 ==> cy == 48 + y);
    assert(y >= 10 ==> cy == 87 + y);
}

/// Lowercase hex encoding is injective: equal texts come from equal bytes.
pub proof fn law_hex_injective(a: Seq<u8>, b: Seq<u8>)
    requires
        hex_lower(a) == hex_lower(b),
    ensures
        a == b,
    decreases a.len(),
{
    lemma_hex_lower_shape(a);
    lemma_hex_lower_shape(b);
    if a.len() == 0 {
        assert(a =~= b);
    } else {
        let (pa, pb) = (a.drop_last(), b.drop_last());
        lemma_hex_lower_shape(pa);
        lemma_hex_lower_shape(pb);
        let (ha, hb) = (hex_lower(a), hex_lower(b));
        let n = ha.len();
        assert(ha.subrange(0, n - 2) =~= hex_lower(pa));
        assert(hb.subrange(0, n - 2) =~= hex_lower(pb));
        law_hex_injective(pa, pb);
        assert(ha[n - 2] == hex_digit(a.last() as int / 16));
        assert(hb[n - 2] == hex_digit(b.last() as int / 16));
        assert(ha[n - 1] == hex_digit(a.last() as int % 16));
        assert(hb[n - 1] == hex_digit(b.last() as int % 16));
        lemma_hex_digit_injective(a.last() as int / 16, b.last() as int / 16);
        lemma_hex_digit_injective(a.last() as int % 16, b.last() as int % 16);
        assert(a.last() == b.last());
        assert(a =~= pa.push(a.last()));
        assert(b =~= pb.push(b.last()));
    }
}

fn hex_digit_str(d: u8) -> (s: &'static str)
    requires
        d < 16,
    ensures
        s@ == seq![hex_digit(d as int)],
{
    let digits = "0123456789abcdef";
    proof {
        reveal_strlit("0123456789abcdef");
    }
    let s = digits.substring_char(d as usize, d as usize + 1);
    assert(digits@ == seq!['0', '1', '2', '3', '4', '5', '6', '7', '8', '9', 'a', 'b', 'c', 'd', 'e', 'f']);
    assert(s@ =~= seq![hex_digit(d as int)]);
    s
}

/// Lowercase hex encoding of `bytes`.
pub fn to_hex_lower(bytes: &[u8]) -> (text: String)
    ensures
        text@ == hex_lower(bytes@),
{
    let mut text = String::new();
    let mut i: usize = 0;
    while i < bytes.len()
        invariant
            i <= bytes@.len(),
            text@ == hex_lower(bytes@.take(i as int)),
        decreases bytes@.len() - i,
    {
        let b = bytes[i];
        text.append(hex_digit_str(b / 16));
        text.append(hex_digit_str(b % 16));
        assert(bytes@.take(i + 1).drop_last() =~= bytes@.take(i as int));
        i = i + 1;
    }
    assert(bytes@.take(i as int) =~= bytes@);
    text
}

// ── SHA-256 ───────────────────────────────────────────────────────────────────

/// The SHA-256 digest of `data`, as computed by the `sha2` crate.
pub uninterp spec fn sha256(data: Seq<u8>) -> Seq<u8>;

/// Calls `sha2::Sha256` (new, update, finalize). Claims the result is the
/// SHA-256 digest of `data` and is 32 bytes long (the hasher's output size).
#[verifier::external_body]
fn sha256_digest(data: &[u8]) -> (digest: Vec<u8>)
    ensures
        digest@ == sha256(data@),
        digest@.len() == 32,
{
    let mut hasher = sha2::Sha256::new();
    hasher.update(data);
    hasher.finalize().to_vec()
}

// ── Base64 (URL-safe alphabet, no padding) ────────────────────────────────────

/// The character of the URL-safe base64 alphabet for a sextet `v` (0..64).
pub open spec fn b64_char(v: int) -> char {
    if v < 26 {
        ((65 + v) as u8) as char
    } else if v < 52 {
        ((97 + v - 26) as u8) as char
    } else if v < 62 {
        ((48 + v - 52) as u8) as char
    } else if v == 62 {
        '-'
    } else {
        '_'
    }
}

/// Whether `c` belongs to the URL-safe base64 alphabet `A-Za-z0-9-_`.
pub open spec fn is_url_safe_b64_char(c: char) -> bool {
    ('A' <= c && c <= 'Z') || ('a' <= c && c <= 'z') || ('0' <= c && c <= '9') || c == '-'
        || c == '_'
}

/// RFC 4648 base64url encoding without padding: each group of three bytes
/// becomes four characters; a final group of one or two bytes becomes two or
/// three characters.
pub open spec fn b64_url_nopad(b: Seq<u8>) -> Seq<char>
    decreases b.len(),
{
    if b.len() == 0 {
        Seq::empty()
    } else if b.len() == 1 {
        seq![b64_char(b[0] as int / 4), b64_char((b[0] as int % 4) * 16)]
    } else if b.len() == 2 {
        seq![
            b64_char(b[0] as int / 4),
            b64_char((b[0] as int % 4) * 16 + b[1] as int / 16),
            b64_char((b[1] as int % 16) * 4),
        ]
    } else {
        seq![
            b64_char(b[0] as int / 4),
            b64_char((b[0] as int % 4) * 16 + b[1] as int / 16),
            b64_char((b[1] as int % 16) * 4 + b[2] as int / 64),
            b64_char(b[2] as int % 64),
        ] + b64_url_nopad(b.subrange(3, b.len() as int))
    }
}

/// Length of the unpadded base64 encoding of `n` bytes.
pub open spec fn b64_nopad_len(n: nat) -> nat
    decreases n,
{
    if n == 0 {
        0
    } else if n == 1 {
        2
    } else if n == 2 {
        3
    } else {
        4 + b64_nopad_len((n - 3) as nat)
    }
}

proof fn lemma_b64_shape(b: Seq<u8>)
    ensures
        b64_url_nopad(b).len() == b64_nopad_len(b.len()),
        forall|i: int|
            0 <= i < b64_url_nopad(b).len() ==> is_url_safe_b64_char(#[trigger] b64_url_nopad(b)[i]),
    decreases b.len(),
{
    if b.len() >= 3 {
        lemma_b64_shape(b.subrange(3, b.len() as int));
    }
    assert forall|v: int| 0 <= v < 64 implies is_url_safe_b64_char(#[trigger] b64_char(v)) by {}
}

/// Encoding 32 bytes gives 43 characters of the URL-safe alphabet.
pub proof fn lemma_b64_of_32_bytes(b: Seq<u8>)
    requires
        b.len() == 32,
    ensures
        b64_url_nopad(b).len() == 43,
        forall|i: int| 0 <= i < 43 ==> is_url_safe_b64_char(#[trigger] b64_url_nopad(b)[i]),
{
    lemma_b64_shape(b);
    reveal_with_fuel(b64_nopad_len, 12);
}

/// Calls `base64::engine::general_purpose::URL_SAFE_NO_PAD.encode`. Claims the
/// result is the RFC 4648 base64url encoding of `bytes` without padding.
#[verifier::external_body]
pub(crate) fn base64_url_nopad_encode(bytes: &[u8]) -> (text: String)
    requires
        bytes@.len() <= isize::MAX,
    ensures
        text@ == b64_url_nopad(bytes@),
{
    base64::engine::general_purpose::URL_SAFE_NO_PAD.encode(bytes)
}

// ── Randomness ────────────────────────────────────────────────────────────────

/// A failure of the operating system's random source, as `rand` reports it.
#[verifier::external_type_specification]
#[verifier::external_body]
pub struct ExRandError(rand::Error);

/// Calls `rand::rngs::OsRng.try_fill_bytes` on a 32-byte buffer. Nothing is
/// claimed of the bytes (they come from the operating system's random
/// source); the call fails when that source fails.
#[verifier::external_body]
fn os_random_bytes() -> Result<[u8; 32], rand::Error> {
    let mut bytes = [0u8; 32];
    match rand::rngs::OsRng.try_fill_bytes(&mut bytes) {
        Ok(()) => Ok(bytes),
        Err(e) => Err(e),
    }
}

// ── Tokens ────────────────────────────────────────────────────────────────────

/// What every raw token is: the unpadded base64url text of some 32 bytes.
pub open spec fn is_raw_token(text: Seq<char>) -> bool {
    exists|b: Seq<u8>| b.len() == 32 && text == #[trigger] b64_url_nopad(b)
}

/// The raw token for 32 drawn bytes: their base64url text without padding,
/// 43 characters of the URL-safe alphabet.
pub fn encode_raw_token(bytes: &[u8; 32]) -> (t: String)
    ensures
        t@ == b64_url_nopad(bytes@),
        is_raw_token(t@),
        t@.len() == 43,
        forall|i: int| 0 <= i < 43 ==> is_url_safe_b64_char(#[trigger] t@[i]),
{
    let t = base64_url_nopad_encode(bytes);
    proof {
        lemma_b64_of_32_bytes(bytes@);
    }
    t
}

/// Generate a cryptographically secure random token: 32 bytes from the
/// operating system, base64url-encoded without padding (43 characters).
/// This value is handed to the client and must not be persisted. `None` when
/// the operating system's random source fails.
pub fn generate_raw_token() -> (token: Option<String>)
    ensures
        token matches Some(t) ==> is_raw_token(t@) && t@.len() == 43 && forall|i: int|
            0 <= i < 43 ==> is_url_safe_b64_char(#[trigger] t@[i]),
{
    match os_random_bytes() {
        Ok(bytes) => Some(encode_raw_token(&bytes)),
        Err(_) => None,
    }
}

/// The stored form of a raw token: lowercase hex of SHA-256 of its UTF-8 bytes.
pub open spec fn token_hash(raw: Seq<char>) -> Seq<char> {
    hex_lower(sha256(vstd::utf8::encode_utf8(raw)))
}

/// Hash a token for storage using SHA-256; returns a lowercase hex string.
pub fn hash_token(raw: &str) -> (hash: String)
    ensures
        hash@ == token_hash(raw@),
        hash@.len() == 64,
        forall|i: int| 0 <= i < 64 ==> is_lower_hex_char(#[trigger] hash@[i]),
{
    let digest = sha256_digest(raw.as_bytes());
    proof {
        lemma_hex_lower_shape(digest@);
    }
    to_hex_lower(digest.as_slice())
}

/// Hashing is deterministic: the same raw token always gives the same stored
/// hash, so a presented token finds the row stored for it.
pub proof fn law_hash_deterministic(a: Seq<char>, b: Seq<char>)
    requires
        a == b,
    ensures
        token_hash(a) == token_hash(b),
{
}

/// Distinct stored hashes come from distinct digests: the hex text loses
/// nothing of the SHA-256 digest it shows.
pub proof fn law_hash_text_keeps_digest(a: Seq<char>, b: Seq<char>)
    requires
        token_hash(a) == token_hash(b),
    ensures
        sha256(vstd::utf8::encode_utf8(a)) == sha256(vstd::utf8::encode_utf8(b)),
{
    law_hex_injective(sha256(vstd::utf8::encode_utf8(a)), sha256(vstd::utf8::encode_utf8(b)));
}

/// A fresh random token (as used for passwordless links and nonces); `None`
/// when the operating system's random source fails.
pub fn random_token() -> (token: Option<String>)
    ensures
        token matches Some(t) ==> is_raw_token(t@) && t@.len() == 43 && forall|i: int|
            0 <= i < 43 ==> is_url_safe_b64_char(#[trigger] t@[i]),
{
    generate_raw_token()
}

} // verus!
