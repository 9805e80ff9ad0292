//! Refresh tokens: opaque random secrets handed to the client once and
//! stored only as their SHA-256 digest, so a leaked database cannot be used
//! to mint sessions.
use vstd::prelude::*;
use crate::ids::{hex_char, hex_digit};
use crate::text::push_char;
use vstd::utf8::encode_utf8;
use rand::Rng;
use sha2::Digest;

verus! {

/// How long a refresh token (and its cookie) lives, in days.
pub const REFRESH_TOKEN_TTL_DAYS: i64 = 30;

/// The cookie the refresh token travels in.
pub const REFRESH_TOKEN_COOKIE: &'static str = "refresh_token";

/// The random bytes in a token: 256 bits.
pub const TOKEN_BYTES: usize = 32;

/// The two lowercase hex digits of a byte.
pub open spec fn byte_hex(b: u8) -> Seq<char> {
    seq![hex_char((b / 16) as nat), hex_char((b % 16) as nat)]
}

/// The lowercase hex text of `bs`, two digits per byte.
pub open spec fn hex_bytes(bs: Seq<u8>) -> Seq<char>
    decreases bs.len(),
{
    if bs.len() == 0 {
        seq![]
    } else {
        hex_bytes(bs.drop_last()) + byte_hex(bs.last())
    }
}

/// `bytes` as lowercase hex.
pub fn encode_hex(bytes: &[u8]) -> (s: String)
    ensures
        s@ == hex_bytes(bytes@),
{
    let mut s = String::new();
    let mut i: usize = 0;
    assert(bytes@.take(0) =~= Seq::<u8>::empty());
    while i < bytes.len()
        invariant
            i <= bytes@.len(),
            s@ == hex_bytes(bytes@.take(i as int)),
        decreases bytes.len() - i,
    {
        let b = bytes[i];
        proof {
            assert(bytes@.take(i + 1).drop_last() =~= bytes@.take(i as int));
            assert(bytes@.take(i + 1).last() == b);
        }
        push_char(&mut s, hex_digit((b / 16) as u128));
        push_char(&mut s, hex_digit((b % 16) as u128));
        assert(s@ =~= hex_bytes(bytes@.take(i + 1)));
        i = i + 1;
    }
    assert(bytes@.take(bytes@.len() as int) =~= bytes@);
    s
}

/// The SHA-256 digest of `data`.
pub uninterp spec fn sha256(data: Seq<u8>) -> Seq<u8>;

/// Runs `sha2::Sha256` over `data`. Claimed: the digest is `sha256` of the
/// data, and it is 32 bytes long.
#[verifier::external_body]
fn sha256_digest(data: &[u8]) -> (d: Vec<u8>)
    ensures
        d@ == sha256(data@),
        d@.len() == 32,
{
    let mut hasher = sha2::Sha256::new();
    hasher.update(data);
    hasher.finalize().to_vec()
}

/// Fills 32 bytes from `rand::rng()`, the thread-local generator seeded
/// from the operating system. Claimed: only the length.
#[verifier::external_body]
fn random_token_bytes() -> (b: Vec<u8>)
    ensures
        b@.len() == 32,
{
    let mut bytes = [0u8; 32];
    rand::rng().fill(&mut bytes);
    bytes.to_vec()
}

/// What is stored for a raw token: the hex SHA-256 of its UTF-8 bytes.
pub open spec fn token_digest(raw: Seq<char>) -> Seq<char> {
    hex_bytes(sha256(encode_utf8(raw)))
}

pub fn hash_token(raw: &str) -> (h: String)
    ensures
        h@ == token_digest(raw@),
{
    let digest = sha256_digest(raw.as_bytes());
    encode_hex(digest.as_slice())
}

/// A fresh token: `(raw, hash)`. `raw` is 64 hex digits of 32 random bytes
/// and goes to the client; `hash` is what gets stored.
pub fn generate() -> (r: (String, String))
    ensures
        exists|b: Seq<u8>| b.len() == 32 && r.0@ == hex_bytes(b),
        r.1@ == token_digest(r.0@),
{
    let bytes = random_token_bytes();
    let raw = encode_hex(bytes.as_slice());
    let hash = hash_token(raw.as_str());
    (raw, hash)
}

} // verus!
