//! Cache keys are hashed into fixed-length lowercase hexadecimal fingerprints,
//! which name the entries of the on-disk icon cache.
use sha2::Digest;
use vstd::prelude::*;
use vstd::utf8::encode_utf8;

verus! {

/// Name for the SHA-256 digest of a byte sequence.
pub uninterp spec fn sha256_of(data: Seq<u8>) -> Seq<u8>;

/// The lowercase hexadecimal digit for a value below sixteen.
pub open spec fn hex_digit(v: int) -> char {
    seq!['0', '1', '2', '3', '4', '5', '6', '7', '8', '9', 'a', 'b', 'c', 'd', 'e', 'f'][v]
}

/// Each byte written as two lowercase hexadecimal digits, high nibble first.
pub open spec fn hex_of(b: Seq<u8>) -> Seq<char>
    decreases b.len(),
{
    if b.len() == 0 {
        Seq::empty()
    } else {
        seq![hex_digit(b[0] as int / 16), hex_digit(b[0] as int % 16)] + hex_of(b.drop_first())
    }
}

/// The fingerprint of a cache key: the hex rendering of the SHA-256 digest of
/// the key's UTF-8 bytes.
pub open spec fn fingerprint_of(key: Seq<char>) -> Seq<char> {
    hex_of(sha256_of(encode_utf8(key)))
}

/// The file name of the cache entry for a key.
pub open spec fn entry_name_of(key: Seq<char>) -> Seq<char> {
    fingerprint_of(key) + ".png"@
}

/// Relies on sha2's `Sha256::digest`: the 256-bit digest of the input, as 32 bytes.
#[verifier::external_body]
fn sha256_digest(data: &[u8]) -> (r: Vec<u8>)
    ensures
        r@ == sha256_of(data@),
        r@.len() == 32,
{
    sha2::Sha256::digest(data).to_vec()
}

/// Relies on `hex::encode`: two lowercase hex digits per byte, in order.
#[verifier::external_body]
fn hex_encode(data: &[u8]) -> (r: String)
    ensures
        r@ == hex_of(data@),
{
    hex::encode(data)
}

pub proof fn lemma_hex_len(b: Seq<u8>)
    ensures
        hex_of(b).len() == 2 * b.len(),
    decreases b.len(),
{
    if b.len() > 0 {
        lemma_hex_len(b.drop_first());
    }
}

/// Computes the fingerprint of a cache key: 64 lowercase hex characters.
pub fn fingerprint(key: &str) -> (r: String)
    ensures
        r@ == fingerprint_of(key@),
        r@.len() == 64,
{
    let digest = sha256_digest(key.as_bytes());
    let r = hex_encode(digest.as_slice());
    proof {
        lemma_hex_len(digest@);
    }
    r
}

/// The file name `{fingerprint}.png` under which the icon for `key` is cached.
pub fn cache_entry_name(key: &str) -> (r: String)
    ensures
        r@ == entry_name_of(key@),
{
    let fp = fingerprint(key);
    fp.concat(".png")
}

/// Fingerprinting is deterministic: equal keys always give equal fingerprints,
/// and so the same cache entry.
pub proof fn lemma_fingerprint_deterministic(k1: Seq<char>, k2: Seq<char>)
    requires
        k1 == k2,
    ensures
        fingerprint_of(k1) == fingerprint_of(k2),
        entry_name_of(k1) == entry_name_of(k2),
{
}

} // verus!
