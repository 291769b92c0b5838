//! Content hashing and consecutive-duplicate detection.
//!
//! Each payload is hashed with BLAKE3; a payload whose hash equals that of
//! the most recent stored entry is a consecutive duplicate and is skipped.

use vstd::prelude::*;

verus! {

/// The 32-byte BLAKE3 digest of a byte sequence.
pub uninterp spec fn blake3_digest(data: Seq<u8>) -> Seq<u8>;

/// Calls `blake3::hash` and copies out the digest bytes. Claimed: the
/// result is the named digest of the input, and a digest is 32 bytes long
/// (`blake3::OUT_LEN`, the length of the array `Hash::as_bytes` returns).
#[verifier::external_body]
fn blake3_hash_bytes(data: &[u8]) -> (r: Vec<u8>)
    ensures
        r@ == blake3_digest(data@),
        r@.len() == 32,
{
    blake3::hash(data).as_bytes().to_vec()
}

/// Lower-case hexadecimal digit for a value below 16.
pub open spec fn hex_digit(v: u8) -> char {
    if v < 10 {
        ((48 + v) as u8) as char
    } else {
        ((87 + v) as u8) as char
    }
}

/// Lower-case hexadecimal encoding, two digits per byte, high nibble first
/// (the encoding of `blake3::Hash::to_hex`).
pub open spec fn hex_lower(bytes: Seq<u8>) -> Seq<char>
    decreases bytes.len(),
{
    if bytes.len() == 0 {
        seq![]
    } else {
        hex_lower(bytes.drop_last()).push(hex_digit(bytes.last() >> 4)).push(
            hex_digit(bytes.last() & 0x0f),
        )
    }
}

/// True for the characters `0-9`, `a-f`, `A-F`.
pub open spec fn is_ascii_hexdigit(c: char) -> bool {
    ('0' <= c <= '9') || ('a' <= c <= 'f') || ('A' <= c <= 'F')
}

/// The hex encoding of the BLAKE3 digest of `data`: the content hash.
pub open spec fn content_hash_of(data: Seq<u8>) -> Seq<char> {
    hex_lower(blake3_digest(data))
}

fn hex_char(v: u8) -> (c: char)
    requires
        v < 16,
    ensures
        c == hex_digit(v),
        is_ascii_hexdigit(c),
{
    if v < 10 {
        ((48 + v) as u8) as char
    } else {
        ((87 + v) as u8) as char
    }
}

proof fn lemma_hex_lower_len(bytes: Seq<u8>)
    ensures
        hex_lower(bytes).len() == 2 * bytes.len(),
    decreases bytes.len(),
{
    if bytes.len() > 0 {
        lemma_hex_lower_len(bytes.drop_last());
    }
}

/// Compute the BLAKE3 hash of arbitrary content as a 64-character
/// lower-case hex string.
pub fn content_hash(data: &[u8]) -> (r: String)
    ensures
        r@ == content_hash_of(data@),
        r@.len() == 64,
        forall|i: int| 0 <= i < r@.len() ==> is_ascii_hexdigit(#[trigger] r@[i]),
{
    let digest = blake3_hash_bytes(data);
    let mut out: Vec<char> = Vec::new();
    let mut i: usize = 0;
    while i < digest.len()
        invariant
            i <= digest@.len(),
            out@ == hex_lower(digest@.take(i as int)),
            forall|k: int| 0 <= k < out@.len() ==> is_ascii_hexdigit(#[trigger] out@[k]),
        decreases digest@.len() - i,
    {
        let b = digest[i];
        assert(b >> 4 < 16) by (bit_vector);
        assert(b & 0x0f < 16) by (bit_vector);
        out.push(hex_char(b >> 4));
        out.push(hex_char(b & 0x0f));
        assert(digest@.take(i + 1).drop_last() =~= digest@.take(i as int));
        i = i + 1;
    }
    assert(digest@.take(digest@.len() as int) =~= digest@);
    proof {
        lemma_hex_lower_len(digest@);
    }
    crate::text::string_from_chars(out.as_slice())
}

/// Returns `true` if the given hash matches the most recent entry's hash,
/// meaning this is a consecutive duplicate and should be skipped.
pub fn is_consecutive_duplicate(hash: &str, most_recent: Option<&str>) -> (r: bool)
    ensures
        r == (most_recent matches Some(recent) && recent@ == hash@),
{
    match most_recent {
        Some(recent) => crate::text::str_equal(recent, hash),
        None => false,
    }
}

/// Whether a payload is stored: with deduplication on, a payload whose
/// hash equals the most recent entry's is skipped; everything else is stored.
pub fn should_store(deduplicate: bool, hash: &str, most_recent: Option<&str>) -> (r: bool)
    ensures
        r == !(deduplicate && (most_recent matches Some(recent) && recent@ == hash@)),
{
    !(deduplicate && is_consecutive_duplicate(hash, most_recent))
}

/// Hashing is a function of the content: equal content gives equal hashes.
pub proof fn lemma_content_hash_deterministic(a: Seq<u8>, b: Seq<u8>)
    requires
        a == b,
    ensures
        content_hash_of(a) == content_hash_of(b),
{
}

} // verus!
