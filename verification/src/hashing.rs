//! Content hashes: `0x` followed by the lowercase hexadecimal SHA-256 digest.

use sha2::{Digest, Sha256};
use vstd::prelude::*;
use vstd::utf8::encode_utf8;

use crate::processor::MunusJobProcessor;

verus! {

/// The SHA-256 digest of `data`.
pub uninterp spec fn sha256(data: Seq<u8>) -> Seq<u8>;

/// The lowercase hexadecimal digit for a value below sixteen.
pub open spec fn hex_digit(nibble: int) -> char {
    "0123456789abcdef"@[nibble]
}

/// Two lowercase hexadecimal digits per byte, high nibble first.
pub open spec fn lower_hex(bytes: Seq<u8>) -> Seq<char> {
    Seq::new(
        2 * bytes.len(),
        |i: int| hex_digit(if i % 2 == 0 { bytes[i / 2] as int / 16 } else { bytes[i / 2] as int % 16 }),
    )
}

/// Whether `c` is one of `0`-`9` or `a`-`f`.
pub open spec fn is_lower_hex_digit(c: char) -> bool {
    ('0' <= c && c <= '9') || ('a' <= c && c <= 'f')
}

/// The content hash of a byte string: `0x`, then its digest in lowercase
/// hexadecimal.
pub open spec fn hash_of_bytes(data: Seq<u8>) -> Seq<char> {
    "0x"@ + lower_hex(sha256(data))
}

/// The content hash of a text: that of its UTF-8 bytes.
pub open spec fn hash_text(data: Seq<char>) -> Seq<char> {
    hash_of_bytes(encode_utf8(data))
}

/// Whether `hash` has the shape of a content hash: `0x` and 64 lowercase
/// hexadecimal digits.
pub open spec fn is_hex_hash(hash: Seq<char>) -> bool {
    &&& hash.len() == 66
    &&& hash[0] == '0'
    &&& hash[1] == 'x'
    &&& forall|i: int| 2 <= i < 66 ==> is_lower_hex_digit(#[trigger] hash[i])
}

/// Calls `sha2::Sha256::digest`, which hashes the whole input in one step and
/// returns the 32 bytes of the digest. The digest is a function of the input
/// bytes alone.
#[verifier::external_body]
fn sha256_digest(data: &[u8]) -> (digest: [u8; 32])
    ensures
        digest@ == sha256(data@),
{
    Sha256::digest(data).into()
}

/// Calls `hex::encode`, which writes each byte as two digits taken from
/// `0123456789abcdef`, the high four bits first.
#[verifier::external_body]
pub(crate) fn hex_encode(bytes: &[u8]) -> (text: String)
    ensures
        text@ == lower_hex(bytes@),
{
    hex::encode(bytes)
}

/// Every character of a hexadecimal rendering is a lowercase hexadecimal digit.
pub proof fn lemma_lower_hex_digits(bytes: Seq<u8>)
    ensures
        lower_hex(bytes).len() == 2 * bytes.len(),
        forall|i: int| 0 <= i < 2 * bytes.len() ==> is_lower_hex_digit(#[trigger] lower_hex(bytes)[i]),
{
    reveal_strlit("0123456789abcdef");
    assert forall|i: int| 0 <= i < 2 * bytes.len() implies is_lower_hex_digit(
        #[trigger] lower_hex(bytes)[i],
    ) by {
        let byte = bytes[i / 2] as int;
        let nibble = if i % 2 == 0 { byte / 16 } else { byte % 16 };
        assert(lower_hex(bytes)[i] == hex_digit(nibble));
    }
}

impl MunusJobProcessor {
    /// Hashes a text: the content hash of its UTF-8 bytes.
    pub fn hash_string(data: &str) -> (hash: String)
        ensures
            hash@ == hash_text(data@),
            is_hex_hash(hash@),
    {
        Self::hash_bytes(data.as_bytes())
    }

    /// Hashes a byte string with SHA-256 and renders the digest as a content
    /// hash. Every input has a hash, the empty one too.
    pub fn hash_bytes(data: &[u8]) -> (hash: String)
        ensures
            hash@ == hash_of_bytes(data@),
            is_hex_hash(hash@),
    {
        let digest = sha256_digest(data);
        let hex = hex_encode(digest.as_slice());
        let mut hash = "0x".to_string();
        hash.append(hex.as_str());
        proof {
            reveal_strlit("0x");
            lemma_lower_hex_digits(digest@);
            assert forall|i: int| 2 <= i < 66 implies is_lower_hex_digit(#[trigger] hash@[i]) by {
                assert(hash@[i] == lower_hex(digest@)[i - 2]);
            }
        }
        hash
    }
}

} // verus!
