//! Placeholder content identifiers derived from a content hash.
//!
//! The identifier is `Qm` and 46 characters cut from the hash. It stands in
//! for a real content-addressing scheme and is no stronger than the hash it
//! is cut from.

use vstd::prelude::*;

use crate::hashing::{is_hex_hash, is_lower_hex_digit};
use crate::processor::MunusJobProcessor;

verus! {

/// `text` without any leading repetitions of `0x`.
pub open spec fn strip_hex_prefix(text: Seq<char>) -> Seq<char>
    decreases text.len(),
{
    if text.len() >= 2 && text[0] == '0' && text[1] == 'x' {
        strip_hex_prefix(text.skip(2))
    } else {
        text
    }
}

/// The first 46 characters of `hash` without its `0x` prefix, filled up on the
/// right with `0` where it has fewer.
pub open spec fn mock_cid_text(hash: Seq<char>) -> Seq<char> {
    let clean = strip_hex_prefix(hash);
    Seq::new(46, |i: int| if i < clean.len() { clean[i] } else { '0' })
}

/// The content identifier minted from `hash`.
pub open spec fn cid_text(hash: Seq<char>) -> Seq<char> {
    "Qm"@ + mock_cid_text(hash)
}

impl MunusJobProcessor {
    /// Cuts the 46 characters of a content identifier from a hash.
    pub fn generate_mock_cid(hash: &str) -> (cid: String)
        ensures
            cid@ == mock_cid_text(hash@),
    {
        let mut clean: &str = hash;
        let mut len: usize = clean.unicode_len();
        while len >= 2 && clean.get_char(0) == '0' && clean.get_char(1) == 'x'
            invariant
                len == clean@.len(),
                strip_hex_prefix(clean@) == strip_hex_prefix(hash@),
            decreases len,
        {
            clean = clean.substring_char(2, len);
            len = len - 2;
        }
        let kept: usize = if len < 46 { len } else { 46 };
        let mut cid = clean.substring_char(0, kept).to_string();
        let mut filled: usize = kept;
        while filled < 46
            invariant
                kept <= filled <= 46,
                kept <= clean@.len(),
                cid@.len() == filled,
                forall|i: int| 0 <= i < kept ==> cid@[i] == clean@[i],
                forall|i: int| kept <= i < filled ==> cid@[i] == '0',
            decreases 46 - filled,
        {
            proof {
                reveal_strlit("0");
            }
            cid.append("0");
            filled = filled + 1;
        }
        assert(cid@ =~= mock_cid_text(hash@));
        cid
    }

    /// Mints the content identifier of a hash: `Qm` and the 46 characters cut
    /// from it.
    pub fn mint_cid(hash: &str) -> (cid: String)
        ensures
            cid@ == cid_text(hash@),
            cid@.len() == 48,
    {
        let tail = Self::generate_mock_cid(hash);
        let mut cid = "Qm".to_string();
        cid.append(tail.as_str());
        proof {
            reveal_strlit("Qm");
        }
        cid
    }
}

/// A content identifier has 48 characters and starts with `Qm`; each of the
/// 46 that follow is the character at the same place of the hash without its
/// prefix, or `0` past its end.
pub proof fn lemma_cid_shape(hash: Seq<char>)
    ensures
        cid_text(hash).len() == 48,
        cid_text(hash)[0] == 'Q',
        cid_text(hash)[1] == 'm',
        forall|i: int|
            0 <= i < 46 ==> #[trigger] cid_text(hash)[i + 2] == if i < strip_hex_prefix(hash).len() {
                strip_hex_prefix(hash)[i]
            } else {
                '0'
            },
{
    reveal_strlit("Qm");
}

/// A text of lowercase hexadecimal digits loses nothing when it is
/// stripped, and behind one `0x` it is what is left.
pub proof fn lemma_strip_hex_digits(digits: Seq<char>)
    requires
        forall|i: int| 0 <= i < digits.len() ==> is_lower_hex_digit(#[trigger] digits[i]),
    ensures
        strip_hex_prefix(digits) == digits,
        strip_hex_prefix("0x"@ + digits) == digits,
{
    reveal_strlit("0x");
    if digits.len() >= 2 {
        assert(is_lower_hex_digit(digits[1]));
    }
    assert(("0x"@ + digits).skip(2) =~= digits);
}

/// The identifier of `0x` and any number of lowercase hexadecimal digits:
/// after `Qm` come the first 46 of the digits, then `0` up to 46 characters,
/// so that every character after `Qm` is a lowercase hexadecimal digit.
pub proof fn lemma_cid_of_hex_digits(digits: Seq<char>)
    requires
        forall|i: int| 0 <= i < digits.len() ==> is_lower_hex_digit(#[trigger] digits[i]),
    ensures
        cid_text("0x"@ + digits).len() == 48,
        forall|i: int|
            0 <= i < 46 ==> #[trigger] cid_text("0x"@ + digits)[i + 2] == if i < digits.len() {
                digits[i]
            } else {
                '0'
            },
        forall|i: int| 2 <= i < 48 ==> is_lower_hex_digit(#[trigger] cid_text("0x"@ + digits)[i]),
{
    let hash = "0x"@ + digits;
    lemma_strip_hex_digits(digits);
    lemma_cid_shape(hash);
    assert forall|i: int| 2 <= i < 48 implies is_lower_hex_digit(#[trigger] cid_text(hash)[i]) by {
        assert(cid_text(hash)[(i - 2) + 2] == if i - 2 < digits.len() {
            digits[i - 2]
        } else {
            '0'
        });
    }
}

/// The identifier of a well-formed content hash is `Qm` and the first 46
/// digits of the hash: none of its characters is padding.
pub proof fn lemma_cid_of_hex_hash(hash: Seq<char>)
    requires
        is_hex_hash(hash),
    ensures
        cid_text(hash) == "Qm"@ + hash.subrange(2, 48),
        forall|i: int| 2 <= i < 48 ==> is_lower_hex_digit(#[trigger] cid_text(hash)[i]),
{
    reveal_strlit("0x");
    let digits = hash.skip(2);
    assert(hash =~= "0x"@ + digits);
    assert forall|i: int| 0 <= i < digits.len() implies is_lower_hex_digit(#[trigger] digits[i]) by {
        assert(digits[i] == hash[i + 2]);
    }
    lemma_cid_of_hex_digits(digits);
    assert(cid_text(hash) =~= "Qm"@ + hash.subrange(2, 48)) by {
        reveal_strlit("Qm");
        assert forall|i: int| 0 <= i < 48 implies cid_text(hash)[i] == ("Qm"@ + hash.subrange(2, 48))[i] by {
            if i >= 2 {
                assert(cid_text(hash)[(i - 2) + 2] == digits[i - 2]);
            }
        }
    }
}

} // verus!
