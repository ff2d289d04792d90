//! Comparing texts.

use vstd::prelude::*;
use vstd::utf8::{encode_utf8, encode_utf8_decode_utf8};

verus! {

/// Whether two texts hold the same characters.
pub fn same_text(left: &str, right: &str) -> (same: bool)
    ensures
        same == (left@ == right@),
{
    let left_bytes = left.as_bytes();
    let right_bytes = right.as_bytes();
    if left_bytes.len() != right_bytes.len() {
        return false;
    }
    let mut at: usize = 0;
    while at < left_bytes.len()
        invariant
            left_bytes@.len() == right_bytes@.len(),
            at <= left_bytes@.len(),
            left_bytes@ == encode_utf8(left@),
            right_bytes@ == encode_utf8(right@),
            forall|k: int| 0 <= k < at ==> left_bytes@[k] == right_bytes@[k],
        decreases left_bytes@.len() - at,
    {
        if left_bytes[at] != right_bytes[at] {
            return false;
        }
        at = at + 1;
    }
    proof {
        assert(left_bytes@ =~= right_bytes@);
        encode_utf8_decode_utf8(left@);
        encode_utf8_decode_utf8(right@);
    }
    true
}

} // verus!
