//! Decimal rendering of unsigned integers.

use vstd::prelude::*;

verus! {

/// The character for a value below ten.
pub open spec fn digit_char(digit: int) -> char {
    "0123456789"@[digit]
}

/// The decimal digits of `n`, most significant first, without leading zeros.
pub open spec fn decimal(n: nat) -> Seq<char>
    decreases n,
{
    if n < 10 {
        seq![digit_char(n as int)]
    } else {
        decimal(n / 10).push(digit_char((n % 10) as int))
    }
}

/// The one-character text of a digit.
fn digit_text(digit: u64) -> (text: &'static str)
    requires
        digit < 10,
    ensures
        text@ == seq![digit_char(digit as int)],
{
    proof {
        reveal_strlit("0123456789");
    }
    let digits: &'static str = "0123456789";
    let at = digit as usize;
    let text = digits.substring_ascii(at, at + 1);
    assert(text@ =~= seq![digit_char(digit as int)]);
    text
}

/// Renders `n` in decimal.
pub fn u64_to_decimal(n: u64) -> (text: String)
    ensures
        text@ == decimal(n as nat),
    decreases n,
{
    if n < 10 {
        digit_text(n).to_string()
    } else {
        let mut text = u64_to_decimal(n / 10);
        text.append(digit_text(n % 10));
        text
    }
}

} // verus!
