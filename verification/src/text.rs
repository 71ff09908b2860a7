//! Rendering numbers and quoted strings in error messages, through std's
//! formatting.

use vstd::prelude::*;

verus! {

/// The ASCII digit for `d`, which is below 10.
pub open spec fn digit_char(d: nat) -> char {
    (48 + d) as char
}

/// The decimal notation of `n`: its digits, most significant first, with no
/// sign and no leading zeros.
pub open spec fn decimal_spec(n: nat) -> Seq<char>
    decreases n,
{
    if n < 10 {
        seq![digit_char(n)]
    } else {
        decimal_spec(n / 10) + seq![digit_char(n % 10)]
    }
}

/// What std's `Debug` formatting of a string gives: the string in double
/// quotes, with quotes, backslashes and non-printable characters escaped.
pub uninterp spec fn debug_quoted_spec(s: Seq<char>) -> Seq<char>;

/// Calls `ToString::to_string` on a `u32`, that is std's `Display` for
/// integers. Claimed: the decimal notation of `n` (std documents `Display`
/// of an unsigned integer as its base-10 digits).
#[verifier::external_body]
pub(crate) fn decimal_text(n: u32) -> (res: String)
    ensures
        res@ == decimal_spec(n as nat),
{
    n.to_string()
}

/// Calls `format!("{:?}", s)`, std's `Debug` formatting of a string.
/// Claimed: the result is the named quoting of `s`, which begins and ends
/// with a double quote. The escaping rules themselves are left to the name.
#[verifier::external_body]
pub(crate) fn debug_quoted(s: &str) -> (res: String)
    ensures
        res@ == debug_quoted_spec(s@),
        res@.len() >= 2,
        res@[0] == '"',
        res@.last() == '"',
{
    format!("{:?}", s)
}

} // verus!
