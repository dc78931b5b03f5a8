//! Byte counts in the short form that people read, as the `human_repr` crate writes them.

use vstd::prelude::*;
use human_repr::HumanCount;
use crate::decimal::is_digit;

verus! {

/// What `human_repr` writes for a count of `bytes` bytes: a number with at
/// most two decimals, a prefix of the decimal system where the count reaches a
/// thousand, and the unit `B`.
pub uninterp spec fn human_bytes_text(bytes: u64) -> Seq<char>;

/// Whether `c` can occur in a byte count as `human_repr` writes it: a digit,
/// the decimal point, a prefix letter, the plus sign of a count beyond the
/// largest prefix, or the unit.
pub open spec fn is_human_bytes_char(c: char) -> bool {
    is_digit(c) || c == '.' || c == '+' || c == 'k' || c == 'M' || c == 'G' || c == 'T'
        || c == 'P' || c == 'E' || c == 'Z' || c == 'Y' || c == 'B'
}

/// Formats what `human_repr::HumanCount::human_count_bytes` returns for
/// `bytes`. Trusted: the text depends on the count alone, and each of its
/// characters is one that `is_human_bytes_char` admits. (The crate is built
/// without its optional features, so it divides by 1000, writes the prefixes
/// `k M G T P E Z Y` and puts no space before them.)
#[verifier::external_body]
pub(crate) fn human_bytes(bytes: u64) -> (text: String)
    ensures
        text@ == human_bytes_text(bytes),
        forall|i: int| 0 <= i < text@.len() ==> is_human_bytes_char(#[trigger] text@[i]),
{
    format!("{}", bytes.human_count_bytes())
}

} // verus!
