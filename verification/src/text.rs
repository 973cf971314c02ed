//! Joining strings with a separator.

use itertools::Itertools;
use vstd::prelude::*;

verus! {

/// The strings of `parts` written one after another in their order, with `sep`
/// between each two neighbours. No separator stands before the first or after
/// the last; nothing joined is the empty string.
pub open spec fn joined(parts: Seq<Seq<char>>, sep: Seq<char>) -> Seq<char>
    decreases parts.len(),
{
    if parts.len() == 0 {
        Seq::empty()
    } else if parts.len() == 1 {
        parts[0]
    } else {
        joined(parts.drop_last(), sep) + sep + parts.last()
    }
}

/// `Itertools::join` on the strings of `parts`. Trusted: the call writes each
/// item as `Display` gives it, which for a `String` is its text, and puts `sep`
/// before every item but the first.
#[verifier::external_body]
pub(crate) fn join(parts: &Vec<String>, sep: &str) -> (out: String)
    ensures
        out@ == joined(parts.deep_view(), sep@),
{
    parts.iter().join(sep)
}

} // verus!
