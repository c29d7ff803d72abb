//! Small helpers on text.

use vstd::prelude::*;

verus! {

/// `head` followed by `tail`.
pub(crate) fn joined(head: &str, tail: &str) -> (text: String)
    ensures
        text@ == head@ + tail@,
{
    let mut text = head.to_owned();
    text.append(tail);
    text
}

/// Whether `a` and `b` hold the same characters.
pub(crate) fn same_text(a: &str, b: &str) -> (same: bool)
    ensures
        same == (a@ == b@),
{
    let left = a.to_owned();
    let right = b.to_owned();
    left == right
}

} // verus!
