//! Small helpers on byte strings.

use vstd::prelude::*;

verus! {

/// `prefix` stands at the start of `text`.
pub open spec fn is_prefix_of(prefix: Seq<u8>, text: Seq<u8>) -> bool {
    prefix.len() <= text.len() && text.subrange(0, prefix.len() as int) == prefix
}

/// Tells whether `text` starts with `prefix`.
pub fn starts_with(text: &[u8], prefix: &[u8]) -> (found: bool)
    ensures
        found == is_prefix_of(prefix@, text@),
{
    if prefix.len() > text.len() {
        return false;
    }
    let mut at: usize = 0;
    while at < prefix.len()
        invariant
            at <= prefix.len() <= text.len(),
            forall|i: int| 0 <= i < at ==> text@[i] == prefix@[i],
        decreases prefix.len() - at,
    {
        if text[at] != prefix[at] {
            return false;
        }
        at += 1;
    }
    assert(text@.subrange(0, prefix.len() as int) =~= prefix@);
    true
}

} // verus!
