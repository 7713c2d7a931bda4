//! Facts about sequences that the laws of the state machines rest on.

use vstd::prelude::*;

verus! {

/// A sequence holds a value exactly if the value is its last element or occurs
/// before it.
pub proof fn lemma_contains_last<A>(s: Seq<A>, wanted: A)
    requires
        s.len() > 0,
    ensures
        s.contains(wanted) <==> s.drop_last().contains(wanted) || s.last() == wanted,
{
    let before = s.drop_last();
    if s.contains(wanted) {
        let i = choose|i: int| 0 <= i < s.len() && s[i] == wanted;
        if i < before.len() {
            assert(before[i] == wanted);
        }
    }
    if before.contains(wanted) {
        let i = choose|i: int| 0 <= i < before.len() && before[i] == wanted;
        assert(s[i] == wanted);
    }
}

} // verus!
