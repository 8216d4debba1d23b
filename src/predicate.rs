//! The acceptance predicate over a pair of candidates.
use vstd::prelude::*;

verus! {

/// A pair is accepted when `first` is non-empty and each of its bytes occurs
/// somewhere in `second`. Neither multiplicities nor the bytes of `second`
/// that `first` lacks are looked at, so the relation is not symmetric.
pub open spec fn accepts(first: Seq<u8>, second: Seq<u8>) -> bool {
    first.len() > 0 && forall|i: int| 0 <= i < first.len() ==> #[trigger] second.contains(first[i])
}

/// An empty first candidate is never accepted, whatever the second one holds.
pub proof fn lemma_empty_first_rejected(second: Seq<u8>)
    ensures
        !accepts(Seq::empty(), second),
{
}

/// Decides whether a round's pair of candidates is accepted, by scanning
/// `second` once for each byte of `first`.
pub fn is_good_strings(first: &Vec<u8>, second: &Vec<u8>) -> (r: bool)
    ensures
        r == accepts(first@, second@),
{
    let mut contains = false;
    let mut i: usize = 0;
    while i < first.len()
        invariant
            0 <= i <= first@.len(),
            contains == (i > 0),
            forall|k: int| 0 <= k < i ==> #[trigger] second@.contains(first@[k]),
        decreases first@.len() - i,
    {
        let f = first[i];
        let mut found = false;
        let mut j: usize = 0;
        while j < second.len()
            invariant
                0 <= j <= second@.len(),
                i < first@.len(),
                f == first@[i as int],
                found ==> second@.contains(f),
                contains == (i > 0 || found),
                !found ==> forall|m: int| 0 <= m < j ==> second@[m] != f,
            decreases second@.len() - j,
        {
            if second[j] == f {
                found = true;
                contains = true;
            }
            j = j + 1;
        }
        if !found {
            assert(!second@.contains(f));
            return false;
        }
        i = i + 1;
    }
    contains
}

} // verus!
