//! First-hit scans over a sequence of outcome flags, shared by the port
//! allocator and the readiness prober.

use vstd::prelude::*;

verus! {

/// Whether some flag in the sequence is set.
pub open spec fn has_true(s: Seq<bool>) -> bool {
    exists|i: int| 0 <= i < s.len() && s[i]
}

/// The index of the first set flag; meaningful only when `has_true(s)`.
pub open spec fn first_true(s: Seq<bool>) -> int
    decreases s.len(),
{
    if s.len() == 0 {
        0
    } else if s[0] {
        0
    } else {
        1 + first_true(s.drop_first())
    }
}

/// When some flag is set, `first_true` is a valid index, its flag is set,
/// and every flag before it is clear.
pub proof fn lemma_first_true(s: Seq<bool>)
    requires
        has_true(s),
    ensures
        0 <= first_true(s) < s.len(),
        s[first_true(s)],
        forall|j: int| 0 <= j < first_true(s) ==> !s[j],
    decreases s.len(),
{
    if !s[0] {
        let w = choose|i: int| 0 <= i < s.len() && s[i];
        assert(s.drop_first()[w - 1] == s[w]);
        lemma_first_true(s.drop_first());
        assert forall|j: int| 0 <= j < first_true(s) implies !s[j] by {
            if j > 0 {
                assert(s.drop_first()[j - 1] == s[j]);
            }
        }
    }
}

/// A set flag with only clear flags before it is the first set flag.
pub proof fn lemma_first_true_is(s: Seq<bool>, i: int)
    requires
        0 <= i < s.len(),
        s[i],
        forall|j: int| 0 <= j < i ==> !s[j],
    ensures
        first_true(s) == i,
    decreases s.len(),
{
    if i > 0 {
        assert(s.drop_first()[i - 1] == s[i]);
        assert forall|j: int| 0 <= j < i - 1 implies !s.drop_first()[j] by {
            assert(s.drop_first()[j] == s[j + 1]);
        }
        lemma_first_true_is(s.drop_first(), i - 1);
    }
}

} // verus!
