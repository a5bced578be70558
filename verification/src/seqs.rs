//! Prefix lemmas for sequences, used when a loop that walks a list left to
//! right carries an invariant stated over a recursively defined function of
//! the prefix walked so far.

use vstd::prelude::*;

verus! {

/// Extending a prefix by one element: the longer prefix drops back to the
/// shorter one, and ends with the element at the boundary.
pub proof fn lemma_prefix_step<T>(s: Seq<T>, i: int)
    requires
        0 <= i < s.len(),
    ensures
        s.subrange(0, i + 1).drop_last() == s.subrange(0, i),
        s.subrange(0, i + 1).last() == s[i],
{
    assert(s.subrange(0, i + 1).drop_last() =~= s.subrange(0, i));
}

/// The prefix of full length is the sequence itself.
pub proof fn lemma_prefix_full<T>(s: Seq<T>)
    ensures
        s.subrange(0, s.len() as int) == s,
{
    assert(s.subrange(0, s.len() as int) =~= s);
}

} // verus!
