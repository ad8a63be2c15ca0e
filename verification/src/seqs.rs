//! Facts about sequences that several modules lean on.

use vstd::prelude::*;

verus! {

/// What a sequence contains after one more element is pushed.
pub proof fn lemma_push_contains(s: Seq<u64>, x: u64)
    ensures
        forall|a: u64| #[trigger] s.push(x).contains(a) <==> s.contains(a) || a == x,
{
    assert forall|a: u64| #[trigger] s.push(x).contains(a) <==> s.contains(a) || a == x by {
        if s.push(x).contains(a) {
            let j = choose|j: int| 0 <= j < s.push(x).len() && s.push(x)[j] == a;
            if j < s.len() {
                assert(s[j] == a);
            }
        }
        if s.contains(a) {
            let j = choose|j: int| 0 <= j < s.len() && s[j] == a;
            assert(s.push(x)[j] == a);
        }
        if a == x {
            assert(s.push(x)[s.len() as int] == a);
        }
    }
}

/// The first `i + 1` elements are the first `i` and the one at `i`.
pub proof fn lemma_take_next(s: Seq<u64>, i: int)
    requires
        0 <= i < s.len(),
    ensures
        s.take(i + 1) == s.take(i).push(s[i]),
        forall|a: u64| #[trigger] s.take(i + 1).contains(a) <==> s.take(i).contains(a) || a == s[i],
{
    assert(s.take(i + 1) =~= s.take(i).push(s[i]));
    lemma_push_contains(s.take(i), s[i]);
}

} // verus!
