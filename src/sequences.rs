//! Facts about filtered sequences.

use vstd::prelude::*;

verus! {

/// Filtering a non-empty sequence filters its front, then keeps or drops
/// its last element.
pub proof fn lemma_filter_step<A>(s: Seq<A>, pred: spec_fn(A) -> bool)
    requires
        s.len() > 0,
    ensures
        s.filter(pred) == if pred(s.last()) {
            s.drop_last().filter(pred).push(s.last())
        } else {
            s.drop_last().filter(pred)
        },
{
    reveal_with_fuel(Seq::filter, 1);
}

/// Every element of a filtered sequence is an element of the sequence
/// filtered.
pub proof fn lemma_filter_from<A>(s: Seq<A>, pred: spec_fn(A) -> bool)
    ensures
        forall|j: int|
            0 <= j < s.filter(pred).len() ==> exists|m: int|
                0 <= m < s.len() && s[m] == #[trigger] s.filter(pred)[j],
    decreases s.len(),
{
    if s.len() > 0 {
        let front = s.drop_last();
        lemma_filter_from(front, pred);
        lemma_filter_step(s, pred);
        assert forall|j: int| 0 <= j < s.filter(pred).len() implies exists|m: int|
            0 <= m < s.len() && s[m] == #[trigger] s.filter(pred)[j] by {
            if j < front.filter(pred).len() {
                let m = choose|m: int| 0 <= m < front.len() && front[m] == front.filter(pred)[j];
                assert(s[m] == front[m]);
            } else {
                assert(s[s.len() - 1] == s.filter(pred)[j]);
            }
        }
    }
}

} // verus!
