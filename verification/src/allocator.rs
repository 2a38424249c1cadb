//! The identity allocator: a counter issuing a unique, strictly increasing
//! id per fixture setup.

use vstd::prelude::*;

verus! {

/// Issues fixture identities in strictly increasing order.
///
/// The allocator is explicit state: callers own one and thread it through
/// every setup. Exclusive ownership of the allocator (`&mut` at every call)
/// is what makes two calls unable to observe the same value.
pub struct IdAllocator {
    next: u64,
}

impl IdAllocator {
    /// The id the next call of `next_id` will return.
    pub closed spec fn next_spec(self) -> u64 {
        self.next
    }

    /// True while the counter has room for one more id.
    pub open spec fn can_issue(self) -> bool {
        self.next_spec() < u64::MAX
    }

    /// A fresh allocator; the first id it issues is 0.
    pub fn new() -> (a: IdAllocator)
        ensures
            a.next_spec() == 0,
    {
        IdAllocator { next: 0 }
    }

    /// Issues the next identity: returns the counter and advances it,
    /// so no two calls ever return the same value.
    pub fn next_id(&mut self) -> (id: u64)
        requires
            old(self).can_issue(),
        ensures
            id == old(self).next_spec(),
            final(self).next_spec() == id + 1,
    {
        let id = self.next;
        self.next = self.next + 1;
        id
    }
}

/// Holds when `ids` is the sequence of identities returned by successive
/// `next_id` calls and `states` the allocator values around them: `states[i]`
/// is the allocator before the call that returned `ids[i]`, and each call
/// relates its two surrounding states as `next_id`'s contract says.
pub open spec fn issued_in_order(states: Seq<IdAllocator>, ids: Seq<u64>) -> bool {
    &&& states.len() == ids.len() + 1
    &&& forall|i: int|
        0 <= i < ids.len() ==> #[trigger] ids[i] == states[i].next_spec()
            && states[i + 1].next_spec() == ids[i] + 1
}

proof fn lemma_issued_linear(states: Seq<IdAllocator>, ids: Seq<u64>, k: int)
    requires
        issued_in_order(states, ids),
        0 <= k <= ids.len(),
    ensures
        states[k].next_spec() == states[0].next_spec() + k,
    decreases k,
{
    if k > 0 {
        lemma_issued_linear(states, ids, k - 1);
        assert(ids[k - 1] == states[k - 1].next_spec());
    }
}

/// Law: over any run of `next_id` calls, the identities issued are strictly
/// increasing in call order, and therefore pairwise distinct.
pub proof fn lemma_ids_strictly_increase(states: Seq<IdAllocator>, ids: Seq<u64>)
    requires
        issued_in_order(states, ids),
    ensures
        forall|i: int, j: int| 0 <= i < j < ids.len() ==> #[trigger] ids[i] < #[trigger] ids[j],
        forall|i: int, j: int|
            0 <= i < ids.len() && 0 <= j < ids.len() && i != j ==> #[trigger] ids[i] != #[trigger] ids[j],
{
    assert forall|i: int, j: int| 0 <= i < j < ids.len() implies #[trigger] ids[i] < #[trigger] ids[j] by {
        lemma_issued_linear(states, ids, i);
        lemma_issued_linear(states, ids, j);
    }
}

} // verus!
