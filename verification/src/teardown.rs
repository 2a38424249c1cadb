//! The teardown capability: a composable, single-fire cleanup action.
//!
//! A capability is a tree: a leaf fires one teardown record, and a pair
//! fires its left subtree and then its right one, depth-first. Each leaf is
//! owned by exactly one capability and a capability is consumed when run,
//! so every leaf fires at most once.

use vstd::prelude::*;

use crate::trace::{Trace, TraceRecord};

verus! {

/// A capability standing for zero or more teardown effects, to be fired
/// exactly once, in a fixed left-to-right depth-first order.
///
/// The type has no `Clone`: a capability can be moved, never duplicated,
/// which is what rules out firing its effects twice.
pub enum TeardownAction {
    /// No effect at all.
    Empty,
    /// One effect: record the teardown of the identity carried here.
    Leaf(u64),
    /// Both effects in order: first the left capability's, then the right's.
    Pair(Box<TeardownAction>, Box<TeardownAction>),
}

impl TeardownAction {
    /// The exact sequence of records that running this capability appends.
    pub open spec fn effects(self) -> Seq<TraceRecord>
        decreases self,
    {
        match self {
            TeardownAction::Empty => Seq::empty(),
            TeardownAction::Leaf(id) => seq![TraceRecord::Teardown(id)],
            TeardownAction::Pair(a, b) => a.effects() + b.effects(),
        }
    }

    /// Composes two capabilities into one that does `self`'s effects, then
    /// `other`'s. Both are consumed: no sub-action is duplicated or dropped.
    pub fn compose(self, other: TeardownAction) -> (r: TeardownAction)
        ensures
            r.effects() == self.effects() + other.effects(),
    {
        TeardownAction::Pair(Box::new(self), Box::new(other))
    }

    /// Fires the capability: appends exactly its effects to the trace, in
    /// order. Consumes the capability, so it can never fire again.
    pub fn run(self, trace: &mut Trace)
        ensures
            final(trace)@ == old(trace)@ + self.effects(),
        decreases self,
    {
        match self {
            TeardownAction::Empty => {
                assert(old(trace)@ + self.effects() =~= old(trace)@);
            },
            TeardownAction::Leaf(id) => {
                trace.record(TraceRecord::Teardown(id));
                assert(old(trace)@ + self.effects() =~= old(trace)@.push(
                    TraceRecord::Teardown(id),
                ));
            },
            TeardownAction::Pair(a, b) => {
                let ghost pre = trace@;
                (*a).run(trace);
                (*b).run(trace);
                assert(pre + self.effects() =~= pre + a.effects() + b.effects());
            },
        }
    }
}

/// The capability a derived fixture ends up with after attaching each of
/// `parents` in turn onto `base` with `compose`, earliest attachment first.
pub open spec fn attach_all(base: TeardownAction, parents: Seq<TeardownAction>) -> TeardownAction
    decreases parents.len(),
{
    if parents.len() == 0 {
        base
    } else {
        attach_all(
            TeardownAction::Pair(Box::new(base), Box::new(parents[0])),
            parents.skip(1),
        )
    }
}

/// The effects of a sequence of capabilities, laid out one after another in
/// the order of the sequence.
pub open spec fn effects_of_each(caps: Seq<TeardownAction>) -> Seq<TraceRecord>
    decreases caps.len(),
{
    if caps.len() == 0 {
        Seq::empty()
    } else {
        caps[0].effects() + effects_of_each(caps.skip(1))
    }
}

/// Law (teardown order): a capability built by attaching any number of
/// parent capabilities onto a base one fires, deterministically, the base's
/// effects first and then each parent's effects in attachment order. For a
/// derived fixture this is: the child tears itself down first, then its
/// parents, earliest attached first.
pub proof fn lemma_attach_all_order(base: TeardownAction, parents: Seq<TeardownAction>)
    ensures
        attach_all(base, parents).effects() == base.effects() + effects_of_each(parents),
    decreases parents.len(),
{
    if parents.len() == 0 {
        assert(base.effects() + effects_of_each(parents) =~= base.effects());
    } else {
        let paired = TeardownAction::Pair(Box::new(base), Box::new(parents[0]));
        lemma_attach_all_order(paired, parents.skip(1));
        assert(paired.effects() + effects_of_each(parents.skip(1)) =~= base.effects()
            + effects_of_each(parents));
    }
}

} // verus!
