//! The fixture container: one test value paired with one teardown
//! capability, under a unique identity.
//!
//! A fixture is created by a setup operation, which assigns its identity and
//! records `Setup`; it is finished by [`Fixture::destroy`], which consumes it
//! and fires its capability exactly once. The value and the capability are
//! each held in a slot that can be emptied once ([`Fixture::take`] and
//! [`Fixture::guard`]): ownership moves out, it is never copied, so neither
//! can ever be held in two places.

use vstd::prelude::*;

use crate::allocator::IdAllocator;
use crate::teardown::TeardownAction;
use crate::trace::{Trace, TraceRecord};

verus! {

/// A container owning one value of type `T` (until extracted) and one
/// teardown capability (until extracted or fired).
pub struct Fixture<T> {
    id: u64,
    value: Option<T>,
    action: Option<TeardownAction>,
}

impl<T> Fixture<T> {
    /// The identity assigned at setup.
    pub closed spec fn id(self) -> u64 {
        self.id
    }

    /// The value slot: the owned value, or `None` once taken.
    pub closed spec fn value_opt(self) -> Option<T> {
        self.value
    }

    /// The capability slot: the owned capability, or `None` once extracted.
    pub closed spec fn action_opt(self) -> Option<TeardownAction> {
        self.action
    }

    /// True while the value has not been taken.
    pub open spec fn has_value(self) -> bool {
        self.value_opt() is Some
    }

    /// True while the capability has not been extracted.
    pub open spec fn has_action(self) -> bool {
        self.action_opt() is Some
    }

    /// The records that destroying this fixture appends: its capability's
    /// effects, or nothing once the capability has been extracted.
    pub open spec fn teardown_effects(self) -> Seq<TraceRecord> {
        match self.action_opt() {
            Some(a) => a.effects(),
            None => Seq::empty(),
        }
    }

    /// Sets up a fixture: assigns the next identity, records `Setup`, and
    /// stores the value together with the fixture's capability.
    ///
    /// The stored capability always fires the fixture's own teardown record
    /// first and then the explicit capability's effects, so a derived
    /// fixture tears itself down before anything attached to it.
    pub fn new(value: T, capability: TeardownAction, alloc: &mut IdAllocator, trace: &mut Trace) -> (f:
        Fixture<T>)
        requires
            old(alloc).can_issue(),
        ensures
            f.id() == old(alloc).next_spec(),
            final(alloc).next_spec() == old(alloc).next_spec() + 1,
            final(trace)@ == old(trace)@.push(TraceRecord::Setup(f.id())),
            f.value_opt() == Some(value),
            f.has_action(),
            f.teardown_effects() == seq![TraceRecord::Teardown(f.id())] + capability.effects(),
    {
        let id = alloc.next_id();
        trace.record(TraceRecord::Setup(id));
        let action = TeardownAction::Leaf(id).compose(capability);
        Fixture { id, value: Some(value), action: Some(action) }
    }

    /// Sets up a fixture for a value needing no cleanup of its own: its
    /// capability only records the fixture's teardown.
    pub fn from_value(value: T, alloc: &mut IdAllocator, trace: &mut Trace) -> (f: Fixture<T>)
        requires
            old(alloc).can_issue(),
        ensures
            f.id() == old(alloc).next_spec(),
            final(alloc).next_spec() == old(alloc).next_spec() + 1,
            final(trace)@ == old(trace)@.push(TraceRecord::Setup(f.id())),
            f.value_opt() == Some(value),
            f.has_action(),
            f.teardown_effects() == seq![TraceRecord::Teardown(f.id())],
    {
        let f = Self::new(value, TeardownAction::Empty, alloc, trace);
        proof {
            assert(f.teardown_effects() =~= seq![TraceRecord::Teardown(f.id())]);
        }
        f
    }

    /// Removes and returns the owned value. The slot becomes empty, and this
    /// contract's precondition makes a second call a verified-caller error;
    /// an unverified caller that ignores it stops with a panic rather than
    /// receive a stale value. Teardown is unaffected.
    pub fn take(&mut self) -> (v: T)
        requires
            old(self).has_value(),
        ensures
            Some(v) == old(self).value_opt(),
            !final(self).has_value(),
            final(self).action_opt() == old(self).action_opt(),
            final(self).id() == old(self).id(),
    {
        self.value.take().unwrap()
    }

    /// Removes and returns the teardown capability, leaving the slot empty:
    /// afterwards the capability lives only in the caller's hands, and
    /// destroying this fixture fires nothing.
    pub fn guard(&mut self) -> (g: TeardownAction)
        requires
            old(self).has_action(),
        ensures
            Some(g) == old(self).action_opt(),
            !final(self).has_action(),
            final(self).value_opt() == old(self).value_opt(),
            final(self).id() == old(self).id(),
    {
        self.action.take().unwrap()
    }

    /// Derives a fixture that owns `self`'s value under `self`'s identity
    /// and, at end of life, tears down `self` first and then fires the
    /// attached capability: a parent's cleanup runs after its child's.
    ///
    /// `self` is consumed; the attached capability is typically a parent
    /// fixture's, extracted with [`Fixture::guard`].
    pub fn compose(self, guard: TeardownAction) -> (f: Fixture<T>)
        requires
            self.has_value(),
            self.has_action(),
        ensures
            f.id() == self.id(),
            f.value_opt() == self.value_opt(),
            f.has_action(),
            f.teardown_effects() == self.teardown_effects() + guard.effects(),
    {
        let mut source = self;
        let value = source.take();
        let own = source.guard();
        Fixture { id: source.id, value: Some(value), action: Some(own.compose(guard)) }
    }

    /// Ends the fixture's life: fires the held capability exactly once,
    /// appending exactly `teardown_effects()` to the trace, whether or not
    /// the value was ever taken. Consumes the fixture, so teardown can never
    /// run twice.
    pub fn destroy(self, trace: &mut Trace)
        ensures
            final(trace)@ == old(trace)@ + self.teardown_effects(),
    {
        let Fixture { id: _, value: _, action } = self;
        match action {
            Some(a) => a.run(trace),
            None => {
                assert(old(trace)@ + self.teardown_effects() =~= old(trace)@);
            },
        }
    }
}

/// Law (round trip): for any value `v`, taking the value back out of
/// `from_value(v)` returns `v` unchanged, and the fixture's whole life adds
/// exactly one `Setup` and one `Teardown` record, both with its identity.
pub fn from_value_round_trip<T>(value: T, alloc: &mut IdAllocator, trace: &mut Trace) -> (v: T)
    requires
        old(alloc).can_issue(),
    ensures
        v == value,
        final(alloc).next_spec() == old(alloc).next_spec() + 1,
        final(trace)@ == old(trace)@ + seq![
            TraceRecord::Setup(old(alloc).next_spec()),
            TraceRecord::Teardown(old(alloc).next_spec()),
        ],
{
    let mut f = Fixture::from_value(value, alloc, trace);
    let v = f.take();
    let ghost pre = old(trace)@;
    let ghost id = f.id();
    f.destroy(trace);
    proof {
        assert(trace@ =~= pre + seq![TraceRecord::Setup(id), TraceRecord::Teardown(id)]);
    }
    v
}

} // verus!
