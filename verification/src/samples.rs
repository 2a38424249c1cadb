//! Sample value producers and the fixtures built from them.
//!
//! These are the collaborator resources a test acquires: a copyable counter
//! value, a key into a small lookup table, a referenced table entry, and an
//! owned marker object. Each `*_val` function performs the setup of the
//! matching fixture against an allocator and a trace.

use vstd::prelude::*;

use crate::allocator::IdAllocator;
use crate::fixture::Fixture;
use crate::trace::{Trace, TraceRecord};

verus! {

/// The copyable sample value.
pub fn copy() -> (r: usize)
    ensures
        r == 4,
{
    4
}

/// Sets up a fixture owning the copyable sample value; it needs no cleanup
/// beyond its own teardown record.
pub fn copy_val(alloc: &mut IdAllocator, trace: &mut Trace) -> (f: Fixture<usize>)
    requires
        old(alloc).can_issue(),
    ensures
        f.id() == old(alloc).next_spec(),
        final(alloc).next_spec() == old(alloc).next_spec() + 1,
        final(trace)@ == old(trace)@.push(TraceRecord::Setup(f.id())),
        f.value_opt() == Some(4usize),
        f.has_action(),
        f.teardown_effects() == seq![TraceRecord::Teardown(f.id())],
{
    Fixture::from_value(copy(), alloc, trace)
}

/// The key sample value: a key present in the lookup table.
pub fn key() -> (r: i32)
    ensures
        r == 3,
{
    3
}

/// Sets up a fixture owning the key sample value.
pub fn key_val(alloc: &mut IdAllocator, trace: &mut Trace) -> (f: Fixture<i32>)
    requires
        old(alloc).can_issue(),
    ensures
        f.id() == old(alloc).next_spec(),
        final(alloc).next_spec() == old(alloc).next_spec() + 1,
        final(trace)@ == old(trace)@.push(TraceRecord::Setup(f.id())),
        f.value_opt() == Some(3i32),
        f.has_action(),
        f.teardown_effects() == seq![TraceRecord::Teardown(f.id())],
{
    Fixture::from_value(key(), alloc, trace)
}

/// Looks `key` up in the table; the only entry maps 3 to "ciao", and a
/// missing key answers the sentinel "__NOTHING__".
pub fn reference(key: i32) -> (r: &'static str)
    ensures
        key == 3 ==> r@ == "ciao"@,
        key != 3 ==> r@ == "__NOTHING__"@,
{
    if key == 3 {
        "ciao"
    } else {
        "__NOTHING__"
    }
}

/// Sets up a fixture owning the table entry for the key sample value.
///
/// This is a derived fixture: it first sets up a key fixture, takes the key
/// out, looks the entry up, and attaches the key fixture's capability onto
/// the entry fixture's — so at end of life the entry fixture tears itself
/// down first and then the key fixture.
pub fn reference_val(alloc: &mut IdAllocator, trace: &mut Trace) -> (f: Fixture<&'static str>)
    requires
        old(alloc).next_spec() < u64::MAX - 1,
    ensures
        f.id() == old(alloc).next_spec() + 1,
        final(alloc).next_spec() == old(alloc).next_spec() + 2,
        final(trace)@ == old(trace)@ + seq![
            TraceRecord::Setup(old(alloc).next_spec()),
            TraceRecord::Setup(f.id()),
        ],
        f.value_opt() matches Some(v) && v@ == "ciao"@,
        f.has_action(),
        f.teardown_effects() == seq![
            TraceRecord::Teardown(f.id()),
            TraceRecord::Teardown(old(alloc).next_spec()),
        ],
{
    let ghost pre = trace@;
    let mut key_fixture = key_val(alloc, trace);
    let key = key_fixture.take();
    let entry_fixture = Fixture::from_value(reference(key), alloc, trace);
    let f = entry_fixture.compose(key_fixture.guard());
    proof {
        assert(trace@ =~= pre + seq![
            TraceRecord::Setup(key_fixture.id()),
            TraceRecord::Setup(f.id()),
        ]);
        assert(f.teardown_effects() =~= seq![
            TraceRecord::Teardown(f.id()),
            TraceRecord::Teardown(key_fixture.id()),
        ]);
    }
    f
}

/// The owned, moved sample value: a marker object with no contents.
pub struct A {}

/// Produces the owned sample value.
pub fn moved() -> (r: A)
    ensures
        (r == A {}),
{
    A {}
}

/// Sets up a fixture owning the moved sample value.
pub fn moved_val(alloc: &mut IdAllocator, trace: &mut Trace) -> (f: Fixture<A>)
    requires
        old(alloc).can_issue(),
    ensures
        f.id() == old(alloc).next_spec(),
        final(alloc).next_spec() == old(alloc).next_spec() + 1,
        final(trace)@ == old(trace)@.push(TraceRecord::Setup(f.id())),
        f.value_opt() == Some(A {}),
        f.has_action(),
        f.teardown_effects() == seq![TraceRecord::Teardown(f.id())],
{
    Fixture::from_value(moved(), alloc, trace)
}

} // verus!
