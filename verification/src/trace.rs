//! The setup/teardown trace: the observable boundary of the library.
//!
//! Each fixture setup appends a `Setup` record with the fixture's identity,
//! and each fired teardown appends a `Teardown` record. Tests verify
//! lifecycle ordering by reading the records back.

use vstd::prelude::*;

verus! {

/// One observable lifecycle event, tagged with the fixture identity it
/// belongs to.
#[derive(Clone, Copy, Debug, PartialEq, Eq, Structural)]
pub enum TraceRecord {
    /// A fixture with this identity was set up.
    Setup(u64),
    /// The teardown belonging to this identity fired.
    Teardown(u64),
}

/// The ordered log of lifecycle events, oldest first.
pub struct Trace {
    /// The recorded events, in the order they happened.
    pub records: Vec<TraceRecord>,
}

impl View for Trace {
    type V = Seq<TraceRecord>;

    closed spec fn view(&self) -> Seq<TraceRecord> {
        self.records@
    }
}

impl Trace {
    /// An empty trace.
    pub fn new() -> (t: Trace)
        ensures
            t@ == Seq::<TraceRecord>::empty(),
    {
        Trace { records: Vec::new() }
    }

    /// How many events have been recorded.
    pub fn len(&self) -> (n: usize)
        ensures
            n == self@.len(),
    {
        self.records.len()
    }

    /// Appends one event. Only the library records events: a fixture's setup
    /// and the run of its teardown capability are the only writers.
    pub(crate) fn record(&mut self, r: TraceRecord)
        ensures
            final(self)@ == old(self)@.push(r),
    {
        self.records.push(r);
    }
}

} // verus!
