//! A minimal test-fixture lifecycle library.
//!
//! A [`fixture::Fixture`] pairs a test value with a [`teardown::TeardownAction`],
//! a composable, single-fire cleanup capability. Every fixture is assigned a
//! unique, strictly increasing identity by an [`allocator::IdAllocator`], and
//! every setup and teardown is recorded in a [`trace::Trace`], the observable
//! boundary against which lifecycle ordering is checked.

pub mod allocator;
pub mod fixture;
pub mod samples;
pub mod teardown;
pub mod trace;
