use fixtures::allocator::IdAllocator;
use fixtures::fixture::{from_value_round_trip, Fixture};
use fixtures::samples::{copy, copy_val, key, key_val, moved, moved_val, reference, reference_val};
use fixtures::teardown::TeardownAction;
use fixtures::trace::{Trace, TraceRecord};

#[test]
fn prova() {
    let mut alloc = IdAllocator::new();
    let mut trace = Trace::new();

    let mut copy_fixture = Fixture::from_value(copy(), &mut alloc, &mut trace);
    let copy = copy_fixture.take();
    let mut reference_fixture = reference_val(&mut alloc, &mut trace);
    let reference = reference_fixture.take();
    let mut moved_fixture = moved_val(&mut alloc, &mut trace);
    let _moved = moved_fixture.take();

    assert_eq!(copy, reference.len());
    println!("Prova done");

    moved_fixture.destroy(&mut trace);
    reference_fixture.destroy(&mut trace);
    copy_fixture.destroy(&mut trace);
}

#[test]
fn ids_strictly_increase() {
    let mut alloc = IdAllocator::new();
    let mut issued: Vec<u64> = Vec::new();
    let mut i = 0;
    while i < 8 {
        issued.push(alloc.next_id());
        i += 1;
    }
    for w in issued.windows(2) {
        assert!(w[0] < w[1]);
    }
    assert_eq!(issued, vec![0, 1, 2, 3, 4, 5, 6, 7]);
}

#[test]
fn take_returns_original_value() {
    let mut alloc = IdAllocator::new();
    let mut trace = Trace::new();
    let mut f = Fixture::from_value(42usize, &mut alloc, &mut trace);
    assert_eq!(f.take(), 42usize);
    f.destroy(&mut trace);
}

#[test]
fn round_trip_copyable() {
    let mut alloc = IdAllocator::new();
    let mut trace = Trace::new();
    assert_eq!(from_value_round_trip(7usize, &mut alloc, &mut trace), 7usize);
}

#[test]
fn round_trip_referenced() {
    let mut alloc = IdAllocator::new();
    let mut trace = Trace::new();
    let s: &'static str = "shared";
    assert_eq!(from_value_round_trip(s, &mut alloc, &mut trace), "shared");
}

#[test]
fn round_trip_owned_moved() {
    let mut alloc = IdAllocator::new();
    let mut trace = Trace::new();
    let owned = String::from("owned");
    assert_eq!(from_value_round_trip(owned, &mut alloc, &mut trace), "owned");
    let marker = moved();
    let _back = from_value_round_trip(marker, &mut alloc, &mut trace);
    assert_eq!(
        trace.records,
        vec![
            TraceRecord::Setup(0),
            TraceRecord::Teardown(0),
            TraceRecord::Setup(1),
            TraceRecord::Teardown(1),
        ]
    );
}

#[test]
fn teardown_fires_once_without_take() {
    let mut alloc = IdAllocator::new();
    let mut trace = Trace::new();
    let f = Fixture::from_value(5u8, &mut alloc, &mut trace);
    f.destroy(&mut trace);
    assert_eq!(
        trace.records,
        vec![TraceRecord::Setup(0), TraceRecord::Teardown(0)]
    );
}

#[test]
fn teardown_fires_once_after_take() {
    let mut alloc = IdAllocator::new();
    let mut trace = Trace::new();
    let mut f = Fixture::from_value(5u8, &mut alloc, &mut trace);
    let _v = f.take();
    f.destroy(&mut trace);
    assert_eq!(
        trace.records,
        vec![TraceRecord::Setup(0), TraceRecord::Teardown(0)]
    );
}

#[test]
fn gutted_fixture_fires_nothing() {
    let mut alloc = IdAllocator::new();
    let mut trace = Trace::new();
    let mut f = Fixture::from_value(5u8, &mut alloc, &mut trace);
    let g = f.guard();
    f.destroy(&mut trace);
    assert_eq!(trace.records, vec![TraceRecord::Setup(0)]);
    g.run(&mut trace);
    assert_eq!(
        trace.records,
        vec![TraceRecord::Setup(0), TraceRecord::Teardown(0)]
    );
}

#[test]
fn new_fires_own_record_then_capability() {
    let mut alloc = IdAllocator::new();
    let mut trace = Trace::new();
    let f = Fixture::new(1u8, TeardownAction::Leaf(99), &mut alloc, &mut trace);
    f.destroy(&mut trace);
    assert_eq!(
        trace.records,
        vec![
            TraceRecord::Setup(0),
            TraceRecord::Teardown(0),
            TraceRecord::Teardown(99),
        ]
    );
}

#[test]
fn composed_fixture_tears_down_child_then_parents() {
    let mut alloc = IdAllocator::new();
    let mut trace = Trace::new();
    let mut parent_a = Fixture::from_value('a', &mut alloc, &mut trace);
    let mut parent_b = Fixture::from_value('b', &mut alloc, &mut trace);
    let child = Fixture::from_value('c', &mut alloc, &mut trace);
    let _ = parent_a.take();
    let _ = parent_b.take();
    let composed = child.compose(parent_a.guard()).compose(parent_b.guard());
    composed.destroy(&mut trace);
    assert_eq!(
        trace.records,
        vec![
            TraceRecord::Setup(0),
            TraceRecord::Setup(1),
            TraceRecord::Setup(2),
            TraceRecord::Teardown(2),
            TraceRecord::Teardown(0),
            TraceRecord::Teardown(1),
        ]
    );
}

#[test]
fn capability_compose_keeps_order() {
    let mut trace = Trace::new();
    let both = TeardownAction::Leaf(10).compose(TeardownAction::Leaf(20));
    let all = TeardownAction::Empty.compose(both);
    all.run(&mut trace);
    assert_eq!(
        trace.records,
        vec![TraceRecord::Teardown(10), TraceRecord::Teardown(20)]
    );
}

#[test]
fn sample_values() {
    assert_eq!(copy(), 4);
    assert_eq!(key(), 3);
    assert_eq!(reference(3), "ciao");
    assert_eq!(reference(0), "__NOTHING__");
}

#[test]
fn sample_fixtures_trace() {
    let mut alloc = IdAllocator::new();
    let mut trace = Trace::new();
    let mut copy_fixture = copy_val(&mut alloc, &mut trace);
    assert_eq!(copy_fixture.take(), 4);
    let mut key_fixture = key_val(&mut alloc, &mut trace);
    assert_eq!(key_fixture.take(), 3);
    key_fixture.destroy(&mut trace);
    copy_fixture.destroy(&mut trace);
    assert_eq!(
        trace.records,
        vec![
            TraceRecord::Setup(0),
            TraceRecord::Setup(1),
            TraceRecord::Teardown(1),
            TraceRecord::Teardown(0),
        ]
    );
    assert_eq!(trace.len(), 4);
}

#[test]
fn scenario_trace_order() {
    let mut alloc = IdAllocator::new();
    let mut trace = Trace::new();

    // Fixture A: the plain copyable value, no cleanup of its own.
    let mut fixture_a = copy_val(&mut alloc, &mut trace);
    // Fixture B, derived from fixture C: C holds key 3, used to look up
    // "ciao"; B owns the entry and C's teardown capability.
    let mut fixture_b = reference_val(&mut alloc, &mut trace);
    // Fixture D: an owned marker object.
    let mut fixture_d = moved_val(&mut alloc, &mut trace);

    let a = fixture_a.take();
    let b = fixture_b.take();
    let _d = fixture_d.take();
    assert_eq!(a, b.len());

    // End of scope: destruction in reverse creation order.
    fixture_d.destroy(&mut trace);
    fixture_b.destroy(&mut trace);
    fixture_a.destroy(&mut trace);

    assert_eq!(
        trace.records,
        vec![
            // Four setups in creation order: A, C, B, D.
            TraceRecord::Setup(0),
            TraceRecord::Setup(1),
            TraceRecord::Setup(2),
            TraceRecord::Setup(3),
            // Teardowns in reverse dependency order, B's own record
            // preceding C's.
            TraceRecord::Teardown(3),
            TraceRecord::Teardown(2),
            TraceRecord::Teardown(1),
            TraceRecord::Teardown(0),
        ]
    );
}
