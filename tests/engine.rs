use deferred_chain::chains::{
    choose_future_i32, fallible, future_chain, returns_delayed_future, returns_dyn_future_i32,
    wait_a_sec, TAG_CHAIN_START, TAG_FIRST_THEN, TAG_LAST_THEN, TAG_LAZY_VALUE, TAG_SEEN_DELAYED,
    TAG_SEEN_DYN, TAG_SEEN_DYN_ERROR, TAG_SEEN_GREETING, TAG_SEEN_IMPL, TAG_SEEN_RESULT,
    TAG_SEEN_WAITED,
};
use deferred_chain::deferred::{apply, Deferred, Event, Failure, Transform, UNIT};
use deferred_chain::executor::Executor;
use deferred_chain::task::Task;

fn tags(events: &[Event]) -> Vec<u64> {
    events.iter().map(|e| e.tag).collect()
}

#[test]
fn immediate_resolves_without_waiting() {
    let mut ex = Executor::new();
    assert_eq!(ex.block_on(Deferred::immediate(42)), Ok(42));
    assert_eq!(ex.now, 0);
    assert!(ex.trace.is_empty());
    assert_eq!(ex.block_on(Deferred::immediate(-7)), Ok(-7));
}

#[test]
fn immediate_map_adds_one() {
    let mut ex = Executor::new();
    let r = ex.block_on(Deferred::immediate(42).map(Transform::Add(1)));
    assert_eq!(r, Ok(43));
}

#[test]
fn failure_stops_before_continuation() {
    let mut ex = Executor::new();
    let d = Deferred::lazy(5, Err(Failure::ResourceUnavailable)).and_then(Deferred::lazy(6, Ok(1)));
    assert_eq!(ex.block_on(d), Err(Failure::ResourceUnavailable));
    assert_eq!(tags(&ex.trace), vec![5]);
}

#[test]
fn failure_then_immediate_is_terminal() {
    let mut ex = Executor::new();
    let d = Deferred::lazy(5, Err(Failure::ResourceUnavailable)).and_then(Deferred::immediate(1));
    assert_eq!(ex.block_on(d), Err(Failure::ResourceUnavailable));
}

#[test]
fn spawned_counter_runs_before_delayed_chain_resolves() {
    let mut ex = Executor::new();
    ex.spawn(Deferred::lazy(77, Ok(1)));
    let r = ex.block_on(Deferred::delay(100).and_then(Deferred::immediate(7)));
    assert_eq!(r, Ok(7));
    assert_eq!(ex.now, 100);
    assert!(ex.tasks[0].is_resolved());
    assert_eq!(tags(&ex.tasks[0].events), vec![77]);
    assert_eq!(ex.tasks[0].last_polled, Some(100));
}

#[test]
fn chain_effects_in_written_order() {
    let mut ex = Executor::new();
    let d = Deferred::lazy(1, Ok(10))
        .and_then(Deferred::lazy(2, Ok(20)))
        .and_then(Deferred::lazy(3, Ok(30)));
    assert_eq!(ex.block_on(d), Ok(30));
    assert_eq!(tags(&ex.trace), vec![1, 2, 3]);
}

#[test]
fn resolved_task_does_not_rerun() {
    let mut t = Task::new(Deferred::lazy(1, Ok(10)).inspect(2));
    assert!(t.poll(0));
    assert_eq!(t.events.len(), 2);
    assert!(t.poll(5));
    assert_eq!(t.events.len(), 2);
    assert_eq!(t.output, Ok(10));
}

#[test]
fn map_skips_after_failure() {
    let mut ex = Executor::new();
    let d = Deferred::fail(Failure::ComputationFailure(9)).map(Transform::Add(1)).inspect(4);
    assert_eq!(ex.block_on(d), Err(Failure::ComputationFailure(9)));
    assert!(ex.trace.is_empty());
}

#[test]
fn inspect_leaves_value_unchanged() {
    let mut ex = Executor::new();
    let a = ex.block_on(Deferred::immediate(5).inspect(7).map(Transform::Scale(3)));
    let b = ex.block_on(Deferred::immediate(5).map(Transform::Scale(3)));
    assert_eq!(a, Ok(15));
    assert_eq!(a, b);
    assert_eq!(ex.trace, vec![Event { tag: 7, seen: Some(5) }]);
}

#[test]
fn delay_prefix_advances_clock() {
    let mut ex = Executor::new();
    ex.spawn(Deferred::delay(10).and_then(Deferred::lazy(8, Ok(0))));
    ex.spawn(Deferred::delay(1000).and_then(Deferred::lazy(9, Ok(0))));
    let r = ex.block_on(Deferred::delay(250).and_then(Deferred::immediate(3)));
    assert_eq!(r, Ok(3));
    assert_eq!(ex.now, 250);
    assert!(ex.tasks[0].is_resolved());
    assert!(!ex.tasks[1].is_resolved());
    assert_eq!(ex.tasks[1].last_polled, Some(250));
}

#[test]
fn successive_delays_add_up() {
    let mut ex = Executor::new();
    let d = Deferred::delay(30).and_then(Deferred::delay(0)).and_then(Deferred::delay(12));
    assert_eq!(ex.block_on(d), Ok(UNIT));
    assert_eq!(ex.now, 42);
}

#[test]
fn task_waits_until_elapsed() {
    let mut t = Task::new(Deferred::delay(100).and_then(Deferred::immediate(1)));
    assert!(!t.poll(5));
    assert_eq!(t.waiting_since, Some(5));
    assert!(!t.poll(104));
    assert!(t.poll(105));
    assert_eq!(t.output, Ok(1));
}

#[test]
fn transforms_compute_exact_values() {
    assert_eq!(apply(Transform::Add(1), 41), 42);
    assert_eq!(apply(Transform::Add(1), i64::MAX), i64::MIN);
    assert_eq!(apply(Transform::Scale(-2), 21), -42);
    assert_eq!(apply(Transform::Scale(2), i64::MAX), -2);
    assert_eq!(apply(Transform::Constant(9), 1), 9);
}

#[test]
fn delayed_future_and_wait_a_sec() {
    let mut ex = Executor::new();
    assert_eq!(ex.block_on(returns_delayed_future()), Ok(42));
    assert_eq!(ex.now, 500);
    assert_eq!(ex.block_on(wait_a_sec(Deferred::immediate(42))), Ok(42));
    assert_eq!(ex.now, 1500);
}

#[test]
fn choice_between_ready_and_lazy() {
    let mut ex = Executor::new();
    assert_eq!(ex.block_on(choose_future_i32(true)), Ok(42));
    assert!(ex.trace.is_empty());
    assert_eq!(ex.block_on(choose_future_i32(false)), Ok(1337));
    assert_eq!(tags(&ex.trace), vec![TAG_LAZY_VALUE]);
    let r = ex.block_on(returns_dyn_future_i32());
    assert!(r == Ok(42) || r == Ok(1337));
}

#[test]
fn demonstration_chain_runs_in_order() {
    let mut ex = Executor::new();
    assert_eq!(ex.block_on(future_chain(false)), Ok(UNIT));
    assert_eq!(ex.now, 1500);
    assert_eq!(
        tags(&ex.trace),
        vec![
            TAG_CHAIN_START,
            TAG_FIRST_THEN,
            TAG_SEEN_GREETING,
            TAG_SEEN_IMPL,
            TAG_LAZY_VALUE,
            TAG_SEEN_DYN,
            TAG_SEEN_RESULT,
            TAG_SEEN_DYN_ERROR,
            TAG_SEEN_DELAYED,
            TAG_SEEN_WAITED,
            TAG_LAST_THEN,
        ]
    );
    assert_eq!(ex.trace[5], Event { tag: TAG_SEEN_DYN, seen: Some(1337) });
}

#[test]
fn failed_open_is_resource_unavailable() {
    assert_eq!(fallible(true), Ok(()));
    assert_eq!(fallible(false), Err(Failure::ResourceUnavailable));
}

#[test]
fn every_failure_kind_reaches_block_on() {
    let kinds = [
        Failure::ComputationFailure(3),
        Failure::ArityMismatch,
        Failure::ExecutorMisuse,
        Failure::ResourceUnavailable,
    ];
    for kind in kinds {
        let mut ex = Executor::new();
        let d = Deferred::fail(kind)
            .map(Transform::Constant(1))
            .and_then(Deferred::delay(50))
            .and_then(Deferred::immediate(2));
        assert_eq!(ex.block_on(d), Err(kind));
        assert_eq!(ex.now, 0);
    }
}
