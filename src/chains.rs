//! Deferred values that the demonstration program builds and drives. One
//! clock tick stands for one millisecond.
use vstd::prelude::*;
use crate::deferred::{Deferred, Failure, Step, UNIT, outcome, output_after, total_wait, wait_after};

verus! {

/// Relies on rand::random: draws a value from the thread-local generator.
/// Nothing is promised about which value comes out.
pub assume_specification<T>[ rand::random::<T> ]() -> (r: T)
    where
        rand::distributions::Standard: rand::distributions::Distribution<T>,
;

/// Tag of the callback that opens the chain of `returns_future_chain`.
pub const TAG_CHAIN_START: u64 = 1;
/// Tag of the callback of the first `then` of that chain.
pub const TAG_FIRST_THEN: u64 = 2;
/// Tag of the observer after the first `then`.
pub const TAG_SEEN_GREETING: u64 = 3;
/// Tag of the observer after `returns_impl_future_i32`.
pub const TAG_SEEN_IMPL: u64 = 4;
/// Tag of the observer after `returns_dyn_future_i32`.
pub const TAG_SEEN_DYN: u64 = 5;
/// Tag of the observer after `returns_future_result`.
pub const TAG_SEEN_RESULT: u64 = 6;
/// Tag of the observer after `returns_future_result_dyn_error`.
pub const TAG_SEEN_DYN_ERROR: u64 = 7;
/// Tag of the observer after `returns_delayed_future`.
pub const TAG_SEEN_DELAYED: u64 = 8;
/// Tag of the observer after `wait_a_sec`.
pub const TAG_SEEN_WAITED: u64 = 9;
/// Tag of the callback of the last `then` of that chain.
pub const TAG_LAST_THEN: u64 = 10;
/// Tag of the lazy callback that `returns_dyn_future_i32` may pick.
pub const TAG_LAZY_VALUE: u64 = 11;
/// Tag of `async_hello`'s callback.
pub const TAG_HELLO: u64 = 12;

/// Clock ticks that `returns_delayed_future` waits.
pub const DELAYED_TICKS: u64 = 500;
/// Clock ticks that `wait_a_sec` waits.
pub const SECOND_TICKS: u64 = 1000;

/// Resolves to 42 at once.
pub fn returns_impl_future_i32() -> (r: Deferred)
    ensures
        r@ == seq![Step::Produce(Ok(42))],
{
    Deferred::immediate(42)
}

/// Resolves to 42 at once when `pick_ready` holds; otherwise runs a lazy
/// callback, tagged `TAG_LAZY_VALUE`, that resolves to 1337.
pub fn choose_future_i32(pick_ready: bool) -> (r: Deferred)
    ensures
        pick_ready ==> r@ == seq![Step::Produce(Ok(42))],
        !pick_ready ==> r@ == seq![Step::Effect { tag: TAG_LAZY_VALUE, result: Ok(1337) }],
{
    if pick_ready {
        Deferred::immediate(42)
    } else {
        Deferred::lazy(TAG_LAZY_VALUE, Ok(1337))
    }
}

/// `choose_future_i32` on a random choice.
pub fn returns_dyn_future_i32() -> (r: Deferred)
    ensures
        r@ == seq![Step::Produce(Ok(42))] || r@ == seq![
            Step::Effect { tag: TAG_LAZY_VALUE, result: Ok(1337) },
        ],
{
    let pick_ready: bool = rand::random::<bool>();
    choose_future_i32(pick_ready)
}

/// A successful result of 42, at once.
pub fn returns_future_result() -> (r: Deferred)
    ensures
        r@ == seq![Step::Produce(Ok(42))],
{
    Deferred::immediate(42)
}

/// A successful result of 42, at once.
pub fn returns_future_result_dyn_error() -> (r: Deferred)
    ensures
        r@ == seq![Step::Produce(Ok(42))],
{
    Deferred::immediate(42)
}

/// Waits `DELAYED_TICKS`, then resolves to 42.
pub fn returns_delayed_future() -> (r: Deferred)
    ensures
        r@ == seq![Step::Wait(DELAYED_TICKS), Step::Produce(Ok(42))],
{
    Deferred::delay(DELAYED_TICKS).and_then(Deferred::immediate(42))
}

/// Waits `SECOND_TICKS`, then runs `f`.
pub fn wait_a_sec(f: Deferred) -> (r: Deferred)
    ensures
        r@ == seq![Step::Wait(SECOND_TICKS)] + f@,
{
    Deferred::delay(SECOND_TICKS).and_then(f)
}

/// The steps of the demonstration chain, given which value the random
/// choice picked.
pub open spec fn future_chain_steps(pick_ready: bool) -> Seq<Step> {
    let dyn_step = if pick_ready {
        Step::Produce(Ok(42))
    } else {
        Step::Effect { tag: TAG_LAZY_VALUE, result: Ok(1337) }
    };
    seq![
        Step::Effect { tag: TAG_CHAIN_START, result: Ok(UNIT) },
        Step::Effect { tag: TAG_FIRST_THEN, result: Ok(UNIT) },
        Step::Observe(TAG_SEEN_GREETING),
        Step::Produce(Ok(42)),
        Step::Observe(TAG_SEEN_IMPL),
        dyn_step,
        Step::Observe(TAG_SEEN_DYN),
        Step::Produce(Ok(42)),
        Step::Observe(TAG_SEEN_RESULT),
        Step::Produce(Ok(42)),
        Step::Observe(TAG_SEEN_DYN_ERROR),
        Step::Wait(DELAYED_TICKS),
        Step::Produce(Ok(42)),
        Step::Observe(TAG_SEEN_DELAYED),
        Step::Wait(SECOND_TICKS),
        Step::Produce(Ok(42)),
        Step::Observe(TAG_SEEN_WAITED),
        Step::Effect { tag: TAG_LAST_THEN, result: Ok(UNIT) },
    ]
}

/// The demonstration chain: each stage runs after the previous one and an
/// observer records each stage's output.
pub fn future_chain(pick_ready: bool) -> (r: Deferred)
    ensures
        r@ == future_chain_steps(pick_ready),
        outcome(r@) == Ok::<i64, Failure>(UNIT),
        total_wait(r@) == DELAYED_TICKS + SECOND_TICKS,
{
    let r = Deferred::lazy(TAG_CHAIN_START, Ok(UNIT))
        .and_then(Deferred::lazy(TAG_FIRST_THEN, Ok(UNIT)))
        .inspect(TAG_SEEN_GREETING)
        .and_then(returns_impl_future_i32())
        .inspect(TAG_SEEN_IMPL)
        .and_then(choose_future_i32(pick_ready))
        .inspect(TAG_SEEN_DYN)
        .and_then(returns_future_result())
        .inspect(TAG_SEEN_RESULT)
        .and_then(returns_future_result_dyn_error())
        .inspect(TAG_SEEN_DYN_ERROR)
        .and_then(returns_delayed_future())
        .inspect(TAG_SEEN_DELAYED)
        .and_then(wait_a_sec(Deferred::immediate(42)))
        .inspect(TAG_SEEN_WAITED)
        .and_then(Deferred::lazy(TAG_LAST_THEN, Ok(UNIT)));
    assert(r@ =~= future_chain_steps(pick_ready));
    proof {
        reveal_with_fuel(output_after, 19);
        reveal_with_fuel(wait_after, 19);
    }
    r
}

/// `future_chain` on a random choice.
pub fn returns_future_chain() -> (r: Deferred)
    ensures
        r@ == future_chain_steps(true) || r@ == future_chain_steps(false),
        outcome(r@) == Ok::<i64, Failure>(UNIT),
        total_wait(r@) == DELAYED_TICKS + SECOND_TICKS,
{
    let pick_ready: bool = rand::random::<bool>();
    future_chain(pick_ready)
}

/// Runs a callback, tagged `TAG_HELLO`, that resolves to no payload.
pub fn async_hello() -> (r: Deferred)
    ensures
        r@ == seq![Step::Effect { tag: TAG_HELLO, result: Ok(UNIT) }],
{
    Deferred::lazy(TAG_HELLO, Ok(UNIT))
}

/// Resolves to 42 at once.
pub fn async_returns_i32() -> (r: Deferred)
    ensures
        r@ == seq![Step::Produce(Ok(42))],
{
    Deferred::immediate(42)
}

/// Resolves to 42 at once.
pub fn returns_future_i32() -> (r: Deferred)
    ensures
        r@ == seq![Step::Produce(Ok(42))],
{
    Deferred::immediate(42)
}

/// Resolves to 42 at once.
pub fn returns_async_block_i32() -> (r: Deferred)
    ensures
        r@ == seq![Step::Produce(Ok(42))],
{
    Deferred::immediate(42)
}

/// The result of acquiring a resource, given whether opening it succeeded:
/// a failed open is `ResourceUnavailable`.
pub fn fallible(opened: bool) -> (r: Result<(), Failure>)
    ensures
        opened <==> r is Ok,
        !opened ==> r == Err::<(), Failure>(Failure::ResourceUnavailable),
{
    if opened {
        Ok(())
    } else {
        Err(Failure::ResourceUnavailable)
    }
}

} // verus!
