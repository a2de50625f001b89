//! Deferred values: a deferred value is a list of steps that a driver runs in
//! order. Sequencing two deferred values appends the second list to the first.
//!
//! Failure policy: every step is skipped once the chain holds a failure, so
//! `then`, `map` and `inspect` all run on success only and forward a failure
//! unchanged to the end of the chain.
use vstd::prelude::*;

verus! {

/// What ends a chain unsuccessfully.
#[derive(Clone, Copy, Debug, PartialEq, Eq, Structural)]
pub enum Failure {
    /// A producing callback raised the error with this code.
    ComputationFailure(u64),
    /// A function value was called with the wrong number of arguments.
    ArityMismatch,
    /// An executor operation was used outside of its executor.
    ExecutorMisuse,
    /// A resource could not be acquired.
    ResourceUnavailable,
}

/// The payload of a deferred value that carries no meaningful output.
pub const UNIT: i64 = 0;

/// A side-effect-free function from payload to payload.
#[derive(Clone, Copy, Debug, PartialEq, Eq, Structural)]
pub enum Transform {
    /// Adds the constant, wrapping on overflow.
    Add(i64),
    /// Multiplies by the constant, wrapping on overflow.
    Scale(i64),
    /// Ignores the input and returns the constant.
    Constant(i64),
}

/// One unit of work in a deferred value.
#[derive(Clone, Copy, Debug)]
pub enum Step {
    /// Resolves to the given output.
    Produce(Result<i64, Failure>),
    /// Runs a callback: records `tag`, then resolves to `result`.
    Effect { tag: u64, result: Result<i64, Failure> },
    /// Waits until the given number of clock ticks have passed since the step
    /// was reached, then resolves to `UNIT`.
    Wait(u64),
    /// Maps the current payload through the transform.
    Apply(Transform),
    /// Records `tag` with the current payload, which it leaves unchanged.
    Observe(u64),
}

/// A record of a side effect: the tag of the callback or observer, and the
/// payload an observer was shown.
#[derive(Clone, Copy, Debug, PartialEq, Eq, Structural)]
pub struct Event {
    pub tag: u64,
    pub seen: Option<i64>,
}

/// A computation whose output is produced when it is driven.
#[derive(Debug)]
pub struct Deferred {
    pub steps: Vec<Step>,
}

pub open spec fn apply_spec(t: Transform, v: i64) -> i64 {
    match t {
        Transform::Add(k) => v.wrapping_add(k),
        Transform::Scale(k) => v.wrapping_mul(k),
        Transform::Constant(k) => k,
    }
}

/// The output after one step, given the output before it.
pub open spec fn step_output(s: Step, out: Result<i64, Failure>) -> Result<i64, Failure> {
    match out {
        Err(e) => Err(e),
        Ok(v) => match s {
            Step::Produce(r) => r,
            Step::Effect { tag, result } => result,
            Step::Wait(d) => Ok(UNIT),
            Step::Apply(t) => Ok(apply_spec(t, v)),
            Step::Observe(tag) => Ok(v),
        },
    }
}

/// The side effects of one step, given the output before it.
pub open spec fn step_events(s: Step, out: Result<i64, Failure>) -> Seq<Event> {
    match out {
        Err(e) => Seq::empty(),
        Ok(v) => match s {
            Step::Effect { tag, result } => seq![Event { tag, seen: None }],
            Step::Observe(tag) => seq![Event { tag, seen: Some(v) }],
            _ => Seq::empty(),
        },
    }
}

/// The clock ticks one step waits for, given the output before it.
pub open spec fn step_wait(s: Step, out: Result<i64, Failure>) -> nat {
    match out {
        Err(e) => 0,
        Ok(v) => match s {
            Step::Wait(d) => d as nat,
            _ => 0,
        },
    }
}

/// The output after the first `n` steps, starting from `init`.
pub open spec fn output_after(steps: Seq<Step>, n: nat, init: Result<i64, Failure>) -> Result<i64, Failure>
    decreases n,
{
    if n == 0 {
        init
    } else {
        step_output(steps[n - 1], output_after(steps, (n - 1) as nat, init))
    }
}

/// The side effects of the first `n` steps, in the order they happen.
pub open spec fn events_after(steps: Seq<Step>, n: nat, init: Result<i64, Failure>) -> Seq<Event>
    decreases n,
{
    if n == 0 {
        Seq::empty()
    } else {
        events_after(steps, (n - 1) as nat, init) + step_events(
            steps[n - 1],
            output_after(steps, (n - 1) as nat, init),
        )
    }
}

/// The clock ticks waited for by the first `n` steps.
pub open spec fn wait_after(steps: Seq<Step>, n: nat, init: Result<i64, Failure>) -> nat
    decreases n,
{
    if n == 0 {
        0
    } else {
        wait_after(steps, (n - 1) as nat, init) + step_wait(
            steps[n - 1],
            output_after(steps, (n - 1) as nat, init),
        )
    }
}

/// What a deferred value resolves to when driven on its own.
pub open spec fn outcome(steps: Seq<Step>) -> Result<i64, Failure> {
    output_after(steps, steps.len(), Ok(UNIT))
}

/// The side effects of driving a deferred value on its own.
pub open spec fn effects(steps: Seq<Step>) -> Seq<Event> {
    events_after(steps, steps.len(), Ok(UNIT))
}

/// The clock ticks that driving a deferred value on its own waits for.
pub open spec fn total_wait(steps: Seq<Step>) -> nat {
    wait_after(steps, steps.len(), Ok(UNIT))
}

impl Deferred {
    pub open spec fn view(&self) -> Seq<Step> {
        self.steps@
    }

    /// A deferred value that is already resolved to `value`.
    pub fn immediate(value: i64) -> (r: Deferred)
        ensures
            r@ == seq![Step::Produce(Ok(value))],
    {
        Deferred { steps: vec![Step::Produce(Ok(value))] }
    }

    /// A deferred value that is already resolved to the failure `e`.
    pub fn fail(e: Failure) -> (r: Deferred)
        ensures
            r@ == seq![Step::Produce(Err(e))],
    {
        Deferred { steps: vec![Step::Produce(Err(e))] }
    }

    /// A deferred value that runs a callback, recorded as `tag`, the first time
    /// it is driven, and resolves to what the callback returns.
    pub fn lazy(tag: u64, result: Result<i64, Failure>) -> (r: Deferred)
        ensures
            r@ == seq![Step::Effect { tag, result }],
    {
        Deferred { steps: vec![Step::Effect { tag, result }] }
    }

    /// A deferred value with no payload that resolves once `ticks` clock
    /// ticks have passed since it started being driven.
    pub fn delay(ticks: u64) -> (r: Deferred)
        ensures
            r@ == seq![Step::Wait(ticks)],
    {
        Deferred { steps: vec![Step::Wait(ticks)] }
    }

    /// Runs `self`, then, if it succeeded, `next`. `next` sees the output of
    /// `self` as its input.
    pub fn and_then(self, next: Deferred) -> (r: Deferred)
        ensures
            r@ == self@ + next@,
    {
        let mut steps = self.steps;
        let mut rest = next.steps;
        steps.append(&mut rest);
        Deferred { steps }
    }

    /// Runs `self`, then maps a successful output through `f`.
    pub fn map(self, f: Transform) -> (r: Deferred)
        ensures
            r@ == self@.push(Step::Apply(f)),
    {
        let mut steps = self.steps;
        steps.push(Step::Apply(f));
        Deferred { steps }
    }

    /// Runs `self`, then shows a successful output to the observer `tag`
    /// and forwards it unchanged.
    pub fn inspect(self, tag: u64) -> (r: Deferred)
        ensures
            r@ == self@.push(Step::Observe(tag)),
    {
        let mut steps = self.steps;
        steps.push(Step::Observe(tag));
        Deferred { steps }
    }
}

/// Applies a transform to a payload.
pub fn apply(t: Transform, v: i64) -> (r: i64)
    ensures
        r == apply_spec(t, v),
{
    match t {
        Transform::Add(k) => v.wrapping_add(k),
        Transform::Scale(k) => v.wrapping_mul(k),
        Transform::Constant(k) => k,
    }
}

} // verus!
