//! Laws of deferred values and of the executor, stated over the step
//! semantics of `deferred` and proved.
use vstd::prelude::*;
use crate::deferred::{
    Failure, Step, Transform, UNIT, apply_spec, effects, events_after, outcome, output_after,
    total_wait, wait_after,
};
use crate::task::{Task, polled};

verus! {

/// Running the first `n` steps of `a + b`, with `n` at most the length of
/// `a`, is running the first `n` steps of `a`.
proof fn lemma_prefix(a: Seq<Step>, b: Seq<Step>, n: nat, init: Result<i64, Failure>)
    requires
        n <= a.len(),
    ensures
        output_after(a + b, n, init) == output_after(a, n, init),
        events_after(a + b, n, init) == events_after(a, n, init),
        wait_after(a + b, n, init) == wait_after(a, n, init),
    decreases n,
{
    if n > 0 {
        lemma_prefix(a, b, (n - 1) as nat, init);
        assert((a + b)[n - 1] == a[n - 1]);
    }
}

/// Running `a + b` from `init` runs `a`, then `b` from the output of `a`:
/// the outputs follow, the side effects and the waits add up in order.
pub proof fn lemma_run_concat(a: Seq<Step>, b: Seq<Step>, init: Result<i64, Failure>)
    ensures
        output_after(a + b, a.len() + b.len(), init) == output_after(
            b,
            b.len(),
            output_after(a, a.len(), init),
        ),
        events_after(a + b, a.len() + b.len(), init) == events_after(a, a.len(), init)
            + events_after(b, b.len(), output_after(a, a.len(), init)),
        wait_after(a + b, a.len() + b.len(), init) == wait_after(a, a.len(), init) + wait_after(
            b,
            b.len(),
            output_after(a, a.len(), init),
        ),
{
    lemma_run_concat_upto(a, b, b.len(), init);
}

proof fn lemma_run_concat_upto(a: Seq<Step>, b: Seq<Step>, m: nat, init: Result<i64, Failure>)
    requires
        m <= b.len(),
    ensures
        output_after(a + b, a.len() + m, init) == output_after(b, m, output_after(a, a.len(), init)),
        events_after(a + b, a.len() + m, init) == events_after(a, a.len(), init) + events_after(
            b,
            m,
            output_after(a, a.len(), init),
        ),
        wait_after(a + b, a.len() + m, init) == wait_after(a, a.len(), init) + wait_after(
            b,
            m,
            output_after(a, a.len(), init),
        ),
    decreases m,
{
    let mid = output_after(a, a.len(), init);
    if m == 0 {
        lemma_prefix(a, b, a.len(), init);
        assert(events_after(a, a.len(), init) + Seq::<crate::deferred::Event>::empty()
            =~= events_after(a, a.len(), init));
    } else {
        lemma_run_concat_upto(a, b, (m - 1) as nat, init);
        assert((a + b)[a.len() + m - 1] == b[m - 1]);
        assert(((a.len() + m) - 1) as nat == a.len() + (m - 1) as nat);
        let ea = events_after(a, a.len(), init);
        let eb = events_after(b, (m - 1) as nat, mid);
        let last = crate::deferred::step_events(b[m - 1], output_after(b, (m - 1) as nat, mid));
        assert(ea + eb + last =~= ea + (eb + last));
    }
}

/// A chain that holds a failure skips every later step: the failure stays,
/// nothing is recorded and nothing is waited for.
pub proof fn lemma_failure_skips_rest(steps: Seq<Step>, e: Failure)
    ensures
        output_after(steps, steps.len(), Err(e)) == Err::<i64, Failure>(e),
        events_after(steps, steps.len(), Err(e)).len() == 0,
        wait_after(steps, steps.len(), Err(e)) == 0,
{
    lemma_failure_skips_upto(steps, steps.len(), e);
}

proof fn lemma_failure_skips_upto(steps: Seq<Step>, n: nat, e: Failure)
    requires
        n <= steps.len(),
    ensures
        output_after(steps, n, Err(e)) == Err::<i64, Failure>(e),
        events_after(steps, n, Err(e)).len() == 0,
        wait_after(steps, n, Err(e)) == 0,
    decreases n,
{
    if n > 0 {
        lemma_failure_skips_upto(steps, (n - 1) as nat, e);
    }
}

/// Driving an immediate value resolves to its payload at once: no side
/// effect and no wait.
pub proof fn immediate_resolves_at_once(x: i64)
    ensures
        outcome(seq![Step::Produce(Ok(x))]) == Ok::<i64, Failure>(x),
        effects(seq![Step::Produce(Ok(x))]).len() == 0,
        total_wait(seq![Step::Produce(Ok(x))]) == 0,
{
    reveal_with_fuel(output_after, 2);
    reveal_with_fuel(events_after, 2);
    reveal_with_fuel(wait_after, 2);
}

/// In `a.then(b).then(c)` the side effects of `a`, then those of `b`, then
/// those of `c` happen, in that order and each once; `b` starts from the
/// output of `a`, `c` from that of `b`.
pub proof fn then_runs_in_order(a: Seq<Step>, b: Seq<Step>, c: Seq<Step>)
    ensures
        effects(a + b + c) == effects(a) + events_after(b, b.len(), outcome(a)) + events_after(
            c,
            c.len(),
            outcome(a + b),
        ),
        outcome(a + b) == output_after(b, b.len(), outcome(a)),
        outcome(a + b + c) == output_after(c, c.len(), outcome(a + b)),
{
    lemma_run_concat(a, b, Ok(UNIT));
    lemma_run_concat(a + b, c, Ok(UNIT));
}

/// `map(f)` after a failed chain never applies `f`: the failure comes out
/// unchanged, with the same side effects and the same waits.
pub proof fn map_after_failure_keeps_failure(d: Seq<Step>, f: Transform)
    requires
        outcome(d) is Err,
    ensures
        outcome(d.push(Step::Apply(f))) == outcome(d),
        effects(d.push(Step::Apply(f))) == effects(d),
        total_wait(d.push(Step::Apply(f))) == total_wait(d),
{
    let tail = seq![Step::Apply(f)];
    assert(d.push(Step::Apply(f)) == d + tail);
    lemma_run_concat(d, tail, Ok(UNIT));
    lemma_failure_skips_rest(tail, outcome(d)->Err_0);
    assert(effects(d) + events_after(tail, 1, outcome(d)) =~= effects(d));
}

/// A chain that has failed stays failed whatever is appended to it.
pub proof fn failure_reaches_the_end(d: Seq<Step>, rest: Seq<Step>)
    requires
        outcome(d) is Err,
    ensures
        outcome(d + rest) == outcome(d),
        effects(d + rest) == effects(d),
{
    lemma_run_concat(d, rest, Ok(UNIT));
    lemma_failure_skips_rest(rest, outcome(d)->Err_0);
    assert(effects(d) + events_after(rest, rest.len(), outcome(d)) =~= effects(d));
}

/// `inspect(o)` does not change what later stages see: `d.inspect(o).map(f)`
/// resolves to what `d.map(f)` resolves to, after the same waits.
pub proof fn inspect_keeps_output(d: Seq<Step>, o: u64, f: Transform)
    ensures
        outcome(d.push(Step::Observe(o)).push(Step::Apply(f))) == outcome(d.push(Step::Apply(f))),
        total_wait(d.push(Step::Observe(o)).push(Step::Apply(f))) == total_wait(
            d.push(Step::Apply(f)),
        ),
        outcome(d) matches Ok(v) ==> outcome(d.push(Step::Apply(f))) == Ok::<i64, Failure>(
            apply_spec(f, v),
        ),
{
    let obs = seq![Step::Observe(o), Step::Apply(f)];
    let app = seq![Step::Apply(f)];
    assert(d.push(Step::Observe(o)).push(Step::Apply(f)) == d + obs);
    assert(d.push(Step::Apply(f)) == d + app);
    lemma_run_concat(d, obs, Ok(UNIT));
    lemma_run_concat(d, app, Ok(UNIT));
    reveal_with_fuel(output_after, 3);
    reveal_with_fuel(wait_after, 3);
}

/// A chain that starts with `delay(ticks)` waits for at least `ticks` clock
/// ticks before it resolves.
pub proof fn delay_prefix_waits(ticks: u64, rest: Seq<Step>)
    ensures
        total_wait(seq![Step::Wait(ticks)] + rest) >= ticks,
{
    let head = seq![Step::Wait(ticks)];
    lemma_run_concat(head, rest, Ok(UNIT));
    reveal_with_fuel(wait_after, 2);
    reveal_with_fuel(output_after, 2);
}

/// Polling a resolved task again runs nothing: its output and its side
/// effects stay as they were.
pub proof fn resolved_poll_is_idle(before: Task, after: Task, now: u64)
    requires
        before.wf(),
        before.resolved(),
        polled(before, after, now),
    ensures
        after.resolved(),
        after.pos == before.pos,
        after.output == before.output,
        after.events@ == before.events@,
{
}

} // verus!
