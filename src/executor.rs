//! The executor: a monotonic clock and a list of background tasks, driven
//! together with the value a caller waits on.
use vstd::prelude::*;
use crate::deferred::{Deferred, Failure, Step, UNIT, output_after, outcome, effects, total_wait, wait_after, step_wait};
use crate::task::{Task, polled, settled, wait_start};

verus! {

/// A run loop: a clock reading and the background tasks spawned so far.
#[derive(Debug)]
pub struct Executor {
    pub now: u64,
    pub tasks: Vec<Task>,
    /// The side effects of the values driven by `block_on`, in order.
    pub trace: Vec<crate::deferred::Event>,
}

impl Executor {
    /// Every background task is consistent and none waits from a later
    /// clock reading than the current one.
    pub open spec fn wf(&self) -> bool {
        forall|i: int|
            0 <= i < self.tasks.len() ==> {
                &&& (#[trigger] self.tasks[i]).wf()
                &&& wait_start(self.tasks[i], self.now) <= self.now
            }
    }

    /// An executor at clock reading zero with no tasks.
    pub fn new() -> (r: Executor)
        ensures
            r.wf(),
            r.now == 0,
            r.tasks@.len() == 0,
            r.trace@.len() == 0,
    {
        Executor { now: 0, tasks: Vec::new(), trace: Vec::new() }
    }

    /// Registers `d` as a background task. It makes progress on every later
    /// turn of the run loop; its output is not handed to anyone.
    pub fn spawn(&mut self, d: Deferred)
        requires
            old(self).wf(),
        ensures
            final(self).wf(),
            final(self).now == old(self).now,
            final(self).trace == old(self).trace,
            final(self).tasks@.len() == old(self).tasks@.len() + 1,
            forall|i: int| 0 <= i < old(self).tasks@.len() ==> final(self).tasks@[i] == old(self).tasks@[i],
            ({
                let t = final(self).tasks@.last();
                t.steps@ == d@ && t.pos == 0 && t.waiting_since is None && t.last_polled is None
            }),
    {
        let t = Task::new(d);
        self.tasks.push(t);
    }

    /// Moves the clock forward to `now`.
    pub fn advance_to(&mut self, now: u64)
        requires
            old(self).wf(),
            old(self).now <= now,
        ensures
            final(self).wf(),
            final(self).now == now,
            final(self).tasks == old(self).tasks,
            final(self).trace == old(self).trace,
    {
        self.now = now;
    }

    /// One turn of the run loop: polls every background task in the order
    /// they were spawned, then `main`, all at the current clock reading.
    pub fn turn(&mut self, main: &mut Task) -> (done: bool)
        requires
            old(self).wf(),
            old(main).wf(),
            wait_start(*old(main), old(self).now) <= old(self).now,
        ensures
            final(self).wf(),
            final(self).now == old(self).now,
            final(self).trace == old(self).trace,
            final(self).tasks@.len() == old(self).tasks@.len(),
            forall|i: int|
                0 <= i < old(self).tasks@.len() ==> polled(
                    old(self).tasks@[i],
                    #[trigger] final(self).tasks@[i],
                    old(self).now,
                ),
            polled(*old(main), *final(main), old(self).now),
            done == final(main).resolved(),
    {
        let now = self.now;
        let mut i: usize = 0;
        while i < self.tasks.len()
            invariant
                self.now == now,
                self.now == old(self).now,
                self.trace == old(self).trace,
                self.tasks@.len() == old(self).tasks@.len(),
                old(self).wf(),
                0 <= i <= self.tasks@.len(),
                forall|j: int| i <= j < self.tasks@.len() ==> self.tasks@[j] == old(self).tasks@[j],
                forall|j: int| 0 <= j < i ==> polled(old(self).tasks@[j], #[trigger] self.tasks@[j], now),
            decreases self.tasks@.len() - i,
        {
            assert(old(self).tasks@[i as int].wf());
            self.tasks[i].poll(now);
            i = i + 1;
        }
        proof {
            assert forall|j: int| 0 <= j < self.tasks.len() implies {
                &&& (#[trigger] self.tasks[j]).wf()
                &&& wait_start(self.tasks[j], self.now) <= self.now
            } by {
                assert(polled(old(self).tasks@[j], self.tasks@[j], now));
            }
        }
        main.poll(now)
    }

    /// Drives `d` until it resolves and returns its output. While `d` waits,
    /// the clock moves straight to the end of the wait; every turn polls the
    /// background tasks before `d`. The side effects of `d` are appended to
    /// the trace.
    pub fn block_on(&mut self, d: Deferred) -> (r: Result<i64, Failure>)
        requires
            old(self).wf(),
            old(self).now + total_wait(d@) <= u64::MAX,
        ensures
            final(self).wf(),
            r == outcome(d@),
            final(self).trace@ == old(self).trace@ + effects(d@),
            final(self).now == old(self).now + total_wait(d@),
            final(self).tasks@.len() == old(self).tasks@.len(),
            forall|i: int|
                0 <= i < final(self).tasks@.len() ==> settled(#[trigger] final(self).tasks@[i], final(self).now)
                    && final(self).tasks@[i].steps@ == old(self).tasks@[i].steps@
                    && old(self).tasks@[i].pos <= final(self).tasks@[i].pos,
    {
        let ghost start = self.now;
        let ghost first = self.tasks@;
        let mut main = Task::new(d);
        let ghost steps = main.steps@;
        self.turn(&mut main);
        proof {
            lemma_wait_zero_span(steps, 0, main.pos as nat);
        }
        while !main.is_resolved()
            invariant
                self.wf(),
                main.wf(),
                main.steps@ == steps,
                self.trace == old(self).trace,
                start == old(self).now,
                start + total_wait(steps) <= u64::MAX,
                self.now == start + wait_after(steps, main.pos as nat, Ok(UNIT)),
                !main.resolved() ==> {
                    &&& main.waiting_since == Some(self.now)
                    &&& 0 < step_wait(steps[main.pos as int], main.output)
                },
                self.tasks@.len() == first.len(),
                forall|i: int|
                    0 <= i < self.tasks@.len() ==> settled(#[trigger] self.tasks@[i], self.now)
                        && self.tasks@[i].steps@ == first[i].steps@ && first[i].pos <= self.tasks@[i].pos,
            decreases steps.len() - main.pos,
        {
            let ghost pos = main.pos as nat;
            let dd = main.pending_wait();
            proof {
                lemma_wait_monotone(steps, pos + 1, steps.len());
            }
            let ghost tasks_before = self.tasks@;
            self.advance_to(self.now + dd);
            self.turn(&mut main);
            proof {
                lemma_wait_zero_span(steps, pos + 1, main.pos as nat);
                assert forall|i: int| 0 <= i < self.tasks@.len() implies settled(#[trigger] self.tasks@[i], self.now)
                    && self.tasks@[i].steps@ == first[i].steps@ && first[i].pos <= self.tasks@[i].pos by {
                    assert(polled(tasks_before[i], self.tasks@[i], self.now));
                }
            }
        }
        self.trace.append(&mut main.events);
        main.output
    }
}

/// Waits of no length between `a` and `b` leave the total wait unchanged.
proof fn lemma_wait_zero_span(steps: Seq<Step>, a: nat, b: nat)
    requires
        a <= b,
        forall|k: int| a <= k < b ==> #[trigger] step_wait(steps[k], output_after(steps, k as nat, Ok(UNIT))) == 0,
    ensures
        wait_after(steps, b, Ok(UNIT)) == wait_after(steps, a, Ok(UNIT)),
    decreases b - a,
{
    if a < b {
        lemma_wait_zero_span(steps, a, (b - 1) as nat);
    }
}

/// The clock ticks waited for never shrink as more steps run.
proof fn lemma_wait_monotone(steps: Seq<Step>, a: nat, b: nat)
    requires
        a <= b,
    ensures
        wait_after(steps, a, Ok(UNIT)) <= wait_after(steps, b, Ok(UNIT)),
    decreases b - a,
{
    if a < b {
        lemma_wait_monotone(steps, a, (b - 1) as nat);
    }
}

} // verus!
