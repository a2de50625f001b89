//! A deferred value while it is being driven.
use vstd::prelude::*;
use crate::deferred::{
    Deferred, Event, Failure, Step, UNIT, events_after, output_after, step_wait,
};

verus! {

/// A deferred value being driven: its steps, how many of them have run, the
/// output so far and the side effects recorded so far.
#[derive(Debug)]
pub struct Task {
    pub steps: Vec<Step>,
    pub pos: usize,
    pub output: Result<i64, Failure>,
    /// The clock reading at which the current `Wait` step was reached.
    pub waiting_since: Option<u64>,
    pub events: Vec<Event>,
    /// The clock reading at the last poll.
    pub last_polled: Option<u64>,
}

/// The clock reading from which a poll at `now` measures the current wait.
pub open spec fn wait_start(t: Task, now: u64) -> u64 {
    match t.waiting_since {
        Some(s) => s,
        None => now,
    }
}

/// `after` is what one poll at `now` makes of `before`: the steps run in
/// order until the task resolves or reaches a wait that has not yet elapsed.
pub open spec fn polled(before: Task, after: Task, now: u64) -> bool {
    let steps = before.steps@;
    &&& after.wf()
    &&& after.steps@ == steps
    &&& after.last_polled == Some(now)
    &&& before.pos <= after.pos
    &&& forall|k: int|
        before.pos <= k < after.pos ==> #[trigger] step_wait(steps[k], output_after(steps, k as nat, Ok(UNIT)))
            <= if k == before.pos { now - wait_start(before, now) } else { 0 }
    &&& after.pos < steps.len() ==> {
        &&& after.waiting_since is Some
        &&& after.waiting_since == if after.pos == before.pos { Some(wait_start(before, now)) } else { Some(now) }
        &&& now - after.waiting_since->0 < step_wait(steps[after.pos as int], after.output)
    }
}

/// `t` was polled at `now` and is resolved or waits on a wait that has not
/// elapsed at `now`.
pub open spec fn settled(t: Task, now: u64) -> bool {
    &&& t.wf()
    &&& t.last_polled == Some(now)
    &&& !t.resolved() ==> {
        &&& t.waiting_since is Some
        &&& t.waiting_since->0 <= now
        &&& now - t.waiting_since->0 < step_wait(t.steps@[t.pos as int], t.output)
    }
}

impl Task {
    /// The steps have run exactly up to `pos`, and the output and the side
    /// effects are those of the steps that ran.
    pub open spec fn wf(&self) -> bool {
        &&& self.pos <= self.steps.len()
        &&& self.output == output_after(self.steps@, self.pos as nat, Ok(UNIT))
        &&& self.events@ == events_after(self.steps@, self.pos as nat, Ok(UNIT))
        &&& self.waiting_since is Some ==> {
            &&& self.pos < self.steps.len()
            &&& self.steps[self.pos as int] is Wait
            &&& self.output is Ok
        }
    }

    pub open spec fn resolved(&self) -> bool {
        self.pos == self.steps.len()
    }

    /// A task that has not started driving `d`.
    pub fn new(d: Deferred) -> (r: Task)
        ensures
            r.wf(),
            r.steps@ == d@,
            r.pos == 0,
            r.waiting_since is None,
            r.last_polled is None,
    {
        Task {
            steps: d.steps,
            pos: 0,
            output: Ok(UNIT),
            waiting_since: None,
            events: Vec::new(),
            last_polled: None,
        }
    }

    pub fn is_resolved(&self) -> (r: bool)
        ensures
            r == self.resolved(),
    {
        self.pos == self.steps.len()
    }

    /// The clock ticks that the wait the task stands at lasts.
    pub fn pending_wait(&self) -> (r: u64)
        requires
            self.wf(),
            !self.resolved(),
        ensures
            r == step_wait(self.steps@[self.pos as int], self.output),
    {
        match self.output {
            Err(_) => 0,
            Ok(_) => match self.steps[self.pos] {
                Step::Wait(d) => d,
                _ => 0,
            },
        }
    }

    /// Runs steps at clock reading `now` until the task resolves or reaches a
    /// wait that has not yet elapsed. A resolved task is left as it is.
    pub fn poll(&mut self, now: u64) -> (done: bool)
        requires
            old(self).wf(),
            wait_start(*old(self), now) <= now,
        ensures
            polled(*old(self), *final(self), now),
            done == final(self).resolved(),
    {
        let ghost before = *self;
        self.last_polled = Some(now);
        while self.pos < self.steps.len()
            invariant
                self.wf(),
                before == *old(self),
                self.steps@ == before.steps@,
                self.last_polled == Some(now),
                before.pos <= self.pos,
                self.pos > before.pos ==> self.waiting_since is None,
                self.pos == before.pos ==> self.waiting_since == before.waiting_since,
                wait_start(before, now) <= now,
                forall|k: int|
                    before.pos <= k < self.pos ==> #[trigger] step_wait(
                        before.steps@[k],
                        output_after(before.steps@, k as nat, Ok(UNIT)),
                    ) <= if k == before.pos { now - wait_start(before, now) } else { 0 },
            decreases self.steps.len() - self.pos,
        {
            let ghost k = self.pos as int;
            let step = self.steps[self.pos];
            match self.output {
                Err(_) => {},
                Ok(v) => {
                    match step {
                        Step::Produce(r) => {
                            self.output = r;
                        },
                        Step::Effect { tag, result } => {
                            self.events.push(Event { tag, seen: None });
                            self.output = result;
                        },
                        Step::Wait(d) => {
                            let start = match self.waiting_since {
                                Some(s) => s,
                                None => now,
                            };
                            if now - start < d {
                                self.waiting_since = Some(start);
                                assert(step_wait(self.steps@[k], self.output) == d);
                                return false;
                            }
                            self.waiting_since = None;
                            self.output = Ok(UNIT);
                        },
                        Step::Apply(t) => {
                            self.output = Ok(crate::deferred::apply(t, v));
                        },
                        Step::Observe(tag) => {
                            self.events.push(Event { tag, seen: Some(v) });
                        },
                    }
                },
            }
            self.pos = self.pos + 1;
            assert(self.events@ =~= events_after(self.steps@, self.pos as nat, Ok(UNIT)));
        }
        true
    }
}

} // verus!
