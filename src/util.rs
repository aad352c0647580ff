use vstd::prelude::*;

use crate::error::{Error, Result};
use crate::runtime::{Priority, Reactor, Task};

verus! {

/// Yields once: the first poll makes the computation ready again behind the
/// others of its band and suspends it; the second completes.
pub struct Delay {
    first: bool,
}

impl Delay {
    pub closed spec fn first_spec(&self) -> bool {
        self.first
    }

    /// Polls the delay for `t`: `true` once it is over.
    pub fn poll(&mut self, r: &mut Reactor, t: Task) -> (done: bool)
        requires
            old(r).wf(),
            old(r).valid(t),
        ensures
            final(r).wf(),
            !final(self).first_spec(),
            done == !old(self).first_spec(),
            final(r).others_unchanged(old(r), -1),
            final(r).device_spec() == old(r).device_spec(),
            forall|p: Priority| #[trigger] final(r).waiters_band(p) == old(r).waiters_band(p),
            old(self).first_spec() ==> final(r).ready_band(t.priority) == old(r).ready_band(
                t.priority,
            ).push(t) && forall|p: Priority|
                p != t.priority ==> #[trigger] final(r).ready_band(p) == old(r).ready_band(p),
            !old(self).first_spec() ==> final(r).queues_unchanged(old(r)),
    {
        if self.first {
            self.first = false;
            r.wake(t);
            false
        } else {
            true
        }
    }
}

/// Delays the current computation until the others ready in its band, and
/// those of higher priority, have run.
pub fn delay() -> (r: Delay)
    ensures
        r.first_spec(),
{
    Delay { first: true }
}

/// Spawns a computation of priority `priority` on the reactor `r`.
pub fn spawn_task(r: &mut Reactor, priority: Priority) -> (res: Result<Task>)
    requires
        old(r).wf(),
    ensures
        final(r).wf(),
        old(r).task_count() >= usize::MAX ==> res == Err::<Task, Error>(
            Error::Internal("too many computations"),
        ),
        old(r).task_count() < usize::MAX ==> res == Ok::<Task, Error>(
            Task { id: old(r).task_count() as usize, priority },
        ) && final(r).task_count() == old(r).task_count() + 1 && final(r).state_of(
            old(r).task_count() as int,
        ) == crate::runtime::TaskState::Initial && final(r).ready_band(priority) == old(r).ready_band(priority).push(Task { id: old(r).task_count() as usize, priority }),
{
    if r.num_tasks() >= usize::MAX {
        return Err(Error::Internal("too many computations"));
    }
    Ok(r.spawn(priority))
}

} // verus!
