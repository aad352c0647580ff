use vstd::prelude::*;

pub use crate::error::{Error, Result};
use crate::verbs_util::{
    Buffer, Device, QueuePair, RecvPost, SendWr, VerbsAddr, WorkCompletion, IBV_WC_RECV, IBV_WC_SEND,
};

verus! {

/// Scheduling priority of a computation, fixed at spawn.
#[derive(Clone, Copy, Debug, PartialEq, Eq, Structural)]
pub enum Priority {
    High,
    Normal,
    Low,
}

/// A handle to a computation of a reactor: its index in the reactor's task
/// table and its priority.
#[derive(Clone, Copy, Debug, PartialEq, Eq, Structural)]
pub struct Task {
    pub id: usize,
    pub priority: Priority,
}

/// Three FIFO bands of computations, served in strict priority order.
pub struct TaskQueue {
    high: std::collections::VecDeque<Task>,
    normal: std::collections::VecDeque<Task>,
    low: std::collections::VecDeque<Task>,
}

impl TaskQueue {
    /// The band that holds computations of priority `p`.
    pub closed spec fn band(&self, p: Priority) -> Seq<Task> {
        match p {
            Priority::High => self.high@,
            Priority::Normal => self.normal@,
            Priority::Low => self.low@,
        }
    }

    /// Every computation sits in the band of its own priority.
    pub open spec fn wf(&self) -> bool {
        forall|p: Priority, i: int|
            0 <= i < #[trigger] self.band(p).len() ==> #[trigger] self.band(p)[i].priority == p
    }

    /// Nothing is enqueued.
    pub open spec fn is_empty_spec(&self) -> bool {
        self.band(Priority::High).len() == 0 && self.band(Priority::Normal).len() == 0
            && self.band(Priority::Low).len() == 0
    }

    /// The band that `pop` serves: the first non-empty one.
    pub open spec fn first_band(&self) -> Priority {
        if self.band(Priority::High).len() > 0 {
            Priority::High
        } else if self.band(Priority::Normal).len() > 0 {
            Priority::Normal
        } else {
            Priority::Low
        }
    }

    pub fn new() -> (r: Self)
        ensures
            r.wf(),
            r.is_empty_spec(),
    {
        TaskQueue {
            high: std::collections::VecDeque::new(),
            normal: std::collections::VecDeque::new(),
            low: std::collections::VecDeque::new(),
        }
    }

    /// Appends `task` to the band of its priority.
    pub fn push(&mut self, task: Task)
        requires
            old(self).wf(),
        ensures
            final(self).wf(),
            final(self).band(task.priority) == old(self).band(task.priority).push(task),
            forall|p: Priority| p != task.priority ==> final(self).band(p) == old(self).band(p),
    {
        match task.priority {
            Priority::High => self.high.push_back(task),
            Priority::Normal => self.normal.push_back(task),
            Priority::Low => self.low.push_back(task),
        }
        assert forall|p: Priority, i: int|
            0 <= i < #[trigger] self.band(p).len() implies #[trigger] self.band(p)[i].priority
                == p by {
            if p == task.priority && i == old(self).band(p).len() {
            } else {
                assert(self.band(p)[i] == old(self).band(p)[i]);
            }
        }
    }

    /// Removes and returns the front of the highest-priority non-empty band.
    pub fn pop(&mut self) -> (r: Option<Task>)
        requires
            old(self).wf(),
        ensures
            final(self).wf(),
            old(self).is_empty_spec() ==> r is None && forall|p: Priority|
                final(self).band(p) == old(self).band(p),
            !old(self).is_empty_spec() ==> {
                let b = old(self).first_band();
                &&& r == Some(old(self).band(b)[0])
                &&& final(self).band(b) == old(self).band(b).drop_first()
                &&& forall|p: Priority| p != b ==> final(self).band(p) == old(self).band(p)
            },
            // a low-priority computation leaves only when no other is enqueued
            r matches Some(t) && t.priority == Priority::Low ==> old(self).band(Priority::High).len()
                == 0 && old(self).band(Priority::Normal).len() == 0,
    {
        let r = if self.high.len() > 0 {
            self.high.pop_front()
        } else if self.normal.len() > 0 {
            self.normal.pop_front()
        } else {
            self.low.pop_front()
        };
        proof {
            let b = old(self).first_band();
            assert forall|p: Priority, i: int|
                0 <= i < #[trigger] self.band(p).len() implies #[trigger] self.band(p)[i].priority
                    == p by {
                if p == b {
                    assert(self.band(p)[i] == old(self).band(p)[i + 1]);
                } else {
                    assert(self.band(p)[i] == old(self).band(p)[i]);
                }
            }
            if !old(self).is_empty_spec() {
                assert(old(self).band(b).len() > 0);
                assert(old(self).band(b)[0].priority == b);
            }
        }
        r
    }

    pub fn is_empty(&self) -> (r: bool)
        ensures
            r == self.is_empty_spec(),
    {
        self.high.len() == 0 && self.normal.len() == 0 && self.low.len() == 0
    }
}

/// The state of a computation with respect to its one ring operation.
#[derive(Clone, Copy, Debug, PartialEq, Eq, Structural)]
pub enum TaskState {
    /// No operation is in progress.
    Initial,
    /// Cancelled while no operation was outstanding: the next poll reports it.
    Cancelled,
    /// Timed out while no operation was outstanding: the next poll reports it.
    TimedOut,
    /// An operation was submitted and its completion has not arrived.
    UringWaiting,
    /// Cancelled while an operation was outstanding.
    UringCancelling,
    /// Timed out while an operation was outstanding.
    UringTimingOut,
    /// The completion arrived with this result.
    UringDone(i32),
}

impl TaskState {
    /// One submission of this computation awaits its completion.
    pub open spec fn outstanding(self) -> bool {
        ||| self is UringWaiting
        ||| self is UringCancelling
        ||| self is UringTimingOut
    }

    /// The state after a cancel request.
    pub open spec fn cancel_spec(self) -> TaskState {
        match self {
            TaskState::Initial => TaskState::Cancelled,
            TaskState::UringWaiting => TaskState::UringCancelling,
            TaskState::UringDone(_) => TaskState::Cancelled,
            other => other,
        }
    }

    /// The state after a timeout.
    pub open spec fn timeout_spec(self) -> TaskState {
        match self {
            TaskState::Initial => TaskState::TimedOut,
            TaskState::UringWaiting => TaskState::UringTimingOut,
            TaskState::UringDone(_) => TaskState::TimedOut,
            other => other,
        }
    }

    /// The state after a completion with result `res`; `None` where no
    /// completion is expected.
    pub open spec fn completion_spec(self, res: i32) -> Option<TaskState> {
        match self {
            TaskState::UringWaiting => Some(TaskState::UringDone(res)),
            TaskState::UringCancelling => Some(TaskState::Cancelled),
            TaskState::UringTimingOut => Some(TaskState::TimedOut),
            _ => None,
        }
    }

    /// Applies a cancel request; the flag says whether an asynchronous cancel
    /// of the outstanding submission must be sent to the ring.
    pub fn cancel(self) -> (r: (TaskState, bool))
        ensures
            r.0 == self.cancel_spec(),
            r.1 == (self is UringWaiting),
    {
        match self {
            TaskState::Initial => (TaskState::Cancelled, false),
            TaskState::UringWaiting => (TaskState::UringCancelling, true),
            TaskState::UringDone(_) => (TaskState::Cancelled, false),
            other => (other, false),
        }
    }

    /// Applies a timeout; the flag says whether an asynchronous cancel of the
    /// outstanding submission must be sent to the ring.
    pub fn timeout(self) -> (r: (TaskState, bool))
        ensures
            r.0 == self.timeout_spec(),
            r.1 == (self is UringWaiting),
    {
        match self {
            TaskState::Initial => (TaskState::TimedOut, false),
            TaskState::UringWaiting => (TaskState::UringTimingOut, true),
            TaskState::UringDone(_) => (TaskState::TimedOut, false),
            other => (other, false),
        }
    }

    /// Applies the arrival of a completion with result `res`.
    pub fn complete(self, res: i32) -> (r: Option<TaskState>)
        ensures
            r == self.completion_spec(res),
    {
        match self {
            TaskState::UringWaiting => Some(TaskState::UringDone(res)),
            TaskState::UringCancelling => Some(TaskState::Cancelled),
            TaskState::UringTimingOut => Some(TaskState::TimedOut),
            _ => None,
        }
    }
}

/// The state of one operation object (an accept, a read, ...).
#[derive(Clone, Copy, Debug, PartialEq, Eq, Structural)]
pub enum OpState {
    /// Not yet submitted.
    Initial,
    /// Submitted; the ring holds its correlation token.
    Sent,
    /// Finished: polling again is an error.
    Done,
}

/// What a poll of an operation asks of its caller.
#[derive(Debug)]
pub enum OpPoll {
    /// Fill a submission entry for the operation, then report the outcome.
    Submit,
    /// Suspend the computation.
    Pending,
    /// The operation is over: a non-negative raw result, or an error.
    Ready(Result<i32>),
}

/// The error that a negative completion result stands for.
pub open spec fn completion_error(res: i32) -> Error {
    if res > i32::MIN {
        Error::Io((-res) as i32)
    } else {
        Error::Internal("completion result out of range")
    }
}

/// The outcome of polling an operation in state `op` for a computation in
/// state `t`: the operation's next state, the computation's next state, and
/// what the poll returns.
pub open spec fn poll_spec(op: OpState, t: TaskState) -> (OpState, TaskState, OpPoll) {
    if op is Done {
        (op, t, OpPoll::Ready(Err(Error::Internal("Done future polled"))))
    } else {
        match t {
            TaskState::Initial => (op, t, OpPoll::Submit),
            TaskState::Cancelled => (OpState::Done, TaskState::Initial, OpPoll::Ready(Err(Error::Cancel))),
            TaskState::TimedOut => (OpState::Done, TaskState::Initial, OpPoll::Ready(Err(Error::Timeout))),
            TaskState::UringDone(res) => (
                OpState::Done,
                TaskState::Initial,
                OpPoll::Ready(if res < 0 { Err(completion_error(res)) } else { Ok(res) }),
            ),
            _ => (OpState::Sent, t, OpPoll::Pending),
        }
    }
}

/// The error for a negative completion result.
pub fn completion_error_of(res: i32) -> (e: Error)
    requires
        res < 0,
    ensures
        e == completion_error(res),
{
    if res > i32::MIN {
        Error::Io(-res)
    } else {
        Error::Internal("completion result out of range")
    }
}

/// What the reactor keeps of one computation: its priority, the state of
/// its ring operation, and the status of its last verbs send (`None` until
/// that send completes).
pub struct TaskContent {
    pub(crate) priority: Priority,
    pub(crate) state: TaskState,
    pub(crate) verbs_result: Option<i32>,
}

impl TaskContent {
    /// A new computation of priority `priority`, with no operation started.
    pub(crate) fn new(priority: Priority) -> (r: TaskContent)
        ensures
            r.priority == priority,
            r.state == TaskState::Initial,
            r.verbs_result is None,
    {
        TaskContent { priority, state: TaskState::Initial, verbs_result: None }
    }
}

/// The scheduling core of a reactor: the task table, the ready queues, the
/// computations parked until a verbs buffer is free, and the verbs engine.
/// A computation's correlation token is its index plus one; token 0 marks
/// submissions whose completion is ignored.
pub struct Reactor {
    ready: TaskQueue,
    tasks: Vec<TaskContent>,
    waiting_for_verbs_buffer: TaskQueue,
    device: Device,
}

/// The correlation token of the computation with index `id`.
pub open spec fn token_spec(id: usize) -> u64 {
    (id + 1) as u64
}

impl Task {
    /// The correlation token that a submission of this computation carries.
    pub fn token(&self) -> (r: u64)
        requires
            self.id < usize::MAX,
        ensures
            r == token_spec(self.id),
    {
        self.id as u64 + 1
    }
}

impl Reactor {
    /// The ready computations of priority `p`, oldest first.
    pub open spec fn ready_band(&self, p: Priority) -> Seq<Task> {
        self.ready_queue().band(p)
    }

    /// The computations of priority `p` parked for a buffer, oldest first.
    pub open spec fn waiters_band(&self, p: Priority) -> Seq<Task> {
        self.waiter_queue().band(p)
    }

    pub closed spec fn ready_queue(&self) -> TaskQueue {
        self.ready
    }

    pub closed spec fn waiter_queue(&self) -> TaskQueue {
        self.waiting_for_verbs_buffer
    }

    /// The number of computations spawned.
    pub closed spec fn task_count(&self) -> nat {
        self.tasks@.len()
    }

    pub closed spec fn state_of(&self, id: int) -> TaskState {
        self.tasks@[id].state
    }

    pub closed spec fn priority_of(&self, id: int) -> Priority {
        self.tasks@[id].priority
    }

    pub closed spec fn verbs_result_of(&self, id: int) -> Option<i32> {
        self.tasks@[id].verbs_result
    }

    pub closed spec fn device_spec(&self) -> Device {
        self.device
    }

    /// `t` names a computation of this reactor.
    pub open spec fn valid(&self, t: Task) -> bool {
        t.id < self.task_count() && self.priority_of(t.id as int) == t.priority
    }

    /// Every queued computation belongs to this reactor, and the queues and
    /// the engine are well formed.
    pub closed spec fn wf(&self) -> bool {
        &&& self.tasks@.len() <= usize::MAX
        &&& self.ready.wf()
        &&& self.waiting_for_verbs_buffer.wf()
        &&& self.device.wf()
        &&& forall|p: Priority, i: int|
            0 <= i < #[trigger] self.ready.band(p).len() ==> self.valid(
                #[trigger] self.ready.band(p)[i],
            )
        &&& forall|p: Priority, i: int|
            0 <= i < #[trigger] self.waiting_for_verbs_buffer.band(p).len() ==> self.valid(
                #[trigger] self.waiting_for_verbs_buffer.band(p)[i],
            )
    }

    /// The states and priorities of all computations but `id` are those of `o`.
    pub open spec fn others_unchanged(&self, o: &Reactor, id: int) -> bool {
        &&& self.task_count() == o.task_count()
        &&& forall|j: int|
            0 <= j < self.task_count() && j != id ==> #[trigger] self.state_of(j) == o.state_of(j)
                && self.verbs_result_of(j) == o.verbs_result_of(j)
        &&& forall|j: int| 0 <= j < self.task_count() ==> #[trigger] self.priority_of(j) == o.priority_of(j)
    }

    /// The queues are those of `o`.
    pub open spec fn queues_unchanged(&self, o: &Reactor) -> bool {
        &&& forall|p: Priority| #[trigger] self.ready_band(p) == o.ready_band(p)
        &&& forall|p: Priority| #[trigger] self.waiters_band(p) == o.waiters_band(p)
    }

    /// A reactor with no computations around the verbs engine `device`.
    pub fn new(device: Device) -> (r: Reactor)
        requires
            device.wf(),
        ensures
            r.wf(),
            r.task_count() == 0,
            r.ready_queue().is_empty_spec(),
            r.waiter_queue().is_empty_spec(),
            r.device_spec() == device,
    {
        Reactor {
            ready: TaskQueue::new(),
            tasks: Vec::new(),
            waiting_for_verbs_buffer: TaskQueue::new(),
            device,
        }
    }

    /// The number of computations spawned.
    pub fn num_tasks(&self) -> (r: usize)
        ensures
            r == self.task_count(),
    {
        self.tasks.len()
    }

    /// Whether `t` names a computation of this reactor.
    pub fn owns(&self, t: Task) -> (r: bool)
        ensures
            r == self.valid(t),
    {
        t.id < self.tasks.len() && self.tasks[t.id].priority == t.priority
    }

    pub fn state(&self, t: Task) -> (r: TaskState)
        requires
            self.valid(t),
        ensures
            r == self.state_of(t.id as int),
    {
        self.tasks[t.id].state
    }

    /// Adds a computation of priority `priority` and makes it ready.
    pub fn spawn(&mut self, priority: Priority) -> (t: Task)
        requires
            old(self).wf(),
            old(self).task_count() < usize::MAX,
        ensures
            final(self).wf(),
            t == (Task { id: old(self).task_count() as usize, priority }),
            final(self).task_count() == old(self).task_count() + 1,
            final(self).state_of(t.id as int) == TaskState::Initial,
            final(self).verbs_result_of(t.id as int) is None,
            final(self).priority_of(t.id as int) == priority,
            forall|j: int|
                0 <= j < old(self).task_count() ==> #[trigger] final(self).state_of(j) == old(self).state_of(j) && final(self).priority_of(j) == old(self).priority_of(j)
                    && final(self).verbs_result_of(j) == old(self).verbs_result_of(j),
            final(self).ready_band(priority) == old(self).ready_band(priority).push(t),
            forall|p: Priority| p != priority ==> #[trigger] final(self).ready_band(p) == old(self).ready_band(p),
            forall|p: Priority| #[trigger] final(self).waiters_band(p) == old(self).waiters_band(p),
            final(self).device_spec() == old(self).device_spec(),
    {
        let t = Task { id: self.tasks.len(), priority };
        self.tasks.push(TaskContent::new(priority));
        self.ready.push(t);
        proof {
            assert forall|p: Priority, i: int|
                0 <= i < #[trigger] self.ready.band(p).len() implies self.valid(
                    #[trigger] self.ready.band(p)[i],
                ) by {
                if p != priority || i < old(self).ready.band(p).len() {
                    assert(self.ready.band(p)[i] == old(self).ready.band(p)[i]);
                    assert(old(self).valid(old(self).ready.band(p)[i]));
                }
            }
            assert forall|p: Priority, i: int|
                0 <= i < #[trigger] self.waiting_for_verbs_buffer.band(p).len() implies self.valid(
                    #[trigger] self.waiting_for_verbs_buffer.band(p)[i],
                ) by {
                assert(old(self).valid(old(self).waiting_for_verbs_buffer.band(p)[i]));
            }
        }
        t
    }

    /// Replaces the state of computation `id`.
    fn set_state(&mut self, id: usize, st: TaskState)
        requires
            old(self).wf(),
            id < old(self).task_count(),
        ensures
            final(self).wf(),
            final(self).state_of(id as int) == st,
            final(self).verbs_result_of(id as int) == old(self).verbs_result_of(id as int),
            final(self).others_unchanged(old(self), id as int),
            final(self).queues_unchanged(old(self)),
            final(self).device_spec() == old(self).device_spec(),
    {
        let c = TaskContent {
            priority: self.tasks[id].priority,
            state: st,
            verbs_result: self.tasks[id].verbs_result,
        };
        self.tasks.set(id, c);
        proof { self.lemma_valid_kept(old(self)); }
    }

    /// Replaces the verbs send status of computation `id`.
    fn set_verbs_result(&mut self, id: usize, v: Option<i32>)
        requires
            old(self).wf(),
            id < old(self).task_count(),
        ensures
            final(self).wf(),
            final(self).verbs_result_of(id as int) == v,
            final(self).state_of(id as int) == old(self).state_of(id as int),
            final(self).others_unchanged(old(self), id as int),
            final(self).queues_unchanged(old(self)),
            final(self).device_spec() == old(self).device_spec(),
    {
        let c = TaskContent {
            priority: self.tasks[id].priority,
            state: self.tasks[id].state,
            verbs_result: v,
        };
        self.tasks.set(id, c);
        proof { self.lemma_valid_kept(old(self)); }
    }

    /// Where the priorities and the queues stay, so does well-formedness.
    proof fn lemma_valid_kept(&self, o: &Reactor)
        requires
            o.wf(),
            self.ready == o.ready,
            self.waiting_for_verbs_buffer == o.waiting_for_verbs_buffer,
            self.device == o.device,
            self.tasks@.len() == o.tasks@.len(),
            forall|j: int| 0 <= j < self.tasks@.len() ==> #[trigger] self.tasks@[j].priority == o.tasks@[j].priority,
        ensures
            self.wf(),
    {
        assert forall|p: Priority, i: int|
            0 <= i < #[trigger] self.ready.band(p).len() implies self.valid(
                #[trigger] self.ready.band(p)[i],
            ) by {
            assert(o.valid(o.ready.band(p)[i]));
        }
        assert forall|p: Priority, i: int|
            0 <= i < #[trigger] self.waiting_for_verbs_buffer.band(p).len() implies self.valid(
                #[trigger] self.waiting_for_verbs_buffer.band(p)[i],
            ) by {
            assert(o.valid(o.waiting_for_verbs_buffer.band(p)[i]));
        }
    }

    /// What taking the next ready computation does; see `next_ready`.
    pub open spec fn next_ready_spec(&self, r2: &Reactor, r: Option<Task>) -> bool {
        &&& r matches Some(t) ==> r2.valid(t)
        &&& self.ready_queue().is_empty_spec() ==> r is None && forall|p: Priority|
            #[trigger] r2.ready_band(p) == self.ready_band(p)
        &&& !self.ready_queue().is_empty_spec() ==> {
            let b = self.ready_queue().first_band();
            &&& r == Some(self.ready_band(b)[0])
            &&& r2.ready_band(b) == self.ready_band(b).drop_first()
            &&& forall|p: Priority| p != b ==> #[trigger] r2.ready_band(p) == self.ready_band(p)
        }
        &&& (r matches Some(t) && t.priority == Priority::Low ==> self.ready_band(
            Priority::High,
        ).len() == 0 && self.ready_band(Priority::Normal).len() == 0)
        &&& forall|p: Priority| #[trigger] r2.waiters_band(p) == self.waiters_band(p)
        &&& r2.others_unchanged(self, -1)
        &&& r2.device_spec() == self.device_spec()
    }

    /// Takes the next computation to poll: the oldest of the highest
    /// non-empty priority band.
    pub fn next_ready(&mut self) -> (r: Option<Task>)
        requires
            old(self).wf(),
        ensures
            final(self).wf(),
            old(self).next_ready_spec(final(self), r),
    {
        let r = self.ready.pop();
        proof {
            let b = old(self).ready.first_band();
            assert forall|p: Priority, i: int|
                0 <= i < #[trigger] self.ready.band(p).len() implies self.valid(
                    #[trigger] self.ready.band(p)[i],
                ) by {
                if p == b && !old(self).ready.is_empty_spec() {
                    assert(self.ready.band(p)[i] == old(self).ready.band(p)[i + 1]);
                    assert(old(self).valid(old(self).ready.band(p)[i + 1]));
                } else {
                    assert(old(self).valid(old(self).ready.band(p)[i]));
                }
            }
            assert forall|p: Priority, i: int|
                0 <= i < #[trigger] self.waiting_for_verbs_buffer.band(p).len() implies self.valid(
                    #[trigger] self.waiting_for_verbs_buffer.band(p)[i],
                ) by {
                assert(old(self).valid(old(self).waiting_for_verbs_buffer.band(p)[i]));
            }
            if !old(self).ready.is_empty_spec() {
                assert(old(self).valid(old(self).ready.band(b)[0]));
            }
        }
        r
    }

    /// Makes `t` ready again (a wake-up).
    pub fn wake(&mut self, t: Task)
        requires
            old(self).wf(),
            old(self).valid(t),
        ensures
            final(self).wf(),
            final(self).ready_band(t.priority) == old(self).ready_band(t.priority).push(t),
            forall|p: Priority| p != t.priority ==> #[trigger] final(self).ready_band(p) == old(self).ready_band(p),
            forall|p: Priority| #[trigger] final(self).waiters_band(p) == old(self).waiters_band(p),
            final(self).others_unchanged(old(self), -1),
            final(self).device_spec() == old(self).device_spec(),
    {
        self.ready.push(t);
        proof {
            assert forall|p: Priority, i: int|
                0 <= i < #[trigger] self.ready.band(p).len() implies self.valid(
                    #[trigger] self.ready.band(p)[i],
                ) by {
                if p != t.priority || i < old(self).ready.band(p).len() {
                    assert(self.ready.band(p)[i] == old(self).ready.band(p)[i]);
                    assert(old(self).valid(old(self).ready.band(p)[i]));
                }
            }
            assert forall|p: Priority, i: int|
                0 <= i < #[trigger] self.waiting_for_verbs_buffer.band(p).len() implies self.valid(
                    #[trigger] self.waiting_for_verbs_buffer.band(p)[i],
                ) by {
                assert(old(self).valid(old(self).waiting_for_verbs_buffer.band(p)[i]));
            }
        }
    }

    /// Polls the ring operation `op` of computation `t`.
    pub fn poll_op(&mut self, t: Task, op: &mut OpState) -> (r: OpPoll)
        requires
            old(self).wf(),
            old(self).valid(t),
        ensures
            final(self).wf(),
            ({
                let (o2, s2, res) = poll_spec(*old(op), old(self).state_of(t.id as int));
                &&& *final(op) == o2
                &&& final(self).state_of(t.id as int) == s2
                &&& r == res
            }),
            final(self).verbs_result_of(t.id as int) == old(self).verbs_result_of(t.id as int),
            final(self).others_unchanged(old(self), t.id as int),
            final(self).queues_unchanged(old(self)),
            final(self).device_spec() == old(self).device_spec(),
    {
        if let OpState::Done = *op {
            return OpPoll::Ready(Err(Error::Internal("Done future polled")));
        }
        let st = self.tasks[t.id].state;
        match st {
            TaskState::Initial => OpPoll::Submit,
            TaskState::Cancelled => {
                self.set_state(t.id, TaskState::Initial);
                *op = OpState::Done;
                OpPoll::Ready(Err(Error::Cancel))
            },
            TaskState::TimedOut => {
                self.set_state(t.id, TaskState::Initial);
                *op = OpState::Done;
                OpPoll::Ready(Err(Error::Timeout))
            },
            TaskState::UringDone(res) => {
                self.set_state(t.id, TaskState::Initial);
                *op = OpState::Done;
                if res < 0 {
                    OpPoll::Ready(Err(completion_error_of(res)))
                } else {
                    OpPoll::Ready(Ok(res))
                }
            },
            _ => {
                *op = OpState::Sent;
                OpPoll::Pending
            },
        }
    }

    /// Reports how filling the submission entry asked for by `poll_op` went.
    /// On success the operation is outstanding and the computation suspends.
    pub fn op_submitted(&mut self, t: Task, op: &mut OpState, outcome: Result<()>) -> (r: OpPoll)
        requires
            old(self).wf(),
            old(self).valid(t),
            *old(op) == OpState::Initial,
            old(self).state_of(t.id as int) == TaskState::Initial,
        ensures
            final(self).wf(),
            outcome is Ok ==> {
                &&& *final(op) == OpState::Sent
                &&& final(self).state_of(t.id as int) == TaskState::UringWaiting
                &&& r is Pending
            },
            outcome matches Err(e) ==> {
                &&& *final(op) == OpState::Done
                &&& final(self).state_of(t.id as int) == TaskState::Initial
                &&& r == OpPoll::Ready(Err(e))
            },
            final(self).verbs_result_of(t.id as int) == old(self).verbs_result_of(t.id as int),
            final(self).others_unchanged(old(self), t.id as int),
            final(self).queues_unchanged(old(self)),
            final(self).device_spec() == old(self).device_spec(),
    {
        match outcome {
            Ok(()) => {
                self.set_state(t.id, TaskState::UringWaiting);
                *op = OpState::Sent;
                OpPoll::Pending
            },
            Err(e) => {
                *op = OpState::Done;
                OpPoll::Ready(Err(e))
            },
        }
    }

    /// The computation that `token` names, if the token names one.
    fn task_of_token(&self, token: u64) -> (r: Option<Task>)
        ensures
            r matches Some(t) ==> self.valid(t) && token == token_spec(t.id) && token > 0,
            r is None ==> token == 0 || token - 1 >= self.task_count(),
    {
        if token == 0 || token - 1 >= self.tasks.len() as u64 {
            return None;
        }
        let id = (token - 1) as usize;
        Some(Task { id, priority: self.tasks[id].priority })
    }

    /// Delivers a ring completion: `token` names the computation (0: a
    /// completion to ignore) and `res` is the operation's result. The
    /// computation moves on as `completion_spec` says and becomes ready.
    pub fn complete(&mut self, token: u64, res: i32) -> (r: Result<()>)
        requires
            old(self).wf(),
        ensures
            final(self).wf(),
            final(self).device_spec() == old(self).device_spec(),
            token == 0 ==> r is Ok && final(self).others_unchanged(old(self), -1)
                && final(self).queues_unchanged(old(self)),
            token > 0 && token - 1 >= old(self).task_count() ==> r == Err::<(), Error>(
                Error::Internal("completion for an unknown token"),
            ) && final(self).others_unchanged(old(self), -1) && final(self).queues_unchanged(
                old(self),
            ),
            token > 0 && token - 1 < old(self).task_count() ==> {
                let id = (token - 1) as int;
                let t = Task { id: id as usize, priority: old(self).priority_of(id) };
                match old(self).state_of(id).completion_spec(res) {
                    None => {
                        &&& r == Err::<(), Error>(
                            Error::Internal("unexpected task state on completion"),
                        )
                        &&& final(self).others_unchanged(old(self), -1)
                        &&& final(self).queues_unchanged(old(self))
                    },
                    Some(s2) => {
                        &&& r is Ok
                        &&& final(self).state_of(id) == s2
                        &&& final(self).verbs_result_of(id) == old(self).verbs_result_of(id)
                        &&& final(self).others_unchanged(old(self), id)
                        &&& final(self).ready_band(t.priority) == old(self).ready_band(
                            t.priority,
                        ).push(t)
                        &&& forall|p: Priority|
                            p != t.priority ==> #[trigger] final(self).ready_band(p) == old(self).ready_band(p)
                        &&& forall|p: Priority| #[trigger] final(self).waiters_band(p) == old(self).waiters_band(p)
                    },
                }
            },
    {
        match self.task_of_token(token) {
            None => {
                if token == 0 {
                    Ok(())
                } else {
                    Err(Error::Internal("completion for an unknown token"))
                }
            },
            Some(t) => match self.tasks[t.id].state.complete(res) {
                None => Err(Error::Internal("unexpected task state on completion")),
                Some(s2) => {
                    self.set_state(t.id, s2);
                    self.wake(t);
                    Ok(())
                },
            },
        }
    }

    /// Takes a free verbs buffer, if there is one.
    pub fn get_verbs_buffer(&mut self) -> (r: Option<Buffer>)
        requires
            old(self).wf(),
        ensures
            final(self).wf(),
            old(self).device_spec().free_spec().len() == 0 ==> r is None,
            old(self).device_spec().free_spec().len() > 0 ==> r == Some(
                old(self).device_spec().free_spec().last(),
            ),
            final(self).device_spec().free_spec() == (if old(self).device_spec().free_spec().len()
                == 0 {
                old(self).device_spec().free_spec()
            } else {
                old(self).device_spec().free_spec().drop_last()
            }),
            final(self).others_unchanged(old(self), -1),
            final(self).queues_unchanged(old(self)),
    {
        let r = self.device.get_buffer();
        proof { self.lemma_valid_after_device(old(self)); }
        r
    }

    /// Returns a verbs buffer to the pool.
    pub fn put_verbs_buffer(&mut self, b: Buffer)
        requires
            old(self).wf(),
        ensures
            final(self).wf(),
            final(self).device_spec().free_spec() == old(self).device_spec().free_spec().push(b),
            final(self).others_unchanged(old(self), -1),
            final(self).queues_unchanged(old(self)),
    {
        self.device.put_buffer(b);
        proof { self.lemma_valid_after_device(old(self)); }
    }

    /// Where only the engine changed, and stays well formed, so does the
    /// reactor.
    proof fn lemma_valid_after_device(&self, o: &Reactor)
        requires
            o.wf(),
            self.device.wf(),
            self.ready == o.ready,
            self.waiting_for_verbs_buffer == o.waiting_for_verbs_buffer,
            self.tasks == o.tasks,
        ensures
            self.wf(),
    {
        assert forall|p: Priority, i: int|
            0 <= i < #[trigger] self.ready.band(p).len() implies self.valid(
                #[trigger] self.ready.band(p)[i],
            ) by {
            assert(o.valid(o.ready.band(p)[i]));
        }
        assert forall|p: Priority, i: int|
            0 <= i < #[trigger] self.waiting_for_verbs_buffer.band(p).len() implies self.valid(
                #[trigger] self.waiting_for_verbs_buffer.band(p)[i],
            ) by {
            assert(o.valid(o.waiting_for_verbs_buffer.band(p)[i]));
        }
    }

    /// Parks `t` until a verbs buffer is free.
    pub fn wait_verbs_buffer(&mut self, t: Task)
        requires
            old(self).wf(),
            old(self).valid(t),
        ensures
            final(self).wf(),
            final(self).waiters_band(t.priority) == old(self).waiters_band(t.priority).push(t),
            forall|p: Priority| p != t.priority ==> #[trigger] final(self).waiters_band(p) == old(self).waiters_band(p),
            forall|p: Priority| #[trigger] final(self).ready_band(p) == old(self).ready_band(p),
            final(self).others_unchanged(old(self), -1),
            final(self).device_spec() == old(self).device_spec(),
    {
        self.waiting_for_verbs_buffer.push(t);
        proof {
            assert forall|p: Priority, i: int|
                0 <= i < #[trigger] self.waiting_for_verbs_buffer.band(p).len() implies self.valid(
                    #[trigger] self.waiting_for_verbs_buffer.band(p)[i],
                ) by {
                if p != t.priority || i < old(self).waiting_for_verbs_buffer.band(p).len() {
                    assert(self.waiting_for_verbs_buffer.band(p)[i] == old(self).waiting_for_verbs_buffer.band(p)[i]);
                    assert(old(self).valid(old(self).waiting_for_verbs_buffer.band(p)[i]));
                }
            }
            assert forall|p: Priority, i: int|
                0 <= i < #[trigger] self.ready.band(p).len() implies self.valid(
                    #[trigger] self.ready.band(p)[i],
                ) by {
                assert(old(self).valid(old(self).ready.band(p)[i]));
            }
        }
    }

    /// Acquires a verbs buffer for `t`: a free one, or else `None` with `t`
    /// parked until one is free.
    pub fn get_buffer(&mut self, t: Task) -> (r: Option<Buffer>)
        requires
            old(self).wf(),
            old(self).valid(t),
        ensures
            final(self).wf(),
            final(self).others_unchanged(old(self), -1),
            forall|p: Priority| #[trigger] final(self).ready_band(p) == old(self).ready_band(p),
            old(self).device_spec().free_spec().len() > 0 ==> {
                &&& r == Some(old(self).device_spec().free_spec().last())
                &&& final(self).device_spec().free_spec() == old(self).device_spec().free_spec().drop_last()
                &&& forall|p: Priority| #[trigger] final(self).waiters_band(p) == old(self).waiters_band(p)
            },
            old(self).device_spec().free_spec().len() == 0 ==> {
                &&& r is None
                &&& final(self).device_spec() == old(self).device_spec()
                &&& final(self).waiters_band(t.priority) == old(self).waiters_band(t.priority).push(t)
                &&& forall|p: Priority|
                    p != t.priority ==> #[trigger] final(self).waiters_band(p) == old(self).waiters_band(p)
            },
    {
        if self.device.has_free_buffer() {
            self.get_verbs_buffer()
        } else {
            self.wait_verbs_buffer(t);
            None
        }
    }

    /// What waking a computation parked for a buffer does; see
    /// `wake_buffer_waiter`.
    pub open spec fn wake_waiter_spec(&self, r2: &Reactor, r: Option<Task>) -> bool {
        &&& r2.others_unchanged(self, -1)
        &&& r2.device_spec() == self.device_spec()
        &&& self.device_spec().free_spec().len() == 0 || self.waiter_queue().is_empty_spec()
            ==> r is None && r2.queues_unchanged(self)
        &&& self.device_spec().free_spec().len() > 0 && !self.waiter_queue().is_empty_spec()
            ==> {
            let b = self.waiter_queue().first_band();
            let t = self.waiters_band(b)[0];
            &&& r == Some(t)
            &&& r2.waiters_band(b) == self.waiters_band(b).drop_first()
            &&& forall|p: Priority| p != b ==> #[trigger] r2.waiters_band(p) == self.waiters_band(p)
            &&& r2.ready_band(t.priority) == self.ready_band(t.priority).push(t)
            &&& forall|p: Priority| p != t.priority ==> #[trigger] r2.ready_band(p) == self.ready_band(p)
        }
    }

    /// When a verbs buffer is free and a computation is parked for one, makes
    /// the first parked computation (highest priority, oldest first) ready,
    /// and returns it.
    pub fn wake_buffer_waiter(&mut self) -> (r: Option<Task>)
        requires
            old(self).wf(),
        ensures
            final(self).wf(),
            old(self).wake_waiter_spec(final(self), r),
    {
        if !self.device.has_free_buffer() || self.waiting_for_verbs_buffer.is_empty() {
            return None;
        }
        let w = self.waiting_for_verbs_buffer.pop();
        proof {
            let b = old(self).waiting_for_verbs_buffer.first_band();
            assert(old(self).valid(old(self).waiting_for_verbs_buffer.band(b)[0]));
            assert forall|p: Priority, i: int|
                0 <= i < #[trigger] self.waiting_for_verbs_buffer.band(p).len() implies self.valid(
                    #[trigger] self.waiting_for_verbs_buffer.band(p)[i],
                ) by {
                if p == b {
                    assert(self.waiting_for_verbs_buffer.band(p)[i] == old(self).waiting_for_verbs_buffer.band(p)[i + 1]);
                    assert(old(self).valid(old(self).waiting_for_verbs_buffer.band(p)[i + 1]));
                } else {
                    assert(old(self).valid(old(self).waiting_for_verbs_buffer.band(p)[i]));
                }
            }
            assert forall|p: Priority, i: int|
                0 <= i < #[trigger] self.ready.band(p).len() implies self.valid(
                    #[trigger] self.ready.band(p)[i],
                ) by {
                assert(old(self).valid(old(self).ready.band(p)[i]));
            }
        }
        match w {
            Some(t) => {
                self.wake(t);
                Some(t)
            },
            None => None,
        }
    }
}

impl Task {
    /// Cancels the computation's operation. Returns the token of the
    /// submission to cancel on the ring when one is outstanding.
    pub fn cancel(&self, r: &mut Reactor) -> (emit: Option<u64>)
        requires
            old(r).wf(),
            old(r).valid(*self),
        ensures
            final(r).wf(),
            final(r).state_of(self.id as int) == old(r).state_of(self.id as int).cancel_spec(),
            emit == (if old(r).state_of(self.id as int) is UringWaiting {
                Some(token_spec(self.id))
            } else {
                None
            }),
            final(r).verbs_result_of(self.id as int) == old(r).verbs_result_of(self.id as int),
            final(r).others_unchanged(old(r), self.id as int),
            final(r).queues_unchanged(old(r)),
            final(r).device_spec() == old(r).device_spec(),
    {
        let (s2, emit) = r.state(*self).cancel();
        r.set_state(self.id, s2);
        if emit {
            Some(self.token())
        } else {
            None
        }
    }

    /// Times the computation's operation out. Returns the token of the
    /// submission to cancel on the ring when one is outstanding.
    pub fn timeout(&self, r: &mut Reactor) -> (emit: Option<u64>)
        requires
            old(r).wf(),
            old(r).valid(*self),
        ensures
            final(r).wf(),
            final(r).state_of(self.id as int) == old(r).state_of(self.id as int).timeout_spec(),
            emit == (if old(r).state_of(self.id as int) is UringWaiting {
                Some(token_spec(self.id))
            } else {
                None
            }),
            final(r).verbs_result_of(self.id as int) == old(r).verbs_result_of(self.id as int),
            final(r).others_unchanged(old(r), self.id as int),
            final(r).queues_unchanged(old(r)),
            final(r).device_spec() == old(r).device_spec(),
    {
        let (s2, emit) = r.state(*self).timeout();
        r.set_state(self.id, s2);
        if emit {
            Some(self.token())
        } else {
            None
        }
    }
}

impl Reactor {
    /// Adds a queue pair to the verbs engine and returns its index.
    pub fn add_qp(&mut self, qp: QueuePair) -> (r: usize)
        requires
            old(self).wf(),
        ensures
            final(self).wf(),
            r == old(self).device_spec().qps_spec().len(),
            final(self).device_spec().qps_spec() == old(self).device_spec().qps_spec().push(qp),
            final(self).device_spec().free_spec() == old(self).device_spec().free_spec(),
            final(self).others_unchanged(old(self), -1),
            final(self).queues_unchanged(old(self)),
    {
        let r = self.device.add_qp(qp);
        proof { self.lemma_valid_after_device(old(self)); }
        r
    }

    /// The address of queue pair `qp` for the peer, if there is one.
    pub open spec fn local_address_spec(&self, qp: usize) -> Option<VerbsAddr> {
        if qp < self.device_spec().qps_spec().len() {
            Some(
                VerbsAddr {
                    qpn: self.device_spec().qps_spec()[qp as int].qpn_spec(),
                    psn: self.device_spec().qps_spec()[qp as int].psn_spec(),
                    gid: 0,
                    lid: self.device_spec().lid_spec(),
                },
            )
        } else {
            None
        }
    }

    /// The address of queue pair `qp` for the peer.
    pub fn local_address(&self, qp: usize) -> (r: Option<VerbsAddr>)
        ensures
            r == self.local_address_spec(qp),
    {
        self.device.local_address(qp)
    }

    /// Fills the empty receive slots with free buffers; see
    /// `Device::post_receives`.
    pub fn post_receives(&mut self) -> (r: Vec<RecvPost>)
        requires
            old(self).wf(),
        ensures
            final(self).wf(),
            old(self).device_spec().posts_spec(&final(self).device_spec(), r@),
            final(self).others_unchanged(old(self), -1),
            final(self).queues_unchanged(old(self)),
    {
        let r = self.device.post_receives();
        proof { self.lemma_valid_after_device(old(self)); }
        r
    }

    /// Whether completion notification must be requested now (only the
    /// first time).
    pub fn arm_notification(&mut self) -> (r: bool)
        requires
            old(self).wf(),
        ensures
            final(self).wf(),
            r == !old(self).device_spec().notify_spec(),
            final(self).device_spec().free_spec() == old(self).device_spec().free_spec(),
            final(self).others_unchanged(old(self), -1),
            final(self).queues_unchanged(old(self)),
    {
        let r = self.device.arm_notification();
        proof { self.lemma_valid_after_device(old(self)); }
        r
    }

    /// What a receive completion does to the reactor; see `on_recv_completion`.
    pub open spec fn recv_completion_spec(
        &self,
        r2: &Reactor,
        wr_id: u64,
        qpn: u32,
        byte_len: u32,
        r: Result<()>,
    ) -> bool {
        &&& r2.others_unchanged(self, -1)
        &&& forall|p: Priority| #[trigger] r2.waiters_band(p) == self.waiters_band(p)
        &&& exists|w: Result<Option<Task>>|
            {
                &&& #[trigger] self.device_spec().recv_spec(
                    &r2.device_spec(),
                    wr_id,
                    qpn,
                    byte_len,
                    w,
                )
                &&& w matches Err(e) ==> r == Err::<(), Error>(e) && r2.queues_unchanged(self)
                &&& w == Ok::<Option<Task>, Error>(None) ==> r is Ok && r2.queues_unchanged(self)
                &&& w matches Ok(Some(t)) ==> (self.valid(t) ==> r is Ok && r2.ready_band(t.priority)
                    == self.ready_band(t.priority).push(t) && forall|p: Priority|
                    p != t.priority ==> #[trigger] r2.ready_band(p) == self.ready_band(p))
                    && (!self.valid(t) ==> r == Err::<(), Error>(
                    Error::Internal("receive for an unknown reader"),
                ) && r2.queues_unchanged(self))
            }
    }

    /// Handles a receive completion (see `Device::on_recv`) and makes the
    /// reader that waited for it ready.
    pub fn on_recv_completion(&mut self, wr_id: u64, qpn: u32, byte_len: u32) -> (r: Result<()>)
        requires
            old(self).wf(),
        ensures
            final(self).wf(),
            old(self).recv_completion_spec(final(self), wr_id, qpn, byte_len, r),
    {
        let w = self.device.on_recv(wr_id, qpn, byte_len);
        proof { self.lemma_valid_after_device(old(self)); }
        let ghost w0 = w;
        let r = match w {
            Err(e) => Err(e),
            Ok(None) => Ok(()),
            Ok(Some(t)) => {
                if self.owns(t) {
                    self.wake(t);
                    Ok(())
                } else {
                    Err(Error::Internal("receive for an unknown reader"))
                }
            },
        };
        assert(old(self).device_spec().recv_spec(&self.device_spec(), wr_id, qpn, byte_len, w0));
        r
    }

    /// A receive on queue pair `qp` for `t`; see `Device::recv`.
    pub fn recv_poll(&mut self, t: Task, qp: usize) -> (r: Result<Option<Buffer>>)
        requires
            old(self).wf(),
        ensures
            final(self).wf(),
            final(self).others_unchanged(old(self), -1),
            final(self).queues_unchanged(old(self)),
            final(self).device_spec().free_spec() == old(self).device_spec().free_spec(),
            final(self).device_spec().qps_spec().len() == old(self).device_spec().qps_spec().len(),
            forall|j: int|
                0 <= j < old(self).device_spec().qps_spec().len() && j != qp
                    ==> final(self).device_spec().qps_spec()[j] == old(self).device_spec().qps_spec()[j],
            qp >= old(self).device_spec().qps_spec().len() ==> r == Err::<Option<Buffer>, Error>(
                Error::Internal("unknown queue pair"),
            ),
            qp < old(self).device_spec().qps_spec().len() ==> {
                let q = old(self).device_spec().qps_spec()[qp as int];
                let q2 = final(self).device_spec().qps_spec()[qp as int];
                &&& q2.qpn_spec() == q.qpn_spec()
                &&& q2.psn_spec() == q.psn_spec()
                &&& q.received_spec().len() > 0 ==> r == Ok::<Option<Buffer>, Error>(
                    Some(q.received_spec()[0]),
                ) && q2.received_spec() == q.received_spec().drop_first() && q2.waiting_spec()
                    == q.waiting_spec()
                &&& q.received_spec().len() == 0 && q.waiting_spec() is Some ==> r == Err::<
                    Option<Buffer>,
                    Error,
                >(Error::Internal("two concurrent reads are not supported"))
                    && q2.received_spec() == q.received_spec() && q2.waiting_spec()
                    == q.waiting_spec()
                &&& q.received_spec().len() == 0 && q.waiting_spec() is None ==> r == Ok::<
                    Option<Buffer>,
                    Error,
                >(None) && q2.received_spec() == q.received_spec() && q2.waiting_spec() == Some(t)
            },
    {
        let r = self.device.recv(qp, t);
        proof { self.lemma_valid_after_device(old(self)); }
        r
    }

    /// The send request for `buffer` on queue pair `qp`, correlated by `t`'s
    /// token.
    pub fn send_request(&self, t: Task, qp: usize, buffer: &Buffer) -> (r: Option<SendWr>)
        requires
            self.wf(),
            self.valid(t),
        ensures
            qp >= self.device_spec().qps_spec().len() ==> r is None,
            qp < self.device_spec().qps_spec().len() ==> r == Some(
                SendWr {
                    wr_id: token_spec(t.id),
                    buffer_id: buffer.id_spec(),
                    length: buffer.used_spec(),
                },
            ),
    {
        let token = t.token();
        self.device.send_request(qp, token, buffer)
    }

    /// The status of `t`'s last verbs send; `None` while it is in flight.
    pub fn verbs_result(&self, t: Task) -> (r: Option<i32>)
        requires
            self.valid(t),
        ensures
            r == self.verbs_result_of(t.id as int),
    {
        self.tasks[t.id].verbs_result
    }

    /// Marks a verbs send of `t` as in flight.
    pub fn reset_verbs_result(&mut self, t: Task)
        requires
            old(self).wf(),
            old(self).valid(t),
        ensures
            final(self).wf(),
            final(self).verbs_result_of(t.id as int) is None,
            final(self).state_of(t.id as int) == old(self).state_of(t.id as int),
            final(self).others_unchanged(old(self), t.id as int),
            final(self).queues_unchanged(old(self)),
            final(self).device_spec() == old(self).device_spec(),
    {
        self.set_verbs_result(t.id, None);
    }

    /// What a send completion does to the reactor; see `on_send_completion`.
    pub open spec fn send_completion_spec(
        &self,
        r2: &Reactor,
        token: u64,
        status: i32,
        r: Result<()>,
    ) -> bool {
        &&& r2.device_spec() == self.device_spec()
        &&& token == 0 || token - 1 >= self.task_count() ==> r == Err::<(), Error>(
            Error::Internal("completion for an unknown token"),
        ) && r2.others_unchanged(self, -1) && r2.queues_unchanged(self)
        &&& token > 0 && token - 1 < self.task_count() ==> {
            let id = (token - 1) as int;
            let t = Task { id: id as usize, priority: self.priority_of(id) };
            &&& r is Ok
            &&& r2.verbs_result_of(id) == Some(status)
            &&& r2.state_of(id) == self.state_of(id)
            &&& r2.others_unchanged(self, id)
            &&& r2.ready_band(t.priority) == self.ready_band(t.priority).push(t)
            &&& forall|p: Priority|
                p != t.priority ==> #[trigger] r2.ready_band(p) == self.ready_band(p)
            &&& forall|p: Priority| #[trigger] r2.waiters_band(p) == self.waiters_band(p)
        }
    }

    /// Delivers a send completion: `token` names the sender, `status` is the
    /// verbs status (0 for success). The sender records it and becomes ready.
    pub fn on_send_completion(&mut self, token: u64, status: i32) -> (r: Result<()>)
        requires
            old(self).wf(),
        ensures
            final(self).wf(),
            old(self).send_completion_spec(final(self), token, status, r),
    {
        match self.task_of_token(token) {
            None => Err(Error::Internal("completion for an unknown token")),
            Some(t) => {
                self.set_verbs_result(t.id, Some(status));
                self.wake(t);
                Ok(())
            },
        }
    }
}

/// The rank of a priority: lower ranks are served first.
pub open spec fn rank(p: Priority) -> int {
    match p {
        Priority::High => 0,
        Priority::Normal => 1,
        Priority::Low => 2,
    }
}

/// Every ring submission of a computation is matched by exactly one
/// completion before its operation ends: a submission is asked for only when
/// none is outstanding; a completion is accepted exactly when one is
/// outstanding and leaves none; cancel and timeout neither add nor remove
/// one; and an operation finishes only when none is outstanding.
pub proof fn lemma_one_completion_per_submission(op: OpState, t: TaskState, res: i32)
    ensures
        poll_spec(op, t).2 is Submit ==> !t.outstanding(),
        t.completion_spec(res) is Some <==> t.outstanding(),
        t.completion_spec(res) matches Some(s2) ==> !s2.outstanding(),
        t.cancel_spec().outstanding() == t.outstanding(),
        t.timeout_spec().outstanding() == t.outstanding(),
        op !is Done && poll_spec(op, t).2 is Ready ==> !t.outstanding() && !poll_spec(
            op,
            t,
        ).1.outstanding(),
        op !is Done && t.outstanding() ==> poll_spec(op, t).2 is Pending && poll_spec(op, t).1 == t,
{
}

/// A cancelled or timed-out operation never reports success, whether the
/// poll comes before or after the completion of its submission; and a
/// success is reported only from a completion, never as a cancellation.
pub proof fn lemma_cancelled_never_succeeds(op: OpState, t: TaskState, res: i32)
    ensures
        !(poll_spec(op, t.cancel_spec()).2 matches OpPoll::Ready(Ok(_))),
        !(poll_spec(op, t.timeout_spec()).2 matches OpPoll::Ready(Ok(_))),
        t.cancel_spec().completion_spec(res) matches Some(s2) ==> !(poll_spec(op, s2).2 matches OpPoll::Ready(
            Ok(_),
        )),
        t.timeout_spec().completion_spec(res) matches Some(s2) ==> !(poll_spec(
            op,
            s2,
        ).2 matches OpPoll::Ready(Ok(_))),
        poll_spec(op, t).2 matches OpPoll::Ready(Ok(_)) ==> t is UringDone,
        poll_spec(op, t).2 matches OpPoll::Ready(Err(Error::Cancel)) ==> t is Cancelled,
{
}

/// After a buffer is put back into the pool, the next acquisition succeeds
/// and hands out that very buffer, leaving the pool as it was.
pub proof fn lemma_get_after_put(free: Seq<Buffer>, b: Buffer)
    ensures
        free.push(b).len() > 0,
        free.push(b).last() == b,
        free.push(b).drop_last() == free,
{
    assert(free.push(b).drop_last() =~= free);
}

/// When a buffer is put back into an exhausted pool while computations are
/// parked for one, the wake-up step resumes exactly one of them: the oldest
/// of the highest priority parked.
pub proof fn lemma_put_resumes_one_waiter(before: &Reactor, after_put: &Reactor, b: Buffer)
    requires
        before.wf(),
        after_put.wf(),
        before.device_spec().free_spec().len() == 0,
        after_put.device_spec().free_spec() == before.device_spec().free_spec().push(b),
        after_put.queues_unchanged(before),
        !before.waiter_queue().is_empty_spec(),
    ensures
        after_put.device_spec().free_spec().len() == 1,
        !after_put.waiter_queue().is_empty_spec(),
        ({
            let q = after_put.waiter_queue();
            let t = q.band(q.first_band())[0];
            &&& t.priority == q.first_band()
            &&& forall|p: Priority, i: int|
                0 <= i < #[trigger] q.band(p).len() ==> rank(t.priority) <= rank(
                    #[trigger] q.band(p)[i].priority,
                )
        }),
{
    reveal(Reactor::wf);
    let q = after_put.waiter_queue();
    assert(q.wf());
    assert(forall|p: Priority| #[trigger] q.band(p) == after_put.waiters_band(p));
    assert(forall|p: Priority| #[trigger] after_put.waiters_band(p) == before.waiters_band(p));
    let f = q.first_band();
    assert(q.band(f).len() > 0);
    assert(q.band(f)[0].priority == f);
    assert forall|p: Priority, i: int|
        0 <= i < #[trigger] q.band(p).len() implies rank(f) <= rank(#[trigger] q.band(p)[i].priority) by {
        assert(q.band(p)[i].priority == p);
    }
}

impl Reactor {
    /// Dispatches one verbs work completion: a receive to its queue pair, a
    /// send to its sender; other kinds are ignored.
    pub fn dispatch_completion(&mut self, wc: WorkCompletion) -> (r: Result<()>)
        requires
            old(self).wf(),
        ensures
            final(self).wf(),
            wc.opcode == IBV_WC_RECV ==> old(self).recv_completion_spec(
                final(self),
                wc.wr_id,
                wc.qp_num,
                wc.byte_len,
                r,
            ),
            wc.opcode == IBV_WC_SEND ==> old(self).send_completion_spec(
                final(self),
                wc.wr_id,
                wc.status,
                r,
            ),
            wc.opcode != IBV_WC_RECV && wc.opcode != IBV_WC_SEND ==> r is Ok
                && final(self).others_unchanged(old(self), -1) && final(self).queues_unchanged(
                old(self),
            ) && final(self).device_spec() == old(self).device_spec(),
    {
        if wc.opcode == IBV_WC_RECV {
            self.on_recv_completion(wc.wr_id, wc.qp_num, wc.byte_len)
        } else if wc.opcode == IBV_WC_SEND {
            self.on_send_completion(wc.wr_id, wc.status)
        } else {
            Ok(())
        }
    }
}

/// What the reactor loop does next.
#[derive(Clone, Copy, Debug, PartialEq, Eq, Structural)]
pub enum RunStep {
    /// Poll this computation.
    Poll(Task),
    /// Nothing is ready: submit the queued entries and wait for a completion.
    WaitCompletion,
}

impl Reactor {
    /// One decision of the reactor loop: first, when a verbs buffer is free,
    /// one computation parked for a buffer becomes ready; then the next ready
    /// computation is taken, if any.
    pub fn run_step(&mut self) -> (r: RunStep)
        requires
            old(self).wf(),
        ensures
            final(self).wf(),
            exists|mid: Reactor, w: Option<Task>, n: Option<Task>|
                {
                    &&& #[trigger] old(self).wake_waiter_spec(&mid, w)
                    &&& mid.wf()
                    &&& #[trigger] mid.next_ready_spec(final(self), n)
                    &&& r == match n {
                        Some(t) => RunStep::Poll(t),
                        None => RunStep::WaitCompletion,
                    }
                },
    {
        let w = self.wake_buffer_waiter();
        let ghost mid = *self;
        let n = self.next_ready();
        assert(old(self).wake_waiter_spec(&mid, w));
        assert(mid.next_ready_spec(self, n));
        match n {
            Some(t) => RunStep::Poll(t),
            None => RunStep::WaitCompletion,
        }
    }
}

} // verus!
