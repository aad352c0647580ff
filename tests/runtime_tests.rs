use agrippa::io_uring_util::{cancel_sqe, Close, Fd, OpenAt, Read, SqeAcquire, SqeStep, Write, IORING_OP_ASYNC_CANCEL, IORING_OP_CLOSE, IORING_OP_OPENAT, IORING_OP_WRITE};
use agrippa::runtime::{completion_error_of, OpPoll, OpState, Priority, Reactor, RunStep, Task, TaskQueue, TaskState};
use agrippa::util::{delay, spawn_task};
use agrippa::verbs_util::Device;
use agrippa::Error;

fn reactor() -> Reactor {
    Reactor::new(Device::new(4096, 1, false).unwrap())
}

fn task(id: usize, priority: Priority) -> Task {
    Task { id, priority }
}

#[test]
fn queue_serves_bands_in_priority_order() {
    let mut q = TaskQueue::new();
    q.push(task(0, Priority::Low));
    q.push(task(1, Priority::Normal));
    q.push(task(2, Priority::High));
    q.push(task(3, Priority::Normal));
    assert_eq!(q.pop(), Some(task(2, Priority::High)));
    assert_eq!(q.pop(), Some(task(1, Priority::Normal)));
    assert_eq!(q.pop(), Some(task(3, Priority::Normal)));
    assert_eq!(q.pop(), Some(task(0, Priority::Low)));
    assert_eq!(q.pop(), None);
    assert!(q.is_empty());
}

#[test]
fn low_priority_waits_for_higher_bands() {
    let mut r = reactor();
    let low = r.spawn(Priority::Low);
    let normal = r.spawn(Priority::Normal);
    let high = r.spawn(Priority::High);
    assert_eq!(r.next_ready(), Some(high));
    assert_eq!(r.next_ready(), Some(normal));
    assert_eq!(r.next_ready(), Some(low));
    assert_eq!(r.next_ready(), None);
}

#[test]
fn operation_lifecycle_consumes_one_completion() {
    let mut r = reactor();
    let t = r.spawn(Priority::Normal);
    assert_eq!(r.next_ready(), Some(t));
    let mut op = OpState::Initial;
    assert!(matches!(r.poll_op(t, &mut op), OpPoll::Submit));
    assert!(matches!(r.op_submitted(t, &mut op, Ok(())), OpPoll::Pending));
    assert_eq!(op, OpState::Sent);
    assert_eq!(r.state(t), TaskState::UringWaiting);
    // still outstanding: polling again suspends
    assert!(matches!(r.poll_op(t, &mut op), OpPoll::Pending));
    assert!(r.complete(t.token(), 5).is_ok());
    assert_eq!(r.state(t), TaskState::UringDone(5));
    assert_eq!(r.next_ready(), Some(t));
    assert!(matches!(r.poll_op(t, &mut op), OpPoll::Ready(Ok(5))));
    assert_eq!(op, OpState::Done);
    assert_eq!(r.state(t), TaskState::Initial);
    // a second completion for the same submission is refused
    assert!(matches!(r.complete(t.token(), 5), Err(Error::Internal(_))));
    // polling a finished operation is an error
    assert!(matches!(r.poll_op(t, &mut op), OpPoll::Ready(Err(Error::Internal(_)))));
}

#[test]
fn failed_submission_reports_the_error() {
    let mut r = reactor();
    let t = r.spawn(Priority::High);
    let mut op = OpState::Initial;
    assert!(matches!(r.poll_op(t, &mut op), OpPoll::Submit));
    let p = r.op_submitted(t, &mut op, Err(Error::Io(16)));
    assert!(matches!(p, OpPoll::Ready(Err(Error::Io(16)))));
    assert_eq!(op, OpState::Done);
    assert_eq!(r.state(t), TaskState::Initial);
}

#[test]
fn missing_file_reports_enoent_and_reactor_goes_on() {
    let mut r = reactor();
    let t = r.spawn(Priority::Normal);
    let other = r.spawn(Priority::Normal);
    assert_eq!(r.next_ready(), Some(t));
    let mut op = OpState::Initial;
    assert!(matches!(r.poll_op(t, &mut op), OpPoll::Submit));
    assert!(matches!(r.op_submitted(t, &mut op, Ok(())), OpPoll::Pending));
    assert!(r.complete(t.token(), -libc::ENOENT).is_ok());
    assert_eq!(r.next_ready(), Some(other));
    assert_eq!(r.next_ready(), Some(t));
    match r.poll_op(t, &mut op) {
        OpPoll::Ready(Err(Error::Io(e))) => assert_eq!(e, libc::ENOENT),
        other => panic!("unexpected {:?}", other),
    }
    let again = r.spawn(Priority::Low);
    assert_eq!(r.next_ready(), Some(again));
}

#[test]
fn cancel_of_outstanding_read_ends_cancelled() {
    let mut r = reactor();
    let t = r.spawn(Priority::Normal);
    let mut op = OpState::Initial;
    assert!(matches!(r.poll_op(t, &mut op), OpPoll::Submit));
    assert!(matches!(r.op_submitted(t, &mut op, Ok(())), OpPoll::Pending));
    assert_eq!(r.next_ready(), Some(t));
    assert_eq!(t.cancel(&mut r), Some(t.token()));
    assert_eq!(r.state(t), TaskState::UringCancelling);
    // cancelling again is harmless and sends nothing
    assert_eq!(t.cancel(&mut r), None);
    // the cancel request's own completion carries token 0 and is ignored
    assert!(r.complete(0, 0).is_ok());
    assert_eq!(r.next_ready(), None);
    // the read raced to success: still reported as cancelled
    assert!(r.complete(t.token(), 100).is_ok());
    assert_eq!(r.next_ready(), Some(t));
    assert!(matches!(r.poll_op(t, &mut op), OpPoll::Ready(Err(Error::Cancel))));
}

#[test]
fn cancel_before_submission_touches_no_ring() {
    let mut r = reactor();
    let t = r.spawn(Priority::Normal);
    assert_eq!(t.cancel(&mut r), None);
    assert_eq!(r.state(t), TaskState::Cancelled);
    let mut op = OpState::Initial;
    assert!(matches!(r.poll_op(t, &mut op), OpPoll::Ready(Err(Error::Cancel))));
}

#[test]
fn timeout_of_outstanding_operation_ends_timed_out() {
    let mut r = reactor();
    let t = r.spawn(Priority::Normal);
    let mut op = OpState::Initial;
    assert!(matches!(r.poll_op(t, &mut op), OpPoll::Submit));
    assert!(matches!(r.op_submitted(t, &mut op, Ok(())), OpPoll::Pending));
    assert_eq!(t.timeout(&mut r), Some(t.token()));
    assert!(r.complete(t.token(), -libc::ECANCELED).is_ok());
    assert!(matches!(r.poll_op(t, &mut op), OpPoll::Ready(Err(Error::Timeout))));
    let u = r.spawn(Priority::Low);
    assert_eq!(u.timeout(&mut r), None);
    assert_eq!(r.state(u), TaskState::TimedOut);
}

#[test]
fn unknown_token_is_refused() {
    let mut r = reactor();
    assert!(matches!(r.complete(7, 0), Err(Error::Internal(_))));
    let t = r.spawn(Priority::Normal);
    // no submission outstanding
    assert!(matches!(r.complete(t.token(), 0), Err(Error::Internal(_))));
}

#[test]
fn completion_error_negates_errno() {
    assert!(matches!(completion_error_of(-2), Error::Io(2)));
    assert!(matches!(completion_error_of(i32::MIN), Error::Internal(_)));
}

#[test]
fn tokens_are_index_plus_one() {
    assert_eq!(task(0, Priority::High).token(), 1);
    assert_eq!(task(41, Priority::Low).token(), 42);
}

#[test]
fn yielding_computations_all_complete() {
    // six computations over the three bands, each yielding once
    let mut r = reactor();
    let prios = [Priority::High, Priority::Normal, Priority::Low, Priority::High, Priority::Normal, Priority::Low];
    let mut tasks = Vec::new();
    let mut delays = Vec::new();
    for p in prios.iter() {
        tasks.push(spawn_task(&mut r, *p).unwrap());
        delays.push(delay());
    }
    let mut polls = 0;
    let mut yields = 0;
    let mut finished = 0;
    let mut order = Vec::new();
    while let Some(t) = r.next_ready() {
        polls += 1;
        order.push(t.id);
        if delays[t.id].poll(&mut r, t) {
            finished += 1;
        } else {
            yields += 1;
        }
    }
    assert_eq!(finished, 6);
    // two per band over three bands
    assert_eq!(yields, (6 / 3) * 3);
    assert_eq!(polls, 12);
    // the yields run within each band before the next band starts
    assert_eq!(order, vec![0, 3, 0, 3, 1, 4, 1, 4, 2, 5, 2, 5]);
}

#[test]
fn sqe_builders_fill_the_entry() {
    let s = cancel_sqe(9);
    assert_eq!(s.opcode, IORING_OP_ASYNC_CANCEL);
    assert_eq!(s.addr, 9);
    assert_eq!(s.user_data, 0);
    assert_eq!(s.fd, -1);

    let fd = Fd { fd: 3 };
    let w = Write::new(&fd, 0x1000, 9, 4);
    let e = w.method.call(77).unwrap();
    assert_eq!((e.opcode, e.fd, e.addr, e.len, e.off, e.user_data), (IORING_OP_WRITE, 3, 0x1000, 9, 4, 77));
    assert_eq!(w.method.result(9).unwrap(), 9);
    assert!(matches!(w.method.result(10), Err(Error::Internal(_))));

    let r = Read::new(&fd, 0x2000, 16, 0);
    assert_eq!(r.method.result(0).unwrap(), 0);

    let o = OpenAt::new(0x3000, None, 0o101, 0o644);
    let e = o.method.call(5).unwrap();
    assert_eq!((e.opcode, e.fd, e.addr, e.len, e.op_flags), (IORING_OP_OPENAT, libc::AT_FDCWD, 0x3000, 0o644, 0o101));
    let dir = Fd { fd: 8 };
    let o = OpenAt::new(0x3000, Some(&dir), 0, 0);
    assert_eq!(o.method.call(5).unwrap().fd, 8);
    assert_eq!(o.method.result(12).unwrap().into_raw(), 12);

    let mut c = Close::new(Fd { fd: 6 });
    let e = c.method.call(2).unwrap();
    assert_eq!((e.opcode, e.fd), (IORING_OP_CLOSE, 6));
    assert!(matches!(c.method.call(2), Err(Error::Internal(_))));
}

#[test]
fn sqe_acquisition_submits_once_then_fails() {
    let mut a = SqeAcquire::new();
    assert!(matches!(a.on_full(), SqeStep::Submit));
    assert!(a.on_submit(3).is_ok());
    assert!(matches!(a.on_submit(-libc::EAGAIN), Err(Error::Io(e)) if e == libc::EAGAIN));
    match a.on_full() {
        SqeStep::Fail(Error::Io(e)) => assert_eq!(e, libc::EBUSY),
        other => panic!("unexpected {:?}", other),
    }
}

#[test]
fn run_step_wakes_a_buffer_waiter_before_polling() {
    let mut r = reactor();
    let waiter = r.spawn(Priority::High);
    let other = r.spawn(Priority::Normal);
    assert_eq!(r.run_step(), RunStep::Poll(waiter));
    // the pool is not empty, so nobody stays parked long: park the waiter by hand
    r.wait_verbs_buffer(waiter);
    assert_eq!(r.run_step(), RunStep::Poll(waiter));
    assert_eq!(r.run_step(), RunStep::Poll(other));
    assert_eq!(r.run_step(), RunStep::WaitCompletion);
}

#[test]
fn write_operation_polls_through_its_lifecycle() {
    let mut r = reactor();
    let t = r.spawn(Priority::Normal);
    let fd = Fd { fd: 3 };
    let mut w = Write::new(&fd, 0x1000, 9, 0);
    assert!(matches!(w.poll(&mut r, t), OpPoll::Submit));
    let sqe = w.method.call(t.token()).unwrap();
    assert_eq!(sqe.user_data, t.token());
    assert!(matches!(w.submitted(&mut r, t, Ok(())), OpPoll::Pending));
    assert!(matches!(w.poll(&mut r, t), OpPoll::Pending));
    assert!(r.complete(sqe.user_data, 9).is_ok());
    match w.poll(&mut r, t) {
        OpPoll::Ready(Ok(res)) => assert_eq!(w.method.result(res).unwrap(), 9),
        other => panic!("unexpected {:?}", other),
    }
    assert_eq!(w.state, OpState::Done);
}
