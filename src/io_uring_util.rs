use vstd::prelude::*;

use crate::error::{Error, Result};
use crate::runtime::{poll_spec, OpPoll, OpState, Reactor, Task, TaskState};

verus! {

/// Ring opcode: accept a connection.
pub const IORING_OP_ACCEPT: u8 = 13;

/// Ring opcode: cancel an outstanding submission.
pub const IORING_OP_ASYNC_CANCEL: u8 = 14;

/// Ring opcode: connect a socket.
pub const IORING_OP_CONNECT: u8 = 16;

/// Ring opcode: open a file relative to a directory.
pub const IORING_OP_OPENAT: u8 = 18;

/// Ring opcode: close a descriptor.
pub const IORING_OP_CLOSE: u8 = 19;

/// Ring opcode: read into a buffer.
pub const IORING_OP_READ: u8 = 22;

/// Ring opcode: write from a buffer.
pub const IORING_OP_WRITE: u8 = 23;

/// The fields of a submission queue entry that the runtime fills. Addresses
/// are carried as integers; the driver copies the entry into the ring.
#[derive(Clone, Copy, Debug, PartialEq, Eq, Structural)]
pub struct Sqe {
    pub opcode: u8,
    pub flags: u8,
    pub ioprio: u16,
    pub fd: i32,
    pub off: u64,
    pub addr: u64,
    pub len: u32,
    /// Per-operation flags; the open flags of an open-at.
    pub op_flags: u32,
    pub user_data: u64,
}

/// The entry for a read/write-shaped operation.
pub open spec fn rw_entry(op: u8, fd: i32, addr: u64, len: u32, off: u64, user_data: u64) -> Sqe {
    Sqe { opcode: op, flags: 0, ioprio: 0, fd, off, addr, len, op_flags: 0, user_data }
}

/// Fills an entry for operation `op` on `fd`, correlated by `user_data`.
pub fn prep_rw(op: u8, fd: i32, addr: u64, len: u32, offset: u64, user_data: u64) -> (r: Sqe)
    ensures
        r == rw_entry(op, fd, addr, len, offset, user_data),
{
    Sqe { opcode: op, flags: 0, ioprio: 0, fd, off: offset, addr, len, op_flags: 0, user_data }
}

/// The entry that cancels the submission correlated by `target`. Its own
/// completion carries token 0 and is ignored.
pub fn cancel_sqe(target: u64) -> (r: Sqe)
    ensures
        r == rw_entry(IORING_OP_ASYNC_CANCEL, -1i32, target, 0, 0, 0),
{
    prep_rw(IORING_OP_ASYNC_CANCEL, -1, target, 0, 0, 0)
}

/// An owned file descriptor. Closing it is the driver's part.
#[derive(Debug)]
pub struct Fd {
    pub fd: i32,
}

impl Fd {
    pub fn as_raw(&self) -> (r: i32)
        ensures
            r == self.fd,
    {
        self.fd
    }

    /// Gives up ownership and returns the raw descriptor.
    pub fn into_raw(self) -> (r: i32)
        ensures
            r == self.fd,
    {
        self.fd
    }
}

/// Relies on libc::AT_FDCWD, which is -100 on every Linux target.
#[verifier::external_body]
fn at_fdcwd() -> (r: i32)
    ensures
        r == -100,
{
    libc::AT_FDCWD
}

/// A ring operation: its state and what it submits.
pub struct IOUringFeature<M> {
    pub state: OpState,
    pub method: M,
}

impl<M> IOUringFeature<M> {
    pub fn new(method: M) -> (r: Self)
        ensures
            r.state == OpState::Initial,
            r.method == method,
    {
        IOUringFeature { state: OpState::Initial, method }
    }

    /// Polls the operation for computation `t`; see `Reactor::poll_op`.
    pub fn poll(&mut self, r: &mut Reactor, t: Task) -> (res: OpPoll)
        requires
            old(r).wf(),
            old(r).valid(t),
        ensures
            final(r).wf(),
            ({
                let (o2, s2, p) = poll_spec(old(self).state, old(r).state_of(t.id as int));
                &&& final(self).state == o2
                &&& final(r).state_of(t.id as int) == s2
                &&& res == p
            }),
            final(self).method == old(self).method,
            final(r).verbs_result_of(t.id as int) == old(r).verbs_result_of(t.id as int),
            final(r).others_unchanged(old(r), t.id as int),
            final(r).queues_unchanged(old(r)),
            final(r).device_spec() == old(r).device_spec(),
    {
        r.poll_op(t, &mut self.state)
    }

    /// Reports how filling the submission entry that `poll` asked for went;
    /// see `Reactor::op_submitted`.
    pub fn submitted(&mut self, r: &mut Reactor, t: Task, outcome: Result<()>) -> (res: OpPoll)
        requires
            old(r).wf(),
            old(r).valid(t),
            old(self).state == OpState::Initial,
            old(r).state_of(t.id as int) == TaskState::Initial,
        ensures
            final(r).wf(),
            outcome is Ok ==> {
                &&& final(self).state == OpState::Sent
                &&& final(r).state_of(t.id as int) == TaskState::UringWaiting
                &&& res is Pending
            },
            outcome matches Err(e) ==> {
                &&& final(self).state == OpState::Done
                &&& final(r).state_of(t.id as int) == TaskState::Initial
                &&& res == OpPoll::Ready(Err(e))
            },
            final(self).method == old(self).method,
            final(r).verbs_result_of(t.id as int) == old(r).verbs_result_of(t.id as int),
            final(r).others_unchanged(old(r), t.id as int),
            final(r).queues_unchanged(old(r)),
            final(r).device_spec() == old(r).device_spec(),
    {
        r.op_submitted(t, &mut self.state, outcome)
    }
}

/// A byte count that the kernel reported for a request of `requested` bytes:
/// more than was asked for breaks the ring's contract.
pub open spec fn count_result(ret: i32, requested: usize) -> Result<usize> {
    if ret as int > requested as int {
        Err(Error::Internal("operation reported more bytes than requested"))
    } else {
        Ok(ret as usize)
    }
}

fn count_of(ret: i32, requested: usize) -> (r: Result<usize>)
    requires
        ret >= 0,
    ensures
        r == count_result(ret, requested),
{
    if ret as usize > requested {
        Err(Error::Internal("operation reported more bytes than requested"))
    } else {
        Ok(ret as usize)
    }
}

/// Accepts a connection on a listening socket. The peer's address is written
/// at `addr`, its length at `addr_len`.
pub struct Accept {
    pub fd: i32,
    pub addr: u64,
    pub addr_len: u64,
}

impl Accept {
    pub fn new(fd: &Fd, addr: u64, addr_len: u64) -> (r: IOUringFeature<Accept>)
        ensures
            r.state == OpState::Initial,
            r.method == (Accept { fd: fd.fd, addr, addr_len }),
    {
        IOUringFeature::new(Accept { fd: fd.fd, addr, addr_len })
    }

    pub fn call(&self, user_data: u64) -> (r: Result<Sqe>)
        ensures
            r == Ok::<Sqe, Error>(rw_entry(IORING_OP_ACCEPT, self.fd, self.addr, 0, self.addr_len, user_data)),
    {
        Ok(prep_rw(IORING_OP_ACCEPT, self.fd, self.addr, 0, self.addr_len, user_data))
    }

    /// The accepted connection's descriptor.
    pub fn result(&self, ret: i32) -> (r: Result<Fd>)
        ensures
            r matches Ok(f) && f.fd == ret,
    {
        Ok(Fd { fd: ret })
    }
}

/// Closes a descriptor, consuming it.
pub struct Close {
    pub fd: Option<Fd>,
}

impl Close {
    pub fn new(fd: Fd) -> (r: IOUringFeature<Close>)
        ensures
            r.state == OpState::Initial,
            r.method.fd == Some(fd),
    {
        IOUringFeature::new(Close { fd: Some(fd) })
    }

    /// Takes the descriptor out (so that only the ring closes it) and fills
    /// the entry; a second call finds no descriptor.
    pub fn call(&mut self, user_data: u64) -> (r: Result<Sqe>)
        ensures
            final(self).fd is None,
            old(self).fd matches Some(f) ==> r == Ok::<Sqe, Error>(
                rw_entry(IORING_OP_CLOSE, f.fd, 0, 0, 0, user_data),
            ),
            old(self).fd is None ==> r == Err::<Sqe, Error>(
                Error::Internal("internal error fd was none"),
            ),
    {
        match self.fd.take() {
            Some(fd) => Ok(prep_rw(IORING_OP_CLOSE, fd.into_raw(), 0, 0, 0, user_data)),
            None => Err(Error::Internal("internal error fd was none")),
        }
    }

    pub fn result(&self, ret: i32) -> (r: Result<()>)
        ensures
            r is Ok,
    {
        Ok(())
    }
}

/// Writes `len` bytes found at `data` to `fd` at `offset`.
pub struct Write {
    pub fd: i32,
    pub data: u64,
    pub len: u32,
    pub offset: u64,
}

impl Write {
    pub fn new(fd: &Fd, data: u64, len: u32, offset: u64) -> (r: IOUringFeature<Write>)
        ensures
            r.state == OpState::Initial,
            r.method == (Write { fd: fd.fd, data, len, offset }),
    {
        IOUringFeature::new(Write { fd: fd.fd, data, len, offset })
    }

    pub fn call(&self, user_data: u64) -> (r: Result<Sqe>)
        ensures
            r == Ok::<Sqe, Error>(rw_entry(IORING_OP_WRITE, self.fd, self.data, self.len, self.offset, user_data)),
    {
        Ok(prep_rw(IORING_OP_WRITE, self.fd, self.data, self.len, self.offset, user_data))
    }

    /// The number of bytes written: never more than requested.
    pub fn result(&self, ret: i32) -> (r: Result<usize>)
        requires
            ret >= 0,
        ensures
            r == count_result(ret, self.len as usize),
            r matches Ok(n) ==> n <= self.len,
    {
        count_of(ret, self.len as usize)
    }
}

/// Reads up to `len` bytes from `fd` at `offset` into the memory at `data`.
pub struct Read {
    pub fd: i32,
    pub data: u64,
    pub len: u32,
    pub offset: u64,
}

impl Read {
    pub fn new(fd: &Fd, data: u64, len: u32, offset: u64) -> (r: IOUringFeature<Read>)
        ensures
            r.state == OpState::Initial,
            r.method == (Read { fd: fd.fd, data, len, offset }),
    {
        IOUringFeature::new(Read { fd: fd.fd, data, len, offset })
    }

    pub fn call(&self, user_data: u64) -> (r: Result<Sqe>)
        ensures
            r == Ok::<Sqe, Error>(rw_entry(IORING_OP_READ, self.fd, self.data, self.len, self.offset, user_data)),
    {
        Ok(prep_rw(IORING_OP_READ, self.fd, self.data, self.len, self.offset, user_data))
    }

    /// The number of bytes read: never more than requested.
    pub fn result(&self, ret: i32) -> (r: Result<usize>)
        requires
            ret >= 0,
        ensures
            r == count_result(ret, self.len as usize),
            r matches Ok(n) ==> n <= self.len,
    {
        count_of(ret, self.len as usize)
    }
}

/// Connects the socket `fd` to the address of `addr_size` bytes at `addr`.
pub struct Connect {
    pub fd: i32,
    pub addr: u64,
    pub addr_size: u64,
}

impl Connect {
    pub fn new(fd: &Fd, addr: u64, addr_size: u64) -> (r: IOUringFeature<Connect>)
        ensures
            r.state == OpState::Initial,
            r.method == (Connect { fd: fd.fd, addr, addr_size }),
    {
        IOUringFeature::new(Connect { fd: fd.fd, addr, addr_size })
    }

    /// The address size travels in the offset field.
    pub fn call(&self, user_data: u64) -> (r: Result<Sqe>)
        ensures
            r == Ok::<Sqe, Error>(rw_entry(IORING_OP_CONNECT, self.fd, self.addr, 0, self.addr_size, user_data)),
    {
        Ok(prep_rw(IORING_OP_CONNECT, self.fd, self.addr, 0, self.addr_size, user_data))
    }

    pub fn result(&self, ret: i32) -> (r: Result<()>)
        ensures
            r is Ok,
    {
        Ok(())
    }
}

/// Opens the NUL-terminated path at `path`, relative to `dirfd` or, without
/// one, to the working directory.
pub struct OpenAt {
    pub path: u64,
    pub dirfd: Option<i32>,
    pub flags: u32,
    pub mode: u32,
}

impl OpenAt {
    pub fn new(path: u64, dirfd: Option<&Fd>, flags: u32, mode: u32) -> (r: IOUringFeature<OpenAt>)
        ensures
            r.state == OpState::Initial,
            r.method.path == path,
            r.method.flags == flags,
            r.method.mode == mode,
            r.method.dirfd == (match dirfd {
                Some(d) => Some(d.fd),
                None => None::<i32>,
            }),
    {
        let dirfd = match dirfd {
            Some(d) => Some(d.fd),
            None => None,
        };
        IOUringFeature::new(OpenAt { path, dirfd, flags, mode })
    }

    /// The mode travels in the length field and the open flags in the
    /// per-operation flags.
    pub fn call(&self, user_data: u64) -> (r: Result<Sqe>)
        ensures
            r == Ok::<Sqe, Error>(
                Sqe {
                    op_flags: self.flags,
                    ..rw_entry(
                        IORING_OP_OPENAT,
                        match self.dirfd {
                            Some(d) => d,
                            None => -100i32,
                        },
                        self.path,
                        self.mode,
                        0,
                        user_data,
                    )
                },
            ),
    {
        let dirfd = match self.dirfd {
            Some(d) => d,
            None => at_fdcwd(),
        };
        let mut sqe = prep_rw(IORING_OP_OPENAT, dirfd, self.path, self.mode, 0, user_data);
        sqe.op_flags = self.flags;
        Ok(sqe)
    }

    /// The opened descriptor.
    pub fn result(&self, ret: i32) -> (r: Result<Fd>)
        ensures
            r matches Ok(f) && f.fd == ret,
    {
        Ok(Fd { fd: ret })
    }
}

/// Relies on libc::EBUSY, which is 16 on Linux.
#[verifier::external_body]
fn ebusy() -> (r: i32)
    ensures
        r == 16,
{
    libc::EBUSY
}

/// What to do when the ring has no free submission entry.
#[derive(Debug)]
pub enum SqeStep {
    /// Submit the queued batch to the kernel, then ask for an entry again.
    Submit,
    /// Give up with this error.
    Fail(Error),
}

/// The acquisition of one submission entry: the queued batch is submitted at
/// most once to make room; if the ring is still full after that, the
/// acquisition fails instead of spinning.
pub struct SqeAcquire {
    submitted: bool,
}

impl SqeAcquire {
    pub closed spec fn submitted_spec(&self) -> bool {
        self.submitted
    }

    pub fn new() -> (r: Self)
        ensures
            !r.submitted_spec(),
    {
        SqeAcquire { submitted: false }
    }

    /// The ring reported that no entry is free.
    pub fn on_full(&mut self) -> (r: SqeStep)
        ensures
            !old(self).submitted_spec() ==> r is Submit,
            old(self).submitted_spec() ==> r == SqeStep::Fail(Error::Io(16)),
            final(self).submitted_spec(),
    {
        if self.submitted {
            SqeStep::Fail(Error::Io(ebusy()))
        } else {
            self.submitted = true;
            SqeStep::Submit
        }
    }

    /// The outcome of the submit: a negative result is the kernel's error.
    pub fn on_submit(&self, res: i32) -> (r: Result<()>)
        ensures
            res >= 0 ==> r is Ok,
            res < 0 ==> r == Err::<(), Error>(crate::runtime::completion_error(res)),
    {
        if res < 0 {
            Err(crate::runtime::completion_error_of(res))
        } else {
            Ok(())
        }
    }
}

} // verus!
