use vstd::prelude::*;

use crate::fs::{cap_request, request_len, TransferAll};
use crate::io_uring_util::{Accept, Close, Fd, IOUringFeature, Read, Write};
use crate::runtime::OpState;

verus! {

/// A listening socket.
#[derive(Debug)]
pub struct ListenSocket {
    fd: Fd,
}

impl ListenSocket {
    pub closed spec fn fd_spec(&self) -> i32 {
        self.fd.fd
    }

    /// The listener on the bound socket `fd`.
    pub fn from_fd(fd: Fd) -> (r: ListenSocket)
        ensures
            r.fd_spec() == fd.fd,
    {
        ListenSocket { fd }
    }

    /// Accepts a connection; the peer's address is written at `addr` and its
    /// length at `addr_len`.
    pub fn accept(&self, addr: u64, addr_len: u64) -> (r: IOUringFeature<Accept>)
        ensures
            r.state == OpState::Initial,
            r.method == (Accept { fd: self.fd_spec(), addr, addr_len }),
    {
        Accept::new(&self.fd, addr, addr_len)
    }

    /// Closes the listener.
    pub fn close(self) -> (r: IOUringFeature<Close>)
        ensures
            r.state == OpState::Initial,
            r.method.fd matches Some(f) && f.fd == self.fd_spec(),
    {
        Close::new(self.fd)
    }
}

/// A connected stream socket.
#[derive(Debug)]
pub struct Socket {
    fd: Fd,
}

impl Socket {
    pub closed spec fn fd_spec(&self) -> i32 {
        self.fd.fd
    }

    /// The socket connected on `fd`.
    pub fn from_fd(fd: Fd) -> (r: Socket)
        ensures
            r.fd_spec() == fd.fd,
    {
        Socket { fd }
    }

    /// The next write of a whole-buffer write of the bytes at `data`.
    pub fn write(&self, t: &TransferAll, data: u64) -> (r: IOUringFeature<Write>)
        requires
            t.wf(),
            data + t.len_spec() <= u64::MAX,
        ensures
            r.state == OpState::Initial,
            r.method == (Write {
                fd: self.fd_spec(),
                data: (data + t.done_spec()) as u64,
                len: request_len((t.len_spec() - t.done_spec()) as usize),
                offset: 0,
            }),
    {
        Write::new(&self.fd, data + t.done() as u64, cap_request(t.remaining()), 0)
    }

    /// A read of up to `len` bytes into the memory at `data`.
    pub fn read(&self, data: u64, len: u32) -> (r: IOUringFeature<Read>)
        ensures
            r.state == OpState::Initial,
            r.method == (Read { fd: self.fd_spec(), data, len, offset: 0 }),
    {
        Read::new(&self.fd, data, len, 0)
    }

    /// The next read of a read that fills the buffer at `data`.
    pub fn read_all(&self, t: &TransferAll, data: u64) -> (r: IOUringFeature<Read>)
        requires
            t.wf(),
            data + t.len_spec() <= u64::MAX,
        ensures
            r.state == OpState::Initial,
            r.method == (Read {
                fd: self.fd_spec(),
                data: (data + t.done_spec()) as u64,
                len: request_len((t.len_spec() - t.done_spec()) as usize),
                offset: 0,
            }),
    {
        Read::new(&self.fd, data + t.done() as u64, cap_request(t.remaining()), 0)
    }

    /// Closes the socket.
    pub fn close(self) -> (r: IOUringFeature<Close>)
        ensures
            r.state == OpState::Initial,
            r.method.fd matches Some(f) && f.fd == self.fd_spec(),
    {
        Close::new(self.fd)
    }
}

} // verus!
