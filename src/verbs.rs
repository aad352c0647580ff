use vstd::prelude::*;

use crate::error::{Error, Result};
use crate::runtime::{Priority, Reactor, Task};
pub use crate::verbs_util::{Buffer, VerbsAddr};
use crate::verbs_util::{rtr_attr, rts_attr, QpAttr, QueuePair, SendWr, zero_attr};

verus! {

/// A receive on a connection: the oldest received buffer, or a suspension
/// until one arrives.
pub struct Recv {
    qp: usize,
}

impl Recv {
    pub closed spec fn qp_spec(&self) -> usize {
        self.qp
    }

    /// Polls the receive for computation `t`: `Ok(None)` means suspended.
    pub fn poll(&self, r: &mut Reactor, t: Task) -> (res: Result<Option<Buffer>>)
        requires
            old(r).wf(),
        ensures
            final(r).wf(),
            final(r).others_unchanged(old(r), -1),
            final(r).queues_unchanged(old(r)),
            final(r).device_spec().free_spec() == old(r).device_spec().free_spec(),
            final(r).device_spec().qps_spec().len() == old(r).device_spec().qps_spec().len(),
            forall|j: int|
                0 <= j < old(r).device_spec().qps_spec().len() && j != self.qp_spec()
                    ==> final(r).device_spec().qps_spec()[j] == old(r).device_spec().qps_spec()[j],
            self.qp_spec() >= old(r).device_spec().qps_spec().len() ==> res == Err::<
                Option<Buffer>,
                Error,
            >(Error::Internal("unknown queue pair")),
            self.qp_spec() < old(r).device_spec().qps_spec().len() ==> {
                let q = old(r).device_spec().qps_spec()[self.qp_spec() as int];
                let q2 = final(r).device_spec().qps_spec()[self.qp_spec() as int];
                &&& q2.qpn_spec() == q.qpn_spec()
                &&& q2.psn_spec() == q.psn_spec()
                &&& q.received_spec().len() > 0 ==> res == Ok::<Option<Buffer>, Error>(
                    Some(q.received_spec()[0]),
                ) && q2.received_spec() == q.received_spec().drop_first() && q2.waiting_spec()
                    == q.waiting_spec()
                &&& q.received_spec().len() == 0 && q.waiting_spec() is Some ==> res == Err::<
                    Option<Buffer>,
                    Error,
                >(Error::Internal("two concurrent reads are not supported"))
                    && q2.received_spec() == q.received_spec() && q2.waiting_spec()
                    == q.waiting_spec()
                &&& q.received_spec().len() == 0 && q.waiting_spec() is None ==> res == Ok::<
                    Option<Buffer>,
                    Error,
                >(None) && q2.received_spec() == q.received_spec() && q2.waiting_spec() == Some(
                    t,
                )
            },
    {
        r.recv_poll(t, self.qp)
    }
}

/// Where a send stands.
#[derive(Clone, Copy, Debug, PartialEq, Eq, Structural)]
pub enum SendState {
    Initial,
    Sent,
    Done,
}

/// What a poll of a send asks of its caller.
#[derive(Debug)]
pub enum SendPoll {
    /// Post this request on the queue pair, then report the outcome.
    Post(SendWr),
    /// Suspend the computation.
    Pending,
    /// The send is over.
    Ready(Result<()>),
}

/// A send of one buffer on a connection. The buffer goes back to the pool
/// when the send ends, whichever way.
pub struct Send {
    qp: usize,
    buffer: Option<Buffer>,
    state: SendState,
}

impl Send {
    pub closed spec fn state_spec(&self) -> SendState {
        self.state
    }

    pub closed spec fn buffer_spec(&self) -> Option<Buffer> {
        self.buffer
    }

    pub closed spec fn qp_spec(&self) -> usize {
        self.qp
    }

    /// The buffer is held until the send is done.
    pub open spec fn wf(&self) -> bool {
        (self.state_spec() is Done) == (self.buffer_spec() is None)
    }

    /// Polls the send for computation `t`.
    pub fn poll(&mut self, r: &mut Reactor, t: Task) -> (res: SendPoll)
        requires
            old(self).wf(),
            old(r).wf(),
            old(r).valid(t),
        ensures
            final(self).wf(),
            final(r).wf(),
            final(r).queues_unchanged(old(r)),
            final(self).qp_spec() == old(self).qp_spec(),
            old(self).state_spec() is Done ==> res == SendPoll::Ready(
                Err(Error::Internal("Poll called on done future")),
            ) && final(self).state_spec() is Done && final(r).device_spec() == old(r).device_spec(),
            old(self).state_spec() is Initial && old(self).qp_spec() < old(r).device_spec().qps_spec().len() ==> {
                let b = old(self).buffer_spec().unwrap();
                &&& res == SendPoll::Post(
                    SendWr {
                        wr_id: crate::runtime::token_spec(t.id),
                        buffer_id: b.id_spec(),
                        length: b.used_spec(),
                    },
                )
                &&& final(self).state_spec() is Initial
                &&& final(self).buffer_spec() == old(self).buffer_spec()
                &&& final(r).verbs_result_of(t.id as int) is None
                &&& final(r).device_spec() == old(r).device_spec()
            },
            old(self).state_spec() is Initial && old(self).qp_spec() >= old(r).device_spec().qps_spec().len() ==> {
                &&& res == SendPoll::Ready(Err(Error::Internal("unknown queue pair")))
                &&& final(self).state_spec() is Done
                &&& final(r).device_spec().free_spec() == old(r).device_spec().free_spec().push(
                    old(self).buffer_spec().unwrap(),
                )
            },
            old(self).state_spec() is Sent && old(r).verbs_result_of(t.id as int) is None ==> res
                is Pending && final(self).state_spec() is Sent && final(r).device_spec() == old(r).device_spec(),
            old(self).state_spec() is Sent && old(r).verbs_result_of(t.id as int) is Some ==> {
                &&& res == SendPoll::Ready(
                    if old(r).verbs_result_of(t.id as int) == Some(0i32) {
                        Ok(())
                    } else {
                        Err(Error::Internal("verbs error"))
                    },
                )
                &&& final(self).state_spec() is Done
                &&& final(r).device_spec().free_spec() == old(r).device_spec().free_spec().push(
                    old(self).buffer_spec().unwrap(),
                )
            },
    {
        match self.state {
            SendState::Done => SendPoll::Ready(Err(Error::Internal("Poll called on done future"))),
            SendState::Initial => {
                let b = self.buffer.take().unwrap();
                match r.send_request(t, self.qp, &b) {
                    None => {
                        r.put_verbs_buffer(b);
                        self.state = SendState::Done;
                        SendPoll::Ready(Err(Error::Internal("unknown queue pair")))
                    },
                    Some(wr) => {
                        r.reset_verbs_result(t);
                        self.buffer = Some(b);
                        SendPoll::Post(wr)
                    },
                }
            },
            SendState::Sent => match r.verbs_result(t) {
                None => SendPoll::Pending,
                Some(status) => {
                    let b = self.buffer.take().unwrap();
                    r.put_verbs_buffer(b);
                    self.state = SendState::Done;
                    if status == 0 {
                        SendPoll::Ready(Ok(()))
                    } else {
                        SendPoll::Ready(Err(Error::Internal("verbs error")))
                    }
                },
            },
        }
    }

    /// Reports how posting the request asked for by `poll` went.
    pub fn posted(&mut self, r: &mut Reactor, outcome: Result<()>) -> (res: SendPoll)
        requires
            old(self).wf(),
            old(self).state_spec() is Initial,
            old(r).wf(),
        ensures
            final(self).wf(),
            final(r).wf(),
            final(r).others_unchanged(old(r), -1),
            final(r).queues_unchanged(old(r)),
            outcome is Ok ==> res is Pending && final(self).state_spec() is Sent
                && final(r).device_spec() == old(r).device_spec(),
            outcome matches Err(e) ==> {
                &&& res == SendPoll::Ready(Err(e))
                &&& final(self).state_spec() is Done
                &&& final(r).device_spec().free_spec() == old(r).device_spec().free_spec().push(
                    old(self).buffer_spec().unwrap(),
                )
            },
    {
        match outcome {
            Ok(()) => {
                self.state = SendState::Sent;
                SendPoll::Pending
            },
            Err(e) => {
                let b = self.buffer.take().unwrap();
                r.put_verbs_buffer(b);
                self.state = SendState::Done;
                SendPoll::Ready(Err(e))
            },
        }
    }
}

/// A connected queue pair.
pub struct Connection {
    qp: usize,
}

impl Connection {
    pub closed spec fn qp_spec(&self) -> usize {
        self.qp
    }

    /// Sends `buffer`.
    pub fn send(&self, buffer: Buffer) -> (r: Send)
        ensures
            r.wf(),
            r.state_spec() is Initial,
            r.buffer_spec() == Some(buffer),
            r.qp_spec() == self.qp_spec(),
    {
        Send { qp: self.qp, buffer: Some(buffer), state: SendState::Initial }
    }

    /// Receives the next buffer.
    pub fn recv(&self) -> (r: Recv)
        ensures
            r.qp_spec() == self.qp_spec(),
    {
        Recv { qp: self.qp }
    }
}

/// A queue pair in INIT, waiting for the peer's address.
pub struct ConnectionBuilder {
    qp: usize,
}

impl ConnectionBuilder {
    pub closed spec fn qp_spec(&self) -> usize {
        self.qp
    }

    /// Connects to the peer at `remote` through port `port`. The driver moves
    /// the queue pair to Ready-to-Receive and then to Ready-to-Send with the
    /// two attribute sets returned; a failure there aborts the connection.
    pub fn connect(self, r: &Reactor, remote: &VerbsAddr, port: u8) -> (res: Result<
        (Connection, QpAttr, QpAttr),
    >)
        ensures
            self.qp_spec() >= r.device_spec().qps_spec().len() ==> res == Err::<
                (Connection, QpAttr, QpAttr),
                Error,
            >(Error::Internal("unknown queue pair")),
            self.qp_spec() < r.device_spec().qps_spec().len() ==> (res matches Ok((c, rtr, rts))
                && c.qp_spec() == self.qp_spec() && rtr == (QpAttr {
                qp_state: crate::verbs_util::IBV_QPS_RTR,
                path_mtu: crate::verbs_util::IBV_MTU_1024,
                dest_qp_num: remote.qpn,
                rq_psn: remote.psn,
                max_dest_rd_atomic: 1,
                min_rnr_timer: 12,
                dlid: remote.lid,
                port_num: port,
                ..zero_attr()
            }) && rts == (QpAttr {
                qp_state: crate::verbs_util::IBV_QPS_RTS,
                timeout: 14,
                retry_cnt: 7,
                rnr_retry: 7,
                sq_psn: r.device_spec().qps_spec()[self.qp_spec() as int].psn_spec(),
                max_rd_atomic: 1,
                ..rtr
            })),
    {
        match r.local_address(self.qp) {
            None => Err(Error::Internal("unknown queue pair")),
            Some(local) => {
                let rtr = rtr_attr(remote, port);
                let rts = rts_attr(&rtr, local.psn);
                Ok((Connection { qp: self.qp }, rtr, rts))
            },
        }
    }

    /// The address that the peer must pass to its own `connect`.
    pub fn local_address(&self, r: &Reactor) -> (res: Option<VerbsAddr>)
        ensures
            res == r.local_address_spec(self.qp_spec()),
    {
        r.local_address(self.qp)
    }
}

/// Starts a connection on the queue pair numbered `qpn`, which the driver
/// created and moved to INIT, with the PSN drawn as the random value `x`.
pub fn connect_with(r: &mut Reactor, qpn: u32, x: u32) -> (b: ConnectionBuilder)
    requires
        old(r).wf(),
    ensures
        final(r).wf(),
        b.qp_spec() == old(r).device_spec().qps_spec().len(),
        final(r).device_spec().qps_spec().len() == old(r).device_spec().qps_spec().len() + 1,
        final(r).device_spec().qps_spec().last().qpn_spec() == qpn,
        final(r).device_spec().qps_spec().last().psn_spec() == x & 0xFF_FFFF,
        final(r).device_spec().qps_spec().last().received_spec().len() == 0,
        final(r).device_spec().qps_spec().last().waiting_spec() is None,
        final(r).others_unchanged(old(r), -1),
        final(r).queues_unchanged(old(r)),
{
    let qp = QueuePair::from_random(qpn, x);
    let i = r.add_qp(qp);
    ConnectionBuilder { qp: i }
}

/// Starts a connection on the queue pair numbered `qpn`, which the driver
/// created and moved to INIT: it gets a random 24-bit PSN.
pub fn connect(r: &mut Reactor, qpn: u32) -> (b: ConnectionBuilder)
    requires
        old(r).wf(),
    ensures
        final(r).wf(),
        b.qp_spec() == old(r).device_spec().qps_spec().len(),
        final(r).device_spec().qps_spec().len() == old(r).device_spec().qps_spec().len() + 1,
        final(r).device_spec().qps_spec().last().qpn_spec() == qpn,
        final(r).device_spec().qps_spec().last().psn_spec() < 0x100_0000,
        final(r).device_spec().qps_spec().last().received_spec().len() == 0,
        final(r).device_spec().qps_spec().last().waiting_spec() is None,
        final(r).others_unchanged(old(r), -1),
        final(r).queues_unchanged(old(r)),
{
    let x = crate::verbs_util::random_u32();
    assert(x & 0xFF_FFFF < 0x100_0000) by (bit_vector);
    connect_with(r, qpn, x)
}

/// Acquires a verbs buffer.
pub struct GetBuffer {}

impl GetBuffer {
    /// A free buffer, or `None` with `t` parked until one is free.
    pub fn poll(&self, r: &mut Reactor, t: Task) -> (res: Option<Buffer>)
        requires
            old(r).wf(),
            old(r).valid(t),
        ensures
            final(r).wf(),
            final(r).others_unchanged(old(r), -1),
            forall|p: Priority| #[trigger] final(r).ready_band(p) == old(r).ready_band(p),
            old(r).device_spec().free_spec().len() > 0 ==> {
                &&& res == Some(old(r).device_spec().free_spec().last())
                &&& final(r).device_spec().free_spec() == old(r).device_spec().free_spec().drop_last()
                &&& forall|p: Priority| #[trigger] final(r).waiters_band(p) == old(r).waiters_band(p)
            },
            old(r).device_spec().free_spec().len() == 0 ==> {
                &&& res is None
                &&& final(r).device_spec() == old(r).device_spec()
                &&& final(r).waiters_band(t.priority) == old(r).waiters_band(t.priority).push(t)
                &&& forall|p: Priority|
                    p != t.priority ==> #[trigger] final(r).waiters_band(p) == old(r).waiters_band(p)
            },
    {
        r.get_buffer(t)
    }
}

pub fn get_buffer() -> (r: GetBuffer) {
    GetBuffer {}
}

/// Returns a verbs buffer to the pool.
pub struct PutBuffer {
    buffer: Option<Buffer>,
}

impl PutBuffer {
    pub closed spec fn buffer_spec(&self) -> Option<Buffer> {
        self.buffer
    }

    pub fn poll(&mut self, r: &mut Reactor) -> (res: Result<()>)
        requires
            old(r).wf(),
        ensures
            final(r).wf(),
            final(r).others_unchanged(old(r), -1),
            final(r).queues_unchanged(old(r)),
            old(self).buffer_spec() matches Some(b) ==> res is Ok && final(r).device_spec().free_spec()
                == old(r).device_spec().free_spec().push(b),
            old(self).buffer_spec() is None ==> res == Err::<(), Error>(
                Error::Internal("Poll called on done future"),
            ),
            final(self).buffer_spec() is None,
    {
        match self.buffer.take() {
            Some(b) => {
                r.put_verbs_buffer(b);
                Ok(())
            },
            None => Err(Error::Internal("Poll called on done future")),
        }
    }
}

pub fn put_buffer(buffer: Buffer) -> (r: PutBuffer)
    ensures
        r.buffer_spec() == Some(buffer),
{
    PutBuffer { buffer: Some(buffer) }
}

} // verus!
