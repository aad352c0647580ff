use vstd::prelude::*;

use crate::codec::{from_le, le_bytes, lemma_from_le_of_le_bytes, pow256, push_le, read_le};
use crate::error::{Error, Result};
use crate::runtime::Task;

verus! {

/// The length of a verbs address on the wire.
pub const VERBS_ADDR_LEN: usize = 26;

/// The handshake payload that two peers exchange before they connect their
/// queue pairs.
#[derive(Clone, Copy, Debug, PartialEq, Eq, Structural)]
pub struct VerbsAddr {
    pub qpn: u32,
    pub psn: u32,
    pub gid: u128,
    pub lid: u16,
}

/// The wire form of `a`: `qpn`, `psn`, `gid` and `lid`, each little-endian,
/// packed without padding.
pub open spec fn wire(a: VerbsAddr) -> Seq<u8> {
    le_bytes(a.qpn as nat, 4) + le_bytes(a.psn as nat, 4) + le_bytes(a.gid as nat, 16) + le_bytes(
        a.lid as nat,
        2,
    )
}

/// The address that the 26 bytes `b` encode.
pub open spec fn parse_wire(b: Seq<u8>) -> VerbsAddr {
    VerbsAddr {
        qpn: from_le(b.subrange(0, 4)) as u32,
        psn: from_le(b.subrange(4, 8)) as u32,
        gid: from_le(b.subrange(8, 24)) as u128,
        lid: from_le(b.subrange(24, 26)) as u16,
    }
}

impl VerbsAddr {
    /// Encodes the address for the handshake.
    pub fn to_bytes(&self) -> (r: Vec<u8>)
        ensures
            r@ == wire(*self),
            r@.len() == VERBS_ADDR_LEN,
    {
        let mut out: Vec<u8> = Vec::new();
        push_le(&mut out, self.qpn as u128, 4);
        push_le(&mut out, self.psn as u128, 4);
        push_le(&mut out, self.gid, 16);
        push_le(&mut out, self.lid as u128, 2);
        proof {
            lemma_wire_round_trip(*self);
            assert(out@ =~= wire(*self));
        }
        out
    }

    /// Decodes a handshake payload; `None` unless it is exactly 26 bytes long.
    pub fn from_bytes(b: &[u8]) -> (r: Option<VerbsAddr>)
        ensures
            b@.len() != VERBS_ADDR_LEN ==> r is None,
            b@.len() == VERBS_ADDR_LEN ==> r == Some(parse_wire(b@)),
    {
        if b.len() != VERBS_ADDR_LEN {
            return None;
        }
        let qpn = read_le(b, 0, 4);
        let psn = read_le(b, 4, 4);
        let gid = read_le(b, 8, 16);
        let lid = read_le(b, 24, 2);
        proof {
            crate::codec::lemma_from_le_bound(b@.subrange(0, 4));
            crate::codec::lemma_from_le_bound(b@.subrange(4, 8));
            crate::codec::lemma_from_le_bound(b@.subrange(24, 26));
            reveal_with_fuel(pow256, 5);
        }
        Some(VerbsAddr { qpn: qpn as u32, psn: psn as u32, gid, lid: lid as u16 })
    }
}

/// Decoding the wire form of an address gives the address back.
pub proof fn lemma_wire_round_trip(a: VerbsAddr)
    ensures
        wire(a).len() == VERBS_ADDR_LEN,
        parse_wire(wire(a)) == a,
{
    reveal_with_fuel(pow256, 17);
    assert(pow256(16) == 0x1_00000000_00000000_00000000_00000000nat);
    lemma_from_le_of_le_bytes(a.qpn as nat, 4);
    lemma_from_le_of_le_bytes(a.psn as nat, 4);
    lemma_from_le_of_le_bytes(a.gid as nat, 16);
    lemma_from_le_of_le_bytes(a.lid as nat, 2);
    let w = wire(a);
    assert(w.subrange(0, 4) =~= le_bytes(a.qpn as nat, 4));
    assert(w.subrange(4, 8) =~= le_bytes(a.psn as nat, 4));
    assert(w.subrange(8, 24) =~= le_bytes(a.gid as nat, 16));
    assert(w.subrange(24, 26) =~= le_bytes(a.lid as nat, 2));
}


/// The number of receive slots of a device; its pool holds twice as many
/// buffers.
pub const RX_DEPTH: usize = 30;

/// A registered buffer of the pool: its index, its capacity and how many of
/// its bytes are in use. The memory it names is held by the driver.
#[derive(Debug)]
pub struct Buffer {
    id: usize,
    capacity: usize,
    used: usize,
}

impl Buffer {
    pub closed spec fn id_spec(&self) -> usize {
        self.id
    }

    pub closed spec fn capacity_spec(&self) -> usize {
        self.capacity
    }

    pub closed spec fn used_spec(&self) -> usize {
        self.used
    }

    pub fn id(&self) -> (r: usize)
        ensures
            r == self.id_spec(),
    {
        self.id
    }

    pub fn capacity(&self) -> (r: usize)
        ensures
            r == self.capacity_spec(),
    {
        self.capacity
    }

    pub fn used(&self) -> (r: usize)
        ensures
            r == self.used_spec(),
    {
        self.used
    }

    /// Marks the first `n` bytes as in use; refused beyond the capacity.
    pub fn set_used(&mut self, n: usize) -> (r: bool)
        ensures
            r == (n <= old(self).capacity_spec()),
            final(self).id_spec() == old(self).id_spec(),
            final(self).capacity_spec() == old(self).capacity_spec(),
            final(self).used_spec() == (if r { n } else { old(self).used_spec() }),
    {
        if n <= self.capacity {
            self.used = n;
            true
        } else {
            false
        }
    }
}

/// Relies on rand::random::<u32>: some 32-bit value, nothing more is known.
#[verifier::external_body]
pub(crate) fn random_u32() -> (r: u32) {
    rand::random::<u32>()
}

/// The 24-bit initial packet sequence number drawn as the random value `x`:
/// its low 24 bits.
pub fn psn_from(x: u32) -> (r: u32)
    ensures
        r == x & 0xFF_FFFF,
        r < 0x100_0000,
{
    assert(x & 0xFF_FFFF < 0x100_0000) by (bit_vector);
    x & 0xFF_FFFF
}

/// A fresh 24-bit initial packet sequence number, drawn at random.
pub fn generate_psn() -> (r: u32)
    ensures
        r < 0x100_0000,
{
    psn_from(random_u32())
}

/// One end of a reliable connection: its number, its initial packet sequence
/// number, the buffers received for it, and the computation waiting for one.
pub struct QueuePair {
    qpn: u32,
    psn: u32,
    received: std::collections::VecDeque<Buffer>,
    waiting: Option<Task>,
}

impl QueuePair {
    pub closed spec fn qpn_spec(&self) -> u32 {
        self.qpn
    }

    pub closed spec fn psn_spec(&self) -> u32 {
        self.psn
    }

    /// The buffers received and not yet read, oldest first.
    pub closed spec fn received_spec(&self) -> Seq<Buffer> {
        self.received@
    }

    pub closed spec fn waiting_spec(&self) -> Option<Task> {
        self.waiting
    }

    /// A queue pair for the queue pair number `qpn` whose PSN is drawn as the
    /// random value `x`.
    pub fn from_random(qpn: u32, x: u32) -> (r: QueuePair)
        ensures
            r.qpn_spec() == qpn,
            r.psn_spec() == x & 0xFF_FFFF,
            r.received_spec().len() == 0,
            r.waiting_spec() is None,
    {
        QueuePair {
            qpn,
            psn: psn_from(x),
            received: std::collections::VecDeque::new(),
            waiting: None,
        }
    }

    /// A queue pair for the queue pair number `qpn` with a random 24-bit PSN.
    pub fn new(qpn: u32) -> (r: QueuePair)
        ensures
            r.qpn_spec() == qpn,
            r.psn_spec() < 0x100_0000,
            r.received_spec().len() == 0,
            r.waiting_spec() is None,
    {
        let x = random_u32();
        assert(x & 0xFF_FFFF < 0x100_0000) by (bit_vector);
        QueuePair::from_random(qpn, x)
    }

    pub fn qpn(&self) -> (r: u32)
        ensures
            r == self.qpn_spec(),
    {
        self.qpn
    }

    pub fn psn(&self) -> (r: u32)
        ensures
            r == self.psn_spec(),
    {
        self.psn
    }

    /// The address that the peer needs to connect to this queue pair.
    pub fn local_address(&self, device: &Device) -> (r: VerbsAddr)
        ensures
            r == (VerbsAddr { qpn: self.qpn_spec(), psn: self.psn_spec(), gid: 0, lid: device.lid_spec() }),
    {
        VerbsAddr { qpn: self.qpn, psn: self.psn, lid: device.lid, gid: 0 }
    }

    /// Takes the oldest received buffer.
    pub fn read(&mut self) -> (r: Option<Buffer>)
        ensures
            old(self).received_spec().len() == 0 ==> r is None,
            old(self).received_spec().len() > 0 ==> r == Some(old(self).received_spec()[0]),
            final(self).received_spec() == (if old(self).received_spec().len() == 0 {
                old(self).received_spec()
            } else {
                old(self).received_spec().drop_first()
            }),
            final(self).qpn_spec() == old(self).qpn_spec(),
            final(self).psn_spec() == old(self).psn_spec(),
            final(self).waiting_spec() == old(self).waiting_spec(),
    {
        self.received.pop_front()
    }

    /// Registers `task` as the reader waiting for the next buffer; only one
    /// reader may wait at a time.
    pub fn wait(&mut self, task: Task) -> (r: Result<()>)
        ensures
            old(self).waiting_spec() is Some ==> r == Err::<(), Error>(
                Error::Internal("two concurrent reads are not supported"),
            ) && final(self).waiting_spec() == old(self).waiting_spec(),
            old(self).waiting_spec() is None ==> r is Ok && final(self).waiting_spec() == Some(
                task,
            ),
            final(self).received_spec() == old(self).received_spec(),
            final(self).qpn_spec() == old(self).qpn_spec(),
            final(self).psn_spec() == old(self).psn_spec(),
    {
        if self.waiting.is_some() {
            return Err(Error::Internal("two concurrent reads are not supported"));
        }
        self.waiting = Some(task);
        Ok(())
    }

    /// Queues a received buffer and hands back the reader to wake, if any.
    pub fn deliver(&mut self, b: Buffer) -> (r: Option<Task>)
        ensures
            final(self).received_spec() == old(self).received_spec().push(b),
            r == old(self).waiting_spec(),
            final(self).waiting_spec() is None,
            final(self).qpn_spec() == old(self).qpn_spec(),
            final(self).psn_spec() == old(self).psn_spec(),
    {
        self.received.push_back(b);
        let w = self.waiting;
        self.waiting = None;
        w
    }
}

/// Queue pair type: reliable connection.
pub const IBV_QPT_RC: u32 = 2;

/// The attributes that create a queue pair. The completion queue and the
/// shared receive queue are the driver's handles; the flags say that the
/// engine's own are used.
#[derive(Clone, Copy, Debug, PartialEq, Eq, Structural)]
pub struct QpCreateAttr {
    pub qp_type: u32,
    pub send_cq_is_engine_cq: bool,
    pub recv_cq_is_engine_cq: bool,
    pub srq_is_engine_srq: bool,
    pub max_send_wr: u32,
    pub max_recv_wr: u32,
    pub max_send_sge: u32,
    pub max_recv_sge: u32,
}

/// A receive work request to post on the shared receive queue: the slot that
/// its completion names, and the buffer that receives.
#[derive(Clone, Copy, Debug, PartialEq, Eq, Structural)]
pub struct RecvPost {
    pub slot: usize,
    pub buffer_id: usize,
    pub capacity: usize,
}

/// The verbs engine: its receive slots, its pool of free buffers and its
/// queue pairs. The device handles themselves are held by the driver.
pub struct Device {
    size: usize,
    lid: u16,
    notify_enabled: bool,
    read_slot: Vec<Option<Buffer>>,
    empty_read_slots: Vec<usize>,
    free_buffers: Vec<Buffer>,
    qps: Vec<QueuePair>,
}

impl Device {
    pub closed spec fn lid_spec(&self) -> u16 {
        self.lid
    }

    pub closed spec fn size_spec(&self) -> usize {
        self.size
    }

    pub closed spec fn notify_spec(&self) -> bool {
        self.notify_enabled
    }

    /// The free buffers; the last one is handed out first.
    pub closed spec fn free_spec(&self) -> Seq<Buffer> {
        self.free_buffers@
    }

    /// The indices of the empty receive slots; the last one is filled first.
    pub closed spec fn empty_slots_spec(&self) -> Seq<usize> {
        self.empty_read_slots@
    }

    /// What receive slot `i` holds.
    pub closed spec fn slot_spec(&self, i: int) -> Option<Buffer> {
        self.read_slot@[i]
    }

    pub closed spec fn qps_spec(&self) -> Seq<QueuePair> {
        self.qps@
    }

    /// The slots are `RX_DEPTH` long, and a slot is listed as empty, once,
    /// exactly when it holds no buffer.
    pub closed spec fn wf(&self) -> bool {
        &&& self.read_slot@.len() == RX_DEPTH
        &&& forall|i: int|
            0 <= i < self.empty_read_slots@.len() ==> #[trigger] self.empty_read_slots@[i]
                < RX_DEPTH && self.read_slot@[self.empty_read_slots@[i] as int] is None
        &&& forall|i: int, j: int|
            0 <= i < j < self.empty_read_slots@.len() ==> #[trigger] self.empty_read_slots@[i]
                != #[trigger] self.empty_read_slots@[j]
        &&& forall|k: int|
            0 <= k < RX_DEPTH && #[trigger] self.read_slot@[k] is None
                ==> self.empty_read_slots@.contains(k as usize)
    }

    /// A device whose port has the local identifier `lid`, with `2 * RX_DEPTH`
    /// free buffers of `size` bytes and all receive slots empty. A port that
    /// is not Ethernet needs a non-zero `lid`.
    pub fn new(size: u32, lid: u16, ethernet: bool) -> (r: Result<Device>)
        ensures
            !ethernet && lid == 0 ==> r == Err::<Device, Error>(
                Error::Internal("Could not get local LID"),
            ),
            ethernet || lid != 0 ==> (r matches Ok(d) && {
                &&& d.wf()
                &&& d.lid_spec() == lid
                &&& d.size_spec() == size
                &&& !d.notify_spec()
                &&& d.qps_spec().len() == 0
                &&& d.empty_slots_spec() == Seq::new(RX_DEPTH as nat, |i: int| i as usize)
                &&& forall|i: int| 0 <= i < RX_DEPTH ==> #[trigger] d.slot_spec(i) is None
                &&& d.free_spec().len() == 2 * RX_DEPTH
                &&& forall|i: int|
                    0 <= i < 2 * RX_DEPTH ==> (#[trigger] d.free_spec()[i]).id_spec() == i
                        && d.free_spec()[i].capacity_spec() == size && d.free_spec()[i].used_spec()
                        == 0
            }),
    {
        if !ethernet && lid == 0 {
            return Err(Error::Internal("Could not get local LID"));
        }
        let mut read_slot: Vec<Option<Buffer>> = Vec::new();
        let mut empty_read_slots: Vec<usize> = Vec::new();
        let mut n: usize = 0;
        while n < RX_DEPTH
            invariant
                n <= RX_DEPTH,
                read_slot@.len() == n,
                empty_read_slots@ == Seq::new(n as nat, |i: int| i as usize),
                forall|k: int| 0 <= k < n ==> #[trigger] read_slot@[k] is None,
            decreases RX_DEPTH - n,
        {
            read_slot.push(None);
            empty_read_slots.push(n);
            n = n + 1;
            assert(empty_read_slots@ =~= Seq::new(n as nat, |i: int| i as usize));
        }
        let mut free_buffers: Vec<Buffer> = Vec::new();
        let mut b: usize = 0;
        while b < 2 * RX_DEPTH
            invariant
                b <= 2 * RX_DEPTH,
                free_buffers@.len() == b,
                forall|i: int|
                    0 <= i < b ==> (#[trigger] free_buffers@[i]).id == i && free_buffers@[i].capacity
                        == size && free_buffers@[i].used == 0,
            decreases 2 * RX_DEPTH - b,
        {
            free_buffers.push(Buffer { id: b, capacity: size as usize, used: 0 });
            b = b + 1;
        }
        let d = Device {
            size: size as usize,
            lid,
            notify_enabled: false,
            read_slot,
            empty_read_slots,
            free_buffers,
            qps: Vec::new(),
        };
        assert forall|k: int|
            0 <= k < RX_DEPTH && #[trigger] d.read_slot@[k] is None
                implies d.empty_read_slots@.contains(k as usize) by {
            assert(d.empty_read_slots@[k] == k as usize);
        }
        Ok(d)
    }

    pub fn lid(&self) -> (r: u16)
        ensures
            r == self.lid_spec(),
    {
        self.lid
    }

    /// The size of the completion queue: one more than the receive slots.
    pub fn cq_size(&self) -> (r: usize)
        ensures
            r == RX_DEPTH + 1,
    {
        RX_DEPTH + 1
    }

    /// What creating a queue pair on this engine is handed: a reliable
    /// connection whose send and receive completions go to the engine's
    /// completion queue, which receives through the engine's shared receive
    /// queue, with room for one send request and `RX_DEPTH` receive requests
    /// of one scatter/gather element each.
    pub fn qp_create_attr(&self) -> (r: QpCreateAttr)
        ensures
            r == (QpCreateAttr {
                qp_type: IBV_QPT_RC,
                send_cq_is_engine_cq: true,
                recv_cq_is_engine_cq: true,
                srq_is_engine_srq: true,
                max_send_wr: 1,
                max_recv_wr: RX_DEPTH as u32,
                max_send_sge: 1,
                max_recv_sge: 1,
            }),
    {
        QpCreateAttr {
            qp_type: IBV_QPT_RC,
            send_cq_is_engine_cq: true,
            recv_cq_is_engine_cq: true,
            srq_is_engine_srq: true,
            max_send_wr: 1,
            max_recv_wr: RX_DEPTH as u32,
            max_send_sge: 1,
            max_recv_sge: 1,
        }
    }

    /// The shared receive queue's limits: `RX_DEPTH` work requests of one
    /// scatter/gather element each.
    pub fn srq_limits(&self) -> (r: (usize, usize))
        ensures
            r == (RX_DEPTH, 1usize),
    {
        (RX_DEPTH, 1)
    }

    pub fn has_free_buffer(&self) -> (r: bool)
        ensures
            r == (self.free_spec().len() > 0),
    {
        self.free_buffers.len() > 0
    }

    /// Takes a free buffer, the one released last.
    pub fn get_buffer(&mut self) -> (r: Option<Buffer>)
        requires
            old(self).wf(),
        ensures
            final(self).wf(),
            old(self).free_spec().len() == 0 ==> r is None && final(self).free_spec() == old(self).free_spec(),
            old(self).free_spec().len() > 0 ==> r == Some(old(self).free_spec().last())
                && final(self).free_spec() == old(self).free_spec().drop_last(),
            final(self).empty_slots_spec() == old(self).empty_slots_spec(),
            final(self).qps_spec() == old(self).qps_spec(),
            final(self).lid_spec() == old(self).lid_spec(),
            final(self).notify_spec() == old(self).notify_spec(),
    {
        self.free_buffers.pop()
    }

    /// Returns a buffer to the pool.
    pub fn put_buffer(&mut self, b: Buffer)
        requires
            old(self).wf(),
        ensures
            final(self).wf(),
            final(self).free_spec() == old(self).free_spec().push(b),
            final(self).empty_slots_spec() == old(self).empty_slots_spec(),
            final(self).qps_spec() == old(self).qps_spec(),
            final(self).lid_spec() == old(self).lid_spec(),
            final(self).notify_spec() == old(self).notify_spec(),
    {
        self.free_buffers.push(b);
    }

    /// What filling the receive slots does: `d2` is the engine after it and
    /// `r` the requests made. As many requests as there were both empty slots
    /// and free buffers; each pairs the last empty slot with the last free
    /// buffer, which that slot then holds.
    pub open spec fn posts_spec(&self, d2: &Device, r: Seq<RecvPost>) -> bool {
        let ne = self.empty_slots_spec().len();
        let nf = self.free_spec().len();
        let k = if ne < nf { ne } else { nf };
        &&& r.len() == k
        &&& d2.empty_slots_spec() == self.empty_slots_spec().subrange(0, ne - k)
        &&& d2.free_spec() == self.free_spec().subrange(0, nf - k)
        &&& forall|i: int|
            0 <= i < k ==> {
                let b = self.free_spec()[nf - 1 - i];
                &&& (#[trigger] r[i]).slot == self.empty_slots_spec()[ne - 1 - i]
                &&& r[i].buffer_id == b.id_spec()
                &&& r[i].capacity == b.capacity_spec()
                &&& d2.slot_spec(r[i].slot as int) == Some(b)
            }
        &&& forall|j: int|
            0 <= j < RX_DEPTH && (forall|i: int| 0 <= i < k ==> (#[trigger] r[i]).slot != j)
                ==> #[trigger] d2.slot_spec(j) == self.slot_spec(j)
        &&& d2.qps_spec() == self.qps_spec()
        &&& d2.lid_spec() == self.lid_spec()
        &&& d2.notify_spec() == self.notify_spec()
    }

    /// Fills empty receive slots with free buffers while both last, and
    /// returns the receive requests to post, in the order they were made.
    pub fn post_receives(&mut self) -> (r: Vec<RecvPost>)
        requires
            old(self).wf(),
        ensures
            final(self).wf(),
            old(self).posts_spec(final(self), r@),
    {
        let mut posts: Vec<RecvPost> = Vec::new();
        let ghost ne = self.empty_read_slots@.len();
        let ghost nf = self.free_buffers@.len();
        let ghost e0 = self.empty_read_slots@;
        let ghost f0 = self.free_buffers@;
        while self.empty_read_slots.len() > 0 && self.free_buffers.len() > 0
            invariant
                self.wf(),
                posts@.len() <= ne,
                posts@.len() <= nf,
                self.empty_read_slots@ == e0.subrange(0, ne - posts@.len()),
                self.free_buffers@ == f0.subrange(0, nf - posts@.len()),
                self.qps@ == old(self).qps@,
                self.lid == old(self).lid,
                self.notify_enabled == old(self).notify_enabled,
                ne == e0.len(),
                nf == f0.len(),
                e0 == old(self).empty_read_slots@,
                f0 == old(self).free_buffers@,
                forall|i: int|
                    0 <= i < posts@.len() ==> {
                        let b = f0[nf - 1 - i];
                        &&& (#[trigger] posts@[i]).slot == e0[ne - 1 - i]
                        &&& posts@[i].slot < RX_DEPTH
                        &&& posts@[i].buffer_id == b.id
                        &&& posts@[i].capacity == b.capacity
                        &&& self.read_slot@[posts@[i].slot as int] == Some(b)
                    },
                forall|i: int, j: int|
                    0 <= i < posts@.len() && 0 <= j < self.empty_read_slots@.len()
                        ==> #[trigger] posts@[i].slot != #[trigger] self.empty_read_slots@[j],
                self.read_slot@.len() == RX_DEPTH,
                forall|j: int|
                    0 <= j < RX_DEPTH && (forall|i: int| 0 <= i < posts@.len() ==> (#[trigger] posts@[i]).slot != j)
                        ==> #[trigger] self.read_slot@[j] == old(self).read_slot@[j],
            decreases self.empty_read_slots@.len(),
        {
            let ghost before = self.read_slot@;
            let ghost empties = self.empty_read_slots@;
            let ghost frees = self.free_buffers@;
            let ghost old_posts = posts@;
            let slot = self.empty_read_slots.pop().unwrap();
            let buf = self.free_buffers.pop().unwrap();
            let post = RecvPost { slot, buffer_id: buf.id, capacity: buf.capacity };
            self.read_slot.set(slot, Some(buf));
            posts.push(post);
            proof {
                let n = empties.len() - 1;
                assert(empties[n] == slot);
                assert forall|i: int|
                    0 <= i < self.empty_read_slots@.len() implies #[trigger] self.empty_read_slots@[i]
                        < RX_DEPTH && self.read_slot@[self.empty_read_slots@[i] as int] is None by {
                    assert(self.empty_read_slots@[i] == empties[i]);
                    assert(empties[i] != empties[n]);
                }
                assert forall|k: int|
                    0 <= k < RX_DEPTH && #[trigger] self.read_slot@[k] is None
                        implies self.empty_read_slots@.contains(k as usize) by {
                    assert(k != slot);
                    assert(before[k] is None);
                    let j = choose|j: int| 0 <= j < empties.len() && empties[j] == k as usize;
                    assert(j != n);
                    assert(self.empty_read_slots@[j] == k as usize);
                }
                assert forall|j: int|
                    0 <= j < RX_DEPTH && (forall|i: int| 0 <= i < posts@.len() ==> (#[trigger] posts@[i]).slot != j)
                        implies #[trigger] self.read_slot@[j] == old(self).read_slot@[j] by {
                    assert(posts@[posts@.len() - 1].slot != j);
                    assert forall|i: int| 0 <= i < old_posts.len() implies (#[trigger] old_posts[i]).slot != j by {
                        assert(posts@[i] == old_posts[i]);
                    }
                    assert(self.read_slot@[j] == before[j]);
                }
                assert forall|i: int, j: int|
                    0 <= i < posts@.len() && 0 <= j < self.empty_read_slots@.len()
                        implies #[trigger] posts@[i].slot != #[trigger] self.empty_read_slots@[j] by {
                    assert(self.empty_read_slots@[j] == empties[j]);
                    if i < posts@.len() - 1 {
                        assert(posts@[i] == old_posts[i]);
                        assert(old_posts[i].slot != empties[j]);
                    } else {
                        assert(empties[j] != empties[n]);
                    }
                }
                assert forall|i: int|
                    0 <= i < posts@.len() implies {
                        let b = f0[nf - 1 - i];
                        &&& (#[trigger] posts@[i]).slot == e0[ne - 1 - i]
                        &&& posts@[i].slot < RX_DEPTH
                        &&& posts@[i].buffer_id == b.id
                        &&& posts@[i].capacity == b.capacity
                        &&& self.read_slot@[posts@[i].slot as int] == Some(b)
                    } by {
                    if i < posts@.len() - 1 {
                        assert(posts@[i] == old_posts[i]);
                        assert(posts@[i].slot != slot);
                        assert(before[old_posts[i].slot as int] == Some(f0[nf - 1 - i]));
                        assert(self.read_slot@[posts@[i].slot as int] == before[posts@[i].slot as int]);
                    } else {
                        assert(e0[ne - 1 - i] == empties[empties.len() - 1]);
                        assert(f0[nf - 1 - i] == frees[frees.len() - 1]);
                        assert(slot < RX_DEPTH);
                        assert(self.read_slot@ == before.update(slot as int, Some(buf)));
                        assert(self.read_slot@[slot as int] == Some(frees[frees.len() - 1]));
                    }
                }
            }
        }
        posts
    }

    /// Whether completion notification must be requested now: only on the
    /// first call.
    pub fn arm_notification(&mut self) -> (r: bool)
        requires
            old(self).wf(),
        ensures
            final(self).wf(),
            r == !old(self).notify_spec(),
            final(self).notify_spec(),
            final(self).free_spec() == old(self).free_spec(),
            final(self).empty_slots_spec() == old(self).empty_slots_spec(),
            final(self).qps_spec() == old(self).qps_spec(),
            final(self).lid_spec() == old(self).lid_spec(),
    {
        let r = !self.notify_enabled;
        self.notify_enabled = true;
        r
    }

    /// Adds a queue pair and returns its index.
    pub fn add_qp(&mut self, qp: QueuePair) -> (r: usize)
        requires
            old(self).wf(),
        ensures
            final(self).wf(),
            r == old(self).qps_spec().len(),
            final(self).qps_spec() == old(self).qps_spec().push(qp),
            final(self).free_spec() == old(self).free_spec(),
            final(self).empty_slots_spec() == old(self).empty_slots_spec(),
            final(self).lid_spec() == old(self).lid_spec(),
            final(self).notify_spec() == old(self).notify_spec(),
    {
        let r = self.qps.len();
        self.qps.push(qp);
        r
    }

    /// The index of the first queue pair numbered `qpn`.
    pub fn find_qp(&self, qpn: u32) -> (r: Option<usize>)
        ensures
            r matches Some(i) ==> i < self.qps_spec().len() && self.qps_spec()[i as int].qpn_spec()
                == qpn && forall|j: int| 0 <= j < i ==> self.qps_spec()[j].qpn_spec() != qpn,
            r is None ==> forall|j: int|
                0 <= j < self.qps_spec().len() ==> self.qps_spec()[j].qpn_spec() != qpn,
    {
        let mut i: usize = 0;
        while i < self.qps.len()
            invariant
                i <= self.qps@.len(),
                forall|j: int| 0 <= j < i ==> self.qps@[j].qpn != qpn,
            decreases self.qps@.len() - i,
        {
            if self.qps[i].qpn == qpn {
                return Some(i);
            }
            i = i + 1;
        }
        None
    }

    /// Whether `i` is the first queue pair numbered `qpn`.
    pub open spec fn is_first_qp(&self, i: int, qpn: u32) -> bool {
        &&& 0 <= i < self.qps_spec().len()
        &&& self.qps_spec()[i].qpn_spec() == qpn
        &&& forall|j: int| 0 <= j < i ==> self.qps_spec()[j].qpn_spec() != qpn
    }

    /// What a receive completion for slot `wr_id`, bringing `byte_len` bytes
    /// for the queue pair numbered `qpn`, does: `d2` is the engine after it and
    /// `r` what it returns.
    pub open spec fn recv_spec(
        &self,
        d2: &Device,
        wr_id: u64,
        qpn: u32,
        byte_len: u32,
        r: Result<Option<Task>>,
    ) -> bool {
        &&& d2.lid_spec() == self.lid_spec()
        &&& d2.notify_spec() == self.notify_spec()
        &&& wr_id >= RX_DEPTH || self.slot_spec(wr_id as int) is None ==> {
            &&& r == Err::<Option<Task>, Error>(Error::Internal("receive completion for an empty slot"))
            &&& d2.free_spec() == self.free_spec()
            &&& d2.empty_slots_spec() == self.empty_slots_spec()
            &&& d2.qps_spec() == self.qps_spec()
        }
        &&& wr_id < RX_DEPTH && self.slot_spec(wr_id as int) is Some ==> {
            let b = self.slot_spec(wr_id as int).unwrap();
            &&& d2.slot_spec(wr_id as int) is None
            &&& d2.empty_slots_spec() == self.empty_slots_spec().push(
                wr_id as usize,
            )
            &&& byte_len > b.capacity_spec() ==> {
                &&& r == Err::<Option<Task>, Error>(Error::Internal("received more than a buffer holds"))
                &&& d2.free_spec() == self.free_spec().push(b)
                &&& d2.qps_spec() == self.qps_spec()
            }
            &&& byte_len <= b.capacity_spec() && (forall|j: int|
                0 <= j < self.qps_spec().len() ==> self.qps_spec()[j].qpn_spec()
                    != qpn) ==> {
                &&& r == Ok::<Option<Task>, Error>(None)
                &&& d2.free_spec() == self.free_spec().push(b)
                &&& d2.qps_spec() == self.qps_spec()
            }
            &&& forall|i: int|
                byte_len <= b.capacity_spec() && #[trigger] self.is_first_qp(i, qpn) ==> {
                    let q = self.qps_spec()[i];
                    let q2 = d2.qps_spec()[i];
                    let n = q.received_spec().len();
                    &&& r == Ok::<Option<Task>, Error>(q.waiting_spec())
                    &&& d2.free_spec() == self.free_spec()
                    &&& d2.qps_spec().len() == self.qps_spec().len()
                    &&& forall|j: int|
                        0 <= j < self.qps_spec().len() && j != i ==> d2.qps_spec()[j]
                            == self.qps_spec()[j]
                    &&& q2.qpn_spec() == q.qpn_spec()
                    &&& q2.psn_spec() == q.psn_spec()
                    &&& q2.waiting_spec() is None
                    &&& q2.received_spec().len() == n + 1
                    &&& q2.received_spec().subrange(0, n as int) == q.received_spec()
                    &&& q2.received_spec()[n as int].id_spec() == b.id_spec()
                    &&& q2.received_spec()[n as int].capacity_spec() == b.capacity_spec()
                    &&& q2.received_spec()[n as int].used_spec() == byte_len
                }
        }
    }

    /// Handles the completion of the receive posted for slot `wr_id`, which
    /// brought `byte_len` bytes for the queue pair numbered `qpn`: the slot is
    /// emptied, and its buffer goes to that queue pair's received queue (or
    /// back to the pool when no queue pair has that number). Returns the
    /// reader to wake.
    pub fn on_recv(&mut self, wr_id: u64, qpn: u32, byte_len: u32) -> (r: Result<Option<Task>>)
        requires
            old(self).wf(),
        ensures
            final(self).wf(),
            old(self).recv_spec(final(self), wr_id, qpn, byte_len, r),
    {
        if wr_id >= RX_DEPTH as u64 {
            return Err(Error::Internal("receive completion for an empty slot"));
        }
        let slot = wr_id as usize;
        if self.read_slot[slot].is_none() {
            return Err(Error::Internal("receive completion for an empty slot"));
        }
        let ghost before = self.read_slot@;
        let taken = self.read_slot.remove(slot);
        self.read_slot.insert(slot, None);
        let ghost empties = self.empty_read_slots@;
        self.empty_read_slots.push(slot);
        proof {
            assert(self.read_slot@ =~= before.update(slot as int, None));
            assert forall|i: int|
                0 <= i < self.empty_read_slots@.len() implies #[trigger] self.empty_read_slots@[i]
                    < RX_DEPTH && self.read_slot@[self.empty_read_slots@[i] as int] is None by {
                if i < empties.len() {
                    assert(self.empty_read_slots@[i] == empties[i]);
                }
            }
            assert forall|i: int, j: int|
                0 <= i < j < self.empty_read_slots@.len() implies #[trigger] self.empty_read_slots@[i]
                    != #[trigger] self.empty_read_slots@[j] by {
                if j < empties.len() {
                    assert(self.empty_read_slots@[j] == empties[j]);
                }
                assert(self.empty_read_slots@[i] == empties[i]);
                if j == empties.len() {
                    // the slot was occupied, so it was not listed as empty
                    assert(before[empties[i] as int] is None);
                }
            }
            assert forall|k: int|
                0 <= k < RX_DEPTH && #[trigger] self.read_slot@[k] is None
                    implies self.empty_read_slots@.contains(k as usize) by {
                if k == slot {
                    assert(self.empty_read_slots@[empties.len() as int] == slot);
                } else {
                    assert(before[k] is None);
                    let j = choose|j: int| 0 <= j < empties.len() && empties[j] == k as usize;
                    assert(self.empty_read_slots@[j] == k as usize);
                }
            }
        }
        let mut b = taken.unwrap();
        if byte_len as usize > b.capacity {
            self.free_buffers.push(b);
            return Err(Error::Internal("received more than a buffer holds"));
        }
        match self.find_qp(qpn) {
            None => {
                assert forall|i2: int| !#[trigger] old(self).is_first_qp(i2, qpn) by {
                    if 0 <= i2 < self.qps@.len() {
                        assert(self.qps_spec()[i2] == old(self).qps_spec()[i2]);
                    }
                }
                self.free_buffers.push(b);
                Ok(None)
            },
            Some(i) => {
                assert(old(self).qps_spec()[i as int].qpn_spec() == qpn);
                let ghost qs = self.qps@;
                let mut q = self.qps.remove(i);
                b.used = byte_len as usize;
                let w = q.deliver(b);
                self.qps.insert(i, q);
                proof {
                    assert forall|j: int|
                        0 <= j < qs.len() && j != i implies self.qps@[j] == qs[j] by {}
                    assert forall|i2: int| #[trigger] old(self).is_first_qp(i2, qpn) implies i2
                        == i by {
                        if i2 > i {
                            assert(old(self).qps_spec()[i as int].qpn_spec() == qpn);
                        }
                    }
                    let n = qs[i as int].received@.len();
                    assert(self.qps@[i as int].received@.subrange(0, n as int) =~= qs[i as int].received@);
                }
                Ok(w)
            },
        }
    }
}

/// Queue pair state: initialised.
pub const IBV_QPS_INIT: u32 = 1;

/// Queue pair state: ready to receive.
pub const IBV_QPS_RTR: u32 = 2;

/// Queue pair state: ready to send.
pub const IBV_QPS_RTS: u32 = 3;

/// The path MTU code for 1024 bytes.
pub const IBV_MTU_1024: u32 = 3;

/// The attributes of one queue pair state transition. Fields that a
/// transition does not set are zero.
#[derive(Clone, Copy, Debug, PartialEq, Eq, Structural)]
pub struct QpAttr {
    pub qp_state: u32,
    pub pkey_index: u16,
    pub port_num: u8,
    pub qp_access_flags: u32,
    pub path_mtu: u32,
    pub dest_qp_num: u32,
    pub rq_psn: u32,
    pub max_dest_rd_atomic: u8,
    pub min_rnr_timer: u8,
    pub is_global: u8,
    pub dlid: u16,
    pub sl: u8,
    pub src_path_bits: u8,
    pub timeout: u8,
    pub retry_cnt: u8,
    pub rnr_retry: u8,
    pub sq_psn: u32,
    pub max_rd_atomic: u8,
}

/// All fields zero.
pub open spec fn zero_attr() -> QpAttr {
    QpAttr {
        qp_state: 0,
        pkey_index: 0,
        port_num: 0,
        qp_access_flags: 0,
        path_mtu: 0,
        dest_qp_num: 0,
        rq_psn: 0,
        max_dest_rd_atomic: 0,
        min_rnr_timer: 0,
        is_global: 0,
        dlid: 0,
        sl: 0,
        src_path_bits: 0,
        timeout: 0,
        retry_cnt: 0,
        rnr_retry: 0,
        sq_psn: 0,
        max_rd_atomic: 0,
    }
}

fn zeroed_attr() -> (r: QpAttr)
    ensures
        r == zero_attr(),
{
    QpAttr {
        qp_state: 0,
        pkey_index: 0,
        port_num: 0,
        qp_access_flags: 0,
        path_mtu: 0,
        dest_qp_num: 0,
        rq_psn: 0,
        max_dest_rd_atomic: 0,
        min_rnr_timer: 0,
        is_global: 0,
        dlid: 0,
        sl: 0,
        src_path_bits: 0,
        timeout: 0,
        retry_cnt: 0,
        rnr_retry: 0,
        sq_psn: 0,
        max_rd_atomic: 0,
    }
}

/// The move of a new queue pair to INIT on port `port`: partition key
/// index 0, no remote access.
pub fn init_attr(port: u8) -> (r: QpAttr)
    ensures
        r == (QpAttr { qp_state: IBV_QPS_INIT, port_num: port, ..zero_attr() }),
{
    let mut a = zeroed_attr();
    a.qp_state = IBV_QPS_INIT;
    a.pkey_index = 0;
    a.port_num = port;
    a.qp_access_flags = 0;
    a
}

/// The move to Ready-to-Receive towards the peer `remote` on port `port`.
pub fn rtr_attr(remote: &VerbsAddr, port: u8) -> (r: QpAttr)
    ensures
        r == (QpAttr {
            qp_state: IBV_QPS_RTR,
            path_mtu: IBV_MTU_1024,
            dest_qp_num: remote.qpn,
            rq_psn: remote.psn,
            max_dest_rd_atomic: 1,
            min_rnr_timer: 12,
            dlid: remote.lid,
            port_num: port,
            ..zero_attr()
        }),
{
    let mut a = zeroed_attr();
    a.qp_state = IBV_QPS_RTR;
    a.path_mtu = IBV_MTU_1024;
    a.dest_qp_num = remote.qpn;
    a.rq_psn = remote.psn;
    a.max_dest_rd_atomic = 1;
    a.min_rnr_timer = 12;
    a.is_global = 0;
    a.dlid = remote.lid;
    a.sl = 0;
    a.src_path_bits = 0;
    a.port_num = port;
    a
}

/// The move from `rtr` on to Ready-to-Send with our own sequence number
/// `psn`.
pub fn rts_attr(rtr: &QpAttr, psn: u32) -> (r: QpAttr)
    ensures
        r == (QpAttr {
            qp_state: IBV_QPS_RTS,
            timeout: 14,
            retry_cnt: 7,
            rnr_retry: 7,
            sq_psn: psn,
            max_rd_atomic: 1,
            ..*rtr
        }),
{
    let mut a = *rtr;
    a.qp_state = IBV_QPS_RTS;
    a.timeout = 14;
    a.retry_cnt = 7;
    a.rnr_retry = 7;
    a.sq_psn = psn;
    a.max_rd_atomic = 1;
    a
}

/// A signalled send of the first `length` bytes of buffer `buffer_id`,
/// correlated by `wr_id`.
#[derive(Clone, Copy, Debug, PartialEq, Eq, Structural)]
pub struct SendWr {
    pub wr_id: u64,
    pub buffer_id: usize,
    pub length: usize,
}

impl QueuePair {
    /// The send request for the bytes in use of `buffer`, correlated by the
    /// token `wr_id`.
    pub fn send(&self, wr_id: u64, buffer: &Buffer) -> (r: SendWr)
        ensures
            r == (SendWr { wr_id, buffer_id: buffer.id_spec(), length: buffer.used_spec() }),
    {
        SendWr { wr_id, buffer_id: buffer.id, length: buffer.used }
    }
}

impl Device {
    /// The address of queue pair `qp` for the peer.
    pub fn local_address(&self, qp: usize) -> (r: Option<VerbsAddr>)
        ensures
            qp >= self.qps_spec().len() ==> r is None,
            qp < self.qps_spec().len() ==> r == Some(
                VerbsAddr {
                    qpn: self.qps_spec()[qp as int].qpn_spec(),
                    psn: self.qps_spec()[qp as int].psn_spec(),
                    gid: 0,
                    lid: self.lid_spec(),
                },
            ),
    {
        if qp >= self.qps.len() {
            return None;
        }
        Some(self.qps[qp].local_address(self))
    }

    /// The send request for `buffer` on queue pair `qp`, correlated by
    /// `wr_id`.
    pub fn send_request(&self, qp: usize, wr_id: u64, buffer: &Buffer) -> (r: Option<SendWr>)
        ensures
            qp >= self.qps_spec().len() ==> r is None,
            qp < self.qps_spec().len() ==> r == Some(
                SendWr { wr_id, buffer_id: buffer.id_spec(), length: buffer.used_spec() },
            ),
    {
        if qp >= self.qps.len() {
            return None;
        }
        Some(self.qps[qp].send(wr_id, buffer))
    }

    /// A receive on queue pair `qp` for `task`: the oldest received buffer,
    /// or else `None` with `task` registered as the waiting reader.
    pub fn recv(&mut self, qp: usize, task: Task) -> (r: Result<Option<Buffer>>)
        requires
            old(self).wf(),
        ensures
            final(self).wf(),
            final(self).free_spec() == old(self).free_spec(),
            final(self).empty_slots_spec() == old(self).empty_slots_spec(),
            final(self).lid_spec() == old(self).lid_spec(),
            final(self).notify_spec() == old(self).notify_spec(),
            final(self).qps_spec().len() == old(self).qps_spec().len(),
            forall|j: int|
                0 <= j < old(self).qps_spec().len() && j != qp ==> final(self).qps_spec()[j]
                    == old(self).qps_spec()[j],
            qp >= old(self).qps_spec().len() ==> r == Err::<Option<Buffer>, Error>(
                Error::Internal("unknown queue pair"),
            ),
            qp < old(self).qps_spec().len() ==> {
                let q = old(self).qps_spec()[qp as int];
                let q2 = final(self).qps_spec()[qp as int];
                &&& q2.qpn_spec() == q.qpn_spec()
                &&& q2.psn_spec() == q.psn_spec()
                &&& q.received_spec().len() > 0 ==> r == Ok::<Option<Buffer>, Error>(
                    Some(q.received_spec()[0]),
                ) && q2.received_spec() == q.received_spec().drop_first() && q2.waiting_spec()
                    == q.waiting_spec()
                &&& q.received_spec().len() == 0 && q.waiting_spec() is Some ==> r == Err::<
                    Option<Buffer>,
                    Error,
                >(Error::Internal("two concurrent reads are not supported"))
                    && q2.received_spec() == q.received_spec() && q2.waiting_spec()
                    == q.waiting_spec()
                &&& q.received_spec().len() == 0 && q.waiting_spec() is None ==> r == Ok::<
                    Option<Buffer>,
                    Error,
                >(None) && q2.received_spec() == q.received_spec() && q2.waiting_spec() == Some(
                    task,
                )
            },
    {
        if qp >= self.qps.len() {
            return Err(Error::Internal("unknown queue pair"));
        }
        let ghost qs = self.qps@;
        let mut q = self.qps.remove(qp);
        let r = match q.read() {
            Some(b) => Ok(Some(b)),
            None => match q.wait(task) {
                Ok(()) => Ok(None),
                Err(e) => Err(e),
            },
        };
        self.qps.insert(qp, q);
        proof {
            assert forall|j: int| 0 <= j < qs.len() && j != qp implies self.qps@[j] == qs[j] by {}
        }
        r
    }
}

/// Work completion opcode: a send finished.
pub const IBV_WC_SEND: u32 = 0;

/// Work completion opcode: a receive finished.
pub const IBV_WC_RECV: u32 = 128;

/// The fields of a verbs work completion that the engine reads.
#[derive(Clone, Copy, Debug, PartialEq, Eq, Structural)]
pub struct WorkCompletion {
    pub wr_id: u64,
    pub status: i32,
    pub opcode: u32,
    pub qp_num: u32,
    pub byte_len: u32,
}

/// Device `n` may be chosen when `wanted` is `None` or names it.
pub open spec fn selectable(n: Option<String>, wanted: Option<String>) -> bool {
    match n {
        None => false,
        Some(name) => match wanted {
            None => true,
            Some(w) => name@ == w@,
        },
    }
}

/// Picks the verbs device to open among the devices listed, by their names
/// (`None` for a device whose name could not be read): the first one named
/// `wanted`, or the first one with a name when no name is wanted.
pub fn select_device(names: &Vec<Option<String>>, wanted: &Option<String>) -> (r: Result<usize>)
    ensures
        r matches Ok(i) ==> i < names@.len() && selectable(names@[i as int], *wanted) && forall|
            j: int,
        | 0 <= j < i ==> !selectable(#[trigger] names@[j], *wanted),
        r is Err ==> r == Err::<usize, Error>(Error::Internal("No device found")) && forall|j: int|
            0 <= j < names@.len() ==> !selectable(#[trigger] names@[j], *wanted),
{
    let mut i: usize = 0;
    while i < names.len()
        invariant
            i <= names@.len(),
            forall|j: int| 0 <= j < i ==> !selectable(#[trigger] names@[j], *wanted),
        decreases names@.len() - i,
    {
        let ok = match &names[i] {
            None => false,
            Some(n) => match wanted {
                None => true,
                Some(w) => n.eq(w),
            },
        };
        if ok {
            return Ok(i);
        }
        i = i + 1;
    }
    Err(Error::Internal("No device found"))
}

} // verus!
