use agrippa::runtime::{Priority, Reactor};
use agrippa::verbs::{connect, connect_with, get_buffer, put_buffer, SendPoll};
use agrippa::verbs_util::{
    generate_psn, psn_from, select_device, Device, QpCreateAttr, IBV_QPT_RC, QueuePair, VerbsAddr, WorkCompletion, IBV_QPS_RTR, IBV_QPS_RTS, IBV_WC_RECV, IBV_WC_SEND, RX_DEPTH,
    VERBS_ADDR_LEN,
};
use agrippa::Error;

fn reactor() -> Reactor {
    Reactor::new(Device::new(4096, 7, false).unwrap())
}

#[test]
fn device_needs_a_lid_off_ethernet() {
    assert!(matches!(Device::new(4096, 0, false), Err(Error::Internal(_))));
    assert!(Device::new(4096, 0, true).is_ok());
}

#[test]
fn device_starts_with_full_pool() {
    let mut d = Device::new(4096, 3, false).unwrap();
    assert_eq!(d.cq_size(), RX_DEPTH + 1);
    let mut n = 0;
    while let Some(b) = d.get_buffer() {
        assert_eq!(b.capacity(), 4096);
        assert_eq!(b.used(), 0);
        n += 1;
    }
    assert_eq!(n, 2 * RX_DEPTH);
}

#[test]
fn address_round_trip() {
    let a = VerbsAddr { qpn: 0x0102_0304, psn: 0xABCDEF, gid: 0x1122_3344_5566_7788_99AA_BBCC_DDEE_FF00, lid: 0xBEEF };
    let b = a.to_bytes();
    assert_eq!(b.len(), VERBS_ADDR_LEN);
    assert_eq!(&b[0..4], &[4, 3, 2, 1]);
    assert_eq!(&b[24..26], &[0xEF, 0xBE]);
    assert_eq!(VerbsAddr::from_bytes(&b), Some(a));
    assert_eq!(VerbsAddr::from_bytes(&b[1..]), None);
}

#[test]
fn psn_has_24_bits() {
    for _ in 0..64 {
        assert!(generate_psn() < 0x100_0000);
    }
    let q = QueuePair::new(12);
    assert_eq!(q.qpn(), 12);
    assert!(q.psn() < 0x100_0000);
}

#[test]
fn handshake_and_connect_attributes() {
    let mut client = reactor();
    let mut server = reactor();
    let cb = connect(&mut client, 100);
    let sb = connect(&mut server, 200);
    let ca = cb.local_address(&client).unwrap();
    let sa = sb.local_address(&server).unwrap();
    assert_eq!((ca.qpn, ca.gid, ca.lid), (100, 0, 7));
    // exchanged over the wire
    let ca2 = VerbsAddr::from_bytes(&ca.to_bytes()).unwrap();
    let sa2 = VerbsAddr::from_bytes(&sa.to_bytes()).unwrap();
    let (_conn, rtr, rts) = cb.connect(&client, &sa2, 1).unwrap();
    assert_eq!((rtr.qp_state, rtr.dest_qp_num, rtr.rq_psn, rtr.dlid, rtr.port_num), (IBV_QPS_RTR, 200, sa.psn, 7, 1));
    assert_eq!((rtr.max_dest_rd_atomic, rtr.min_rnr_timer), (1, 12));
    assert_eq!((rts.qp_state, rts.sq_psn, rts.timeout, rts.retry_cnt, rts.rnr_retry, rts.max_rd_atomic), (IBV_QPS_RTS, ca.psn, 14, 7, 7, 1));
    let (_sconn, srtr, _) = sb.connect(&server, &ca2, 1).unwrap();
    assert_eq!(srtr.dest_qp_num, 100);
}

#[test]
fn put_then_get_succeeds() {
    let mut r = reactor();
    let t = r.spawn(Priority::Normal);
    let b = r.get_buffer(t).unwrap();
    let id = b.id();
    r.put_verbs_buffer(b);
    assert_eq!(r.get_buffer(t).unwrap().id(), id);
}

#[test]
fn exhausted_pool_suspends_and_put_resumes_highest_waiter() {
    let mut r = reactor();
    let low = r.spawn(Priority::Low);
    let high = r.spawn(Priority::High);
    let high2 = r.spawn(Priority::High);
    while r.next_ready().is_some() {}
    let mut held = Vec::new();
    for _ in 0..(2 * RX_DEPTH) {
        held.push(get_buffer().poll(&mut r, low).unwrap());
    }
    assert!(get_buffer().poll(&mut r, low).is_none());
    assert!(get_buffer().poll(&mut r, high).is_none());
    assert!(get_buffer().poll(&mut r, high2).is_none());
    assert_eq!(r.wake_buffer_waiter(), None);
    let back = held.pop().unwrap();
    let id = back.id();
    assert!(put_buffer(back).poll(&mut r).is_ok());
    assert_eq!(r.wake_buffer_waiter(), Some(high));
    assert_eq!(r.next_ready(), Some(high));
    assert_eq!(r.next_ready(), None);
    assert_eq!(get_buffer().poll(&mut r, high).unwrap().id(), id);
}

#[test]
fn receive_pump_and_delivery() {
    let mut r = reactor();
    let reader = r.spawn(Priority::Normal);
    while r.next_ready().is_some() {}
    let b = connect(&mut r, 55);
    let (conn, _, _) = b.connect(&r, &VerbsAddr { qpn: 1, psn: 2, gid: 0, lid: 3 }, 1).unwrap();
    assert!(r.arm_notification());
    assert!(!r.arm_notification());
    let posts = r.post_receives();
    assert_eq!(posts.len(), RX_DEPTH);
    assert!(r.post_receives().is_empty());
    // nothing received yet: the reader waits
    assert!(conn.recv().poll(&mut r, reader).unwrap().is_none());
    // a second reader is refused
    assert!(matches!(conn.recv().poll(&mut r, reader), Err(Error::Internal(_))));
    let p = posts[0];
    assert!(r.on_recv_completion(p.slot as u64, 55, 16).is_ok());
    assert_eq!(r.next_ready(), Some(reader));
    let got = conn.recv().poll(&mut r, reader).unwrap().unwrap();
    assert_eq!(got.id(), p.buffer_id);
    assert_eq!(got.used(), 16);
    // the slot is free again and is refilled from the pool
    assert_eq!(r.post_receives().len(), 1);
    assert!(matches!(r.on_recv_completion(999, 55, 1), Err(Error::Internal(_))));
}

#[test]
fn send_returns_buffer_whatever_the_status() {
    let mut r = reactor();
    let t = r.spawn(Priority::Normal);
    let cb = connect(&mut r, 9);
    let (conn, _, _) = cb.connect(&r, &VerbsAddr { qpn: 1, psn: 2, gid: 0, lid: 3 }, 1).unwrap();
    let mut buf = r.get_buffer(t).unwrap();
    assert!(buf.set_used(16));
    assert!(!buf.set_used(5000));
    let id = buf.id();
    let mut s = conn.send(buf);
    let wr = match s.poll(&mut r, t) {
        SendPoll::Post(wr) => wr,
        other => panic!("unexpected {:?}", other),
    };
    assert_eq!((wr.wr_id, wr.buffer_id, wr.length), (t.token(), id, 16));
    assert!(matches!(s.posted(&mut r, Ok(())), SendPoll::Pending));
    assert!(matches!(s.poll(&mut r, t), SendPoll::Pending));
    assert!(r.on_send_completion(wr.wr_id, 0).is_ok());
    assert!(matches!(s.poll(&mut r, t), SendPoll::Ready(Ok(()))));
    assert!(matches!(s.poll(&mut r, t), SendPoll::Ready(Err(Error::Internal(_)))));
    assert_eq!(r.get_buffer(t).unwrap().id(), id);

    let buf = r.get_buffer(t).unwrap();
    let mut s = conn.send(buf);
    assert!(matches!(s.poll(&mut r, t), SendPoll::Post(_)));
    assert!(matches!(s.posted(&mut r, Ok(())), SendPoll::Pending));
    assert!(r.on_send_completion(t.token(), 5).is_ok());
    assert!(matches!(s.poll(&mut r, t), SendPoll::Ready(Err(Error::Internal(_)))));
    assert!(matches!(r.on_send_completion(0, 0), Err(Error::Internal(_))));
}

#[test]
fn work_completions_are_dispatched_by_opcode() {
    let mut r = reactor();
    let reader = r.spawn(Priority::High);
    let sender = r.spawn(Priority::Low);
    while r.next_ready().is_some() {}
    let cb = connect(&mut r, 31);
    let (conn, _, _) = cb.connect(&r, &VerbsAddr { qpn: 1, psn: 2, gid: 0, lid: 3 }, 1).unwrap();
    let posts = r.post_receives();
    assert!(conn.recv().poll(&mut r, reader).unwrap().is_none());
    let recv = WorkCompletion { wr_id: posts[3].slot as u64, status: 0, opcode: IBV_WC_RECV, qp_num: 31, byte_len: 30 };
    assert!(r.dispatch_completion(recv).is_ok());
    let send = WorkCompletion { wr_id: sender.token(), status: 0, opcode: IBV_WC_SEND, qp_num: 31, byte_len: 0 };
    assert!(r.dispatch_completion(send).is_ok());
    assert_eq!(r.verbs_result(sender), Some(0));
    let other = WorkCompletion { wr_id: 5, status: 0, opcode: 1, qp_num: 31, byte_len: 0 };
    assert!(r.dispatch_completion(other).is_ok());
    assert_eq!(r.next_ready(), Some(reader));
    assert_eq!(r.next_ready(), Some(sender));
    assert_eq!(r.next_ready(), None);
    let got = conn.recv().poll(&mut r, reader).unwrap().unwrap();
    assert_eq!((got.id(), got.used()), (posts[3].buffer_id, 30));
}

#[test]
fn receive_for_unknown_queue_pair_returns_buffer_to_pool() {
    let mut r = reactor();
    let t = r.spawn(Priority::Normal);
    let posts = r.post_receives();
    assert_eq!(posts.len(), RX_DEPTH);
    // the pool kept the other half of its buffers
    let mut free = 0;
    while r.get_verbs_buffer().is_some() {
        free += 1;
    }
    assert_eq!(free, RX_DEPTH);
    assert!(r.on_recv_completion(posts[0].slot as u64, 999, 8).is_ok());
    assert_eq!(r.get_buffer(t).unwrap().id(), posts[0].buffer_id);
    // a completion larger than the buffer is refused
    assert!(matches!(r.on_recv_completion(posts[1].slot as u64, 999, 5000), Err(Error::Internal(_))));
}

#[test]
fn device_selection() {
    let names = vec![None, Some("mlx5_0".to_string()), Some("mlx5_1".to_string())];
    assert_eq!(select_device(&names, &None).unwrap(), 1);
    assert_eq!(select_device(&names, &Some("mlx5_1".to_string())).unwrap(), 2);
    assert!(matches!(select_device(&names, &Some("rxe0".to_string())), Err(Error::Internal(_))));
    assert!(matches!(select_device(&vec![None], &None), Err(Error::Internal(_))));
}

#[test]
fn psn_keeps_the_low_24_bits() {
    assert_eq!(psn_from(0xFFFF_FFFF), 0xFF_FFFF);
    assert_eq!(psn_from(0x1234_5678), 0x34_5678);
    let q = QueuePair::from_random(3, 0xAB00_0001);
    assert_eq!((q.qpn(), q.psn()), (3, 1));
    let mut r = reactor();
    let b = connect_with(&mut r, 77, 0x0100_0002);
    let a = b.local_address(&r).unwrap();
    assert_eq!((a.qpn, a.psn), (77, 2));
}

#[test]
fn shared_receive_queue_limits() {
    let d = Device::new(64, 1, false).unwrap();
    assert_eq!(d.srq_limits(), (RX_DEPTH, 1));
}

#[test]
fn queue_pair_creation_attributes() {
    let d = Device::new(64, 1, false).unwrap();
    let a: QpCreateAttr = d.qp_create_attr();
    assert_eq!(a.qp_type, IBV_QPT_RC);
    assert!(a.send_cq_is_engine_cq && a.recv_cq_is_engine_cq && a.srq_is_engine_srq);
    assert_eq!((a.max_send_wr, a.max_recv_wr, a.max_send_sge, a.max_recv_sge), (1, RX_DEPTH as u32, 1, 1));
}

#[test]
fn posting_keeps_filled_slots() {
    let mut r = reactor();
    let first = r.post_receives();
    assert_eq!(first.len(), RX_DEPTH);
    // one slot completes and is refilled; the others keep their buffers
    assert!(r.on_recv_completion(first[5].slot as u64, 999, 4).is_ok());
    let again = r.post_receives();
    assert_eq!(again.len(), 1);
    assert_eq!(again[0].slot, first[5].slot);
    assert!(r.on_recv_completion(first[6].slot as u64, 999, 4).is_ok());
}
