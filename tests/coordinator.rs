use pingpong::channel::{Channel, SendOutcome};
use pingpong::coordinator::{Coordinator, Dispatch, Phase, Reply};
use pingpong::poll::{Poll, StreamPoll};
use pingpong::reply::ReplySlot;
use pingpong::transport::{Transport, DEFAULT_MAX_DELAY_MS, DEFAULT_MIN_DELAY_MS};

/// Runs `n` requesters through a channel of capacity `cap` to a coordinator
/// whose transport answers after `delays[i]` ms for the i-th request; the
/// coordinator starts each ping at `start` and pongs are handled in the
/// order they arrive. Returns the replies in completion order and each
/// requester's own reply.
fn run(n: usize, cap: usize, delays: &[u64]) -> (Vec<Reply>, Vec<Reply>) {
    let mut inbound: Channel<(usize, usize)> = Channel::new(cap);
    let mut slots: Vec<ReplySlot<Reply>> = (0..n).map(|_| ReplySlot::new()).collect();
    let mut coord = Coordinator::new(Transport::new(0, 1000));
    let mut dispatched: Vec<(u64, Dispatch)> = Vec::new();
    let mut now: u64 = 0;
    let mut next = 0;
    while next < n || inbound.len() > 0 {
        while next < n {
            match inbound.try_send((next, next)) {
                SendOutcome::Accepted { .. } => next += 1,
                SendOutcome::Full(_) => break,
                SendOutcome::Closed(_) => panic!("closed"),
            }
        }
        while let StreamPoll::Item((id, slot)) = inbound.poll_recv().poll {
            let d = coord.accept_with_delay(id, now, delays[slot]);
            assert_eq!(d.token, slot);
            dispatched.push((now + d.delay_ms, d));
        }
        now += 1;
    }
    inbound.drop_sender();
    assert_eq!(inbound.poll_recv().poll, StreamPoll::Exhausted);
    coord.close_inbound();
    assert_eq!(coord.phase(), if n == 0 { Phase::Closed } else { Phase::Idle });
    dispatched.sort_by_key(|(deadline, d)| (*deadline, d.token));
    let mut order = Vec::new();
    for (deadline, d) in dispatched.iter() {
        let r = coord.fulfill(d.token, *deadline);
        assert_eq!(slots[d.token].send(r), Ok(false));
        order.push(r);
    }
    assert!(coord.is_finished());
    assert_eq!(coord.phase(), Phase::Closed);
    assert_eq!(coord.outstanding(), 0);
    let own: Vec<Reply> = slots
        .iter_mut()
        .map(|s| match s.poll_receive() {
            Poll::Ready(r) => r,
            other => panic!("no reply: {:?}", other),
        })
        .collect();
    (order, own)
}

#[test]
fn every_requester_gets_exactly_its_own_reply() {
    for n in [0usize, 1, 5, 17] {
        let delays: Vec<u64> = (0..n as u64).map(|i| (i * 37) % 100).collect();
        let (order, own) = run(n, 4, &delays);
        assert_eq!(order.len(), n);
        for (i, r) in own.iter().enumerate() {
            assert_eq!(r.id, i);
        }
    }
}

#[test]
fn replies_complete_out_of_arrival_order() {
    let delays = [900u64, 100, 500, 300, 700, 50, 950, 10, 400, 600];
    let (order, own) = run(10, 1024, &delays);
    let ids: Vec<usize> = order.iter().map(|r| r.id).collect();
    assert_eq!(ids, vec![7, 5, 1, 3, 8, 2, 9, 4, 0, 6]);
    for (i, r) in own.iter().enumerate() {
        assert_eq!(r.id, i);
        assert_eq!(r.rtt_ms, delays[i]);
    }
}

#[test]
fn random_delays_stay_in_range_and_overlap() {
    let mut coord = Coordinator::new(Transport::new(0, 1000));
    let mut ds = Vec::new();
    for id in 0..10 {
        let d = coord.accept(id, 5);
        assert!(d.delay_ms < 1000);
        ds.push(d);
    }
    let mut by_deadline = ds.clone();
    by_deadline.sort_by_key(|d| (d.delay_ms, d.token));
    for d in by_deadline.iter() {
        let r = coord.fulfill(d.token, 5 + d.delay_ms + 2);
        assert_eq!(r.id, d.id);
        assert_eq!(r.rtt_ms, d.delay_ms + 2);
        assert!(r.rtt_ms < 1000 + 2);
    }
    assert_eq!(coord.outstanding(), 0);
    assert!(!coord.is_finished());
    coord.close_inbound();
    assert!(coord.is_finished());
}

#[test]
fn rtt_is_elapsed_since_ping() {
    let mut coord = Coordinator::new(Transport::new(20, 30));
    let d = coord.accept_with_delay(3, 1000, 25);
    assert_eq!(d, Dispatch { token: 0, id: 3, delay_ms: 25 });
    assert_eq!(coord.outstanding(), 1);
    let r = coord.fulfill(0, 1026);
    assert_eq!(r, Reply { id: 3, rtt_ms: 26 });
    assert_eq!(coord.accepted(), 1);
}

#[test]
fn transport_default_range() {
    let t = Transport::default();
    assert_eq!(t.min_delay_ms(), DEFAULT_MIN_DELAY_MS);
    assert_eq!(t.max_delay_ms(), DEFAULT_MAX_DELAY_MS);
    assert_eq!(DEFAULT_MIN_DELAY_MS, 0);
    assert_eq!(DEFAULT_MAX_DELAY_MS, 10_000);
}

#[test]
fn transport_delays_fall_in_half_open_range() {
    let t = Transport::new(0, 1000);
    let draws: Vec<u64> = (0..200).map(|_| t.recv_pong()).collect();
    assert!(draws.iter().all(|d| *d < 1000));
    assert!(draws.iter().any(|d| *d != draws[0]));
    let narrow = Transport::new(5, 6);
    for _ in 0..20 {
        assert_eq!(narrow.recv_pong(), 5);
    }
}
