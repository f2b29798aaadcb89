use pingpong::channel::{Channel, SendOutcome};
use pingpong::poll::StreamPoll;

#[test]
fn capacity_k_accepts_k_sends_then_suspends() {
    let mut c: Channel<u32> = Channel::new(3);
    for i in 0..3u32 {
        assert_eq!(c.try_send(i), SendOutcome::Accepted { wake_receiver: false });
    }
    assert_eq!(c.try_send(99), SendOutcome::Full(99));
    assert_eq!(c.len(), 3);
    let r = c.poll_recv();
    assert_eq!(r.poll, StreamPoll::Item(0));
    assert!(r.wake_sender);
    assert_eq!(c.try_send(99), SendOutcome::Accepted { wake_receiver: false });
    assert_eq!(c.len(), 3);
}

#[test]
fn capacity_zero_never_accepts() {
    let mut c: Channel<u8> = Channel::new(0);
    assert_eq!(c.try_send(1), SendOutcome::Full(1));
    assert_eq!(c.len(), 0);
}

#[test]
fn receive_on_empty_suspends_and_send_wakes() {
    let mut c: Channel<&str> = Channel::new(2);
    let r = c.poll_recv();
    assert_eq!(r.poll, StreamPoll::Pending);
    assert!(!r.wake_sender);
    assert_eq!(c.try_send("a"), SendOutcome::Accepted { wake_receiver: true });
    assert_eq!(c.try_send("b"), SendOutcome::Accepted { wake_receiver: false });
}

#[test]
fn dropping_all_producers_drains_then_exhausts() {
    let mut c: Channel<u32> = Channel::new(8);
    assert!(c.add_sender());
    assert_eq!(c.sender_count(), 2);
    assert_eq!(c.try_send(1), SendOutcome::Accepted { wake_receiver: false });
    assert_eq!(c.try_send(2), SendOutcome::Accepted { wake_receiver: false });
    assert!(!c.drop_sender());
    assert_eq!(c.try_send(3), SendOutcome::Accepted { wake_receiver: false });
    assert!(!c.drop_sender());
    assert_eq!(c.sender_count(), 0);
    assert_eq!(c.poll_recv().poll, StreamPoll::Item(1));
    assert_eq!(c.poll_recv().poll, StreamPoll::Item(2));
    assert_eq!(c.poll_recv().poll, StreamPoll::Item(3));
    assert_eq!(c.poll_recv().poll, StreamPoll::Exhausted);
}

#[test]
fn pending_receive_is_woken_by_last_producer_drop() {
    let mut c: Channel<u32> = Channel::new(1);
    assert_eq!(c.poll_recv().poll, StreamPoll::Pending);
    assert!(c.drop_sender());
    assert_eq!(c.poll_recv().poll, StreamPoll::Exhausted);
}

#[test]
fn send_after_consumer_dropped_is_closed() {
    let mut c: Channel<u32> = Channel::new(1);
    assert_eq!(c.try_send(1), SendOutcome::Accepted { wake_receiver: false });
    assert_eq!(c.try_send(2), SendOutcome::Full(2));
    assert_eq!(c.drop_receiver(), 1);
    assert_eq!(c.try_send(3), SendOutcome::Closed(3));
}

#[test]
fn order_per_producer_is_kept() {
    let mut c: Channel<(u8, u8)> = Channel::new(16);
    assert!(c.add_sender());
    let sends = [(0, 0), (1, 0), (0, 1), (1, 1), (0, 2)];
    for s in sends.iter() {
        assert_eq!(c.try_send(*s), SendOutcome::Accepted { wake_receiver: false });
    }
    let mut got = Vec::new();
    for _ in 0..5 {
        match c.poll_recv().poll {
            StreamPoll::Item(x) => got.push(x),
            other => panic!("unexpected {:?}", other),
        }
    }
    assert_eq!(got, sends.to_vec());
    assert_eq!(c.poll_recv().poll, StreamPoll::Pending);
}
