use pingpong::poll::Poll;
use pingpong::reply::{Canceled, Discarded, ReplySlot};
use pingpong::request::{on_reply, on_request_sent, RttError};
use pingpong::channel::SendOutcome;

#[test]
fn value_set_then_read() {
    let mut s: ReplySlot<u64> = ReplySlot::new();
    assert_eq!(s.send(7), Ok(false));
    assert_eq!(s.poll_receive(), Poll::Ready(7));
}

#[test]
fn read_before_set_suspends_and_send_wakes() {
    let mut s: ReplySlot<u64> = ReplySlot::new();
    assert_eq!(s.poll_receive(), Poll::Pending);
    assert_eq!(s.send(5), Ok(true));
    assert_eq!(s.poll_receive(), Poll::Ready(5));
}

#[test]
fn dropped_consumer_makes_send_report_discard() {
    let mut s: ReplySlot<u64> = ReplySlot::new();
    s.drop_consumer();
    assert_eq!(s.send(42), Err(Discarded(42)));
}

#[test]
fn dropped_producer_cancels_pending_read() {
    let mut s: ReplySlot<u64> = ReplySlot::new();
    assert_eq!(s.poll_receive(), Poll::Pending);
    assert!(s.drop_producer());
    assert_eq!(s.poll_receive(), Poll::Failed(Canceled));
}

#[test]
fn requester_surfaces_failures() {
    assert_eq!(on_request_sent(SendOutcome::<u8>::Closed(1)), Poll::Failed(RttError::ChannelClosed));
    assert_eq!(on_request_sent(SendOutcome::<u8>::Full(1)), Poll::Pending);
    assert_eq!(on_request_sent(SendOutcome::<u8>::Accepted { wake_receiver: true }), Poll::Ready(()));
    assert_eq!(on_reply::<u64>(Poll::Failed(Canceled)), Poll::Failed(RttError::Canceled));
    assert_eq!(on_reply::<u64>(Poll::Ready(3)), Poll::Ready(3));
    assert_eq!(on_reply::<u64>(Poll::Pending), Poll::Pending);
}
