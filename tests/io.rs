use pingpong::io::{
    read_exact, read_four_bytes, ByteTally, HelloState, HelloStep, HelloWorld, ReadError, ReadStep,
    TallyItem, TallyStep,
};
use pingpong::poll::Poll;

#[test]
fn read_exact_fills_across_short_reads() {
    let mut r = read_exact(vec![0u8; 5]);
    assert_eq!(r.remaining(), 5);
    assert_eq!(r.on_read::<()>(Poll::Pending), ReadStep::Pending);
    assert_eq!(r.on_read::<()>(Poll::Ready(vec![1, 2])), ReadStep::Again);
    assert_eq!(r.remaining(), 3);
    assert_eq!(r.on_read::<()>(Poll::Ready(vec![3, 4, 5])), ReadStep::Ready(vec![1, 2, 3, 4, 5]));
}

#[test]
fn read_exact_early_eof() {
    let mut r = read_four_bytes();
    assert_eq!(r.remaining(), 4);
    assert_eq!(r.on_read::<()>(Poll::Ready(vec![9])), ReadStep::Again);
    assert_eq!(r.on_read::<()>(Poll::Ready(vec![])), ReadStep::Failed(ReadError::UnexpectedEof));
}

#[test]
fn read_exact_reader_failure() {
    let mut r = read_four_bytes();
    assert_eq!(r.on_read(Poll::<Vec<u8>, &str>::Failed("reset")), ReadStep::Failed(ReadError::Io("reset")));
}

#[test]
fn read_exact_empty_buffer_is_ready() {
    let mut r = read_exact(vec![]);
    assert_eq!(r.on_read::<()>(Poll::Pending), ReadStep::Ready(vec![]));
}

#[test]
fn hello_writer_connects_then_writes_all() {
    let mut h = HelloWorld::new(10);
    assert_eq!(h.on_connect::<()>(Poll::Pending), HelloStep::Pending);
    assert_eq!(h.on_connect::<()>(Poll::Ready(())), HelloStep::Again);
    assert_eq!(h.remaining(), 10);
    assert_eq!(h.on_write::<()>(Poll::Ready(4)), HelloStep::Again);
    assert_eq!(h.remaining(), 6);
    assert_eq!(h.on_write::<()>(Poll::Pending), HelloStep::Pending);
    assert_eq!(h.on_write::<()>(Poll::Ready(6)), HelloStep::Ready);
    assert_eq!(h.remaining(), 0);
}

#[test]
fn hello_writer_failures() {
    let mut h = HelloWorld::new(3);
    assert_eq!(h.on_connect(Poll::<(), &str>::Failed("refused")), HelloStep::Failed("refused"));
    let mut e = HelloWorld::new(0);
    assert_eq!(e.on_connect::<()>(Poll::Ready(())), HelloStep::Ready);
    let _ = HelloState::Connecting;
}

#[test]
fn tally_sums_and_resets_on_tick() {
    let mut t = ByteTally::new();
    assert_eq!(t.on_item(TallyItem::Value(10)), TallyStep::Added);
    assert_eq!(t.on_item(TallyItem::Value(5)), TallyStep::Added);
    assert_eq!(t.current(), 15);
    assert_eq!(t.on_item(TallyItem::Tick), TallyStep::Report(15));
    assert_eq!(t.on_item(TallyItem::Tick), TallyStep::Report(0));
    assert_eq!(t.on_item(TallyItem::Value(7)), TallyStep::Added);
    assert_eq!(t.on_item(TallyItem::Done), TallyStep::Finished);
}
