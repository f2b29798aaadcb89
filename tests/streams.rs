use pingpong::fib::{fib_prefix, Display10, Fibonacci, ShowStep, DISPLAY_COUNT};
use pingpong::poll::Poll;

#[test]
fn fibonacci_waits_for_ticks() {
    let mut f = Fibonacci::new();
    assert_eq!(f.poll(Poll::Pending), Poll::Pending);
    let mut got = Vec::new();
    for _ in 0..10 {
        match f.poll(Poll::Ready(())) {
            Poll::Ready(Some(v)) => got.push(v),
            other => panic!("unexpected {:?}", other),
        }
    }
    assert_eq!(got, vec![1, 1, 2, 3, 5, 8, 13, 21, 34, 55]);
}

#[test]
fn fibonacci_failed_tick_fails_stream() {
    let mut f = Fibonacci::new();
    assert_eq!(f.poll(Poll::Failed(())), Poll::Failed(()));
}

#[test]
fn fibonacci_ends_before_overflow() {
    let mut f = Fibonacci::new();
    let mut count = 0;
    let mut last = 0u64;
    loop {
        match f.poll(Poll::Ready(())) {
            Poll::Ready(Some(v)) => {
                count += 1;
                last = v;
            }
            Poll::Ready(None) => break,
            other => panic!("unexpected {:?}", other),
        }
    }
    assert_eq!(count, 91);
    assert_eq!(last, 4660046610375530309);
    assert_eq!(fib_prefix(200).len(), 91);
}

#[test]
fn fib_prefix_first_ten() {
    assert_eq!(fib_prefix(10), vec![1, 1, 2, 3, 5, 8, 13, 21, 34, 55]);
    assert_eq!(fib_prefix(0), Vec::<u64>::new());
}

#[test]
fn display10_shows_ten_then_finishes() {
    let mut d = Display10::new();
    let mut f = Fibonacci::new();
    let mut shown = Vec::new();
    loop {
        match d.poll_item::<u64, ()>(f.poll(Poll::Ready(()))) {
            ShowStep::Show { index, value, last } => {
                shown.push((index, value));
                if last {
                    break;
                }
            }
            other => panic!("unexpected {:?}", other),
        }
    }
    assert_eq!(shown.len(), DISPLAY_COUNT);
    assert_eq!(shown[0], (0, 1));
    assert_eq!(shown[9], (9, 55));
}

#[test]
fn display10_stops_on_short_stream() {
    let mut d = Display10::new();
    assert_eq!(d.poll_item::<u64, ()>(Poll::Pending), ShowStep::Pending);
    assert_eq!(
        d.poll_item::<u64, ()>(Poll::Ready(Some(4))),
        ShowStep::Show { index: 0, value: 4, last: false }
    );
    assert_eq!(d.poll_item::<u64, ()>(Poll::Ready(None)), ShowStep::Done);
    let mut e = Display10::new();
    assert_eq!(e.poll_item::<u64, &str>(Poll::Failed("x")), ShowStep::Failed("x"));
}
