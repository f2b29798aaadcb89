use pingpong::executor::ReadyQueue;

#[test]
fn spawn_enqueues_in_order() {
    let mut q = ReadyQueue::new();
    assert_eq!(q.spawn(), 0);
    assert_eq!(q.spawn(), 1);
    assert_eq!(q.task_count(), 2);
    assert_eq!(q.next(), Some(0));
    assert_eq!(q.next(), Some(1));
    assert_eq!(q.next(), None);
}

#[test]
fn duplicate_wakes_coalesce() {
    let mut q = ReadyQueue::new();
    let a = q.spawn();
    let b = q.spawn();
    assert_eq!(q.next(), Some(a));
    assert_eq!(q.next(), Some(b));
    q.wake(b);
    q.wake(a);
    q.wake(b);
    q.wake(b);
    assert_eq!(q.next(), Some(b));
    assert_eq!(q.next(), Some(a));
    assert_eq!(q.next(), None);
}

#[test]
fn wake_of_completed_task_is_ignored() {
    let mut q = ReadyQueue::new();
    let a = q.spawn();
    assert_eq!(q.next(), Some(a));
    q.complete(a);
    q.wake(a);
    assert_eq!(q.next(), None);
}
