use vstd::prelude::*;

verus! {

/// The outcome of advancing a future once.
#[derive(Debug, PartialEq, Eq, Structural)]
pub enum Poll<T, E> {
    Ready(T),
    Pending,
    Failed(E),
}

/// The outcome of advancing a stream once. `Exhausted` is terminal.
#[derive(Debug, PartialEq, Eq, Structural)]
pub enum StreamPoll<T> {
    Item(T),
    Exhausted,
    Pending,
}

impl<T, E> Poll<T, E> {
    pub fn is_pending(&self) -> (r: bool)
        ensures
            r == (self is Pending),
    {
        matches!(self, Poll::Pending)
    }
}

impl<T> StreamPoll<T> {
    pub fn is_pending(&self) -> (r: bool)
        ensures
            r == (self is Pending),
    {
        matches!(self, StreamPoll::Pending)
    }
}

} // verus!
