use vstd::prelude::*;
use crate::poll::Poll;

verus! {

/// The Fibonacci numbers, starting 1, 1.
pub open spec fn fib(n: nat) -> nat
    decreases n,
{
    if n < 2 {
        1
    } else {
        fib((n - 2) as nat) + fib((n - 1) as nat)
    }
}

/// A stream of the Fibonacci numbers, one per tick of a timer. It ends when
/// the next number no longer fits in a `u64`.
pub struct Fibonacci {
    curr: u64,
    next: u64,
    /// How many numbers have been produced.
    produced: Ghost<nat>,
    exhausted: bool,
}

impl Fibonacci {
    pub closed spec fn produced(&self) -> nat {
        self.produced@
    }

    pub closed spec fn is_exhausted(&self) -> bool {
        self.exhausted
    }

    pub closed spec fn wf(&self) -> bool {
        &&& self.curr == fib(self.produced@)
        &&& self.next == fib(self.produced@ + 1)
    }

    pub fn new() -> (s: Fibonacci)
        ensures
            s.wf(),
            s.produced() == 0,
            !s.is_exhausted(),
    {
        Fibonacci { curr: 1, next: 1, produced: Ghost(0), exhausted: false }
    }

    /// Advances the stream given how the timer's tick went: nothing moves
    /// until the tick is ready; then the next Fibonacci number comes out, or
    /// the end of the stream once it would not fit. A failed tick fails the
    /// stream.
    pub fn poll(&mut self, tick: Poll<(), ()>) -> (r: Poll<Option<u64>, ()>)
        requires
            old(self).wf(),
            !old(self).is_exhausted(),
        ensures
            final(self).wf(),
            tick is Pending ==> r is Pending && *final(self) == *old(self),
            tick is Failed ==> r == Poll::<Option<u64>, ()>::Failed(()) && final(self).is_exhausted(),
            tick is Ready ==> {
                let n = old(self).produced();
                if fib(n + 2) <= u64::MAX {
                    &&& r == Poll::<Option<u64>, ()>::Ready(Some(fib(n) as u64))
                    &&& final(self).produced() == n + 1
                    &&& !final(self).is_exhausted()
                } else {
                    &&& r == Poll::<Option<u64>, ()>::Ready(None)
                    &&& final(self).is_exhausted()
                }
            },
    {
        match tick {
            Poll::Pending => Poll::Pending,
            Poll::Failed(()) => {
                self.exhausted = true;
                Poll::Failed(())
            },
            Poll::Ready(()) => {
                let curr = self.curr;
                match curr.checked_add(self.next) {
                    Some(next) => {
                        self.curr = self.next;
                        self.next = next;
                        self.produced = Ghost(self.produced@ + 1);
                        Poll::Ready(Some(curr))
                    },
                    None => {
                        self.exhausted = true;
                        Poll::Ready(None)
                    },
                }
            },
        }
    }
}

/// The first `n` Fibonacci numbers that fit in a `u64`, in order: the items
/// of the same sequence built by unfolding the state `(1, 1)`.
pub fn fib_prefix(n: usize) -> (r: Vec<u64>)
    ensures
        r@.len() <= n,
        forall|i: int| 0 <= i < r@.len() ==> r@[i] == fib(i as nat),
        r@.len() < n ==> fib(r@.len() + 2) > u64::MAX,
{
    let mut out: Vec<u64> = Vec::new();
    let mut curr: u64 = 1;
    let mut next: u64 = 1;
    while out.len() < n
        invariant
            out@.len() <= n,
            forall|i: int| 0 <= i < out@.len() ==> out@[i] == fib(i as nat),
            curr == fib(out@.len() as nat),
            next == fib(out@.len() + 1),
        decreases n - out@.len(),
    {
        match curr.checked_add(next) {
            Some(new_next) => {
                out.push(curr);
                curr = next;
                next = new_next;
            },
            None => {
                assert(fib(out@.len() + 2) == fib(out@.len() as nat) + fib(out@.len() + 1));
                return out;
            },
        }
    }
    out
}

/// What one step of `Display10` asks of its caller.
#[derive(Debug, PartialEq, Eq, Structural)]
pub enum ShowStep<T, E> {
    /// Show `value` as the value numbered `index`; the future is finished
    /// when `last` holds, else it wants the stream's next item.
    Show { index: usize, value: T, last: bool },
    /// The stream is pending, and so is the future.
    Pending,
    /// The stream ended early: the future is finished.
    Done,
    /// The stream failed, and so does the future.
    Failed(E),
}

/// Number of values that `Display10` shows.
pub const DISPLAY_COUNT: usize = 10;

/// A future that shows the first ten items of a stream, numbered from 0.
pub struct Display10 {
    curr: usize,
    done: bool,
}

impl Display10 {
    pub closed spec fn shown(&self) -> nat {
        self.curr as nat
    }

    pub closed spec fn is_done(&self) -> bool {
        self.done
    }

    pub closed spec fn wf(&self) -> bool {
        self.curr <= DISPLAY_COUNT && (self.curr == DISPLAY_COUNT ==> self.done)
    }

    pub fn new() -> (d: Display10)
        ensures
            d.wf(),
            d.shown() == 0,
            !d.is_done(),
    {
        Display10 { curr: 0, done: false }
    }

    /// Hands the future one outcome of polling its stream.
    pub fn poll_item<T, E>(&mut self, item: Poll<Option<T>, E>) -> (r: ShowStep<T, E>)
        requires
            old(self).wf(),
            !old(self).is_done(),
        ensures
            final(self).wf(),
            match item {
                Poll::Pending => r is Pending && *final(self) == *old(self),
                Poll::Failed(e) => r == ShowStep::<T, E>::Failed(e) && final(self).is_done(),
                Poll::Ready(None) => r is Done && final(self).is_done(),
                Poll::Ready(Some(v)) => {
                    &&& r == (ShowStep::<T, E>::Show {
                        index: old(self).shown() as usize,
                        value: v,
                        last: old(self).shown() + 1 == DISPLAY_COUNT,
                    })
                    &&& final(self).shown() == old(self).shown() + 1
                    &&& final(self).is_done() == (old(self).shown() + 1 == DISPLAY_COUNT)
                },
            },
    {
        match item {
            Poll::Pending => ShowStep::Pending,
            Poll::Failed(e) => {
                self.done = true;
                ShowStep::Failed(e)
            },
            Poll::Ready(None) => {
                self.done = true;
                ShowStep::Done
            },
            Poll::Ready(Some(v)) => {
                let index = self.curr;
                self.curr = self.curr + 1;
                let last = self.curr == DISPLAY_COUNT;
                if last {
                    self.done = true;
                }
                ShowStep::Show { index, value: v, last }
            },
        }
    }
}

} // verus!
