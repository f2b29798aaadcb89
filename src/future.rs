use vstd::prelude::*;
use crate::poll::Poll;

verus! {

/// A future whose outcome is known when it is made; it completes on its first
/// advance.
pub struct Immediate<T, E> {
    outcome: Option<Result<T, E>>,
}

impl<T, E> Immediate<T, E> {
    /// The outcome still to be reported; `None` once reported.
    pub closed spec fn outcome(&self) -> Option<Result<T, E>> {
        self.outcome
    }

    pub fn ok(v: T) -> (f: Self)
        ensures
            f.outcome() == Some(Ok::<T, E>(v)),
    {
        Immediate { outcome: Some(Ok(v)) }
    }

    pub fn err(e: E) -> (f: Self)
        ensures
            f.outcome() == Some(Err::<T, E>(e)),
    {
        Immediate { outcome: Some(Err(e)) }
    }

    /// Reports the outcome. Not called again once it has been reported.
    pub fn poll(&mut self) -> (r: Poll<T, E>)
        requires
            old(self).outcome() is Some,
        ensures
            final(self).outcome() is None,
            old(self).outcome() == Some(Ok::<T, E>(r->Ready_0)) || old(self).outcome() == Some(
                Err::<T, E>(r->Failed_0),
            ),
            r is Ready <==> old(self).outcome()->0 is Ok,
            r is Failed <==> old(self).outcome()->0 is Err,
    {
        match self.outcome.take() {
            Some(Ok(v)) => Poll::Ready(v),
            Some(Err(e)) => Poll::Failed(e),
            None => Poll::Pending,
        }
    }

    /// Runs the future to its outcome.
    pub fn wait(self) -> (r: Result<T, E>)
        requires
            self.outcome() is Some,
        ensures
            Some(r) == self.outcome(),
    {
        self.outcome.unwrap()
    }
}

/// The error of the example futures.
#[derive(Debug, Clone, Copy, PartialEq, Eq, Structural)]
pub enum ExampleFutureError {
    Oops,
}

/// A future that yields 2.
pub fn new_example_future() -> (f: Immediate<usize, ExampleFutureError>)
    ensures
        f.outcome() == Some(Ok::<usize, ExampleFutureError>(2)),
{
    Immediate::ok(2)
}

/// A future that fails with `Oops`.
pub fn new_example_future_err() -> (f: Immediate<usize, ExampleFutureError>)
    ensures
        f.outcome() == Some(Err::<usize, ExampleFutureError>(ExampleFutureError::Oops)),
{
    Immediate::err(ExampleFutureError::Oops)
}

/// Maps the ready value of `f` by adding 10.
pub fn add_10<E>(f: Immediate<i32, E>) -> (r: Immediate<i32, E>)
    requires
        f.outcome() is Some,
        f.outcome()->0 is Ok ==> f.outcome()->0->Ok_0 <= i32::MAX - 10,
    ensures
        r.outcome() == match f.outcome()->0 {
            Ok(i) => Some(Ok::<i32, E>((i + 10) as i32)),
            Err(e) => Some(Err::<i32, E>(e)),
        },
{
    match f.wait() {
        Ok(i) => Immediate::ok(i + 10),
        Err(e) => Immediate::err(e),
    }
}

/// A counter that yields to the executor after every ten steps, asking to
/// be woken again at once.
pub struct Count {
    remaining: usize,
}

/// The numbers `from, from - 1, ..., to + 1`.
pub open spec fn countdown(from: nat, to: nat) -> Seq<usize>
    decreases from,
{
    if from <= to {
        Seq::empty()
    } else {
        seq![from as usize] + countdown((from - 1) as nat, to)
    }
}

/// One advance of `Count`: the numbers it went through, and its outcome.
pub struct CountStep {
    pub counted: Vec<usize>,
    /// `Pending` comes with a wake of the task itself.
    pub poll: Poll<(), ()>,
}

impl Count {
    pub fn new(remaining: usize) -> (c: Count)
        ensures
            c.remaining() == remaining,
    {
        Count { remaining }
    }

    pub closed spec fn remaining(&self) -> nat {
        self.remaining as nat
    }

    /// Counts down from the remaining number, stopping at the next multiple
    /// of ten below it; ready once nothing remains.
    pub fn poll(&mut self) -> (r: CountStep)
        ensures
            old(self).remaining() == 0 ==> r.poll == Poll::<(), ()>::Ready(()) && r.counted@.len()
                == 0 && final(self).remaining() == 0,
            old(self).remaining() > 0 ==> {
                let stop = (old(self).remaining() - 1) - (old(self).remaining() - 1) % 10;
                &&& r.poll is Pending
                &&& final(self).remaining() == stop
                &&& r.counted@ == countdown(old(self).remaining(), stop as nat)
            },
    {
        let mut counted: Vec<usize> = Vec::new();
        let ghost start = self.remaining as nat;
        let ghost stop: nat = if start > 0 {
            ((start - 1) - (start - 1) % 10) as nat
        } else {
            0
        };
        while self.remaining > 0
            invariant
                start == old(self).remaining(),
                start > 0 ==> stop % 10 == 0 && stop < self.remaining <= start && start <= stop + 10,
                start == 0 ==> self.remaining == 0 && counted@.len() == 0,
                counted@ + countdown(self.remaining as nat, stop) == countdown(start, stop),
            decreases self.remaining,
        {
            proof {
                assert(countdown(self.remaining as nat, stop) == seq![self.remaining] + countdown(
                    (self.remaining - 1) as nat,
                    stop,
                ));
            }
            counted.push(self.remaining);
            self.remaining = self.remaining - 1;
            proof {
                assert(counted@ + countdown(self.remaining as nat, stop) =~= countdown(start, stop));
            }
            if self.remaining % 10 == 0 {
                proof {
                    assert(self.remaining as nat == stop);
                    assert(countdown(stop, stop) =~= Seq::<usize>::empty());
                    assert(counted@ =~= countdown(start, stop));
                }
                return CountStep { counted, poll: Poll::Pending };
            }
        }
        CountStep { counted, poll: Poll::Ready(()) }
    }
}

} // verus!
