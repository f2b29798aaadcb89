use vstd::prelude::*;
use crate::poll::Poll;

verus! {

/// The producer was dropped before it set a value.
#[derive(Debug, PartialEq, Eq, Structural)]
pub struct Canceled;

/// The consumer was dropped before the value was set; the value comes back.
#[derive(Debug, PartialEq, Eq, Structural)]
pub struct Discarded<T>(pub T);

/// What a one-shot reply slot is, as a mathematical value.
pub struct ReplyModel<T> {
    /// The value set by the producer and not yet read.
    pub value: Option<T>,
    /// The value has been read; the slot is finished.
    pub taken: bool,
    pub producer_alive: bool,
    pub consumer_alive: bool,
    /// The consumer is suspended waiting for the value.
    pub consumer_parked: bool,
}

/// A single-value handoff between one producer and one consumer. The
/// producer's handle is used up by `send`, so a value is set at most once.
pub struct ReplySlot<T> {
    value: Option<T>,
    taken: bool,
    producer_alive: bool,
    consumer_alive: bool,
    consumer_parked: bool,
}

impl<T> View for ReplySlot<T> {
    type V = ReplyModel<T>;

    closed spec fn view(&self) -> ReplyModel<T> {
        ReplyModel {
            value: self.value,
            taken: self.taken,
            producer_alive: self.producer_alive,
            consumer_alive: self.consumer_alive,
            consumer_parked: self.consumer_parked,
        }
    }
}

impl<T> ReplySlot<T> {
    /// A slot is never read twice, and a value that was read is gone.
    pub open spec fn wf(&self) -> bool {
        self@.taken ==> self@.value is None
    }

    pub fn new() -> (s: Self)
        ensures
            s.wf(),
            s@ == (ReplyModel::<T> {
                value: None,
                taken: false,
                producer_alive: true,
                consumer_alive: true,
                consumer_parked: false,
            }),
    {
        ReplySlot {
            value: None,
            taken: false,
            producer_alive: true,
            consumer_alive: true,
            consumer_parked: false,
        }
    }

    /// Sets the value, using up the producer's handle. `Ok(wake)` says whether a
    /// suspended consumer must be woken; a dropped consumer gives the value back
    /// as `Discarded`, and the slot is left as it was but for the producer.
    pub fn send(&mut self, v: T) -> (r: Result<bool, Discarded<T>>)
        requires
            old(self).wf(),
            old(self)@.producer_alive,
            old(self)@.value is None,
            !old(self)@.taken,
        ensures
            final(self).wf(),
            !final(self)@.producer_alive,
            final(self)@.consumer_alive == old(self)@.consumer_alive,
            !final(self)@.taken,
            old(self)@.consumer_alive ==> r == Ok::<bool, Discarded<T>>(old(self)@.consumer_parked)
                && final(self)@.value == Some(v) && !final(self)@.consumer_parked,
            !old(self)@.consumer_alive ==> r == Err::<bool, Discarded<T>>(Discarded(v))
                && final(self)@ == (ReplyModel { producer_alive: false, ..old(self)@ }),
    {
        self.producer_alive = false;
        if self.consumer_alive {
            let wake = self.consumer_parked;
            self.value = Some(v);
            self.consumer_parked = false;
            Ok(wake)
        } else {
            Err(Discarded(v))
        }
    }

    /// Drops the producer without sending. Returns true when a suspended
    /// consumer must be woken to observe `Canceled`.
    pub fn drop_producer(&mut self) -> (wake: bool)
        requires
            old(self)@.producer_alive,
        ensures
            wake == (old(self)@.consumer_parked && old(self)@.value is None),
            final(self)@ == (ReplyModel {
                producer_alive: false,
                consumer_parked: old(self)@.consumer_parked && !wake,
                ..old(self)@
            }),
            final(self).wf() == old(self).wf(),
    {
        self.producer_alive = false;
        let wake = self.consumer_parked && self.value.is_none();
        if wake {
            self.consumer_parked = false;
        }
        wake
    }

    /// Drops the consumer; a value not yet read is discarded with it.
    pub fn drop_consumer(&mut self)
        requires
            old(self).wf(),
            old(self)@.consumer_alive,
        ensures
            final(self).wf(),
            final(self)@ == (ReplyModel::<T> {
                value: None,
                consumer_alive: false,
                consumer_parked: false,
                ..old(self)@
            }),
    {
        self.consumer_alive = false;
        self.consumer_parked = false;
        self.value = None;
    }

    /// Advances the consumer: the value once it is set, `Canceled` once the
    /// producer is gone without setting it, else suspension. Not called again
    /// after it reported `Ready` or `Failed`.
    pub fn poll_receive(&mut self) -> (r: Poll<T, Canceled>)
        requires
            old(self).wf(),
            old(self)@.consumer_alive,
            !old(self)@.taken,
        ensures
            final(self).wf(),
            final(self)@.producer_alive == old(self)@.producer_alive,
            final(self)@.consumer_alive,
            old(self)@.value is Some ==> r == Poll::<T, Canceled>::Ready(old(self)@.value->0)
                && final(self)@.taken && final(self)@.value is None
                && final(self)@.consumer_parked == old(self)@.consumer_parked,
            old(self)@.value is None && !old(self)@.producer_alive ==> r == Poll::<T, Canceled>::Failed(
                Canceled,
            ) && final(self)@ == (ReplyModel { taken: true, ..old(self)@ }),
            old(self)@.value is None && old(self)@.producer_alive ==> r == Poll::<T, Canceled>::Pending
                && final(self)@ == (ReplyModel { consumer_parked: true, ..old(self)@ }),
    {
        match self.value.take() {
            Some(v) => {
                self.taken = true;
                Poll::Ready(v)
            },
            None => {
                if !self.producer_alive {
                    self.taken = true;
                    Poll::Failed(Canceled)
                } else {
                    self.consumer_parked = true;
                    Poll::Pending
                }
            },
        }
    }
}

} // verus!
