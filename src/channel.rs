use std::collections::VecDeque;
use vstd::prelude::*;
use crate::poll::StreamPoll;

verus! {

/// What a bounded channel is, as a mathematical value.
pub struct ChannelModel<T> {
    /// Buffered messages, oldest first.
    pub buffer: Seq<T>,
    pub capacity: nat,
    /// Live producer handles.
    pub senders: nat,
    pub receiver_alive: bool,
    /// The consumer is suspended waiting for a message.
    pub receiver_parked: bool,
    /// Producers suspended waiting for a free slot.
    pub parked_senders: nat,
    /// The consumer has seen the end of the channel; it polls no more.
    pub exhausted: bool,
}

/// A send is accepted at once iff the consumer is alive and a slot is free.
pub open spec fn accepts<T>(m: ChannelModel<T>) -> bool {
    m.receiver_alive && m.buffer.len() < m.capacity
}

/// The channel is closed for the consumer once no producer handle is left.
pub open spec fn producers_gone<T>(m: ChannelModel<T>) -> bool {
    m.senders == 0
}

/// The buffer after one send of `msg`.
pub open spec fn buffer_after_send<T>(m: ChannelModel<T>, msg: T) -> Seq<T> {
    if accepts(m) {
        m.buffer.push(msg)
    } else {
        m.buffer
    }
}

/// The model after sending `msgs` one after another, none of them received
/// in between.
pub open spec fn send_all<T>(m: ChannelModel<T>, msgs: Seq<T>) -> ChannelModel<T>
    decreases msgs.len(),
{
    if msgs.len() == 0 {
        m
    } else {
        let prev = send_all(m, msgs.drop_last());
        ChannelModel { buffer: buffer_after_send(prev, msgs.last()), ..prev }
    }
}

/// What one receive reports on a channel in state `m`.
pub open spec fn recv_outcome<T>(m: ChannelModel<T>) -> StreamPoll<T> {
    if m.buffer.len() > 0 {
        StreamPoll::Item(m.buffer[0])
    } else if producers_gone(m) {
        StreamPoll::Exhausted
    } else {
        StreamPoll::Pending
    }
}

/// The buffer after one receive.
pub open spec fn buffer_after_recv<T>(m: ChannelModel<T>) -> Seq<T> {
    if m.buffer.len() > 0 {
        m.buffer.drop_first()
    } else {
        m.buffer
    }
}

/// What `n` receives in a row report, with no send in between.
pub open spec fn recv_all<T>(m: ChannelModel<T>, n: nat) -> Seq<StreamPoll<T>>
    decreases n,
{
    if n == 0 {
        Seq::empty()
    } else {
        seq![recv_outcome(m)] + recv_all(ChannelModel { buffer: buffer_after_recv(m), ..m }, (n - 1) as nat)
    }
}

/// Law: with a live consumer and an empty buffer of capacity `k`, the first
/// `k` messages sent are all accepted, in order, and every later one finds
/// the channel full, until something is received.
pub proof fn lemma_capacity_backpressure<T>(m: ChannelModel<T>, msgs: Seq<T>, i: int)
    requires
        m.buffer.len() == 0,
        m.receiver_alive,
        0 <= i <= msgs.len(),
    ensures
        send_all(m, msgs.take(i)).buffer == msgs.take(if i < m.capacity { i } else { m.capacity as int }),
        accepts(send_all(m, msgs.take(i))) == (i < m.capacity),
        send_all(m, msgs.take(i)).capacity == m.capacity,
        send_all(m, msgs.take(i)).receiver_alive,
    decreases i,
{
    let s = msgs.take(i);
    if i == 0 {
        assert(s =~= Seq::<T>::empty());
        assert(msgs.take(0) =~= Seq::<T>::empty());
    } else {
        assert(s.drop_last() =~= msgs.take(i - 1));
        lemma_capacity_backpressure(m, msgs, i - 1);
        let prev = send_all(m, s.drop_last());
        assert(s.last() == msgs[i - 1]);
        if i - 1 < m.capacity {
            assert(msgs.take(i - 1).push(msgs[i - 1]) =~= msgs.take(i));
        }
    }
}

/// Law: once every producer handle is dropped, the consumer receives the
/// buffered messages in the order they were sent, and then exhaustion.
pub proof fn lemma_drain_after_close<T>(m: ChannelModel<T>)
    requires
        producers_gone(m),
    ensures
        recv_all(m, m.buffer.len() + 1) == m.buffer.map_values(|x: T| StreamPoll::Item(x)).push(
            StreamPoll::Exhausted,
        ),
    decreases m.buffer.len(),
{
    let n = m.buffer.len();
    if n == 0 {
        assert(recv_all(ChannelModel { buffer: buffer_after_recv(m), ..m }, 0) =~= Seq::empty());
        assert(recv_all(m, 1) =~= seq![StreamPoll::<T>::Exhausted]);
        assert(m.buffer.map_values(|x: T| StreamPoll::Item(x)).push(StreamPoll::Exhausted)
            =~= seq![StreamPoll::<T>::Exhausted]);
    } else {
        let m1 = ChannelModel { buffer: buffer_after_recv(m), ..m };
        lemma_drain_after_close(m1);
        assert(m.buffer.map_values(|x: T| StreamPoll::Item(x)).push(StreamPoll::Exhausted) =~= seq![
            StreamPoll::Item(m.buffer[0]),
        ] + m1.buffer.map_values(|x: T| StreamPoll::Item(x)).push(StreamPoll::Exhausted));
    }
}

/// How a send ended.
#[derive(Debug, PartialEq, Eq, Structural)]
pub enum SendOutcome<T> {
    /// Buffered; `wake_receiver` is true when a suspended consumer must be
    /// woken.
    Accepted { wake_receiver: bool },
    /// The buffer is full: the producer suspends and gets its message back
    /// to send again once woken.
    Full(T),
    /// The consumer is gone.
    Closed(T),
}

/// How a receive ended; `wake_sender` is true when a suspended producer
/// must be woken because a slot was freed.
pub struct Received<T> {
    pub poll: StreamPoll<T>,
    pub wake_sender: bool,
}

/// A bounded, ordered, multi-producer single-consumer channel.
pub struct Channel<T> {
    buffer: VecDeque<T>,
    capacity: usize,
    senders: usize,
    receiver_alive: bool,
    receiver_parked: bool,
    parked_senders: usize,
    exhausted: bool,
}

impl<T> View for Channel<T> {
    type V = ChannelModel<T>;

    closed spec fn view(&self) -> ChannelModel<T> {
        ChannelModel {
            buffer: self.buffer@,
            capacity: self.capacity as nat,
            senders: self.senders as nat,
            receiver_alive: self.receiver_alive,
            receiver_parked: self.receiver_parked,
            parked_senders: self.parked_senders as nat,
            exhausted: self.exhausted,
        }
    }
}

impl<T> Channel<T> {
    pub open spec fn wf(&self) -> bool {
        self@.buffer.len() <= self@.capacity
    }

    /// A channel of capacity `capacity` with one producer handle.
    pub fn new(capacity: usize) -> (c: Self)
        ensures
            c.wf(),
            c@.buffer == Seq::<T>::empty(),
            c@.capacity == capacity,
            c@.senders == 1,
            c@.receiver_alive,
            !c@.receiver_parked,
            c@.parked_senders == 0,
            !c@.exhausted,
    {
        Channel {
            buffer: VecDeque::new(),
            capacity,
            senders: 1,
            receiver_alive: true,
            receiver_parked: false,
            parked_senders: 0,
            exhausted: false,
        }
    }

    pub fn len(&self) -> (r: usize)
        ensures
            r == self@.buffer.len(),
    {
        self.buffer.len()
    }

    pub fn capacity(&self) -> (r: usize)
        ensures
            r == self@.capacity,
    {
        self.capacity
    }

    pub fn sender_count(&self) -> (r: usize)
        ensures
            r == self@.senders,
    {
        self.senders
    }

    /// Clones a producer handle. Returns false, and changes nothing, when
    /// the count of handles is at its limit.
    pub fn add_sender(&mut self) -> (r: bool)
        ensures
            r == (old(self)@.senders < usize::MAX),
            final(self)@ == (ChannelModel {
                senders: if r { old(self)@.senders + 1 } else { old(self)@.senders },
                ..old(self)@
            }),
            final(self).wf() == old(self).wf(),
    {
        if self.senders < usize::MAX {
            self.senders = self.senders + 1;
            true
        } else {
            false
        }
    }

    /// Drops one producer handle. Returns true when that was the last one
    /// and a suspended consumer must be woken to observe exhaustion.
    pub fn drop_sender(&mut self) -> (wake_receiver: bool)
        requires
            old(self)@.senders > 0,
        ensures
            wake_receiver == (old(self)@.senders == 1 && old(self)@.receiver_parked),
            final(self)@ == (ChannelModel {
                senders: (old(self)@.senders - 1) as nat,
                receiver_parked: old(self)@.receiver_parked && !wake_receiver,
                ..old(self)@
            }),
            final(self).wf() == old(self).wf(),
    {
        self.senders = self.senders - 1;
        let wake = self.senders == 0 && self.receiver_parked;
        if wake {
            self.receiver_parked = false;
        }
        wake
    }

    /// Drops the consumer; later sends fail with `Closed`. Returns the number
    /// of suspended producers that must be woken to observe it.
    pub fn drop_receiver(&mut self) -> (woken: usize)
        ensures
            woken == old(self)@.parked_senders,
            final(self)@ == (ChannelModel {
                receiver_alive: false,
                receiver_parked: false,
                parked_senders: 0,
                ..old(self)@
            }),
            final(self).wf() == old(self).wf(),
    {
        let woken = self.parked_senders;
        self.receiver_alive = false;
        self.receiver_parked = false;
        self.parked_senders = 0;
        woken
    }

    /// Offers `msg` to the channel from a live producer handle.
    pub fn try_send(&mut self, msg: T) -> (r: SendOutcome<T>)
        requires
            old(self).wf(),
            old(self)@.senders > 0,
        ensures
            final(self).wf(),
            final(self)@.buffer == buffer_after_send(old(self)@, msg),
            final(self)@.capacity == old(self)@.capacity,
            final(self)@.senders == old(self)@.senders,
            final(self)@.receiver_alive == old(self)@.receiver_alive,
            final(self)@.exhausted == old(self)@.exhausted,
            !old(self)@.receiver_alive ==> r == SendOutcome::Closed(msg)
                && final(self)@ == old(self)@,
            old(self)@.receiver_alive && !accepts(old(self)@) ==> r == SendOutcome::Full(msg)
                && final(self)@.receiver_parked == old(self)@.receiver_parked
                && final(self)@.parked_senders as int == if old(self)@.parked_senders < usize::MAX {
                    old(self)@.parked_senders + 1
                } else {
                    old(self)@.parked_senders
                },
            accepts(old(self)@) ==> r == (SendOutcome::<T>::Accepted {
                wake_receiver: old(self)@.receiver_parked,
            }) && !final(self)@.receiver_parked
                && final(self)@.parked_senders == old(self)@.parked_senders,
    {
        if !self.receiver_alive {
            SendOutcome::Closed(msg)
        } else if self.buffer.len() >= self.capacity {
            if self.parked_senders < usize::MAX {
                self.parked_senders = self.parked_senders + 1;
            }
            SendOutcome::Full(msg)
        } else {
            self.buffer.push_back(msg);
            let wake = self.receiver_parked;
            self.receiver_parked = false;
            SendOutcome::Accepted { wake_receiver: wake }
        }
    }

    /// Advances the consumer: the oldest buffered message, else exhaustion
    /// once every producer is gone, else suspension.
    pub fn poll_recv(&mut self) -> (r: Received<T>)
        requires
            old(self).wf(),
            old(self)@.receiver_alive,
            !old(self)@.exhausted,
        ensures
            final(self).wf(),
            final(self)@.capacity == old(self)@.capacity,
            final(self)@.senders == old(self)@.senders,
            final(self)@.receiver_alive,
            final(self)@.exhausted == (r.poll is Exhausted),
            r.poll == recv_outcome(old(self)@),
            final(self)@.buffer == buffer_after_recv(old(self)@),
            old(self)@.buffer.len() > 0 ==> r.poll == StreamPoll::Item(old(self)@.buffer[0])
                && final(self)@.buffer == old(self)@.buffer.drop_first()
                && final(self)@.receiver_parked == old(self)@.receiver_parked
                && r.wake_sender == (old(self)@.parked_senders > 0)
                && final(self)@.parked_senders as int == if old(self)@.parked_senders > 0 {
                    old(self)@.parked_senders - 1
                } else {
                    0
                },
            old(self)@.buffer.len() == 0 && old(self)@.senders == 0 ==> r.poll
                == StreamPoll::<T>::Exhausted && !r.wake_sender && final(self)@ == (ChannelModel {
                exhausted: true,
                ..old(self)@
            }),
            old(self)@.buffer.len() == 0 && old(self)@.senders > 0 ==> r.poll
                == StreamPoll::<T>::Pending && !r.wake_sender && final(self)@ == (ChannelModel {
                receiver_parked: true,
                ..old(self)@
            }),
    {
        match self.buffer.pop_front() {
            Some(msg) => {
                let wake = self.parked_senders > 0;
                if wake {
                    self.parked_senders = self.parked_senders - 1;
                }
                Received { poll: StreamPoll::Item(msg), wake_sender: wake }
            },
            None => {
                if self.senders == 0 {
                    self.exhausted = true;
                    Received { poll: StreamPoll::Exhausted, wake_sender: false }
                } else {
                    self.receiver_parked = true;
                    Received { poll: StreamPoll::Pending, wake_sender: false }
                }
            },
        }
    }
}

} // verus!
