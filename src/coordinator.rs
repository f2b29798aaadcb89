use vstd::prelude::*;
use crate::transport::Transport;

verus! {

/// A request the coordinator has accepted and whose pong is awaited.
#[derive(Debug, Clone, Copy, PartialEq, Eq, Structural)]
pub struct InFlight {
    /// Identity of the requester.
    pub id: usize,
    /// When the ping was sent, in milliseconds.
    pub start_ms: u64,
    /// How long the transport takes to answer this ping.
    pub delay_ms: u64,
}

impl InFlight {
    /// When the pong arrives.
    pub open spec fn deadline(&self) -> int {
        self.start_ms + self.delay_ms
    }
}

/// The reply for one request: its requester's identity and the measured
/// round trip.
#[derive(Debug, Clone, Copy, PartialEq, Eq, Structural)]
pub struct Reply {
    pub id: usize,
    pub rtt_ms: u64,
}

/// What the coordinator is doing.
#[derive(Debug, Clone, Copy, PartialEq, Eq, Structural)]
pub enum Phase {
    /// Waiting for the next request, or for pongs still outstanding.
    Idle,
    /// The inbound channel is exhausted and every request has its reply.
    Closed,
}

/// What the caller must do after a request was accepted: wait `delay_ms`
/// in a detached sub-task, then hand `token` to `fulfill`.
#[derive(Debug, Clone, Copy, PartialEq, Eq, Structural)]
pub struct Dispatch {
    pub token: usize,
    pub id: usize,
    pub delay_ms: u64,
}

/// The sole owner of a transport. Requests are accepted one at a time in
/// arrival order; each one's pong is awaited on its own, so their delays
/// overlap, and each reply is tied to its request by a token.
pub struct Coordinator {
    transport: Transport,
    in_flight: Vec<InFlight>,
    answers: Vec<Option<Reply>>,
    inbound_closed: bool,
}

/// The coordinator as a mathematical value.
pub struct CoordinatorModel {
    pub transport: Transport,
    /// Accepted requests, by token.
    pub in_flight: Seq<InFlight>,
    /// The reply sent for each token, if any.
    pub answers: Seq<Option<Reply>>,
    pub inbound_closed: bool,
}

impl View for Coordinator {
    type V = CoordinatorModel;

    closed spec fn view(&self) -> CoordinatorModel {
        CoordinatorModel {
            transport: self.transport,
            in_flight: self.in_flight@,
            answers: self.answers@,
            inbound_closed: self.inbound_closed,
        }
    }
}

/// The reply owed to request `r` when its pong is seen at `now_ms`.
pub open spec fn reply_at(r: InFlight, now_ms: int) -> Reply {
    Reply { id: r.id, rtt_ms: (now_ms - r.start_ms) as u64 }
}

/// How many of `answers` are still owed.
pub open spec fn count_unanswered(answers: Seq<Option<Reply>>) -> nat
    decreases answers.len(),
{
    if answers.len() == 0 {
        0
    } else {
        count_unanswered(answers.drop_last()) + if answers.last() is None { 1nat } else { 0nat }
    }
}

/// Every request has its reply.
pub open spec fn all_answered(m: CoordinatorModel) -> bool {
    forall|t: int| 0 <= t < m.answers.len() ==> (#[trigger] m.answers[t]) is Some
}

/// The coordinator has nothing left to do.
pub open spec fn finished(m: CoordinatorModel) -> bool {
    m.inbound_closed && all_answered(m)
}

impl Coordinator {
    pub open spec fn wf(&self) -> bool {
        let m = self@;
        &&& m.transport.wf()
        &&& m.in_flight.len() == m.answers.len()
        &&& forall|t: int|
            0 <= t < m.in_flight.len() ==> m.transport.admits(
                (#[trigger] m.in_flight[t]).delay_ms as nat,
            )
        &&& forall|t: int|
            0 <= t < m.answers.len() && (#[trigger] m.answers[t]) is Some ==> {
                let r = m.answers[t]->0;
                &&& r.id == m.in_flight[t].id
                &&& r.rtt_ms >= m.in_flight[t].delay_ms
                &&& r.rtt_ms + m.in_flight[t].start_ms <= u64::MAX
            }
    }

    pub fn new(transport: Transport) -> (c: Coordinator)
        requires
            transport.wf(),
        ensures
            c.wf(),
            c@ == (CoordinatorModel {
                transport,
                in_flight: Seq::empty(),
                answers: Seq::empty(),
                inbound_closed: false,
            }),
    {
        Coordinator { transport, in_flight: Vec::new(), answers: Vec::new(), inbound_closed: false }
    }

    pub fn transport(&self) -> (r: &Transport)
        ensures
            *r == self@.transport,
    {
        &self.transport
    }

    /// Records a request received at `now_ms` whose pong takes `delay_ms`:
    /// it gets the next token and awaits its reply.
    pub fn accept_with_delay(&mut self, id: usize, now_ms: u64, delay_ms: u64) -> (d: Dispatch)
        requires
            old(self).wf(),
            !old(self)@.inbound_closed,
            old(self)@.transport.admits(delay_ms as nat),
            now_ms + delay_ms <= u64::MAX,
            old(self)@.in_flight.len() < usize::MAX,
        ensures
            final(self).wf(),
            d == (Dispatch { token: old(self)@.in_flight.len() as usize, id, delay_ms }),
            final(self)@ == (CoordinatorModel {
                in_flight: old(self)@.in_flight.push(InFlight { id, start_ms: now_ms, delay_ms }),
                answers: old(self)@.answers.push(None),
                ..old(self)@
            }),
    {
        let token = self.in_flight.len();
        self.in_flight.push(InFlight { id, start_ms: now_ms, delay_ms });
        self.answers.push(None);
        Dispatch { token, id, delay_ms }
    }

    /// Receives a request at `now_ms`: triggers the transport's pong and
    /// records the request with the delay the transport chose.
    pub fn accept(&mut self, id: usize, now_ms: u64) -> (d: Dispatch)
        requires
            old(self).wf(),
            !old(self)@.inbound_closed,
            now_ms + old(self)@.transport@.max <= u64::MAX,
            old(self)@.in_flight.len() < usize::MAX,
        ensures
            final(self).wf(),
            old(self)@.transport.admits(d.delay_ms as nat),
            d == (Dispatch { token: old(self)@.in_flight.len() as usize, id, delay_ms: d.delay_ms }),
            final(self)@ == (CoordinatorModel {
                in_flight: old(self)@.in_flight.push(InFlight { id, start_ms: now_ms, delay_ms: d.delay_ms }),
                answers: old(self)@.answers.push(None),
                ..old(self)@
            }),
    {
        let delay_ms = self.transport.recv_pong();
        self.accept_with_delay(id, now_ms, delay_ms)
    }

    /// The pong for `token` arrived at `now_ms`: returns the reply for that
    /// request, carrying its requester's identity and the elapsed time since
    /// its ping.
    pub fn fulfill(&mut self, token: usize, now_ms: u64) -> (r: Reply)
        requires
            old(self).wf(),
            token < old(self)@.in_flight.len(),
            old(self)@.answers[token as int] is None,
            now_ms >= old(self)@.in_flight[token as int].deadline(),
        ensures
            final(self).wf(),
            r == reply_at(old(self)@.in_flight[token as int], now_ms as int),
            final(self)@ == (CoordinatorModel {
                answers: old(self)@.answers.update(token as int, Some(r)),
                ..old(self)@
            }),
    {
        let req = self.in_flight[token];
        let r = Reply { id: req.id, rtt_ms: now_ms - req.start_ms };
        self.answers.set(token, Some(r));
        r
    }

    /// No more requests will come.
    pub fn close_inbound(&mut self)
        requires
            old(self).wf(),
        ensures
            final(self).wf(),
            final(self)@ == (CoordinatorModel { inbound_closed: true, ..old(self)@ }),
    {
        self.inbound_closed = true;
    }

    /// Number of requests accepted so far.
    pub fn accepted(&self) -> (r: usize)
        ensures
            r == self@.in_flight.len(),
    {
        self.in_flight.len()
    }

    /// Number of requests whose reply is still owed.
    pub fn outstanding(&self) -> (r: usize)
        requires
            self.wf(),
        ensures
            r == count_unanswered(self@.answers),
    {
        let mut n: usize = 0;
        let mut i: usize = 0;
        while i < self.answers.len()
            invariant
                i <= self.answers@.len(),
                n == count_unanswered(self.answers@.take(i as int)),
                n <= i,
            decreases self.answers@.len() - i,
        {
            proof {
                let s = self.answers@.take(i as int + 1);
                assert(s.drop_last() =~= self.answers@.take(i as int));
            }
            if self.answers[i].is_none() {
                n = n + 1;
            }
            i = i + 1;
        }
        assert(self.answers@.take(i as int) =~= self.answers@);
        n
    }

    /// Whether every accepted request has its reply and no more will come.
    pub fn is_finished(&self) -> (r: bool)
        requires
            self.wf(),
        ensures
            r == finished(self@),
    {
        if !self.inbound_closed {
            return false;
        }
        let mut i: usize = 0;
        while i < self.answers.len()
            invariant
                i <= self.answers@.len(),
                forall|t: int| 0 <= t < i ==> (#[trigger] self.answers@[t]) is Some,
            decreases self.answers@.len() - i,
        {
            if self.answers[i].is_none() {
                return false;
            }
            i = i + 1;
        }
        true
    }

    pub fn phase(&self) -> (p: Phase)
        requires
            self.wf(),
        ensures
            p == if finished(self@) { Phase::Closed } else { Phase::Idle },
    {
        if self.is_finished() {
            Phase::Closed
        } else {
            Phase::Idle
        }
    }
}

proof fn lemma_none_left(answers: Seq<Option<Reply>>)
    requires
        forall|t: int| 0 <= t < answers.len() ==> (#[trigger] answers[t]) is Some,
    ensures
        count_unanswered(answers) == 0,
    decreases answers.len(),
{
    if answers.len() > 0 {
        let rest = answers.drop_last();
        assert forall|t: int| 0 <= t < rest.len() implies (#[trigger] rest[t]) is Some by {
            assert(rest[t] == answers[t]);
        }
        lemma_none_left(rest);
        assert(answers[answers.len() - 1] is Some);
    }
}

/// Law: once the coordinator is finished, each accepted request has exactly
/// one reply, none is owed, and every reply carries the identity of the
/// request it answers.
pub proof fn lemma_one_reply_per_request(c: Coordinator)
    requires
        c.wf(),
        finished(c@),
    ensures
        count_unanswered(c@.answers) == 0,
        c@.answers.len() == c@.in_flight.len(),
        forall|t: int|
            0 <= t < c@.in_flight.len() ==> (#[trigger] c@.answers[t]) is Some
                && c@.answers[t]->0.id == c@.in_flight[t].id,
{
    lemma_none_left(c@.answers);
}

/// Law: every measured round trip lies in the transport's delay range
/// `[min, max)`, widened at the top by the time `slack_ms` the reply took to
/// be handled after its pong arrived.
pub proof fn lemma_rtt_in_delay_range(c: Coordinator, t: int, slack_ms: nat)
    requires
        c.wf(),
        0 <= t < c@.answers.len(),
        c@.answers[t] is Some,
        c@.answers[t]->0.rtt_ms <= c@.in_flight[t].delay_ms + slack_ms,
    ensures
        c@.transport@.min <= c@.answers[t]->0.rtt_ms < c@.transport@.max + slack_ms,
{
}

} // verus!
