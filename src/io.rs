use vstd::prelude::*;
use crate::poll::Poll;

verus! {

/// Why reading a fixed number of bytes failed.
#[derive(Debug, PartialEq, Eq, Structural)]
pub enum ReadError<E> {
    /// The reader reported end of input before the buffer was full.
    UnexpectedEof,
    /// The reader failed.
    Io(E),
}

/// What a `ReadExact` asks of its caller after one read.
#[derive(Debug, PartialEq, Eq)]
pub enum ReadStep<E> {
    /// The buffer is full; here it is.
    Ready(Vec<u8>),
    /// Bytes were taken and more are wanted: read again at once.
    Again,
    /// The reader is pending, and so is this future.
    Pending,
    Failed(ReadError<E>),
}

/// A future that fills a buffer completely from a reader that may hand out
/// fewer bytes than asked for.
pub struct ReadExact {
    buffer: Vec<u8>,
    pos: usize,
    done: bool,
}

impl ReadExact {
    pub closed spec fn buffer(&self) -> Seq<u8> {
        self.buffer@
    }

    /// How many bytes have been filled in.
    pub closed spec fn pos(&self) -> nat {
        self.pos as nat
    }

    pub closed spec fn is_done(&self) -> bool {
        self.done
    }

    pub open spec fn wf(&self) -> bool {
        self.pos() <= self.buffer().len()
    }

    /// Bytes still wanted.
    pub fn remaining(&self) -> (r: usize)
        requires
            self.wf(),
        ensures
            r == self.buffer().len() - self.pos(),
    {
        self.buffer.len() - self.pos
    }

    /// Marks the future finished and hands its buffer out.
    fn finish(&mut self) -> (b: Vec<u8>)
        ensures
            b@ == old(self).buffer(),
            final(self).wf(),
            final(self).is_done(),
    {
        let mut out: Vec<u8> = Vec::new();
        std::mem::swap(&mut out, &mut self.buffer);
        self.pos = 0;
        self.done = true;
        out
    }

    /// Hands the future the outcome of reading at most `remaining()` bytes.
    /// A read of no bytes while the buffer is not full is an early end of
    /// input.
    pub fn on_read<E>(&mut self, read: Poll<Vec<u8>, E>) -> (r: ReadStep<E>)
        requires
            old(self).wf(),
            !old(self).is_done(),
            read is Ready ==> read->Ready_0@.len() <= old(self).buffer().len() - old(self).pos(),
        ensures
            final(self).wf(),
            match read {
                Poll::Pending => if old(self).pos() == old(self).buffer().len() {
                    r is Ready && r->Ready_0@ == old(self).buffer() && final(self).is_done()
                } else {
                    &&& r is Pending
                    &&& final(self).buffer() == old(self).buffer()
                    &&& final(self).pos() == old(self).pos()
                    &&& !final(self).is_done()
                },
                Poll::Failed(e) => if old(self).pos() == old(self).buffer().len() {
                    r is Ready && r->Ready_0@ == old(self).buffer() && final(self).is_done()
                } else {
                    r is Failed && r->Failed_0 == ReadError::Io(e) && final(self).is_done()
                },
                Poll::Ready(bytes) => {
                    let p = old(self).pos();
                    let filled = old(self).buffer().subrange(0, p as int) + bytes@
                        + old(self).buffer().subrange((p + bytes@.len()) as int, old(self).buffer().len() as int);
                    if p == old(self).buffer().len() {
                        r is Ready && r->Ready_0@ == old(self).buffer() && final(self).is_done()
                    } else if bytes@.len() == 0 {
                        r is Failed && r->Failed_0 == ReadError::<E>::UnexpectedEof && final(self).is_done()
                    } else if p + bytes@.len() == old(self).buffer().len() {
                        r is Ready && r->Ready_0@ == filled && final(self).is_done()
                    } else {
                        &&& r is Again
                        &&& final(self).buffer() == filled
                        &&& final(self).pos() == p + bytes@.len()
                        &&& !final(self).is_done()
                    }
                },
            },
    {
        if self.pos == self.buffer.len() {
            return ReadStep::Ready(self.finish());
        }
        match read {
            Poll::Pending => ReadStep::Pending,
            Poll::Failed(e) => {
                self.done = true;
                ReadStep::Failed(ReadError::Io(e))
            },
            Poll::Ready(bytes) => {
                if bytes.len() == 0 {
                    self.done = true;
                    return ReadStep::Failed(ReadError::UnexpectedEof);
                }
                let blen = self.buffer.len();
                let ghost before = self.buffer@;
                let ghost p = self.pos as int;
                let mut i: usize = 0;
                while i < bytes.len()
                    invariant
                        self.pos as int == p + i,
                        i <= bytes@.len(),
                        p + bytes@.len() <= before.len(),
                        before.len() == blen,
                        !self.done,
                        self.buffer@.len() == before.len(),
                        self.buffer@ == before.subrange(0, p) + bytes@.subrange(0, i as int)
                            + before.subrange(p + i, before.len() as int),
                    decreases bytes@.len() - i,
                {
                    self.buffer.set(self.pos, bytes[i]);
                    self.pos = self.pos + 1;
                    i = i + 1;
                    assert(self.buffer@ =~= before.subrange(0, p) + bytes@.subrange(0, i as int)
                        + before.subrange(p + i, before.len() as int));
                }
                assert(bytes@.subrange(0, i as int) =~= bytes@);
                if self.pos == self.buffer.len() {
                    ReadStep::Ready(self.finish())
                } else {
                    ReadStep::Again
                }
            },
        }
    }
}

/// A future that reads exactly `buffer.len()` bytes into `buffer`.
pub fn read_exact(buffer: Vec<u8>) -> (f: ReadExact)
    ensures
        f.wf(),
        f.buffer() == buffer@,
        f.pos() == 0,
        !f.is_done(),
{
    ReadExact { buffer, pos: 0, done: false }
}

/// The future of reading four bytes.
pub fn read_four_bytes() -> (f: ReadExact)
    ensures
        f.wf(),
        f.buffer() == seq![0u8, 0u8, 0u8, 0u8],
        f.pos() == 0,
        !f.is_done(),
{
    let buf: Vec<u8> = vec![0u8, 0u8, 0u8, 0u8];
    assert(buf@ =~= seq![0u8, 0u8, 0u8, 0u8]);
    read_exact(buf)
}

/// Where a `HelloWorld` writer is.
#[derive(Debug, Clone, Copy, PartialEq, Eq, Structural)]
pub enum HelloState {
    /// Waiting for the connection.
    Connecting,
    /// Connected, with `written` bytes of the payload sent.
    Connected { written: usize },
    /// The whole payload was sent, or the writer failed.
    Finished,
}

/// What a `HelloWorld` writer asks of its caller after one event.
#[derive(Debug, Clone, Copy, PartialEq, Eq, Structural)]
pub enum HelloStep<E> {
    /// The payload was sent in full.
    Ready,
    /// Write the rest of the payload at once.
    Again,
    /// The connection or the socket is pending, and so is this future.
    Pending,
    Failed(E),
}

/// A future that connects and then writes a payload of `payload_len` bytes,
/// as many as the socket takes at a time.
pub struct HelloWorld {
    state: HelloState,
    payload_len: usize,
}

impl HelloWorld {
    pub closed spec fn state(&self) -> HelloState {
        self.state
    }

    pub closed spec fn payload_len(&self) -> nat {
        self.payload_len as nat
    }

    pub open spec fn wf(&self) -> bool {
        match self.state() {
            HelloState::Connected { written } => written < self.payload_len(),
            _ => true,
        }
    }

    pub fn new(payload_len: usize) -> (h: HelloWorld)
        ensures
            h.wf(),
            h.state() == HelloState::Connecting,
            h.payload_len() == payload_len,
    {
        HelloWorld { state: HelloState::Connecting, payload_len }
    }

    /// Bytes of the payload still to send once connected.
    pub fn remaining(&self) -> (r: usize)
        requires
            self.wf(),
        ensures
            r == match self.state() {
                HelloState::Connected { written } => self.payload_len() - written,
                HelloState::Connecting => self.payload_len() as int,
                HelloState::Finished => 0,
            },
    {
        match self.state {
            HelloState::Connected { written } => self.payload_len - written,
            HelloState::Connecting => self.payload_len,
            HelloState::Finished => 0,
        }
    }

    /// Hands the writer the outcome of polling its connection.
    pub fn on_connect<E>(&mut self, event: Poll<(), E>) -> (r: HelloStep<E>)
        requires
            old(self).wf(),
            old(self).state() == HelloState::Connecting,
        ensures
            final(self).wf(),
            final(self).payload_len() == old(self).payload_len(),
            match event {
                Poll::Pending => r is Pending && final(self).state() == HelloState::Connecting,
                Poll::Failed(e) => r == HelloStep::Failed(e) && final(self).state() == HelloState::Finished,
                Poll::Ready(()) => if old(self).payload_len() == 0 {
                    r is Ready && final(self).state() == HelloState::Finished
                } else {
                    r is Again && final(self).state() == (HelloState::Connected { written: 0 })
                },
            },
    {
        match event {
            Poll::Pending => HelloStep::Pending,
            Poll::Failed(e) => {
                self.state = HelloState::Finished;
                HelloStep::Failed(e)
            },
            Poll::Ready(()) => {
                if self.payload_len == 0 {
                    self.state = HelloState::Finished;
                    HelloStep::Ready
                } else {
                    self.state = HelloState::Connected { written: 0 };
                    HelloStep::Again
                }
            },
        }
    }

    /// Hands the writer the outcome of one write of the rest of the payload:
    /// the number of bytes the socket took.
    pub fn on_write<E>(&mut self, event: Poll<usize, E>) -> (r: HelloStep<E>)
        requires
            old(self).wf(),
            old(self).state() is Connected,
            event is Ready ==> event->Ready_0 <= old(self).payload_len() - old(self).state()->written,
        ensures
            final(self).wf(),
            final(self).payload_len() == old(self).payload_len(),
            match event {
                Poll::Pending => r is Pending && final(self).state() == old(self).state(),
                Poll::Failed(e) => r == HelloStep::Failed(e) && final(self).state() == HelloState::Finished,
                Poll::Ready(n) => {
                    let w = old(self).state()->written + n;
                    if w == old(self).payload_len() {
                        r is Ready && final(self).state() == HelloState::Finished
                    } else {
                        r is Again && final(self).state() == (HelloState::Connected { written: w as usize })
                    }
                },
            },
    {
        let written = match self.state {
            HelloState::Connected { written } => written,
            _ => 0,
        };
        match event {
            Poll::Pending => HelloStep::Pending,
            Poll::Failed(e) => {
                self.state = HelloState::Finished;
                HelloStep::Failed(e)
            },
            Poll::Ready(n) => {
                let w = written + n;
                if w == self.payload_len {
                    self.state = HelloState::Finished;
                    HelloStep::Ready
                } else {
                    self.state = HelloState::Connected { written: w };
                    HelloStep::Again
                }
            },
        }
    }
}

/// One item of the merged stream that a byte tally consumes.
#[derive(Debug, Clone, Copy, PartialEq, Eq, Structural)]
pub enum TallyItem {
    /// A connection read this many bytes.
    Value(usize),
    /// The report interval elapsed.
    Tick,
    /// The channel of values is exhausted.
    Done,
}

/// What a byte tally does with one item.
#[derive(Debug, Clone, Copy, PartialEq, Eq, Structural)]
pub enum TallyStep {
    Added,
    /// Report this many bytes read since the last tick.
    Report(usize),
    Finished,
}

/// Sums the bytes read between two ticks; reports and resets on each tick.
pub struct ByteTally {
    sum: usize,
    finished: bool,
}

impl ByteTally {
    pub closed spec fn sum(&self) -> nat {
        self.sum as nat
    }

    pub closed spec fn is_finished(&self) -> bool {
        self.finished
    }

    pub fn new() -> (t: ByteTally)
        ensures
            t.sum() == 0,
            !t.is_finished(),
    {
        ByteTally { sum: 0, finished: false }
    }

    pub fn current(&self) -> (r: usize)
        ensures
            r == self.sum(),
    {
        self.sum
    }

    pub fn on_item(&mut self, item: TallyItem) -> (r: TallyStep)
        requires
            !old(self).is_finished(),
            item is Value ==> old(self).sum() + item->Value_0 <= usize::MAX,
        ensures
            match item {
                TallyItem::Value(v) => r is Added && final(self).sum() == old(self).sum() + v
                    && !final(self).is_finished(),
                TallyItem::Tick => r == TallyStep::Report(old(self).sum() as usize) && final(self).sum()
                    == 0 && !final(self).is_finished(),
                TallyItem::Done => r is Finished && final(self).is_finished() && final(self).sum()
                    == old(self).sum(),
            },
    {
        match item {
            TallyItem::Value(v) => {
                self.sum = self.sum + v;
                TallyStep::Added
            },
            TallyItem::Tick => {
                let s = self.sum;
                self.sum = 0;
                TallyStep::Report(s)
            },
            TallyItem::Done => {
                self.finished = true;
                TallyStep::Finished
            },
        }
    }
}

} // verus!
