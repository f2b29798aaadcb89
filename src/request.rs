use vstd::prelude::*;
use crate::channel::SendOutcome;
use crate::poll::Poll;
use crate::reply::Canceled;

verus! {

/// Why a requester did not get its round trip.
#[derive(Debug, Clone, Copy, PartialEq, Eq, Structural)]
pub enum RttError {
    /// The coordinator's inbound channel is closed.
    ChannelClosed,
    /// The reply's producer was dropped before replying.
    Canceled,
}

/// How a requester's send of its request went: on, suspended until the
/// channel has room, or failed.
pub fn on_request_sent<T>(s: SendOutcome<T>) -> (r: Poll<(), RttError>)
    ensures
        match s {
            SendOutcome::Accepted { .. } => r == Poll::<(), RttError>::Ready(()),
            SendOutcome::Full(_) => r is Pending,
            SendOutcome::Closed(_) => r == Poll::<(), RttError>::Failed(RttError::ChannelClosed),
        },
{
    match s {
        SendOutcome::Accepted { .. } => Poll::Ready(()),
        SendOutcome::Full(_) => Poll::Pending,
        SendOutcome::Closed(_) => Poll::Failed(RttError::ChannelClosed),
    }
}

/// How a requester's wait for its reply went; a cancellation is surfaced,
/// never swallowed.
pub fn on_reply<T>(p: Poll<T, Canceled>) -> (r: Poll<T, RttError>)
    ensures
        match p {
            Poll::Ready(v) => r == Poll::<T, RttError>::Ready(v),
            Poll::Pending => r is Pending,
            Poll::Failed(_) => r == Poll::<T, RttError>::Failed(RttError::Canceled),
        },
{
    match p {
        Poll::Ready(v) => Poll::Ready(v),
        Poll::Pending => Poll::Pending,
        Poll::Failed(_) => Poll::Failed(RttError::Canceled),
    }
}

} // verus!
