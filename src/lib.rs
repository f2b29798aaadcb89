//! A poll-driven model of a small actor system: futures and streams that
//! report Ready / Pending / Failed, a bounded multi-producer channel with
//! backpressure, a one-shot reply slot, and a coordinator that owns a
//! simulated transport and answers round-trip requests.
use vstd::prelude::*;

pub mod poll;
pub mod channel;
pub mod reply;
pub mod transport;
pub mod coordinator;
pub mod fib;
pub mod future;
pub mod data;
pub mod io;
pub mod request;
pub mod executor;
