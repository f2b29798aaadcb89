use vstd::prelude::*;

verus! {

/// Lower end of the default pong delay, in milliseconds.
pub const DEFAULT_MIN_DELAY_MS: u64 = 0;

/// Upper end (exclusive) of the default pong delay, in milliseconds.
pub const DEFAULT_MAX_DELAY_MS: u64 = 10_000;

/// Relies on rand's `Rng::gen_range` on the thread-local generator: a value
/// drawn from the half-open range `[low, high)`; it panics when `low >= high`.
#[verifier::external_body]
fn draw_in_range(low: u64, high: u64) -> (r: u64)
    requires
        low < high,
    ensures
        low <= r < high,
{
    rand::Rng::gen_range(&mut rand::thread_rng(), low, high)
}

/// The half-open range of pong delays of a transport, in milliseconds.
pub struct DelayRange {
    pub min: nat,
    pub max: nat,
}

/// A simulated endpoint: a ping is answered by a pong after a delay drawn
/// from `[min_delay_ms, max_delay_ms)`.
pub struct Transport {
    min_delay_ms: u64,
    max_delay_ms: u64,
}

impl View for Transport {
    type V = DelayRange;

    closed spec fn view(&self) -> DelayRange {
        DelayRange { min: self.min_delay_ms as nat, max: self.max_delay_ms as nat }
    }
}

impl Transport {
    /// The delay range is never empty.
    pub open spec fn wf(&self) -> bool {
        self@.min < self@.max
    }

    pub fn new(min_delay_ms: u64, max_delay_ms: u64) -> (t: Transport)
        requires
            min_delay_ms < max_delay_ms,
        ensures
            t.wf(),
            t@ == (DelayRange { min: min_delay_ms as nat, max: max_delay_ms as nat }),
    {
        Transport { min_delay_ms, max_delay_ms }
    }

    pub fn default() -> (t: Transport)
        ensures
            t.wf(),
            t@ == (DelayRange { min: DEFAULT_MIN_DELAY_MS as nat, max: DEFAULT_MAX_DELAY_MS as nat }),
    {
        Transport::new(DEFAULT_MIN_DELAY_MS, DEFAULT_MAX_DELAY_MS)
    }

    pub fn min_delay_ms(&self) -> (r: u64)
        ensures
            r == self@.min,
    {
        self.min_delay_ms
    }

    pub fn max_delay_ms(&self) -> (r: u64)
        ensures
            r == self@.max,
    {
        self.max_delay_ms
    }

    /// Whether `delay_ms` is a delay this transport can produce.
    pub open spec fn admits(&self, delay_ms: nat) -> bool {
        self@.min <= delay_ms < self@.max
    }

    /// Triggers the pong for a ping and returns how long it will take to
    /// arrive, in milliseconds: a random value of the transport's range.
    pub fn recv_pong(&self) -> (delay_ms: u64)
        requires
            self.wf(),
        ensures
            self.admits(delay_ms as nat),
    {
        draw_in_range(self.min_delay_ms, self.max_delay_ms)
    }
}

} // verus!
