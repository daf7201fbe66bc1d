use vstd::prelude::*;

verus! {

/// Longest time, in milliseconds, that may pass after the last operator
/// sample before the link counts as lost.
pub const INTERVAL_MS_SIGNAL_LOST: u64 = 1000;

/// Time, in milliseconds, to wait before listening again after the link was lost.
pub const INTERVAL_MS_SIGNAL_RETRY: u64 = 250;

/// Whether the link counts as lost at `now` when the last sample came at `last`.
/// A clock reading earlier than the last sample never counts as lost.
pub open spec fn signal_lost(last: u64, now: u64) -> bool {
    now > last && now - last > INTERVAL_MS_SIGNAL_LOST
}

/// Remembers when the last fresh operator sample arrived.
#[derive(Clone, Copy, Debug, PartialEq, Eq, Structural)]
pub struct SignalMonitor {
    pub last_signal_ms: u64,
}

impl SignalMonitor {
    /// A monitor that counts `now_ms` as the time of the last sample, so that
    /// a link that never delivers is lost after the same interval.
    pub fn new(now_ms: u64) -> (r: SignalMonitor)
        ensures
            r.last_signal_ms == now_ms,
    {
        SignalMonitor { last_signal_ms: now_ms }
    }

    /// Records a fresh sample received at `now_ms`.
    pub fn record(&mut self, now_ms: u64)
        ensures
            final(self).last_signal_ms == now_ms,
    {
        self.last_signal_ms = now_ms;
    }

    /// Whether the link counts as lost at `now_ms`.
    pub fn is_lost(&self, now_ms: u64) -> (r: bool)
        ensures
            r == signal_lost(self.last_signal_ms, now_ms),
    {
        now_ms > self.last_signal_ms && now_ms - self.last_signal_ms > INTERVAL_MS_SIGNAL_LOST
    }
}

} // verus!
