//! Heartbeats: the pings each side sends a peer at a fixed period. The
//! caller owns the timer and the clock; this decides the period and the
//! content of each ping.
use crate::message::Message;
use vstd::prelude::*;

verus! {

/// The shortest period between two pings, in milliseconds.
pub const MIN_HEARTBEAT_MS: u64 = 500;

/// The period actually used for a configured interval: the interval, but
/// never less than [`MIN_HEARTBEAT_MS`].
pub fn heartbeat_period_ms(interval_ms: u64) -> (p: u64)
    ensures
        p == if interval_ms < MIN_HEARTBEAT_MS { MIN_HEARTBEAT_MS } else { interval_ms },
        p >= MIN_HEARTBEAT_MS,
{
    if interval_ms < MIN_HEARTBEAT_MS {
        MIN_HEARTBEAT_MS
    } else {
        interval_ms
    }
}

/// The pings sent to one peer so far: each carries the next nonce, counting
/// from 1 and wrapping at the top of `u64`.
#[derive(Debug, Clone, Copy, PartialEq, Eq, Structural)]
pub struct Heartbeat {
    pub nonce: u64,
}

impl Heartbeat {
    /// No ping sent yet.
    pub fn new() -> (h: Self)
        ensures
            h.nonce == 0,
    {
        Heartbeat { nonce: 0 }
    }

    /// The next ping, stamped with `timestamp_ms` (milliseconds since the
    /// Unix epoch, or 0 when the clock is before it).
    pub fn next_ping(&mut self, timestamp_ms: u64) -> (m: Message)
        ensures
            final(self).nonce == (if old(self).nonce == u64::MAX { 0 } else { (old(self).nonce + 1) as u64 }),
            m == (Message::Ping { nonce: final(self).nonce, timestamp_ms }),
    {
        self.nonce = self.nonce.wrapping_add(1);
        Message::Ping { nonce: self.nonce, timestamp_ms }
    }
}

} // verus!
