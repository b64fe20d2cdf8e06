//! Liveness of the remote peer, measured on a monotonic millisecond clock.

use vstd::prelude::*;

verus! {

/// Milliseconds in one second.
pub const MILLIS_PER_SECOND: u64 = 1000;

/// Time during which nothing was heard from the peer, in milliseconds. A
/// clock reading that lies before the last sign of life counts as no time.
pub open spec fn silence_ms(last_seen_ms: u64, now_ms: u64) -> int {
    if now_ms >= last_seen_ms {
        now_ms - last_seen_ms
    } else {
        0
    }
}

/// The peer is unreachable once it has been silent for the whole heartbeat
/// interval. Silence of exactly the interval already counts: there is no
/// grace period.
pub open spec fn peer_unreachable(last_seen_ms: u64, now_ms: u64, interval_secs: u64) -> bool {
    silence_ms(last_seen_ms, now_ms) >= interval_secs * MILLIS_PER_SECOND
}

/// Decides whether the peer has been silent for at least the heartbeat
/// interval.
pub fn is_unreachable(last_seen_ms: u64, now_ms: u64, interval_secs: u64) -> (lost: bool)
    ensures
        lost == peer_unreachable(last_seen_ms, now_ms, interval_secs),
{
    let silence: u64 = if now_ms >= last_seen_ms {
        now_ms - last_seen_ms
    } else {
        0
    };
    match interval_secs.checked_mul(MILLIS_PER_SECOND) {
        Some(threshold) => silence >= threshold,
        None => false,
    }
}

} // verus!
