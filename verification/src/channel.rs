//! The sampled channel: a named, directional, fixed-capacity message slot
//! with a validity window. Last-value-wins, non-queuing, non-blocking and
//! memory-only; a message older than the validity window is treated as
//! absent, and a status query exposes the last-seen timestamp independent
//! of the validity filtering.
use vstd::prelude::*;

use crate::TransportError;

verus! {

/// A last-value-wins message slot. Timestamps are ticks of a monotonic
/// clock; the one designated sender must never send with a clock value
/// older than its previous send.
pub struct SampledChannel {
    capacity: usize,
    validity_window: u64,
    slot: Option<(Vec<u8>, u64)>,
}

impl SampledChannel {
    /// The fixed byte capacity of the slot.
    pub closed spec fn cap(self) -> int {
        self.capacity as int
    }

    /// The validity window, in clock ticks.
    pub closed spec fn window(self) -> u64 {
        self.validity_window
    }

    /// The current contents: the most recent payload and its arrival time,
    /// if anything was ever sent.
    pub closed spec fn contents(self) -> Option<(Seq<u8>, u64)> {
        match self.slot {
            Some((p, t)) => Some((p@, t)),
            None => None,
        }
    }

    /// The arrival timestamp of the most recent message, if any.
    pub open spec fn last_ts(self) -> Option<u64> {
        match self.contents() {
            Some((_, t)) => Some(t),
            None => None,
        }
    }

    /// The channel's clock has not run past `now`: the recorded arrival
    /// time, if any, is no later than `now`.
    pub open spec fn clock_le(self, now: u64) -> bool {
        match self.last_ts() {
            Some(t) => t <= now,
            None => true,
        }
    }

    /// Whether the slot holds a message that is still within the validity
    /// window at time `now`.
    pub open spec fn fresh_at(self, now: u64) -> bool {
        match self.contents() {
            Some((_, t)) => t <= now && now - t <= self.window(),
            None => false,
        }
    }

    /// An empty channel with the given capacity and validity window.
    pub fn new(capacity: usize, validity_window: u64) -> (r: Self)
        ensures
            r.cap() == capacity,
            r.window() == validity_window,
            r.contents() is None,
    {
        SampledChannel { capacity, validity_window, slot: None }
    }

    /// Write `payload` into the slot, overwriting any prior content, and
    /// record `now` as its arrival time. Fails with `EncodingTooLarge`,
    /// leaving the slot untouched, exactly when the payload exceeds the
    /// channel's capacity.
    pub fn send(&mut self, payload: &Vec<u8>, now: u64) -> (r: Result<(), TransportError>)
        requires
            old(self).clock_le(now),
        ensures
            final(self).cap() == old(self).cap(),
            final(self).window() == old(self).window(),
            r is Ok <==> payload@.len() <= old(self).cap(),
            r is Ok ==> final(self).contents() == Some((payload@, now)),
            r is Err ==> r == Err::<(), TransportError>(TransportError::EncodingTooLarge)
                && *final(self) == *old(self),
    {
        if payload.len() > self.capacity {
            Err(TransportError::EncodingTooLarge)
        } else {
            self.slot = Some((payload.clone(), now));
            Ok(())
        }
    }

    /// Read the most recent message and its arrival timestamp, if the
    /// elapsed time since arrival is within the validity window; an older
    /// or absent message reads as `None` (a stale read is not an error).
    pub fn poll(&self, now: u64) -> (r: Option<(Vec<u8>, u64)>)
        requires
            self.clock_le(now),
        ensures
            r is Some <==> self.fresh_at(now),
            r matches Some((p, t)) ==> self.contents() == Some((p@, t)),
    {
        match &self.slot {
            Some((p, t)) => {
                if now - *t <= self.validity_window {
                    Some((p.clone(), *t))
                } else {
                    None
                }
            },
            None => None,
        }
    }

    /// The last-seen arrival timestamp, independent of validity-window
    /// filtering; lets a caller tell "same message seen twice" from "new
    /// message arrived but is already stale".
    pub fn status(&self) -> (r: Option<u64>)
        ensures
            r == self.last_ts(),
    {
        match &self.slot {
            Some((_, t)) => Some(*t),
            None => None,
        }
    }
}

/// Freshness law: a message sent at `t0` reads as present when polled at
/// most one validity window later, and as absent on any later poll.
pub proof fn lemma_freshness_window(c: SampledChannel, t0: u64, now: u64, p: Seq<u8>)
    requires
        c.contents() == Some((p, t0)),
        t0 <= now,
    ensures
        now - t0 <= c.window() ==> c.fresh_at(now),
        now - t0 > c.window() ==> !c.fresh_at(now),
{
}

} // verus!
