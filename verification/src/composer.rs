//! The event composer: polls the aircraft-state channel and the alert
//! channel once per scheduling slot, detects "new arrival since last
//! poll" per channel by timestamp comparison, and builds the fixed
//! two-slot event vector consumed by the external verification monitor
//! (slot 0 is the input channel, slot 1 the output channel; the monitor's
//! stream semantics depend on that order). It also selects which trigger
//! messages to emit from the monitor's verdicts.
use vstd::prelude::*;

use crate::channel::SampledChannel;
use crate::codec::{decode_alert_state, decode_input, valid_alert_bytes, valid_input_bytes};

verus! {

/// The fixed two-slot event vector: the timestamp of the newest input
/// arrival and of the newest output arrival, each possibly absent.
#[derive(Clone, Copy, Debug, PartialEq, Eq, Structural)]
pub struct MonitorEvent {
    /// Slot 0: new arrival time on the aircraft-state channel, if any.
    pub input_slot: Option<u64>,
    /// Slot 1: new arrival time on the alert-state channel, if any.
    pub output_slot: Option<u64>,
}

/// What one poll of the input channel yields for composition: the arrival
/// timestamp, provided the message is within its validity window and its
/// bytes decode (a malformed frame is dropped, not fatal).
pub open spec fn input_observation(c: SampledChannel, now: u64) -> Option<u64> {
    match c.contents() {
        Some((p, t)) => if c.fresh_at(now) && valid_input_bytes(p) {
            Some(t)
        } else {
            None
        },
        None => None,
    }
}

/// What one poll of the output channel yields for composition; as for the
/// input channel, with the alert-state wire format.
pub open spec fn output_observation(c: SampledChannel, now: u64) -> Option<u64> {
    match c.contents() {
        Some((p, t)) => if c.fresh_at(now) && valid_alert_bytes(p) {
            Some(t)
        } else {
            None
        },
        None => None,
    }
}

/// The event slot produced from one observation against the latched
/// timestamp: populated exactly when a message is observed whose arrival
/// time differs from the last observed one.
pub open spec fn slot_after(latch: Option<u64>, obs: Option<u64>) -> Option<u64> {
    match obs {
        Some(t) => if latch == Some(t) {
            None
        } else {
            Some(t)
        },
        None => None,
    }
}

/// The latch after one observation: the observed arrival time if a
/// message was observed, else unchanged.
pub open spec fn latch_after(latch: Option<u64>, obs: Option<u64>) -> Option<u64> {
    match obs {
        Some(t) => Some(t),
        None => latch,
    }
}

/// The per-channel "last observed timestamp" state machine, initialized
/// to "none observed".
pub struct EventComposer {
    last_input: Option<u64>,
    last_output: Option<u64>,
}

impl EventComposer {
    /// The latched last-observed arrival time of the input channel.
    pub closed spec fn input_latch(self) -> Option<u64> {
        self.last_input
    }

    /// The latched last-observed arrival time of the output channel.
    pub closed spec fn output_latch(self) -> Option<u64> {
        self.last_output
    }

    /// A composer that has observed nothing yet.
    pub fn new() -> (r: Self)
        ensures
            r.input_latch() is None,
            r.output_latch() is None,
    {
        EventComposer { last_input: None, last_output: None }
    }

    /// One scheduling slot's composition: poll both channels, input before
    /// output, fill each event slot exactly when a decodable message is
    /// present whose arrival time differs from the latched one, and update
    /// the latches.
    pub fn compose(&mut self, input: &SampledChannel, output: &SampledChannel, now: u64) -> (ev: MonitorEvent)
        requires
            input.clock_le(now),
            output.clock_le(now),
        ensures
            ev.input_slot == slot_after(old(self).input_latch(), input_observation(*input, now)),
            ev.output_slot == slot_after(old(self).output_latch(), output_observation(*output, now)),
            final(self).input_latch() == latch_after(old(self).input_latch(), input_observation(*input, now)),
            final(self).output_latch() == latch_after(old(self).output_latch(), output_observation(*output, now)),
    {
        let input_slot = match input.poll(now) {
            Some((p, t)) => {
                if decode_input(&p).is_some() {
                    let fired = match self.last_input {
                        Some(t0) => t0 != t,
                        None => true,
                    };
                    self.last_input = Some(t);
                    if fired {
                        Some(t)
                    } else {
                        None
                    }
                } else {
                    None
                }
            },
            None => None,
        };
        let output_slot = match output.poll(now) {
            Some((p, t)) => {
                if decode_alert_state(&p).is_some() {
                    let fired = match self.last_output {
                        Some(t0) => t0 != t,
                        None => true,
                    };
                    self.last_output = Some(t);
                    if fired {
                        Some(t)
                    } else {
                        None
                    }
                } else {
                    None
                }
            },
            None => None,
        };
        MonitorEvent { input_slot, output_slot }
    }
}

/// New-arrival latch law: once an observation has been composed, composing
/// the very same observation again never re-populates the event slot — the
/// same arrival timestamp seen on two consecutive polls fires at most once.
pub proof fn lemma_new_arrival_latch(latch: Option<u64>, obs: Option<u64>)
    ensures
        slot_after(latch_after(latch, obs), obs) is None,
{
}

/// Slot monotonicity law: under a monotonic channel clock (no observation
/// older than the latch), a populated event slot never moves backwards in
/// time.
pub proof fn lemma_slot_monotonic(latch: Option<u64>, obs: Option<u64>, t0: u64)
    requires
        latch == Some(t0),
        obs matches Some(t) ==> t >= t0,
    ensures
        slot_after(latch, obs) matches Some(t) ==> t >= t0,
        latch_after(latch, obs) matches Some(t) ==> t >= t0,
{
}

/// The indices of the verdicts that fired, in verdict order.
pub open spec fn true_indices(vs: Seq<(u32, bool)>) -> Seq<u32>
    decreases vs.len(),
{
    if vs.len() == 0 {
        Seq::empty()
    } else if vs.last().1 {
        true_indices(vs.drop_last()).push(vs.last().0)
    } else {
        true_indices(vs.drop_last())
    }
}

/// From the monitor's verdict set, select the triggers to emit: exactly
/// those entries whose boolean is true, in order; the caller resolves each
/// index against the human-readable message table.
pub fn select_triggers(verdicts: &Vec<(u32, bool)>) -> (r: Vec<u32>)
    ensures
        r@ == true_indices(verdicts@),
{
    let mut r: Vec<u32> = Vec::new();
    let mut i: usize = 0;
    while i < verdicts.len()
        invariant
            i <= verdicts@.len(),
            r@ == true_indices(verdicts@.take(i as int)),
        decreases verdicts@.len() - i,
    {
        proof {
            assert(verdicts@.take(i + 1).drop_last() =~= verdicts@.take(i as int));
        }
        let (idx, fired) = verdicts[i];
        if fired {
            r.push(idx);
        }
        i = i + 1;
    }
    proof {
        assert(verdicts@.take(verdicts@.len() as int) =~= verdicts@);
    }
    r
}

} // verus!
