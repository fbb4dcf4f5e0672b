//! Data plane of a partitioned, time-sliced terrain-awareness alerting
//! subsystem: staleness-aware sampled-message transport, fixed-byte-budget
//! message framing, timestamp-driven event composition for a runtime
//! monitor, and a scenario harness with a continuity-preserving
//! ("bouncing") constraint engine for synthetic trajectories.
use vstd::prelude::*;

pub mod channel;
pub mod clamp;
pub mod codec;
pub mod composer;
pub mod controller;
pub mod harness;
pub mod messages;

verus! {

/// Number of independent alert subsystems.
pub const N_ALERTSYSTEMS: usize = 8;

/// Byte budget for one encoded input message (commands plus aircraft state).
pub const AIRCRAFT_STATE_SIZE: usize = 128;

/// Byte budget for one encoded alert-state message.
pub const ALERT_STATE_SIZE: usize = 16;

/// Size of the scratch buffer partitions use for channel exchanges.
pub const BUF_SIZE: usize = AIRCRAFT_STATE_SIZE;

/// Transport-level failures. A stale read is not an error: it is an absent
/// value, so it has no variant here.
#[derive(Clone, Copy, Debug, PartialEq, Eq, Structural)]
pub enum TransportError {
    /// A channel could not be created; fatal at partition scope.
    ChannelUnavailable,
    /// An encoded message exceeds the fixed byte budget of its destination;
    /// indicates a compile-time-constant mismatch, never recoverable.
    EncodingTooLarge,
    /// Received bytes do not parse; the frame is dropped, not fatal.
    DecodingFailed,
}

} // verus!
