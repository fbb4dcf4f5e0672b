//! Message types exchanged between partitions: command-plus-state input
//! messages and bounded alert-state messages.
use vstd::prelude::*;

use crate::N_ALERTSYSTEMS;

verus! {

/// One of the eight alert subsystems.
#[derive(Clone, Copy, Debug, PartialEq, Eq, Structural)]
pub enum AlertSystemId {
    Ffac,
    Flta,
    Mode1,
    Mode2,
    Mode3,
    Mode4,
    Mode5,
    Pda,
}

/// Urgency of an alert. A lower numeric value is more urgent.
#[derive(Clone, Copy, Debug, PartialEq, Eq, Structural)]
pub enum PriorityLevel {
    Warning,
    Caution,
    Annunciation,
}

/// Numeric code of an alert subsystem, used by the wire format.
pub open spec fn sys_value(s: AlertSystemId) -> u8 {
    match s {
        AlertSystemId::Ffac => 0,
        AlertSystemId::Flta => 1,
        AlertSystemId::Mode1 => 2,
        AlertSystemId::Mode2 => 3,
        AlertSystemId::Mode3 => 4,
        AlertSystemId::Mode4 => 5,
        AlertSystemId::Mode5 => 6,
        AlertSystemId::Pda => 7,
    }
}

/// Numeric urgency of a priority level: lower is more urgent.
pub open spec fn level_value(l: PriorityLevel) -> u8 {
    match l {
        PriorityLevel::Warning => 0,
        PriorityLevel::Caution => 1,
        PriorityLevel::Annunciation => 2,
    }
}

/// Executable counterpart of `sys_value`.
pub fn sys_code(s: AlertSystemId) -> (r: u8)
    ensures
        r == sys_value(s),
{
    match s {
        AlertSystemId::Ffac => 0,
        AlertSystemId::Flta => 1,
        AlertSystemId::Mode1 => 2,
        AlertSystemId::Mode2 => 3,
        AlertSystemId::Mode3 => 4,
        AlertSystemId::Mode4 => 5,
        AlertSystemId::Mode5 => 6,
        AlertSystemId::Pda => 7,
    }
}

/// Executable counterpart of `level_value`.
pub fn level_code(l: PriorityLevel) -> (r: u8)
    ensures
        r == level_value(l),
{
    match l {
        PriorityLevel::Warning => 0,
        PriorityLevel::Caution => 1,
        PriorityLevel::Annunciation => 2,
    }
}

/// The alert subsystem whose numeric code is `b`, for `b < 8`.
pub open spec fn sys_of_value(b: u8) -> AlertSystemId {
    if b == 0 {
        AlertSystemId::Ffac
    } else if b == 1 {
        AlertSystemId::Flta
    } else if b == 2 {
        AlertSystemId::Mode1
    } else if b == 3 {
        AlertSystemId::Mode2
    } else if b == 4 {
        AlertSystemId::Mode3
    } else if b == 5 {
        AlertSystemId::Mode4
    } else if b == 6 {
        AlertSystemId::Mode5
    } else {
        AlertSystemId::Pda
    }
}

/// The priority level whose numeric urgency is `b`, for `b < 3`.
pub open spec fn level_of_value(b: u8) -> PriorityLevel {
    if b == 0 {
        PriorityLevel::Warning
    } else if b == 1 {
        PriorityLevel::Caution
    } else {
        PriorityLevel::Annunciation
    }
}

/// Decode a subsystem code; succeeds exactly on codes below eight.
pub fn sys_decode(b: u8) -> (r: Option<AlertSystemId>)
    ensures
        r is Some <==> b < 8,
        r matches Some(s) ==> s == sys_of_value(b) && sys_value(s) == b,
{
    if b == 0 {
        Some(AlertSystemId::Ffac)
    } else if b == 1 {
        Some(AlertSystemId::Flta)
    } else if b == 2 {
        Some(AlertSystemId::Mode1)
    } else if b == 3 {
        Some(AlertSystemId::Mode2)
    } else if b == 4 {
        Some(AlertSystemId::Mode3)
    } else if b == 5 {
        Some(AlertSystemId::Mode4)
    } else if b == 6 {
        Some(AlertSystemId::Mode5)
    } else if b == 7 {
        Some(AlertSystemId::Pda)
    } else {
        None
    }
}

/// Decode a priority code; succeeds exactly on codes below three.
pub fn level_decode(b: u8) -> (r: Option<PriorityLevel>)
    ensures
        r is Some <==> b < 3,
        r matches Some(l) ==> l == level_of_value(b) && level_value(l) == b,
{
    if b == 0 {
        Some(PriorityLevel::Warning)
    } else if b == 1 {
        Some(PriorityLevel::Caution)
    } else if b == 2 {
        Some(PriorityLevel::Annunciation)
    } else {
        None
    }
}

/// A fixed physical state vector for one frame. Scalars are plain integers:
/// lengths in feet, rates in feet per minute; a negative climb rate is a
/// descent. Immutable once constructed; each frame is an independent value.
#[derive(Clone, Copy, Debug, PartialEq, Eq, Structural)]
pub struct AircraftStateSnapshot {
    /// Barometric altitude in feet.
    pub altitude: i64,
    /// Height above terrain in feet.
    pub altitude_ground: i64,
    /// Rate of climb in feet per minute; negative when descending.
    pub climb_rate: i64,
    /// Whether steep-approach mode is selected.
    pub steep_approach: bool,
}

impl AircraftStateSnapshot {
    /// A level frame at zero altitude.
    pub fn new() -> (r: Self)
        ensures
            r.altitude == 0,
            r.altitude_ground == 0,
            r.climb_rate == 0,
            !r.steep_approach,
    {
        AircraftStateSnapshot { altitude: 0, altitude_ground: 0, climb_rate: 0, steep_approach: false }
    }
}

/// An optional "set armed" or "set inhibited" command for one subsystem.
pub type AlertCommand = Option<(AlertSystemId, bool)>;

/// The message a producer sends to the alerting partition: one optional
/// arm command and one optional inhibit command per alert subsystem, plus
/// an aircraft-state snapshot.
#[derive(Clone, Debug, PartialEq, Eq)]
pub struct TawsInput {
    /// Arm or disarm commands, one optional slot per subsystem.
    pub arm: Vec<AlertCommand>,
    /// Inhibit or uninhibit commands, one optional slot per subsystem.
    pub inhibit: Vec<AlertCommand>,
    /// The frame to evaluate.
    pub aircraft_state: AircraftStateSnapshot,
}

impl TawsInput {
    /// Both command arrays hold exactly one slot per alert subsystem.
    pub open spec fn wf(self) -> bool {
        self.arm@.len() == N_ALERTSYSTEMS && self.inhibit@.len() == N_ALERTSYSTEMS
    }

    /// A message with no commands and a level frame at zero altitude.
    pub fn new() -> (r: Self)
        ensures
            r.wf(),
            forall|j: int| 0 <= j < N_ALERTSYSTEMS ==> (r.arm@[j] is None),
            forall|j: int| 0 <= j < N_ALERTSYSTEMS ==> (r.inhibit@[j] is None),
            r.aircraft_state == (AircraftStateSnapshot { altitude: 0, altitude_ground: 0, climb_rate: 0, steep_approach: false }),
    {
        let mut arm: Vec<AlertCommand> = Vec::new();
        let mut inhibit: Vec<AlertCommand> = Vec::new();
        let mut j: usize = 0;
        while j < N_ALERTSYSTEMS
            invariant
                j <= N_ALERTSYSTEMS,
                arm@.len() == j,
                inhibit@.len() == j,
                forall|k: int| 0 <= k < j ==> (arm@[k] is None),
                forall|k: int| 0 <= k < j ==> (inhibit@[k] is None),
            decreases N_ALERTSYSTEMS - j,
        {
            arm.push(None);
            inhibit.push(None);
            j = j + 1;
        }
        TawsInput { arm, inhibit, aircraft_state: AircraftStateSnapshot::new() }
    }
}

impl Default for TawsInput {
    /// Same value as `TawsInput::new`.
    fn default() -> (r: Self)
        ensures
            r.wf(),
            forall|j: int| 0 <= j < N_ALERTSYSTEMS ==> (r.arm@[j] is None),
            forall|j: int| 0 <= j < N_ALERTSYSTEMS ==> (r.inhibit@[j] is None),
            r.aircraft_state == (AircraftStateSnapshot { altitude: 0, altitude_ground: 0, climb_rate: 0, steep_approach: false }),
    {
        TawsInput::new()
    }
}

/// One raised alert: which subsystem, at what urgency.
#[derive(Clone, Copy, Debug, PartialEq, Eq, Structural)]
pub struct AlertRecord {
    /// The subsystem that raised the alert.
    pub system: AlertSystemId,
    /// How urgent the alert is; lower is more urgent.
    pub level: PriorityLevel,
}

/// The alerting partition's answer for one frame: zero or more alert
/// records. Its wire encoding must stay within `ALERT_STATE_SIZE` bytes,
/// which bounds the record count.
#[derive(Clone, Debug, PartialEq, Eq)]
pub struct AlertStateMessage {
    /// The raised alerts, in the order the alerting engine reported them.
    pub records: Vec<AlertRecord>,
}

impl AlertStateMessage {
    /// A message with no alerts.
    pub fn new() -> (r: Self)
        ensures
            r.records@.len() == 0,
    {
        AlertStateMessage { records: Vec::new() }
    }
}

impl Default for AlertStateMessage {
    /// Same value as `AlertStateMessage::new`.
    fn default() -> (r: Self)
        ensures
            r.records@.len() == 0,
    {
        AlertStateMessage::new()
    }
}

} // verus!
