//! The scenario harness: composable continuity-preserving constraint
//! transforms ("moulds") applied to synthetic aircraft-state frames, the
//! harness context that owns the channel pair for one scenario, and the
//! alert-timing oracles evaluated over the observed alert-state sequence.
//! Frame synthesis itself is randomized by a collaborator; the harness
//! takes the frames as values.
use vstd::prelude::*;

use crate::channel::SampledChannel;
use crate::clamp::{
    BouncingClamp, CLAMP_BOUND, bounce_at_least, bounce_at_most, bounce_in_range,
    bounce_not_in_range,
};
use crate::codec::{INPUT_WIRE_SIZE, alert_matches, encode_input, input_matches, valid_alert_bytes, decode_alert_state};
use crate::messages::{
    AircraftStateSnapshot, AlertRecord, AlertStateMessage, AlertSystemId, PriorityLevel,
    TawsInput, level_code, level_value, sys_code, sys_value,
};
use crate::{N_ALERTSYSTEMS, TransportError};

verus! {

/// Bound on a mould's scalar parameters (feet or feet per minute); far
/// beyond any physical flight value.
pub const MOULD_PARAM_BOUND: i64 = 0x1_0000_0000;

/// Bound on the scalar fields of a freshly synthesized frame.
pub const FRAME_BOUND: i64 = 0x100_0000_0000;

/// How much one mould application can enlarge a frame's scalar fields.
pub const MOULD_STEP: i64 = 0x4_0000_0000;

/// Most moulds one scenario may register.
pub const MAX_MOULDS: usize = 0x10_0000;

/// Which scalar field of a frame a clamp constraint controls.
#[derive(Clone, Copy, Debug, PartialEq, Eq, Structural)]
pub enum FrameField {
    Altitude,
    AltitudeGround,
    ClimbRate,
}

/// One trajectory constraint: a tagged variant carrying its parameters,
/// applied to every synthesized frame through a bouncing clamp.
#[derive(Clone, Copy, Debug, PartialEq, Eq, Structural)]
pub enum Mould {
    /// Select or deselect steep-approach mode.
    SetSteepApproach(bool),
    /// Force the field to at least the given floor.
    ClampAtLeast(FrameField, i64),
    /// Force the field to at most the given ceiling.
    ClampAtMost(FrameField, i64),
    /// Force the field into the closed band.
    ClampInRange(FrameField, i64, i64),
    /// Force the field out of the closed band.
    ClampNotInRange(FrameField, i64, i64),
}

/// The value of one scalar field of a frame.
pub open spec fn field_value(f: FrameField, a: AircraftStateSnapshot) -> i64 {
    match f {
        FrameField::Altitude => a.altitude,
        FrameField::AltitudeGround => a.altitude_ground,
        FrameField::ClimbRate => a.climb_rate,
    }
}

/// The frame with one scalar field replaced.
pub open spec fn with_field(f: FrameField, a: AircraftStateSnapshot, v: i64) -> AircraftStateSnapshot {
    match f {
        FrameField::Altitude => AircraftStateSnapshot { altitude: v, ..a },
        FrameField::AltitudeGround => AircraftStateSnapshot { altitude_ground: v, ..a },
        FrameField::ClimbRate => AircraftStateSnapshot { climb_rate: v, ..a },
    }
}

impl Mould {
    /// The parameters lie within the physical bound, and a band is not
    /// empty.
    pub open spec fn wf(self) -> bool {
        match self {
            Mould::SetSteepApproach(_) => true,
            Mould::ClampAtLeast(_, lo) => -MOULD_PARAM_BOUND <= lo <= MOULD_PARAM_BOUND,
            Mould::ClampAtMost(_, hi) => -MOULD_PARAM_BOUND <= hi <= MOULD_PARAM_BOUND,
            Mould::ClampInRange(_, lo, hi) => lo <= hi && -MOULD_PARAM_BOUND <= lo
                && hi <= MOULD_PARAM_BOUND,
            Mould::ClampNotInRange(_, lo, hi) => lo <= hi && -MOULD_PARAM_BOUND <= lo
                && hi <= MOULD_PARAM_BOUND,
        }
    }

    /// The frame after this constraint.
    pub open spec fn applied(self, a: AircraftStateSnapshot) -> AircraftStateSnapshot {
        match self {
            Mould::SetSteepApproach(b) => AircraftStateSnapshot { steep_approach: b, ..a },
            Mould::ClampAtLeast(f, lo) => with_field(
                f,
                a,
                bounce_at_least(field_value(f, a) as int, lo as int) as i64,
            ),
            Mould::ClampAtMost(f, hi) => with_field(
                f,
                a,
                bounce_at_most(field_value(f, a) as int, hi as int) as i64,
            ),
            Mould::ClampInRange(f, lo, hi) => with_field(
                f,
                a,
                bounce_in_range(field_value(f, a) as int, lo as int, hi as int) as i64,
            ),
            Mould::ClampNotInRange(f, lo, hi) => with_field(
                f,
                a,
                bounce_not_in_range(field_value(f, a) as int, lo as int, hi as int) as i64,
            ),
        }
    }

    /// Apply this constraint to one frame in place.
    pub fn apply(&self, frame: &mut AircraftStateSnapshot)
        requires
            self.wf(),
            frame_within(*old(frame), CLAMP_BOUND as int - MOULD_STEP as int),
        ensures
            *final(frame) == self.applied(*old(frame)),
            forall|b: int| b >= 0 && frame_within(*old(frame), b) ==> frame_within(
                *final(frame),
                b + MOULD_STEP,
            ),
    {
        let mut bouncer = BouncingClamp();
        match *self {
            Mould::SetSteepApproach(b) => {
                frame.steep_approach = b;
            },
            Mould::ClampAtLeast(f, lo) => {
                match f {
                    FrameField::Altitude => bouncer.at_least(&mut frame.altitude, lo),
                    FrameField::AltitudeGround => bouncer.at_least(&mut frame.altitude_ground, lo),
                    FrameField::ClimbRate => bouncer.at_least(&mut frame.climb_rate, lo),
                }
            },
            Mould::ClampAtMost(f, hi) => {
                match f {
                    FrameField::Altitude => bouncer.at_most(&mut frame.altitude, hi),
                    FrameField::AltitudeGround => bouncer.at_most(&mut frame.altitude_ground, hi),
                    FrameField::ClimbRate => bouncer.at_most(&mut frame.climb_rate, hi),
                }
            },
            Mould::ClampInRange(f, lo, hi) => {
                match f {
                    FrameField::Altitude => bouncer.in_range(&mut frame.altitude, lo, hi),
                    FrameField::AltitudeGround => bouncer.in_range(
                        &mut frame.altitude_ground,
                        lo,
                        hi,
                    ),
                    FrameField::ClimbRate => bouncer.in_range(&mut frame.climb_rate, lo, hi),
                }
            },
            Mould::ClampNotInRange(f, lo, hi) => {
                match f {
                    FrameField::Altitude => bouncer.not_in_range(&mut frame.altitude, lo, hi),
                    FrameField::AltitudeGround => bouncer.not_in_range(
                        &mut frame.altitude_ground,
                        lo,
                        hi,
                    ),
                    FrameField::ClimbRate => bouncer.not_in_range(&mut frame.climb_rate, lo, hi),
                }
            },
        }
    }
}

/// Every scalar field of the frame lies within `b` in magnitude.
pub open spec fn frame_within(a: AircraftStateSnapshot, b: int) -> bool {
    &&& -b <= a.altitude <= b
    &&& -b <= a.altitude_ground <= b
    &&& -b <= a.climb_rate <= b
}

/// The frame after a whole mould list, applied in registration order.
pub open spec fn moulds_applied(ms: Seq<Mould>, a: AircraftStateSnapshot) -> AircraftStateSnapshot
    decreases ms.len(),
{
    if ms.len() == 0 {
        a
    } else {
        ms.last().applied(moulds_applied(ms.drop_last(), a))
    }
}

/// Press one synthesized frame into every registered mould, in
/// registration order.
pub fn apply_moulds(moulds: &Vec<Mould>, frame: &mut AircraftStateSnapshot)
    requires
        forall|k: int| 0 <= k < moulds@.len() ==> (#[trigger] moulds@[k]).wf(),
        moulds@.len() <= MAX_MOULDS,
        frame_within(*old(frame), FRAME_BOUND as int),
    ensures
        *final(frame) == moulds_applied(moulds@, *old(frame)),
{
    let ghost frame0 = *frame;
    let mut i: usize = 0;
    while i < moulds.len()
        invariant
            i <= moulds@.len(),
            moulds@.len() <= MAX_MOULDS,
            forall|k: int| 0 <= k < moulds@.len() ==> (#[trigger] moulds@[k]).wf(),
            *frame == moulds_applied(moulds@.take(i as int), frame0),
            frame_within(*frame, FRAME_BOUND as int + i * (MOULD_STEP as int)),
        decreases moulds@.len() - i,
    {
        proof {
            assert(moulds@.take(i + 1).drop_last() =~= moulds@.take(i as int));
            assert(FRAME_BOUND as int + i * (MOULD_STEP as int) <= CLAMP_BOUND as int
                - MOULD_STEP as int);
        }
        moulds[i].apply(frame);
        i = i + 1;
    }
    proof {
        assert(moulds@.take(moulds@.len() as int) =~= moulds@);
    }
}

/// The test-harness context for one scenario: it owns the channel pair
/// (the alert-state receiver and the aircraft-state sender) and the
/// registered moulds; one exclusive instance drives one scenario at a
/// time.
pub struct MyWorld {
    /// The channel the alerting partition publishes alert state on.
    pub alert_rx: SampledChannel,
    /// The channel the harness sends aircraft state over.
    pub state_tx: SampledChannel,
    /// The registered constraint transforms, in registration order.
    pub moulds: Vec<Mould>,
}

impl MyWorld {
    /// Every registered mould is well formed and the list is within the
    /// registration cap.
    pub open spec fn wf(self) -> bool {
        &&& forall|k: int| 0 <= k < self.moulds@.len() ==> (#[trigger] self.moulds@[k]).wf()
        &&& self.moulds@.len() <= MAX_MOULDS
    }

    /// A fresh context with empty channels of the two fixed byte budgets
    /// and the given validity window, and no moulds.
    pub fn new(validity_window: u64) -> (r: Self)
        ensures
            r.wf(),
            r.moulds@.len() == 0,
            r.alert_rx.cap() == crate::ALERT_STATE_SIZE,
            r.alert_rx.window() == validity_window,
            r.alert_rx.contents() is None,
            r.state_tx.cap() == crate::AIRCRAFT_STATE_SIZE,
            r.state_tx.window() == validity_window,
            r.state_tx.contents() is None,
    {
        MyWorld {
            alert_rx: SampledChannel::new(crate::ALERT_STATE_SIZE, validity_window),
            state_tx: SampledChannel::new(crate::AIRCRAFT_STATE_SIZE, validity_window),
            moulds: Vec::new(),
        }
    }

    /// Register one more constraint transform.
    pub fn add_mould(&mut self, m: Mould)
        requires
            old(self).wf(),
            m.wf(),
            old(self).moulds@.len() < MAX_MOULDS,
        ensures
            final(self).wf(),
            final(self).moulds@ == old(self).moulds@.push(m),
            final(self).alert_rx == old(self).alert_rx,
            final(self).state_tx == old(self).state_tx,
    {
        self.moulds.push(m);
    }
}

impl TawsInput {
    /// Encode this message and write it into the channel slot, stamped
    /// with the send time. Fails with `EncodingTooLarge`, leaving the
    /// channel untouched, exactly when the fixed wire size exceeds the
    /// channel's capacity.
    pub fn send(&self, tx: &mut SampledChannel, now: u64) -> (r: Result<(), TransportError>)
        requires
            self.wf(),
            old(tx).clock_le(now),
        ensures
            final(tx).cap() == old(tx).cap(),
            final(tx).window() == old(tx).window(),
            r is Ok <==> INPUT_WIRE_SIZE <= old(tx).cap(),
            r is Ok ==> (final(tx).contents() matches Some((p, t)) && input_matches(*self, p)
                && t == now),
            r is Err ==> r == Err::<(), TransportError>(TransportError::EncodingTooLarge)
                && *final(tx) == *old(tx),
    {
        let buf = encode_input(self);
        tx.send(&buf, now)
    }
}

/// Read one alert-state message with a bounded wait: absent if nothing
/// fresh is in the slot at `now` (not an error), and a malformed payload
/// is dropped rather than propagated.
pub fn read_alert_state(rx: &SampledChannel, now: u64) -> (r: Option<AlertStateMessage>)
    requires
        rx.clock_le(now),
    ensures
        r is Some <==> (match rx.contents() {
            Some((p, _)) => rx.fresh_at(now) && valid_alert_bytes(p),
            None => false,
        }),
        r matches Some(m) ==> (rx.contents() matches Some((p, t)) && alert_matches(m, p)),
{
    match rx.poll(now) {
        Some((p, _)) => decode_alert_state(&p),
        None => None,
    }
}

/// The message for a scenario's "X is (not) armed" step: one arm command
/// in the slot of its own subsystem, nothing else.
pub fn arm_command_message(sys: AlertSystemId, flag: bool) -> (r: TawsInput)
    ensures
        r.wf(),
        r.arm@[sys_value(sys) as int] == Some((sys, flag)),
        forall|j: int| 0 <= j < N_ALERTSYSTEMS && j != sys_value(sys) ==> (r.arm@[j] is None),
        forall|j: int| 0 <= j < N_ALERTSYSTEMS ==> (r.inhibit@[j] is None),
{
    let mut m = TawsInput::new();
    let i = sys_code(sys);
    m.arm.set(i as usize, Some((sys, flag)));
    m
}

/// The message for a scenario's "X is (not) inhibited" step: one inhibit
/// command in the slot of its own subsystem, nothing else.
pub fn inhibit_command_message(sys: AlertSystemId, flag: bool) -> (r: TawsInput)
    ensures
        r.wf(),
        r.inhibit@[sys_value(sys) as int] == Some((sys, flag)),
        forall|j: int| 0 <= j < N_ALERTSYSTEMS && j != sys_value(sys) ==> (r.inhibit@[j] is None),
        forall|j: int| 0 <= j < N_ALERTSYSTEMS ==> (r.arm@[j] is None),
{
    let mut m = TawsInput::new();
    let i = sys_code(sys);
    m.inhibit.set(i as usize, Some((sys, flag)));
    m
}

/// Record `r` reports the scenario's target alert at least as urgently as
/// the target level.
pub open spec fn record_matches(r: AlertRecord, target: AlertSystemId, level: PriorityLevel) -> bool {
    r.system == target && level_value(r.level) <= level_value(level)
}

/// The message holds some record for the target alert at or above the
/// target urgency.
pub open spec fn alert_present(m: AlertStateMessage, target: AlertSystemId, level: PriorityLevel) -> bool {
    exists|i: int| 0 <= i < m.records@.len() && record_matches(#[trigger] m.records@[i], target, level)
}

/// Whether one observed alert-state message reports the target alert at
/// or above the target urgency.
pub fn alert_emitted(m: &AlertStateMessage, target: AlertSystemId, level: PriorityLevel) -> (r: bool)
    ensures
        r == alert_present(*m, target, level),
{
    let mut i: usize = 0;
    while i < m.records.len()
        invariant
            i <= m.records@.len(),
            forall|k: int| 0 <= k < i ==> !record_matches(#[trigger] m.records@[k], target, level),
        decreases m.records@.len() - i,
    {
        let rec = m.records[i];
        let same = sys_code(rec.system) == sys_code(target);
        proof {
            crate::controller::lemma_sys_value_injective(rec.system, target);
        }
        if same && level_code(rec.level) <= level_code(level) {
            return true;
        }
        i = i + 1;
    }
    false
}

/// The "alert is not emitted at all" oracle: true exactly when no observed
/// message reports the target alert at or above the target urgency.
pub fn oracle_not_emitted(
    observed: &Vec<AlertStateMessage>,
    target: AlertSystemId,
    level: PriorityLevel,
) -> (r: bool)
    ensures
        r == (forall|j: int| 0 <= j < observed@.len() ==> !alert_present(
            #[trigger] observed@[j],
            target,
            level,
        )),
{
    let mut j: usize = 0;
    while j < observed.len()
        invariant
            j <= observed@.len(),
            forall|k: int| 0 <= k < j ==> !alert_present(#[trigger] observed@[k], target, level),
        decreases observed@.len() - j,
    {
        if alert_emitted(&observed[j], target, level) {
            return false;
        }
        j = j + 1;
    }
    true
}

/// The "alert is emitted within the window" oracle, evaluated over
/// elapsed time: true exactly when some observation stamped no later than
/// `start + window` reports the target alert at or above the target
/// urgency.
pub fn oracle_emitted_within(
    observed: &Vec<(u64, AlertStateMessage)>,
    start: u64,
    window: u64,
    target: AlertSystemId,
    level: PriorityLevel,
) -> (r: bool)
    requires
        start + window <= u64::MAX,
    ensures
        r == (exists|j: int| 0 <= j < observed@.len() && (#[trigger] observed@[j]).0 <= start + window
            && alert_present(observed@[j].1, target, level)),
{
    let deadline = start + window;
    let mut j: usize = 0;
    while j < observed.len()
        invariant
            deadline == start + window,
            j <= observed@.len(),
            forall|k: int| 0 <= k < j ==> !((#[trigger] observed@[k]).0 <= start + window
                && alert_present(observed@[k].1, target, level)),
        decreases observed@.len() - j,
    {
        let (t, m) = &observed[j];
        if *t <= deadline && alert_emitted(m, target, level) {
            return true;
        }
        j = j + 1;
    }
    false
}


/// Scenario-forcing law: pressing any in-bound frame into the
/// descent-rate ceiling mould followed by the height-band mould leaves it
/// inside the forced envelope — climb rate at most the ceiling and height
/// above terrain inside the band — while the other fields keep their
/// values. This is what entitles a scenario to expect the alert.
pub proof fn lemma_moulds_force_envelope(a: AircraftStateSnapshot, rod: i64, lo: i64, hi: i64)
    requires
        lo <= hi,
        -MOULD_PARAM_BOUND <= rod <= MOULD_PARAM_BOUND,
        -MOULD_PARAM_BOUND <= lo <= MOULD_PARAM_BOUND,
        -MOULD_PARAM_BOUND <= hi <= MOULD_PARAM_BOUND,
        frame_within(a, FRAME_BOUND as int),
    ensures
        ({
            let ms = seq![
                Mould::ClampAtMost(FrameField::ClimbRate, rod),
                Mould::ClampInRange(FrameField::AltitudeGround, lo, hi),
            ];
            let b = moulds_applied(ms, a);
            &&& b.climb_rate <= rod
            &&& lo <= b.altitude_ground <= hi
            &&& b.altitude == a.altitude
            &&& b.steep_approach == a.steep_approach
        }),
{
    let ms = seq![
        Mould::ClampAtMost(FrameField::ClimbRate, rod),
        Mould::ClampInRange(FrameField::AltitudeGround, lo, hi),
    ];
    assert(ms.drop_last() =~= seq![Mould::ClampAtMost(FrameField::ClimbRate, rod)]);
    assert(ms.drop_last().drop_last() =~= Seq::<Mould>::empty());
    let mid = moulds_applied(ms.drop_last(), a);
    assert(moulds_applied(ms.drop_last().drop_last(), a) == a);
    assert(mid == ms.drop_last().last().applied(a));
    assert(mid.climb_rate == bounce_at_most(a.climb_rate as int, rod as int) as i64);
    assert(bounce_at_most(a.climb_rate as int, rod as int) <= rod);
    assert(-(FRAME_BOUND as int) - 2 * (MOULD_PARAM_BOUND as int) <= bounce_at_most(
        a.climb_rate as int,
        rod as int,
    ) <= FRAME_BOUND as int + 2 * (MOULD_PARAM_BOUND as int));
    let b = moulds_applied(ms, a);
    assert(b == ms.last().applied(mid));
    assert(b.altitude_ground == bounce_in_range(mid.altitude_ground as int, lo as int, hi as int)
        as i64);
    assert(lo <= bounce_in_range(mid.altitude_ground as int, lo as int, hi as int) <= hi);
}

} // verus!
