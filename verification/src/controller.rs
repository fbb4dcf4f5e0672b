//! The alert-state controller: owns the per-subsystem armed and inhibited
//! flag tables and applies incoming command deltas. The terrain-alert
//! decision algorithm itself is an external collaborator that maps the
//! flag tables plus an aircraft-state snapshot to a set of alert records.
use vstd::prelude::*;

use crate::channel::SampledChannel;
use crate::codec::{alert_matches, encode_alert_state};
use crate::messages::{AlertCommand, AlertStateMessage, AlertSystemId, TawsInput, sys_code, sys_value, sys_of_value};
use crate::{N_ALERTSYSTEMS, TransportError};

verus! {

/// The flag table after one optional command: `Some((s, b))` sets the flag
/// of subsystem `s` to `b`, `None` leaves the table unchanged.
pub open spec fn apply_one(flags: Seq<bool>, c: AlertCommand) -> Seq<bool> {
    match c {
        Some((s, b)) => flags.update(sys_value(s) as int, b),
        None => flags,
    }
}

/// The flag table after a whole command array, applied left to right.
pub open spec fn apply_all(flags: Seq<bool>, cmds: Seq<AlertCommand>) -> Seq<bool>
    decreases cmds.len(),
{
    if cmds.len() == 0 {
        flags
    } else {
        apply_one(apply_all(flags, cmds.drop_last()), cmds.last())
    }
}

/// The last command in `cmds` addressed to subsystem `s`, if any.
pub open spec fn last_command_for(cmds: Seq<AlertCommand>, s: AlertSystemId) -> Option<bool>
    decreases cmds.len(),
{
    if cmds.len() == 0 {
        None
    } else {
        match cmds.last() {
            Some((s2, b)) => if s2 == s {
                Some(b)
            } else {
                last_command_for(cmds.drop_last(), s)
            },
            None => last_command_for(cmds.drop_last(), s),
        }
    }
}

/// Distinct subsystems have distinct numeric codes.
pub proof fn lemma_sys_value_injective(a: AlertSystemId, b: AlertSystemId)
    ensures
        sys_value(a) == sys_value(b) ==> a == b,
{
}

/// Command application never changes the size of the flag table.
pub proof fn lemma_apply_all_len(flags: Seq<bool>, cmds: Seq<AlertCommand>)
    requires
        flags.len() == N_ALERTSYSTEMS,
    ensures
        apply_all(flags, cmds).len() == N_ALERTSYSTEMS,
    decreases cmds.len(),
{
    if cmds.len() > 0 {
        lemma_apply_all_len(flags, cmds.drop_last());
    }
}

/// What one subsystem's flag is after a command array: the value of the
/// last command addressed to it, or its old value if none was.
pub proof fn lemma_apply_all_pointwise(flags: Seq<bool>, cmds: Seq<AlertCommand>, s: AlertSystemId)
    requires
        flags.len() == N_ALERTSYSTEMS,
    ensures
        apply_all(flags, cmds).len() == N_ALERTSYSTEMS,
        apply_all(flags, cmds)[sys_value(s) as int] == (match last_command_for(cmds, s) {
            Some(b) => b,
            None => flags[sys_value(s) as int],
        }),
    decreases cmds.len(),
{
    lemma_apply_all_len(flags, cmds);
    if cmds.len() > 0 {
        lemma_apply_all_pointwise(flags, cmds.drop_last(), s);
        match cmds.last() {
            Some((s2, b)) => {
                lemma_sys_value_injective(s2, s);
            },
            None => {},
        }
    }
}

/// Arm/inhibit idempotence: applying one command array twice leaves the
/// flag table exactly as applying it once.
pub proof fn lemma_apply_all_idempotent(flags: Seq<bool>, cmds: Seq<AlertCommand>)
    requires
        flags.len() == N_ALERTSYSTEMS,
    ensures
        apply_all(apply_all(flags, cmds), cmds) == apply_all(flags, cmds),
{
    let once = apply_all(flags, cmds);
    let twice = apply_all(once, cmds);
    lemma_apply_all_len(flags, cmds);
    lemma_apply_all_len(once, cmds);
    assert forall|i: int| 0 <= i < N_ALERTSYSTEMS implies twice[i] == once[i] by {
        let s = sys_of_value(i as u8);
        assert(sys_value(s) == i);
        lemma_apply_all_pointwise(flags, cmds, s);
        lemma_apply_all_pointwise(once, cmds, s);
    }
    assert(twice =~= once);
}

/// Owns the per-subsystem armed and inhibited flags; they change only
/// through its own command-application step.
pub struct AlertStateController {
    armed: Vec<bool>,
    inhibited: Vec<bool>,
}

impl AlertStateController {
    /// The armed flag table, one entry per subsystem, indexed by code.
    pub closed spec fn armed_flags(self) -> Seq<bool> {
        self.armed@
    }

    /// The inhibited flag table, one entry per subsystem, indexed by code.
    pub closed spec fn inhibited_flags(self) -> Seq<bool> {
        self.inhibited@
    }

    /// Both flag tables hold exactly one flag per subsystem.
    pub open spec fn wf(self) -> bool {
        self.armed_flags().len() == N_ALERTSYSTEMS && self.inhibited_flags().len() == N_ALERTSYSTEMS
    }

    /// A controller with every subsystem disarmed and uninhibited.
    pub fn new() -> (r: Self)
        ensures
            r.wf(),
            forall|i: int| 0 <= i < N_ALERTSYSTEMS ==> !r.armed_flags()[i],
            forall|i: int| 0 <= i < N_ALERTSYSTEMS ==> !r.inhibited_flags()[i],
    {
        let mut armed: Vec<bool> = Vec::new();
        let mut inhibited: Vec<bool> = Vec::new();
        let mut j: usize = 0;
        while j < N_ALERTSYSTEMS
            invariant
                j <= N_ALERTSYSTEMS,
                armed@.len() == j,
                inhibited@.len() == j,
                forall|k: int| 0 <= k < j ==> !armed@[k],
                forall|k: int| 0 <= k < j ==> !inhibited@[k],
            decreases N_ALERTSYSTEMS - j,
        {
            armed.push(false);
            inhibited.push(false);
            j = j + 1;
        }
        AlertStateController { armed, inhibited }
    }

    /// Whether subsystem `s` is armed.
    pub fn is_armed(&self, s: AlertSystemId) -> (r: bool)
        requires
            self.wf(),
        ensures
            r == self.armed_flags()[sys_value(s) as int],
    {
        let i = sys_code(s);
        self.armed[i as usize]
    }

    /// Whether subsystem `s` is inhibited.
    pub fn is_inhibited(&self, s: AlertSystemId) -> (r: bool)
        requires
            self.wf(),
        ensures
            r == self.inhibited_flags()[sys_value(s) as int],
    {
        let i = sys_code(s);
        self.inhibited[i as usize]
    }

    /// Apply one message's command deltas: each `Some((s, true))` in the
    /// arm array arms subsystem `s`, `Some((s, false))` disarms it, `None`
    /// leaves it unchanged; the inhibit array works the same way on the
    /// inhibited table. Idempotent per array.
    pub fn apply_commands(&mut self, arm: &Vec<AlertCommand>, inhibit: &Vec<AlertCommand>)
        requires
            old(self).wf(),
            arm@.len() == N_ALERTSYSTEMS,
            inhibit@.len() == N_ALERTSYSTEMS,
        ensures
            final(self).wf(),
            final(self).armed_flags() == apply_all(old(self).armed_flags(), arm@),
            final(self).inhibited_flags() == apply_all(old(self).inhibited_flags(), inhibit@),
    {
        let ghost armed0 = self.armed@;
        let ghost inhibited0 = self.inhibited@;
        let mut j: usize = 0;
        while j < N_ALERTSYSTEMS
            invariant
                j <= N_ALERTSYSTEMS,
                armed0.len() == N_ALERTSYSTEMS,
                inhibited0.len() == N_ALERTSYSTEMS,
                arm@.len() == N_ALERTSYSTEMS,
                inhibit@.len() == N_ALERTSYSTEMS,
                self.armed@.len() == N_ALERTSYSTEMS,
                self.inhibited@.len() == N_ALERTSYSTEMS,
                self.armed@ == apply_all(armed0, arm@.take(j as int)),
                self.inhibited@ == apply_all(inhibited0, inhibit@.take(j as int)),
            decreases N_ALERTSYSTEMS - j,
        {
            proof {
                assert(arm@.take(j + 1).drop_last() =~= arm@.take(j as int));
                assert(inhibit@.take(j + 1).drop_last() =~= inhibit@.take(j as int));
            }
            match arm[j] {
                Some((s, b)) => {
                    let i = sys_code(s);
                    proof {
                        lemma_apply_all_len(armed0, arm@.take(j as int));
                    }
                    self.armed.set(i as usize, b);
                },
                None => {},
            }
            match inhibit[j] {
                Some((s, b)) => {
                    let i = sys_code(s);
                    proof {
                        lemma_apply_all_len(inhibited0, inhibit@.take(j as int));
                    }
                    self.inhibited.set(i as usize, b);
                },
                None => {},
            }
            j = j + 1;
        }
        proof {
            assert(arm@.take(N_ALERTSYSTEMS as int) =~= arm@);
            assert(inhibit@.take(N_ALERTSYSTEMS as int) =~= inhibit@);
        }
    }

    /// Apply one received input message's command deltas, arm array first,
    /// then inhibit array; the snapshot it carries is handed on to the
    /// external alerting engine unchanged.
    pub fn handle_input(&mut self, msg: &TawsInput)
        requires
            old(self).wf(),
            msg.wf(),
        ensures
            final(self).wf(),
            final(self).armed_flags() == apply_all(old(self).armed_flags(), msg.arm@),
            final(self).inhibited_flags() == apply_all(old(self).inhibited_flags(), msg.inhibit@),
    {
        self.apply_commands(&msg.arm, &msg.inhibit);
    }
}

/// Encode the alerting engine's answer for one frame and write it to the
/// alert channel, stamped with the send time. An encoding over the byte
/// budget, or a channel narrower than the encoding, is a fatal
/// configuration error reported as `EncodingTooLarge`, with the channel
/// left untouched.
pub fn publish_alerts(alerts: &AlertStateMessage, tx: &mut SampledChannel, now: u64) -> (r: Result<
    (),
    TransportError,
>)
    requires
        old(tx).clock_le(now),
    ensures
        final(tx).cap() == old(tx).cap(),
        final(tx).window() == old(tx).window(),
        r is Ok <==> (alerts.records@.len() <= 15 && 1 + alerts.records@.len() <= old(tx).cap()),
        r is Ok ==> (final(tx).contents() matches Some((p, t)) && alert_matches(*alerts, p)
            && t == now),
        r is Err ==> r == Err::<(), TransportError>(TransportError::EncodingTooLarge)
            && *final(tx) == *old(tx),
{
    match encode_alert_state(alerts) {
        Ok(buf) => tx.send(&buf, now),
        Err(e) => Err(e),
    }
}

} // verus!
