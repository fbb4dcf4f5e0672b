// End-to-end scenario runs: the harness presses synthetic frames into its
// moulds and drives a full frame exchange over the sampled channels against
// the alerting partition's controller. The external alerting engine is out
// of the library's scope, so these runs plug in a minimal conforming
// engine: a mode-1 alert whenever the subsystem is armed and uninhibited,
// the rate of descent is at least 2000 feet per minute, and the height
// above terrain is between 0 and 2500 feet.
use taws_dataplane::codec::decode_input;
use taws_dataplane::controller::AlertStateController;
use taws_dataplane::harness::{
    FrameField, Mould, MyWorld, apply_moulds, arm_command_message, oracle_emitted_within,
    oracle_not_emitted, read_alert_state,
};
use taws_dataplane::messages::{
    AircraftStateSnapshot, AlertRecord, AlertStateMessage, AlertSystemId, PriorityLevel, TawsInput,
};

const NUM_TESTS: usize = 100;

fn engine(ctl: &AlertStateController, frame: &AircraftStateSnapshot) -> AlertStateMessage {
    let mode1_fires = ctl.is_armed(AlertSystemId::Mode1)
        && !ctl.is_inhibited(AlertSystemId::Mode1)
        && frame.climb_rate <= -2000
        && frame.altitude_ground >= 0
        && frame.altitude_ground <= 2500;
    let mut records = Vec::new();
    if mode1_fires {
        records.push(AlertRecord { system: AlertSystemId::Mode1, level: PriorityLevel::Caution });
    }
    AlertStateMessage { records }
}

// A deterministic stand-in for the randomized frame generator.
fn generate_frames(n: usize) -> Vec<AircraftStateSnapshot> {
    let mut seed: u64 = 0x2545_f491_4f6c_dd1d;
    let mut next = move || {
        seed ^= seed << 13;
        seed ^= seed >> 7;
        seed ^= seed << 17;
        seed
    };
    (0..n)
        .map(|_| AircraftStateSnapshot {
            altitude: (next() % 40_000) as i64,
            altitude_ground: (next() % 10_000) as i64 - 2_000,
            climb_rate: (next() % 12_000) as i64 - 6_000,
            steep_approach: next() % 2 == 0,
        })
        .collect()
}

// One scenario run: send the arm command, then exchange every moulded
// frame over the channels, observing the alert state after each one.
fn run_scenario(arm_mode1: bool) -> Vec<(u64, AlertStateMessage)> {
    let mut world = MyWorld::new(10);
    world.add_mould(Mould::ClampAtMost(FrameField::ClimbRate, -2000));
    world.add_mould(Mould::ClampInRange(FrameField::AltitudeGround, 0, 2500));

    let mut ctl = AlertStateController::new();
    let mut now: u64 = 1;

    // the "given" step: one arm command over the aircraft-state channel
    arm_command_message(AlertSystemId::Mode1, arm_mode1)
        .send(&mut world.state_tx, now)
        .unwrap();
    let (bytes, _) = world.state_tx.poll(now).unwrap();
    ctl.handle_input(&decode_input(&bytes).unwrap());

    let mut frames = generate_frames(NUM_TESTS);
    for frame in frames.iter_mut() {
        apply_moulds(&world.moulds, frame);
    }

    let mut observed = Vec::new();
    let mut msg = TawsInput::default();
    for frame in frames {
        now += 1;
        msg.aircraft_state = frame;
        msg.send(&mut world.state_tx, now).unwrap();
        // the alerting partition's slot
        let (bytes, _) = world.state_tx.poll(now).unwrap();
        let input = decode_input(&bytes).unwrap();
        ctl.handle_input(&input);
        let alerts = engine(&ctl, &input.aircraft_state);
        taws_dataplane::controller::publish_alerts(&alerts, &mut world.alert_rx, now).unwrap();
        // back in the harness's slot: bounded read
        let state = read_alert_state(&world.alert_rx, now).expect("alert state within the window");
        observed.push((now, state));
    }
    observed
}

#[test]
fn armed_mode1_alert_is_emitted() {
    let observed = run_scenario(true);
    assert_eq!(observed.len(), NUM_TESTS);
    assert!(oracle_emitted_within(
        &observed,
        1,
        NUM_TESTS as u64 + 1,
        AlertSystemId::Mode1,
        PriorityLevel::Caution
    ));
    // with the preconditions forced by the moulds, every frame alerts
    let states: Vec<AlertStateMessage> = observed.into_iter().map(|(_, m)| m).collect();
    for state in &states {
        assert_eq!(state.records.len(), 1);
        assert_eq!(state.records[0].system, AlertSystemId::Mode1);
    }
}

#[test]
fn unarmed_mode1_alert_never_appears() {
    let observed = run_scenario(false);
    let states: Vec<AlertStateMessage> = observed.into_iter().map(|(_, m)| m).collect();
    assert!(oracle_not_emitted(
        &states,
        AlertSystemId::Mode1,
        PriorityLevel::Caution
    ));
}
