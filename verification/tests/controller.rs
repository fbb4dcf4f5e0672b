use taws_dataplane::channel::SampledChannel;
use taws_dataplane::controller::{AlertStateController, publish_alerts};
use taws_dataplane::harness::{arm_command_message, inhibit_command_message};
use taws_dataplane::messages::{AlertRecord, AlertStateMessage, AlertSystemId, PriorityLevel};
use taws_dataplane::{ALERT_STATE_SIZE, TransportError};

#[test]
fn arm_and_disarm() {
    let mut ctl = AlertStateController::new();
    assert!(!ctl.is_armed(AlertSystemId::Mode1));
    ctl.handle_input(&arm_command_message(AlertSystemId::Mode1, true));
    assert!(ctl.is_armed(AlertSystemId::Mode1));
    assert!(!ctl.is_armed(AlertSystemId::Mode2));
    assert!(!ctl.is_inhibited(AlertSystemId::Mode1));
    ctl.handle_input(&arm_command_message(AlertSystemId::Mode1, false));
    assert!(!ctl.is_armed(AlertSystemId::Mode1));
}

#[test]
fn inhibit_and_uninhibit() {
    let mut ctl = AlertStateController::new();
    ctl.handle_input(&inhibit_command_message(AlertSystemId::Flta, true));
    assert!(ctl.is_inhibited(AlertSystemId::Flta));
    assert!(!ctl.is_armed(AlertSystemId::Flta));
    ctl.handle_input(&inhibit_command_message(AlertSystemId::Flta, false));
    assert!(!ctl.is_inhibited(AlertSystemId::Flta));
}

#[test]
fn arm_command_is_idempotent() {
    let all = [
        AlertSystemId::Ffac,
        AlertSystemId::Flta,
        AlertSystemId::Mode1,
        AlertSystemId::Mode2,
        AlertSystemId::Mode3,
        AlertSystemId::Mode4,
        AlertSystemId::Mode5,
        AlertSystemId::Pda,
    ];
    let cmd = arm_command_message(AlertSystemId::Mode3, true);
    let mut once = AlertStateController::new();
    once.handle_input(&cmd);
    let mut twice = AlertStateController::new();
    twice.handle_input(&cmd);
    twice.handle_input(&cmd);
    for s in all {
        assert_eq!(once.is_armed(s), twice.is_armed(s));
        assert_eq!(once.is_inhibited(s), twice.is_inhibited(s));
    }
    assert!(once.is_armed(AlertSystemId::Mode3));
}

#[test]
fn publish_alerts_stamps_the_channel() {
    let mut tx = SampledChannel::new(ALERT_STATE_SIZE, 10);
    let msg = AlertStateMessage {
        records: vec![AlertRecord { system: AlertSystemId::Mode1, level: PriorityLevel::Warning }],
    };
    publish_alerts(&msg, &mut tx, 42).unwrap();
    assert_eq!(tx.status(), Some(42));
    let rec = AlertRecord { system: AlertSystemId::Mode1, level: PriorityLevel::Warning };
    let over_budget = AlertStateMessage { records: vec![rec; 16] };
    assert_eq!(
        publish_alerts(&over_budget, &mut tx, 43),
        Err(TransportError::EncodingTooLarge)
    );
    // the failed publish left the channel untouched
    assert_eq!(tx.status(), Some(42));
}
