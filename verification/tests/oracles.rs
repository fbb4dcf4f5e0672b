use taws_dataplane::harness::{alert_emitted, oracle_emitted_within, oracle_not_emitted};
use taws_dataplane::messages::{AlertRecord, AlertStateMessage, AlertSystemId, PriorityLevel};

fn msg(records: Vec<AlertRecord>) -> AlertStateMessage {
    AlertStateMessage { records }
}

fn mode1(level: PriorityLevel) -> AlertRecord {
    AlertRecord { system: AlertSystemId::Mode1, level }
}

#[test]
fn urgency_is_at_or_above_the_target_level() {
    // lower numeric level = higher priority: a warning satisfies a
    // caution target, an annunciation does not
    let target = PriorityLevel::Caution;
    assert!(alert_emitted(&msg(vec![mode1(PriorityLevel::Warning)]), AlertSystemId::Mode1, target));
    assert!(alert_emitted(&msg(vec![mode1(PriorityLevel::Caution)]), AlertSystemId::Mode1, target));
    assert!(!alert_emitted(
        &msg(vec![mode1(PriorityLevel::Annunciation)]),
        AlertSystemId::Mode1,
        target
    ));
    // a different subsystem never matches
    assert!(!alert_emitted(&msg(vec![mode1(PriorityLevel::Warning)]), AlertSystemId::Mode2, target));
}

#[test]
fn not_emitted_oracle_scans_every_observation() {
    let quiet = vec![msg(vec![]), msg(vec![mode1(PriorityLevel::Annunciation)])];
    assert!(oracle_not_emitted(&quiet, AlertSystemId::Mode1, PriorityLevel::Caution));
    let noisy = vec![msg(vec![]), msg(vec![mode1(PriorityLevel::Warning)])];
    assert!(!oracle_not_emitted(&noisy, AlertSystemId::Mode1, PriorityLevel::Caution));
}

#[test]
fn within_window_oracle_respects_the_deadline() {
    let observed = vec![
        (50u64, msg(vec![])),
        (120u64, msg(vec![mode1(PriorityLevel::Caution)])),
    ];
    // the only matching observation is stamped after start + window
    assert!(!oracle_emitted_within(
        &observed,
        1,
        100,
        AlertSystemId::Mode1,
        PriorityLevel::Caution
    ));
    // a window long enough reaches it
    assert!(oracle_emitted_within(
        &observed,
        1,
        119,
        AlertSystemId::Mode1,
        PriorityLevel::Caution
    ));
}
