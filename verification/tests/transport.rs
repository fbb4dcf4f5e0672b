use taws_dataplane::channel::SampledChannel;
use taws_dataplane::composer::{EventComposer, select_triggers};
use taws_dataplane::harness::read_alert_state;
use taws_dataplane::messages::{AlertStateMessage, TawsInput};
use taws_dataplane::{AIRCRAFT_STATE_SIZE, ALERT_STATE_SIZE, TransportError};
use taws_dataplane::codec::encode_alert_state;

#[test]
fn freshness_window() {
    let mut c = SampledChannel::new(AIRCRAFT_STATE_SIZE, 10);
    assert!(c.poll(0).is_none());
    let payload = vec![1u8, 2, 3];
    c.send(&payload, 100).unwrap();
    // within the validity window: present
    let (p, t) = c.poll(105).expect("fresh message must be present");
    assert_eq!(p, payload);
    assert_eq!(t, 100);
    let (_, t) = c.poll(110).expect("boundary of the window is still fresh");
    assert_eq!(t, 100);
    // past the validity window: absent, but the status still shows it
    assert!(c.poll(111).is_none());
    assert_eq!(c.status(), Some(100));
}

#[test]
fn channel_is_last_value_wins() {
    let mut c = SampledChannel::new(AIRCRAFT_STATE_SIZE, 10);
    c.send(&vec![1u8], 5).unwrap();
    c.send(&vec![2u8], 6).unwrap();
    let (p, t) = c.poll(7).unwrap();
    assert_eq!(p, vec![2u8]);
    assert_eq!(t, 6);
}

#[test]
fn send_over_capacity_fails() {
    let mut c = SampledChannel::new(4, 10);
    assert_eq!(
        c.send(&vec![0u8; 5], 1),
        Err(TransportError::EncodingTooLarge)
    );
    assert!(c.status().is_none());
    c.send(&vec![0u8; 4], 2).unwrap();
    assert_eq!(c.status(), Some(2));
}

#[test]
fn new_arrival_latch() {
    let mut input = SampledChannel::new(AIRCRAFT_STATE_SIZE, 100);
    let mut output = SampledChannel::new(ALERT_STATE_SIZE, 100);
    let mut composer = EventComposer::new();

    // nothing sent yet: both slots absent
    let ev = composer.compose(&input, &output, 1);
    assert_eq!(ev.input_slot, None);
    assert_eq!(ev.output_slot, None);

    // one input message: slot 0 fires once, then latches
    TawsInput::default().send(&mut input, 5).unwrap();
    let ev = composer.compose(&input, &output, 6);
    assert_eq!(ev.input_slot, Some(5));
    assert_eq!(ev.output_slot, None);
    let ev = composer.compose(&input, &output, 7);
    assert_eq!(ev.input_slot, None);

    // a new arrival fires again
    TawsInput::default().send(&mut input, 8).unwrap();
    let ev = composer.compose(&input, &output, 9);
    assert_eq!(ev.input_slot, Some(8));

    // an alert-state arrival fills slot 1 the same way
    let alerts = encode_alert_state(&AlertStateMessage::default()).unwrap();
    output.send(&alerts, 10).unwrap();
    let ev = composer.compose(&input, &output, 11);
    assert_eq!(ev.input_slot, None);
    assert_eq!(ev.output_slot, Some(10));
    let ev = composer.compose(&input, &output, 12);
    assert_eq!(ev.output_slot, None);
}

#[test]
fn malformed_frame_is_dropped() {
    let mut input = SampledChannel::new(AIRCRAFT_STATE_SIZE, 100);
    let output = SampledChannel::new(ALERT_STATE_SIZE, 100);
    let mut composer = EventComposer::new();
    input.send(&vec![0xffu8; 10], 5).unwrap();
    let ev = composer.compose(&input, &output, 6);
    assert_eq!(ev.input_slot, None);
}

#[test]
fn stale_alert_reads_as_absent() {
    let mut rx = SampledChannel::new(ALERT_STATE_SIZE, 3);
    assert!(read_alert_state(&rx, 0).is_none());
    let alerts = encode_alert_state(&AlertStateMessage::default()).unwrap();
    rx.send(&alerts, 10).unwrap();
    assert!(read_alert_state(&rx, 12).is_some());
    assert!(read_alert_state(&rx, 14).is_none());
}

#[test]
fn trigger_selection() {
    let verdicts = vec![(0u32, true), (1u32, false), (2u32, true), (3u32, false)];
    assert_eq!(select_triggers(&verdicts), vec![0u32, 2u32]);
    assert_eq!(select_triggers(&Vec::new()), Vec::<u32>::new());
}
