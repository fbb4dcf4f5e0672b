use taws_dataplane::codec::{decode_alert_state, decode_input, encode_alert_state, encode_input};
use taws_dataplane::messages::{
    AircraftStateSnapshot, AlertRecord, AlertStateMessage, AlertSystemId, PriorityLevel, TawsInput,
};
use taws_dataplane::{AIRCRAFT_STATE_SIZE, ALERT_STATE_SIZE, TransportError};

#[test]
fn check_aircraft_state_size() {
    let written_bytes = encode_input(&TawsInput::default());
    if written_bytes.len() > AIRCRAFT_STATE_SIZE {
        panic!(
            "AIRCRAFT_STATE_SIZE needs to be at least {}",
            written_bytes.len()
        );
    }
}

#[test]
fn check_alert_state_size() {
    let written_bytes = encode_alert_state(&AlertStateMessage::default()).unwrap();
    if written_bytes.len() > ALERT_STATE_SIZE {
        panic!(
            "ALERT_STATE_SIZE needs to be at least {}",
            written_bytes.len()
        );
    }
}

fn sample_input() -> TawsInput {
    let mut m = TawsInput::default();
    m.arm[2] = Some((AlertSystemId::Mode1, true));
    m.arm[7] = Some((AlertSystemId::Pda, false));
    m.inhibit[0] = Some((AlertSystemId::Ffac, true));
    m.aircraft_state = AircraftStateSnapshot {
        altitude: 12500,
        altitude_ground: 1800,
        climb_rate: -2200,
        steep_approach: true,
    };
    m
}

#[test]
fn input_round_trip() {
    let m = sample_input();
    let bytes = encode_input(&m);
    assert!(bytes.len() <= AIRCRAFT_STATE_SIZE);
    let back = decode_input(&bytes).expect("canonical encoding must decode");
    assert_eq!(back, m);
}

#[test]
fn input_round_trip_extremes() {
    let mut m = TawsInput::default();
    m.aircraft_state = AircraftStateSnapshot {
        altitude: i64::MAX,
        altitude_ground: i64::MIN,
        climb_rate: 0,
        steep_approach: false,
    };
    let bytes = encode_input(&m);
    let back = decode_input(&bytes).expect("canonical encoding must decode");
    assert_eq!(back, m);
}

#[test]
fn input_decode_rejects_wrong_length() {
    assert!(decode_input(&vec![0u8; 75]).is_none());
    assert!(decode_input(&vec![0u8; 77]).is_none());
    assert!(decode_input(&Vec::new()).is_none());
}

#[test]
fn input_decode_rejects_bad_cells() {
    let m = TawsInput::default();
    let mut bytes = encode_input(&m);
    bytes[0] = 2; // command tag out of range
    assert!(decode_input(&bytes).is_none());
    let mut bytes = encode_input(&m);
    bytes[0] = 1;
    bytes[1] = 8; // subsystem code out of range
    assert!(decode_input(&bytes).is_none());
    let mut bytes = encode_input(&m);
    bytes[48] = 7; // sign byte out of range
    assert!(decode_input(&bytes).is_none());
    let mut bytes = encode_input(&m);
    bytes[75] = 2; // steep-approach flag out of range
    assert!(decode_input(&bytes).is_none());
}

#[test]
fn alert_round_trip() {
    let m = AlertStateMessage {
        records: vec![
            AlertRecord { system: AlertSystemId::Mode1, level: PriorityLevel::Caution },
            AlertRecord { system: AlertSystemId::Flta, level: PriorityLevel::Warning },
            AlertRecord { system: AlertSystemId::Pda, level: PriorityLevel::Annunciation },
        ],
    };
    let bytes = encode_alert_state(&m).unwrap();
    assert!(bytes.len() <= ALERT_STATE_SIZE);
    let back = decode_alert_state(&bytes).expect("canonical encoding must decode");
    assert_eq!(back, m);
}

#[test]
fn alert_encode_budget() {
    let rec = AlertRecord { system: AlertSystemId::Mode2, level: PriorityLevel::Caution };
    let fits = AlertStateMessage { records: vec![rec; 15] };
    let bytes = encode_alert_state(&fits).unwrap();
    assert_eq!(bytes.len(), 16);
    let too_many = AlertStateMessage { records: vec![rec; 16] };
    assert_eq!(
        encode_alert_state(&too_many),
        Err(TransportError::EncodingTooLarge)
    );
}

#[test]
fn alert_decode_rejects_malformed() {
    assert!(decode_alert_state(&Vec::new()).is_none());
    assert!(decode_alert_state(&vec![2u8, 0, 24]).is_none()); // record byte out of range
    assert!(decode_alert_state(&vec![3u8, 0, 1]).is_none()); // length mismatch
    assert!(decode_alert_state(&vec![16u8; 17]).is_none()); // over budget
}
