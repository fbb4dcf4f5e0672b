use taws_dataplane::clamp::BouncingClamp;
use taws_dataplane::harness::{FrameField, Mould, apply_moulds};
use taws_dataplane::messages::AircraftStateSnapshot;

#[test]
fn at_least_reflects_off_the_floor() {
    let mut b = BouncingClamp();
    let mut v: i64 = 1000;
    b.at_least(&mut v, 2000);
    // reflected above the floor by the excursion magnitude, no hard clip
    assert_eq!(v, 3000);
    let mut v: i64 = 2500;
    b.at_least(&mut v, 2000);
    assert_eq!(v, 2500);
    let mut v: i64 = 2000;
    b.at_least(&mut v, 2000);
    assert_eq!(v, 2000);
}

#[test]
fn at_most_reflects_off_the_ceiling() {
    let mut b = BouncingClamp();
    let mut v: i64 = -1500;
    b.at_most(&mut v, -2000);
    assert_eq!(v, -2500);
    let mut v: i64 = -2600;
    b.at_most(&mut v, -2000);
    assert_eq!(v, -2600);
}

#[test]
fn in_range_bounces_into_the_band() {
    let mut b = BouncingClamp();
    let mut v: i64 = -400;
    b.in_range(&mut v, 0, 2500);
    assert_eq!(v, 400);
    let mut v: i64 = 2600;
    b.in_range(&mut v, 0, 2500);
    assert_eq!(v, 2400);
    // a deep excursion is capped at the opposite boundary
    let mut v: i64 = -90000;
    b.in_range(&mut v, 0, 2500);
    assert_eq!(v, 2500);
    let mut v: i64 = 90000;
    b.in_range(&mut v, 0, 2500);
    assert_eq!(v, 0);
    // a value already inside is unchanged
    let mut v: i64 = 1200;
    b.in_range(&mut v, 0, 2500);
    assert_eq!(v, 1200);
}

#[test]
fn not_in_range_bounces_out_of_the_band() {
    let mut b = BouncingClamp();
    let mut v: i64 = 100;
    b.not_in_range(&mut v, 0, 2500);
    assert!(v < 0 || v > 2500);
    assert_eq!(v, -101);
    let mut v: i64 = 2400;
    b.not_in_range(&mut v, 0, 2500);
    assert_eq!(v, 2601);
    let mut v: i64 = -7;
    b.not_in_range(&mut v, 0, 2500);
    assert_eq!(v, -7);
}

#[test]
fn moulds_compose_in_registration_order() {
    let moulds = vec![
        Mould::SetSteepApproach(true),
        Mould::ClampAtMost(FrameField::ClimbRate, -2000),
        Mould::ClampInRange(FrameField::AltitudeGround, 0, 2500),
    ];
    let mut frame = AircraftStateSnapshot {
        altitude: 9000,
        altitude_ground: 4000,
        climb_rate: -500,
        steep_approach: false,
    };
    apply_moulds(&moulds, &mut frame);
    assert!(frame.steep_approach);
    assert_eq!(frame.climb_rate, -3500);
    assert_eq!(frame.altitude_ground, 1000);
    assert_eq!(frame.altitude, 9000);
}
