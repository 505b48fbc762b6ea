use star_adventurer::enums::{GuideDirection, TrackingRate};
use star_adventurer::motion::{MotionRate, MotorDirection, RotationDirectionKey, TrackingDirection};

#[test]
fn directions() {
    assert_eq!(
        TrackingDirection::WithTracking.using(RotationDirectionKey::Northern),
        MotorDirection::Clockwise
    );
    assert_eq!(
        TrackingDirection::WithTracking.using(RotationDirectionKey::Southern),
        MotorDirection::CounterClockwise
    );
    assert_eq!(
        TrackingDirection::AgainstTracking.using(RotationDirectionKey::Northern),
        MotorDirection::CounterClockwise
    );
    assert_eq!(
        GuideDirection::West.using(RotationDirectionKey::Northern),
        MotorDirection::Clockwise
    );
    assert_eq!(
        GuideDirection::East.using(RotationDirectionKey::Southern),
        MotorDirection::Clockwise
    );
    assert_eq!(RotationDirectionKey::from_hemisphere(false), RotationDirectionKey::Southern);
    assert_eq!(MotorDirection::CounterClockwise.sign(), -1);
}

#[test]
fn rates() {
    let r = MotionRate::new(5, MotorDirection::CounterClockwise);
    assert_eq!(r.rate(), 5);
    assert_eq!(r.direction(), MotorDirection::CounterClockwise);
    assert!(!r.is_zero());
    assert_eq!(MotionRate::new(0, MotorDirection::CounterClockwise), MotionRate::zero());
    let t = MotionRate::tracking(TrackingRate::Sidereal, RotationDirectionKey::Southern);
    assert_eq!(t, MotionRate::new(4_178_090_000, MotorDirection::CounterClockwise));
    let mut s = r;
    s.set_rate(9);
    assert_eq!(s, MotionRate::new(9, MotorDirection::CounterClockwise));
}

#[test]
fn adding_and_taking_away_a_rate() {
    let base = MotionRate::new(100, MotorDirection::Clockwise);
    let pulse = MotionRate::new(30, MotorDirection::CounterClockwise);
    let sum = base.plus(&pulse);
    assert_eq!(sum, MotionRate::new(70, MotorDirection::Clockwise));
    assert_eq!(sum.minus(&pulse), base);
    let big = MotionRate::new(130, MotorDirection::CounterClockwise);
    assert_eq!(base.plus(&big), MotionRate::new(30, MotorDirection::CounterClockwise));
}
