use std::time::Duration;
use star_adventurer::controller::{
    assess_found_status, driver_status, found_motor_state, is_star_adventurer_usb,
    plan_driver_rate_change, rate_of_period, DriveMode, DriverBuilder, DriverStatus, FoundMotion,
    GotoEndWaiter, MotorBuilder, MotorStatus, RateWaiter, StopWaiter,
};
use star_adventurer::config::ComSettings;
use star_adventurer::controller::connection_builder;
use star_adventurer::enums::TrackingRate;
use star_adventurer::motion::{MotionRate, MotorDirection};
use star_adventurer::motor::{MotorState, RateChange};

#[test]
fn builders() {
    let b = MotorBuilder::new();
    assert!(b.path().is_none());
    assert!(b.timeout().is_none());
    let b = b.with_path("/dev/ttyUSB0".to_string()).with_timeout(Duration::from_millis(250));
    assert_eq!(b.path(), Some("/dev/ttyUSB0"));
    assert_eq!(b.timeout(), Some(Duration::from_millis(250)));
    let d = DriverBuilder::new().with_timeout(Duration::from_millis(50));
    assert!(d.path().is_none());
    assert_eq!(d.timeout(), Some(Duration::from_millis(50)));
}

#[test]
fn ports_and_periods() {
    assert!(is_star_adventurer_usb(0x67b, 0x2303));
    assert!(!is_star_adventurer_usb(0x67b, 0x2304));
    assert_eq!(rate_of_period(110_359), Some(TrackingRate::Sidereal));
    assert_eq!(rate_of_period(114_581), Some(TrackingRate::Lunar));
    assert_eq!(rate_of_period(110_662), Some(TrackingRate::Solar));
    assert_eq!(rate_of_period(110_390), Some(TrackingRate::King));
    assert_eq!(rate_of_period(1), None);
}

#[test]
fn statuses_and_waiters() {
    let running_goto = MotorStatus {
        mode: DriveMode::Goto,
        running: true,
        direction: MotorDirection::Clockwise,
    };
    let tracking = MotorStatus {
        mode: DriveMode::Tracking,
        running: true,
        direction: MotorDirection::CounterClockwise,
    };
    let stopped = MotorStatus { running: false, ..tracking };
    assert_eq!(assess_found_status(&running_goto), FoundMotion::StopGoto);
    assert_eq!(
        assess_found_status(&tracking),
        FoundMotion::Moving(MotorDirection::CounterClockwise)
    );
    assert_eq!(assess_found_status(&stopped), FoundMotion::Stationary);
    assert_eq!(
        found_motor_state(FoundMotion::Moving(MotorDirection::CounterClockwise), 5),
        MotorState::Moving(MotionRate::new(5, MotorDirection::CounterClockwise))
    );
    assert_eq!(found_motor_state(FoundMotion::StopGoto, 5), MotorState::Stationary);
    assert_eq!(driver_status(&running_goto), DriverStatus::Slewing);
    assert!(StopWaiter.check(&stopped));
    assert!(!StopWaiter.check(&tracking));
    assert!(GotoEndWaiter.check(&tracking));
    assert!(!GotoEndWaiter.check(&running_goto));
    assert_eq!(StopWaiter.check_interval_millis(), 250);
    let w = RateWaiter { target_pdeg: 4_178_090_000 };
    assert!(w.check(4_178_090_000 + 99_999_999));
    assert!(!w.check(4_178_090_000 - 100_000_000));
}

#[test]
fn direct_rate_changes() {
    let slow = MotionRate::new(4_178_090_000, MotorDirection::Clockwise);
    let too_fast = MotionRate::new(900_000_000_000, MotorDirection::Clockwise);
    assert_eq!(plan_driver_rate_change(slow, too_fast), RateChange::ChangeSpeed(too_fast));
    assert_eq!(
        plan_driver_rate_change(MotionRate::zero(), too_fast),
        RateChange::Start(MotionRate::new(281_700_000_000, MotorDirection::Clockwise))
    );
    assert_eq!(plan_driver_rate_change(slow, slow), RateChange::Unchanged);
}

#[test]
fn connection_builder_takes_the_serial_settings() {
    let b = connection_builder(&ComSettings::default());
    assert!(b.path().is_none());
    assert_eq!(b.timeout(), Some(Duration::from_millis(50)));
    let com = ComSettings { path: Some("/dev/ttyACM0".to_string()), timeout_millis: 1200 };
    let b = connection_builder(&com);
    assert_eq!(b.path(), Some("/dev/ttyACM0"));
    assert_eq!(b.timeout(), Some(Duration::from_secs(1)  + Duration::from_millis(200)));
}
