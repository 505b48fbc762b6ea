use star_adventurer::config::AutoGuideSpeed;
use star_adventurer::controller::DriveMode;
use star_adventurer::enums::{Axis, GuideDirection, PierSide, TrackingRate};
use star_adventurer::motion::MotorDirection;
use star_adventurer::motion_state::{
    abort_slew, check_current_state_for_slewing, move_axis, pulse_guide, set_is_tracking,
    set_tracking_rate, startup, MotionState, RaCommand, SlewingState, TrackingState,
};

const PARKED: MotionState = MotionState::Tracking(TrackingState::Stationary(true));
const IDLE: MotionState = MotionState::Tracking(TrackingState::Stationary(false));
const TRACKING: MotionState = MotionState::Tracking(TrackingState::Tracking(false));

#[test]
fn states() {
    assert!(PARKED.is_parked());
    assert_eq!(PARKED.unpark().unwrap(), IDLE);
    let e = IDLE.unpark().unwrap_err();
    assert_eq!(e.error_number(), 0x40B);
    assert_eq!(e.error_message(), "Not parked");
    assert!(MotionState::Tracking(TrackingState::Tracking(true)).is_pulse_guiding());
    assert!(TRACKING.is_tracking());
    let slewing = MotionState::Slewing(SlewingState::ManualSlewing(IDLE_TS));
    assert!(slewing.is_slewing());
}

const IDLE_TS: TrackingState = TrackingState::Stationary(false);

#[test]
fn tracking_switch() {
    let t = set_is_tracking(IDLE, true, TrackingRate::Sidereal).unwrap();
    assert_eq!(t.next, TRACKING);
    assert_eq!(
        t.commands,
        vec![RaCommand::SetMotionRate(4_178_090_000), RaCommand::StartMotion]
    );
    let t = set_is_tracking(TRACKING, false, TrackingRate::Sidereal).unwrap();
    assert_eq!(t.next, IDLE);
    assert_eq!(t.commands, vec![RaCommand::StopMotion]);
    let e = set_is_tracking(PARKED, true, TrackingRate::Sidereal).unwrap_err();
    assert_eq!(e.error_message(), "Invalid while parked");
    assert_eq!(set_tracking_rate(TRACKING, TrackingRate::Lunar), vec![RaCommand::SetMotionRate(4_024_138_000)]);
    assert!(set_tracking_rate(IDLE, TrackingRate::Lunar).is_empty());
}

#[test]
fn slewing() {
    let t = move_axis(TRACKING, Axis::Primary, 100_000_000_000, true).unwrap();
    assert_eq!(t.next, MotionState::Slewing(SlewingState::ManualSlewing(TrackingState::Tracking(false))));
    assert_eq!(
        t.commands,
        vec![
            RaCommand::SetTrackingMode(MotorDirection::Clockwise),
            RaCommand::SetMotionRate(100_000_000_000),
            RaCommand::StartMotion
        ]
    );
    let back = abort_slew(t.next, TrackingRate::Sidereal, true).unwrap();
    assert_eq!(back.next, TRACKING);
    assert_eq!(
        back.commands,
        vec![
            RaCommand::StopMotion,
            RaCommand::SetTrackingMode(MotorDirection::Clockwise),
            RaCommand::SetMotionRate(4_178_090_000),
            RaCommand::StartMotion
        ]
    );
    assert_eq!(abort_slew(IDLE, TrackingRate::Sidereal, true).unwrap_err().error_message(), "Not slewing");
    assert_eq!(
        move_axis(IDLE, Axis::Primary, 1, true).unwrap_err().error_message(),
        "Rate is invalid"
    );
    assert_eq!(
        move_axis(IDLE, Axis::Secondary, 100_000_000_000, true).unwrap_err().error_number(),
        0x40C
    );
    assert_eq!(
        check_current_state_for_slewing(PARKED).unwrap_err().error_message(),
        "Can't slew while parked"
    );
    assert_eq!(
        check_current_state_for_slewing(MotionState::Tracking(TrackingState::Tracking(true))).unwrap(),
        TrackingState::Tracking(false)
    );
}

#[test]
fn guide_pulses() {
    let p = pulse_guide(TRACKING, GuideDirection::West, AutoGuideSpeed::Half, TrackingRate::Sidereal).unwrap();
    assert_eq!(p.rate_pdeg, 6_267_135_000);
    let p = pulse_guide(TRACKING, GuideDirection::East, AutoGuideSpeed::One, TrackingRate::Sidereal).unwrap();
    assert_eq!(p.rate_pdeg, 0);
    assert_eq!(p.during, MotionState::Tracking(TrackingState::Tracking(true)));
    assert_eq!(p.restore, TrackingState::Tracking(false));
    let p = pulse_guide(IDLE, GuideDirection::West, AutoGuideSpeed::Half, TrackingRate::Sidereal).unwrap();
    assert_eq!(p.rate_pdeg, 0);
    assert_eq!(p.during, MotionState::Tracking(TrackingState::Tracking(true)));
    assert_eq!(p.restore, TrackingState::Stationary(false));
    let e = pulse_guide(IDLE, GuideDirection::South, AutoGuideSpeed::Half, TrackingRate::Sidereal).unwrap_err();
    assert_eq!(e.error_number(), 0x40C);
    let e = pulse_guide(PARKED, GuideDirection::West, AutoGuideSpeed::Half, TrackingRate::Sidereal).unwrap_err();
    assert_eq!(e.error_message(), "Can't guide while parked");
}

#[test]
fn start_up() {
    let s = startup(DriveMode::Tracking, true, 110_382, 64935, 50688, true);
    assert_eq!(s.tracking_rate, TrackingRate::Sidereal);
    assert_eq!(s.motion_state, TRACKING);
    assert_eq!(s.commands, vec![RaCommand::SetAutoguideSpeed(AutoGuideSpeed::Half)]);
    assert_eq!(s.pier_side, PierSide::Unknown);
    let s = startup(DriveMode::Tracking, false, 114_605, 64935, 50688, true);
    assert_eq!(s.tracking_rate, TrackingRate::Lunar);
    assert_eq!(s.motion_state, IDLE);
    let s = startup(DriveMode::Tracking, false, 7, 64935, 50688, true);
    assert_eq!(s.tracking_rate, TrackingRate::Sidereal);
    assert_eq!(
        s.commands,
        vec![RaCommand::SetStepPeriod(110_382), RaCommand::SetAutoguideSpeed(AutoGuideSpeed::Half)]
    );
    let s = startup(DriveMode::Goto, false, 7, 64935, 50688, false);
    assert_eq!(
        s.commands,
        vec![
            RaCommand::SetTrackingMode(MotorDirection::CounterClockwise),
            RaCommand::SetStepPeriod(110_382),
            RaCommand::SetAutoguideSpeed(AutoGuideSpeed::Half)
        ]
    );
    assert_eq!(s.pier_side, PierSide::Unknown);
}
