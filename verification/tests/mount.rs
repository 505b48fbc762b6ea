use star_adventurer::connection::Operation;
use star_adventurer::enums::{Axis, PierSide, TrackingRate};
use star_adventurer::motion::{MotionRate, MotorDirection, RotationDirectionKey};
use star_adventurer::mount::{
    axis_rate_range, can_move_axis, check_slew_settle_time, connect_error, get_tracking_rates,
    parse_action, plan_move_axis, tracking_rate_change, tracking_switch, ConnectStage,
    DeviceAction, MoveAxisPlan,
};

const N: RotationDirectionKey = RotationDirectionKey::Northern;

fn refusal(p: MoveAxisPlan) -> (i32, String) {
    match p {
        MoveAxisPlan::Refused(e) => (e.error_number(), e.error_message().to_string()),
        other => panic!("not refused: {:?}", other),
    }
}

#[test]
fn manual_moves() {
    assert_eq!(
        refusal(plan_move_axis(Axis::Secondary, 100_000_000, true, N)),
        (0x401, "Can only slew on primary axis".to_string())
    );
    assert!(matches!(plan_move_axis(Axis::Primary, 0, false, N), MoveAxisPlan::AbortSlew));
    assert_eq!(
        refusal(plan_move_axis(Axis::Primary, 100_000_000, false, N)).0,
        0x407
    );
    assert_eq!(
        refusal(plan_move_axis(Axis::Primary, 10, true, N)),
        (0x401, "Rate is invalid".to_string())
    );
    assert_eq!(
        refusal(plan_move_axis(Axis::Primary, -300_000_000_000, true, N)),
        (0x401, "Rate is invalid".to_string())
    );
    match plan_move_axis(Axis::Primary, -100_000_000_000, true, N) {
        MoveAxisPlan::Move(r) => {
            assert_eq!(r, MotionRate::new(100_000_000_000, MotorDirection::CounterClockwise))
        }
        other => panic!("{:?}", other),
    }
    match plan_move_axis(Axis::Primary, 281_700_000_000, true, RotationDirectionKey::Southern) {
        MoveAxisPlan::Move(r) => {
            assert_eq!(r, MotionRate::new(281_700_000_000, MotorDirection::CounterClockwise))
        }
        other => panic!("{:?}", other),
    }
}

#[test]
fn axis_rates() {
    assert!(can_move_axis(Axis::Primary));
    assert!(!can_move_axis(Axis::Tertiary));
    assert_eq!(axis_rate_range(Axis::Primary), (29_000_000, 281_700_000_000));
    assert_eq!(axis_rate_range(Axis::Secondary), (0, 0));
}

#[test]
fn settle_time_and_tracking() {
    assert_eq!(check_slew_settle_time(5).unwrap(), 5);
    let e = check_slew_settle_time(-1).unwrap_err();
    assert_eq!(e.error_number(), 0x401);
    assert_eq!(e.error_message(), "Slew settle time must be nonegative");
    assert_eq!(
        get_tracking_rates(),
        vec![TrackingRate::Sidereal, TrackingRate::Lunar, TrackingRate::Solar, TrackingRate::King]
    );
    assert_eq!(tracking_rate_change(TrackingRate::Solar, TrackingRate::Solar, N), None);
    assert_eq!(
        tracking_rate_change(TrackingRate::Sidereal, TrackingRate::Solar, N),
        Some(MotionRate::new(4_166_650_000, MotorDirection::Clockwise))
    );
    assert_eq!(
        tracking_switch(true, TrackingRate::King, N),
        (
            Operation::StartTracking,
            Some(MotionRate::new(4_176_920_000, MotorDirection::Clockwise))
        )
    );
    assert_eq!(tracking_switch(false, TrackingRate::King, N), (Operation::StopTracking, None));
}

#[test]
fn actions() {
    assert_eq!(
        parse_action("pending_declination_slew", "").unwrap(),
        DeviceAction::PendingDeclinationSlew
    );
    assert_eq!(
        parse_action("complete_declination_slew", "x").unwrap(),
        DeviceAction::CompleteDeclinationSlew
    );
    assert_eq!(
        parse_action("set_pier_side_after_manual_move", "west").unwrap(),
        DeviceAction::SetPierSideAfterManualMove(PierSide::West)
    );
    let e = parse_action("set_pier_side_after_manual_move", "up").unwrap_err();
    assert_eq!(e.error_number(), 0x401);
    assert_eq!(e.error_message(), "Unknown pier side: \"up\"");
    let e = parse_action("dance", "").unwrap_err();
    assert_eq!(e.error_number(), 0x400);
    assert_eq!(e.error_message(), "Action not implemented");
}

#[test]
fn connect_errors() {
    let e = connect_error(ConnectStage::OpenController, "no port");
    assert_eq!(e.error_number(), 0x500);
    assert_eq!(e.error_message(), "Could not connect to motor controller: no port");
    let e = connect_error(ConnectStage::StopMotor, "timeout");
    assert_eq!(e.error_number(), 0x502);
    assert_eq!(e.error_message(), "Error stopping motor: timeout");
}
