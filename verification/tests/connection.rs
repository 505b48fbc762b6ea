use star_adventurer::ascom_state::ConnectedState;
use star_adventurer::connection::{
    check_motor_result, dispatch, task_after_start, ActiveTask, Dispatch, Operation,
    PotentialConnection,
};
use star_adventurer::motor::MotorError;

fn refused(d: Dispatch) -> (i32, String) {
    match d {
        Dispatch::Refuse(e) => (e.error_number(), e.error_message().to_string()),
        other => panic!("not refused: {:?}", other),
    }
}

#[test]
fn nothing_running_lets_everything_run() {
    for op in [
        Operation::StartTracking,
        Operation::StopTracking,
        Operation::UpdateTrackingRate,
        Operation::MoveMotor,
        Operation::PulseGuide,
        Operation::SlewTo,
        Operation::Park,
        Operation::Unpark,
        Operation::AbortSlew,
    ] {
        assert!(matches!(
            dispatch(op, ActiveTask::NoTask, false),
            Dispatch::Run { abort_active: false }
        ));
    }
}

#[test]
fn slews_and_parks_refuse() {
    assert_eq!(
        refused(dispatch(Operation::StartTracking, ActiveTask::Slewing, true)),
        (0x401, "Can't start tracking while slewing".to_string())
    );
    assert_eq!(
        refused(dispatch(Operation::StopTracking, ActiveTask::Parking, true)),
        (0x401, "Can't stop tracking while parking".to_string())
    );
    assert_eq!(
        refused(dispatch(Operation::MoveMotor, ActiveTask::Slewing, true)),
        (0x40B, "Can't move motor while slewing".to_string())
    );
    assert_eq!(
        refused(dispatch(Operation::PulseGuide, ActiveTask::Guiding, true)),
        (0x40B, "Already guiding".to_string())
    );
    assert_eq!(
        refused(dispatch(Operation::SlewTo, ActiveTask::Slewing, true)),
        (0x401, "Already slewing".to_string())
    );
    assert_eq!(
        refused(dispatch(Operation::Park, ActiveTask::Parking, true)),
        (0x401, "Already parking".to_string())
    );
}

#[test]
fn guide_pulses_are_aborted_first() {
    assert!(matches!(
        dispatch(Operation::StartTracking, ActiveTask::Guiding, false),
        Dispatch::Run { abort_active: true }
    ));
    assert!(matches!(
        dispatch(Operation::UpdateTrackingRate, ActiveTask::Guiding, true),
        Dispatch::Run { abort_active: true }
    ));
    assert!(matches!(
        dispatch(Operation::UpdateTrackingRate, ActiveTask::Guiding, false),
        Dispatch::Skip
    ));
    assert!(matches!(
        dispatch(Operation::UpdateTrackingRate, ActiveTask::Slewing, true),
        Dispatch::Skip
    ));
    assert!(matches!(dispatch(Operation::Unpark, ActiveTask::Guiding, true), Dispatch::Skip));
    assert!(matches!(
        dispatch(Operation::Unpark, ActiveTask::Parking, true),
        Dispatch::Run { abort_active: true }
    ));
    assert!(matches!(
        dispatch(Operation::AbortSlew, ActiveTask::Slewing, true),
        Dispatch::Run { abort_active: true }
    ));
    assert_eq!(task_after_start(Operation::Park), ActiveTask::Parking);
    assert_eq!(task_after_start(Operation::AbortSlew), ActiveTask::NoTask);
}

#[test]
fn motor_failures() {
    let (r, disconnect) = check_motor_result::<u8>(Ok(3));
    assert_eq!(r.unwrap(), 3);
    assert!(!disconnect);
    let (r, disconnect) = check_motor_result::<u8>(Err(MotorError::Disconnected));
    assert_eq!(r.unwrap_err().error_number(), 0x407);
    assert!(!disconnect);
    let (r, disconnect) = check_motor_result::<u8>(Err(MotorError::from_text("timeout")));
    assert_eq!(
        r.unwrap_err().error_message(),
        "The communications channel is not connected."
    );
    assert!(disconnect);
}

#[test]
fn potential_connections() {
    let d = PotentialConnection::Disconnected;
    assert!(!d.is_connected());
    let e = d.get_con().unwrap_err();
    assert_eq!(e.error_number(), 0x407);
    assert_eq!(e.error_message(), "Telescope Not Connected");
    assert_eq!(d.get_cs().unwrap_err().describe(), "Motor Disconnected");
    let mut c = PotentialConnection::Connected(ConnectedState::new());
    assert!(c.is_connected());
    assert_eq!(*c.get_con().unwrap(), ConnectedState::new());
    assert!(c.get_mut_con().is_ok());
}
