use star_adventurer::motion::{MotionRate, MotorDirection};
use star_adventurer::motor::{
    clamp_rate, clamp_speed, get_max_speed, get_min_speed, plan_rate_change, MotorCommand,
    MotorError, MotorState, RateChange,
};

const CW: MotorDirection = MotorDirection::Clockwise;
const CCW: MotorDirection = MotorDirection::CounterClockwise;

#[test]
fn speed_limits() {
    assert_eq!(get_min_speed(), 29_000_000);
    assert_eq!(get_max_speed(), 281_700_000_000);
    assert_eq!(clamp_speed(1), 29_000_000);
    assert_eq!(clamp_speed(400_000_000_000), 281_700_000_000);
    assert_eq!(clamp_speed(5_000_000_000), 5_000_000_000);
    assert_eq!(clamp_rate(MotionRate::new(1, CCW)), MotionRate::new(29_000_000, CCW));
}

#[test]
fn rate_change_plans() {
    let r = MotionRate::new(4_178_090_000, CW);
    assert_eq!(plan_rate_change(&MotorState::Moving(r), r), RateChange::Unchanged);
    assert_eq!(
        plan_rate_change(&MotorState::Stationary, MotionRate::zero()),
        RateChange::Unchanged
    );
    assert_eq!(plan_rate_change(&MotorState::Stationary, r), RateChange::Start(r));
    assert_eq!(
        plan_rate_change(&MotorState::Moving(r), MotionRate::zero()),
        RateChange::Stop
    );
    let faster = MotionRate::new(8_000_000_000, CW);
    assert_eq!(
        plan_rate_change(&MotorState::Moving(r), faster),
        RateChange::ChangeSpeed(faster)
    );
    let back = MotionRate::new(8_000_000_000, CCW);
    assert_eq!(
        plan_rate_change(&MotorState::Moving(r), back),
        RateChange::Reverse(back)
    );
    // a rate out of range is brought into it
    assert_eq!(
        plan_rate_change(&MotorState::Stationary, MotionRate::new(10, CW)),
        RateChange::Start(MotionRate::new(29_000_000, CW))
    );
}

#[test]
fn commands_reach_the_requested_rate() {
    let r = MotionRate::new(4_178_090_000, CW);
    let back = MotionRate::new(8_000_000_000, CCW);
    let plan = plan_rate_change(&MotorState::Moving(r), back);
    let cmds = plan.commands();
    assert_eq!(
        cmds,
        vec![
            MotorCommand::StopMotion,
            MotorCommand::WaitForStop,
            MotorCommand::SetTrackingMode(CCW),
            MotorCommand::SetMotionRate(8_000_000_000),
            MotorCommand::StartMotion,
            MotorCommand::WaitForRate(back),
        ]
    );
    let mut state = MotorState::Moving(r);
    for c in cmds {
        state.apply(c);
    }
    assert_eq!(state, MotorState::Moving(back));

    let mut state = MotorState::Moving(r);
    for c in plan_rate_change(&state, MotionRate::zero()).commands() {
        state.apply(c);
    }
    assert_eq!(state, MotorState::Stationary);
}

#[test]
fn motor_errors() {
    let e = MotorError::from_text("cable unplugged");
    assert_eq!(e.describe(), "cable unplugged");
    assert_eq!(MotorError::Disconnected.describe(), "Disconnected");
    assert_eq!(MotorState::Moving(MotionRate::new(3, CW)).get_rate(), MotionRate::new(3, CW));
    assert_eq!(MotorState::Stationary.get_rate(), MotionRate::zero());
}

#[test]
fn repeated_rate_change_does_nothing() {
    for to in [
        MotionRate::new(4_178_090_000, CW),
        MotionRate::new(100_000_000_000, CCW),
        MotionRate::zero(),
    ] {
        let mut state = MotorState::Moving(MotionRate::new(2_000_000_000, CCW));
        for cmd in plan_rate_change(&state, to).commands() {
            state.apply(cmd);
        }
        assert_eq!(plan_rate_change(&state, to), RateChange::Unchanged);
    }
}
