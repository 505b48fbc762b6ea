use star_adventurer::ascom_state::{AscomState, ConnectedState, GuideState, RestorableState, SlewingState};
use star_adventurer::long_tasks::{
    goto_step, guide_rate_fits, GotoCommand, GotoEvent, LongStart, ParkTask, PulseGuideTask,
    SlewToTask,
};
use star_adventurer::motion::{MotionRate, MotorDirection};
use star_adventurer::motor::MotorState;
use star_adventurer::tasks::{
    outcome, AbortSlewTask, MoveMotorTask, StartTrackingTask, StopTrackingTask, TaskStep,
    UnparkTask, UpdateTrackingRateTask,
};

const SIDEREAL: u64 = 4_178_090_000;

fn tracking(rate: MotionRate) -> ConnectedState {
    ConnectedState {
        ascom_state: AscomState::Tracking(GuideState::Idle),
        motor_state: MotorState::Moving(rate),
    }
}

fn refusal(step: TaskStep) -> (i32, String) {
    match step {
        TaskStep::Refused(e) => (e.error_number(), e.error_message().to_string()),
        other => panic!("not refused: {:?}", other),
    }
}

fn parked() -> ConnectedState {
    ConnectedState { ascom_state: AscomState::Parked, motor_state: MotorState::Stationary }
}

#[test]
fn parked_mount_refuses() {
    assert_eq!(
        refusal(AbortSlewTask::new().run(&parked())),
        (0x408, "Can't abort slew while parked".to_string())
    );
    let r = MotionRate::new(SIDEREAL, MotorDirection::Clockwise);
    assert_eq!(
        refusal(MoveMotorTask::new(r).run(&parked())),
        (0x408, "Can't move axis while parked".to_string())
    );
    assert_eq!(
        refusal(StopTrackingTask::new().run(&parked())),
        (0x408, "Can't stop tracking while parked".to_string())
    );
    assert_eq!(
        refusal(StartTrackingTask::new(r).run(&parked())),
        (0x408, "Can't start tracking while parked".to_string())
    );
    assert!(matches!(UpdateTrackingRateTask::new(r).run(&parked()), TaskStep::Done));
}

#[test]
fn tracking_starts_and_stops() {
    let r = MotionRate::new(SIDEREAL, MotorDirection::Clockwise);
    let idle = ConnectedState::new();
    let step = StartTrackingTask::new(r).run(&idle);
    assert!(matches!(step, TaskStep::ChangeRate(x, AscomState::Tracking(GuideState::Idle)) if x == r));
    let t = outcome(&idle, &step);
    assert_eq!(t, tracking(r));
    assert!(matches!(StartTrackingTask::new(r).run(&t), TaskStep::Done));
    let stop = StopTrackingTask::new().run(&t);
    assert_eq!(outcome(&t, &stop), ConnectedState::new());
    assert!(matches!(StopTrackingTask::new().run(&idle), TaskStep::Done));
}

#[test]
fn moving_axis_then_aborting_restores_tracking() {
    let r = MotionRate::new(SIDEREAL, MotorDirection::Clockwise);
    let fast = MotionRate::new(200_000_000_000, MotorDirection::CounterClockwise);
    let s = tracking(r);
    let step = MoveMotorTask::new(fast).run(&s);
    let moved = outcome(&s, &step);
    assert_eq!(
        moved,
        ConnectedState {
            ascom_state: AscomState::Slewing(SlewingState::MoveAxis(
                RestorableState::Tracking(r),
                GuideState::Idle
            )),
            motor_state: MotorState::Moving(fast),
        }
    );
    // while moving, tracking can be neither started nor stopped
    assert_eq!(
        refusal(StartTrackingTask::new(r).run(&moved)),
        (0x40B, "Can't start tracking while moving axis".to_string())
    );
    assert_eq!(
        refusal(StopTrackingTask::new().run(&moved)),
        (0x40B, "Can't stop tracking while moving axis".to_string())
    );
    // asking for the same rate again does nothing
    assert!(matches!(MoveMotorTask::new(fast).run(&moved), TaskStep::Done));
    let back = AbortSlewTask::new().run(&moved);
    assert_eq!(outcome(&moved, &back), s);
}

#[test]
fn moving_axis_from_idle_then_aborting_stops() {
    let fast = MotionRate::new(200_000_000_000, MotorDirection::Clockwise);
    let idle = ConnectedState::new();
    let moved = outcome(&idle, &MoveMotorTask::new(fast).run(&idle));
    let back = outcome(&moved, &AbortSlewTask::new().run(&moved));
    assert_eq!(back, idle);
}

#[test]
fn tracking_rate_updates_only_when_tracking() {
    let r = MotionRate::new(SIDEREAL, MotorDirection::Clockwise);
    let lunar = MotionRate::new(4_024_138_000, MotorDirection::Clockwise);
    let idle = ConnectedState::new();
    assert!(matches!(UpdateTrackingRateTask::new(lunar).run(&idle), TaskStep::Done));
    let t = tracking(r);
    let step = UpdateTrackingRateTask::new(lunar).run(&t);
    assert_eq!(outcome(&t, &step), tracking(lunar));
}

#[test]
fn unpark() {
    let p = parked();
    let step = UnparkTask::new().run(&p);
    assert_eq!(outcome(&p, &step), ConnectedState::new());
    assert!(matches!(UnparkTask::new().run(&ConnectedState::new()), TaskStep::Done));
}

#[test]
fn park_decisions() {
    let task = ParkTask::new();
    assert!(matches!(task.start(&parked(), false), LongStart::Finished(None)));
    assert!(matches!(
        task.start(&ConnectedState::new(), true),
        LongStart::Finished(Some(AscomState::Parked))
    ));
    assert!(matches!(task.start(&ConnectedState::new(), false), LongStart::Goto));
    let r = MotionRate::new(SIDEREAL, MotorDirection::Clockwise);
    assert!(matches!(task.start(&tracking(r), true), LongStart::Goto));
    assert!(matches!(task.complete(), TaskStep::Enter(AscomState::Parked)));
    assert!(matches!(task.abort(), TaskStep::Enter(AscomState::Idle(GuideState::Idle))));
}

#[test]
fn slew_returns_to_tracking() {
    let r = MotionRate::new(SIDEREAL, MotorDirection::Clockwise);
    let mut task = SlewToTask::new();
    match task.start(&parked(), false) {
        LongStart::Refused(e) => {
            assert_eq!(e.error_number(), 0x408);
            assert_eq!(e.error_message(), "Can't slew to while parked");
        }
        _ => panic!("not refused"),
    }
    assert!(matches!(task.start(&tracking(r), false), LongStart::Goto));
    let step = task.complete();
    assert!(matches!(step, TaskStep::ChangeRate(x, AscomState::Tracking(GuideState::Idle)) if x == r));
    let ended = ConnectedState {
        ascom_state: AscomState::Slewing(SlewingState::SlewTo),
        motor_state: MotorState::Stationary,
    };
    assert_eq!(outcome(&ended, &task.abort()), tracking(r));

    let mut idle_task = SlewToTask::new();
    assert!(matches!(idle_task.start(&ConnectedState::new(), true), LongStart::Finished(None)));
    assert!(matches!(
        idle_task.complete(),
        TaskStep::Enter(AscomState::Idle(GuideState::Idle))
    ));
}

#[test]
fn a_guide_pulse_returns_to_the_tracking_rate() {
    let r = MotionRate::new(SIDEREAL, MotorDirection::Clockwise);
    let guide = MotionRate::new(SIDEREAL / 2, MotorDirection::CounterClockwise);
    let task = PulseGuideTask::new(guide);
    let s = tracking(r);
    let guided = outcome(&s, &task.start(&s));
    assert_eq!(
        guided,
        ConnectedState {
            ascom_state: AscomState::Tracking(GuideState::Guiding),
            motor_state: MotorState::Moving(MotionRate::new(SIDEREAL / 2, MotorDirection::Clockwise)),
        }
    );
    let ended = outcome(&guided, &task.complete(&guided));
    assert_eq!(ended, s);
    assert!(matches!(
        task.abort(&guided),
        TaskStep::Enter(AscomState::Tracking(GuideState::Idle))
    ));
    assert_eq!(
        refusal(task.start(&parked())),
        (0x408, "Can't pulse guide while parked".to_string())
    );
}

#[test]
fn ascom_state_queries() {
    let s = AscomState::Slewing(SlewingState::MoveAxis(RestorableState::Idle, GuideState::Guiding));
    assert!(s.is_slewing());
    assert!(s.is_guiding());
    assert!(!s.is_tracking());
    assert!(!s.is_parked());
    let mut t = AscomState::Tracking(GuideState::Idle);
    t.set_guide_state(GuideState::Guiding);
    assert_eq!(t, AscomState::Tracking(GuideState::Guiding));
    assert_eq!(t.guide_state(), GuideState::Guiding);
}

#[test]
fn consistency_and_quiet_checks() {
    let idle = ConnectedState::new();
    assert!(idle.consistent());
    assert!(idle.quiet());
    let goto = ConnectedState {
        ascom_state: AscomState::Slewing(SlewingState::SlewTo),
        motor_state: MotorState::Gotoing,
    };
    assert!(goto.consistent());
    assert!(!goto.quiet());
    let goto_without_slew = ConnectedState {
        ascom_state: AscomState::Idle(GuideState::Idle),
        motor_state: MotorState::Gotoing,
    };
    assert!(!goto_without_slew.consistent());
    let parked_moving = ConnectedState {
        ascom_state: AscomState::Parked,
        motor_state: MotorState::Moving(MotionRate::new(SIDEREAL, MotorDirection::Clockwise)),
    };
    assert!(!parked_moving.consistent());
    let too_slow = tracking(MotionRate::new(1_000, MotorDirection::Clockwise));
    assert!(!too_slow.consistent());
    assert!(tracking(MotionRate::new(SIDEREAL, MotorDirection::CounterClockwise)).consistent());
    let guiding = ConnectedState {
        ascom_state: AscomState::Tracking(GuideState::Guiding),
        motor_state: MotorState::Moving(MotionRate::new(SIDEREAL, MotorDirection::Clockwise)),
    };
    assert!(guiding.consistent());
    assert!(!guiding.quiet());
}

#[test]
fn guide_rate_bounds() {
    assert!(guide_rate_fits(MotionRate::new(SIDEREAL / 2, MotorDirection::Clockwise)));
    assert!(guide_rate_fits(MotionRate::new(SIDEREAL, MotorDirection::CounterClockwise)));
    let limit = (i64::MAX as u64) - 281_700_000_000;
    assert!(guide_rate_fits(MotionRate::new(limit, MotorDirection::Clockwise)));
    assert!(!guide_rate_fits(MotionRate::new(limit + 1, MotorDirection::Clockwise)));
    assert!(!guide_rate_fits(MotionRate::new(limit + 1, MotorDirection::CounterClockwise)));
}

#[test]
fn goto_steps() {
    let idle = ConnectedState::new();
    let (running, cmds) = goto_step(&idle, GotoEvent::Start);
    assert_eq!(running.ascom_state, AscomState::Slewing(SlewingState::SlewTo));
    assert_eq!(running.motor_state, MotorState::Gotoing);
    assert_eq!(cmds, vec![GotoCommand::SetGotoMode, GotoCommand::SetGotoTarget, GotoCommand::StartMotion]);
    let (ended, cmds) = goto_step(&running, GotoEvent::Finished);
    assert_eq!(ended.ascom_state, AscomState::Slewing(SlewingState::SlewTo));
    assert_eq!(ended.motor_state, MotorState::Stationary);
    assert_eq!(cmds, vec![GotoCommand::WaitForStop]);
    let (aborted, cmds) = goto_step(&running, GotoEvent::Abort);
    assert_eq!(aborted.motor_state, MotorState::Stationary);
    assert_eq!(cmds, vec![GotoCommand::StopMotion, GotoCommand::WaitForStop]);
}

#[test]
fn unparking_twice_is_unparking_once() {
    let task = UnparkTask::new();
    let once = outcome(&parked(), &task.run(&parked()));
    assert_eq!(once.ascom_state, AscomState::Idle(GuideState::Idle));
    let twice = outcome(&once, &task.run(&once));
    assert_eq!(twice, once);
}
