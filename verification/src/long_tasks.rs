//! The operations that run on after they return: parking, slewing to a
//! position and guide pulses. Each is decided when it starts, and again when
//! it completes or is aborted.
use vstd::prelude::*;
use crate::ascom_state::{AscomState, ConnectedState, GuideState, RestorableState, SlewingState};
use crate::errors::{AlpacaError, ErrorType};
use crate::motion::MotionRate;
use crate::motor::{settled_state, spec_max_speed, MotorState};
use crate::tasks::{refuses, spec_outcome, TaskStep};

verus! {

/// How an operation that moves to a position starts.
#[derive(Debug)]
pub enum LongStart {
    /// Refused in this state.
    Refused(AlpacaError),
    /// No motion is needed: the operation is complete at once, after entering
    /// the given state, if any.
    Finished(Option<AscomState>),
    /// The motor stops if it turns, then runs a goto while the mount slews.
    Goto,
}

/// The state of the mount while the goto of a park or a slew runs.
pub open spec fn spec_goto_running(s: ConnectedState) -> ConnectedState {
    ConnectedState {
        ascom_state: AscomState::Slewing(SlewingState::SlewTo),
        motor_state: MotorState::Gotoing,
    }
}

/// The state of the mount once the motor has stopped at the end of a goto.
pub open spec fn spec_goto_ended(s: ConnectedState) -> ConnectedState {
    ConnectedState { ascom_state: s.ascom_state, motor_state: MotorState::Stationary }
}

/// The state of the mount once a start has been carried out.
pub open spec fn spec_started(s: ConnectedState, start: LongStart) -> ConnectedState {
    match start {
        LongStart::Finished(Some(a)) => ConnectedState { ascom_state: a, motor_state: s.motor_state },
        LongStart::Goto => spec_goto_running(s),
        _ => s,
    }
}

/// The goto that a park or a slew ends with leaves the motor stopped, and the
/// states along the way are consistent.
pub proof fn lemma_goto_states(s: ConnectedState)
    ensures
        spec_goto_running(s).wf(),
        spec_goto_ended(spec_goto_running(s)).motor_state.wf(),
{
}

/// A command to the controller while the motor runs a goto. The target
/// position is held by the caller and sent with `SetGotoTarget`.
#[derive(Debug, Clone, Copy, PartialEq, Eq, Structural)]
pub enum GotoCommand {
    SetGotoMode,
    SetGotoTarget,
    StartMotion,
    StopMotion,
    WaitForStop,
}

/// What happens to a goto.
#[derive(Debug, Clone, Copy, PartialEq, Eq, Structural)]
pub enum GotoEvent {
    /// The goto is to start from a stopped motor.
    Start,
    /// The running goto is aborted.
    Abort,
    /// The controller has left goto mode at the end of the goto.
    Finished,
}

/// The state of the mount once the commands of a goto event are carried out,
/// with those commands in order: a start sets goto mode and the target and
/// starts the motor, and the mount slews; an abort stops the motor, and both
/// an abort and the end of the goto wait for the motor to stop, which leaves it
/// stationary.
pub fn goto_step(s: &ConnectedState, event: GotoEvent) -> (r: (ConnectedState, Vec<GotoCommand>))
    requires
        event == GotoEvent::Start ==> s.motor_state is Stationary,
        event != GotoEvent::Start ==> s.motor_state is Gotoing,
    ensures
        event == GotoEvent::Start ==> r.0 == spec_goto_running(*s) && r.1@ == seq![
            GotoCommand::SetGotoMode,
            GotoCommand::SetGotoTarget,
            GotoCommand::StartMotion,
        ],
        event == GotoEvent::Abort ==> r.0 == spec_goto_ended(*s) && r.1@ == seq![
            GotoCommand::StopMotion,
            GotoCommand::WaitForStop,
        ],
        event == GotoEvent::Finished ==> r.0 == spec_goto_ended(*s) && r.1@ == seq![GotoCommand::WaitForStop],
{
    let mut commands: Vec<GotoCommand> = Vec::new();
    match event {
        GotoEvent::Start => {
            commands.push(GotoCommand::SetGotoMode);
            commands.push(GotoCommand::SetGotoTarget);
            commands.push(GotoCommand::StartMotion);
            proof {
                assert(commands@ =~= seq![
                    GotoCommand::SetGotoMode,
                    GotoCommand::SetGotoTarget,
                    GotoCommand::StartMotion,
                ]);
            }
            (
                ConnectedState {
                    ascom_state: AscomState::Slewing(SlewingState::SlewTo),
                    motor_state: MotorState::Gotoing,
                },
                commands,
            )
        },
        GotoEvent::Abort => {
            commands.push(GotoCommand::StopMotion);
            commands.push(GotoCommand::WaitForStop);
            proof {
                assert(commands@ =~= seq![GotoCommand::StopMotion, GotoCommand::WaitForStop]);
            }
            (ConnectedState { ascom_state: s.ascom_state, motor_state: MotorState::Stationary }, commands)
        },
        GotoEvent::Finished => {
            commands.push(GotoCommand::WaitForStop);
            proof {
                assert(commands@ =~= seq![GotoCommand::WaitForStop]);
            }
            (ConnectedState { ascom_state: s.ascom_state, motor_state: MotorState::Stationary }, commands)
        },
    }
}

/// Moves the mount to its park position and parks it there.
pub struct ParkTask {}

impl ParkTask {
    pub fn new() -> (t: ParkTask) {
        ParkTask {}
    }

    /// Starts parking: a parked mount stays parked, an idle one at the park
    /// position parks where it is, and any other runs a goto to the position.
    pub fn start(&self, s: &ConnectedState, at_park_position: bool) -> (r: LongStart)
        requires
            s.wf(),
            s.is_quiet(),
        ensures
            s.ascom_state is Parked ==> r == LongStart::Finished(None),
            s.ascom_state is Idle && at_park_position ==> r == LongStart::Finished(
                Some(AscomState::Parked),
            ),
            s.ascom_state is Idle && !at_park_position ==> r is Goto,
            s.ascom_state is Tracking || s.ascom_state is Slewing ==> r is Goto,
            s.motor_state is Stationary ==> spec_started(*s, r).wf(),
    {
        match s.ascom_state {
            AscomState::Parked => LongStart::Finished(None),
            AscomState::Idle(_) => {
                if at_park_position {
                    LongStart::Finished(Some(AscomState::Parked))
                } else {
                    LongStart::Goto
                }
            },
            _ => LongStart::Goto,
        }
    }

    /// The mount is parked once the goto ends.
    pub fn complete(&self) -> (step: TaskStep)
        ensures
            step == TaskStep::Enter(AscomState::Parked),
    {
        TaskStep::Enter(AscomState::Parked)
    }

    /// An aborted park leaves the mount idle where the goto stopped.
    pub fn abort(&self) -> (step: TaskStep)
        ensures
            step == TaskStep::Enter(AscomState::Idle(GuideState::Idle)),
    {
        TaskStep::Enter(AscomState::Idle(GuideState::Idle))
    }
}

/// The step that returns a mount to a remembered state once its goto has
/// ended with the motor stopped: tracking again at the remembered rate, or idle.
pub open spec fn spec_return_step(rs: RestorableState) -> TaskStep {
    match rs {
        RestorableState::Tracking(mr) => TaskStep::ChangeRate(mr, AscomState::Tracking(GuideState::Idle)),
        RestorableState::Idle => TaskStep::Enter(AscomState::Idle(GuideState::Idle)),
    }
}

/// Slews to a motor position and returns to the state before the slew.
pub struct SlewToTask {
    after_state: RestorableState,
}

impl SlewToTask {
    pub closed spec fn spec_after_state(&self) -> RestorableState {
        self.after_state
    }

    pub fn new() -> (t: SlewToTask)
        ensures
            t.spec_after_state() == RestorableState::Idle,
    {
        SlewToTask { after_state: RestorableState::Idle }
    }

    /// The state a slew returns to: tracking at the rate it tracked at, or the
    /// state a manual move would have returned to, or idle.
    pub open spec fn spec_return_state(s: ConnectedState) -> RestorableState {
        match s.ascom_state {
            AscomState::Tracking(_) => RestorableState::Tracking(s.motor_state.spec_rate()),
            AscomState::Slewing(SlewingState::MoveAxis(rs, _)) => rs,
            _ => RestorableState::Idle,
        }
    }

    /// Starts the slew, remembering the state to return to.
    pub fn start(&mut self, s: &ConnectedState, at_target: bool) -> (r: LongStart)
        requires
            s.wf(),
            s.is_quiet(),
        ensures
            s.ascom_state is Parked ==> (r matches LongStart::Refused(e) && e.number()
                == ErrorType::InvalidWhileParked.spec_code() && e.message()
                == "Can't slew to while parked"@),
            s.ascom_state is Idle && at_target ==> r == LongStart::Finished(None),
            (s.ascom_state is Idle && !at_target) || s.ascom_state is Tracking
                || s.ascom_state is Slewing ==> r is Goto,
            r is Goto ==> final(self).spec_after_state() == Self::spec_return_state(*s),
            !(r is Goto) ==> final(self).spec_after_state() == old(self).spec_after_state(),
            spec_started(*s, r).wf(),
    {
        match s.ascom_state {
            AscomState::Parked => {
                return LongStart::Refused(
                    AlpacaError::from_msg(
                        ErrorType::InvalidWhileParked,
                        crate::errors::text("Can't slew to while parked"),
                    ),
                );
            },
            AscomState::Idle(_) => {
                if at_target {
                    return LongStart::Finished(None);
                }
                self.after_state = RestorableState::Idle;
            },
            AscomState::Tracking(_) => {
                self.after_state = RestorableState::Tracking(s.motor_state.get_rate());
            },
            AscomState::Slewing(SlewingState::MoveAxis(rs, _)) => {
                self.after_state = rs;
            },
            AscomState::Slewing(SlewingState::SlewTo) => {
                self.after_state = RestorableState::Idle;
            },
        }
        LongStart::Goto
    }

    /// Once the goto has ended, the mount returns to the remembered state.
    pub fn complete(&self) -> (step: TaskStep)
        ensures
            step == (match self.spec_after_state() {
                RestorableState::Tracking(mr) => TaskStep::ChangeRate(
                    mr,
                    AscomState::Tracking(GuideState::Idle),
                ),
                RestorableState::Idle => TaskStep::Enter(AscomState::Idle(GuideState::Idle)),
            }),
            step == spec_return_step(self.spec_after_state()),
    {
        match self.after_state {
            RestorableState::Tracking(mr) => TaskStep::ChangeRate(mr, AscomState::Tracking(GuideState::Idle)),
            RestorableState::Idle => TaskStep::Enter(AscomState::Idle(GuideState::Idle)),
        }
    }

    /// An aborted slew stops its goto and then returns as a completed one does.
    pub fn abort(&self) -> (step: TaskStep)
        ensures
            step == (match self.spec_after_state() {
                RestorableState::Tracking(mr) => TaskStep::ChangeRate(
                    mr,
                    AscomState::Tracking(GuideState::Idle),
                ),
                RestorableState::Idle => TaskStep::Enter(AscomState::Idle(GuideState::Idle)),
            }),
            step == spec_return_step(self.spec_after_state()),
    {
        self.complete()
    }
}

/// The bound on a guide rate for its sum with any driveable rate to be held.
pub open spec fn guide_rate_in_range(r: MotionRate) -> bool {
    -(i64::MAX - spec_max_speed()) <= r.velocity() <= i64::MAX - spec_max_speed()
}

/// Checks the bound on a guide rate (see `guide_rate_in_range`).
pub fn guide_rate_fits(r: MotionRate) -> (b: bool)
    ensures
        b == guide_rate_in_range(r),
{
    r.rate() <= (i64::MAX as u64) - crate::motor::get_max_speed()
}

/// Adds a guide rate to the motor's rate for the length of a pulse.
pub struct PulseGuideTask {
    guide_rate: MotionRate,
}

impl PulseGuideTask {
    pub closed spec fn spec_guide_rate(&self) -> MotionRate {
        self.guide_rate
    }

    pub fn new(guide_rate: MotionRate) -> (t: PulseGuideTask)
        requires
            guide_rate_in_range(guide_rate),
        ensures
            t.spec_guide_rate() == guide_rate,
    {
        PulseGuideTask { guide_rate }
    }

    /// The step that starts the pulse: the motor turns at its rate plus the
    /// guide rate, and the mount is guiding.
    pub open spec fn spec_start_step(&self, s: ConnectedState) -> TaskStep {
        TaskStep::ChangeRate(
            MotionRate::from_velocity(s.motor_state.spec_rate().velocity() + self.spec_guide_rate().velocity()),
            s.ascom_state.spec_with_guide_state(GuideState::Guiding),
        )
    }

    /// The step that ends the pulse: the guide rate is taken away again.
    pub open spec fn spec_complete_step(&self, s: ConnectedState) -> TaskStep {
        TaskStep::ChangeRate(
            MotionRate::from_velocity(s.motor_state.spec_rate().velocity() - self.spec_guide_rate().velocity()),
            s.ascom_state.spec_with_guide_state(GuideState::Idle),
        )
    }

    /// Starts the pulse.
    pub fn start(&self, s: &ConnectedState) -> (step: TaskStep)
        requires
            s.wf(),
            s.is_quiet(),
            guide_rate_in_range(self.spec_guide_rate()),
        ensures
            s.ascom_state is Parked ==> refuses(
                step,
                ErrorType::InvalidWhileParked.spec_code(),
                "Can't pulse guide while parked"@,
            ),
            !(s.ascom_state is Parked) ==> step == self.spec_start_step(*s),
            spec_outcome(*s, step).wf(),
    {
        if s.ascom_state.is_parked() {
            return TaskStep::Refused(
                AlpacaError::from_msg(
                    ErrorType::InvalidWhileParked,
                    crate::errors::text("Can't pulse guide while parked"),
                ),
            );
        }
        let current = s.motor_state.get_rate();
        proof { crate::motor::lemma_wf_rate_bounded(s.motor_state); }
        let target = current.plus(&self.guide_rate);
        let mut next = s.ascom_state;
        next.set_guide_state(GuideState::Guiding);
        proof {
            MotionRate::lemma_from_own_velocity(target);
            crate::motor::lemma_settled_state_wf(target);
        }
        TaskStep::ChangeRate(target, next)
    }

    /// Ends the pulse.
    pub fn complete(&self, s: &ConnectedState) -> (step: TaskStep)
        requires
            s.wf(),
            s.ascom_state.has_guide_state(),
            guide_rate_in_range(self.spec_guide_rate()),
        ensures
            step == self.spec_complete_step(*s),
            spec_outcome(*s, step).wf(),
    {
        let current = s.motor_state.get_rate();
        proof { crate::motor::lemma_wf_rate_bounded(s.motor_state); }
        let target = current.minus(&self.guide_rate);
        let mut next = s.ascom_state;
        next.set_guide_state(GuideState::Idle);
        proof {
            MotionRate::lemma_from_own_velocity(target);
            crate::motor::lemma_settled_state_wf(target);
        }
        TaskStep::ChangeRate(target, next)
    }

    /// An aborted pulse marks the mount as no longer guiding; the next operation
    /// sets the motor's rate.
    pub fn abort(&self, s: &ConnectedState) -> (step: TaskStep)
        requires
            s.ascom_state.has_guide_state(),
        ensures
            step == TaskStep::Enter(s.ascom_state.spec_with_guide_state(GuideState::Idle)),
    {
        let mut next = s.ascom_state;
        next.set_guide_state(GuideState::Idle);
        TaskStep::Enter(next)
    }
}

} // verus!
