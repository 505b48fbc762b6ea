//! The operations of the connected mount: what each one does to the ASCOM
//! state and to the rate of the motor, decided from the state it starts in.
//!
//! The driver carries a step out by running the controller commands of the
//! rate change (see `motor::plan_rate_change`) and then entering the new state.
use vstd::prelude::*;
use crate::ascom_state::{AscomState, ConnectedState, GuideState, RestorableState, SlewingState};
use crate::errors::{AlpacaError, ErrorType};
use crate::motion::MotionRate;
use crate::motor::{settled_state, MotorState};

verus! {

/// What an operation does.
#[derive(Debug)]
pub enum TaskStep {
    /// Nothing: the mount is already as asked.
    Done,
    /// The operation is refused in this state.
    Refused(AlpacaError),
    /// The mount enters a new state; the motor is left as it is.
    Enter(AscomState),
    /// The motor changes to a rate, then the mount enters a new state.
    ChangeRate(MotionRate, AscomState),
}

/// True when the step refuses with the given error number and message.
pub open spec fn refuses(step: TaskStep, code: int, message: Seq<char>) -> bool {
    step matches TaskStep::Refused(e) && e.number() == code && e.message() == message
}

/// The state of the mount once a step has been carried out.
pub open spec fn spec_outcome(s: ConnectedState, step: TaskStep) -> ConnectedState {
    match step {
        TaskStep::Enter(a) => ConnectedState { ascom_state: a, motor_state: s.motor_state },
        TaskStep::ChangeRate(r, a) => ConnectedState { ascom_state: a, motor_state: settled_state(r) },
        _ => s,
    }
}

/// The state of the mount once a step has been carried out, for a state whose
/// motor is at a steady rate.
pub fn outcome(s: &ConnectedState, step: &TaskStep) -> (o: ConnectedState)
    requires
        s.motor_state.wf(),
    ensures
        o == spec_outcome(*s, *step),
{
    match step {
        TaskStep::Enter(a) => ConnectedState { ascom_state: *a, motor_state: s.motor_state },
        TaskStep::ChangeRate(r, a) => {
            let mut m = s.motor_state;
            let plan = crate::motor::plan_rate_change(&m, *r);
            let cmds = plan.commands();
            let mut i: usize = 0;
            proof {
                crate::motor::lemma_plan_reaches_rate(s.motor_state, *r);
                assert(cmds@.subrange(0, cmds@.len() as int) =~= cmds@);
            }
            while i < cmds.len()
                invariant
                    0 <= i <= cmds@.len(),
                    s.motor_state.wf(),
                    cmds@ == plan.spec_commands(),
                    plan == crate::motor::spec_plan(s.motor_state.spec_rate(), *r),
                    crate::motor::spec_run(m, cmds@.subrange(i as int, cmds@.len() as int))
                        == settled_state(*r),
                decreases cmds@.len() - i,
            {
                let ghost rest = cmds@.subrange(i as int, cmds@.len() as int);
                assert(rest.drop_first() =~= cmds@.subrange(i + 1, cmds@.len() as int));
                m.apply(cmds[i]);
                i = i + 1;
            }
            assert(cmds@.subrange(i as int, cmds@.len() as int) =~= Seq::<crate::motor::MotorCommand>::empty());
            ConnectedState { ascom_state: *a, motor_state: m }
        },
        _ => *s,
    }
}

/// The step that ends a manual move: back to tracking at the rate it tracked
/// at before, or back to idle with the motor stopped.
pub open spec fn spec_restore_step(rs: RestorableState) -> TaskStep {
    match rs {
        RestorableState::Tracking(mr) => TaskStep::ChangeRate(mr, AscomState::Tracking(GuideState::Idle)),
        RestorableState::Idle => TaskStep::ChangeRate(
            MotionRate::spec_zero(),
            AscomState::Idle(GuideState::Idle),
        ),
    }
}

/// Ends a manual axis move or a goto and returns to the state before it.
pub struct AbortSlewTask {}

impl AbortSlewTask {
    pub fn new() -> (t: AbortSlewTask) {
        AbortSlewTask {}
    }

    /// Ends a manual move by returning to the rate and state it started from; a
    /// goto ends when its task is cancelled, and a mount at rest is left as it is.
    pub fn run(&self, s: &ConnectedState) -> (step: TaskStep)
        requires
            s.wf(),
            s.is_quiet(),
        ensures
            s.ascom_state is Parked ==> refuses(
                step,
                ErrorType::InvalidWhileParked.spec_code(),
                "Can't abort slew while parked"@,
            ),
            s.ascom_state is Idle || s.ascom_state is Tracking ==> step is Done,
            s.ascom_state matches AscomState::Slewing(SlewingState::MoveAxis(rs, _)) ==> step
                == spec_restore_step(rs),
            spec_outcome(*s, step).wf(),
    {
        match s.ascom_state {
            AscomState::Parked => TaskStep::Refused(
                AlpacaError::from_msg(
                    ErrorType::InvalidWhileParked,
                    crate::errors::text("Can't abort slew while parked"),
                ),
            ),
            AscomState::Idle(_) => TaskStep::Done,
            AscomState::Tracking(_) => TaskStep::Done,
            AscomState::Slewing(SlewingState::SlewTo) => TaskStep::Done,
            AscomState::Slewing(SlewingState::MoveAxis(rs, _)) => {
                match rs {
                    RestorableState::Tracking(mr) => {
                        proof { crate::motor::lemma_settled_state_wf(mr); }
                        TaskStep::ChangeRate(mr, AscomState::Tracking(GuideState::Idle))
                    },
                    RestorableState::Idle => {
                        proof { crate::motor::lemma_settled_state_wf(MotionRate::spec_zero()); }
                        TaskStep::ChangeRate(MotionRate::zero(), AscomState::Idle(GuideState::Idle))
                    },
                }
            },
        }
    }
}

/// Turns the axis at a rate, remembering the state to return to afterwards.
pub struct MoveMotorTask {
    rate: MotionRate,
}

impl MoveMotorTask {
    pub closed spec fn spec_rate(&self) -> MotionRate {
        self.rate
    }

    pub fn new(rate: MotionRate) -> (t: MoveMotorTask)
        ensures
            t.spec_rate() == rate,
    {
        MoveMotorTask { rate }
    }

    /// The state that the move returns to when it ends: the one the mount was in
    /// before the first of a run of moves.
    pub open spec fn spec_restorable(s: ConnectedState) -> RestorableState {
        match s.ascom_state {
            AscomState::Tracking(_) => RestorableState::Tracking(s.motor_state.spec_rate()),
            AscomState::Slewing(SlewingState::MoveAxis(rs, _)) => rs,
            _ => RestorableState::Idle,
        }
    }

    /// The step that turns the axis at a rate in a manual move.
    pub open spec fn spec_move_step(s: ConnectedState, rate: MotionRate) -> TaskStep {
        TaskStep::ChangeRate(
            rate,
            AscomState::Slewing(SlewingState::MoveAxis(Self::spec_restorable(s), GuideState::Idle)),
        )
    }

    /// Starts or changes a manual move of the axis.
    pub fn run(&self, s: &ConnectedState) -> (step: TaskStep)
        requires
            s.wf(),
            s.is_quiet(),
        ensures
            s.ascom_state is Parked ==> refuses(
                step,
                ErrorType::InvalidWhileParked.spec_code(),
                "Can't move axis while parked"@,
            ),
            !(s.ascom_state is Parked) ==> (
            if s.ascom_state is Slewing && s.motor_state.spec_rate() == self.spec_rate() {
                step is Done
            } else {
                step == Self::spec_move_step(*s, self.spec_rate())
            }),
            spec_outcome(*s, step).wf(),
    {
        let restorable = match s.ascom_state {
            AscomState::Parked => {
                return TaskStep::Refused(
                    AlpacaError::from_msg(
                        ErrorType::InvalidWhileParked,
                        crate::errors::text("Can't move axis while parked"),
                    ),
                );
            },
            AscomState::Idle(_) => RestorableState::Idle,
            AscomState::Tracking(_) => RestorableState::Tracking(s.motor_state.get_rate()),
            AscomState::Slewing(SlewingState::MoveAxis(rs, _)) => {
                if s.motor_state.get_rate() == self.rate {
                    return TaskStep::Done;
                } else {
                    rs
                }
            },
            AscomState::Slewing(SlewingState::SlewTo) => RestorableState::Idle,
        };
        proof { crate::motor::lemma_settled_state_wf(self.rate); }
        TaskStep::ChangeRate(
            self.rate,
            AscomState::Slewing(SlewingState::MoveAxis(restorable, GuideState::Idle)),
        )
    }
}

/// Stops the tracking drive.
pub struct StopTrackingTask {}

impl StopTrackingTask {
    pub fn new() -> (t: StopTrackingTask) {
        StopTrackingTask {}
    }

    /// Stops the motor when tracking; only a tracking mount changes.
    pub fn run(&self, s: &ConnectedState) -> (step: TaskStep)
        requires
            s.wf(),
            s.is_quiet(),
        ensures
            s.ascom_state is Parked ==> refuses(
                step,
                ErrorType::InvalidWhileParked.spec_code(),
                "Can't stop tracking while parked"@,
            ),
            s.ascom_state is Idle ==> step is Done,
            s.ascom_state is Slewing ==> refuses(
                step,
                ErrorType::InvalidOperation.spec_code(),
                "Can't stop tracking while moving axis"@,
            ),
            s.ascom_state is Tracking ==> step == TaskStep::ChangeRate(
                MotionRate::spec_zero(),
                AscomState::Idle(GuideState::Idle),
            ),
            spec_outcome(*s, step).wf(),
    {
        match s.ascom_state {
            AscomState::Parked => TaskStep::Refused(
                AlpacaError::from_msg(
                    ErrorType::InvalidWhileParked,
                    crate::errors::text("Can't stop tracking while parked"),
                ),
            ),
            AscomState::Idle(_) => TaskStep::Done,
            AscomState::Slewing(_) => TaskStep::Refused(
                AlpacaError::invalid_operation("Can't stop tracking while moving axis"),
            ),
            AscomState::Tracking(_) => {
                proof { crate::motor::lemma_settled_state_wf(MotionRate::spec_zero()); }
                TaskStep::ChangeRate(MotionRate::zero(), AscomState::Idle(GuideState::Idle))
            },
        }
    }
}

/// Starts the tracking drive at a rate, or changes the rate it tracks at.
pub struct StartTrackingTask {
    rate: MotionRate,
}

impl StartTrackingTask {
    pub closed spec fn spec_rate(&self) -> MotionRate {
        self.rate
    }

    pub fn new(rate: MotionRate) -> (t: StartTrackingTask)
        ensures
            t.spec_rate() == rate,
    {
        StartTrackingTask { rate }
    }

    /// Turns the motor at the tracking rate and enters the tracking state.
    pub fn run(&self, s: &ConnectedState) -> (step: TaskStep)
        requires
            s.wf(),
            s.is_quiet(),
        ensures
            s.ascom_state is Parked ==> refuses(
                step,
                ErrorType::InvalidWhileParked.spec_code(),
                "Can't start tracking while parked"@,
            ),
            s.ascom_state is Slewing ==> refuses(
                step,
                ErrorType::InvalidOperation.spec_code(),
                "Can't start tracking while moving axis"@,
            ),
            s.ascom_state is Tracking && s.motor_state.spec_rate() == self.spec_rate() ==> step is Done,
            (s.ascom_state is Idle || (s.ascom_state is Tracking && s.motor_state.spec_rate()
                != self.spec_rate())) ==> step == TaskStep::ChangeRate(
                self.spec_rate(),
                AscomState::Tracking(GuideState::Idle),
            ),
            spec_outcome(*s, step).wf(),
    {
        match s.ascom_state {
            AscomState::Parked => {
                return TaskStep::Refused(
                    AlpacaError::from_msg(
                        ErrorType::InvalidWhileParked,
                        crate::errors::text("Can't start tracking while parked"),
                    ),
                );
            },
            AscomState::Idle(_) => {},
            AscomState::Tracking(_) => {
                if s.motor_state.get_rate() == self.rate {
                    return TaskStep::Done;
                }
            },
            AscomState::Slewing(_) => {
                return TaskStep::Refused(
                    AlpacaError::invalid_operation("Can't start tracking while moving axis"),
                );
            },
        }
        proof { crate::motor::lemma_settled_state_wf(self.rate); }
        TaskStep::ChangeRate(self.rate, AscomState::Tracking(GuideState::Idle))
    }
}

/// Changes the rate of tracking when the mount tracks; otherwise the new rate
/// is only used when tracking next starts.
pub struct UpdateTrackingRateTask {
    rate: MotionRate,
}

impl UpdateTrackingRateTask {
    pub closed spec fn spec_rate(&self) -> MotionRate {
        self.rate
    }

    pub fn new(rate: MotionRate) -> (t: UpdateTrackingRateTask)
        ensures
            t.spec_rate() == rate,
    {
        UpdateTrackingRateTask { rate }
    }

    /// Changes the motor to the new rate when tracking.
    pub fn run(&self, s: &ConnectedState) -> (step: TaskStep)
        requires
            s.wf(),
            s.is_quiet(),
        ensures
            !(s.ascom_state is Tracking) ==> step is Done,
            s.ascom_state is Tracking ==> (if s.motor_state.spec_rate() == self.spec_rate() {
                step is Done
            } else {
                step == TaskStep::ChangeRate(self.spec_rate(), AscomState::Tracking(GuideState::Idle))
            }),
            spec_outcome(*s, step).wf(),
    {
        match s.ascom_state {
            AscomState::Tracking(_) => {
                if s.motor_state.get_rate() == self.rate {
                    TaskStep::Done
                } else {
                    proof { crate::motor::lemma_settled_state_wf(self.rate); }
                    TaskStep::ChangeRate(self.rate, AscomState::Tracking(GuideState::Idle))
                }
            },
            _ => TaskStep::Done,
        }
    }
}

/// Takes the mount out of the parked state.
pub struct UnparkTask {}

impl UnparkTask {
    pub fn new() -> (t: UnparkTask) {
        UnparkTask {}
    }

    /// The step of an unpark: a parked mount becomes idle; any other is left as it is.
    pub open spec fn spec_step(s: ConnectedState) -> TaskStep {
        if s.ascom_state is Parked {
            TaskStep::Enter(AscomState::Idle(GuideState::Idle))
        } else {
            TaskStep::Done
        }
    }

    /// A parked mount becomes idle; any other is left as it is.
    pub fn run(&self, s: &ConnectedState) -> (step: TaskStep)
        requires
            s.wf(),
        ensures
            step == Self::spec_step(*s),
            s.ascom_state is Parked ==> step == TaskStep::Enter(AscomState::Idle(GuideState::Idle)),
            !(s.ascom_state is Parked) ==> step is Done,
            spec_outcome(*s, step).wf(),
    {
        if s.ascom_state.is_parked() {
            TaskStep::Enter(AscomState::Idle(GuideState::Idle))
        } else {
            TaskStep::Done
        }
    }
}

} // verus!
