//! The state of the mount as the ASCOM interface sees it, and the state of
//! the connected mount: that one together with the state of its motor.
use vstd::prelude::*;
use crate::motion::MotionRate;
use crate::motor::MotorState;

verus! {

/// Whether a guide pulse is under way.
#[derive(Debug, Clone, Copy, PartialEq, Eq, Structural)]
pub enum GuideState {
    Idle,
    Guiding,
}

/// The state that a manual axis move returns to when it ends.
#[derive(Debug, Clone, Copy, PartialEq, Eq, Structural)]
pub enum RestorableState {
    Idle,
    Tracking(MotionRate),
}

/// A slew under way.
#[derive(Debug, Clone, Copy, PartialEq, Eq, Structural)]
pub enum SlewingState {
    /// A goto to a position.
    SlewTo,
    /// A manual move of the axis, with the state to return to after it.
    MoveAxis(RestorableState, GuideState),
}

/// The state of the mount.
#[derive(Debug, Clone, Copy, PartialEq, Eq, Structural)]
pub enum AscomState {
    Parked,
    Idle(GuideState),
    Tracking(GuideState),
    Slewing(SlewingState),
}

impl AscomState {
    /// True for the states that have a guide state: all but parked and a goto.
    pub open spec fn has_guide_state(self) -> bool {
        !(self is Parked) && !(self matches AscomState::Slewing(SlewingState::SlewTo))
    }

    pub open spec fn spec_guide_state(self) -> GuideState
        recommends
            self.has_guide_state(),
    {
        match self {
            AscomState::Idle(gs) => gs,
            AscomState::Tracking(gs) => gs,
            AscomState::Slewing(SlewingState::MoveAxis(_, gs)) => gs,
            _ => GuideState::Idle,
        }
    }

    pub open spec fn spec_is_guiding(self) -> bool {
        self.has_guide_state() && self.spec_guide_state() == GuideState::Guiding
    }

    /// True while a guide pulse is under way.
    pub fn is_guiding(&self) -> (b: bool)
        requires
            self.has_guide_state(),
        ensures
            b == self.spec_is_guiding(),
    {
        match self.guide_state() {
            GuideState::Guiding => true,
            GuideState::Idle => false,
        }
    }

    /// True when parked.
    pub fn is_parked(&self) -> (b: bool)
        ensures
            b == (*self is Parked),
    {
        match self {
            AscomState::Parked => true,
            _ => false,
        }
    }

    /// True when tracking.
    pub fn is_tracking(&self) -> (b: bool)
        ensures
            b == (*self is Tracking),
    {
        match self {
            AscomState::Tracking(..) => true,
            _ => false,
        }
    }

    /// True while slewing.
    pub fn is_slewing(&self) -> (b: bool)
        ensures
            b == (*self is Slewing),
    {
        match self {
            AscomState::Slewing(..) => true,
            _ => false,
        }
    }

    /// The guide state.
    pub fn guide_state(&self) -> (g: GuideState)
        requires
            self.has_guide_state(),
        ensures
            g == self.spec_guide_state(),
    {
        match self {
            AscomState::Idle(gs) => *gs,
            AscomState::Tracking(gs) => *gs,
            AscomState::Slewing(SlewingState::MoveAxis(_, gs)) => *gs,
            _ => GuideState::Idle,
        }
    }

    pub open spec fn spec_with_guide_state(self, g: GuideState) -> AscomState
        recommends
            self.has_guide_state(),
    {
        match self {
            AscomState::Idle(_) => AscomState::Idle(g),
            AscomState::Tracking(_) => AscomState::Tracking(g),
            AscomState::Slewing(SlewingState::MoveAxis(rs, _)) => AscomState::Slewing(
                SlewingState::MoveAxis(rs, g),
            ),
            _ => self,
        }
    }

    /// Replaces the guide state.
    pub fn set_guide_state(&mut self, g: GuideState)
        requires
            old(self).has_guide_state(),
        ensures
            *final(self) == old(self).spec_with_guide_state(g),
    {
        *self = match *self {
            AscomState::Idle(_) => AscomState::Idle(g),
            AscomState::Tracking(_) => AscomState::Tracking(g),
            AscomState::Slewing(SlewingState::MoveAxis(rs, _)) => AscomState::Slewing(
                SlewingState::MoveAxis(rs, g),
            ),
            other => other,
        };
    }
}

/// The state of a connected mount: its ASCOM state and the state of its motor.
#[derive(Debug, Clone, Copy, PartialEq, Eq, Structural)]
pub struct ConnectedState {
    pub ascom_state: AscomState,
    pub motor_state: MotorState,
}

impl ConnectedState {
    /// The state of a mount just connected: idle, with its motor stopped.
    pub fn new() -> (c: ConnectedState)
        ensures
            c.ascom_state == AscomState::Idle(GuideState::Idle),
            c.motor_state == MotorState::Stationary,
            c.wf(),
    {
        ConnectedState {
            ascom_state: AscomState::Idle(GuideState::Idle),
            motor_state: MotorState::Stationary,
        }
    }

    /// Consistency of the two states between operations: the motor runs a goto
    /// exactly while the mount slews to a position and otherwise rests at a
    /// driveable rate, and a parked mount does not move.
    pub open spec fn wf(self) -> bool {
        &&& (self.ascom_state matches AscomState::Slewing(SlewingState::SlewTo)) <==> self.motor_state is Gotoing
        &&& !(self.motor_state is Gotoing) ==> self.motor_state.wf()
        &&& self.ascom_state is Parked ==> self.motor_state is Stationary
    }

    /// True when no guide pulse is under way and no goto runs: the states in
    /// which the short operations of the mount are started.
    pub open spec fn is_quiet(self) -> bool {
        &&& !(self.ascom_state matches AscomState::Slewing(SlewingState::SlewTo))
        &&& self.ascom_state.has_guide_state() ==> !self.ascom_state.spec_is_guiding()
    }

    /// Checks the consistency of the two states (see `wf`).
    pub fn consistent(&self) -> (b: bool)
        ensures
            b == self.wf(),
    {
        let slew_to = match self.ascom_state {
            AscomState::Slewing(SlewingState::SlewTo) => true,
            _ => false,
        };
        let gotoing = match self.motor_state {
            MotorState::Gotoing => true,
            _ => false,
        };
        let settled = match self.motor_state {
            MotorState::Stationary => true,
            MotorState::Moving(r) => {
                let speed = r.rate();
                crate::motor::MIN_SPEED_PDEG <= speed && speed <= crate::motor::get_max_speed()
            },
            _ => false,
        };
        let parked_still = match (self.ascom_state, self.motor_state) {
            (AscomState::Parked, MotorState::Stationary) => true,
            (AscomState::Parked, _) => false,
            _ => true,
        };
        slew_to == gotoing && (gotoing || settled) && parked_still
    }

    /// Checks that no guide pulse is under way and no goto runs (see `is_quiet`).
    pub fn quiet(&self) -> (b: bool)
        ensures
            b == self.is_quiet(),
    {
        match self.ascom_state {
            AscomState::Parked => true,
            AscomState::Idle(g) => g == GuideState::Idle,
            AscomState::Tracking(g) => g == GuideState::Idle,
            AscomState::Slewing(SlewingState::MoveAxis(_, g)) => g == GuideState::Idle,
            AscomState::Slewing(SlewingState::SlewTo) => false,
        }
    }
}

} // verus!
