//! The right ascension motor: its speed limits, its state, and the controller
//! commands that take it from one rate of motion to another.
use vstd::prelude::*;
use crate::motion::{MotionRate, MotorDirection};

verus! {

broadcast use vstd::string::group_string_axioms;

/// Slowest rate the motor turns at: 0.000029 degree/s.
pub const MIN_SPEED_PDEG: u64 = 29_000_000;
/// Slew rate measured when turning with the tracking motion: 0.2817 degree/s.
pub const SLEW_SPEED_WITH_TRACKING_PDEG: u64 = 281_700_000_000;
/// Slew rate measured when turning against the tracking motion: 0.3072 degree/s.
pub const SLEW_SPEED_AGAINST_TRACKING_PDEG: u64 = 307_200_000_000;
/// Rate of the slow final approach of a goto: 0.133727 degree/s.
pub const SLOW_GOTO_SPEED_PDEG: u64 = 133_727_000_000;
/// How far the reported rate may be from the requested one for the motor to
/// count as having reached it: 0.0001 degree/s.
pub const ALLOWABLE_RATE_DIFFERENCE_PDEG: u64 = 100_000_000;

/// Serial line speed of the controller.
pub const BAUD_RATE: u32 = 115_200;
/// Time allowed for an answer of the controller when none is configured.
pub const DEFAULT_TIMEOUT_MILLIS: u64 = 50;
/// Attempts made for each controller command.
pub const NUM_TRIES: u64 = 3;
/// First pause between two attempts.
pub const RETRY_MILLIS: u64 = 10;

/// Step periods of the tracking rates on the Star Adventurer.
pub const SIDEREAL_PERIOD: u32 = 110_359;
pub const LUNAR_PERIOD: u32 = 114_581;
pub const SOLAR_PERIOD: u32 = 110_662;
pub const KING_PERIOD: u32 = 110_390;

/// A failure of the motor.
#[derive(Debug, Clone)]
pub enum MotorError {
    /// The controller could not be reached or answered wrongly.
    IOError(String),
    /// The mount is not connected.
    Disconnected,
}

impl MotorError {
    /// True for an input/output failure with the given description.
    pub open spec fn spec_is_io_error(self, text: Seq<char>) -> bool {
        self matches MotorError::IOError(s) && s@ == text
    }

    /// An input/output failure with the given description.
    pub fn from_text(text: &str) -> (e: MotorError)
        ensures
            e.spec_is_io_error(text@),
    {
        MotorError::IOError(crate::errors::text(text))
    }

    /// An input/output failure with the given description.
    pub fn from_string(text: String) -> (e: MotorError)
        ensures
            e.spec_is_io_error(text@),
    {
        MotorError::IOError(text)
    }

    /// The description of the failure.
    pub fn describe(&self) -> (d: String)
        ensures
            *self matches MotorError::IOError(s) ==> d@ == s@,
            *self is Disconnected ==> d@ == "Disconnected"@,
    {
        match self {
            MotorError::IOError(s) => s.clone(),
            MotorError::Disconnected => crate::errors::text("Disconnected"),
        }
    }
}

/// The slowest rate the motor is driven at.
pub fn get_min_speed() -> (s: u64)
    ensures
        s == MIN_SPEED_PDEG,
{
    MIN_SPEED_PDEG
}

pub open spec fn spec_max_speed() -> int {
    if SLEW_SPEED_AGAINST_TRACKING_PDEG < SLEW_SPEED_WITH_TRACKING_PDEG {
        SLEW_SPEED_AGAINST_TRACKING_PDEG as int
    } else {
        SLEW_SPEED_WITH_TRACKING_PDEG as int
    }
}

/// The fastest rate the motor is driven at: the slower of the two slew rates,
/// so that it is reached in either direction.
pub fn get_max_speed() -> (s: u64)
    ensures
        s == spec_max_speed(),
{
    if SLEW_SPEED_AGAINST_TRACKING_PDEG < SLEW_SPEED_WITH_TRACKING_PDEG {
        SLEW_SPEED_AGAINST_TRACKING_PDEG
    } else {
        SLEW_SPEED_WITH_TRACKING_PDEG
    }
}

/// A rate brought into the range the motor can be driven at.
pub open spec fn spec_clamp_speed(rate: int) -> int {
    if rate < MIN_SPEED_PDEG {
        MIN_SPEED_PDEG as int
    } else if spec_max_speed() < rate {
        spec_max_speed()
    } else {
        rate
    }
}

/// Brings a rate into the range the motor can be driven at.
pub fn clamp_speed(rate: u64) -> (r: u64)
    ensures
        r == spec_clamp_speed(rate as int),
        MIN_SPEED_PDEG <= r <= spec_max_speed(),
{
    if rate < get_min_speed() {
        get_min_speed()
    } else if get_max_speed() < rate {
        get_max_speed()
    } else {
        rate
    }
}

/// A motion rate whose magnitude is brought into the driveable range, keeping
/// its direction.
pub open spec fn spec_clamp_rate(r: MotionRate) -> int {
    r.spec_direction().spec_sign() * spec_clamp_speed(r.spec_rate())
}

/// A rate the motor can be driven at.
pub open spec fn is_driveable(r: MotionRate) -> bool {
    MIN_SPEED_PDEG <= r.spec_rate() <= spec_max_speed()
}

/// The rate made from a clamped rate keeps the direction and has the clamped magnitude.
pub proof fn lemma_clamp_rate(r: MotionRate)
    ensures
        MIN_SPEED_PDEG <= spec_clamp_speed(r.spec_rate()) <= spec_max_speed(),
        r.spec_direction() is Clockwise ==> spec_clamp_rate(r) == spec_clamp_speed(r.spec_rate()),
        r.spec_direction() is CounterClockwise ==> spec_clamp_rate(r) == -spec_clamp_speed(r.spec_rate()),
        MotionRate::from_velocity(spec_clamp_rate(r)).velocity() == spec_clamp_rate(r),
        MotionRate::from_velocity(spec_clamp_rate(r)).spec_direction() == r.spec_direction(),
        MotionRate::from_velocity(spec_clamp_rate(r)).spec_rate() == spec_clamp_speed(r.spec_rate()),
        !MotionRate::from_velocity(spec_clamp_rate(r)).spec_is_zero(),
{
    MotionRate::lemma_from_velocity(spec_clamp_rate(r));
}

/// Brings the magnitude of a motion rate into the driveable range.
pub fn clamp_rate(r: MotionRate) -> (c: MotionRate)
    ensures
        c.velocity() == spec_clamp_rate(r),
        c == MotionRate::from_velocity(spec_clamp_rate(r)),
        c.spec_direction() == r.spec_direction(),
        is_driveable(c),
{
    let mut c = r;
    let speed = r.rate();
    let clamped = clamp_speed(speed);
    c.set_rate(clamped);
    proof {
        lemma_clamp_rate(r);
        MotionRate::lemma_eq_by_velocity(c, MotionRate::from_velocity(spec_clamp_rate(r)));
    }
    c
}

/// State of the motor as the driver knows it.
#[derive(Debug, Clone, Copy, PartialEq, Eq, Structural)]
pub enum MotorState {
    /// Not turning.
    Stationary,
    /// Turning steadily at a rate.
    Moving(MotionRate),
    /// Running a goto to a position.
    Gotoing,
    /// Between two rates: a command was sent and its effect is awaited.
    Changing,
}

impl MotorState {
    /// True when the state has a steady rate.
    pub open spec fn is_settled(self) -> bool {
        self is Stationary || self is Moving
    }

    /// A settled state whose rate, if it turns, is a driveable one.
    pub open spec fn wf(self) -> bool {
        match self {
            MotorState::Stationary => true,
            MotorState::Moving(r) => is_driveable(r),
            _ => false,
        }
    }

    pub open spec fn spec_rate(self) -> MotionRate
        recommends
            self.is_settled(),
    {
        match self {
            MotorState::Moving(r) => r,
            _ => MotionRate::spec_zero(),
        }
    }

    /// The steady rate of the motor.
    pub fn get_rate(&self) -> (r: MotionRate)
        requires
            self.is_settled(),
        ensures
            r == self.spec_rate(),
    {
        match self {
            MotorState::Moving(r) => *r,
            _ => MotionRate::zero(),
        }
    }
}

/// How the motor gets from its rate to a requested one.
#[derive(Debug, Clone, Copy, PartialEq, Eq, Structural)]
pub enum RateChange {
    /// Already at the requested rate.
    Unchanged,
    /// Start the stopped motor at a rate.
    Start(MotionRate),
    /// Stop the motor.
    Stop,
    /// Change the speed without changing the direction.
    ChangeSpeed(MotionRate),
    /// Stop, then start in the other direction.
    Reverse(MotionRate),
}

/// A command to the motor controller, or a wait for the motor to reach a state.
#[derive(Debug, Clone, Copy, PartialEq, Eq, Structural)]
pub enum MotorCommand {
    SetTrackingMode(MotorDirection),
    SetMotionRate(u64),
    StartMotion,
    StopMotion,
    WaitForStop,
    WaitForRate(MotionRate),
}

/// The state the motor rests in once a change to a requested rate is done:
/// stopped for a zero rate, else turning at the requested rate brought into
/// the driveable range.
pub open spec fn settled_state(to: MotionRate) -> MotorState {
    if to.spec_is_zero() {
        MotorState::Stationary
    } else {
        MotorState::Moving(MotionRate::from_velocity(spec_clamp_rate(to)))
    }
}

pub open spec fn spec_plan(from: MotionRate, to: MotionRate) -> RateChange {
    if from == to {
        RateChange::Unchanged
    } else if from.spec_is_zero() {
        RateChange::Start(MotionRate::from_velocity(spec_clamp_rate(to)))
    } else if to.spec_is_zero() {
        RateChange::Stop
    } else if to.spec_direction() == from.spec_direction() {
        RateChange::ChangeSpeed(MotionRate::from_velocity(spec_clamp_rate(to)))
    } else {
        RateChange::Reverse(MotionRate::from_velocity(spec_clamp_rate(to)))
    }
}

/// Decides how the motor goes from its current steady rate to the requested one.
pub fn plan_rate_change(state: &MotorState, to: MotionRate) -> (p: RateChange)
    requires
        state.is_settled(),
    ensures
        p == spec_plan(state.spec_rate(), to),
{
    let from = state.get_rate();
    proof {
        MotionRate::lemma_eq_by_velocity(from, to);
    }
    if from == to {
        RateChange::Unchanged
    } else if from.is_zero() {
        let c = clamp_rate(to);
        proof { MotionRate::lemma_from_own_velocity(c); }
        RateChange::Start(c)
    } else if to.is_zero() {
        RateChange::Stop
    } else if to.direction() == from.direction() {
        let c = clamp_rate(to);
        proof { MotionRate::lemma_from_own_velocity(c); }
        RateChange::ChangeSpeed(c)
    } else {
        let c = clamp_rate(to);
        proof { MotionRate::lemma_from_own_velocity(c); }
        RateChange::Reverse(c)
    }
}

impl RateChange {
    pub open spec fn spec_commands(self) -> Seq<MotorCommand> {
        match self {
            RateChange::Unchanged => seq![],
            RateChange::Start(r) => seq![
                MotorCommand::SetTrackingMode(r.spec_direction()),
                MotorCommand::SetMotionRate(r.spec_rate() as u64),
                MotorCommand::StartMotion,
                MotorCommand::WaitForRate(r),
            ],
            RateChange::Stop => seq![MotorCommand::StopMotion, MotorCommand::WaitForStop],
            RateChange::ChangeSpeed(r) => seq![
                MotorCommand::SetMotionRate(r.spec_rate() as u64),
                MotorCommand::WaitForRate(r),
            ],
            RateChange::Reverse(r) => seq![
                MotorCommand::StopMotion,
                MotorCommand::WaitForStop,
                MotorCommand::SetTrackingMode(r.spec_direction()),
                MotorCommand::SetMotionRate(r.spec_rate() as u64),
                MotorCommand::StartMotion,
                MotorCommand::WaitForRate(r),
            ],
        }
    }

    /// The controller commands, in order, that carry out this change.
    pub fn commands(&self) -> (v: Vec<MotorCommand>)
        ensures
            v@ == self.spec_commands(),
    {
        let mut v: Vec<MotorCommand> = Vec::new();
        match self {
            RateChange::Unchanged => {},
            RateChange::Start(r) => {
                v.push(MotorCommand::SetTrackingMode(r.direction()));
                v.push(MotorCommand::SetMotionRate(r.rate()));
                v.push(MotorCommand::StartMotion);
                v.push(MotorCommand::WaitForRate(*r));
            },
            RateChange::Stop => {
                v.push(MotorCommand::StopMotion);
                v.push(MotorCommand::WaitForStop);
            },
            RateChange::ChangeSpeed(r) => {
                v.push(MotorCommand::SetMotionRate(r.rate()));
                v.push(MotorCommand::WaitForRate(*r));
            },
            RateChange::Reverse(r) => {
                v.push(MotorCommand::StopMotion);
                v.push(MotorCommand::WaitForStop);
                v.push(MotorCommand::SetTrackingMode(r.direction()));
                v.push(MotorCommand::SetMotionRate(r.rate()));
                v.push(MotorCommand::StartMotion);
                v.push(MotorCommand::WaitForRate(*r));
            },
        }
        assert(v@ =~= self.spec_commands());
        v
    }
}

/// The state of the motor after a command of the driver has been carried out.
pub open spec fn spec_after(state: MotorState, cmd: MotorCommand) -> MotorState {
    match cmd {
        MotorCommand::StartMotion => MotorState::Changing,
        MotorCommand::SetMotionRate(_) => if state is Moving {
            MotorState::Changing
        } else {
            state
        },
        MotorCommand::WaitForStop => MotorState::Stationary,
        MotorCommand::WaitForRate(r) => MotorState::Moving(r),
        _ => state,
    }
}

/// The state of the motor after a sequence of commands.
pub open spec fn spec_run(state: MotorState, cmds: Seq<MotorCommand>) -> MotorState
    decreases cmds.len(),
{
    if cmds.len() == 0 {
        state
    } else {
        spec_run(spec_after(state, cmds[0]), cmds.drop_first())
    }
}

impl MotorState {
    /// Records that the driver has carried out a command.
    pub fn apply(&mut self, cmd: MotorCommand)
        ensures
            *final(self) == spec_after(*old(self), cmd),
    {
        match cmd {
            MotorCommand::StartMotion => {
                *self = MotorState::Changing;
            },
            MotorCommand::SetMotionRate(_) => {
                if let MotorState::Moving(_) = self {
                    *self = MotorState::Changing;
                }
            },
            MotorCommand::WaitForStop => {
                *self = MotorState::Stationary;
            },
            MotorCommand::WaitForRate(r) => {
                *self = MotorState::Moving(r);
            },
            _ => {},
        }
    }
}

/// Carrying out the planned commands leaves the motor at rest in the state
/// that the requested rate calls for: stopped for a zero rate, else turning at
/// that rate brought into the driveable range.
pub proof fn lemma_plan_reaches_rate(state: MotorState, to: MotionRate)
    requires
        state.wf(),
    ensures
        spec_run(state, spec_plan(state.spec_rate(), to).spec_commands()) == settled_state(to),
{
    let p = spec_plan(state.spec_rate(), to);
    let cmds = p.spec_commands();
    reveal_with_fuel(spec_run, 7);
    MotionRate::lemma_from_velocity(0);
    MotionRate::lemma_eq_by_velocity(state.spec_rate(), to);
    MotionRate::lemma_eq_by_velocity(to, MotionRate::spec_zero());
    if state.spec_rate() == to {
        if !to.spec_is_zero() {
            let c = MotionRate::from_velocity(spec_clamp_rate(to));
            lemma_clamp_rate(to);
            MotionRate::lemma_eq_by_velocity(c, to);
        }
    } else {
        assert(cmds.drop_first().drop_first() =~= cmds.subrange(2, cmds.len() as int));
    }
}

/// The rate of a motor in a consistent state is at most the fastest driveable one.
pub proof fn lemma_wf_rate_bounded(m: MotorState)
    requires
        m.wf(),
    ensures
        -spec_max_speed() <= m.spec_rate().velocity() <= spec_max_speed(),
{
    MotionRate::lemma_from_velocity(0);
}

/// The state a rate change ends in is a steady, driveable one, and a zero
/// rate ends with the motor stopped.
pub proof fn lemma_settled_state_wf(to: MotionRate)
    ensures
        settled_state(to).wf(),
        to.spec_is_zero() ==> settled_state(to) is Stationary,
{
    if !to.spec_is_zero() {
        lemma_clamp_rate(to);
    }
}

} // verus!
