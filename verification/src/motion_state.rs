//! The state machine of the mount driven directly through the motor
//! controller: tracking, slewing, guiding and parking of the right ascension
//! axis, with the controller commands that each change of state sends.
use vstd::prelude::*;
use crate::config::AutoGuideSpeed;
use crate::enums::{Axis, GuideDirection, PierSide, TrackingRate};
use crate::errors::{AlpacaError, ErrorType};
use crate::motion::MotorDirection;

verus! {

broadcast use vstd::string::group_string_axioms;

/// The state of the axis when it does not slew.
#[derive(Debug, Clone, Copy, PartialEq, Eq, Structural)]
pub enum TrackingState {
    /// Not turning; `true` when parked.
    Stationary(bool),
    /// Tracking; `true` while a guide pulse runs.
    Tracking(bool),
}

/// A slew, with the state to return to after it.
#[derive(Debug, Clone, Copy, PartialEq, Eq, Structural)]
pub enum SlewingState {
    ManualSlewing(TrackingState),
    GotoSlewing(TrackingState),
}

/// The state of the axis.
#[derive(Debug, Clone, Copy, PartialEq, Eq, Structural)]
pub enum MotionState {
    Tracking(TrackingState),
    Slewing(SlewingState),
}

/// A command to the controller for the right ascension axis.
#[derive(Debug, Clone, Copy, PartialEq, Eq, Structural)]
pub enum RaCommand {
    /// Tracking mode, turning in a direction.
    SetTrackingMode(MotorDirection),
    /// The rate, in picodegrees per second.
    SetMotionRate(u64),
    /// The step period of a tracking rate.
    SetStepPeriod(u32),
    StartMotion,
    StopMotion,
    SetAutoguideSpeed(AutoGuideSpeed),
}

/// A change of state and the commands that carry it out.
#[derive(Debug, Clone)]
pub struct Transition {
    pub next: MotionState,
    pub commands: Vec<RaCommand>,
}

/// The motor direction of tracking: clockwise in the northern hemisphere
/// (latitude zero or more), counter-clockwise in the southern one.
pub fn get_tracking_direction(in_north: bool) -> (d: MotorDirection)
    ensures
        d == (if in_north { MotorDirection::Clockwise } else { MotorDirection::CounterClockwise }),
{
    if in_north {
        MotorDirection::Clockwise
    } else {
        MotorDirection::CounterClockwise
    }
}

impl SlewingState {
    pub open spec fn spec_prior(self) -> TrackingState {
        match self {
            SlewingState::ManualSlewing(ts) => ts,
            SlewingState::GotoSlewing(ts) => ts,
        }
    }

    /// The state to return to when the slew ends. A slew never keeps a guide
    /// pulse running.
    pub fn get_state_to_restore(&self) -> (ts: TrackingState)
        requires
            !(self.spec_prior() matches TrackingState::Tracking(true)),
        ensures
            ts == self.spec_prior(),
    {
        match self {
            SlewingState::ManualSlewing(ts) => *ts,
            SlewingState::GotoSlewing(ts) => *ts,
        }
    }
}

impl MotionState {
    /// True when parked.
    pub fn is_parked(&self) -> (b: bool)
        ensures
            b == (*self == MotionState::Tracking(TrackingState::Stationary(true))),
    {
        match self {
            MotionState::Tracking(TrackingState::Stationary(true)) => true,
            _ => false,
        }
    }

    /// True when tracking, guided or not.
    pub fn is_tracking(&self) -> (b: bool)
        ensures
            b == (*self matches MotionState::Tracking(TrackingState::Tracking(_))),
    {
        match self {
            MotionState::Tracking(TrackingState::Tracking(_)) => true,
            _ => false,
        }
    }

    /// True while slewing.
    pub fn is_slewing(&self) -> (b: bool)
        ensures
            b == (*self is Slewing),
    {
        match self {
            MotionState::Slewing(_) => true,
            _ => false,
        }
    }

    /// True while a guide pulse runs.
    pub fn is_pulse_guiding(&self) -> (b: bool)
        ensures
            b == (*self == MotionState::Tracking(TrackingState::Tracking(true))),
    {
        match self {
            MotionState::Tracking(TrackingState::Tracking(g)) => *g,
            _ => false,
        }
    }

    /// Takes a parked mount out of the parked state; any other state is refused.
    pub fn unpark(&self) -> (r: Result<MotionState, AlpacaError>)
        ensures
            *self == MotionState::Tracking(TrackingState::Stationary(true)) ==> r
                == Ok::<MotionState, AlpacaError>(MotionState::Tracking(TrackingState::Stationary(false))),
            *self != MotionState::Tracking(TrackingState::Stationary(true)) ==> (r matches Err(e)
                && e.number() == ErrorType::InvalidOperation.spec_code() && e.message()
                == "Not parked"@),
    {
        match self {
            MotionState::Tracking(TrackingState::Stationary(true)) => Ok(
                MotionState::Tracking(TrackingState::Stationary(false)),
            ),
            _ => Err(AlpacaError::invalid_operation("Not parked")),
        }
    }
}

/// The step period of a tracking rate, for the controller's frequency and
/// steps per turn.
pub open spec fn spec_period(rate: TrackingRate, frequency: u32, steps: u32) -> u32 {
    rate.spec_step_period(frequency, steps) as u32
}

/// Switches tracking on or off. A running guide pulse cannot be stopped this way.
pub fn set_is_tracking(state: MotionState, should_track: bool, rate: TrackingRate) -> (r: Result<Transition, AlpacaError>)
    requires
        !(state == MotionState::Tracking(TrackingState::Tracking(true)) && !should_track),
    ensures
        (state matches MotionState::Tracking(TrackingState::Tracking(_)) && !should_track) ==> (r matches Ok(
            t,
        ) && t.next == MotionState::Tracking(TrackingState::Stationary(false)) && t.commands@
            == seq![RaCommand::StopMotion]),
        (state == MotionState::Tracking(TrackingState::Stationary(false)) && should_track) ==> (r matches Ok(
            t,
        ) && t.next == MotionState::Tracking(TrackingState::Tracking(false)) && t.commands@ == seq![
            RaCommand::SetMotionRate(rate.spec_rate_pdeg() as u64),
            RaCommand::StartMotion,
        ]),
        (state == MotionState::Tracking(TrackingState::Stationary(true)) && should_track) ==> (r matches Err(
            e,
        ) && e.number() == ErrorType::InvalidWhileParked.spec_code() && e.message()
            == "Invalid while parked"@),
        (state is Slewing && should_track) ==> (r matches Err(e) && e.number()
            == ErrorType::InvalidOperation.spec_code() && e.message() == "Invalid while slewing"@),
        ((state matches MotionState::Tracking(TrackingState::Tracking(_)) && should_track) || (
        state matches MotionState::Tracking(TrackingState::Stationary(_)) && !should_track) || (
        state is Slewing && !should_track)) ==> (r matches Ok(t) && t.next == state
            && t.commands@.len() == 0),
{
    let mut commands: Vec<RaCommand> = Vec::new();
    match (state, should_track) {
        (MotionState::Tracking(TrackingState::Tracking(_)), false) => {
            commands.push(RaCommand::StopMotion);
            proof { assert(commands@ =~= seq![RaCommand::StopMotion]); }
            Ok(Transition { next: MotionState::Tracking(TrackingState::Stationary(false)), commands })
        },
        (MotionState::Tracking(TrackingState::Stationary(false)), true) => {
            commands.push(RaCommand::SetMotionRate(rate.rate_pdeg()));
            commands.push(RaCommand::StartMotion);
            proof {
                assert(commands@ =~= seq![
                    RaCommand::SetMotionRate(rate.spec_rate_pdeg() as u64),
                    RaCommand::StartMotion,
                ]);
            }
            Ok(Transition { next: MotionState::Tracking(TrackingState::Tracking(false)), commands })
        },
        (MotionState::Tracking(TrackingState::Stationary(true)), true) => Err(
            AlpacaError::from_msg(ErrorType::InvalidWhileParked, crate::errors::text("Invalid while parked")),
        ),
        (MotionState::Slewing(_), true) => Err(AlpacaError::invalid_operation("Invalid while slewing")),
        _ => Ok(Transition { next: state, commands }),
    }
}

/// Returns to a tracking state after a slew or a guide pulse: tracking mode in
/// the hemisphere's direction at the tracking rate, then the motor is started
/// or stopped as the state calls for.
pub fn restore_tracking_state(restore: TrackingState, rate: TrackingRate, in_north: bool) -> (t: Transition)
    ensures
        t.next == MotionState::Tracking(restore),
        t.commands@ == seq![
            RaCommand::SetTrackingMode(if in_north { MotorDirection::Clockwise } else { MotorDirection::CounterClockwise }),
            RaCommand::SetMotionRate(rate.spec_rate_pdeg() as u64),
            if restore is Tracking { RaCommand::StartMotion } else { RaCommand::StopMotion },
        ],
{
    let mut commands: Vec<RaCommand> = Vec::new();
    commands.push(RaCommand::SetTrackingMode(get_tracking_direction(in_north)));
    commands.push(RaCommand::SetMotionRate(rate.rate_pdeg()));
    match restore {
        TrackingState::Tracking(_) => commands.push(RaCommand::StartMotion),
        TrackingState::Stationary(_) => commands.push(RaCommand::StopMotion),
    }
    proof {
        assert(commands@ =~= seq![
            RaCommand::SetTrackingMode(if in_north { MotorDirection::Clockwise } else { MotorDirection::CounterClockwise }),
            RaCommand::SetMotionRate(rate.spec_rate_pdeg() as u64),
            if restore is Tracking { RaCommand::StartMotion } else { RaCommand::StopMotion },
        ]);
    }
    Transition { next: MotionState::Tracking(restore), commands }
}

/// Ends a slew: stops the motor and returns to the state before it.
pub fn abort_slew(state: MotionState, rate: TrackingRate, in_north: bool) -> (r: Result<Transition, AlpacaError>)
    requires
        state matches MotionState::Slewing(s) ==> !(s.spec_prior() matches TrackingState::Tracking(true)),
    ensures
        state is Tracking ==> (r matches Err(e) && e.number() == ErrorType::InvalidOperation.spec_code()
            && e.message() == "Not slewing"@),
        state matches MotionState::Slewing(s) ==> (r matches Ok(t) && t.next == MotionState::Tracking(
            s.spec_prior(),
        ) && t.commands@.len() == 4 && t.commands@[0] == RaCommand::StopMotion
            && t.commands@.drop_first() == restore_commands(s.spec_prior(), rate, in_north)),
{
    match state {
        MotionState::Tracking(_) => Err(AlpacaError::invalid_operation("Not slewing")),
        MotionState::Slewing(s) => {
            let prior = s.get_state_to_restore();
            let restored = restore_tracking_state(prior, rate, in_north);
            let mut commands: Vec<RaCommand> = Vec::new();
            commands.push(RaCommand::StopMotion);
            let mut i: usize = 0;
            while i < restored.commands.len()
                invariant
                    0 <= i <= restored.commands@.len(),
                    commands@ == seq![RaCommand::StopMotion] + restored.commands@.subrange(0, i as int),
                decreases restored.commands@.len() - i,
            {
                commands.push(restored.commands[i]);
                i = i + 1;
                assert(commands@ =~= seq![RaCommand::StopMotion] + restored.commands@.subrange(0, i as int));
            }
            assert(commands@.drop_first() =~= restored.commands@);
            Ok(Transition { next: restored.next, commands })
        },
    }
}

/// The commands that return to a tracking state.
pub open spec fn restore_commands(restore: TrackingState, rate: TrackingRate, in_north: bool) -> Seq<RaCommand> {
    seq![
        RaCommand::SetTrackingMode(if in_north { MotorDirection::Clockwise } else { MotorDirection::CounterClockwise }),
        RaCommand::SetMotionRate(rate.spec_rate_pdeg() as u64),
        if restore is Tracking { RaCommand::StartMotion } else { RaCommand::StopMotion },
    ]
}

/// Checks that a slew may start, and gives the state to return to after it:
/// a running guide pulse is dropped (the driver cancels it).
pub fn check_current_state_for_slewing(state: MotionState) -> (r: Result<TrackingState, AlpacaError>)
    ensures
        state is Slewing ==> (r matches Err(e) && e.number() == ErrorType::InvalidOperation.spec_code()
            && e.message() == "Already slewing"@),
        state == MotionState::Tracking(TrackingState::Stationary(true)) ==> (r matches Err(e)
            && e.number() == ErrorType::InvalidWhileParked.spec_code() && e.message()
            == "Can't slew while parked"@),
        state matches MotionState::Tracking(TrackingState::Tracking(_)) ==> r
            == Ok::<TrackingState, AlpacaError>(TrackingState::Tracking(false)),
        state == MotionState::Tracking(TrackingState::Stationary(false)) ==> r
            == Ok::<TrackingState, AlpacaError>(TrackingState::Stationary(false)),
{
    match state {
        MotionState::Slewing(_) => Err(AlpacaError::invalid_operation("Already slewing")),
        MotionState::Tracking(TrackingState::Stationary(true)) => Err(
            AlpacaError::from_msg(ErrorType::InvalidWhileParked, crate::errors::text("Can't slew while parked")),
        ),
        MotionState::Tracking(TrackingState::Tracking(_)) => Ok(TrackingState::Tracking(false)),
        MotionState::Tracking(TrackingState::Stationary(false)) => Ok(TrackingState::Stationary(false)),
    }
}

/// The rate of the motor during a guide pulse, in picodegrees per second: the
/// base rate sped up (west) or slowed (east) by the guide speed's fraction.
pub open spec fn spec_rate_with_guiding(base: int, speed: AutoGuideSpeed, direction: GuideDirection) -> int {
    if direction == GuideDirection::West {
        base * (8 + speed.spec_eighths()) / 8
    } else {
        base * (8 - speed.spec_eighths()) / 8
    }
}

/// A guide pulse: the motor's rate during the pulse, the state of the axis
/// while it runs and the state to return to.
#[derive(Debug, Clone, Copy, PartialEq, Eq, Structural)]
pub struct GuidePulse {
    pub rate_pdeg: u64,
    pub during: MotionState,
    pub restore: TrackingState,
}

/// Starts a guide pulse in right ascension. Pulses in declination, during a
/// slew, while parked or during another pulse are refused.
pub fn pulse_guide(
    state: MotionState,
    direction: GuideDirection,
    speed: AutoGuideSpeed,
    rate: TrackingRate,
) -> (r: Result<GuidePulse, AlpacaError>)
    ensures
        (direction == GuideDirection::North || direction == GuideDirection::South) ==> (r matches Err(
            e,
        ) && e.number() == ErrorType::ActionNotImplemented.spec_code() && e.message()
            == "Can't guide in declination"@),
        (direction == GuideDirection::East || direction == GuideDirection::West) ==> (
        match state {
            MotionState::Slewing(_) => r matches Err(e) && e.number()
                == ErrorType::InvalidOperation.spec_code() && e.message()
                == "Can't guide while slewing"@,
            MotionState::Tracking(TrackingState::Stationary(true)) => r matches Err(e)
                && e.number() == ErrorType::InvalidWhileParked.spec_code() && e.message()
                == "Can't guide while parked"@,
            MotionState::Tracking(TrackingState::Tracking(true)) => r matches Err(e) && e.number()
                == ErrorType::InvalidOperation.spec_code() && e.message() == "Already guiding"@,
            MotionState::Tracking(TrackingState::Stationary(false)) => r == Ok::<
                GuidePulse,
                AlpacaError,
            >(
                GuidePulse {
                    rate_pdeg: 0,
                    during: MotionState::Tracking(TrackingState::Tracking(true)),
                    restore: TrackingState::Stationary(false),
                },
            ),
            MotionState::Tracking(TrackingState::Tracking(false)) => r == Ok::<
                GuidePulse,
                AlpacaError,
            >(
                GuidePulse {
                    rate_pdeg: spec_rate_with_guiding(rate.spec_rate_pdeg(), speed, direction) as u64,
                    during: MotionState::Tracking(TrackingState::Tracking(true)),
                    restore: TrackingState::Tracking(false),
                },
            ),
        }),
{
    if direction == GuideDirection::North || direction == GuideDirection::South {
        return Err(
            AlpacaError::from_msg(
                ErrorType::ActionNotImplemented,
                crate::errors::text("Can't guide in declination"),
            ),
        );
    }
    let (base, restore): (u64, TrackingState) = match state {
        MotionState::Slewing(_) => {
            return Err(AlpacaError::invalid_operation("Can't guide while slewing"));
        },
        MotionState::Tracking(TrackingState::Stationary(true)) => {
            return Err(
                AlpacaError::from_msg(
                    ErrorType::InvalidWhileParked,
                    crate::errors::text("Can't guide while parked"),
                ),
            );
        },
        MotionState::Tracking(TrackingState::Tracking(true)) => {
            return Err(AlpacaError::invalid_operation("Already guiding"));
        },
        MotionState::Tracking(TrackingState::Stationary(false)) => (0, TrackingState::Stationary(false)),
        MotionState::Tracking(TrackingState::Tracking(false)) => (rate.rate_pdeg(), TrackingState::Tracking(false)),
    };
    let e = speed.eighths();
    let factor: u64 = if direction == GuideDirection::West { 8 + e } else { 8 - e };
    assert(base * factor <= 4_178_090_000 * 16) by (nonlinear_arith)
        requires
            base <= 4_178_090_000,
            factor <= 16,
    ;
    Ok(
        GuidePulse {
            rate_pdeg: base * factor / 8,
            during: MotionState::Tracking(TrackingState::Tracking(true)),
            restore,
        },
    )
}

/// Changes the tracking rate; a tracking motor turns at the new rate at once.
pub fn set_tracking_rate(state: MotionState, rate: TrackingRate) -> (cmds: Vec<RaCommand>)
    ensures
        state matches MotionState::Tracking(TrackingState::Tracking(_)) ==> cmds@ == seq![
            RaCommand::SetMotionRate(rate.spec_rate_pdeg() as u64),
        ],
        !(state matches MotionState::Tracking(TrackingState::Tracking(_))) ==> cmds@.len() == 0,
{
    let mut cmds: Vec<RaCommand> = Vec::new();
    if let MotionState::Tracking(TrackingState::Tracking(_)) = state {
        cmds.push(RaCommand::SetMotionRate(rate.rate_pdeg()));
        proof { assert(cmds@ =~= seq![RaCommand::SetMotionRate(rate.spec_rate_pdeg() as u64)]); }
    }
    cmds
}

/// The slowest and fastest manual slew rates, in picodegrees per second
/// (0.000029 and 0.418032 degree/s).
pub const MANUAL_SLEW_MIN_PDEG: u64 = 29_000_000;
pub const MANUAL_SLEW_MAX_PDEG: u64 = 418_032_000_000;

/// The range of manual slew rates of an axis: only the primary one slews.
pub fn get_axis_rates(axis: Axis) -> (r: Result<(u64, u64), AlpacaError>)
    ensures
        axis == Axis::Primary ==> r == Ok::<(u64, u64), AlpacaError>((MANUAL_SLEW_MIN_PDEG, MANUAL_SLEW_MAX_PDEG)),
        axis != Axis::Primary ==> (r matches Err(e) && e.number() == ErrorType::InvalidOperation.spec_code()
            && e.message() == "Can only slew around primary axis"@),
{
    if axis != Axis::Primary {
        return Err(AlpacaError::invalid_operation("Can only slew around primary axis"));
    }
    Ok((MANUAL_SLEW_MIN_PDEG, MANUAL_SLEW_MAX_PDEG))
}

/// Starts a manual slew of the primary axis at a rate in picodegrees per second
/// (turning with the tracking motion), remembering the state to return to; a
/// running guide pulse is dropped.
pub fn move_axis(state: MotionState, axis: Axis, rate: u64, in_north: bool) -> (r: Result<Transition, AlpacaError>)
    ensures
        axis != Axis::Primary ==> (r matches Err(e) && e.number()
            == ErrorType::ActionNotImplemented.spec_code() && e.message()
            == "Can only slew on primary axis"@),
        axis == Axis::Primary && (rate == 0 || rate < MANUAL_SLEW_MIN_PDEG || MANUAL_SLEW_MAX_PDEG < rate) ==> (
        r matches Err(e) && e.number() == ErrorType::InvalidValue.spec_code() && e.message()
            == "Rate is invalid"@),
        axis == Axis::Primary && MANUAL_SLEW_MIN_PDEG <= rate <= MANUAL_SLEW_MAX_PDEG ==> (
        match state {
            MotionState::Slewing(_) => r matches Err(e) && e.number()
                == ErrorType::InvalidOperation.spec_code() && e.message() == "Already slewing"@,
            MotionState::Tracking(TrackingState::Stationary(true)) => r matches Err(e)
                && e.number() == ErrorType::InvalidWhileParked.spec_code() && e.message()
                == "Can't slew while parked"@,
            MotionState::Tracking(ts) => r matches Ok(t) && t.next == MotionState::Slewing(
                SlewingState::ManualSlewing(
                    match ts {
                        TrackingState::Tracking(_) => TrackingState::Tracking(false),
                        other => other,
                    },
                ),
            ) && t.commands@ == seq![
                RaCommand::SetTrackingMode(if in_north { MotorDirection::Clockwise } else { MotorDirection::CounterClockwise }),
                RaCommand::SetMotionRate(rate),
                RaCommand::StartMotion,
            ],
        }),
{
    if axis != Axis::Primary {
        return Err(
            AlpacaError::from_msg(
                ErrorType::ActionNotImplemented,
                crate::errors::text("Can only slew on primary axis"),
            ),
        );
    }
    if rate == 0 || rate < MANUAL_SLEW_MIN_PDEG || MANUAL_SLEW_MAX_PDEG < rate {
        return Err(AlpacaError::invalid_value("Rate is invalid"));
    }
    let prev = match state {
        MotionState::Slewing(_) => {
            return Err(AlpacaError::invalid_operation("Already slewing"));
        },
        MotionState::Tracking(TrackingState::Stationary(true)) => {
            return Err(
                AlpacaError::from_msg(
                    ErrorType::InvalidWhileParked,
                    crate::errors::text("Can't slew while parked"),
                ),
            );
        },
        MotionState::Tracking(TrackingState::Tracking(_)) => TrackingState::Tracking(false),
        MotionState::Tracking(TrackingState::Stationary(false)) => TrackingState::Stationary(false),
    };
    let mut commands: Vec<RaCommand> = Vec::new();
    commands.push(RaCommand::SetTrackingMode(get_tracking_direction(in_north)));
    commands.push(RaCommand::SetMotionRate(rate));
    commands.push(RaCommand::StartMotion);
    proof {
        assert(commands@ =~= seq![
            RaCommand::SetTrackingMode(if in_north { MotorDirection::Clockwise } else { MotorDirection::CounterClockwise }),
            RaCommand::SetMotionRate(rate),
            RaCommand::StartMotion,
        ]);
    }
    Ok(Transition { next: MotionState::Slewing(SlewingState::ManualSlewing(prev)), commands })
}

/// The state and controller set-up of a mount found when the driver starts.
#[derive(Debug, Clone)]
pub struct Startup {
    pub tracking_rate: TrackingRate,
    pub pier_side: PierSide,
    pub motion_state: MotionState,
    pub commands: Vec<RaCommand>,
}

/// Decides the state of a mount found at start-up from the controller's mode,
/// whether it runs and its step period. A tracking mount keeps its rate when
/// the period is one of a tracking rate, else it is set to sidereal; a mount
/// that is stopped in goto mode is put into tracking mode at the sidereal
/// rate. The auto-guide speed is set to half in every case, and the side of
/// the pier is not known until a sync. A mount found in a
/// running goto is not supported.
pub fn startup(
    mode: crate::controller::DriveMode,
    running: bool,
    step_period: u32,
    frequency: u32,
    steps: u32,
    in_north: bool,
) -> (s: Startup)
    requires
        !(mode == crate::controller::DriveMode::Goto && running),
    ensures
        s.pier_side == PierSide::Unknown,
        mode == crate::controller::DriveMode::Tracking ==> (match TrackingRate::spec_from_period(
            step_period,
            frequency,
            steps,
        ) {
            Some(r) => s.tracking_rate == r && s.commands@ == seq![
                RaCommand::SetAutoguideSpeed(AutoGuideSpeed::Half),
            ],
            None => s.tracking_rate == TrackingRate::Sidereal && s.commands@ == seq![
                RaCommand::SetStepPeriod(spec_period(TrackingRate::Sidereal, frequency, steps)),
                RaCommand::SetAutoguideSpeed(AutoGuideSpeed::Half),
            ],
        }) && s.motion_state == MotionState::Tracking(
            if running { TrackingState::Tracking(false) } else { TrackingState::Stationary(false) },
        ),
        mode == crate::controller::DriveMode::Goto ==> s.tracking_rate == TrackingRate::Sidereal
            && s.motion_state == MotionState::Tracking(TrackingState::Stationary(false))
            && s.commands@ == seq![
            RaCommand::SetTrackingMode(if in_north { MotorDirection::Clockwise } else { MotorDirection::CounterClockwise }),
            RaCommand::SetStepPeriod(spec_period(TrackingRate::Sidereal, frequency, steps)),
            RaCommand::SetAutoguideSpeed(AutoGuideSpeed::Half),
        ],
{
    let mut commands: Vec<RaCommand> = Vec::new();
    match mode {
        crate::controller::DriveMode::Tracking => {
            let tracking_rate = match TrackingRate::determine_from_period(step_period, frequency, steps) {
                Some(rate) => rate,
                None => {
                    commands.push(
                        RaCommand::SetStepPeriod(TrackingRate::Sidereal.determine_step_period(frequency, steps)),
                    );
                    TrackingRate::Sidereal
                },
            };
            let motion_state = if running {
                MotionState::Tracking(TrackingState::Tracking(false))
            } else {
                MotionState::Tracking(TrackingState::Stationary(false))
            };
            commands.push(RaCommand::SetAutoguideSpeed(AutoGuideSpeed::Half));
            proof {
                match TrackingRate::spec_from_period(step_period, frequency, steps) {
                    Some(r) => {
                        assert(commands@ =~= seq![RaCommand::SetAutoguideSpeed(AutoGuideSpeed::Half)]);
                    },
                    None => {
                        assert(commands@ =~= seq![
                            RaCommand::SetStepPeriod(spec_period(TrackingRate::Sidereal, frequency, steps)),
                            RaCommand::SetAutoguideSpeed(AutoGuideSpeed::Half),
                        ]);
                    },
                }
            }
            Startup { tracking_rate, pier_side: PierSide::Unknown, motion_state, commands }
        },
        crate::controller::DriveMode::Goto => {
            commands.push(RaCommand::SetTrackingMode(get_tracking_direction(in_north)));
            commands.push(
                RaCommand::SetStepPeriod(TrackingRate::Sidereal.determine_step_period(frequency, steps)),
            );
            commands.push(RaCommand::SetAutoguideSpeed(AutoGuideSpeed::Half));
            proof {
                assert(commands@ =~= seq![
                    RaCommand::SetTrackingMode(if in_north { MotorDirection::Clockwise } else { MotorDirection::CounterClockwise }),
                    RaCommand::SetStepPeriod(spec_period(TrackingRate::Sidereal, frequency, steps)),
                    RaCommand::SetAutoguideSpeed(AutoGuideSpeed::Half),
                ]);
            }
            Startup {
                tracking_rate: TrackingRate::Sidereal,
                pier_side: PierSide::Unknown,
                motion_state: MotionState::Tracking(TrackingState::Stationary(false)),
                commands,
            }
        },
    }
}

} // verus!
