//! Requests of the ASCOM telescope interface that the driver checks before it
//! hands them to the connection: manual axis moves, tracking, the slew settle
//! time, the driver's own actions and the errors of connecting.
use vstd::prelude::*;
use vstd::string::*;
use crate::connection::Operation;
use crate::enums::{Axis, PierSide, TrackingRate};
use crate::errors::{not_connected_message, AlpacaError, ErrorType};
use crate::motion::{MotionRate, RotationDirectionKey, TrackingDirection};
use crate::motor::{spec_max_speed, MIN_SPEED_PDEG};
use crate::text::str_eq;

verus! {

broadcast use vstd::string::group_string_axioms;

/// What a manual move of an axis comes to.
#[derive(Debug)]
pub enum MoveAxisPlan {
    /// The request is refused.
    Refused(AlpacaError),
    /// A zero rate ends the move, as aborting the slew does.
    AbortSlew,
    /// The motor turns at this rate.
    Move(MotionRate),
}

/// The magnitude of a signed rate.
pub open spec fn spec_abs(rate: int) -> int {
    if rate < 0 {
        -rate
    } else {
        rate
    }
}

/// Decides a request to move an axis at a signed rate in picodegrees per
/// second (positive with the tracking motion). Only the primary axis moves; a
/// zero rate ends a move; other rates must lie between the slowest and the
/// fastest driveable rates, which are known only while connected.
pub fn plan_move_axis(axis: Axis, rate: i64, connected: bool, key: RotationDirectionKey) -> (p: MoveAxisPlan)
    ensures
        axis != Axis::Primary ==> (p matches MoveAxisPlan::Refused(e) && e.number()
            == ErrorType::InvalidValue.spec_code() && e.message() == "Can only slew on primary axis"@),
        axis == Axis::Primary && rate == 0 ==> p is AbortSlew,
        axis == Axis::Primary && rate != 0 && !connected ==> (p matches MoveAxisPlan::Refused(e)
            && e.number() == ErrorType::NotConnected.spec_code() && e.message()
            == not_connected_message()),
        axis == Axis::Primary && rate != 0 && connected && !(MIN_SPEED_PDEG <= spec_abs(rate as int)
            <= spec_max_speed()) ==> (p matches MoveAxisPlan::Refused(e) && e.number()
            == ErrorType::InvalidValue.spec_code() && e.message() == "Rate is invalid"@),
        axis == Axis::Primary && rate != 0 && connected && MIN_SPEED_PDEG <= spec_abs(rate as int)
            <= spec_max_speed() ==> (p matches MoveAxisPlan::Move(m) && m.velocity() == (if rate
            < 0 {
            TrackingDirection::AgainstTracking
        } else {
            TrackingDirection::WithTracking
        }).spec_using(key).spec_sign() * spec_abs(rate as int)),
{
    if axis != Axis::Primary {
        return MoveAxisPlan::Refused(AlpacaError::invalid_value("Can only slew on primary axis"));
    }
    if rate == 0 {
        return MoveAxisPlan::AbortSlew;
    }
    if !connected {
        return MoveAxisPlan::Refused(AlpacaError::not_connected());
    }
    let magnitude: u64 = if rate < 0 {
        (0 - (rate as i128)) as u64
    } else {
        rate as u64
    };
    if magnitude < crate::motor::get_min_speed() || crate::motor::get_max_speed() < magnitude {
        return MoveAxisPlan::Refused(AlpacaError::invalid_value("Rate is invalid"));
    }
    let direction = if rate < 0 {
        TrackingDirection::AgainstTracking
    } else {
        TrackingDirection::WithTracking
    };
    MoveAxisPlan::Move(MotionRate::new(magnitude, direction.using(key)))
}

/// True when the axis can be moved manually: only the primary one.
pub fn can_move_axis(axis: Axis) -> (b: bool)
    ensures
        b == (axis == Axis::Primary),
{
    axis == Axis::Primary
}

/// The range of rates a manual move of the axis takes, in picodegrees per
/// second: the driveable range for the primary axis, nothing for the others.
pub fn axis_rate_range(axis: Axis) -> (r: (u64, u64))
    ensures
        axis == Axis::Primary ==> r.0 == MIN_SPEED_PDEG && r.1 == spec_max_speed(),
        axis != Axis::Primary ==> r.0 == 0 && r.1 == 0,
{
    if axis == Axis::Primary {
        (crate::motor::get_min_speed(), crate::motor::get_max_speed())
    } else {
        (0, 0)
    }
}

/// Checks a requested slew settle time in seconds: it must not be negative.
pub fn check_slew_settle_time(seconds: i32) -> (r: Result<u32, AlpacaError>)
    ensures
        seconds >= 0 ==> r == Ok::<u32, AlpacaError>(seconds as u32),
        seconds < 0 ==> (r matches Err(e) && e.number() == ErrorType::InvalidValue.spec_code()
            && e.message() == "Slew settle time must be nonegative"@),
{
    if seconds < 0 {
        Err(AlpacaError::invalid_value("Slew settle time must be nonegative"))
    } else {
        Ok(seconds as u32)
    }
}

/// The tracking rates the mount offers, in ASCOM order.
pub fn get_tracking_rates() -> (v: Vec<TrackingRate>)
    ensures
        v@ == seq![TrackingRate::Sidereal, TrackingRate::Lunar, TrackingRate::Solar, TrackingRate::King],
{
    let mut v = Vec::new();
    v.push(TrackingRate::Sidereal);
    v.push(TrackingRate::Lunar);
    v.push(TrackingRate::Solar);
    v.push(TrackingRate::King);
    assert(v@ =~= seq![TrackingRate::Sidereal, TrackingRate::Lunar, TrackingRate::Solar, TrackingRate::King]);
    v
}

/// Decides a change of the tracking rate: none when the rate stays the same,
/// else the new rate of the tracking drive, for the connection to apply.
pub fn tracking_rate_change(current: TrackingRate, requested: TrackingRate, key: RotationDirectionKey) -> (r: Option<MotionRate>)
    ensures
        current == requested ==> r is None,
        current != requested ==> (r matches Some(m) && m.velocity()
            == TrackingDirection::WithTracking.spec_using(key).spec_sign()
            * requested.spec_rate_pdeg()),
{
    if current == requested {
        None
    } else {
        Some(MotionRate::tracking(requested, key))
    }
}

/// Decides a request to switch tracking on or off: start tracking at the
/// configured rate, or stop.
pub fn tracking_switch(should_track: bool, rate: TrackingRate, key: RotationDirectionKey) -> (r: (Operation, Option<MotionRate>))
    ensures
        should_track ==> r.0 == Operation::StartTracking && (r.1 matches Some(m) && m.velocity()
            == TrackingDirection::WithTracking.spec_using(key).spec_sign() * rate.spec_rate_pdeg()),
        !should_track ==> r.0 == Operation::StopTracking && r.1 is None,
{
    if should_track {
        (Operation::StartTracking, Some(MotionRate::tracking(rate, key)))
    } else {
        (Operation::StopTracking, None)
    }
}

/// The driver's own actions.
#[derive(Debug, Clone, Copy, PartialEq, Eq, Structural)]
pub enum DeviceAction {
    /// Report the declination change still to be made by hand.
    PendingDeclinationSlew,
    /// The declination change has been made by hand.
    CompleteDeclinationSlew,
    /// The mount was moved by hand and now stands on this side of the pier.
    SetPierSideAfterManualMove(PierSide),
}

/// Reads an action request: its name and its parameters.
pub fn parse_action(action: &str, parameters: &str) -> (r: Result<DeviceAction, AlpacaError>)
    ensures
        action@ == "pending_declination_slew"@ ==> r == Ok::<DeviceAction, AlpacaError>(DeviceAction::PendingDeclinationSlew),
        action@ == "complete_declination_slew"@ ==> r == Ok::<DeviceAction, AlpacaError>(DeviceAction::CompleteDeclinationSlew),
        action@ == "set_pier_side_after_manual_move"@ && parameters@ == "east"@ ==> r
            == Ok::<DeviceAction, AlpacaError>(DeviceAction::SetPierSideAfterManualMove(PierSide::East)),
        action@ == "set_pier_side_after_manual_move"@ && parameters@ == "west"@ ==> r
            == Ok::<DeviceAction, AlpacaError>(DeviceAction::SetPierSideAfterManualMove(PierSide::West)),
        action@ == "set_pier_side_after_manual_move"@ && parameters@ != "east"@ && parameters@
            != "west"@ ==> (r matches Err(e) && e.number() == ErrorType::InvalidValue.spec_code()
            && e.message() == "Unknown pier side: "@ + "\""@ + parameters@ + "\""@),
        action@ != "pending_declination_slew"@ && action@ != "complete_declination_slew"@ && action@
            != "set_pier_side_after_manual_move"@ ==> (r matches Err(e) && e.number()
            == ErrorType::PropertyOrMethodNotImplemented.spec_code() && e.message()
            == "Action not implemented"@),
{
    proof {
        reveal_strlit("pending_declination_slew");
        reveal_strlit("complete_declination_slew");
        reveal_strlit("set_pier_side_after_manual_move");
        assert(("pending_declination_slew"@)[0] != ("complete_declination_slew"@)[0]);
        assert(("pending_declination_slew"@)[0] != ("set_pier_side_after_manual_move"@)[0]);
        assert(("complete_declination_slew"@)[0] != ("set_pier_side_after_manual_move"@)[0]);
    }
    if str_eq(action, "pending_declination_slew") {
        Ok(DeviceAction::PendingDeclinationSlew)
    } else if str_eq(action, "complete_declination_slew") {
        Ok(DeviceAction::CompleteDeclinationSlew)
    } else if str_eq(action, "set_pier_side_after_manual_move") {
        match PierSide::from_action_parameter(parameters) {
            Some(p) => Ok(DeviceAction::SetPierSideAfterManualMove(p)),
            None => Err(
                AlpacaError::from_msg(
                    ErrorType::InvalidValue,
                    crate::text::quoted_after("Unknown pier side: ", parameters),
                ),
            ),
        }
    } else {
        Err(
            AlpacaError::from_msg(
                ErrorType::PropertyOrMethodNotImplemented,
                crate::errors::text("Action not implemented"),
            ),
        )
    }
}

/// The stage of connecting to the mount that failed.
#[derive(Debug, Clone, Copy, PartialEq, Eq, Structural)]
pub enum ConnectStage {
    /// Opening the motor controller.
    OpenController,
    /// Setting the auto-guide speed.
    SetAutoguideSpeed,
    /// Stopping the motor.
    StopMotor,
}

impl ConnectStage {
    pub open spec fn spec_driver_code(self) -> int {
        match self {
            ConnectStage::OpenController => 0,
            ConnectStage::SetAutoguideSpeed => 1,
            ConnectStage::StopMotor => 2,
        }
    }

    pub open spec fn spec_prefix(self) -> Seq<char> {
        match self {
            ConnectStage::OpenController => "Could not connect to motor controller: "@,
            ConnectStage::SetAutoguideSpeed => "Error setting autoguide speed: "@,
            ConnectStage::StopMotor => "Error stopping motor: "@,
        }
    }
}

/// The error for a failed stage of connecting: a driver error numbered by the
/// stage, whose message says what failed and why.
pub fn connect_error(stage: ConnectStage, detail: &str) -> (e: AlpacaError)
    ensures
        e.number() == 0x500 + stage.spec_driver_code(),
        e.message() == stage.spec_prefix() + detail@,
{
    let (code, prefix): (u16, &str) = match stage {
        ConnectStage::OpenController => (0, "Could not connect to motor controller: "),
        ConnectStage::SetAutoguideSpeed => (1, "Error setting autoguide speed: "),
        ConnectStage::StopMotor => (2, "Error stopping motor: "),
    };
    let mut message = prefix.to_string();
    message.append(detail);
    AlpacaError::for_driver(code, message)
}

} // verus!
