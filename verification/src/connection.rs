//! The connection to the mount: whether it is connected, what a failure of
//! the motor does to it, and which operation may start while another one
//! still runs.
use vstd::prelude::*;
use crate::ascom_state::ConnectedState;
use crate::errors::{not_connected_message, AlpacaError, ErrorType};
use crate::motor::MotorError;

verus! {

broadcast use vstd::string::group_string_axioms;

/// A mount that may or may not be connected.
#[derive(Debug, Clone, Copy, PartialEq, Eq, Structural)]
pub enum PotentialConnection {
    Connected(ConnectedState),
    Disconnected,
}

impl PotentialConnection {
    /// True when connected.
    pub fn is_connected(&self) -> (b: bool)
        ensures
            b == (*self is Connected),
    {
        match self {
            PotentialConnection::Connected(_) => true,
            PotentialConnection::Disconnected => false,
        }
    }

    /// The state of the connected mount, or the "not connected" error.
    pub fn get_con(&self) -> (r: Result<&ConnectedState, AlpacaError>)
        ensures
            *self matches PotentialConnection::Connected(c) ==> (r matches Ok(rc) && *rc == c),
            *self is Disconnected ==> (r matches Err(e) && e.number()
                == ErrorType::NotConnected.spec_code() && e.message() == "Telescope Not Connected"@),
    {
        match self {
            PotentialConnection::Connected(c) => Ok(c),
            PotentialConnection::Disconnected => Err(
                AlpacaError::from_msg(
                    ErrorType::NotConnected,
                    crate::errors::text("Telescope Not Connected"),
                ),
            ),
        }
    }

    /// The state of the connected mount, for changing it, or the "not connected" error.
    pub fn get_mut_con(&mut self) -> (r: Result<&mut ConnectedState, AlpacaError>)
        ensures
            *old(self) is Disconnected ==> r is Err && *final(self) == *old(self),
            *old(self) matches PotentialConnection::Connected(c) ==> (r matches Ok(rc) && *rc == c
                && *final(self) == PotentialConnection::Connected(*final(rc))),
            r matches Err(e) ==> e.number() == ErrorType::NotConnected.spec_code() && e.message()
                == "Telescope Not Connected"@,
    {
        match self {
            PotentialConnection::Connected(c) => Ok(c),
            PotentialConnection::Disconnected => Err(
                AlpacaError::from_msg(
                    ErrorType::NotConnected,
                    crate::errors::text("Telescope Not Connected"),
                ),
            ),
        }
    }

    /// The state of the connected mount, or the motor's "disconnected" error.
    pub fn get_cs(&self) -> (r: Result<&ConnectedState, MotorError>)
        ensures
            *self matches PotentialConnection::Connected(c) ==> (r matches Ok(rc) && *rc == c),
            *self is Disconnected ==> (r matches Err(e) && e.spec_is_io_error(
                "Motor Disconnected"@,
            )),
    {
        match self {
            PotentialConnection::Connected(c) => Ok(c),
            PotentialConnection::Disconnected => Err(MotorError::from_text("Motor Disconnected")),
        }
    }
}

/// What a failed motor command does to the connection.
pub open spec fn spec_disconnects_on(e: MotorError) -> bool {
    !(e is Disconnected)
}

/// Decides what the driver does with the outcome of a motor command: a success
/// passes on its value; a failure is reported as "not connected", and any
/// failure other than an already lost connection drops the connection.
/// Returns the result to report and whether to disconnect.
pub fn check_motor_result<T>(res: Result<T, MotorError>) -> (out: (Result<T, AlpacaError>, bool))
    ensures
        res matches Ok(v) ==> (out.0 matches Ok(w) && w == v && !out.1),
        res matches Err(e) ==> (out.0 matches Err(ae) && ae.number()
            == ErrorType::NotConnected.spec_code() && ae.message() == not_connected_message()
            && out.1 == spec_disconnects_on(e)),
{
    match res {
        Ok(v) => (Ok(v), false),
        Err(MotorError::Disconnected) => (Err(AlpacaError::not_connected()), false),
        Err(_) => (Err(AlpacaError::not_connected()), true),
    }
}

/// The operation that runs on in the background, if any.
#[derive(Debug, Clone, Copy, PartialEq, Eq, Structural)]
pub enum ActiveTask {
    NoTask,
    Parking,
    Slewing,
    Guiding,
}

/// An operation of the mount.
#[derive(Debug, Clone, Copy, PartialEq, Eq, Structural)]
pub enum Operation {
    StartTracking,
    StopTracking,
    UpdateTrackingRate,
    MoveMotor,
    PulseGuide,
    SlewTo,
    Park,
    Unpark,
    AbortSlew,
}

impl Operation {
    /// True for the operations that run on in the background.
    pub open spec fn is_long(self) -> bool {
        self is PulseGuide || self is SlewTo || self is Park
    }

    pub open spec fn spec_task(self) -> ActiveTask {
        match self {
            Operation::PulseGuide => ActiveTask::Guiding,
            Operation::SlewTo => ActiveTask::Slewing,
            Operation::Park => ActiveTask::Parking,
            _ => ActiveTask::NoTask,
        }
    }

    /// The background task that this operation registers while it runs.
    pub fn task(&self) -> (t: ActiveTask)
        ensures
            t == self.spec_task(),
    {
        match self {
            Operation::PulseGuide => ActiveTask::Guiding,
            Operation::SlewTo => ActiveTask::Slewing,
            Operation::Park => ActiveTask::Parking,
            _ => ActiveTask::NoTask,
        }
    }
}

/// Whether an operation may start while a background task runs.
#[derive(Debug)]
pub enum Dispatch {
    /// Refused while the task runs.
    Refuse(AlpacaError),
    /// Nothing to do: the operation succeeds without effect.
    Skip,
    /// The operation runs, after aborting the running task if asked to.
    Run { abort_active: bool },
}

/// True when the dispatch refuses with the given error kind and message.
pub open spec fn dispatch_refuses(d: Dispatch, kind: ErrorType, message: Seq<char>) -> bool {
    d matches Dispatch::Refuse(e) && e.number() == kind.spec_code() && e.message() == message
}

/// The operations that a running slew or park refuses, with the error kind and
/// message; the others run once a guide pulse is aborted, or do nothing.
pub open spec fn spec_dispatch_ok(op: Operation, active: ActiveTask, tracking: bool, d: Dispatch) -> bool {
    match (op, active) {
        (_, ActiveTask::NoTask) => d == Dispatch::Run { abort_active: false },
        (Operation::AbortSlew, _) => d == Dispatch::Run { abort_active: true },
        (Operation::StartTracking, ActiveTask::Slewing) => dispatch_refuses(d, ErrorType::InvalidValue, "Can't start tracking while slewing"@),
        (Operation::StartTracking, ActiveTask::Parking) => dispatch_refuses(d, ErrorType::InvalidValue, "Can't start tracking while parking"@),
        (Operation::StopTracking, ActiveTask::Slewing) => dispatch_refuses(d, ErrorType::InvalidValue, "Can't stop tracking while slewing"@),
        (Operation::StopTracking, ActiveTask::Parking) => dispatch_refuses(d, ErrorType::InvalidValue, "Can't stop tracking while parking"@),
        (Operation::UpdateTrackingRate, ActiveTask::Guiding) => if tracking {
            d == Dispatch::Run { abort_active: true }
        } else {
            d is Skip
        },
        (Operation::UpdateTrackingRate, _) => d is Skip,
        (Operation::MoveMotor, ActiveTask::Slewing) => dispatch_refuses(d, ErrorType::InvalidOperation, "Can't move motor while slewing"@),
        (Operation::MoveMotor, ActiveTask::Parking) => dispatch_refuses(d, ErrorType::InvalidOperation, "Can't move motor while parking"@),
        (Operation::PulseGuide, ActiveTask::Slewing) => dispatch_refuses(d, ErrorType::InvalidOperation, "Can't guide while slewing"@),
        (Operation::PulseGuide, ActiveTask::Parking) => dispatch_refuses(d, ErrorType::InvalidOperation, "Can't guide while parking"@),
        (Operation::PulseGuide, ActiveTask::Guiding) => dispatch_refuses(d, ErrorType::InvalidOperation, "Already guiding"@),
        (Operation::SlewTo, ActiveTask::Slewing) => dispatch_refuses(d, ErrorType::InvalidValue, "Already slewing"@),
        (Operation::SlewTo, ActiveTask::Parking) => dispatch_refuses(d, ErrorType::InvalidValue, "Can't slew while parking"@),
        (Operation::Park, ActiveTask::Slewing) => dispatch_refuses(d, ErrorType::InvalidValue, "Can't park while slewing"@),
        (Operation::Park, ActiveTask::Parking) => dispatch_refuses(d, ErrorType::InvalidValue, "Already parking"@),
        (Operation::Unpark, ActiveTask::Parking) => d == Dispatch::Run { abort_active: true },
        (Operation::Unpark, _) => d is Skip,
        (_, ActiveTask::Guiding) => d == Dispatch::Run { abort_active: true },
    }
}

/// Decides whether an operation may start while the given background task
/// runs. `tracking` tells whether the mount tracks, which decides a change of
/// the tracking rate during a guide pulse.
pub fn dispatch(op: Operation, active: ActiveTask, tracking: bool) -> (d: Dispatch)
    ensures
        spec_dispatch_ok(op, active, tracking, d),
{
    match (op, active) {
        (_, ActiveTask::NoTask) => Dispatch::Run { abort_active: false },
        (Operation::AbortSlew, _) => Dispatch::Run { abort_active: true },
        (Operation::StartTracking, ActiveTask::Slewing) => Dispatch::Refuse(AlpacaError::invalid_value("Can't start tracking while slewing")),
        (Operation::StartTracking, ActiveTask::Parking) => Dispatch::Refuse(AlpacaError::invalid_value("Can't start tracking while parking")),
        (Operation::StopTracking, ActiveTask::Slewing) => Dispatch::Refuse(AlpacaError::invalid_value("Can't stop tracking while slewing")),
        (Operation::StopTracking, ActiveTask::Parking) => Dispatch::Refuse(AlpacaError::invalid_value("Can't stop tracking while parking")),
        (Operation::UpdateTrackingRate, ActiveTask::Guiding) => {
            if tracking {
                Dispatch::Run { abort_active: true }
            } else {
                Dispatch::Skip
            }
        },
        (Operation::UpdateTrackingRate, _) => Dispatch::Skip,
        (Operation::MoveMotor, ActiveTask::Slewing) => Dispatch::Refuse(AlpacaError::invalid_operation("Can't move motor while slewing")),
        (Operation::MoveMotor, ActiveTask::Parking) => Dispatch::Refuse(AlpacaError::invalid_operation("Can't move motor while parking")),
        (Operation::PulseGuide, ActiveTask::Slewing) => Dispatch::Refuse(AlpacaError::invalid_operation("Can't guide while slewing")),
        (Operation::PulseGuide, ActiveTask::Parking) => Dispatch::Refuse(AlpacaError::invalid_operation("Can't guide while parking")),
        (Operation::PulseGuide, ActiveTask::Guiding) => Dispatch::Refuse(AlpacaError::invalid_operation("Already guiding")),
        (Operation::SlewTo, ActiveTask::Slewing) => Dispatch::Refuse(AlpacaError::invalid_value("Already slewing")),
        (Operation::SlewTo, ActiveTask::Parking) => Dispatch::Refuse(AlpacaError::invalid_value("Can't slew while parking")),
        (Operation::Park, ActiveTask::Slewing) => Dispatch::Refuse(AlpacaError::invalid_value("Can't park while slewing")),
        (Operation::Park, ActiveTask::Parking) => Dispatch::Refuse(AlpacaError::invalid_value("Already parking")),
        (Operation::Unpark, ActiveTask::Parking) => Dispatch::Run { abort_active: true },
        (Operation::Unpark, _) => Dispatch::Skip,
        (_, ActiveTask::Guiding) => Dispatch::Run { abort_active: true },
    }
}

/// The background task registered once an operation that runs has started:
/// the operation's own task for one that runs on, else none (an aborted task is
/// gone either way).
pub fn task_after_start(op: Operation) -> (t: ActiveTask)
    ensures
        t == op.spec_task(),
{
    op.task()
}

} // verus!
