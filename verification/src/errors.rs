//! ASCOM errors: the numbers that the Alpaca protocol gives each kind of
//! failure, and the errors of the motor controller mapped onto them.
use vstd::prelude::*;

verus! {

broadcast use vstd::string::group_string_axioms;

/// The well-known ASCOM error kinds.
#[derive(Debug, Clone, Copy, PartialEq, Eq, Structural)]
pub enum ErrorType {
    PropertyOrMethodNotImplemented,
    InvalidValue,
    ValueNotSet,
    NotConnected,
    InvalidWhileParked,
    InvalidWhileSlaved,
    InvalidOperation,
    ActionNotImplemented,
}

impl ErrorType {
    pub open spec fn spec_code(self) -> int {
        match self {
            ErrorType::PropertyOrMethodNotImplemented => 0x400,
            ErrorType::InvalidValue => 0x401,
            ErrorType::ValueNotSet => 0x402,
            ErrorType::NotConnected => 0x407,
            ErrorType::InvalidWhileParked => 0x408,
            ErrorType::InvalidWhileSlaved => 0x409,
            ErrorType::InvalidOperation => 0x40B,
            ErrorType::ActionNotImplemented => 0x40C,
        }
    }

    /// The ASCOM error number of this kind.
    pub fn code(&self) -> (c: i32)
        ensures
            c == self.spec_code(),
    {
        match self {
            ErrorType::PropertyOrMethodNotImplemented => 0x400,
            ErrorType::InvalidValue => 0x401,
            ErrorType::ValueNotSet => 0x402,
            ErrorType::NotConnected => 0x407,
            ErrorType::InvalidWhileParked => 0x408,
            ErrorType::InvalidWhileSlaved => 0x409,
            ErrorType::InvalidOperation => 0x40B,
            ErrorType::ActionNotImplemented => 0x40C,
        }
    }
}

/// An error reported to an Alpaca client: its number and its message.
#[derive(Debug)]
pub struct AlpacaError {
    error_number: i32,
    error_message: String,
}

/// The message of the canned "not connected" error.
pub open spec fn not_connected_message() -> Seq<char> {
    "The communications channel is not connected."@
}

/// The message of the canned "not implemented" error.
pub open spec fn not_implemented_message() -> Seq<char> {
    "Property or method not implemented."@
}

/// Copies a string slice into an owned string with the same characters.
pub fn text(s: &str) -> (r: String)
    ensures
        r@ == s@,
{
    s.to_string()
}

impl AlpacaError {
    pub closed spec fn number(&self) -> int {
        self.error_number as int
    }

    pub closed spec fn message(&self) -> Seq<char> {
        self.error_message@
    }

    /// An error of the given kind with the given message.
    pub fn from_msg(e_type: ErrorType, message: String) -> (e: AlpacaError)
        ensures
            e.number() == e_type.spec_code(),
            e.message() == message@,
    {
        AlpacaError { error_number: e_type.code(), error_message: message }
    }

    /// A driver-specific error: number 0x500 plus the driver's own code.
    pub fn for_driver(driver_code: u16, message: String) -> (e: AlpacaError)
        requires
            driver_code <= 0xAFF,
        ensures
            e.number() == 0x500 + driver_code,
            e.message() == message@,
    {
        AlpacaError { error_number: 0x500 + driver_code as i32, error_message: message }
    }

    /// An "invalid value" error with the given message.
    pub fn invalid_value(message: &str) -> (e: AlpacaError)
        ensures
            e.number() == ErrorType::InvalidValue.spec_code(),
            e.message() == message@,
    {
        Self::from_msg(ErrorType::InvalidValue, text(message))
    }

    /// An "invalid operation" error with the given message.
    pub fn invalid_operation(message: &str) -> (e: AlpacaError)
        ensures
            e.number() == ErrorType::InvalidOperation.spec_code(),
            e.message() == message@,
    {
        Self::from_msg(ErrorType::InvalidOperation, text(message))
    }

    /// The error for a request made while the mount is not connected.
    pub fn not_connected() -> (e: AlpacaError)
        ensures
            e.number() == ErrorType::NotConnected.spec_code(),
            e.message() == not_connected_message(),
    {
        Self::from_msg(ErrorType::NotConnected, text("The communications channel is not connected."))
    }

    /// The error for a request that the driver does not implement.
    pub fn not_implemented() -> (e: AlpacaError)
        ensures
            e.number() == ErrorType::PropertyOrMethodNotImplemented.spec_code(),
            e.message() == not_implemented_message(),
    {
        Self::from_msg(
            ErrorType::PropertyOrMethodNotImplemented,
            text("Property or method not implemented."),
        )
    }

    /// The error number.
    pub fn error_number(&self) -> (n: i32)
        ensures
            n == self.number(),
    {
        self.error_number
    }

    /// The error message.
    pub fn error_message(&self) -> (m: &str)
        ensures
            m@ == self.message(),
    {
        self.error_message.as_str()
    }
}

/// The failures that the motor controller's protocol reports.
#[derive(Debug, Clone, Copy, PartialEq, Eq, Structural)]
pub enum SynScanErrorKind {
    UnknownCommand,
    CommandLengthError,
    MotorNotStopped,
    InvalidCharacter,
    NotInitialized,
    DriverSleeping,
    PECTrainingRunning,
    NoValidPECData,
    CommunicationError,
}

impl SynScanErrorKind {
    /// The Alpaca number of a controller failure: the driver range from 0x500 on,
    /// in the order of the protocol's error codes.
    pub open spec fn spec_code(self) -> int {
        match self {
            SynScanErrorKind::UnknownCommand => 0x500,
            SynScanErrorKind::CommandLengthError => 0x501,
            SynScanErrorKind::MotorNotStopped => 0x502,
            SynScanErrorKind::InvalidCharacter => 0x503,
            SynScanErrorKind::NotInitialized => 0x504,
            SynScanErrorKind::DriverSleeping => 0x505,
            SynScanErrorKind::PECTrainingRunning => 0x506,
            SynScanErrorKind::NoValidPECData => 0x507,
            SynScanErrorKind::CommunicationError => 0x508,
        }
    }
}

impl AlpacaError {
    /// The Alpaca error for a failure of the motor controller, with the
    /// controller's own description of it as the message.
    pub fn from_synscan(kind: SynScanErrorKind, description: String) -> (e: AlpacaError)
        ensures
            e.number() == kind.spec_code(),
            e.message() == description@,
    {
        let n: i32 = match kind {
            SynScanErrorKind::UnknownCommand => 0x500,
            SynScanErrorKind::CommandLengthError => 0x501,
            SynScanErrorKind::MotorNotStopped => 0x502,
            SynScanErrorKind::InvalidCharacter => 0x503,
            SynScanErrorKind::NotInitialized => 0x504,
            SynScanErrorKind::DriverSleeping => 0x505,
            SynScanErrorKind::PECTrainingRunning => 0x506,
            SynScanErrorKind::NoValidPECData => 0x507,
            SynScanErrorKind::CommunicationError => 0x508,
        };
        AlpacaError { error_number: n, error_message: description }
    }
}

} // verus!
