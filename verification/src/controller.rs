//! The motor controller as the driver sees it: how it is found and opened,
//! and what its status reports mean.
use vstd::prelude::*;
use std::time::Duration;
use crate::enums::TrackingRate;
use crate::motion::{MotionRate, MotorDirection};
use crate::motor::{
    ALLOWABLE_RATE_DIFFERENCE_PDEG, KING_PERIOD, LUNAR_PERIOD, SIDEREAL_PERIOD, SOLAR_PERIOD,
};

verus! {

/// Settings for opening the motor controller: the serial port (found
/// automatically when none is given) and the time allowed for an answer.
#[derive(Debug, Clone)]
pub struct MotorBuilder {
    path: Option<String>,
    timeout: Option<Duration>,
}

impl MotorBuilder {
    pub closed spec fn spec_path(&self) -> Option<Seq<char>> {
        match self.path {
            Some(p) => Some(p@),
            None => None,
        }
    }

    pub closed spec fn spec_timeout(&self) -> Option<Duration> {
        self.timeout
    }

    /// No port and no answer time given.
    pub fn new() -> (b: MotorBuilder)
        ensures
            b.spec_path() is None,
            b.spec_timeout() is None,
    {
        MotorBuilder { path: None, timeout: None }
    }

    /// Uses the given serial port.
    pub fn with_path(self, path: String) -> (b: MotorBuilder)
        ensures
            b.spec_path() == Some(path@),
            b.spec_timeout() == self.spec_timeout(),
    {
        MotorBuilder { path: Some(path), timeout: self.timeout }
    }

    /// Allows the given time for an answer.
    pub fn with_timeout(self, timeout: Duration) -> (b: MotorBuilder)
        ensures
            b.spec_path() == self.spec_path(),
            b.spec_timeout() == Some(timeout),
    {
        MotorBuilder { path: self.path, timeout: Some(timeout) }
    }

    /// The configured serial port, if any.
    pub fn path(&self) -> (p: Option<&str>)
        ensures
            self.spec_path() is None ==> p is None,
            self.spec_path() matches Some(sp) ==> (p matches Some(q) && q@ == sp),
    {
        match &self.path {
            Some(p) => Some(p.as_str()),
            None => None,
        }
    }

    /// The configured answer time, if any.
    pub fn timeout(&self) -> (t: Option<Duration>)
        ensures
            t == self.spec_timeout(),
    {
        self.timeout
    }
}

/// The answer time of a number of milliseconds, as `Duration::from_millis` gives it.
pub uninterp spec fn duration_from_millis(millis: u64) -> Duration;

/// Calls `std::time::Duration::from_millis`, which makes a duration of the given
/// number of milliseconds: the contract names the result, as the same number
/// always gives the same duration, and says nothing else of it.
#[verifier::external_body]
fn millis(ms: u64) -> (d: Duration)
    ensures
        d == duration_from_millis(ms),
{
    Duration::from_millis(ms)
}

/// The settings for opening the motor controller that the serial port
/// settings give: their port, if any, and their answer time.
pub fn connection_builder(com: &crate::config::ComSettings) -> (b: MotorBuilder)
    ensures
        b.spec_timeout() == Some(duration_from_millis(com.timeout_millis as u64)),
        com.path is None ==> b.spec_path() is None,
        com.path matches Some(p) ==> b.spec_path() == Some(p@),
{
    let mut b = MotorBuilder::new().with_timeout(millis(com.timeout_millis as u64));
    match &com.path {
        Some(p) => {
            b = b.with_path(p.clone());
        },
        None => {},
    }
    b
}

/// Settings for opening the motor controller directly, without the
/// connection's state keeping.
#[derive(Debug, Clone)]
pub struct DriverBuilder {
    path: Option<String>,
    timeout: Option<Duration>,
}

impl DriverBuilder {
    pub closed spec fn spec_path(&self) -> Option<Seq<char>> {
        match self.path {
            Some(p) => Some(p@),
            None => None,
        }
    }

    pub closed spec fn spec_timeout(&self) -> Option<Duration> {
        self.timeout
    }

    /// No port and no answer time given.
    pub fn new() -> (b: DriverBuilder)
        ensures
            b.spec_path() is None,
            b.spec_timeout() is None,
    {
        DriverBuilder { path: None, timeout: None }
    }

    /// Uses the given serial port.
    pub fn with_path(self, path: String) -> (b: DriverBuilder)
        ensures
            b.spec_path() == Some(path@),
            b.spec_timeout() == self.spec_timeout(),
    {
        DriverBuilder { path: Some(path), timeout: self.timeout }
    }

    /// Allows the given time for an answer.
    pub fn with_timeout(self, timeout: Duration) -> (b: DriverBuilder)
        ensures
            b.spec_path() == self.spec_path(),
            b.spec_timeout() == Some(timeout),
    {
        DriverBuilder { path: self.path, timeout: Some(timeout) }
    }

    /// The configured serial port, if any.
    pub fn path(&self) -> (p: Option<&str>)
        ensures
            self.spec_path() is None ==> p is None,
            self.spec_path() matches Some(sp) ==> (p matches Some(q) && q@ == sp),
    {
        match &self.path {
            Some(p) => Some(p.as_str()),
            None => None,
        }
    }

    /// The configured answer time, if any.
    pub fn timeout(&self) -> (t: Option<Duration>)
        ensures
            t == self.spec_timeout(),
    {
        self.timeout
    }
}

/// USB vendor number of Prolific.
pub const PROLIFIC_VENDOR_ID: u16 = 0x67b;
/// USB product number of the PL2303 USB to serial adapter in the mount's cable.
pub const PL2303_PRODUCT_ID: u16 = 0x2303;

/// True for the USB serial adapter that the Star Adventurer's cable uses.
pub fn is_star_adventurer_usb(vid: u16, pid: u16) -> (b: bool)
    ensures
        b == (vid == PROLIFIC_VENDOR_ID && pid == PL2303_PRODUCT_ID),
{
    vid == PROLIFIC_VENDOR_ID && pid == PL2303_PRODUCT_ID
}

/// The motion mode of the controller.
#[derive(Debug, Clone, Copy, PartialEq, Eq, Structural)]
pub enum DriveMode {
    Tracking,
    Goto,
}

/// The status that the controller reports.
#[derive(Debug, Clone, Copy, PartialEq, Eq, Structural)]
pub struct MotorStatus {
    pub mode: DriveMode,
    pub running: bool,
    pub direction: MotorDirection,
}

/// Waits for the motor to stop.
pub struct StopWaiter;

impl StopWaiter {
    /// Time between two looks at the status, in milliseconds.
    pub fn check_interval_millis(&self) -> (m: u64)
        ensures
            m == 250,
    {
        250
    }

    /// Done once the motor does not run.
    pub fn check(&self, status: &MotorStatus) -> (done: bool)
        ensures
            done == !status.running,
    {
        !status.running
    }
}

/// Waits for the end of a goto.
pub struct GotoEndWaiter;

impl GotoEndWaiter {
    /// Time between two looks at the status, in milliseconds.
    pub fn check_interval_millis(&self) -> (m: u64)
        ensures
            m == 1000,
    {
        1000
    }

    /// Done once the controller has left goto mode.
    pub fn check(&self, status: &MotorStatus) -> (done: bool)
        ensures
            done == (status.mode != DriveMode::Goto),
    {
        status.mode != DriveMode::Goto
    }
}

/// Waits for the motor to reach a rate.
pub struct RateWaiter {
    pub target_pdeg: u64,
}

impl RateWaiter {
    /// Time between two looks at the rate, in milliseconds.
    pub fn check_interval_millis(&self) -> (m: u64)
        ensures
            m == 100,
    {
        100
    }

    /// Done once the reported rate, in picodegrees per second, is within the
    /// allowed difference of the target.
    pub fn check(&self, reported_pdeg: u64) -> (done: bool)
        ensures
            done == (if reported_pdeg >= self.target_pdeg {
                reported_pdeg - self.target_pdeg
            } else {
                self.target_pdeg - reported_pdeg
            } < ALLOWABLE_RATE_DIFFERENCE_PDEG),
    {
        let diff = if reported_pdeg >= self.target_pdeg {
            reported_pdeg - self.target_pdeg
        } else {
            self.target_pdeg - reported_pdeg
        };
        diff < ALLOWABLE_RATE_DIFFERENCE_PDEG
    }
}

/// What a connecting driver makes of the motor it finds.
#[derive(Debug, Clone, Copy, PartialEq, Eq, Structural)]
pub enum FoundMotion {
    /// The motor stands still.
    Stationary,
    /// The motor tracks in this direction; its rate is to be read.
    Moving(MotorDirection),
    /// The motor runs a goto, which is stopped.
    StopGoto,
}

/// Interprets the status found when the driver connects.
pub fn assess_found_status(status: &MotorStatus) -> (f: FoundMotion)
    ensures
        !status.running ==> f is Stationary,
        status.running && status.mode == DriveMode::Tracking ==> f == FoundMotion::Moving(status.direction),
        status.running && status.mode == DriveMode::Goto ==> f is StopGoto,
{
    if !status.running {
        FoundMotion::Stationary
    } else {
        match status.mode {
            DriveMode::Tracking => FoundMotion::Moving(status.direction),
            DriveMode::Goto => FoundMotion::StopGoto,
        }
    }
}

/// The motor state of a found motor: still, or tracking at the rate read from
/// the controller in the reported direction.
pub fn found_motor_state(found: FoundMotion, rate_pdeg: u64) -> (m: crate::motor::MotorState)
    requires
        rate_pdeg <= i64::MAX,
    ensures
        found matches FoundMotion::Moving(d) ==> (m matches crate::motor::MotorState::Moving(r)
            && r.velocity() == d.spec_sign() * rate_pdeg),
        !(found is Moving) ==> m is Stationary,
{
    match found {
        FoundMotion::Moving(d) => crate::motor::MotorState::Moving(MotionRate::new(rate_pdeg, d)),
        _ => crate::motor::MotorState::Stationary,
    }
}

/// The status of the motor as the older driver reports it.
#[derive(Debug, Clone, Copy, PartialEq, Eq, Structural)]
pub enum DriverStatus {
    Stationary,
    Moving(MotorDirection),
    /// Running a goto; its target is to be read.
    Slewing,
}

/// Interprets the controller's status.
pub fn driver_status(status: &MotorStatus) -> (d: DriverStatus)
    ensures
        !status.running ==> d is Stationary,
        status.running && status.mode == DriveMode::Tracking ==> d == DriverStatus::Moving(status.direction),
        status.running && status.mode == DriveMode::Goto ==> d is Slewing,
{
    if !status.running {
        DriverStatus::Stationary
    } else {
        match status.mode {
            DriveMode::Tracking => DriverStatus::Moving(status.direction),
            DriveMode::Goto => DriverStatus::Slewing,
        }
    }
}

/// The tracking rate that a step period of the Star Adventurer stands for.
pub open spec fn spec_rate_of_period(period: u32) -> Option<TrackingRate> {
    if period == SIDEREAL_PERIOD {
        Some(TrackingRate::Sidereal)
    } else if period == LUNAR_PERIOD {
        Some(TrackingRate::Lunar)
    } else if period == SOLAR_PERIOD {
        Some(TrackingRate::Solar)
    } else if period == KING_PERIOD {
        Some(TrackingRate::King)
    } else {
        None
    }
}

/// Recognises a tracking rate from the step period read from the controller;
/// any other period is a custom rate, to be read in degrees.
pub fn rate_of_period(period: u32) -> (r: Option<TrackingRate>)
    ensures
        r == spec_rate_of_period(period),
{
    if period == SIDEREAL_PERIOD {
        Some(TrackingRate::Sidereal)
    } else if period == LUNAR_PERIOD {
        Some(TrackingRate::Lunar)
    } else if period == SOLAR_PERIOD {
        Some(TrackingRate::Solar)
    } else if period == KING_PERIOD {
        Some(TrackingRate::King)
    } else {
        None
    }
}

/// How the motor is taken from one rate to another when driven directly: as a
/// change of the connected motor's rate, except that a change of speed in the
/// same direction is sent as asked, without bringing it into the driveable range.
pub open spec fn spec_driver_plan(from: MotionRate, to: MotionRate) -> crate::motor::RateChange {
    if from != to && !from.spec_is_zero() && !to.spec_is_zero() && to.spec_direction() == from.spec_direction() {
        crate::motor::RateChange::ChangeSpeed(to)
    } else {
        crate::motor::spec_plan(from, to)
    }
}

/// Decides how the directly driven motor goes from one rate to another.
pub fn plan_driver_rate_change(from: MotionRate, to: MotionRate) -> (p: crate::motor::RateChange)
    ensures
        p == spec_driver_plan(from, to),
{
    let state = if from.is_zero() {
        crate::motor::MotorState::Stationary
    } else {
        crate::motor::MotorState::Moving(from)
    };
    proof {
        MotionRate::lemma_from_velocity(0);
        MotionRate::lemma_eq_by_velocity(from, MotionRate::spec_zero());
    }
    if from != to && !from.is_zero() && !to.is_zero() && to.direction() == from.direction() {
        proof { MotionRate::lemma_eq_by_velocity(from, to); }
        crate::motor::RateChange::ChangeSpeed(to)
    } else {
        crate::motor::plan_rate_change(&state, to)
    }
}

/// The four periods name four different rates.
pub proof fn lemma_periods_distinct()
    ensures
        forall|p: u32, q: u32| spec_rate_of_period(p) is Some && spec_rate_of_period(p) == spec_rate_of_period(q)
            ==> p == q,
{
}

} // verus!
