//! The ASCOM enumerations used by the mount, and the tracking rates of its
//! right ascension drive.
use vstd::prelude::*;

verus! {

/// Alignment of the mount.
#[derive(Debug, Clone, Copy, PartialEq, Eq, Structural)]
pub enum AlignmentMode {
    /// Altitude-Azimuth alignment
    AltAz,
    /// Polar (equatorial) mount other than German equatorial
    Polar,
    /// German equatorial mount
    GermanPolar,
}

/// Equatorial coordinate system used by the mount.
#[derive(Debug, Clone, Copy, PartialEq, Eq, Structural)]
pub enum EquatorialCoordinateType {
    Other,
    Topocentric,
    J2000,
    J2050,
    B1950,
}

/// Pointing state of a German equatorial mount.
#[derive(Debug, Clone, Copy, PartialEq, Eq, Structural)]
pub enum PierSide {
    Unknown,
    East,
    West,
}

impl PierSide {
    /// The ASCOM number of a pier side: -1 for unknown, 0 for east, 1 for west.
    pub open spec fn spec_code(self) -> int {
        match self {
            PierSide::Unknown => -1,
            PierSide::East => 0,
            PierSide::West => 1,
        }
    }

    /// The ASCOM number of this pier side.
    pub fn code(&self) -> (c: i32)
        ensures
            c == self.spec_code(),
    {
        match self {
            PierSide::Unknown => -1,
            PierSide::East => 0,
            PierSide::West => 1,
        }
    }

    /// The pier side with the given ASCOM number, if there is one.
    pub fn from_code(c: i32) -> (p: Option<PierSide>)
        ensures
            p matches Some(s) ==> s.spec_code() == c,
            p is None <==> !(-1 <= c <= 1),
    {
        if c == -1 {
            Some(PierSide::Unknown)
        } else if c == 0 {
            Some(PierSide::East)
        } else if c == 1 {
            Some(PierSide::West)
        } else {
            None
        }
    }

    pub open spec fn spec_opposite(self) -> PierSide {
        match self {
            PierSide::East => PierSide::West,
            PierSide::West => PierSide::East,
            PierSide::Unknown => PierSide::Unknown,
        }
    }

    /// The side that a meridian flip leads to (an unknown side stays unknown).
    pub fn opposite(&self) -> (p: PierSide)
        ensures
            p == self.spec_opposite(),
    {
        match self {
            PierSide::East => PierSide::West,
            PierSide::West => PierSide::East,
            PierSide::Unknown => PierSide::Unknown,
        }
    }

    /// Changes the side as a meridian flip does.
    pub fn flip(&mut self)
        ensures
            *final(self) == old(self).spec_opposite(),
    {
        *self = self.opposite();
    }
}

/// A drive rate of the right ascension axis.
#[derive(Debug, Clone, Copy, PartialEq, Eq, Structural)]
pub enum TrackingRate {
    Sidereal,
    Lunar,
    Solar,
    King,
}

/// Picodegrees in one degree: rates of motion are held as whole picodegrees per second.
pub const PICODEGREES_PER_DEGREE: u64 = 1_000_000_000_000;

impl TrackingRate {
    /// The rate in picodegrees per second (sidereal: 0.00417809 deg/s).
    pub open spec fn spec_rate_pdeg(self) -> int {
        match self {
            TrackingRate::Sidereal => 4_178_090_000,
            TrackingRate::Lunar => 4_024_138_000,
            TrackingRate::Solar => 4_166_650_000,
            TrackingRate::King => 4_176_920_000,
        }
    }

    /// The rate of this drive in picodegrees per second.
    pub fn rate_pdeg(&self) -> (r: u64)
        ensures
            r == self.spec_rate_pdeg(),
    {
        match self {
            TrackingRate::Sidereal => 4_178_090_000,
            TrackingRate::Lunar => 4_024_138_000,
            TrackingRate::Solar => 4_166_650_000,
            TrackingRate::King => 4_176_920_000,
        }
    }

    /// The step period that turns the motor at this rate: the number of timer
    /// interrupts per step, `frequency / steps_per_rotation * 360 / rate`, rounded
    /// half up and saturated to the range of `u32`. With no steps per rotation
    /// the period is infinite (the largest `u32`), unless the frequency is zero too.
    pub open spec fn spec_step_period(self, frequency: u32, steps_per_rotation: u32) -> int {
        if steps_per_rotation == 0 {
            if frequency == 0 {
                0
            } else {
                u32::MAX as int
            }
        } else {
            let num = frequency * 360 * PICODEGREES_PER_DEGREE;
            let den = steps_per_rotation * self.spec_rate_pdeg();
            let rounded = (2 * num + den) / (2 * den);
            if rounded > u32::MAX {
                u32::MAX as int
            } else {
                rounded
            }
        }
    }

    /// Step period of the motor for this tracking rate.
    pub fn determine_step_period(&self, frequency: u32, steps_per_rotation: u32) -> (p: u32)
        ensures
            p == self.spec_step_period(frequency, steps_per_rotation),
    {
        if steps_per_rotation == 0 {
            if frequency == 0 {
                return 0;
            } else {
                return u32::MAX;
            }
        }
        let rate = self.rate_pdeg();
        let f: u128 = frequency as u128;
        let s: u128 = steps_per_rotation as u128;
        let r: u128 = rate as u128;
        assert(f * 360 <= 0xffff_ffff * 360) by (nonlinear_arith)
            requires
                f <= 0xffff_ffff,
        ;
        assert(s * r <= 0xffff_ffff * 4_178_090_000) by (nonlinear_arith)
            requires
                s <= 0xffff_ffff,
                r <= 4_178_090_000,
        ;
        let num: u128 = f * 360 * 1_000_000_000_000;
        let den: u128 = s * r;
        assert(den > 0) by (nonlinear_arith)
            requires
                s > 0,
                r > 0,
                den == s * r,
        ;
        let rounded: u128 = (2 * num + den) / (2 * den);
        if rounded > 0xffff_ffff {
            u32::MAX
        } else {
            rounded as u32
        }
    }

    /// The first tracking rate, in the order sidereal, lunar, solar, king, whose
    /// step period is the given one.
    pub open spec fn spec_from_period(period: u32, frequency: u32, steps_per_rotation: u32) -> Option<TrackingRate> {
        if TrackingRate::Sidereal.spec_step_period(frequency, steps_per_rotation) == period {
            Some(TrackingRate::Sidereal)
        } else if TrackingRate::Lunar.spec_step_period(frequency, steps_per_rotation) == period {
            Some(TrackingRate::Lunar)
        } else if TrackingRate::Solar.spec_step_period(frequency, steps_per_rotation) == period {
            Some(TrackingRate::Solar)
        } else if TrackingRate::King.spec_step_period(frequency, steps_per_rotation) == period {
            Some(TrackingRate::King)
        } else {
            None
        }
    }

    /// Recognises the tracking rate that a step period stands for.
    pub fn determine_from_period(period: u32, frequency: u32, steps_per_rotation: u32) -> (r: Option<TrackingRate>)
        ensures
            r == Self::spec_from_period(period, frequency, steps_per_rotation),
    {
        if TrackingRate::Sidereal.determine_step_period(frequency, steps_per_rotation) == period {
            Some(TrackingRate::Sidereal)
        } else if TrackingRate::Lunar.determine_step_period(frequency, steps_per_rotation) == period {
            Some(TrackingRate::Lunar)
        } else if TrackingRate::Solar.determine_step_period(frequency, steps_per_rotation) == period {
            Some(TrackingRate::Solar)
        } else if TrackingRate::King.determine_step_period(frequency, steps_per_rotation) == period {
            Some(TrackingRate::King)
        } else {
            None
        }
    }
}

impl TrackingRate {
    /// The ASCOM number of a drive rate: 0 sidereal, 1 lunar, 2 solar, 3 king.
    pub open spec fn spec_code(self) -> int {
        match self {
            TrackingRate::Sidereal => 0,
            TrackingRate::Lunar => 1,
            TrackingRate::Solar => 2,
            TrackingRate::King => 3,
        }
    }

    /// The ASCOM number of this drive rate.
    pub fn code(&self) -> (c: i32)
        ensures
            c == self.spec_code(),
    {
        match self {
            TrackingRate::Sidereal => 0,
            TrackingRate::Lunar => 1,
            TrackingRate::Solar => 2,
            TrackingRate::King => 3,
        }
    }

    /// The drive rate with the given ASCOM number; other numbers are refused
    /// as an invalid tracking rate.
    pub fn from_code(c: i32) -> (r: Result<TrackingRate, crate::errors::AlpacaError>)
        ensures
            0 <= c <= 3 ==> (r matches Ok(t) && t.spec_code() == c),
            !(0 <= c <= 3) ==> (r matches Err(e) && e.number()
                == crate::errors::ErrorType::InvalidValue.spec_code() && e.message()
                == "Invalid Tracking Rate"@),
    {
        if c == 0 {
            Ok(TrackingRate::Sidereal)
        } else if c == 1 {
            Ok(TrackingRate::Lunar)
        } else if c == 2 {
            Ok(TrackingRate::Solar)
        } else if c == 3 {
            Ok(TrackingRate::King)
        } else {
            Err(crate::errors::AlpacaError::invalid_value("Invalid Tracking Rate"))
        }
    }
}

/// An axis of the mount.
#[derive(Debug, Clone, Copy, PartialEq, Eq, Structural)]
pub enum Axis {
    /// RA or Az
    Primary,
    /// Dec or Alt
    Secondary,
    /// imager rotator/de-rotator
    Tertiary,
}

/// Direction of a guide pulse.
#[derive(Debug, Clone, Copy, PartialEq, Eq, Structural)]
pub enum GuideDirection {
    North,
    South,
    East,
    West,
}

} // verus!
