//! Directions and rates of motion of the right ascension motor.
//!
//! Rates are held as whole picodegrees per second (1e-12 degree/s): every
//! tracking rate and every fraction of one that auto-guiding uses is a whole
//! number in this unit.
use vstd::prelude::*;
use crate::enums::{GuideDirection, TrackingRate};

verus! {

/// Rotation direction of the motor as the controller encodes it.
#[derive(Debug, Clone, Copy, PartialEq, Eq, Structural)]
pub enum MotorDirection {
    Clockwise,
    CounterClockwise,
}

impl MotorDirection {
    /// +1 for clockwise, -1 for counter-clockwise: the sign that motor positions
    /// change with when the motor turns this way.
    pub open spec fn spec_sign(self) -> int {
        match self {
            MotorDirection::Clockwise => 1,
            MotorDirection::CounterClockwise => -1,
        }
    }

    /// The sign of this direction.
    pub fn sign(&self) -> (s: i8)
        ensures
            s == self.spec_sign(),
    {
        match self {
            MotorDirection::Clockwise => 1,
            MotorDirection::CounterClockwise => -1,
        }
    }

    pub open spec fn spec_reversed(self) -> MotorDirection {
        match self {
            MotorDirection::Clockwise => MotorDirection::CounterClockwise,
            MotorDirection::CounterClockwise => MotorDirection::Clockwise,
        }
    }
}

/// Direction of motion relative to the sky: with the tracking motion or against it.
#[derive(Debug, Clone, Copy, PartialEq, Eq, Structural)]
pub enum TrackingDirection {
    WithTracking,
    AgainstTracking,
}

/// Which way the motor turns to follow the sky: this depends on the hemisphere.
#[derive(Debug, Clone, Copy, PartialEq, Eq, Structural)]
pub enum RotationDirectionKey {
    Northern,
    Southern,
}

impl RotationDirectionKey {
    /// The key for an observer in the northern hemisphere or the southern one.
    pub fn from_hemisphere(in_north: bool) -> (k: RotationDirectionKey)
        ensures
            k == (if in_north { RotationDirectionKey::Northern } else { RotationDirectionKey::Southern }),
    {
        if in_north {
            RotationDirectionKey::Northern
        } else {
            RotationDirectionKey::Southern
        }
    }
}

impl TrackingDirection {
    /// The motor direction of a sky direction: tracking turns the motor clockwise
    /// in the north and counter-clockwise in the south.
    pub open spec fn spec_using(self, key: RotationDirectionKey) -> MotorDirection {
        match (self, key) {
            (TrackingDirection::WithTracking, RotationDirectionKey::Northern) => MotorDirection::Clockwise,
            (TrackingDirection::WithTracking, RotationDirectionKey::Southern) => MotorDirection::CounterClockwise,
            (TrackingDirection::AgainstTracking, RotationDirectionKey::Northern) => MotorDirection::CounterClockwise,
            (TrackingDirection::AgainstTracking, RotationDirectionKey::Southern) => MotorDirection::Clockwise,
        }
    }

    /// The motor direction that moves this way across the sky.
    pub fn using(&self, key: RotationDirectionKey) -> (d: MotorDirection)
        ensures
            d == self.spec_using(key),
    {
        match (self, key) {
            (TrackingDirection::WithTracking, RotationDirectionKey::Northern) => MotorDirection::Clockwise,
            (TrackingDirection::WithTracking, RotationDirectionKey::Southern) => MotorDirection::CounterClockwise,
            (TrackingDirection::AgainstTracking, RotationDirectionKey::Northern) => MotorDirection::CounterClockwise,
            (TrackingDirection::AgainstTracking, RotationDirectionKey::Southern) => MotorDirection::Clockwise,
        }
    }

    pub open spec fn spec_opposite(self) -> TrackingDirection {
        match self {
            TrackingDirection::WithTracking => TrackingDirection::AgainstTracking,
            TrackingDirection::AgainstTracking => TrackingDirection::WithTracking,
        }
    }
}

impl GuideDirection {
    /// A guide pulse to the west speeds the right ascension motor up (with the
    /// tracking motion), one to the east slows it (against it).
    pub open spec fn spec_tracking_direction(self) -> TrackingDirection
        recommends
            self == GuideDirection::East || self == GuideDirection::West,
    {
        if self == GuideDirection::West {
            TrackingDirection::WithTracking
        } else {
            TrackingDirection::AgainstTracking
        }
    }

    /// The sky direction of an east or west guide pulse.
    pub fn tracking_direction(&self) -> (t: TrackingDirection)
        requires
            *self == GuideDirection::East || *self == GuideDirection::West,
        ensures
            t == self.spec_tracking_direction(),
    {
        match self {
            GuideDirection::West => TrackingDirection::WithTracking,
            _ => TrackingDirection::AgainstTracking,
        }
    }

    /// The motor direction of an east or west guide pulse.
    pub fn using(&self, key: RotationDirectionKey) -> (d: MotorDirection)
        requires
            *self == GuideDirection::East || *self == GuideDirection::West,
        ensures
            d == self.spec_tracking_direction().spec_using(key),
    {
        self.tracking_direction().using(key)
    }
}

/// A signed rate of motion of the motor: its magnitude in picodegrees per
/// second and a direction. A zero rate has no direction of its own.
#[derive(Debug, Clone, Copy, PartialEq, Eq, Structural)]
pub struct MotionRate {
    velocity: i64,
}

impl MotionRate {
    /// The signed rate: positive clockwise, negative counter-clockwise.
    pub closed spec fn velocity(self) -> int {
        self.velocity as int
    }

    /// The magnitude of the rate.
    pub open spec fn spec_rate(self) -> int {
        if self.velocity() < 0 {
            -self.velocity()
        } else {
            self.velocity()
        }
    }

    /// The direction of the rate (a zero rate counts as clockwise).
    pub open spec fn spec_direction(self) -> MotorDirection {
        if self.velocity() < 0 {
            MotorDirection::CounterClockwise
        } else {
            MotorDirection::Clockwise
        }
    }

    pub open spec fn spec_is_zero(self) -> bool {
        self.velocity() == 0
    }

    /// The rate with the given signed value (in the range of `i64`).
    pub closed spec fn from_velocity(v: int) -> MotionRate {
        MotionRate { velocity: v as i64 }
    }

    /// The rate of no motion.
    pub open spec fn spec_zero() -> MotionRate {
        Self::from_velocity(0)
    }

    /// A signed value in range is the value of the rate made from it.
    pub proof fn lemma_from_velocity(v: int)
        requires
            i64::MIN <= v <= i64::MAX,
        ensures
            Self::from_velocity(v).velocity() == v,
    {
    }

    /// Every rate is the rate made from its own signed value.
    pub proof fn lemma_from_own_velocity(r: MotionRate)
        ensures
            Self::from_velocity(r.velocity()) == r,
    {
    }

    /// Two rates are the same exactly when their signed rates are.
    pub proof fn lemma_eq_by_velocity(a: MotionRate, b: MotionRate)
        ensures
            a == b <==> a.velocity() == b.velocity(),
    {
    }

    /// No motion.
    pub fn zero() -> (r: MotionRate)
        ensures
            r.velocity() == 0,
            r == Self::spec_zero(),
    {
        MotionRate { velocity: 0 }
    }

    /// A rate of the given magnitude in the given direction.
    pub fn new(rate: u64, direction: MotorDirection) -> (r: MotionRate)
        requires
            rate <= i64::MAX,
        ensures
            r.velocity() == direction.spec_sign() * rate,
    {
        match direction {
            MotorDirection::Clockwise => MotionRate { velocity: rate as i64 },
            MotorDirection::CounterClockwise => MotionRate { velocity: -(rate as i64) },
        }
    }

    /// The rate of a tracking drive, turning with the tracking motion.
    pub fn tracking(rate: TrackingRate, key: RotationDirectionKey) -> (r: MotionRate)
        ensures
            r.velocity() == TrackingDirection::WithTracking.spec_using(key).spec_sign()
                * rate.spec_rate_pdeg(),
    {
        Self::new(rate.rate_pdeg(), TrackingDirection::WithTracking.using(key))
    }

    /// The magnitude of the rate.
    pub fn rate(&self) -> (r: u64)
        ensures
            r == self.spec_rate(),
    {
        if self.velocity < 0 {
            (0 - (self.velocity as i128)) as u64
        } else {
            self.velocity as u64
        }
    }

    /// The direction of the rate.
    pub fn direction(&self) -> (d: MotorDirection)
        ensures
            d == self.spec_direction(),
    {
        if self.velocity < 0 {
            MotorDirection::CounterClockwise
        } else {
            MotorDirection::Clockwise
        }
    }

    /// True when the motor does not move at this rate.
    pub fn is_zero(&self) -> (z: bool)
        ensures
            z == self.spec_is_zero(),
    {
        self.velocity == 0
    }

    /// Replaces the magnitude, keeping the direction.
    pub fn set_rate(&mut self, rate: u64)
        requires
            rate <= i64::MAX,
        ensures
            final(self).velocity() == old(self).spec_direction().spec_sign() * rate,
    {
        *self = Self::new(rate, self.direction());
    }

    /// The sum of two rates, as a guide pulse adds its rate to the tracking one.
    pub fn plus(&self, other: &MotionRate) -> (r: MotionRate)
        requires
            i64::MIN <= self.velocity() + other.velocity() <= i64::MAX,
        ensures
            r.velocity() == self.velocity() + other.velocity(),
    {
        MotionRate { velocity: self.velocity + other.velocity }
    }

    /// The difference of two rates, as the end of a guide pulse takes its rate away.
    pub fn minus(&self, other: &MotionRate) -> (r: MotionRate)
        requires
            i64::MIN <= self.velocity() - other.velocity() <= i64::MAX,
        ensures
            r.velocity() == self.velocity() - other.velocity(),
    {
        MotionRate { velocity: self.velocity - other.velocity }
    }
}

/// Adding a rate and taking it away again gives back the rate one started from:
/// the motor returns to its tracking rate at the end of a guide pulse.
pub proof fn lemma_plus_minus_cancel(base: MotionRate, pulse: MotionRate, sum: MotionRate, back: MotionRate)
    requires
        sum.velocity() == base.velocity() + pulse.velocity(),
        back.velocity() == sum.velocity() - pulse.velocity(),
    ensures
        back == base,
{
    MotionRate::lemma_eq_by_velocity(back, base);
}

/// The two hemispheres turn the motor in opposite directions for the same sky motion.
pub proof fn lemma_hemispheres_mirror(t: TrackingDirection)
    ensures
        t.spec_using(RotationDirectionKey::Northern) == t.spec_using(RotationDirectionKey::Southern).spec_reversed(),
        t.spec_opposite().spec_using(RotationDirectionKey::Northern) == t.spec_using(RotationDirectionKey::Northern).spec_reversed(),
{
}

} // verus!
