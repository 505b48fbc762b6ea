//! Auto-guiding: the guide rate of the right ascension axis, the choice of
//! the controller's guide speed for a requested rate, and guide pulses.
use vstd::prelude::*;
use crate::config::AutoGuideSpeed;
use crate::enums::{GuideDirection, TrackingRate};
use crate::errors::AlpacaError;
use crate::motion::{MotionRate, RotationDirectionKey};

verus! {

/// The guide rate of a speed at a tracking rate, in picodegrees per second:
/// the speed's fraction of the tracking rate.
pub open spec fn spec_guide_rate(speed: AutoGuideSpeed, tracking: TrackingRate) -> int {
    tracking.spec_rate_pdeg() * speed.spec_eighths() / 8
}

/// The right ascension guide rate in picodegrees per second.
pub fn guide_rate_ra(speed: AutoGuideSpeed, tracking: TrackingRate) -> (r: u64)
    ensures
        r == spec_guide_rate(speed, tracking),
{
    let e = speed.eighths();
    let t = tracking.rate_pdeg();
    assert(t * e <= 4_178_090_000 * 8) by (nonlinear_arith)
        requires
            t <= 4_178_090_000,
            e <= 8,
    ;
    t * e / 8
}

/// How far a speed's guide rate is from a requested rate.
pub open spec fn spec_distance(speed: AutoGuideSpeed, tracking: TrackingRate, rate: int) -> int {
    let g = spec_guide_rate(speed, tracking);
    if g >= rate {
        g - rate
    } else {
        rate - g
    }
}

/// True when a requested guide rate lies in the range the controller can guide
/// at: from nine tenths of the slowest guide rate to eleven tenths of the
/// fastest one.
pub open spec fn spec_guide_rate_acceptable(tracking: TrackingRate, rate: int) -> bool {
    let lowest = spec_guide_rate(AutoGuideSpeed::Eighth, tracking);
    let highest = spec_guide_rate(AutoGuideSpeed::One, tracking);
    !(10 * rate < 9 * lowest || 11 * highest < 10 * rate)
}

/// The speed whose guide rate is closest to the requested rate; the slower one
/// of two equally close speeds.
pub open spec fn spec_is_best_speed(s: AutoGuideSpeed, tracking: TrackingRate, rate: int) -> bool {
    &&& forall|c: AutoGuideSpeed| spec_distance(s, tracking, rate) <= #[trigger] spec_distance(c, tracking, rate)
    &&& forall|c: AutoGuideSpeed| c.spec_eighths() < s.spec_eighths() ==> spec_distance(s, tracking, rate) < #[trigger] spec_distance(c, tracking, rate)
}

/// The answer to a request for a guide rate.
#[derive(Debug, Clone, Copy, PartialEq, Eq, Structural)]
pub enum GuideRateChoice {
    /// The rate is out of range; the bounds of the range, in picodegrees per second.
    OutOfRange { lowest: u64, highest: u64 },
    /// The speed to use.
    Speed(AutoGuideSpeed),
}

/// Distance between a speed's guide rate and a requested rate.
fn distance(speed: AutoGuideSpeed, tracking: TrackingRate, rate: i64) -> (d: u128)
    ensures
        d == spec_distance(speed, tracking, rate as int),
{
    let g = guide_rate_ra(speed, tracking) as i128;
    let r = rate as i128;
    if g >= r {
        (g - r) as u128
    } else {
        (r - g) as u128
    }
}

/// Chooses the controller's guide speed for a requested guide rate, in
/// picodegrees per second: the one whose guide rate is closest to it, the
/// slower one of two equally close ones; a rate out of range is refused.
pub fn choose_guide_speed(tracking: TrackingRate, rate: i64) -> (c: GuideRateChoice)
    ensures
        !spec_guide_rate_acceptable(tracking, rate as int) ==> c == (GuideRateChoice::OutOfRange {
            lowest: spec_guide_rate(AutoGuideSpeed::Eighth, tracking) as u64,
            highest: spec_guide_rate(AutoGuideSpeed::One, tracking) as u64,
        }),
        spec_guide_rate_acceptable(tracking, rate as int) ==> (c matches GuideRateChoice::Speed(s)
            && spec_is_best_speed(s, tracking, rate as int)),
{
    let lowest = guide_rate_ra(AutoGuideSpeed::Eighth, tracking);
    let highest = guide_rate_ra(AutoGuideSpeed::One, tracking);
    let r = rate as i128;
    if 10 * r < 9 * (lowest as i128) || 11 * (highest as i128) < 10 * r {
        return GuideRateChoice::OutOfRange { lowest, highest };
    }
    let d1 = distance(AutoGuideSpeed::Eighth, tracking, rate);
    let d2 = distance(AutoGuideSpeed::Quarter, tracking, rate);
    let d4 = distance(AutoGuideSpeed::Half, tracking, rate);
    let d6 = distance(AutoGuideSpeed::ThreeQuarters, tracking, rate);
    let d8 = distance(AutoGuideSpeed::One, tracking, rate);
    let mut best = AutoGuideSpeed::Eighth;
    let mut best_d = d1;
    if d2 < best_d {
        best = AutoGuideSpeed::Quarter;
        best_d = d2;
    }
    if d4 < best_d {
        best = AutoGuideSpeed::Half;
        best_d = d4;
    }
    if d6 < best_d {
        best = AutoGuideSpeed::ThreeQuarters;
        best_d = d6;
    }
    if d8 < best_d {
        best = AutoGuideSpeed::One;
        best_d = d8;
    }
    assert forall|c: AutoGuideSpeed| spec_distance(best, tracking, rate as int) <= #[trigger] spec_distance(c, tracking, rate as int) by {
        match c {
            AutoGuideSpeed::Eighth => {},
            AutoGuideSpeed::Quarter => {},
            AutoGuideSpeed::Half => {},
            AutoGuideSpeed::ThreeQuarters => {},
            AutoGuideSpeed::One => {},
        }
    }
    assert forall|c: AutoGuideSpeed| c.spec_eighths() < best.spec_eighths() implies spec_distance(best, tracking, rate as int) < #[trigger] spec_distance(c, tracking, rate as int) by {
        match c {
            AutoGuideSpeed::Eighth => {},
            AutoGuideSpeed::Quarter => {},
            AutoGuideSpeed::Half => {},
            AutoGuideSpeed::ThreeQuarters => {},
            AutoGuideSpeed::One => {},
        }
    }
    GuideRateChoice::Speed(best)
}

/// Decides a request for a guide rate, in picodegrees per second, given the
/// guide speed the controller has now: a rate out of range is refused with the
/// bounds of the range; otherwise the closest speed (the slower one of two
/// equally close ones) is chosen, and it is to be sent to the controller, and
/// stored once sent, only when it differs from the current speed (`None` when
/// nothing is to be sent).
pub fn guide_speed_update(current: AutoGuideSpeed, tracking: TrackingRate, rate: i64) -> (r: Result<
    Option<AutoGuideSpeed>,
    GuideRateChoice,
>)
    ensures
        !spec_guide_rate_acceptable(tracking, rate as int) ==> r == Err::<Option<AutoGuideSpeed>, GuideRateChoice>(
            GuideRateChoice::OutOfRange {
                lowest: spec_guide_rate(AutoGuideSpeed::Eighth, tracking) as u64,
                highest: spec_guide_rate(AutoGuideSpeed::One, tracking) as u64,
            },
        ),
        spec_guide_rate_acceptable(tracking, rate as int) && spec_is_best_speed(current, tracking, rate as int)
            ==> r == Ok::<Option<AutoGuideSpeed>, GuideRateChoice>(None),
        spec_guide_rate_acceptable(tracking, rate as int) && !spec_is_best_speed(current, tracking, rate as int)
            ==> (r matches Ok(Some(s)) && s != current && spec_is_best_speed(s, tracking, rate as int)),
{
    match choose_guide_speed(tracking, rate) {
        GuideRateChoice::OutOfRange { lowest, highest } => Err(GuideRateChoice::OutOfRange { lowest, highest }),
        GuideRateChoice::Speed(best) => {
            proof {
                if spec_is_best_speed(current, tracking, rate as int) {
                    lemma_best_speed_unique(best, current, tracking, rate as int);
                }
            }
            if best == current {
                Ok(None)
            } else {
                Ok(Some(best))
            }
        },
    }
}

/// At most one speed is the best for a rate.
pub proof fn lemma_best_speed_unique(a: AutoGuideSpeed, b: AutoGuideSpeed, tracking: TrackingRate, rate: int)
    requires
        spec_is_best_speed(a, tracking, rate),
        spec_is_best_speed(b, tracking, rate),
    ensures
        a == b,
{
    assert(spec_distance(a, tracking, rate) <= spec_distance(b, tracking, rate));
    assert(spec_distance(b, tracking, rate) <= spec_distance(a, tracking, rate));
    if a.spec_eighths() < b.spec_eighths() {
        assert(spec_distance(b, tracking, rate) < spec_distance(a, tracking, rate));
    } else if b.spec_eighths() < a.spec_eighths() {
        assert(spec_distance(a, tracking, rate) < spec_distance(b, tracking, rate));
    } else {
        assert(a.spec_eighths() == b.spec_eighths());
        match a {
            AutoGuideSpeed::Eighth => {},
            AutoGuideSpeed::Quarter => {},
            AutoGuideSpeed::Half => {},
            AutoGuideSpeed::ThreeQuarters => {},
            AutoGuideSpeed::One => {},
        }
    }
}

/// The rate of a guide pulse: the guide rate, turning the motor the way the
/// pulse moves across the sky. Pulses in declination are refused: the mount
/// only drives its right ascension axis.
pub fn pulse_guide_rate(
    direction: GuideDirection,
    speed: AutoGuideSpeed,
    tracking: TrackingRate,
    key: RotationDirectionKey,
) -> (r: Result<MotionRate, AlpacaError>)
    ensures
        (direction == GuideDirection::North || direction == GuideDirection::South) ==> (r matches Err(
            e,
        ) && e.number() == crate::errors::ErrorType::InvalidValue.spec_code() && e.message()
            == "Can't guide in declination"@),
        (direction == GuideDirection::East || direction == GuideDirection::West) ==> (r matches Ok(
            m,
        ) && m.velocity() == direction.spec_tracking_direction().spec_using(key).spec_sign()
            * spec_guide_rate(speed, tracking)),
{
    if direction == GuideDirection::North || direction == GuideDirection::South {
        return Err(AlpacaError::invalid_value("Can't guide in declination"));
    }
    let g = guide_rate_ra(speed, tracking);
    Ok(MotionRate::new(g, direction.using(key)))
}

} // verus!
