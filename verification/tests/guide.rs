use star_adventurer::config::AutoGuideSpeed;
use star_adventurer::enums::{GuideDirection, TrackingRate};
use star_adventurer::guide::{
    choose_guide_speed, guide_rate_ra, guide_speed_update, pulse_guide_rate, GuideRateChoice,
};
use star_adventurer::motion::{MotionRate, MotorDirection, RotationDirectionKey};

#[test]
fn guide_rates() {
    assert_eq!(guide_rate_ra(AutoGuideSpeed::Eighth, TrackingRate::Sidereal), 522_261_250);
    assert_eq!(guide_rate_ra(AutoGuideSpeed::Half, TrackingRate::Sidereal), 2_089_045_000);
    assert_eq!(guide_rate_ra(AutoGuideSpeed::One, TrackingRate::Lunar), 4_024_138_000);
}

#[test]
fn choosing_a_guide_speed() {
    let t = TrackingRate::Sidereal;
    for s in [
        AutoGuideSpeed::Eighth,
        AutoGuideSpeed::Quarter,
        AutoGuideSpeed::Half,
        AutoGuideSpeed::ThreeQuarters,
        AutoGuideSpeed::One,
    ] {
        assert_eq!(
            choose_guide_speed(t, guide_rate_ra(s, t) as i64),
            GuideRateChoice::Speed(s)
        );
    }
    // 0.6 of the tracking rate is closest to one half
    assert_eq!(
        choose_guide_speed(t, 2_506_854_000),
        GuideRateChoice::Speed(AutoGuideSpeed::Half)
    );
    // halfway between an eighth and a quarter, the slower speed wins
    let mid = (guide_rate_ra(AutoGuideSpeed::Eighth, t) + guide_rate_ra(AutoGuideSpeed::Quarter, t)) / 2;
    assert_eq!(
        choose_guide_speed(t, mid as i64),
        GuideRateChoice::Speed(AutoGuideSpeed::Eighth)
    );
    assert_eq!(
        choose_guide_speed(t, 10),
        GuideRateChoice::OutOfRange { lowest: 522_261_250, highest: 4_178_090_000 }
    );
    assert_eq!(
        choose_guide_speed(t, 5_000_000_000),
        GuideRateChoice::OutOfRange { lowest: 522_261_250, highest: 4_178_090_000 }
    );
    assert_eq!(
        choose_guide_speed(t, 4_500_000_000),
        GuideRateChoice::Speed(AutoGuideSpeed::One)
    );
}

#[test]
fn guide_pulse_rates() {
    let r = pulse_guide_rate(
        GuideDirection::East,
        AutoGuideSpeed::Half,
        TrackingRate::Sidereal,
        RotationDirectionKey::Northern,
    )
    .unwrap();
    assert_eq!(r, MotionRate::new(2_089_045_000, MotorDirection::CounterClockwise));
    let e = pulse_guide_rate(
        GuideDirection::North,
        AutoGuideSpeed::Half,
        TrackingRate::Sidereal,
        RotationDirectionKey::Northern,
    )
    .unwrap_err();
    assert_eq!(e.error_number(), 0x401);
    assert_eq!(e.error_message(), "Can't guide in declination");
}

#[test]
fn guide_speed_updates() {
    let sidereal: i64 = 4_178_090_000;
    // The full tracking rate asks for speed One; sent when the speed is Half
    assert_eq!(
        guide_speed_update(AutoGuideSpeed::Half, TrackingRate::Sidereal, sidereal),
        Ok(Some(AutoGuideSpeed::One))
    );
    // Nothing to send when the closest speed is the current one
    assert_eq!(guide_speed_update(AutoGuideSpeed::One, TrackingRate::Sidereal, sidereal), Ok(None));
    assert_eq!(
        guide_speed_update(AutoGuideSpeed::Half, TrackingRate::Sidereal, sidereal / 2),
        Ok(None)
    );
    // Out of range: refused with the bounds
    assert_eq!(
        guide_speed_update(AutoGuideSpeed::Half, TrackingRate::Sidereal, 2 * sidereal),
        Err(GuideRateChoice::OutOfRange { lowest: 522_261_250, highest: 4_178_090_000 })
    );
    assert_eq!(
        guide_speed_update(AutoGuideSpeed::Half, TrackingRate::Sidereal, 0),
        Err(GuideRateChoice::OutOfRange { lowest: 522_261_250, highest: 4_178_090_000 })
    );
}
