use star_adventurer::enums::{PierSide, TrackingRate};

#[test]
fn step_periods_of_the_tracking_rates() {
    assert_eq!(TrackingRate::Sidereal.determine_step_period(64935, 50688), 110382);
    assert_eq!(TrackingRate::Lunar.determine_step_period(64935, 50688), 114605);
    assert_eq!(TrackingRate::Solar.determine_step_period(64935, 50688), 110685);
    assert_eq!(TrackingRate::King.determine_step_period(64935, 50688), 110413);
    assert_eq!(TrackingRate::Sidereal.determine_step_period(1, 1), 86164);
    assert_eq!(TrackingRate::Solar.determine_step_period(1, 1), 86400);
}

#[test]
fn step_period_saturates_and_handles_zero_steps() {
    assert_eq!(TrackingRate::Sidereal.determine_step_period(64935, 1), u32::MAX);
    assert_eq!(TrackingRate::Sidereal.determine_step_period(64935, 0), u32::MAX);
    assert_eq!(TrackingRate::King.determine_step_period(0, 0), 0);
    assert_eq!(TrackingRate::Lunar.determine_step_period(0, 100), 0);
}

#[test]
fn period_recognition() {
    for r in [
        TrackingRate::Sidereal,
        TrackingRate::Lunar,
        TrackingRate::Solar,
        TrackingRate::King,
    ] {
        let p = r.determine_step_period(64935, 50688);
        assert_eq!(TrackingRate::determine_from_period(p, 64935, 50688), Some(r));
    }
    assert_eq!(TrackingRate::determine_from_period(1234, 64935, 50688), None);
    // when every period saturates, the first rate in the order is recognised
    let p = TrackingRate::King.determine_step_period(64935, 1);
    assert_eq!(
        TrackingRate::determine_from_period(p, 64935, 1),
        Some(TrackingRate::Sidereal)
    );
}

#[test]
fn tracking_rates_in_picodegrees() {
    assert_eq!(TrackingRate::Sidereal.rate_pdeg(), 4_178_090_000);
    assert_eq!(TrackingRate::Lunar.rate_pdeg(), 4_024_138_000);
    assert_eq!(TrackingRate::Solar.rate_pdeg(), 4_166_650_000);
    assert_eq!(TrackingRate::King.rate_pdeg(), 4_176_920_000);
}

#[test]
fn pier_side_codes_and_flips() {
    assert_eq!(PierSide::Unknown.code(), -1);
    assert_eq!(PierSide::East.code(), 0);
    assert_eq!(PierSide::West.code(), 1);
    assert_eq!(PierSide::from_code(1), Some(PierSide::West));
    assert_eq!(PierSide::from_code(2), None);
    assert_eq!(PierSide::East.opposite(), PierSide::West);
    assert_eq!(PierSide::Unknown.opposite(), PierSide::Unknown);
    let mut p = PierSide::West;
    p.flip();
    assert_eq!(p, PierSide::East);
    p.flip();
    assert_eq!(p, PierSide::West);
}

#[test]
fn tracking_rate_codes_round_trip() {
    for t in [TrackingRate::Sidereal, TrackingRate::Lunar, TrackingRate::Solar, TrackingRate::King] {
        assert_eq!(TrackingRate::from_code(t.code()).ok(), Some(t));
    }
    assert_eq!(TrackingRate::King.code(), 3);
    let e = TrackingRate::from_code(4).unwrap_err();
    assert_eq!(e.error_message(), "Invalid Tracking Rate");
    assert_eq!(e.error_number(), 0x401);
    assert!(TrackingRate::from_code(-1).is_err());
}

#[test]
fn pier_side_codes_round_trip() {
    for p in [PierSide::East, PierSide::West, PierSide::Unknown] {
        assert_eq!(PierSide::from_code(p.code()), Some(p));
    }
}
