use star_adventurer::enums::TrackingRate;

#[test]
fn lib_test_slew() {}

#[test]
fn step_period_round_trip() {
    let p = TrackingRate::Sidereal.determine_step_period(64935, 50688);
    assert_eq!(
        TrackingRate::determine_from_period(p, 64935, 50688),
        Some(TrackingRate::Sidereal)
    );
}
