use star_adventurer::config::{is_false, AutoGuideSpeed, ComSettings};
use star_adventurer::enums::PierSide;

#[test]
fn defaults() {
    let c = ComSettings::default();
    assert!(c.path.is_none());
    assert_eq!(c.timeout_millis, 50);
    assert_eq!(AutoGuideSpeed::default(), AutoGuideSpeed::Half);
    assert!(is_false(&false));
    assert!(!is_false(&true));
}

#[test]
fn auto_guide_speed_text() {
    for s in [
        AutoGuideSpeed::Eighth,
        AutoGuideSpeed::Quarter,
        AutoGuideSpeed::Half,
        AutoGuideSpeed::ThreeQuarters,
        AutoGuideSpeed::One,
    ] {
        assert_eq!(AutoGuideSpeed::from_text(s.name()).unwrap(), s);
    }
    assert_eq!(AutoGuideSpeed::Quarter.eighths(), 2);
    assert_eq!(
        AutoGuideSpeed::from_text("2/3").unwrap_err(),
        "unknown auto-guide speed: \"2/3\""
    );
}

#[test]
fn pier_side_text() {
    assert_eq!(PierSide::from_text("East").unwrap(), PierSide::East);
    assert_eq!(PierSide::from_text("wEsT").unwrap(), PierSide::West);
    assert_eq!(PierSide::from_text(PierSide::West.name()).unwrap(), PierSide::West);
    assert_eq!(
        PierSide::from_text("north").unwrap_err(),
        "unknown pier side: \"north\""
    );
    assert_eq!(PierSide::from_action_parameter("east"), Some(PierSide::East));
    assert_eq!(PierSide::from_action_parameter("East"), None);
}
