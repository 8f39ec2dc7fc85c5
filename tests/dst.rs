use wwvb::dst::{dst_status, Dst};

// Offsets in seconds east of UTC for a zone at UTC-5 with DST at UTC-4.
const WINTER: i32 = -5 * 3600;
const SUMMER: i32 = -4 * 3600;

#[test]
fn dst_not_in_effect_in_winter() {
    assert_eq!(dst_status(WINTER, SUMMER, WINTER, WINTER), Dst::NotInEffect);
}

#[test]
fn dst_in_effect_in_summer() {
    assert_eq!(dst_status(WINTER, SUMMER, SUMMER, SUMMER), Dst::InEffect);
}

#[test]
fn dst_starts_on_spring_transition_day() {
    assert_eq!(dst_status(WINTER, SUMMER, WINTER, SUMMER), Dst::StartsToday);
}

#[test]
fn dst_ends_on_autumn_transition_day() {
    assert_eq!(dst_status(WINTER, SUMMER, SUMMER, WINTER), Dst::EndsToday);
}

#[test]
fn zone_without_dst_never_observes_it() {
    assert_eq!(dst_status(0, 0, 0, 3600), Dst::NotInEffect);
    assert_eq!(dst_status(3600, 3600, 3600, 3600), Dst::NotInEffect);
}
