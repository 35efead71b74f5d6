use glwindow::context::fallback;
use glwindow::context::first_level;
use glwindow::context::ApiLevel;

#[test]
fn chain_starts_with_the_modern_level() {
    assert_eq!(first_level(), ApiLevel::Modern);
}

#[test]
fn chain_falls_back_to_embedded_then_legacy_two_one() {
    assert_eq!(fallback(ApiLevel::Modern), Some(ApiLevel::Embedded));
    assert_eq!(fallback(ApiLevel::Embedded), Some(ApiLevel::Legacy { major: 2, minor: 1 }));
}

#[test]
fn chain_ends_after_the_legacy_level() {
    assert_eq!(fallback(ApiLevel::Legacy { major: 2, minor: 1 }), None);
    assert_eq!(fallback(ApiLevel::Legacy { major: 3, minor: 3 }), None);
}

#[test]
fn chain_has_three_levels() {
    let mut level = Some(first_level());
    let mut count = 0;
    while let Some(current) = level {
        count += 1;
        level = fallback(current);
    }
    assert_eq!(count, 3);
}
