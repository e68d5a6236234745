use yoo::content::{greeting, hydration_reminder, random_index};

#[test]
fn greeting_contains_name() {
    assert!(greeting("Nihit", 123_456_789, 4_242).contains("Nihit"));
}

#[test]
fn content_is_never_empty() {
    assert!(!hydration_reminder(987_654_321, 77).is_empty());
}

#[test]
fn random_index_stays_within_bounds() {
    assert!(random_index(3, 42, 1_700_000_000_000_000_000, 31_337) < 3);
}

#[test]
fn the_clock_and_process_pick_the_greeting() {
    // 0 ^ (0 << 16) ^ 0xA3 = 163, and 163 % 5 = 3.
    assert_eq!(greeting("Ada", 0, 0), "Welcome back, Ada. Make something awesome. 🦀");
    // 0xB7 = 183, and 183 % 3 = 0.
    assert_eq!(
        hydration_reminder(0, 0),
        "Drink some water before the bug drinks your sanity."
    );
    assert_eq!(random_index(7, 0, 20, 0), 6);
}
