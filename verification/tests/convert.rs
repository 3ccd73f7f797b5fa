use imgdedup::convert::to_display_id;

#[test]
fn strips_large_group_prefix() {
    assert_eq!(to_display_id(-1001234567890), 1234567890);
}

#[test]
fn small_negative_unchanged() {
    assert_eq!(to_display_id(-99), -99);
}

#[test]
fn positive_unchanged() {
    assert_eq!(to_display_id(42), 42);
}

#[test]
fn minimum_value_no_panic() {
    // 9223372036854775808 starts with 922, not 100: unchanged.
    assert_eq!(to_display_id(i64::MIN), i64::MIN);
}

#[test]
fn exactly_minus_one_hundred() {
    // The digits are just the prefix itself; nothing remains.
    assert_eq!(to_display_id(-100), 0);
}

#[test]
fn short_prefixed_id() {
    assert_eq!(to_display_id(-1009), 9);
}

#[test]
fn prefix_101_unchanged() {
    assert_eq!(to_display_id(-101234), -101234);
}

#[test]
fn zero_unchanged() {
    assert_eq!(to_display_id(0), 0);
}
