use pool_config::Duration;

#[test]
fn seconds_sets_whole_seconds_only() {
    let d = Duration::seconds(42);
    assert_eq!(d.whole_seconds(), 42);
    assert_eq!(d.subsec_nanoseconds(), 0);
}

#[test]
fn new_keeps_both_parts() {
    let d = Duration::new(3, 250_000_000);
    assert_eq!(d.whole_seconds(), 3);
    assert_eq!(d.subsec_nanoseconds(), 250_000_000);
}

#[test]
fn zero_is_not_positive() {
    assert!(!Duration::zero().is_positive());
}

#[test]
fn negative_is_not_positive() {
    assert!(!Duration::seconds(-30).is_positive());
    assert!(!Duration::new(-1, -999_999_999).is_positive());
    assert!(!Duration::new(0, -1).is_positive());
}

#[test]
fn positive_durations_are_positive() {
    assert!(Duration::seconds(1).is_positive());
    assert!(Duration::new(0, 1).is_positive());
    assert!(Duration::new(0, 999_999_999).is_positive());
    assert!(Duration::seconds(i64::MAX).is_positive());
}

#[test]
fn equality_is_by_parts() {
    assert_eq!(Duration::seconds(5), Duration::new(5, 0));
    assert_ne!(Duration::seconds(5), Duration::new(5, 1));
    assert_ne!(Duration::seconds(5), Duration::seconds(6));
}

#[test]
fn debug_rendering_names_both_parts() {
    let mut out = String::new();
    Duration::seconds(30).append_debug(&mut out);
    assert_eq!(out, "Duration { secs: 30, nanos: 0 }");
}

#[test]
fn debug_rendering_of_negative_parts() {
    let mut out = String::new();
    Duration::new(-7, -500).append_debug(&mut out);
    assert_eq!(out, "Duration { secs: -7, nanos: -500 }");
}

#[test]
fn debug_rendering_of_extreme_seconds() {
    let mut out = String::new();
    Duration::seconds(i64::MIN).append_debug(&mut out);
    assert_eq!(
        out,
        "Duration { secs: -9223372036854775808, nanos: 0 }"
    );
    let mut out_max = String::new();
    Duration::seconds(i64::MAX).append_debug(&mut out_max);
    assert_eq!(
        out_max,
        "Duration { secs: 9223372036854775807, nanos: 0 }"
    );
}

#[test]
fn rendering_covers_every_digit() {
    let mut out = String::new();
    Duration::new(1234567890, 86420975).append_debug(&mut out);
    assert_eq!(out, "Duration { secs: 1234567890, nanos: 86420975 }");
}
