//! Levels, padding, decimal rendering and thread-id stripping.

use simplelog::text::pad_left;
use simplelog::text::pad_right;
use simplelog::text::str_starts_with;
use simplelog::text::strip_thread_id;
use simplelog::text::u32_to_string;
use simplelog::Level;
use simplelog::LevelFilter;

#[test]
fn level_ordinals_follow_verbosity() {
    assert_eq!(Level::Error.ord(), 1);
    assert_eq!(Level::Trace.ord(), 5);
    assert_eq!(LevelFilter::Off.ord(), 0);
    assert_eq!(LevelFilter::Trace.ord(), 5);
    assert_eq!(Level::Warn.to_level_filter(), LevelFilter::Warn);
}

#[test]
fn adapter_gate_accepts_at_most_threshold() {
    assert!(LevelFilter::Warn.passes(Level::Error));
    assert!(LevelFilter::Warn.passes(Level::Warn));
    assert!(!LevelFilter::Warn.passes(Level::Info));
    assert!(!LevelFilter::Off.passes(Level::Error));
    assert!(LevelFilter::Trace.passes(Level::Trace));
}

#[test]
fn field_gate_direction() {
    // A field gated at Trace appears only on Trace records; one gated at
    // Error appears on every record; Off never.
    assert!(LevelFilter::Error.shows_field(Level::Error));
    assert!(LevelFilter::Error.shows_field(Level::Trace));
    assert!(!LevelFilter::Trace.shows_field(Level::Error));
    assert!(LevelFilter::Trace.shows_field(Level::Trace));
    assert!(!LevelFilter::Off.shows_field(Level::Error));
}

#[test]
fn padding_yields_exactly_the_width() {
    // Padding of width W on a shorter string yields exactly W characters.
    assert_eq!(pad_left("abc", 8), "     abc");
    assert_eq!(pad_right("abc", 8), "abc     ");
    assert_eq!(pad_left("abc", 8).chars().count(), 8);
    assert_eq!(pad_right("abc", 8).chars().count(), 8);
}

#[test]
fn padding_never_truncates() {
    // A width at most the source length yields the unpadded source.
    assert_eq!(pad_left("abcdef", 3), "abcdef");
    assert_eq!(pad_right("abcdef", 3), "abcdef");
    assert_eq!(pad_left("abc", 3), "abc");
    assert_eq!(pad_right("abc", 3), "abc");
    assert_eq!(pad_left("", 0), "");
}

#[test]
fn decimal_rendering_is_exact() {
    assert_eq!(u32_to_string(0), "0");
    assert_eq!(u32_to_string(7), "7");
    assert_eq!(u32_to_string(105), "105");
    assert_eq!(u32_to_string(4294967295), "4294967295");
}

#[test]
fn thread_id_wrapper_is_stripped() {
    assert_eq!(strip_thread_id("ThreadId(12)"), "12");
    assert_eq!(strip_thread_id("7"), "7");
    assert_eq!(strip_thread_id("main"), "main");
    assert_eq!(strip_thread_id("a)b)"), "ab");
}

#[test]
fn prefix_test_is_literal() {
    assert!(str_starts_with("app::net::tcp", "app::net"));
    assert!(str_starts_with("app::net", "app::net"));
    assert!(!str_starts_with("app::db", "app::net"));
    assert!(!str_starts_with("ap", "app"));
    assert!(str_starts_with("anything", ""));
}

#[test]
fn max_verbosity_picks_the_more_verbose() {
    assert_eq!(
        LevelFilter::Warn.max_verbosity(LevelFilter::Trace),
        LevelFilter::Trace
    );
    assert_eq!(
        LevelFilter::Off.max_verbosity(LevelFilter::Error),
        LevelFilter::Error
    );
    assert!(LevelFilter::Debug.passes(Level::Info));
}
