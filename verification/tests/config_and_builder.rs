//! The configuration builder: defaults, setters, snapshots.

use simplelog::render::render_to_string;
use simplelog::time_pattern_is_valid;
use simplelog::Color;
use simplelog::Config;
use simplelog::ConfigBuilder;
use simplelog::Level;
use simplelog::LevelFilter;
use simplelog::LevelPadding;
use simplelog::LineEnding;
use simplelog::LogRecord;
use simplelog::TargetPadding;
use simplelog::ThreadLogMode;
use simplelog::ThreadPadding;
use simplelog::TimeFormat;

#[test]
fn default_thresholds() {
    let c = Config::default();
    assert_eq!(c.time, LevelFilter::Error);
    assert_eq!(c.level, LevelFilter::Error);
    assert_eq!(c.thread, LevelFilter::Debug);
    assert_eq!(c.target, LevelFilter::Debug);
    assert_eq!(c.location, LevelFilter::Trace);
    assert_eq!(c.line_ending, LineEnding::LF);
    assert_eq!(c.thread_log_mode, ThreadLogMode::IDs);
    assert!(matches!(c.level_padding, LevelPadding::Off));
    assert!(matches!(c.thread_padding, ThreadPadding::Off));
    assert!(matches!(c.target_padding, TargetPadding::Off));
    assert_eq!(c.time_offset, 0);
    assert!(c.filter_allow.is_empty());
    assert!(c.filter_ignore.is_empty());
    assert!(!c.write_log_enable_colors);
    match &c.time_format {
        TimeFormat::Custom(p) => assert_eq!(p, "[hour]:[minute]:[second]"),
        _ => panic!("default time format should be the custom pattern"),
    }
}

#[test]
fn default_color_table_has_one_slot_per_level() {
    let c = Config::default();
    assert_eq!(c.level_color.len(), 6);
    assert_eq!(c.level_color[0], None);
    assert_eq!(c.level_color[1], Some(Color::Red));
    assert_eq!(c.level_color[2], Some(Color::Yellow));
    assert_eq!(c.level_color[3], Some(Color::Blue));
    assert_eq!(c.level_color[4], Some(Color::Cyan));
    assert_eq!(c.level_color[5], Some(Color::White));
}

#[test]
fn setters_update_their_field() {
    let mut b = ConfigBuilder::new();
    b.set_max_level(LevelFilter::Info)
        .set_time_level(LevelFilter::Off)
        .set_thread_level(LevelFilter::Trace)
        .set_target_level(LevelFilter::Error)
        .set_location_level(LevelFilter::Debug)
        .set_level_padding(LevelPadding::Left)
        .set_thread_padding(ThreadPadding::Right(4))
        .set_target_padding(TargetPadding::Left(10))
        .set_thread_mode(ThreadLogMode::Both)
        .set_line_ending(LineEnding::Crlf)
        .set_write_log_enable_colors(true);
    let c = b.build();
    assert_eq!(c.level, LevelFilter::Info);
    assert_eq!(c.time, LevelFilter::Off);
    assert_eq!(c.thread, LevelFilter::Trace);
    assert_eq!(c.target, LevelFilter::Error);
    assert_eq!(c.location, LevelFilter::Debug);
    assert!(matches!(c.level_padding, LevelPadding::Left));
    assert!(matches!(c.thread_padding, ThreadPadding::Right(4)));
    assert!(matches!(c.target_padding, TargetPadding::Left(10)));
    assert_eq!(c.thread_log_mode, ThreadLogMode::Both);
    assert_eq!(c.line_ending, LineEnding::Crlf);
    assert!(c.write_log_enable_colors);
}

#[test]
fn level_color_assignment() {
    let mut b = ConfigBuilder::new();
    b.set_level_color(Level::Error, Some(Color::Magenta));
    b.set_level_color(Level::Trace, None);
    let c = b.build();
    assert_eq!(c.level_color[1], Some(Color::Magenta));
    assert_eq!(c.level_color[5], None);
    // The untouched slots keep their defaults.
    assert_eq!(c.level_color[2], Some(Color::Yellow));
}

#[test]
fn filters_accumulate_and_clear() {
    let mut b = ConfigBuilder::new();
    b.add_filter_allow_str("app::net");
    b.add_filter_allow(String::from("app::db"));
    b.add_filter_ignore_str("app::db::noise");
    b.add_filter_ignore(String::from("vendor"));
    let c = b.build();
    assert_eq!(c.filter_allow, vec!["app::net", "app::db"]);
    assert_eq!(c.filter_ignore, vec!["app::db::noise", "vendor"]);
    b.clear_filter_allow();
    b.clear_filter_ignore();
    let c2 = b.build();
    assert!(c2.filter_allow.is_empty());
    assert!(c2.filter_ignore.is_empty());
}

#[test]
fn time_offset_is_validated() {
    let mut b = ConfigBuilder::new();
    assert!(b.set_time_offset(3600));
    assert_eq!(b.build().time_offset, 3600);
    assert!(b.set_time_offset(-93599));
    assert_eq!(b.build().time_offset, -93599);
    // Out of the representable range: refused, builder unchanged.
    assert!(!b.set_time_offset(100000));
    assert_eq!(b.build().time_offset, -93599);
}

#[test]
fn local_offset_leaves_builder_valid() {
    let mut b = ConfigBuilder::new();
    let ok = b.set_time_offset_to_local();
    let c = b.build();
    if !ok {
        assert_eq!(c.time_offset, 0);
    }
    assert!(c.time_offset >= -93599 && c.time_offset <= 93599);
}

#[test]
fn time_patterns_are_validated() {
    assert!(time_pattern_is_valid("[hour]:[minute]:[second]"));
    assert!(time_pattern_is_valid(""));
    assert!(!time_pattern_is_valid("[bogus"));
    assert!(!time_pattern_is_valid("[no_such_component]"));
}

#[test]
fn building_twice_renders_byte_identically() {
    // Idempotence: two snapshots of one builder state render the same
    // record to the same bytes.
    let mut b = ConfigBuilder::new();
    b.set_time_level(LevelFilter::Off)
        .set_level_padding(LevelPadding::Right)
        .set_thread_level(LevelFilter::Error)
        .set_thread_mode(ThreadLogMode::Names)
        .set_line_ending(LineEnding::Nel);
    b.add_filter_allow_str("app");
    let c1 = b.build();
    let c2 = b.build();
    let mut rec = LogRecord::new(Level::Warn, "app::net", "boom");
    rec.thread_name = Some(String::from("worker"));
    let out1 = render_to_string(&c1, &rec, "");
    let out2 = render_to_string(&c2, &rec, "");
    assert_eq!(out1, out2);
    assert_eq!(out1.as_bytes(), out2.as_bytes());
    assert!(!out1.is_empty());
}
