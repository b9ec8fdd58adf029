//! The renderer: exact lines, field gating, filters, line endings.

use simplelog::render::render_to_string;
use simplelog::render::should_skip;
use simplelog::render::write_args;
use simplelog::render::write_level;
use simplelog::render::write_location;
use simplelog::render::write_module_path;
use simplelog::render::write_target;
use simplelog::render::write_thread_id;
use simplelog::render::write_thread_name;
use simplelog::Color;
use simplelog::RenderOp;
use simplelog::ConfigBuilder;
use simplelog::Level;
use simplelog::LevelFilter;
use simplelog::LevelPadding;
use simplelog::LineEnding;
use simplelog::LogRecord;
use simplelog::TargetPadding;
use simplelog::ThreadLogMode;
use simplelog::ThreadPadding;

fn record(level: Level, target: &str, message: &str) -> LogRecord {
    LogRecord::new(level, target, message)
}

fn no_time() -> ConfigBuilder {
    let mut b = ConfigBuilder::new();
    b.set_time_level(LevelFilter::Off);
    b
}

#[test]
fn error_record_renders_level_and_message() {
    let c = no_time().build();
    let out = render_to_string(&c, &record(Level::Error, "app::net", "boom"), "");
    assert_eq!(out, "[ERROR] boom\n");
}

#[test]
fn debug_record_shows_thread_target_and_separator() {
    let c = no_time().build();
    let mut rec = record(Level::Debug, "app::db", "hello");
    rec.thread_id = String::from("ThreadId(7)");
    let out = render_to_string(&c, &rec, "");
    assert_eq!(out, "[DEBUG] (7) app::db: hello\n");
}

#[test]
fn trace_record_shows_bracketed_location() {
    let c = no_time().build();
    let mut rec = record(Level::Trace, "app::db", "hello");
    rec.thread_id = String::from("ThreadId(7)");
    rec.file = Some(String::from("lib.rs"));
    rec.line = Some(100);
    let out = render_to_string(&c, &rec, "");
    assert_eq!(out, "[TRACE] (7) app::db: [lib.rs:100] hello\n");
    // A less verbose record carries neither the location nor its brackets.
    let mut debug_rec = record(Level::Debug, "app::db", "hello");
    debug_rec.thread_id = String::from("ThreadId(7)");
    let debug_out = render_to_string(&c, &debug_rec, "");
    assert_eq!(debug_out, "[DEBUG] (7) app::db: hello\n");
}

#[test]
fn time_text_is_placed_first() {
    // The renderer is pure in the time text handed to it.
    let c = ConfigBuilder::new().build();
    let out = render_to_string(&c, &record(Level::Error, "app", "boom"), "12:34:56");
    assert_eq!(out, "12:34:56 [ERROR] boom\n");
}

#[test]
fn field_present_iff_threshold_admits_level() {
    // Raising a field's threshold shows it only on more verbose records,
    // and Off hides it unconditionally.
    let mut b = no_time();
    b.set_thread_level(LevelFilter::Off);
    b.set_target_level(LevelFilter::Error);
    let c = b.build();
    let mut rec = record(Level::Error, "app::net", "boom");
    rec.thread_id = String::from("ThreadId(3)");
    let out = render_to_string(&c, &rec, "");
    // Target is now shown even on an error record; thread never. The
    // default format puts no space around the target itself.
    assert_eq!(out, "[ERROR]app::net boom\n");
}

#[test]
fn level_field_respects_padding() {
    let mut b = no_time();
    b.set_level_padding(LevelPadding::Left);
    let c = b.build();
    let out = render_to_string(&c, &record(Level::Warn, "app", "x"), "");
    assert_eq!(out, "[ WARN] x\n");
    let mut b2 = no_time();
    b2.set_level_padding(LevelPadding::Right);
    let c2 = b2.build();
    let out2 = render_to_string(&c2, &record(Level::Info, "app", "x"), "");
    assert_eq!(out2, "[INFO ] x\n");
}

#[test]
fn allow_list_suppresses_other_targets() {
    // Allow-list: no entry a prefix of the target suppresses the record
    // entirely; a prefix match admits it.
    let mut b = no_time();
    b.add_filter_allow_str("app::net");
    let c = b.build();
    let suppressed = render_to_string(&c, &record(Level::Error, "app::db", "boom"), "");
    assert_eq!(suppressed, "");
    let emitted = render_to_string(&c, &record(Level::Error, "app::net::tcp", "boom"), "");
    assert_eq!(emitted, "[ERROR] boom\n");
}

#[test]
fn deny_list_wins_even_when_allowed() {
    let mut b = no_time();
    b.add_filter_allow_str("app");
    b.add_filter_ignore_str("app::db");
    let c = b.build();
    let suppressed = render_to_string(&c, &record(Level::Error, "app::db::conn", "boom"), "");
    assert_eq!(suppressed, "");
    assert!(should_skip(&c, &record(Level::Error, "app::db::conn", "boom")));
    let emitted = render_to_string(&c, &record(Level::Error, "app::net", "boom"), "");
    assert_eq!(emitted, "[ERROR] boom\n");
}

#[test]
fn every_line_ending_terminates_the_message() {
    let cases = vec![
        (LineEnding::LF, "\u{000A}"),
        (LineEnding::CR, "\u{000D}"),
        (LineEnding::Crlf, "\u{000D}\u{000A}"),
        (LineEnding::VT, "\u{000B}"),
        (LineEnding::FF, "\u{000C}"),
        (LineEnding::Nel, "\u{0085}"),
        (LineEnding::LS, "\u{2028}"),
        (LineEnding::PS, "\u{2029}"),
    ];
    for (ending, expected) in cases {
        let mut b = no_time();
        b.set_line_ending(ending);
        let c = b.build();
        let out = render_to_string(&c, &record(Level::Error, "app", "boom"), "");
        assert_eq!(out, format!("[ERROR] boom{}", expected));
        assert!(out.ends_with(expected));
    }
}

#[test]
fn target_padding_applies() {
    let mut b = no_time();
    b.set_target_level(LevelFilter::Error);
    b.set_target_padding(TargetPadding::Left(8));
    let c = b.build();
    let out = render_to_string(&c, &record(Level::Error, "app", "x"), "");
    assert_eq!(out, "[ERROR]     app x\n");
}

#[test]
fn thread_modes_and_padding() {
    let mut rec = record(Level::Debug, "t", "m");
    rec.thread_id = String::from("ThreadId(12)");
    rec.thread_name = Some(String::from("worker"));

    let mut b = no_time();
    b.set_thread_mode(ThreadLogMode::IDs);
    assert_eq!(write_thread_id(&b.build(), &rec), "(12)");

    b.set_thread_mode(ThreadLogMode::Names);
    assert_eq!(write_thread_name(&b.build(), &rec), "(worker)");

    // An unnamed thread logs nothing in name mode, its id in both mode.
    rec.thread_name = None;
    assert_eq!(write_thread_name(&b.build(), &rec), "");
    b.set_thread_mode(ThreadLogMode::Both);
    assert_eq!(write_thread_name(&b.build(), &rec), "(12)");

    b.set_thread_padding(ThreadPadding::Right(4));
    assert_eq!(write_thread_id(&b.build(), &rec), "(12  )");
    b.set_thread_padding(ThreadPadding::Left(4));
    assert_eq!(write_thread_id(&b.build(), &rec), "(  12)");
}

#[test]
fn location_placeholders() {
    let mut rec = record(Level::Trace, "t", "m");
    assert_eq!(write_location(&rec), "<unknown>:<unknown>");
    rec.file = Some(String::from("lib.rs"));
    assert_eq!(write_location(&rec), "lib.rs:<unknown>");
    rec.line = Some(42);
    assert_eq!(write_location(&rec), "lib.rs:42");
    rec.file = None;
    assert_eq!(write_location(&rec), "<unknown>:42");
}

#[test]
fn module_path_placeholder_and_padding() {
    let c = ConfigBuilder::new().build();
    let mut rec = record(Level::Trace, "t", "m");
    assert_eq!(write_module_path(&c, &rec), "<unknown>");
    rec.mod_path = Some(String::from("app::db"));
    assert_eq!(write_module_path(&c, &rec), "app::db");
    // The module path is padded like the target.
    let mut b = ConfigBuilder::new();
    b.set_target_padding(TargetPadding::Right(10));
    assert_eq!(write_module_path(&b.build(), &rec), "app::db   ");
}

#[test]
fn message_carries_the_terminator() {
    let rec = record(Level::Info, "t", "msg");
    assert_eq!(write_args(&rec, LineEnding::Crlf), "msg\r\n");
    assert_eq!(write_args(&rec, LineEnding::LF), "msg\n");
}

#[test]
fn target_is_rendered_verbatim() {
    let c = ConfigBuilder::new().build();
    let rec = record(Level::Debug, "a::b::c", "m");
    assert_eq!(write_target(&c, &rec), "a::b::c");
}

#[test]
fn in_band_colors_wrap_only_the_level() {
    let mut b = no_time();
    b.set_write_log_enable_colors(true);
    let c = b.build();
    assert_eq!(write_level(&c, Level::Error), "\u{1b}[31mERROR\u{1b}[0m");
    assert_eq!(write_level(&c, Level::Warn), "\u{1b}[33mWARN\u{1b}[0m");
    let out = render_to_string(&c, &record(Level::Error, "app", "boom"), "");
    assert_eq!(out, "[\u{1b}[31mERROR\u{1b}[0m] boom\n");
}

#[test]
fn empty_allow_entry_admits_everything() {
    // The empty string is a prefix of every target.
    let mut b = no_time();
    b.add_filter_allow_str("");
    let c = b.build();
    let out = render_to_string(&c, &record(Level::Error, "whatever", "x"), "");
    assert_eq!(out, "[ERROR] x\n");
}

#[test]
fn empty_message_still_carries_the_terminator() {
    let c = no_time().build();
    let out = render_to_string(&c, &record(Level::Error, "app", ""), "");
    assert_eq!(out, "[ERROR] \n");
}

#[test]
fn zero_width_padding_changes_nothing() {
    let mut b = no_time();
    b.set_target_level(LevelFilter::Error);
    b.set_target_padding(TargetPadding::Right(0));
    let c = b.build();
    let out = render_to_string(&c, &record(Level::Error, "app", "x"), "");
    assert_eq!(out, "[ERROR]app x\n");
}

#[test]
fn color_operations_wrap_only_the_level_text() {
    // For a color-capable sink the renderer sets the configured color
    // immediately before the level text and resets immediately after it,
    // and nowhere else.
    let c = no_time().build();
    let ops = simplelog::render::render(&c, &record(Level::Error, "app", "boom"), "");
    assert_eq!(ops.len(), 7);
    assert!(matches!(&ops[0], RenderOp::Text(t) if t == "["));
    assert!(matches!(&ops[1], RenderOp::SetColor(Some(Color::Red))));
    assert!(matches!(&ops[2], RenderOp::Text(t) if t == "ERROR"));
    assert!(matches!(&ops[3], RenderOp::ResetColor));
    assert!(matches!(&ops[4], RenderOp::Text(t) if t == "]"));
    assert!(matches!(&ops[5], RenderOp::Text(t) if t == " "));
    assert!(matches!(&ops[6], RenderOp::Text(t) if t == "boom\n"));
    // With in-band colors the escapes stand in the text and no color
    // operations are emitted.
    let mut b = no_time();
    b.set_write_log_enable_colors(true);
    let inband = simplelog::render::render(&b.build(), &record(Level::Error, "app", "boom"), "");
    for op in &inband {
        assert!(matches!(op, RenderOp::Text(_)));
    }
}

#[test]
fn unthemed_level_stays_plain() {
    let mut b = no_time();
    b.set_write_log_enable_colors(true);
    b.set_level_color(Level::Error, None);
    let c = b.build();
    assert_eq!(write_level(&c, Level::Error), "ERROR");
    // A non-basic color cannot be written in-band and stays plain too.
    let mut b2 = no_time();
    b2.set_write_log_enable_colors(true);
    b2.set_level_color(Level::Error, Some(Color::Ansi256(42)));
    assert_eq!(write_level(&b2.build(), Level::Error), "ERROR");
}
