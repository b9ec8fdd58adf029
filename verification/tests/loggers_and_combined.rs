//! The destination adapters and the combinator.

use simplelog::Adapter;
use simplelog::ColorChoice;
use simplelog::CombinedLogger;
use simplelog::ConfigBuilder;
use simplelog::Level;
use simplelog::LevelFilter;
use simplelog::LogError;
use simplelog::LogRecord;
use simplelog::SharedLogger;
use simplelog::SimpleLogger;
use simplelog::TermLogError;
use simplelog::TermLogger;
use simplelog::TerminalMode;
use simplelog::TestLogger;
use simplelog::WriteLogger;
use simplelog::WriteSink;

fn record(level: Level, target: &str, message: &str) -> LogRecord {
    LogRecord::new(level, target, message)
}

fn quiet_config() -> simplelog::Config {
    let mut b = ConfigBuilder::new();
    b.set_time_level(LevelFilter::Off);
    b.build()
}

#[test]
fn capture_logger_obeys_the_severity_gate() {
    // A record at the threshold or more severe is captured; a more verbose
    // one produces no output at all.
    let mut t = TestLogger::new(LevelFilter::Warn, quiet_config());
    t.log(&record(Level::Error, "app::net", "boom"));
    assert_eq!(t.captured(), "[ERROR] boom\n");
    t.log(&record(Level::Info, "app::net", "quiet"));
    assert_eq!(t.captured(), "[ERROR] boom\n");
    t.log(&record(Level::Warn, "app::net", "careful"));
    assert_eq!(t.captured(), "[ERROR] boom\n[WARN] careful\n");
}

#[test]
fn capture_logger_with_default_config_shows_time_level_and_message() {
    // With every field at its default, an error record carries the time
    // (eight characters of the default pattern), the level and the message.
    let mut t = TestLogger::new(LevelFilter::Warn, ConfigBuilder::new().build());
    t.log(&record(Level::Error, "app::net", "boom"));
    let out = String::from(t.captured());
    assert!(out.contains("ERROR"));
    assert!(out.contains("boom"));
    assert!(out.ends_with(" [ERROR] boom\n"));
    assert_eq!(out.chars().count(), 8 + " [ERROR] boom\n".chars().count());
    // The same adapter rejects an Info record before rendering.
    let before = String::from(t.captured());
    t.log(&record(Level::Info, "app::net", "nothing"));
    assert_eq!(t.captured(), before);
}

#[test]
fn capture_logger_applies_filters() {
    let mut b = ConfigBuilder::new();
    b.set_time_level(LevelFilter::Off);
    b.add_filter_allow_str("app::net");
    let mut t = TestLogger::new(LevelFilter::Trace, b.build());
    t.log(&record(Level::Error, "app::db", "suppressed"));
    assert_eq!(t.captured(), "");
    t.log(&record(Level::Error, "app::net::tcp", "emitted"));
    assert_eq!(t.captured(), "[ERROR] emitted\n");
}

#[test]
fn invalid_time_pattern_surfaces_as_time_format_error() {
    let mut b = ConfigBuilder::new();
    b.set_time_format_custom("[bogus");
    let mut t = TestLogger::new(LevelFilter::Trace, b.build());
    let r = t.try_log(&record(Level::Error, "app", "boom"));
    assert_eq!(r, Err(LogError::TimeFormat));
    assert_eq!(t.captured(), "");
}

#[test]
fn rfc_formats_render_a_time() {
    let mut b = ConfigBuilder::new();
    b.set_time_format_rfc3339();
    let mut t = TestLogger::new(LevelFilter::Trace, b.build());
    assert_eq!(t.try_log(&record(Level::Error, "app", "x")), Ok(()));
    let out = String::from(t.captured());
    assert!(out.ends_with(" [ERROR] x\n"));
    assert!(out.contains("T"));

    let mut b2 = ConfigBuilder::new();
    b2.set_time_format_rfc2822();
    let mut t2 = TestLogger::new(LevelFilter::Trace, b2.build());
    assert_eq!(t2.try_log(&record(Level::Error, "app", "x")), Ok(()));
    assert!(t2.captured().ends_with(" [ERROR] x\n"));
    assert!(t2.captured().len() > " [ERROR] x\n".len());
}

#[test]
fn write_logger_fills_its_buffer() {
    let mut w = WriteLogger::new(
        LevelFilter::Info,
        quiet_config(),
        WriteSink::Buffer(String::new()),
    );
    assert_eq!(w.try_log(&record(Level::Info, "app", "kept")), Ok(()));
    assert_eq!(w.try_log(&record(Level::Trace, "app", "dropped")), Ok(()));
    assert_eq!(w.flush(), Ok(()));
    match &w.writable {
        WriteSink::Buffer(s) => assert_eq!(s, "[INFO] kept\n"),
        _ => panic!("the sink should still be the buffer"),
    }
}

#[test]
fn simple_logger_reports_level_and_config() {
    let s = SimpleLogger::new(LevelFilter::Debug, quiet_config());
    assert_eq!(s.level(), LevelFilter::Debug);
    assert_eq!(s.config().time, LevelFilter::Off);
    assert!(s.enabled(Level::Debug));
    assert!(!s.enabled(Level::Trace));
    // Printing is best-effort and accepted records reach stdout.
    assert_eq!(s.try_log(&record(Level::Info, "app", "to stdout")), Ok(()));
    s.log(&record(Level::Error, "app", "to stderr"));
    s.flush();
}

#[test]
fn term_logger_writes_and_flushes() {
    let mut t = TermLogger::new(
        LevelFilter::Info,
        quiet_config(),
        TerminalMode::Mixed,
        ColorChoice::Never,
    );
    assert_eq!(t.try_log(&record(Level::Info, "app", "to terminal")), Ok(()));
    t.log(&record(Level::Error, "app", "to error stream"));
    t.log(&record(Level::Trace, "app", "dropped"));
    t.flush();
    assert_eq!(t.level(), LevelFilter::Info);
    assert_eq!(TerminalMode::default(), TerminalMode::Mixed);
}

#[test]
fn term_log_error_messages() {
    let e = TermLogError::SetLogger;
    assert_eq!(e.message(), "a logger was already installed");
    let t = TermLogError::Term(String::from("no terminal attached"));
    assert_eq!(t.message(), "no terminal attached");
}

#[test]
fn combinator_reports_the_most_verbose_level() {
    // The combinator's level is the maximum of its adapters'.
    let loggers = vec![
        Adapter::Test(TestLogger::new(LevelFilter::Error, quiet_config())),
        Adapter::Test(TestLogger::new(LevelFilter::Info, quiet_config())),
        Adapter::Simple(SimpleLogger::new(LevelFilter::Warn, quiet_config())),
    ];
    let comb = CombinedLogger::new(loggers);
    assert_eq!(comb.level(), LevelFilter::Info);
    assert_eq!(CombinedLogger::new(Vec::new()).level(), LevelFilter::Off);
    assert!(comb.config().is_none());
}

#[test]
fn combinator_level_spans_error_to_trace() {
    // Two adapters at Error and Trace: the combinator reports Trace, and a
    // Debug record yields output only from the Trace adapter.
    let loggers = vec![
        Adapter::Test(TestLogger::new(LevelFilter::Error, quiet_config())),
        Adapter::Test(TestLogger::new(LevelFilter::Trace, quiet_config())),
    ];
    let mut comb = CombinedLogger::new(loggers);
    assert_eq!(comb.level(), LevelFilter::Trace);
    let mut rec = record(Level::Debug, "app", "probe");
    rec.thread_id = String::from("ThreadId(1)");
    comb.log(&rec);
    match &comb.loggers[0] {
        Adapter::Test(t) => assert_eq!(t.captured(), ""),
        _ => panic!("the first adapter should still be the capture logger"),
    }
    match &comb.loggers[1] {
        Adapter::Test(t) => assert_eq!(t.captured(), "[DEBUG] (1) app: probe\n"),
        _ => panic!("the second adapter should still be the capture logger"),
    }
}

#[test]
fn fan_out_reaches_every_adapter() {
    // Fan-out completeness: one record, three adapters all enabled, three
    // independent renderings, each under its own configuration.
    let mut strict = ConfigBuilder::new();
    strict.set_time_level(LevelFilter::Off);
    strict.set_level_padding(simplelog::LevelPadding::Right);
    let loggers = vec![
        Adapter::Test(TestLogger::new(LevelFilter::Trace, quiet_config())),
        Adapter::Test(TestLogger::new(LevelFilter::Warn, strict.build())),
        Adapter::Write(WriteLogger::new(
            LevelFilter::Trace,
            quiet_config(),
            WriteSink::Buffer(String::new()),
        )),
    ];
    let mut comb = CombinedLogger::new(loggers);
    comb.log(&record(Level::Warn, "app", "everyone"));
    comb.flush();
    match &comb.loggers[0] {
        Adapter::Test(t) => assert_eq!(t.captured(), "[WARN] everyone\n"),
        _ => panic!("adapter kind changed"),
    }
    match &comb.loggers[1] {
        Adapter::Test(t) => assert_eq!(t.captured(), "[WARN ] everyone\n"),
        _ => panic!("adapter kind changed"),
    }
    match &comb.loggers[2] {
        Adapter::Write(w) => match &w.writable {
            WriteSink::Buffer(s) => assert_eq!(s, "[WARN] everyone\n"),
            _ => panic!("sink kind changed"),
        },
        _ => panic!("adapter kind changed"),
    }
}

#[test]
fn shared_logger_interface_agrees_with_the_adapters() {
    let t = TestLogger::new(LevelFilter::Debug, quiet_config());
    assert_eq!(SharedLogger::level(&t), LevelFilter::Debug);
    assert!(SharedLogger::config(&t).is_some());
    let comb = CombinedLogger::new(vec![Adapter::Test(t)]);
    assert_eq!(SharedLogger::level(&comb), LevelFilter::Debug);
    assert!(SharedLogger::config(&comb).is_none());
}
