//! Stacked thresholds over in-memory sinks: each adapter keeps exactly the
//! records at least as severe as its threshold, and every configured line
//! ending terminates the captured output.

use simplelog::ConfigBuilder;
use simplelog::Level;
use simplelog::LevelFilter;
use simplelog::LineEnding;
use simplelog::LogRecord;
use simplelog::WriteLogger;
use simplelog::WriteSink;

fn record(level: Level, message: &str) -> LogRecord {
    let mut r = LogRecord::new(level, "app", message);
    r.thread_id = String::from("ThreadId(1)");
    r
}

fn buffer_of(w: &WriteLogger) -> &str {
    match &w.writable {
        WriteSink::Buffer(s) => s.as_str(),
        _ => panic!("the sink should be a buffer"),
    }
}

#[test]
fn each_threshold_keeps_exactly_the_severe_enough_records() {
    let line_endings = vec![
        (LineEnding::LF, "\u{000A}"),
        (LineEnding::CR, "\u{000D}"),
        (LineEnding::Crlf, "\u{000D}\u{000A}"),
        (LineEnding::VT, "\u{000B}"),
        (LineEnding::FF, "\u{000C}"),
        (LineEnding::Nel, "\u{0085}"),
        (LineEnding::LS, "\u{2028}"),
        (LineEnding::PS, "\u{2029}"),
    ];
    let thresholds = vec![
        (LevelFilter::Off, 0),
        (LevelFilter::Error, 1),
        (LevelFilter::Warn, 2),
        (LevelFilter::Info, 3),
        (LevelFilter::Debug, 4),
        (LevelFilter::Trace, 5),
    ];
    for (ending, expected_end) in &line_endings {
        for (threshold, kept) in &thresholds {
            let mut b = ConfigBuilder::new();
            b.set_time_level(LevelFilter::Off).set_line_ending(*ending);
            let mut w = WriteLogger::new(*threshold, b.build(), WriteSink::Buffer(String::new()));
            w.log(&record(Level::Error, "Test Error"));
            w.log(&record(Level::Warn, "Test Warning"));
            w.log(&record(Level::Info, "Test Information"));
            w.log(&record(Level::Debug, "Test Debug"));
            w.log(&record(Level::Trace, "Test Trace"));
            let out = buffer_of(&w);
            assert_eq!(out.contains("Test Error"), *kept >= 1);
            assert_eq!(out.contains("Test Warning"), *kept >= 2);
            assert_eq!(out.contains("Test Information"), *kept >= 3);
            assert_eq!(out.contains("Test Debug"), *kept >= 4);
            assert_eq!(out.contains("Test Trace"), *kept >= 5);
            if *kept > 0 {
                assert!(out.ends_with(expected_end));
            } else {
                assert_eq!(out, "");
            }
        }
    }
}
