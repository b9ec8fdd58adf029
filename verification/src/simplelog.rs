//! The basic logger: renders each accepted record and prints it, error
//! records to standard error and everything else to standard output.

use vstd::prelude::*;

use crate::config::Config;
use crate::level::Level;
use crate::level::level_passes;
use crate::level::LevelFilter;
use crate::record::LogRecord;
use crate::render::ops_to_string;
use crate::render::render_with_time;
use crate::render::should_skip;
use crate::render::skip_record;
use crate::render::time_needed;
use crate::sinks::sink_write;
use crate::sinks::LogError;
use crate::timefmt::time_unavailable;
use crate::sinks::WriteSink;

verus! {

/// A logger over the two standard streams, splitting by severity.
pub struct SimpleLogger {
    /// The adapter's severity threshold.
    pub level: LevelFilter,
    /// The adapter's configuration.
    pub config: Config,
}

impl SimpleLogger {
    /// A basic logger with the given threshold and configuration.
    pub fn new(log_level: LevelFilter, config: Config) -> (r: SimpleLogger)
        ensures
            r.level == log_level,
            r.config@ == config@,
    {
        SimpleLogger { level: log_level, config }
    }

    /// Whether a record at this level would be accepted.
    pub fn enabled(&self, level: Level) -> (r: bool)
        ensures
            r == level_passes(self.level, level),
    {
        self.level.passes(level)
    }

    /// Deliver one record: render it and print it, error records to
    /// standard error and the rest to standard output. A record the
    /// threshold rejects or the filters suppress is owed success; a
    /// time-format failure can arise only when a time part is shown.
    pub fn try_log(&self, record: &LogRecord) -> (r: Result<(), LogError>)
        ensures
            !(level_passes(self.level, record@.level)) || skip_record(
                self.config@,
                record@.target,
            ) ==> r is Ok,
            match r {
                Ok(_) => true,
                Err(e) => e == LogError::TimeFormat ==> time_needed(self.config@, record@.level),
            },
            level_passes(self.level, record@.level) && !skip_record(self.config@, record@.target)
                && time_needed(self.config@, record@.level) && time_unavailable(self.config@)
                ==> r == Err::<(), LogError>(LogError::TimeFormat),
    {
        if !self.enabled(record.level) {
            return Ok(());
        }
        if should_skip(&self.config, record) {
            return Ok(());
        }
        let ops = match render_with_time(&self.config, record) {
            Ok(o) => o,
            Err(e) => {
                return Err(e);
            },
        };
        let text = ops_to_string(&ops);
        let mut sink = if record.level == Level::Error {
            WriteSink::Stderr
        } else {
            WriteSink::Stdout
        };
        sink_write(&mut sink, text.as_str())
    }

    /// Deliver one record, discarding the outcome: printing is best-effort.
    pub fn log(&self, record: &LogRecord) {
        let _ = self.try_log(record);
    }

    /// Nothing is buffered.
    pub fn flush(&self) {
    }

    /// The adapter's severity threshold.
    pub fn level(&self) -> (r: LevelFilter)
        ensures
            r == self.level,
    {
        self.level
    }

    /// The adapter's configuration.
    pub fn config(&self) -> (r: &Config)
        ensures
            r@ == self.config@,
    {
        &self.config
    }
}

} // verus!
