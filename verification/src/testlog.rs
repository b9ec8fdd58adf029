//! The capture logger: an adapter whose sink is an in-memory buffer, so
//! that a test can inspect exactly what a configuration renders.

use vstd::prelude::*;

use crate::config::Config;
use crate::level::Level;
use crate::level::level_passes;
use crate::level::LevelFilter;
use crate::record::LogRecord;
use crate::record::RecordV;
use crate::render::ops_to_string;
use crate::render::render_with_time;
use crate::render::rendered;
use crate::render::skip_record;
use crate::render::time_needed;
use crate::sinks::LogError;
use crate::timefmt::time_unavailable;

verus! {

/// A logger that appends every rendered record to an internal buffer.
pub struct TestLogger {
    /// The adapter's severity threshold.
    pub level: LevelFilter,
    /// The adapter's configuration.
    pub config: Config,
    /// Everything rendered so far.
    pub output: String,
}

/// What one delivered record does to a capture logger: threshold and
/// configuration are untouched; an accepted, unsuppressed record appends
/// its rendering for some time text, and any other record appends nothing.
pub open spec fn test_logged(pre: TestLogger, post: TestLogger, rv: RecordV) -> bool {
    post.level == pre.level && post.config@ == pre.config@ && if level_passes(pre.level, rv.level)
        && !skip_record(pre.config@, rv.target) {
        if time_needed(pre.config@, rv.level) {
            (exists|now: Seq<char>| post.output@ == pre.output@ + rendered(pre.config@, rv, now))
                || post.output@ == pre.output@
        } else {
            post.output@ == pre.output@ + rendered(pre.config@, rv, Seq::<char>::empty())
        }
    } else {
        post.output@ == pre.output@
    }
}

impl TestLogger {
    /// A capture logger with the given threshold and configuration and an
    /// empty buffer.
    pub fn new(log_level: LevelFilter, config: Config) -> (r: TestLogger)
        ensures
            r.level == log_level,
            r.config@ == config@,
            r.output@ == Seq::<char>::empty(),
    {
        TestLogger { level: log_level, config, output: String::new() }
    }

    /// Whether a record at this level would be accepted.
    pub fn enabled(&self, level: Level) -> (r: bool)
        ensures
            r == level_passes(self.level, level),
    {
        self.level.passes(level)
    }

    /// Deliver one record: append its rendering to the buffer when the
    /// threshold accepts it and the target filters do not suppress it. The
    /// only failure is a time format that produces no text, and then the
    /// buffer is untouched.
    pub fn try_log(&mut self, record: &LogRecord) -> (r: Result<(), LogError>)
        ensures
            final(self).level == old(self).level,
            final(self).config@ == old(self).config@,
            match r {
                Ok(()) => if level_passes(old(self).level, record@.level) && !skip_record(
                    old(self).config@,
                    record@.target,
                ) {
                    (exists|now: Seq<char>|
                        final(self).output@ == old(self).output@ + rendered(
                            old(self).config@,
                            record@,
                            now,
                        )) && (!time_needed(old(self).config@, record@.level)
                        ==> final(self).output@ == old(self).output@ + rendered(
                        old(self).config@,
                        record@,
                        Seq::<char>::empty(),
                    ))
                } else {
                    final(self).output@ == old(self).output@
                },
                Err(e) => e == LogError::TimeFormat && final(self).output@ == old(self).output@
                    && time_needed(old(self).config@, record@.level),
            },
            !(level_passes(old(self).level, record@.level) && time_needed(
                old(self).config@,
                record@.level,
            )) ==> r is Ok,
            level_passes(old(self).level, record@.level) && !skip_record(
                old(self).config@,
                record@.target,
            ) && time_needed(old(self).config@, record@.level) && time_unavailable(
                old(self).config@,
            ) ==> r == Err::<(), LogError>(LogError::TimeFormat),
    {
        if !self.enabled(record.level) {
            return Ok(());
        }
        let ops = match render_with_time(&self.config, record) {
            Ok(o) => o,
            Err(e) => {
                return Err(e);
            },
        };
        let text = ops_to_string(&ops);
        self.output.append(text.as_str());
        proof {
            if !skip_record(self.config@, record@.target) {
                let now = choose|now: Seq<char>|
                    text@ == rendered(self.config@, record@, now);
                assert(self.output@ == old(self).output@ + rendered(self.config@, record@, now));
            } else {
                assert(self.output@ =~= old(self).output@);
            }
        }
        Ok(())
    }

    /// Deliver one record, discarding the error: log delivery to a capture
    /// sink is best-effort.
    pub fn log(&mut self, record: &LogRecord)
        ensures
            test_logged(*old(self), *final(self), record@),
    {
        let _ = self.try_log(record);
    }

    /// Nothing is buffered beyond the capture itself.
    pub fn flush(&self) {
    }

    /// The adapter's severity threshold.
    pub fn level(&self) -> (r: LevelFilter)
        ensures
            r == self.level,
    {
        self.level
    }

    /// The adapter's configuration.
    pub fn config(&self) -> (r: &Config)
        ensures
            r@ == self.config@,
    {
        &self.config
    }

    /// Everything rendered so far.
    pub fn captured(&self) -> (r: &str)
        ensures
            r@ == self.output@,
    {
        self.output.as_str()
    }
}

} // verus!
