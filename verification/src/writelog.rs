//! The write logger: an adapter over a plain writable sink with
//! error-propagating delivery.

use vstd::prelude::*;

use crate::config::Config;
use crate::level::Level;
use crate::level::level_passes;
use crate::level::LevelFilter;
use crate::record::LogRecord;
use crate::record::RecordV;
use crate::render::ops_text;
use crate::render::ops_to_string;
use crate::render::render_with_time;
use crate::render::rendered;
use crate::render::should_skip;
use crate::render::skip_record;
use crate::render::time_needed;
use crate::sinks::sink_after_write;
use crate::sinks::sink_flush;
use crate::sinks::sink_write;
use crate::sinks::LogError;
use crate::timefmt::time_unavailable;
use crate::sinks::WriteSink;

verus! {

/// A logger that renders each accepted record and writes it to a plain
/// sink; a failed write is surfaced to the caller of [`WriteLogger::try_log`].
pub struct WriteLogger {
    /// The adapter's severity threshold.
    pub level: LevelFilter,
    /// The adapter's configuration.
    pub config: Config,
    /// The destination.
    pub writable: WriteSink,
}

/// What one delivered record does to a write logger: threshold and
/// configuration are untouched; an accepted, unsuppressed record is written
/// whole to the sink for some time text, and any other record — or a failed
/// delivery — leaves the sink's value as it was.
pub open spec fn write_logged(pre: WriteLogger, post: WriteLogger, rv: RecordV) -> bool {
    post.level == pre.level && post.config@ == pre.config@ && if level_passes(pre.level, rv.level)
        && !skip_record(pre.config@, rv.target) {
        ((exists|now: Seq<char>|
            post.writable@ == sink_after_write(pre.writable@, rendered(pre.config@, rv, now))) || (
        post.writable@ == pre.writable@)) && ((pre.writable@ is Buffer && !time_needed(
            pre.config@,
            rv.level,
        )) ==> post.writable@ == sink_after_write(
            pre.writable@,
            rendered(pre.config@, rv, Seq::<char>::empty()),
        ))
    } else {
        post.writable@ == pre.writable@
    }
}

impl WriteLogger {
    /// A write logger with the given threshold, configuration and sink.
    pub fn new(log_level: LevelFilter, config: Config, writable: WriteSink) -> (r: WriteLogger)
        ensures
            r.level == log_level,
            r.config@ == config@,
            r.writable@ == writable@,
    {
        WriteLogger { level: log_level, config, writable }
    }

    /// Whether a record at this level would be accepted.
    pub fn enabled(&self, level: Level) -> (r: bool)
        ensures
            r == level_passes(self.level, level),
    {
        self.level.passes(level)
    }

    /// Deliver one record: render it and write it, whole, to the sink when
    /// the threshold accepts it and the target filters do not suppress it.
    /// A record the threshold rejects or the filters suppress is owed
    /// success; a buffer sink can fail only on the time format, and on any
    /// failure the sink's value is as it was.
    pub fn try_log(&mut self, record: &LogRecord) -> (r: Result<(), LogError>)
        ensures
            final(self).level == old(self).level,
            final(self).config@ == old(self).config@,
            match r {
                Ok(()) => if level_passes(old(self).level, record@.level) && !skip_record(
                    old(self).config@,
                    record@.target,
                ) {
                    (exists|now: Seq<char>|
                        final(self).writable@ == sink_after_write(
                            old(self).writable@,
                            rendered(old(self).config@, record@, now),
                        )) && (!time_needed(old(self).config@, record@.level)
                        ==> final(self).writable@ == sink_after_write(
                        old(self).writable@,
                        rendered(old(self).config@, record@, Seq::<char>::empty()),
                    ))
                } else {
                    final(self).writable@ == old(self).writable@
                },
                Err(e) => final(self).writable@ == old(self).writable@ && (e == LogError::TimeFormat
                    ==> time_needed(old(self).config@, record@.level)) && (old(self).writable@
                    is Buffer ==> e == LogError::TimeFormat),
            },
            !(level_passes(old(self).level, record@.level)) || skip_record(
                old(self).config@,
                record@.target,
            ) ==> r is Ok,
            level_passes(old(self).level, record@.level) && !skip_record(
                old(self).config@,
                record@.target,
            ) && time_needed(old(self).config@, record@.level) && time_unavailable(
                old(self).config@,
            ) ==> r == Err::<(), LogError>(LogError::TimeFormat),
    {
        if !self.enabled(record.level) {
            return Ok(());
        }
        if should_skip(&self.config, record) {
            return Ok(());
        }
        let ops = match render_with_time(&self.config, record) {
            Ok(o) => o,
            Err(e) => {
                return Err(e);
            },
        };
        let ghost w = choose|now: Seq<char>|
            ops_text(ops@) == rendered(self.config@, record@, now);
        let text = ops_to_string(&ops);
        match sink_write(&mut self.writable, text.as_str()) {
            Ok(()) => {
                proof {
                    assert(self.writable@ == sink_after_write(
                        old(self).writable@,
                        rendered(self.config@, record@, w),
                    ));
                }
                Ok(())
            },
            Err(e) => Err(e),
        }
    }

    /// Deliver one record, discarding the outcome.
    pub fn log(&mut self, record: &LogRecord)
        ensures
            write_logged(*old(self), *final(self), record@),
    {
        let _ = self.try_log(record);
    }

    /// Flush the sink; its value is unchanged.
    pub fn flush(&mut self) -> (r: Result<(), LogError>)
        ensures
            final(self).level == old(self).level,
            final(self).config@ == old(self).config@,
            final(self).writable@ == old(self).writable@,
    {
        sink_flush(&mut self.writable)
    }

    /// The adapter's severity threshold.
    pub fn level(&self) -> (r: LevelFilter)
        ensures
            r == self.level,
    {
        self.level
    }

    /// The adapter's configuration.
    pub fn config(&self) -> (r: &Config)
        ensures
            r@ == self.config@,
    {
        &self.config
    }
}

} // verus!
