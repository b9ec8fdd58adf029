//! The terminal logger: a color-capable adapter over the two standard
//! streams, routing records by severity and applying the configured level
//! colors through the terminal crate.

use vstd::prelude::*;

use crate::config::Color;
use crate::config::Config;
use crate::level::Level;
use crate::level::level_passes;
use crate::level::LevelFilter;
use crate::record::LogRecord;
use crate::render::render_with_time;
use crate::render::should_skip;
use crate::render::skip_record;
use crate::render::time_needed;
use crate::render::RenderOp;
use crate::sinks::LogError;
use crate::timefmt::time_unavailable;

verus! {

/// Which streams the terminal logger writes to.
#[derive(Clone, Copy, PartialEq, Eq, Structural, Debug, Hash)]
pub enum TerminalMode {
    /// Only standard output.
    Stdout,
    /// Only standard error.
    Stderr,
    /// Standard error for error records, standard output otherwise.
    Mixed,
}

impl Default for TerminalMode {
    /// Severity-based routing.
    fn default() -> (r: TerminalMode)
        ensures
            r == TerminalMode::Mixed,
    {
        TerminalMode::Mixed
    }
}

/// When the terminal streams emit color.
#[derive(Clone, Copy, PartialEq, Eq, Structural, Debug)]
pub enum ColorChoice {
    /// Color whenever the stream is an interactive terminal.
    Auto,
    /// Always color, probing the platform's capabilities.
    Always,
    /// Always color, with ANSI escapes only.
    AlwaysAnsi,
    /// Never color.
    Never,
}

/// Why setting up terminal logging failed.
pub enum TermLogError {
    /// A process-wide logger was already installed.
    SetLogger,
    /// The terminal could not be used.
    Term(String),
}

/// The message a terminal-logging error carries.
pub open spec fn term_log_error_text(e: TermLogError) -> Seq<char> {
    match e {
        TermLogError::SetLogger => "a logger was already installed"@,
        TermLogError::Term(s) => s@,
    }
}

impl TermLogError {
    /// The error's message.
    pub fn message(&self) -> (r: String)
        ensures
            r@ == term_log_error_text(*self),
    {
        match self {
            TermLogError::SetLogger => String::from_str("a logger was already installed"),
            TermLogError::Term(s) => s.clone(),
        }
    }
}

/// The declaration of the terminal crate's buffered stream.
#[verifier::external_type_specification]
#[verifier::external_body]
pub struct ExBufferedStandardStream(termcolor::BufferedStandardStream);

/// Relies on `termcolor::BufferedStandardStream::stdout`: a buffered,
/// color-capable handle on standard output.
#[verifier::external_body]
fn tc_stdout(choice: ColorChoice) -> (r: termcolor::BufferedStandardStream) {
    termcolor::BufferedStandardStream::stdout(match choice {
        ColorChoice::Auto => termcolor::ColorChoice::Auto,
        ColorChoice::Always => termcolor::ColorChoice::Always,
        ColorChoice::AlwaysAnsi => termcolor::ColorChoice::AlwaysAnsi,
        ColorChoice::Never => termcolor::ColorChoice::Never,
    })
}

/// Relies on `termcolor::BufferedStandardStream::stderr`: a buffered,
/// color-capable handle on standard error.
#[verifier::external_body]
fn tc_stderr(choice: ColorChoice) -> (r: termcolor::BufferedStandardStream) {
    termcolor::BufferedStandardStream::stderr(match choice {
        ColorChoice::Auto => termcolor::ColorChoice::Auto,
        ColorChoice::Always => termcolor::ColorChoice::Always,
        ColorChoice::AlwaysAnsi => termcolor::ColorChoice::AlwaysAnsi,
        ColorChoice::Never => termcolor::ColorChoice::Never,
    })
}

/// Relies on `std::io::Write::write_all` on the terminal stream: writes the
/// whole text; a failure is an I/O failure.
#[verifier::external_body]
fn tc_write(stream: &mut termcolor::BufferedStandardStream, text: &str) -> (r: Result<
    (),
    LogError,
>)
    ensures
        matches!(r, Ok(()) | Err(LogError::Io)),
{
    std::io::Write::write_all(stream, text.as_bytes()).map_err(|_| LogError::Io)
}

/// Relies on `termcolor::WriteColor::set_color` and `ColorSpec::set_fg`:
/// sets the foreground color, `None` meaning the default; a failure is an
/// I/O failure.
#[verifier::external_body]
fn tc_set_color(stream: &mut termcolor::BufferedStandardStream, color: Option<Color>) -> (r:
    Result<(), LogError>)
    ensures
        matches!(r, Ok(()) | Err(LogError::Io)),
{
    let fg = color.map(|c| match c {
        Color::Black => termcolor::Color::Black,
        Color::Blue => termcolor::Color::Blue,
        Color::Green => termcolor::Color::Green,
        Color::Red => termcolor::Color::Red,
        Color::Cyan => termcolor::Color::Cyan,
        Color::Magenta => termcolor::Color::Magenta,
        Color::Yellow => termcolor::Color::Yellow,
        Color::White => termcolor::Color::White,
        Color::Ansi256(n) => termcolor::Color::Ansi256(n),
        Color::Rgb(r, g, b) => termcolor::Color::Rgb(r, g, b),
    });
    termcolor::WriteColor::set_color(stream, termcolor::ColorSpec::new().set_fg(fg)).map_err(
        |_| LogError::Io,
    )
}

/// Relies on `termcolor::WriteColor::reset`: resets colors to the default;
/// a failure is an I/O failure.
#[verifier::external_body]
fn tc_reset(stream: &mut termcolor::BufferedStandardStream) -> (r: Result<(), LogError>)
    ensures
        matches!(r, Ok(()) | Err(LogError::Io)),
{
    termcolor::WriteColor::reset(stream).map_err(|_| LogError::Io)
}

/// Relies on `std::io::Write::flush` on the terminal stream: flushes the
/// buffer; a failure is an I/O failure.
#[verifier::external_body]
fn tc_flush(stream: &mut termcolor::BufferedStandardStream) -> (r: Result<(), LogError>)
    ensures
        matches!(r, Ok(()) | Err(LogError::Io)),
{
    std::io::Write::flush(stream).map_err(|_| LogError::Io)
}

/// The two stream handles of a terminal logger; under a single-stream mode
/// both are handles on the same destination.
pub struct OutputStreams {
    pub err: termcolor::BufferedStandardStream,
    pub out: termcolor::BufferedStandardStream,
}

/// Apply a list of output operations to one terminal stream, in order, and
/// flush it; on a failed operation the remainder is abandoned without
/// cleanup, the sink possibly holding a truncated line.
fn write_ops(stream: &mut termcolor::BufferedStandardStream, ops: &Vec<RenderOp>) -> (r: Result<
    (),
    LogError,
>)
    ensures
        matches!(r, Ok(()) | Err(LogError::Io)),
{
    let n = ops.len();
    let mut i: usize = 0;
    while i < n
        invariant
            i <= n,
            n == ops@.len(),
        decreases n - i,
    {
        let outcome = match &ops[i] {
            RenderOp::Text(t) => tc_write(stream, t.as_str()),
            RenderOp::SetColor(c) => tc_set_color(stream, *c),
            RenderOp::ResetColor => tc_reset(stream),
        };
        match outcome {
            Ok(()) => {},
            Err(e) => {
                return Err(e);
            },
        }
        i = i + 1;
    }
    tc_flush(stream)
}

/// A color-capable logger over the standard streams.
pub struct TermLogger {
    /// The adapter's severity threshold.
    pub level: LevelFilter,
    /// The adapter's configuration.
    pub config: Config,
    /// The stream handles records are written to.
    pub streams: OutputStreams,
}

impl TermLogger {
    /// A terminal logger with the given threshold, configuration, stream
    /// routing and color preference.
    pub fn new(
        log_level: LevelFilter,
        config: Config,
        mode: TerminalMode,
        color_choice: ColorChoice,
    ) -> (r: TermLogger)
        ensures
            r.level == log_level,
            r.config@ == config@,
    {
        let streams = match mode {
            TerminalMode::Stdout => OutputStreams {
                err: tc_stdout(color_choice),
                out: tc_stdout(color_choice),
            },
            TerminalMode::Stderr => OutputStreams {
                err: tc_stderr(color_choice),
                out: tc_stderr(color_choice),
            },
            TerminalMode::Mixed => OutputStreams {
                err: tc_stderr(color_choice),
                out: tc_stdout(color_choice),
            },
        };
        TermLogger { level: log_level, config, streams }
    }

    /// Whether a record at this level would be accepted.
    pub fn enabled(&self, level: Level) -> (r: bool)
        ensures
            r == level_passes(self.level, level),
    {
        self.level.passes(level)
    }

    /// Deliver one record: render it and write it to the stream its
    /// severity routes it to, and flush. The renderer's contract pins the
    /// operation sequence, so the color is set immediately before the level
    /// text and reset immediately after it, and nowhere else. A record the
    /// threshold rejects or the filters suppress is owed success; a
    /// time-format failure can arise only when a time part is shown, and is
    /// certain when the configured offset or custom pattern is unusable.
    pub fn try_log(&mut self, record: &LogRecord) -> (r: Result<(), LogError>)
        ensures
            final(self).level == old(self).level,
            final(self).config@ == old(self).config@,
            !(level_passes(old(self).level, record@.level)) || skip_record(
                old(self).config@,
                record@.target,
            ) ==> r is Ok,
            match r {
                Ok(_) => true,
                Err(e) => e == LogError::TimeFormat ==> time_needed(
                    old(self).config@,
                    record@.level,
                ),
            },
            level_passes(old(self).level, record@.level) && !skip_record(
                old(self).config@,
                record@.target,
            ) && time_needed(old(self).config@, record@.level) && time_unavailable(
                old(self).config@,
            ) ==> r == Err::<(), LogError>(LogError::TimeFormat),
    {
        if !self.enabled(record.level) {
            return Ok(());
        }
        if should_skip(&self.config, record) {
            return Ok(());
        }
        let ops = match render_with_time(&self.config, record) {
            Ok(o) => o,
            Err(e) => {
                return Err(e);
            },
        };
        if record.level == Level::Error {
            write_ops(&mut self.streams.err, &ops)
        } else {
            write_ops(&mut self.streams.out, &ops)
        }
    }

    /// Deliver one record, discarding the outcome: terminal logging is
    /// best-effort.
    pub fn log(&mut self, record: &LogRecord)
        ensures
            final(self).level == old(self).level,
            final(self).config@ == old(self).config@,
    {
        let _ = self.try_log(record);
    }

    /// Flush both streams.
    pub fn flush(&mut self)
        ensures
            final(self).level == old(self).level,
            final(self).config@ == old(self).config@,
    {
        let _ = tc_flush(&mut self.streams.out);
        let _ = tc_flush(&mut self.streams.err);
    }

    /// The adapter's severity threshold.
    pub fn level(&self) -> (r: LevelFilter)
        ensures
            r == self.level,
    {
        self.level
    }

    /// The adapter's configuration.
    pub fn config(&self) -> (r: &Config)
        ensures
            r@ == self.config@,
    {
        &self.config
    }
}

} // verus!
