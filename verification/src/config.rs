//! The logger configuration and its builder.
//!
//! A configuration says, per renderable field, from which verbosity on the
//! field appears, how it is padded, how the time is formatted and with which
//! offset, which colors the level is printed in, how lines end, and which
//! targets are allowed or denied. It is an immutable snapshot produced by
//! [`ConfigBuilder::build`].

use vstd::prelude::*;

use crate::format::default_format;
use crate::format::Format;
use crate::format::PartV;
use crate::level::Level;
use crate::level::level_ord;
use crate::level::LevelFilter;

verus! {

/// Padding of the level name to its fixed width of five characters.
#[derive(Clone, Copy, PartialEq, Eq, Structural, Debug)]
pub enum LevelPadding {
    /// Add spaces on the left side.
    Left,
    /// Add spaces on the right side.
    Right,
    /// Do not pad the level.
    Off,
}

/// Padding of the thread id or name to the given width.
#[derive(Clone, Copy, PartialEq, Eq, Structural, Debug)]
pub enum ThreadPadding {
    /// Add spaces on the left side, up to the given width.
    Left(usize),
    /// Add spaces on the right side, up to the given width.
    Right(usize),
    /// Do not pad the thread id or name.
    Off,
}

/// Padding of the target to the given width.
#[derive(Clone, Copy, PartialEq, Eq, Structural, Debug)]
pub enum TargetPadding {
    /// Add spaces on the left side, up to the given width.
    Left(usize),
    /// Add spaces on the right side, up to the given width.
    Right(usize),
    /// Do not pad the target.
    Off,
}

/// How the issuing thread is identified in the output.
#[derive(Clone, Copy, PartialEq, Eq, Structural, Debug)]
pub enum ThreadLogMode {
    /// Log thread ids only.
    IDs,
    /// Log thread names only; an unnamed thread logs nothing.
    Names,
    /// Log the thread's name, falling back to its id when it has none.
    Both,
}

/// A terminal color for the level text.
#[derive(Clone, Copy, PartialEq, Eq, Structural, Debug)]
pub enum Color {
    Black,
    Blue,
    Green,
    Red,
    Cyan,
    Magenta,
    Yellow,
    White,
    /// An 8-bit terminal palette index.
    Ansi256(u8),
    /// A 24-bit color.
    Rgb(u8, u8, u8),
}

impl Color {
    /// Whether this is one of the eight basic colors, for which an ANSI
    /// escape sequence is emitted when colors are written into a plain sink.
    pub fn is_basic(&self) -> (r: bool)
        ensures
            r == is_basic_color(*self),
    {
        match self {
            Color::Ansi256(_) => false,
            Color::Rgb(_, _, _) => false,
            _ => true,
        }
    }
}

/// Whether a color is one of the eight basic ones.
pub open spec fn is_basic_color(c: Color) -> bool {
    !(c is Ansi256 || c is Rgb)
}

/// The byte sequence that terminates each rendered record.
#[derive(Clone, Copy, PartialEq, Eq, Structural, Debug)]
pub enum LineEnding {
    /// Line feed, `U+000A`.
    LF,
    /// Carriage return, `U+000D`.
    CR,
    /// Carriage return followed by line feed.
    Crlf,
    /// Vertical tab, `U+000B`.
    VT,
    /// Form feed, `U+000C`.
    FF,
    /// Next line, `U+0085`.
    Nel,
    /// Line separator, `U+2028`.
    LS,
    /// Paragraph separator, `U+2029`.
    PS,
}

/// The characters a line ending stands for.
pub open spec fn line_ending_seq(e: LineEnding) -> Seq<char> {
    match e {
        LineEnding::LF => seq!['\u{000A}'],
        LineEnding::CR => seq!['\u{000D}'],
        LineEnding::Crlf => seq!['\u{000D}', '\u{000A}'],
        LineEnding::VT => seq!['\u{000B}'],
        LineEnding::FF => seq!['\u{000C}'],
        LineEnding::Nel => seq!['\u{0085}'],
        LineEnding::LS => seq!['\u{2028}'],
        LineEnding::PS => seq!['\u{2029}'],
    }
}

/// How the time field is rendered.
pub enum TimeFormat {
    /// The RFC 2822 date and time format.
    Rfc2822,
    /// The RFC 3339 date and time format.
    Rfc3339,
    /// A custom pattern in the time crate's format-description syntax.
    Custom(String),
}

/// The mathematical value of a [`TimeFormat`].
#[verifier::ext_equal]
pub enum TimeFormatV {
    Rfc2822,
    Rfc3339,
    Custom(Seq<char>),
}

impl View for TimeFormat {
    type V = TimeFormatV;

    open spec fn view(&self) -> TimeFormatV {
        match self {
            TimeFormat::Rfc2822 => TimeFormatV::Rfc2822,
            TimeFormat::Rfc3339 => TimeFormatV::Rfc3339,
            TimeFormat::Custom(s) => TimeFormatV::Custom(s@),
        }
    }
}

impl TimeFormat {
    /// An independent copy with the same value.
    pub fn duplicate(&self) -> (r: TimeFormat)
        ensures
            r@ == self@,
    {
        match self {
            TimeFormat::Rfc2822 => TimeFormat::Rfc2822,
            TimeFormat::Rfc3339 => TimeFormat::Rfc3339,
            TimeFormat::Custom(s) => TimeFormat::Custom(s.clone()),
        }
    }
}

/// The largest offset, in whole seconds, that the time field can apply:
/// twenty-five hours, fifty-nine minutes and fifty-nine seconds.
pub const MAX_UTC_OFFSET_SECONDS: i32 = 93599;

/// Whether `seconds` is an offset the time field can apply.
pub open spec fn offset_in_range(seconds: i32) -> bool {
    -93599 <= seconds <= 93599
}

/// The configuration of a logger: one immutable value shared by every
/// record the logger renders.
pub struct Config {
    /// Threshold of the time field; default `Error`, i.e. always shown.
    pub time: LevelFilter,
    /// Threshold of the level field; default `Error`.
    pub level: LevelFilter,
    pub level_padding: LevelPadding,
    /// Threshold of the thread field; default `Debug`.
    pub thread: LevelFilter,
    pub thread_log_mode: ThreadLogMode,
    pub thread_padding: ThreadPadding,
    /// Threshold of the target field; default `Debug`.
    pub target: LevelFilter,
    pub target_padding: TargetPadding,
    /// Threshold of the location field; default `Trace`.
    pub location: LevelFilter,
    pub time_format: TimeFormat,
    /// Display offset from UTC, in whole seconds.
    pub time_offset: i32,
    pub line_ending: LineEnding,
    /// When non-empty, only records whose target starts with one of these
    /// entries are rendered.
    pub filter_allow: Vec<String>,
    /// Records whose target starts with one of these entries are never
    /// rendered.
    pub filter_ignore: Vec<String>,
    /// One color slot per severity level, indexed by the level's ordinal;
    /// slot zero is the default, unthemed slot.
    pub level_color: Vec<Option<Color>>,
    /// Whether plain sinks wrap the level text in ANSI escape sequences.
    pub write_log_enable_colors: bool,
    /// The parts of a rendered record, in order.
    pub output_format: Format,
}

/// The mathematical value of a [`Config`].
#[verifier::ext_equal]
pub struct ConfigV {
    pub time: LevelFilter,
    pub level: LevelFilter,
    pub level_padding: LevelPadding,
    pub thread: LevelFilter,
    pub thread_log_mode: ThreadLogMode,
    pub thread_padding: ThreadPadding,
    pub target: LevelFilter,
    pub target_padding: TargetPadding,
    pub location: LevelFilter,
    pub time_format: TimeFormatV,
    pub time_offset: i32,
    pub line_ending: LineEnding,
    pub filter_allow: Seq<Seq<char>>,
    pub filter_ignore: Seq<Seq<char>>,
    pub level_color: Seq<Option<Color>>,
    pub write_log_enable_colors: bool,
    pub output_format: Seq<PartV>,
}

/// The views of a list of strings.
pub open spec fn strings_view(v: Vec<String>) -> Seq<Seq<char>> {
    v@.map_values(|s: String| s@)
}

impl View for Config {
    type V = ConfigV;

    open spec fn view(&self) -> ConfigV {
        ConfigV {
            time: self.time,
            level: self.level,
            level_padding: self.level_padding,
            thread: self.thread,
            thread_log_mode: self.thread_log_mode,
            thread_padding: self.thread_padding,
            target: self.target,
            target_padding: self.target_padding,
            location: self.location,
            time_format: self.time_format@,
            time_offset: self.time_offset,
            line_ending: self.line_ending,
            filter_allow: strings_view(self.filter_allow),
            filter_ignore: strings_view(self.filter_ignore),
            level_color: self.level_color@,
            write_log_enable_colors: self.write_log_enable_colors,
            output_format: self.output_format@,
        }
    }
}

/// The color the configuration assigns to records at level `l`, or `None`
/// when the color table has no slot for it.
pub open spec fn color_for(c: ConfigV, l: Level) -> Option<Color> {
    if 0 <= level_ord(l) < c.level_color.len() {
        c.level_color[level_ord(l)]
    } else {
        None
    }
}

/// The default configuration: time and level always shown, thread and
/// target from `Debug` on, location only at `Trace`; no padding, UTC,
/// an `HH:MM:SS` time, line feed endings, no filters, and the standard
/// color table.
pub open spec fn default_config() -> ConfigV {
    ConfigV {
        time: LevelFilter::Error,
        level: LevelFilter::Error,
        level_padding: LevelPadding::Off,
        thread: LevelFilter::Debug,
        thread_log_mode: ThreadLogMode::IDs,
        thread_padding: ThreadPadding::Off,
        target: LevelFilter::Debug,
        target_padding: TargetPadding::Off,
        location: LevelFilter::Trace,
        time_format: TimeFormatV::Custom("[hour]:[minute]:[second]"@),
        time_offset: 0,
        line_ending: LineEnding::LF,
        filter_allow: Seq::empty(),
        filter_ignore: Seq::empty(),
        level_color: seq![
            None,
            Some(Color::Red),
            Some(Color::Yellow),
            Some(Color::Blue),
            Some(Color::Cyan),
            Some(Color::White),
        ],
        write_log_enable_colors: false,
        output_format: default_format(),
    }
}

impl Config {
    /// An independent copy with the same value.
    pub fn duplicate(&self) -> (r: Config)
        ensures
            r@ == self@,
    {
        let r = Config {
            time: self.time,
            level: self.level,
            level_padding: self.level_padding,
            thread: self.thread,
            thread_log_mode: self.thread_log_mode,
            thread_padding: self.thread_padding,
            target: self.target,
            target_padding: self.target_padding,
            location: self.location,
            time_format: self.time_format.duplicate(),
            time_offset: self.time_offset,
            line_ending: self.line_ending,
            filter_allow: duplicate_strings(&self.filter_allow),
            filter_ignore: duplicate_strings(&self.filter_ignore),
            level_color: duplicate_colors(&self.level_color),
            write_log_enable_colors: self.write_log_enable_colors,
            output_format: self.output_format.duplicate(),
        };
        proof {
            assert(r@ =~= self@);
        }
        r
    }
}

/// An elementwise copy of a list of strings, with the same views.
fn duplicate_strings(v: &Vec<String>) -> (r: Vec<String>)
    ensures
        strings_view(r) == strings_view(*v),
{
    let mut r: Vec<String> = Vec::new();
    let n = v.len();
    let mut i: usize = 0;
    while i < n
        invariant
            i <= n,
            n == v@.len(),
            r@.len() == i as int,
            forall|j: int| 0 <= j < i as int ==> r@[j]@ == v@[j]@,
        decreases n - i,
    {
        r.push(v[i].clone());
        i = i + 1;
    }
    proof {
        assert(strings_view(r) =~= strings_view(*v));
    }
    r
}

/// A copy of a color table.
fn duplicate_colors(v: &Vec<Option<Color>>) -> (r: Vec<Option<Color>>)
    ensures
        r@ == v@,
{
    let mut r: Vec<Option<Color>> = Vec::new();
    let n = v.len();
    let mut i: usize = 0;
    while i < n
        invariant
            i <= n,
            n == v@.len(),
            r@ == v@.subrange(0, i as int),
        decreases n - i,
    {
        r.push(v[i]);
        i = i + 1;
        proof {
            assert(r@ =~= v@.subrange(0, i as int));
        }
    }
    proof {
        assert(r@ =~= v@);
    }
    r
}

impl Default for Config {
    /// The default configuration.
    fn default() -> (r: Config)
        ensures
            r@ == default_config(),
    {
        let mut colors: Vec<Option<Color>> = Vec::new();
        colors.push(None);
        colors.push(Some(Color::Red));
        colors.push(Some(Color::Yellow));
        colors.push(Some(Color::Blue));
        colors.push(Some(Color::Cyan));
        colors.push(Some(Color::White));
        let r = Config {
            time: LevelFilter::Error,
            level: LevelFilter::Error,
            level_padding: LevelPadding::Off,
            thread: LevelFilter::Debug,
            thread_log_mode: ThreadLogMode::IDs,
            thread_padding: ThreadPadding::Off,
            target: LevelFilter::Debug,
            target_padding: TargetPadding::Off,
            location: LevelFilter::Trace,
            time_format: TimeFormat::Custom(String::from_str("[hour]:[minute]:[second]")),
            time_offset: 0,
            line_ending: LineEnding::LF,
            filter_allow: Vec::new(),
            filter_ignore: Vec::new(),
            level_color: colors,
            write_log_enable_colors: false,
            output_format: Format::default(),
        };
        proof {
            assert(r@ =~= default_config());
        }
        r
    }
}

/// Builds a [`Config`] incrementally; every setter is total and atomic, and
/// [`ConfigBuilder::build`] takes a pure snapshot, so building twice from
/// the same builder state yields equal configurations.
pub struct ConfigBuilder(pub Config);

impl View for ConfigBuilder {
    type V = ConfigV;

    open spec fn view(&self) -> ConfigV {
        self.0@
    }
}

impl ConfigBuilder {
    /// A builder holding the default configuration.
    pub fn new() -> (r: ConfigBuilder)
        ensures
            r@ == default_config(),
    {
        ConfigBuilder(Config::default())
    }

    /// Set from which verbosity on the level field is shown (default
    /// `Error`, i.e. always).
    pub fn set_max_level(&mut self, level: LevelFilter) -> (r: &mut ConfigBuilder)
        ensures
            r@ == (ConfigV { level, ..old(self)@ }),
            final(self)@ == final(r)@,
    {
        self.0.level = level;
        self
    }

    /// Set from which verbosity on the time field is shown (default
    /// `Error`, i.e. always).
    pub fn set_time_level(&mut self, time: LevelFilter) -> (r: &mut ConfigBuilder)
        ensures
            r@ == (ConfigV { time, ..old(self)@ }),
            final(self)@ == final(r)@,
    {
        self.0.time = time;
        self
    }

    /// Set from which verbosity on the thread field is shown (default
    /// `Debug`).
    pub fn set_thread_level(&mut self, thread: LevelFilter) -> (r: &mut ConfigBuilder)
        ensures
            r@ == (ConfigV { thread, ..old(self)@ }),
            final(self)@ == final(r)@,
    {
        self.0.thread = thread;
        self
    }

    /// Set from which verbosity on the target field is shown (default
    /// `Debug`).
    pub fn set_target_level(&mut self, target: LevelFilter) -> (r: &mut ConfigBuilder)
        ensures
            r@ == (ConfigV { target, ..old(self)@ }),
            final(self)@ == final(r)@,
    {
        self.0.target = target;
        self
    }

    /// Set how the target is padded.
    pub fn set_target_padding(&mut self, padding: TargetPadding) -> (r: &mut ConfigBuilder)
        ensures
            r@ == (ConfigV { target_padding: padding, ..old(self)@ }),
            final(self)@ == final(r)@,
    {
        self.0.target_padding = padding;
        self
    }

    /// Set from which verbosity on the source location is shown (default
    /// `Trace`).
    pub fn set_location_level(&mut self, location: LevelFilter) -> (r: &mut ConfigBuilder)
        ensures
            r@ == (ConfigV { location, ..old(self)@ }),
            final(self)@ == final(r)@,
    {
        self.0.location = location;
        self
    }

    /// Set how the level name is padded (default `Off`).
    pub fn set_level_padding(&mut self, padding: LevelPadding) -> (r: &mut ConfigBuilder)
        ensures
            r@ == (ConfigV { level_padding: padding, ..old(self)@ }),
            final(self)@ == final(r)@,
    {
        self.0.level_padding = padding;
        self
    }

    /// Set how the thread id or name is padded (default `Off`).
    pub fn set_thread_padding(&mut self, padding: ThreadPadding) -> (r: &mut ConfigBuilder)
        ensures
            r@ == (ConfigV { thread_padding: padding, ..old(self)@ }),
            final(self)@ == final(r)@,
    {
        self.0.thread_padding = padding;
        self
    }

    /// Set how the issuing thread is identified (default by id).
    pub fn set_thread_mode(&mut self, mode: ThreadLogMode) -> (r: &mut ConfigBuilder)
        ensures
            r@ == (ConfigV { thread_log_mode: mode, ..old(self)@ }),
            final(self)@ == final(r)@,
    {
        self.0.thread_log_mode = mode;
        self
    }

    /// Assign the color used for the level text of records at `level`, or
    /// `None` for the default foreground.
    pub fn set_level_color(&mut self, level: Level, color: Option<Color>) -> (r: &mut
        ConfigBuilder)
        ensures
            r@ == (ConfigV {
                level_color: if 0 <= level_ord(level) < old(self)@.level_color.len() {
                    old(self)@.level_color.update(level_ord(level), color)
                } else {
                    old(self)@.level_color
                },
                ..old(self)@
            }),
            final(self)@ == final(r)@,
    {
        let idx = level.ord() as usize;
        if idx < self.0.level_color.len() {
            self.0.level_color.set(idx, color);
        }
        self
    }

    /// Set the time field to a custom pattern in the time crate's
    /// format-description syntax; the setter is total, and a pattern the
    /// syntax refuses surfaces as a time-format error when a record is
    /// rendered.
    pub fn set_time_format_custom(&mut self, time_format: &str) -> (r: &mut ConfigBuilder)
        ensures
            r@ == (ConfigV { time_format: TimeFormatV::Custom(time_format@), ..old(self)@ }),
            final(self)@ == final(r)@,
    {
        self.0.time_format = TimeFormat::Custom(time_format.to_owned());
        self
    }

    /// Set the time field to the RFC 2822 format.
    pub fn set_time_format_rfc2822(&mut self) -> (r: &mut ConfigBuilder)
        ensures
            r@ == (ConfigV { time_format: TimeFormatV::Rfc2822, ..old(self)@ }),
            final(self)@ == final(r)@,
    {
        self.0.time_format = TimeFormat::Rfc2822;
        self
    }

    /// Set the time field to the RFC 3339 format.
    pub fn set_time_format_rfc3339(&mut self) -> (r: &mut ConfigBuilder)
        ensures
            r@ == (ConfigV { time_format: TimeFormatV::Rfc3339, ..old(self)@ }),
            final(self)@ == final(r)@,
    {
        self.0.time_format = TimeFormat::Rfc3339;
        self
    }

    /// Set the display offset from UTC, in whole seconds (default zero).
    /// Returns false, leaving the builder unchanged, when the offset lies
    /// outside the range a time offset can represent.
    pub fn set_time_offset(&mut self, seconds: i32) -> (ok: bool)
        ensures
            ok == offset_in_range(seconds),
            final(self)@ == if offset_in_range(seconds) {
                ConfigV { time_offset: seconds, ..old(self)@ }
            } else {
                old(self)@
            },
    {
        if -MAX_UTC_OFFSET_SECONDS <= seconds && seconds <= MAX_UTC_OFFSET_SECONDS {
            self.0.time_offset = seconds;
            true
        } else {
            false
        }
    }

    /// Set the display offset to the system's current local offset,
    /// overriding a value set by [`ConfigBuilder::set_time_offset`].
    /// Returns false, leaving the builder unchanged, when the local offset
    /// cannot be soundly determined — for example in a process that is
    /// already multi-threaded where the lookup is not thread-safe.
    pub fn set_time_offset_to_local(&mut self) -> (ok: bool)
        ensures
            ok ==> exists|s: i32|
                offset_in_range(s) && final(self)@ == (ConfigV { time_offset: s, ..old(self)@ }),
            !ok ==> final(self)@ == old(self)@,
    {
        match crate::timefmt::local_offset_seconds() {
            Some(s) => {
                self.0.time_offset = s;
                true
            },
            None => false,
        }
    }

    /// Set the line ending written after each record (default line feed).
    pub fn set_line_ending(&mut self, line_ending: LineEnding) -> (r: &mut ConfigBuilder)
        ensures
            r@ == (ConfigV { line_ending, ..old(self)@ }),
            final(self)@ == final(r)@,
    {
        self.0.line_ending = line_ending;
        self
    }

    /// Set whether plain sinks wrap the level text in ANSI escape
    /// sequences (default off).
    pub fn set_write_log_enable_colors(&mut self, local: bool) -> (r: &mut ConfigBuilder)
        ensures
            r@ == (ConfigV { write_log_enable_colors: local, ..old(self)@ }),
            final(self)@ == final(r)@,
    {
        self.0.write_log_enable_colors = local;
        self
    }

    /// Replace the output format.
    pub fn set_output_format(&mut self, format: Format) -> (r: &mut ConfigBuilder)
        ensures
            r@ == (ConfigV { output_format: format@, ..old(self)@ }),
            final(self)@ == final(r)@,
    {
        self.0.output_format = format;
        self
    }

    /// Add an allowed target prefix: once any is present, only records
    /// whose target starts with one of them are rendered.
    pub fn add_filter_allow_str(&mut self, filter_allow: &str) -> (r: &mut ConfigBuilder)
        ensures
            r@ == (ConfigV {
                filter_allow: old(self)@.filter_allow.push(filter_allow@),
                ..old(self)@
            }),
            final(self)@ == final(r)@,
    {
        self.0.filter_allow.push(filter_allow.to_owned());
        proof {
            assert(self@.filter_allow =~= old(self)@.filter_allow.push(filter_allow@));
        }
        self
    }

    /// Add an allowed target prefix, owned.
    pub fn add_filter_allow(&mut self, filter_allow: String) -> (r: &mut ConfigBuilder)
        ensures
            r@ == (ConfigV {
                filter_allow: old(self)@.filter_allow.push(filter_allow@),
                ..old(self)@
            }),
            final(self)@ == final(r)@,
    {
        self.0.filter_allow.push(filter_allow);
        proof {
            assert(self@.filter_allow =~= old(self)@.filter_allow.push(filter_allow@));
        }
        self
    }

    /// Remove every allowed target prefix, so that nothing is filtered out
    /// by the allow-list.
    pub fn clear_filter_allow(&mut self) -> (r: &mut ConfigBuilder)
        ensures
            r@ == (ConfigV { filter_allow: Seq::empty(), ..old(self)@ }),
            final(self)@ == final(r)@,
    {
        self.0.filter_allow = Vec::new();
        proof {
            assert(self@.filter_allow =~= Seq::<Seq<char>>::empty());
        }
        self
    }

    /// Add a denied target prefix: records whose target starts with it are
    /// never rendered.
    pub fn add_filter_ignore_str(&mut self, filter_ignore: &str) -> (r: &mut ConfigBuilder)
        ensures
            r@ == (ConfigV {
                filter_ignore: old(self)@.filter_ignore.push(filter_ignore@),
                ..old(self)@
            }),
            final(self)@ == final(r)@,
    {
        self.0.filter_ignore.push(filter_ignore.to_owned());
        proof {
            assert(self@.filter_ignore =~= old(self)@.filter_ignore.push(filter_ignore@));
        }
        self
    }

    /// Add a denied target prefix, owned.
    pub fn add_filter_ignore(&mut self, filter_ignore: String) -> (r: &mut ConfigBuilder)
        ensures
            r@ == (ConfigV {
                filter_ignore: old(self)@.filter_ignore.push(filter_ignore@),
                ..old(self)@
            }),
            final(self)@ == final(r)@,
    {
        self.0.filter_ignore.push(filter_ignore);
        proof {
            assert(self@.filter_ignore =~= old(self)@.filter_ignore.push(filter_ignore@));
        }
        self
    }

    /// Remove every denied target prefix.
    pub fn clear_filter_ignore(&mut self) -> (r: &mut ConfigBuilder)
        ensures
            r@ == (ConfigV { filter_ignore: Seq::empty(), ..old(self)@ }),
            final(self)@ == final(r)@,
    {
        self.0.filter_ignore = Vec::new();
        proof {
            assert(self@.filter_ignore =~= Seq::<Seq<char>>::empty());
        }
        self
    }

    /// A snapshot of the staged configuration: a pure read that leaves the
    /// builder as it is, so two builds from the same state are equal.
    pub fn build(&self) -> (r: Config)
        ensures
            r@ == self@,
    {
        self.0.duplicate()
    }
}

impl Default for ConfigBuilder {
    /// A builder holding the default configuration.
    fn default() -> (r: ConfigBuilder)
        ensures
            r@ == default_config(),
    {
        ConfigBuilder::new()
    }
}

} // verus!
