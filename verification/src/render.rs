//! The record renderer.
//!
//! Given a configuration, one record, and the already-formatted time text,
//! the renderer first applies the target allow/deny filters, then walks the
//! configured parts in order. A part is shown exactly when its own threshold
//! and the configuration's threshold for its field both admit the record's
//! level; between two adjacent shown parts a single space is written when
//! either asks for one. The result is a list of output operations: text, and
//! the color changes that wrap the level text for color-capable sinks.

use vstd::prelude::*;

use crate::ansi::ansi_paint;
use crate::ansi::ansi_painted;
use crate::config::color_for;
use crate::config::is_basic_color;
use crate::config::line_ending_seq;
use crate::config::strings_view;
use crate::config::Color;
use crate::config::Config;
use crate::config::ConfigV;
use crate::config::LevelPadding;
use crate::config::LineEnding;
use crate::config::TargetPadding;
use crate::config::ThreadLogMode;
use crate::config::ThreadPadding;
use crate::format::FormatPart;
use crate::format::FormatPartType;
use crate::format::PartTypeV;
use crate::format::PartV;
use crate::level::field_gate;
use crate::level::Level;
use crate::record::LogRecord;
use crate::record::RecordV;
use crate::sinks::LogError;
use crate::text::dec_str;
use crate::text::is_prefix_of;
use crate::text::pad_left;
use crate::text::pad_left_spec;
use crate::text::pad_right;
use crate::text::pad_right_spec;
use crate::text::push_char;
use crate::text::str_starts_with;
use crate::text::strip_thread_id;
use crate::text::strip_thread_id_spec;
use crate::text::u32_to_string;

verus! {

// ------------------------------------------------------------------
// Target filtering
// ------------------------------------------------------------------
/// Whether some entry of `list` is a prefix of `target`.
pub open spec fn any_prefix_matches(list: Seq<Seq<char>>, target: Seq<char>) -> bool {
    exists|i: int| 0 <= i < list.len() && is_prefix_of(list[i], target)
}

/// Whether the configuration suppresses a record with the given target:
/// a non-empty allow-list none of whose entries prefixes the target, or any
/// deny-list entry that does.
pub open spec fn skip_record(c: ConfigV, target: Seq<char>) -> bool {
    (c.filter_allow.len() > 0 && !any_prefix_matches(c.filter_allow, target))
        || any_prefix_matches(c.filter_ignore, target)
}

/// Whether some entry of `list` is a prefix of `target`.
fn matches_any_prefix(list: &Vec<String>, target: &str) -> (r: bool)
    ensures
        r == any_prefix_matches(strings_view(*list), target@),
{
    let n = list.len();
    let mut i: usize = 0;
    while i < n
        invariant
            i <= n,
            n == list@.len(),
            forall|j: int| 0 <= j < i as int ==> !is_prefix_of(strings_view(*list)[j], target@),
        decreases n - i,
    {
        if str_starts_with(target, list[i].as_str()) {
            proof {
                assert(is_prefix_of(strings_view(*list)[i as int], target@));
            }
            return true;
        }
        i = i + 1;
    }
    false
}

/// Whether the configured allow/deny filters suppress the record.
pub fn should_skip(config: &Config, record: &LogRecord) -> (r: bool)
    ensures
        r == skip_record(config@, record@.target),
{
    if config.filter_allow.len() > 0 {
        if !matches_any_prefix(&config.filter_allow, record.target.as_str()) {
            return true;
        }
    }
    if config.filter_ignore.len() > 0 {
        if matches_any_prefix(&config.filter_ignore, record.target.as_str()) {
            return true;
        }
    }
    false
}

// ------------------------------------------------------------------
// Field texts
// ------------------------------------------------------------------
/// The name of a level, as rendered.
pub open spec fn level_text(l: Level) -> Seq<char> {
    match l {
        Level::Error => "ERROR"@,
        Level::Warn => "WARN"@,
        Level::Info => "INFO"@,
        Level::Debug => "DEBUG"@,
        Level::Trace => "TRACE"@,
    }
}

/// The name of a level as an executable string.
pub fn level_string(l: Level) -> (r: String)
    ensures
        r@ == level_text(l),
{
    match l {
        Level::Error => String::from_str("ERROR"),
        Level::Warn => String::from_str("WARN"),
        Level::Info => String::from_str("INFO"),
        Level::Debug => String::from_str("DEBUG"),
        Level::Trace => String::from_str("TRACE"),
    }
}

/// The level field: the level's name padded to five characters per the
/// configuration, wrapped in ANSI escapes when colors are written in-band.
pub open spec fn level_field_text(c: ConfigV, l: Level) -> Seq<char> {
    let padded = match c.level_padding {
        LevelPadding::Left => pad_left_spec(level_text(l), 5),
        LevelPadding::Right => pad_right_spec(level_text(l), 5),
        LevelPadding::Off => level_text(l),
    };
    if c.write_log_enable_colors {
        match color_for(c, l) {
            Some(col) => if is_basic_color(col) {
                ansi_painted(col, padded)
            } else {
                padded
            },
            None => padded,
        }
    } else {
        padded
    }
}

/// The thread id or name, padded per the configuration.
pub open spec fn pad_thread_spec(c: ConfigV, s: Seq<char>) -> Seq<char> {
    match c.thread_padding {
        ThreadPadding::Left(w) => pad_left_spec(s, w as int),
        ThreadPadding::Right(w) => pad_right_spec(s, w as int),
        ThreadPadding::Off => s,
    }
}

/// `s` wrapped in parentheses.
pub open spec fn parenthesized(s: Seq<char>) -> Seq<char> {
    seq!['('] + s + seq![')']
}

/// The thread field in id mode: the stripped id, padded, in parentheses.
pub open spec fn thread_id_text(c: ConfigV, r: RecordV) -> Seq<char> {
    parenthesized(pad_thread_spec(c, strip_thread_id_spec(r.thread_id)))
}

/// The thread field in name mode: the name, padded, in parentheses; an
/// unnamed thread shows its id in `Both` mode and nothing in `Names` mode.
pub open spec fn thread_name_text(c: ConfigV, r: RecordV) -> Seq<char> {
    match r.thread_name {
        Some(name) => parenthesized(pad_thread_spec(c, name)),
        None => if c.thread_log_mode is Both {
            thread_id_text(c, r)
        } else {
            Seq::empty()
        },
    }
}

/// The thread field, per the configured mode.
pub open spec fn thread_text(c: ConfigV, r: RecordV) -> Seq<char> {
    match c.thread_log_mode {
        ThreadLogMode::IDs => thread_id_text(c, r),
        ThreadLogMode::Names => thread_name_text(c, r),
        ThreadLogMode::Both => thread_name_text(c, r),
    }
}

/// The target field: the record's target, padded per the configuration.
pub open spec fn target_text(c: ConfigV, r: RecordV) -> Seq<char> {
    match c.target_padding {
        TargetPadding::Left(w) => pad_left_spec(r.target, w as int),
        TargetPadding::Right(w) => pad_right_spec(r.target, w as int),
        TargetPadding::Off => r.target,
    }
}

/// The location field: `file:line`, with a placeholder for either part
/// when unknown.
pub open spec fn location_text(r: RecordV) -> Seq<char> {
    (match r.file {
        Some(f) => f,
        None => "<unknown>"@,
    }) + seq![':'] + (match r.line {
        Some(l) => dec_str(l as nat),
        None => "<unknown>"@,
    })
}

/// The module-path field: the record's module path, with a placeholder
/// when unknown, padded like the target.
pub open spec fn mod_path_text(c: ConfigV, r: RecordV) -> Seq<char> {
    let base = match r.mod_path {
        Some(m) => m,
        None => "<unknown>"@,
    };
    match c.target_padding {
        TargetPadding::Left(w) => pad_left_spec(base, w as int),
        TargetPadding::Right(w) => pad_right_spec(base, w as int),
        TargetPadding::Off => base,
    }
}

/// The message field: the message followed by the configured line ending.
pub open spec fn args_text(c: ConfigV, r: RecordV) -> Seq<char> {
    r.message + line_ending_seq(c.line_ending)
}

/// The text a part renders, `now` being the formatted time.
pub open spec fn part_text(c: ConfigV, p: PartV, r: RecordV, now: Seq<char>) -> Seq<char> {
    match p.part_type {
        PartTypeV::Time => now,
        PartTypeV::Level => level_field_text(c, r.level),
        PartTypeV::Thread => thread_text(c, r),
        PartTypeV::Target => target_text(c, r),
        PartTypeV::Location => location_text(r),
        PartTypeV::ModulePath => mod_path_text(c, r),
        PartTypeV::Args => args_text(c, r),
        PartTypeV::Literal(s) => s,
    }
}

// ------------------------------------------------------------------
// Gating
// ------------------------------------------------------------------
/// The configuration's gate for a part: the per-field threshold for the
/// typed fields, and no further condition for literals, the module path and
/// the message.
pub open spec fn config_gate(c: ConfigV, t: PartTypeV, l: Level) -> bool {
    match t {
        PartTypeV::Time => field_gate(c.time, l),
        PartTypeV::Level => field_gate(c.level, l),
        PartTypeV::Thread => field_gate(c.thread, l),
        PartTypeV::Target => field_gate(c.target, l),
        PartTypeV::Location => field_gate(c.location, l),
        PartTypeV::ModulePath => true,
        PartTypeV::Args => true,
        PartTypeV::Literal(_) => true,
    }
}

/// Whether a part is on for a record at level `l`: both its own threshold
/// and the configuration's gate for its field must admit the level.
pub open spec fn part_on(c: ConfigV, p: PartV, l: Level) -> bool {
    field_gate(p.level_filter, l) && config_gate(c, p.part_type, l)
}

/// Whether a part contributes to the output: it is on and its text is
/// non-empty.
pub open spec fn part_shown(c: ConfigV, p: PartV, r: RecordV, now: Seq<char>) -> bool {
    part_on(c, p, r.level) && part_text(c, p, r, now).len() > 0
}

/// Whether a part is on for the record's level.
pub fn part_enabled(config: &Config, part: &FormatPart, level: Level) -> (r: bool)
    ensures
        r == part_on(config@, part@, level),
{
    let own = part.level_filter.shows_field(level);
    let cfg = match &part.part_type {
        FormatPartType::Time => config.time.shows_field(level),
        FormatPartType::Level => config.level.shows_field(level),
        FormatPartType::Thread => config.thread.shows_field(level),
        FormatPartType::Target => config.target.shows_field(level),
        FormatPartType::Location => config.location.shows_field(level),
        FormatPartType::ModulePath => true,
        FormatPartType::Args => true,
        FormatPartType::Literal(_) => true,
    };
    own && cfg
}

// ------------------------------------------------------------------
// The rendered line
// ------------------------------------------------------------------
/// The separator before a shown part: one space when the previously shown
/// part (`prev`, `None` at the start of the line) or the part itself asks
/// for a surrounding space; never at the start of the line.
pub open spec fn sep_text(prev: Option<bool>, wrap: bool) -> Seq<char> {
    match prev {
        None => Seq::empty(),
        Some(pw) => if pw || wrap {
            seq![' ']
        } else {
            Seq::empty()
        },
    }
}

/// The text of the parts in `parts`, after a previously shown part with
/// wrap flag `prev`: each shown part renders its separator and its text,
/// and a part that is off or empty renders nothing.
pub open spec fn render_parts(
    c: ConfigV,
    parts: Seq<PartV>,
    r: RecordV,
    now: Seq<char>,
    prev: Option<bool>,
) -> Seq<char>
    decreases parts.len(),
{
    if parts.len() == 0 {
        Seq::empty()
    } else if part_shown(c, parts[0], r, now) {
        sep_text(prev, parts[0].wrap_space) + part_text(c, parts[0], r, now) + render_parts(
            c,
            parts.drop_first(),
            r,
            now,
            Some(parts[0].wrap_space),
        )
    } else {
        render_parts(c, parts.drop_first(), r, now, prev)
    }
}

/// The full text rendered for one record: empty when the target filters
/// suppress it, otherwise the configured parts in order.
pub open spec fn rendered(c: ConfigV, r: RecordV, now: Seq<char>) -> Seq<char> {
    if skip_record(c, r.target) {
        Seq::empty()
    } else {
        render_parts(c, c.output_format, r, now, None)
    }
}

// ------------------------------------------------------------------
// Output operations
// ------------------------------------------------------------------
/// One output operation: a piece of text, or a color change that a
/// color-capable sink applies around the level text.
pub enum RenderOp {
    /// Write this text.
    Text(String),
    /// Set the foreground color, `None` meaning the default foreground.
    SetColor(Option<Color>),
    /// Reset colors to the default.
    ResetColor,
}

/// The text one operation contributes.
pub open spec fn op_text_of(op: RenderOp) -> Seq<char> {
    match op {
        RenderOp::Text(s) => s@,
        RenderOp::SetColor(_) => Seq::<char>::empty(),
        RenderOp::ResetColor => Seq::<char>::empty(),
    }
}

/// The text of a list of operations: the concatenation of its `Text`
/// payloads.
pub open spec fn ops_text(ops: Seq<RenderOp>) -> Seq<char>
    decreases ops.len(),
{
    if ops.len() == 0 {
        Seq::empty()
    } else {
        ops_text(ops.drop_last()) + op_text_of(ops.last())
    }
}

/// What an operation may be, for a record at level `l`: a set-color
/// operation always carries the configuration's color for `l`, and color
/// operations appear only when colors are not written in-band.
pub open spec fn op_ok(c: ConfigV, l: Level, op: RenderOp) -> bool {
    match op {
        RenderOp::Text(_) => true,
        RenderOp::SetColor(col) => col == color_for(c, l) && !c.write_log_enable_colors,
        RenderOp::ResetColor => !c.write_log_enable_colors,
    }
}

/// Appending an operation appends its text.
pub proof fn lemma_ops_text_push(ops: Seq<RenderOp>, op: RenderOp)
    ensures
        ops_text(ops.push(op)) == ops_text(ops) + op_text_of(op),
{
    let pushed = ops.push(op);
    assert(pushed.drop_last() =~= ops);
    assert(pushed.last() == op);
}

/// The mathematical value of an output operation.
#[verifier::ext_equal]
pub enum OpV {
    Text(Seq<char>),
    SetColor(Option<Color>),
    ResetColor,
}

/// The value of one operation.
pub open spec fn op_view(op: RenderOp) -> OpV {
    match op {
        RenderOp::Text(s) => OpV::Text(s@),
        RenderOp::SetColor(c) => OpV::SetColor(c),
        RenderOp::ResetColor => OpV::ResetColor,
    }
}

/// The values of a list of operations.
pub open spec fn ops_view(ops: Seq<RenderOp>) -> Seq<OpV> {
    ops.map_values(|op: RenderOp| op_view(op))
}

/// Appending an operation appends its value.
pub proof fn lemma_ops_view_push(ops: Seq<RenderOp>, op: RenderOp)
    ensures
        ops_view(ops.push(op)) == ops_view(ops).push(op_view(op)),
{
    assert(ops_view(ops.push(op)) =~= ops_view(ops).push(op_view(op)));
}

/// The operations one shown part contributes: a level part is wrapped in a
/// set-color operation carrying the configuration's color for the record's
/// level and a reset — unless colors are written in-band, in which case the
/// escape sequences already stand in the text — and every other part is its
/// text alone.
pub open spec fn part_ops(c: ConfigV, p: PartV, r: RecordV, now: Seq<char>) -> Seq<OpV> {
    if p.part_type is Level && !c.write_log_enable_colors {
        seq![
            OpV::SetColor(color_for(c, r.level)),
            OpV::Text(part_text(c, p, r, now)),
            OpV::ResetColor,
        ]
    } else {
        seq![OpV::Text(part_text(c, p, r, now))]
    }
}

/// The separator operations before a shown part: at most one space of text.
pub open spec fn sep_ops(prev: Option<bool>, wrap: bool) -> Seq<OpV> {
    match prev {
        None => Seq::empty(),
        Some(pw) => if pw || wrap {
            seq![OpV::Text(seq![' '])]
        } else {
            Seq::empty()
        },
    }
}

/// The operations for a list of parts: each shown part contributes its
/// separator and its operations, in order, and nothing else — in
/// particular, color operations stand exactly around the level text.
pub open spec fn render_parts_ops(
    c: ConfigV,
    parts: Seq<PartV>,
    r: RecordV,
    now: Seq<char>,
    prev: Option<bool>,
) -> Seq<OpV>
    decreases parts.len(),
{
    if parts.len() == 0 {
        Seq::empty()
    } else if part_shown(c, parts[0], r, now) {
        sep_ops(prev, parts[0].wrap_space) + part_ops(c, parts[0], r, now) + render_parts_ops(
            c,
            parts.drop_first(),
            r,
            now,
            Some(parts[0].wrap_space),
        )
    } else {
        render_parts_ops(c, parts.drop_first(), r, now, prev)
    }
}

/// The full operation sequence for one record: empty when the target
/// filters suppress it, otherwise the configured parts in order.
pub open spec fn record_ops(c: ConfigV, r: RecordV, now: Seq<char>) -> Seq<OpV> {
    if skip_record(c, r.target) {
        Seq::empty()
    } else {
        render_parts_ops(c, c.output_format, r, now, None)
    }
}

/// The text one operation value contributes.
pub open spec fn opv_text(op: OpV) -> Seq<char> {
    match op {
        OpV::Text(s) => s,
        OpV::SetColor(_) => Seq::empty(),
        OpV::ResetColor => Seq::empty(),
    }
}

/// The text of a list of operation values.
pub open spec fn opsv_text(ops: Seq<OpV>) -> Seq<char>
    decreases ops.len(),
{
    if ops.len() == 0 {
        Seq::empty()
    } else {
        opv_text(ops[0]) + opsv_text(ops.drop_first())
    }
}

/// The text of a concatenation is the concatenation of the texts.
pub proof fn lemma_opsv_text_concat(a: Seq<OpV>, b: Seq<OpV>)
    ensures
        opsv_text(a + b) == opsv_text(a) + opsv_text(b),
    decreases a.len(),
{
    if a.len() == 0 {
        assert(a + b =~= b);
        assert(opsv_text(a) + opsv_text(b) =~= opsv_text(b));
    } else {
        assert((a + b).len() > 0);
        assert((a + b)[0] == a[0]);
        assert((a + b).drop_first() =~= a.drop_first() + b);
        lemma_opsv_text_concat(a.drop_first(), b);
        assert(opsv_text(a + b) =~= opsv_text(a) + opsv_text(b));
    }
}

// ------------------------------------------------------------------
// Executable field rendering
// ------------------------------------------------------------------
/// The configuration's color for records at this level.
pub fn color_at(config: &Config, level: Level) -> (r: Option<Color>)
    ensures
        r == color_for(config@, level),
{
    let idx = level.ord() as usize;
    if idx < config.level_color.len() {
        config.level_color[idx]
    } else {
        None
    }
}

/// Render the level field.
pub fn write_level(config: &Config, level: Level) -> (t: String)
    ensures
        t@ == level_field_text(config@, level),
{
    let name = level_string(level);
    let padded = match config.level_padding {
        LevelPadding::Left => pad_left(name.as_str(), 5),
        LevelPadding::Right => pad_right(name.as_str(), 5),
        LevelPadding::Off => name,
    };
    if config.write_log_enable_colors {
        match color_at(config, level) {
            Some(c) => {
                if c.is_basic() {
                    ansi_paint(c, padded.as_str())
                } else {
                    padded
                }
            },
            None => padded,
        }
    } else {
        padded
    }
}

/// Pad a thread id or name per the configuration.
fn pad_thread(config: &Config, s: &str) -> (t: String)
    ensures
        t@ == pad_thread_spec(config@, s@),
{
    match config.thread_padding {
        ThreadPadding::Left(w) => pad_left(s, w),
        ThreadPadding::Right(w) => pad_right(s, w),
        ThreadPadding::Off => s.to_owned(),
    }
}

/// `s` wrapped in parentheses.
fn parenthesize(s: &str) -> (t: String)
    ensures
        t@ == parenthesized(s@),
{
    let mut t = String::new();
    push_char(&mut t, '(');
    t.append(s);
    push_char(&mut t, ')');
    proof {
        assert(t@ =~= parenthesized(s@));
    }
    t
}

/// Render the thread field in id mode.
pub fn write_thread_id(config: &Config, record: &LogRecord) -> (t: String)
    ensures
        t@ == thread_id_text(config@, record@),
{
    let stripped = strip_thread_id(record.thread_id.as_str());
    let padded = pad_thread(config, stripped.as_str());
    parenthesize(padded.as_str())
}

/// Render the thread field in name mode, falling back to the id in `Both`
/// mode when the thread is unnamed.
pub fn write_thread_name(config: &Config, record: &LogRecord) -> (t: String)
    ensures
        t@ == thread_name_text(config@, record@),
{
    match &record.thread_name {
        Some(name) => {
            let padded = pad_thread(config, name.as_str());
            parenthesize(padded.as_str())
        },
        None => {
            if config.thread_log_mode == ThreadLogMode::Both {
                write_thread_id(config, record)
            } else {
                String::new()
            }
        },
    }
}

/// Render the thread field per the configured mode.
pub fn write_thread(config: &Config, record: &LogRecord) -> (t: String)
    ensures
        t@ == thread_text(config@, record@),
{
    match config.thread_log_mode {
        ThreadLogMode::IDs => write_thread_id(config, record),
        ThreadLogMode::Names => write_thread_name(config, record),
        ThreadLogMode::Both => write_thread_name(config, record),
    }
}

/// Render the target field.
pub fn write_target(config: &Config, record: &LogRecord) -> (t: String)
    ensures
        t@ == target_text(config@, record@),
{
    match config.target_padding {
        TargetPadding::Left(w) => pad_left(record.target.as_str(), w),
        TargetPadding::Right(w) => pad_right(record.target.as_str(), w),
        TargetPadding::Off => record.target.as_str().to_owned(),
    }
}

/// Render the location field, `file:line`.
pub fn write_location(record: &LogRecord) -> (t: String)
    ensures
        t@ == location_text(record@),
{
    let mut t = match &record.file {
        Some(f) => f.clone(),
        None => String::from_str("<unknown>"),
    };
    push_char(&mut t, ':');
    match record.line {
        Some(l) => {
            let digits = u32_to_string(l);
            t.append(digits.as_str());
        },
        None => {
            t.append("<unknown>");
        },
    }
    proof {
        assert(t@ =~= location_text(record@));
    }
    t
}

/// Render the module-path field.
pub fn write_module_path(config: &Config, record: &LogRecord) -> (t: String)
    ensures
        t@ == mod_path_text(config@, record@),
{
    let base = match &record.mod_path {
        Some(m) => m.clone(),
        None => String::from_str("<unknown>"),
    };
    match config.target_padding {
        TargetPadding::Left(w) => pad_left(base.as_str(), w),
        TargetPadding::Right(w) => pad_right(base.as_str(), w),
        TargetPadding::Off => base,
    }
}

/// Render the message field, terminated by the configured line ending.
pub fn write_args(record: &LogRecord, ending: LineEnding) -> (t: String)
    ensures
        t@ == record@.message + line_ending_seq(ending),
{
    let mut t = record.message.clone();
    match ending {
        LineEnding::LF => push_char(&mut t, '\u{000A}'),
        LineEnding::CR => push_char(&mut t, '\u{000D}'),
        LineEnding::Crlf => {
            push_char(&mut t, '\u{000D}');
            push_char(&mut t, '\u{000A}');
        },
        LineEnding::VT => push_char(&mut t, '\u{000B}'),
        LineEnding::FF => push_char(&mut t, '\u{000C}'),
        LineEnding::Nel => push_char(&mut t, '\u{0085}'),
        LineEnding::LS => push_char(&mut t, '\u{2028}'),
        LineEnding::PS => push_char(&mut t, '\u{2029}'),
    }
    proof {
        assert(t@ =~= record@.message + line_ending_seq(ending));
    }
    t
}

/// Render the text of one part.
fn part_string(config: &Config, part: &FormatPart, record: &LogRecord, now: &str) -> (t: String)
    ensures
        t@ == part_text(config@, part@, record@, now@),
{
    match &part.part_type {
        FormatPartType::Time => now.to_owned(),
        FormatPartType::Level => write_level(config, record.level),
        FormatPartType::Thread => write_thread(config, record),
        FormatPartType::Target => write_target(config, record),
        FormatPartType::Location => write_location(record),
        FormatPartType::ModulePath => write_module_path(config, record),
        FormatPartType::Args => write_args(record, config.line_ending),
        FormatPartType::Literal(s) => s.clone(),
    }
}

// ------------------------------------------------------------------
// The renderer
// ------------------------------------------------------------------
/// Render one record to a list of output operations, `now` being the
/// already-formatted time text. The operations' text is exactly the
/// rendered line — empty when the target filters suppress the record — and
/// every color operation carries the configuration's color for the record's
/// level.
pub fn render(config: &Config, record: &LogRecord, now: &str) -> (ops: Vec<RenderOp>)
    ensures
        ops_view(ops@) == record_ops(config@, record@, now@),
        ops_text(ops@) == rendered(config@, record@, now@),
        forall|i: int| 0 <= i < ops@.len() ==> op_ok(config@, record@.level, #[trigger] ops@[i]),
{
    let ghost cv = config@;
    let ghost rv = record@;
    let mut ops: Vec<RenderOp> = Vec::new();
    if should_skip(config, record) {
        proof {
            assert(ops_view(ops@) =~= record_ops(cv, rv, now@));
        }
        return ops;
    }
    let n = config.output_format.format_parts.len();
    let mut i: usize = 0;
    let mut prev: Option<bool> = None;
    proof {
        assert(cv.output_format.skip(0) =~= cv.output_format);
    }
    while i < n
        invariant
            i <= n,
            n == config.output_format.format_parts@.len(),
            cv == config@,
            rv == record@,
            cv.output_format.len() == n,
            !skip_record(cv, rv.target),
            ops_text(ops@) + render_parts(cv, cv.output_format.skip(i as int), rv, now@, prev)
                == render_parts(cv, cv.output_format, rv, now@, None),
            ops_view(ops@) + render_parts_ops(cv, cv.output_format.skip(i as int), rv, now@, prev)
                == render_parts_ops(cv, cv.output_format, rv, now@, None),
            forall|k: int| 0 <= k < ops@.len() ==> op_ok(cv, rv.level, #[trigger] ops@[k]),
        decreases n - i,
    {
        let part = &config.output_format.format_parts[i];
        proof {
            assert(cv.output_format.skip(i as int).len() > 0);
            assert(cv.output_format.skip(i as int)[0] == part@);
            assert(cv.output_format.skip(i as int).drop_first() =~= cv.output_format.skip(
                i as int + 1,
            ));
        }
        let on = part_enabled(config, part, record.level);
        if on {
            let txt = part_string(config, part, record, now);
            if txt.as_str().unicode_len() > 0 {
                match prev {
                    Some(pw) => {
                        if pw || part.wrap_space {
                            let sp = String::from_str(" ");
                            proof {
                                reveal_strlit(" ");
                                assert(sp@ =~= seq![' ']);
                                lemma_ops_text_push(ops@, RenderOp::Text(sp));
                                lemma_ops_view_push(ops@, RenderOp::Text(sp));
                            }
                            ops.push(RenderOp::Text(sp));
                        }
                    },
                    None => {},
                }
                let is_level = match &part.part_type {
                    FormatPartType::Level => true,
                    _ => false,
                };
                if is_level && !config.write_log_enable_colors {
                    let col = color_at(config, record.level);
                    proof {
                        lemma_ops_text_push(ops@, RenderOp::SetColor(col));
                        lemma_ops_view_push(ops@, RenderOp::SetColor(col));
                    }
                    ops.push(RenderOp::SetColor(col));
                    proof {
                        lemma_ops_text_push(ops@, RenderOp::Text(txt));
                        lemma_ops_view_push(ops@, RenderOp::Text(txt));
                    }
                    ops.push(RenderOp::Text(txt));
                    proof {
                        lemma_ops_text_push(ops@, RenderOp::ResetColor);
                        lemma_ops_view_push(ops@, RenderOp::ResetColor);
                    }
                    ops.push(RenderOp::ResetColor);
                } else {
                    proof {
                        lemma_ops_text_push(ops@, RenderOp::Text(txt));
                        lemma_ops_view_push(ops@, RenderOp::Text(txt));
                    }
                    ops.push(RenderOp::Text(txt));
                }
                prev = Some(part.wrap_space);
            }
        }
        i = i + 1;
        proof {
            assert(ops_text(ops@) + render_parts(cv, cv.output_format.skip(i as int), rv, now@, prev)
                =~= render_parts(cv, cv.output_format, rv, now@, None));
            assert(ops_view(ops@) + render_parts_ops(
                cv,
                cv.output_format.skip(i as int),
                rv,
                now@,
                prev,
            ) =~= render_parts_ops(cv, cv.output_format, rv, now@, None));
        }
    }
    proof {
        assert(cv.output_format.skip(n as int) =~= Seq::<PartV>::empty());
        assert(ops_text(ops@) =~= rendered(cv, rv, now@));
        assert(ops_view(ops@) =~= record_ops(cv, rv, now@));
    }
    ops
}

/// The concatenated text of a list of operations.
pub fn ops_to_string(ops: &Vec<RenderOp>) -> (s: String)
    ensures
        s@ == ops_text(ops@),
{
    let mut s = String::new();
    let n = ops.len();
    let mut i: usize = 0;
    proof {
        assert(ops@.take(0) =~= Seq::<RenderOp>::empty());
    }
    while i < n
        invariant
            i <= n,
            n == ops@.len(),
            s@ == ops_text(ops@.take(i as int)),
        decreases n - i,
    {
        proof {
            assert(ops@.take(i as int + 1).drop_last() =~= ops@.take(i as int));
            assert(ops@.take(i as int + 1).last() == ops@[i as int]);
        }
        match &ops[i] {
            RenderOp::Text(t) => {
                s.append(t.as_str());
            },
            RenderOp::SetColor(_) => {},
            RenderOp::ResetColor => {},
        }
        i = i + 1;
        proof {
            assert(s@ =~= ops_text(ops@.take(i as int)));
        }
    }
    proof {
        assert(ops@.take(n as int) =~= ops@);
        assert(s@ =~= ops_text(ops@));
    }
    s
}

/// Render one record to plain text, colors ignored.
pub fn render_to_string(config: &Config, record: &LogRecord, now: &str) -> (s: String)
    ensures
        s@ == rendered(config@, record@, now@),
{
    let ops = render(config, record, now);
    ops_to_string(&ops)
}

// ------------------------------------------------------------------
// Rendering with the clock
// ------------------------------------------------------------------
/// Whether some time part is shown for a record at level `l`, so that the
/// clock must be consulted.
pub open spec fn time_needed(c: ConfigV, l: Level) -> bool {
    exists|i: int|
        0 <= i < c.output_format.len() && (c.output_format[i].part_type is Time) && part_on(
            c,
            c.output_format[i],
            l,
        )
}

/// Whether a time part is shown for a record at level `level`.
pub fn config_needs_time(config: &Config, level: Level) -> (r: bool)
    ensures
        r == time_needed(config@, level),
{
    let n = config.output_format.format_parts.len();
    let mut i: usize = 0;
    while i < n
        invariant
            i <= n,
            n == config.output_format.format_parts@.len(),
            n == config@.output_format.len(),
            forall|j: int|
                0 <= j < i as int ==> !((config@.output_format[j].part_type is Time) && part_on(
                    config@,
                    config@.output_format[j],
                    level,
                )),
        decreases n - i,
    {
        let part = &config.output_format.format_parts[i];
        let is_time = match &part.part_type {
            FormatPartType::Time => true,
            _ => false,
        };
        if is_time {
            if part_enabled(config, part, level) {
                proof {
                    assert((config@.output_format[i as int].part_type is Time) && part_on(
                        config@,
                        config@.output_format[i as int],
                        level,
                    ));
                }
                return true;
            }
        }
        i = i + 1;
    }
    false
}

/// Render one record, consulting the clock when a time part is shown.
/// The operations' text is the rendered line for some time text `now`; a
/// suppressed record renders no operations, and the error — the configured
/// time format producing no text — can arise only when a time part is
/// shown for an unsuppressed record.
pub fn render_with_time(config: &Config, record: &LogRecord) -> (r: Result<
    Vec<RenderOp>,
    LogError,
>)
    ensures
        match r {
            Ok(ops) => (exists|now: Seq<char>|
                ops_text(ops@) == rendered(config@, record@, now) && ops_view(ops@) == record_ops(
                    config@,
                    record@,
                    now,
                )) && (forall|i: int|
                0 <= i < ops@.len() ==> op_ok(config@, record@.level, #[trigger] ops@[i])) && (
            skip_record(config@, record@.target) ==> ops@.len() == 0) && (!time_needed(
                config@,
                record@.level,
            ) ==> ops_text(ops@) == rendered(config@, record@, Seq::<char>::empty()) && ops_view(
                ops@,
            ) == record_ops(config@, record@, Seq::<char>::empty())),
            Err(e) => e == LogError::TimeFormat && time_needed(config@, record@.level)
                && !skip_record(config@, record@.target),
        },
        time_needed(config@, record@.level) && !skip_record(config@, record@.target)
            && crate::timefmt::time_unavailable(config@) ==> r is Err,
{
    if should_skip(config, record) {
        let ops: Vec<RenderOp> = Vec::new();
        proof {
            let now: Seq<char> = Seq::empty();
            assert(ops_text(ops@) == rendered(config@, record@, now));
            assert(ops_view(ops@) =~= record_ops(config@, record@, now));
        }
        return Ok(ops);
    }
    let now: String = if config_needs_time(config, record.level) {
        match crate::timefmt::format_time_now(&config.time_format, config.time_offset) {
            Some(s) => s,
            None => {
                return Err(LogError::TimeFormat);
            },
        }
    } else {
        String::new()
    };
    let ops = render(config, record, now.as_str());
    proof {
        assert(ops_text(ops@) == rendered(config@, record@, now@));
        assert(ops_view(ops@) == record_ops(config@, record@, now@));
        if !time_needed(config@, record@.level) {
            assert(now@ =~= Seq::<char>::empty());
        }
    }
    Ok(ops)
}

} // verus!
