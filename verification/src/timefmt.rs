//! The time field's connection to the clock.
//!
//! The current instant depends on the moment of the call, so nothing is
//! promised about the text it formats to; the renderer takes that text as
//! an input. Whether a custom pattern is well formed, however, depends on
//! the pattern alone, and is given a name that contracts can use; and an
//! out-of-range offset or a rejected pattern provably yields no text.

use vstd::prelude::*;

use crate::config::offset_in_range;
use crate::config::TimeFormat;

verus! {

/// Whether the time crate's format-description syntax accepts the pattern.
pub uninterp spec fn time_pattern_ok(p: Seq<char>) -> bool;

/// Whether a configuration's time settings can never produce a time text:
/// an offset outside the representable range, or a custom pattern the
/// syntax rejects.
pub open spec fn time_unavailable(c: crate::config::ConfigV) -> bool {
    !offset_in_range(c.time_offset) || match c.time_format {
        crate::config::TimeFormatV::Custom(p) => !time_pattern_ok(p),
        crate::config::TimeFormatV::Rfc2822 => false,
        crate::config::TimeFormatV::Rfc3339 => false,
    }
}

/// The declaration of the time crate's instant-with-offset.
#[verifier::external_type_specification]
#[verifier::external_body]
pub struct ExOffsetDateTime(time::OffsetDateTime);

/// The declaration of the time crate's offset.
#[verifier::external_type_specification]
#[verifier::external_body]
pub struct ExUtcOffset(time::UtcOffset);

/// The declaration of the time crate's parsed, owned format description.
#[verifier::external_type_specification]
#[verifier::external_body]
pub struct ExOwnedFormatItem(time::format_description::OwnedFormatItem);

/// Relies on `time::format_description::parse_owned`: accepts or rejects
/// the pattern depending on the pattern alone.
#[verifier::external_body]
fn parse_time_pattern(pattern: &str) -> (r: Option<time::format_description::OwnedFormatItem>)
    ensures
        (r is Some) == time_pattern_ok(pattern@),
{
    time::format_description::parse_owned::<2>(pattern).ok()
}

/// Relies on `time::OffsetDateTime::now_utc`: the current instant.
#[verifier::external_body]
fn now_utc() -> (r: time::OffsetDateTime) {
    time::OffsetDateTime::now_utc()
}

/// Relies on `time::UtcOffset::from_whole_seconds`: an offset for exactly
/// the seconds within twenty-five hours, fifty-nine minutes and fifty-nine
/// seconds of UTC.
#[verifier::external_body]
fn offset_from_seconds(seconds: i32) -> (r: Option<time::UtcOffset>)
    ensures
        (r is Some) == offset_in_range(seconds),
{
    time::UtcOffset::from_whole_seconds(seconds).ok()
}

/// Relies on `time::OffsetDateTime::to_offset`: the same instant under the
/// given offset.
#[verifier::external_body]
fn with_offset(dt: time::OffsetDateTime, offset: time::UtcOffset) -> (r: time::OffsetDateTime) {
    dt.to_offset(offset)
}

/// Relies on `time::OffsetDateTime::format` with the RFC 2822 description:
/// the instant's text, `None` when formatting fails.
#[verifier::external_body]
fn format_rfc2822(dt: time::OffsetDateTime) -> (r: Option<String>) {
    dt.format(&time::format_description::well_known::Rfc2822).ok()
}

/// Relies on `time::OffsetDateTime::format` with the RFC 3339 description:
/// the instant's text, `None` when formatting fails.
#[verifier::external_body]
fn format_rfc3339(dt: time::OffsetDateTime) -> (r: Option<String>) {
    dt.format(&time::format_description::well_known::Rfc3339).ok()
}

/// Relies on `time::OffsetDateTime::format` with a parsed description: the
/// instant's text, `None` when formatting fails.
#[verifier::external_body]
fn format_with_pattern(
    dt: time::OffsetDateTime,
    items: &time::format_description::OwnedFormatItem,
) -> (r: Option<String>) {
    dt.format(items).ok()
}

/// Relies on `time::UtcOffset::current_local_offset` and `whole_seconds`:
/// the system's current UTC offset in whole seconds, `None` when it cannot
/// be soundly determined; a determined offset always lies in the range an
/// offset can represent.
#[verifier::external_body]
pub(crate) fn local_offset_seconds() -> (r: Option<i32>)
    ensures
        match r {
            Some(s) => offset_in_range(s),
            None => true,
        },
{
    match time::UtcOffset::current_local_offset() {
        Ok(o) => Some(o.whole_seconds()),
        Err(_) => None,
    }
}

/// Whether the time crate accepts `pattern` as a custom time format; a
/// record whose configuration holds a rejected pattern fails to render with
/// a time-format error.
pub fn time_pattern_is_valid(pattern: &str) -> (r: bool)
    ensures
        r == time_pattern_ok(pattern@),
{
    parse_time_pattern(pattern).is_some()
}

/// The current time formatted per the configuration: the text depends on
/// the moment of the call, but an out-of-range offset or a rejected custom
/// pattern yields no text.
pub fn format_time_now(format: &TimeFormat, offset_seconds: i32) -> (r: Option<String>)
    ensures
        !offset_in_range(offset_seconds) ==> r is None,
        match format@ {
            crate::config::TimeFormatV::Custom(p) => !time_pattern_ok(p) ==> r is None,
            _ => true,
        },
{
    let offset = match offset_from_seconds(offset_seconds) {
        Some(o) => o,
        None => {
            return None;
        },
    };
    let dt = with_offset(now_utc(), offset);
    match format {
        TimeFormat::Rfc2822 => format_rfc2822(dt),
        TimeFormat::Rfc3339 => format_rfc3339(dt),
        TimeFormat::Custom(p) => {
            match parse_time_pattern(p.as_str()) {
                Some(items) => format_with_pattern(dt, &items),
                None => None,
            }
        },
    }
}

} // verus!
