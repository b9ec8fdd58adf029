//! Severity levels and filter thresholds.
//!
//! A record's level is ordered by verbosity: `Error` is the most severe and
//! least verbose, `Trace` the least severe and most verbose. A filter
//! threshold admits a record (or turns a field on) exactly when the
//! threshold's ordinal is at most the record's ordinal; `Off` admits nothing.

use vstd::prelude::*;

verus! {

/// Severity of a single log record, from most severe (`Error`) to most
/// verbose (`Trace`).
#[derive(Clone, Copy, PartialEq, Eq, Structural, Debug, Hash)]
pub enum Level {
    Error,
    Warn,
    Info,
    Debug,
    Trace,
}

/// A verbosity threshold: either `Off` (nothing passes) or a level; a
/// threshold set to `Error` passes every record, one set to `Trace` passes
/// only `Trace` records when used as a field gate, and everything when used
/// as an adapter gate.
#[derive(Clone, Copy, PartialEq, Eq, Structural, Debug, Hash)]
pub enum LevelFilter {
    Off,
    Error,
    Warn,
    Info,
    Debug,
    Trace,
}

/// Ordinal of a level: 1 for `Error` up to 5 for `Trace`.
pub open spec fn level_ord(l: Level) -> int {
    match l {
        Level::Error => 1,
        Level::Warn => 2,
        Level::Info => 3,
        Level::Debug => 4,
        Level::Trace => 5,
    }
}

/// Ordinal of a filter: 0 for `Off`, otherwise the ordinal of its level.
pub open spec fn filter_ord(f: LevelFilter) -> int {
    match f {
        LevelFilter::Off => 0,
        LevelFilter::Error => 1,
        LevelFilter::Warn => 2,
        LevelFilter::Info => 3,
        LevelFilter::Debug => 4,
        LevelFilter::Trace => 5,
    }
}

/// An adapter with threshold `f` accepts a record at level `l` iff the
/// record is at least as severe as the threshold, i.e. `l`'s ordinal is at
/// most `f`'s; `Off` accepts nothing.
pub open spec fn level_passes(f: LevelFilter, l: Level) -> bool {
    level_ord(l) <= filter_ord(f)
}

/// A field gated at threshold `f` is shown for a record at level `l` iff
/// `f` is not `Off` and `f`'s ordinal is at most `l`'s: raising a field's
/// threshold makes it appear only on more verbose records.
pub open spec fn field_gate(f: LevelFilter, l: Level) -> bool {
    f != LevelFilter::Off && filter_ord(f) <= level_ord(l)
}

impl Level {
    /// The ordinal as an executable value.
    pub fn ord(&self) -> (r: u8)
        ensures
            r as int == level_ord(*self),
    {
        match self {
            Level::Error => 1,
            Level::Warn => 2,
            Level::Info => 3,
            Level::Debug => 4,
            Level::Trace => 5,
        }
    }

    /// The filter that admits exactly this level and the more severe ones.
    pub fn to_level_filter(&self) -> (r: LevelFilter)
        ensures
            filter_ord(r) == level_ord(*self),
    {
        match self {
            Level::Error => LevelFilter::Error,
            Level::Warn => LevelFilter::Warn,
            Level::Info => LevelFilter::Info,
            Level::Debug => LevelFilter::Debug,
            Level::Trace => LevelFilter::Trace,
        }
    }
}

impl LevelFilter {
    /// The ordinal as an executable value.
    pub fn ord(&self) -> (r: u8)
        ensures
            r as int == filter_ord(*self),
    {
        match self {
            LevelFilter::Off => 0,
            LevelFilter::Error => 1,
            LevelFilter::Warn => 2,
            LevelFilter::Info => 3,
            LevelFilter::Debug => 4,
            LevelFilter::Trace => 5,
        }
    }

    /// Whether a record at level `l` passes this threshold when it gates a
    /// whole adapter.
    pub fn passes(&self, l: Level) -> (r: bool)
        ensures
            r == level_passes(*self, l),
    {
        l.ord() <= self.ord()
    }

    /// Whether a field gated at this threshold is shown for a record at
    /// level `l`.
    pub fn shows_field(&self, l: Level) -> (r: bool)
        ensures
            r == field_gate(*self, l),
    {
        let o = self.ord();
        0 < o && o <= l.ord()
    }

    /// The more verbose of two thresholds; ties keep this one.
    pub fn max_verbosity(self, other: LevelFilter) -> (r: LevelFilter)
        ensures
            r == if filter_ord(self) >= filter_ord(other) {
                self
            } else {
                other
            },
    {
        if self.ord() >= other.ord() {
            self
        } else {
            other
        }
    }
}

} // verus!
