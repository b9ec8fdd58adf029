//! The output format: an ordered list of parts, each a renderable field, a
//! literal, or the message, together with its spacing and its own verbosity
//! threshold.
//!
//! A part whose threshold is `Error` is shown for every record (subject to
//! the configuration's own per-field thresholds); raising the threshold makes
//! the part appear only on more verbose records, and `Off` hides it.

use vstd::prelude::*;

use crate::level::LevelFilter;

verus! {

/// What a format part renders.
pub enum FormatPartType {
    /// The current time, formatted per the configuration.
    Time,
    /// The record's severity name, padded and possibly colored.
    Level,
    /// The issuing thread's id or name, per the configuration.
    Thread,
    /// The record's target string, padded per the configuration.
    Target,
    /// The record's source location, `file:line`.
    Location,
    /// The record's module path.
    ModulePath,
    /// The record's message, terminated by the configured line ending.
    Args,
    /// A fixed piece of text.
    Literal(String),
}

/// The mathematical value of a [`FormatPartType`].
#[verifier::ext_equal]
pub enum PartTypeV {
    Time,
    Level,
    Thread,
    Target,
    Location,
    ModulePath,
    Args,
    Literal(Seq<char>),
}

impl View for FormatPartType {
    type V = PartTypeV;

    open spec fn view(&self) -> PartTypeV {
        match self {
            FormatPartType::Time => PartTypeV::Time,
            FormatPartType::Level => PartTypeV::Level,
            FormatPartType::Thread => PartTypeV::Thread,
            FormatPartType::Target => PartTypeV::Target,
            FormatPartType::Location => PartTypeV::Location,
            FormatPartType::ModulePath => PartTypeV::ModulePath,
            FormatPartType::Args => PartTypeV::Args,
            FormatPartType::Literal(s) => PartTypeV::Literal(s@),
        }
    }
}

/// One entry of the output format.
pub struct FormatPart {
    pub part_type: FormatPartType,
    /// Whether a single space separates this part from its rendered
    /// neighbours; between two adjacent rendered parts the space is written
    /// exactly once.
    pub wrap_space: bool,
    /// The part's own verbosity threshold; `Error` (the default) shows the
    /// part for every record.
    pub level_filter: LevelFilter,
}

/// The mathematical value of a [`FormatPart`].
#[verifier::ext_equal]
pub struct PartV {
    pub part_type: PartTypeV,
    pub wrap_space: bool,
    pub level_filter: LevelFilter,
}

impl View for FormatPart {
    type V = PartV;

    open spec fn view(&self) -> PartV {
        PartV {
            part_type: self.part_type@,
            wrap_space: self.wrap_space,
            level_filter: self.level_filter,
        }
    }
}

impl FormatPart {
    /// A part of the given type, without surrounding spaces, shown for every
    /// record that its field's configuration threshold admits.
    pub fn new(part_type: FormatPartType) -> (r: FormatPart)
        ensures
            r@ == (PartV {
                part_type: part_type@,
                wrap_space: false,
                level_filter: LevelFilter::Error,
            }),
    {
        FormatPart { part_type, wrap_space: false, level_filter: LevelFilter::Error }
    }

    /// An independent copy with the same value.
    pub fn duplicate(&self) -> (r: FormatPart)
        ensures
            r@ == self@,
    {
        let part_type = match &self.part_type {
            FormatPartType::Time => FormatPartType::Time,
            FormatPartType::Level => FormatPartType::Level,
            FormatPartType::Thread => FormatPartType::Thread,
            FormatPartType::Target => FormatPartType::Target,
            FormatPartType::Location => FormatPartType::Location,
            FormatPartType::ModulePath => FormatPartType::ModulePath,
            FormatPartType::Args => FormatPartType::Args,
            FormatPartType::Literal(s) => FormatPartType::Literal(s.clone()),
        };
        FormatPart { part_type, wrap_space: self.wrap_space, level_filter: self.level_filter }
    }
}

/// The output format: the parts in the order they are rendered.
pub struct Format {
    pub format_parts: Vec<FormatPart>,
}

impl View for Format {
    type V = Seq<PartV>;

    open spec fn view(&self) -> Seq<PartV> {
        self.format_parts@.map_values(|p: FormatPart| p@)
    }
}

impl Format {
    /// An independent copy with the same value.
    pub fn duplicate(&self) -> (r: Format)
        ensures
            r@ == self@,
    {
        let mut parts: Vec<FormatPart> = Vec::new();
        let n = self.format_parts.len();
        let mut i: usize = 0;
        while i < n
            invariant
                i <= n,
                n == self.format_parts@.len(),
                parts@.len() == i as int,
                forall|j: int| 0 <= j < i as int ==> parts@[j]@ == self.format_parts@[j]@,
            decreases n - i,
        {
            parts.push(self.format_parts[i].duplicate());
            i = i + 1;
        }
        let r = Format { format_parts: parts };
        proof {
            assert(r@ =~= self@);
        }
        r
    }
}

impl Default for Format {
    /// The standard layout: time, the bracketed level, the thread, the
    /// target with a `":"` separator shown from `Debug` on, the bracketed
    /// source location shown from `Trace` on — the brackets carry the same
    /// threshold as the location field's default, so no empty brackets
    /// appear on less verbose records — and finally the message.
    fn default() -> (r: Format)
        ensures
            r@ == default_format(),
    {
        let f = FormatBuilder::new()
            .begin_time().wrap_space(true).end()
            .literal("[")
            .level()
            .literal("]")
            .begin_thread().wrap_space(true).end()
            .target()
            .begin_literal(":").filter_level(LevelFilter::Debug).end()
            .begin_literal(" [").filter_level(LevelFilter::Trace).end()
            .location()
            .begin_literal("]").filter_level(LevelFilter::Trace).end()
            .begin_args().wrap_space(true).end()
            .build();
        proof {
            assert(f@ =~= default_format());
        }
        f
    }
}

/// A fixed part with neither spacing nor a restricting threshold.
pub open spec fn plain_part(t: PartTypeV) -> PartV {
    PartV { part_type: t, wrap_space: false, level_filter: LevelFilter::Error }
}

/// The value of the default format.
pub open spec fn default_format() -> Seq<PartV> {
    seq![
        PartV { part_type: PartTypeV::Time, wrap_space: true, level_filter: LevelFilter::Error },
        plain_part(PartTypeV::Literal("["@)),
        plain_part(PartTypeV::Level),
        plain_part(PartTypeV::Literal("]"@)),
        PartV { part_type: PartTypeV::Thread, wrap_space: true, level_filter: LevelFilter::Error },
        plain_part(PartTypeV::Target),
        PartV {
            part_type: PartTypeV::Literal(":"@),
            wrap_space: false,
            level_filter: LevelFilter::Debug,
        },
        PartV {
            part_type: PartTypeV::Literal(" ["@),
            wrap_space: false,
            level_filter: LevelFilter::Trace,
        },
        plain_part(PartTypeV::Location),
        PartV {
            part_type: PartTypeV::Literal("]"@),
            wrap_space: false,
            level_filter: LevelFilter::Trace,
        },
        PartV { part_type: PartTypeV::Args, wrap_space: true, level_filter: LevelFilter::Error },
    ]
}

/// The staged state of a [`FormatBuilder`].
#[verifier::ext_equal]
pub struct BuilderV {
    pub parts: Seq<PartV>,
    pub current: Option<PartV>,
}

/// Builds a [`Format`] incrementally: each `begin_*` call opens a part,
/// `wrap_space` and `filter_level` adjust the open part, and `end` appends
/// it to the format.
pub struct FormatBuilder {
    pub format: Format,
    pub current_part: Option<FormatPart>,
}

impl View for FormatBuilder {
    type V = BuilderV;

    open spec fn view(&self) -> BuilderV {
        BuilderV {
            parts: self.format@,
            current: match self.current_part {
                Some(p) => Some(p@),
                None => None,
            },
        }
    }
}

impl FormatBuilder {
    /// An empty format under construction.
    pub fn new() -> (r: FormatBuilder)
        ensures
            r@ == (BuilderV { parts: Seq::<PartV>::empty(), current: None }),
    {
        let r = FormatBuilder { format: Format { format_parts: Vec::new() }, current_part: None };
        proof {
            assert(r@ =~= BuilderV { parts: Seq::<PartV>::empty(), current: None });
        }
        r
    }

    /// Set whether the open part is separated from its neighbours by a
    /// space; does nothing when no part is open.
    pub fn wrap_space(&mut self, wrap_space: bool) -> (r: &mut FormatBuilder)
        ensures
            r@ == (match old(self)@.current {
                Some(p) => BuilderV {
                    parts: old(self)@.parts,
                    current: Some(PartV { wrap_space, ..p }),
                },
                None => old(self)@,
            }),
            final(self)@ == final(r)@,
    {
        match &mut self.current_part {
            Some(p) => {
                p.wrap_space = wrap_space;
            },
            None => {},
        }
        self
    }

    /// Set the open part's verbosity threshold; does nothing when no part
    /// is open.
    pub fn filter_level(&mut self, level_filter: LevelFilter) -> (r: &mut FormatBuilder)
        ensures
            r@ == (match old(self)@.current {
                Some(p) => BuilderV {
                    parts: old(self)@.parts,
                    current: Some(PartV { level_filter, ..p }),
                },
                None => old(self)@,
            }),
            final(self)@ == final(r)@,
    {
        match &mut self.current_part {
            Some(p) => {
                p.level_filter = level_filter;
            },
            None => {},
        }
        self
    }

    /// Open a time part.
    pub fn begin_time(&mut self) -> (r: &mut FormatBuilder)
        ensures
            r@ == (BuilderV {
                parts: old(self)@.parts,
                current: Some(plain_part(PartTypeV::Time)),
            }),
            final(self)@ == final(r)@,
    {
        self.current_part = Some(FormatPart::new(FormatPartType::Time));
        self
    }

    /// Open a level part.
    pub fn begin_level(&mut self) -> (r: &mut FormatBuilder)
        ensures
            r@ == (BuilderV {
                parts: old(self)@.parts,
                current: Some(plain_part(PartTypeV::Level)),
            }),
            final(self)@ == final(r)@,
    {
        self.current_part = Some(FormatPart::new(FormatPartType::Level));
        self
    }

    /// Open a thread part.
    pub fn begin_thread(&mut self) -> (r: &mut FormatBuilder)
        ensures
            r@ == (BuilderV {
                parts: old(self)@.parts,
                current: Some(plain_part(PartTypeV::Thread)),
            }),
            final(self)@ == final(r)@,
    {
        self.current_part = Some(FormatPart::new(FormatPartType::Thread));
        self
    }

    /// Open a target part.
    pub fn begin_target(&mut self) -> (r: &mut FormatBuilder)
        ensures
            r@ == (BuilderV {
                parts: old(self)@.parts,
                current: Some(plain_part(PartTypeV::Target)),
            }),
            final(self)@ == final(r)@,
    {
        self.current_part = Some(FormatPart::new(FormatPartType::Target));
        self
    }

    /// Open a location part.
    pub fn begin_location(&mut self) -> (r: &mut FormatBuilder)
        ensures
            r@ == (BuilderV {
                parts: old(self)@.parts,
                current: Some(plain_part(PartTypeV::Location)),
            }),
            final(self)@ == final(r)@,
    {
        self.current_part = Some(FormatPart::new(FormatPartType::Location));
        self
    }

    /// Open a module-path part.
    pub fn begin_module_path(&mut self) -> (r: &mut FormatBuilder)
        ensures
            r@ == (BuilderV {
                parts: old(self)@.parts,
                current: Some(plain_part(PartTypeV::ModulePath)),
            }),
            final(self)@ == final(r)@,
    {
        self.current_part = Some(FormatPart::new(FormatPartType::ModulePath));
        self
    }

    /// Open a message part.
    pub fn begin_args(&mut self) -> (r: &mut FormatBuilder)
        ensures
            r@ == (BuilderV {
                parts: old(self)@.parts,
                current: Some(plain_part(PartTypeV::Args)),
            }),
            final(self)@ == final(r)@,
    {
        self.current_part = Some(FormatPart::new(FormatPartType::Args));
        self
    }

    /// Open a literal part with the given text.
    pub fn begin_literal(&mut self, literal: &str) -> (r: &mut FormatBuilder)
        ensures
            r@ == (BuilderV {
                parts: old(self)@.parts,
                current: Some(plain_part(PartTypeV::Literal(literal@))),
            }),
            final(self)@ == final(r)@,
    {
        self.current_part = Some(FormatPart::new(FormatPartType::Literal(literal.to_owned())));
        self
    }

    /// Close the open part and append it to the format; does nothing when
    /// no part is open.
    pub fn end(&mut self) -> (r: &mut FormatBuilder)
        ensures
            r@ == (match old(self)@.current {
                Some(p) => BuilderV { parts: old(self)@.parts.push(p), current: None },
                None => old(self)@,
            }),
            final(self)@ == final(r)@,
    {
        let taken = self.current_part.take();
        match taken {
            Some(p) => {
                self.format.format_parts.push(p);
                proof {
                    assert(self@.parts =~= old(self)@.parts.push(old(self)@.current->Some_0));
                }
            },
            None => {},
        }
        self
    }

    /// Append a time part without spacing or threshold.
    pub fn time(&mut self) -> (r: &mut FormatBuilder)
        ensures
            r@ == (BuilderV {
                parts: old(self)@.parts.push(plain_part(PartTypeV::Time)),
                current: None,
            }),
            final(self)@ == final(r)@,
    {
        self.begin_time().end()
    }

    /// Append a level part without spacing or threshold.
    pub fn level(&mut self) -> (r: &mut FormatBuilder)
        ensures
            r@ == (BuilderV {
                parts: old(self)@.parts.push(plain_part(PartTypeV::Level)),
                current: None,
            }),
            final(self)@ == final(r)@,
    {
        self.begin_level().end()
    }

    /// Append a thread part without spacing or threshold.
    pub fn thread(&mut self) -> (r: &mut FormatBuilder)
        ensures
            r@ == (BuilderV {
                parts: old(self)@.parts.push(plain_part(PartTypeV::Thread)),
                current: None,
            }),
            final(self)@ == final(r)@,
    {
        self.begin_thread().end()
    }

    /// Append a target part without spacing or threshold.
    pub fn target(&mut self) -> (r: &mut FormatBuilder)
        ensures
            r@ == (BuilderV {
                parts: old(self)@.parts.push(plain_part(PartTypeV::Target)),
                current: None,
            }),
            final(self)@ == final(r)@,
    {
        self.begin_target().end()
    }

    /// Append a location part without spacing or threshold.
    pub fn location(&mut self) -> (r: &mut FormatBuilder)
        ensures
            r@ == (BuilderV {
                parts: old(self)@.parts.push(plain_part(PartTypeV::Location)),
                current: None,
            }),
            final(self)@ == final(r)@,
    {
        self.begin_location().end()
    }

    /// Append a module-path part without spacing or threshold.
    pub fn mod_path(&mut self) -> (r: &mut FormatBuilder)
        ensures
            r@ == (BuilderV {
                parts: old(self)@.parts.push(plain_part(PartTypeV::ModulePath)),
                current: None,
            }),
            final(self)@ == final(r)@,
    {
        self.begin_module_path().end()
    }

    /// Append a message part without spacing or threshold.
    pub fn args(&mut self) -> (r: &mut FormatBuilder)
        ensures
            r@ == (BuilderV {
                parts: old(self)@.parts.push(plain_part(PartTypeV::Args)),
                current: None,
            }),
            final(self)@ == final(r)@,
    {
        self.begin_args().end()
    }

    /// Append a literal part without spacing or threshold.
    pub fn literal(&mut self, literal: &str) -> (r: &mut FormatBuilder)
        ensures
            r@ == (BuilderV {
                parts: old(self)@.parts.push(plain_part(PartTypeV::Literal(literal@))),
                current: None,
            }),
            final(self)@ == final(r)@,
    {
        self.begin_literal(literal).end()
    }

    /// A snapshot of the parts appended so far; an open part is not
    /// included.
    pub fn build(&self) -> (r: Format)
        ensures
            r@ == self@.parts,
    {
        self.format.duplicate()
    }
}

} // verus!
