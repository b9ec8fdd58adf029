//! The laws of the rendering pipeline and the combinator, stated over the
//! same spec functions the executable contracts use.

use vstd::prelude::*;

use crate::comblog::adapter_config;
use crate::comblog::adapter_level;
use crate::comblog::adapter_logged;
use crate::comblog::max_level_of;
use crate::comblog::Adapter;
use crate::config::line_ending_seq;
use crate::config::ConfigV;
use crate::level::filter_ord;
use crate::level::Level;
use crate::level::level_ord;
use crate::level::level_passes;
use crate::level::LevelFilter;
use crate::format::PartTypeV;
use crate::format::PartV;
use crate::record::RecordV;
use crate::render::lemma_opsv_text_concat;
use crate::render::opsv_text;
use crate::render::opv_text;
use crate::render::part_on;
use crate::render::part_ops;
use crate::render::part_shown;
use crate::render::part_text;
use crate::render::record_ops;
use crate::render::render_parts;
use crate::render::render_parts_ops;
use crate::render::rendered;
use crate::render::sep_ops;
use crate::render::sep_text;
use crate::render::OpV;
use crate::render::skip_record;
use crate::render::time_needed;
use crate::sinks::WriteSinkV;
use crate::text::is_prefix_of;
use crate::text::pad_left_spec;
use crate::text::pad_right_spec;

verus! {

// ------------------------------------------------------------------
// Field presence
// ------------------------------------------------------------------
/// The configuration's own threshold for a part's field, where it has one.
pub open spec fn config_threshold(c: ConfigV, t: PartTypeV) -> Option<LevelFilter> {
    match t {
        PartTypeV::Time => Some(c.time),
        PartTypeV::Level => Some(c.level),
        PartTypeV::Thread => Some(c.thread),
        PartTypeV::Target => Some(c.target),
        PartTypeV::Location => Some(c.location),
        PartTypeV::ModulePath => None,
        PartTypeV::Args => None,
        PartTypeV::Literal(_) => None,
    }
}

/// The parts that contribute to the output, in order.
pub open spec fn shown_parts(c: ConfigV, parts: Seq<PartV>, r: RecordV, now: Seq<char>) -> Seq<
    PartV,
>
    decreases parts.len(),
{
    if parts.len() == 0 {
        Seq::empty()
    } else if part_shown(c, parts[0], r, now) {
        seq![parts[0]] + shown_parts(c, parts.drop_first(), r, now)
    } else {
        shown_parts(c, parts.drop_first(), r, now)
    }
}

/// Rendering a list of parts renders exactly its shown parts.
pub proof fn lemma_render_only_shown(
    c: ConfigV,
    parts: Seq<PartV>,
    r: RecordV,
    now: Seq<char>,
    prev: Option<bool>,
)
    ensures
        render_parts(c, parts, r, now, prev) == render_parts(
            c,
            shown_parts(c, parts, r, now),
            r,
            now,
            prev,
        ),
    decreases parts.len(),
{
    if parts.len() == 0 {
    } else {
        let rest = parts.drop_first();
        lemma_render_only_shown(c, rest, r, now, prev);
        lemma_render_only_shown(c, rest, r, now, Some(parts[0].wrap_space));
        if part_shown(c, parts[0], r, now) {
            let sp = seq![parts[0]] + shown_parts(c, rest, r, now);
            assert(sp.len() > 0);
            assert(sp[0] == parts[0]);
            assert(sp.drop_first() =~= shown_parts(c, rest, r, now));
        }
    }
}

/// Law, field presence: for every record, configuration and part, the part
/// contributes to the rendered output exactly when its own threshold is not
/// `Off` and admits the record's level, the configuration's threshold for
/// its field (where it has one) likewise, and its text is non-empty; a
/// record the allow/deny checks suppress renders nothing, and otherwise the
/// rendered line is precisely the shown parts' rendering, in order.
pub proof fn lemma_field_presence(c: ConfigV, r: RecordV, now: Seq<char>)
    ensures
        forall|p: PartV|
            #[trigger] part_shown(c, p, r, now) <==> (p.level_filter != LevelFilter::Off
                && filter_ord(p.level_filter) <= level_ord(r.level) && (match config_threshold(
                c,
                p.part_type,
            ) {
                Some(f) => f != LevelFilter::Off && filter_ord(f) <= level_ord(r.level),
                None => true,
            }) && part_text(c, p, r, now).len() > 0),
        skip_record(c, r.target) ==> rendered(c, r, now) == Seq::<char>::empty(),
        !skip_record(c, r.target) ==> rendered(c, r, now) == render_parts(
            c,
            shown_parts(c, c.output_format, r, now),
            r,
            now,
            None,
        ),
{
    assert forall|p: PartV| #[trigger]
        part_shown(c, p, r, now) <==> (p.level_filter != LevelFilter::Off && filter_ord(
            p.level_filter,
        ) <= level_ord(r.level) && (match config_threshold(c, p.part_type) {
            Some(f) => f != LevelFilter::Off && filter_ord(f) <= level_ord(r.level),
            None => true,
        }) && part_text(c, p, r, now).len() > 0) by {
        assert(part_shown(c, p, r, now) == (part_on(c, p, r.level) && part_text(
            c,
            p,
            r,
            now,
        ).len() > 0));
    }
    if !skip_record(c, r.target) {
        lemma_render_only_shown(c, c.output_format, r, now, None);
    }
}

/// The text of a single operation's list.
proof fn lemma_opsv_text_one(op: OpV)
    ensures
        opsv_text(seq![op]) == opv_text(op),
{
    assert(seq![op].drop_first() =~= Seq::<OpV>::empty());
    assert(opsv_text(Seq::<OpV>::empty()) =~= Seq::<char>::empty());
    assert(opsv_text(seq![op]) =~= opv_text(op));
}

/// The text of a three-operation list.
proof fn lemma_opsv_text_three(a: OpV, b: OpV, d: OpV)
    ensures
        opsv_text(seq![a, b, d]) == opv_text(a) + opv_text(b) + opv_text(d),
{
    let s = seq![a, b, d];
    assert(s.drop_first() =~= seq![b, d]);
    assert(seq![b, d].drop_first() =~= seq![d]);
    assert(seq![d].drop_first() =~= Seq::<OpV>::empty());
    assert(opsv_text(Seq::<OpV>::empty()) =~= Seq::<char>::empty());
    assert(opsv_text(seq![d]) =~= opv_text(d));
    assert(opsv_text(seq![b, d]) =~= opv_text(b) + opv_text(d));
    assert(opsv_text(s) =~= opv_text(a) + opv_text(b) + opv_text(d));
}

/// The operations of a part list carry exactly its rendered text.
proof fn lemma_render_parts_ops_text(
    c: ConfigV,
    parts: Seq<PartV>,
    r: RecordV,
    now: Seq<char>,
    prev: Option<bool>,
)
    ensures
        opsv_text(render_parts_ops(c, parts, r, now, prev)) == render_parts(c, parts, r, now, prev),
    decreases parts.len(),
{
    if parts.len() == 0 {
    } else {
        let rest = parts.drop_first();
        if part_shown(c, parts[0], r, now) {
            lemma_render_parts_ops_text(c, rest, r, now, Some(parts[0].wrap_space));
            let so = sep_ops(prev, parts[0].wrap_space);
            let po = part_ops(c, parts[0], r, now);
            let ro = render_parts_ops(c, rest, r, now, Some(parts[0].wrap_space));
            lemma_opsv_text_concat(so + po, ro);
            lemma_opsv_text_concat(so, po);
            match prev {
                None => {
                    assert(opsv_text(so) =~= sep_text(prev, parts[0].wrap_space));
                },
                Some(pw) => {
                    if pw || parts[0].wrap_space {
                        lemma_opsv_text_one(OpV::Text(seq![' ']));
                    }
                    assert(opsv_text(so) =~= sep_text(prev, parts[0].wrap_space));
                },
            }
            let t = part_text(c, parts[0], r, now);
            if parts[0].part_type is Level && !c.write_log_enable_colors {
                lemma_opsv_text_three(
                    OpV::SetColor(crate::config::color_for(c, r.level)),
                    OpV::Text(t),
                    OpV::ResetColor,
                );
            } else {
                lemma_opsv_text_one(OpV::Text(t));
            }
            assert(opsv_text(po) =~= t);
            assert(opsv_text(render_parts_ops(c, parts, r, now, prev)) =~= render_parts(
                c,
                parts,
                r,
                now,
                prev,
            ));
        } else {
            lemma_render_parts_ops_text(c, rest, r, now, prev);
        }
    }
}

/// Law, refinement: a record's operation sequence carries exactly its
/// rendered text — the color operations add no characters and drop none.
pub proof fn lemma_record_ops_text(c: ConfigV, r: RecordV, now: Seq<char>)
    ensures
        opsv_text(record_ops(c, r, now)) == rendered(c, r, now),
{
    if !skip_record(c, r.target) {
        lemma_render_parts_ops_text(c, c.output_format, r, now, None);
    }
}

// ------------------------------------------------------------------
// Allow and deny lists
// ------------------------------------------------------------------
/// Law, allow-list: when the allow-list is non-empty and none of its
/// entries is a prefix of the record's target, the output is empty,
/// whatever the record's level.
pub proof fn lemma_allow_list_suppresses(c: ConfigV, r: RecordV, now: Seq<char>)
    requires
        c.filter_allow.len() > 0,
        forall|i: int|
            0 <= i < c.filter_allow.len() ==> !is_prefix_of(
                #[trigger] c.filter_allow[i],
                r.target,
            ),
    ensures
        rendered(c, r, now) == Seq::<char>::empty(),
{
}

/// Law, deny-list: when any deny-list entry is a prefix of the record's
/// target, the output is empty, even when the level gates and the
/// allow-list would admit the record.
pub proof fn lemma_deny_list_suppresses(c: ConfigV, r: RecordV, now: Seq<char>, i: int)
    requires
        0 <= i < c.filter_ignore.len(),
        is_prefix_of(c.filter_ignore[i], r.target),
    ensures
        rendered(c, r, now) == Seq::<char>::empty(),
{
}

// ------------------------------------------------------------------
// Building is a pure snapshot
// ------------------------------------------------------------------
/// Law, idempotent building: two configurations with the same value — as
/// two builds from one builder state yield, since building is a pure
/// snapshot — render every record identically, byte for byte.
pub proof fn lemma_equal_configs_render_equal(
    c1: ConfigV,
    c2: ConfigV,
    r: RecordV,
    now: Seq<char>,
)
    requires
        c1 == c2,
    ensures
        rendered(c1, r, now) == rendered(c2, r, now),
{
}

// ------------------------------------------------------------------
// The clock
// ------------------------------------------------------------------
/// Rendering a part list with no shown time part gives the same text for
/// every time text.
proof fn lemma_render_parts_ignores_clock(
    c: ConfigV,
    parts: Seq<PartV>,
    r: RecordV,
    now1: Seq<char>,
    now2: Seq<char>,
    prev: Option<bool>,
)
    requires
        forall|i: int|
            0 <= i < parts.len() ==> !((#[trigger] parts[i].part_type is Time) && part_on(
                c,
                parts[i],
                r.level,
            )),
    ensures
        render_parts(c, parts, r, now1, prev) == render_parts(c, parts, r, now2, prev),
    decreases parts.len(),
{
    if parts.len() > 0 {
        let p = parts[0];
        assert(part_text(c, p, r, now1) == part_text(c, p, r, now2) || !part_on(c, p, r.level));
        let rest = parts.drop_first();
        assert(forall|i: int|
            0 <= i < rest.len() ==> !((#[trigger] rest[i].part_type is Time) && part_on(
                c,
                rest[i],
                r.level,
            )));
        lemma_render_parts_ignores_clock(c, rest, r, now1, now2, prev);
        lemma_render_parts_ignores_clock(c, rest, r, now1, now2, Some(p.wrap_space));
    }
}

/// Law: the renderer consults the clock only through a shown time part —
/// when no time part is on for the record's level, the rendered line is
/// the same whatever time text is handed in.
pub proof fn lemma_render_ignores_clock(c: ConfigV, r: RecordV, now1: Seq<char>, now2: Seq<char>)
    requires
        !time_needed(c, r.level),
    ensures
        rendered(c, r, now1) == rendered(c, r, now2),
{
    if !skip_record(c, r.target) {
        lemma_render_parts_ignores_clock(c, c.output_format, r, now1, now2, None);
    }
}

// ------------------------------------------------------------------
// The combinator's level
// ------------------------------------------------------------------
/// Law, combinator level: the combinator's reported threshold is the most
/// verbose among its adapters' — at least as verbose as each of them, and
/// equal to one of them whenever any adapter exists.
pub proof fn lemma_combinator_level(s: Seq<Adapter>)
    ensures
        forall|i: int|
            0 <= i < s.len() ==> filter_ord(adapter_level(#[trigger] s[i])) <= filter_ord(
                max_level_of(s),
            ),
        s.len() > 0 ==> exists|i: int|
            0 <= i < s.len() && adapter_level(#[trigger] s[i]) == max_level_of(s),
    decreases s.len(),
{
    if s.len() > 0 {
        let rest = s.drop_last();
        lemma_combinator_level(rest);
        assert(forall|i: int| 0 <= i < rest.len() ==> #[trigger] s[i] == rest[i]);
        if filter_ord(adapter_level(s.last())) >= filter_ord(max_level_of(rest)) {
            assert(adapter_level(s[s.len() - 1]) == max_level_of(s));
        } else {
            let j = choose|j: int|
                0 <= j < rest.len() && adapter_level(#[trigger] rest[j]) == max_level_of(rest);
            if rest.len() > 0 {
                assert(adapter_level(s[j]) == max_level_of(s));
            }
        }
    }
}

// ------------------------------------------------------------------
// Fan-out completeness
// ------------------------------------------------------------------
/// Law, fan-out completeness: delivering one record through a combinator
/// reaches every adapter independently. For a capture adapter whose
/// threshold accepts the record, whose filters pass, and whose format shows
/// no time field (so that nothing depends on the clock), the delivery
/// relation guarantees its buffer grew by exactly its own rendering, under
/// its own configuration.
pub proof fn lemma_fan_out_capture(pre: Adapter, post: Adapter, rv: RecordV)
    requires
        adapter_logged(pre, post, rv),
        pre is Test,
        level_passes(adapter_level(pre), rv.level),
        !skip_record(adapter_config(pre), rv.target),
        !time_needed(adapter_config(pre), rv.level),
    ensures
        post is Test,
        post->Test_0.output@ == pre->Test_0.output@ + rendered(
            adapter_config(pre),
            rv,
            Seq::<char>::empty(),
        ),
{
}

/// Law, fan-out completeness (write adapters): under the combinator's
/// delivery relation, a write adapter over a buffer whose threshold accepts
/// the record, whose filters pass, and whose format shows no time field (so
/// that nothing depends on the clock) grows its buffer by exactly one
/// rendering of the record under its own configuration, independent of the
/// other adapters' outcomes.
pub proof fn lemma_fan_out_buffer(pre: Adapter, post: Adapter, rv: RecordV)
    requires
        adapter_logged(pre, post, rv),
        pre is Write,
        pre->Write_0.writable@ is Buffer,
        level_passes(adapter_level(pre), rv.level),
        !skip_record(adapter_config(pre), rv.target),
        !time_needed(adapter_config(pre), rv.level),
    ensures
        post is Write,
        post->Write_0.writable@ == WriteSinkV::Buffer(
            pre->Write_0.writable@->Buffer_0 + rendered(
                adapter_config(pre),
                rv,
                Seq::<char>::empty(),
            ),
        ),
{
}

/// Law, selective delivery: two capture adapters at `Error` and `Trace`
/// behind one combinator make it report `Trace`, the most verbose; a
/// `Debug` record fanned out to both leaves the `Error` adapter's buffer
/// untouched — its own gate rejects the record — and grows the `Trace`
/// adapter's buffer by exactly its rendering (clock-free formats shown).
pub proof fn lemma_selective_delivery(
    pre_a: Adapter,
    post_a: Adapter,
    pre_b: Adapter,
    post_b: Adapter,
    rv: RecordV,
)
    requires
        adapter_logged(pre_a, post_a, rv),
        adapter_logged(pre_b, post_b, rv),
        pre_a is Test,
        pre_b is Test,
        adapter_level(pre_a) == LevelFilter::Error,
        adapter_level(pre_b) == LevelFilter::Trace,
        rv.level == Level::Debug,
        !skip_record(adapter_config(pre_b), rv.target),
        !time_needed(adapter_config(pre_b), rv.level),
    ensures
        max_level_of(seq![pre_a, pre_b]) == LevelFilter::Trace,
        post_a is Test && post_a->Test_0.output@ == pre_a->Test_0.output@,
        post_b is Test && post_b->Test_0.output@ == pre_b->Test_0.output@ + rendered(
            adapter_config(pre_b),
            rv,
            Seq::<char>::empty(),
        ),
{
    let pair = seq![pre_a, pre_b];
    assert(pair.last() == pre_b);
    assert(pair.drop_last() =~= seq![pre_a]);
    assert(seq![pre_a].last() == pre_a);
    assert(seq![pre_a].drop_last() =~= Seq::<Adapter>::empty());
    assert(max_level_of(Seq::<Adapter>::empty()) == LevelFilter::Off);
    assert(max_level_of(seq![pre_a]) == LevelFilter::Error);
    assert(max_level_of(pair) == LevelFilter::Trace);
}

// ------------------------------------------------------------------
// Padding
// ------------------------------------------------------------------
/// Law, padding round-trip: padding to width `w` yields exactly `w`
/// characters when the text is shorter, with the text intact at the end
/// (left padding) or the start (right padding); a width no greater than
/// the text's length yields the text unchanged — padding never truncates.
pub proof fn lemma_padding(s: Seq<char>, w: int)
    ensures
        s.len() < w ==> pad_left_spec(s, w).len() == w && pad_right_spec(s, w).len() == w,
        w <= s.len() ==> pad_left_spec(s, w) == s && pad_right_spec(s, w) == s,
        pad_left_spec(s, w).subrange(
            pad_left_spec(s, w).len() - s.len(),
            pad_left_spec(s, w).len() as int,
        ) == s,
        pad_right_spec(s, w).subrange(0, s.len() as int) == s,
        pad_left_spec(s, w).len() >= s.len() && pad_right_spec(s, w).len() >= s.len(),
{
    if s.len() < w {
        assert(pad_left_spec(s, w).subrange(w - s.len(), w) =~= s);
        assert(pad_right_spec(s, w).subrange(0, s.len() as int) =~= s);
    } else {
        assert(pad_left_spec(s, w).subrange(0, s.len() as int) =~= s);
        assert(pad_right_spec(s, w).subrange(0, s.len() as int) =~= s);
    }
}

// ------------------------------------------------------------------
// Line endings
// ------------------------------------------------------------------
/// Whether `s` ends with exactly `suffix`.
pub open spec fn ends_with(s: Seq<char>, suffix: Seq<char>) -> bool {
    s.len() >= suffix.len() && s.subrange(s.len() - suffix.len(), s.len() as int) == suffix
}

/// Every line ending is one or two characters.
pub proof fn lemma_line_ending_nonempty(e: crate::config::LineEnding)
    ensures
        1 <= line_ending_seq(e).len() <= 2,
{
}

/// The rendering of a part list whose last part is shown ends with that
/// part's text.
proof fn lemma_render_ends_with_last(
    c: ConfigV,
    parts: Seq<PartV>,
    r: RecordV,
    now: Seq<char>,
    prev: Option<bool>,
)
    requires
        parts.len() > 0,
        part_shown(c, parts.last(), r, now),
    ensures
        ends_with(render_parts(c, parts, r, now, prev), part_text(c, parts.last(), r, now)),
    decreases parts.len(),
{
    let whole = render_parts(c, parts, r, now, prev);
    let last_text = part_text(c, parts.last(), r, now);
    if parts.len() == 1 {
        assert(parts[0] == parts.last());
        let sep = sep_text(prev, parts[0].wrap_space);
        assert(parts.drop_first().len() == 0);
        assert(render_parts(c, parts.drop_first(), r, now, Some(parts[0].wrap_space)) =~= Seq::<
            char,
        >::empty());
        assert(whole =~= sep + last_text);
        assert(whole.subrange(whole.len() - last_text.len(), whole.len() as int) =~= last_text);
    } else {
        let rest = parts.drop_first();
        assert(rest.last() == parts.last());
        if part_shown(c, parts[0], r, now) {
            lemma_render_ends_with_last(c, rest, r, now, Some(parts[0].wrap_space));
            let sep = sep_text(prev, parts[0].wrap_space);
            let head = part_text(c, parts[0], r, now);
            let tail = render_parts(c, rest, r, now, Some(parts[0].wrap_space));
            assert(whole =~= sep + head + tail);
            assert(tail.len() >= last_text.len());
            assert(whole.subrange(whole.len() - last_text.len(), whole.len() as int)
                =~= tail.subrange(tail.len() - last_text.len(), tail.len() as int));
        } else {
            lemma_render_ends_with_last(c, rest, r, now, prev);
        }
    }
}

/// Law, line-ending: for every supported terminator, when the message part
/// stands last in the format and is shown, the rendered line of an
/// unsuppressed record ends with exactly that terminator's characters.
pub proof fn lemma_line_ending(c: ConfigV, r: RecordV, now: Seq<char>)
    requires
        !skip_record(c, r.target),
        c.output_format.len() > 0,
        c.output_format.last().part_type is Args,
        part_on(c, c.output_format.last(), r.level),
    ensures
        ends_with(rendered(c, r, now), line_ending_seq(c.line_ending)),
{
    let last = c.output_format.last();
    let ending = line_ending_seq(c.line_ending);
    lemma_line_ending_nonempty(c.line_ending);
    assert(part_text(c, last, r, now) == r.message + ending);
    assert(part_text(c, last, r, now).len() > 0);
    lemma_render_ends_with_last(c, c.output_format, r, now, None);
    let whole = rendered(c, r, now);
    let last_text = part_text(c, last, r, now);
    assert(whole.subrange(whole.len() - ending.len(), whole.len() as int) =~= last_text.subrange(
        last_text.len() - ending.len(),
        last_text.len() as int,
    ));
    assert(last_text.subrange(last_text.len() - ending.len(), last_text.len() as int) =~= ending);
}

} // verus!
