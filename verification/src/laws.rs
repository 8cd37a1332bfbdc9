//! The library's cross-cutting guarantees, stated and proved once.

use vstd::prelude::*;

use crate::ansi::colored_span;
use crate::ansi::lemma_colored_span_head_injective;
use crate::color::RgbRange;
use crate::gradient::gradient_color;
use crate::gradient::lemma_gradient_at_zero;
use crate::gradient::lemma_oscillate_endpoints;
use crate::gradient::lemma_oscillate_period;
use crate::gradient::osc_den;
use crate::gradient::osc_num;
use crate::level::Level;
use crate::level::level_name;
use crate::paint::inline_color;
use crate::paint::inline_paint;
use crate::sculpt::hex_char;
use crate::sculpt::json_escape;
use crate::sculpt::json_escape_char;
use crate::sculpt::json_line;
use crate::sculpt::simple_line;
use crate::theme::Theme;

verus! {

/// Painting one message solid at two levels whose theme colors differ
/// gives two different strings: solid-painted lines are distinguishable
/// by level.
pub proof fn law_solid_paint_distinguishes_levels<T: Theme>(
    theme: T,
    msg: Seq<char>,
    l1: Level,
    l2: Level,
)
    requires
        theme.solid_spec(l1) != theme.solid_spec(l2),
    ensures
        colored_span(msg, theme.solid_spec(l1)) != colored_span(msg, theme.solid_spec(l2)),
{
    let c1 = theme.solid_spec(l1);
    let c2 = theme.solid_spec(l2);
    if colored_span(msg, c1) == colored_span(msg, c2) {
        assert(colored_span(msg, c1) + Seq::<char>::empty() =~= colored_span(msg, c1));
        assert(colored_span(msg, c2) + Seq::<char>::empty() =~= colored_span(msg, c2));
        lemma_colored_span_head_injective(
            msg,
            c1,
            Seq::<char>::empty(),
            msg,
            c2,
            Seq::<char>::empty(),
        );
    }
}

/// A multi-line-gradient painter whose counter for each level still
/// stands at zero paints one message differently at two levels whose
/// theme ranges start apart: the first painted line at a level always
/// shows the range's start color.
pub proof fn law_multi_line_paint_distinguishes_levels<T: Theme>(
    theme: T,
    msg: Seq<char>,
    steps: usize,
    l1: Level,
    l2: Level,
)
    requires
        theme.range_spec(l1).start != theme.range_spec(l2).start,
        4 * osc_den(steps as int) <= usize::MAX as int,
    ensures
        colored_span(
            msg,
            gradient_color(theme.range_spec(l1), osc_num(0, steps as int), osc_den(steps as int)),
        ) != colored_span(
            msg,
            gradient_color(theme.range_spec(l2), osc_num(0, steps as int), osc_den(steps as int)),
        ),
{
    lemma_oscillate_endpoints(steps);
    lemma_gradient_at_zero(theme.range_spec(l1), osc_den(steps as int));
    lemma_gradient_at_zero(theme.range_spec(l2), osc_den(steps as int));
    let c1 = gradient_color(theme.range_spec(l1), osc_num(0, steps as int), osc_den(steps as int));
    let c2 = gradient_color(theme.range_spec(l2), osc_num(0, steps as int), osc_den(steps as int));
    if colored_span(msg, c1) == colored_span(msg, c2) {
        assert(colored_span(msg, c1) + Seq::<char>::empty() =~= colored_span(msg, c1));
        assert(colored_span(msg, c2) + Seq::<char>::empty() =~= colored_span(msg, c2));
        lemma_colored_span_head_injective(
            msg,
            c1,
            Seq::<char>::empty(),
            msg,
            c2,
            Seq::<char>::empty(),
        );
    }
}

/// An inline gradient paints a message of at least one grapheme
/// differently at two levels whose theme ranges start apart: the first
/// grapheme is colored with the range's start color.
pub proof fn law_inline_paint_distinguishes_levels<T: Theme>(
    theme: T,
    clusters: Seq<Seq<char>>,
    steps: usize,
    l1: Level,
    l2: Level,
)
    requires
        clusters.len() > 0,
        theme.range_spec(l1).start != theme.range_spec(l2).start,
        4 * osc_den(steps as int) <= usize::MAX as int,
    ensures
        inline_paint(clusters, theme.range_spec(l1), steps) != inline_paint(
            clusters,
            theme.range_spec(l2),
            steps,
        ),
{
    lemma_oscillate_endpoints(steps);
    lemma_gradient_at_zero(theme.range_spec(l1), osc_den(steps as int));
    lemma_gradient_at_zero(theme.range_spec(l2), osc_den(steps as int));
    let c1 = inline_color(theme.range_spec(l1), steps, 0);
    let c2 = inline_color(theme.range_spec(l2), steps, 0);
    assert(c1 == theme.range_spec(l1).start);
    assert(c2 == theme.range_spec(l2).start);
    if inline_paint(clusters, theme.range_spec(l1), steps) == inline_paint(
        clusters,
        theme.range_spec(l2),
        steps,
    ) {
        lemma_colored_span_head_injective(
            clusters[0],
            c1,
            crate::paint::inline_paint_at(clusters.drop_first(), theme.range_spec(l1), steps, 1),
            clusters[0],
            c2,
            crate::paint::inline_paint_at(clusters.drop_first(), theme.range_spec(l2), steps, 1),
        );
    }
}

/// The gradient position repeats with period `2 * steps` (one full
/// back-and-forth traversal), and so also with period `4 * steps`: the
/// counter values `x` and `x + 2 * steps` color identically, for the
/// inline gradient's grapheme index as for the multi-line gradient's
/// line counter.
pub proof fn law_gradient_position_period(range: RgbRange, steps: usize, x: usize)
    requires
        x as int + 5 * osc_den(steps as int) <= usize::MAX as int,
    ensures
        gradient_color(
            range,
            osc_num(x as int + 2 * osc_den(steps as int), steps as int),
            osc_den(steps as int),
        ) == gradient_color(range, osc_num(x as int, steps as int), osc_den(steps as int)),
        gradient_color(
            range,
            osc_num(x as int + 4 * osc_den(steps as int), steps as int),
            osc_den(steps as int),
        ) == gradient_color(range, osc_num(x as int, steps as int), osc_den(steps as int)),
        inline_color(range, steps, x as int + 2 * osc_den(steps as int)) == inline_color(
            range,
            steps,
            x as int,
        ),
        inline_color(range, steps, x as int + 4 * osc_den(steps as int)) == inline_color(
            range,
            steps,
            x as int,
        ),
{
    let n1 = osc_den(steps as int);
    lemma_oscillate_period(x, steps);
    assert(x as int + 2 * n1 <= usize::MAX as int);
    lemma_oscillate_period((x as int + 2 * n1) as usize, steps);
    assert((x as int + 2 * n1) + 2 * n1 == x as int + 4 * n1);
}

/// A simple-format record is never empty, and shows the timestamp first
/// and the level name between its fixed separators, even when target and
/// message are both empty.
pub proof fn law_simple_line_shows_time_and_level(
    now: Seq<char>,
    level: Level,
    target: Seq<char>,
    message: Seq<char>,
)
    ensures
        simple_line(now, level, target, message).len() > 0,
        simple_line(now, level, target, message).subrange(0, now.len() as int) == now,
        simple_line(now, level, target, message).subrange(
            now.len() + 2 + target.len() + 2 as int,
            now.len() + 2 + target.len() + 2 + level_name(level).len() as int,
        ) == level_name(level),
{
    reveal_strlit(" [");
    reveal_strlit("] ");
    reveal_strlit(" - ");
    let line = simple_line(now, level, target, message);
    assert(line.len() == now.len() + 2 + target.len() + 2 + level_name(level).len() + 3
        + message.len());
    assert(line.subrange(0, now.len() as int) =~= now);
    assert(line.subrange(
        now.len() + 2 + target.len() + 2 as int,
        now.len() + 2 + target.len() + 2 + level_name(level).len() as int,
    ) =~= level_name(level));
}

/// Every character, escaped, takes at least one character.
proof fn lemma_json_escape_char_nonempty(c: char)
    ensures
        json_escape_char(c).len() > 0,
{
    reveal_strlit("\\\"");
    reveal_strlit("\\\\");
    reveal_strlit("\\b");
    reveal_strlit("\\t");
    reveal_strlit("\\n");
    reveal_strlit("\\f");
    reveal_strlit("\\r");
    reveal_strlit("\\u00");
}

/// The lower-case hexadecimal digit table is injective on actual digits.
proof fn lemma_hex_char_injective(a: int, b: int)
    requires
        0 <= a < 16,
        0 <= b < 16,
        hex_char(a) == hex_char(b),
    ensures
        a == b,
{
}

/// The first escaped character determines the first plain character,
/// and the remainders stay equal.
proof fn lemma_json_escape_char_head(c1: char, c2: char, x1: Seq<char>, x2: Seq<char>)
    requires
        json_escape_char(c1) + x1 == json_escape_char(c2) + x2,
    ensures
        c1 == c2,
        x1 == x2,
{
    reveal_strlit("\\\"");
    reveal_strlit("\\\\");
    reveal_strlit("\\b");
    reveal_strlit("\\t");
    reveal_strlit("\\n");
    reveal_strlit("\\f");
    reveal_strlit("\\r");
    reveal_strlit("\\u00");
    let e1 = json_escape_char(c1);
    let e2 = json_escape_char(c2);
    let lhs = e1 + x1;
    let rhs = e2 + x2;
    assert(lhs[0] == e1[0] && rhs[0] == e2[0]);
    if e1.len() >= 2 {
        assert(lhs[1] == e1[1]);
    }
    if e2.len() >= 2 {
        assert(rhs[1] == e2[1]);
    }
    if (c1 as int) < 0x20 && c1 != '\u{8}' && c1 != '\t' && c1 != '\n' && c1 != '\u{c}' && c1
        != '\r' {
        assert(e1[1] == 'u' && e1[2] == '0' && e1[3] == '0' && e1[4] == hex_char((c1 as int) / 16)
            && e1[5] == hex_char((c1 as int) % 16));
    }
    if (c2 as int) < 0x20 && c2 != '\u{8}' && c2 != '\t' && c2 != '\n' && c2 != '\u{c}' && c2
        != '\r' {
        assert(e2[1] == 'u' && e2[2] == '0' && e2[3] == '0' && e2[4] == hex_char((c2 as int) / 16)
            && e2[5] == hex_char((c2 as int) % 16));
    }
    if e1 == e2 {
    } else {
        // The first character separates plain text from escapes, the
        // second separates the escape forms, and the hex digits pin a
        // control character down.
        assert(e1.len() >= 2 && e2.len() >= 2);
        if e1.len() == 6 && e2.len() == 6 {
            assert(lhs[4] == e1[4] && lhs[5] == e1[5]);
            assert(rhs[4] == e2[4] && rhs[5] == e2[5]);
            lemma_hex_char_injective((c1 as int) / 16, (c2 as int) / 16);
            lemma_hex_char_injective((c1 as int) % 16, (c2 as int) % 16);
            assert(c1 as int == c2 as int);
            assert(c1 == c2);
        }
    }
    assert(c1 == c2);
    assert(e1 == e2);
    crate::ansi::lemma_strip_prefix(e1, x1, x2);
}

/// The escaped form of a character never begins with a quote, so a bare
/// quote always marks the end of a JSON string field.
proof fn lemma_json_escape_char_no_leading_quote(c: char)
    ensures
        json_escape_char(c).len() > 0,
        json_escape_char(c)[0] != '"',
{
    reveal_strlit("\\\"");
    reveal_strlit("\\\\");
    reveal_strlit("\\b");
    reveal_strlit("\\t");
    reveal_strlit("\\n");
    reveal_strlit("\\f");
    reveal_strlit("\\r");
    reveal_strlit("\\u00");
}

/// A closing quote splits two equal escaped-and-continued sequences
/// unambiguously: the escaped texts agree and so do the continuations.
proof fn lemma_json_escaped_field_split(
    m1: Seq<char>,
    r1: Seq<char>,
    m2: Seq<char>,
    r2: Seq<char>,
)
    requires
        json_escape(m1) + seq!['"'] + r1 == json_escape(m2) + seq!['"'] + r2,
    ensures
        m1 == m2,
        r1 == r2,
    decreases m1.len(),
{
    let lhs = json_escape(m1) + seq!['"'] + r1;
    let rhs = json_escape(m2) + seq!['"'] + r2;
    if m1.len() == 0 && m2.len() == 0 {
        assert(lhs =~= seq!['"'] + r1);
        assert(rhs =~= seq!['"'] + r2);
        crate::ansi::lemma_strip_prefix(seq!['"'], r1, r2);
        assert(m1 =~= m2);
    } else if m1.len() == 0 {
        lemma_json_escape_char_no_leading_quote(m2[0]);
        assert(lhs[0] == '"');
        assert(json_escape(m2)[0] == json_escape_char(m2[0])[0]);
        assert(rhs[0] == json_escape(m2)[0]);
        assert(false);
    } else if m2.len() == 0 {
        lemma_json_escape_char_no_leading_quote(m1[0]);
        assert(rhs[0] == '"');
        assert(json_escape(m1)[0] == json_escape_char(m1[0])[0]);
        assert(lhs[0] == json_escape(m1)[0]);
        assert(false);
    } else {
        let tail1 = json_escape(m1.drop_first()) + seq!['"'] + r1;
        let tail2 = json_escape(m2.drop_first()) + seq!['"'] + r2;
        assert(lhs =~= json_escape_char(m1[0]) + tail1);
        assert(rhs =~= json_escape_char(m2[0]) + tail2);
        lemma_json_escape_char_head(m1[0], m2[0], tail1, tail2);
        lemma_json_escaped_field_split(m1.drop_first(), r1, m2.drop_first(), r2);
        assert(m1 =~= seq![m1[0]] + m1.drop_first());
        assert(m2 =~= seq![m2[0]] + m2.drop_first());
    }
}

/// Level names hold no quote character.
proof fn lemma_level_name_plain(level: Level)
    ensures
        forall|i: int| 0 <= i < level_name(level).len() ==> level_name(level)[i] != '"',
{
    reveal_strlit("TRACE");
    reveal_strlit("DEBUG");
    reveal_strlit("INFO");
    reveal_strlit("WARN");
    reveal_strlit("ERROR");
}

/// Levels with the same name are the same level: the names begin with
/// five different letters.
proof fn lemma_level_name_injective(l1: Level, l2: Level)
    requires
        level_name(l1) == level_name(l2),
    ensures
        l1 == l2,
{
    reveal_strlit("TRACE");
    reveal_strlit("DEBUG");
    reveal_strlit("INFO");
    reveal_strlit("WARN");
    reveal_strlit("ERROR");
    assert(match l1 {
        Level::Trace => level_name(l1)[0] == 'T',
        Level::Debug => level_name(l1)[0] == 'D',
        Level::Info => level_name(l1)[0] == 'I',
        Level::Warn => level_name(l1)[0] == 'W',
        Level::Error => level_name(l1)[0] == 'E',
    });
    assert(match l2 {
        Level::Trace => level_name(l2)[0] == 'T',
        Level::Debug => level_name(l2)[0] == 'D',
        Level::Info => level_name(l2)[0] == 'I',
        Level::Warn => level_name(l2)[0] == 'W',
        Level::Error => level_name(l2)[0] == 'E',
    });
    assert(level_name(l1)[0] == level_name(l2)[0]);
}

/// A JSON-format record round-trips: the record text determines the
/// level, the message, the target and the timestamp that produced it,
/// so reading the object's fields back yields the input event.
#[verifier::rlimit(100)]
pub proof fn law_json_line_round_trips(
    now1: Seq<char>,
    l1: Level,
    t1: Seq<char>,
    m1: Seq<char>,
    now2: Seq<char>,
    l2: Level,
    t2: Seq<char>,
    m2: Seq<char>,
)
    requires
        json_line(now1, l1, t1, m1) == json_line(now2, l2, t2, m2),
    ensures
        l1 == l2,
        t1 == t2,
        m1 == m2,
        now1 == now2,
{
    reveal_strlit("\",\"message\":\"");
    reveal_strlit(",\"message\":\"");
    reveal_strlit("\",\"target\":\"");
    reveal_strlit(",\"target\":\"");
    reveal_strlit("\",\"time\":\"");
    reveal_strlit(",\"time\":\"");
    reveal_strlit("\"}");
    reveal_strlit("}");
    let key1 = "{\"level\":\""@;
    let after_msg = ",\"message\":\""@;
    let after_tgt = ",\"target\":\""@;
    let after_time = ",\"time\":\""@;
    let closing = "}"@;
    assert("\",\"message\":\""@ =~= seq!['"'] + after_msg);
    assert("\",\"target\":\""@ =~= seq!['"'] + after_tgt);
    assert("\",\"time\":\""@ =~= seq!['"'] + after_time);
    assert("\"}"@ =~= seq!['"'] + closing);

    let w1 = after_msg + (json_escape(m1) + seq!['"'] + (after_tgt + (json_escape(t1) + seq!['"']
        + (after_time + (json_escape(now1) + seq!['"'] + closing)))));
    let w2 = after_msg + (json_escape(m2) + seq!['"'] + (after_tgt + (json_escape(t2) + seq!['"']
        + (after_time + (json_escape(now2) + seq!['"'] + closing)))));
    assert(json_line(now1, l1, t1, m1) =~= key1 + (level_name(l1) + seq!['"'] + w1));
    assert(json_line(now2, l2, t2, m2) =~= key1 + (level_name(l2) + seq!['"'] + w2));
    crate::ansi::lemma_strip_prefix(key1, level_name(l1) + seq!['"'] + w1, level_name(l2)
        + seq!['"'] + w2);
    lemma_level_name_plain(l1);
    lemma_level_name_plain(l2);
    crate::ansi::lemma_sep_split(level_name(l1), w1, level_name(l2), w2, '"');
    lemma_level_name_injective(l1, l2);

    crate::ansi::lemma_strip_prefix(
        after_msg,
        json_escape(m1) + seq!['"'] + (after_tgt + (json_escape(t1) + seq!['"'] + (after_time + (
        json_escape(now1) + seq!['"'] + closing)))),
        json_escape(m2) + seq!['"'] + (after_tgt + (json_escape(t2) + seq!['"'] + (after_time + (
        json_escape(now2) + seq!['"'] + closing)))),
    );
    lemma_json_escaped_field_split(
        m1,
        after_tgt + (json_escape(t1) + seq!['"'] + (after_time + (json_escape(now1) + seq!['"']
            + closing))),
        m2,
        after_tgt + (json_escape(t2) + seq!['"'] + (after_time + (json_escape(now2) + seq!['"']
            + closing))),
    );

    crate::ansi::lemma_strip_prefix(
        after_tgt,
        json_escape(t1) + seq!['"'] + (after_time + (json_escape(now1) + seq!['"'] + closing)),
        json_escape(t2) + seq!['"'] + (after_time + (json_escape(now2) + seq!['"'] + closing)),
    );
    lemma_json_escaped_field_split(
        t1,
        after_time + (json_escape(now1) + seq!['"'] + closing),
        t2,
        after_time + (json_escape(now2) + seq!['"'] + closing),
    );

    crate::ansi::lemma_strip_prefix(
        after_time,
        json_escape(now1) + seq!['"'] + closing,
        json_escape(now2) + seq!['"'] + closing,
    );
    lemma_json_escaped_field_split(now1, closing, now2, closing);
}

/// JSON escaping loses nothing: two texts with the same escaped form
/// are the same text, so every field of a JSON-format record can be
/// read back from the record.
pub proof fn law_json_escape_injective(s1: Seq<char>, s2: Seq<char>)
    requires
        json_escape(s1) == json_escape(s2),
    ensures
        s1 == s2,
    decreases s1.len(),
{
    if s1.len() == 0 || s2.len() == 0 {
        if s1.len() == 0 && s2.len() > 0 {
            lemma_json_escape_char_nonempty(s2[0]);
            assert(json_escape(s2).len() >= json_escape_char(s2[0]).len());
        }
        if s2.len() == 0 && s1.len() > 0 {
            lemma_json_escape_char_nonempty(s1[0]);
            assert(json_escape(s1).len() >= json_escape_char(s1[0]).len());
        }
        assert(s1 =~= s2);
    } else {
        lemma_json_escape_char_head(
            s1[0],
            s2[0],
            json_escape(s1.drop_first()),
            json_escape(s2.drop_first()),
        );
        law_json_escape_injective(s1.drop_first(), s2.drop_first());
        assert(s1 =~= seq![s1[0]] + s1.drop_first());
        assert(s2 =~= seq![s2[0]] + s2.drop_first());
    }
}

} // verus!
