//! Painting: applying a theme and a color format to an already formatted
//! log line.

use unicode_segmentation::UnicodeSegmentation;
use vstd::prelude::*;

use crate::ansi::colored_span;
use crate::ansi::colorize;
use crate::color::RgbRange;
use crate::gradient::Dist;
use crate::gradient::gradient_color;
use crate::gradient::linear_gradient;
use crate::gradient::osc_den;
use crate::gradient::osc_num;
use crate::gradient::oscillate_dist;
use crate::level::Level;
use crate::theme::Theme;

verus! {

/// Color formatting mode that determines how a theme is applied to log
/// records.
#[derive(Clone, Copy, Debug, PartialEq, Eq, Structural)]
pub enum ColorFormat {
    /// solid color(s) applied from a theme to log lines
    Solid,
    /// linear color gradient applied over the characters in a single
    /// line, with arg for the number of steps in the gradient (how many
    /// characters it takes to go from the starting color to the ending
    /// color for each level)
    InlineGradient(usize),
    /// linear color gradient applied over multiple lines, with arg for
    /// the number of steps in the gradient (how many lines it takes to go
    /// from the starting color to the ending color for each level)
    MultiLineGradient(usize),
}

/// Count of how many lines were painted at each level.
#[derive(Clone, Copy, Debug, PartialEq, Eq, Structural)]
pub struct LineCounts {
    /// lines painted at `Trace`
    pub trace: usize,
    /// lines painted at `Debug`
    pub debug: usize,
    /// lines painted at `Info`
    pub info: usize,
    /// lines painted at `Warn`
    pub warn: usize,
    /// lines painted at `Error`
    pub error: usize,
}

impl LineCounts {
    /// The counter kept for `level`.
    pub open spec fn count_spec(self, level: Level) -> usize {
        match level {
            Level::Trace => self.trace,
            Level::Debug => self.debug,
            Level::Info => self.info,
            Level::Warn => self.warn,
            Level::Error => self.error,
        }
    }

    /// Fresh counters: no lines painted yet at any level.
    pub fn new() -> (counts: LineCounts)
        ensures
            forall|level: Level| counts.count_spec(level) == 0,
    {
        LineCounts { trace: 0, debug: 0, info: 0, warn: 0, error: 0 }
    }

    /// Read the counter for `level`.
    pub fn get(&self, level: Level) -> (count: usize)
        ensures
            count == self.count_spec(level),
    {
        match level {
            Level::Trace => self.trace,
            Level::Debug => self.debug,
            Level::Info => self.info,
            Level::Warn => self.warn,
            Level::Error => self.error,
        }
    }

    /// Advance the counter for `level` by one, wrapping on overflow; the
    /// counters of all other levels stay as they were.
    pub fn bump(&mut self, level: Level)
        ensures
            final(self).count_spec(level) == old(self).count_spec(level).wrapping_add(1),
            forall|other: Level|
                other != level ==> final(self).count_spec(other) == old(self).count_spec(other),
    {
        match level {
            Level::Trace => self.trace = self.trace.wrapping_add(1),
            Level::Debug => self.debug = self.debug.wrapping_add(1),
            Level::Info => self.info = self.info.wrapping_add(1),
            Level::Warn => self.warn = self.warn.wrapping_add(1),
            Level::Error => self.error = self.error.wrapping_add(1),
        }
    }
}

/// What an external splitter returned for a string: its sequence of
/// user-perceived characters (extended grapheme clusters).
pub uninterp spec fn graphemes_of(s: Seq<char>) -> Seq<Seq<char>>;

/// Relies on `unicode_segmentation::UnicodeSegmentation::graphemes`
/// (extended grapheme clusters, and so an empty split for an empty
/// string): the clusters are non-empty substrings whose concatenation,
/// in order, is the string itself.
#[verifier::external_body]
fn split_graphemes(s: &str) -> (clusters: Vec<String>)
    ensures
        clusters@.map_values(|cluster: String| cluster@) == graphemes_of(s@),
        clusters@.map_values(|cluster: String| cluster@).flatten() == s@,
        forall|i: int| 0 <= i < clusters@.len() ==> (#[trigger] clusters@[i])@.len() > 0,
        s@.len() == 0 ==> clusters@.len() == 0,
{
    s.graphemes(true).map(|cluster| cluster.to_string()).collect()
}

/// The color an inline gradient gives the grapheme at index `i`.
pub open spec fn inline_color(range: RgbRange, steps: usize, i: int) -> crate::color::Rgb {
    gradient_color(range, osc_num(i, steps as int), osc_den(steps as int))
}

/// The clusters of `clusters`, colored one by one along the oscillating
/// gradient, starting at counter `offset`.
pub open spec fn inline_paint_at(
    clusters: Seq<Seq<char>>,
    range: RgbRange,
    steps: usize,
    offset: int,
) -> Seq<char>
    decreases clusters.len(),
{
    if clusters.len() == 0 {
        Seq::empty()
    } else {
        colored_span(clusters[0], inline_color(range, steps, offset)) + inline_paint_at(
            clusters.drop_first(),
            range,
            steps,
            offset + 1,
        )
    }
}

/// A whole string painted with an inline gradient: each grapheme cluster
/// colored at its own index.
pub open spec fn inline_paint(clusters: Seq<Seq<char>>, range: RgbRange, steps: usize) -> Seq<
    char,
> {
    inline_paint_at(clusters, range, steps, 0)
}

/// Paint/color logs using arbitrary themes and formats.
pub struct LogPainter<T: Theme> {
    /// count of how many lines are logged at each level, for use with
    /// multi-line gradient coloring
    pub lines_logged: LineCounts,
    /// color theme (determines the color palette used to color log
    /// records)
    pub theme: T,
    /// color formatting mode (determines how log records are colored)
    pub color_format: Option<ColorFormat>,
}

impl<T: Theme> LogPainter<T> {
    /// Create a new painter from a theme and a color format; no lines
    /// are counted as logged yet.
    pub fn new(theme: T, color_format: Option<ColorFormat>) -> (painter: LogPainter<T>)
        ensures
            painter.theme == theme,
            painter.color_format == color_format,
            forall|level: Level| painter.lines_logged.count_spec(level) == 0,
    {
        LogPainter { lines_logged: LineCounts::new(), theme, color_format }
    }

    /// Paint a whole line in the theme's solid color for its level.
    pub fn paint_solid(&self, msg: String, level: Level) -> (line: String)
        ensures
            line@ == colored_span(msg@, self.theme.solid_spec(level)),
    {
        let color = self.theme.solid(level);
        colorize(msg.as_str(), &color)
    }

    /// Apply a linear color gradient across the grapheme clusters of a
    /// string: the cluster at index `i` is colored `oscillate_dist(i,
    /// steps)` of the way along the level's color range.
    pub fn paint_inline_gradient(&self, msg: String, level: Level, steps: usize) -> (line: String)
        ensures
            line@ == inline_paint(graphemes_of(msg@), self.theme.range_spec(level), steps),
    {
        let clusters = split_graphemes(msg.as_str());
        let ghost all = graphemes_of(msg@);
        let ghost range = self.theme.range_spec(level);
        let mut out = String::new();
        let mut i: usize = 0;
        proof {
            assert(all.skip(0) =~= all);
        }
        while i < clusters.len()
            invariant
                i <= clusters.len(),
                clusters@.map_values(|cluster: String| cluster@) == all,
                range == self.theme.range_spec(level),
                inline_paint(all, range, steps) == out@ + inline_paint_at(
                    all.skip(i as int),
                    range,
                    steps,
                    i as int,
                ),
            decreases clusters.len() - i,
        {
            let dist: Dist = oscillate_dist(i, steps);
            let color = linear_gradient(&self.theme.range(level), dist);
            let colored = colorize(clusters[i].as_str(), &color);
            out.append(colored.as_str());
            proof {
                assert(all.skip(i as int)[0] == all[i as int]);
                assert(all.skip(i as int).drop_first() =~= all.skip(i as int + 1));
                assert(color == inline_color(range, steps, i as int));
            }
            i = i + 1;
        }
        proof {
            assert(all.skip(clusters@.len() as int) =~= Seq::<Seq<char>>::empty());
            assert(inline_paint_at(
                Seq::<Seq<char>>::empty(),
                range,
                steps,
                clusters@.len() as int,
            ) =~= Seq::<char>::empty());
            assert(out@ =~= out@ + Seq::<char>::empty());
        }
        out
    }

    /// Color the whole string with the level's gradient at the position
    /// the level's line counter stands at; the counter itself is not
    /// touched here.
    ///
    /// An independent linear color gradient runs across all lines logged
    /// at each level (e.g. `Info` line color can change from green to
    /// cyan as lines are logged, while lines logged at other levels move
    /// independently in their own gradient color ranges).
    pub fn paint_multi_line_gradient(&self, msg: String, level: Level, steps: usize) -> (line:
        String)
        ensures
            line@ == colored_span(
                msg@,
                gradient_color(
                    self.theme.range_spec(level),
                    osc_num(self.lines_logged.count_spec(level) as int, steps as int),
                    osc_den(steps as int),
                ),
            ),
    {
        let lines_logged = self.lines_logged.get(level);
        let dist = oscillate_dist(lines_logged, steps);
        let color = linear_gradient(&self.theme.range(level), dist);
        colorize(msg.as_str(), &color)
    }

    /// Paint/color a log line, based on the current painter
    /// configuration.
    ///
    /// With no color format configured the message passes through
    /// unchanged. The multi-line gradient is the only mode that touches
    /// state: it colors the line at the level's current counter and then
    /// advances that counter by exactly one, leaving every other level's
    /// counter alone.
    pub fn paint(&mut self, msg: String, level: Level) -> (line: String)
        ensures
            final(self).theme == old(self).theme,
            final(self).color_format == old(self).color_format,
            old(self).color_format is None ==> line@ == msg@,
            old(self).color_format == Some(ColorFormat::Solid) ==> line@ == colored_span(
                msg@,
                old(self).theme.solid_spec(level),
            ),
            forall|steps: usize|
                old(self).color_format == Some(ColorFormat::InlineGradient(steps)) ==> line@
                    == inline_paint(graphemes_of(msg@), old(self).theme.range_spec(level), steps),
            forall|steps: usize|
                old(self).color_format == Some(ColorFormat::MultiLineGradient(steps)) ==> line@
                    == colored_span(
                    msg@,
                    gradient_color(
                        old(self).theme.range_spec(level),
                        osc_num(old(self).lines_logged.count_spec(level) as int, steps as int),
                        osc_den(steps as int),
                    ),
                ),
            (old(self).color_format matches Some(ColorFormat::MultiLineGradient(_))) ==> {
                &&& final(self).lines_logged.count_spec(level) == old(
                    self).lines_logged.count_spec(level).wrapping_add(1)
                &&& forall|other: Level|
                    other != level ==> final(self).lines_logged.count_spec(other) == old(
                        self).lines_logged.count_spec(other)
            },
            !(old(self).color_format matches Some(ColorFormat::MultiLineGradient(_))) ==> final(
                self).lines_logged == old(self).lines_logged,
    {
        match &self.color_format {
            None => msg,
            Some(ColorFormat::Solid) => self.paint_solid(msg, level),
            Some(ColorFormat::InlineGradient(steps)) => {
                let steps: usize = *steps;
                self.paint_inline_gradient(msg, level, steps)
            },
            Some(ColorFormat::MultiLineGradient(steps)) => {
                let steps: usize = *steps;
                let line = self.paint_multi_line_gradient(msg, level, steps);
                // increment the line counter for this level
                self.lines_logged.bump(level);
                line
            },
        }
    }
}

} // verus!
