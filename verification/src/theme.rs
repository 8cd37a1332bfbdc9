//! Color themes: level-keyed palettes injected into color formatting.

use vstd::prelude::*;

use crate::color::Color;
use crate::color::Rgb;
use crate::color::RgbRange;
use crate::level::Level;

verus! {

/// A log level specific color palette to be injected into color
/// formatting.
pub trait Theme: Send + Sync + Sized {
    /// The solid representative color this theme gives each level.
    spec fn solid_spec(&self, level: Level) -> Rgb;

    /// The bounding color range this theme gives each level.
    spec fn range_spec(&self, level: Level) -> RgbRange;

    /// Return the representative solid color for this theme at each level.
    fn solid(&self, level: Level) -> (color: Rgb)
        ensures
            color == self.solid_spec(level),
    ;

    /// Return the bounding color range for this theme at each level.
    fn range(&self, level: Level) -> (range: RgbRange)
        ensures
            range == self.range_spec(level),
    ;
}

/// Basic log level colors.
pub struct Simple {}

impl Theme for Simple {
    /// The start of the level's range, as the representative color.
    open spec fn solid_spec(&self, level: Level) -> Rgb {
        self.range_spec(level).start
    }

    open spec fn range_spec(&self, level: Level) -> RgbRange {
        match level {
            Level::Trace => RgbRange {
                start: Color::DarkPink.value_spec(),
                end: Color::Pink.value_spec(),
            },
            Level::Debug => RgbRange {
                start: Color::DarkCyan.value_spec(),
                end: Color::Cyan.value_spec(),
            },
            Level::Info => RgbRange {
                start: Color::DarkGreen.value_spec(),
                end: Color::Green.value_spec(),
            },
            Level::Warn => RgbRange {
                start: Color::DarkOrange.value_spec(),
                end: Color::Orange.value_spec(),
            },
            Level::Error => RgbRange {
                start: Color::DarkRed.value_spec(),
                end: Color::Red.value_spec(),
            },
        }
    }

    fn solid(&self, level: Level) -> Rgb {
        self.range(level).start
    }

    fn range(&self, level: Level) -> RgbRange {
        match level {
            Level::Trace => RgbRange {
                start: Color::DarkPink.value(),
                end: Color::Pink.value(),
            },
            Level::Debug => RgbRange { start: Color::DarkCyan.value(), end: Color::Cyan.value() },
            Level::Info => RgbRange { start: Color::DarkGreen.value(), end: Color::Green.value() },
            Level::Warn => RgbRange {
                start: Color::DarkOrange.value(),
                end: Color::Orange.value(),
            },
            Level::Error => RgbRange { start: Color::DarkRed.value(), end: Color::Red.value() },
        }
    }
}

/// Move down the color spectrum by level.
pub struct Spectral {}

impl Theme for Spectral {
    /// The end of the level's range, as the representative color.
    open spec fn solid_spec(&self, level: Level) -> Rgb {
        self.range_spec(level).end
    }

    open spec fn range_spec(&self, level: Level) -> RgbRange {
        match level {
            Level::Trace => RgbRange {
                start: Color::DarkMagenta.value_spec(),
                end: Color::Pink.value_spec(),
            },
            Level::Debug => RgbRange {
                start: Color::DarkBlue.value_spec(),
                end: Color::Cyan.value_spec(),
            },
            Level::Info => RgbRange {
                start: Color::DarkCyan.value_spec(),
                end: Color::Green.value_spec(),
            },
            Level::Warn => RgbRange {
                start: Color::DarkYellow.value_spec(),
                end: Color::Orange.value_spec(),
            },
            Level::Error => RgbRange {
                start: Color::DarkOrange.value_spec(),
                end: Color::Red.value_spec(),
            },
        }
    }

    fn solid(&self, level: Level) -> Rgb {
        self.range(level).end
    }

    fn range(&self, level: Level) -> RgbRange {
        match level {
            Level::Trace => RgbRange {
                start: Color::DarkMagenta.value(),
                end: Color::Pink.value(),
            },
            Level::Debug => RgbRange { start: Color::DarkBlue.value(), end: Color::Cyan.value() },
            Level::Info => RgbRange { start: Color::DarkCyan.value(), end: Color::Green.value() },
            Level::Warn => RgbRange {
                start: Color::DarkYellow.value(),
                end: Color::Orange.value(),
            },
            Level::Error => RgbRange { start: Color::DarkOrange.value(), end: Color::Red.value() },
        }
    }
}

/// Both built-in themes give different levels different solid colors and
/// different gradient start colors, so painted lines can always be told
/// apart by level.
pub proof fn lemma_builtin_themes_distinguish_levels(l1: Level, l2: Level)
    requires
        l1 != l2,
    ensures
        (Simple {  }).solid_spec(l1) != (Simple {  }).solid_spec(l2),
        (Simple {  }).range_spec(l1).start != (Simple {  }).range_spec(l2).start,
        (Spectral {  }).solid_spec(l1) != (Spectral {  }).solid_spec(l2),
        (Spectral {  }).range_spec(l1).start != (Spectral {  }).range_spec(l2).start,
{
}

} // verus!
