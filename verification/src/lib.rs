//! A console log renderer: structured log events are formatted into plain
//! strings, painted with theme-driven color gradients, and routed to the
//! standard output streams by severity.

use vstd::prelude::*;

pub mod ansi;
pub mod color;
pub mod config;
pub mod gradient;
pub mod laws;
pub mod level;
pub mod paint;
pub mod sculpt;
pub mod theme;
pub mod write;

pub use color::Color;
pub use color::Rgb;
pub use color::RgbRange;
pub use config::Config;
pub use level::Level;
pub use level::LevelFilter;
pub use paint::ColorFormat;
pub use paint::LogPainter;
pub use sculpt::LogEvent;
pub use sculpt::LogSculptor;
pub use sculpt::RecordFormat;
pub use theme::Theme;
pub use write::LogWriter;

use crate::level::level_passes;
use crate::theme::Spectral;

verus! {

/// The log renderer: sculpts an event into a string, paints it, and
/// writes it out, honoring the configured severity threshold.
pub struct DiscoLogger<T: Theme, F: Fn(&LogEvent) -> String> {
    /// level-based filter for logs
    pub level_filter: LevelFilter,
    /// painter for logs
    pub log_painter: LogPainter<T>,
    /// sculptor for logs
    pub log_sculptor: LogSculptor<F>,
    /// writer for logs
    pub log_writer: LogWriter,
}

impl<F: Fn(&LogEvent) -> String> DiscoLogger<Spectral, F> {
    /// Create a new logger with the default configuration.
    pub fn new() -> (logger: DiscoLogger<Spectral, F>)
        ensures
            logger.level_filter == LevelFilter::Info,
            logger.log_sculptor.record_format is Simple,
            logger.log_painter.color_format == Some(ColorFormat::Solid),
            logger.log_painter.theme == (Spectral {  }),
            logger.log_writer.use_stderr == true,
            forall|level: Level| logger.log_painter.lines_logged.count_spec(level) == 0,
    {
        DiscoLogger::with_config(Config::default())
    }
}

impl<T: Theme, F: Fn(&LogEvent) -> String> DiscoLogger<T, F> {
    /// Create a new logger with a custom configuration.
    pub fn with_config(config: Config<T, F>) -> (logger: DiscoLogger<T, F>)
        ensures
            logger.level_filter == config.level,
            logger.log_sculptor.record_format == config.record_format,
            logger.log_painter.theme == config.theme,
            logger.log_painter.color_format == config.color_format,
            forall|level: Level| logger.log_painter.lines_logged.count_spec(level) == 0,
            logger.log_writer.use_stderr == config.use_stderr,
    {
        DiscoLogger {
            log_sculptor: LogSculptor::new(config.record_format),
            level_filter: config.level,
            log_painter: LogPainter::new(config.theme, config.color_format),
            log_writer: LogWriter::new(config.use_stderr),
        }
    }

    /// Check if a message at this level should be logged: true exactly
    /// when the level is at least as severe as the threshold, and never
    /// when the threshold is `Off`.
    pub fn enabled(&self, level: Level) -> (pass: bool)
        ensures
            pass == level_passes(level, self.level_filter),
    {
        level.passes(self.level_filter)
    }

    /// Log an event: discard it if its level does not pass the
    /// threshold; otherwise sculpt it, paint it, and write it out.
    ///
    /// Only an enabled event painted under the multi-line gradient
    /// changes any state: that level's line counter advances by exactly
    /// one, and nothing else moves.
    pub fn log(&mut self, event: &LogEvent)
        requires
            old(self).log_sculptor.record_format matches RecordFormat::Custom(f)
                ==> call_requires(f, (event,)),
        ensures
            final(self).level_filter == old(self).level_filter,
            final(self).log_sculptor == old(self).log_sculptor,
            final(self).log_writer == old(self).log_writer,
            final(self).log_painter.theme == old(self).log_painter.theme,
            final(self).log_painter.color_format == old(self).log_painter.color_format,
            !level_passes(event.level, old(self).level_filter) ==> *final(self) == *old(self),
            (level_passes(event.level, old(self).level_filter) && (old(
                self,
            ).log_painter.color_format matches Some(ColorFormat::MultiLineGradient(_)))) ==> {
                &&& final(self).log_painter.lines_logged.count_spec(event.level) == old(
                    self).log_painter.lines_logged.count_spec(event.level).wrapping_add(1)
                &&& forall|other: Level|
                    other != event.level ==> final(self).log_painter.lines_logged.count_spec(other)
                        == old(self).log_painter.lines_logged.count_spec(other)
            },
            !(level_passes(event.level, old(self).level_filter) && (old(
                self,
            ).log_painter.color_format matches Some(ColorFormat::MultiLineGradient(_)))) ==> final(
                self).log_painter.lines_logged == old(self).log_painter.lines_logged,
    {
        if !self.enabled(event.level) {
            return ;
        }
        let msg = self.log_sculptor.sculpt(event);
        let msg = self.log_painter.paint(msg, event.level);
        self.log_writer.write(msg, event.level);
    }

    /// Nothing is buffered, so there is nothing to flush.
    pub fn flush(&self) {
    }
}

} // verus!
