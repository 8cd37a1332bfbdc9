//! Logger configuration.

use vstd::prelude::*;

use crate::level::LevelFilter;
use crate::paint::ColorFormat;
use crate::sculpt::LogEvent;
use crate::sculpt::RecordFormat;
use crate::theme::Spectral;
use crate::theme::Theme;

verus! {

/// Main configuration for a logger.
pub struct Config<T: Theme, F: Fn(&LogEvent) -> String> {
    /// log level filter (logs below this severity will be ignored)
    pub level: LevelFilter,
    /// record formatting mode (determines how log records are
    /// structurally formatted)
    pub record_format: RecordFormat<F>,
    /// color formatting mode (determines how log records are colored)
    pub color_format: Option<ColorFormat>,
    /// color theme (determines the color palette used to color log
    /// records)
    pub theme: T,
    /// switch for enabling log splitting to `stderr`
    ///
    /// - `true`: log `Trace` - `Info` levels to `stdout` and `Warn` -
    ///   `Error` levels to `stderr`
    ///
    /// - `false`: log all levels to `stdout`
    pub use_stderr: bool,
}

impl<F: Fn(&LogEvent) -> String> Default for Config<Spectral, F> {
    /// Return a `Config` with default values: threshold `Info`, the
    /// simple record format, solid coloring with the spectral theme, and
    /// splitting to stderr switched on.
    fn default() -> (config: Config<Spectral, F>)
        ensures
            config.level == LevelFilter::Info,
            config.record_format is Simple,
            config.color_format == Some(ColorFormat::Solid),
            config.theme == (Spectral {  }),
            config.use_stderr == true,
    {
        Config {
            level: LevelFilter::Info,
            record_format: RecordFormat::Simple,
            color_format: Some(ColorFormat::Solid),
            theme: Spectral {  },
            use_stderr: true,
        }
    }
}

} // verus!
