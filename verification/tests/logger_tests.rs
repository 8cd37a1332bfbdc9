use disco::Config;
use disco::DiscoLogger;
use disco::Level;
use disco::LevelFilter;
use disco::LogEvent;
use disco::theme::Spectral;

/// The record-format function type used when no custom formatter is
/// installed.
type Fmt = fn(&LogEvent) -> String;

fn event(level: Level, target: &str, message: &str) -> LogEvent {
    LogEvent {
        level,
        target: target.to_string(),
        message: message.to_string(),
    }
}

#[test]
fn enabled_filters_levels() {
    let config: Config<Spectral, Fmt> = Config {
        level: LevelFilter::Warn,
        ..Default::default()
    };
    let logger = DiscoLogger::with_config(config);

    assert!(!logger.enabled(Level::Trace));
    assert!(!logger.enabled(Level::Debug));
    assert!(!logger.enabled(Level::Info));
    assert!(logger.enabled(Level::Warn));
    assert!(logger.enabled(Level::Error));
}

#[test]
fn enabled_with_off_level_filter_is_always_false() {
    let config: Config<Spectral, Fmt> = Config {
        level: LevelFilter::Off,
        ..Default::default()
    };
    let logger = DiscoLogger::with_config(config);

    assert!(!logger.enabled(Level::Trace));
    assert!(!logger.enabled(Level::Debug));
    assert!(!logger.enabled(Level::Info));
    assert!(!logger.enabled(Level::Warn));
    assert!(!logger.enabled(Level::Error));
}

#[test]
fn log_handles_empty_record() {
    let config: Config<Spectral, Fmt> = Config::default();
    let mut logger = DiscoLogger::with_config(config);

    // create a record with fields set to empty strings
    let rec = event(Level::Info, "", "");

    // this shouldn't panic
    logger.log(&rec);
}

#[test]
fn new_logger_uses_default_config() {
    let logger: DiscoLogger<Spectral, Fmt> = DiscoLogger::new();

    // default threshold is Info
    assert!(logger.enabled(Level::Info));
    assert!(logger.enabled(Level::Error));
    assert!(!logger.enabled(Level::Debug));
    assert!(!logger.enabled(Level::Trace));
    logger.flush();
}
