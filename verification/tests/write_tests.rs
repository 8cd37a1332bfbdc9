use disco::Color;
use disco::Level;
use disco::LogWriter;
use disco::Rgb;

#[test]
fn write_handles_empty_msg() {
    let levels = vec![
        Level::Trace,
        Level::Debug,
        Level::Info,
        Level::Warn,
        Level::Error,
    ];

    // using stderr
    let writer = LogWriter::new(true);

    for level in levels.iter() {
        writer.write("".to_string(), *level);
    }

    // not using stderr
    let writer = LogWriter::new(false);

    for level in levels.iter() {
        writer.write("".to_string(), *level);
    }
}

#[test]
fn high_severity_lines_are_emphasized() {
    let writer = LogWriter::new(true);

    // Warn and Error lines are wrapped in the bold escape
    assert_eq!(
        writer.render_line("boom".to_string(), Level::Error),
        "\u{1b}[1mboom\u{1b}[0m"
    );
    assert_eq!(
        writer.render_line("careful".to_string(), Level::Warn),
        "\u{1b}[1mcareful\u{1b}[0m"
    );

    // lower severities pass through unchanged
    assert_eq!(writer.render_line("hello".to_string(), Level::Info), "hello");
    assert_eq!(writer.render_line("hello".to_string(), Level::Trace), "hello");
}

#[test]
fn routing_honors_severity_and_switch() {
    let split = LogWriter::new(true);
    assert!(!split.route_to_stderr(Level::Trace));
    assert!(!split.route_to_stderr(Level::Debug));
    assert!(!split.route_to_stderr(Level::Info));
    assert!(split.route_to_stderr(Level::Warn));
    assert!(split.route_to_stderr(Level::Error));

    let merged = LogWriter::new(false);
    assert!(!merged.route_to_stderr(Level::Warn));
    assert!(!merged.route_to_stderr(Level::Error));
}

#[test]
fn color_value_returns_preset_triplets() {
    assert_eq!(Color::DarkMagenta.value(), Rgb { r: 139, g: 0, b: 139 });
    assert_eq!(Color::Green.value(), Rgb { r: 110, g: 220, b: 10 });
    assert_eq!(Color::Red.value(), Rgb { r: 255, g: 60, b: 10 });
}
