use disco::Level;
use disco::LogEvent;
use disco::LogSculptor;
use disco::RecordFormat;

/// The record-format function type used when no custom formatter is
/// installed.
type Fmt = fn(&LogEvent) -> String;

fn event(level: Level, target: &str, message: &str) -> LogEvent {
    LogEvent {
        level,
        target: target.to_string(),
        message: message.to_string(),
    }
}

#[test]
fn sculpt_presets_return_non_empty() {
    let sculptors = vec![
        LogSculptor::new(RecordFormat::<Fmt>::Json),
        LogSculptor::new(RecordFormat::<Fmt>::Simple),
    ];

    for sculptor in sculptors {
        // create normal test record
        let rec = event(Level::Info, "test", "foo");

        assert!(!sculptor.sculpt(&rec).is_empty());

        // create record with empty args and target
        let rec = event(Level::Info, "", "");

        // record should still give non-empty log lines
        assert!(!sculptor.sculpt(&rec).is_empty());
    }
}

#[test]
fn sculpt_custom_formats_correctly() {
    let rec = event(Level::Info, "test", "foo");

    let sculptor = LogSculptor::new(RecordFormat::Custom(|_: &LogEvent| "".to_string()));
    assert_eq!(sculptor.sculpt(&rec), "");

    let sculptor = LogSculptor::new(RecordFormat::Custom(|r: &LogEvent| {
        format!("{} {}", r.level.name(), r.message)
    }));
    assert_eq!(sculptor.sculpt(&rec), "INFO foo");

    let sculptor = LogSculptor::new(RecordFormat::Custom(|r: &LogEvent| {
        format!("{} [{}] {}", r.level.name(), r.target, r.message)
    }));
    assert_eq!(sculptor.sculpt(&rec), "INFO [test] foo");
}

#[test]
fn sculpt_json_round_trips() {
    let sculptor = LogSculptor::new(RecordFormat::<Fmt>::Json);
    let rec = event(Level::Warn, "my::mod", "something happened");

    let line = sculptor.sculpt(&rec);
    let value: serde_json::Value = serde_json::from_str(&line).expect("output must parse as JSON");
    let object = value.as_object().expect("output must be a JSON object");

    // exactly the four expected keys
    let mut keys: Vec<&str> = object.keys().map(|k| k.as_str()).collect();
    keys.sort();
    assert_eq!(keys, vec!["level", "message", "target", "time"]);

    // level and target match the input event
    assert_eq!(object["level"].as_str(), Some("WARN"));
    assert_eq!(object["target"].as_str(), Some("my::mod"));
    assert_eq!(object["message"].as_str(), Some("something happened"));
    assert!(!object["time"].as_str().expect("time must be a string").is_empty());
}

#[test]
fn sculpt_json_escapes_special_characters() {
    let sculptor = LogSculptor::new(RecordFormat::<Fmt>::Json);
    let rec = event(Level::Info, "quo\"ted", "line1\nline2\t\"quoted\" back\\slash \u{1}");

    let line = sculptor.sculpt(&rec);
    let value: serde_json::Value = serde_json::from_str(&line).expect("output must parse as JSON");

    // escaping loses nothing: parsing gives the input text back
    assert_eq!(value["target"].as_str(), Some("quo\"ted"));
    assert_eq!(
        value["message"].as_str(),
        Some("line1\nline2\t\"quoted\" back\\slash \u{1}")
    );
}

#[test]
fn sculpt_json_handles_unicode_message() {
    let sculptor = LogSculptor::new(RecordFormat::<Fmt>::Json);
    let rec = event(Level::Error, "app", "नमस्ते 🎉");

    let line = sculptor.sculpt(&rec);
    let value: serde_json::Value = serde_json::from_str(&line).expect("output must parse as JSON");
    assert_eq!(value["message"].as_str(), Some("नमस्ते 🎉"));
    assert_eq!(value["level"].as_str(), Some("ERROR"));
}

#[test]
fn sculpt_simple_shows_timestamp_and_level() {
    let sculptor = LogSculptor::new(RecordFormat::<Fmt>::Simple);
    let rec = event(Level::Debug, "", "");

    let line = sculptor.sculpt(&rec);
    assert!(!line.is_empty());
    // fixed punctuation survives empty target and message
    assert!(line.contains(" [] DEBUG - "));
    // the line starts with a timestamp: a four-digit year
    assert!(line.chars().take(4).all(|c| c.is_ascii_digit()));
}

#[test]
fn sculpt_simple_formats_all_fields() {
    let sculptor = LogSculptor::new(RecordFormat::<Fmt>::Simple);
    let rec = event(Level::Info, "test", "foo");

    let line = sculptor.sculpt(&rec);
    assert!(line.ends_with(" [test] INFO - foo"));
}

#[test]
fn level_names_are_upper_case() {
    assert_eq!(Level::Trace.name(), "TRACE");
    assert_eq!(Level::Debug.name(), "DEBUG");
    assert_eq!(Level::Info.name(), "INFO");
    assert_eq!(Level::Warn.name(), "WARN");
    assert_eq!(Level::Error.name(), "ERROR");
}
