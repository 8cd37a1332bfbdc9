//! Sculpting: turning a raw log event into a structurally formatted
//! string, before any color is applied.

use vstd::prelude::*;
use vstd::string::StrSliceExecFns;
use vstd::string::StringExecFns;

use crate::level::Level;
use crate::level::level_name;

verus! {

/// A structured log event handed in by the caller.
#[derive(Debug)]
pub struct LogEvent {
    /// severity of the event
    pub level: Level,
    /// source target; may be empty
    pub target: String,
    /// message text; may be empty and may hold any Unicode
    pub message: String,
}

/// Record formatting mode that determines how log records are structured.
pub enum RecordFormat<F: Fn(&LogEvent) -> String> {
    /// JSON format
    Json,
    /// simple log format `<timestamp> [<target>] <level> - <message>`
    Simple,
    /// custom record formatter provided by client code
    Custom(F),
}

/// The lower-case hexadecimal digit character for a value in 0..=15.
pub open spec fn hex_char(v: int) -> char {
    if v == 0 {
        '0'
    } else if v == 1 {
        '1'
    } else if v == 2 {
        '2'
    } else if v == 3 {
        '3'
    } else if v == 4 {
        '4'
    } else if v == 5 {
        '5'
    } else if v == 6 {
        '6'
    } else if v == 7 {
        '7'
    } else if v == 8 {
        '8'
    } else if v == 9 {
        '9'
    } else if v == 10 {
        'a'
    } else if v == 11 {
        'b'
    } else if v == 12 {
        'c'
    } else if v == 13 {
        'd'
    } else if v == 14 {
        'e'
    } else {
        'f'
    }
}

/// How one character appears inside a JSON string literal: quotes,
/// backslashes and control characters are escaped, every other character
/// stands for itself.
pub open spec fn json_escape_char(c: char) -> Seq<char> {
    if c == '"' {
        "\\\""@
    } else if c == '\\' {
        "\\\\"@
    } else if c == '\u{8}' {
        "\\b"@
    } else if c == '\t' {
        "\\t"@
    } else if c == '\n' {
        "\\n"@
    } else if c == '\u{c}' {
        "\\f"@
    } else if c == '\r' {
        "\\r"@
    } else if (c as int) < 0x20 {
        "\\u00"@ + seq![hex_char((c as int) / 16), hex_char((c as int) % 16)]
    } else {
        seq![c]
    }
}

/// The body of a JSON string literal holding the text `s`.
pub open spec fn json_escape(s: Seq<char>) -> Seq<char>
    decreases s.len(),
{
    if s.len() == 0 {
        Seq::empty()
    } else {
        json_escape_char(s[0]) + json_escape(s.drop_first())
    }
}

/// A character that needs no JSON escaping and cannot end a quoted
/// string: printable ASCII other than the quote and the backslash.
pub open spec fn plain_ascii_char(c: char) -> bool {
    0x20 <= c as int <= 0x7e && c != '"' && c != '\\'
}

/// A well-formed timestamp string: non-empty, printable ASCII, free of
/// quotes and backslashes.
pub open spec fn timestamp_chars_ok(s: Seq<char>) -> bool {
    s.len() > 0 && (forall|i: int| 0 <= i < s.len() ==> plain_ascii_char(#[trigger] s[i]))
}

/// The simple record format: `<timestamp> [<target>] <level> - <message>`.
pub open spec fn simple_line(
    now: Seq<char>,
    level: Level,
    target: Seq<char>,
    message: Seq<char>,
) -> Seq<char> {
    now + " ["@ + target + "] "@ + level_name(level) + " - "@ + message
}

/// The JSON record format: an object with exactly the keys `level`,
/// `message`, `target` and `time` (in that order), all string-valued.
pub open spec fn json_line(
    now: Seq<char>,
    level: Level,
    target: Seq<char>,
    message: Seq<char>,
) -> Seq<char> {
    "{\"level\":\""@ + level_name(level) + "\",\"message\":\""@ + json_escape(message)
        + "\",\"target\":\""@ + json_escape(target) + "\",\"time\":\""@ + json_escape(now) + "\"}"@
}

/// Escaping distributes over appending one character.
proof fn lemma_json_escape_push(s: Seq<char>, c: char)
    ensures
        json_escape(s.push(c)) == json_escape(s) + json_escape_char(c),
    decreases s.len(),
{
    if s.len() == 0 {
        assert(json_escape(Seq::<char>::empty()) =~= Seq::<char>::empty());
        assert(s.push(c).drop_first() =~= Seq::<char>::empty());
        assert(s.push(c)[0] == c);
        assert(json_escape(s.push(c)) =~= json_escape_char(c) + Seq::<char>::empty());
        assert(json_escape_char(c) + Seq::<char>::empty() =~= json_escape_char(c));
        assert(json_escape(s) + json_escape_char(c) =~= json_escape_char(c));
    } else {
        lemma_json_escape_push(s.drop_first(), c);
        assert(s.push(c).drop_first() =~= s.drop_first().push(c));
        assert(s.push(c)[0] == s[0]);
        assert(json_escape(s) + json_escape_char(c) =~= json_escape_char(s[0]) + (json_escape(
            s.drop_first(),
        ) + json_escape_char(c)));
    }
}

/// The lower-case hexadecimal digit as a one-character string.
fn hex_str(d: u8) -> (s: &'static str)
    requires
        d < 16,
    ensures
        s@ =~= seq![hex_char(d as int)],
{
    proof {
        reveal_strlit("0");
        reveal_strlit("1");
        reveal_strlit("2");
        reveal_strlit("3");
        reveal_strlit("4");
        reveal_strlit("5");
        reveal_strlit("6");
        reveal_strlit("7");
        reveal_strlit("8");
        reveal_strlit("9");
        reveal_strlit("a");
        reveal_strlit("b");
        reveal_strlit("c");
        reveal_strlit("d");
        reveal_strlit("e");
        reveal_strlit("f");
    }
    if d == 0 {
        "0"
    } else if d == 1 {
        "1"
    } else if d == 2 {
        "2"
    } else if d == 3 {
        "3"
    } else if d == 4 {
        "4"
    } else if d == 5 {
        "5"
    } else if d == 6 {
        "6"
    } else if d == 7 {
        "7"
    } else if d == 8 {
        "8"
    } else if d == 9 {
        "9"
    } else if d == 10 {
        "a"
    } else if d == 11 {
        "b"
    } else if d == 12 {
        "c"
    } else if d == 13 {
        "d"
    } else if d == 14 {
        "e"
    } else {
        "f"
    }
}

/// Relies on `String::push`: it appends exactly the given character.
#[verifier::external_body]
fn push_char(out: &mut String, c: char)
    ensures
        final(out)@ == old(out)@.push(c),
{
    out.push(c);
}

/// Append one character to `out` in JSON string-literal form.
fn append_json_escaped_char(out: &mut String, c: char)
    ensures
        final(out)@ == old(out)@ + json_escape_char(c),
{
    if c == '"' {
        out.append("\\\"");
    } else if c == '\\' {
        out.append("\\\\");
    } else if c == '\u{8}' {
        out.append("\\b");
    } else if c == '\t' {
        out.append("\\t");
    } else if c == '\n' {
        out.append("\\n");
    } else if c == '\u{c}' {
        out.append("\\f");
    } else if c == '\r' {
        out.append("\\r");
    } else if (c as u32) < 0x20 {
        let code: u32 = c as u32;
        out.append("\\u00");
        out.append(hex_str((code / 16) as u8));
        out.append(hex_str((code % 16) as u8));
    } else {
        push_char(out, c);
    }
    assert(final(out)@ =~= old(out)@ + json_escape_char(c));
}

/// Append the whole text of `s` to `out` in JSON string-literal form.
fn append_json_escaped(out: &mut String, s: &str)
    ensures
        final(out)@ == old(out)@ + json_escape(s@),
{
    let len: usize = s.unicode_len();
    let mut i: usize = 0;
    proof {
        assert(s@.subrange(0, 0) =~= Seq::<char>::empty());
        assert(json_escape(s@.subrange(0, 0)) =~= Seq::<char>::empty());
        assert(out@ =~= old(out)@ + json_escape(s@.subrange(0, 0)));
    }
    while i < len
        invariant
            i <= len,
            len == s@.len(),
            out@ == old(out)@ + json_escape(s@.subrange(0, i as int)),
        decreases len - i,
    {
        let c: char = s.get_char(i);
        append_json_escaped_char(out, c);
        proof {
            let prefix = s@.subrange(0, i as int);
            lemma_json_escape_push(prefix, c);
            assert(prefix.push(c) =~= s@.subrange(0, i + 1));
        }
        i = i + 1;
    }
    proof {
        assert(s@.subrange(0, len as int) =~= s@);
    }
}

/// Relies on `time::OffsetDateTime::now_utc` for the wall clock and on
/// `time` ISO-8601 formatting (`Iso8601::DEFAULT`) for its rendering:
/// the result is a non-empty string of digits and the separators
/// `+ - : T . Z W`, so it holds only printable ASCII and no quote or
/// backslash. Formatting the current UTC time cannot fail short of a
/// broken runtime clock, which is treated as fatal here.
#[verifier::external_body]
fn now_iso8601() -> (now: String)
    ensures
        timestamp_chars_ok(now@),
{
    time::OffsetDateTime::now_utc().format(
        &time::format_description::well_known::Iso8601::DEFAULT,
    ).expect("failed to format time as ISO 8601")
}

/// Sculpt structurally formatted string logs from raw log events.
pub struct LogSculptor<F: Fn(&LogEvent) -> String> {
    /// record formatting mode (determines how log records are
    /// structurally formatted)
    pub record_format: RecordFormat<F>,
}

impl<F: Fn(&LogEvent) -> String> LogSculptor<F> {
    /// Create a new sculptor using the provided record format.
    pub fn new(record_format: RecordFormat<F>) -> (sculptor: LogSculptor<F>)
        ensures
            sculptor.record_format == record_format,
    {
        LogSculptor { record_format }
    }

    /// Convert a log event into a formatted string, taking the already
    /// rendered timestamp as an argument.
    pub fn sculpt_with_now(&self, now: &str, event: &LogEvent) -> (line: String)
        requires
            self.record_format matches RecordFormat::Custom(f) ==> call_requires(f, (event,)),
        ensures
            self.record_format is Json ==> line@ == json_line(
                now@,
                event.level,
                event.target@,
                event.message@,
            ),
            self.record_format is Simple ==> line@ == simple_line(
                now@,
                event.level,
                event.target@,
                event.message@,
            ),
            self.record_format matches RecordFormat::Custom(f) ==> call_ensures(
                f,
                (event,),
                line,
            ),
    {
        match &self.record_format {
            RecordFormat::Json => {
                let mut out = String::new();
                out.append("{\"level\":\"");
                out.append(event.level.name());
                out.append("\",\"message\":\"");
                append_json_escaped(&mut out, event.message.as_str());
                out.append("\",\"target\":\"");
                append_json_escaped(&mut out, event.target.as_str());
                out.append("\",\"time\":\"");
                append_json_escaped(&mut out, now);
                out.append("\"}");
                assert(out@ =~= json_line(now@, event.level, event.target@, event.message@));
                out
            },
            RecordFormat::Simple => {
                let mut out = String::new();
                out.append(now);
                out.append(" [");
                out.append(event.target.as_str());
                out.append("] ");
                out.append(event.level.name());
                out.append(" - ");
                out.append(event.message.as_str());
                assert(out@ =~= simple_line(now@, event.level, event.target@, event.message@));
                out
            },
            RecordFormat::Custom(f) => f(event),
        }
    }

    /// Convert a log event into a formatted string, based on the current
    /// logger configuration, with the timestamp captured now.
    pub fn sculpt(&self, event: &LogEvent) -> (line: String)
        requires
            self.record_format matches RecordFormat::Custom(f) ==> call_requires(f, (event,)),
        ensures
            self.record_format is Json ==> exists|now: Seq<char>|
                timestamp_chars_ok(now) && line@ == json_line(
                    now,
                    event.level,
                    event.target@,
                    event.message@,
                ),
            self.record_format is Simple ==> exists|now: Seq<char>|
                timestamp_chars_ok(now) && line@ == simple_line(
                    now,
                    event.level,
                    event.target@,
                    event.message@,
                ),
            self.record_format matches RecordFormat::Custom(f) ==> call_ensures(
                f,
                (event,),
                line,
            ),
    {
        let now = now_iso8601();
        let line = self.sculpt_with_now(now.as_str(), event);
        proof {
            if self.record_format is Json {
                assert(timestamp_chars_ok(now@) && line@ == json_line(
                    now@,
                    event.level,
                    event.target@,
                    event.message@,
                ));
            }
            if self.record_format is Simple {
                assert(timestamp_chars_ok(now@) && line@ == simple_line(
                    now@,
                    event.level,
                    event.target@,
                    event.message@,
                ));
            }
        }
        line
    }
}

} // verus!
