//! The structured log formatter: one log event becomes one line of text that
//! carries the local time, the level, the identifiers of the active trace and
//! span, the process and thread, the abbreviated source path, the target and
//! the event's fields.

use vstd::prelude::*;
use crate::source_path::{abbreviate_path, abbreviated_path, lemma_abbreviated_single_line};
use crate::text::{
    decimal, decimal_string, lemma_decimal_single_line, lemma_lower_hex_single_line,
    lemma_quoted_single_line, lemma_single_line_concat, lower_hex, lower_hex_string, quote,
    quoted, single_line,
};

verus! {

/// The severity of a log event.
#[derive(Clone, Copy, Debug, PartialEq, Eq, Structural)]
pub enum Level {
    Trace,
    Debug,
    Info,
    Warn,
    Error,
}

/// The foreground colours that the formatter uses.
#[derive(Clone, Copy, Debug, PartialEq, Eq, Structural)]
pub enum Tint {
    Purple,
    Blue,
    Green,
    Yellow,
    Red,
}

/// The name under which a level appears in a line.
pub open spec fn level_name(level: Level) -> Seq<char> {
    match level {
        Level::Trace => "TRACE"@,
        Level::Debug => "DEBUG"@,
        Level::Info => "INFO"@,
        Level::Warn => "WARN"@,
        Level::Error => "ERROR"@,
    }
}

/// The colour in which a level is shown.
pub open spec fn level_tint(level: Level) -> Tint {
    match level {
        Level::Trace => Tint::Purple,
        Level::Debug => Tint::Blue,
        Level::Info => Tint::Green,
        Level::Warn => Tint::Yellow,
        Level::Error => Tint::Red,
    }
}

impl Level {
    /// The upper-case name of the level.
    pub fn as_str(&self) -> (name: &'static str)
        ensures
            name@ == level_name(*self),
    {
        match self {
            Level::Trace => "TRACE",
            Level::Debug => "DEBUG",
            Level::Info => "INFO",
            Level::Warn => "WARN",
            Level::Error => "ERROR",
        }
    }

    /// The colour of the level's tag.
    pub fn tint(&self) -> (tint: Tint)
        ensures
            tint == level_tint(*self),
    {
        match self {
            Level::Trace => Tint::Purple,
            Level::Debug => Tint::Blue,
            Level::Info => Tint::Green,
            Level::Warn => Tint::Yellow,
            Level::Error => Tint::Red,
        }
    }
}

/// The last digit of the SGR foreground code of a colour (`31` is red, `35`
/// purple).
pub open spec fn tint_digit(tint: Tint) -> char {
    match tint {
        Tint::Red => '1',
        Tint::Green => '2',
        Tint::Yellow => '3',
        Tint::Blue => '4',
        Tint::Purple => '5',
    }
}

/// `text` between the escape sequence that switches to bold type in the given
/// foreground colour and the one that resets all attributes.
pub open spec fn painted_bold(tint: Tint, text: Seq<char>) -> Seq<char> {
    seq!['\u{1b}', '[', '1', ';', '3', tint_digit(tint), 'm'] + text + seq![
        '\u{1b}',
        '[',
        '0',
        'm',
    ]
}

/// Calls `ansi_term`: `Colour::bold` gives a style, `Style::paint` attaches it
/// to the text, and the painted string's `Display` writes the style's prefix,
/// the text and the reset sequence. The contract states those three parts for
/// a bold style with one of the five foreground colours; it is taken from the
/// crate's source and not proved here.
#[verifier::external_body]
fn paint_bold(tint: Tint, text: &str) -> (out: String)
    ensures
        out@ == painted_bold(tint, text@),
{
    let colour = match tint {
        Tint::Purple => ansi_term::Colour::Purple,
        Tint::Blue => ansi_term::Colour::Blue,
        Tint::Green => ansi_term::Colour::Green,
        Tint::Yellow => ansi_term::Colour::Yellow,
        Tint::Red => ansi_term::Colour::Red,
    };
    colour.bold().paint(text).to_string()
}

/// What the `time` crate writes for the instant `unix_nanos` nanoseconds
/// after the Unix epoch, shown at `offset_seconds` east of UTC, under a
/// format description; `None` where the instant or the offset is outside the
/// crate's range or the description is not well formed.
pub uninterp spec fn formatted_time(
    unix_nanos: int,
    offset_seconds: int,
    description: Seq<char>,
) -> Option<Seq<char>>;

/// Calls `time::OffsetDateTime::format` on the instant built from the two
/// integers (`from_unix_timestamp_nanos`, `UtcOffset::from_whole_seconds`,
/// `checked_to_offset`) with the parsed description
/// (`format_description::parse`). Any error of these calls gives `None`. The
/// result is named, not described: calendar arithmetic and the description
/// language are the crate's.
#[verifier::external_body]
fn format_time(unix_nanos: i128, offset_seconds: i32, description: &str) -> (out: Option<String>)
    ensures
        out matches Some(text) ==> formatted_time(
            unix_nanos as int,
            offset_seconds as int,
            description@,
        ) == Some(text@),
        out is None ==> formatted_time(unix_nanos as int, offset_seconds as int, description@)
            is None,
{
    let offset = time::UtcOffset::from_whole_seconds(offset_seconds).ok()?;
    let utc = time::OffsetDateTime::from_unix_timestamp_nanos(unix_nanos).ok()?;
    let local = utc.checked_to_offset(offset)?;
    let items = time::format_description::parse(description).ok()?;
    local.format(&items).ok()
}

/// An instant together with the UTC offset at which it is to be shown.
#[derive(Clone, Copy, Debug, PartialEq, Eq, Structural)]
pub struct Timestamp {
    /// Nanoseconds since 1970-01-01 00:00:00 UTC.
    pub unix_nanos: i128,
    /// Seconds east of UTC of the local time zone at that instant.
    pub offset_seconds: i32,
}

/// The description of a line's time: date, time of day with milliseconds,
/// and the UTC offset with its sign.
pub open spec fn time_description() -> Seq<char> {
    "[year]-[month]-[day] [hour]:[minute]:[second].[subsecond digits:3] [offset_hour sign:mandatory]:[offset_minute]"@
}

/// The text of a timestamp in a log line, where it can be rendered.
pub open spec fn timestamp_text(at: Timestamp) -> Option<Seq<char>> {
    formatted_time(at.unix_nanos as int, at.offset_seconds as int, time_description())
}

impl Timestamp {
    /// Renders the timestamp as local date and time with millisecond
    /// precision and an explicit UTC offset; `None` exactly where the `time`
    /// crate cannot represent it.
    pub fn render(&self) -> (out: Option<String>)
        ensures
            out matches Some(text) ==> timestamp_text(*self) == Some(text@),
            out is None ==> timestamp_text(*self) is None,
    {
        format_time(
            self.unix_nanos,
            self.offset_seconds,
            "[year]-[month]-[day] [hour]:[minute]:[second].[subsecond digits:3] [offset_hour sign:mandatory]:[offset_minute]",
        )
    }
}

/// A log event as the formatter reads it. It is built for one line and then
/// dropped.
#[derive(Clone, Debug)]
pub struct LogEvent {
    /// When the event happened, in local time.
    pub timestamp: Timestamp,
    pub level: Level,
    /// The trace of the active span, zero where no span is active.
    pub trace_id: u128,
    /// The active span, zero where none is active.
    pub span_id: u64,
    pub process_id: u32,
    /// The name of the emitting thread; a thread without a name is shown
    /// with an empty name.
    pub thread_name: Option<String>,
    /// The logical source path, such as `alpha::beta::handler`; an event
    /// without one is shown with an empty path.
    pub logical_source: Option<String>,
    /// The event's target or category.
    pub target: String,
    /// The event's fields, already formatted.
    pub fields: String,
}

/// The mathematical content of a [`LogEvent`].
pub struct LogEventView {
    pub timestamp: Timestamp,
    pub level: Level,
    pub trace_id: nat,
    pub span_id: nat,
    pub process_id: nat,
    pub thread_name: Option<Seq<char>>,
    pub logical_source: Option<Seq<char>>,
    pub target: Seq<char>,
    pub fields: Seq<char>,
}

impl View for LogEvent {
    type V = LogEventView;

    open spec fn view(&self) -> LogEventView {
        LogEventView {
            timestamp: self.timestamp,
            level: self.level,
            trace_id: self.trace_id as nat,
            span_id: self.span_id as nat,
            process_id: self.process_id as nat,
            thread_name: match self.thread_name {
                Some(name) => Some(name@),
                None => None,
            },
            logical_source: match self.logical_source {
                Some(path) => Some(path@),
                None => None,
            },
            target: self.target@,
            fields: self.fields@,
        }
    }
}

/// A text that may be absent, read as empty where it is.
pub open spec fn text_or_empty(text: Option<Seq<char>>) -> Seq<char> {
    match text {
        Some(t) => t,
        None => Seq::empty(),
    }
}

/// A tag of a line: painted where colours are on, bare where they are off.
pub open spec fn tag(colored: bool, tint: Tint, text: Seq<char>) -> Seq<char> {
    if colored {
        painted_bold(tint, text)
    } else {
        text
    }
}

/// The line of an event whose time has been rendered as `time`. In order:
/// the time; the level's tag in the level's colour; trace and span
/// identifiers in base 16 between square brackets; process identifier and
/// quoted thread name between square brackets; the abbreviated source path
/// in yellow; the target in blue between square brackets and followed by a
/// colon; the fields; a line feed.
pub open spec fn line_text(colored: bool, time: Seq<char>, event: LogEventView) -> Seq<char> {
    time + " "@ + tag(colored, level_tint(event.level), level_name(event.level)) + " ["@
        + lower_hex(event.trace_id) + ","@ + lower_hex(event.span_id) + "] ["@ + decimal(
        event.process_id,
    ) + ","@ + quoted(text_or_empty(event.thread_name)) + "] "@ + tag(
        colored,
        Tint::Yellow,
        abbreviated_path(text_or_empty(event.logical_source)),
    ) + " ["@ + tag(colored, Tint::Blue, event.target) + "]: "@ + event.fields + "\n"@
}

/// A tag of a text without line feeds holds no line feed.
pub proof fn lemma_tag_single_line(colored: bool, tint: Tint, text: Seq<char>)
    requires
        single_line(text),
    ensures
        single_line(tag(colored, tint, text)),
{
    let prefix = seq!['\u{1b}', '[', '1', ';', '3', tint_digit(tint), 'm'];
    let suffix = seq!['\u{1b}', '[', '0', 'm'];
    assert(single_line(prefix));
    lemma_single_line_concat(prefix, text);
    lemma_single_line_concat(prefix + text, suffix);
}

/// One event, one line: where the rendered time, the source path, the
/// target and the fields hold no line feed, the line of an event ends with
/// a line feed and holds no other. Trace and span identifiers, process
/// identifier, level and thread name never bring one in.
pub proof fn lemma_line_is_one_line(colored: bool, time: Seq<char>, event: LogEventView)
    requires
        single_line(time),
        single_line(text_or_empty(event.logical_source)),
        single_line(event.target),
        single_line(event.fields),
    ensures
        ({
            let line = line_text(colored, time, event);
            line.len() > 0 && line.last() == '\n' && single_line(line.drop_last())
        }),
{
    reveal_strlit(" ");
    reveal_strlit(" [");
    reveal_strlit(",");
    reveal_strlit("] [");
    reveal_strlit("] ");
    reveal_strlit("]: ");
    reveal_strlit("\n");
    reveal_strlit("TRACE");
    reveal_strlit("DEBUG");
    reveal_strlit("INFO");
    reveal_strlit("WARN");
    reveal_strlit("ERROR");
    let level = tag(colored, level_tint(event.level), level_name(event.level));
    let trace = lower_hex(event.trace_id);
    let span = lower_hex(event.span_id);
    let process = decimal(event.process_id);
    let thread = quoted(text_or_empty(event.thread_name));
    let source = tag(colored, Tint::Yellow, abbreviated_path(text_or_empty(event.logical_source)));
    let target = tag(colored, Tint::Blue, event.target);
    assert(single_line(level_name(event.level)));
    lemma_tag_single_line(colored, level_tint(event.level), level_name(event.level));
    lemma_lower_hex_single_line(event.trace_id);
    lemma_lower_hex_single_line(event.span_id);
    lemma_decimal_single_line(event.process_id);
    lemma_quoted_single_line(text_or_empty(event.thread_name));
    lemma_abbreviated_single_line(text_or_empty(event.logical_source));
    lemma_tag_single_line(
        colored,
        Tint::Yellow,
        abbreviated_path(text_or_empty(event.logical_source)),
    );
    lemma_tag_single_line(colored, Tint::Blue, event.target);
    let p1 = time + " "@;
    lemma_single_line_concat(time, " "@);
    let p2 = p1 + level;
    lemma_single_line_concat(p1, level);
    let p3 = p2 + " ["@;
    lemma_single_line_concat(p2, " ["@);
    let p4 = p3 + trace;
    lemma_single_line_concat(p3, trace);
    let p5 = p4 + ","@;
    lemma_single_line_concat(p4, ","@);
    let p6 = p5 + span;
    lemma_single_line_concat(p5, span);
    let p7 = p6 + "] ["@;
    lemma_single_line_concat(p6, "] ["@);
    let p8 = p7 + process;
    lemma_single_line_concat(p7, process);
    let p9 = p8 + ","@;
    lemma_single_line_concat(p8, ","@);
    let p10 = p9 + thread;
    lemma_single_line_concat(p9, thread);
    let p11 = p10 + "] "@;
    lemma_single_line_concat(p10, "] "@);
    let p12 = p11 + source;
    lemma_single_line_concat(p11, source);
    let p13 = p12 + " ["@;
    lemma_single_line_concat(p12, " ["@);
    let p14 = p13 + target;
    lemma_single_line_concat(p13, target);
    let p15 = p14 + "]: "@;
    lemma_single_line_concat(p14, "]: "@);
    let p16 = p15 + event.fields;
    lemma_single_line_concat(p15, event.fields);
    let line = line_text(colored, time, event);
    assert(line == p16 + "\n"@);
    assert("\n"@ =~= seq!['\n']);
    assert(line.drop_last() =~= p16);
}

/// Formats log events as single lines. Colours can be switched off without
/// any other change to the line.
#[derive(Clone, Copy, Debug, PartialEq, Eq, Structural)]
pub struct CustomLogFormatter {
    /// Whether the level, the source path and the target are painted.
    pub colored: bool,
}

impl CustomLogFormatter {
    /// A formatter that paints its tags.
    pub fn new() -> (formatter: Self)
        ensures
            formatter.colored,
    {
        CustomLogFormatter { colored: true }
    }

    /// A formatter that emits no escape sequences.
    pub fn plain() -> (formatter: Self)
        ensures
            !formatter.colored,
    {
        CustomLogFormatter { colored: false }
    }

    /// The same formatter with colours switched on or off.
    pub fn with_color(self, colored: bool) -> (formatter: Self)
        ensures
            formatter.colored == colored,
    {
        CustomLogFormatter { colored }
    }

    /// Appends a tag to a line under construction.
    fn push_tag(&self, out: &mut String, tint: Tint, text: &str)
        ensures
            final(out)@ == old(out)@ + tag(self.colored, tint, text@),
    {
        if self.colored {
            let painted = paint_bold(tint, text);
            out.append(painted.as_str());
        } else {
            out.append(text);
        }
    }

    /// Builds the line of `event` around a time that has already been
    /// rendered.
    pub fn render_line(&self, time: &str, event: &LogEvent) -> (line: String)
        ensures
            line@ == line_text(self.colored, time@, event@),
    {
        let mut line = String::from_str(time);
        line.append(" ");
        self.push_tag(&mut line, event.level.tint(), event.level.as_str());
        line.append(" [");
        let trace = lower_hex_string(event.trace_id);
        line.append(trace.as_str());
        line.append(",");
        let span = lower_hex_string(event.span_id as u128);
        line.append(span.as_str());
        line.append("] [");
        let process = decimal_string(event.process_id as u64);
        line.append(process.as_str());
        line.append(",");
        let thread = match &event.thread_name {
            Some(name) => quote(name.as_str()),
            None => quote(""),
        };
        proof {
            reveal_strlit("");
            assert(""@ == Seq::<char>::empty());
        }
        line.append(thread.as_str());
        line.append("] ");
        let source = match &event.logical_source {
            Some(path) => abbreviate_path(path.as_str()),
            None => abbreviate_path(""),
        };
        self.push_tag(&mut line, Tint::Yellow, source.as_str());
        line.append(" [");
        self.push_tag(&mut line, Tint::Blue, event.target.as_str());
        line.append("]: ");
        line.append(event.fields.as_str());
        line.append("\n");
        line
    }

    /// Formats one event as one line. The result is `None` exactly where the
    /// event's timestamp cannot be rendered.
    pub fn format_event(&self, event: &LogEvent) -> (out: Option<String>)
        ensures
            match timestamp_text(event.timestamp) {
                Some(time) => out matches Some(line) && line@ == line_text(
                    self.colored,
                    time,
                    event@,
                ),
                None => out is None,
            },
    {
        match event.timestamp.render() {
            Some(time) => Some(self.render_line(time.as_str(), event)),
            None => None,
        }
    }
}

} // verus!
