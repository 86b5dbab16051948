use starlight_axum::formatter::{CustomLogFormatter, Level, LogEvent, Timestamp};
use starlight_axum::source_path::abbreviate_path;
use starlight_axum::text::{decimal_string, lower_hex_string, quote};

fn sample_event() -> LogEvent {
    LogEvent {
        timestamp: Timestamp { unix_nanos: 1_546_300_800_123_456_789, offset_seconds: 3600 },
        level: Level::Info,
        trace_id: 0x4bf9_2f35_77b3_4da6_a3ce_929d_0e0e_4736,
        span_id: 0x00f0_67aa_0ba9_02b7,
        process_id: 4242,
        thread_name: Some("tokio-runtime-worker".to_string()),
        logical_source: Some("alpha::beta::request_handler".to_string()),
        target: "alpha::beta".to_string(),
        fields: "listening port=8080".to_string(),
    }
}

#[test]
fn abbreviates_all_but_the_last_segment() {
    assert_eq!(abbreviate_path("alpha::beta::request_handler"), "a::b::request_handler");
}

#[test]
fn abbreviation_keeps_a_path_without_separator() {
    assert_eq!(abbreviate_path("request_handler"), "request_handler");
    assert_eq!(abbreviate_path(""), "");
    assert_eq!(abbreviate_path("a:b"), "a:b");
}

#[test]
fn abbreviation_of_empty_segments() {
    assert_eq!(abbreviate_path("::handler"), "::handler");
    assert_eq!(abbreviate_path("alpha::"), "a::");
    assert_eq!(abbreviate_path("alpha::::beta"), "a::::beta");
    assert_eq!(abbreviate_path("alpha:::beta"), "a:::beta");
}

#[test]
fn hexadecimal_has_no_padding() {
    assert_eq!(lower_hex_string(0), "0");
    assert_eq!(lower_hex_string(255), "ff");
    assert_eq!(lower_hex_string(0x00f0_67aa_0ba9_02b7), "f067aa0ba902b7");
    assert_eq!(lower_hex_string(u128::MAX), "ffffffffffffffffffffffffffffffff");
}

#[test]
fn decimal_rendering() {
    assert_eq!(decimal_string(0), "0");
    assert_eq!(decimal_string(4242), "4242");
    assert_eq!(decimal_string(u64::MAX), "18446744073709551615");
}

#[test]
fn plain_line_has_the_fixed_order() {
    let line = CustomLogFormatter::plain().format_event(&sample_event()).unwrap();
    assert_eq!(
        line,
        "2019-01-01 01:00:00.123 +01:00 INFO [4bf92f3577b34da6a3ce929d0e0e4736,f067aa0ba902b7] \
         [4242,\"tokio-runtime-worker\"] a::b::request_handler [alpha::beta]: listening port=8080\n"
    );
}

#[test]
fn colored_line_paints_level_source_and_target() {
    let line = CustomLogFormatter::new().format_event(&sample_event()).unwrap();
    assert_eq!(
        line,
        "2019-01-01 01:00:00.123 +01:00 \u{1b}[1;32mINFO\u{1b}[0m \
         [4bf92f3577b34da6a3ce929d0e0e4736,f067aa0ba902b7] [4242,\"tokio-runtime-worker\"] \
         \u{1b}[1;33ma::b::request_handler\u{1b}[0m [\u{1b}[1;34malpha::beta\u{1b}[0m]: \
         listening port=8080\n"
    );
}

#[test]
fn each_level_has_its_colour() {
    let formatter = CustomLogFormatter::new();
    let cases = [
        (Level::Trace, "\u{1b}[1;35mTRACE\u{1b}[0m"),
        (Level::Debug, "\u{1b}[1;34mDEBUG\u{1b}[0m"),
        (Level::Info, "\u{1b}[1;32mINFO\u{1b}[0m"),
        (Level::Warn, "\u{1b}[1;33mWARN\u{1b}[0m"),
        (Level::Error, "\u{1b}[1;31mERROR\u{1b}[0m"),
    ];
    for (level, tag) in cases {
        let mut event = sample_event();
        event.level = level;
        let line = formatter.render_line("T", &event);
        assert!(line.starts_with(&format!("T {} [", tag)), "{}", line);
    }
}

#[test]
fn event_without_thread_name_or_source_or_span() {
    let mut event = sample_event();
    event.thread_name = None;
    event.logical_source = None;
    event.trace_id = 0;
    event.span_id = 0;
    let line = CustomLogFormatter::plain().render_line("T", &event);
    assert_eq!(line, "T INFO [0,0] [4242,\"\"]  [alpha::beta]: listening port=8080\n");
}

#[test]
fn thread_name_is_quoted_with_escapes() {
    let mut event = sample_event();
    event.thread_name = Some("a\"b\n".to_string());
    let line = CustomLogFormatter::plain().render_line("T", &event);
    assert!(line.contains("[4242,\"a\\\"b\\n\"]"), "{}", line);
}

#[test]
fn timestamp_out_of_range_gives_no_line() {
    let mut event = sample_event();
    event.timestamp.offset_seconds = 200_000;
    assert!(CustomLogFormatter::plain().format_event(&event).is_none());
    event.timestamp = Timestamp { unix_nanos: i128::MAX, offset_seconds: 0 };
    assert!(CustomLogFormatter::plain().format_event(&event).is_none());
}

#[test]
fn timestamp_at_the_epoch() {
    let text = Timestamp { unix_nanos: 0, offset_seconds: 0 }.render().unwrap();
    assert_eq!(text, "1970-01-01 00:00:00.000 +00:00");
    let west = Timestamp { unix_nanos: 0, offset_seconds: -(5 * 3600 + 30 * 60) }.render().unwrap();
    assert_eq!(west, "1969-12-31 18:30:00.000 -05:30");
}

#[test]
fn quoting_escapes_what_breaks_a_line() {
    assert_eq!(quote(""), "\"\"");
    assert_eq!(quote("plain text"), "\"plain text\"");
    assert_eq!(quote("a\"b"), "\"a\\\"b\"");
    assert_eq!(quote("a\\b"), "\"a\\\\b\"");
    assert_eq!(quote("line\nfeed\r\ttab\0"), "\"line\\nfeed\\r\\ttab\\0\"");
    assert_eq!(quote("\u{1}\u{1b}\u{7f}"), "\"\\u{1}\\u{1b}\\u{7f}\"");
    assert_eq!(quote("it's"), "\"it's\"");
    assert_eq!(quote("gr\u{fc}n"), "\"gr\u{fc}n\"");
}

#[test]
fn quoting_of_ascii_is_the_debug_form() {
    for code in 0u8..128 {
        let text = format!("a{}b", code as char);
        assert_eq!(quote(&text), format!("{:?}", text), "code {}", code);
    }
}
