use cw::format::{format_json_line, format_text_line, render_event};
use cw::{EventChannel, FormatOptions, LogEvent, OutputType};

fn event(msg: Option<&str>) -> LogEvent {
    LogEvent {
        group_name: "grp".to_string(),
        log_stream_name: Some("stream".to_string()),
        timestamp: Some(0),
        message: msg.map(|m| m.to_string()),
        ingestion_time: None,
        event_id: Some("ev-1".to_string()),
    }
}

fn options(output: OutputType) -> FormatOptions {
    FormatOptions {
        output,
        use_local_time: false,
        with_timestamp: false,
        with_group_name: false,
        with_stream_name: false,
        with_event_id: false,
        color: false,
    }
}

#[test]
fn bare_text_line_is_message_and_newline() {
    let o = options(OutputType::Text);
    let line = format_text_line(&o, &event(Some("hi")), Some("1970-01-01T00:00:00Z"));
    assert_eq!(line, "hi\n");
}

#[test]
fn bare_json_line_is_message_object() {
    let o = options(OutputType::Json);
    let line = format_json_line(&o, &event(Some("hi")), Some("1970-01-01T00:00:00Z"));
    assert_eq!(line, "{\"message\":\"hi\"}\n");
}

#[test]
fn json_message_null_when_absent() {
    let o = options(OutputType::Json);
    let line = format_json_line(&o, &event(None), None);
    assert_eq!(line, "{\"message\":null}\n");
}

#[test]
fn text_line_with_all_fields_plain() {
    let mut o = options(OutputType::Text);
    o.with_timestamp = true;
    o.with_group_name = true;
    o.with_stream_name = true;
    o.with_event_id = true;
    let line = format_text_line(&o, &event(Some("msg")), Some("T0"));
    assert_eq!(line, "T0 - grp - stream - ev-1 - msg\n");
}

#[test]
fn text_line_with_colors() {
    let mut o = options(OutputType::Text);
    o.with_group_name = true;
    o.color = true;
    let line = format_text_line(&o, &event(Some("msg")), None);
    assert_eq!(line, "\u{1b}[34mgrp\u{1b}[0m - msg\n");
}

#[test]
fn json_line_with_all_fields() {
    let mut o = options(OutputType::Json);
    o.with_timestamp = true;
    o.with_group_name = true;
    o.with_stream_name = true;
    o.with_event_id = true;
    let line = format_json_line(&o, &event(Some("msg")), Some("T0"));
    assert_eq!(
        line,
        "{\"message\":\"msg\",\"timestamp\":\"T0\",\"id\":\"ev-1\",\"group\":\"grp\",\"stream\":\"stream\"}\n"
    );
}

#[test]
fn json_escapes_special_characters() {
    let o = options(OutputType::Json);
    let line = format_json_line(&o, &event(Some("a\"b\\c\nd\te\u{1}f")), None);
    assert_eq!(line, "{\"message\":\"a\\\"b\\\\c\\nd\\te\\u0001f\"}\n");
}

#[test]
fn timestamp_renders_epoch_in_utc() {
    assert_eq!(
        cw::parse_timestamp(0, false).as_deref(),
        Some("1970-01-01T00:00:00Z")
    );
    assert_eq!(
        cw::parse_timestamp(947638923004, false).as_deref(),
        Some("2000-01-12T01:02:03Z")
    );
    assert_eq!(cw::parse_timestamp(i64::MAX, false), None);
}

#[test]
fn local_timestamp_present_for_renderable_values() {
    assert!(cw::parse_timestamp(0, true).is_some());
}

#[test]
fn local_rendering_skips_out_of_range_timestamps() {
    let mut o = options(OutputType::Text);
    o.with_timestamp = true;
    o.use_local_time = true;
    let mut ev = event(Some("hi"));
    ev.timestamp = Some(i64::MAX);
    // Such a timestamp cannot be shifted into a local zone; the line carries
    // no timestamp rather than failing.
    assert_eq!(render_event(&o, &ev), "hi\n");
}

#[test]
fn render_event_includes_rendered_timestamp() {
    let mut o = options(OutputType::Text);
    o.with_timestamp = true;
    let line = render_event(&o, &event(Some("hi")));
    assert_eq!(line, "1970-01-01T00:00:00Z - hi\n");
}

#[test]
fn channel_is_first_in_first_out() {
    let mut chan = EventChannel::new();
    assert!(chan.is_empty());
    chan.send(event(Some("first")));
    chan.send(event(Some("second")));
    assert_eq!(chan.len(), 2);
    assert_eq!(chan.recv().unwrap().message.as_deref(), Some("first"));
    assert_eq!(chan.recv().unwrap().message.as_deref(), Some("second"));
    assert!(chan.recv().is_none());
}

#[test]
fn drain_preserves_arrival_order() {
    let o = options(OutputType::Text);
    let mut chan = EventChannel::new();
    chan.send(event(Some("one")));
    chan.send(event(Some("two")));
    chan.send(event(Some("three")));
    let lines = cw::format::drain_to_lines(&mut chan, &o);
    assert_eq!(lines, vec!["one\n", "two\n", "three\n"]);
    assert!(chan.is_empty());
}
