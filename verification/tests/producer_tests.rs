use cw::{Page, ProducerAction, ProducerConfig, ProducerState, RawEvent};

fn raw(ts: Option<i64>, msg: &str) -> RawEvent {
    RawEvent {
        log_stream_name: Some("stream-1".to_string()),
        timestamp: ts,
        message: Some(msg.to_string()),
        ingestion_time: ts,
        event_id: None,
    }
}

fn config(follow: bool) -> ProducerConfig {
    ProducerConfig {
        group_name: "grp".to_string(),
        stream_prefix: None,
        filter: None,
        end_time: None,
        follow,
    }
}

#[test]
fn three_events_then_exhausted_without_follow() {
    let pages = vec![
        Page {
            events: vec![raw(Some(10), "one"), raw(Some(11), "two"), raw(Some(12), "three")],
            next_token: Some("t1".to_string()),
        },
        Page { events: vec![], next_token: None },
    ];
    let run = cw::producer::run_producer(&config(false), 0, pages);
    assert!(run.completed);
    assert_eq!(run.events.len(), 3);
    assert_eq!(run.events[0].message.as_deref(), Some("one"));
    assert_eq!(run.events[1].message.as_deref(), Some("two"));
    assert_eq!(run.events[2].message.as_deref(), Some("three"));
    assert_eq!(run.events[0].group_name, "grp");
    assert!(run.sleeps.is_empty());
}

#[test]
fn backoff_escalates_and_caps_at_ten() {
    let empty = || Page { events: vec![], next_token: None };
    let pages: Vec<Page> = (0..12).map(|_| empty()).collect();
    let run = cw::producer::run_producer(&config(true), 0, pages);
    assert!(!run.completed);
    assert_eq!(run.sleeps, vec![1, 2, 3, 4, 5, 6, 7, 8, 9, 10, 10, 10]);
    assert_eq!(run.state.backoff_secs, 10);
}

#[test]
fn nonempty_page_resets_backoff() {
    let empty = || Page { events: vec![], next_token: None };
    let mut pages: Vec<Page> = (0..4).map(|_| empty()).collect();
    pages.push(Page { events: vec![raw(Some(5), "x")], next_token: None });
    pages.push(empty());
    let run = cw::producer::run_producer(&config(true), 0, pages);
    assert_eq!(run.sleeps, vec![1, 2, 3, 4, 1]);
    assert_eq!(run.state.backoff_secs, 2);
}

#[test]
fn cursor_advances_past_last_timestamp() {
    let cfg = config(true);
    let mut state = cw::producer::initial_state(100);
    let page = Page { events: vec![raw(Some(41), "a"), raw(Some(42), "b")], next_token: None };
    let (events, action) = cw::producer::apply_page(&mut state, &cfg, page);
    assert_eq!(events.len(), 2);
    assert!(matches!(action, ProducerAction::Continue { sleep_secs: None }));
    assert_eq!(state.cursor, 43);
    let request = cw::producer::next_request(&state, &cfg);
    assert_eq!(request.start_time, 43);
    assert!(request.start_time > 42);
    assert_eq!(request.limit, cw::PAGE_LIMIT);
}

#[test]
fn token_page_keeps_cursor() {
    let cfg = config(true);
    let mut state = ProducerState { cursor: 7, next_token: None, backoff_secs: 3 };
    let page = Page { events: vec![raw(Some(99), "a")], next_token: Some("more".to_string()) };
    let (_, action) = cw::producer::apply_page(&mut state, &cfg, page);
    assert!(matches!(action, ProducerAction::Continue { sleep_secs: None }));
    assert_eq!(state.cursor, 7);
    assert_eq!(state.next_token.as_deref(), Some("more"));
    assert_eq!(state.backoff_secs, 1);
}

#[test]
fn empty_page_without_follow_terminates() {
    let cfg = config(false);
    let mut state = cw::producer::initial_state(0);
    let page = Page { events: vec![], next_token: None };
    let (events, action) = cw::producer::apply_page(&mut state, &cfg, page);
    assert!(events.is_empty());
    assert_eq!(action, ProducerAction::Done);
}

#[test]
fn events_carry_the_source_name() {
    let ev = cw::LogEvent::from_raw(
        "my-group",
        &RawEvent {
            log_stream_name: Some("s".to_string()),
            timestamp: Some(1),
            message: Some("m".to_string()),
            ingestion_time: Some(2),
            event_id: Some("id".to_string()),
        },
    );
    assert_eq!(ev.group_name, "my-group");
    assert_eq!(ev.log_stream_name.as_deref(), Some("s"));
    assert_eq!(ev.timestamp, Some(1));
    assert_eq!(ev.message.as_deref(), Some("m"));
    assert_eq!(ev.ingestion_time, Some(2));
    assert_eq!(ev.event_id.as_deref(), Some("id"));
}
