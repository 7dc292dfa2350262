use cw::poller::{run_poll_trace, PollRunOutcome};
use cw::{Error, PollResponse, PollStatus, QueryHistory, QueryStatistics, QueryStatus, ResultField, ResultRow};

fn resp(status: Option<PollStatus>) -> PollResponse {
    PollResponse { status, statistics: None, results: vec![] }
}

fn complete_resp(rows: Vec<ResultRow>) -> PollResponse {
    PollResponse {
        status: Some(PollStatus::Complete),
        statistics: Some(QueryStatistics {
            records_matched: 5,
            records_scanned: 100,
            bytes_scanned: 4096,
        }),
        results: rows,
    }
}

fn row(field: &str, value: &str) -> ResultRow {
    ResultRow {
        fields: vec![ResultField { field: Some(field.to_string()), value: Some(value.to_string()) }],
    }
}

#[test]
fn scheduled_running_complete_persists_twice() {
    let mut history = QueryHistory::new("job-1".to_string(), "fields @message".to_string());
    let responses = vec![
        resp(Some(PollStatus::Scheduled)),
        resp(Some(PollStatus::Running)),
        complete_resp(vec![row("@message", "hello")]),
    ];
    let run = run_poll_trace(&mut history, responses);

    assert_eq!(run.persisted.len(), 2);
    assert_eq!(run.persisted[0].status, QueryStatus::Running);
    assert_eq!(run.persisted[1].status, QueryStatus::Complete);
    assert_eq!(run.persisted[1].records_total, 1);
    assert_eq!(run.persisted[1].records_matched, 5);
    assert_eq!(run.persisted[1].records_scanned, 100);
    assert_eq!(run.persisted[1].bytes_scanned, 4096);
    assert_eq!(run.outcome, Ok(PollRunOutcome::Completed));
    assert_eq!(run.emitted.len(), 1);
    assert_eq!(history.status, QueryStatus::Complete);
}

#[test]
fn running_then_failed_reports_query_failed() {
    let mut history = QueryHistory::new("job-2".to_string(), "q".to_string());
    let responses = vec![resp(Some(PollStatus::Running)), resp(Some(PollStatus::Failed))];
    let run = run_poll_trace(&mut history, responses);

    assert_eq!(run.persisted.len(), 2);
    assert_eq!(run.persisted[0].status, QueryStatus::Running);
    assert_eq!(run.persisted[1].status, QueryStatus::Failed);
    assert_eq!(run.outcome, Err(Error::QueryFailed("job-2".to_string())));
    assert!(run.emitted.is_empty());
    assert_eq!(history.status, QueryStatus::Failed);
}

#[test]
fn completion_without_statistics_persists_zeroes() {
    let mut history = QueryHistory::new("job-11".to_string(), "q".to_string());
    let responses = vec![PollResponse {
        status: Some(PollStatus::Complete),
        statistics: None,
        results: vec![row("@message", "hello"), row("@message", "again")],
    }];
    let run = run_poll_trace(&mut history, responses);

    assert_eq!(run.outcome, Ok(PollRunOutcome::Completed));
    assert_eq!(run.persisted.len(), 1);
    assert_eq!(run.persisted[0].status, QueryStatus::Complete);
    assert_eq!(run.persisted[0].records_total, 2);
    assert_eq!(run.persisted[0].records_matched, 0);
    assert_eq!(run.persisted[0].records_scanned, 0);
    assert_eq!(run.persisted[0].bytes_scanned, 0);
    assert_eq!(run.emitted.len(), 2);
}

#[test]
fn timeout_reports_query_timeout() {
    let mut history = QueryHistory::new("job-3".to_string(), "q".to_string());
    let run = run_poll_trace(&mut history, vec![resp(Some(PollStatus::Timeout))]);
    assert_eq!(run.outcome, Err(Error::QueryTimeout("job-3".to_string())));
    assert_eq!(history.status, QueryStatus::Timeout);
}

#[test]
fn missing_status_stops_without_error() {
    let mut history = QueryHistory::new("job-4".to_string(), "q".to_string());
    let run = run_poll_trace(&mut history, vec![resp(None), resp(Some(PollStatus::Failed))]);
    assert_eq!(run.outcome, Ok(PollRunOutcome::Indeterminate { unrecognized: false }));
    assert!(run.persisted.is_empty());
    assert_eq!(history.status, QueryStatus::Scheduled);
}

#[test]
fn unrecognized_status_stops_without_error() {
    let mut history = QueryHistory::new("job-5".to_string(), "q".to_string());
    let run = run_poll_trace(&mut history, vec![resp(Some(PollStatus::Unknown))]);
    assert_eq!(run.outcome, Ok(PollRunOutcome::Indeterminate { unrecognized: true }));
    assert!(run.persisted.is_empty());
}

#[test]
fn exhausted_supply_leaves_job_nonterminal() {
    let mut history = QueryHistory::new("job-6".to_string(), "q".to_string());
    let run = run_poll_trace(
        &mut history,
        vec![resp(Some(PollStatus::Scheduled)), resp(Some(PollStatus::Scheduled))],
    );
    assert_eq!(run.outcome, Ok(PollRunOutcome::Exhausted));
    assert!(run.persisted.is_empty());
    assert_eq!(history.status, QueryStatus::Scheduled);
}

#[test]
fn identity_never_changes_across_transitions() {
    let mut history = QueryHistory::new("job-7".to_string(), "q".to_string());
    let id = history.id();
    let created = history.created_at;
    let run = run_poll_trace(
        &mut history,
        vec![resp(Some(PollStatus::Running)), complete_resp(vec![])],
    );
    assert_eq!(history.id(), id);
    assert_eq!(history.created_at, created);
    for snapshot in &run.persisted {
        assert_eq!(snapshot.id(), id);
        assert_eq!(snapshot.created_at, created);
        assert!(snapshot.modified_at >= snapshot.created_at);
    }
}

#[test]
fn new_history_starts_scheduled() {
    let history = QueryHistory::new("job-8".to_string(), "query text".to_string());
    assert_eq!(history.status, QueryStatus::Scheduled);
    assert_eq!(history.query_id, "job-8");
    assert_eq!(history.contents, "query text");
    assert_eq!(history.records_total, 0);
    assert_eq!(history.records_matched, 0);
    assert_eq!(history.created_at, history.modified_at);
    assert_eq!(history.deleted_at, None);
    assert_eq!(history.id().len(), 32);
}

#[test]
fn set_status_refreshes_modification_time() {
    let mut history = QueryHistory::new("job-9".to_string(), "q".to_string());
    history.set_status(QueryStatus::Running);
    assert_eq!(history.status, QueryStatus::Running);
    assert!(history.modified_at >= history.created_at);
}

#[test]
fn set_statistics_keeps_identity() {
    let mut history = QueryHistory::new("job-10".to_string(), "q".to_string());
    let id = history.id();
    history.set_statistics(3, 4, 5, 6);
    assert_eq!(history.id(), id);
    assert_eq!(history.records_total, 3);
    assert_eq!(history.records_matched, 4);
    assert_eq!(history.records_scanned, 5);
    assert_eq!(history.bytes_scanned, 6);
}

#[test]
fn status_labels_and_terminality() {
    assert_eq!(QueryStatus::Scheduled.label(), "Scheduled");
    assert_eq!(QueryStatus::Running.label(), "Running");
    assert_eq!(QueryStatus::Complete.label(), "Complete");
    assert_eq!(QueryStatus::Failed.label(), "Failed");
    assert_eq!(QueryStatus::Timeout.label(), "Timeout");
    assert!(!QueryStatus::Scheduled.is_terminal());
    assert!(!QueryStatus::Running.is_terminal());
    assert!(QueryStatus::Complete.is_terminal());
    assert!(QueryStatus::Failed.is_terminal());
    assert!(QueryStatus::Timeout.is_terminal());
    assert_eq!(QueryStatus::default(), QueryStatus::Scheduled);
}

#[test]
fn poll_interval_is_two_units() {
    assert_eq!(cw::POLL_INTERVAL_SECS, 2);
}
