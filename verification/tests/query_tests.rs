use cw::query_cmd::{confirm_submission, format_query_row, resolve_query_window};
use cw::{Error, ResultField, ResultRow};

fn field(name: Option<&str>, value: Option<&str>) -> ResultField {
    ResultField { field: name.map(|s| s.to_string()), value: value.map(|s| s.to_string()) }
}

#[test]
fn submission_needs_a_job_id() {
    assert_eq!(
        confirm_submission(Some("abc".to_string())),
        Ok("abc".to_string())
    );
    assert_eq!(confirm_submission(None), Err(Error::SubmissionError));
}

#[test]
fn window_defaults_bias_toward_recent_past() {
    let now_s = 1_000_000;
    assert_eq!(
        resolve_query_window(None, None, now_s),
        Some(((now_s - 30) * 1000, now_s * 1000))
    );
    assert_eq!(resolve_query_window(Some(7), Some(9), now_s), Some((7, 9)));
    assert_eq!(resolve_query_window(Some(7), None, now_s), Some((7, now_s * 1000)));
    assert_eq!(resolve_query_window(None, None, i64::MAX), None);
}

#[test]
fn pointer_field_is_excluded_from_rows() {
    let row = ResultRow {
        fields: vec![
            field(Some("@ptr"), Some("opaque-pointer")),
            field(Some("@message"), Some("hello")),
        ],
    };
    assert_eq!(format_query_row(&row), "{\"@message\":\"hello\"}");
}

#[test]
fn pointer_only_row_renders_empty_object() {
    let row = ResultRow { fields: vec![field(Some("@ptr"), Some("x"))] };
    assert_eq!(format_query_row(&row), "{}");
}

#[test]
fn row_fields_keep_their_order() {
    let row = ResultRow {
        fields: vec![
            field(Some("b"), Some("2")),
            field(Some("a"), Some("1")),
            field(None, Some("dropped")),
            field(Some("c"), None),
        ],
    };
    assert_eq!(format_query_row(&row), "{\"b\":\"2\",\"a\":\"1\",\"c\":\"\"}");
}

#[test]
fn row_values_are_escaped() {
    let row = ResultRow { fields: vec![field(Some("k\"ey"), Some("va\\lue"))] };
    assert_eq!(format_query_row(&row), "{\"k\\\"ey\":\"va\\\\lue\"}");
}

#[test]
fn query_subcommand_describes_itself() {
    assert_eq!(cw::Commands::History.describe(), "history");
}
