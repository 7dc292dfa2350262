use cw::list_cmd::stream_visible;
use cw::tail_cmd;
use cw::{
    Config, Cw, CwCmd, DefaultFormatter, Endpoint, Error, Intercept, LevelFilter, LogFormatter,
    LogLevel, LogRecord, LogSink, Logger, NullSink, OutputType,
};

fn tail_cmd_args() -> tail_cmd::Cmd {
    tail_cmd::Cmd {
        groups_and_stream_prefix: "grp:pre".to_string(),
        start_time: None,
        end_time: None,
        follow: false,
        filter: Some("pattern".to_string()),
        print_timestamp: true,
        print_event_id: false,
        print_stream_name: false,
        print_group_name: true,
        output: OutputType::Text,
        local: false,
    }
}

#[test]
fn follow_excludes_a_bounded_window() {
    let mut cmd = tail_cmd_args();
    assert!(cmd.window_valid());
    cmd.end_time = Some(100);
    assert!(cmd.window_valid());
    cmd.follow = true;
    assert!(!cmd.window_valid());
    cmd.end_time = None;
    assert!(cmd.window_valid());
}

#[test]
fn format_options_mirror_the_flags() {
    let cmd = tail_cmd_args();
    let o = cmd.format_options(true);
    assert_eq!(o.output, OutputType::Text);
    assert!(o.with_timestamp);
    assert!(o.with_group_name);
    assert!(!o.with_stream_name);
    assert!(!o.with_event_id);
    assert!(!o.use_local_time);
    assert!(o.color);
}

#[test]
fn producer_config_carries_the_source() {
    let cmd = tail_cmd_args();
    let source = cw::LogGroupRef::parse("grp:pre").unwrap().remove(0);
    let cfg = cmd.producer_config(&source);
    assert_eq!(cfg.group_name, "grp");
    assert_eq!(cfg.stream_prefix.as_deref(), Some("pre"));
    assert_eq!(cfg.filter.as_deref(), Some("pattern"));
    assert_eq!(cfg.end_time, None);
    assert!(!cfg.follow);
}

#[test]
fn start_time_defaults_to_thirty_units_ago() {
    let cmd = tail_cmd_args();
    assert_eq!(cmd.resolve_start_time(1_000), Some(970_000));
    let mut with_start = tail_cmd_args();
    with_start.start_time = Some(42);
    assert_eq!(with_start.resolve_start_time(1_000), Some(42));
}

#[test]
fn verbosity_selects_the_filter() {
    let mut cw_args = Cw {
        profile: None,
        region: None,
        endpoint: None,
        verbose: 0,
        cmd: CwCmd::Info(cw::info_cmd::Cmd::new()),
    };
    assert_eq!(cw_args.log_filter(), LevelFilter::Off);
    cw_args.verbose = 1;
    assert_eq!(cw_args.log_filter(), LevelFilter::Error);
    cw_args.verbose = 3;
    assert_eq!(cw_args.log_filter(), LevelFilter::Info);
    cw_args.verbose = 5;
    assert_eq!(cw_args.log_filter(), LevelFilter::Trace);
    cw_args.verbose = 200;
    assert_eq!(cw_args.log_filter(), LevelFilter::Trace);
}

#[test]
fn commands_describe_themselves() {
    let ls = CwCmd::Ls(cw::list_cmd::Cmd::Groups { filter: None });
    assert_eq!(ls.describe(), "ls groups");
    let streams = CwCmd::Ls(cw::list_cmd::Cmd::Streams {
        group_name: "g".to_string(),
        show_expired: false,
    });
    assert_eq!(streams.describe(), "ls streams <g>");
    let tail = CwCmd::Tail(tail_cmd_args());
    assert_eq!(tail.describe(), "tail");
    let query = CwCmd::Query(cw::query_cmd::Cmd {
        file_or_query_name: None,
        group_names: vec!["g".to_string()],
        start_time: None,
        end_time: None,
        command: None,
    });
    assert_eq!(query.describe(), "query");
    let history = CwCmd::Query(cw::query_cmd::Cmd {
        file_or_query_name: None,
        group_names: vec![],
        start_time: None,
        end_time: None,
        command: Some(cw::Commands::History),
    });
    assert_eq!(history.describe(), "query history");
    assert_eq!(CwCmd::Info(cw::info_cmd::Cmd::new()).describe(), "info");
}

#[test]
fn expired_streams_are_hidden() {
    assert!(!stream_visible(None, None));
    assert!(stream_visible(Some(100), None));
    assert!(stream_visible(Some(100), Some(99)));
    assert!(!stream_visible(Some(100), Some(100)));
    assert!(!stream_visible(Some(100), Some(101)));
}

#[test]
fn intercept_matches_by_scheme() {
    let http = Endpoint { scheme: Some("http".to_string()) };
    let https = Endpoint { scheme: Some("https".to_string()) };
    let bare = Endpoint { scheme: None };
    assert!(Intercept::All.matches(&http));
    assert!(Intercept::All.matches(&bare));
    assert!(Intercept::Http.matches(&http));
    assert!(!Intercept::Http.matches(&https));
    assert!(!Intercept::Http.matches(&bare));
    assert!(Intercept::Https.matches(&https));
    assert!(!Intercept::Https.matches(&http));
    assert!(!Intercept::Never.matches(&http));
}

#[test]
fn logger_filters_by_level() {
    let logger = Logger::new(LevelFilter::Warn, NullSink::new(), Config::new());
    assert!(logger.enabled(&LogLevel::Error));
    assert!(logger.enabled(&LogLevel::Warn));
    assert!(!logger.enabled(&LogLevel::Info));
    let record = LogRecord {
        level: LogLevel::Trace,
        target: "cw".to_string(),
        message: "quiet".to_string(),
    };
    assert_eq!(logger.log(&record), Ok(()));
    logger.flush();
}

#[test]
fn disabled_config_silences_everything() {
    let mut config = Config::new();
    assert!(config.enabled);
    assert_eq!(config.datetime_format, "%Y-%m-%d %H:%M:%S");
    config.enabled = false;
    let logger = Logger::new(LevelFilter::Trace, NullSink::new(), config);
    assert!(!logger.enabled(&LogLevel::Error));
}

#[test]
fn default_formatter_renders_level_and_message() {
    let mut config = Config::new();
    config.use_ansi = false;
    let formatter = DefaultFormatter::new(config);
    let record = LogRecord {
        level: LogLevel::Info,
        target: "cw".to_string(),
        message: "starting up".to_string(),
    };
    let line = formatter.format(&record);
    assert!(line.ends_with(" INF: starting up"));
    assert!(line.starts_with('['));
}

#[test]
fn null_sink_swallows_records() {
    let sink = NullSink::new();
    let record = LogRecord {
        level: LogLevel::Error,
        target: "cw".to_string(),
        message: "dropped".to_string(),
    };
    assert_eq!(sink.write_log(&record), Ok(()));
    sink.flush();
}

#[test]
fn error_kinds_are_stable() {
    assert_eq!(Error::ChannelClosed.kind(), "channel closed");
    assert_eq!(Error::SubmissionError.kind(), "no job id returned");
    assert_eq!(
        Error::InvalidSourceReference("x".to_string()).kind(),
        "invalid source reference"
    );
    assert_eq!(
        Error::TransportError("t".to_string()).kind(),
        "transport error"
    );
    assert_eq!(
        Error::PersistenceError("p".to_string()).kind(),
        "history store write failed"
    );
    assert_eq!(Error::QueryFailed("q".to_string()).kind(), "query failed");
    assert_eq!(Error::QueryTimeout("q".to_string()).kind(), "query timed out");
}

#[test]
fn human_times_parse_durations_and_dates() {
    let now_ms = 1_000_000_000_i64;
    assert_eq!(cw::parse_human_time("5m", now_ms), Ok(now_ms - 5 * 60 * 1000));
    assert_eq!(
        cw::parse_human_time("2h 15m", now_ms),
        Ok(now_ms - (2 * 3600 + 15 * 60) * 1000)
    );
    let expected = chrono::NaiveDate::from_ymd_opt(2001, 2, 3)
        .unwrap()
        .and_hms_opt(4, 5, 6)
        .unwrap()
        .and_utc()
        .timestamp_millis();
    assert_eq!(cw::parse_human_time("2001-02-03 04:05:06", now_ms), Ok(expected));
    assert!(cw::parse_human_time("not a time", now_ms).is_err());
    assert!(cw::parse_human_time("5m", i64::MIN).is_err());
}

#[test]
fn local_config_manager_builds() {
    let _ = cw::LocalConfigManager::new();
}
