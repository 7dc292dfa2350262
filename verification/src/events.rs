use vstd::prelude::*;

verus! {

/// One raw record as the remote listing API returns it, reduced to the plain
/// values this library reads. The caller that talks to the remote API builds
/// one of these per returned record.
#[derive(Debug, Clone, PartialEq, Eq)]
pub struct RawEvent {
    pub log_stream_name: Option<String>,
    pub timestamp: Option<i64>,
    pub message: Option<String>,
    pub ingestion_time: Option<i64>,
    pub event_id: Option<String>,
}

/// The mathematical image of a `RawEvent`.
pub ghost struct RawEventView {
    pub log_stream_name: Option<Seq<char>>,
    pub timestamp: Option<int>,
    pub message: Option<Seq<char>>,
    pub ingestion_time: Option<int>,
    pub event_id: Option<Seq<char>>,
}

impl View for RawEvent {
    type V = RawEventView;

    open spec fn view(&self) -> RawEventView {
        RawEventView {
            log_stream_name: match self.log_stream_name {
                Some(s) => Some(s@),
                None => None,
            },
            timestamp: match self.timestamp {
                Some(t) => Some(t as int),
                None => None,
            },
            message: match self.message {
                Some(s) => Some(s@),
                None => None,
            },
            ingestion_time: match self.ingestion_time {
                Some(t) => Some(t as int),
                None => None,
            },
            event_id: match self.event_id {
                Some(s) => Some(s@),
                None => None,
            },
        }
    }
}

/// One typed log event as it flows through the event channel: a raw record
/// plus the name of the source (log group) it came from.
#[derive(Debug, Clone, PartialEq, Eq)]
pub struct LogEvent {
    pub group_name: String,
    pub log_stream_name: Option<String>,
    pub timestamp: Option<i64>,
    pub message: Option<String>,
    pub ingestion_time: Option<i64>,
    pub event_id: Option<String>,
}

/// The mathematical image of a `LogEvent`.
pub ghost struct LogEventView {
    pub group_name: Seq<char>,
    pub log_stream_name: Option<Seq<char>>,
    pub timestamp: Option<int>,
    pub message: Option<Seq<char>>,
    pub ingestion_time: Option<int>,
    pub event_id: Option<Seq<char>>,
}

impl View for LogEvent {
    type V = LogEventView;

    open spec fn view(&self) -> LogEventView {
        LogEventView {
            group_name: self.group_name@,
            log_stream_name: match self.log_stream_name {
                Some(s) => Some(s@),
                None => None,
            },
            timestamp: match self.timestamp {
                Some(t) => Some(t as int),
                None => None,
            },
            message: match self.message {
                Some(s) => Some(s@),
                None => None,
            },
            ingestion_time: match self.ingestion_time {
                Some(t) => Some(t as int),
                None => None,
            },
            event_id: match self.event_id {
                Some(s) => Some(s@),
                None => None,
            },
        }
    }
}

/// What `LogEvent::from_raw` yields: every field of the raw record is kept,
/// and the source name is attached.
pub open spec fn log_event_of(group_name: Seq<char>, raw: RawEventView) -> LogEventView {
    LogEventView {
        group_name: group_name,
        log_stream_name: raw.log_stream_name,
        timestamp: raw.timestamp,
        message: raw.message,
        ingestion_time: raw.ingestion_time,
        event_id: raw.event_id,
    }
}

impl LogEvent {
    /// Builds the typed event for one raw record of the named source.
    pub fn from_raw(group_name: &str, event: &RawEvent) -> (r: LogEvent)
        ensures
            r@ == log_event_of(group_name@, event@),
    {
        LogEvent {
            group_name: group_name.to_owned(),
            log_stream_name: event.log_stream_name.clone(),
            timestamp: event.timestamp,
            message: event.message.clone(),
            ingestion_time: event.ingestion_time,
            event_id: event.event_id.clone(),
        }
    }
}

} // verus!
