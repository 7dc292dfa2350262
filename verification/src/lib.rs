pub mod args;
pub mod channel;
pub mod cli;
pub mod config;
pub mod chars;
pub mod driver;
pub mod errors;
pub mod events;
pub mod format;
pub mod history;
pub mod info_cmd;
pub mod list_cmd;
pub mod logging;
pub mod poller;
pub mod proxy;
pub mod source;
pub mod tail_cmd;
pub mod utils;
pub mod producer;
pub mod query_cmd;

pub use args::{Command, GlobalArgs, LsCommand, QueryArgs, TailArgs};
pub use driver::{join_results, on_task_settled, DriverAction};
pub use errors::Error;
pub use events::{LogEvent, LogEventView, RawEvent, RawEventView};
pub use channel::EventChannel;
pub use format::{FormatOptions, OutputType};
pub use utils::{parse_human_time, parse_timestamp};
pub use history::{QueryHistory, QueryStatus};
pub use poller::{
    PollDirective, PollResponse, PollStatus, QueryStatistics, ResultField, ResultRow,
    POLL_INTERVAL_SECS,
};
pub use source::LogGroupRef;
pub use cli::{Cw, CwCmd};
pub use config::{ConfigManager, LocalConfigManager};
pub use logging::{
    Config, DefaultFormatter, LevelFilter, LogFormatter, LogLevel, LogRecord, LogSink, Logger,
    NullSink,
};
pub use proxy::{Dst, Endpoint, Intercept};
pub use query_cmd::Commands;
pub use producer::{
    Page, PageRequest, ProducerAction, ProducerConfig, ProducerState, MAX_BACKOFF_SECS, PAGE_LIMIT,
};
