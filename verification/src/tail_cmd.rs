use vstd::prelude::*;

use crate::format::{FormatOptions, OutputType};
use crate::producer::ProducerConfig;
use crate::query_cmd::resolved_start;
use crate::source::LogGroupRef;

verus! {

/// The arguments of the tail command: the source references, the time
/// window, the follow flag, the filter pattern, which optional fields are
/// printed, the rendering, and whether times are shown in the local zone.
#[derive(Debug, Clone, PartialEq, Eq)]
pub struct Cmd {
    pub groups_and_stream_prefix: String,
    pub start_time: Option<i64>,
    pub end_time: Option<i64>,
    pub follow: bool,
    pub filter: Option<String>,
    pub print_timestamp: bool,
    pub print_event_id: bool,
    pub print_stream_name: bool,
    pub print_group_name: bool,
    pub output: OutputType,
    pub local: bool,
}

impl Cmd {
    /// A bounded window and follow mode exclude each other; this is checked
    /// before any producer is spawned.
    pub fn window_valid(&self) -> (r: bool)
        ensures
            r == !(self.end_time is Some && self.follow),
    {
        !(self.end_time.is_some() && self.follow)
    }

    /// The writer configuration this command selects, with the terminal's
    /// color capability supplied by the caller that owns the terminal.
    pub fn format_options(&self, color: bool) -> (r: FormatOptions)
        ensures
            r == (FormatOptions {
                output: self.output,
                use_local_time: self.local,
                with_timestamp: self.print_timestamp,
                with_group_name: self.print_group_name,
                with_stream_name: self.print_stream_name,
                with_event_id: self.print_event_id,
                color: color,
            }),
    {
        FormatOptions {
            output: self.output,
            use_local_time: self.local,
            with_timestamp: self.print_timestamp,
            with_group_name: self.print_group_name,
            with_stream_name: self.print_stream_name,
            with_event_id: self.print_event_id,
            color: color,
        }
    }

    /// The fixed configuration of the producer spawned for one parsed source
    /// reference.
    pub fn producer_config(&self, source: &LogGroupRef) -> (r: ProducerConfig)
        ensures
            r.group_name == source.group_name,
            r.stream_prefix == source.stream_prefix,
            r.filter == self.filter,
            r.end_time == self.end_time,
            r.follow == self.follow,
            !(self.end_time is Some && self.follow) ==> r.wf(),
    {
        ProducerConfig {
            group_name: source.group_name.clone(),
            stream_prefix: clone_opt(&source.stream_prefix),
            filter: clone_opt(&self.filter),
            end_time: self.end_time,
            follow: self.follow,
        }
    }

    /// The start of the tail window: the given start time, or thirty time
    /// units before now, in milliseconds. Yields nothing only when the clock
    /// value does not fit the millisecond scale.
    pub fn resolve_start_time(&self, now_s: i64) -> (r: Option<i64>)
        ensures
            match (r, resolved_start(self.start_time, now_s as int)) {
                (Some(a), Some(b)) => a == b,
                (None, None) => true,
                _ => false,
            },
    {
        match self.start_time {
            Some(t) => Some(t),
            None => {
                let base = match now_s.checked_sub(30) {
                    Some(b) => b,
                    None => {
                        return None;
                    },
                };
                base.checked_mul(1000)
            },
        }
    }
}

fn clone_opt(o: &Option<String>) -> (r: Option<String>)
    ensures
        r == *o,
{
    match o {
        Some(s) => Some(s.clone()),
        None => None,
    }
}

} // verus!
