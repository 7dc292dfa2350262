use vstd::prelude::*;

use crate::chars::{chars_of, split_first_chars, split_first_on, string_from_chars};

verus! {

/// Which rendering the tail output uses.
#[derive(Debug, Clone, Copy, PartialEq, Eq, Structural)]
pub enum OutputType {
    Text,
    Json,
}

/// The arguments of the tail command: the source reference text, the time
/// window, the follow flag, the filter pattern, and the print flags.
#[derive(Debug, Clone, PartialEq, Eq)]
pub struct TailArgs {
    pub group_and_stream_prefix: String,
    pub follow: bool,
    pub filter: Option<String>,
    pub start_time: Option<i64>,
    pub timestamp: bool,
    pub event_id: bool,
    pub stream_name: bool,
    pub group_name: bool,
    pub output: OutputType,
    pub local: bool,
}

/// The arguments of the query command: the sources to query, an optional
/// stored query or file reference, and the time window.
#[derive(Debug, Clone, PartialEq, Eq)]
pub struct QueryArgs {
    pub group_name: Vec<String>,
    pub query_id: Option<String>,
    pub file: Option<String>,
    pub start_time: Option<i64>,
    pub end_time: Option<i64>,
}

/// The listing sub-commands.
#[derive(Debug, Clone, PartialEq, Eq)]
pub enum LsCommand {
    Groups,
    Streams { group_name: String },
}

/// The top-level commands.
#[derive(Debug, Clone, PartialEq, Eq)]
pub enum Command {
    Ls(LsCommand),
    Tail(TailArgs),
    Query(QueryArgs),
}

/// The global arguments: the credentials profile, verbosity, and the chosen
/// command.
#[derive(Debug, Clone, PartialEq, Eq)]
pub struct GlobalArgs {
    pub profile: Option<String>,
    pub verbose: bool,
    pub cmd: Command,
}

/// The group and stream named by a `group[:streamPrefix]` argument, without
/// any trimming: an empty group yields neither, an empty stream prefix
/// yields only the group.
pub open spec fn group_and_stream_spec(s: Seq<char>) -> (Option<Seq<char>>, Option<Seq<char>>) {
    let parts = match split_first_on(s, ':') {
        Some(p) => p,
        None => (s, Seq::<char>::empty()),
    };
    if parts.0.len() == 0 {
        (None, None)
    } else if parts.1.len() == 0 {
        (Some(parts.0), None)
    } else {
        (Some(parts.0), Some(parts.1))
    }
}

impl TailArgs {
    /// Splits the positional `group[:streamPrefix]` argument at its first
    /// `:`: exactly `group_and_stream_spec` of it.
    pub fn parse_group_and_stream(&self) -> (r: (Option<String>, Option<String>))
        ensures
            ({
                let expected = group_and_stream_spec(self.group_and_stream_prefix@);
                &&& (match (r.0, expected.0) {
                    (Some(s), Some(v)) => s@ == v,
                    (None, None) => true,
                    _ => false,
                })
                &&& (match (r.1, expected.1) {
                    (Some(s), Some(v)) => s@ == v,
                    (None, None) => true,
                    _ => false,
                })
            }),
    {
        let cs = chars_of(self.group_and_stream_prefix.as_str());
        let (group, stream) = match split_first_chars(&cs, ':') {
            Some((a, b)) => (a, b),
            None => (cs, Vec::new()),
        };
        if group.len() == 0 {
            return (None, None);
        }
        if stream.len() == 0 {
            return (Some(string_from_chars(&group)), None);
        }
        (Some(string_from_chars(&group)), Some(string_from_chars(&stream)))
    }
}

} // verus!
