use vstd::prelude::*;
use vstd::string::StringExecFns;

verus! {

/// The listing sub-commands: all log groups (optionally filtered by a name
/// pattern), or the streams of one group.
#[derive(Debug, Clone, PartialEq, Eq)]
pub enum Cmd {
    Groups { filter: Option<String> },
    Streams { group_name: String, show_expired: bool },
}

impl Cmd {
    pub open spec fn describe_spec(&self) -> Seq<char> {
        match self {
            Cmd::Groups { .. } => "groups"@,
            Cmd::Streams { group_name, .. } => "streams <"@ + group_name@ + ">"@,
        }
    }

    /// The sub-command's name, for display.
    pub fn describe(&self) -> (r: String)
        ensures
            r@ == self.describe_spec(),
    {
        match self {
            Cmd::Groups { .. } => String::from_str("groups"),
            Cmd::Streams { group_name, .. } => {
                let mut out = String::from_str("streams <");
                out.append(group_name.as_str());
                out.append(">");
                proof {
                    assert(out@ =~= "streams <"@ + group_name@ + ">"@);
                }
                out
            },
        }
    }
}

/// Whether a stream is listed: it must have seen an event, and that event
/// must be younger than the cut-off (a stream past its group's retention is
/// considered expired). Without a cut-off every stream that has an event is
/// listed.
pub open spec fn stream_visible_spec(
    last_event_timestamp: Option<i64>,
    cutoff_ms: Option<i64>,
) -> bool {
    match last_event_timestamp {
        None => false,
        Some(t) => match cutoff_ms {
            None => true,
            Some(c) => t > c,
        },
    }
}

/// Decides whether one stream is listed, from its last event time and the
/// expiry cut-off.
pub fn stream_visible(last_event_timestamp: Option<i64>, cutoff_ms: Option<i64>) -> (r: bool)
    ensures
        r == stream_visible_spec(last_event_timestamp, cutoff_ms),
{
    match last_event_timestamp {
        None => false,
        Some(t) => match cutoff_ms {
            None => true,
            Some(c) => t > c,
        },
    }
}

} // verus!
