use vstd::prelude::*;
use vstd::string::StringExecFns;

use crate::info_cmd;
use crate::list_cmd;
use crate::logging::LevelFilter;
use crate::query_cmd;
use crate::tail_cmd;

verus! {

/// The top-level command of one invocation.
#[derive(Debug, Clone, PartialEq, Eq)]
pub enum CwCmd {
    Ls(list_cmd::Cmd),
    Tail(tail_cmd::Cmd),
    Query(query_cmd::Cmd),
    Info(info_cmd::Cmd),
}

impl CwCmd {
    pub open spec fn describe_spec(&self) -> Seq<char> {
        match self {
            CwCmd::Ls(cmd) => "ls "@ + cmd.describe_spec(),
            CwCmd::Tail(_) => "tail"@,
            CwCmd::Query(cmd) => match cmd.command {
                Some(sub) => "query "@ + sub.describe_spec(),
                None => "query"@,
            },
            CwCmd::Info(_) => "info"@,
        }
    }

    /// The command's name, for display and for the startup log line.
    pub fn describe(&self) -> (r: String)
        ensures
            r@ == self.describe_spec(),
    {
        match self {
            CwCmd::Ls(cmd) => {
                let mut out = String::from_str("ls ");
                let sub = cmd.describe();
                out.append(sub.as_str());
                proof {
                    assert(out@ =~= "ls "@ + cmd.describe_spec());
                }
                out
            },
            CwCmd::Tail(_) => String::from_str("tail"),
            CwCmd::Query(cmd) => match &cmd.command {
                Some(sub) => {
                    let mut out = String::from_str("query ");
                    out.append(sub.describe());
                    proof {
                        assert(out@ =~= "query "@ + sub.describe_spec());
                    }
                    out
                },
                None => String::from_str("query"),
            },
            CwCmd::Info(_) => String::from_str("info"),
        }
    }
}

/// The global arguments of one invocation: credentials profile, region and
/// endpoint overrides, verbosity, and the chosen command.
#[derive(Debug, Clone, PartialEq, Eq)]
pub struct Cw {
    pub profile: Option<String>,
    pub region: Option<String>,
    pub endpoint: Option<String>,
    pub verbose: u8,
    pub cmd: CwCmd,
}

/// The verbosity filter each repetition of the verbose flag selects; five
/// or more select everything.
pub open spec fn log_filter_spec(verbose: u8) -> LevelFilter {
    if verbose == 0 {
        LevelFilter::Off
    } else if verbose == 1 {
        LevelFilter::Error
    } else if verbose == 2 {
        LevelFilter::Warn
    } else if verbose == 3 {
        LevelFilter::Info
    } else if verbose == 4 {
        LevelFilter::Debug
    } else {
        LevelFilter::Trace
    }
}

impl Cw {
    /// The verbosity filter this invocation runs under.
    pub fn log_filter(&self) -> (r: LevelFilter)
        ensures
            r == log_filter_spec(self.verbose),
    {
        match self.verbose {
            0 => LevelFilter::Off,
            1 => LevelFilter::Error,
            2 => LevelFilter::Warn,
            3 => LevelFilter::Info,
            4 => LevelFilter::Debug,
            _ => LevelFilter::Trace,
        }
    }
}

} // verus!
