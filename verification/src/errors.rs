use vstd::prelude::*;

verus! {

/// The failure taxonomy of the library.
///
/// - `InvalidSourceReference`: a malformed source reference was given by the
///   user; carries the offending token. Surfaced before any work starts.
/// - `TransportError`: a remote call failed while paging or polling; fatal to
///   the task that owns the call.
/// - `ChannelClosed`: the event channel's consumer is gone; fatal to the
///   producer that noticed it.
/// - `SubmissionError`: the remote side accepted a query but returned no job
///   identifier.
/// - `PersistenceError`: a history-store write failed; the poller must not
///   continue past it.
/// - `QueryFailed` / `QueryTimeout`: the remote side reported a terminal
///   failure state for the job named by the carried identifier.
#[derive(Debug, Clone, PartialEq, Eq)]
pub enum Error {
    InvalidSourceReference(String),
    TransportError(String),
    ChannelClosed,
    SubmissionError,
    PersistenceError(String),
    QueryFailed(String),
    QueryTimeout(String),
}

impl Error {
    /// A short, stable label for each variant, for diagnostics.
    pub fn kind(&self) -> (r: &'static str)
        ensures
            r@ == self.kind_spec(),
    {
        match self {
            Error::InvalidSourceReference(_) => "invalid source reference",
            Error::TransportError(_) => "transport error",
            Error::ChannelClosed => "channel closed",
            Error::SubmissionError => "no job id returned",
            Error::PersistenceError(_) => "history store write failed",
            Error::QueryFailed(_) => "query failed",
            Error::QueryTimeout(_) => "query timed out",
        }
    }

    pub open spec fn kind_spec(&self) -> Seq<char> {
        match self {
            Error::InvalidSourceReference(_) => "invalid source reference"@,
            Error::TransportError(_) => "transport error"@,
            Error::ChannelClosed => "channel closed"@,
            Error::SubmissionError => "no job id returned"@,
            Error::PersistenceError(_) => "history store write failed"@,
            Error::QueryFailed(_) => "query failed"@,
            Error::QueryTimeout(_) => "query timed out"@,
        }
    }
}

} // verus!
