use vstd::prelude::*;

use crate::errors::Error;
use crate::history::{QueryHistory, QueryStatus};

verus! {

/// How long the poller sleeps between polls while the job is non-terminal.
pub const POLL_INTERVAL_SECS: u64 = 2;

/// The job state reported by one poll of the remote side. `Unknown` stands
/// for a status value this library does not recognize.
#[derive(Debug, Clone, Copy, PartialEq, Eq, Structural)]
pub enum PollStatus {
    Scheduled,
    Running,
    Complete,
    Failed,
    Timeout,
    Unknown,
}

/// The execution statistics the remote side reports for a finished query.
#[derive(Debug, Clone, Copy, PartialEq, Eq, Structural)]
pub struct QueryStatistics {
    pub records_matched: u64,
    pub records_scanned: u64,
    pub bytes_scanned: u64,
}

/// The statistics recorded with a completion: what the remote side sent, or
/// zeroes when it sent none (the statistics of a poll response are
/// optional).
pub open spec fn stats_or_zero(statistics: Option<QueryStatistics>) -> QueryStatistics {
    match statistics {
        Some(s) => s,
        None => QueryStatistics { records_matched: 0, records_scanned: 0, bytes_scanned: 0 },
    }
}

/// One field of one result row: a name and its textual value, either of
/// which the remote side may omit.
#[derive(Debug, Clone, PartialEq, Eq)]
pub struct ResultField {
    pub field: Option<String>,
    pub value: Option<String>,
}

/// One row of a completed query's result set.
#[derive(Debug, Clone, PartialEq, Eq)]
pub struct ResultRow {
    pub fields: Vec<ResultField>,
}

/// Everything one poll of the remote side came back with. `status` is `None`
/// when the remote side returned no status at all.
#[derive(Debug, Clone, PartialEq, Eq)]
pub struct PollResponse {
    pub status: Option<PollStatus>,
    pub statistics: Option<QueryStatistics>,
    pub results: Vec<ResultRow>,
}

/// What the caller of `poll_step` must do next.
///
/// - `Wait`: sleep for `POLL_INTERVAL_SECS` and poll again; when `persist`
///   is set, the history record changed and must be written first.
/// - `Finish`: the job completed; the history record changed and must be
///   written, and `rows` are emitted.
/// - `Fail`: the job ended in a failure state; the history record changed
///   and must be written, then `error` is reported.
/// - `Indeterminate`: polling stops without an error; the history record did
///   not change. `unrecognized` tells a missing status from an unrecognized
///   one.
#[derive(Debug, Clone, PartialEq, Eq)]
pub enum PollDirective {
    Wait { persist: bool },
    Finish { rows: Vec<ResultRow> },
    Fail { error: Error },
    Indeterminate { unrecognized: bool },
}

impl QueryHistory {
    /// The image of this record with one field of the lifecycle replaced, as
    /// `poll_step` leaves it behind: everything but status, statistics and
    /// modification time is kept.
    pub open spec fn with_status(self, status: QueryStatus, modified_at: i64) -> QueryHistory {
        QueryHistory { status, modified_at, ..self }
    }
}

/// Advances the poller by one observed poll response, exactly as the
/// transition table prescribes:
///
/// | reported          | history change                   | next            |
/// |-------------------|----------------------------------|-----------------|
/// | scheduled         | none                             | sleep, re-poll  |
/// | running           | status := Running                | sleep, re-poll  |
/// | complete          | status := Complete, statistics   | emit rows, done |
/// | failed            | status := Failed                 | report failure  |
/// | timeout           | status := Timeout                | report failure  |
/// | none / unknown    | none                             | stop, no error  |
pub fn poll_step(history: &mut QueryHistory, resp: PollResponse) -> (r: PollDirective)
    ensures
        match resp.status {
            None => *final(history) == *old(history) && r == (PollDirective::Indeterminate {
                unrecognized: false,
            }),
            Some(PollStatus::Scheduled) => *final(history) == *old(history) && r == (
            PollDirective::Wait { persist: false }),
            Some(PollStatus::Running) => *final(history) == old(history).with_status(
                QueryStatus::Running,
                final(history).modified_at,
            ) && r == (PollDirective::Wait { persist: true }),
            Some(PollStatus::Complete) => final(history).records_total == resp.results@.len()
                && *final(history) == (QueryHistory {
                status: QueryStatus::Complete,
                records_total: final(history).records_total,
                records_matched: stats_or_zero(resp.statistics).records_matched,
                records_scanned: stats_or_zero(resp.statistics).records_scanned,
                bytes_scanned: stats_or_zero(resp.statistics).bytes_scanned,
                modified_at: final(history).modified_at,
                ..*old(history)
            }) && r == (PollDirective::Finish { rows: resp.results }),
            Some(PollStatus::Failed) => *final(history) == old(history).with_status(
                QueryStatus::Failed,
                final(history).modified_at,
            ) && r == (PollDirective::Fail {
                error: Error::QueryFailed(old(history).query_id),
            }),
            Some(PollStatus::Timeout) => *final(history) == old(history).with_status(
                QueryStatus::Timeout,
                final(history).modified_at,
            ) && r == (PollDirective::Fail {
                error: Error::QueryTimeout(old(history).query_id),
            }),
            Some(PollStatus::Unknown) => *final(history) == *old(history) && r == (
            PollDirective::Indeterminate { unrecognized: true }),
        },
        resp.status matches Some(s) && s != PollStatus::Scheduled && s != PollStatus::Unknown
            ==> final(history).modified_at >= old(history).created_at,
{
    match resp.status {
        None => PollDirective::Indeterminate { unrecognized: false },
        Some(PollStatus::Scheduled) => PollDirective::Wait { persist: false },
        Some(PollStatus::Running) => {
            history.set_status(QueryStatus::Running);
            PollDirective::Wait { persist: true }
        },
        Some(PollStatus::Complete) => {
            let stats = match resp.statistics {
                Some(s) => s,
                None => QueryStatistics { records_matched: 0, records_scanned: 0, bytes_scanned: 0 },
            };
            let total: u64 = resp.results.len() as u64;
            history.set_status(QueryStatus::Complete);
            history.set_statistics(
                total,
                stats.records_matched,
                stats.records_scanned,
                stats.bytes_scanned,
            );
            PollDirective::Finish { rows: resp.results }
        },
        Some(PollStatus::Failed) => {
            history.set_status(QueryStatus::Failed);
            PollDirective::Fail { error: Error::QueryFailed(history.query_id.clone()) }
        },
        Some(PollStatus::Timeout) => {
            history.set_status(QueryStatus::Timeout);
            PollDirective::Fail { error: Error::QueryTimeout(history.query_id.clone()) }
        },
        Some(PollStatus::Unknown) => PollDirective::Indeterminate { unrecognized: true },
    }
}

/// How a finished polling run ended when it did not end in an error:
/// the job completed, polling stopped on an indeterminate report, or the
/// supply of responses ran out while the job was still non-terminal.
#[derive(Debug, Clone, Copy, PartialEq, Eq, Structural)]
pub enum PollRunOutcome {
    Completed,
    Indeterminate { unrecognized: bool },
    Exhausted,
}

/// What a whole polling run leaves behind: the history snapshots in the
/// order they were persisted (the initial insert is not among them), the
/// result rows emitted on completion, and how the run ended.
#[derive(Debug, PartialEq, Eq)]
pub struct PollRun {
    pub persisted: Vec<QueryHistory>,
    pub emitted: Vec<ResultRow>,
    pub outcome: Result<PollRunOutcome, Error>,
}

/// The statuses a poller persists, in order, when it sees `resps`.
pub open spec fn trace_statuses(resps: Seq<PollResponse>) -> Seq<QueryStatus>
    decreases resps.len(),
{
    if resps.len() == 0 {
        Seq::empty()
    } else {
        match resps[0].status {
            None => Seq::empty(),
            Some(PollStatus::Scheduled) => trace_statuses(resps.drop_first()),
            Some(PollStatus::Running) => seq![QueryStatus::Running] + trace_statuses(
                resps.drop_first(),
            ),
            Some(PollStatus::Complete) => seq![QueryStatus::Complete],
            Some(PollStatus::Failed) => seq![QueryStatus::Failed],
            Some(PollStatus::Timeout) => seq![QueryStatus::Timeout],
            Some(PollStatus::Unknown) => Seq::empty(),
        }
    }
}

/// How a poller that sees `resps` ends, for the job named `query_id`.
pub open spec fn trace_outcome(resps: Seq<PollResponse>, query_id: String) -> Result<
    PollRunOutcome,
    Error,
>
    decreases resps.len(),
{
    if resps.len() == 0 {
        Ok(PollRunOutcome::Exhausted)
    } else {
        match resps[0].status {
            None => Ok(PollRunOutcome::Indeterminate { unrecognized: false }),
            Some(PollStatus::Scheduled) => trace_outcome(resps.drop_first(), query_id),
            Some(PollStatus::Running) => trace_outcome(resps.drop_first(), query_id),
            Some(PollStatus::Complete) => Ok(PollRunOutcome::Completed),
            Some(PollStatus::Failed) => Err(Error::QueryFailed(query_id)),
            Some(PollStatus::Timeout) => Err(Error::QueryTimeout(query_id)),
            Some(PollStatus::Unknown) => Ok(PollRunOutcome::Indeterminate { unrecognized: true }),
        }
    }
}

/// A terminal status is only ever persisted last: every status a poll trace
/// records before its final one is `Running`, so the lifecycle never leaves
/// `Complete`, `Failed` or `Timeout` once it is there.
pub proof fn lemma_terminal_status_is_last(resps: Seq<PollResponse>)
    ensures
        forall|i: int|
            0 <= i < trace_statuses(resps).len() - 1 ==> #[trigger] trace_statuses(resps)[i]
                == QueryStatus::Running,
    decreases resps.len(),
{
    if resps.len() > 0 {
        lemma_terminal_status_is_last(resps.drop_first());
        let rest = trace_statuses(resps.drop_first());
        match resps[0].status {
            Some(PollStatus::Running) => {
                assert forall|i: int|
                    0 <= i < trace_statuses(resps).len() - 1 implies #[trigger] trace_statuses(
                    resps,
                )[i] == QueryStatus::Running by {
                    if i > 0 {
                        assert(trace_statuses(resps)[i] == rest[i - 1]);
                    }
                }
            },
            _ => {},
        }
    }
}

/// The rows a poller that sees `resps` emits: those of the completing
/// response, and none otherwise.
pub open spec fn trace_rows(resps: Seq<PollResponse>) -> Seq<ResultRow>
    decreases resps.len(),
{
    if resps.len() == 0 {
        Seq::empty()
    } else {
        match resps[0].status {
            Some(PollStatus::Scheduled) => trace_rows(resps.drop_first()),
            Some(PollStatus::Running) => trace_rows(resps.drop_first()),
            Some(PollStatus::Complete) => resps[0].results@,
            _ => Seq::empty(),
        }
    }
}

/// The statistics recorded by the completing response, if the run
/// completes: the reported ones, or zeroes when none were sent.
pub open spec fn trace_stats(resps: Seq<PollResponse>) -> Option<QueryStatistics>
    decreases resps.len(),
{
    if resps.len() == 0 {
        None
    } else {
        match resps[0].status {
            Some(PollStatus::Scheduled) => trace_stats(resps.drop_first()),
            Some(PollStatus::Running) => trace_stats(resps.drop_first()),
            Some(PollStatus::Complete) => Some(stats_or_zero(resps[0].statistics)),
            _ => None,
        }
    }
}

/// Runs the poller over a given supply of poll responses, applying
/// `poll_step` until a terminal directive or until the supply runs out.
///
/// Every status transition is recorded in `persisted` before the run goes
/// on, in the order the poller would write them to the history store; the
/// record's identity, query text and creation time never change across the
/// run.
pub fn run_poll_trace(history: &mut QueryHistory, responses: Vec<PollResponse>) -> (r: PollRun)
    ensures
        r.persisted@.map_values(|h: QueryHistory| h.status) == trace_statuses(responses@),
        r.outcome == trace_outcome(responses@, old(history).query_id),
        r.emitted@ == trace_rows(responses@),
        forall|i: int|
            0 <= i < r.persisted@.len() ==> {
                &&& (#[trigger] r.persisted@[i]).id == old(history).id
                &&& r.persisted@[i].query_id == old(history).query_id
                &&& r.persisted@[i].contents == old(history).contents
                &&& r.persisted@[i].created_at == old(history).created_at
                &&& r.persisted@[i].deleted_at == old(history).deleted_at
                &&& r.persisted@[i].modified_at >= old(history).created_at
            },
        r.outcome == Ok::<PollRunOutcome, Error>(PollRunOutcome::Completed) ==> {
            &&& r.persisted@.len() > 0
            &&& r.persisted@.last().status == QueryStatus::Complete
            &&& r.persisted@.last().records_total == trace_rows(responses@).len()
            &&& Some(
                QueryStatistics {
                    records_matched: r.persisted@.last().records_matched,
                    records_scanned: r.persisted@.last().records_scanned,
                    bytes_scanned: r.persisted@.last().bytes_scanned,
                },
            ) == trace_stats(responses@)
        },
        final(history).id == old(history).id,
        final(history).query_id == old(history).query_id,
        final(history).contents == old(history).contents,
        final(history).created_at == old(history).created_at,
        final(history).status == if trace_statuses(responses@).len() > 0 {
            trace_statuses(responses@).last()
        } else {
            old(history).status
        },
{
    let mut rem = responses;
    let mut persisted: Vec<QueryHistory> = Vec::new();

    loop
        invariant
            trace_statuses(responses@) == persisted@.map_values(|h: QueryHistory| h.status)
                + trace_statuses(rem@),
            trace_outcome(responses@, old(history).query_id) == trace_outcome(
                rem@,
                old(history).query_id,
            ),
            trace_rows(responses@) == trace_rows(rem@),
            trace_stats(responses@) == trace_stats(rem@),
            forall|i: int|
                0 <= i < persisted@.len() ==> {
                    &&& (#[trigger] persisted@[i]).id == old(history).id
                    &&& persisted@[i].query_id == old(history).query_id
                    &&& persisted@[i].contents == old(history).contents
                    &&& persisted@[i].created_at == old(history).created_at
                    &&& persisted@[i].deleted_at == old(history).deleted_at
                    &&& persisted@[i].modified_at >= old(history).created_at
                },
            persisted@.len() > 0 ==> *history == persisted@.last(),
            history.id == old(history).id,
            history.query_id == old(history).query_id,
            history.contents == old(history).contents,
            history.created_at == old(history).created_at,
            history.deleted_at == old(history).deleted_at,
            persisted@.len() == 0 ==> *history == *old(history),
        ensures
            rem@.len() == 0,
        decreases rem@.len(),
    {
        if rem.len() == 0 {
            break ;
        }
        let ghost rem0: Seq<PollResponse> = rem@;
        let resp = rem.remove(0);
        proof {
            assert(rem0 =~= seq![resp] + rem@);
            assert(rem0.drop_first() =~= rem@);
        }
        let directive = poll_step(history, resp);
        match directive {
            PollDirective::Wait { persist } => {
                if persist {
                    persisted.push(history.clone());
                }
            },
            PollDirective::Finish { rows } => {
                persisted.push(history.clone());
                return PollRun {
                    persisted,
                    emitted: rows,
                    outcome: Ok(PollRunOutcome::Completed),
                };
            },
            PollDirective::Fail { error } => {
                persisted.push(history.clone());
                return PollRun { persisted, emitted: Vec::new(), outcome: Err(error) };
            },
            PollDirective::Indeterminate { unrecognized } => {
                return PollRun {
                    persisted,
                    emitted: Vec::new(),
                    outcome: Ok(PollRunOutcome::Indeterminate { unrecognized }),
                };
            },
        }
    }

    PollRun { persisted, emitted: Vec::new(), outcome: Ok(PollRunOutcome::Exhausted) }
}

} // verus!
