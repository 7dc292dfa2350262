use vstd::prelude::*;

verus! {

/// The lifecycle of a submitted query job.
///
/// `Scheduled` is the initial state; `Running` may repeat while the job
/// executes; `Complete`, `Failed` and `Timeout` are terminal.
#[derive(Debug, Clone, Copy, PartialEq, Eq, Structural)]
pub enum QueryStatus {
    Scheduled,
    Running,
    Complete,
    Failed,
    Timeout,
}

impl QueryStatus {
    pub open spec fn is_terminal_spec(&self) -> bool {
        self is Complete || self is Failed || self is Timeout
    }

    /// True of the states from which no further transition occurs.
    pub fn is_terminal(&self) -> (r: bool)
        ensures
            r == self.is_terminal_spec(),
    {
        match self {
            QueryStatus::Complete | QueryStatus::Failed | QueryStatus::Timeout => true,
            QueryStatus::Scheduled | QueryStatus::Running => false,
        }
    }

    pub open spec fn label_spec(&self) -> Seq<char> {
        match self {
            QueryStatus::Scheduled => "Scheduled"@,
            QueryStatus::Running => "Running"@,
            QueryStatus::Complete => "Complete"@,
            QueryStatus::Failed => "Failed"@,
            QueryStatus::Timeout => "Timeout"@,
        }
    }

    /// The textual name of the state, as it is persisted and displayed.
    pub fn label(&self) -> (r: &'static str)
        ensures
            r@ == self.label_spec(),
    {
        match self {
            QueryStatus::Scheduled => "Scheduled",
            QueryStatus::Running => "Running",
            QueryStatus::Complete => "Complete",
            QueryStatus::Failed => "Failed",
            QueryStatus::Timeout => "Timeout",
        }
    }
}

impl Default for QueryStatus {
    /// A new history record starts out `Scheduled`.
    fn default() -> (r: Self)
        ensures
            r == QueryStatus::Scheduled,
    {
        QueryStatus::Scheduled
    }
}

/// Relies on `uuid::Uuid::new_v4` and `uuid::fmt::Simple`: a fresh random
/// identifier rendered in the simple format, which is exactly 32 hexadecimal
/// characters. The value is random, so nothing more is promised of it.
#[verifier::external_body]
fn fresh_history_id() -> (r: String)
    ensures
        r@.len() == 32,
{
    uuid::Uuid::new_v4().as_simple().to_string()
}

/// Relies on `chrono::Utc::now` and `DateTime::timestamp_millis`: the wall
/// clock as milliseconds since the Unix epoch. The clock can move arbitrarily
/// between calls, so nothing is promised of the value.
#[verifier::external_body]
pub(crate) fn now_millis() -> (r: i64) {
    chrono::Utc::now().timestamp_millis()
}

/// The durable record of one submitted query and its lifecycle.
///
/// `id` is assigned once at creation and never changes; `modified_at` is
/// refreshed on every status or statistics change and never drops below
/// `created_at`.
#[derive(Debug, PartialEq, Eq)]
pub struct QueryHistory {
    pub id: String,
    pub query_id: String,
    pub contents: String,
    pub status: QueryStatus,

    pub records_total: u64,
    pub records_matched: u64,
    pub records_scanned: u64,
    pub bytes_scanned: u64,

    pub created_at: i64,
    pub modified_at: i64,
    pub deleted_at: Option<i64>,
}

impl Clone for QueryHistory {
    /// A faithful copy, suitable for taking a snapshot of the record as it
    /// is persisted.
    fn clone(&self) -> (r: Self)
        ensures
            r == *self,
    {
        QueryHistory {
            id: self.id.clone(),
            query_id: self.query_id.clone(),
            contents: self.contents.clone(),
            status: self.status,
            records_total: self.records_total,
            records_matched: self.records_matched,
            records_scanned: self.records_scanned,
            bytes_scanned: self.bytes_scanned,
            created_at: self.created_at,
            modified_at: self.modified_at,
            deleted_at: self.deleted_at,
        }
    }
}

impl QueryHistory {
    pub open spec fn wf(&self) -> bool {
        self.modified_at >= self.created_at
    }

    /// Creates the in-memory record for a freshly submitted query: a new
    /// unique identifier, status `Scheduled`, zeroed statistics, and equal
    /// creation and modification times.
    pub fn new(query_id: String, contents: String) -> (r: Self)
        ensures
            r.query_id == query_id,
            r.contents == contents,
            r.status == QueryStatus::Scheduled,
            r.records_total == 0 && r.records_matched == 0,
            r.records_scanned == 0 && r.bytes_scanned == 0,
            r.created_at == r.modified_at,
            r.deleted_at is None,
            r.id@.len() == 32,
            r.wf(),
    {
        let id = fresh_history_id();
        let now = now_millis();

        QueryHistory {
            id,
            query_id,
            contents,
            status: QueryStatus::Scheduled,
            records_total: 0,
            records_matched: 0,
            records_scanned: 0,
            bytes_scanned: 0,
            created_at: now,
            modified_at: now,
            deleted_at: None,
        }
    }

    /// The record's unique identifier.
    pub fn id(&self) -> (r: String)
        ensures
            r == self.id,
    {
        self.id.clone()
    }

    /// Refreshes `modified_at` from the clock. A clock that has fallen behind
    /// the creation time is clamped so that the record stays well formed.
    fn touch(&mut self)
        ensures
            *final(self) == (QueryHistory { modified_at: final(self).modified_at, ..*old(self) }),
            final(self).modified_at >= old(self).created_at,
    {
        let now = now_millis();
        self.modified_at = if now < self.created_at {
            self.created_at
        } else {
            now
        };
    }

    /// Records a status transition and refreshes the modification time.
    /// Every other field is kept.
    pub fn set_status(&mut self, status: QueryStatus)
        ensures
            *final(self) == (QueryHistory {
                status: status,
                modified_at: final(self).modified_at,
                ..*old(self)
            }),
            final(self).modified_at >= old(self).created_at,
            final(self).wf(),
    {
        self.status = status;
        self.touch();
    }

    /// Records the final statistics of a completed query and refreshes the
    /// modification time. Every other field is kept.
    pub fn set_statistics(
        &mut self,
        records_total: u64,
        records_matched: u64,
        records_scanned: u64,
        bytes_scanned: u64,
    )
        ensures
            *final(self) == (QueryHistory {
                records_total: records_total,
                records_matched: records_matched,
                records_scanned: records_scanned,
                bytes_scanned: bytes_scanned,
                modified_at: final(self).modified_at,
                ..*old(self)
            }),
            final(self).modified_at >= old(self).created_at,
            final(self).wf(),
    {
        self.records_total = records_total;
        self.records_matched = records_matched;
        self.records_scanned = records_scanned;
        self.bytes_scanned = bytes_scanned;
        self.touch();
    }
}

} // verus!
