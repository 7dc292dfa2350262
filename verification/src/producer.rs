use vstd::prelude::*;

use crate::events::{log_event_of, LogEvent, LogEventView, RawEvent};

verus! {

/// The page size every listing request asks for; the protocol's maximum.
pub const PAGE_LIMIT: i32 = 10000;

/// The largest backoff, in time units, between two empty polls in follow
/// mode.
pub const MAX_BACKOFF_SECS: u64 = 10;

/// Everything fixed about one tail producer: which source it reads, how the
/// requests are filtered and bounded, and whether it follows the source
/// forever.
#[derive(Debug, Clone, PartialEq, Eq)]
pub struct ProducerConfig {
    pub group_name: String,
    pub stream_prefix: Option<String>,
    pub filter: Option<String>,
    pub end_time: Option<i64>,
    pub follow: bool,
}

impl ProducerConfig {
    /// A bounded window and follow mode exclude each other.
    pub open spec fn wf(&self) -> bool {
        self.end_time is Some ==> !self.follow
    }
}

/// Everything that changes from one page to the next: the moving time
/// cursor, the continuation token of the previous page, and the adaptive
/// backoff.
#[derive(Debug, Clone, PartialEq, Eq)]
pub struct ProducerState {
    pub cursor: i64,
    pub next_token: Option<String>,
    pub backoff_secs: u64,
}

impl ProducerState {
    pub open spec fn wf(&self) -> bool {
        1 <= self.backoff_secs <= MAX_BACKOFF_SECS
    }
}

/// One page of the remote listing API: the raw records, and the token that
/// continues the page, if the page was not the last one.
#[derive(Debug, Clone, PartialEq, Eq)]
pub struct Page {
    pub events: Vec<RawEvent>,
    pub next_token: Option<String>,
}

/// One request the producer wants made against the remote listing API.
#[derive(Debug, Clone, PartialEq, Eq)]
pub struct PageRequest {
    pub group_name: String,
    pub stream_prefix: Option<String>,
    pub filter: Option<String>,
    pub start_time: i64,
    pub end_time: Option<i64>,
    pub next_token: Option<String>,
    pub limit: i32,
}

/// What the producer does after a page was handled: request the next page
/// (after an optional backoff sleep), or stop because the source is
/// exhausted and it is not following.
#[derive(Debug, Clone, PartialEq, Eq, Structural)]
pub enum ProducerAction {
    Continue { sleep_secs: Option<u64> },
    Done,
}

fn clone_opt_string(o: &Option<String>) -> (r: Option<String>)
    ensures
        r == *o,
{
    match o {
        Some(s) => Some(s.clone()),
        None => None,
    }
}

/// The request a producer in state `state` makes next.
pub open spec fn request_spec(state: ProducerState, config: ProducerConfig) -> PageRequest {
    PageRequest {
        group_name: config.group_name,
        stream_prefix: config.stream_prefix,
        filter: config.filter,
        start_time: state.cursor,
        end_time: config.end_time,
        next_token: state.next_token,
        limit: PAGE_LIMIT,
    }
}

/// The state a freshly spawned producer starts in: cursor at the requested
/// start time, no continuation token, backoff at one unit.
pub fn initial_state(start_time: i64) -> (r: ProducerState)
    ensures
        r == (ProducerState { cursor: start_time, next_token: None, backoff_secs: 1 }),
        r.wf(),
{
    ProducerState { cursor: start_time, next_token: None, backoff_secs: 1 }
}

/// Builds the next page request from the current state: the cursor bounds
/// the window from below, the previous page's token continues it, and the
/// page size is always the protocol's maximum.
pub fn next_request(state: &ProducerState, config: &ProducerConfig) -> (r: PageRequest)
    ensures
        r == request_spec(*state, *config),
{
    PageRequest {
        group_name: config.group_name.clone(),
        stream_prefix: clone_opt_string(&config.stream_prefix),
        filter: clone_opt_string(&config.filter),
        start_time: state.cursor,
        end_time: config.end_time,
        next_token: clone_opt_string(&state.next_token),
        limit: PAGE_LIMIT,
    }
}

/// Backoff grows by one unit per consecutive empty poll and is clamped at
/// `MAX_BACKOFF_SECS`.
pub open spec fn backoff_step(b: u64) -> u64 {
    if b >= MAX_BACKOFF_SECS {
        MAX_BACKOFF_SECS
    } else {
        (b + 1) as u64
    }
}

/// Whether a handled page advances the cursor: only an exhausted page (no
/// continuation token) in follow mode, and only when it is non-empty and its
/// last event carries a timestamp.
pub open spec fn page_advances_cursor(config: ProducerConfig, page: Page) -> bool {
    &&& config.follow
    &&& page.next_token is None
    &&& page.events@.len() > 0
    &&& page.events@.last().timestamp is Some
}

/// The state after one page is handled.
///
/// - The continuation token becomes the page's token.
/// - The cursor moves to one past the last delivered timestamp when the page
///   was the last of its batch in follow mode, and stays put otherwise, so
///   that no event is delivered twice and none is skipped.
/// - An empty poll in follow mode escalates the backoff; any delivered event
///   resets it to one unit.
pub open spec fn step_state(state: ProducerState, config: ProducerConfig, page: Page) -> ProducerState {
    if page.next_token is None && !config.follow {
        state
    } else {
        ProducerState {
            cursor: if page_advances_cursor(config, page) {
                (page.events@.last().timestamp->Some_0 + 1) as i64
            } else {
                state.cursor
            },
            next_token: page.next_token,
            backoff_secs: if page.events@.len() == 0 && config.follow {
                backoff_step(state.backoff_secs)
            } else {
                1
            },
        }
    }
}

/// What the producer does after the page: stop when the source is exhausted
/// and it is not following; otherwise go on, sleeping the current backoff
/// first when the poll came back empty in follow mode.
pub open spec fn step_action(state: ProducerState, config: ProducerConfig, page: Page) -> ProducerAction {
    if page.next_token is None && !config.follow {
        ProducerAction::Done
    } else {
        ProducerAction::Continue {
            sleep_secs: if page.events@.len() == 0 && config.follow {
                Some(state.backoff_secs)
            } else {
                None
            },
        }
    }
}

/// The typed events one page delivers for the configured source, in page
/// order.
pub open spec fn page_events_view(group_name: Seq<char>, page: Page) -> Seq<LogEventView> {
    Seq::new(page.events@.len(), |i: int| log_event_of(group_name, page.events@[i]@))
}

/// Handles one fetched page: turns every raw record into a typed event of
/// this producer's source, in page order, and advances the producer state
/// exactly as `step_state` and `step_action` prescribe.
pub fn apply_page(state: &mut ProducerState, config: &ProducerConfig, page: Page) -> (r: (
    Vec<LogEvent>,
    ProducerAction,
))
    requires
        old(state).wf(),
        page_advances_cursor(*config, page) ==> page.events@.last().timestamp->Some_0 < i64::MAX,
    ensures
        *final(state) == step_state(*old(state), *config, page),
        r.1 == step_action(*old(state), *config, page),
        final(state).wf(),
        r.0@.len() == page.events@.len(),
        forall|i: int|
            0 <= i < page.events@.len() ==> (#[trigger] r.0@[i])@ == page_events_view(
                config.group_name@,
                page,
            )[i],
{
    let mut out: Vec<LogEvent> = Vec::new();
    let n = page.events.len();
    let mut j: usize = 0;
    while j < n
        invariant
            n == page.events@.len(),
            j <= n,
            out@.len() == j,
            forall|i: int|
                0 <= i < j ==> (#[trigger] out@[i])@ == log_event_of(
                    config.group_name@,
                    page.events@[i]@,
                ),
        decreases n - j,
    {
        let ev = LogEvent::from_raw(config.group_name.as_str(), &page.events[j]);
        out.push(ev);
        j = j + 1;
    }

    let exhausted = match &page.next_token {
        Some(_) => false,
        None => true,
    };

    if exhausted && !config.follow {
        return (out, ProducerAction::Done);
    }

    if config.follow && exhausted && page.events.len() > 0 {
        let last = &page.events[page.events.len() - 1];
        if let Some(ts) = last.timestamp {
            state.cursor = ts + 1;
        }
    }

    let empty_poll = page.events.len() == 0 && config.follow;
    let sleep_secs: Option<u64> = if empty_poll {
        Some(state.backoff_secs)
    } else {
        None
    };
    state.backoff_secs = if empty_poll {
        if state.backoff_secs >= MAX_BACKOFF_SECS {
            MAX_BACKOFF_SECS
        } else {
            state.backoff_secs + 1
        }
    } else {
        1
    };
    state.next_token = page.next_token;

    (out, ProducerAction::Continue { sleep_secs })
}

/// The backoff after `n` further consecutive empty polls, starting from `b`.
pub open spec fn backoff_after(b: u64, n: nat) -> u64
    decreases n,
{
    if n == 0 {
        b
    } else {
        backoff_step(backoff_after(b, (n - 1) as nat))
    }
}

/// Consecutive empty polls in follow mode raise the backoff by one unit
/// each, and it caps at `MAX_BACKOFF_SECS`: starting from one unit, the
/// producer sleeps 1, 2, 3, ... up to 10 units and then stays there.
pub proof fn lemma_backoff_caps(b: u64, n: nat)
    requires
        1 <= b <= MAX_BACKOFF_SECS,
    ensures
        backoff_after(b, n) == if b + n <= MAX_BACKOFF_SECS {
            b + n
        } else {
            MAX_BACKOFF_SECS as int
        },
    decreases n,
{
    if n > 0 {
        lemma_backoff_caps(b, (n - 1) as nat);
    }
}

/// Escalating first and then iterating is iterating once more.
proof fn lemma_backoff_shift(b: u64, n: nat)
    ensures
        backoff_after(backoff_step(b), n) == backoff_after(b, n + 1),
    decreases n,
{
    if n == 0 {
        assert(backoff_after(b, 0) == b);
        assert(backoff_after(b, 1) == backoff_step(backoff_after(b, 0)));
    } else {
        lemma_backoff_shift(b, (n - 1) as nat);
        assert(backoff_after(b, n + 1) == backoff_step(backoff_after(b, n)));
    }
}

/// Over a run of consecutive empty polls in follow mode the sleeps are
/// exactly the escalating backoff: the i-th sleep is the backoff after `i`
/// empty polls. Started from one unit they go 1, 2, 3, ... and stay at
/// `MAX_BACKOFF_SECS` once they reach it (`lemma_backoff_caps`).
pub proof fn lemma_empty_run_sleeps(state: ProducerState, config: ProducerConfig, pages: Seq<Page>)
    requires
        config.follow,
        forall|i: int| 0 <= i < pages.len() ==> (#[trigger] pages[i]).events@.len() == 0,
    ensures
        producer_trace(state, config, pages).sleeps.len() == pages.len(),
        forall|i: int|
            0 <= i < pages.len() ==> producer_trace(state, config, pages).sleeps[i]
                == backoff_after(state.backoff_secs, i as nat),
    decreases pages.len(),
{
    if pages.len() > 0 {
        let st1 = step_state(state, config, pages[0]);
        let rest = producer_trace(st1, config, pages.drop_first());
        lemma_empty_run_sleeps(st1, config, pages.drop_first());
        assert(st1.backoff_secs == backoff_step(state.backoff_secs));
        assert(producer_trace(state, config, pages).sleeps == seq![state.backoff_secs]
            + rest.sleeps);
        assert forall|i: int| 0 <= i < pages.len() implies producer_trace(
            state,
            config,
            pages,
        ).sleeps[i] == backoff_after(state.backoff_secs, i as nat) by {
            if i > 0 {
                assert(rest.sleeps[i - 1] == backoff_after(st1.backoff_secs, (i - 1) as nat));
                lemma_backoff_shift(state.backoff_secs, (i - 1) as nat);
            }
        }
    }
}

/// An empty poll in follow mode makes the producer sleep exactly the current
/// backoff and escalate it one step; any page that delivers an event resets
/// the backoff to one unit and sleeps not at all.
pub proof fn lemma_backoff_escalates_and_resets(
    state: ProducerState,
    config: ProducerConfig,
    page: Page,
)
    requires
        config.follow,
    ensures
        page.events@.len() == 0 ==> step_state(state, config, page).backoff_secs == backoff_step(
            state.backoff_secs,
        ) && step_action(state, config, page) == (ProducerAction::Continue {
            sleep_secs: Some(state.backoff_secs),
        }),
        page.events@.len() > 0 ==> step_state(state, config, page).backoff_secs == 1
            && step_action(state, config, page) == (ProducerAction::Continue {
            sleep_secs: None,
        }),
{
}

/// Cursor advance: when a page ends with an event at timestamp `T` and
/// carries no continuation token, the producer in follow mode asks for the
/// next page starting at exactly `T + 1` — strictly past every timestamp the
/// page delivered, so the same events are never requested again.
pub proof fn lemma_cursor_moves_past_delivered(
    state: ProducerState,
    config: ProducerConfig,
    page: Page,
)
    requires
        config.follow,
        page.next_token is None,
        page.events@.len() > 0,
        page.events@.last().timestamp is Some,
        page.events@.last().timestamp->Some_0 < i64::MAX,
    ensures
        request_spec(step_state(state, config, page), config).start_time == page.events@.last().timestamp->Some_0
            + 1,
        request_spec(step_state(state, config, page), config).start_time > page.events@.last().timestamp->Some_0,
{
}

/// A page whose token continues a batch leaves the cursor untouched: only an
/// exhausted page may advance it.
pub proof fn lemma_token_page_keeps_cursor(
    state: ProducerState,
    config: ProducerConfig,
    page: Page,
)
    requires
        page.next_token is Some,
    ensures
        step_state(state, config, page).cursor == state.cursor,
        step_state(state, config, page).next_token == page.next_token,
{
}

/// Everything one whole producer run leaves behind, at the level of the
/// mathematical model: the typed events it delivered in order, the backoff
/// sleeps it took, whether it stopped of its own accord, and its last state.
pub ghost struct ProducerTrace {
    pub events: Seq<LogEventView>,
    pub sleeps: Seq<u64>,
    pub completed: bool,
    pub state: ProducerState,
}

/// The fold of `step_state` / `step_action` over a sequence of pages,
/// stopping early when the producer is done.
pub open spec fn producer_trace(
    state: ProducerState,
    config: ProducerConfig,
    pages: Seq<Page>,
) -> ProducerTrace
    decreases pages.len(),
{
    if pages.len() == 0 {
        ProducerTrace { events: Seq::empty(), sleeps: Seq::empty(), completed: false, state }
    } else {
        let evs = page_events_view(config.group_name@, pages[0]);
        match step_action(state, config, pages[0]) {
            ProducerAction::Done => ProducerTrace {
                events: evs,
                sleeps: Seq::empty(),
                completed: true,
                state: step_state(state, config, pages[0]),
            },
            ProducerAction::Continue { sleep_secs } => {
                let rest = producer_trace(
                    step_state(state, config, pages[0]),
                    config,
                    pages.drop_first(),
                );
                ProducerTrace {
                    events: evs + rest.events,
                    sleeps: (match sleep_secs {
                        Some(s) => seq![s],
                        None => Seq::empty(),
                    }) + rest.sleeps,
                    completed: rest.completed,
                    state: rest.state,
                }
            },
        }
    }
}

/// What `run_producer` returns: the delivered events in order, the backoff
/// sleeps taken, whether the producer terminated of its own accord (rather
/// than running out of supplied pages), and its final state.
#[derive(Debug, PartialEq, Eq)]
pub struct ProducerRun {
    pub events: Vec<LogEvent>,
    pub sleeps: Vec<u64>,
    pub completed: bool,
    pub state: ProducerState,
}

/// Runs one producer over a given supply of pages, exactly as the live
/// producer handles the pages the remote API returns: every record of every
/// handled page is delivered in page order, empty polls in follow mode incur
/// the recorded backoff sleeps, and the run stops early only when a page
/// with no continuation token arrives outside follow mode.
pub fn run_producer(config: &ProducerConfig, start_time: i64, pages: Vec<Page>) -> (r: ProducerRun)
    requires
        forall|i: int|
            0 <= i < pages@.len() && page_advances_cursor(*config, #[trigger] pages@[i])
                ==> pages@[i].events@.last().timestamp->Some_0 < i64::MAX,
    ensures
        ({
            let t = producer_trace(
                ProducerState { cursor: start_time, next_token: None, backoff_secs: 1 },
                *config,
                pages@,
            );
            &&& r.events@.len() == t.events.len()
            &&& forall|i: int| 0 <= i < t.events.len() ==> (#[trigger] r.events@[i])@ == t.events[i]
            &&& r.sleeps@ == t.sleeps
            &&& r.completed == t.completed
            &&& r.state == t.state
            &&& r.state.wf()
        }),
{
    let ghost t = producer_trace(
        ProducerState { cursor: start_time, next_token: None, backoff_secs: 1 },
        *config,
        pages@,
    );
    let mut state = initial_state(start_time);
    let mut rem = pages;
    let mut events: Vec<LogEvent> = Vec::new();
    let mut sleeps: Vec<u64> = Vec::new();

    loop
        invariant
            t == producer_trace(
                ProducerState { cursor: start_time, next_token: None, backoff_secs: 1 },
                *config,
                pages@,
            ),
            state.wf(),
            forall|i: int|
                0 <= i < rem@.len() && page_advances_cursor(*config, #[trigger] rem@[i])
                    ==> rem@[i].events@.last().timestamp->Some_0 < i64::MAX,
            ({
                let rest = producer_trace(state, *config, rem@);
                &&& t.events.len() == events@.len() + rest.events.len()
                &&& t.events.skip(events@.len() as int) == rest.events
                &&& t.sleeps == sleeps@ + rest.sleeps
                &&& t.completed == rest.completed
                &&& t.state == rest.state
            }),
            forall|i: int| 0 <= i < events@.len() ==> (#[trigger] events@[i])@ == t.events[i],
        ensures
            rem@.len() == 0,
            state.wf(),
            ({
                let rest = producer_trace(state, *config, rem@);
                &&& t.events.len() == events@.len() + rest.events.len()
                &&& t.sleeps == sleeps@ + rest.sleeps
                &&& t.completed == rest.completed
                &&& t.state == rest.state
            }),
            forall|i: int| 0 <= i < events@.len() ==> (#[trigger] events@[i])@ == t.events[i],
        decreases rem@.len(),
    {
        if rem.len() == 0 {
            break ;
        }
        let ghost rem0: Seq<Page> = rem@;
        let ghost state0: ProducerState = state;
        let page = rem.remove(0);
        proof {
            assert(rem0 =~= seq![page] + rem@);
            assert(rem0.drop_first() =~= rem@);
        }
        let (mut page_events, action) = apply_page(&mut state, config, page);
        let ghost k = page_events@.len();
        let ghost n0 = events@.len();
        let ghost pevs: Seq<LogEvent> = page_events@;
        events.append(&mut page_events);
        proof {
            let rest0 = producer_trace(state0, *config, rem0);
            let rest1 = producer_trace(state, *config, rem@);
            let evs0 = page_events_view(config.group_name@, page);
            assert(rem0[0] == page);
            if step_action(state0, *config, page) is Done {
                assert(rest0.events == evs0);
            } else {
                assert(rest0.events == evs0 + rest1.events);
                assert forall|i: int| 0 <= i < rest1.events.len() implies t.events.skip(
                    (n0 + k) as int,
                )[i] == rest1.events[i] by {
                    assert(t.events.skip(n0 as int)[k + i] == t.events[n0 + k + i]);
                    assert(rest0.events[k + i] == rest1.events[i]);
                }
                assert(t.events.skip((n0 + k) as int) =~= rest1.events);
            }
            assert forall|i: int| 0 <= i < events@.len() implies (#[trigger] events@[i])@
                == t.events[i] by {
                if i >= n0 {
                    assert(events@[i] == pevs[i - n0]);
                    assert(t.events.skip(n0 as int)[i - n0] == t.events[i]);
                    assert(rest0.events[i - n0] == evs0[i - n0]);
                }
            }
        }
        match action {
            ProducerAction::Done => {
                proof {
                    let rest0 = producer_trace(state0, *config, rem0);
                    assert(rest0.completed && rest0.events.len() == k);
                    assert(t.sleeps =~= sleeps@);
                }
                return ProducerRun { events, sleeps, completed: true, state };
            },
            ProducerAction::Continue { sleep_secs } => {
                if let Some(s) = sleep_secs {
                    sleeps.push(s);
                }
                proof {
                    let rest1 = producer_trace(state, *config, rem@);
                    assert(t.sleeps =~= sleeps@ + rest1.sleeps);
                }
            },
        }
    }

    ProducerRun { events, sleeps, completed: false, state }
}

} // verus!
