//! Following a transaction until it is confirmed, within a deadline.
//!
//! The poller decides; it neither waits nor asks. Its driver carries out
//! each action and reports what came of it as the next event: the clock
//! after a wait, the node's reply after a query.

use crate::response::BroadcastResult;
use vstd::prelude::*;

verus! {

/// The time between two queries, in milliseconds, where the caller names
/// none.
pub const DEFAULT_POLL_INTERVAL_MS: u64 = 1_000;

/// What a node answered when asked for a transaction by its hash.
#[derive(Clone, Debug, PartialEq, Eq)]
pub enum Lookup {
    /// The transaction is in a block; this is the result of its execution.
    Found(BroadcastResult),
    /// The node has no record of the hash: the transaction is still
    /// pending, as is to be expected between admission and inclusion.
    NotFound,
    /// The node could not be asked.
    ChannelError,
}

/// Why polling ended without a confirmation. Either way the outcome of
/// the transaction is unknown: it is not a rejection.
#[derive(Clone, Copy, Debug, PartialEq, Eq)]
pub enum PollError {
    /// The deadline passed. The transaction may still be pending, or may
    /// have been dropped.
    ConfirmationTimeout,
    /// A query failed at the transport level.
    ConfirmationError,
}

/// How a poll ends: with the node's report of the transaction in its
/// block, or with the reason why none was had.
pub type ConfirmationOutcome = Result<BroadcastResult, PollError>;

/// Where polling stands.
#[derive(Clone, Copy, Debug, PartialEq, Eq)]
pub enum PollPhase {
    /// Pending; the next event is a reading of the clock.
    Waiting,
    /// Pending; a query is out and the next event is its reply.
    Querying,
    Confirmed,
    TimedOut,
    Failed,
}

/// What the driver reports.
#[derive(Clone, Debug, PartialEq, Eq)]
pub enum PollEvent {
    /// The time since polling began, in milliseconds.
    Clock { elapsed_ms: u64 },
    /// The node's reply to the query.
    Reply(Lookup),
}

/// What the driver is to do next.
#[derive(Debug, PartialEq, Eq)]
pub enum PollAction {
    /// Wait this many milliseconds, then report the clock.
    Wait { millis: u64 },
    /// Ask the node for the transaction, then report its reply.
    Query,
    /// Polling is over, with this outcome.
    Finish(ConfirmationOutcome),
    /// The event does not belong to this phase: nothing has changed and
    /// nothing is to be done.
    Nothing,
}

/// The state of one poll.
#[derive(Clone, Copy, Debug, PartialEq, Eq)]
pub struct Poller {
    deadline_ms: u64,
    interval_ms: u64,
    phase: PollPhase,
}

/// What a [`Poller`] stands for.
pub struct PollerView {
    pub deadline_ms: u64,
    pub interval_ms: u64,
    pub phase: PollPhase,
}

impl View for Poller {
    type V = PollerView;

    closed spec fn view(&self) -> PollerView {
        PollerView {
            deadline_ms: self.deadline_ms,
            interval_ms: self.interval_ms,
            phase: self.phase,
        }
    }
}

/// The poller `p` in the phase `phase`.
pub open spec fn in_phase(p: PollerView, phase: PollPhase) -> PollerView {
    PollerView { phase, ..p }
}

/// The transitions of a poll. Pending, a reading of the clock below the
/// deadline sends a query, and one at or past it ends the poll as timed
/// out. A reply that holds the transaction confirms it; one that does not
/// know it yet calls for a wait of one interval; a failure of the channel
/// ends the poll at once. An event out of turn changes nothing.
pub open spec fn poll_step(p: PollerView, event: PollEvent) -> (PollerView, PollAction) {
    match (p.phase, event) {
        (PollPhase::Waiting, PollEvent::Clock { elapsed_ms }) => if elapsed_ms < p.deadline_ms {
            (in_phase(p, PollPhase::Querying), PollAction::Query)
        } else {
            (
                in_phase(p, PollPhase::TimedOut),
                PollAction::Finish(Err(PollError::ConfirmationTimeout)),
            )
        },
        (PollPhase::Querying, PollEvent::Reply(Lookup::Found(result))) => (
            in_phase(p, PollPhase::Confirmed),
            PollAction::Finish(Ok(result)),
        ),
        (PollPhase::Querying, PollEvent::Reply(Lookup::NotFound)) => (
            in_phase(p, PollPhase::Waiting),
            PollAction::Wait { millis: p.interval_ms },
        ),
        (PollPhase::Querying, PollEvent::Reply(Lookup::ChannelError)) => (
            in_phase(p, PollPhase::Failed),
            PollAction::Finish(Err(PollError::ConfirmationError)),
        ),
        _ => (p, PollAction::Nothing),
    }
}

impl Poller {
    /// A poll that gives up `deadline_ms` milliseconds after it began and
    /// waits `interval_ms` between queries. It begins by reading the
    /// clock.
    pub fn new(deadline_ms: u64, interval_ms: u64) -> (p: Poller)
        ensures
            p@ == (PollerView { deadline_ms, interval_ms, phase: PollPhase::Waiting }),
    {
        Poller { deadline_ms, interval_ms, phase: PollPhase::Waiting }
    }

    pub fn deadline_ms(&self) -> (ms: u64)
        ensures
            ms == self@.deadline_ms,
    {
        self.deadline_ms
    }

    pub fn interval_ms(&self) -> (ms: u64)
        ensures
            ms == self@.interval_ms,
    {
        self.interval_ms
    }

    pub fn phase(&self) -> (phase: PollPhase)
        ensures
            phase == self@.phase,
    {
        self.phase
    }

    /// Takes one event and says what to do next.
    pub fn step(&mut self, event: PollEvent) -> (action: PollAction)
        ensures
            final(self)@ == poll_step(old(self)@, event).0,
            action == poll_step(old(self)@, event).1,
    {
        match (self.phase, event) {
            (PollPhase::Waiting, PollEvent::Clock { elapsed_ms }) => {
                if elapsed_ms < self.deadline_ms {
                    self.phase = PollPhase::Querying;
                    PollAction::Query
                } else {
                    self.phase = PollPhase::TimedOut;
                    PollAction::Finish(Err(PollError::ConfirmationTimeout))
                }
            },
            (PollPhase::Querying, PollEvent::Reply(Lookup::Found(result))) => {
                self.phase = PollPhase::Confirmed;
                PollAction::Finish(Ok(result))
            },
            (PollPhase::Querying, PollEvent::Reply(Lookup::NotFound)) => {
                self.phase = PollPhase::Waiting;
                PollAction::Wait { millis: self.interval_ms }
            },
            (PollPhase::Querying, PollEvent::Reply(Lookup::ChannelError)) => {
                self.phase = PollPhase::Failed;
                PollAction::Finish(Err(PollError::ConfirmationError))
            },
            _ => PollAction::Nothing,
        }
    }
}

/// How a poll went.
pub struct Run {
    pub outcome: ConfirmationOutcome,
    /// How many queries were sent.
    pub queries: nat,
    /// The time at which the poll ended, in milliseconds since it began.
    pub ended_at: nat,
}

/// The reading of a clock that shows `elapsed` milliseconds, or as many
/// as a `u64` holds.
pub open spec fn reading(elapsed: nat) -> PollEvent {
    PollEvent::Clock {
        elapsed_ms: if elapsed <= u64::MAX {
            elapsed as u64
        } else {
            u64::MAX
        },
    }
}

/// How the poll `p`, about to read the clock, goes on from `elapsed`
/// milliseconds after it began and `asked` queries sent, where the node
/// answers query number `i` (counted from zero) with `script(i)` and the
/// clock moves only while the poller waits.
pub open spec fn run_from(
    p: PollerView,
    script: spec_fn(nat) -> Lookup,
    asked: nat,
    elapsed: nat,
) -> Run
    decreases
        (if elapsed < p.deadline_ms {
            p.deadline_ms - elapsed
        } else {
            0
        }),
    when p.interval_ms > 0
{
    let (querying, first) = poll_step(p, reading(elapsed));
    match first {
        PollAction::Query => {
            let (waiting, second) = poll_step(querying, PollEvent::Reply(script(asked)));
            match second {
                PollAction::Wait { millis } => run_from(
                    waiting,
                    script,
                    asked + 1,
                    (elapsed + millis) as nat,
                ),
                PollAction::Finish(outcome) => Run {
                    outcome,
                    queries: asked + 1,
                    ended_at: elapsed,
                },
                _ => Run {
                    outcome: Err(PollError::ConfirmationError),
                    queries: asked + 1,
                    ended_at: elapsed,
                },
            }
        },
        PollAction::Finish(outcome) => Run { outcome, queries: asked, ended_at: elapsed },
        _ => Run { outcome: Err(PollError::ConfirmationError), queries: asked, ended_at: elapsed },
    }
}

/// A query is sent only on a reading of the clock below the deadline:
/// past the deadline the node is not asked again.
pub proof fn lemma_query_only_before_deadline(p: PollerView, event: PollEvent)
    requires
        poll_step(p, event).1 == PollAction::Query,
    ensures
        p.phase == PollPhase::Waiting,
        event matches PollEvent::Clock { elapsed_ms } && elapsed_ms < p.deadline_ms,
{
}

/// A poll times out only on a reading of the clock at or past the
/// deadline: never before it.
pub proof fn lemma_timeout_only_from_deadline(p: PollerView, event: PollEvent)
    requires
        poll_step(p, event).1 == PollAction::Finish(Err(PollError::ConfirmationTimeout)),
    ensures
        p.phase == PollPhase::Waiting,
        event matches PollEvent::Clock { elapsed_ms } && elapsed_ms >= p.deadline_ms,
{
}

/// A poll ends confirmed only with what the node reported in reply to a
/// query.
pub proof fn lemma_confirmed_only_by_node(p: PollerView, event: PollEvent, result: BroadcastResult)
    requires
        poll_step(p, event).1 == PollAction::Finish(Ok(result)),
    ensures
        p.phase == PollPhase::Querying,
        event == PollEvent::Reply(Lookup::Found(result)),
{
}

/// A failure of the channel is never taken for "not found yet": it ends
/// a pending query with an error, and no further action follows.
pub proof fn lemma_channel_error_ends_poll(p: PollerView)
    requires
        p.phase == PollPhase::Querying,
    ensures
        poll_step(p, PollEvent::Reply(Lookup::ChannelError)) == (
            in_phase(p, PollPhase::Failed),
            PollAction::Finish(Err(PollError::ConfirmationError)),
        ),
{
}

/// A poll that has ended stays as it is, whatever it is told.
pub proof fn lemma_ended_poll_stays(p: PollerView, event: PollEvent)
    requires
        p.phase == PollPhase::Confirmed || p.phase == PollPhase::TimedOut || p.phase
            == PollPhase::Failed,
    ensures
        poll_step(p, event) == (p, PollAction::Nothing),
{
}

proof fn lemma_confirmed_from(
    p: PollerView,
    script: spec_fn(nat) -> Lookup,
    k: nat,
    result: BroadcastResult,
    j: nat,
)
    requires
        p.phase == PollPhase::Waiting,
        p.interval_ms > 0,
        j < k,
        (k - 1) * p.interval_ms < p.deadline_ms,
        forall|i: nat| i < k - 1 ==> #[trigger] script(i) == Lookup::NotFound,
        script((k - 1) as nat) == Lookup::Found(result),
    ensures
        run_from(p, script, j, (j * p.interval_ms) as nat) == (Run {
            outcome: Ok(result),
            queries: k,
            ended_at: ((k - 1) * p.interval_ms) as nat,
        }),
    decreases k - j,
{
    let interval: int = p.interval_ms as int;
    assert(j * interval <= (k - 1) * interval) by (nonlinear_arith)
        requires
            j <= k - 1,
            interval > 0,
    ;
    assert((j + 1) * interval == j * interval + interval) by (nonlinear_arith);
    if j + 1 < k {
        lemma_confirmed_from(p, script, k, result, j + 1);
    }
}

/// On a node that does not know the transaction for `k - 1` queries and
/// reports it on the `k`-th, sent before the deadline, the poll ends
/// confirmed with that report, after exactly `k` queries and at the time
/// of the `k`-th, `k - 1` intervals after it began.
pub proof fn lemma_confirmed_on_kth_query(
    p: PollerView,
    script: spec_fn(nat) -> Lookup,
    k: nat,
    result: BroadcastResult,
)
    requires
        p.phase == PollPhase::Waiting,
        p.interval_ms > 0,
        k >= 1,
        (k - 1) * p.interval_ms < p.deadline_ms,
        forall|i: nat| i < k - 1 ==> #[trigger] script(i) == Lookup::NotFound,
        script((k - 1) as nat) == Lookup::Found(result),
    ensures
        run_from(p, script, 0, 0) == (Run {
            outcome: Ok(result),
            queries: k,
            ended_at: ((k - 1) * p.interval_ms) as nat,
        }),
        run_from(p, script, 0, 0).ended_at < p.deadline_ms,
{
    lemma_confirmed_from(p, script, k, result, 0);
    assert(0 * p.interval_ms == 0);
}

proof fn lemma_times_out_from(
    p: PollerView,
    script: spec_fn(nat) -> Lookup,
    asked: nat,
    elapsed: nat,
)
    requires
        p.phase == PollPhase::Waiting,
        p.interval_ms > 0,
        elapsed < p.deadline_ms + p.interval_ms,
        forall|i: nat| #[trigger] script(i) == Lookup::NotFound,
    ensures
        ({
            let run = run_from(p, script, asked, elapsed);
            &&& run.outcome == Err::<BroadcastResult, PollError>(PollError::ConfirmationTimeout)
            &&& p.deadline_ms <= run.ended_at < p.deadline_ms + p.interval_ms
            &&& run.queries >= asked
            &&& run.ended_at == elapsed + (run.queries - asked) * p.interval_ms
        }),
    decreases
        (if elapsed < p.deadline_ms {
            p.deadline_ms - elapsed
        } else {
            0
        }),
{
    let interval: int = p.interval_ms as int;
    if elapsed < p.deadline_ms {
        lemma_times_out_from(p, script, asked + 1, elapsed + p.interval_ms as nat);
        let run = run_from(p, script, asked + 1, elapsed + p.interval_ms as nat);
        assert((run.queries - asked) * interval == (run.queries - (asked + 1)) * interval
            + interval) by (nonlinear_arith);
    } else {
        assert((asked - asked) * interval == 0);
    }
}

/// On a node that never knows the transaction the poll ends timed out, at
/// or after the deadline and less than one interval past it, having sent
/// one query per interval.
pub proof fn lemma_times_out_within_one_interval(p: PollerView, script: spec_fn(nat) -> Lookup)
    requires
        p.phase == PollPhase::Waiting,
        p.interval_ms > 0,
        forall|i: nat| #[trigger] script(i) == Lookup::NotFound,
    ensures
        ({
            let run = run_from(p, script, 0, 0);
            &&& run.outcome == Err::<BroadcastResult, PollError>(PollError::ConfirmationTimeout)
            &&& p.deadline_ms <= run.ended_at < p.deadline_ms + p.interval_ms
            &&& run.ended_at == run.queries * p.interval_ms
        }),
{
    lemma_times_out_from(p, script, 0, 0);
}

} // verus!
