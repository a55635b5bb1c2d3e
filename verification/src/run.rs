//! The daemon's decisions. The program that the service unit executes holds
//! one connection to a gateway and waits on it, on a timer and on the stop
//! signal; each time one of them answers, it hands the answer here as an
//! event and carries out the actions that come back.
//!
//! Build a client, `start()` it — retrying with backoff, so a machine that
//! boots before its network is up keeps trying rather than letting the service
//! exit — publish the status every few seconds while connected, and `stop()`
//! on a signal, clearing the status file so a stopped agent does not report
//! a months-old "connected".

use vstd::prelude::*;
use crate::status::ConnectionState;
use crate::text::opt_view;
use vstd::arithmetic::power2::{lemma_pow2_unfold, pow2};

verus! {

/// How often the status file is refreshed while connected, in seconds.
pub const STATUS_INTERVAL_SECS: u64 = 2;

/// The first wait before retrying a failed first connection, in seconds.
pub const RETRY_MIN_SECS: u64 = 2;

/// The longest wait between first-connection attempts, in seconds.
pub const RETRY_MAX_SECS: u64 = 60;

/// Where the daemon is in its life.
#[derive(Debug, Clone, Copy, PartialEq, Eq, Structural)]
pub enum Phase {
    /// A first connection attempt is under way.
    Connecting,
    /// The last attempt failed; waiting before the next.
    WaitingToRetry,
    /// Connected; the status file is kept current.
    Connected,
    /// Stopped. Nothing more happens.
    Finished,
}

/// What happened, as the program observed it.
#[derive(Debug, Clone)]
pub enum RunEvent {
    /// `start()` reached a gateway.
    Started,
    /// `start()` gave up, with this error.
    StartFailed { error: String },
    /// The wait before the next attempt is over.
    RetryDue,
    /// The status timer fired; the client is in this state.
    Tick { state: ConnectionState },
    /// SIGINT or SIGTERM arrived.
    Shutdown,
}

/// What the program is asked to do, in order.
#[derive(Debug, Clone, Copy, PartialEq, Eq, Structural)]
pub enum RunAction {
    /// Write the status file with this connection state (and the run's last
    /// error).
    Publish { state: ConnectionState },
    /// Call `start()` on the client.
    AttemptStart,
    /// Sleep this many seconds, then report `RetryDue`.
    Wait { secs: u64 },
    /// Report a `Tick` every this many seconds from now on.
    StartTicker { secs: u64 },
    /// `stop()` the client.
    StopClient,
    /// Remove the status file.
    ClearStatus,
    /// Return from the daemon.
    Exit,
}

/// The daemon's state.
#[derive(Debug, Clone)]
pub struct RunState {
    pub phase: Phase,
    /// The wait after the next failed attempt, in seconds.
    pub backoff_secs: u64,
    /// Why the last connection attempt failed; survives across retries so a
    /// misconfigured id is visible rather than scrolling past in the log.
    pub last_error: Option<String>,
}

pub struct RunStateView {
    pub phase: Phase,
    pub backoff_secs: nat,
    pub last_error: Option<Seq<char>>,
}

impl View for RunState {
    type V = RunStateView;

    open spec fn view(&self) -> RunStateView {
        RunStateView {
            phase: self.phase,
            backoff_secs: self.backoff_secs as nat,
            last_error: opt_view(self.last_error),
        }
    }
}

/// What every state of a run keeps: the backoff within its bounds, and no
/// error on record once connected.
pub open spec fn run_wf(s: RunStateView) -> bool {
    &&& RETRY_MIN_SECS <= s.backoff_secs <= RETRY_MAX_SECS
    &&& s.phase == Phase::Connected ==> s.last_error is None
}

pub open spec fn initial_state() -> RunStateView {
    RunStateView { phase: Phase::Connecting, backoff_secs: RETRY_MIN_SECS as nat, last_error: None }
}

pub open spec fn doubled(backoff: nat) -> nat {
    if 2 * backoff <= RETRY_MAX_SECS {
        2 * backoff
    } else {
        RETRY_MAX_SECS as nat
    }
}

/// The state after an event.
pub open spec fn next_state(s: RunStateView, e: RunEvent) -> RunStateView {
    match (s.phase, e) {
        (Phase::Connecting, RunEvent::Started) => RunStateView {
            phase: Phase::Connected,
            last_error: None,
            ..s
        },
        (Phase::Connecting, RunEvent::StartFailed { error }) => RunStateView {
            phase: Phase::WaitingToRetry,
            last_error: Some(error@),
            ..s
        },
        (Phase::WaitingToRetry, RunEvent::RetryDue) => RunStateView {
            phase: Phase::Connecting,
            backoff_secs: doubled(s.backoff_secs),
            ..s
        },
        (Phase::Connecting, RunEvent::Shutdown) => RunStateView { phase: Phase::Finished, ..s },
        (Phase::WaitingToRetry, RunEvent::Shutdown) => RunStateView { phase: Phase::Finished, ..s },
        (Phase::Connected, RunEvent::Shutdown) => RunStateView { phase: Phase::Finished, ..s },
        _ => s,
    }
}

/// The actions an event calls for.
pub open spec fn next_actions(s: RunStateView, e: RunEvent) -> Seq<RunAction> {
    match (s.phase, e) {
        (Phase::Connecting, RunEvent::Started) => seq![
            RunAction::StartTicker { secs: STATUS_INTERVAL_SECS },
        ],
        (Phase::Connecting, RunEvent::StartFailed { .. }) => seq![
            RunAction::Publish { state: ConnectionState::Connecting },
            RunAction::Wait { secs: s.backoff_secs as u64 },
        ],
        (Phase::WaitingToRetry, RunEvent::RetryDue) => seq![RunAction::AttemptStart],
        (Phase::Connecting, RunEvent::Shutdown) => seq![RunAction::ClearStatus, RunAction::Exit],
        (Phase::WaitingToRetry, RunEvent::Shutdown) => seq![RunAction::ClearStatus, RunAction::Exit],
        (Phase::Connected, RunEvent::Tick { state }) => seq![RunAction::Publish { state }],
        (Phase::Connected, RunEvent::Shutdown) => seq![
            RunAction::StopClient,
            RunAction::ClearStatus,
            RunAction::Exit,
        ],
        _ => Seq::<RunAction>::empty(),
    }
}

impl RunState {
    /// A run about to make its first attempt, and what to do first: publish
    /// "connecting" — registered before the first attempt, so a stop during
    /// startup lands — and start.
    pub fn new() -> (r: (RunState, Vec<RunAction>))
        ensures
            r.0@ == initial_state(),
            run_wf(r.0@),
            r.1@ == seq![
                RunAction::Publish { state: ConnectionState::Connecting },
                RunAction::AttemptStart,
            ],
    {
        let mut actions: Vec<RunAction> = Vec::new();
        actions.push(RunAction::Publish { state: ConnectionState::Connecting });
        actions.push(RunAction::AttemptStart);
        (RunState { phase: Phase::Connecting, backoff_secs: RETRY_MIN_SECS, last_error: None }, actions)
    }

    /// Take in one event.
    pub fn step(&mut self, event: RunEvent) -> (actions: Vec<RunAction>)
        ensures
            final(self)@ == next_state(old(self)@, event),
            actions@ == next_actions(old(self)@, event),
            run_wf(old(self)@) ==> run_wf(final(self)@),
            old(self).phase == Phase::Connected ==> (event matches RunEvent::Tick { state } ==> (
            actions@ == seq![RunAction::Publish { state }] && final(self)@ == old(self)@)),
    {
        let mut actions: Vec<RunAction> = Vec::new();
        match (self.phase, event) {
            (Phase::Connecting, RunEvent::Started) => {
                self.phase = Phase::Connected;
                self.last_error = None;
                actions.push(RunAction::StartTicker { secs: STATUS_INTERVAL_SECS });
            },
            (Phase::Connecting, RunEvent::StartFailed { error }) => {
                self.phase = Phase::WaitingToRetry;
                self.last_error = Some(error);
                actions.push(RunAction::Publish { state: ConnectionState::Connecting });
                actions.push(RunAction::Wait { secs: self.backoff_secs });
            },
            (Phase::WaitingToRetry, RunEvent::RetryDue) => {
                self.phase = Phase::Connecting;
                self.backoff_secs = if self.backoff_secs <= RETRY_MAX_SECS / 2 {
                    2 * self.backoff_secs
                } else {
                    RETRY_MAX_SECS
                };
                actions.push(RunAction::AttemptStart);
            },
            (Phase::Connecting, RunEvent::Shutdown) | (Phase::WaitingToRetry, RunEvent::Shutdown) => {
                self.phase = Phase::Finished;
                actions.push(RunAction::ClearStatus);
                actions.push(RunAction::Exit);
            },
            (Phase::Connected, RunEvent::Tick { state }) => {
                actions.push(RunAction::Publish { state });
            },
            (Phase::Connected, RunEvent::Shutdown) => {
                self.phase = Phase::Finished;
                actions.push(RunAction::StopClient);
                actions.push(RunAction::ClearStatus);
                actions.push(RunAction::Exit);
            },
            _ => {},
        }
        actions
    }
}

// ---- what every run keeps --------------------------------------------------

/// While connected, each tick publishes exactly the state the client
/// reported, whatever it is, and leaves the run as it was.
pub proof fn lemma_connected_tick_publishes_reported_state(s: RunStateView, state: ConnectionState)
    requires
        s.phase == Phase::Connected,
    ensures
        next_actions(s, RunEvent::Tick { state }) == seq![RunAction::Publish { state }],
        next_state(s, RunEvent::Tick { state }) == s,
{
}

/// The state after a sequence of events, in order.
pub open spec fn run_events(s: RunStateView, events: Seq<RunEvent>) -> RunStateView
    decreases events.len(),
{
    if events.len() == 0 {
        s
    } else {
        next_state(run_events(s, events.drop_last()), events.last())
    }
}

/// Every event keeps a run well formed, so every state a run reaches is: the
/// wait between attempts never leaves [2 s, 60 s], and a connected run has no
/// error on record.
pub proof fn lemma_runs_stay_well_formed(s: RunStateView, events: Seq<RunEvent>)
    requires
        run_wf(s),
    ensures
        run_wf(run_events(s, events)),
    decreases events.len(),
{
    if events.len() > 0 {
        lemma_runs_stay_well_formed(s, events.drop_last());
    }
}

/// A stop request ends any run that has not ended: the status file is
/// cleared, the client stopped if it was connected, and the daemon exits.
pub proof fn lemma_shutdown_ends_the_run(s: RunStateView)
    requires
        s.phase != Phase::Finished,
    ensures
        next_state(s, RunEvent::Shutdown).phase == Phase::Finished,
        next_actions(s, RunEvent::Shutdown).contains(RunAction::ClearStatus),
        next_actions(s, RunEvent::Shutdown).last() == RunAction::Exit,
        (s.phase == Phase::Connected) == next_actions(s, RunEvent::Shutdown).contains(
            RunAction::StopClient,
        ),
{
    let a = next_actions(s, RunEvent::Shutdown);
    if s.phase == Phase::Connected {
        assert(a[0] == RunAction::StopClient);
        assert(a[1] == RunAction::ClearStatus);
    } else {
        assert(a[0] == RunAction::ClearStatus);
        assert(!a.contains(RunAction::StopClient)) by {
            if a.contains(RunAction::StopClient) {
                let i = choose|i: int| 0 <= i < a.len() && a[i] == RunAction::StopClient;
                assert(a[i] == RunAction::StopClient);
            }
        }
    }
}

/// A finished run stays finished and asks for nothing more, whatever happens.
pub proof fn lemma_finished_is_final(s: RunStateView, e: RunEvent)
    requires
        s.phase == Phase::Finished,
    ensures
        next_state(s, e) == s,
        next_actions(s, e).len() == 0,
{
}

/// The status file is only ever removed on a stop request.
pub proof fn lemma_only_shutdown_clears(s: RunStateView, e: RunEvent)
    requires
        next_actions(s, e).contains(RunAction::ClearStatus),
    ensures
        e is Shutdown,
{
    let a = next_actions(s, e);
    let i = choose|i: int| 0 <= i < a.len() && a[i] == RunAction::ClearStatus;
    assert(a[i] == RunAction::ClearStatus);
}

// ---- the backoff -----------------------------------------------------------

/// The wait after the `k+1`-th failed first attempt: two seconds, doubling,
/// never above sixty.
pub open spec fn backoff_after(k: nat) -> nat
    decreases k,
{
    if k == 0 {
        RETRY_MIN_SECS as nat
    } else {
        doubled(backoff_after((k - 1) as nat))
    }
}

/// `backoff_after(k)` is `min(2^(k+1), 60)`.
pub proof fn lemma_backoff_closed_form(k: nat)
    ensures
        backoff_after(k) == if pow2(k + 1) <= RETRY_MAX_SECS {
            pow2(k + 1)
        } else {
            RETRY_MAX_SECS as nat
        },
    decreases k,
{
    lemma_pow2_unfold(k + 1);
    if k == 0 {
        lemma_pow2_unfold(1);
        assert(pow2(0) == 1) by {
            vstd::arithmetic::power::lemma_pow0(2);
            vstd::arithmetic::power2::lemma_pow2(0);
        }
    } else {
        lemma_backoff_closed_form((k - 1) as nat);
        assert((k - 1) as nat + 1 == k);
    }
}

/// First attempts that each failed, with these errors, each followed by its
/// wait running out.
pub open spec fn failed_attempts(errors: Seq<String>) -> Seq<RunEvent>
    decreases errors.len(),
{
    if errors.len() == 0 {
        Seq::<RunEvent>::empty()
    } else {
        failed_attempts(errors.drop_last()) + seq![
            RunEvent::StartFailed { error: errors.last() },
            RunEvent::RetryDue,
        ]
    }
}

/// After `k` failed first attempts the run is attempting again, the last
/// error is on record, and the next failure waits `backoff_after(k)`: the
/// waits go 2, 4, 8, 16, 32, 60, 60, … seconds.
pub proof fn lemma_retries_back_off(errors: Seq<String>, next_error: String)
    ensures
        run_events(initial_state(), failed_attempts(errors)).phase == Phase::Connecting,
        run_events(initial_state(), failed_attempts(errors)).backoff_secs == backoff_after(
            errors.len(),
        ),
        errors.len() > 0 ==> run_events(initial_state(), failed_attempts(errors)).last_error
            == Some(errors.last()@),
        next_actions(
            run_events(initial_state(), failed_attempts(errors)),
            RunEvent::StartFailed { error: next_error },
        ) == seq![
            RunAction::Publish { state: ConnectionState::Connecting },
            RunAction::Wait { secs: backoff_after(errors.len()) as u64 },
        ],
    decreases errors.len(),
{
    if errors.len() > 0 {
        let prev = errors.drop_last();
        lemma_retries_back_off(prev, next_error);
        let a = failed_attempts(prev);
        let f = RunEvent::StartFailed { error: errors.last() };
        let evs = failed_attempts(errors);
        assert(evs == a + seq![f, RunEvent::RetryDue]);
        assert(evs.drop_last() == a + seq![f]);
        assert((a + seq![f]).drop_last() == a);
        assert(run_events(initial_state(), evs.drop_last()) == next_state(
            run_events(initial_state(), a),
            f,
        ));
        lemma_runs_stay_well_formed(initial_state(), a);
        assert(errors.len() as nat - 1 == prev.len());
    }
    lemma_runs_stay_well_formed(initial_state(), failed_attempts(errors));
}

} // verus!
