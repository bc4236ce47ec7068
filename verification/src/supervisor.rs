//! Connection supervisor: the authenticate/reconnect state machine with
//! exponential backoff.
//!
//! The supervisor owns the connection lifecycle. The surrounding runtime
//! performs each returned action (connect, ask for a code, persist the
//! session, run the pipeline, sleep) and reports the outcome back as the
//! next event; the supervisor only decides. It retries indefinitely: no
//! failure is fatal.

use vstd::prelude::*;

verus! {

/// The exponent of the backoff delay is capped here, so the delay never
/// exceeds 2^7 = 128 seconds.
pub const BACKOFF_EXPONENT_CAP: u32 = 7;

/// The connection lifecycle states.
#[derive(Clone, Copy, Debug, PartialEq, Eq, Structural)]
pub enum ConnectionState {
    Disconnected,
    Authenticating,
    AwaitingConfirmationCode,
    Authenticated,
    Running,
    /// Waiting out a backoff delay; `attempt` is the number of consecutive
    /// failures seen since the last reset.
    Backoff { attempt: u32 },
}

/// Outcomes that the runtime reports back to the supervisor.
#[derive(Clone, Copy, Debug, PartialEq, Eq, Structural)]
pub enum ConnectionEvent {
    /// The process asked the supervisor to start.
    StartRequested,
    /// A session was established; `already_authorized` tells whether the
    /// resumed session needs no confirmation code.
    Connected { already_authorized: bool },
    /// The confirmation code was accepted by the backend.
    CodeAccepted,
    /// The session token was written to durable storage.
    SessionPersisted,
    /// Connecting, signing in, persisting, or the running pipeline failed.
    AttemptFailed,
    /// The backoff delay has elapsed.
    BackoffElapsed,
}

/// What the runtime must do next.
#[derive(Clone, Copy, Debug, PartialEq, Eq, Structural)]
pub enum SupervisorAction {
    /// Establish a session and check authorization.
    Connect,
    /// Ask the interactive provider for a confirmation code and submit it.
    RequestCode,
    /// Persist the session token to durable storage.
    PersistSession,
    /// Provision the output channel and run the forwarding pipeline.
    StartPipeline,
    /// Sleep for the given number of seconds, then report `BackoffElapsed`.
    Sleep { seconds: u64 },
    /// The event did not apply to the current state; do nothing.
    Ignore,
}

/// The supervisor: current state plus the count of consecutive failures
/// since the last successful transition into `Running`.
pub struct ConnectionSupervisor {
    pub state: ConnectionState,
    pub failures: u32,
}

/// 2^k.
pub open spec fn pow2(k: nat) -> nat
    decreases k,
{
    if k == 0 {
        1
    } else {
        2 * pow2((k - 1) as nat)
    }
}

/// The powers of two up to the capped exponent, written out so they unfold.
proof fn lemma_pow2_small()
    ensures
        pow2(6) == 64,
        pow2(7) == 128,
{
    assert(pow2(0nat) == 1);
    assert(pow2(1nat) == 2);
    assert(pow2(2nat) == 4);
    assert(pow2(3nat) == 8);
    assert(pow2(4nat) == 16);
    assert(pow2(5nat) == 32);
    assert(pow2(6nat) == 64);
    assert(pow2(7nat) == 128);
}

/// 2^a <= 2^b when a <= b.
proof fn lemma_pow2_monotone(a: nat, b: nat)
    requires
        a <= b,
    ensures
        pow2(a) <= pow2(b),
    decreases b,
{
    if a < b && b > 0 {
        lemma_pow2_monotone(a, (b - 1) as nat);
    }
}

/// The backoff delay in seconds after `failures` consecutive failures: 2^k
/// seconds for the k-th failure, with the exponent capped at 7.
pub open spec fn spec_backoff_delay(failures: u32) -> nat {
    if failures > BACKOFF_EXPONENT_CAP {
        pow2(BACKOFF_EXPONENT_CAP as nat)
    } else {
        pow2(failures as nat)
    }
}

/// The failure counter after one more failure; it saturates instead of
/// wrapping (the delay is already at its cap long before that).
pub open spec fn spec_next_failures(failures: u32) -> u32 {
    if failures < 0xFFFF_FFFFu32 {
        (failures + 1) as u32
    } else {
        failures
    }
}

/// Whether an event reports the failure of the current attempt in a state
/// where an attempt is under way.
pub open spec fn spec_is_failure(s: ConnectionState, e: ConnectionEvent) -> bool {
    &&& e == ConnectionEvent::AttemptFailed
    &&& (s == ConnectionState::Authenticating || s == ConnectionState::AwaitingConfirmationCode
        || s == ConnectionState::Authenticated || s == ConnectionState::Running)
}

/// The full transition relation of the supervisor, as a function from the
/// current supervisor and an event to the next supervisor and the action the
/// runtime must perform.
pub open spec fn spec_step(s: ConnectionSupervisor, e: ConnectionEvent) -> (
    ConnectionSupervisor,
    SupervisorAction,
) {
    if spec_is_failure(s.state, e) {
        (
            ConnectionSupervisor {
                state: ConnectionState::Backoff { attempt: spec_next_failures(s.failures) },
                failures: spec_next_failures(s.failures),
            },
            SupervisorAction::Sleep { seconds: spec_backoff_delay(s.failures) as u64 },
        )
    } else {
        match (s.state, e) {
            (ConnectionState::Disconnected, ConnectionEvent::StartRequested) => (
                ConnectionSupervisor { state: ConnectionState::Authenticating, failures: s.failures },
                SupervisorAction::Connect,
            ),
            (
                ConnectionState::Authenticating,
                ConnectionEvent::Connected { already_authorized: true },
            ) => (
                ConnectionSupervisor { state: ConnectionState::Authenticated, failures: s.failures },
                SupervisorAction::PersistSession,
            ),
            (
                ConnectionState::Authenticating,
                ConnectionEvent::Connected { already_authorized: false },
            ) => (
                ConnectionSupervisor {
                    state: ConnectionState::AwaitingConfirmationCode,
                    failures: s.failures,
                },
                SupervisorAction::RequestCode,
            ),
            (ConnectionState::AwaitingConfirmationCode, ConnectionEvent::CodeAccepted) => (
                ConnectionSupervisor { state: ConnectionState::Authenticated, failures: s.failures },
                SupervisorAction::PersistSession,
            ),
            (ConnectionState::Authenticated, ConnectionEvent::SessionPersisted) => (
                ConnectionSupervisor { state: ConnectionState::Running, failures: 0 },
                SupervisorAction::StartPipeline,
            ),
            (ConnectionState::Backoff { attempt }, ConnectionEvent::BackoffElapsed) => (
                ConnectionSupervisor { state: ConnectionState::Authenticating, failures: s.failures },
                SupervisorAction::Connect,
            ),
            _ => (s, SupervisorAction::Ignore),
        }
    }
}

impl ConnectionSupervisor {
    /// A fresh supervisor: disconnected, with no failures on record.
    pub fn new() -> (s: Self)
        ensures
            s.state == ConnectionState::Disconnected,
            s.failures == 0,
    {
        ConnectionSupervisor { state: ConnectionState::Disconnected, failures: 0 }
    }

    /// Feeds one event to the supervisor and returns the action the runtime
    /// must perform next. The transition taken is exactly `spec_step`; in
    /// particular a failure in `Running` or during authentication moves to
    /// `Backoff` with a `Sleep` of 2^k seconds for the k-th consecutive
    /// failure (exponent capped at 7), and a successful transition into
    /// `Running` resets the failure count to zero.
    pub fn step(&mut self, e: ConnectionEvent) -> (a: SupervisorAction)
        ensures
            (*final(self), a) == spec_step(*old(self), e),
    {
        if self.is_failure_event(e) {
            let delay = backoff_delay_seconds(self.failures);
            let next = if self.failures < 0xFFFF_FFFFu32 {
                self.failures + 1
            } else {
                self.failures
            };
            self.failures = next;
            self.state = ConnectionState::Backoff { attempt: next };
            return SupervisorAction::Sleep { seconds: delay };
        }
        match (self.state, e) {
            (ConnectionState::Disconnected, ConnectionEvent::StartRequested) => {
                self.state = ConnectionState::Authenticating;
                SupervisorAction::Connect
            },
            (ConnectionState::Authenticating, ConnectionEvent::Connected { already_authorized }) => {
                if already_authorized {
                    self.state = ConnectionState::Authenticated;
                    SupervisorAction::PersistSession
                } else {
                    self.state = ConnectionState::AwaitingConfirmationCode;
                    SupervisorAction::RequestCode
                }
            },
            (ConnectionState::AwaitingConfirmationCode, ConnectionEvent::CodeAccepted) => {
                self.state = ConnectionState::Authenticated;
                SupervisorAction::PersistSession
            },
            (ConnectionState::Authenticated, ConnectionEvent::SessionPersisted) => {
                self.state = ConnectionState::Running;
                self.failures = 0;
                SupervisorAction::StartPipeline
            },
            (ConnectionState::Backoff { attempt: _ }, ConnectionEvent::BackoffElapsed) => {
                self.state = ConnectionState::Authenticating;
                SupervisorAction::Connect
            },
            _ => SupervisorAction::Ignore,
        }
    }

    /// Whether `e` reports a failure of the attempt under way.
    fn is_failure_event(&self, e: ConnectionEvent) -> (r: bool)
        ensures
            r == spec_is_failure(self.state, e),
    {
        e == ConnectionEvent::AttemptFailed && (self.state == ConnectionState::Authenticating
            || self.state == ConnectionState::AwaitingConfirmationCode || self.state
            == ConnectionState::Authenticated || self.state == ConnectionState::Running)
    }
}

/// The delay in seconds before the next attempt, after `failures` consecutive
/// failures: 2^failures seconds, with the exponent capped at 7, so at most
/// 128 seconds.
pub fn backoff_delay_seconds(failures: u32) -> (r: u64)
    ensures
        r == spec_backoff_delay(failures),
        r <= 128,
{
    let e: u32 = if failures > BACKOFF_EXPONENT_CAP {
        BACKOFF_EXPONENT_CAP
    } else {
        failures
    };
    let mut d: u64 = 1;
    let mut i: u32 = 0;
    while i < e
        invariant
            i <= e <= 7,
            d == pow2(i as nat),
        decreases e - i,
    {
        proof {
            lemma_pow2_small();
            lemma_pow2_monotone(i as nat, 6nat);
        }
        d = d * 2;
        i = i + 1;
    }
    proof {
        lemma_pow2_small();
        lemma_pow2_monotone(e as nat, 7nat);
    }
    d
}

/// The supervisor after `k` failure/backoff cycles: each cycle is one
/// `AttemptFailed` event followed by one `BackoffElapsed` event.
pub open spec fn spec_after_failures(s: ConnectionSupervisor, k: nat) -> ConnectionSupervisor
    decreases k,
{
    if k == 0 {
        s
    } else {
        let prev = spec_after_failures(s, (k - 1) as nat);
        let failed = spec_step(prev, ConnectionEvent::AttemptFailed).0;
        spec_step(failed, ConnectionEvent::BackoffElapsed).0
    }
}

/// Backoff schedule law: starting from a supervisor that has just entered
/// `Running` (failure count reset to zero), the k-th consecutive failure
/// (counted from zero) is answered with a sleep of exactly 2^k seconds while
/// k is at most 7, and of 128 seconds beyond that; and a success — the
/// transition into `Running` — resets the count to zero.
pub proof fn lemma_backoff_schedule(s: ConnectionSupervisor, k: nat)
    requires
        s.state == ConnectionState::Running,
        s.failures == 0,
        k < 0xFFFF_FFFF,
    ensures
        spec_after_failures(s, k).failures == k,
        spec_step(spec_after_failures(s, k), ConnectionEvent::AttemptFailed).1
            == (SupervisorAction::Sleep {
            seconds: if k <= 7 {
                pow2(k) as u64
            } else {
                128u64
            },
        }),
    decreases k,
{
    if k == 0 {
        assert(pow2(0nat) == 1);
        assert(spec_backoff_delay(0u32) == 1nat);
    } else {
        lemma_backoff_schedule(s, (k - 1) as nat);
        let prev = spec_after_failures(s, (k - 1) as nat);
        assert(prev.failures == k - 1);
        let failed = spec_step(prev, ConnectionEvent::AttemptFailed).0;
        assert(failed.failures == k);
        assert(spec_after_failures(s, k).failures == k);
        if k <= 7 {
            assert(spec_backoff_delay(k as u32) == pow2(k));
        } else {
            assert(spec_backoff_delay(k as u32) == pow2(7nat));
            lemma_pow2_small();
        }
    }
}

/// Reset law: whatever the failure count, the successful transition into
/// `Running` sets it back to zero.
pub proof fn lemma_success_resets_failures(s: ConnectionSupervisor)
    requires
        s.state == ConnectionState::Authenticated,
    ensures
        spec_step(s, ConnectionEvent::SessionPersisted).0.failures == 0,
        spec_step(s, ConnectionEvent::SessionPersisted).0.state == ConnectionState::Running,
{
}

} // verus!
