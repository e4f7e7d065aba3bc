//! The session supervisor: the decisions of the connection lifecycle.
//! The supervisor owns when a device is opened, when the pumps start,
//! what a failure means, and when the process ends. The surrounding
//! process reports each outcome as an event and performs the directive
//! handed back; every decision lives here.
//!
//! Two policies exist. Under `Reconnect` the supervisor never gives up:
//! an open failure means backoff-and-retry, and a device that vanishes
//! mid-session (a write failure, or equally a read failure — one policy,
//! applied uniformly to both) tears the connection down and returns to
//! retrying. Under `Minimal` any device failure is fatal and ends the
//! process with a failure status. Under either policy the one successful
//! exit is the operator's quit command.

use vstd::prelude::*;

verus! {

/// Which lifecycle policy is in force.
#[derive(Clone, Copy, PartialEq, Eq, Structural, Debug)]
pub enum SessionVariant {
    /// Reopen the device after any failure, retrying forever.
    Reconnect,
    /// Any open or device failure is fatal to the whole process.
    Minimal,
}

/// The supervisor's lifecycle states.
#[derive(Clone, Copy, PartialEq, Eq, Structural, Debug)]
pub enum SessionState {
    /// No device connection exists and no attempt is in flight.
    Disconnected,
    /// An open attempt is in flight or about to be retried.
    Connecting,
    /// The device is open; both pumps run against the shared handle.
    Connected,
    /// The process is ending.
    Terminated,
}

/// What the supervisor observes.
#[derive(Clone, Copy, PartialEq, Eq, Structural, Debug)]
pub enum SessionEvent {
    /// Ready for the next open attempt: startup, or a finished teardown
    /// or backoff wait.
    Proceed,
    /// The device opened and was configured.
    OpenOk,
    /// The open attempt failed.
    OpenFailed,
    /// A write to the device failed: the device has vanished.
    WriteFailed,
    /// A device read failed outright (not a timeout): the device has
    /// vanished.
    ReadFailed,
    /// The input pump saw the quit command.
    QuitRequested,
}

/// What the surrounding process must do next.
#[derive(Clone, Copy, PartialEq, Eq, Structural, Debug)]
pub enum SessionAction {
    /// Try to open and configure the device.
    TryOpen,
    /// Make a fresh shared handle and start both pumps on it.
    StartPumps,
    /// Print the offline notice and wait the backoff interval.
    Backoff,
    /// Drop the shared handle, abandoning both pumps.
    TearDown,
    /// End the process successfully, with the farewell message.
    ExitSuccess,
    /// End the process with a non-zero status.
    ExitFailure,
    /// Do nothing: the event does not apply in this state (a stale
    /// failure report from an already-abandoned pump, for instance).
    Ignore,
}

/// The whole transition table. Events that do not apply in a state are
/// ignored, so the function is total and a late failure report from an
/// abandoned pump is harmless.
pub open spec fn spec_step(v: SessionVariant, s: SessionState, e: SessionEvent) -> (SessionState,
    SessionAction) {
    match (s, e) {
        (SessionState::Disconnected, SessionEvent::Proceed) => (
            SessionState::Connecting,
            SessionAction::TryOpen,
        ),
        (SessionState::Connecting, SessionEvent::OpenOk) => (
            SessionState::Connected,
            SessionAction::StartPumps,
        ),
        (SessionState::Connecting, SessionEvent::OpenFailed) => match v {
            SessionVariant::Reconnect => (SessionState::Connecting, SessionAction::Backoff),
            SessionVariant::Minimal => (SessionState::Terminated, SessionAction::ExitFailure),
        },
        (SessionState::Connected, SessionEvent::WriteFailed) => match v {
            SessionVariant::Reconnect => (SessionState::Disconnected, SessionAction::TearDown),
            SessionVariant::Minimal => (SessionState::Terminated, SessionAction::ExitFailure),
        },
        (SessionState::Connected, SessionEvent::ReadFailed) => match v {
            SessionVariant::Reconnect => (SessionState::Disconnected, SessionAction::TearDown),
            SessionVariant::Minimal => (SessionState::Terminated, SessionAction::ExitFailure),
        },
        (SessionState::Connected, SessionEvent::QuitRequested) => (
            SessionState::Terminated,
            SessionAction::ExitSuccess,
        ),
        _ => (s, SessionAction::Ignore),
    }
}

/// One supervisor decision: from the current state and the observed
/// event, the next state and the directive for the surrounding process.
pub fn session_step(v: SessionVariant, s: SessionState, e: SessionEvent) -> (r: (
    SessionState,
    SessionAction,
))
    ensures
        r == spec_step(v, s, e),
{
    match (s, e) {
        (SessionState::Disconnected, SessionEvent::Proceed) => (
            SessionState::Connecting,
            SessionAction::TryOpen,
        ),
        (SessionState::Connecting, SessionEvent::OpenOk) => (
            SessionState::Connected,
            SessionAction::StartPumps,
        ),
        (SessionState::Connecting, SessionEvent::OpenFailed) => match v {
            SessionVariant::Reconnect => (SessionState::Connecting, SessionAction::Backoff),
            SessionVariant::Minimal => (SessionState::Terminated, SessionAction::ExitFailure),
        },
        (SessionState::Connected, SessionEvent::WriteFailed) => match v {
            SessionVariant::Reconnect => (SessionState::Disconnected, SessionAction::TearDown),
            SessionVariant::Minimal => (SessionState::Terminated, SessionAction::ExitFailure),
        },
        (SessionState::Connected, SessionEvent::ReadFailed) => match v {
            SessionVariant::Reconnect => (SessionState::Disconnected, SessionAction::TearDown),
            SessionVariant::Minimal => (SessionState::Terminated, SessionAction::ExitFailure),
        },
        (SessionState::Connected, SessionEvent::QuitRequested) => (
            SessionState::Terminated,
            SessionAction::ExitSuccess,
        ),
        _ => (s, SessionAction::Ignore),
    }
}

/// The state after a whole sequence of events.
pub open spec fn run_session(v: SessionVariant, s: SessionState, events: Seq<SessionEvent>)
    -> SessionState
    decreases events.len(),
{
    if events.len() == 0 {
        s
    } else {
        run_session(v, spec_step(v, s, events.first()).0, events.drop_first())
    }
}

/// The one normal termination path: under either policy, the process
/// ends successfully exactly when the quit command arrives in a
/// connected session — never on any other state or event.
pub proof fn lemma_exit_success_only_on_quit(
    v: SessionVariant,
    s: SessionState,
    e: SessionEvent,
)
    ensures
        (spec_step(v, s, e).1 == SessionAction::ExitSuccess) <==> (s == SessionState::Connected
            && e == SessionEvent::QuitRequested),
{
}

/// Under the reconnect policy a device failure is never fatal: no event
/// ever makes the supervisor exit with a failure status, and the only
/// transition into the terminated state is the quit command.
pub proof fn lemma_reconnect_never_gives_up(s: SessionState, e: SessionEvent)
    ensures
        spec_step(SessionVariant::Reconnect, s, e).1 != SessionAction::ExitFailure,
        spec_step(SessionVariant::Reconnect, s, e).0 == SessionState::Terminated <==> (s
            == SessionState::Terminated || (s == SessionState::Connected && e
            == SessionEvent::QuitRequested)),
{
}

/// Under the reconnect policy the session outlives any run of failures:
/// however the device misbehaves — open failures, vanished devices,
/// stale reports — the supervisor never terminates unless the quit
/// command itself arrives.
pub proof fn lemma_reconnect_survives(s: SessionState, events: Seq<SessionEvent>)
    requires
        s != SessionState::Terminated,
        forall|i: int| 0 <= i < events.len() ==> events[i] != SessionEvent::QuitRequested,
    ensures
        run_session(SessionVariant::Reconnect, s, events) != SessionState::Terminated,
    decreases events.len(),
{
    if events.len() > 0 {
        lemma_reconnect_never_gives_up(s, events.first());
        assert(forall|i: int|
            0 <= i < events.drop_first().len() ==> events.drop_first()[i] == events[i + 1]);
        lemma_reconnect_survives(
            spec_step(SessionVariant::Reconnect, s, events.first()).0,
            events.drop_first(),
        );
    }
}

/// Under the minimal policy a vanished device ends the process: a write
/// failure (or a read failure) in a connected session terminates with a
/// failure status.
pub proof fn lemma_minimal_failure_fatal(e: SessionEvent)
    requires
        e == SessionEvent::WriteFailed || e == SessionEvent::ReadFailed,
    ensures
        spec_step(SessionVariant::Minimal, SessionState::Connected, e) == (
            SessionState::Terminated,
            SessionAction::ExitFailure,
        ),
{
}

} // verus!
