use vstd::prelude::*;
use crate::error::ErrorKind;

verus! {

/// What reading the persisted session store gave.
#[derive(Clone, Copy, Debug, PartialEq, Eq, Structural)]
pub enum StoredSession {
    /// No session was persisted, or the store could not be read.
    Absent,
    /// A session was persisted but cannot be decoded.
    Malformed,
    /// A session was persisted and decoded.
    Found,
}

/// The phase of a login: the work that is to be done next, or how it ended.
#[derive(Clone, Copy, Debug, PartialEq, Eq, Structural)]
pub enum LoginPhase {
    /// Build the protocol client and open its local stores.
    BuildClient,
    /// Read the persisted session, if there is one.
    ReadSession,
    /// Restore the persisted session into the client.
    Restore,
    /// Authenticate afresh with the supplied credentials.
    Authenticate,
    /// Persist the session that authentication produced.
    Persist,
    /// Start the sync engine and store the handles.
    StartSync,
    /// The session is established.
    Done,
    /// The login failed with the given error.
    Failed(ErrorKind),
}

/// The outcome of the work that a phase asked for.
#[derive(Clone, Copy, Debug)]
pub enum LoginEvent {
    /// The client was built, or why not.
    Built(Result<(), ErrorKind>),
    /// The session store was read.
    SessionRead(StoredSession),
    /// Whether the client accepted the persisted session.
    Restored(bool),
    /// Fresh authentication succeeded, or why not.
    Authenticated(Result<(), ErrorKind>),
    /// The new session was persisted, or why not.
    Persisted(Result<(), ErrorKind>),
    /// The sync engine started and the handles were stored, or why not.
    SyncStarted(Result<(), ErrorKind>),
}

/// Whether a login has ended.
pub open spec fn is_final(phase: LoginPhase) -> bool {
    phase is Done || phase is Failed
}

/// Moving on from a phase that is done or failed: `Ok` leads to `next`, an
/// error ends the login with it.
pub open spec fn proceed(outcome: Result<(), ErrorKind>, next: LoginPhase) -> LoginPhase {
    match outcome {
        Ok(()) => next,
        Err(e) => LoginPhase::Failed(e),
    }
}

/// The next phase of a login, given the outcome of the current one. A
/// persisted session is restored when it can be read and decoded; a session
/// that is absent, or that the client refuses, is replaced by a fresh
/// authentication, whose session is then persisted. Every failure is
/// reported as it came, and an event that does not answer the current phase
/// leaves it as it is.
pub open spec fn login_next(phase: LoginPhase, event: LoginEvent) -> LoginPhase {
    match (phase, event) {
        (LoginPhase::BuildClient, LoginEvent::Built(o)) => proceed(o, LoginPhase::ReadSession),
        (LoginPhase::ReadSession, LoginEvent::SessionRead(s)) => match s {
            StoredSession::Found => LoginPhase::Restore,
            StoredSession::Absent => LoginPhase::Authenticate,
            StoredSession::Malformed => LoginPhase::Failed(ErrorKind::SerializationError),
        },
        (LoginPhase::Restore, LoginEvent::Restored(ok)) => if ok {
            LoginPhase::StartSync
        } else {
            LoginPhase::Authenticate
        },
        (LoginPhase::Authenticate, LoginEvent::Authenticated(o)) => proceed(o, LoginPhase::Persist),
        (LoginPhase::Persist, LoginEvent::Persisted(o)) => proceed(o, LoginPhase::StartSync),
        (LoginPhase::StartSync, LoginEvent::SyncStarted(o)) => proceed(o, LoginPhase::Done),
        _ => phase,
    }
}

/// The phases that a login passes through from `phase` when `events` come in
/// turn, one phase after each event.
pub open spec fn login_trace(phase: LoginPhase, events: Seq<LoginEvent>) -> Seq<LoginPhase>
    decreases events.len(),
{
    if events.len() == 0 {
        Seq::empty()
    } else {
        let next = login_next(phase, events[0]);
        seq![next] + login_trace(next, events.drop_first())
    }
}

fn proceed_exec(outcome: Result<(), ErrorKind>, next: LoginPhase) -> (r: LoginPhase)
    ensures
        r == proceed(outcome, next),
{
    match outcome {
        Ok(()) => next,
        Err(e) => LoginPhase::Failed(e),
    }
}

/// The phase that a login starts in.
pub fn login_start() -> (r: LoginPhase)
    ensures
        r == LoginPhase::BuildClient,
{
    LoginPhase::BuildClient
}

/// Advances a login by one event.
pub fn login_step(phase: LoginPhase, event: LoginEvent) -> (r: LoginPhase)
    ensures
        r == login_next(phase, event),
{
    match (phase, event) {
        (LoginPhase::BuildClient, LoginEvent::Built(o)) => proceed_exec(o, LoginPhase::ReadSession),
        (LoginPhase::ReadSession, LoginEvent::SessionRead(s)) => match s {
            StoredSession::Found => LoginPhase::Restore,
            StoredSession::Absent => LoginPhase::Authenticate,
            StoredSession::Malformed => LoginPhase::Failed(ErrorKind::SerializationError),
        },
        (LoginPhase::Restore, LoginEvent::Restored(ok)) => if ok {
            LoginPhase::StartSync
        } else {
            LoginPhase::Authenticate
        },
        (LoginPhase::Authenticate, LoginEvent::Authenticated(o)) => proceed_exec(o, LoginPhase::Persist),
        (LoginPhase::Persist, LoginEvent::Persisted(o)) => proceed_exec(o, LoginPhase::StartSync),
        (LoginPhase::StartSync, LoginEvent::SyncStarted(o)) => proceed_exec(o, LoginPhase::Done),
        _ => phase,
    }
}

/// Whether a login has ended.
pub fn login_finished(phase: LoginPhase) -> (r: bool)
    ensures
        r == is_final(phase),
{
    match phase {
        LoginPhase::Done | LoginPhase::Failed(_) => true,
        _ => false,
    }
}

} // verus!
