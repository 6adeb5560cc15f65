//! The lifecycle of one client session: a backend is acquired from the
//! pool, connected to, relayed to, and then given back; a failure at any
//! step ends the session.
//!
//! The caller performs each action and feeds its outcome back in.
use vstd::prelude::*;

verus! {

/// Where a session stands.
#[derive(Clone, Copy, Debug, PartialEq, Eq, Structural)]
pub enum SessionState {
    /// Waiting for the pool to hand out a backend.
    Acquiring,
    /// Waiting for a connection to the backend.
    Connecting,
    /// Relaying between the client and the backend.
    Relaying,
    /// Giving the backend back to the pool.
    Releasing,
    /// Over, with every resource released.
    Done,
    /// Over, after a failure.
    Failed,
}

/// The outcome of the action the session asked for.
#[derive(Clone, Copy, Debug, PartialEq, Eq, Structural)]
pub enum SessionEvent {
    /// The pool handed out a backend.
    Acquired,
    /// The pool could not hand out a backend.
    AcquireFailed,
    /// A connection to the backend is open.
    Connected,
    /// No connection to the backend could be made.
    ConnectFailed,
    /// Both directions of the relay have ended.
    RelayFinished,
    /// The backend is back in the pool.
    Released,
}

/// The action a session asks for next.
#[derive(Clone, Copy, Debug, PartialEq, Eq, Structural)]
pub enum SessionAction {
    /// Connect to the backend that was handed out.
    ConnectBackend,
    /// Relay between the client and the backend, both directions at once.
    StartRelay,
    /// Give the backend back to the pool, which checks it before reuse.
    ReturnBackend,
    /// Close the client's connection; no backend is held.
    CloseClient,
    /// Close the client's connection and destroy the backend without giving
    /// it back to the pool.
    DiscardBackend,
    /// Nothing: the event did not fit the state, or the session is over.
    Nothing,
}

/// One step of a session: the state after `e`, and what to do next.
pub open spec fn session_step(s: SessionState, e: SessionEvent) -> (SessionState, SessionAction) {
    match (s, e) {
        (SessionState::Acquiring, SessionEvent::Acquired) => (
            SessionState::Connecting,
            SessionAction::ConnectBackend,
        ),
        (SessionState::Acquiring, SessionEvent::AcquireFailed) => (
            SessionState::Failed,
            SessionAction::CloseClient,
        ),
        (SessionState::Connecting, SessionEvent::Connected) => (
            SessionState::Relaying,
            SessionAction::StartRelay,
        ),
        (SessionState::Connecting, SessionEvent::ConnectFailed) => (
            SessionState::Failed,
            SessionAction::DiscardBackend,
        ),
        (SessionState::Relaying, SessionEvent::RelayFinished) => (
            SessionState::Releasing,
            SessionAction::ReturnBackend,
        ),
        (SessionState::Releasing, SessionEvent::Released) => (
            SessionState::Done,
            SessionAction::Nothing,
        ),
        _ => (s, SessionAction::Nothing),
    }
}

/// One client session.
pub struct Session {
    state: SessionState,
}

impl View for Session {
    type V = SessionState;

    closed spec fn view(&self) -> SessionState {
        self.state
    }
}

impl Session {
    /// A session that starts by asking the pool for a backend.
    pub fn new() -> (r: Session)
        ensures
            r@ == SessionState::Acquiring,
    {
        Session { state: SessionState::Acquiring }
    }

    pub fn state(&self) -> (r: SessionState)
        ensures
            r == self@,
    {
        self.state
    }

    /// Whether the session is over, one way or the other.
    pub fn is_over(&self) -> (r: bool)
        ensures
            r == (self@ == SessionState::Done || self@ == SessionState::Failed),
    {
        match self.state {
            SessionState::Done | SessionState::Failed => true,
            _ => false,
        }
    }

    /// Takes in the outcome of the last action and says what to do next.
    pub fn advance(&mut self, e: SessionEvent) -> (a: SessionAction)
        ensures
            (final(self)@, a) == session_step(old(self)@, e),
    {
        let (s, a) = match (self.state, e) {
            (SessionState::Acquiring, SessionEvent::Acquired) => (
                SessionState::Connecting,
                SessionAction::ConnectBackend,
            ),
            (SessionState::Acquiring, SessionEvent::AcquireFailed) => (
                SessionState::Failed,
                SessionAction::CloseClient,
            ),
            (SessionState::Connecting, SessionEvent::Connected) => (
                SessionState::Relaying,
                SessionAction::StartRelay,
            ),
            (SessionState::Connecting, SessionEvent::ConnectFailed) => (
                SessionState::Failed,
                SessionAction::DiscardBackend,
            ),
            (SessionState::Relaying, SessionEvent::RelayFinished) => (
                SessionState::Releasing,
                SessionAction::ReturnBackend,
            ),
            (SessionState::Releasing, SessionEvent::Released) => (
                SessionState::Done,
                SessionAction::Nothing,
            ),
            _ => (self.state, SessionAction::Nothing),
        };
        self.state = s;
        a
    }
}

/// The state after a run of events from `s`, and the actions asked for on
/// the way, one for each event.
pub open spec fn session_replay(s: SessionState, events: Seq<SessionEvent>) -> (
    SessionState,
    Seq<SessionAction>,
)
    decreases events.len(),
{
    if events.len() == 0 {
        (s, Seq::empty())
    } else {
        let (q, a) = session_step(s, events[0]);
        let (f, rest) = session_replay(q, events.drop_first());
        (f, seq![a] + rest)
    }
}

/// An action that lets go of the backend: back to the pool, or destroyed.
pub open spec fn lets_go(a: SessionAction) -> bool {
    a == SessionAction::ReturnBackend || a == SessionAction::DiscardBackend
}

/// How many of `actions` let go of the backend.
pub open spec fn let_go_count(actions: Seq<SessionAction>) -> nat
    decreases actions.len(),
{
    if actions.len() == 0 {
        0
    } else {
        (if lets_go(actions[0]) {
            1nat
        } else {
            0nat
        }) + let_go_count(actions.drop_first())
    }
}

/// Whether a session in state `s` may still hold a backend it has to let go of.
pub open spec fn holds_backend(s: SessionState) -> nat {
    match s {
        SessionState::Acquiring | SessionState::Connecting | SessionState::Relaying => 1,
        _ => 0,
    }
}

proof fn lemma_let_go_bounded(s: SessionState, events: Seq<SessionEvent>)
    ensures
        let_go_count(session_replay(s, events).1) <= holds_backend(s),
    decreases events.len(),
{
    if events.len() > 0 {
        let (q, a) = session_step(s, events[0]);
        lemma_let_go_bounded(q, events.drop_first());
        let (f, rest) = session_replay(q, events.drop_first());
        let acts = session_replay(s, events).1;
        assert(acts == seq![a] + rest);
        assert(acts.drop_first() =~= rest);
        assert(acts[0] == a);
    }
}

/// Whatever happens to a session, it lets go of its backend at most once:
/// the backend is either given back to the pool or destroyed, never both and
/// never twice.
pub proof fn lemma_backend_let_go_at_most_once(events: Seq<SessionEvent>)
    ensures
        let_go_count(session_replay(SessionState::Acquiring, events).1) <= 1,
{
    lemma_let_go_bounded(SessionState::Acquiring, events);
}

} // verus!
