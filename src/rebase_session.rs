use vstd::prelude::*;

verus! {

/// How long the parent waits for the sequence editor to report ready, in
/// milliseconds.
pub const READY_TIMEOUT_MS: u64 = 5000;

/// Where an interactive rebase driven through the helper editor stands.
#[derive(Clone, Copy, Debug, PartialEq, Eq, Structural)]
pub enum SessionState {
    Start,
    Spawning,
    WaitingReady,
    Editing,
    ShuttingDown,
    WaitingChild,
    Finished,
}

/// Why the rebase was given up.
#[derive(Clone, Copy, Debug, PartialEq, Eq, Structural)]
pub enum SessionError {
    ScriptFailed,
    SpawnFailed,
    ReadyTimeout,
    EditFailed,
    ShutdownFailed,
}

/// What the outside world reports to the session.
#[derive(Clone, Copy, Debug, PartialEq, Eq, Structural)]
pub enum SessionEvent {
    /// the helper script and the shared region were set up, or not
    ScriptReady(bool),
    /// `git rebase -i` was started, or could not be
    Spawned(bool),
    /// the helper reported ready
    Ready,
    /// the helper did not report ready in time
    ReadyTimedOut,
    /// the todo file was read, changed and written back, or not
    Edited(bool),
    /// the helper was told to shut down, or could not be
    ShutdownSignalled(bool),
    /// `git` exited
    ChildExited,
}

/// What the session asks the outside world to do next. `Finish` means:
/// remove the helper script and report the result.
#[derive(Clone, Copy, Debug, PartialEq, Eq, Structural)]
pub enum SessionAction {
    SpawnRebase,
    WaitReady(u64),
    EditTodo,
    SignalShutdown,
    WaitChild,
    Finish(Option<SessionError>),
    Ignore,
}

/// The transition table of the session.
pub open spec fn session_step(s: SessionState, e: SessionEvent) -> (SessionState, SessionAction) {
    match (s, e) {
        (SessionState::Start, SessionEvent::ScriptReady(ok)) => if ok {
            (SessionState::Spawning, SessionAction::SpawnRebase)
        } else {
            (SessionState::Finished, SessionAction::Finish(Some(SessionError::ScriptFailed)))
        },
        (SessionState::Spawning, SessionEvent::Spawned(ok)) => if ok {
            (SessionState::WaitingReady, SessionAction::WaitReady(READY_TIMEOUT_MS))
        } else {
            (SessionState::Finished, SessionAction::Finish(Some(SessionError::SpawnFailed)))
        },
        (SessionState::WaitingReady, SessionEvent::Ready) => (SessionState::Editing, SessionAction::EditTodo),
        (SessionState::WaitingReady, SessionEvent::ReadyTimedOut) => (
            SessionState::Finished,
            SessionAction::Finish(Some(SessionError::ReadyTimeout)),
        ),
        (SessionState::Editing, SessionEvent::Edited(ok)) => if ok {
            (SessionState::ShuttingDown, SessionAction::SignalShutdown)
        } else {
            (SessionState::Finished, SessionAction::Finish(Some(SessionError::EditFailed)))
        },
        (SessionState::ShuttingDown, SessionEvent::ShutdownSignalled(ok)) => if ok {
            (SessionState::WaitingChild, SessionAction::WaitChild)
        } else {
            (SessionState::Finished, SessionAction::Finish(Some(SessionError::ShutdownFailed)))
        },
        (SessionState::WaitingChild, SessionEvent::ChildExited) => (SessionState::Finished, SessionAction::Finish(None)),
        _ => (s, SessionAction::Ignore),
    }
}

/// The parent's side of an interactive rebase with the helper editor:
/// set up, start git, wait for the helper, edit the todo file, release
/// the helper, wait for git; every way out removes the helper script.
#[derive(Clone, Copy, Debug)]
pub struct RebaseSession {
    pub state: SessionState,
}

impl RebaseSession {
    pub fn new() -> (r: Self)
        ensures
            r.state == SessionState::Start,
    {
        RebaseSession { state: SessionState::Start }
    }

    /// Takes one event and says what to do next.
    pub fn on_event(&mut self, e: SessionEvent) -> (a: SessionAction)
        ensures
            (final(self).state, a) == session_step(old(self).state, e),
    {
        let (s, a) = match (self.state, e) {
            (SessionState::Start, SessionEvent::ScriptReady(ok)) => if ok {
                (SessionState::Spawning, SessionAction::SpawnRebase)
            } else {
                (SessionState::Finished, SessionAction::Finish(Some(SessionError::ScriptFailed)))
            },
            (SessionState::Spawning, SessionEvent::Spawned(ok)) => if ok {
                (SessionState::WaitingReady, SessionAction::WaitReady(READY_TIMEOUT_MS))
            } else {
                (SessionState::Finished, SessionAction::Finish(Some(SessionError::SpawnFailed)))
            },
            (SessionState::WaitingReady, SessionEvent::Ready) => (SessionState::Editing, SessionAction::EditTodo),
            (SessionState::WaitingReady, SessionEvent::ReadyTimedOut) => (
                SessionState::Finished,
                SessionAction::Finish(Some(SessionError::ReadyTimeout)),
            ),
            (SessionState::Editing, SessionEvent::Edited(ok)) => if ok {
                (SessionState::ShuttingDown, SessionAction::SignalShutdown)
            } else {
                (SessionState::Finished, SessionAction::Finish(Some(SessionError::EditFailed)))
            },
            (SessionState::ShuttingDown, SessionEvent::ShutdownSignalled(ok)) => if ok {
                (SessionState::WaitingChild, SessionAction::WaitChild)
            } else {
                (SessionState::Finished, SessionAction::Finish(Some(SessionError::ShutdownFailed)))
            },
            (SessionState::WaitingChild, SessionEvent::ChildExited) => (
                SessionState::Finished,
                SessionAction::Finish(None),
            ),
            (st, _) => (st, SessionAction::Ignore),
        };
        self.state = s;
        a
    }
}

impl SessionError {
    /// The message shown to the user.
    pub fn message(&self) -> (r: String)
        ensures
            *self == SessionError::ReadyTimeout ==> r@ == "Waiting for a sequence editor to start failed"@,
            *self == SessionError::ShutdownFailed ==> r@ == "Signaling to editor to shutdown failed"@,
    {
        let lit = match self {
            SessionError::ScriptFailed => "Could not create the sequence editor script",
            SessionError::SpawnFailed => "Could not start git rebase",
            SessionError::ReadyTimeout => "Waiting for a sequence editor to start failed",
            SessionError::EditFailed => "Could not edit the rebase todo file",
            SessionError::ShutdownFailed => "Signaling to editor to shutdown failed",
        };
        lit.to_owned()
    }
}

/// Every way the session ends goes through `Finish`, which removes the
/// helper script: a finished session takes no further event.
pub proof fn lemma_finished_is_final(e: SessionEvent)
    ensures
        session_step(SessionState::Finished, e) == (SessionState::Finished, SessionAction::Ignore),
{
}

/// A helper that does not report ready ends the session with the timeout
/// error, after a wait of `READY_TIMEOUT_MS`.
pub proof fn lemma_ready_timeout()
    ensures
        session_step(SessionState::Spawning, SessionEvent::Spawned(true)) == (
            SessionState::WaitingReady,
            SessionAction::WaitReady(READY_TIMEOUT_MS),
        ),
        session_step(SessionState::WaitingReady, SessionEvent::ReadyTimedOut) == (
            SessionState::Finished,
            SessionAction::Finish(Some(SessionError::ReadyTimeout)),
        ),
{
}

} // verus!
