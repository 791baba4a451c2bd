use gitui::rebase_session::{RebaseSession, SessionAction, SessionError, SessionEvent, SessionState, READY_TIMEOUT_MS};

#[test]
fn editor_that_never_starts_times_out() {
    let mut s = RebaseSession::new();
    assert_eq!(s.on_event(SessionEvent::ScriptReady(true)), SessionAction::SpawnRebase);
    assert_eq!(s.on_event(SessionEvent::Spawned(true)), SessionAction::WaitReady(READY_TIMEOUT_MS));
    assert_eq!(READY_TIMEOUT_MS, 5000);
    let a = s.on_event(SessionEvent::ReadyTimedOut);
    assert_eq!(a, SessionAction::Finish(Some(SessionError::ReadyTimeout)));
    assert_eq!(SessionError::ReadyTimeout.message(), "Waiting for a sequence editor to start failed");
    assert!(s.state == SessionState::Finished);
    assert_eq!(s.on_event(SessionEvent::ChildExited), SessionAction::Ignore);
}

#[test]
fn full_session() {
    let mut s = RebaseSession::new();
    s.on_event(SessionEvent::ScriptReady(true));
    s.on_event(SessionEvent::Spawned(true));
    assert_eq!(s.on_event(SessionEvent::Ready), SessionAction::EditTodo);
    assert_eq!(s.on_event(SessionEvent::Edited(true)), SessionAction::SignalShutdown);
    assert_eq!(s.on_event(SessionEvent::ShutdownSignalled(true)), SessionAction::WaitChild);
    assert_eq!(s.on_event(SessionEvent::ChildExited), SessionAction::Finish(None));
    let mut f = RebaseSession::new();
    assert_eq!(f.on_event(SessionEvent::Ready), SessionAction::Ignore);
    assert_eq!(f.on_event(SessionEvent::ScriptReady(false)), SessionAction::Finish(Some(SessionError::ScriptFailed)));
}
