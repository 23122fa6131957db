use feed_bridge::cancel::CancelCell;
use feed_bridge::client::ClientCell;
use feed_bridge::error::ErrorKind;
use feed_bridge::login::{login_finished, login_start, login_step, LoginEvent, LoginPhase, StoredSession};
use feed_bridge::slot::Slot;

fn run(events: &[LoginEvent]) -> Vec<LoginPhase> {
    let mut phase = login_start();
    let mut trace = Vec::new();
    for e in events {
        phase = login_step(phase, *e);
        trace.push(phase);
    }
    trace
}

#[test]
fn persisted_session_is_restored_without_authentication() {
    let trace = run(&[
        LoginEvent::Built(Ok(())),
        LoginEvent::SessionRead(StoredSession::Found),
        LoginEvent::Restored(true),
        LoginEvent::SyncStarted(Ok(())),
    ]);
    assert_eq!(
        trace,
        vec![LoginPhase::ReadSession, LoginPhase::Restore, LoginPhase::StartSync, LoginPhase::Done]
    );
    assert!(!trace.contains(&LoginPhase::Authenticate));
    assert!(login_finished(*trace.last().unwrap()));
}

#[test]
fn absent_session_authenticates_and_persists() {
    let trace = run(&[
        LoginEvent::Built(Ok(())),
        LoginEvent::SessionRead(StoredSession::Absent),
        LoginEvent::Authenticated(Ok(())),
        LoginEvent::Persisted(Ok(())),
        LoginEvent::SyncStarted(Ok(())),
    ]);
    assert_eq!(
        trace,
        vec![
            LoginPhase::ReadSession,
            LoginPhase::Authenticate,
            LoginPhase::Persist,
            LoginPhase::StartSync,
            LoginPhase::Done
        ]
    );
}

#[test]
fn refused_restore_falls_back_to_authentication() {
    let trace = run(&[
        LoginEvent::Built(Ok(())),
        LoginEvent::SessionRead(StoredSession::Found),
        LoginEvent::Restored(false),
    ]);
    assert_eq!(trace[2], LoginPhase::Authenticate);
    assert!(!login_finished(trace[2]));
}

#[test]
fn malformed_session_fails() {
    let trace = run(&[LoginEvent::Built(Ok(())), LoginEvent::SessionRead(StoredSession::Malformed)]);
    assert_eq!(trace[1], LoginPhase::Failed(ErrorKind::SerializationError));
}

#[test]
fn login_failures_are_surfaced() {
    assert_eq!(
        run(&[LoginEvent::Built(Err(ErrorKind::ClientBuildError))]),
        vec![LoginPhase::Failed(ErrorKind::ClientBuildError)]
    );
    let trace = run(&[
        LoginEvent::Built(Ok(())),
        LoginEvent::SessionRead(StoredSession::Absent),
        LoginEvent::Authenticated(Err(ErrorKind::ProtocolError)),
    ]);
    assert_eq!(trace[2], LoginPhase::Failed(ErrorKind::ProtocolError));
    let trace = run(&[
        LoginEvent::Built(Ok(())),
        LoginEvent::SessionRead(StoredSession::Absent),
        LoginEvent::Authenticated(Ok(())),
        LoginEvent::Persisted(Err(ErrorKind::IoError)),
    ]);
    assert_eq!(trace[3], LoginPhase::Failed(ErrorKind::IoError));
    assert_eq!(
        login_step(LoginPhase::StartSync, LoginEvent::SyncStarted(Err(ErrorKind::ProtocolError))),
        LoginPhase::Failed(ErrorKind::ProtocolError)
    );
}

#[test]
fn unexpected_event_keeps_phase() {
    assert_eq!(login_step(LoginPhase::Restore, LoginEvent::Built(Ok(()))), LoginPhase::Restore);
    assert_eq!(login_step(LoginPhase::Done, LoginEvent::Restored(false)), LoginPhase::Done);
}

#[test]
fn second_login_is_refused() {
    let mut cell: ClientCell<&str, &str> = ClientCell::new();
    assert!(!cell.is_logged_in());
    assert_eq!(cell.check_can_login(), Ok(()));
    assert_eq!(cell.install("client", "engine"), Ok(()));
    assert!(cell.is_logged_in());
    assert_eq!(cell.check_can_login(), Err(ErrorKind::AlreadyLoggedIn));
    assert_eq!(cell.install("other", "other"), Err(ErrorKind::AlreadyLoggedIn));
    assert_eq!(cell.engine_ref(), Ok(&"engine"));
}

#[test]
fn engine_without_session_is_not_found() {
    let cell: ClientCell<&str, &str> = ClientCell::new();
    assert_eq!(cell.engine_ref(), Err(ErrorKind::NotFound));
}

#[test]
fn reset_twice_succeeds_and_leaves_slots_empty() {
    let mut client: ClientCell<&str, &str> = ClientCell::new();
    client.install("client", "engine").unwrap();
    let mut timeline: Slot<&str> = Slot::new();
    timeline.subscribe(Ok("room1")).unwrap();
    let mut roomlist: Slot<&str> = Slot::new();
    roomlist.subscribe(Ok("rooms")).unwrap();
    let mut timeline_cancel: CancelCell<u8> = CancelCell::new();
    let mut roomlist_cancel: CancelCell<u8> = CancelCell::new();
    timeline.begin_poll(&mut timeline_cancel, 1).unwrap();

    // first reset
    assert_eq!(timeline_cancel.close(), Some(1));
    timeline.unsubscribe(&mut timeline_cancel);
    assert_eq!(roomlist_cancel.close(), None);
    roomlist.unsubscribe(&mut roomlist_cancel);
    let t = client.teardown();
    assert_eq!(t.engine, Some("engine"));
    assert_eq!(t.client, Some("client"));

    // second reset: nothing to interrupt, nothing to stop
    assert_eq!(timeline_cancel.close(), None);
    timeline.unsubscribe(&mut timeline_cancel);
    assert_eq!(roomlist_cancel.close(), None);
    roomlist.unsubscribe(&mut roomlist_cancel);
    let t = client.teardown();
    assert_eq!(t.engine, None);
    assert_eq!(t.client, None);

    assert!(!timeline.is_subscribed());
    assert!(!roomlist.is_subscribed());
    assert!(!client.is_logged_in());
    assert!(!timeline_cancel.is_closing());
    assert!(!roomlist_cancel.is_closing());
}
