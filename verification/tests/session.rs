use sonicmix::tunepat_watcher::{
    observer_failed, start_watching, stop_watching, ChangeEvent, ChangeKind, WatchError,
    WatchSession,
};

#[test]
fn new_session_is_idle() {
    let session = WatchSession::new();
    assert!(!session.is_watching());
    assert_eq!(session.path(), None);
}

#[test]
fn start_on_existing_directory_watches_it() {
    let mut session = WatchSession::new();
    assert_eq!(start_watching(&mut session, "/music/TunePat".to_string(), true), Ok(true));
    assert!(session.is_watching());
    assert_eq!(session.path(), Some("/music/TunePat"));
}

#[test]
fn start_while_watching_fails_and_keeps_the_session() {
    let mut session = WatchSession::new();
    assert_eq!(start_watching(&mut session, "/music/first".to_string(), true), Ok(true));
    assert_eq!(
        start_watching(&mut session, "/music/second".to_string(), true),
        Err(WatchError::AlreadyWatching)
    );
    assert!(session.is_watching());
    assert_eq!(session.path(), Some("/music/first"));
    assert_eq!(
        start_watching(&mut session, "/music/missing".to_string(), false),
        Err(WatchError::AlreadyWatching)
    );
    assert_eq!(session.path(), Some("/music/first"));
}

#[test]
fn start_on_missing_directory_fails_and_stays_idle() {
    let mut session = WatchSession::new();
    assert_eq!(
        start_watching(&mut session, "/no/such/dir".to_string(), false),
        Err(WatchError::PathNotFound)
    );
    assert!(!session.is_watching());
    assert_eq!(session.path(), None);
}

#[test]
fn stop_while_idle_succeeds() {
    let mut session = WatchSession::new();
    assert_eq!(stop_watching(&mut session), Ok(true));
    assert!(!session.is_watching());
    assert_eq!(stop_watching(&mut session), Ok(true));
    assert!(!session.is_watching());
    assert_eq!(session.path(), None);
}

#[test]
fn stop_ends_the_watch() {
    let mut session = WatchSession::new();
    assert_eq!(start_watching(&mut session, "/music/TunePat".to_string(), true), Ok(true));
    assert_eq!(stop_watching(&mut session), Ok(true));
    assert!(!session.is_watching());
    assert_eq!(session.path(), Some("/music/TunePat"));
}

#[test]
fn watch_can_be_started_again_after_stop() {
    let mut session = WatchSession::new();
    assert_eq!(start_watching(&mut session, "/music/first".to_string(), true), Ok(true));
    assert_eq!(stop_watching(&mut session), Ok(true));
    assert_eq!(start_watching(&mut session, "/music/second".to_string(), true), Ok(true));
    assert!(session.is_watching());
    assert_eq!(session.path(), Some("/music/second"));
}

#[test]
fn failed_observer_leaves_the_session_idle() {
    let mut session = WatchSession::new();
    assert_eq!(start_watching(&mut session, "/music/TunePat".to_string(), true), Ok(true));
    assert_eq!(observer_failed(&mut session), WatchError::ObserverInitFailure);
    assert!(!session.is_watching());
    assert_eq!(start_watching(&mut session, "/music/TunePat".to_string(), true), Ok(true));
}

#[test]
fn stage_publishes_while_watching_and_leaves_when_stopped() {
    let created =
        ChangeEvent { kind: ChangeKind::Create, paths: vec!["/music/TunePat/A - b.mp3".to_string()] };
    let mut session = WatchSession::new();
    assert_eq!(session.handle(&created), None);
    assert_eq!(start_watching(&mut session, "/music/TunePat".to_string(), true), Ok(true));
    let published = session.handle(&created).unwrap();
    assert_eq!(published.len(), 1);
    assert_eq!(published[0].artist, Some("A".to_string()));
    let modified =
        ChangeEvent { kind: ChangeKind::Modify, paths: vec!["/music/TunePat/A - b.mp3".to_string()] };
    assert_eq!(session.handle(&modified), Some(vec![]));
    assert_eq!(stop_watching(&mut session), Ok(true));
    assert_eq!(session.handle(&created), None);
}

#[test]
fn errors_are_described_to_the_user() {
    assert_eq!(WatchError::AlreadyWatching.describe("/music"), "Already watching");
    assert_eq!(WatchError::PathNotFound.describe("/music"), "Directory does not exist: /music");
    assert_eq!(
        WatchError::ObserverInitFailure.describe("/music"),
        "Failed to watch directory: /music"
    );
}
