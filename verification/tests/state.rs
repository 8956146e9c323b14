use sonicmix::state::{AppState, StatusResponse};
use sonicmix::tunepat_watcher::WatchError;

fn status(sonic_pi: bool, tunepat_watching: bool, tunepat_path: Option<&str>) -> StatusResponse {
    StatusResponse { sonic_pi, tunepat_watching, tunepat_path: tunepat_path.map(|p| p.to_string()) }
}

#[test]
fn status_at_start_up() {
    assert_eq!(AppState::new().get_status(), status(false, false, None));
}

#[test]
fn sent_code_means_connected() {
    let mut state = AppState::new();
    assert_eq!(state.sonic_pi_run(Ok(())), Ok(true));
    assert_eq!(state.get_status(), status(true, false, None));
}

#[test]
fn unsent_code_means_disconnected() {
    let mut state = AppState::new();
    assert_eq!(state.sonic_pi_run(Ok(())), Ok(true));
    assert_eq!(
        state.sonic_pi_run(Err("Failed to send to Sonic Pi: refused".to_string())),
        Err("Failed to send to Sonic Pi: refused".to_string())
    );
    assert_eq!(state.get_status(), status(false, false, None));
}

#[test]
fn sent_stop_changes_nothing() {
    let mut state = AppState::new();
    assert_eq!(state.sonic_pi_stop(Ok(())), Ok(true));
    assert_eq!(state.get_status(), status(false, false, None));
    assert_eq!(state.sonic_pi_run(Ok(())), Ok(true));
    assert_eq!(state.sonic_pi_stop(Ok(())), Ok(true));
    assert_eq!(state.get_status(), status(true, false, None));
}

#[test]
fn unsent_stop_means_disconnected() {
    let mut state = AppState::new();
    assert_eq!(state.sonic_pi_run(Ok(())), Ok(true));
    assert_eq!(state.sonic_pi_stop(Err("no route".to_string())), Err("no route".to_string()));
    assert_eq!(state.get_status(), status(false, false, None));
}

#[test]
fn watch_shows_in_the_status() {
    let mut state = AppState::new();
    assert_eq!(state.tunepat_start_watching("/music/TunePat".to_string(), true), Ok(true));
    assert_eq!(state.get_status(), status(false, true, Some("/music/TunePat")));
    assert!(state.session().is_watching());
    assert_eq!(state.tunepat_stop_watching(), Ok(true));
    assert_eq!(state.get_status(), status(false, false, Some("/music/TunePat")));
}

#[test]
fn refused_start_leaves_the_status() {
    let mut state = AppState::new();
    assert_eq!(
        state.tunepat_start_watching("/missing".to_string(), false),
        Err(WatchError::PathNotFound)
    );
    assert_eq!(state.get_status(), status(false, false, None));
    assert_eq!(state.tunepat_start_watching("/music/a".to_string(), true), Ok(true));
    assert_eq!(
        state.tunepat_start_watching("/music/b".to_string(), true),
        Err(WatchError::AlreadyWatching)
    );
    assert_eq!(state.get_status(), status(false, true, Some("/music/a")));
}

#[test]
fn failed_observer_shows_as_idle() {
    let mut state = AppState::new();
    assert_eq!(state.sonic_pi_run(Ok(())), Ok(true));
    assert_eq!(state.tunepat_start_watching("/music/a".to_string(), true), Ok(true));
    assert_eq!(state.tunepat_observer_failed(), WatchError::ObserverInitFailure);
    assert_eq!(state.get_status(), status(true, false, Some("/music/a")));
}
