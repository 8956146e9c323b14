//! The state that the application keeps between commands, and what each
//! command makes of it.

use crate::tunepat_watcher::{
    observer_failed, start_watching, stop_watching, WatchError, WatchSession,
};
use vstd::prelude::*;

verus! {

/// What the application knows between commands: whether Sonic Pi took the
/// last message sent to it, and the watch on the TunePat directory.
#[derive(Debug)]
pub struct AppState {
    sonic_pi_connected: bool,
    watch: WatchSession,
}

/// The answer to a request for the application's status.
#[derive(Clone, Debug, PartialEq, Eq)]
pub struct StatusResponse {
    /// Whether Sonic Pi took the last message sent to it.
    pub sonic_pi: bool,
    /// Whether the TunePat directory is being watched.
    pub tunepat_watching: bool,
    /// The directory that the watch was last started on.
    pub tunepat_path: Option<String>,
}

/// A `StatusResponse` with its path as a sequence of characters.
pub struct StatusView {
    pub sonic_pi: bool,
    pub tunepat_watching: bool,
    pub tunepat_path: Option<Seq<char>>,
}

impl View for StatusResponse {
    type V = StatusView;

    open spec fn view(&self) -> StatusView {
        StatusView {
            sonic_pi: self.sonic_pi,
            tunepat_watching: self.tunepat_watching,
            tunepat_path: self.tunepat_path.deep_view(),
        }
    }
}

impl AppState {
    /// Whether Sonic Pi took the last message sent to it.
    pub closed spec fn sonic_pi_connected(&self) -> bool {
        self.sonic_pi_connected
    }

    /// The watch on the TunePat directory.
    pub closed spec fn watch(&self) -> WatchSession {
        self.watch
    }

    /// The status that a request for it is answered with.
    pub open spec fn status(&self) -> StatusView {
        StatusView {
            sonic_pi: self.sonic_pi_connected(),
            tunepat_watching: self.watch().state() is Watching,
            tunepat_path: self.watch().target(),
        }
    }

    /// The state at start-up: nothing is known of Sonic Pi, and nothing is
    /// watched.
    pub fn new() -> (state: AppState)
        ensures
            !state.sonic_pi_connected(),
            state.watch().state() is Idle,
            state.watch().target() is None,
    {
        AppState { sonic_pi_connected: false, watch: WatchSession::new() }
    }

    /// The watch on the TunePat directory.
    pub fn session(&self) -> (session: &WatchSession)
        ensures
            *session == self.watch(),
    {
        &self.watch
    }

    /// The answer to a request for the application's status.
    pub fn get_status(&self) -> (r: StatusResponse)
        ensures
            r@ == self.status(),
    {
        let tunepat_path = match self.watch.path() {
            Some(path) => Some(String::from_str(path)),
            None => None,
        };
        StatusResponse {
            sonic_pi: self.sonic_pi_connected,
            tunepat_watching: self.watch.is_watching(),
            tunepat_path,
        }
    }

    /// Takes note of how sending code to Sonic Pi went, and answers the
    /// command: Sonic Pi counts as connected exactly where the code was sent.
    pub fn sonic_pi_run(&mut self, sent: Result<(), String>) -> (r: Result<bool, String>)
        ensures
            final(self).watch() == old(self).watch(),
            final(self).sonic_pi_connected() == (sent is Ok),
            match sent {
                Ok(_) => r == Ok::<bool, String>(true),
                Err(reason) => r == Err::<bool, String>(reason),
            },
    {
        match sent {
            Ok(_) => {
                self.sonic_pi_connected = true;
                Ok(true)
            },
            Err(reason) => {
                self.sonic_pi_connected = false;
                Err(reason)
            },
        }
    }

    /// Takes note of how telling Sonic Pi to stop went, and answers the
    /// command: a failure means that Sonic Pi is not connected, a success
    /// changes nothing.
    pub fn sonic_pi_stop(&mut self, sent: Result<(), String>) -> (r: Result<bool, String>)
        ensures
            final(self).watch() == old(self).watch(),
            final(self).sonic_pi_connected() == (sent is Ok && old(self).sonic_pi_connected()),
            match sent {
                Ok(_) => r == Ok::<bool, String>(true),
                Err(reason) => r == Err::<bool, String>(reason),
            },
    {
        match sent {
            Ok(_) => Ok(true),
            Err(reason) => {
                self.sonic_pi_connected = false;
                Err(reason)
            },
        }
    }

    /// Starts the watch on `path`, given whether that directory exists, as
    /// `start_watching` does.
    pub fn tunepat_start_watching(&mut self, path: String, path_exists: bool) -> (r: Result<
        bool,
        WatchError,
    >)
        ensures
            final(self).sonic_pi_connected() == old(self).sonic_pi_connected(),
            old(self).watch().state() is Watching ==> r == Err::<bool, WatchError>(
                WatchError::AlreadyWatching,
            ) && *final(self) == *old(self),
            old(self).watch().state() is Idle && !path_exists ==> r == Err::<bool, WatchError>(
                WatchError::PathNotFound,
            ) && *final(self) == *old(self),
            old(self).watch().state() is Idle && path_exists ==> r == Ok::<bool, WatchError>(true)
                && final(self).watch().state() is Watching && final(self).watch().target() == Some(
                path@,
            ),
    {
        start_watching(&mut self.watch, path, path_exists)
    }

    /// Stops the watch, as `stop_watching` does.
    pub fn tunepat_stop_watching(&mut self) -> (r: Result<bool, WatchError>)
        ensures
            r == Ok::<bool, WatchError>(true),
            final(self).sonic_pi_connected() == old(self).sonic_pi_connected(),
            final(self).watch().state() is Idle,
            final(self).watch().target() == old(self).watch().target(),
            old(self).watch().state() is Idle ==> *final(self) == *old(self),
    {
        stop_watching(&mut self.watch)
    }

    /// Takes back a start for which the file system observer could not be set
    /// up, as `observer_failed` does.
    pub fn tunepat_observer_failed(&mut self) -> (e: WatchError)
        ensures
            e == WatchError::ObserverInitFailure,
            final(self).sonic_pi_connected() == old(self).sonic_pi_connected(),
            final(self).watch().state() is Idle,
            final(self).watch().target() == old(self).watch().target(),
    {
        observer_failed(&mut self.watch)
    }
}

} // verus!
