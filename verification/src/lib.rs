//! The logic behind the SonicMix desktop companion: what a newly created file
//! means for the track library, which datagrams drive Sonic Pi, how the
//! downloader is invoked and read, and what an update check amounts to.
//!
//! Nothing here touches a socket, a process or the file system. Callers do
//! that work and hand in what they found as plain values.

pub mod downloader;
pub mod probe;
pub mod sonic_pi;
pub mod state;
pub mod std_specs;
pub mod text;
pub mod tunepat_watcher;
pub mod updater;
