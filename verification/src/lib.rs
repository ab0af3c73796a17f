//! Core of a wallpaper-rotation daemon: the typed command codec for the
//! local command endpoint, the shutdown-propagation latch shared by the
//! background tasks, and the rotation cache that tracks the candidate
//! wallpaper files and the current position.
//!
//! The surrounding process (argument parsing, daemonization, the named
//! pipe, the timers and the external wallpaper-setting tool) lives outside
//! this crate and drives the functions here.

pub mod client;
mod consts;
pub mod daemon;
pub mod shutdown;
pub mod signals;
pub mod wallpaper_changer;

pub use consts::CACHE_STORE_TTL;
pub use consts::REFRESH_INTERVAL_IN_SECS;
