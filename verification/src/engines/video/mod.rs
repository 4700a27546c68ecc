//! The video-playback probe.

pub mod cdp;
pub mod collector;
pub mod events;
pub mod failure;
pub mod hooks;
pub mod monitor;
pub mod playback;
pub mod players;
pub mod tally;
pub mod watch;
