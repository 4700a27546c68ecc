//! The probes: what each engine is configured with, and the pure parts of
//! their work (which host a probe aims at, how a browser is launched, how
//! media traffic is recognised).

pub mod browser;
pub mod chromium;
pub mod dns;
pub mod download;
pub mod http;
pub mod page_scripts;
pub mod ping;
pub mod video;
