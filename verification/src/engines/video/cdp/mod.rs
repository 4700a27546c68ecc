//! Collectors fed by the Chrome DevTools Protocol.

pub mod media;
pub mod network;
pub mod performance;
pub mod runtime;
