//! What every video event carries: the moment it was seen.

use vstd::prelude::*;
use std::time::Instant;
use crate::clock::instant_now;

verus! {

/// The moment an event was seen.
#[derive(Debug, Clone, Copy)]
pub struct EventMeta {
    pub timestamp: Instant,
}

impl EventMeta {
    /// Stamps an event with the current time. Which moment is read depends
    /// on the clock, so nothing more is claimed.
    pub fn now() -> (r: EventMeta) {
        EventMeta { timestamp: instant_now() }
    }
}

} // verus!
