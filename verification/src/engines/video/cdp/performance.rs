//! The performance-metrics collector.

use vstd::prelude::*;

verus! {

/// Receives the page's performance metrics; it keeps none of them yet.
pub struct PerformanceCollector;

impl PerformanceCollector {
    /// A new collector.
    pub fn new() -> (r: PerformanceCollector)
        ensures
            r == PerformanceCollector,
    {
        PerformanceCollector
    }
}

} // verus!
