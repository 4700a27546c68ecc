//! The download probe: its request timeout and how long it keeps reading.

use vstd::prelude::*;
use core::time::Duration;

verus! {

/// How many seconds a download test reads before it stops.
pub const MAX_DOWNLOAD_SECS: u64 = 15;

/// The download engine: the request timeout, and the longest it reads the
/// body (in seconds).
pub struct DownloadEngine {
    timeout: Duration,
    max_duration_secs: u64,
}

impl DownloadEngine {
    /// The request timeout the engine was made with.
    pub closed spec fn request_timeout(&self) -> Duration {
        self.timeout
    }

    /// The longest the engine reads a body, in seconds.
    pub closed spec fn read_limit_secs(&self) -> u64 {
        self.max_duration_secs
    }

    /// A download engine with the given request timeout; it reads for at
    /// most fifteen seconds.
    pub fn new(timeout: Duration) -> (r: DownloadEngine)
        ensures
            r.request_timeout() == timeout,
            r.read_limit_secs() == MAX_DOWNLOAD_SECS,
    {
        DownloadEngine { timeout, max_duration_secs: MAX_DOWNLOAD_SECS }
    }

    /// The request timeout.
    pub fn timeout(&self) -> (r: Duration)
        ensures
            r == self.request_timeout(),
    {
        self.timeout
    }

    /// The longest the engine reads a body, in seconds.
    pub fn max_duration_secs(&self) -> (r: u64)
        ensures
            r == self.read_limit_secs(),
    {
        self.max_duration_secs
    }
}

} // verus!
