//! The page-load probe: the browser settings and timeout it runs with.

use vstd::prelude::*;
use core::time::Duration;
use crate::config::BrowserConfig;

verus! {

/// The browser engine: which Chromium to launch and how long a page may
/// take.
pub struct BrowserEngine {
    chrome_config: BrowserConfig,
    timeout: Duration,
}

impl BrowserEngine {
    /// The Chromium settings the engine was made with.
    pub closed spec fn settings(&self) -> BrowserConfig {
        self.chrome_config
    }

    /// The page timeout the engine was made with.
    pub closed spec fn page_timeout(&self) -> Duration {
        self.timeout
    }

    /// A browser engine with the given settings.
    pub fn new(chrome_config: BrowserConfig, timeout: Duration) -> (r: BrowserEngine)
        ensures
            r.settings() == chrome_config,
            r.page_timeout() == timeout,
    {
        BrowserEngine { chrome_config, timeout }
    }

    /// The Chromium settings the engine launches with.
    pub fn chrome_config(&self) -> (r: &BrowserConfig)
        ensures
            *r == self.settings(),
    {
        &self.chrome_config
    }

    /// How long a page may take.
    pub fn timeout(&self) -> (r: Duration)
        ensures
            r == self.page_timeout(),
    {
        self.timeout
    }
}

} // verus!
