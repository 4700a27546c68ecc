//! Verified core of the NetPulse network-quality testing backend.

pub mod text;
pub mod clock;
pub mod api;
pub mod ipparse;
pub mod netaddr;
pub mod urlcheck;
pub mod hosts;
pub mod jsonlist;
pub mod ordered;
pub mod engines;
pub mod config;
pub mod models;
pub mod services;
pub mod storage;
pub mod utils;
pub mod worker;
