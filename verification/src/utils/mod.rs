//! Request throttling and error answers.

pub mod ratelimit;
pub mod response;
