//! The decisions of the service layer: accounts, plans, tasks and the
//! stored video-site cookies.

pub mod auth;
pub mod cookie_crypto;
pub mod plan;
pub mod task;
pub mod video_cookie;
