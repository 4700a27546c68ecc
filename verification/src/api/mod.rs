//! The checks that the HTTP handlers make before they touch the database.

pub mod admin;
pub mod auth;
pub mod plan;
pub mod task;
