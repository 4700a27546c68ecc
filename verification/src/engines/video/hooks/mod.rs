//! The scripts injected into a page to report its media activity, and the
//! order in which they go in.

pub mod list;
pub mod media_element;
pub mod media_source;
pub mod mutation;
pub mod network_api;
pub mod page;
