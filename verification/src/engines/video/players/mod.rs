//! The player adapters: per platform, how to find the video element and
//! how to start it.

pub mod bilibili;
pub mod generic;
pub mod common;
pub mod youtube;

pub use common::{strings_of, texts, PlayerInfo};
