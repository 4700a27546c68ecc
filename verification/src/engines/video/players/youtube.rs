//! The YouTube player.

use vstd::prelude::*;
use crate::text::{chars_of, contains_seq, contains_str, string_of, to_lowercase, unicode_lowercase};
use super::{strings_of, texts};

verus! {

/// The play script.
pub const YOUTUBE_PLAY_JS: &'static str = r#"
        (function(){
            var v = document.querySelector('video.html5-main-video');
            if (v) {
                try { v.muted = true; v.play().catch(function(){}); } catch(e){}
            }
            var btn = document.querySelector('.ytp-play-button');
            if (btn) { try { btn.click(); } catch(e){} }
        })()
        "#;

pub struct YoutubeAdapter;

impl YoutubeAdapter {
    pub fn new() -> (r: YoutubeAdapter)
        ensures
            r == YoutubeAdapter,
    {
        YoutubeAdapter
    }

    /// The platform name.
    pub fn name(&self) -> (r: &'static str)
        ensures
            r@ == "youtube"@,
    {
        "youtube"
    }

    /// The page is on this platform: its lower-cased URL names one of the
    /// platform's hosts.
    pub fn detects_url(&self, url: &str) -> (r: bool)
        ensures
            r == ({
                let lower = unicode_lowercase(url@);
                contains_seq(lower, "youtube.com"@) || contains_seq(lower, "youtu.be"@)
            }),
    {
        let lower = chars_of(to_lowercase(url).as_str());
        contains_str(&lower, "youtube.com") || contains_str(&lower, "youtu.be")
    }

    /// The selectors of the video element, most specific first.
    pub fn video_selectors(&self) -> (r: Vec<String>)
        ensures
            texts(r@) == seq!["video.html5-main-video"@, "video"@],
    {
        let v = vec!["video.html5-main-video", "video"];
        strings_of(&v)
    }

    /// The script that starts playback.
    pub fn play_trigger_js(&self) -> (r: Option<String>)
        ensures
            r matches Some(s) && s@ == YOUTUBE_PLAY_JS@,
    {
        Some(string_of(&chars_of(YOUTUBE_PLAY_JS)))
    }
}

} // verus!
