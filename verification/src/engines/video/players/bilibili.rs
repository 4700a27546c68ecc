//! The bilibili player.

use vstd::prelude::*;
use crate::text::{chars_of, contains_seq, contains_str, string_of, to_lowercase, unicode_lowercase};
use super::{strings_of, texts};

verus! {

/// The play script.
pub const BILIBILI_PLAY_JS: &'static str = r#"
        (function(){
            var v = document.querySelector('video');
            if (v) { try { v.play().catch(function(){}); } catch(e){} }
            var btn = document.querySelector('.bpx-player-ctrl-play');
            if (btn) { try { btn.click(); } catch(e){} }
        })()
        "#;

pub struct BilibiliAdapter;

impl BilibiliAdapter {
    pub fn new() -> (r: BilibiliAdapter)
        ensures
            r == BilibiliAdapter,
    {
        BilibiliAdapter
    }

    /// The platform name.
    pub fn name(&self) -> (r: &'static str)
        ensures
            r@ == "bilibili"@,
    {
        "bilibili"
    }

    /// The page is on this platform: its lower-cased URL names one of the
    /// platform's hosts.
    pub fn detects_url(&self, url: &str) -> (r: bool)
        ensures
            r == ({
                let lower = unicode_lowercase(url@);
                contains_seq(lower, "bilibili.com"@) || contains_seq(lower, "b23.tv"@)
            }),
    {
        let lower = chars_of(to_lowercase(url).as_str());
        contains_str(&lower, "bilibili.com") || contains_str(&lower, "b23.tv")
    }

    /// The selectors of the video element, most specific first.
    pub fn video_selectors(&self) -> (r: Vec<String>)
        ensures
            texts(r@) == seq!["video.bpx-player-video"@, "video"@],
    {
        let v = vec!["video.bpx-player-video", "video"];
        strings_of(&v)
    }

    /// The script that starts playback.
    pub fn play_trigger_js(&self) -> (r: Option<String>)
        ensures
            r matches Some(s) && s@ == BILIBILI_PLAY_JS@,
    {
        Some(string_of(&chars_of(BILIBILI_PLAY_JS)))
    }
}

} // verus!
