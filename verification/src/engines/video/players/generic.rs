//! Any page with an HTML5 video element.

use vstd::prelude::*;
use crate::text::{chars_of, contains_seq, contains_str, string_of, to_lowercase, unicode_lowercase};
use super::{strings_of, texts};

verus! {

/// The play script.
pub const GENERIC_PLAY_JS: &'static str = r#"
        (function(){
            var videos = document.querySelectorAll('video');
            for (var i=0; i<videos.length; i++) {
                try { videos[i].muted = true; videos[i].play().catch(function(){}); } catch(e){}
            }
        })()
        "#;

pub struct GenericHtml5Adapter;

impl GenericHtml5Adapter {
    pub fn new() -> (r: GenericHtml5Adapter)
        ensures
            r == GenericHtml5Adapter,
    {
        GenericHtml5Adapter
    }

    /// The platform name.
    pub fn name(&self) -> (r: &'static str)
        ensures
            r@ == "html5"@,
    {
        "html5"
    }

    /// The selectors of the video element, most specific first.
    pub fn video_selectors(&self) -> (r: Vec<String>)
        ensures
            texts(r@) == seq!["video"@],
    {
        let v = vec!["video"];
        strings_of(&v)
    }

    /// The selectors of elements that start playback when clicked.
    pub fn play_button_selectors(&self) -> (r: Vec<String>)
        ensures
            texts(r@) == seq![
                "video"@,
                ".xgplayer-start"@,
                ".xgplayer-play"@,
                ".txp_btn_play"@,
                ".txp_overlay_play"@,
                ".mango-player .btn-play"@,
                ".mgtv-player .btn-play"@,
                ".ykplayer .x-play-btn"@,
                ".youku-layer-logo"@,
                ".play-btn"@,
                ".btn-play"@,
                "[aria-label*=\"play\" i]"@,
                "[title*=\"play\" i]"@,
                "[aria-label*=\"播放\"]"@,
                "[title*=\"播放\"]"@,
            ],
    {
        let v = vec![
            "video",
            ".xgplayer-start",
            ".xgplayer-play",
            ".txp_btn_play",
            ".txp_overlay_play",
            ".mango-player .btn-play",
            ".mgtv-player .btn-play",
            ".ykplayer .x-play-btn",
            ".youku-layer-logo",
            ".play-btn",
            ".btn-play",
            "[aria-label*=\"play\" i]",
            "[title*=\"play\" i]",
            "[aria-label*=\"播放\"]",
            "[title*=\"播放\"]",
        ];
        strings_of(&v)
    }

    /// The script that starts playback.
    pub fn play_trigger_js(&self) -> (r: Option<String>)
        ensures
            r matches Some(s) && s@ == GENERIC_PLAY_JS@,
    {
        Some(string_of(&chars_of(GENERIC_PLAY_JS)))
    }
}

} // verus!
