//! The scripts that a video test runs in the page besides the hooks: to
//! start playback, to read the video element, to find a play control, to
//! close pop-ups and to read why playback failed.

use vstd::prelude::*;

verus! {

/// Mutes every video element of the page and asks it to play.
pub const TRIGGER_PLAY_JS: &'static str = r#"(function(){
    var videos = document.querySelectorAll('video');
    for (var i=0; i<videos.length; i++) {
        try { videos[i].muted = true; videos[i].play().catch(function(){}); } catch(e){}
    }
})()"#;

/// Reads the state of the first video element as JSON: time, pause, readiness, size, duration and frame counts.
pub const POLL_STATE_JS: &'static str = r#"(function(){
    var videos = document.querySelectorAll('video');
    if (videos.length === 0) return JSON.stringify({alive:false,count:0});
    var v = videos[0];
    return JSON.stringify({
        alive: true, count: videos.length,
        ct: v.currentTime, paused: v.paused, ended: v.ended,
        readyState: v.readyState, networkState: v.networkState,
        vw: v.videoWidth, vh: v.videoHeight, vdur: v.duration,
        webkitDecoded: v.webkitDecodedFrameCount || 0,
        webkitDropped: v.webkitDroppedFrameCount || 0
    });
})()"#;

/// Whether the page has content to test although navigation reported an error.
pub const PAGE_USABLE_JS: &'static str = r#"(function(){
    return !!(location.href !== 'about:blank' && document.body && (document.querySelector('video') || document.body.innerText.length > 100));
})()"#;

/// The visible text of dialogs and of the video's surroundings, where a reason for a failed playback may be written.
pub const DIAGNOSTIC_TEXT_JS: &'static str = r#"(function(){
    var parts = [];
    function add(el) {
        if (!el) return;
        var style = window.getComputedStyle(el);
        if (style.display === 'none' || style.visibility === 'hidden') return;
        var text = (el.innerText || el.textContent || '').trim();
        if (text) parts.push(text.slice(0, 2500));
    }
    document.querySelectorAll('[role=dialog],.modal,.popup,.dialog,.error,.login,.paywall,.vip,.captcha,.verify').forEach(add);
    var video = document.querySelector('video');
    var parent = video;
    for (var i = 0; i < 4 && parent; i++, parent = parent.parentElement) add(parent);
    return parts.join('\n').slice(0, 12000);
})()"#;

/// Clicks the buttons of consent and notice pop-ups.
pub const DISMISS_POPUPS_JS: &'static str = r#"(function(){
    var btns = document.querySelectorAll('button,a,[role=button]');
    var keywords = ['accept','agree','allow','ok','yes','同意','接受','允许','确定','继续','关闭','close','dismiss','got it','skip','later','稍后'];
    for (var i=0; i<btns.length; i++) {
        var t = (btns[i].textContent||'').toLowerCase();
        for (var j=0; j<keywords.length; j++) {
            if (t.includes(keywords[j])) { try { btns[i].click(); } catch(e){} break; }
        }
    }
})()"#;

/// A function of a list of selectors: the centre of the first visible play control, as JSON, or `null`.
pub const PLAY_CANDIDATE_JS: &'static str = r#"(function(selectors){
    function visible(el) {
        if (!el) return false;
        var style = window.getComputedStyle(el);
        if (style.visibility === 'hidden' || style.display === 'none' || style.pointerEvents === 'none') return false;
        var r = el.getBoundingClientRect();
        return r.width >= 8 && r.height >= 8 && r.bottom >= 0 && r.right >= 0 && r.left <= window.innerWidth && r.top <= window.innerHeight;
    }
    function point(el) {
        var r = el.getBoundingClientRect();
        return {x: Math.max(1, Math.min(window.innerWidth - 1, r.left + r.width / 2)), y: Math.max(1, Math.min(window.innerHeight - 1, r.top + r.height / 2))};
    }
    for (var i = 0; i < selectors.length; i++) {
        try { var el = document.querySelector(selectors[i]); if (visible(el)) return JSON.stringify(point(el)); } catch(e) {}
    }
    var keywords = ['播放','开始','play','start','继续','观看'];
    var candidates = document.querySelectorAll('button,a,[role=button],.btn,.play,.play-btn');
    for (var j = 0; j < candidates.length; j++) {
        var text = ((candidates[j].textContent || '') + ' ' + (candidates[j].getAttribute('aria-label') || '') + ' ' + (candidates[j].getAttribute('title') || '')).toLowerCase();
        for (var k = 0; k < keywords.length; k++) {
            if (text.indexOf(keywords[k].toLowerCase()) >= 0 && visible(candidates[j])) return JSON.stringify(point(candidates[j]));
        }
    }
    var v = document.querySelector('video');
    if (visible(v)) return JSON.stringify(point(v));
    return JSON.stringify(null);
})"#;

/// Mutes every video element of the page and asks it to play.
pub fn trigger_play_js() -> (r: &'static str)
    ensures
        r@ == TRIGGER_PLAY_JS@,
{
    TRIGGER_PLAY_JS
}

/// Reads the state of the first video element as JSON: time, pause, readiness, size, duration and frame counts.
pub fn poll_state_js() -> (r: &'static str)
    ensures
        r@ == POLL_STATE_JS@,
{
    POLL_STATE_JS
}

/// Whether the page has content to test although navigation reported an error.
pub fn page_usable_js() -> (r: &'static str)
    ensures
        r@ == PAGE_USABLE_JS@,
{
    PAGE_USABLE_JS
}

/// The visible text of dialogs and of the video's surroundings, where a reason for a failed playback may be written.
pub fn diagnostic_text_js() -> (r: &'static str)
    ensures
        r@ == DIAGNOSTIC_TEXT_JS@,
{
    DIAGNOSTIC_TEXT_JS
}

/// Clicks the buttons of consent and notice pop-ups.
pub fn dismiss_popups_js() -> (r: &'static str)
    ensures
        r@ == DISMISS_POPUPS_JS@,
{
    DISMISS_POPUPS_JS
}

/// A function of a list of selectors: the centre of the first visible play control, as JSON, or `null`.
pub fn play_candidate_js() -> (r: &'static str)
    ensures
        r@ == PLAY_CANDIDATE_JS@,
{
    PLAY_CANDIDATE_JS
}

} // verus!
