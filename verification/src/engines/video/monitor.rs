//! The scripts that watch a playing video from the page: one installs the
//! state it keeps (first frame, stalls, play time), the other reads it.

use vstd::prelude::*;

verus! {

/// The script that installs the monitor's state.
pub const MONITOR_INJECT_JS: &'static str = r#"(function(){
    window.__videoMonitor = { firstFrameTime: 0, stutterCount: 0, stutterDuration: 0,
        stutterStart: 0, lastCt: 0, playStartTime: 0, hist: [], vw: 0, vh: 0,
        vdur: 0, ended: false, lastPollTime: Date.now(), firstPlayTimeMs: null, monitorStart: Date.now() };
})()"#;

/// The script that reads and updates the monitor's state and returns it as
/// JSON.
pub const MONITOR_POLL_JS: &'static str = r#"JSON.stringify((function(){
        var v = document.querySelector('video');
        var m = window.__videoMonitor || {};
        if (!v) return JSON.stringify({alive:false});
        var ct = v.currentTime, t = Date.now();

        // 首帧
        if (m.firstFrameTime === 0 && !v.paused && ct > 0) {
            m.firstFrameTime = t;
            m.firstPlayTimeMs = (m.firstPlayTimeMs != null) ? m.firstPlayTimeMs : (t - (m.monitorStart || m.lastPollTime));
            m.vw = v.videoWidth; m.vh = v.videoHeight; m.vdur = v.duration;
            m.playStartTime = t; m.lastCt = ct;
        }

        // 播放开始
        if (m.playStartTime === 0 && !v.paused && ct > (m.lastCt||0) + 0.1) {
            m.playStartTime = t; m.lastCt = ct;
        }

        // 卡顿: ct 没进展
        if (m.playStartTime > 0 && !v.paused && ct > 0 &&
            Math.abs(ct - (m.lastCt||ct)) < 0.1 && m.stutterStart === 0) {
            m.stutterCount++; m.stutterStart = t;
        }

        // 卡顿结束
        if (m.stutterStart > 0 && ct > (m.lastCt||ct) + 0.3) {
            m.stutterDuration += t - m.stutterStart; m.stutterStart = 0;
        }

        m.lastCt = ct; m.lastPollTime = t;
        if (v.ended) m.ended = true;

        return JSON.stringify({
            alive:true, ct:ct, paused:v.paused, ended:v.ended, rs:v.readyState,
            ff:m.firstFrameTime, sc:m.stutterCount, sd:m.stutterDuration,
            ps:m.playStartTime, vw:m.vw, vh:m.vh, vdur:m.vdur,
            firstPlayMs: m.firstPlayTimeMs
        });
    })())"#;

/// The script that installs the monitor's state.
pub fn video_monitor_inject_js() -> (r: &'static str)
    ensures
        r@ == MONITOR_INJECT_JS@,
{
    MONITOR_INJECT_JS
}

/// The script that polls the video element.
pub fn video_poll_js() -> (r: &'static str)
    ensures
        r@ == MONITOR_POLL_JS@,
{
    MONITOR_POLL_JS
}

} // verus!
