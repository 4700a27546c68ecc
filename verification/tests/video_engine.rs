use netpulse::engines::chromium::{profile_dir_name, video_launch_args, ChromiumArg};
use netpulse::engines::download::DownloadEngine;
use netpulse::engines::ping::PingEngine;
use netpulse::engines::video::cdp::media::parse_codecs;
use netpulse::engines::video::cdp::network::is_media_url as network_is_media_url;
use netpulse::engines::video::cdp::runtime::{
    classify_hook_message, handle_np_hook, is_media_url as runtime_is_media_url, HookMessage, HookOutcome,
};
use netpulse::engines::video::collector::{extract_host as media_extract_host, is_video_url};
use netpulse::engines::video::failure::{classify_playback_failure, PlaybackFailure};
use netpulse::engines::video::hooks::list::{hook_scripts, parse_same_site, SameSite};
use netpulse::engines::video::hooks::mutation;
use netpulse::engines::video::monitor::{video_monitor_inject_js, video_poll_js};
use netpulse::engines::video::playback::{PlaybackController, PlaybackStep, TriggerMethod};
use netpulse::engines::video::players::bilibili::BilibiliAdapter;
use netpulse::engines::video::players::generic::GenericHtml5Adapter;
use netpulse::engines::video::players::youtube::YoutubeAdapter;
use netpulse::engines::video::watch::{plan_after_poll, PollPlan};
use netpulse::engines::video::tally::MediaTally;
use netpulse::engines::page_scripts::NetworkCollector;
use netpulse::engines::video::hooks::page::{play_candidate_js, poll_state_js};
use std::time::Duration;

#[test]
fn ping_count_is_clamped() {
    assert_eq!(PingEngine::new(0, Duration::from_secs(3)).count(), 1);
    assert_eq!(PingEngine::new(4, Duration::from_secs(3)).count(), 4);
    assert_eq!(PingEngine::new(500, Duration::from_secs(3)).count(), 100);
    assert_eq!(PingEngine::new(7, Duration::from_secs(9)).timeout(), Duration::from_secs(9));
}

#[test]
fn download_engine_reads_for_fifteen_seconds() {
    let e = DownloadEngine::new(Duration::from_secs(30));
    assert_eq!(e.max_duration_secs(), 15);
    assert_eq!(e.timeout(), Duration::from_secs(30));
}

#[test]
fn video_profile_switches() {
    let args = video_launch_args();
    assert_eq!(args.len(), 4);
    match &args[0] {
        ChromiumArg::Value(k, v) => {
            assert_eq!(*k, "autoplay-policy");
            assert_eq!(*v, "no-user-gesture-required");
        }
        ChromiumArg::Key(_) => panic!("expected a key with a value"),
    }
    assert!(matches!(args[1], ChromiumArg::Key("mute-audio")));
    assert!(matches!(args[3], ChromiumArg::Key("disable-gpu")));
    assert_eq!(profile_dir_name("video", "abc"), "netpulse-chromium-video-abc");
}

#[test]
fn media_request_hosts() {
    assert_eq!(media_extract_host("https://cdn.example.com:443/seg/1.m4s"), Some("cdn.example.com".to_string()));
    assert_eq!(media_extract_host("no-scheme/path"), None);
    assert!(is_video_url("https://x.com/a.m3u8?x=1"));
    assert!(!is_video_url("https://x.com/index.html"));
}

#[test]
fn media_url_recognition() {
    assert!(network_is_media_url("https://A.COM/VIDEO.MP4"));
    assert!(network_is_media_url("https://a.com/audio.ogg"));
    assert!(!runtime_is_media_url("https://a.com/audio.ogg"));
    assert!(runtime_is_media_url("https://r1.googlevideo.com/videoplayback?x"));
    assert!(!network_is_media_url("https://a.com/index.html"));
}

#[test]
fn codecs_from_mime() {
    assert_eq!(
        parse_codecs("video/mp4; codecs=\"avc1.64001F, mp4a.40.2\""),
        ("avc1.64001F".to_lowercase(), "mp4a.40.2".to_string())
    );
    assert_eq!(parse_codecs("video/webm; codecs=\"vp9\""), ("vp9".to_string(), String::new()));
    assert_eq!(parse_codecs("audio/mp4"), (String::new(), String::new()));
}

#[test]
fn hook_messages_are_classified() {
    match handle_np_hook(r#"{"type":"np-hook","event":"playing_event","src":"https://v.com/a.mp4"}"#) {
        HookOutcome::PlayStarted { src } => assert_eq!(src.as_deref(), Some("https://v.com/a.mp4")),
        _ => panic!("expected a play event"),
    }
    match handle_np_hook(r#"{"type":"np-hook","event":"playing_event","src":""}"#) {
        HookOutcome::PlayStarted { src } => assert!(src.is_none()),
        _ => panic!("expected a play event"),
    }
    assert!(matches!(handle_np_hook("not json"), HookOutcome::NotHook));
    assert!(matches!(handle_np_hook(r#"{"type":"other","event":"pause"}"#), HookOutcome::NotHook));
    assert!(matches!(handle_np_hook(r#"{"type":"np-hook","event":"pause_event"}"#), HookOutcome::PlayPaused));
    assert!(matches!(handle_np_hook(r#"{"type":"np-hook","event":"waiting_event"}"#), HookOutcome::BufferStarted));
    assert!(matches!(handle_np_hook(r#"{"type":"np-hook","event":"hooked"}"#), HookOutcome::Ignored));
    match handle_np_hook(r#"{"type":"np-hook","event":"error_event"}"#) {
        HookOutcome::VideoError { message } => assert_eq!(message, "unknown media error"),
        _ => panic!("expected an error"),
    }
    match handle_np_hook(r#"{"type":"np-hook","event":"fetch","url":"https://cdn.v.com/seg.m4s"}"#) {
        HookOutcome::SegmentLoaded { url, host } => {
            assert_eq!(url, "https://cdn.v.com/seg.m4s");
            assert_eq!(host, "cdn.v.com");
        }
        _ => panic!("expected a segment"),
    }
    let m = HookMessage {
        kind: Some("np-hook".into()),
        event: Some("mse_addSourceBuffer".into()),
        src: None,
        msg: None,
        mime: None,
        url: None,
    };
    assert!(matches!(classify_hook_message(&m), HookOutcome::Ignored));
}

#[test]
fn playback_failure_causes() {
    assert_eq!(
        classify_playback_failure(1, true, 4, 1, false, 100, "Please VERIFY you are human"),
        PlaybackFailure::CaptchaOrBotCheck
    );
    assert_eq!(classify_playback_failure(1, true, 4, 1, false, 100, "请先登录"), PlaybackFailure::LoginRequired);
    assert_eq!(classify_playback_failure(0, true, 0, 0, true, 0, "hello"), PlaybackFailure::NoVideoElement);
    let f = classify_playback_failure(2, true, 1, 3, true, 0, "hello");
    assert_eq!(f, PlaybackFailure::NoMediaNetwork { ready_state: 1, network_state: 3 });
    assert_eq!(
        f.message().unwrap(),
        "no_media_network: 发现 video 元素但没有媒体流量或可播放数据 (readyState=1, networkState=3)"
    );
    assert_eq!(classify_playback_failure(1, true, 4, 1, true, 10, ""), PlaybackFailure::AutoplayBlocked);
    assert_eq!(classify_playback_failure(1, false, 4, 1, false, 10, ""), PlaybackFailure::Unknown);
    assert!(PlaybackFailure::Unknown.message().is_none());
}

#[test]
fn playback_escalates_then_gives_up() {
    let mut c = PlaybackController::new(60);
    assert_eq!(c.trigger_label(), "none");
    let mut clicks = 0;
    let mut checks = 0;
    let outcome = loop {
        checks += 1;
        match c.after_check(checks as u128 * 2_000_000_000) {
            PlaybackStep::Continue => {}
            PlaybackStep::Click => clicks += 1,
            PlaybackStep::Finished(m) => break m,
        }
    };
    assert_eq!(outcome, TriggerMethod::NotTriggered);
    assert_eq!(clicks, 2);
    assert!(checks <= 22);
    let d = c.diagnostics();
    assert_eq!(d.trigger_method, "none");
    assert_eq!(d.last_error.as_deref(), Some("未能触发播放: 60s 内无播放器创建/播放事件/媒体请求"));
}

#[test]
fn playback_started_by_click() {
    let mut c = PlaybackController::new(60);
    for i in 1..=6u128 {
        let step = c.after_check(i * 1_000_000_000);
        if i < 6 {
            assert_eq!(step, PlaybackStep::Continue);
        } else {
            assert_eq!(step, PlaybackStep::Click);
        }
    }
    c.on_media_created();
    assert_eq!(c.after_check(8_000_000_000), PlaybackStep::Finished(TriggerMethod::Click));
    assert_eq!(c.trigger_label(), "click");
    assert_eq!(c.after_check(9_000_000_000), PlaybackStep::Finished(TriggerMethod::Click));
}

#[test]
fn playback_times_out_with_requests() {
    let mut c = PlaybackController::new(60);
    c.on_network_media();
    assert_eq!(c.after_check(13_000_000_000), PlaybackStep::Click);
    assert_eq!(c.after_check(41_000_000_000), PlaybackStep::Click);
    assert_eq!(c.after_check(60_000_000_000), PlaybackStep::Finished(TriggerMethod::Auto));
    let d = c.diagnostics();
    assert_eq!(d.network_media_request_count, 1);
    assert_eq!(d.last_error.as_deref(), Some("检测到媒体请求但无播放事件"));
}

#[test]
fn autoplay_counts_media_events() {
    let mut c = PlaybackController::new(60);
    c.on_media_event();
    c.on_media_event();
    assert_eq!(c.after_check(2_000_000_000), PlaybackStep::Continue);
    c.on_media_event();
    assert_eq!(c.after_check(4_000_000_000), PlaybackStep::Finished(TriggerMethod::Auto));
    assert_eq!(c.diagnostics().media_event_count, 3);
}

#[test]
fn scripts_and_adapters() {
    assert_eq!(hook_scripts().len(), 4);
    assert_eq!(hook_scripts()[3], mutation::hook_script());
    assert!(mutation::hook_script().contains("mutation_video_added"));
    assert!(video_monitor_inject_js().contains("__videoMonitor"));
    assert!(video_poll_js().starts_with("JSON.stringify"));
    let b = BilibiliAdapter::new();
    assert_eq!(b.name(), "bilibili");
    assert!(b.detects_url("https://www.BILIBILI.com/video/BV1"));
    assert!(!b.detects_url("https://youtube.com/watch"));
    assert_eq!(b.video_selectors(), vec!["video.bpx-player-video".to_string(), "video".to_string()]);
    let y = YoutubeAdapter::new();
    assert!(y.detects_url("https://youtu.be/x"));
    assert!(y.play_trigger_js().unwrap().contains("ytp-play-button"));
    let g = GenericHtml5Adapter::new();
    assert_eq!(g.name(), "html5");
    assert_eq!(g.play_button_selectors().len(), 15);
    assert_eq!(parse_same_site(" Lax "), Some(SameSite::Lax));
    assert_eq!(parse_same_site("no_restriction"), Some(SameSite::NoRestriction));
    assert_eq!(parse_same_site("weird"), None);
}

#[test]
fn watch_loop_escalates_then_stops() {
    let sec = 1_000_000_000u128;
    let idle = PollPlan { click_again: false, start_again: false, stop: false };
    assert_eq!(plan_after_poll(false, false, false, 4 * sec, 60, false), idle);
    assert_eq!(
        plan_after_poll(false, false, false, 5 * sec, 60, false),
        PollPlan { click_again: true, start_again: false, stop: false }
    );
    assert_eq!(
        plan_after_poll(false, true, false, 15 * sec, 60, false),
        PollPlan { click_again: false, start_again: true, stop: false }
    );
    assert_eq!(plan_after_poll(false, true, true, 89 * sec, 60, false), idle);
    assert_eq!(
        plan_after_poll(false, true, true, 90 * sec, 60, false),
        PollPlan { click_again: false, start_again: false, stop: true }
    );
    assert_eq!(plan_after_poll(true, false, false, 20 * sec, 60, false), idle);
    assert_eq!(
        plan_after_poll(true, false, false, 20 * sec, 60, true),
        PollPlan { click_again: false, start_again: false, stop: true }
    );
}

#[test]
fn page_scripts_are_whole_functions() {
    assert!(NetworkCollector::collect_js().starts_with("JSON.stringify("));
    assert!(NetworkCollector::lcp_inject_js().contains("largest-contentful-paint"));
    assert!(poll_state_js().contains("webkitDecodedFrameCount"));
    assert!(play_candidate_js().starts_with("(function(selectors)"));
}

#[test]
fn tally_counts_buffering_once_and_keeps_first_host() {
    let mut t = MediaTally::new();
    assert!(t.buffer_started());
    assert!(!t.buffer_started());
    assert!(t.buffer_ended());
    assert!(!t.buffer_ended());
    assert!(t.buffer_started());
    assert_eq!(t.buffer_count, 2);
    t.segment_loaded("a.cdn".to_string(), 10);
    t.segment_loaded("b.cdn".to_string(), 5);
    t.bytes_received(100);
    t.host_seen(Some("c.cdn".to_string()));
    t.cdn_seen("1.1.1.1".to_string());
    t.cdn_seen("2.2.2.2".to_string());
    t.error_seen("media: x".to_string());
    t.error_seen("media: y".to_string());
    assert_eq!((t.segment_count, t.total_bytes), (2, 115));
    assert_eq!(t.video_host.as_deref(), Some("a.cdn"));
    assert_eq!(t.cdn_node.as_deref(), Some("1.1.1.1"));
    assert_eq!(t.error.as_deref(), Some("media: x"));
}
