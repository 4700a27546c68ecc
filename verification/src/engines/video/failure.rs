//! Why a video did not play: the page text and the state of the video
//! element are read, in order, for the likeliest cause.

use vstd::prelude::*;
use crate::text::{
    chars_of, concat, contains, contains_seq, decimal, decimal_of, string_of, to_lowercase,
    unicode_lowercase,
};

verus! {

/// The cause of a failed playback.
#[derive(Debug, Clone, Copy, PartialEq, Eq, Structural)]
pub enum PlaybackFailure {
    /// The page asks for a captcha or a human check.
    CaptchaOrBotCheck,
    /// The page asks the viewer to log in.
    LoginRequired,
    /// The video is blocked by region or rights.
    GeoOrRightsBlocked,
    /// The page has no video element.
    NoVideoElement,
    /// There is a video element but no media traffic and no playable data.
    NoMediaNetwork { ready_state: u64, network_state: u64 },
    /// The video is paused at its start: autoplay was refused.
    AutoplayBlocked,
    /// None of the above.
    Unknown,
}

/// Some keyword of the list occurs in the text.
pub open spec fn mentions_any(text: Seq<char>, keywords: Seq<Seq<char>>) -> bool {
    exists|i: int| 0 <= i < keywords.len() && contains_seq(text, #[trigger] keywords[i])
}

pub open spec fn captcha_keywords() -> Seq<Seq<char>> {
    seq!["captcha"@, "人机验证"@, "安全验证"@, "robot check"@, "verify you are human"@]
}

pub open spec fn login_keywords() -> Seq<Seq<char>> {
    seq![
        "login required"@,
        "sign in to confirm"@,
        "sign in to watch"@,
        "log in to watch"@,
        "请先登录后观看"@,
        "登录后观看"@,
        "请先登录"@,
        "会员登录"@,
    ]
}

pub open spec fn geo_keywords() -> Seq<Seq<char>> {
    seq![
        "not available in your country"@,
        "区域限制"@,
        "地区限制"@,
        "版权限制"@,
        "unavailable in your region"@,
    ]
}

/// The cause, read in order: what the lower-cased page text says first,
/// then the video element's state. `time_not_started` is whether the
/// element's current time is at most zero.
pub open spec fn failure_cause(
    video_count: u32,
    paused: bool,
    ready_state: u64,
    network_state: u64,
    time_not_started: bool,
    total_bytes: u64,
    page_text: Seq<char>,
) -> PlaybackFailure {
    let lower = unicode_lowercase(page_text);
    if mentions_any(lower, captcha_keywords()) {
        PlaybackFailure::CaptchaOrBotCheck
    } else if mentions_any(lower, login_keywords()) {
        PlaybackFailure::LoginRequired
    } else if mentions_any(lower, geo_keywords()) {
        PlaybackFailure::GeoOrRightsBlocked
    } else if video_count == 0 {
        PlaybackFailure::NoVideoElement
    } else if total_bytes == 0 && ready_state < 2 {
        PlaybackFailure::NoMediaNetwork { ready_state, network_state }
    } else if paused && time_not_started {
        PlaybackFailure::AutoplayBlocked
    } else {
        PlaybackFailure::Unknown
    }
}

/// The text asks for a captcha or a human check.
pub open spec fn asks_for_captcha(lower: Seq<char>) -> bool {
    ||| contains_seq(lower, "captcha"@)
    ||| contains_seq(lower, "人机验证"@)
    ||| contains_seq(lower, "安全验证"@)
    ||| contains_seq(lower, "robot check"@)
    ||| contains_seq(lower, "verify you are human"@)
}

/// The text asks the viewer to log in.
pub open spec fn asks_for_login(lower: Seq<char>) -> bool {
    ||| contains_seq(lower, "login required"@)
    ||| contains_seq(lower, "sign in to confirm"@)
    ||| contains_seq(lower, "sign in to watch"@)
    ||| contains_seq(lower, "log in to watch"@)
    ||| contains_seq(lower, "请先登录后观看"@)
    ||| contains_seq(lower, "登录后观看"@)
    ||| contains_seq(lower, "请先登录"@)
    ||| contains_seq(lower, "会员登录"@)
}

/// The text says the video is blocked by region or rights.
pub open spec fn says_blocked(lower: Seq<char>) -> bool {
    ||| contains_seq(lower, "not available in your country"@)
    ||| contains_seq(lower, "区域限制"@)
    ||| contains_seq(lower, "地区限制"@)
    ||| contains_seq(lower, "版权限制"@)
    ||| contains_seq(lower, "unavailable in your region"@)
}

proof fn lemma_keyword_lists(lower: Seq<char>)
    ensures
        mentions_any(lower, captcha_keywords()) == asks_for_captcha(lower),
        mentions_any(lower, login_keywords()) == asks_for_login(lower),
        mentions_any(lower, geo_keywords()) == says_blocked(lower),
{
    let c = captcha_keywords();
    let l = login_keywords();
    let g = geo_keywords();
    assert(c[0] == "captcha"@ && c[1] == "人机验证"@ && c[2] == "安全验证"@ && c[3] == "robot check"@ && c[4]
        == "verify you are human"@);
    assert(l[0] == "login required"@ && l[1] == "sign in to confirm"@ && l[2] == "sign in to watch"@ && l[3]
        == "log in to watch"@ && l[4] == "请先登录后观看"@ && l[5] == "登录后观看"@ && l[6] == "请先登录"@ && l[7]
        == "会员登录"@);
    assert(g[0] == "not available in your country"@ && g[1] == "区域限制"@ && g[2] == "地区限制"@ && g[3]
        == "版权限制"@ && g[4] == "unavailable in your region"@);
    if asks_for_captcha(lower) {
        assert(contains_seq(lower, c[0]) || contains_seq(lower, c[1]) || contains_seq(lower, c[2])
            || contains_seq(lower, c[3]) || contains_seq(lower, c[4]));
    }
    if asks_for_login(lower) {
        assert(contains_seq(lower, l[0]) || contains_seq(lower, l[1]) || contains_seq(lower, l[2])
            || contains_seq(lower, l[3]) || contains_seq(lower, l[4]) || contains_seq(lower, l[5])
            || contains_seq(lower, l[6]) || contains_seq(lower, l[7]));
    }
    if says_blocked(lower) {
        assert(contains_seq(lower, g[0]) || contains_seq(lower, g[1]) || contains_seq(lower, g[2])
            || contains_seq(lower, g[3]) || contains_seq(lower, g[4]));
    }
}

/// What the lower-cased page text says decides before the video
/// element's state: a captcha or human check wins over everything, then a
/// login request, then a region or rights block (such as "not available
/// in your country"), whatever state the element is in. Pages that say
/// none of these are judged by the element alone, so two such pages give
/// the same cause.
pub proof fn page_text_decides_first(
    video_count: u32,
    paused: bool,
    ready_state: u64,
    network_state: u64,
    time_not_started: bool,
    total_bytes: u64,
    page_text: Seq<char>,
    other_text: Seq<char>,
)
    ensures
        ({
            let lower = unicode_lowercase(page_text);
            let r = failure_cause(
                video_count,
                paused,
                ready_state,
                network_state,
                time_not_started,
                total_bytes,
                page_text,
            );
            let o = unicode_lowercase(other_text);
            &&& asks_for_captcha(lower) ==> r == PlaybackFailure::CaptchaOrBotCheck
            &&& !asks_for_captcha(lower) && asks_for_login(lower) ==> r == PlaybackFailure::LoginRequired
            &&& !asks_for_captcha(lower) && !asks_for_login(lower) && says_blocked(lower) ==> r
                == PlaybackFailure::GeoOrRightsBlocked
            &&& !asks_for_captcha(lower) && !asks_for_login(lower) && !says_blocked(lower) && !asks_for_captcha(
                o,
            ) && !asks_for_login(o) && !says_blocked(o) ==> r == failure_cause(
                video_count,
                paused,
                ready_state,
                network_state,
                time_not_started,
                total_bytes,
                other_text,
            )
        }),
{
    lemma_keyword_lists(unicode_lowercase(page_text));
    lemma_keyword_lists(unicode_lowercase(other_text));
}

/// Whether some keyword of the list occurs in the text.
fn mentions_any_of(text: &Vec<char>, keywords: &Vec<&str>) -> (r: bool)
    ensures
        r == mentions_any(text@, keywords@.map_values(|k: &str| k@)),
{
    let ghost ks = keywords@.map_values(|k: &str| k@);
    let mut i: usize = 0;
    while i < keywords.len()
        invariant
            i <= keywords.len(),
            ks == keywords@.map_values(|k: &str| k@),
            forall|j: int| 0 <= j < i ==> !contains_seq(text@, #[trigger] ks[j]),
        decreases keywords.len() - i,
    {
        if contains(text, &chars_of(keywords[i])) {
            assert(contains_seq(text@, ks[i as int]));
            return true;
        }
        i = i + 1;
    }
    false
}

/// Why a video did not play.
pub fn classify_playback_failure(
    video_count: u32,
    paused: bool,
    ready_state: u64,
    network_state: u64,
    time_not_started: bool,
    total_bytes: u64,
    page_text: &str,
) -> (r: PlaybackFailure)
    ensures
        r == failure_cause(
            video_count,
            paused,
            ready_state,
            network_state,
            time_not_started,
            total_bytes,
            page_text@,
        ),
{
    let lower = chars_of(to_lowercase(page_text).as_str());
    let captcha = vec!["captcha", "人机验证", "安全验证", "robot check", "verify you are human"];
    assert(captcha@.map_values(|k: &str| k@) =~= captcha_keywords());
    let login = vec![
        "login required",
        "sign in to confirm",
        "sign in to watch",
        "log in to watch",
        "请先登录后观看",
        "登录后观看",
        "请先登录",
        "会员登录",
    ];
    assert(login@.map_values(|k: &str| k@) =~= login_keywords());
    let geo = vec![
        "not available in your country",
        "区域限制",
        "地区限制",
        "版权限制",
        "unavailable in your region",
    ];
    assert(geo@.map_values(|k: &str| k@) =~= geo_keywords());
    if mentions_any_of(&lower, &captcha) {
        PlaybackFailure::CaptchaOrBotCheck
    } else if mentions_any_of(&lower, &login) {
        PlaybackFailure::LoginRequired
    } else if mentions_any_of(&lower, &geo) {
        PlaybackFailure::GeoOrRightsBlocked
    } else if video_count == 0 {
        PlaybackFailure::NoVideoElement
    } else if total_bytes == 0 && ready_state < 2 {
        PlaybackFailure::NoMediaNetwork { ready_state, network_state }
    } else if paused && time_not_started {
        PlaybackFailure::AutoplayBlocked
    } else {
        PlaybackFailure::Unknown
    }
}

/// The report for a cause, where it needs nothing but the cause; the
/// unknown cause is reported with the element's current time, which the
/// caller formats.
pub open spec fn failure_text(f: PlaybackFailure) -> Option<Seq<char>> {
    match f {
        PlaybackFailure::CaptchaOrBotCheck => Some(
            "captcha_or_bot_check: 页面要求完成验证码或人机验证"@,
        ),
        PlaybackFailure::LoginRequired => Some("login_required: 页面要求登录后才能播放"@),
        PlaybackFailure::GeoOrRightsBlocked => Some(
            "geo_or_rights_blocked: 视频受地区、版权或访问范围限制"@,
        ),
        PlaybackFailure::NoVideoElement => Some("no_video_element: 页面未发现 HTML5 video 元素"@),
        PlaybackFailure::NoMediaNetwork { ready_state, network_state } => Some(
            "no_media_network: 发现 video 元素但没有媒体流量或可播放数据 (readyState="@
                + decimal(ready_state as nat) + ", networkState="@ + decimal(network_state as nat)
                + ")"@,
        ),
        PlaybackFailure::AutoplayBlocked => Some(
            "autoplay_blocked: video 元素存在但播放未开始，可能需要用户手势、登录、验证码或地区授权"@,
        ),
        PlaybackFailure::Unknown => None,
    }
}

impl PlaybackFailure {
    /// The report for this cause, where it needs nothing but the cause.
    pub fn message(&self) -> (r: Option<String>)
        ensures
            match failure_text(*self) {
                Some(t) => r matches Some(s) && s@ == t,
                None => r is None,
            },
    {
        match self {
            PlaybackFailure::CaptchaOrBotCheck => Some(
                string_of(&chars_of("captcha_or_bot_check: 页面要求完成验证码或人机验证")),
            ),
            PlaybackFailure::LoginRequired => Some(
                string_of(&chars_of("login_required: 页面要求登录后才能播放")),
            ),
            PlaybackFailure::GeoOrRightsBlocked => Some(
                string_of(&chars_of("geo_or_rights_blocked: 视频受地区、版权或访问范围限制")),
            ),
            PlaybackFailure::NoVideoElement => Some(
                string_of(&chars_of("no_video_element: 页面未发现 HTML5 video 元素")),
            ),
            PlaybackFailure::NoMediaNetwork { ready_state, network_state } => {
                let a = chars_of(
                    "no_media_network: 发现 video 元素但没有媒体流量或可播放数据 (readyState=",
                );
                let b = decimal_of(*ready_state);
                let c = chars_of(", networkState=");
                let d = decimal_of(*network_state);
                let e = chars_of(")");
                let t = concat(&concat(&concat(&concat(&a, &b), &c), &d), &e);
                Some(string_of(&t))
            },
            PlaybackFailure::AutoplayBlocked => Some(
                string_of(
                    &chars_of(
                        "autoplay_blocked: video 元素存在但播放未开始，可能需要用户手势、登录、验证码或地区授权",
                    ),
                ),
            ),
            PlaybackFailure::Unknown => None,
        }
    }
}

} // verus!
