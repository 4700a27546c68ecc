//! How the probes launch Chromium: the extra command-line switches and the
//! name of a throw-away profile directory.

use vstd::prelude::*;
use crate::text::{chars_of, concat, string_of};

verus! {

/// A Chromium command-line switch: a bare key, or a key with a value.
pub enum ChromiumArg {
    Key(&'static str),
    Value(&'static str, &'static str),
}

/// The switch as a key and, where it has one, a value.
pub open spec fn arg_parts(a: ChromiumArg) -> (Seq<char>, Option<Seq<char>>) {
    match a {
        ChromiumArg::Key(k) => (k@, None),
        ChromiumArg::Value(k, v) => (k@, Some(v@)),
    }
}

/// The switches of the video profile, in order: media may start without a
/// gesture, audio is muted, the media-engagement features are off, and the
/// GPU is not used.
pub open spec fn video_switches() -> Seq<(Seq<char>, Option<Seq<char>>)> {
    seq![
        ("autoplay-policy"@, Some("no-user-gesture-required"@)),
        ("mute-audio"@, None),
        (
            "disable-features"@,
            Some("PreloadMediaEngagementData,MediaEngagementBypassAutoplayPolicies"@),
        ),
        ("disable-gpu"@, None),
    ]
}

/// The extra switches with which the video probe launches Chromium.
pub fn video_launch_args() -> (r: Vec<ChromiumArg>)
    ensures
        r@.map_values(|a: ChromiumArg| arg_parts(a)) == video_switches(),
{
    let mut v: Vec<ChromiumArg> = Vec::new();
    v.push(ChromiumArg::Value("autoplay-policy", "no-user-gesture-required"));
    v.push(ChromiumArg::Key("mute-audio"));
    v.push(
        ChromiumArg::Value(
            "disable-features",
            "PreloadMediaEngagementData,MediaEngagementBypassAutoplayPolicies",
        ),
    );
    v.push(ChromiumArg::Key("disable-gpu"));
    assert(v@.map_values(|a: ChromiumArg| arg_parts(a)) =~= video_switches());
    v
}

/// The name of a throw-away profile directory for a browser of the given
/// kind: `netpulse-chromium-{kind}-{id}`.
pub fn profile_dir_name(kind: &str, id: &str) -> (r: String)
    ensures
        r@ == "netpulse-chromium-"@ + kind@ + "-"@ + id@,
{
    let a = chars_of("netpulse-chromium-");
    let b = chars_of(kind);
    let c = chars_of("-");
    let d = chars_of(id);
    let ab = concat(&a, &b);
    let abc = concat(&ab, &c);
    let abcd = concat(&abc, &d);
    string_of(&abcd)
}

} // verus!
