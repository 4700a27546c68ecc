//! The console-hook collector: the page hooks write JSON messages to the
//! console, and each is read into the video event that it reports.

use vstd::prelude::*;
use crate::hosts::{hooked_media, hooked_media_of};
use crate::text::{chars_of, copy_opt, opt_text, owned, seq_eq, to_lowercase, unicode_lowercase};
use crate::urlcheck::{host_or_empty, url_host};
use serde_json::Value;

verus! {

/// A URL that the console-hook collector counts as media (case-insensitive).
pub open spec fn runtime_media(u: Seq<char>) -> bool {
    hooked_media(unicode_lowercase(u))
}

/// Whether the console-hook collector counts a URL as media.
pub fn is_media_url(url: &str) -> (r: bool)
    ensures
        r == runtime_media(url@),
{
    let l = chars_of(to_lowercase(url).as_str());
    hooked_media_of(&l)
}


/// The fields of a console message that the hooks write: `type`, `event`,
/// `src`, `msg`, `mime` and `url`, each where it is a JSON string.
pub struct HookMessage {
    pub kind: Option<String>,
    pub event: Option<String>,
    pub src: Option<String>,
    pub msg: Option<String>,
    pub mime: Option<String>,
    pub url: Option<String>,
}

/// The texts of a hook message's fields, in the order of the struct.
pub type HookFields = (
    Option<Seq<char>>,
    Option<Seq<char>>,
    Option<Seq<char>>,
    Option<Seq<char>>,
    Option<Seq<char>>,
    Option<Seq<char>>,
);

impl HookMessage {
    pub open spec fn fields(&self) -> HookFields {
        (
            opt_text(self.kind),
            opt_text(self.event),
            opt_text(self.src),
            opt_text(self.msg),
            opt_text(self.mime),
            opt_text(self.url),
        )
    }
}

/// `serde_json::from_str` into a JSON value, read through `Value::get` and
/// `Value::as_str` for each field: the fields of the message if the text is
/// JSON.
pub uninterp spec fn hook_json_fields(text: Seq<char>) -> Option<HookFields>;

/// Parses console text as JSON (`serde_json::from_str`) and picks the
/// string fields that the hooks write. The result is named
/// `hook_json_fields` of the text; the JSON grammar is left to that name.
#[verifier::external_body]
fn read_hook_message(text: &str) -> (r: Option<HookMessage>)
    ensures
        match hook_json_fields(text@) {
            Some(f) => r matches Some(m) && m.fields() == f,
            None => r is None,
        },
{
    match serde_json::from_str::<Value>(text) {
        Ok(v) => Some(HookMessage {
            kind: v.get("type").and_then(Value::as_str).map(String::from),
            event: v.get("event").and_then(Value::as_str).map(String::from),
            src: v.get("src").and_then(Value::as_str).map(String::from),
            msg: v.get("msg").and_then(Value::as_str).map(String::from),
            mime: v.get("mime").and_then(Value::as_str).map(String::from),
            url: v.get("url").and_then(Value::as_str).map(String::from),
        }),
        Err(_) => None,
    }
}

/// What a console message amounts to.
pub enum HookOutcome {
    /// Not a hook message: the console line is handled as ordinary output.
    NotHook,
    /// A hook message that reports nothing.
    Ignored,
    PlayStarted { src: Option<String> },
    PlayPaused,
    BufferStarted,
    BufferEnded,
    PlayEnded,
    VideoError { message: String },
    CodecDetected { mime: String },
    SegmentLoaded { url: String, host: String },
    VideoElementAdded,
}

/// A hook outcome, with texts in place of strings.
pub enum HookReport {
    NotHook,
    Ignored,
    PlayStarted { src: Option<Seq<char>> },
    PlayPaused,
    BufferStarted,
    BufferEnded,
    PlayEnded,
    VideoError { message: Seq<char> },
    CodecDetected { mime: Seq<char> },
    SegmentLoaded { url: Seq<char>, host: Seq<char> },
    VideoElementAdded,
}

impl View for HookOutcome {
    type V = HookReport;

    open spec fn view(&self) -> HookReport {
        match self {
            HookOutcome::NotHook => HookReport::NotHook,
            HookOutcome::Ignored => HookReport::Ignored,
            HookOutcome::PlayStarted { src } => HookReport::PlayStarted { src: opt_text(*src) },
            HookOutcome::PlayPaused => HookReport::PlayPaused,
            HookOutcome::BufferStarted => HookReport::BufferStarted,
            HookOutcome::BufferEnded => HookReport::BufferEnded,
            HookOutcome::PlayEnded => HookReport::PlayEnded,
            HookOutcome::VideoError { message } => HookReport::VideoError { message: message@ },
            HookOutcome::CodecDetected { mime } => HookReport::CodecDetected { mime: mime@ },
            HookOutcome::SegmentLoaded { url, host } => HookReport::SegmentLoaded {
                url: url@,
                host: host@,
            },
            HookOutcome::VideoElementAdded => HookReport::VideoElementAdded,
        }
    }
}

/// The text of an optional field, or the empty text.
pub open spec fn or_empty(o: Option<Seq<char>>) -> Seq<char> {
    match o {
        Some(s) => s,
        None => Seq::empty(),
    }
}

/// What a hook message with the given fields reports.
pub open spec fn hook_report(f: HookFields) -> HookReport {
    let (kind, event, src, msg, mime, url) = f;
    if kind != Some("np-hook"@) {
        HookReport::NotHook
    } else {
        let e = or_empty(event);
        if e == "playing_event"@ {
            HookReport::PlayStarted {
                src: match src {
                    Some(s) => if s.len() > 0 { Some(s) } else { None },
                    None => None,
                },
            }
        } else if e == "pause"@ || e == "pause_event"@ {
            HookReport::PlayPaused
        } else if e == "waiting_event"@ {
            HookReport::BufferStarted
        } else if e == "canplay_event"@ {
            HookReport::BufferEnded
        } else if e == "ended_event"@ {
            HookReport::PlayEnded
        } else if e == "error_event"@ {
            HookReport::VideoError {
                message: match msg {
                    Some(m) => m,
                    None => "unknown media error"@,
                },
            }
        } else if e == "mse_addSourceBuffer"@ {
            match mime {
                Some(m) => HookReport::CodecDetected { mime: m },
                None => HookReport::Ignored,
            }
        } else if e == "fetch"@ || e == "xhr"@ {
            let u = or_empty(url);
            if runtime_media(u) {
                HookReport::SegmentLoaded { url: u, host: host_or_empty(u) }
            } else {
                HookReport::Ignored
            }
        } else if e == "mutation_video_added"@ {
            HookReport::VideoElementAdded
        } else {
            HookReport::Ignored
        }
    }
}

/// Whether an optional field holds exactly the given text.
fn field_is(o: &Option<String>, t: &str) -> (r: bool)
    ensures
        r == (opt_text(*o) == Some(t@)),
{
    match o {
        Some(s) => seq_eq(&chars_of(s.as_str()), &chars_of(t)),
        None => false,
    }
}

/// A copy of an optional field, or the empty string.
fn text_or_empty(o: &Option<String>) -> (r: String)
    ensures
        r@ == or_empty(opt_text(*o)),
{
    match o {
        Some(s) => s.clone(),
        None => String::new(),
    }
}

/// Each media event of an `np-hook` message reports its own playback
/// event, whatever the message's other fields hold: `playing_event` a
/// start, `pause` and `pause_event` a pause, `waiting_event` the start of
/// buffering and `canplay_event` its end, `ended_event` the end,
/// `error_event` an error, `mutation_video_added` a new video element,
/// `mse_addSourceBuffer` with a MIME type the codec it names, and a
/// `fetch` or `xhr` of a media URL a loaded segment.
/// A message of any other type is no hook message.
pub proof fn hook_events_report_their_event(
    kind: Option<Seq<char>>,
    event: Seq<char>,
    src: Option<Seq<char>>,
    msg: Option<Seq<char>>,
    mime: Option<Seq<char>>,
    url: Option<Seq<char>>,
)
    ensures
        kind != Some("np-hook"@) ==> hook_report((kind, Some(event), src, msg, mime, url)) == HookReport::NotHook,
        kind == Some("np-hook"@) ==> ({
            let r = hook_report((kind, Some(event), src, msg, mime, url));
            &&& event == "playing_event"@ ==> r is PlayStarted
            &&& (event == "pause"@ || event == "pause_event"@) ==> r == HookReport::PlayPaused
            &&& event == "waiting_event"@ ==> r == HookReport::BufferStarted
            &&& event == "canplay_event"@ ==> r == HookReport::BufferEnded
            &&& event == "ended_event"@ ==> r == HookReport::PlayEnded
            &&& event == "error_event"@ ==> r is VideoError
            &&& event == "mutation_video_added"@ ==> r == HookReport::VideoElementAdded
            &&& event == "mse_addSourceBuffer"@ && mime is Some ==> r == HookReport::CodecDetected {
                mime: mime->0,
            }
            &&& (event == "fetch"@ || event == "xhr"@) && url is Some && runtime_media(url->0) ==> r
                is SegmentLoaded
        }),
{
    reveal_strlit("playing_event");
    reveal_strlit("pause");
    reveal_strlit("pause_event");
    reveal_strlit("waiting_event");
    reveal_strlit("canplay_event");
    reveal_strlit("ended_event");
    reveal_strlit("error_event");
    reveal_strlit("mse_addSourceBuffer");
    reveal_strlit("fetch");
    reveal_strlit("xhr");
    reveal_strlit("mutation_video_added");
    assert("playing_event"@[0] != "waiting_event"@[0] && "playing_event"@[0] != "canplay_event"@[0]
        && "waiting_event"@[0] != "canplay_event"@[0]);
    assert("pause_event"@[0] != "ended_event"@[0] && "pause_event"@[0] != "error_event"@[0]
        && "ended_event"@[1] != "error_event"@[1]);
    assert("pause"@[0] != "fetch"@[0]);
    assert("playing_event"@.len() == 13 && "canplay_event"@.len() == 13 && "waiting_event"@.len() == 13);
    assert("pause_event"@.len() == 11 && "ended_event"@.len() == 11 && "error_event"@.len() == 11);
    assert("mutation_video_added"@.len() == 20 && "mse_addSourceBuffer"@.len() == 19);
    assert("fetch"@.len() == 5 && "xhr"@.len() == 3 && "pause"@.len() == 5);
}

/// What a hook message reports.
pub fn classify_hook_message(m: &HookMessage) -> (r: HookOutcome)
    ensures
        r@ == hook_report(m.fields()),
{
    if !field_is(&m.kind, "np-hook") {
        return HookOutcome::NotHook;
    }
    let ev = text_or_empty(&m.event);
    let e = chars_of(ev.as_str());
    if seq_eq(&e, &chars_of("playing_event")) {
        let src = match &m.src {
            Some(s) => if chars_of(s.as_str()).len() > 0 {
                Some(s.clone())
            } else {
                None
            },
            None => None,
        };
        HookOutcome::PlayStarted { src }
    } else if seq_eq(&e, &chars_of("pause")) || seq_eq(&e, &chars_of("pause_event")) {
        HookOutcome::PlayPaused
    } else if seq_eq(&e, &chars_of("waiting_event")) {
        HookOutcome::BufferStarted
    } else if seq_eq(&e, &chars_of("canplay_event")) {
        HookOutcome::BufferEnded
    } else if seq_eq(&e, &chars_of("ended_event")) {
        HookOutcome::PlayEnded
    } else if seq_eq(&e, &chars_of("error_event")) {
        let message = match &m.msg {
            Some(s) => s.clone(),
            None => owned("unknown media error"),
        };
        HookOutcome::VideoError { message }
    } else if seq_eq(&e, &chars_of("mse_addSourceBuffer")) {
        match &m.mime {
            Some(s) => HookOutcome::CodecDetected { mime: s.clone() },
            None => HookOutcome::Ignored,
        }
    } else if seq_eq(&e, &chars_of("fetch")) || seq_eq(&e, &chars_of("xhr")) {
        let u = text_or_empty(&m.url);
        if is_media_url(u.as_str()) {
            let host = url_host(u.as_str());
            HookOutcome::SegmentLoaded { url: u, host }
        } else {
            HookOutcome::Ignored
        }
    } else if seq_eq(&e, &chars_of("mutation_video_added")) {
        HookOutcome::VideoElementAdded
    } else {
        HookOutcome::Ignored
    }
}

/// What a console line amounts to: not a hook message when it is not JSON
/// or its `type` is not `np-hook`; otherwise what the message reports.
pub fn handle_np_hook(text: &str) -> (r: HookOutcome)
    ensures
        r@ == match hook_json_fields(text@) {
            Some(f) => hook_report(f),
            None => HookReport::NotHook,
        },
{
    match read_hook_message(text) {
        Some(m) => classify_hook_message(&m),
        None => HookOutcome::NotHook,
    }
}

} // verus!
