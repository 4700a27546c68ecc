//! Getting a video to play: the escalation from waiting for autoplay, to a
//! simulated click, to a second attempt, and what is concluded when none of
//! them works.
//!
//! The waiting itself (sleeping between checks, clicking) is done by the
//! caller; the controller decides after each check what comes next.

use vstd::prelude::*;
use core::time::Duration;
use std::time::Instant;
use crate::clock::{elapsed_since, instant_now, nanos_since};
use crate::text::{opt_text, owned};

verus! {

/// How playback was brought about.
#[derive(Debug, Clone, Copy, PartialEq, Eq, Structural)]
pub enum TriggerMethod {
    /// The page started playing by itself.
    Auto,
    /// A simulated click started it.
    Click,
    /// The second attempt started it.
    Keyboard,
    /// Nothing started it.
    NotTriggered,
}

/// The label of a trigger method, as reported.
pub open spec fn label_of(m: TriggerMethod) -> Seq<char> {
    match m {
        TriggerMethod::Auto => "auto"@,
        TriggerMethod::Click => "click"@,
        TriggerMethod::Keyboard => "keyboard"@,
        TriggerMethod::NotTriggered => "none"@,
    }
}

/// What the caller does next.
#[derive(Debug, Clone, Copy, PartialEq, Eq, Structural)]
pub enum PlaybackStep {
    /// Wait one check interval, then check again.
    Continue,
    /// Click the page, wait one check interval, then check again.
    Click,
    /// The attempt is over, with this outcome.
    Finished(TriggerMethod),
}

/// The seconds between two checks.
pub const CHECK_INTERVAL_SECS: u64 = 2;

/// The stages of the escalation: waiting for autoplay, after the first
/// click, after the second attempt; then done.
pub const STAGE_AUTO: u8 = 0;
pub const STAGE_CLICK: u8 = 1;
pub const STAGE_RETRY: u8 = 2;
pub const STAGE_DONE: u8 = 3;

/// The state of a playback attempt, as the contracts see it.
pub struct PlaybackView {
    pub max_wait_secs: u64,
    pub trigger_method: TriggerMethod,
    pub video_element_found: bool,
    pub media_event_count: u32,
    pub network_media_request_count: u32,
    pub last_error: Option<Seq<char>>,
    pub player_created: bool,
    pub stage: u8,
    pub checks: u32,
}

/// The playback controller.
pub struct PlaybackController {
    max_wait_secs: u64,
    check_interval_secs: u64,
    start: Instant,
    trigger_method: TriggerMethod,
    video_element_found: bool,
    media_event_count: u32,
    network_media_request_count: u32,
    last_error: Option<String>,
    player_created: bool,
    stage: u8,
    checks: u32,
}

impl View for PlaybackController {
    type V = PlaybackView;

    closed spec fn view(&self) -> PlaybackView {
        PlaybackView {
            max_wait_secs: self.max_wait_secs,
            trigger_method: self.trigger_method,
            video_element_found: self.video_element_found,
            media_event_count: self.media_event_count,
            network_media_request_count: self.network_media_request_count,
            last_error: opt_text(self.last_error),
            player_created: self.player_created,
            stage: self.stage,
            checks: self.checks,
        }
    }
}

/// How many checks each stage makes at most.
pub open spec fn stage_checks(stage: u8) -> u32 {
    if stage == STAGE_AUTO {
        6
    } else if stage == STAGE_CLICK {
        6
    } else {
        10
    }
}

/// How playback counts as brought about in each stage.
pub open spec fn stage_method(stage: u8) -> TriggerMethod {
    if stage == STAGE_AUTO {
        TriggerMethod::Auto
    } else if stage == STAGE_CLICK {
        TriggerMethod::Click
    } else {
        TriggerMethod::Keyboard
    }
}

/// A stage's time is up: after 12 s for the first, after 40 s for the
/// second, at the maximum wait for the last.
pub open spec fn stage_over(stage: u8, elapsed_nanos: u128, max_wait_secs: u64) -> bool {
    if stage == STAGE_AUTO {
        elapsed_nanos > 12_000_000_000
    } else if stage == STAGE_CLICK {
        elapsed_nanos > 40_000_000_000
    } else {
        elapsed_nanos >= max_wait_secs * 1_000_000_000
    }
}

/// Playback has evidently started: a player was created, or more than two
/// media events were seen.
pub open spec fn triggered(v: PlaybackView) -> bool {
    v.player_created || v.media_event_count > 2
}

/// The state is one the controller can be in: a stage that is not done has
/// made fewer checks than it may.
pub open spec fn well_formed(v: PlaybackView) -> bool {
    &&& v.stage <= STAGE_DONE
    &&& v.stage < STAGE_DONE ==> v.checks < stage_checks(v.stage)
}

/// How many more checks the attempt can make at most.
pub open spec fn remaining_checks(v: PlaybackView) -> int {
    if v.stage == STAGE_AUTO {
        (6 - v.checks) + 6 + 10
    } else if v.stage == STAGE_CLICK {
        (6 - v.checks) + 10
    } else if v.stage == STAGE_RETRY {
        10 - v.checks
    } else {
        0
    }
}

pub open spec fn activity_message() -> Seq<char> {
    "有播放活动但未检测到 playerCreated"@
}

pub open spec fn requests_message() -> Seq<char> {
    "检测到媒体请求但无播放事件"@
}

pub open spec fn nothing_message() -> Seq<char> {
    "未能触发播放: 60s 内无播放器创建/播放事件/媒体请求"@
}

/// What is concluded when every stage ran out: some playback activity, or
/// media requests, count as autoplay with a note; otherwise the method is
/// left as it was, with a note that nothing happened.
pub open spec fn timed_out(v: PlaybackView, checks: u32) -> PlaybackView {
    if v.media_event_count > 0 || v.video_element_found {
        PlaybackView {
            trigger_method: TriggerMethod::Auto,
            last_error: Some(activity_message()),
            stage: STAGE_DONE,
            checks,
            ..v
        }
    } else if v.network_media_request_count > 0 {
        PlaybackView {
            trigger_method: TriggerMethod::Auto,
            last_error: Some(requests_message()),
            stage: STAGE_DONE,
            checks,
            ..v
        }
    } else {
        PlaybackView { last_error: Some(nothing_message()), stage: STAGE_DONE, checks, ..v }
    }
}

/// The state after one check made `elapsed_nanos` after the start, and what
/// the caller does next.
pub open spec fn after_check_spec(v: PlaybackView, elapsed_nanos: u128) -> (PlaybackView, PlaybackStep) {
    if v.stage >= STAGE_DONE {
        (v, PlaybackStep::Finished(v.trigger_method))
    } else if triggered(v) {
        let m = stage_method(v.stage);
        (PlaybackView { trigger_method: m, stage: STAGE_DONE, ..v }, PlaybackStep::Finished(m))
    } else {
        let c = (v.checks + 1) as u32;
        if stage_over(v.stage, elapsed_nanos, v.max_wait_secs) || c == stage_checks(v.stage) {
            if v.stage < STAGE_RETRY {
                (PlaybackView { stage: (v.stage + 1) as u8, checks: 0, ..v }, PlaybackStep::Click)
            } else {
                let w = timed_out(v, c);
                (w, PlaybackStep::Finished(w.trigger_method))
            }
        } else {
            (PlaybackView { checks: c, ..v }, PlaybackStep::Continue)
        }
    }
}

impl PlaybackController {
    #[verifier::type_invariant]
    spec fn inv(self) -> bool {
        &&& well_formed(self@)
        &&& self.check_interval_secs == CHECK_INTERVAL_SECS
    }

    /// A controller that gives up after `max_wait_secs` seconds of the last
    /// stage; nothing has been seen yet.
    pub fn new(max_wait_secs: u64) -> (r: PlaybackController)
        ensures
            r@ == (PlaybackView {
                max_wait_secs,
                trigger_method: TriggerMethod::NotTriggered,
                video_element_found: false,
                media_event_count: 0,
                network_media_request_count: 0,
                last_error: None,
                player_created: false,
                stage: STAGE_AUTO,
                checks: 0,
            }),
    {
        PlaybackController {
            max_wait_secs,
            check_interval_secs: CHECK_INTERVAL_SECS,
            start: instant_now(),
            trigger_method: TriggerMethod::NotTriggered,
            video_element_found: false,
            media_event_count: 0,
            network_media_request_count: 0,
            last_error: None,
            player_created: false,
            stage: STAGE_AUTO,
            checks: 0,
        }
    }

    /// The page created a media player.
    pub fn on_media_created(&mut self)
        ensures
            final(self)@ == (PlaybackView { player_created: true, ..old(self)@ }),
    {
        proof { use_type_invariant(&*self); }
        self.player_created = true;
    }

    /// The page reported a media event.
    pub fn on_media_event(&mut self)
        requires
            old(self)@.media_event_count < u32::MAX,
        ensures
            final(self)@ == (PlaybackView {
                media_event_count: (old(self)@.media_event_count + 1) as u32,
                ..old(self)@
            }),
    {
        proof { use_type_invariant(&*self); }
        self.media_event_count = self.media_event_count + 1;
    }

    /// The page requested a media resource.
    pub fn on_network_media(&mut self)
        requires
            old(self)@.network_media_request_count < u32::MAX,
        ensures
            final(self)@ == (PlaybackView {
                network_media_request_count: (old(self)@.network_media_request_count + 1) as u32,
                ..old(self)@
            }),
    {
        proof { use_type_invariant(&*self); }
        self.network_media_request_count = self.network_media_request_count + 1;
    }

    /// A video element was found on the page.
    pub fn set_video_found(&mut self)
        ensures
            final(self)@ == (PlaybackView { video_element_found: true, ..old(self)@ }),
    {
        proof { use_type_invariant(&*self); }
        self.video_element_found = true;
    }

    /// The time since the controller was made. It depends on the clock, so
    /// nothing is claimed of it.
    pub fn elapsed(&self) -> (r: Duration) {
        elapsed_since(&self.start)
    }

    /// The time since the controller was made, in nanoseconds. It depends on
    /// the clock, so nothing is claimed of it.
    pub fn elapsed_nanos(&self) -> (r: u128) {
        nanos_since(&self.start)
    }

    /// The seconds the caller waits between two checks.
    pub fn check_interval_secs(&self) -> (r: u64)
        ensures
            r == CHECK_INTERVAL_SECS,
    {
        proof { use_type_invariant(self); }
        self.check_interval_secs
    }

    /// How playback was brought about so far.
    pub fn trigger_method(&self) -> (r: TriggerMethod)
        ensures
            r == self@.trigger_method,
    {
        self.trigger_method
    }

    /// The label of the trigger method: `auto`, `click`, `keyboard` or
    /// `none`.
    pub fn trigger_label(&self) -> (r: &'static str)
        ensures
            r@ == label_of(self@.trigger_method),
    {
        proof {
            reveal_strlit("auto");
            reveal_strlit("click");
            reveal_strlit("keyboard");
            reveal_strlit("none");
        }
        match self.trigger_method {
            TriggerMethod::Auto => "auto",
            TriggerMethod::Click => "click",
            TriggerMethod::Keyboard => "keyboard",
            TriggerMethod::NotTriggered => "none",
        }
    }

    /// One check, made `elapsed_nanos` after the start: the controller
    /// records what it concludes and says what the caller does next.
    pub fn after_check(&mut self, elapsed_nanos: u128) -> (r: PlaybackStep)
        ensures
            (final(self)@, r) == after_check_spec(old(self)@, elapsed_nanos),
    {
        proof { use_type_invariant(&*self); }
        if self.stage >= STAGE_DONE {
            return PlaybackStep::Finished(self.trigger_method);
        }
        if self.player_created || self.media_event_count > 2 {
            let m = if self.stage == STAGE_AUTO {
                TriggerMethod::Auto
            } else if self.stage == STAGE_CLICK {
                TriggerMethod::Click
            } else {
                TriggerMethod::Keyboard
            };
            self.trigger_method = m;
            self.stage = STAGE_DONE;
            return PlaybackStep::Finished(m);
        }
        let c = self.checks + 1;
        let limit: u32 = if self.stage == STAGE_RETRY { 10 } else { 6 };
        let over = if self.stage == STAGE_AUTO {
            elapsed_nanos > 12_000_000_000
        } else if self.stage == STAGE_CLICK {
            elapsed_nanos > 40_000_000_000
        } else {
            elapsed_nanos >= (self.max_wait_secs as u128) * 1_000_000_000
        };
        if over || c == limit {
            if self.stage < STAGE_RETRY {
                self.stage = self.stage + 1;
                self.checks = 0;
                PlaybackStep::Click
            } else {
                self.stage = STAGE_DONE;
                self.checks = c;
                if self.media_event_count > 0 || self.video_element_found {
                    self.trigger_method = TriggerMethod::Auto;
                    self.last_error = Some(owned("有播放活动但未检测到 playerCreated"));
                } else if self.network_media_request_count > 0 {
                    self.trigger_method = TriggerMethod::Auto;
                    self.last_error = Some(owned("检测到媒体请求但无播放事件"));
                } else {
                    self.last_error = Some(owned("未能触发播放: 60s 内无播放器创建/播放事件/媒体请求"));
                }
                PlaybackStep::Finished(self.trigger_method)
            }
        } else {
            self.checks = c;
            PlaybackStep::Continue
        }
    }

    /// What has been seen so far, and how long it has taken (the last of
    /// which depends on the clock).
    pub fn diagnostics(&self) -> (r: VideoDiagnostics)
        ensures
            r.player_created == self@.player_created,
            r.media_event_count == self@.media_event_count,
            r.network_media_request_count == self@.network_media_request_count,
            r.video_element_found == self@.video_element_found,
            r.trigger_method@ == label_of(self@.trigger_method),
            opt_text(r.last_error) == self@.last_error,
    {
        let waited = nanos_since(&self.start) / 1_000_000;
        let total_wait_ms: u64 = if waited > u64::MAX as u128 {
            #[verifier::truncate]
            (waited as u64)
        } else {
            waited as u64
        };
        VideoDiagnostics {
            player_created: self.player_created,
            media_event_count: self.media_event_count,
            network_media_request_count: self.network_media_request_count,
            video_element_found: self.video_element_found,
            trigger_method: owned(self.trigger_label()),
            last_error: match &self.last_error {
                Some(e) => Some(e.clone()),
                None => None,
            },
            total_wait_ms,
        }
    }
}

/// What a playback attempt saw.
#[derive(Debug, Clone)]
pub struct VideoDiagnostics {
    pub player_created: bool,
    pub media_event_count: u32,
    pub network_media_request_count: u32,
    pub video_element_found: bool,
    pub trigger_method: String,
    pub last_error: Option<String>,
    pub total_wait_ms: u64,
}

/// Every attempt ends within 22 checks: a well-formed state can make at
/// most that many more, and each check that does not end the attempt uses
/// one of them up.
pub proof fn escalation_is_bounded(v: PlaybackView, elapsed_nanos: u128)
    requires
        well_formed(v),
    ensures
        0 <= remaining_checks(v) <= 22,
        well_formed(after_check_spec(v, elapsed_nanos).0),
        after_check_spec(v, elapsed_nanos).1 is Finished
            || remaining_checks(after_check_spec(v, elapsed_nanos).0) < remaining_checks(v),
        after_check_spec(v, elapsed_nanos).1 is Finished ==> after_check_spec(v, elapsed_nanos).0.stage
            == STAGE_DONE,
{
}

/// An attempt that ends with no trigger method, from a state that had none,
/// saw no player, no media event, no video element and no media request.
pub proof fn silent_page_is_reported_untriggered(v: PlaybackView, elapsed_nanos: u128)
    requires
        well_formed(v),
        v.stage < STAGE_DONE,
        v.trigger_method == TriggerMethod::NotTriggered,
        after_check_spec(v, elapsed_nanos).1 == PlaybackStep::Finished(TriggerMethod::NotTriggered),
    ensures
        !v.player_created,
        v.media_event_count == 0,
        !v.video_element_found,
        v.network_media_request_count == 0,
        after_check_spec(v, elapsed_nanos).0.last_error == Some(nothing_message()),
{
}

/// Once an attempt is over, further checks change nothing and report the
/// same outcome.
pub proof fn finished_attempt_is_stable(v: PlaybackView, elapsed_nanos: u128)
    requires
        v.stage == STAGE_DONE,
    ensures
        after_check_spec(v, elapsed_nanos) == (v, PlaybackStep::Finished(v.trigger_method)),
{
}

/// A media event (`true`) or a media request (`false`), as reported to
/// `on_media_event` and `on_network_media`.
pub open spec fn after_event(v: PlaybackView, media: bool) -> PlaybackView {
    if media {
        PlaybackView { media_event_count: (v.media_event_count + 1) as u32, ..v }
    } else {
        PlaybackView { network_media_request_count: (v.network_media_request_count + 1) as u32, ..v }
    }
}

/// The state after a sequence of media events and media requests.
pub open spec fn after_events(v: PlaybackView, events: Seq<bool>) -> PlaybackView
    decreases events.len(),
{
    if events.len() == 0 {
        v
    } else {
        after_event(after_events(v, events.drop_last()), events.last())
    }
}

/// How many of the events are of the given kind.
pub open spec fn count_of(events: Seq<bool>, media: bool) -> nat
    decreases events.len(),
{
    if events.len() == 0 {
        0
    } else {
        count_of(events.drop_last(), media) + if events.last() == media {
            1nat
        } else {
            0nat
        }
    }
}

/// Whatever the mix and order of media events and media requests, the
/// controller (and so its diagnostics) counts each kind exactly, and
/// nothing else about the attempt changes; from a new controller the
/// counts are just the numbers of each kind.
pub proof fn events_are_counted(v: PlaybackView, events: Seq<bool>)
    requires
        v.media_event_count + count_of(events, true) <= u32::MAX,
        v.network_media_request_count + count_of(events, false) <= u32::MAX,
    ensures
        after_events(v, events) == (PlaybackView {
            media_event_count: (v.media_event_count + count_of(events, true)) as u32,
            network_media_request_count: (v.network_media_request_count + count_of(events, false)) as u32,
            ..v
        }),
    decreases events.len(),
{
    if events.len() > 0 {
        events_are_counted(v, events.drop_last());
    }
}

} // verus!
