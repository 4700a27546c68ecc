//! The watch loop of a video test: after each poll of the video element it
//! decides whether to try again to start playback, and whether to stop.
//! The escalation goes from the first click to a second real click after
//! five seconds, then to a scripted start after fifteen; the loop ends once
//! the video has played long enough, or thirty seconds after the playing
//! time that was asked for.

use vstd::prelude::*;

verus! {

/// Nanoseconds in a second.
pub const NANOS_PER_SEC: u128 = 1_000_000_000;

/// Seconds before a second click is tried.
pub const SECOND_CLICK_SECS: u128 = 5;

/// Seconds before a scripted start is tried.
pub const SCRIPTED_START_SECS: u128 = 15;

/// Seconds the loop waits beyond the playing time that was asked for.
pub const EXTRA_WAIT_SECS: u128 = 30;

/// What the loop does after a poll.
#[derive(Debug, Clone, Copy, PartialEq, Eq, Structural)]
pub struct PollPlan {
    /// Click a play control (or the centre of the page) again.
    pub click_again: bool,
    /// Start the video from a script again.
    pub start_again: bool,
    /// Leave the loop.
    pub stop: bool,
}

/// The longest the loop runs, in nanoseconds, for a requested playing time.
pub open spec fn deadline_nanos(play_secs: u64) -> int {
    (play_secs + EXTRA_WAIT_SECS) * NANOS_PER_SEC
}

/// The plan after a poll: `playing` says whether playback has been seen,
/// `clicked_again` and `started_again` whether those steps were taken
/// already, `elapsed_nanos` the time since the loop began, and
/// `played_enough` whether the video has played for the requested time.
pub open spec fn poll_plan(
    playing: bool,
    clicked_again: bool,
    started_again: bool,
    elapsed_nanos: u128,
    play_secs: u64,
    played_enough: bool,
) -> PollPlan {
    PollPlan {
        click_again: !playing && !clicked_again && elapsed_nanos >= SECOND_CLICK_SECS * NANOS_PER_SEC,
        start_again: !playing && !started_again && elapsed_nanos >= SCRIPTED_START_SECS * NANOS_PER_SEC,
        stop: elapsed_nanos >= deadline_nanos(play_secs) || (playing && played_enough),
    }
}

/// Decides what the loop does after a poll.
pub fn plan_after_poll(
    playing: bool,
    clicked_again: bool,
    started_again: bool,
    elapsed_nanos: u128,
    play_secs: u64,
    played_enough: bool,
) -> (r: PollPlan)
    ensures
        r == poll_plan(playing, clicked_again, started_again, elapsed_nanos, play_secs, played_enough),
{
    let deadline: u128 = (play_secs as u128 + EXTRA_WAIT_SECS) * NANOS_PER_SEC;
    PollPlan {
        click_again: !playing && !clicked_again && elapsed_nanos >= SECOND_CLICK_SECS * NANOS_PER_SEC,
        start_again: !playing && !started_again && elapsed_nanos >= SCRIPTED_START_SECS * NANOS_PER_SEC,
        stop: elapsed_nanos >= deadline || (playing && played_enough),
    }
}

/// Once playback has been seen no further attempt to start it is made;
/// each attempt is asked for only while it has not been made; and the loop
/// always ends by its deadline.
pub proof fn escalation_stops_once_playing(
    playing: bool,
    clicked_again: bool,
    started_again: bool,
    elapsed_nanos: u128,
    play_secs: u64,
    played_enough: bool,
)
    ensures
        ({
            let p = poll_plan(playing, clicked_again, started_again, elapsed_nanos, play_secs, played_enough);
            &&& playing ==> !p.click_again && !p.start_again
            &&& clicked_again ==> !p.click_again
            &&& started_again ==> !p.start_again
            &&& elapsed_nanos >= deadline_nanos(play_secs) ==> p.stop
            &&& p.start_again ==> elapsed_nanos >= SECOND_CLICK_SECS * NANOS_PER_SEC
        }),
{
}

} // verus!
