//! The playback driver: what to do next while the frames of a video are
//! extracted and shown, one decision at a time. The caller does the work
//! that each action names and reports back what came of it.

use vstd::prelude::*;
use vstd::string::StringExecFns;
use crate::text::{decimal, push_decimal, texts};

verus! {

/// Nanoseconds in a second.
pub const NANOS_PER_SECOND: u64 = 1_000_000_000;

/// Time from the start of one frame to the start of the next at `fps`
/// frames a second, in whole nanoseconds.
pub open spec fn frame_interval(fps: u32) -> int {
    1_000_000_000int / fps as int
}

/// Computes [`frame_interval`]; `None` for a rate of zero, which has no
/// interval.
pub fn frame_interval_nanos(fps: u32) -> (interval: Option<u64>)
    ensures
        interval is None <==> fps == 0,
        interval matches Some(nanos) ==> nanos == frame_interval(fps),
{
    if fps == 0 {
        None
    } else {
        Some(NANOS_PER_SECOND / fps as u64)
    }
}

/// How long to sleep once a frame is drawn: what is left of the interval,
/// and nothing where the frame took the whole interval or longer.
pub open spec fn pacing_delay(interval: u64, elapsed: u64) -> u64 {
    if elapsed < interval {
        (interval - elapsed) as u64
    } else {
        0
    }
}

/// Computes [`pacing_delay`].
pub fn delay_after(interval: u64, elapsed: u64) -> (nanos: u64)
    ensures
        nanos == pacing_delay(interval, elapsed),
{
    if elapsed < interval {
        interval - elapsed
    } else {
        0
    }
}

/// A frame and the pause after it never take less than the interval, and
/// the pause makes up no time that an earlier frame has lost.
pub proof fn lemma_pacing(interval: u64, elapsed: u64)
    ensures
        elapsed + pacing_delay(interval, elapsed) >= interval,
        elapsed + pacing_delay(interval, elapsed) == if elapsed < interval {
            interval as int
        } else {
            elapsed as int
        },
{
}

/// The filter that sets the frame rate and the width of the extracted
/// frames; the height follows from the width.
pub open spec fn filter_text(fps: u32, scale_width: u32) -> Seq<char> {
    seq!['f', 'p', 's', '='] + decimal(fps as nat) + seq![',', 's', 'c', 'a', 'l', 'e', '=']
        + decimal(scale_width as nat) + seq![':', '-', '1']
}

/// The arguments of the frame extractor: the input, the filter, and the
/// pattern that names the output files.
pub open spec fn extraction_args_of(
    input: Seq<char>,
    fps: u32,
    scale_width: u32,
    output_pattern: Seq<char>,
) -> Seq<Seq<char>> {
    seq![seq!['-', 'i'], input, seq!['-', 'v', 'f'], filter_text(fps, scale_width), output_pattern]
}

/// Computes [`extraction_args_of`].
pub fn extraction_args(input: &str, fps: u32, scale_width: u32, output_pattern: &str) -> (args: Vec<
    String,
>)
    ensures
        texts(args@) == extraction_args_of(input@, fps, scale_width, output_pattern@),
{
    proof {
        reveal_strlit("-i");
        reveal_strlit("-vf");
        reveal_strlit("fps=");
        reveal_strlit(",scale=");
        reveal_strlit(":-1");
    }
    let mut filter = String::from_str("fps=");
    push_decimal(&mut filter, fps);
    filter.append(",scale=");
    push_decimal(&mut filter, scale_width);
    filter.append(":-1");
    assert(filter@ =~= filter_text(fps, scale_width));
    let mut args: Vec<String> = Vec::new();
    args.push(String::from_str("-i"));
    args.push(String::from_str(input));
    args.push(String::from_str("-vf"));
    args.push(filter);
    args.push(String::from_str(output_pattern));
    assert(args@[0]@ =~= seq!['-', 'i']);
    assert(args@[2]@ =~= seq!['-', 'v', 'f']);
    args
}

/// Where a playback stands: each state but the first and the last two
/// waits for the outcome of the action that led to it.
#[derive(Clone, Copy, Debug, PartialEq, Eq, Structural)]
pub enum PlaybackState {
    Idle,
    Resetting,
    Extracting,
    Entering,
    Listing,
    Showing { index: usize, total: usize },
    Pacing { index: usize, total: usize },
    Leaving { failed: bool },
    Done,
    Failed,
}

/// What the caller reports.
#[derive(Clone, Copy, Debug, PartialEq, Eq, Structural)]
pub enum PlaybackEvent {
    Start,
    /// The action asked for was carried out.
    Completed,
    ExtractorExited { status: i32 },
    FramesListed { count: usize },
    /// The frame was decoded, fitted, converted and drawn, and that took
    /// `elapsed_nanos` from before decoding.
    FrameShown { elapsed_nanos: u64 },
    /// The action asked for could not be carried out.
    Failure,
}

/// What the caller is asked to do.
#[derive(Clone, Copy, Debug, PartialEq, Eq, Structural)]
pub enum PlaybackAction {
    /// Remove the directory of frames if it exists, and make it anew.
    ResetFrameDirectory,
    /// Run the frame extractor and wait for it to exit.
    ExtractFrames,
    EnterScreen,
    /// Find the frames in the directory, in playing order.
    ListFrames,
    ShowFrame { index: usize },
    Sleep { nanos: u64 },
    LeaveScreen,
    /// End the run with success.
    Finish,
    /// End the run with the error.
    Abort,
}

/// The alternate screen was asked for and not yet left.
pub open spec fn screen_entered(state: PlaybackState) -> bool {
    state is Entering || state is Listing || state is Showing || state is Pacing
}

/// Where a failure leads: to leaving the screen where it was entered, and
/// straight to the end of the run otherwise.
pub open spec fn on_failure(state: PlaybackState) -> (PlaybackState, PlaybackAction) {
    if screen_entered(state) {
        (PlaybackState::Leaving { failed: true }, PlaybackAction::LeaveScreen)
    } else {
        (PlaybackState::Failed, PlaybackAction::Abort)
    }
}

/// The next state and the action to take, given what the caller reports.
///
/// The run resets the directory of frames, extracts the frames, enters
/// the alternate screen, lists the frames and shows them in order, each
/// followed by a pause of [`pacing_delay`], then leaves the screen. An
/// extractor that exits with a status other than zero ends the run. An
/// event that the state does not wait for counts as a failure.
pub open spec fn next(state: PlaybackState, event: PlaybackEvent, interval: u64) -> (
    PlaybackState,
    PlaybackAction,
) {
    match (state, event) {
        (PlaybackState::Done, _) => (PlaybackState::Done, PlaybackAction::Finish),
        (PlaybackState::Failed, _) => (PlaybackState::Failed, PlaybackAction::Abort),
        (PlaybackState::Idle, PlaybackEvent::Start) => (
            PlaybackState::Resetting,
            PlaybackAction::ResetFrameDirectory,
        ),
        (PlaybackState::Resetting, PlaybackEvent::Completed) => (
            PlaybackState::Extracting,
            PlaybackAction::ExtractFrames,
        ),
        (PlaybackState::Extracting, PlaybackEvent::ExtractorExited { status }) => if status == 0 {
            (PlaybackState::Entering, PlaybackAction::EnterScreen)
        } else {
            (PlaybackState::Failed, PlaybackAction::Abort)
        },
        (PlaybackState::Entering, PlaybackEvent::Completed) => (
            PlaybackState::Listing,
            PlaybackAction::ListFrames,
        ),
        (PlaybackState::Listing, PlaybackEvent::FramesListed { count }) => if count == 0 {
            (PlaybackState::Leaving { failed: false }, PlaybackAction::LeaveScreen)
        } else {
            (PlaybackState::Showing { index: 0, total: count }, PlaybackAction::ShowFrame { index: 0 })
        },
        (PlaybackState::Showing { index, total }, PlaybackEvent::FrameShown { elapsed_nanos }) => (
            PlaybackState::Pacing { index, total },
            PlaybackAction::Sleep { nanos: pacing_delay(interval, elapsed_nanos) },
        ),
        (PlaybackState::Pacing { index, total }, PlaybackEvent::Completed) => if index + 1 < total {
            (
                PlaybackState::Showing { index: (index + 1) as usize, total },
                PlaybackAction::ShowFrame { index: (index + 1) as usize },
            )
        } else {
            (PlaybackState::Leaving { failed: false }, PlaybackAction::LeaveScreen)
        },
        (PlaybackState::Leaving { failed }, PlaybackEvent::Completed) => if failed {
            (PlaybackState::Failed, PlaybackAction::Abort)
        } else {
            (PlaybackState::Done, PlaybackAction::Finish)
        },
        _ => on_failure(state),
    }
}

/// Computes [`next`].
pub fn step(state: PlaybackState, event: PlaybackEvent, interval: u64) -> (out: (
    PlaybackState,
    PlaybackAction,
))
    ensures
        out == next(state, event, interval),
{
    match (state, event) {
        (PlaybackState::Done, _) => (PlaybackState::Done, PlaybackAction::Finish),
        (PlaybackState::Failed, _) => (PlaybackState::Failed, PlaybackAction::Abort),
        (PlaybackState::Idle, PlaybackEvent::Start) => (
            PlaybackState::Resetting,
            PlaybackAction::ResetFrameDirectory,
        ),
        (PlaybackState::Resetting, PlaybackEvent::Completed) => (
            PlaybackState::Extracting,
            PlaybackAction::ExtractFrames,
        ),
        (PlaybackState::Extracting, PlaybackEvent::ExtractorExited { status }) => if status == 0 {
            (PlaybackState::Entering, PlaybackAction::EnterScreen)
        } else {
            (PlaybackState::Failed, PlaybackAction::Abort)
        },
        (PlaybackState::Entering, PlaybackEvent::Completed) => (
            PlaybackState::Listing,
            PlaybackAction::ListFrames,
        ),
        (PlaybackState::Listing, PlaybackEvent::FramesListed { count }) => if count == 0 {
            (PlaybackState::Leaving { failed: false }, PlaybackAction::LeaveScreen)
        } else {
            (PlaybackState::Showing { index: 0, total: count }, PlaybackAction::ShowFrame { index: 0 })
        },
        (PlaybackState::Showing { index, total }, PlaybackEvent::FrameShown { elapsed_nanos }) => (
            PlaybackState::Pacing { index, total },
            PlaybackAction::Sleep { nanos: delay_after(interval, elapsed_nanos) },
        ),
        (PlaybackState::Pacing { index, total }, PlaybackEvent::Completed) => if index < total
            && index + 1 < total {
            (
                PlaybackState::Showing { index: index + 1, total },
                PlaybackAction::ShowFrame { index: index + 1 },
            )
        } else {
            (PlaybackState::Leaving { failed: false }, PlaybackAction::LeaveScreen)
        },
        (PlaybackState::Leaving { failed }, PlaybackEvent::Completed) => if failed {
            (PlaybackState::Failed, PlaybackAction::Abort)
        } else {
            (PlaybackState::Done, PlaybackAction::Finish)
        },
        (PlaybackState::Entering, _)
        | (PlaybackState::Listing, _)
        | (PlaybackState::Showing { .. }, _)
        | (PlaybackState::Pacing { .. }, _) => (
            PlaybackState::Leaving { failed: true },
            PlaybackAction::LeaveScreen,
        ),
        _ => (PlaybackState::Failed, PlaybackAction::Abort),
    }
}

/// A whole run: the state reached from `state` by the events in order,
/// and the actions taken on the way.
pub open spec fn run(state: PlaybackState, events: Seq<PlaybackEvent>, interval: u64) -> (
    PlaybackState,
    Seq<PlaybackAction>,
)
    decreases events.len(),
{
    if events.len() == 0 {
        (state, Seq::empty())
    } else {
        let (before, actions) = run(state, events.drop_last(), interval);
        let (after, action) = next(before, events.last(), interval);
        (after, actions.push(action))
    }
}

/// How often an action occurs among the actions of a run.
pub open spec fn occurrences(actions: Seq<PlaybackAction>, wanted: PlaybackAction) -> nat
    decreases actions.len(),
{
    if actions.len() == 0 {
        0
    } else {
        occurrences(actions.drop_last(), wanted) + if actions.last() == wanted {
            1nat
        } else {
            0nat
        }
    }
}

/// The frames that the actions of a run show, in the order shown.
pub open spec fn frames_shown(actions: Seq<PlaybackAction>) -> Seq<usize>
    decreases actions.len(),
{
    if actions.len() == 0 {
        Seq::empty()
    } else {
        match actions.last() {
            PlaybackAction::ShowFrame { index } => frames_shown(actions.drop_last()).push(index),
            _ => frames_shown(actions.drop_last()),
        }
    }
}

/// What holds of every run that starts idle, by the state it has reached.
spec fn reached(state: PlaybackState, actions: Seq<PlaybackAction>) -> bool {
    let entered = occurrences(actions, PlaybackAction::EnterScreen);
    let left = occurrences(actions, PlaybackAction::LeaveScreen);
    let shown = frames_shown(actions);
    &&& forall|k: int| 0 <= k < shown.len() ==> shown[k] == k
    &&& match state {
        PlaybackState::Idle | PlaybackState::Resetting | PlaybackState::Extracting => entered == 0
            && left == 0 && shown.len() == 0,
        PlaybackState::Entering | PlaybackState::Listing => entered == 1 && left == 0 && shown.len()
            == 0,
        PlaybackState::Showing { index, total } | PlaybackState::Pacing { index, total } => entered
            == 1 && left == 0 && shown.len() == index + 1 && index < total,
        PlaybackState::Leaving { .. } | PlaybackState::Done => entered == 1 && left == 1,
        PlaybackState::Failed => entered == left && left <= 1,
    }
}

proof fn lemma_reached(events: Seq<PlaybackEvent>, interval: u64)
    ensures
        reached(run(PlaybackState::Idle, events, interval).0, run(
            PlaybackState::Idle,
            events,
            interval,
        ).1),
    decreases events.len(),
{
    if events.len() > 0 {
        lemma_reached(events.drop_last(), interval);
        let (before, actions) = run(PlaybackState::Idle, events.drop_last(), interval);
        let action = next(before, events.last(), interval).1;
        assert(actions.push(action).drop_last() == actions);
    }
}

/// In every run that starts idle the alternate screen is entered at most
/// once and left no more often than entered. Once the run has ended, the
/// screen has been left exactly as often as it was entered, whether the
/// run ended well or in a failure; and a run that ended well did enter
/// it.
pub proof fn lemma_screen_is_left(events: Seq<PlaybackEvent>, interval: u64)
    ensures
        ({
            let (end, actions) = run(PlaybackState::Idle, events, interval);
            let entered = occurrences(actions, PlaybackAction::EnterScreen);
            let left = occurrences(actions, PlaybackAction::LeaveScreen);
            &&& entered <= 1
            &&& left <= entered
            &&& end is Done || end is Failed ==> left == entered
            &&& end is Done ==> entered == 1
        }),
{
    lemma_reached(events, interval);
}

/// In every run that starts idle the frames are shown in their order,
/// none left out and none twice: the `k`-th frame shown is frame `k`.
/// While a frame is shown or paced, it is the last of the frames shown so
/// far and lies within the frames listed.
pub proof fn lemma_frames_in_order(events: Seq<PlaybackEvent>, interval: u64)
    ensures
        ({
            let (end, actions) = run(PlaybackState::Idle, events, interval);
            let shown = frames_shown(actions);
            &&& forall|k: int| 0 <= k < shown.len() ==> shown[k] == k
            &&& end matches PlaybackState::Showing { index, total } ==> shown.len() == index + 1
                && index < total
            &&& end matches PlaybackState::Pacing { index, total } ==> shown.len() == index + 1
                && index < total
        }),
{
    lemma_reached(events, interval);
}

} // verus!
