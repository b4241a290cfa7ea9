use ascii_render::playback::{
    delay_after, extraction_args, frame_interval_nanos, step, PlaybackAction, PlaybackEvent,
    PlaybackState,
};

fn drive(events: &[PlaybackEvent], interval: u64) -> (PlaybackState, Vec<PlaybackAction>) {
    let mut state = PlaybackState::Idle;
    let mut actions = Vec::new();
    for event in events {
        let (next, action) = step(state, *event, interval);
        state = next;
        actions.push(action);
    }
    (state, actions)
}

fn events_of_a_run(frames: usize, elapsed: u64) -> Vec<PlaybackEvent> {
    let mut events = vec![
        PlaybackEvent::Start,
        PlaybackEvent::Completed,
        PlaybackEvent::ExtractorExited { status: 0 },
        PlaybackEvent::Completed,
        PlaybackEvent::FramesListed { count: frames },
    ];
    for _ in 0..frames {
        events.push(PlaybackEvent::FrameShown { elapsed_nanos: elapsed });
        events.push(PlaybackEvent::Completed);
    }
    events.push(PlaybackEvent::Completed);
    events
}

#[test]
fn frame_interval_is_a_second_over_the_rate() {
    assert_eq!(frame_interval_nanos(0), None);
    assert_eq!(frame_interval_nanos(1), Some(1_000_000_000));
    assert_eq!(frame_interval_nanos(24), Some(41_666_666));
    assert_eq!(frame_interval_nanos(30), Some(33_333_333));
    assert_eq!(frame_interval_nanos(60), Some(16_666_666));
    assert_eq!(frame_interval_nanos(u32::MAX), Some(0));
}

#[test]
fn pause_is_what_is_left_of_the_interval() {
    assert_eq!(delay_after(33_333_333, 0), 33_333_333);
    assert_eq!(delay_after(33_333_333, 13_333_333), 20_000_000);
    assert_eq!(delay_after(33_333_333, 33_333_332), 1);
    assert_eq!(delay_after(33_333_333, 33_333_333), 0);
    assert_eq!(delay_after(33_333_333, 50_000_000), 0);
    assert_eq!(delay_after(0, 0), 0);
    assert_eq!(delay_after(u64::MAX, 1), u64::MAX - 1);
}

#[test]
fn pause_never_shortens_a_frame() {
    for interval in [0u64, 1, 10, 1000] {
        for elapsed in [0u64, 1, 9, 10, 11, 5000] {
            let total = elapsed + delay_after(interval, elapsed);
            assert_eq!(total, interval.max(elapsed));
        }
    }
}

#[test]
fn extractor_gets_input_filter_and_pattern() {
    let args = extraction_args("assets/clip.mp4", 30, 160, "assets/frames/frame_%04d.png");
    assert_eq!(
        args,
        vec!["-i", "assets/clip.mp4", "-vf", "fps=30,scale=160:-1", "assets/frames/frame_%04d.png"]
    );
    let args = extraction_args("", 0, u32::MAX, "");
    assert_eq!(args, vec!["-i", "", "-vf", "fps=0,scale=4294967295:-1", ""]);
    let args = extraction_args("a b.mkv", 1000, 7, "out%d.jpg");
    assert_eq!(args[3], "fps=1000,scale=7:-1");
}

#[test]
fn run_without_trouble_shows_every_frame_in_order() {
    let (state, actions) = drive(&events_of_a_run(3, 13_333_333), 33_333_333);
    assert_eq!(state, PlaybackState::Done);
    assert_eq!(
        actions,
        vec![
            PlaybackAction::ResetFrameDirectory,
            PlaybackAction::ExtractFrames,
            PlaybackAction::EnterScreen,
            PlaybackAction::ListFrames,
            PlaybackAction::ShowFrame { index: 0 },
            PlaybackAction::Sleep { nanos: 20_000_000 },
            PlaybackAction::ShowFrame { index: 1 },
            PlaybackAction::Sleep { nanos: 20_000_000 },
            PlaybackAction::ShowFrame { index: 2 },
            PlaybackAction::Sleep { nanos: 20_000_000 },
            PlaybackAction::LeaveScreen,
            PlaybackAction::Finish,
        ]
    );
}

#[test]
fn run_without_frames_leaves_the_screen_at_once() {
    let (state, actions) = drive(&events_of_a_run(0, 0), 1000);
    assert_eq!(state, PlaybackState::Done);
    assert_eq!(
        actions,
        vec![
            PlaybackAction::ResetFrameDirectory,
            PlaybackAction::ExtractFrames,
            PlaybackAction::EnterScreen,
            PlaybackAction::ListFrames,
            PlaybackAction::LeaveScreen,
            PlaybackAction::Finish,
        ]
    );
}

#[test]
fn slow_frame_is_followed_by_no_pause() {
    let state = PlaybackState::Showing { index: 4, total: 9 };
    let (next, action) = step(state, PlaybackEvent::FrameShown { elapsed_nanos: 40_000_000 }, 33_333_333);
    assert_eq!(next, PlaybackState::Pacing { index: 4, total: 9 });
    assert_eq!(action, PlaybackAction::Sleep { nanos: 0 });
}

#[test]
fn extractor_that_fails_ends_the_run() {
    for status in [1, 2, -1, 127, i32::MIN, i32::MAX] {
        let events = [
            PlaybackEvent::Start,
            PlaybackEvent::Completed,
            PlaybackEvent::ExtractorExited { status },
        ];
        let (state, actions) = drive(&events, 1000);
        assert_eq!(state, PlaybackState::Failed);
        assert_eq!(
            actions,
            vec![
                PlaybackAction::ResetFrameDirectory,
                PlaybackAction::ExtractFrames,
                PlaybackAction::Abort,
            ]
        );
    }
}

#[test]
fn failure_before_the_screen_is_entered_ends_the_run() {
    for state in [PlaybackState::Idle, PlaybackState::Resetting, PlaybackState::Extracting] {
        assert_eq!(
            step(state, PlaybackEvent::Failure, 1000),
            (PlaybackState::Failed, PlaybackAction::Abort)
        );
    }
}

#[test]
fn failure_on_the_alternate_screen_leaves_it_first() {
    let entered = [
        PlaybackState::Entering,
        PlaybackState::Listing,
        PlaybackState::Showing { index: 0, total: 2 },
        PlaybackState::Pacing { index: 1, total: 2 },
    ];
    for state in entered {
        let (next, action) = step(state, PlaybackEvent::Failure, 1000);
        assert_eq!(next, PlaybackState::Leaving { failed: true });
        assert_eq!(action, PlaybackAction::LeaveScreen);
        assert_eq!(
            step(next, PlaybackEvent::Completed, 1000),
            (PlaybackState::Failed, PlaybackAction::Abort)
        );
    }
}

#[test]
fn failure_while_leaving_ends_the_run() {
    for failed in [false, true] {
        assert_eq!(
            step(PlaybackState::Leaving { failed }, PlaybackEvent::Failure, 1000),
            (PlaybackState::Failed, PlaybackAction::Abort)
        );
    }
}

#[test]
fn unexpected_event_counts_as_a_failure() {
    assert_eq!(
        step(PlaybackState::Idle, PlaybackEvent::Completed, 1000),
        (PlaybackState::Failed, PlaybackAction::Abort)
    );
    assert_eq!(
        step(PlaybackState::Resetting, PlaybackEvent::ExtractorExited { status: 0 }, 1000),
        (PlaybackState::Failed, PlaybackAction::Abort)
    );
    assert_eq!(
        step(PlaybackState::Listing, PlaybackEvent::Completed, 1000),
        (PlaybackState::Leaving { failed: true }, PlaybackAction::LeaveScreen)
    );
    assert_eq!(
        step(PlaybackState::Showing { index: 0, total: 1 }, PlaybackEvent::Start, 1000),
        (PlaybackState::Leaving { failed: true }, PlaybackAction::LeaveScreen)
    );
}

#[test]
fn ended_run_stays_ended() {
    let events = [
        PlaybackEvent::Start,
        PlaybackEvent::Completed,
        PlaybackEvent::ExtractorExited { status: 0 },
        PlaybackEvent::FramesListed { count: 3 },
        PlaybackEvent::FrameShown { elapsed_nanos: 1 },
        PlaybackEvent::Failure,
    ];
    for event in events {
        assert_eq!(step(PlaybackState::Done, event, 5), (PlaybackState::Done, PlaybackAction::Finish));
        assert_eq!(
            step(PlaybackState::Failed, event, 5),
            (PlaybackState::Failed, PlaybackAction::Abort)
        );
    }
}

#[test]
fn last_frame_is_followed_by_leaving() {
    assert_eq!(
        step(PlaybackState::Pacing { index: 8, total: 9 }, PlaybackEvent::Completed, 5),
        (PlaybackState::Leaving { failed: false }, PlaybackAction::LeaveScreen)
    );
    assert_eq!(
        step(PlaybackState::Pacing { index: 7, total: 9 }, PlaybackEvent::Completed, 5),
        (PlaybackState::Showing { index: 8, total: 9 }, PlaybackAction::ShowFrame { index: 8 })
    );
    assert_eq!(
        step(PlaybackState::Pacing { index: usize::MAX, total: usize::MAX }, PlaybackEvent::Completed, 5),
        (PlaybackState::Leaving { failed: false }, PlaybackAction::LeaveScreen)
    );
}

#[test]
fn screen_is_left_as_often_as_entered() {
    let full = events_of_a_run(2, 0);
    for cut in 0..=full.len() {
        let mut events: Vec<PlaybackEvent> = full[..cut].to_vec();
        events.push(PlaybackEvent::Failure);
        events.push(PlaybackEvent::Completed);
        let (state, actions) = drive(&events, 10);
        let entered = actions.iter().filter(|a| **a == PlaybackAction::EnterScreen).count();
        let left = actions.iter().filter(|a| **a == PlaybackAction::LeaveScreen).count();
        assert!(state == PlaybackState::Done || state == PlaybackState::Failed);
        assert!(entered <= 1);
        assert_eq!(left, entered);
    }
}
