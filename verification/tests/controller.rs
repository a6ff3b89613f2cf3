use spotifyctl::controller::{previous_or_restart, skip_next, toggle_play_pause, RemoteCall};
use spotifyctl::playback::{PlayableItem, PlaybackSnapshot, Position};

fn track() -> PlayableItem {
    PlayableItem::Track { artists: vec!["A".to_string()], title: "T".to_string() }
}

fn snapshot(is_playing: bool, progress_ms: Option<i64>) -> PlaybackSnapshot {
    PlaybackSnapshot {
        is_playing,
        item: Some(track()),
        progress: progress_ms.map(|ms| Position::from_millis(ms).unwrap()),
    }
}

fn restart() -> Option<RemoteCall> {
    Some(RemoteCall::Seek { position: Position::zero() })
}

#[test]
fn previous_skips_back_early_in_the_item() {
    let s = snapshot(true, Some(10_000));
    assert_eq!(previous_or_restart(Some(&s), 15), Some(RemoteCall::SkipToPrevious));
}

#[test]
fn previous_restarts_late_in_the_item() {
    let s = snapshot(true, Some(20_000));
    assert_eq!(previous_or_restart(Some(&s), 15), restart());
}

#[test]
fn previous_restarts_at_the_threshold() {
    let s = snapshot(true, Some(15_000));
    assert_eq!(previous_or_restart(Some(&s), 15), restart());
    let s = snapshot(true, Some(15_999));
    assert_eq!(previous_or_restart(Some(&s), 15), restart());
    let s = snapshot(true, Some(14_999));
    assert_eq!(previous_or_restart(Some(&s), 15), Some(RemoteCall::SkipToPrevious));
}

#[test]
fn previous_splits_every_progress_at_the_threshold() {
    for threshold in [-3i64, 0, 1, 15, 600] {
        for seconds in -5i64..700 {
            let s = snapshot(true, Some(seconds * 1_000));
            let expected =
                if seconds < threshold { Some(RemoteCall::SkipToPrevious) } else { restart() };
            assert_eq!(previous_or_restart(Some(&s), threshold), expected);
        }
    }
}

#[test]
fn previous_restarts_when_the_progress_is_unknown() {
    let s = snapshot(true, None);
    assert_eq!(previous_or_restart(Some(&s), 15), restart());
    assert_eq!(previous_or_restart(Some(&s), i64::MAX), restart());
}

#[test]
fn previous_compares_whole_seconds_at_the_extremes() {
    let s = snapshot(true, Some(i64::MAX));
    assert_eq!(previous_or_restart(Some(&s), i64::MAX), Some(RemoteCall::SkipToPrevious));
    assert_eq!(previous_or_restart(Some(&s), i64::MIN), restart());
    let s = snapshot(true, Some(-i64::MAX));
    assert_eq!(previous_or_restart(Some(&s), i64::MIN), restart());
    assert_eq!(previous_or_restart(Some(&s), 0), Some(RemoteCall::SkipToPrevious));
}

#[test]
fn previous_sends_nothing_when_nothing_plays() {
    assert_eq!(previous_or_restart(None, 15), None);
    for progress in [None, Some(0), Some(10_000), Some(20_000)] {
        let s = snapshot(false, progress);
        assert_eq!(previous_or_restart(Some(&s), 15), None);
    }
}

#[test]
fn play_pause_sends_nothing_without_a_snapshot() {
    assert_eq!(toggle_play_pause(None), None);
}

#[test]
fn play_pause_pauses_a_running_player() {
    let s = snapshot(true, Some(10_000));
    assert_eq!(toggle_play_pause(Some(&s)), Some(RemoteCall::Pause));
    let s = PlaybackSnapshot { is_playing: true, item: None, progress: None };
    assert_eq!(toggle_play_pause(Some(&s)), Some(RemoteCall::Pause));
}

#[test]
fn play_pause_resumes_a_paused_player() {
    let s = snapshot(false, Some(10_000));
    assert_eq!(toggle_play_pause(Some(&s)), Some(RemoteCall::Resume));
    let s = PlaybackSnapshot { is_playing: false, item: None, progress: None };
    assert_eq!(toggle_play_pause(Some(&s)), Some(RemoteCall::Resume));
}

#[test]
fn next_always_skips() {
    assert_eq!(skip_next(), RemoteCall::SkipToNext);
}
