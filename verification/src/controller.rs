//! Which call each playback command sends to the remote player.
//!
//! Every command reads the player's state at most once and then sends at
//! most one call. The functions here choose that call; they never send it.

use crate::playback::{whole_seconds, PlaybackSnapshot, Position, SnapshotView};
use vstd::prelude::*;

verus! {

/// A call that changes the remote player's state.
#[derive(Clone, Copy, Debug, PartialEq, Eq)]
pub enum RemoteCall {
    /// Skip to the next item.
    SkipToNext,
    /// Skip to the previous item.
    SkipToPrevious,
    /// Move to `position` within the current item.
    Seek { position: Position },
    /// Pause the playback.
    Pause,
    /// Resume whatever was loaded last.
    Resume,
}

/// A remote call as a mathematical value; a position is in milliseconds.
pub enum CallView {
    SkipToNext,
    SkipToPrevious,
    Seek { position: int },
    Pause,
    Resume,
}

impl View for RemoteCall {
    type V = CallView;

    open spec fn view(&self) -> CallView {
        match self {
            RemoteCall::SkipToNext => CallView::SkipToNext,
            RemoteCall::SkipToPrevious => CallView::SkipToPrevious,
            RemoteCall::Seek { position } => CallView::Seek { position: position@ },
            RemoteCall::Pause => CallView::Pause,
            RemoteCall::Resume => CallView::Resume,
        }
    }
}

impl DeepView for RemoteCall {
    type V = CallView;

    open spec fn deep_view(&self) -> CallView {
        self@
    }
}

/// The call that restarts the current item: a seek to its start.
pub open spec fn restart() -> CallView {
    CallView::Seek { position: 0 }
}

/// The call of the command "previous" with the threshold `max_progress`, in
/// seconds.
///
/// Nothing is sent unless the player is running. A running player goes back
/// one item while the whole seconds of its progress are below the threshold,
/// and restarts the current item otherwise: at the threshold, above it, and
/// where the progress is unknown.
pub open spec fn previous_or_restart_call(
    snapshot: Option<SnapshotView>,
    max_progress: int,
) -> Option<CallView> {
    match snapshot {
        Some(s) => if !s.is_playing {
            None
        } else if s.progress matches Some(millis) && whole_seconds(millis) < max_progress {
            Some(CallView::SkipToPrevious)
        } else {
            Some(restart())
        },
        None => None,
    }
}

/// The call of the command "play-pause": a running player is paused, a
/// paused one resumed, and without a snapshot nothing is sent.
pub open spec fn toggle_play_pause_call(snapshot: Option<SnapshotView>) -> Option<CallView> {
    match snapshot {
        Some(s) => if s.is_playing {
            Some(CallView::Pause)
        } else {
            Some(CallView::Resume)
        },
        None => None,
    }
}

/// The call of the command "next", which depends on nothing.
pub fn skip_next() -> (call: RemoteCall)
    ensures
        call@ == CallView::SkipToNext,
{
    RemoteCall::SkipToNext
}

/// Chooses the call of the command "previous".
///
/// `snapshot` is what the player answered, `None` where it reported no
/// playback; `max_progress` is the threshold in seconds. `None` means that
/// nothing is to be sent.
pub fn previous_or_restart(snapshot: Option<&PlaybackSnapshot>, max_progress: i64) -> (call: Option<
    RemoteCall,
>)
    ensures
        call.deep_view() == previous_or_restart_call(snapshot.deep_view(), max_progress as int),
{
    match snapshot {
        Some(s) => {
            if !s.is_playing {
                return None;
            }
            if let Some(progress) = &s.progress {
                if progress.seconds() < max_progress {
                    return Some(RemoteCall::SkipToPrevious);
                }
            }
            Some(RemoteCall::Seek { position: Position::zero() })
        },
        None => None,
    }
}

/// Chooses the call of the command "play-pause".
///
/// `snapshot` is what the player answered, `None` where it reported no
/// playback. `None` means that nothing is to be sent.
pub fn toggle_play_pause(snapshot: Option<&PlaybackSnapshot>) -> (call: Option<RemoteCall>)
    ensures
        call.deep_view() == toggle_play_pause_call(snapshot.deep_view()),
{
    match snapshot {
        Some(s) => if s.is_playing {
            Some(RemoteCall::Pause)
        } else {
            Some(RemoteCall::Resume)
        },
        None => None,
    }
}

/// Below the threshold "previous" goes back one item and never restarts; at
/// or above it, it restarts the current item and never goes back. This holds
/// of every running player that reports its progress.
pub proof fn law_previous_splits_at_threshold(snapshot: SnapshotView, max_progress: int)
    requires
        snapshot.is_playing,
        snapshot.progress is Some,
    ensures
        whole_seconds(snapshot.progress->0) < max_progress ==> previous_or_restart_call(
            Some(snapshot),
            max_progress,
        ) == Some(CallView::SkipToPrevious),
        whole_seconds(snapshot.progress->0) >= max_progress ==> previous_or_restart_call(
            Some(snapshot),
            max_progress,
        ) == Some(restart()),
        restart() != CallView::SkipToPrevious,
{
}

/// "previous" sends nothing where there is no snapshot or the player is not
/// running, and "play-pause" sends nothing where there is no snapshot.
pub proof fn law_nothing_playing_sends_nothing(snapshot: Option<SnapshotView>, max_progress: int)
    ensures
        (snapshot is None || !snapshot->0.is_playing) ==> previous_or_restart_call(
            snapshot,
            max_progress,
        ) is None,
        snapshot is None ==> toggle_play_pause_call(snapshot) is None,
{
}

/// With a snapshot, "play-pause" pauses exactly when the player is running
/// and resumes exactly when it is not.
pub proof fn law_toggle_follows_is_playing(snapshot: SnapshotView)
    ensures
        toggle_play_pause_call(Some(snapshot)) == Some(CallView::Pause) <==> snapshot.is_playing,
        toggle_play_pause_call(Some(snapshot)) == Some(CallView::Resume) <==> !snapshot.is_playing,
{
}

} // verus!
