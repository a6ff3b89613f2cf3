//! What the remote player reports about the running playback.

use vstd::prelude::*;

verus! {

/// Whole seconds in `millis` milliseconds, rounded towards zero.
pub open spec fn whole_seconds(millis: int) -> int {
    if millis >= 0 {
        millis / 1000
    } else {
        -((-millis) / 1000)
    }
}

/// `chrono::TimeDelta::num_seconds` of the duration that
/// `chrono::TimeDelta::milliseconds` makes of `millis`.
///
/// Trusted, not proved: chrono keeps a duration as floored seconds plus a
/// non-negative sub-second part, and `num_seconds` adds one second back when
/// the seconds are negative and the sub-second part is not zero, which
/// rounds towards zero. `milliseconds` panics below `-i64::MAX` only.
#[verifier::external_body]
fn chrono_whole_seconds(millis: i64) -> (secs: i64)
    requires
        millis > i64::MIN,
    ensures
        secs == whole_seconds(millis as int),
{
    chrono::TimeDelta::milliseconds(millis).num_seconds()
}

/// A signed offset in time, kept in milliseconds.
///
/// Every value lies between `-i64::MAX` and `i64::MAX` milliseconds, the
/// range of durations that chrono can hold.
#[derive(Clone, Copy, Debug, PartialEq, Eq)]
pub struct Position {
    millis: i64,
}

impl View for Position {
    type V = int;

    closed spec fn view(&self) -> int {
        self.millis as int
    }
}

impl DeepView for Position {
    type V = int;

    open spec fn deep_view(&self) -> int {
        self@
    }
}

impl Position {
    #[verifier::type_invariant]
    spec fn in_range(self) -> bool {
        self.millis > i64::MIN
    }

    /// The start of an item.
    pub fn zero() -> (p: Position)
        ensures
            p@ == 0,
    {
        Position { millis: 0 }
    }

    /// The position `millis` milliseconds in, or `None` for `i64::MIN`,
    /// which lies outside the range.
    pub fn from_millis(millis: i64) -> (p: Option<Position>)
        ensures
            p is Some <==> millis > i64::MIN,
            p matches Some(q) ==> q@ == millis,
    {
        if millis > i64::MIN {
            Some(Position { millis })
        } else {
            None
        }
    }

    /// The position in milliseconds.
    pub fn millis(&self) -> (m: i64)
        ensures
            m == self@,
            m > i64::MIN,
    {
        proof {
            use_type_invariant(self);
        }
        self.millis
    }

    /// The whole seconds of the position, rounded towards zero.
    pub fn seconds(&self) -> (s: i64)
        ensures
            s == whole_seconds(self@),
    {
        proof {
            use_type_invariant(self);
        }
        chrono_whole_seconds(self.millis)
    }
}

/// What can be played: a piece of music or an episode of a show.
#[derive(Clone, Debug, PartialEq, Eq)]
pub enum PlayableItem {
    /// A track, with the names of its artists in the order the player gives.
    Track { artists: Vec<String>, title: String },
    /// An episode of a show.
    Episode { show_name: String, title: String },
}

/// A playable item as a mathematical value.
pub enum ItemView {
    Track { artists: Seq<Seq<char>>, title: Seq<char> },
    Episode { show_name: Seq<char>, title: Seq<char> },
}

impl View for PlayableItem {
    type V = ItemView;

    open spec fn view(&self) -> ItemView {
        match self {
            PlayableItem::Track { artists, title } => ItemView::Track {
                artists: artists.deep_view(),
                title: title@,
            },
            PlayableItem::Episode { show_name, title } => ItemView::Episode {
                show_name: show_name@,
                title: title@,
            },
        }
    }
}

impl DeepView for PlayableItem {
    type V = ItemView;

    open spec fn deep_view(&self) -> ItemView {
        self@
    }
}

/// One reading of the player's state. It is taken anew for every command
/// and never kept.
#[derive(Clone, Debug, PartialEq, Eq)]
pub struct PlaybackSnapshot {
    /// Whether the player is running, as opposed to paused.
    pub is_playing: bool,
    /// The item that is loaded, if the player names one.
    pub item: Option<PlayableItem>,
    /// How far into the item the player is, if it says so.
    pub progress: Option<Position>,
}

/// A snapshot as a mathematical value; the progress is in milliseconds.
pub struct SnapshotView {
    pub is_playing: bool,
    pub item: Option<ItemView>,
    pub progress: Option<int>,
}

impl View for PlaybackSnapshot {
    type V = SnapshotView;

    open spec fn view(&self) -> SnapshotView {
        SnapshotView {
            is_playing: self.is_playing,
            item: self.item.deep_view(),
            progress: self.progress.deep_view(),
        }
    }
}

impl DeepView for PlaybackSnapshot {
    type V = SnapshotView;

    open spec fn deep_view(&self) -> SnapshotView {
        self@
    }
}

} // verus!
