//! The line of text that names what is playing.

use crate::playback::{ItemView, PlayableItem, PlaybackSnapshot, SnapshotView};
use vstd::prelude::*;
use vstd::string::StringExecFns;

verus! {

/// What stands between the two names of a description: `" - "`.
pub open spec fn separator() -> Seq<char> {
    seq![' ', '-', ' ']
}

/// The text that names an item.
///
/// A track is named by its first artist and its title, or by its title
/// alone when it lists no artist; an episode by its show and its title.
pub open spec fn description(item: ItemView) -> Seq<char> {
    match item {
        ItemView::Track { artists, title } => if artists.len() > 0 {
            artists[0] + separator() + title
        } else {
            title
        },
        ItemView::Episode { show_name, title } => show_name + separator() + title,
    }
}

/// The text for a snapshot: that of its item, or nothing where there is no
/// snapshot or the snapshot has no item.
pub open spec fn current_description(snapshot: Option<SnapshotView>) -> Option<Seq<char>> {
    match snapshot {
        Some(s) => match s.item {
            Some(item) => Some(description(item)),
            None => None,
        },
        None => None,
    }
}

/// `first`, the separator and `second` in one string.
fn join_names(first: &String, second: &String) -> (line: String)
    ensures
        line@ == first@ + separator() + second@,
{
    let mut line = first.clone();
    line.append(" - ");
    line.append(second.as_str());
    proof {
        reveal_strlit(" - ");
    }
    line
}

/// Names an item in one line of text.
pub fn describe_item(item: &PlayableItem) -> (line: String)
    ensures
        line@ == description(item@),
{
    match item {
        PlayableItem::Track { artists, title } => {
            if artists.len() > 0 {
                join_names(&artists[0], title)
            } else {
                title.clone()
            }
        },
        PlayableItem::Episode { show_name, title } => join_names(show_name, title),
    }
}

/// Names what is playing, if anything is.
///
/// `snapshot` is what the player answered: `None` where it reported no
/// playback at all. The result is `None` exactly where there is no snapshot
/// or no item in it, whether or not the player is paused.
pub fn describe_current(snapshot: Option<&PlaybackSnapshot>) -> (line: Option<String>)
    ensures
        line.deep_view() == current_description(snapshot.deep_view()),
{
    match snapshot {
        Some(s) => match &s.item {
            Some(item) => Some(describe_item(item)),
            None => None,
        },
        None => None,
    }
}

} // verus!
