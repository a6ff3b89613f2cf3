//! The commands of the controller and what each of them comes to.

use crate::controller::{
    previous_or_restart, previous_or_restart_call, skip_next, toggle_play_pause,
    toggle_play_pause_call, CallView, RemoteCall,
};
use crate::error::{surfaced, ControlError, RemoteFailure};
use crate::playback::{PlaybackSnapshot, SnapshotView};
use crate::query::{current_description, describe_current};
use vstd::prelude::*;
use vstd::string::StringExecFns;

verus! {

/// The threshold of the command "previous" where none is given, in seconds.
pub const DEFAULT_MAX_PROGRESS: i64 = 15;

/// A command of the controller.
#[derive(Clone, Copy, Debug, PartialEq, Eq, Structural)]
pub enum Command {
    /// Show what is playing.
    Get,
    /// Skip to the next item.
    Next,
    /// Go back one item, or restart the current one once it has played for
    /// `max_progress` seconds.
    Previous { max_progress: i64 },
    /// Pause a running player, resume a paused one.
    PlayPause,
}

/// What a command comes to, once the player's state is known.
#[derive(Clone, Debug, PartialEq, Eq)]
pub enum Effect {
    /// Print this line.
    Print { line: String },
    /// Send this call to the remote player.
    Send { call: RemoteCall },
    /// Do nothing, and succeed.
    Nothing,
}

/// An effect as a mathematical value.
pub enum EffectView {
    Print { line: Seq<char> },
    Send { call: CallView },
    Nothing,
}

impl View for Effect {
    type V = EffectView;

    open spec fn view(&self) -> EffectView {
        match self {
            Effect::Print { line } => EffectView::Print { line: line@ },
            Effect::Send { call } => EffectView::Send { call: call@ },
            Effect::Nothing => EffectView::Nothing,
        }
    }
}

/// The command that goes by `name`; `max_progress` is the threshold that
/// was given along with it.
pub open spec fn command_named(name: Seq<char>, max_progress: i64) -> Option<Command> {
    if name == "get"@ {
        Some(Command::Get)
    } else if name == "next"@ {
        Some(Command::Next)
    } else if name == "previous"@ {
        Some(Command::Previous { max_progress })
    } else if name == "play-pause"@ {
        Some(Command::PlayPause)
    } else {
        None
    }
}

/// The effect of a call that may be absent: to send it, or nothing.
pub open spec fn sending(call: Option<CallView>) -> EffectView {
    match call {
        Some(call) => EffectView::Send { call },
        None => EffectView::Nothing,
    }
}

/// What `command` comes to when the player reports `snapshot`.
pub open spec fn effect_of(command: Command, snapshot: Option<SnapshotView>) -> EffectView {
    match command {
        Command::Get => match current_description(snapshot) {
            Some(line) => EffectView::Print { line },
            None => EffectView::Nothing,
        },
        Command::Next => EffectView::Send { call: CallView::SkipToNext },
        Command::Previous { max_progress } => sending(
            previous_or_restart_call(snapshot, max_progress as int),
        ),
        Command::PlayPause => sending(toggle_play_pause_call(snapshot)),
    }
}

/// What `command` comes to when `reply` is how asking the player for its
/// state went. A command that needs the state fails where the player did not
/// answer; one that does not need it takes no heed of the reply.
pub open spec fn effect_of_reply(
    command: Command,
    reply: Result<Option<SnapshotView>, RemoteFailure>,
) -> Result<EffectView, ControlError> {
    match reply {
        Ok(snapshot) => Ok(effect_of(command, snapshot)),
        Err(_) => if command is Next {
            Ok(effect_of(command, None))
        } else {
            Err(ControlError::RemoteService)
        },
    }
}

/// The reply to asking the player for its state, as a mathematical value.
pub open spec fn reply_view(
    reply: Result<Option<&PlaybackSnapshot>, RemoteFailure>,
) -> Result<Option<SnapshotView>, RemoteFailure> {
    match reply {
        Ok(snapshot) => Ok(snapshot.deep_view()),
        Err(failure) => Err(failure),
    }
}

/// An effect that may have failed to come about, as a mathematical value.
pub open spec fn outcome_view(outcome: Result<Effect, ControlError>) -> Result<
    EffectView,
    ControlError,
> {
    match outcome {
        Ok(effect) => Ok(effect@),
        Err(error) => Err(error),
    }
}

/// Whether two texts are the same.
fn same_text(a: &str, b: &str) -> (same: bool)
    ensures
        same == (a@ == b@),
{
    String::from_str(a).eq(&String::from_str(b))
}

fn send(call: Option<RemoteCall>) -> (effect: Effect)
    ensures
        effect@ == sending(call.deep_view()),
{
    match call {
        Some(call) => Effect::Send { call },
        None => Effect::Nothing,
    }
}

impl Command {
    /// The command that goes by `name`, if there is one. `max_progress` is
    /// the threshold for "previous"; the other commands take no heed of it.
    pub fn from_name(name: &str, max_progress: i64) -> (command: Option<Command>)
        ensures
            command == command_named(name@, max_progress),
    {
        if same_text(name, "get") {
            Some(Command::Get)
        } else if same_text(name, "next") {
            Some(Command::Next)
        } else if same_text(name, "previous") {
            Some(Command::Previous { max_progress })
        } else if same_text(name, "play-pause") {
            Some(Command::PlayPause)
        } else {
            None
        }
    }

    /// Whether the command needs the player's state. Only "next" does not.
    pub fn reads_playback(&self) -> (reads: bool)
        ensures
            reads == !(*self is Next),
    {
        match self {
            Command::Next => false,
            _ => true,
        }
    }

    /// What the command comes to.
    ///
    /// `snapshot` is what the player answered, `None` where it reported no
    /// playback. A command that does not read the player's state comes to
    /// the same whatever `snapshot` is.
    pub fn effect(&self, snapshot: Option<&PlaybackSnapshot>) -> (effect: Effect)
        ensures
            effect@ == effect_of(*self, snapshot.deep_view()),
    {
        match self {
            Command::Get => match describe_current(snapshot) {
                Some(line) => Effect::Print { line },
                None => Effect::Nothing,
            },
            Command::Next => Effect::Send { call: skip_next() },
            Command::Previous { max_progress } => send(previous_or_restart(snapshot, *max_progress)),
            Command::PlayPause => send(toggle_play_pause(snapshot)),
        }
    }

    /// What the command comes to, given how asking the player for its state
    /// went. For a command that does not read the state, `reply` may be
    /// anything.
    pub fn effect_after(
        &self,
        reply: Result<Option<&PlaybackSnapshot>, RemoteFailure>,
    ) -> (outcome: Result<Effect, ControlError>)
        ensures
            outcome_view(outcome) == effect_of_reply(*self, reply_view(reply)),
    {
        match reply {
            Ok(snapshot) => Ok(self.effect(snapshot)),
            Err(_) => if self.reads_playback() {
                Err(ControlError::RemoteService)
            } else {
                Ok(self.effect(None))
            },
        }
    }
}

/// How a command ends once its call was sent: well where the player took
/// the call, and with a remote service error where it did not.
pub fn conclude(sent: Result<(), RemoteFailure>) -> (outcome: Result<(), ControlError>)
    ensures
        outcome == surfaced(sent),
{
    match sent {
        Ok(done) => Ok(done),
        Err(_) => Err(ControlError::RemoteService),
    }
}

/// "get" changes nothing on the remote player: it never sends a call, and
/// it prints nothing exactly where there is nothing to describe.
pub proof fn law_get_sends_nothing(snapshot: Option<SnapshotView>)
    ensures
        !(effect_of(Command::Get, snapshot) is Send),
        effect_of(Command::Get, snapshot) is Nothing <==> current_description(snapshot) is None,
{
}

} // verus!
