use crate::text::str_eq;
use vstd::prelude::*;

verus! {

/// What a user can ask of the track that is playing.
#[derive(Clone, Copy, Debug, PartialEq, Eq, Structural)]
pub enum VoiceAction {
    Play,
    Pause,
    LoopOn,
    LoopOff,
    Skip,
    Stop,
}

/// What the bot asks of the voice driver's track or queue.
#[derive(Clone, Copy, Debug, PartialEq, Eq, Structural)]
pub enum TrackCommand {
    /// Resume the current track.
    Play,
    /// Pause the current track.
    Pause,
    /// Loop the current track.
    EnableLoop,
    /// Stop looping the current track.
    DisableLoop,
    /// Skip to the next track of the queue.
    Skip,
    /// Stop and empty the queue.
    Stop,
}

impl VoiceAction {
    /// The action that each name stands for.
    pub open spec fn parse(s: Seq<char>) -> Option<VoiceAction> {
        if s == "play"@ {
            Some(VoiceAction::Play)
        } else if s == "pause"@ {
            Some(VoiceAction::Pause)
        } else if s == "loop_on"@ {
            Some(VoiceAction::LoopOn)
        } else if s == "loop_off"@ {
            Some(VoiceAction::LoopOff)
        } else if s == "skip"@ {
            Some(VoiceAction::Skip)
        } else if s == "stop"@ {
            Some(VoiceAction::Stop)
        } else {
            None
        }
    }

    /// Reads an action from its name; `None` for any other text.
    pub fn from_str(action: &str) -> (r: Option<VoiceAction>)
        ensures
            r == VoiceAction::parse(action@),
    {
        if str_eq(action, "play") {
            Some(VoiceAction::Play)
        } else if str_eq(action, "pause") {
            Some(VoiceAction::Pause)
        } else if str_eq(action, "loop_on") {
            Some(VoiceAction::LoopOn)
        } else if str_eq(action, "loop_off") {
            Some(VoiceAction::LoopOff)
        } else if str_eq(action, "skip") {
            Some(VoiceAction::Skip)
        } else if str_eq(action, "stop") {
            Some(VoiceAction::Stop)
        } else {
            None
        }
    }

    /// The command that carries out the action.
    pub open spec fn command(self) -> TrackCommand {
        match self {
            VoiceAction::Play => TrackCommand::Play,
            VoiceAction::Pause => TrackCommand::Pause,
            VoiceAction::LoopOn => TrackCommand::EnableLoop,
            VoiceAction::LoopOff => TrackCommand::DisableLoop,
            VoiceAction::Skip => TrackCommand::Skip,
            VoiceAction::Stop => TrackCommand::Stop,
        }
    }
}

impl TrackCommand {
    /// The commands that act on the current track itself, rather than on the queue.
    pub open spec fn acts_on_track(self) -> bool {
        match self {
            TrackCommand::Play | TrackCommand::Pause | TrackCommand::EnableLoop
            | TrackCommand::DisableLoop => true,
            TrackCommand::Skip | TrackCommand::Stop => false,
        }
    }
}

/// Decides what an action does: nothing when the bot is in no call of the
/// guild or no track is current, else the command that carries it out.
pub fn perform_action(in_call: bool, has_current_track: bool, action: VoiceAction) -> (r: Option<
    TrackCommand,
>)
    ensures
        r == (if in_call && has_current_track {
            Some(action.command())
        } else {
            None
        }),
{
    if !in_call || !has_current_track {
        return None;
    }
    let command = match action {
        VoiceAction::Play => TrackCommand::Play,
        VoiceAction::Pause => TrackCommand::Pause,
        VoiceAction::LoopOn => TrackCommand::EnableLoop,
        VoiceAction::LoopOff => TrackCommand::DisableLoop,
        VoiceAction::Skip => TrackCommand::Skip,
        VoiceAction::Stop => TrackCommand::Stop,
    };
    Some(command)
}

/// Whether the status message is refreshed after `command` was sent:
/// only after a command on the current track that the driver accepted.
/// Skipping and stopping never refresh it.
pub fn forces_status_update(command: TrackCommand, accepted: bool) -> (r: bool)
    ensures
        r == (accepted && command.acts_on_track()),
{
    match command {
        TrackCommand::Play | TrackCommand::Pause | TrackCommand::EnableLoop
        | TrackCommand::DisableLoop => accepted,
        TrackCommand::Skip | TrackCommand::Stop => false,
    }
}

} // verus!
