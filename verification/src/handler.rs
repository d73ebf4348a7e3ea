//! How the bot answers the events that Discord sends it.
use crate::discord::CommandSpec;
use crate::modules::auto::dynamic_voice_channels::{self, voice_update_steps, VoiceStep};
use crate::modules::general;
use crate::modules::general::command_ping::is_ping_command;
use crate::modules::music::commands;
use crate::modules::music::commands::join::is_join_command;
use crate::modules::music::commands::leave::is_leave_command;
use crate::modules::music::commands::play::is_play_command;
use crate::modules::music::commands::skip::is_skip_command;
use crate::text::str_eq;
use vstd::prelude::*;

verus! {

/// The bot's handler of Discord events.
pub struct BotHandler;

/// The slash commands that the handler runs.
#[derive(Clone, Copy, Debug, PartialEq, Eq, Structural)]
pub enum BotCommand {
    Ping,
    Join,
    Leave,
    Play,
    Skip,
}

/// A slash command to run, and whether it confirms what it did.
#[derive(Clone, Copy, Debug, PartialEq, Eq, Structural)]
pub struct CommandRoute {
    pub command: BotCommand,
    pub react: bool,
}

/// The command that each slash command name runs.
pub open spec fn command_named(name: Seq<char>) -> Option<BotCommand> {
    if name == "ping"@ {
        Some(BotCommand::Ping)
    } else if name == "join"@ {
        Some(BotCommand::Join)
    } else if name == "leave"@ {
        Some(BotCommand::Leave)
    } else if name == "play"@ {
        Some(BotCommand::Play)
    } else if name == "skip"@ {
        Some(BotCommand::Skip)
    } else {
        None
    }
}

impl BotHandler {
    /// Routes a slash command interaction by the command's name: each of the
    /// registered commands `/ping`, `/join`, `/leave`, `/play` and `/skip`
    /// runs and confirms what it did; a name that no command bears routes
    /// nowhere (`None`).
    pub fn interaction_create(&self, name: &str) -> (r: Option<CommandRoute>)
        ensures
            r is Some <==> command_named(name@) is Some,
            r matches Some(route) ==> route.command == command_named(name@)->0 && route.react,
    {
        let command = if str_eq(name, "ping") {
            BotCommand::Ping
        } else if str_eq(name, "join") {
            BotCommand::Join
        } else if str_eq(name, "leave") {
            BotCommand::Leave
        } else if str_eq(name, "play") {
            BotCommand::Play
        } else if str_eq(name, "skip") {
            BotCommand::Skip
        } else {
            return None;
        };
        Some(CommandRoute { command, react: true })
    }

    /// The slash commands to register once connected, in order: those of the
    /// general module, then those of the music module.
    pub fn ready(&self) -> (r: Vec<CommandSpec>)
        ensures
            r@.len() == 5,
            is_ping_command(r@[0]),
            is_join_command(r@[1]),
            is_leave_command(r@[2]),
            is_play_command(r@[3]),
            is_skip_command(r@[4]),
    {
        let mut r = general::register_commands();
        let mut music = commands::register();
        r.append(&mut music);
        r
    }

    /// What a change of a user's voice state leads to: exactly the steps that
    /// `dynamic_voice_channels::run` decides, in the same order.
    pub fn voice_state_update(&self, had_old_state: bool, now_in_channel: bool) -> (r: Vec<
        VoiceStep,
    >)
        requires
            !now_in_channel ==> had_old_state,
        ensures
            r@ == voice_update_steps(had_old_state, now_in_channel),
    {
        dynamic_voice_channels::run(had_old_state, now_in_channel)
    }
}

/// Every command that the bot registers once connected is routed when a user
/// invokes it.
pub proof fn lemma_registered_commands_are_routed(c: CommandSpec)
    requires
        is_ping_command(c) || is_join_command(c) || is_leave_command(c) || is_play_command(c)
            || is_skip_command(c),
    ensures
        command_named(c.name@) is Some,
{
}

} // verus!
