//! `/join`: the bot joins the voice channel of the user who asks.
use crate::discord::{channel_mention, channel_mention_spec, CommandSpec, Reply};
use vstd::prelude::*;

verus! {

/// What `/join` does.
#[derive(Debug, PartialEq, Eq)]
pub enum JoinPlan {
    /// The user is in no voice channel: answer with `notice`, join nothing.
    NotInVoice { notice: Reply },
    /// Join the voice channel `channel`, then send `reply` where there is one.
    Join { channel: u64, reply: Option<Reply> },
}

/// The answer to a user who is in no voice channel; only they see it.
pub open spec fn is_not_in_voice_reply(r: Reply) -> bool {
    r.is_text(":no_entry: Cannot find the voice channel you're in"@, true)
}

/// The answer after joining the channel `channel`, which mentions it.
pub open spec fn is_connected_reply(r: Reply, channel: u64) -> bool {
    r.is_text("Connected to voice channel "@ + channel_mention_spec(channel), false)
}

/// Decides what `/join` does for a user in the voice channel
/// `user_channel` (`None`: in none); `react` asks for a confirmation.
pub fn run(user_channel: Option<u64>, react: bool) -> (r: JoinPlan)
    ensures
        user_channel is None ==> (r matches JoinPlan::NotInVoice { notice } && is_not_in_voice_reply(
            notice,
        )),
        user_channel matches Some(c) ==> (r matches JoinPlan::Join { channel, reply } && channel == c
            && (reply is Some <==> react) && (reply matches Some(m) ==> is_connected_reply(m, c))),
{
    match user_channel {
        None => JoinPlan::NotInVoice {
            notice: Reply::text(
                String::from_str(":no_entry: Cannot find the voice channel you're in"),
                true,
            ),
        },
        Some(channel) => {
            let reply = if react {
                let mut text = String::from_str("Connected to voice channel ");
                text.append(channel_mention(channel).as_str());
                Some(Reply::text(text, false))
            } else {
                None
            };
            JoinPlan::Join { channel, reply }
        },
    }
}

/// The `/join` command: a name and a description.
pub open spec fn is_join_command(c: CommandSpec) -> bool {
    c.is_plain("join"@, "Join your voice channel"@)
}

/// The `/join` command.
pub fn register() -> (r: CommandSpec)
    ensures
        is_join_command(r),
{
    CommandSpec::new("join", "Join your voice channel")
}

} // verus!
