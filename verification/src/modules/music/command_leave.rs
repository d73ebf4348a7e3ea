//! `/leave`: the bot leaves the voice channel of the guild.
use crate::discord::{CommandSpec, Localized, Reply};
use vstd::prelude::*;

verus! {

/// What `/leave` does.
#[derive(Clone, Copy, Debug, PartialEq, Eq, Structural)]
pub enum LeavePlan {
    /// The bot is in no call of the guild: nothing happens.
    Stay,
    /// Hang up the call of the guild.
    Disconnect,
}

/// Decides what `/leave` does: hang up where the bot is in a call.
pub fn run(in_call: bool) -> (r: LeavePlan)
    ensures
        r == (if in_call {
            LeavePlan::Disconnect
        } else {
            LeavePlan::Stay
        }),
{
    if in_call {
        LeavePlan::Disconnect
    } else {
        LeavePlan::Stay
    }
}

/// The answer once the call was hung up: "Disconnected" where that
/// succeeded, no answer where it failed.
pub fn reply_after_disconnect(succeeded: bool) -> (r: Option<Reply>)
    ensures
        r is Some <==> succeeded,
        r matches Some(m) ==> m.is_text("Disconnected"@, false),
{
    if succeeded {
        Some(Reply::text(String::from_str("Disconnected"), false))
    } else {
        None
    }
}

/// The `/leave` command: a name, a description and its German wording.
pub open spec fn is_leave_command(c: CommandSpec) -> bool {
    &&& c.name@ == "leave"@
    &&& c.description@ == "Leave current voice channel"@
    &&& c.localized_descriptions@.len() == 1
    &&& c.localized_descriptions@[0].is("de"@, "Lass mich den aktuellen Sprachkanal verlassen"@)
    &&& c.options@.len() == 0
}

/// The `/leave` command.
pub fn register() -> (r: CommandSpec)
    ensures
        is_leave_command(r),
{
    let mut c = CommandSpec::new("leave", "Leave current voice channel");
    c.localized_descriptions.push(
        Localized::new("de", "Lass mich den aktuellen Sprachkanal verlassen"),
    );
    c
}

} // verus!
