//! `/skip`: the bot skips the track that is playing.
use crate::discord::{CommandSpec, Localized, Reply};
use vstd::prelude::*;

verus! {

/// What `/skip` does.
#[derive(Debug, PartialEq, Eq)]
pub enum SkipPlan {
    /// The bot is in no call of the guild: nothing happens.
    Nothing,
    /// Skip the current track of the guild's queue, then send `reply` where
    /// there is one.
    Skip { reply: Option<Reply> },
}

/// Decides what `/skip` does: skip where the bot is in a call of the guild,
/// and confirm it where `react` asks for that.
pub fn run(in_call: bool, react: bool) -> (r: SkipPlan)
    ensures
        !in_call ==> r == SkipPlan::Nothing,
        in_call ==> (r matches SkipPlan::Skip { reply } && (reply is Some <==> react) && (
        reply matches Some(m) ==> m.is_text("Skipped current title"@, false))),
{
    if !in_call {
        return SkipPlan::Nothing;
    }
    let reply = if react {
        Some(Reply::text(String::from_str("Skipped current title"), false))
    } else {
        None
    };
    SkipPlan::Skip { reply }
}

/// The `/skip` command: a name, a description and its German wording.
pub open spec fn is_skip_command(c: CommandSpec) -> bool {
    &&& c.name@ == "skip"@
    &&& c.description@ == "Skip the current song"@
    &&& c.localized_descriptions@.len() == 1
    &&& c.localized_descriptions@[0].is("de"@, "\u{dc}berspringe den aktuellen Titel"@)
    &&& c.options@.len() == 0
}

/// The `/skip` command.
pub fn register() -> (r: CommandSpec)
    ensures
        is_skip_command(r),
{
    let mut c = CommandSpec::new("skip", "Skip the current song");
    c.localized_descriptions.push(Localized::new("de", "\u{dc}berspringe den aktuellen Titel"));
    c
}

} // verus!
