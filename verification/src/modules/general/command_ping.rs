use crate::discord::{CommandSpec, Reply};
use vstd::prelude::*;

verus! {

/// The answer to `/ping`.
pub fn run() -> (r: String)
    ensures
        r@ == "Hey there !!!"@,
{
    String::from_str("Hey there !!!")
}

/// The answer to `/ping`, as a reply that everyone sees.
pub fn answer() -> (r: Reply)
    ensures
        r.is_text("Hey there !!!"@, false),
{
    Reply::text(run(), false)
}

/// The `/ping` command: a name and a description.
pub open spec fn is_ping_command(c: CommandSpec) -> bool {
    c.is_plain("ping"@, "Ping the bot to check latency"@)
}

/// The `/ping` command.
pub fn register() -> (r: CommandSpec)
    ensures
        is_ping_command(r),
{
    CommandSpec::new("ping", "Ping the bot to check latency")
}

} // verus!
