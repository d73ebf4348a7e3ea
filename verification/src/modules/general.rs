pub mod command_ping;

use crate::discord::CommandSpec;
use vstd::prelude::*;

verus! {

/// The commands of the general module that are registered with Discord.
pub fn register_commands() -> (r: Vec<CommandSpec>)
    ensures
        r@.len() == 1,
        command_ping::is_ping_command(r@[0]),
{
    let mut v = Vec::new();
    v.push(command_ping::register());
    v
}

} // verus!
