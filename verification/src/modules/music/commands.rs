pub mod play;
pub mod skip;

pub use super::command_join as join;
pub use super::command_leave as leave;

use crate::discord::CommandSpec;
use vstd::prelude::*;

verus! {

/// The commands of the music module that are registered with Discord, in
/// the order in which they are registered.
pub fn register() -> (r: Vec<CommandSpec>)
    ensures
        r@.len() == 4,
        join::is_join_command(r@[0]),
        leave::is_leave_command(r@[1]),
        play::is_play_command(r@[2]),
        skip::is_skip_command(r@[3]),
{
    let mut v = Vec::new();
    v.push(join::register());
    v.push(leave::register());
    v.push(play::register());
    v.push(skip::register());
    v
}

} // verus!
