//! What the end of a track changes in the status message.
use vstd::prelude::*;

verus! {

/// A change of the status message.
#[derive(Clone, Copy, Debug, PartialEq, Eq, Structural)]
pub enum StatusChange {
    /// Show that nothing plays.
    Idle,
    /// Leave the message as it is.
    Unchanged,
}

/// Decides what the end of a track changes: the status turns idle once the
/// queue is empty, else it stays, as the next track announces itself.
pub fn on_track_end(queue_is_empty: bool) -> (r: StatusChange)
    ensures
        r == (if queue_is_empty {
            StatusChange::Idle
        } else {
            StatusChange::Unchanged
        }),
{
    if queue_is_empty {
        StatusChange::Idle
    } else {
        StatusChange::Unchanged
    }
}

} // verus!
