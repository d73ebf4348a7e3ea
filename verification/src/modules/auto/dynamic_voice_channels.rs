//! Voice channels on demand: joining a channel whose name starts with a plus
//! sign creates a fresh voice channel in the same category, and a channel the
//! bot created is deleted once the last member has left it.
use crate::discord::{ChannelKind, ChannelSpec};
use crate::text::{char_uppercase, starts_with_char, starts_with_char_spec, uppercase_char};
use vstd::prelude::*;

verus! {

/// The first character of the channels that spawn a new channel on join.
pub open spec fn spawner_mark() -> char {
    '\u{2795}'
}

/// The first character of the channels that the bot creates.
pub open spec fn spawned_mark() -> char {
    '\u{1F916}'
}

/// The name of a channel spawned in the category `category`: the robot mark,
/// a space, and the category's name with its first character in upper case.
pub open spec fn spawned_channel_name(category: Seq<char>) -> Seq<char> {
    seq![spawned_mark(), ' '] + char_uppercase(category[0]) + category.drop_first()
}

/// One step of handling a voice state update; each step is finished before
/// the next one starts.
#[derive(Clone, Copy, Debug, PartialEq, Eq, Structural)]
pub enum VoiceStep {
    /// Handle the user leaving the channel of the previous state.
    LeaveOld,
    /// Handle the user joining the channel of the new state.
    JoinNew,
}

/// The steps of a voice state update, in the order in which they are taken:
/// leaving the old channel where there was a previous state, then joining
/// the new channel where the user is now in one.
pub open spec fn voice_update_steps(had_old_state: bool, now_in_channel: bool) -> Seq<VoiceStep> {
    (if had_old_state {
        seq![VoiceStep::LeaveOld]
    } else {
        Seq::empty()
    }) + (if now_in_channel {
        seq![VoiceStep::JoinNew]
    } else {
        Seq::empty()
    })
}

/// Decides what to do on a voice state update, as steps to take one after
/// the other. A user who left voice, or switched channels, first leaves the
/// old channel; a user who is now in a channel then joins it. A user who
/// left voice always has a previous state.
pub fn run(had_old_state: bool, now_in_channel: bool) -> (r: Vec<VoiceStep>)
    requires
        !now_in_channel ==> had_old_state,
    ensures
        r@ == voice_update_steps(had_old_state, now_in_channel),
{
    let mut steps = Vec::new();
    if had_old_state {
        steps.push(VoiceStep::LeaveOld);
    }
    if now_in_channel {
        steps.push(VoiceStep::JoinNew);
    }
    assert(steps@ =~= voice_update_steps(had_old_state, now_in_channel));
    steps
}

/// Whatever the update, the old channel is left at most once, the new one
/// joined at most once, and a leave always comes before the join.
pub proof fn lemma_leave_comes_before_join(had_old_state: bool, now_in_channel: bool)
    ensures
        ({
            let steps = voice_update_steps(had_old_state, now_in_channel);
            &&& steps.len() <= 2
            &&& (steps.contains(VoiceStep::LeaveOld) <==> had_old_state)
            &&& (steps.contains(VoiceStep::JoinNew) <==> now_in_channel)
            &&& forall|i: int, j: int|
                0 <= i < steps.len() && 0 <= j < steps.len() && steps[i] == VoiceStep::JoinNew
                    && steps[j] == VoiceStep::LeaveOld ==> j < i
        }),
{
    let steps = voice_update_steps(had_old_state, now_in_channel);
    if had_old_state && now_in_channel {
        assert(steps =~= seq![VoiceStep::LeaveOld, VoiceStep::JoinNew]);
        assert(steps[0] == VoiceStep::LeaveOld);
        assert(steps[1] == VoiceStep::JoinNew);
    } else if had_old_state {
        assert(steps =~= seq![VoiceStep::LeaveOld]);
        assert(steps[0] == VoiceStep::LeaveOld);
    } else if now_in_channel {
        assert(steps =~= seq![VoiceStep::JoinNew]);
        assert(steps[0] == VoiceStep::JoinNew);
    } else {
        assert(steps =~= Seq::<VoiceStep>::empty());
    }
}

/// Decides what joining the channel `channel_name`, which lies in the category
/// `category_id` named `category_name`, leads to: a new voice channel in that
/// category when the channel's name starts with the plus sign, else nothing.
/// The user is then moved to the new channel.
pub fn on_voice_channel_join(channel_name: &str, category_id: u64, category_name: &str) -> (r:
    Option<ChannelSpec>)
    requires
        starts_with_char_spec(channel_name@, spawner_mark()) ==> category_name@.len() > 0,
    ensures
        r is Some <==> starts_with_char_spec(channel_name@, spawner_mark()),
        r matches Some(c) ==> {
            &&& c.name@ == spawned_channel_name(category_name@)
            &&& c.kind == ChannelKind::Voice
            &&& c.category == Some(category_id)
            &&& c.topic is None
            &&& c.permissions@.len() == 0
        },
{
    if !starts_with_char(channel_name, '\u{2795}') {
        return None;
    }
    let n = category_name.unicode_len();
    let first = uppercase_char(category_name.get_char(0));
    let rest = category_name.substring_char(1, n);
    let mut name = String::new();
    name.append("\u{1F916} ");
    proof {
        reveal_strlit("\u{1F916} ");
    }
    name.append(first.as_str());
    name.append(rest);
    assert(name@ =~= spawned_channel_name(category_name@));
    Some(
        ChannelSpec {
            name,
            kind: ChannelKind::Voice,
            topic: None,
            category: Some(category_id),
            permissions: Vec::new(),
        },
    )
}

/// Decides whether the channel `channel_name` is deleted after a user left
/// it: only a channel the bot created, and only once nobody is left in it.
/// `member_count` is `None` where the members could not be counted; then
/// the channel stays.
pub fn on_voice_channel_leave(channel_name: &str, member_count: Option<usize>) -> (r: bool)
    ensures
        r == (member_count == Some(0usize) && starts_with_char_spec(channel_name@, spawned_mark())),
{
    match member_count {
        None => false,
        Some(count) => count == 0 && starts_with_char(channel_name, '\u{1F916}'),
    }
}



/// The name of a spawned channel keeps its category's name whole: the robot
/// mark and a space, the upper case of the category's first character, then
/// every other character of the category's name, in order.
pub proof fn lemma_spawned_name_keeps_category(category: Seq<char>)
    requires
        category.len() > 0,
    ensures
        ({
            let name = spawned_channel_name(category);
            let first = char_uppercase(category[0]);
            &&& name.len() == 2 + first.len() + category.len() - 1
            &&& name[0] == spawned_mark()
            &&& name[1] == ' '
            &&& name.subrange(2, 2 + first.len() as int) == first
            &&& forall|i: int|
                1 <= i < category.len() ==> #[trigger] name[1 + first.len() + i] == category[i]
        }),
{
    let name = spawned_channel_name(category);
    let first = char_uppercase(category[0]);
    assert(name.subrange(2, 2 + first.len() as int) =~= first);
    assert forall|i: int| 1 <= i < category.len() implies #[trigger] name[1 + first.len() + i]
        == category[i] by {
        assert(category.drop_first()[i - 1] == category[i]);
    }
}

/// A channel that the bot spawned bears the robot mark, so it is deleted as
/// soon as the last member leaves it.
pub proof fn lemma_spawned_channels_are_cleaned_up(category: Seq<char>)
    requires
        category.len() > 0,
    ensures
        starts_with_char_spec(spawned_channel_name(category), spawned_mark()),
{
}

/// A channel that spawns new channels is never deleted, even when empty,
/// and a channel that the bot spawned spawns no further channel.
pub proof fn lemma_spawners_and_spawned_are_apart(name: Seq<char>)
    ensures
        starts_with_char_spec(name, spawner_mark()) ==> !starts_with_char_spec(name, spawned_mark()),
{
}

} // verus!
