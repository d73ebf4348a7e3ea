//! The text channel in which the bot shows what it plays.
use crate::discord::{
    text_is, ChannelKind, ChannelSpec, Embed, EmbedField, Permission, RoleOverwrite,
};
use crate::modules::util::EmbedColor;
use crate::text::{parse_u64, parse_u64_spec, str_eq};
use vstd::prelude::*;

verus! {

/// The name of the status channel.
pub open spec fn channel_name() -> Seq<char> {
    "\u{1F50A}lorelei"@
}

/// A channel name, where one could be read, that is the status channel's.
pub open spec fn is_status_name(name: Option<String>) -> bool {
    text_is(name, channel_name())
}

/// Whether `name` is the status channel's name.
fn names_status_channel(name: &Option<String>) -> (r: bool)
    ensures
        r == is_status_name(*name),
{
    match name {
        Some(n) => str_eq(n.as_str(), "\u{1F50A}lorelei"),
        None => false,
    }
}

/// Reads the guild id that the configuration holds: a decimal number.
pub fn parse_guild_id(config: &str) -> (r: Option<u64>)
    ensures
        r == parse_u64_spec(config@),
{
    parse_u64(config)
}

/// The status channel of the guild `guild_id`: a text channel that everyone
/// can see and nobody can write in (the everyone role of a guild has the
/// guild's id).
pub open spec fn is_status_channel_spec(c: ChannelSpec, guild_id: u64) -> bool {
    &&& c.name@ == channel_name()
    &&& c.kind == ChannelKind::Text
    &&& text_is(c.topic, "Play your favorite bangers"@)
    &&& c.category is None
    &&& c.permissions@ == seq![
        RoleOverwrite {
            allow: Permission::ViewChannel,
            deny: Permission::SendMessages,
            role: guild_id,
        },
    ]
}

/// Decides whether the status channel has to be created, given the names of
/// the guild's channels (`None` where a name could not be read): it is
/// created, as described by the result, when no channel bears its name.
pub fn ensure_channel_exists(guild_id: u64, names: &Vec<Option<String>>) -> (r: Option<
    ChannelSpec,
>)
    ensures
        r is None <==> exists|i: int| 0 <= i < names@.len() && is_status_name(#[trigger] names@[i]),
        r matches Some(c) ==> is_status_channel_spec(c, guild_id),
{
    let n = names.len();
    let mut i: usize = 0;
    while i < n
        invariant
            n == names@.len(),
            i <= n,
            forall|j: int| 0 <= j < i ==> !is_status_name(#[trigger] names@[j]),
        decreases n - i,
    {
        if names_status_channel(&names[i]) {
            return None;
        }
        i = i + 1;
    }
    let mut permissions = Vec::new();
    permissions.push(
        RoleOverwrite { allow: Permission::ViewChannel, deny: Permission::SendMessages, role: guild_id },
    );
    let c = ChannelSpec {
        name: String::from_str("\u{1F50A}lorelei"),
        kind: ChannelKind::Text,
        topic: Some(String::from_str("Play your favorite bangers")),
        category: None,
        permissions,
    };
    assert(c.permissions@ =~= seq![
        RoleOverwrite {
            allow: Permission::ViewChannel,
            deny: Permission::SendMessages,
            role: guild_id,
        },
    ]);
    Some(c)
}

/// The message that introduces the bot in a newly created status channel.
pub open spec fn is_welcome_embed(e: Embed, bot_name: Seq<char>, bot_face: Seq<char>) -> bool {
    &&& e.color == Some(EmbedColor::Success.spec_hex())
    &&& text_is(e.title, bot_name)
    &&& text_is(e.url, "https://github.com/btoschek/lorelei"@)
    &&& text_is(e.description, "Play your favorite songs right in Discord"@)
    &&& text_is(e.thumbnail, bot_face)
    &&& e.footer is None
    &&& e.fields@.len() == 1
    &&& e.fields@[0].name@ == "Play a song"@
    &&& e.fields@[0].value@ == "/play URL"@
    &&& !e.fields@[0].inline
}

/// The embed sent to a new status channel, for a bot called `bot_name` whose
/// avatar is at `bot_face`.
pub fn welcome_embed(bot_name: String, bot_face: String) -> (r: Embed)
    ensures
        is_welcome_embed(r, bot_name@, bot_face@),
{
    let mut fields = Vec::new();
    fields.push(
        EmbedField {
            name: String::from_str("Play a song"),
            value: String::from_str("/play URL"),
            inline: false,
        },
    );
    Embed {
        title: Some(bot_name),
        description: Some(String::from_str("Play your favorite songs right in Discord")),
        url: Some(String::from_str("https://github.com/btoschek/lorelei")),
        color: Some(EmbedColor::Success.hex()),
        thumbnail: Some(bot_face),
        footer: None,
        fields,
    }
}

/// Finds the status channel among the guild's channels, given in the order
/// in which they are looked at: the first one that bears its name.
pub fn get_status_channel(channels: &Vec<(u64, Option<String>)>) -> (r: Option<u64>)
    ensures
        r is None <==> forall|i: int|
            0 <= i < channels@.len() ==> !is_status_name(#[trigger] channels@[i].1),
        r matches Some(id) ==> exists|i: int|
            0 <= i < channels@.len() && channels@[i].0 == id && is_status_name(channels@[i].1)
                && forall|j: int| 0 <= j < i ==> !is_status_name(#[trigger] channels@[j].1),
{
    let n = channels.len();
    let mut i: usize = 0;
    while i < n
        invariant
            n == channels@.len(),
            i <= n,
            forall|j: int| 0 <= j < i ==> !is_status_name(#[trigger] channels@[j].1),
        decreases n - i,
    {
        let (id, name) = &channels[i];
        if names_status_channel(name) {
            return Some(*id);
        }
        i = i + 1;
    }
    None
}

/// Picks the status message among the latest messages of the status channel
/// (the newest first): the newest one, if there is any.
pub fn get_status_message(latest: &Vec<u64>) -> (r: Option<u64>)
    ensures
        r == (if latest@.len() == 0 {
            None
        } else {
            Some(latest@[0])
        }),
{
    if latest.len() == 0 {
        None
    } else {
        Some(latest[0])
    }
}


/// The channel that `ensure_channel_exists` creates bears the name that
/// `get_status_channel` looks for, so once created it is found.
pub proof fn lemma_created_status_channel_is_found(
    c: ChannelSpec,
    guild_id: u64,
    channels: Seq<(u64, Option<String>)>,
    i: int,
)
    requires
        is_status_channel_spec(c, guild_id),
        0 <= i < channels.len(),
        channels[i].1 matches Some(n) && n@ == c.name@,
    ensures
        !(forall|j: int| 0 <= j < channels.len() ==> !is_status_name(#[trigger] channels[j].1)),
{
    assert(is_status_name(channels[i].1));
}

} // verus!
