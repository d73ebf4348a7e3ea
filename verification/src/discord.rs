//! Plain values that describe what the bot sends to Discord: slash commands
//! to register, replies to interactions, embeds and channels to create.
//! The code that talks to Discord turns them into requests.
use crate::text::{decimal, u64_to_decimal};
use vstd::prelude::*;

verus! {

/// `o` holds a text equal to `t`.
pub open spec fn text_is(o: Option<String>, t: Seq<char>) -> bool {
    o matches Some(s) && s@ == t
}

/// A description in one more language.
#[derive(Debug, PartialEq, Eq)]
pub struct Localized {
    pub locale: String,
    pub text: String,
}

impl Localized {
    pub open spec fn is(self, locale: Seq<char>, text: Seq<char>) -> bool {
        self.locale@ == locale && self.text@ == text
    }

    pub fn new(locale: &str, text: &str) -> (r: Localized)
        ensures
            r.is(locale@, text@),
    {
        Localized { locale: String::from_str(locale), text: String::from_str(text) }
    }
}

/// The type of value that a command option takes.
#[derive(Clone, Copy, Debug, PartialEq, Eq, Structural)]
pub enum OptionKind {
    String,
}

/// One option of a slash command.
#[derive(Debug, PartialEq, Eq)]
pub struct CommandOptionSpec {
    pub name: String,
    pub description: String,
    pub localized_descriptions: Vec<Localized>,
    pub kind: OptionKind,
    pub required: bool,
}

/// A slash command as it is registered with Discord.
#[derive(Debug, PartialEq, Eq)]
pub struct CommandSpec {
    pub name: String,
    pub description: String,
    pub localized_descriptions: Vec<Localized>,
    pub options: Vec<CommandOptionSpec>,
}

impl CommandSpec {
    /// A command with a name, a description, no other language and no option.
    pub open spec fn is_plain(self, name: Seq<char>, description: Seq<char>) -> bool {
        &&& self.name@ == name
        &&& self.description@ == description
        &&& self.localized_descriptions@.len() == 0
        &&& self.options@.len() == 0
    }

    pub fn new(name: &str, description: &str) -> (r: CommandSpec)
        ensures
            r.is_plain(name@, description@),
    {
        CommandSpec {
            name: String::from_str(name),
            description: String::from_str(description),
            localized_descriptions: Vec::new(),
            options: Vec::new(),
        }
    }
}

/// A field of an embed: a name, a value, and whether it stands inline.
#[derive(Debug, PartialEq, Eq)]
pub struct EmbedField {
    pub name: String,
    pub value: String,
    pub inline: bool,
}

/// A rich message block.
#[derive(Debug, PartialEq, Eq)]
pub struct Embed {
    pub title: Option<String>,
    pub description: Option<String>,
    pub url: Option<String>,
    pub color: Option<u32>,
    pub thumbnail: Option<String>,
    pub footer: Option<String>,
    pub fields: Vec<EmbedField>,
}

impl Embed {
    /// An embed with a title and a color and nothing else.
    pub open spec fn is_titled(self, title: Seq<char>, color: u32) -> bool {
        &&& text_is(self.title, title)
        &&& self.color == Some(color)
        &&& self.description is None
        &&& self.url is None
        &&& self.thumbnail is None
        &&& self.footer is None
        &&& self.fields@.len() == 0
    }

    pub fn titled(title: String, color: u32) -> (r: Embed)
        ensures
            r.is_titled(title@, color),
    {
        Embed {
            title: Some(title),
            description: None,
            url: None,
            color: Some(color),
            thumbnail: None,
            footer: None,
            fields: Vec::new(),
        }
    }
}

/// A response to a user's interaction, or an edit of it.
#[derive(Debug, PartialEq, Eq)]
pub struct Reply {
    pub content: Option<String>,
    pub ephemeral: bool,
    pub embed: Option<Embed>,
}

impl Reply {
    /// A reply of plain text.
    pub open spec fn is_text(self, text: Seq<char>, ephemeral: bool) -> bool {
        &&& text_is(self.content, text)
        &&& self.ephemeral == ephemeral
        &&& self.embed is None
    }

    /// A reply made of one embed.
    pub open spec fn is_embed(self, embed: Embed, ephemeral: bool) -> bool {
        &&& self.content is None
        &&& self.ephemeral == ephemeral
        &&& self.embed == Some(embed)
    }

    pub fn text(text: String, ephemeral: bool) -> (r: Reply)
        ensures
            r.is_text(text@, ephemeral),
    {
        Reply { content: Some(text), ephemeral, embed: None }
    }

    pub fn embed(embed: Embed, ephemeral: bool) -> (r: Reply)
        ensures
            r.is_embed(embed, ephemeral),
    {
        Reply { content: None, ephemeral, embed: Some(embed) }
    }
}

/// The kinds of channel that the bot creates.
#[derive(Clone, Copy, Debug, PartialEq, Eq, Structural)]
pub enum ChannelKind {
    Text,
    Voice,
}

/// Guild permissions that the bot sets on channels it creates.
#[derive(Clone, Copy, Debug, PartialEq, Eq, Structural)]
pub enum Permission {
    ViewChannel,
    SendMessages,
}

/// A permission overwrite for one role.
#[derive(Clone, Copy, Debug, PartialEq, Eq, Structural)]
pub struct RoleOverwrite {
    pub allow: Permission,
    pub deny: Permission,
    pub role: u64,
}

/// A channel to create in a guild.
#[derive(Debug, PartialEq, Eq)]
pub struct ChannelSpec {
    pub name: String,
    pub kind: ChannelKind,
    pub topic: Option<String>,
    pub category: Option<u64>,
    pub permissions: Vec<RoleOverwrite>,
}


/// How a message mentions the channel `id`: `<#`, the id in decimal, `>`.
pub open spec fn channel_mention_spec(id: u64) -> Seq<char> {
    seq!['<', '#'] + decimal(id as nat) + seq!['>']
}

/// The text that mentions the channel `id` in a message.
pub fn channel_mention(id: u64) -> (r: String)
    ensures
        r@ == channel_mention_spec(id),
{
    let mut r = String::new();
    r.append("<#");
    r.append(u64_to_decimal(id).as_str());
    r.append(">");
    proof {
        reveal_strlit("<#");
        reveal_strlit(">");
    }
    assert(r@ =~= channel_mention_spec(id));
    r
}

} // verus!
