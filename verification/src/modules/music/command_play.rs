//! The first form of `/play`: one URL, loaded and queued at once.
use crate::discord::{text_is, CommandOptionSpec, CommandSpec, Embed, OptionKind, Reply};
use crate::text::{starts_with, starts_with_spec};
use vstd::prelude::*;

verus! {

/// What the voice driver tells of a loaded track.
#[derive(Debug, PartialEq, Eq)]
pub struct TrackMetadata {
    pub title: Option<String>,
    pub source_url: Option<String>,
    pub thumbnail: Option<String>,
    pub artist: Option<String>,
}

/// The text that `o` holds, or `default` where it holds none.
pub open spec fn text_or(o: Option<String>, default: Seq<char>) -> Seq<char> {
    match o {
        Some(s) => s@,
        None => default,
    }
}

/// The picture shown for a track that has none.
pub open spec fn default_thumbnail() -> Seq<char> {
    "https://images6.alphacoders.com/766/thumb-1920-766470.png"@
}

/// A URL that `/play` accepts: one that starts with `http`.
pub open spec fn is_accepted_url(url: Seq<char>) -> bool {
    starts_with_spec(url, "http"@)
}

/// Checks the URL given to `/play`: the answer to send where it is refused,
/// `None` where it is accepted.
pub fn validate_url(url: &str) -> (r: Option<Reply>)
    ensures
        r is None <==> is_accepted_url(url@),
        r matches Some(m) ==> m.is_text("Invalid URL parameter"@, false),
{
    if starts_with(url, "http") {
        None
    } else {
        Some(Reply::text(String::from_str("Invalid URL parameter"), false))
    }
}

/// The embed that shows the track `m` that was queued.
pub open spec fn is_now_playing_embed(e: Embed, m: TrackMetadata) -> bool {
    &&& text_is(e.title, text_or(m.title, "No title"@))
    &&& m.source_url matches Some(u) && text_is(e.url, u@)
    &&& e.color == Some(0xb4f050u32)
    &&& text_is(e.thumbnail, text_or(m.thumbnail, default_thumbnail()))
    &&& (e.footer is Some <==> m.artist is Some)
    &&& (m.artist matches Some(a) ==> text_is(e.footer, a@))
    &&& e.description is None
    &&& e.fields@.len() == 0
}

/// The answer once the track was asked for: a failure notice where it could
/// not be loaded (`None`), the track's embed where it was loaded and `react`
/// asks for a confirmation, else nothing. A loaded track is queued.
pub fn after_load(loaded: Option<TrackMetadata>, react: bool) -> (r: Option<Reply>)
    requires
        loaded matches Some(m) ==> (react ==> m.source_url is Some),
    ensures
        loaded is None ==> (r matches Some(m) && m.is_text("Wasn't able to get audio source"@, false)),
        loaded matches Some(meta) ==> {
            &&& (r is Some <==> react)
            &&& (r matches Some(m) ==> {
                &&& m.content is None
                &&& !m.ephemeral
                &&& m.embed matches Some(e)
                &&& is_now_playing_embed(e, meta)
            })
        },
{
    match loaded {
        None => Some(Reply::text(String::from_str("Wasn't able to get audio source"), false)),
        Some(meta) => {
            if !react {
                return None;
            }
            let ghost m = meta;
            let TrackMetadata { title, source_url, thumbnail, artist } = meta;
            let title = match title {
                Some(t) => t,
                None => String::from_str("No title"),
            };
            let thumbnail = match thumbnail {
                Some(t) => t,
                None => String::from_str(
                    "https://images6.alphacoders.com/766/thumb-1920-766470.png",
                ),
            };
            let e = Embed {
                title: Some(title),
                description: None,
                url: source_url,
                color: Some(0xb4f050u32),
                thumbnail: Some(thumbnail),
                footer: artist,
                fields: Vec::new(),
            };
            assert(is_now_playing_embed(e, m));
            Some(Reply::embed(e, false))
        },
    }
}

/// The option of `/play` that holds the URL.
pub open spec fn is_url_option(o: CommandOptionSpec) -> bool {
    &&& o.name@ == "url"@
    &&& o.description@ == "The URL directing to your audio source"@
    &&& o.kind == OptionKind::String
    &&& o.required
}

/// The first form of the `/play` command: one required string option.
pub fn register() -> (r: CommandSpec)
    ensures
        r.name@ == "play"@,
        r.description@ == "Play an audio stream from different sources"@,
        r.localized_descriptions@.len() == 0,
        r.options@.len() == 1,
        is_url_option(r.options@[0]),
        r.options@[0].localized_descriptions@.len() == 0,
{
    let mut c = CommandSpec::new("play", "Play an audio stream from different sources");
    c.options.push(
        CommandOptionSpec {
            name: String::from_str("url"),
            description: String::from_str("The URL directing to your audio source"),
            localized_descriptions: Vec::new(),
            kind: OptionKind::String,
            required: true,
        },
    );
    c
}

} // verus!
