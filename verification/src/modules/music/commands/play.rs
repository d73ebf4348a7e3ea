//! `/play`: queue one track, or every track of a playlist.
//!
//! The command talks to Discord and to the voice driver between its
//! decisions, so it is written as a state machine: `step` takes what the
//! last action led to and gives the next state and the next action, which
//! the caller performs.
use crate::discord::{text_is, CommandOptionSpec, CommandSpec, Embed, Localized, OptionKind, Reply};
use crate::modules::music::command_play::is_accepted_url;
use crate::modules::music::providers::ytdlp::PlaylistItem;
use crate::modules::util::EmbedColor;
use crate::text::{contains, contains_spec, decimal, starts_with, u64_to_decimal};
use vstd::prelude::*;

verus! {

/// Why `/play` failed.
#[derive(Clone, Copy, Debug, PartialEq, Eq, Structural)]
pub enum PlayError {
    /// The bot is in no voice channel of the guild.
    NotInVoice,
    /// Discord refused a response or an edit of it.
    ResponseFailed,
}

/// A first response to the user; only they see it.
#[derive(Debug, PartialEq, Eq)]
pub enum PlayReply {
    InvalidUrl,
    NotInVoice,
    Searching { url: String },
}

/// An edit of the first response.
#[derive(Debug, PartialEq, Eq)]
pub enum PlayEdit {
    Adding { count: usize, url: String },
    Added,
}

/// What the caller does next.
#[derive(Debug, PartialEq, Eq)]
pub enum PlayAction {
    /// Make the bot join the user's voice channel, silently.
    JoinVoice,
    /// Read the URL that the user gave.
    ReadUrl,
    /// Look up the bot's call in the guild.
    LookupCall,
    /// Respond to the user.
    Respond(PlayReply),
    /// Edit the response.
    Edit(PlayEdit),
    /// Ask yt-dlp for the videos of the playlist at this URL.
    FetchPlaylist(String),
    /// Load the track at this URL and add it to the queue.
    Enqueue(String),
    /// Count the tracks of the queue.
    QueryQueueLen,
    /// Refresh the status message.
    UpdateStatus,
    /// The command is over, with this outcome.
    Finish(Result<(), PlayError>),
    /// Nothing: the event was not one that the state waits for.
    Wait,
}

/// What the last action led to.
#[derive(Debug, PartialEq, Eq)]
pub enum PlayEvent {
    /// The command was invoked.
    Invoked,
    /// The join attempt is over (its outcome does not matter).
    Joined,
    /// The URL that the user gave.
    Url(String),
    /// Whether the bot has a call in the guild.
    CallLookedUp(bool),
    /// The response or edit was accepted.
    ReplySent,
    /// The response or edit was refused.
    ReplyFailed,
    /// The videos of the playlist.
    Playlist(Vec<PlaylistItem>),
    /// The track was queued.
    Enqueued,
    /// The number of tracks in the queue.
    QueueLen(usize),
    /// The status message was refreshed.
    StatusUpdated,
}

/// Where the command stands.
#[derive(Debug, PartialEq, Eq)]
pub enum PlayState {
    Start,
    AwaitJoin,
    AwaitUrl,
    AwaitCall { url: String },
    AwaitSearchReply { url: String },
    AwaitPlaylist { url: String },
    AwaitAddingEdit { urls: Vec<String> },
    Enqueuing { urls: Vec<String>, next: usize },
    AwaitQueueLen,
    AwaitStatus,
    AwaitFinalReply { outcome: Result<(), PlayError> },
    Done { outcome: Result<(), PlayError> },
}

/// `PlayReply` as plain values.
pub enum PlayReplyV {
    InvalidUrl,
    NotInVoice,
    Searching { url: Seq<char> },
}

/// `PlayEdit` as plain values.
pub enum PlayEditV {
    Adding { count: nat, url: Seq<char> },
    Added,
}

/// `PlayAction` as plain values.
pub enum PlayActionV {
    JoinVoice,
    ReadUrl,
    LookupCall,
    Respond(PlayReplyV),
    Edit(PlayEditV),
    FetchPlaylist(Seq<char>),
    Enqueue(Seq<char>),
    QueryQueueLen,
    UpdateStatus,
    Finish(Result<(), PlayError>),
    Wait,
}

/// `PlayEvent` as plain values; of a playlist only the URLs of its videos count.
pub enum PlayEventV {
    Invoked,
    Joined,
    Url(Seq<char>),
    CallLookedUp(bool),
    ReplySent,
    ReplyFailed,
    Playlist(Seq<Seq<char>>),
    Enqueued,
    QueueLen(nat),
    StatusUpdated,
}

/// `PlayState` as plain values.
pub enum PlayStateV {
    Start,
    AwaitJoin,
    AwaitUrl,
    AwaitCall { url: Seq<char> },
    AwaitSearchReply { url: Seq<char> },
    AwaitPlaylist { url: Seq<char> },
    AwaitAddingEdit { urls: Seq<Seq<char>> },
    Enqueuing { urls: Seq<Seq<char>>, next: nat },
    AwaitQueueLen,
    AwaitStatus,
    AwaitFinalReply { outcome: Result<(), PlayError> },
    Done { outcome: Result<(), PlayError> },
}

/// The texts of a list of strings.
pub open spec fn texts(v: Seq<String>) -> Seq<Seq<char>> {
    v.map_values(|s: String| s@)
}

/// The URLs of a playlist's videos.
pub open spec fn item_urls(items: Seq<PlaylistItem>) -> Seq<Seq<char>> {
    items.map_values(|i: PlaylistItem| i.url@)
}

impl View for PlayReply {
    type V = PlayReplyV;

    open spec fn view(&self) -> PlayReplyV {
        match self {
            PlayReply::InvalidUrl => PlayReplyV::InvalidUrl,
            PlayReply::NotInVoice => PlayReplyV::NotInVoice,
            PlayReply::Searching { url } => PlayReplyV::Searching { url: url@ },
        }
    }
}

impl View for PlayEdit {
    type V = PlayEditV;

    open spec fn view(&self) -> PlayEditV {
        match self {
            PlayEdit::Adding { count, url } => PlayEditV::Adding { count: *count as nat, url: url@ },
            PlayEdit::Added => PlayEditV::Added,
        }
    }
}

impl View for PlayAction {
    type V = PlayActionV;

    open spec fn view(&self) -> PlayActionV {
        match self {
            PlayAction::JoinVoice => PlayActionV::JoinVoice,
            PlayAction::ReadUrl => PlayActionV::ReadUrl,
            PlayAction::LookupCall => PlayActionV::LookupCall,
            PlayAction::Respond(r) => PlayActionV::Respond(r@),
            PlayAction::Edit(e) => PlayActionV::Edit(e@),
            PlayAction::FetchPlaylist(u) => PlayActionV::FetchPlaylist(u@),
            PlayAction::Enqueue(u) => PlayActionV::Enqueue(u@),
            PlayAction::QueryQueueLen => PlayActionV::QueryQueueLen,
            PlayAction::UpdateStatus => PlayActionV::UpdateStatus,
            PlayAction::Finish(o) => PlayActionV::Finish(*o),
            PlayAction::Wait => PlayActionV::Wait,
        }
    }
}

impl View for PlayEvent {
    type V = PlayEventV;

    open spec fn view(&self) -> PlayEventV {
        match self {
            PlayEvent::Invoked => PlayEventV::Invoked,
            PlayEvent::Joined => PlayEventV::Joined,
            PlayEvent::Url(u) => PlayEventV::Url(u@),
            PlayEvent::CallLookedUp(b) => PlayEventV::CallLookedUp(*b),
            PlayEvent::ReplySent => PlayEventV::ReplySent,
            PlayEvent::ReplyFailed => PlayEventV::ReplyFailed,
            PlayEvent::Playlist(items) => PlayEventV::Playlist(item_urls(items@)),
            PlayEvent::Enqueued => PlayEventV::Enqueued,
            PlayEvent::QueueLen(n) => PlayEventV::QueueLen(*n as nat),
            PlayEvent::StatusUpdated => PlayEventV::StatusUpdated,
        }
    }
}

impl View for PlayState {
    type V = PlayStateV;

    open spec fn view(&self) -> PlayStateV {
        match self {
            PlayState::Start => PlayStateV::Start,
            PlayState::AwaitJoin => PlayStateV::AwaitJoin,
            PlayState::AwaitUrl => PlayStateV::AwaitUrl,
            PlayState::AwaitCall { url } => PlayStateV::AwaitCall { url: url@ },
            PlayState::AwaitSearchReply { url } => PlayStateV::AwaitSearchReply { url: url@ },
            PlayState::AwaitPlaylist { url } => PlayStateV::AwaitPlaylist { url: url@ },
            PlayState::AwaitAddingEdit { urls } => PlayStateV::AwaitAddingEdit { urls: texts(urls@) },
            PlayState::Enqueuing { urls, next } => PlayStateV::Enqueuing {
                urls: texts(urls@),
                next: *next as nat,
            },
            PlayState::AwaitQueueLen => PlayStateV::AwaitQueueLen,
            PlayState::AwaitStatus => PlayStateV::AwaitStatus,
            PlayState::AwaitFinalReply { outcome } => PlayStateV::AwaitFinalReply { outcome: *outcome },
            PlayState::Done { outcome } => PlayStateV::Done { outcome: *outcome },
        }
    }
}

/// The marker of a YouTube playlist URL.
pub open spec fn playlist_marker() -> Seq<char> {
    "/playlist?list="@
}

/// A URL that names a playlist rather than a single video.
pub open spec fn is_playlist_url(url: Seq<char>) -> bool {
    contains_spec(url, playlist_marker())
}

/// The state that starts to queue `urls`, and the action it asks for: the
/// first URL, or the size of the queue where there is none.
pub open spec fn start_queueing(urls: Seq<Seq<char>>) -> (PlayStateV, PlayActionV) {
    if urls.len() == 0 {
        (PlayStateV::AwaitQueueLen, PlayActionV::QueryQueueLen)
    } else {
        (PlayStateV::Enqueuing { urls, next: 1 }, PlayActionV::Enqueue(urls[0]))
    }
}

/// How `/play` goes on: the next state and action after `event` in `state`.
pub open spec fn next(state: PlayStateV, event: PlayEventV) -> (PlayStateV, PlayActionV) {
    match (state, event) {
        (PlayStateV::Start, PlayEventV::Invoked) => (PlayStateV::AwaitJoin, PlayActionV::JoinVoice),
        (PlayStateV::AwaitJoin, PlayEventV::Joined) => (PlayStateV::AwaitUrl, PlayActionV::ReadUrl),
        (PlayStateV::AwaitUrl, PlayEventV::Url(url)) => if is_accepted_url(url) {
            (PlayStateV::AwaitCall { url }, PlayActionV::LookupCall)
        } else {
            (
                PlayStateV::AwaitFinalReply { outcome: Ok(()) },
                PlayActionV::Respond(PlayReplyV::InvalidUrl),
            )
        },
        (PlayStateV::AwaitCall { url }, PlayEventV::CallLookedUp(in_call)) => if in_call {
            (PlayStateV::AwaitSearchReply { url }, PlayActionV::Respond(PlayReplyV::Searching { url }))
        } else {
            (
                PlayStateV::AwaitFinalReply { outcome: Err(PlayError::NotInVoice) },
                PlayActionV::Respond(PlayReplyV::NotInVoice),
            )
        },
        (PlayStateV::AwaitSearchReply { url }, PlayEventV::ReplySent) => if is_playlist_url(url) {
            (PlayStateV::AwaitPlaylist { url }, PlayActionV::FetchPlaylist(url))
        } else {
            (
                PlayStateV::AwaitAddingEdit { urls: seq![url] },
                PlayActionV::Edit(PlayEditV::Adding { count: 1, url }),
            )
        },
        (PlayStateV::AwaitPlaylist { url }, PlayEventV::Playlist(urls)) => (
            PlayStateV::AwaitAddingEdit { urls },
            PlayActionV::Edit(PlayEditV::Adding { count: urls.len(), url }),
        ),
        (PlayStateV::AwaitAddingEdit { urls }, PlayEventV::ReplySent) => start_queueing(urls),
        (PlayStateV::Enqueuing { urls, next }, PlayEventV::Enqueued) => if next < urls.len() {
            (PlayStateV::Enqueuing { urls, next: next + 1 }, PlayActionV::Enqueue(urls[next as int]))
        } else {
            (PlayStateV::AwaitQueueLen, PlayActionV::QueryQueueLen)
        },
        (PlayStateV::AwaitQueueLen, PlayEventV::QueueLen(n)) => if n > 1 {
            (PlayStateV::AwaitStatus, PlayActionV::UpdateStatus)
        } else {
            (PlayStateV::AwaitFinalReply { outcome: Ok(()) }, PlayActionV::Edit(PlayEditV::Added))
        },
        (PlayStateV::AwaitStatus, PlayEventV::StatusUpdated) => (
            PlayStateV::AwaitFinalReply { outcome: Ok(()) },
            PlayActionV::Edit(PlayEditV::Added),
        ),
        (PlayStateV::AwaitFinalReply { outcome }, PlayEventV::ReplySent) => (
            PlayStateV::Done { outcome },
            PlayActionV::Finish(outcome),
        ),
        (PlayStateV::AwaitSearchReply { .. }, PlayEventV::ReplyFailed)
        | (PlayStateV::AwaitAddingEdit { .. }, PlayEventV::ReplyFailed)
        | (PlayStateV::AwaitFinalReply { .. }, PlayEventV::ReplyFailed) => (
            PlayStateV::Done { outcome: Err(PlayError::ResponseFailed) },
            PlayActionV::Finish(Err(PlayError::ResponseFailed)),
        ),
        (s, _) => (s, PlayActionV::Wait),
    }
}

/// The URLs of the playlist's videos, in order.
fn urls_of(items: &Vec<PlaylistItem>) -> (r: Vec<String>)
    ensures
        texts(r@) == item_urls(items@),
{
    let mut r: Vec<String> = Vec::new();
    let n = items.len();
    let mut i: usize = 0;
    while i < n
        invariant
            n == items@.len(),
            i <= n,
            texts(r@) == item_urls(items@.take(i as int)),
        decreases n - i,
    {
        let u = items[i].url.clone();
        let ghost before = r@;
        proof {
            assert(items@.take(i + 1) =~= items@.take(i as int).push(items@[i as int]));
        }
        r.push(u);
        assert(r@ =~= before.push(u));
        assert(texts(r@) =~= texts(before).push(items@[i as int].url@));
        assert(item_urls(items@.take(i + 1)) =~= item_urls(items@.take(i as int)).push(
            items@[i as int].url@,
        ));
        i = i + 1;
    }
    assert(items@.take(n as int) =~= items@);
    r
}

/// Whether the URL names a playlist.
pub fn is_playlist(url: &str) -> (r: bool)
    ensures
        r == is_playlist_url(url@),
{
    contains(url, "/playlist?list=")
}

/// Carries `/play` one step further: the state and action that follow
/// `event` in `state`, as `next` describes them.
pub fn step(state: PlayState, event: PlayEvent) -> (r: (PlayState, PlayAction))
    ensures
        (r.0@, r.1@) == next(state@, event@),
{
    match (state, event) {
        (PlayState::Start, PlayEvent::Invoked) => (PlayState::AwaitJoin, PlayAction::JoinVoice),
        (PlayState::AwaitJoin, PlayEvent::Joined) => (PlayState::AwaitUrl, PlayAction::ReadUrl),
        (PlayState::AwaitUrl, PlayEvent::Url(url)) => {
            if starts_with(url.as_str(), "http") {
                (PlayState::AwaitCall { url }, PlayAction::LookupCall)
            } else {
                (
                    PlayState::AwaitFinalReply { outcome: Ok(()) },
                    PlayAction::Respond(PlayReply::InvalidUrl),
                )
            }
        },
        (PlayState::AwaitCall { url }, PlayEvent::CallLookedUp(in_call)) => {
            if in_call {
                let shown = url.clone();
                (PlayState::AwaitSearchReply { url }, PlayAction::Respond(PlayReply::Searching { url: shown }))
            } else {
                (
                    PlayState::AwaitFinalReply { outcome: Err(PlayError::NotInVoice) },
                    PlayAction::Respond(PlayReply::NotInVoice),
                )
            }
        },
        (PlayState::AwaitSearchReply { url }, PlayEvent::ReplySent) => {
            if is_playlist(url.as_str()) {
                let asked = url.clone();
                (PlayState::AwaitPlaylist { url }, PlayAction::FetchPlaylist(asked))
            } else {
                let shown = url.clone();
                let mut urls = Vec::new();
                urls.push(url);
                assert(texts(urls@) =~= seq![shown@]);
                (PlayState::AwaitAddingEdit { urls }, PlayAction::Edit(PlayEdit::Adding { count: 1, url: shown }))
            }
        },
        (PlayState::AwaitPlaylist { url }, PlayEvent::Playlist(items)) => {
            let urls = urls_of(&items);
            let count = urls.len();
            (PlayState::AwaitAddingEdit { urls }, PlayAction::Edit(PlayEdit::Adding { count, url }))
        },
        (PlayState::AwaitAddingEdit { urls }, PlayEvent::ReplySent) => {
            if urls.len() == 0 {
                (PlayState::AwaitQueueLen, PlayAction::QueryQueueLen)
            } else {
                let first = urls[0].clone();
                (PlayState::Enqueuing { urls, next: 1 }, PlayAction::Enqueue(first))
            }
        },
        (PlayState::Enqueuing { urls, next }, PlayEvent::Enqueued) => {
            if next < urls.len() {
                let u = urls[next].clone();
                (PlayState::Enqueuing { urls, next: next + 1 }, PlayAction::Enqueue(u))
            } else {
                (PlayState::AwaitQueueLen, PlayAction::QueryQueueLen)
            }
        },
        (PlayState::AwaitQueueLen, PlayEvent::QueueLen(n)) => {
            if n > 1 {
                (PlayState::AwaitStatus, PlayAction::UpdateStatus)
            } else {
                (PlayState::AwaitFinalReply { outcome: Ok(()) }, PlayAction::Edit(PlayEdit::Added))
            }
        },
        (PlayState::AwaitStatus, PlayEvent::StatusUpdated) => (
            PlayState::AwaitFinalReply { outcome: Ok(()) },
            PlayAction::Edit(PlayEdit::Added),
        ),
        (PlayState::AwaitFinalReply { outcome }, PlayEvent::ReplySent) => (
            PlayState::Done { outcome },
            PlayAction::Finish(outcome),
        ),
        (PlayState::AwaitSearchReply { .. }, PlayEvent::ReplyFailed)
        | (PlayState::AwaitAddingEdit { .. }, PlayEvent::ReplyFailed)
        | (PlayState::AwaitFinalReply { .. }, PlayEvent::ReplyFailed) => (
            PlayState::Done { outcome: Err(PlayError::ResponseFailed) },
            PlayAction::Finish(Err(PlayError::ResponseFailed)),
        ),
        (s, _) => (s, PlayAction::Wait),
    }
}


/// The first response of each kind: an embed that only the user sees.
pub open spec fn is_rendered_reply(reply: PlayReplyV, r: Reply) -> bool {
    &&& r.content is None
    &&& r.ephemeral
    &&& r.embed matches Some(e)
    &&& match reply {
        PlayReplyV::InvalidUrl => e.is_titled("Invalid URL parameter"@, EmbedColor::Failure.spec_hex()),
        PlayReplyV::NotInVoice => {
            &&& text_is(e.title, "Not in a voice channel"@)
            &&& text_is(e.description, "Please connect the bot to a voice channel first"@)
            &&& e.color == Some(EmbedColor::Failure.spec_hex())
            &&& e.url is None
            &&& e.thumbnail is None
            &&& e.footer is None
            &&& e.fields@.len() == 0
        },
        PlayReplyV::Searching { url } => {
            &&& text_is(e.title, "Searching ..."@)
            &&& text_is(e.url, url)
            &&& e.color == Some(EmbedColor::Pending.spec_hex())
            &&& e.description is None
            &&& e.thumbnail is None
            &&& e.footer is None
            &&& e.fields@.len() == 0
        },
    }
}

/// The title of the edit that announces `count` tracks.
pub open spec fn adding_title(count: nat) -> Seq<char> {
    "Adding "@ + decimal(count) + " songs to the queue ..."@
}

/// The edit of each kind.
pub open spec fn is_rendered_edit(edit: PlayEditV, e: Embed) -> bool {
    match edit {
        PlayEditV::Adding { count, url } => {
            &&& text_is(e.title, adding_title(count))
            &&& text_is(e.url, url)
            &&& e.color == Some(EmbedColor::Pending.spec_hex())
            &&& e.description is None
            &&& e.thumbnail is None
            &&& e.footer is None
            &&& e.fields@.len() == 0
        },
        PlayEditV::Added => e.is_titled(
            "Added all songs to the queue"@,
            EmbedColor::Success.spec_hex(),
        ),
    }
}

impl PlayReply {
    /// The response as it is sent.
    pub fn render(&self) -> (r: Reply)
        ensures
            is_rendered_reply(self@, r),
    {
        match self {
            PlayReply::InvalidUrl => Reply::embed(
                Embed::titled(
                    String::from_str("Invalid URL parameter"),
                    EmbedColor::Failure.hex(),
                ),
                true,
            ),
            PlayReply::NotInVoice => {
                let mut e = Embed::titled(
                    String::from_str("Not in a voice channel"),
                    EmbedColor::Failure.hex(),
                );
                e.description = Some(
                    String::from_str("Please connect the bot to a voice channel first"),
                );
                Reply::embed(e, true)
            },
            PlayReply::Searching { url } => {
                let mut e = Embed::titled(
                    String::from_str("Searching ..."),
                    EmbedColor::Pending.hex(),
                );
                e.url = Some(url.clone());
                Reply::embed(e, true)
            },
        }
    }
}

impl PlayEdit {
    /// The edit as it is sent.
    pub fn render(&self) -> (r: Embed)
        ensures
            is_rendered_edit(self@, r),
    {
        match self {
            PlayEdit::Adding { count, url } => {
                let mut title = String::new();
                title.append("Adding ");
                title.append(u64_to_decimal(*count as u64).as_str());
                title.append(" songs to the queue ...");
                assert(title@ =~= adding_title(*count as nat));
                let mut e = Embed::titled(title, EmbedColor::Pending.hex());
                e.url = Some(url.clone());
                e
            },
            PlayEdit::Added => Embed::titled(
                String::from_str("Added all songs to the queue"),
                EmbedColor::Success.hex(),
            ),
        }
    }
}

/// The state that a sequence of events leads to from `state`, and the
/// actions asked for on the way.
pub open spec fn run(state: PlayStateV, events: Seq<PlayEventV>) -> (PlayStateV, Seq<PlayActionV>)
    decreases events.len(),
{
    if events.len() == 0 {
        (state, Seq::empty())
    } else {
        let (s1, a1) = next(state, events[0]);
        let (s2, rest) = run(s1, events.drop_first());
        (s2, seq![a1] + rest)
    }
}

/// The invocation and the join that open every `/play`, then the URL.
pub open spec fn opening(url: Seq<char>) -> Seq<PlayEventV> {
    seq![PlayEventV::Invoked, PlayEventV::Joined, PlayEventV::Url(url)]
}

proof fn lemma_run_cons(state: PlayStateV, e: PlayEventV, events: Seq<PlayEventV>)
    ensures
        run(state, seq![e] + events) == ({
            let (s1, a1) = next(state, e);
            let (s2, rest) = run(s1, events);
            (s2, seq![a1] + rest)
        }),
{
    assert((seq![e] + events).drop_first() =~= events);
}

/// A URL that does not start with `http` is refused: the user is told so,
/// nothing is queued, and the command ends without error.
pub proof fn lemma_invalid_url_is_refused(url: Seq<char>)
    requires
        !is_accepted_url(url),
    ensures
        run(PlayStateV::Start, opening(url).push(PlayEventV::ReplySent)) == (
            PlayStateV::Done { outcome: Ok(()) },
            seq![
                PlayActionV::JoinVoice,
                PlayActionV::ReadUrl,
                PlayActionV::Respond(PlayReplyV::InvalidUrl),
                PlayActionV::Finish(Ok(())),
            ],
        ),
{
    reveal_with_fuel(run, 5);
    let events = opening(url).push(PlayEventV::ReplySent);
    assert(events.drop_first() =~= seq![PlayEventV::Joined, PlayEventV::Url(url), PlayEventV::ReplySent]);
    assert(events.drop_first().drop_first() =~= seq![PlayEventV::Url(url), PlayEventV::ReplySent]);
    assert(events.drop_first().drop_first().drop_first() =~= seq![PlayEventV::ReplySent]);
    assert(events.drop_first().drop_first().drop_first().drop_first() =~= Seq::<PlayEventV>::empty());
    let (_, acts) = run(PlayStateV::Start, events);
    assert(acts =~= seq![
        PlayActionV::JoinVoice,
        PlayActionV::ReadUrl,
        PlayActionV::Respond(PlayReplyV::InvalidUrl),
        PlayActionV::Finish(Ok(())),
    ]);
}

/// Without a call in the guild, an accepted URL is not searched for: the
/// user is told to connect the bot first and the command fails.
pub proof fn lemma_no_call_fails(url: Seq<char>)
    requires
        is_accepted_url(url),
    ensures
        run(
            PlayStateV::Start,
            opening(url).push(PlayEventV::CallLookedUp(false)).push(PlayEventV::ReplySent),
        ) == (
            PlayStateV::Done { outcome: Err(PlayError::NotInVoice) },
            seq![
                PlayActionV::JoinVoice,
                PlayActionV::ReadUrl,
                PlayActionV::LookupCall,
                PlayActionV::Respond(PlayReplyV::NotInVoice),
                PlayActionV::Finish(Err(PlayError::NotInVoice)),
            ],
        ),
{
    reveal_with_fuel(run, 6);
    let events = opening(url).push(PlayEventV::CallLookedUp(false)).push(PlayEventV::ReplySent);
    let e1 = events.drop_first();
    let e2 = e1.drop_first();
    let e3 = e2.drop_first();
    let e4 = e3.drop_first();
    assert(e1 =~= seq![
        PlayEventV::Joined,
        PlayEventV::Url(url),
        PlayEventV::CallLookedUp(false),
        PlayEventV::ReplySent,
    ]);
    assert(e2 =~= seq![PlayEventV::Url(url), PlayEventV::CallLookedUp(false), PlayEventV::ReplySent]);
    assert(e3 =~= seq![PlayEventV::CallLookedUp(false), PlayEventV::ReplySent]);
    assert(e4 =~= seq![PlayEventV::ReplySent]);
    assert(e4.drop_first() =~= Seq::<PlayEventV>::empty());
    let (_, acts) = run(PlayStateV::Start, events);
    assert(acts =~= seq![
        PlayActionV::JoinVoice,
        PlayActionV::ReadUrl,
        PlayActionV::LookupCall,
        PlayActionV::Respond(PlayReplyV::NotInVoice),
        PlayActionV::Finish(Err(PlayError::NotInVoice)),
    ]);
}

/// `n` reports that a track was queued.
pub open spec fn enqueued_events(n: nat) -> Seq<PlayEventV> {
    Seq::new(n, |i: int| PlayEventV::Enqueued)
}

/// The actions that queue each of `urls`, in order.
pub open spec fn enqueue_actions(urls: Seq<Seq<char>>) -> Seq<PlayActionV> {
    urls.map_values(|u: Seq<char>| PlayActionV::Enqueue(u))
}

proof fn lemma_enqueuing_rest(urls: Seq<Seq<char>>, next: nat)
    requires
        1 <= next <= urls.len(),
    ensures
        run(PlayStateV::Enqueuing { urls, next }, enqueued_events((urls.len() - next + 1) as nat)) == (
            PlayStateV::AwaitQueueLen,
            enqueue_actions(urls.skip(next as int)).push(PlayActionV::QueryQueueLen),
        ),
    decreases urls.len() - next,
{
    let events = enqueued_events((urls.len() - next + 1) as nat);
    reveal_with_fuel(run, 2);
    if next == urls.len() {
        assert(events.drop_first() =~= Seq::<PlayEventV>::empty());
        assert(enqueue_actions(urls.skip(next as int)) =~= Seq::<PlayActionV>::empty());
        assert(seq![PlayActionV::QueryQueueLen] + Seq::<PlayActionV>::empty() =~= Seq::<
            PlayActionV,
        >::empty().push(PlayActionV::QueryQueueLen));
    } else {
        lemma_enqueuing_rest(urls, next + 1);
        assert(events.drop_first() =~= enqueued_events((urls.len() - (next + 1) + 1) as nat));
        assert(seq![PlayActionV::Enqueue(urls[next as int])] + enqueue_actions(
            urls.skip((next + 1) as int),
        ).push(PlayActionV::QueryQueueLen) =~= enqueue_actions(urls.skip(next as int)).push(
            PlayActionV::QueryQueueLen,
        ));
    }
}

/// Once the number of tracks was announced, every URL is queued exactly
/// once and in the order given, and then the size of the queue is asked for.
pub proof fn lemma_urls_are_queued_in_order(urls: Seq<Seq<char>>)
    ensures
        run(
            PlayStateV::AwaitAddingEdit { urls },
            seq![PlayEventV::ReplySent] + enqueued_events(urls.len()),
        ) == (PlayStateV::AwaitQueueLen, enqueue_actions(urls).push(PlayActionV::QueryQueueLen)),
{
    let events = seq![PlayEventV::ReplySent] + enqueued_events(urls.len());
    lemma_run_cons(PlayStateV::AwaitAddingEdit { urls }, PlayEventV::ReplySent, enqueued_events(urls.len()));
    if urls.len() == 0 {
        assert(enqueued_events(0) =~= Seq::<PlayEventV>::empty());
        assert(enqueue_actions(urls) =~= Seq::<PlayActionV>::empty());
        assert(seq![PlayActionV::QueryQueueLen] + Seq::<PlayActionV>::empty() =~= Seq::<PlayActionV>::empty().push(
            PlayActionV::QueryQueueLen,
        ));
    } else {
        let tail = enqueued_events(urls.len());
        lemma_enqueuing_rest(urls, 1);
        assert(tail =~= enqueued_events((urls.len() - 1 + 1) as nat));
        assert(urls.skip(0) =~= urls);
        assert(seq![PlayActionV::Enqueue(urls[0])] + enqueue_actions(urls.skip(1)).push(
            PlayActionV::QueryQueueLen,
        ) =~= enqueue_actions(urls).push(PlayActionV::QueryQueueLen));
    }
}


proof fn lemma_run_append(state: PlayStateV, first: Seq<PlayEventV>, then: Seq<PlayEventV>)
    ensures
        run(state, first + then) == ({
            let (s1, a1) = run(state, first);
            let (s2, a2) = run(s1, then);
            (s2, a1 + a2)
        }),
    decreases first.len(),
{
    if first.len() == 0 {
        assert(first + then =~= then);
        let (s2, a2) = run(state, then);
        assert(Seq::<PlayActionV>::empty() + a2 =~= a2);
    } else {
        let (s1, a1) = next(state, first[0]);
        lemma_run_append(s1, first.drop_first(), then);
        assert((first + then).drop_first() =~= first.drop_first() + then);
        let (s2, r2) = run(s1, first.drop_first());
        let (s3, r3) = run(s2, then);
        assert(seq![a1] + (r2 + r3) =~= (seq![a1] + r2) + r3);
    }
}

proof fn lemma_run_one(state: PlayStateV, e: PlayEventV)
    ensures
        run(state, seq![e]) == ({
            let (s1, a1) = next(state, e);
            (s1, seq![a1])
        }),
{
    reveal_with_fuel(run, 2);
    assert(seq![e].drop_first() =~= Seq::<PlayEventV>::empty());
    let (s1, a1) = next(state, e);
    assert(seq![a1] + Seq::<PlayActionV>::empty() =~= seq![a1]);
}


proof fn lemma_run_two(state: PlayStateV, a: PlayEventV, b: PlayEventV)
    ensures
        run(state, seq![a, b]) == ({
            let (s1, a1) = next(state, a);
            let (s2, a2) = next(s1, b);
            (s2, seq![a1, a2])
        }),
{
    lemma_run_cons(state, a, seq![b]);
    assert(seq![a] + seq![b] =~= seq![a, b]);
    let (s1, a1) = next(state, a);
    lemma_run_one(s1, b);
    let (s2, a2) = next(s1, b);
    assert(seq![a1] + seq![a2] =~= seq![a1, a2]);
}

proof fn lemma_opening_accepted(url: Seq<char>)
    requires
        is_accepted_url(url),
    ensures
        run(PlayStateV::Start, opening(url)) == (
            PlayStateV::AwaitCall { url },
            seq![PlayActionV::JoinVoice, PlayActionV::ReadUrl, PlayActionV::LookupCall],
        ),
{
    lemma_run_cons(PlayStateV::Start, PlayEventV::Invoked, seq![PlayEventV::Joined, PlayEventV::Url(url)]);
    assert(seq![PlayEventV::Invoked] + seq![PlayEventV::Joined, PlayEventV::Url(url)] =~= opening(url));
    lemma_run_two(PlayStateV::AwaitJoin, PlayEventV::Joined, PlayEventV::Url(url));
    assert(seq![PlayActionV::JoinVoice] + seq![PlayActionV::ReadUrl, PlayActionV::LookupCall]
        =~= seq![PlayActionV::JoinVoice, PlayActionV::ReadUrl, PlayActionV::LookupCall]);
}

/// From the call lookup to the size of the queue, for one track.
pub open spec fn single_track_middle(queued: nat) -> Seq<PlayEventV> {
    seq![
        PlayEventV::CallLookedUp(true),
        PlayEventV::ReplySent,
        PlayEventV::ReplySent,
        PlayEventV::Enqueued,
        PlayEventV::QueueLen(queued),
    ]
}

proof fn lemma_single_track_middle(url: Seq<char>, queued: nat)
    requires
        !is_playlist_url(url),
    ensures
        run(PlayStateV::AwaitCall { url }, single_track_middle(queued)) == (
            if queued > 1 {
                PlayStateV::AwaitStatus
            } else {
                PlayStateV::AwaitFinalReply { outcome: Ok(()) }
            },
            seq![
                PlayActionV::Respond(PlayReplyV::Searching { url }),
                PlayActionV::Edit(PlayEditV::Adding { count: 1, url }),
                PlayActionV::Enqueue(url),
                PlayActionV::QueryQueueLen,
                if queued > 1 {
                    PlayActionV::UpdateStatus
                } else {
                    PlayActionV::Edit(PlayEditV::Added)
                },
            ],
        ),
{
    let a = seq![PlayEventV::CallLookedUp(true), PlayEventV::ReplySent];
    let b = seq![PlayEventV::ReplySent, PlayEventV::Enqueued];
    let c = seq![PlayEventV::QueueLen(queued)];
    assert(single_track_middle(queued) =~= (a + b) + c);
    lemma_run_append(PlayStateV::AwaitCall { url }, a + b, c);
    lemma_run_append(PlayStateV::AwaitCall { url }, a, b);
    lemma_run_two(PlayStateV::AwaitCall { url }, PlayEventV::CallLookedUp(true), PlayEventV::ReplySent);
    let s1 = PlayStateV::AwaitAddingEdit { urls: seq![url] };
    lemma_run_two(s1, PlayEventV::ReplySent, PlayEventV::Enqueued);
    assert(seq![url][0] == url);
    lemma_run_one(PlayStateV::AwaitQueueLen, PlayEventV::QueueLen(queued));
    let (_, acts) = run(PlayStateV::AwaitCall { url }, single_track_middle(queued));
    assert(acts =~= seq![
        PlayActionV::Respond(PlayReplyV::Searching { url }),
        PlayActionV::Edit(PlayEditV::Adding { count: 1, url }),
        PlayActionV::Enqueue(url),
        PlayActionV::QueryQueueLen,
        if queued > 1 {
            PlayActionV::UpdateStatus
        } else {
            PlayActionV::Edit(PlayEditV::Added)
        },
    ]);
}

/// The events of a `/play` of one track that goes well, where the queue
/// then holds `queued` tracks.
pub open spec fn single_track_events(url: Seq<char>, queued: nat) -> Seq<PlayEventV> {
    opening(url) + single_track_middle(queued) + (if queued > 1 {
        seq![PlayEventV::StatusUpdated]
    } else {
        Seq::empty()
    }) + seq![PlayEventV::ReplySent]
}

/// The actions of a `/play` of one track that goes well.
pub open spec fn single_track_actions(url: Seq<char>, queued: nat) -> Seq<PlayActionV> {
    seq![
        PlayActionV::JoinVoice,
        PlayActionV::ReadUrl,
        PlayActionV::LookupCall,
        PlayActionV::Respond(PlayReplyV::Searching { url }),
        PlayActionV::Edit(PlayEditV::Adding { count: 1, url }),
        PlayActionV::Enqueue(url),
        PlayActionV::QueryQueueLen,
    ] + (if queued > 1 {
        seq![PlayActionV::UpdateStatus]
    } else {
        Seq::empty()
    }) + seq![PlayActionV::Edit(PlayEditV::Added), PlayActionV::Finish(Ok(()))]
}

/// A `/play` of an accepted URL that names no playlist, with the bot in a
/// call: the user is told that the URL is searched for and that one track is
/// added, that one URL is queued, the status message is refreshed exactly
/// when the queue then holds more than one track, and the command succeeds.
pub proof fn lemma_single_track_is_queued(url: Seq<char>, queued: nat)
    requires
        is_accepted_url(url),
        !is_playlist_url(url),
    ensures
        run(PlayStateV::Start, single_track_events(url, queued)) == (
            PlayStateV::Done { outcome: Ok(()) },
            single_track_actions(url, queued),
        ),
{
    let e1 = opening(url);
    let e2 = single_track_middle(queued);
    let e3: Seq<PlayEventV> = if queued > 1 {
        seq![PlayEventV::StatusUpdated]
    } else {
        Seq::empty()
    };
    let e4 = seq![PlayEventV::ReplySent];
    assert(single_track_events(url, queued) == ((e1 + e2) + e3) + e4);
    lemma_run_append(PlayStateV::Start, (e1 + e2) + e3, e4);
    lemma_run_append(PlayStateV::Start, e1 + e2, e3);
    lemma_run_append(PlayStateV::Start, e1, e2);
    lemma_opening_accepted(url);
    lemma_single_track_middle(url, queued);
    let s2 = if queued > 1 {
        PlayStateV::AwaitStatus
    } else {
        PlayStateV::AwaitFinalReply { outcome: Ok(()) }
    };
    let s3 = PlayStateV::AwaitFinalReply { outcome: Ok(()) };
    if queued > 1 {
        lemma_run_one(s2, PlayEventV::StatusUpdated);
    } else {
        assert(run(s2, e3) == (s3, Seq::<PlayActionV>::empty()));
    }
    lemma_run_one(s3, PlayEventV::ReplySent);
    assert(run(PlayStateV::Start, single_track_events(url, queued)).1 =~= single_track_actions(
        url,
        queued,
    ));
}


/// The events after the queue was filled: its size, the status refresh where
/// one is asked for, and the accepted final edit.
pub open spec fn closing_events(queued: nat) -> Seq<PlayEventV> {
    seq![PlayEventV::QueueLen(queued)] + (if queued > 1 {
        seq![PlayEventV::StatusUpdated]
    } else {
        Seq::empty()
    }) + seq![PlayEventV::ReplySent]
}

/// The actions that answer `closing_events`.
pub open spec fn closing_actions(queued: nat) -> Seq<PlayActionV> {
    (if queued > 1 {
        seq![PlayActionV::UpdateStatus]
    } else {
        Seq::empty()
    }) + seq![PlayActionV::Edit(PlayEditV::Added), PlayActionV::Finish(Ok(()))]
}

proof fn lemma_closing(queued: nat)
    ensures
        run(PlayStateV::AwaitQueueLen, closing_events(queued)) == (
            PlayStateV::Done { outcome: Ok(()) },
            closing_actions(queued),
        ),
{
    let status: Seq<PlayEventV> = if queued > 1 {
        seq![PlayEventV::StatusUpdated]
    } else {
        Seq::empty()
    };
    let first = seq![PlayEventV::QueueLen(queued)];
    let last = seq![PlayEventV::ReplySent];
    assert(closing_events(queued) == (first + status) + last);
    lemma_run_append(PlayStateV::AwaitQueueLen, first + status, last);
    lemma_run_append(PlayStateV::AwaitQueueLen, first, status);
    lemma_run_one(PlayStateV::AwaitQueueLen, PlayEventV::QueueLen(queued));
    let fin = PlayStateV::AwaitFinalReply { outcome: Ok(()) };
    if queued > 1 {
        lemma_run_one(PlayStateV::AwaitStatus, PlayEventV::StatusUpdated);
        lemma_run_one(fin, PlayEventV::ReplySent);
        assert(seq![PlayActionV::UpdateStatus] + seq![PlayActionV::Edit(PlayEditV::Added)] + seq![
            PlayActionV::Finish(Ok(())),
        ] =~= closing_actions(queued));
    } else {
        assert(run(fin, status) == (fin, Seq::<PlayActionV>::empty()));
        lemma_run_one(fin, PlayEventV::ReplySent);
        assert(seq![PlayActionV::Edit(PlayEditV::Added)] + Seq::<PlayActionV>::empty() + seq![
            PlayActionV::Finish(Ok(())),
        ] =~= closing_actions(queued));
    }
}

/// The events of a `/play` of a playlist whose videos have the URLs `urls`,
/// where everything goes well and the queue then holds `queued` tracks.
pub open spec fn playlist_events(url: Seq<char>, urls: Seq<Seq<char>>, queued: nat) -> Seq<
    PlayEventV,
> {
    opening(url) + seq![
        PlayEventV::CallLookedUp(true),
        PlayEventV::ReplySent,
        PlayEventV::Playlist(urls),
        PlayEventV::ReplySent,
    ] + enqueued_events(urls.len()) + closing_events(queued)
}

/// The actions of that `/play`.
pub open spec fn playlist_actions(url: Seq<char>, urls: Seq<Seq<char>>, queued: nat) -> Seq<
    PlayActionV,
> {
    seq![
        PlayActionV::JoinVoice,
        PlayActionV::ReadUrl,
        PlayActionV::LookupCall,
        PlayActionV::Respond(PlayReplyV::Searching { url }),
        PlayActionV::FetchPlaylist(url),
        PlayActionV::Edit(PlayEditV::Adding { count: urls.len(), url }),
    ] + enqueue_actions(urls) + seq![PlayActionV::QueryQueueLen] + closing_actions(queued)
}

/// A `/play` of a playlist URL, with the bot in a call: the playlist is
/// fetched, the number of its videos announced, every video queued once and
/// in the playlist's order, the status refreshed exactly when the queue then
/// holds more than one track, and the command succeeds.
pub proof fn lemma_playlist_is_queued(url: Seq<char>, urls: Seq<Seq<char>>, queued: nat)
    requires
        is_accepted_url(url),
        is_playlist_url(url),
    ensures
        run(PlayStateV::Start, playlist_events(url, urls, queued)) == (
            PlayStateV::Done { outcome: Ok(()) },
            playlist_actions(url, urls, queued),
        ),
{
    let a = opening(url);
    let b = seq![PlayEventV::CallLookedUp(true), PlayEventV::ReplySent, PlayEventV::Playlist(urls)];
    let c = seq![PlayEventV::ReplySent] + enqueued_events(urls.len());
    let d = closing_events(queued);
    assert(playlist_events(url, urls, queued) =~= ((a + b) + c) + d);
    lemma_run_append(PlayStateV::Start, (a + b) + c, d);
    lemma_run_append(PlayStateV::Start, a + b, c);
    lemma_run_append(PlayStateV::Start, a, b);
    lemma_opening_accepted(url);
    let s1 = PlayStateV::AwaitCall { url };
    lemma_run_cons(s1, PlayEventV::CallLookedUp(true), seq![PlayEventV::ReplySent, PlayEventV::Playlist(urls)]);
    assert(seq![PlayEventV::CallLookedUp(true)] + seq![PlayEventV::ReplySent, PlayEventV::Playlist(urls)] =~= b);
    lemma_run_two(
        PlayStateV::AwaitSearchReply { url },
        PlayEventV::ReplySent,
        PlayEventV::Playlist(urls),
    );
    let s2 = PlayStateV::AwaitAddingEdit { urls };
    lemma_urls_are_queued_in_order(urls);
    lemma_closing(queued);
    assert(run(PlayStateV::Start, playlist_events(url, urls, queued)).1 =~= playlist_actions(
        url,
        urls,
        queued,
    ));
}


/// A playlist event carries one URL per video of the playlist, in the
/// playlist's order: the URL of each video, and nothing else.
pub proof fn lemma_playlist_event_keeps_every_video(items: Vec<PlaylistItem>)
    ensures
        PlayEvent::Playlist(items)@ matches PlayEventV::Playlist(urls) && urls.len() == items@.len()
            && forall|k: int| 0 <= k < items@.len() ==> #[trigger] urls[k] == items@[k].url@,
{
}

/// Once the videos of a playlist are known, the edit announces as many songs
/// as the playlist has videos, and the queue is filled with every one of
/// their URLs, in the playlist's order.
pub proof fn lemma_every_video_is_announced_and_queued(url: Seq<char>, items: Vec<PlaylistItem>)
    ensures
        ({
            let (s1, a1) = next(PlayStateV::AwaitPlaylist { url }, PlayEvent::Playlist(items)@);
            &&& a1 == PlayActionV::Edit(PlayEditV::Adding { count: items@.len(), url })
            &&& s1 matches PlayStateV::AwaitAddingEdit { urls } && {
                let (s2, acts) = run(s1, seq![PlayEventV::ReplySent] + enqueued_events(items@.len()));
                &&& s2 == PlayStateV::AwaitQueueLen
                &&& acts.len() == items@.len() + 1
                &&& forall|k: int|
                    0 <= k < items@.len() ==> #[trigger] acts[k] == PlayActionV::Enqueue(
                        items@[k].url@,
                    )
                &&& acts[items@.len() as int] == PlayActionV::QueryQueueLen
            }
        }),
{
    lemma_playlist_event_keeps_every_video(items);
    let urls = item_urls(items@);
    lemma_urls_are_queued_in_order(urls);
    let acts = enqueue_actions(urls).push(PlayActionV::QueryQueueLen);
    assert forall|k: int| 0 <= k < items@.len() implies #[trigger] acts[k] == PlayActionV::Enqueue(
        items@[k].url@,
    ) by {
        assert(urls[k] == items@[k].url@);
    }
}

/// A refused response or edit ends `/play` with that failure, whichever
/// reply was refused: nothing further is queued or sent.
pub proof fn lemma_refused_reply_ends_play(state: PlayStateV)
    requires
        state is AwaitSearchReply || state is AwaitAddingEdit || state is AwaitFinalReply,
    ensures
        next(state, PlayEventV::ReplyFailed) == (
            PlayStateV::Done { outcome: Err(PlayError::ResponseFailed) },
            PlayActionV::Finish(Err(PlayError::ResponseFailed)),
        ),
{
}

/// Once `/play` is over, it stays over: no event leads anywhere else.
pub proof fn lemma_done_is_final(outcome: Result<(), PlayError>, event: PlayEventV)
    ensures
        next(PlayStateV::Done { outcome }, event) == (PlayStateV::Done { outcome }, PlayActionV::Wait),
{
}

/// The option of `/play` that holds the URL, with its German description.
pub open spec fn is_url_option(o: CommandOptionSpec) -> bool {
    &&& o.name@ == "url"@
    &&& o.description@ == "The URL directing to your audio source"@
    &&& o.localized_descriptions@.len() == 1
    &&& o.localized_descriptions@[0].is("de"@, "Die URL zu deinem Audio Track"@)
    &&& o.kind == OptionKind::String
    &&& o.required
}

/// The `/play` command: a name, a description and its German wording,
/// and the required URL option.
pub open spec fn is_play_command(c: CommandSpec) -> bool {
    &&& c.name@ == "play"@
    &&& c.description@ == "Play an audio stream from different sources"@
    &&& c.localized_descriptions@.len() == 1
    &&& c.localized_descriptions@[0].is("de"@, "Lasse mich einen bestimmten Audio Track spielen"@)
    &&& c.options@.len() == 1
    &&& is_url_option(c.options@[0])
}

/// The `/play` command.
pub fn register() -> (r: CommandSpec)
    ensures
        is_play_command(r),
{
    let mut c = CommandSpec::new("play", "Play an audio stream from different sources");
    c.localized_descriptions.push(
        Localized::new("de", "Lasse mich einen bestimmten Audio Track spielen"),
    );
    let mut localized = Vec::new();
    localized.push(Localized::new("de", "Die URL zu deinem Audio Track"));
    c.options.push(
        CommandOptionSpec {
            name: String::from_str("url"),
            description: String::from_str("The URL directing to your audio source"),
            localized_descriptions: localized,
            kind: OptionKind::String,
            required: true,
        },
    );
    c
}

} // verus!
