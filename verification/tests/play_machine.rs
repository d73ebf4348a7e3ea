use lorelei::modules::music::commands::play::{
    is_playlist, register, step, PlayAction, PlayEdit, PlayError, PlayEvent, PlayReply, PlayState,
};
use lorelei::modules::music::providers::ytdlp::PlaylistItem;
use lorelei::modules::util::EmbedColor;

/// Feeds the events one after the other and collects the actions.
fn drive(events: Vec<PlayEvent>) -> (PlayState, Vec<PlayAction>) {
    let mut state = PlayState::Start;
    let mut actions = Vec::new();
    for e in events {
        let (s, a) = step(state, e);
        state = s;
        actions.push(a);
    }
    (state, actions)
}

fn item(url: &str) -> PlaylistItem {
    PlaylistItem { url: url.to_string(), title: String::new(), duration: 0, uploader: String::new() }
}

#[test]
fn invalid_url_is_refused_without_queueing() {
    let (state, actions) = drive(vec![
        PlayEvent::Invoked,
        PlayEvent::Joined,
        PlayEvent::Url("ftp://x".to_string()),
        PlayEvent::ReplySent,
    ]);
    assert_eq!(state, PlayState::Done { outcome: Ok(()) });
    assert_eq!(actions, vec![
        PlayAction::JoinVoice,
        PlayAction::ReadUrl,
        PlayAction::Respond(PlayReply::InvalidUrl),
        PlayAction::Finish(Ok(())),
    ]);
}

#[test]
fn without_a_call_the_command_fails() {
    let (state, actions) = drive(vec![
        PlayEvent::Invoked,
        PlayEvent::Joined,
        PlayEvent::Url("https://x".to_string()),
        PlayEvent::CallLookedUp(false),
        PlayEvent::ReplySent,
    ]);
    assert_eq!(state, PlayState::Done { outcome: Err(PlayError::NotInVoice) });
    assert_eq!(actions[3], PlayAction::Respond(PlayReply::NotInVoice));
    assert_eq!(actions[4], PlayAction::Finish(Err(PlayError::NotInVoice)));
}

#[test]
fn one_track_is_queued_and_confirmed() {
    let url = "https://youtu.be/abc".to_string();
    let (state, actions) = drive(vec![
        PlayEvent::Invoked,
        PlayEvent::Joined,
        PlayEvent::Url(url.clone()),
        PlayEvent::CallLookedUp(true),
        PlayEvent::ReplySent,
        PlayEvent::ReplySent,
        PlayEvent::Enqueued,
        PlayEvent::QueueLen(1),
        PlayEvent::ReplySent,
    ]);
    assert_eq!(state, PlayState::Done { outcome: Ok(()) });
    assert_eq!(actions, vec![
        PlayAction::JoinVoice,
        PlayAction::ReadUrl,
        PlayAction::LookupCall,
        PlayAction::Respond(PlayReply::Searching { url: url.clone() }),
        PlayAction::Edit(PlayEdit::Adding { count: 1, url: url.clone() }),
        PlayAction::Enqueue(url.clone()),
        PlayAction::QueryQueueLen,
        PlayAction::Edit(PlayEdit::Added),
        PlayAction::Finish(Ok(())),
    ]);
}

#[test]
fn a_longer_queue_refreshes_the_status() {
    let (state, actions) = drive(vec![
        PlayEvent::Invoked,
        PlayEvent::Joined,
        PlayEvent::Url("https://a".to_string()),
        PlayEvent::CallLookedUp(true),
        PlayEvent::ReplySent,
        PlayEvent::ReplySent,
        PlayEvent::Enqueued,
        PlayEvent::QueueLen(3),
        PlayEvent::StatusUpdated,
        PlayEvent::ReplySent,
    ]);
    assert_eq!(state, PlayState::Done { outcome: Ok(()) });
    assert_eq!(actions[7], PlayAction::UpdateStatus);
    assert_eq!(actions[8], PlayAction::Edit(PlayEdit::Added));
}

#[test]
fn a_playlist_is_queued_in_order() {
    let list = "https://youtube.com/playlist?list=PL1".to_string();
    let (state, actions) = drive(vec![
        PlayEvent::Invoked,
        PlayEvent::Joined,
        PlayEvent::Url(list.clone()),
        PlayEvent::CallLookedUp(true),
        PlayEvent::ReplySent,
        PlayEvent::Playlist(vec![item("v1"), item("v2"), item("v3")]),
        PlayEvent::ReplySent,
        PlayEvent::Enqueued,
        PlayEvent::Enqueued,
        PlayEvent::Enqueued,
    ]);
    assert_eq!(state, PlayState::AwaitQueueLen);
    assert_eq!(actions[4], PlayAction::FetchPlaylist(list.clone()));
    assert_eq!(actions[5], PlayAction::Edit(PlayEdit::Adding { count: 3, url: list.clone() }));
    assert_eq!(actions[6..], [
        PlayAction::Enqueue("v1".to_string()),
        PlayAction::Enqueue("v2".to_string()),
        PlayAction::Enqueue("v3".to_string()),
        PlayAction::QueryQueueLen,
    ]);
}

#[test]
fn an_empty_playlist_queues_nothing() {
    let (state, actions) = drive(vec![
        PlayEvent::Invoked,
        PlayEvent::Joined,
        PlayEvent::Url("https://youtube.com/playlist?list=E".to_string()),
        PlayEvent::CallLookedUp(true),
        PlayEvent::ReplySent,
        PlayEvent::Playlist(vec![]),
        PlayEvent::ReplySent,
    ]);
    assert_eq!(state, PlayState::AwaitQueueLen);
    assert_eq!(actions[6], PlayAction::QueryQueueLen);
}

#[test]
fn a_refused_reply_ends_the_command() {
    let (state, actions) = drive(vec![
        PlayEvent::Invoked,
        PlayEvent::Joined,
        PlayEvent::Url("https://a".to_string()),
        PlayEvent::CallLookedUp(true),
        PlayEvent::ReplyFailed,
    ]);
    assert_eq!(state, PlayState::Done { outcome: Err(PlayError::ResponseFailed) });
    assert_eq!(actions[4], PlayAction::Finish(Err(PlayError::ResponseFailed)));
}

#[test]
fn unexpected_events_change_nothing() {
    let (s, a) = step(PlayState::Start, PlayEvent::Enqueued);
    assert_eq!(s, PlayState::Start);
    assert_eq!(a, PlayAction::Wait);
    let (s, a) = step(PlayState::Done { outcome: Ok(()) }, PlayEvent::ReplySent);
    assert_eq!(s, PlayState::Done { outcome: Ok(()) });
    assert_eq!(a, PlayAction::Wait);
}

#[test]
fn playlist_urls_are_recognised() {
    assert!(is_playlist("https://www.youtube.com/playlist?list=PL"));
    assert!(!is_playlist("https://www.youtube.com/watch?v=x&list=PL"));
}

#[test]
fn replies_are_rendered() {
    let r = PlayReply::InvalidUrl.render();
    assert!(r.ephemeral);
    let e = r.embed.unwrap();
    assert_eq!(e.title.as_deref(), Some("Invalid URL parameter"));
    assert_eq!(e.color, Some(EmbedColor::Failure.hex()));

    let r = PlayReply::NotInVoice.render();
    let e = r.embed.unwrap();
    assert_eq!(e.title.as_deref(), Some("Not in a voice channel"));
    assert_eq!(e.description.as_deref(), Some("Please connect the bot to a voice channel first"));

    let r = PlayReply::Searching { url: "https://u".to_string() }.render();
    let e = r.embed.unwrap();
    assert_eq!(e.title.as_deref(), Some("Searching ..."));
    assert_eq!(e.url.as_deref(), Some("https://u"));
    assert_eq!(e.color, Some(EmbedColor::Pending.hex()));
}

#[test]
fn edits_are_rendered() {
    let e = PlayEdit::Adding { count: 12, url: "https://u".to_string() }.render();
    assert_eq!(e.title.as_deref(), Some("Adding 12 songs to the queue ..."));
    assert_eq!(e.url.as_deref(), Some("https://u"));
    assert_eq!(e.color, Some(EmbedColor::Pending.hex()));
    let e = PlayEdit::Added.render();
    assert_eq!(e.title.as_deref(), Some("Added all songs to the queue"));
    assert_eq!(e.color, Some(EmbedColor::Success.hex()));
}

#[test]
fn play_is_registered_in_two_languages() {
    let c = register();
    assert_eq!(c.name, "play");
    assert_eq!(c.localized_descriptions[0].locale, "de");
    assert_eq!(c.options[0].name, "url");
    assert!(c.options[0].required);
}

#[test]
fn a_playlist_runs_to_the_end() {
    let list = "https://youtube.com/playlist?list=PL2".to_string();
    let (state, actions) = drive(vec![
        PlayEvent::Invoked,
        PlayEvent::Joined,
        PlayEvent::Url(list.clone()),
        PlayEvent::CallLookedUp(true),
        PlayEvent::ReplySent,
        PlayEvent::Playlist(vec![item("a"), item("b")]),
        PlayEvent::ReplySent,
        PlayEvent::Enqueued,
        PlayEvent::Enqueued,
        PlayEvent::QueueLen(2),
        PlayEvent::StatusUpdated,
        PlayEvent::ReplySent,
    ]);
    assert_eq!(state, PlayState::Done { outcome: Ok(()) });
    assert_eq!(actions[6..], [
        PlayAction::Enqueue("a".to_string()),
        PlayAction::Enqueue("b".to_string()),
        PlayAction::QueryQueueLen,
        PlayAction::UpdateStatus,
        PlayAction::Edit(PlayEdit::Added),
        PlayAction::Finish(Ok(())),
    ]);
}
