use lorelei::discord::{Embed, Localized, OptionKind, Reply};
use lorelei::handler::{BotCommand, BotHandler, CommandRoute};
use lorelei::modules::auto::dynamic_voice_channels::VoiceStep;
use lorelei::modules::general;
use lorelei::modules::general::command_ping;
use lorelei::modules::music::command_join::{self, JoinPlan};
use lorelei::modules::music::command_leave::{self, LeavePlan};
use lorelei::modules::music::command_play::{self, TrackMetadata};
use lorelei::modules::music::commands;
use lorelei::modules::music::commands::skip::{self, SkipPlan};
use lorelei::modules::music::events::{on_track_end, StatusChange};

fn text(t: &str, ephemeral: bool) -> Reply {
    Reply { content: Some(t.to_string()), ephemeral, embed: None }
}

#[test]
fn ping_answers() {
    assert_eq!(command_ping::run(), "Hey there !!!");
}

#[test]
fn ping_answers_everyone() {
    assert_eq!(command_ping::answer(), text("Hey there !!!", false));
}

#[test]
fn ping_is_registered() {
    let c = command_ping::register();
    assert_eq!(c.name, "ping");
    assert_eq!(c.description, "Ping the bot to check latency");
    assert!(c.localized_descriptions.is_empty());
    assert!(c.options.is_empty());
    assert_eq!(general::register_commands(), vec![command_ping::register()]);
}

#[test]
fn join_without_voice_channel_is_refused() {
    let plan = command_join::run(None, true);
    assert_eq!(
        plan,
        JoinPlan::NotInVoice { notice: text(":no_entry: Cannot find the voice channel you're in", true) }
    );
}

#[test]
fn join_confirms_with_a_mention() {
    let plan = command_join::run(Some(1234), true);
    assert_eq!(
        plan,
        JoinPlan::Join { channel: 1234, reply: Some(text("Connected to voice channel <#1234>", false)) }
    );
}

#[test]
fn join_without_react_is_silent() {
    assert_eq!(command_join::run(Some(5), false), JoinPlan::Join { channel: 5, reply: None });
}

#[test]
fn leave_disconnects_only_from_a_call() {
    assert_eq!(command_leave::run(true), LeavePlan::Disconnect);
    assert_eq!(command_leave::run(false), LeavePlan::Stay);
    assert_eq!(command_leave::reply_after_disconnect(true), Some(text("Disconnected", false)));
    assert_eq!(command_leave::reply_after_disconnect(false), None);
}

#[test]
fn skip_confirms_where_asked() {
    assert_eq!(skip::run(false, true), SkipPlan::Nothing);
    assert_eq!(skip::run(true, false), SkipPlan::Skip { reply: None });
    assert_eq!(
        skip::run(true, true),
        SkipPlan::Skip { reply: Some(text("Skipped current title", false)) }
    );
}

#[test]
fn first_play_checks_the_url() {
    assert_eq!(command_play::validate_url("https://youtu.be/x"), None);
    assert_eq!(command_play::validate_url("http://x"), None);
    assert_eq!(command_play::validate_url("youtu.be/x"), Some(text("Invalid URL parameter", false)));
    assert_eq!(command_play::validate_url(""), Some(text("Invalid URL parameter", false)));
}

#[test]
fn first_play_reports_a_failed_load() {
    assert_eq!(
        command_play::after_load(None, true),
        Some(text("Wasn't able to get audio source", false))
    );
    assert_eq!(
        command_play::after_load(None, false),
        Some(text("Wasn't able to get audio source", false))
    );
}

#[test]
fn first_play_shows_the_track() {
    let meta = TrackMetadata {
        title: Some("Song".to_string()),
        source_url: Some("https://src".to_string()),
        thumbnail: None,
        artist: Some("Band".to_string()),
    };
    let r = command_play::after_load(Some(meta), true).unwrap();
    let e = r.embed.unwrap();
    assert_eq!(r.content, None);
    assert!(!r.ephemeral);
    assert_eq!(e.title.as_deref(), Some("Song"));
    assert_eq!(e.url.as_deref(), Some("https://src"));
    assert_eq!(e.color, Some(0xb4f050));
    assert_eq!(
        e.thumbnail.as_deref(),
        Some("https://images6.alphacoders.com/766/thumb-1920-766470.png")
    );
    assert_eq!(e.footer.as_deref(), Some("Band"));
}

#[test]
fn first_play_fills_in_a_missing_title() {
    let meta = TrackMetadata {
        title: None,
        source_url: Some("https://src".to_string()),
        thumbnail: Some("https://thumb".to_string()),
        artist: None,
    };
    let e = command_play::after_load(Some(meta), true).unwrap().embed.unwrap();
    assert_eq!(e.title.as_deref(), Some("No title"));
    assert_eq!(e.thumbnail.as_deref(), Some("https://thumb"));
    assert_eq!(e.footer, None);
    let quiet = TrackMetadata { title: None, source_url: None, thumbnail: None, artist: None };
    assert_eq!(command_play::after_load(Some(quiet), false), None);
}

#[test]
fn first_play_is_registered() {
    let c = command_play::register();
    assert_eq!(c.name, "play");
    assert_eq!(c.options.len(), 1);
    assert_eq!(c.options[0].name, "url");
    assert_eq!(c.options[0].kind, OptionKind::String);
    assert!(c.options[0].required);
    assert!(c.options[0].localized_descriptions.is_empty());
}

#[test]
fn music_commands_are_registered_in_order() {
    let cs = commands::register();
    let names: Vec<&str> = cs.iter().map(|c| c.name.as_str()).collect();
    assert_eq!(names, vec!["join", "leave", "play", "skip"]);
    assert_eq!(cs[1].localized_descriptions, vec![Localized {
        locale: "de".to_string(),
        text: "Lass mich den aktuellen Sprachkanal verlassen".to_string(),
    }]);
    assert_eq!(cs[3].localized_descriptions[0].text, "Überspringe den aktuellen Titel");
    assert_eq!(cs[2].options[0].localized_descriptions[0].text, "Die URL zu deinem Audio Track");
    assert_eq!(cs[2].localized_descriptions[0].text, "Lasse mich einen bestimmten Audio Track spielen");
}

#[test]
fn handler_routes_the_registered_commands() {
    let h = BotHandler;
    assert_eq!(h.interaction_create("join"), Some(CommandRoute { command: BotCommand::Join, react: true }));
    assert_eq!(h.interaction_create("leave"), Some(CommandRoute { command: BotCommand::Leave, react: true }));
    assert_eq!(h.interaction_create("play"), Some(CommandRoute { command: BotCommand::Play, react: true }));
    assert_eq!(h.interaction_create("ping"), Some(CommandRoute { command: BotCommand::Ping, react: true }));
    assert_eq!(h.interaction_create("skip"), Some(CommandRoute { command: BotCommand::Skip, react: true }));
}

#[test]
fn handler_routes_nothing_for_unknown_names() {
    let h = BotHandler;
    assert_eq!(h.interaction_create("dance"), None);
    assert_eq!(h.interaction_create(""), None);
    assert_eq!(h.interaction_create("Play"), None);
}

#[test]
fn every_registered_command_is_routed() {
    let h = BotHandler;
    for spec in h.ready() {
        assert!(h.interaction_create(&spec.name).is_some(), "{} has no route", spec.name);
    }
}

#[test]
fn handler_registers_general_then_music_commands() {
    let cs = BotHandler.ready();
    let names: Vec<&str> = cs.iter().map(|c| c.name.as_str()).collect();
    assert_eq!(names, vec!["ping", "join", "leave", "play", "skip"]);
}

#[test]
fn handler_plans_voice_updates() {
    for (had_old, now_in) in [(true, false), (true, true), (false, true)] {
        assert_eq!(
            BotHandler.voice_state_update(had_old, now_in),
            lorelei::modules::auto::dynamic_voice_channels::run(had_old, now_in)
        );
    }
    assert_eq!(
        BotHandler.voice_state_update(true, true),
        vec![VoiceStep::LeaveOld, VoiceStep::JoinNew]
    );
}

#[test]
fn status_turns_idle_when_the_queue_runs_dry() {
    assert_eq!(on_track_end(true), StatusChange::Idle);
    assert_eq!(on_track_end(false), StatusChange::Unchanged);
}

#[test]
fn embed_titled_holds_only_title_and_color() {
    let e = Embed::titled("T".to_string(), 3);
    assert_eq!(e.title.as_deref(), Some("T"));
    assert_eq!(e.color, Some(3));
    assert_eq!(e.url, None);
    assert!(e.fields.is_empty());
}
