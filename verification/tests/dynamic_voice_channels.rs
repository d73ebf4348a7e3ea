use lorelei::discord::ChannelKind;
use lorelei::modules::auto::dynamic_voice_channels::{
    on_voice_channel_join, on_voice_channel_leave, run, VoiceStep,
};

#[test]
fn leaving_voice_leaves_the_old_channel_only() {
    assert_eq!(run(true, false), vec![VoiceStep::LeaveOld]);
}

#[test]
fn switching_channels_leaves_then_joins() {
    assert_eq!(run(true, true), vec![VoiceStep::LeaveOld, VoiceStep::JoinNew]);
}

#[test]
fn first_join_only_joins() {
    assert_eq!(run(false, true), vec![VoiceStep::JoinNew]);
}

#[test]
fn joining_a_spawner_creates_a_channel_in_its_category() {
    let c = on_voice_channel_join("➕ Create", 77, "music").unwrap();
    assert_eq!(c.name, "🤖 Music");
    assert_eq!(c.kind, ChannelKind::Voice);
    assert_eq!(c.category, Some(77));
    assert_eq!(c.topic, None);
    assert!(c.permissions.is_empty());
}

#[test]
fn spawned_name_uppercases_only_the_first_character() {
    let c = on_voice_channel_join("➕", 1, "ärger im chat").unwrap();
    assert_eq!(c.name, "🤖 Ärger im chat");
    let c = on_voice_channel_join("➕", 1, "Gaming").unwrap();
    assert_eq!(c.name, "🤖 Gaming");
    let c = on_voice_channel_join("➕", 1, "ß").unwrap();
    assert_eq!(c.name, "🤖 SS");
}

#[test]
fn joining_another_channel_creates_nothing() {
    assert_eq!(on_voice_channel_join("General", 1, "music"), None);
    assert_eq!(on_voice_channel_join("🤖 Music", 1, "music"), None);
    assert_eq!(on_voice_channel_join("", 1, ""), None);
}

#[test]
fn empty_spawned_channels_are_deleted() {
    assert!(on_voice_channel_leave("🤖 Music", Some(0)));
}

#[test]
fn other_channels_stay() {
    assert!(!on_voice_channel_leave("🤖 Music", Some(1)));
    assert!(!on_voice_channel_leave("🤖 Music", None));
    assert!(!on_voice_channel_leave("➕ Create", Some(0)));
    assert!(!on_voice_channel_leave("General", Some(0)));
}

#[test]
fn a_spawned_channel_is_cleaned_up_once_empty() {
    let c = on_voice_channel_join("➕ New", 5, "lounge").unwrap();
    assert!(on_voice_channel_leave(&c.name, Some(0)));
    assert!(!on_voice_channel_leave(&c.name, Some(2)));
    assert_eq!(on_voice_channel_join(&c.name, 5, "lounge"), None);
}
