use lorelei::discord::{ChannelKind, EmbedField, Permission, RoleOverwrite};
use lorelei::modules::music::status::{
    ensure_channel_exists, get_status_channel, get_status_message, parse_guild_id, welcome_embed,
};
use lorelei::modules::util::EmbedColor;

#[test]
fn guild_ids_are_decimal_numbers() {
    assert_eq!(parse_guild_id("123456789012345678"), Some(123456789012345678));
    assert_eq!(parse_guild_id("+7"), Some(7));
    assert_eq!(parse_guild_id("0"), Some(0));
    assert_eq!(parse_guild_id("18446744073709551615"), Some(u64::MAX));
}

#[test]
fn malformed_guild_ids_are_refused() {
    assert_eq!(parse_guild_id(""), None);
    assert_eq!(parse_guild_id("+"), None);
    assert_eq!(parse_guild_id("-1"), None);
    assert_eq!(parse_guild_id(" 1"), None);
    assert_eq!(parse_guild_id("12a"), None);
    assert_eq!(parse_guild_id("18446744073709551616"), None);
}

#[test]
fn status_channel_is_created_when_missing() {
    let names = vec![Some("general".to_string()), None, Some("lorelei".to_string())];
    let c = ensure_channel_exists(99, &names).unwrap();
    assert_eq!(c.name, "🔊lorelei");
    assert_eq!(c.kind, ChannelKind::Text);
    assert_eq!(c.topic.as_deref(), Some("Play your favorite bangers"));
    assert_eq!(c.category, None);
    assert_eq!(
        c.permissions,
        vec![RoleOverwrite { allow: Permission::ViewChannel, deny: Permission::SendMessages, role: 99 }]
    );
    assert!(ensure_channel_exists(1, &vec![]).is_some());
}

#[test]
fn status_channel_is_not_created_twice() {
    let names = vec![Some("general".to_string()), Some("🔊lorelei".to_string())];
    assert_eq!(ensure_channel_exists(99, &names), None);
}

#[test]
fn welcome_embed_introduces_the_bot() {
    let e = welcome_embed("Lorelei".to_string(), "https://cdn/face.png".to_string());
    assert_eq!(e.color, Some(EmbedColor::Success.hex()));
    assert_eq!(e.title.as_deref(), Some("Lorelei"));
    assert_eq!(e.url.as_deref(), Some("https://github.com/btoschek/lorelei"));
    assert_eq!(e.description.as_deref(), Some("Play your favorite songs right in Discord"));
    assert_eq!(e.thumbnail.as_deref(), Some("https://cdn/face.png"));
    assert_eq!(e.footer, None);
    assert_eq!(
        e.fields,
        vec![EmbedField { name: "Play a song".to_string(), value: "/play URL".to_string(), inline: false }]
    );
}

#[test]
fn status_channel_is_the_first_with_its_name() {
    let channels = vec![
        (1, Some("general".to_string())),
        (2, None),
        (3, Some("🔊lorelei".to_string())),
        (4, Some("🔊lorelei".to_string())),
    ];
    assert_eq!(get_status_channel(&channels), Some(3));
    assert_eq!(get_status_channel(&vec![(1, Some("general".to_string()))]), None);
    assert_eq!(get_status_channel(&vec![]), None);
}

#[test]
fn status_message_is_the_newest() {
    assert_eq!(get_status_message(&vec![]), None);
    assert_eq!(get_status_message(&vec![7]), Some(7));
    assert_eq!(get_status_message(&vec![7, 8]), Some(7));
}
