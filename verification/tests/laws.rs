use discord_tui::appstate::AppState;
use discord_tui::commands::try_global_command;
use discord_tui::dump_session::spot_from_groups;
use discord_tui::events::{apply_reaction_add, apply_reaction_remove};
use discord_tui::input::{handle_search_key, step, Key, KeyPress};
use discord_tui::tasks::{read_guild_settings, SettingsShape, TaskKind};
use discord_tui::message_buffer::MessageBuffer;
use discord_tui::receive_struct::gateway_events::{MessageReactionAdd, MessageReactionRemove, ReactionEmoji};
use discord_tui::state::DisplayMessage;
use discord_tui::SnowflakeID;

#[test]
fn ids_and_numbers_round_trip() {
    let x = SnowflakeID::from_u64(42);
    assert_eq!(x.as_u64(), 42);
    assert_eq!(u64::from(x), 42);
    assert!(x == 42u64);
    assert!(!(x == 43u64));
    assert_eq!(SnowflakeID::from_u64(x.as_u64()), x);
    assert_eq!(x.to_string(), "42");
}

#[test]
fn cursor_steps() {
    assert_eq!(step(usize::MAX, isize::MAX, 0), 0);
    assert_eq!(step(0, -1, 5), 0);
    assert_eq!(step(3, 10, 5), 4);
    assert_eq!(step(2, 1, 5), 3);
}

#[test]
fn error_spot_from_capture_groups() {
    let g = Some(vec![Some("line 3 column 40".to_string()), Some("3".to_string()), Some("40".to_string())]);
    let spot = spot_from_groups(&g, 100).unwrap();
    assert_eq!((spot.line, spot.column, spot.window), (3, 40, Some((15, 65))));
    assert!(spot_from_groups(&None, 100).is_none());
    let bad = Some(vec![Some("x".to_string()), Some("x".to_string()), None]);
    assert!(spot_from_groups(&bad, 100).is_none());
}

#[test]
fn watch_list_stays_short_and_distinct() {
    let mut st = AppState::new();
    for id in [5u64, 5, 6, 7, 8, 9, 6] {
        assert!(try_global_command(&mut st, &format!("/watch {}", id)).is_some());
    }
    let ids: Vec<u64> = st.streams.watching_streams.iter().map(|s| s.0).collect();
    assert_eq!(ids, vec![5, 6, 7, 8]);
}

#[test]
fn big_toggle_twice_restores() {
    let mut st = AppState::new();
    st.streams.big_streams.insert(3);
    let before = st.streams.big_streams.clone();
    try_global_command(&mut st, "/big 9").unwrap();
    assert!(st.streams.big_streams.contains(&9));
    try_global_command(&mut st, "/big 9").unwrap();
    assert_eq!(st.streams.big_streams, before);
}

fn message(id: u64) -> DisplayMessage {
    DisplayMessage {
        id: SnowflakeID(id),
        channel_id: SnowflakeID(1),
        author: "a".to_string(),
        author_id: SnowflakeID(2),
        content: "hi".to_string(),
        timestamp_ms: 0,
        edited: false,
        is_self: false,
        attachment_images: vec![],
        reply_to: None,
        reactions: vec![("🔥".to_string(), 2)],
    }
}

#[test]
fn reaction_added_then_removed_restores() {
    let mut st = AppState::new();
    st.messages.insert(1, vec![message(10)]);
    for name in ["🔥", "👍"] {
        let emoji = ReactionEmoji { id: None, name: Some(name.to_string()), animated: false };
        let add = MessageReactionAdd {
            user_id: SnowflakeID(2),
            message_id: SnowflakeID(10),
            channel_id: SnowflakeID(1),
            guild_id: None,
            emoji: emoji.clone(),
            burst: false,
            message_author_id: None,
        };
        apply_reaction_add(&add, &mut st);
        let remove = MessageReactionRemove {
            user_id: SnowflakeID(2),
            message_id: SnowflakeID(10),
            channel_id: SnowflakeID(1),
            guild_id: None,
            emoji,
            burst: false,
        };
        apply_reaction_remove(&remove, &mut st);
        assert_eq!(st.messages[&1][0].reactions, vec![("🔥".to_string(), 2)]);
    }
}

#[test]
fn buffer_keeps_the_last_messages() {
    let mut b = MessageBuffer::new(2);
    for i in 1..=4u64 {
        b.add_message(SnowflakeID(i), format!("m{}", i));
    }
    assert_eq!(b.get_message(SnowflakeID(1)), "Message not found!");
    assert_eq!(b.get_message(SnowflakeID(2)), "Message not found!");
    assert_eq!(b.get_message(SnowflakeID(3)), "m3");
    assert_eq!(b.get_message(SnowflakeID(4)), "m4");
}

#[test]
fn connection_task_endings() {
    let mut st = AppState::new();
    st.task_ended(TaskKind::Voice, Ok(()));
    assert_eq!(st.voice.voice_status, "voice: disconnected");
    st.task_ended(TaskKind::Stream, Err("boom".to_string()));
    assert_eq!(st.voice.voice_status, "stream error: boom");
    st.task_ended(TaskKind::GoLive, Ok(()));
    assert_eq!(st.voice.voice_status, "Go Live: ended");
    st.task_ended(TaskKind::GoLive, Err("x".to_string()));
    assert_eq!(st.voice.voice_status, "Go Live error: x");
    st.note_reconnecting();
    assert_eq!(st.nav.conn_status, "reconnecting…");
}

#[test]
fn guild_settings_shapes() {
    let a = read_guild_settings(SettingsShape::Array(vec![None, None])).unwrap();
    assert!(a.entries.is_empty() && a.version == 0 && !a.partial);
    let o = read_guild_settings(SettingsShape::Object(Ok((None, Some(3), Some(true))))).unwrap();
    assert!(o.entries.is_empty() && o.version == 3 && o.partial);
    assert_eq!(read_guild_settings(SettingsShape::Object(Err("bad field".to_string()))).err().as_deref(), Some("bad field"));
    let n = read_guild_settings(SettingsShape::Null).unwrap();
    assert!(n.entries.is_empty() && n.version == 0 && !n.partial);
    assert_eq!(
        read_guild_settings(SettingsShape::Other).err().as_deref(),
        Some("user_guild_settings: expected array or object")
    );
}

#[test]
fn search_keys_at_the_largest_cursor() {
    let mut st = AppState::new();
    st.search.search_cursor = usize::MAX;
    let up = KeyPress { code: Key::Up, ctrl: false, alt: false };
    assert!(handle_search_key(up, &mut st).is_empty());
    assert_eq!(st.search.search_cursor, usize::MAX - 1);
    let down = KeyPress { code: Key::Down, ctrl: false, alt: false };
    st.search.search_cursor = usize::MAX;
    handle_search_key(down, &mut st);
    assert_eq!(st.search.search_cursor, usize::MAX);
}
