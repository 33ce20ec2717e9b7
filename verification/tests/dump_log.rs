use discord_tui::config::Config;
use discord_tui::console::{LogKind, LogLine, LogState};
use discord_tui::dump::{dm_message, handle_message, normal_message, DataId, MessageOutcome};
use discord_tui::dump_events::{
    handle_call, handle_message_delete, handle_typing_start, handle_user_guild_settings,
    handle_voice_state_update,
};
use discord_tui::dump_format::{channel_type, get_all_attachments, get_reply_to, is_discord_media, parse_timestamp, type_filed};
use discord_tui::message_buffer::MessageBuffer;
use discord_tui::receive_struct::message_create::{Attachments, Author, MessageCreateData, RefMessage};
use discord_tui::receive_struct::message_delete::MessageDeleteData;
use discord_tui::receive_struct::typing_start::TypingData;
use discord_tui::receive_struct::user_guild_settings_update::{ChannelOverride, UserGuildSettingsUpdateData};
use discord_tui::receive_struct::voice_state_update::VoiceStateUpdateData;
use discord_tui::SnowflakeID;

fn author(id: u64, name: &str) -> Author {
    Author {
        username: name.to_string(),
        public_flags: None,
        premium_type: None,
        id: SnowflakeID(id),
        global_name: None,
        discriminator: "0".to_string(),
        clan: None,
        bot: None,
        avatar_decoration_data: None,
        avatar: None,
    }
}

fn message(id: u64, channel: u64, guild: Option<u64>, author_id: u64, content: &str) -> MessageCreateData {
    MessageCreateData {
        has_poll: false,
        type_field: 0,
        tts: false,
        timestamp: "2024-01-02T03:04:05+00:00".to_string(),
        sticker_items: None,
        referenced_message: None,
        pinned: false,
        mentions: vec![],
        mention_roles: vec![],
        mention_everyone: false,
        mention_channels: None,
        reactions: None,
        webhook_id: None,
        application_id: None,
        interaction_metadata: None,
        interaction: None,
        position: None,
        member: None,
        id: SnowflakeID(id),
        flags: 0,
        embeds: vec![],
        edited_timestamp: None,
        content: content.to_string(),
        channel_id: SnowflakeID(channel),
        call: None,
        author: author(author_id, "alice"),
        attachments: vec![],
        guild_id: guild.map(SnowflakeID),
        message_reference: None,
    }
}

fn texts(lines: &[LogLine]) -> Vec<(LogKind, String)> {
    lines.iter().map(|l| (l.kind, l.text.clone())).collect()
}

#[test]
fn timestamp_is_shown_two_hours_later() {
    assert_eq!(parse_timestamp("2024-01-02T03:04:05+00:00"), "02/01/2024 05:04:05");
    assert_eq!(parse_timestamp("2024-12-31T23:30:00+00:00"), "01/01/2025 01:30:00");
    assert!(parse_timestamp("not a date").starts_with("Error parsing date: "));
}

#[test]
fn system_messages_and_channel_types() {
    assert_eq!(type_filed(6).as_deref(), Some("[PIN MSG]"));
    assert_eq!(type_filed(7).as_deref(), Some("[JOIN SERVER]"));
    assert_eq!(type_filed(8).as_deref(), Some("[BOOST SERVER]"));
    assert_eq!(type_filed(0), None);
    assert_eq!(channel_type(0), "Text");
    assert_eq!(channel_type(15), "Forum");
    assert_eq!(channel_type(-3), "-3");
    assert_eq!(channel_type(99), "99");
}

#[test]
fn discord_media_hosts() {
    assert!(is_discord_media("https://cdn.discordapp.com/attachments/1/2/a.png"));
    assert!(is_discord_media("https://media.discordapp.net/x.gif"));
    assert!(!is_discord_media("https://example.com/a.png"));
}

#[test]
fn reply_prefix_names_the_replied_author() {
    let mut m = message(1, 2, None, 3, "hi");
    assert_eq!(get_reply_to(&m), "");
    m.referenced_message = Some(RefMessage {
        type_field: 0,
        tts: false,
        timestamp: String::new(),
        pinned: false,
        content: "earlier".to_string(),
        author: author(9, "bob"),
    });
    assert_eq!(get_reply_to(&m), "[Reply] bob: earlier\n\t\t└─");
}

#[test]
fn attachments_lines_and_saves() {
    let mut m = message(1, 2, Some(5), 3, "see https://cdn.discordapp.com/attachments/1/2/pic.png?ex=1 now");
    m.author.username = "a.b".to_string();
    m.attachments.push(Attachments {
        width: None,
        url: Some("https://cdn.discordapp.com/f/doc.pdf".to_string()),
        size: 1,
        proxy_url: None,
        placeholder_version: None,
        placeholder: None,
        id: "7".to_string(),
        height: None,
        filename: "doc.pdf".to_string(),
        content_type: None,
        content_scan_version: None,
    });
    let (text, saves) = get_all_attachments(&m, true);
    assert!(text.starts_with("\n\t direct: https://cdn.discordapp.com/attachments/1/2/pic.png?ex=1 now"));
    assert!(text.ends_with("\n\t attachments: https://cdn.discordapp.com/f/doc.pdf"));
    assert_eq!(saves.len(), 2);
    assert_eq!(saves[0].file_name, "pic.png");
    assert_eq!(saves[1].file_name, "doc.pdf");
    assert_eq!(saves[1].author_dir, "a_b");
    let (_, none) = get_all_attachments(&m, false);
    assert!(none.is_empty());
}

#[test]
fn direct_message_names_the_channel_after_its_author() {
    let mut data = DataId::new(vec![]);
    let mut buf = MessageBuffer::new(10);
    let m = message(11, 22, None, 3, "hello");
    let out = dm_message(&m, &mut data, false, &mut buf);
    assert_eq!(data.dm_dump_hashmap.get(&22).map(String::as_str), Some("alice"));
    assert_eq!(out.log_name, "alice");
    let line = "\t(02/01/2024 05:04:05) alice: hello".to_string();
    assert_eq!(texts(&out.lines), vec![(LogKind::Dm, "\n[DM] > alice".to_string()), (LogKind::Dm, line.clone())]);
    assert_eq!(out.file_texts, vec!["\n[DM] > alice".to_string(), format!("     {line}")]);
    assert_eq!(buf.get_message(SnowflakeID(11)), line);
    assert!(out.show.is_none());
}

#[test]
fn direct_call_start_only_noted() {
    let mut data = DataId::new(vec![]);
    data.dm_dump_hashmap.insert(22, "[bob, me] ".to_string());
    let mut buf = MessageBuffer::new(10);
    let mut m = message(11, 22, None, 3, "");
    m.call = Some(discord_tui::receive_struct::message_create::CallState { participants: vec![], ended_timestamp: None });
    let out = dm_message(&m, &mut data, false, &mut buf);
    assert_eq!(out.file_texts, vec!["[DM CALL START]".to_string()]);
    assert!(out.lines.is_empty());
    assert_eq!(buf.get_message(SnowflakeID(11)), "Message not found!");
}

#[test]
fn server_message_header_and_watched_author() {
    let mut data = DataId::new(vec![SnowflakeID(3)]);
    data.guild_id.insert(5, "Guild".to_string());
    data.channel_id.insert(2, "general".to_string());
    data.muted_server.insert(5, "[MUTED]".to_string());
    let mut buf = MessageBuffer::new(10);
    let mut m = message(1, 2, Some(5), 3, "");
    m.type_field = 7;
    m.edited_timestamp = Some("x".to_string());
    let out = normal_message(&m, &data, false, false, &mut buf);
    let line = "\t(02/01/2024 05:04:05) alice: [Update] [JOIN SERVER]".to_string();
    assert_eq!(
        texts(&out.lines),
        vec![(LogKind::Server, "\n[MUTED] Guild >  general".to_string()), (LogKind::MyMsg, line.clone())]
    );
    assert_eq!(out.tracking, vec!["\n[MUTED] Guild >  general".to_string(), format!("     {line}")]);
    let again = normal_message(&m, &data, true, false, &mut buf);
    assert_eq!(again.lines.len(), 1);
}

#[test]
fn message_routing_follows_the_settings() {
    let cfg = Config::default();
    let mut data = DataId::new(vec![]);
    let mut buf = MessageBuffer::new(10);
    let mut last = Some(SnowflakeID(2));
    let out = handle_message(&message(1, 2, Some(5), 3, "x"), &mut data, &mut last, &cfg, &mut buf);
    match out {
        MessageOutcome::Server(o) => assert_eq!(o.lines.len(), 1),
        _ => panic!("expected a server message"),
    }
    assert_eq!(last, Some(SnowflakeID(2)));
    let out = handle_message(&message(2, 9, None, 3, "x"), &mut data, &mut last, &cfg, &mut buf);
    assert!(matches!(out, MessageOutcome::Direct(_)));
    assert_eq!(last, None);
    let mut quiet = Config::default();
    quiet.event.message_create = false;
    let out = handle_message(&message(3, 9, None, 3, "x"), &mut data, &mut last, &quiet, &mut buf);
    assert!(matches!(out, MessageOutcome::Ignored));
    let mut filtered = Config::default();
    filtered.dm_channel_id_tracking = vec![SnowflakeID(100)];
    let out = handle_message(&message(4, 9, None, 3, "x"), &mut data, &mut last, &filtered, &mut buf);
    assert!(matches!(out, MessageOutcome::Ignored));
}

#[test]
fn deleted_message_shows_buffered_text() {
    let cfg = Config::default();
    let mut data = DataId::new(vec![]);
    data.dm_dump_hashmap.insert(22, "bob".to_string());
    let mut buf = MessageBuffer::new(10);
    buf.add_message(SnowflakeID(7), "old text".to_string());
    let d = MessageDeleteData { id: SnowflakeID(7), channel_id: SnowflakeID(22), guild_id: None };
    let lines = handle_message_delete(&d, &data, &cfg, &buf);
    assert_eq!(
        texts(&lines),
        vec![(LogKind::Delete, "\n[DELETE] [DM] > bob".to_string()), (LogKind::Delete, "old text".to_string())]
    );
    let unknown = MessageDeleteData { id: SnowflakeID(7), channel_id: SnowflakeID(23), guild_id: None };
    assert!(handle_message_delete(&unknown, &data, &cfg, &buf).is_empty());
}

#[test]
fn clearing_keeps_the_resume_address() {
    let mut data = DataId::new(vec![SnowflakeID(1)]);
    data.guild_id.insert(1, "g".to_string());
    data.session_id = "s".to_string();
    data.resume_gateway = "wss://resume".to_string();
    data.clear();
    assert!(data.guild_id.is_empty());
    assert!(data.username.is_empty());
    assert_eq!(data.session_id, "");
    assert_eq!(data.resume_gateway, "wss://resume");
}

#[test]
fn call_and_typing_lines() {
    let mut cfg = Config::default();
    let mut data = DataId::new(vec![]);
    data.dm_dump_hashmap.insert(4, "bob".to_string());
    let l = handle_call(true, SnowflakeID(4), &data, &cfg, "01/01/2024 10:00:00");
    assert_eq!(texts(&l), vec![(LogKind::Info, "(01/01/2024 10:00:00) Call start with: bob".to_string())]);
    let l = handle_call(false, SnowflakeID(5), &data, &cfg, "t");
    assert_eq!(texts(&l), vec![(LogKind::Warn, "(t) Call end channel id NONE".to_string())]);
    cfg.event.typing_start = true;
    data.channel_id.insert(8, "general".to_string());
    let t = TypingData { user_id: SnowflakeID(42), timestamp: 0, member: None, channel_id: SnowflakeID(8), guild_id: None };
    let l = handle_typing_start(&t, &data, &cfg);
    assert_eq!(texts(&l), vec![(LogKind::Plain, "Typing: [DM] > general > 42".to_string())]);
}

#[test]
fn voice_state_of_watched_user() {
    let mut data = DataId::new(vec![SnowflakeID(42)]);
    let d = VoiceStateUpdateData {
        member: None,
        user_id: SnowflakeID(42),
        suppress: false,
        session_id: String::new(),
        self_video: false,
        self_mute: true,
        self_deaf: false,
        mute: false,
        guild_id: None,
        deaf: false,
        channel_id: None,
        self_stream: None,
    };
    let l = handle_voice_state_update(&d, &data);
    assert_eq!(texts(&l), vec![(LogKind::VoiceDisconnect, "\nVoice: disconnected".to_string())]);
    let mut joined = d.clone();
    joined.channel_id = Some(SnowflakeID(9));
    data.dm_dump_hashmap.insert(9, "bob".to_string());
    let l = handle_voice_state_update(&joined, &data);
    assert_eq!(l.len(), 1);
    assert!(l[0].text.starts_with("\nVoice: [DM] > bob\n\tUnknown \x1B[0m[Mute: \x1B[38;5;10mtrue\x1B[0m"));
    let mut other = joined.clone();
    other.user_id = SnowflakeID(1);
    assert!(handle_voice_state_update(&other, &data).is_empty());
}

#[test]
fn dm_mute_settings_lines() {
    let mut data = DataId::new(vec![]);
    data.dm_dump_hashmap.insert(3, "bob".to_string());
    let mut d = UserGuildSettingsUpdateData {
        version: 0,
        suppress_roles: false,
        suppress_everyone: false,
        notify_highlights: 0,
        muted: false,
        mute_scheduled_events: false,
        mute_config: None,
        mobile_push: false,
        message_notifications: 0,
        hide_muted_channels: false,
        guild_id: None,
        flags: 0,
        channel_overrides: vec![],
    };
    assert_eq!(texts(&handle_user_guild_settings(&d, &data)), vec![(LogKind::Info, "Unmuted ? shrug".to_string())]);
    d.channel_overrides.push(ChannelOverride {
        muted: true,
        mute_config: None,
        message_notifications: 0,
        flags: None,
        collapsed: false,
        channel_id: SnowflakeID(3),
    });
    d.channel_overrides.push(ChannelOverride {
        muted: false,
        mute_config: None,
        message_notifications: 0,
        flags: None,
        collapsed: false,
        channel_id: SnowflakeID(4),
    });
    assert_eq!(
        texts(&handle_user_guild_settings(&d, &data)),
        vec![(LogKind::Info, "Muted: true bob".to_string()), (LogKind::Info, "Muted: false Unknown".to_string())]
    );
    d.guild_id = Some(SnowflakeID(1));
    assert!(handle_user_guild_settings(&d, &data).is_empty());
}

#[test]
fn log_ring_keeps_the_last_thousand() {
    let mut log = LogState::new();
    for i in 0..1005u32 {
        log.emit_log("12:00:00", LogKind::Info, &i.to_string());
    }
    assert_eq!(log.log_ring().len(), 1000);
    assert_eq!(log.recent_logs(2), vec!["12:00:00 [Information] 1003".to_string(), "12:00:00 [Information] 1004".to_string()]);
    let echo = log.emit_log("t", LogKind::Error, "boom");
    assert_eq!(echo.as_deref(), Some("\x1B[31m[Erreur] boom\x1B[0m"));
    log.set_tui_mode(true);
    assert!(log.tui_mode());
    assert_eq!(log.emit_log("t", LogKind::Info, "quiet"), None);
    assert_eq!(log.recent_logs(5000).len(), 1000);
}

#[test]
fn local_dates_have_the_stamp_shape() {
    for ns in [0u64, 1_700_000_000_123_456_789, u64::MAX] {
        let d = discord_tui::dump_dispatch::timestamp_to_date(ns);
        assert_eq!(d.chars().count(), 19, "{}", d);
        for (i, c) in d.chars().enumerate() {
            if [4, 7, 10, 13, 16].contains(&i) {
                assert_eq!(c, '_');
            } else {
                assert!(c.is_ascii_digit());
            }
        }
    }
}
