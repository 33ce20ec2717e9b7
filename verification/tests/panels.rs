use discord_tui::appstate::AppState;
use discord_tui::console::{LogKind, LogState};
use discord_tui::dump_format::image_links;
use discord_tui::ingest::{thumbnail_jobs, thumbnail_summary};
use discord_tui::overlays::{
    centered_rect, input_box, log_view, members_panel, overlay_area, search_panel, settings_lines, status_bar,
    toast_boxes, InputFrame, LogTone,
};
use discord_tui::rest::{history_url, invite_code, invite_url, message_url, ack_url, refusal, leave_guild_url};
use discord_tui::sidebar::{
    channel_list, dm_rows, scroll_first, server_bar_title, server_cell, server_slots, RowTone,
};
use discord_tui::startup::{apply_ui_patch, UiPatch};
use discord_tui::state::{
    ChannelSummary, DisplayMessage, Focus, GuildSummary, PresenceStatus, SearchHit, Toast, UiPrefs, VoiceMember,
};
use discord_tui::stream_gate::StreamGate;
use discord_tui::stream_layout::Area;
use discord_tui::SnowflakeID;

fn chan(id: u64, name: &str, kind: i64, recipient: Option<u64>) -> ChannelSummary {
    ChannelSummary {
        id: SnowflakeID(id),
        name: name.to_string(),
        recipient_id: recipient.map(SnowflakeID),
        kind,
        parent_id: None,
        position: 0,
        last_activity: 0,
        avatar_url: None,
    }
}

fn guild(id: u64, name: &str, icon: Option<&str>) -> GuildSummary {
    GuildSummary { id: SnowflakeID(id), name: name.to_string(), icon_url: icon.map(|s| s.to_string()) }
}

#[test]
fn channel_list_lines() {
    let mut st = AppState::new();
    st.guilds = vec![guild(5, "My Guild", None)];
    st.nav.current_guild = Some(SnowflakeID(5));
    st.channels_by_guild.insert(
        5,
        vec![chan(10, "general stuff", 4, None), chan(11, "chat", 0, None), chan(12, "Lounge", 2, None), chan(13, "↳ t", 11, None)],
    );
    st.unread.unread.insert(11);
    st.unread.unread_count.insert(11, 3);
    st.voice.voice_members.insert(
        12,
        vec![VoiceMember { id: SnowflakeID(7), name: "vm".to_string(), mute: true, deaf: false, video: true, stream: false }],
    );
    st.people.user_dir.insert(7, "Seven".to_string());
    let list = channel_list(&st);
    assert_eq!(list.title, "My Guild");
    assert_eq!(list.selected, Some(0));
    let got: Vec<(String, RowTone, Vec<String>)> = list.rows.into_iter().map(|r| (r.text, r.tone, r.voice)).collect();
    assert_eq!(
        got,
        vec![
            ("▾ GENERAL STUFF".to_string(), RowTone::Category, vec![]),
            ("●3   # chat".to_string(), RowTone::Unread, vec![]),
            ("  🔊 Lounge".to_string(), RowTone::Normal, vec!["    ◦ Seven 🔈 📹".to_string()]),
            ("      ↳ t".to_string(), RowTone::Normal, vec![]),
        ]
    );
    st.nav.channel_cursor = 10;
    assert_eq!(channel_list(&st).selected, Some(3));
    st.nav.current_guild = Some(SnowflakeID(99));
    let other = channel_list(&st);
    assert_eq!(other.title, "Channels");
    assert!(other.rows.is_empty());
    assert_eq!(other.selected, None);
}

#[test]
fn direct_message_rows() {
    let mut st = AppState::new();
    st.nav.current_guild = Some(SnowflakeID(0));
    st.channels_by_guild.insert(0, vec![chan(21, "alice", 1, Some(3)), chan(22, "grp", 3, None)]);
    st.people.presence.insert(3, PresenceStatus::Online);
    st.people.user_dir.insert(9, "bob".to_string());
    st.people.typing.insert(22, vec![(SnowflakeID(9), 0)]);
    let rows = dm_rows(&st, 4, 20, 100).unwrap();
    assert_eq!(rows.len(), 2);
    assert_eq!((rows[0].slot, rows[0].top, rows[0].selected, rows[0].group), (0, 0, true, false));
    assert_eq!(rows[0].presence, Some(PresenceStatus::Online));
    assert_eq!(rows[0].mark, "  ");
    assert_eq!(rows[0].body, "alice");
    assert!(!rows[0].typing);
    assert_eq!((rows[1].slot, rows[1].top, rows[1].selected, rows[1].group), (1, 2, false, true));
    assert_eq!(rows[1].presence, None);
    assert!(rows[1].typing);
    assert_eq!(rows[1].body, "bob is typi…");
    assert_eq!(dm_rows(&st, 3, 20, 100).unwrap().len(), 1);
    assert!(dm_rows(&st, 4, 7, 100).is_none());
    assert!(dm_rows(&st, 0, 7, 100).unwrap().is_empty());
}

#[test]
fn scrolling_keeps_the_cursor_visible() {
    assert_eq!(scroll_first(0, 10, 3), 0);
    assert_eq!(scroll_first(5, 10, 3), 3);
    assert_eq!(scroll_first(9, 10, 3), 7);
    assert_eq!(scroll_first(2, 2, 5), 0);
    for cursor in 0..20usize {
        let first = scroll_first(cursor, 20, 4);
        assert!(first <= cursor && cursor < first + 4);
    }
}

#[test]
fn server_bar_cells() {
    let mut st = AppState::new();
    assert_eq!(server_bar_title(&st), "Servers < >");
    st.panels.image_backend = "kitty".to_string();
    assert_eq!(server_bar_title(&st), "Servers < >  [img: kitty]");
    assert_eq!(server_slots(&st, 28), None);
    st.guilds = vec![guild(0, "DMs", None), guild(13, "\u{7}rust lang", None)];
    st.unread.unread.insert(13);
    assert_eq!(server_slots(&st, 28), Some((0, 0, 2)));
    assert_eq!(server_slots(&st, 0), None);
    let c = server_cell(&st, 1, 0, Area { x: 14, y: 1, width: 14, height: 5 }).unwrap();
    assert!(!c.selected && c.unread);
    assert_eq!(c.icon, Area { x: 17, y: 1, width: 8, height: 4 });
    assert_eq!(c.name_area, Area { x: 14, y: 5, width: 14, height: 1 });
    assert_eq!(c.badge, " R ");
    assert_eq!(c.badge_pad, 1);
    assert_eq!(c.badge_color, 2);
    assert_eq!(c.name, "●rust lang");
    let dm = server_cell(&st, 0, 0, Area { x: 0, y: 1, width: 14, height: 5 }).unwrap();
    assert!(dm.selected);
    assert_eq!(dm.badge, " @ ");
    assert_eq!(dm.badge_color, 0);
    assert_eq!(dm.name, "Direct");
    assert!(server_cell(&st, 1, 0, Area { x: 0, y: 0, width: 4, height: 5 }).is_none());
}

#[test]
fn overlay_geometry() {
    assert_eq!(centered_rect(10, 4, Area { x: 0, y: 0, width: 40, height: 20 }), Area { x: 15, y: 8, width: 10, height: 4 });
    assert_eq!(centered_rect(100, 4, Area { x: 2, y: 0, width: 40, height: 20 }), Area { x: 2, y: 8, width: 40, height: 4 });
    assert_eq!(overlay_area(Area { x: 0, y: 0, width: 100, height: 50 }, 5, 8), Area { x: 25, y: 5, width: 50, height: 40 });
}

#[test]
fn status_and_input_titles() {
    let mut st = AppState::new();
    let bar = status_bar(&st);
    assert_eq!(bar.conn, " connecting… ");
    assert!(!bar.online);
    assert_eq!(bar.rest, "│  │ ←→ servers · Enter · Ctrl+K · m members · , set · ? help ");
    st.nav.conn_status = "online".to_string();
    st.voice.voice_status = "in call".to_string();
    st.nav.status_line = "ok".to_string();
    st.nav.focus = Focus::Input;
    let bar = status_bar(&st);
    assert!(bar.online);
    assert_eq!(bar.rest, "│ 🔊 in call · ok │ type · Enter send · Tab focus · Esc cancel ");

    assert_eq!(input_box(&st, 0), ("Message".to_string(), InputFrame::Focused));
    st.nav.current_channel = Some(SnowflakeID(1));
    let m = DisplayMessage {
        id: SnowflakeID(5),
        channel_id: SnowflakeID(1),
        author: "bob".to_string(),
        author_id: SnowflakeID(2),
        content: "hi".to_string(),
        timestamp_ms: 0,
        edited: false,
        is_self: false,
        attachment_images: vec![],
        reply_to: None,
        reactions: vec![],
    };
    st.messages.insert(1, vec![m]);
    st.compose.replying_to = Some(SnowflakeID(5));
    assert_eq!(input_box(&st, 0), ("Replying to bob (Esc to cancel)".to_string(), InputFrame::Replying));
    st.compose.editing_message = Some(SnowflakeID(5));
    assert_eq!(input_box(&st, 0), ("Editing (Esc to cancel)".to_string(), InputFrame::Editing));
}

#[test]
fn log_panel_lines() {
    let mut log = LogState::new();
    log.set_tui_mode(true);
    log.emit_log("t1", LogKind::Error, "x");
    log.emit_log("t2", LogKind::Login, "y");
    log.emit_log("t3", LogKind::Plain, "z");
    log.emit_log("t4", LogKind::VoiceConnect, "w");
    let v = log_view(&log, 2, 1);
    let tones: Vec<LogTone> = v.iter().map(|p| p.0).collect();
    assert_eq!(tones, vec![LogTone::Info, LogTone::Plain]);
    assert!(v[0].1.starts_with("t2 "));
    let all = log_view(&log, 10, 0);
    assert_eq!(all.len(), 4);
    assert_eq!(all[0].0, LogTone::Error);
    assert_eq!(all[3].0, LogTone::Voice);
}

#[test]
fn members_panel_lines() {
    let people = vec![
        ("ann".to_string(), PresenceStatus::Online),
        ("bo".to_string(), PresenceStatus::Offline),
        ("cy".to_string(), PresenceStatus::Idle),
    ];
    let p = members_panel("Guild", &people, 2, 10).unwrap();
    assert_eq!(p.title, "  Members · Guild (3)  (m/Esc to close)  ");
    assert_eq!(
        p.lines,
        vec![
            (PresenceStatus::Online, " ● ".to_string(), "ann".to_string()),
            (PresenceStatus::Offline, " ○ ".to_string(), "bo".to_string()),
        ]
    );
    assert!(members_panel("Guild", &people, 2, 4).is_none());
}

#[test]
fn settings_panel_rows() {
    let mut st = AppState::new();
    let rows = settings_lines(&st, 3);
    assert_eq!(rows.len(), 3);
    assert_eq!(rows[0].label, format!(" {:<32}", "Desktop toasts (DM popups)"));
    assert_eq!(rows[0].value, " on");
    assert!(rows[0].selected && !rows[0].editing);
    assert_eq!(rows[1].value, " 6");
    st.panels.settings_cursor = 15;
    st.panels.settings_editing = true;
    st.panels.settings_buf = "abc".to_string();
    let rows = settings_lines(&st, 3);
    assert_eq!(rows.iter().map(|r| r.index).collect::<Vec<_>>(), vec![13, 14, 15]);
    assert!(rows[2].editing);
    assert_eq!(rows[2].value, " abc▏");
}

#[test]
fn search_panel_lines() {
    let mut st = AppState::new();
    let p = search_panel(&st, 5, 30).unwrap();
    assert_eq!(p.empty_text.as_deref(), Some("Type to search people, channels, servers and messages…"));
    st.search.search_input = "zz".to_string();
    assert_eq!(search_panel(&st, 5, 30).unwrap().empty_text.as_deref(), Some("No matches."));
    st.search.search_results = vec![SearchHit {
        icon: '#',
        label: "general".to_string(),
        sub: "Guild".to_string(),
        guild: None,
        channel: None,
    }];
    let p = search_panel(&st, 5, 30).unwrap();
    assert!(p.empty_text.is_none());
    assert_eq!(p.lines.len(), 1);
    assert_eq!((p.lines[0].icon.as_str(), p.lines[0].label.as_str(), p.lines[0].sub.as_str()), ("# ", "general", "  — Guild"));
    assert!(p.lines[0].selected);
    assert_eq!(search_panel(&st, 5, 15).unwrap().lines[0].label, "gen…");
    assert!(search_panel(&st, 5, 11).is_none());
}

#[test]
fn notification_boxes() {
    let t = vec![Toast { title: "Alice".to_string(), body: "hello".to_string(), at_ms: 0 }];
    let b = toast_boxes(&t, Area { x: 0, y: 0, width: 80, height: 30 }).unwrap();
    assert_eq!(b.len(), 1);
    assert_eq!(b[0].area, Area { x: 32, y: 8, width: 46, height: 5 });
    assert_eq!(b[0].title, " ✦ Alice ");
    assert_eq!(b[0].body, "hello");
    assert!(toast_boxes(&t, Area { x: 0, y: 0, width: 80, height: 12 }).unwrap().is_empty());
    assert!(toast_boxes(&t, Area { x: 0, y: 0, width: 8, height: 30 }).is_none());
}

#[test]
fn rest_addresses() {
    assert_eq!(invite_code("  https://discord.gg/abcDEF?event=1 "), "abcDEF");
    assert_eq!(invite_code("xyz"), "xyz");
    assert_eq!(invite_url("discord.gg/q "), "https://discord.com/api/v9/invites/q");
    assert_eq!(history_url(SnowflakeID(5), 50), "https://discord.com/api/v9/channels/5/messages?limit=50");
    assert_eq!(message_url(SnowflakeID(5), SnowflakeID(6)), "https://discord.com/api/v9/channels/5/messages/6");
    assert_eq!(ack_url(SnowflakeID(5), SnowflakeID(6)), "https://discord.com/api/v9/channels/5/messages/6/ack");
    assert_eq!(leave_guild_url(SnowflakeID(8)), "https://discord.com/api/v9/users/@me/guilds/8");
    assert_eq!(refusal("GET", "u", "404 Not Found", "nope"), "GET u returned 404 Not Found: nope");
}

#[test]
fn one_frame_at_a_time() {
    let a = Area { x: 0, y: 0, width: 10, height: 10 };
    let mut g: StreamGate<u32> = StreamGate::new();
    assert_eq!(g.update_frame(1), None);
    assert_eq!(g.latest, None);
    assert_eq!(g.set_area(a), None);
    assert_eq!(g.update_frame(2), Some((2, a)));
    assert!(g.busy);
    assert_eq!(g.update_frame(3), None);
    assert_eq!(g.update_frame(4), None);
    assert_eq!(g.set_area(a), None);
    assert_eq!(g.finished(false), None);
    assert_eq!(g.finished(true), Some((4, a)));
    assert_eq!(g.finished(true), None);
    assert!(!g.busy);
    let tiny = Area { x: 0, y: 0, width: 1, height: 1 };
    assert_eq!(g.set_area(tiny), None);
    assert_eq!(g.update_frame(5), None);
    assert_eq!(g.latest, Some(5));
    assert_eq!(g.set_area(a), Some((5, a)));
}

#[test]
fn saved_preferences() {
    let patch = UiPatch {
        toast_enabled: None,
        toast_secs: Some(500),
        notify_mentions: Some(false),
        show_relative_time: None,
        show_typing: None,
        dsp_rx: None,
        dsp_tx: None,
        self_mute: Some(true),
        self_deaf: None,
    };
    let p = apply_ui_patch(UiPrefs::defaults(), &patch);
    assert_eq!(p.toast_secs, 60);
    assert!(p.self_mute && !p.notify_mentions && p.toast_enabled);
    let zero = UiPatch { toast_secs: Some(0), ..patch };
    assert_eq!(apply_ui_patch(UiPrefs::defaults(), &zero).toast_secs, 1);
    let mut st = AppState::new();
    st.adopt_saved_prefs(Some(patch));
    assert!(st.voice.self_mute && !st.voice.self_deaf);
    assert_eq!(st.prefs.toast_secs, 60);
}

#[test]
fn terminal_image_links() {
    assert_eq!(image_links("https://a.png: x: http://b.gif"), vec!["https://a.png".to_string(), "http://b.gif".to_string()]);
    assert!(image_links("").is_empty());
    assert!(image_links("no link").is_empty());
    assert_eq!(image_links("\nhttp://c"), vec!["\nhttp://c".to_string()]);
}

#[test]
fn thumbnails_to_load() {
    let mut st = AppState::new();
    st.guilds = vec![guild(1, "a", Some("u1")), guild(2, "b", None)];
    let mut dms = Vec::new();
    for i in 0..70u64 {
        let mut c = chan(100 + i, "d", 1, None);
        c.avatar_url = Some(format!("av{}", i));
        dms.push(c);
    }
    st.channels_by_guild.insert(0, dms);
    let jobs = thumbnail_jobs(&st);
    assert_eq!(jobs.len(), 65);
    assert_eq!(jobs[0], (SnowflakeID(1), "u1".to_string()));
    assert_eq!(jobs[64], (SnowflakeID(163), "av63".to_string()));
    assert_eq!(thumbnail_summary(1, 2, 3, 6), "thumbnails: 1 cached, 2 downloaded, 3 failed (of 6)");
}
