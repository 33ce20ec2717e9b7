use std::collections::HashSet;

use discord_tui::appstate::AppState;
use discord_tui::backfill::{
    backfill_done, display_message_from_value, LooseAttachment, LooseAuthor, LooseMessage, LooseReaction,
    LooseReply, MessageValue,
};
use discord_tui::commands::try_global_command;
use discord_tui::config::Config;
use discord_tui::config_watch::config_change;
use discord_tui::dump_session::parse_error_spot;
use discord_tui::ingest::{cache_path, icon_url_for};
use discord_tui::markup::{markdown_spans, resolve_mentions, Tone};
use discord_tui::pane::{clock_hm, mentions_me, message_height, rel_time, truncate, visible_messages};
use discord_tui::session::{
    envelope_action, gateway_url, handshake, heartbeat_body, reconnect_url, EnvelopeAction, GatewaySession,
    Handshake,
};
use discord_tui::state::{DisplayMessage, Focus};
use discord_tui::stream_layout::{stream_layout, stream_title, Area};
use discord_tui::SnowflakeID;

fn plain_message(id: u64) -> DisplayMessage {
    DisplayMessage {
        id: SnowflakeID(id),
        channel_id: SnowflakeID(1),
        author: "bob".to_string(),
        author_id: SnowflakeID(2),
        content: format!("message {}", id),
        timestamp_ms: 0,
        edited: false,
        is_self: false,
        attachment_images: vec![],
        reply_to: None,
        reactions: vec![],
    }
}

#[test]
fn truncation_marks_the_cut() {
    assert_eq!(truncate("hello world", 5), "hell…");
    assert_eq!(truncate("hi", 5), "hi");
    assert_eq!(truncate("", 0), "");
    assert_eq!(truncate("héllo", 5), "héllo");
    assert!(truncate("a long line of text", 7).chars().count() <= 7);
}

#[test]
fn relative_times() {
    assert_eq!(rel_time(0, 30_000), "· now");
    assert_eq!(rel_time(0, -500), "· now");
    assert_eq!(rel_time(0, -5_000), "");
    assert_eq!(rel_time(0, 120_000), "· 2m");
    assert_eq!(rel_time(0, 7_200_000), "· 2h");
    assert_eq!(rel_time(0, 2 * 86_400_000), "· 2d");
    assert_eq!(rel_time(i64::MIN, i64::MAX), "· 213503982334d");
}

#[test]
fn clock_of_a_stamp() {
    assert_eq!(clock_hm(0), "00:00");
    assert_eq!(clock_hm(3_723_000), "01:02");
    assert_eq!(clock_hm(-60_000), "23:59");
    assert_eq!(clock_hm(86_400_000 + 59_999), "00:00");
    assert_eq!(clock_hm(i64::MAX).len(), 5);
}

#[test]
fn mentions_of_the_user() {
    assert!(mentions_me("hey <@42>", Some(42)));
    assert!(!mentions_me("hey <@42>", Some(43)));
    assert!(!mentions_me("hey", None));
    assert!(mentions_me("ping @here", None));
    assert!(mentions_me("@everyone look", Some(1)));
}

#[test]
fn heights_and_visible_window() {
    let mut m = plain_message(1);
    assert_eq!(message_height(&m), 1);
    m.reply_to = Some(("al".to_string(), "hi".to_string()));
    m.reactions = vec![("👍".to_string(), 2)];
    m.attachment_images = vec![(SnowflakeID(9), "u".to_string())];
    assert_eq!(message_height(&m), 7);

    let ms = vec![plain_message(1), plain_message(2), plain_message(3)];
    assert_eq!(visible_messages(&ms, 2, 2), vec![1, 2]);
    assert_eq!(visible_messages(&ms, 0, 2), vec![0, 1]);
    assert_eq!(visible_messages(&ms, 1, 10), vec![0, 1, 2]);
    assert_eq!(visible_messages(&ms, 1, 0), Vec::<usize>::new());
}

#[test]
fn markdown_pieces() {
    let p = markdown_spans("a `b` **c** *d* _e_ f");
    let got: Vec<(Tone, String)> = p.into_iter().map(|x| (x.tone, x.text)).collect();
    assert_eq!(
        got,
        vec![
            (Tone::Plain, "a ".to_string()),
            (Tone::Code, "b".to_string()),
            (Tone::Plain, " ".to_string()),
            (Tone::Bold, "c".to_string()),
            (Tone::Plain, " ".to_string()),
            (Tone::Italic, "d".to_string()),
            (Tone::Plain, " ".to_string()),
            (Tone::Italic, "e".to_string()),
            (Tone::Plain, " f".to_string()),
        ]
    );
    let open: Vec<(Tone, String)> = markdown_spans("x *open").into_iter().map(|x| (x.tone, x.text)).collect();
    assert_eq!(open, vec![(Tone::Plain, "x ".to_string()), (Tone::Italic, "open".to_string())]);
}

#[test]
fn plain_text_is_one_piece() {
    let got: Vec<(Tone, String)> = markdown_spans("just words").into_iter().map(|x| (x.tone, x.text)).collect();
    assert_eq!(got, vec![(Tone::Plain, "just words".to_string())]);
    assert!(markdown_spans("").is_empty());
}

#[test]
fn mentions_are_written_out() {
    let mut st = AppState::new();
    st.people.user_dir.insert(5, "bob".to_string());
    assert_eq!(
        resolve_mentions("hi <@5> <@!5> <@7> <@&9> <:wave:123> <a:spin:4> <x>", &st),
        "hi @bob @bob @7 @role :wave: :spin: <x>"
    );
    assert_eq!(resolve_mentions("no tokens here", &st), "no tokens here");
    assert_eq!(resolve_mentions("see <#77>", &st), "see #channel");
}

#[test]
fn stream_tiles() {
    let uids = vec![SnowflakeID(1), SnowflakeID(2)];
    let mut big = HashSet::new();
    big.insert(2u64);
    let scr = Area { x: 0, y: 0, width: 100, height: 40 };
    let tiles = stream_layout(&uids, &big, scr);
    let got: Vec<(u64, u16, u16, u16, u16)> =
        tiles.iter().map(|t| (t.uid, t.area.x, t.area.y, t.area.width, t.area.height)).collect();
    assert_eq!(got, vec![(1, 59, 8, 40, 13), (2, 0, 8, 59, 31)]);

    let none = stream_layout(&vec![], &HashSet::new(), scr);
    assert!(none.is_empty());
    assert_eq!(stream_title(7), " ◉ 7 · /big 7 · /unwatch 7 ");
}

#[test]
fn gateway_addresses_and_handshakes() {
    assert_eq!(gateway_url(), "wss://gateway.discord.gg/?encoding=json&v=10");
    assert_eq!(reconnect_url(""), gateway_url());
    assert_eq!(reconnect_url("wss://x.gg//"), "wss://x.gg/?encoding=json&v=10");
    assert_eq!(handshake("abc", Some(5)), Handshake::Resume { seq: 5 });
    assert_eq!(handshake("", Some(5)), Handshake::Identify);
    assert_eq!(handshake("abc", None), Handshake::Identify);
}

#[test]
fn envelope_decisions() {
    assert_eq!(envelope_action(0, None, false, "", None), EnvelopeAction::Dispatch);
    assert_eq!(envelope_action(10, Some(41250), false, "", None), EnvelopeAction::StartHeartbeat { interval_ms: 41250 });
    assert_eq!(envelope_action(10, None, false, "", None), EnvelopeAction::Ignore);
    assert_eq!(envelope_action(1, None, false, "", None), EnvelopeAction::Heartbeat);
    assert_eq!(envelope_action(7, None, false, "", None), EnvelopeAction::Reconnect);
    assert_eq!(envelope_action(9, None, true, "s", Some(3)), EnvelopeAction::Resume { seq: 3 });
    assert_eq!(envelope_action(9, None, true, "s", None), EnvelopeAction::Resume { seq: 0 });
    assert_eq!(envelope_action(9, None, true, "", Some(3)), EnvelopeAction::IdentifyAfterPause);
    assert_eq!(envelope_action(9, None, false, "s", Some(3)), EnvelopeAction::IdentifyAfterPause);
    assert_eq!(envelope_action(42, None, true, "s", Some(3)), EnvelopeAction::Ignore);
}

#[test]
fn heartbeat_carries_the_sequence() {
    assert_eq!(heartbeat_body(Some(7)), "{\"op\": 1, \"d\": 7}");
    assert_eq!(heartbeat_body(None), "{\"op\": 1, \"d\": null}");
}

#[test]
fn session_gives_up_after_five_empty_reads() {
    let mut s = GatewaySession::new();
    s.note_frame(Some(12));
    s.session_id = "sess".to_string();
    for _ in 0..4 {
        assert!(!s.note_empty_read());
    }
    assert!(s.note_empty_read());
    s.note_frame(None);
    assert_eq!(s.empty_reads, 0);
    assert_eq!(s.last_seq, Some(12));
    let (url, hs) = s.reconnect_plan();
    assert_eq!(url, gateway_url());
    assert_eq!(hs, Handshake::Resume { seq: 12 });
    s.forget();
    assert_eq!(s.reconnect_plan().1, Handshake::Identify);
}

#[test]
fn parse_error_positions() {
    let spot = parse_error_spot("expected value at line 3 column 40", 100).unwrap();
    assert_eq!((spot.line, spot.column, spot.window), (3, 40, Some((15, 65))));
    let near = parse_error_spot("EOF at line 1 column 10", 20).unwrap();
    assert_eq!(near.window, Some((0, 20)));
    let zero = parse_error_spot("line 2 column 0", 20).unwrap();
    assert_eq!(zero.window, None);
    assert!(parse_error_spot("oops", 20).is_none());
}

#[test]
fn settings_reload_notes() {
    let a = Config::default();
    let mut b = Config::default();
    b.dm_track = false;
    b.message_buffer_size = 10;
    b.dm_channel_id_tracking = vec![SnowflakeID(5)];
    let notes: Vec<(String, String)> = config_change(&a, &b).into_iter().map(|n| (n.warn, n.tracking)).collect();
    assert_eq!(
        notes,
        vec![
            ("DmTrack change from true to false".to_string(), "DmTrack change from true to false".to_string()),
            ("MessageBufferSize change from 500 to 10".to_string(), "MessageBufferSize change from 500 to 10".to_string()),
            ("UserIdTracking Added Added(0, 5)".to_string(), "UserIdTracking change to Added(0, 5)".to_string()),
        ]
    );
}

#[test]
fn unchanged_settings_report_nothing() {
    let mut a = Config::default();
    a.dm_channel_id_tracking = vec![SnowflakeID(1), SnowflakeID(2)];
    let mut b = Config::default();
    b.dm_channel_id_tracking = vec![SnowflakeID(1), SnowflakeID(2)];
    assert!(config_change(&a, &b).is_empty());
}

#[test]
fn cache_and_icon_paths() {
    assert_eq!(cache_path("/tmp/c", SnowflakeID(12)), "/tmp/c/12.bin");
    assert_eq!(cache_path("/tmp/c/", SnowflakeID(12)), "/tmp/c/12.bin");
    assert_eq!(cache_path("", SnowflakeID(12)), "12.bin");
    assert_eq!(icon_url_for(SnowflakeID(3), "abc"), "https://cdn.discordapp.com/icons/3/abc.png?size=4096");
    assert_eq!(icon_url_for(SnowflakeID(3), "a_abc"), "https://cdn.discordapp.com/icons/3/a_abc.gif?size=4096");
}

#[test]
fn focus_cycles_through_four_panes() {
    let f = Focus::Channels;
    assert_eq!(f.next(), Focus::Messages);
    assert_eq!(f.next().prev(), f);
    assert_eq!(Focus::Input.next(), Focus::ServerBar);
    assert_eq!(Focus::ServerBar.next().next().next().next(), Focus::ServerBar);
}

#[test]
fn channel_list_keeps_five_hundred_messages() {
    let mut st = AppState::new();
    for i in 0..501u64 {
        st.push_message(SnowflakeID(1), plain_message(i));
    }
    let list = &st.messages[&1];
    assert_eq!(list.len(), 500);
    assert_eq!(list[0].id, SnowflakeID(1));
    assert_eq!(list[499].id, SnowflakeID(500));
}

fn loose(id: &str, ts: Option<&str>, content: &str) -> LooseMessage {
    LooseMessage {
        id: Some(id.to_string()),
        channel_id: Some("1".to_string()),
        content: Some(content.to_string()),
        timestamp: ts.map(|s| s.to_string()),
        author: Some(LooseAuthor { id: Some("2".to_string()), username: Some("".to_string()), global_name: Some("Glo".to_string()) }),
        edited: true,
        attachments: Some(vec![LooseAttachment {
            id: Some("88".to_string()),
            url: Some("https://x/y.PNG".to_string()),
            content_type: None,
            filename: Some("y.PNG".to_string()),
        }]),
        referenced_message: Some(LooseReply {
            author: Some(LooseAuthor { id: None, username: Some("ref".to_string()), global_name: None }),
            content: Some("line1\nline2".to_string()),
        }),
        reactions: Some(vec![LooseReaction { emoji_name: Some(Some("🔥".to_string())), name: None, count: Some(3) }]),
    }
}

#[test]
fn loose_history_messages() {
    let v = MessageValue::Loose(loose("10", Some("2024-01-02T03:04:05.250+00:00"), ""));
    let (m, imgs) = display_message_from_value(&v, Some(SnowflakeID(2)), 5);
    assert_eq!(m.id, SnowflakeID(10));
    assert_eq!(m.author, "Glo");
    assert!(m.is_self);
    assert!(m.edited);
    assert_eq!(m.content, "[1 image(s)]");
    assert_eq!(m.timestamp_ms, 1_704_164_645_250);
    assert_eq!(m.reply_to, Some(("ref".to_string(), "line1 line2".to_string())));
    assert_eq!(m.reactions, vec![("🔥".to_string(), 3)]);
    assert_eq!(imgs, vec![(SnowflakeID(88), "https://x/y.PNG".to_string())]);

    let (late, _) = display_message_from_value(&MessageValue::Loose(loose("11", Some("bad"), "hi")), None, 77);
    assert_eq!(late.timestamp_ms, 77);
    assert_eq!(late.content, "hi");
    assert!(!late.is_self);
}

#[test]
fn history_load_is_oldest_first() {
    let mut st = AppState::new();
    let newest = MessageValue::Loose(loose("20", None, "second"));
    let oldest = MessageValue::Loose(loose("19", None, "first"));
    let follow = backfill_done(&mut st, SnowflakeID(1), Ok(vec![newest, oldest]), 0);
    let list = &st.messages[&1];
    assert_eq!(list.len(), 2);
    assert_eq!(list[0].content, "first");
    assert_eq!(list[1].content, "second");
    assert_eq!(follow.ack, Some(SnowflakeID(20)));
    assert_eq!(follow.images.len(), 2);
    assert_eq!(st.nav.status_line, "loaded 2 messages");

    let failed = backfill_done(&mut st, SnowflakeID(1), Err("timeout".to_string()), 0);
    assert_eq!(st.nav.status_line, "backfill failed: timeout");
    assert!(failed.ack.is_none() && failed.images.is_empty());
}

#[test]
fn slash_commands() {
    let mut st = AppState::new();
    assert!(try_global_command(&mut st, "hello").is_none());
    let fx = try_global_command(&mut st, "/dm abc").unwrap();
    assert!(fx.is_empty());
    assert_eq!(st.nav.status_line, "usage: /dm <numeric user id>");
    let fx = try_global_command(&mut st, "  /big 7 ").unwrap();
    assert!(fx.is_empty());
    assert!(st.streams.big_streams.contains(&7));
    assert_eq!(st.nav.status_line, "stream 7: grand");
    try_global_command(&mut st, "/big 7").unwrap();
    assert!(!st.streams.big_streams.contains(&7));
    assert_eq!(st.nav.status_line, "stream 7: PiP");
    let fx = try_global_command(&mut st, "/leave").unwrap();
    assert!(fx.is_empty());
    assert_eq!(st.nav.status_line, "not in a server (select a server channel)");
}
