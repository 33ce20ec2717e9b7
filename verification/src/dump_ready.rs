use vstd::prelude::*;
use crate::config::Config;
use crate::console::{LogKind, LogLine, lines_view, login_line, push_login};
use crate::decimal::dec;
use crate::dump::{DataId, name_or};
use crate::dump_format::{rfc3339_display, show_rfc3339};
use crate::dump_mapping::{
    DMMapping, ServerMapping, all_channel_entries, all_marks, dm_mapping, dm_people, dm_row_ok,
    get_username, guild_mapping, guild_names, guild_row, insert_all, muted_server_mapping,
    names_view, server_row,
};
use crate::message_view::{parse_rfc3339_ms, rfc3339_millis};
use crate::receive_struct::ready::{ChannelOverride, Guild, PrivateChannels, ReadyData, SessionsData, UserGuildSetting};
use crate::state::str_eq;
use crate::text::{owned, push_str};

verus! {

broadcast use vstd::seq_lib::group_seq_properties;

/// The greeting of a ready payload that names the account: its user name and status.
pub open spec fn welcome_lines(d: ReadyData) -> Seq<(LogKind, Seq<char>)> {
    match d.user {
        Some(u) => seq![(LogKind::Info, "Welcome "@ + u.username@ + " "@ + match d.user_settings {
            Some(s) => s.status@,
            None => "unknown"@,
        })],
        None => Seq::empty(),
    }
}

/// The login lines of sessions: one per session of a known client whose system is not
/// `other`, as [`login_line`] gives it.
pub open spec fn session_lines(ss: Seq<SessionsData>) -> Seq<(LogKind, Seq<char>)>
    decreases ss.len(),
{
    if ss.len() == 0 {
        Seq::empty()
    } else {
        session_lines(ss.drop_last()) + match ss.last().client_info {
            Some(ci) if ci.os@ != "other"@ => login_line(ci.client@ + " "@ + ci.os@, ss.last().status@),
            _ => Seq::empty(),
        }
    }
}

/// How a flag is written: `true` or `false`.
pub open spec fn bool_text(b: bool) -> Seq<char> {
    if b { "true"@ } else { "false"@ }
}

/// The mute line of a DM override named `name`: with no mute window, its flag and name;
/// with a window ending at or after `now_ms` (milliseconds since the epoch), its flag, the
/// end as chrono writes it, and the name; nothing for a window that has ended or whose end
/// does not parse.
pub open spec fn override_lines(o: ChannelOverride, name: Seq<char>, now_ms: i64) -> Seq<(LogKind, Seq<char>)> {
    match o.mute_config {
        Some(mc) => match mc.end_time {
            Some(end) => match (rfc3339_millis(end@), rfc3339_display(end@)) {
                (Some(t), Some(shown)) if t >= now_ms => seq![(LogKind::Info, "Muted: "@ + bool_text(o.muted) + " "@ + shown + " "@ + name)],
                _ => Seq::empty(),
            },
            None => Seq::empty(),
        },
        None => seq![(LogKind::Info, "Muted: "@ + bool_text(o.muted) + " "@ + name)],
    }
}

/// The name of a channel for a mute line: its DM label, else its channel name, else
/// `Unknown`.
pub open spec fn muted_name(data: DataId, c: u64) -> Seq<char> {
    name_or(data.dm_dump_hashmap@, c, name_or(data.channel_id@, c, "Unknown"@))
}

/// The mute lines of channel overrides.
pub open spec fn overrides_lines(os: Seq<ChannelOverride>, data: DataId, now_ms: i64) -> Seq<(LogKind, Seq<char>)>
    decreases os.len(),
{
    if os.len() == 0 {
        Seq::empty()
    } else {
        overrides_lines(os.drop_last(), data, now_ms) + override_lines(os.last(), muted_name(data, os.last().channel_id.0), now_ms)
    }
}

/// The mute lines of the DM overrides of the settings that belong to no guild.
pub open spec fn muted_dm_lines(xs: Seq<UserGuildSetting>, data: DataId, now_ms: i64) -> Seq<(LogKind, Seq<char>)>
    decreases xs.len(),
{
    if xs.len() == 0 {
        Seq::empty()
    } else {
        muted_dm_lines(xs.drop_last(), data, now_ms) + if xs.last().guild_id is None {
            overrides_lines(xs.last().channel_overrides@, data, now_ms)
        } else {
            Seq::empty()
        }
    }
}

fn push_welcome(d: &ReadyData, out: &mut Vec<LogLine>)
    ensures
        lines_view(final(out)@) == lines_view(old(out)@) + welcome_lines(*d),
{
    let ghost before = out@;
    match &d.user {
        Some(u) => {
            let mut t = owned("Welcome ");
            push_str(&mut t, u.username.as_str());
            push_str(&mut t, " ");
            match &d.user_settings {
                Some(s) => push_str(&mut t, s.status.as_str()),
                None => push_str(&mut t, "unknown"),
            }
            out.push(LogLine { kind: LogKind::Info, text: t });
        },
        None => {},
    }
    assert(lines_view(out@) =~= lines_view(before) + welcome_lines(*d));
}

fn push_sessions(ss: &Vec<SessionsData>, out: &mut Vec<LogLine>)
    ensures
        lines_view(final(out)@) == lines_view(old(out)@) + session_lines(ss@),
{
    let ghost l0 = lines_view(out@);
    let mut i: usize = 0;
    while i < ss.len()
        invariant
            0 <= i <= ss.len(),
            lines_view(out@) == l0 + session_lines(ss@.take(i as int)),
        decreases ss.len() - i,
    {
        let s = &ss[i];
        assert(ss@.take(i + 1).drop_last() =~= ss@.take(i as int));
        let ghost li = lines_view(out@);
        match &s.client_info {
            Some(ci) => {
                proof {
                    reveal_strlit("other");
                }
                if !str_eq(ci.os.as_str(), "other") {
                    let mut client = owned(ci.client.as_str());
                    push_str(&mut client, " ");
                    push_str(&mut client, ci.os.as_str());
                    push_login(out, client.as_str(), s.status.as_str());
                }
            },
            None => {},
        }
        assert(lines_view(out@) =~= li + match ss@[i as int].client_info {
            Some(ci) if ci.os@ != "other"@ => login_line(ci.client@ + " "@ + ci.os@, ss@[i as int].status@),
            _ => Seq::empty(),
        });
        i += 1;
    }
    assert(ss@.take(ss.len() as int) =~= ss@);
}

fn push_override(o: &ChannelOverride, data: &DataId, now_ms: i64, out: &mut Vec<LogLine>)
    ensures
        lines_view(final(out)@) == lines_view(old(out)@) + override_lines(*o, muted_name(*data, o.channel_id.0), now_ms),
{
    let ghost before = out@;
    let c = o.channel_id.0;
    let name: String = match data.dm_dump_hashmap.get(&c) {
        Some(n) => n.clone(),
        None => match data.channel_id.get(&c) {
            Some(n) => n.clone(),
            None => owned("Unknown"),
        },
    };
    let flag = if o.muted { "true" } else { "false" };
    match &o.mute_config {
        Some(mc) => match &mc.end_time {
            Some(end) => {
                match (parse_rfc3339_ms(end.as_str()), show_rfc3339(end.as_str())) {
                    (Some(t), Some(shown)) => {
                        if t >= now_ms {
                            let mut line = owned("Muted: ");
                            push_str(&mut line, flag);
                            push_str(&mut line, " ");
                            push_str(&mut line, shown.as_str());
                            push_str(&mut line, " ");
                            push_str(&mut line, name.as_str());
                            out.push(LogLine { kind: LogKind::Info, text: line });
                        }
                    },
                    _ => {},
                }
            },
            None => {},
        },
        None => {
            let mut line = owned("Muted: ");
            push_str(&mut line, flag);
            push_str(&mut line, " ");
            push_str(&mut line, name.as_str());
            out.push(LogLine { kind: LogKind::Info, text: line });
        },
    }
    proof {
        reveal_strlit("true");
        reveal_strlit("false");
    }
    assert(lines_view(out@) =~= lines_view(before) + override_lines(*o, muted_name(*data, c), now_ms));
}

fn push_muted_dms(xs: &Vec<UserGuildSetting>, data: &DataId, now_ms: i64, out: &mut Vec<LogLine>)
    ensures
        lines_view(final(out)@) == lines_view(old(out)@) + muted_dm_lines(xs@, *data, now_ms),
{
    let ghost l0 = lines_view(out@);
    let mut i: usize = 0;
    while i < xs.len()
        invariant
            0 <= i <= xs.len(),
            lines_view(out@) == l0 + muted_dm_lines(xs@.take(i as int), *data, now_ms),
        decreases xs.len() - i,
    {
        let x = &xs[i];
        assert(xs@.take(i + 1).drop_last() =~= xs@.take(i as int));
        let ghost li = lines_view(out@);
        if x.guild_id.is_none() {
            let os = &x.channel_overrides;
            let mut j: usize = 0;
            while j < os.len()
                invariant
                    0 <= j <= os.len(),
                    lines_view(out@) == li + overrides_lines(os@.take(j as int), *data, now_ms),
                decreases os.len() - j,
            {
                assert(os@.take(j + 1).drop_last() =~= os@.take(j as int));
                push_override(&os[j], data, now_ms, out);
                j += 1;
            }
            assert(os@.take(os.len() as int) =~= os@);
        }
        i += 1;
    }
    assert(xs@.take(xs.len() as int) =~= xs@);
}

/// What a ready payload gives the console logger: the server and DM maps, the console lines,
/// and whether the raw payload and the two maps are written to their files.
pub struct ReadyOutcome {
    pub server_map: Vec<ServerMapping>,
    pub dm_map: Vec<DMMapping>,
    pub lines: Vec<LogLine>,
    pub write_ready: bool,
    pub write_servers: bool,
    pub write_dms: bool,
}

/// `after` is what the ready payload `d` makes of `before`: the resume address and the
/// session id when given, the guild, channel and DM names, the mute marks, and, when the
/// account's own messages are followed, its id among the watched users.
pub open spec fn ready_data(d: ReadyData, track_myself: bool, before: DataId, after: DataId) -> bool {
    &&& after.resume_gateway@ == match d.resume_gateway_url {
        Some(u) => u@,
        None => before.resume_gateway@,
    }
    &&& names_view(after.guild_id@) == insert_all(names_view(before.guild_id@), guild_names(d.guilds@))
    &&& names_view(after.channel_id@) == insert_all(names_view(before.channel_id@), all_channel_entries(d.guilds@))
    &&& after.username@ == (if track_myself {
        match d.user {
            Some(u) => before.username@.push(u.id),
            None => before.username@,
        }
    } else {
        before.username@
    })
    &&& match d.private_channels {
        Some(dms) => names_view(after.dm_dump_hashmap@) == insert_all(names_view(before.dm_dump_hashmap@),
            dms@.map_values(|dm: PrivateChannels| (dm.id.0, dm_people(d, dm)))),
        None => after.dm_dump_hashmap@ == before.dm_dump_hashmap@,
    }
    &&& names_view(after.muted_server@) == insert_all(names_view(before.muted_server@), all_marks(d.user_guild_settings.entries@))
    &&& after.session_id@ == (if d.sessions@.len() > 0 { d.sessions@[0].session_id@ } else { before.session_id@ })
}

/// `data1`, `gs1` and `r` are what the ready payload `d` gives from `data0` and `gs0` (see
/// [`handle_ready`]).
pub open spec fn ready_handled(d: ReadyData, cfg: Config, now_ms: i64, data0: DataId, data1: DataId, gs0: Seq<char>, gs1: Seq<char>, r: ReadyOutcome) -> bool {
    &&& ready_data(d, cfg.track_myself, data0, data1)
    &&& gs1 == match d.session_id {
        Some(s) => s@,
        None => gs0,
    }
    &&& r.server_map@.map_values(|m: ServerMapping| server_row(m)) == d.guilds@.map_values(|g: Guild| guild_row(g))
    &&& match d.private_channels {
        Some(dms) => {
            &&& r.dm_map@.len() == dms@.len()
            &&& forall|i: int| 0 <= i < dms@.len() ==> dm_row_ok(d.users@, dms@[i], #[trigger] r.dm_map@[i])
        },
        None => r.dm_map@.len() == 0,
    }
    &&& lines_view(r.lines@) == welcome_lines(d)
        + seq![
            (LogKind::Info, "Server found "@ + dec(data1.guild_id@.len())),
            (LogKind::Info, "Channel mapped "@ + dec(data1.channel_id@.len())),
            (LogKind::Info, "DM found "@ + dec(match d.private_channels { Some(_) => data1.dm_dump_hashmap@.len(), None => 0 })),
            (LogKind::Plain, Seq::empty()),
        ]
        + session_lines(d.sessions@)
        + (if cfg.print_muted_dm { muted_dm_lines(d.user_guild_settings.entries@, data1, now_ms) } else { Seq::empty() })
    &&& r.write_ready == cfg.write_file.ready
    &&& r.write_servers == cfg.write_file.server_channel
    &&& r.write_dms == (cfg.write_file.dm_channel && d.private_channels is Some)
}

/// Takes in a ready payload (see [`ready_data`]): the greeting, the counts of guilds,
/// channels and DMs, an empty line, the login lines of the sessions and, when muted DMs are
/// printed, their mute lines as of `now_ms`; the server and DM maps and which files to
/// write.
pub fn handle_ready(d: &ReadyData, data: &mut DataId, g_session_id: &mut String, cfg: &Config, now_ms: i64) -> (r: ReadyOutcome)
    ensures
        ready_handled(*d, *cfg, now_ms, *old(data), *final(data), old(g_session_id)@, final(g_session_id)@, r),
{
    let mut lines: Vec<LogLine> = Vec::new();
    push_welcome(d, &mut lines);
    match &d.resume_gateway_url {
        Some(u) => {
            data.resume_gateway = u.clone();
        },
        None => {},
    }
    let ghost w = lines@;
    let (server_map, mut glines) = guild_mapping(d, &mut data.guild_id, &mut data.channel_id, g_session_id);
    let ghost gl = glines@;
    lines.append(&mut glines);
    proof {
        assert(lines_view(lines@) =~= lines_view(w) + lines_view(gl));
    }
    if cfg.track_myself {
        get_username(d, &mut data.username);
    }
    let ghost w2 = lines@;
    let (dm_map, mut dlines) = dm_mapping(d, &mut data.dm_dump_hashmap);
    let ghost dl = dlines@;
    lines.append(&mut dlines);
    proof {
        assert(lines_view(lines@) =~= lines_view(w2) + lines_view(dl));
        reveal_strlit("DM found 0");
        reveal_strlit("DM found ");
        assert(dec(0) =~= seq!['0']);
        assert("DM found 0"@ =~= "DM found "@ + dec(0));
    }
    muted_server_mapping(d, &mut data.muted_server);
    if d.sessions.len() > 0 {
        data.session_id = d.sessions[0].session_id.clone();
    }
    let ghost l1 = lines@;
    lines.push(LogLine { kind: LogKind::Plain, text: String::new() });
    proof {
        assert(lines_view(lines@) =~= lines_view(l1).push((LogKind::Plain, Seq::empty())));
    }
    push_sessions(&d.sessions, &mut lines);
    if cfg.print_muted_dm {
        push_muted_dms(&d.user_guild_settings.entries, data, now_ms, &mut lines);
    }
    proof {
        reveal_strlit("DM found 0");
    }
    let write_dms = cfg.write_file.dm_channel && d.private_channels.is_some();
    let r = ReadyOutcome {
        server_map,
        dm_map,
        lines,
        write_ready: cfg.write_file.ready,
        write_servers: cfg.write_file.server_channel,
        write_dms,
    };
    assert(ready_data(*d, cfg.track_myself, *old(data), *data));
    assert(lines_view(r.lines@) == welcome_lines(*d)
        + seq![
            (LogKind::Info, "Server found "@ + dec(data.guild_id@.len())),
            (LogKind::Info, "Channel mapped "@ + dec(data.channel_id@.len())),
            (LogKind::Info, "DM found "@ + dec(match d.private_channels { Some(_) => data.dm_dump_hashmap@.len(), None => 0 })),
            (LogKind::Plain, Seq::empty()),
        ]
        + session_lines(d.sessions@)
        + (if cfg.print_muted_dm { muted_dm_lines(d.user_guild_settings.entries@, *data, now_ms) } else { Seq::empty() }));
    r
}

} // verus!
