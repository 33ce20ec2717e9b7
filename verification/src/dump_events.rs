use vstd::prelude::*;
use crate::config::Config;
use crate::console::{LogKind, LogLine, bool_state, bool_state_text, lines_view, login_line, push_login};
use crate::decimal::{dec, push_decimal};
use crate::dump::{DataId, name_or};
use crate::dump_ready::bool_text;
use crate::message_buffer::{BufferModel, MessageBuffer};
use crate::receive_struct::message_delete::MessageDeleteData;
use crate::receive_struct::presence_update::PresenceData;
use crate::receive_struct::session_replace::SessionReplaceData;
use crate::receive_struct::typing_start::TypingData;
use crate::receive_struct::user_guild_settings_update::{ChannelOverride, UserGuildSettingsUpdateData};
use crate::receive_struct::voice_state_update::VoiceStateUpdateData;
use crate::snowflake::SnowflakeID;
use crate::state::str_eq;
use crate::text::{owned, push_str};

verus! {

broadcast use vstd::seq_lib::group_seq_properties;

/// One line of kind `k`.
pub open spec fn one(k: LogKind, t: Seq<char>) -> Seq<(LogKind, Seq<char>)> {
    seq![(k, t)]
}

/// A vector of one line.
pub fn single(kind: LogKind, text: String) -> (r: Vec<LogLine>)
    ensures
        lines_view(r@) == one(kind, text@),
{
    let mut v: Vec<LogLine> = Vec::new();
    v.push(LogLine { kind, text });
    assert(lines_view(v@) =~= one(kind, text@));
    v
}

/// The lines of a deleted message: where it was (a known guild and channel when servers are
/// followed; a known DM when DMs are followed) and its text from the buffer.
pub open spec fn delete_lines(d: MessageDeleteData, data: DataId, cfg: Config, buffer: BufferModel) -> Seq<(LogKind, Seq<char>)> {
    if !cfg.event.message_delete {
        Seq::empty()
    } else {
        match d.guild_id {
            Some(g) => if data.guild_id@.contains_key(g.0) && data.channel_id@.contains_key(d.channel_id.0) && cfg.server_track {
                seq![
                    (LogKind::Delete, "\n[DELETE] "@ + data.guild_id@[g.0]@ + " > "@ + data.channel_id@[d.channel_id.0]@),
                    (LogKind::Delete, buffer.get(d.id.0)),
                ]
            } else {
                Seq::empty()
            },
            None => if data.dm_dump_hashmap@.contains_key(d.channel_id.0) && cfg.dm_track {
                seq![
                    (LogKind::Delete, "\n[DELETE] [DM] > "@ + data.dm_dump_hashmap@[d.channel_id.0]@),
                    (LogKind::Delete, buffer.get(d.id.0)),
                ]
            } else {
                Seq::empty()
            },
        }
    }
}

/// The lines of a deleted message (see [`delete_lines`]).
pub fn handle_message_delete(d: &MessageDeleteData, data: &DataId, cfg: &Config, buffer: &MessageBuffer) -> (r: Vec<LogLine>)
    ensures
        lines_view(r@) == delete_lines(*d, *data, *cfg, buffer@),
{
    let mut out: Vec<LogLine> = Vec::new();
    if !cfg.event.message_delete {
        assert(lines_view(out@) =~= Seq::empty());
        return out;
    }
    match d.guild_id {
        Some(g) => {
            match (data.guild_id.get(&g.0), data.channel_id.get(&d.channel_id.0)) {
                (Some(gn), Some(cn)) => {
                    if cfg.server_track {
                        let mut t = owned("\n[DELETE] ");
                        push_str(&mut t, gn.as_str());
                        push_str(&mut t, " > ");
                        push_str(&mut t, cn.as_str());
                        out.push(LogLine { kind: LogKind::Delete, text: t });
                        out.push(LogLine { kind: LogKind::Delete, text: owned(buffer.get_message(d.id)) });
                    }
                },
                _ => {},
            }
        },
        None => {
            match data.dm_dump_hashmap.get(&d.channel_id.0) {
                Some(e) => {
                    if cfg.dm_track {
                        let mut t = owned("\n[DELETE] [DM] > ");
                        push_str(&mut t, e.as_str());
                        out.push(LogLine { kind: LogKind::Delete, text: t });
                        out.push(LogLine { kind: LogKind::Delete, text: owned(buffer.get_message(d.id)) });
                    }
                },
                None => {},
            }
        },
    }
    assert(lines_view(out@) =~= delete_lines(*d, *data, *cfg, buffer@));
    out
}

/// The separator printed around session lists.
pub open spec fn dashes() -> Seq<char> {
    "----------"@
}

/// The login lines of replaced sessions whose client system is not `other`.
pub open spec fn replaced_lines(ss: Seq<SessionReplaceData>) -> Seq<(LogKind, Seq<char>)>
    decreases ss.len(),
{
    if ss.len() == 0 {
        Seq::empty()
    } else {
        let x = ss.last();
        replaced_lines(ss.drop_last()) + if x.client_info.os@ != "other"@ {
            login_line(x.client_info.client@ + " "@ + x.client_info.os@, x.status@)
        } else {
            Seq::empty()
        }
    }
}

/// The lines of a session replacement: the login lines between two separators, when
/// reported.
pub open spec fn sessions_lines(ss: Seq<SessionReplaceData>, cfg: Config) -> Seq<(LogKind, Seq<char>)> {
    if cfg.event.session_replace {
        one(LogKind::Plain, dashes()) + replaced_lines(ss) + one(LogKind::Plain, dashes())
    } else {
        Seq::empty()
    }
}

/// The lines of a session replacement (see [`sessions_lines`]).
pub fn handle_sessions_replace(d: &Vec<SessionReplaceData>, cfg: &Config) -> (r: Vec<LogLine>)
    ensures
        lines_view(r@) == sessions_lines(d@, *cfg),
{
    if !cfg.event.session_replace {
        let out: Vec<LogLine> = Vec::new();
        assert(lines_view(out@) =~= Seq::empty());
        return out;
    }
    let mut out = single(LogKind::Plain, owned("----------"));
    let ghost l0 = lines_view(out@);
    let mut i: usize = 0;
    while i < d.len()
        invariant
            0 <= i <= d.len(),
            lines_view(out@) == l0 + replaced_lines(d@.take(i as int)),
        decreases d.len() - i,
    {
        let x = &d[i];
        assert(d@.take(i + 1).drop_last() =~= d@.take(i as int));
        let ghost li = lines_view(out@);
        proof {
            reveal_strlit("other");
        }
        if !str_eq(x.client_info.os.as_str(), "other") {
            let mut client = owned(x.client_info.client.as_str());
            push_str(&mut client, " ");
            push_str(&mut client, x.client_info.os.as_str());
            push_login(&mut out, client.as_str(), x.status.as_str());
        } else {
            assert(lines_view(out@) =~= li + Seq::empty());
        }
        i += 1;
    }
    assert(d@.take(d.len() as int) =~= d@);
    let ghost l1 = out@;
    out.push(LogLine { kind: LogKind::Plain, text: owned("----------") });
    assert(lines_view(out@) =~= lines_view(l1) + one(LogKind::Plain, dashes()));
    out
}

/// The lines of a presence update, when reported, for a user with a user name: the global
/// name and the user name as errors (as the logger prints them), then the login line of
/// the status.
pub open spec fn presence_lines(d: PresenceData, cfg: Config) -> Seq<(LogKind, Seq<char>)> {
    if !cfg.event.presence_update {
        Seq::empty()
    } else {
        match d.user.username {
            Some(name) => (match d.user.global_name {
                Some(g) => one(LogKind::Error, g@),
                None => Seq::empty(),
            }) + one(LogKind::Error, name@) + login_line("PresenceUpdate"@, d.status@),
            None => Seq::empty(),
        }
    }
}

/// The lines of a presence update (see [`presence_lines`]).
pub fn handle_presence_update(d: &PresenceData, cfg: &Config) -> (r: Vec<LogLine>)
    ensures
        lines_view(r@) == presence_lines(*d, *cfg),
{
    let mut out: Vec<LogLine> = Vec::new();
    if !cfg.event.presence_update {
        assert(lines_view(out@) =~= Seq::empty());
        return out;
    }
    match &d.user.username {
        Some(name) => {
            match &d.user.global_name {
                Some(g) => out.push(LogLine { kind: LogKind::Error, text: g.clone() }),
                None => {},
            }
            out.push(LogLine { kind: LogKind::Error, text: name.clone() });
            let ghost l = lines_view(out@);
            assert(l =~= (match d.user.global_name {
                Some(g) => one(LogKind::Error, g@),
                None => Seq::empty(),
            }) + one(LogKind::Error, name@));
            push_login(&mut out, "PresenceUpdate", d.status.as_str());
        },
        None => {
            assert(lines_view(out@) =~= Seq::empty());
        },
    }
    out
}

/// The line of a call start or end in a DM, when reported, stamped `time`: with the DM's
/// name when known, else a warning.
pub open spec fn call_lines(start: bool, channel_id: SnowflakeID, data: DataId, cfg: Config, time: Seq<char>) -> Seq<(LogKind, Seq<char>)> {
    let enabled = if start { cfg.event.call_dm_create } else { cfg.event.call_dm_delete };
    let verb = if start { "Call start"@ } else { "Call end"@ };
    if !enabled {
        Seq::empty()
    } else if data.dm_dump_hashmap@.contains_key(channel_id.0) {
        one(LogKind::Info, "("@ + time + ") "@ + verb + " with: "@ + data.dm_dump_hashmap@[channel_id.0]@)
    } else {
        one(LogKind::Warn, "("@ + time + ") "@ + verb + " channel id NONE"@)
    }
}

/// The line of a call start or end (see [`call_lines`]).
pub fn handle_call(start: bool, channel_id: SnowflakeID, data: &DataId, cfg: &Config, time: &str) -> (r: Vec<LogLine>)
    ensures
        lines_view(r@) == call_lines(start, channel_id, *data, *cfg, time@),
{
    let enabled = if start { cfg.event.call_dm_create } else { cfg.event.call_dm_delete };
    if !enabled {
        let out: Vec<LogLine> = Vec::new();
        assert(lines_view(out@) =~= Seq::empty());
        return out;
    }
    let verb = if start { "Call start" } else { "Call end" };
    proof {
        reveal_strlit("Call start");
        reveal_strlit("Call end");
    }
    let mut t = owned("(");
    push_str(&mut t, time);
    push_str(&mut t, ") ");
    push_str(&mut t, verb);
    match data.dm_dump_hashmap.get(&channel_id.0) {
        Some(c) => {
            push_str(&mut t, " with: ");
            push_str(&mut t, c.as_str());
            single(LogKind::Info, t)
        },
        None => {
            push_str(&mut t, " channel id NONE");
            single(LogKind::Warn, t)
        },
    }
}

/// The line of a typing user, when reported, in a known channel: with the guild's name when
/// the event names a known guild, else as a DM.
pub open spec fn typing_lines(d: TypingData, data: DataId, cfg: Config) -> Seq<(LogKind, Seq<char>)> {
    if !cfg.event.typing_start || !data.channel_id@.contains_key(d.channel_id.0) {
        Seq::empty()
    } else {
        let channel = data.channel_id@[d.channel_id.0]@;
        match d.guild_id {
            Some(g) if data.guild_id@.contains_key(g.0) =>
                one(LogKind::Plain, "Typing: "@ + data.guild_id@[g.0]@ + " > "@ + channel + " > "@ + dec(d.user_id.0 as nat)),
            _ => one(LogKind::Plain, "Typing: [DM] > "@ + channel + " > "@ + dec(d.user_id.0 as nat)),
        }
    }
}

/// The line of a typing user (see [`typing_lines`]).
pub fn handle_typing_start(d: &TypingData, data: &DataId, cfg: &Config) -> (r: Vec<LogLine>)
    ensures
        lines_view(r@) == typing_lines(*d, *data, *cfg),
{
    if !cfg.event.typing_start {
        let out: Vec<LogLine> = Vec::new();
        assert(lines_view(out@) =~= Seq::empty());
        return out;
    }
    match data.channel_id.get(&d.channel_id.0) {
        Some(channel) => {
            let guild: Option<&String> = match d.guild_id {
                Some(g) => data.guild_id.get(&g.0),
                None => None,
            };
            let mut t = match guild {
                Some(gn) => {
                    let mut t = owned("Typing: ");
                    push_str(&mut t, gn.as_str());
                    push_str(&mut t, " > ");
                    t
                },
                None => owned("Typing: [DM] > "),
            };
            push_str(&mut t, channel.as_str());
            push_str(&mut t, " > ");
            push_decimal(&mut t, d.user_id.0);
            proof {
                let ch = data.channel_id@[d.channel_id.0]@;
                match d.guild_id {
                    Some(g) if data.guild_id@.contains_key(g.0) => {
                        assert(t@ =~= "Typing: "@ + data.guild_id@[g.0]@ + " > "@ + ch + " > "@ + dec(d.user_id.0 as nat));
                    },
                    _ => {
                        assert(t@ =~= "Typing: [DM] > "@ + ch + " > "@ + dec(d.user_id.0 as nat));
                    },
                }
            }
            single(LogKind::Plain, t)
        },
        None => {
            let out: Vec<LogLine> = Vec::new();
            assert(lines_view(out@) =~= Seq::empty());
            out
        },
    }
}

/// The user a voice state is about: its member's user, else its user id.
pub open spec fn voice_member(d: VoiceStateUpdateData) -> SnowflakeID {
    match d.member {
        Some(m) => m.user.id,
        None => d.user_id,
    }
}

/// Where a voice state's channel is, for a voice line: the known guild and the channel, or
/// a DM; none when the guild is unknown.
pub open spec fn voice_context(d: VoiceStateUpdateData, name: Seq<char>, data: DataId) -> Option<Seq<char>> {
    match d.guild_id {
        Some(g) => if data.guild_id@.contains_key(g.0) { Some(data.guild_id@[g.0]@ + " > "@ + name) } else { None },
        None => Some("[DM] > "@ + name),
    }
}

/// The voice line of a context: the member's name and its mute, deafen, stream and camera
/// flags.
pub open spec fn voice_line(d: VoiceStateUpdateData, context: Seq<char>) -> Seq<char> {
    "\nVoice: "@ + context + "\n\t"@ + (match d.member {
        Some(m) => m.user.username@,
        None => "Unknown"@,
    }) + " \x1B[0m[Mute: "@ + bool_state_text(d.self_mute) + ", Deaf: "@ + bool_state_text(d.self_deaf) + ", SS: "@
        + bool_state_text(match d.self_stream {
        Some(b) => b,
        None => false,
    }) + ", Cam: "@ + bool_state_text(d.self_video) + "]"@
}

/// The lines of a voice state of a watched user: a disconnection without a channel; with a
/// known channel (or DM), where it is and the member's flags; nothing otherwise.
pub open spec fn voice_state_lines(d: VoiceStateUpdateData, data: DataId) -> Seq<(LogKind, Seq<char>)> {
    if !data.username@.contains(voice_member(d)) {
        Seq::empty()
    } else {
        match d.channel_id {
            None => one(LogKind::VoiceDisconnect, "\nVoice: disconnected"@),
            Some(c) => {
                if !data.channel_id@.contains_key(c.0) && !data.dm_dump_hashmap@.contains_key(c.0) {
                    Seq::empty()
                } else {
                    let name = if data.channel_id@.contains_key(c.0) { data.channel_id@[c.0]@ } else { data.dm_dump_hashmap@[c.0]@ };
                    match voice_context(d, name, data) {
                        Some(ctx) => one(LogKind::VoiceConnect, voice_line(d, ctx)),
                        None => Seq::empty(),
                    }
                }
            },
        }
    }
}

/// The lines of a voice state (see [`voice_state_lines`]).
pub fn handle_voice_state_update(d: &VoiceStateUpdateData, data: &DataId) -> (r: Vec<LogLine>)
    ensures
        lines_view(r@) == voice_state_lines(*d, *data),
{
    let empty: Vec<LogLine> = Vec::new();
    assert(lines_view(empty@) =~= Seq::empty());
    let member_id = match &d.member {
        Some(m) => m.user.id,
        None => d.user_id,
    };
    if !crate::dump::watched_user(&data.username, member_id) {
        return empty;
    }
    let c = match d.channel_id {
        Some(c) => c,
        None => return single(LogKind::VoiceDisconnect, owned("\nVoice: disconnected")),
    };
    let name: &String = match data.channel_id.get(&c.0) {
        Some(n) => n,
        None => match data.dm_dump_hashmap.get(&c.0) {
            Some(n) => n,
            None => return empty,
        },
    };
    let mut ctx = String::new();
    match d.guild_id {
        Some(g) => match data.guild_id.get(&g.0) {
            Some(gn) => {
                ctx = owned(gn.as_str());
                push_str(&mut ctx, " > ");
                push_str(&mut ctx, name.as_str());
            },
            None => return empty,
        },
        None => {
            ctx = owned("[DM] > ");
            push_str(&mut ctx, name.as_str());
        },
    }
    let mut t = owned("\nVoice: ");
    push_str(&mut t, ctx.as_str());
    push_str(&mut t, "\n\t");
    match &d.member {
        Some(m) => push_str(&mut t, m.user.username.as_str()),
        None => push_str(&mut t, "Unknown"),
    }
    push_str(&mut t, " \x1B[0m[Mute: ");
    push_str(&mut t, bool_state(d.self_mute));
    push_str(&mut t, ", Deaf: ");
    push_str(&mut t, bool_state(d.self_deaf));
    push_str(&mut t, ", SS: ");
    let ss = match d.self_stream {
        Some(b) => b,
        None => false,
    };
    push_str(&mut t, bool_state(ss));
    push_str(&mut t, ", Cam: ");
    push_str(&mut t, bool_state(d.self_video));
    push_str(&mut t, "]");
    single(LogKind::VoiceConnect, t)
}

/// The mute lines of DM overrides.
pub open spec fn override_mute_lines(os: Seq<ChannelOverride>, data: DataId) -> Seq<(LogKind, Seq<char>)>
    decreases os.len(),
{
    if os.len() == 0 {
        Seq::empty()
    } else {
        override_mute_lines(os.drop_last(), data) + one(LogKind::Info, "Muted: "@ + bool_text(os.last().muted) + " "@
            + name_or(data.dm_dump_hashmap@, os.last().channel_id.0, "Unknown"@))
    }
}

/// The lines of a DM notification setting change (none for a guild's): one mute line per
/// override, or a shrug when there is none.
pub open spec fn guild_settings_lines(d: UserGuildSettingsUpdateData, data: DataId) -> Seq<(LogKind, Seq<char>)> {
    if d.guild_id is Some {
        Seq::empty()
    } else if d.channel_overrides@.len() == 0 {
        one(LogKind::Info, "Unmuted ? shrug"@)
    } else {
        override_mute_lines(d.channel_overrides@, data)
    }
}

/// The lines of a notification setting change (see [`guild_settings_lines`]).
pub fn handle_user_guild_settings(d: &UserGuildSettingsUpdateData, data: &DataId) -> (r: Vec<LogLine>)
    ensures
        lines_view(r@) == guild_settings_lines(*d, *data),
{
    if d.guild_id.is_some() {
        let out: Vec<LogLine> = Vec::new();
        assert(lines_view(out@) =~= Seq::empty());
        return out;
    }
    if d.channel_overrides.len() == 0 {
        return single(LogKind::Info, owned("Unmuted ? shrug"));
    }
    let os = &d.channel_overrides;
    let mut out: Vec<LogLine> = Vec::new();
    let mut i: usize = 0;
    proof {
        reveal_strlit("true");
        reveal_strlit("false");
    }
    while i < os.len()
        invariant
            0 <= i <= os.len(),
            lines_view(out@) == override_mute_lines(os@.take(i as int), *data),
        decreases os.len() - i,
    {
        assert(os@.take(i + 1).drop_last() =~= os@.take(i as int));
        let ghost l0 = out@;
        let mut t = owned("Muted: ");
        push_str(&mut t, if os[i].muted { "true" } else { "false" });
        push_str(&mut t, " ");
        let n = crate::dump::get_or(&data.dm_dump_hashmap, os[i].channel_id.0, "Unknown");
        push_str(&mut t, n.as_str());
        out.push(LogLine { kind: LogKind::Info, text: t });
        assert(lines_view(out@) =~= lines_view(l0) + one(LogKind::Info, "Muted: "@ + bool_text(os@[i as int].muted) + " "@
            + name_or(data.dm_dump_hashmap@, os@[i as int].channel_id.0, "Unknown"@)));
        i += 1;
    }
    assert(os@.take(os.len() as int) =~= os@);
    out
}

} // verus!
