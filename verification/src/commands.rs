use std::collections::HashSet;
use vstd::prelude::*;
use crate::appstate::{AppState, Compose, Nav, Streams, chans_of, has_channel, channel_in};
use crate::decimal::{dec, parse_u64, parse_u64_spec, push_decimal};
use crate::gateway::GatewayAction;
use crate::input::{InputEffect, status_set, toggle_voice_state, voice_toggled};
use crate::snowflake::SnowflakeID;
use crate::state::{ChannelSummary, Focus, PendingStream};
use crate::streams::{keys_unique, pending_updated, set_pending};
use crate::streams::{not_user, without_user};
use crate::text::{is_ws, trail_ws, lemma_trail_ws_bound, trim_start_spec, chars_of, owned, push_str, seq_starts_with, slice_vec, starts_with, string_from_chars, trim, trim_spec};

verus! {

broadcast use {vstd::std_specs::hash::group_hash_axioms, vstd::seq_lib::group_seq_properties};

/// What follows prefix `p` in `t`, when `t` starts with it.
pub open spec fn strip(t: Seq<char>, p: Seq<char>) -> Option<Seq<char>> {
    if seq_starts_with(t, p) { Some(t.skip(p.len() as int)) } else { None }
}

/// `str::strip_prefix`.
pub fn strip_prefix(t: &str, p: &str) -> (r: Option<String>)
    ensures
        match r {
            Some(x) => strip(t@, p@) == Some(x@),
            None => strip(t@, p@) is None,
        },
{
    if starts_with(t, p) {
        let cs = chars_of(t);
        let n = chars_of(p).len();
        let rest = slice_vec(cs.as_slice(), n, cs.len());
        assert(rest@ =~= t@.skip(p@.len() as int));
        Some(string_from_chars(rest.as_slice()))
    } else {
        None
    }
}

/// The numeric argument of a command.
pub open spec fn arg_id(arg: Seq<char>) -> Option<u64> {
    parse_u64_spec(trim_spec(arg))
}

/// `true` when every watched stream is shown large.
pub open spec fn all_big(s: AppState) -> bool {
    forall|i: int| 0 <= i < s.streams.watching_streams@.len() ==> s.streams.big_streams@.contains(#[trigger] s.streams.watching_streams@[i].0)
}

/// The ids of the watched streams.
pub open spec fn watched_ids(s: AppState) -> Set<u64> {
    s.streams.watching_streams@.map_values(|x: SnowflakeID| x.0).to_set()
}

/// The key of the stream of user `uid` in the current guild or call, if there is one:
/// `guild:G:C:U` in a guild, `call:C:U` otherwise, the channel being the call's or else the
/// selected one.
pub open spec fn watch_key(s: AppState, uid: u64) -> Option<Seq<char>> {
    let chan = match s.voice.voice_channel {
        Some(c) => Some(c),
        None => s.nav.current_channel,
    };
    match (s.nav.current_guild, chan) {
        (Some(g), Some(c)) if g.0 != 0 => Some("guild:"@ + dec(g.0 as nat) + ":"@ + dec(c.0 as nat) + ":"@ + dec(uid as nat)),
        (_, Some(c)) => Some("call:"@ + dec(c.0 as nat) + ":"@ + dec(uid as nat)),
        _ => None,
    }
}

/// The gateway effect `a`, when the gateway runs.
pub open spec fn gw(s: AppState, a: GatewayAction) -> Seq<InputEffect> {
    if s.gateway_connected { seq![InputEffect::Gateway(a)] } else { Seq::empty() }
}

/// The state and effects of a slash command typed as `raw` (trimmed); `r` is none when
/// `raw` is no command handled here.
pub open spec fn command_rel(before: AppState, after: AppState, raw: Seq<char>, r: Option<Seq<InputEffect>>) -> bool {
    let t = trim_spec(raw);
    if strip(t, "/join "@) is Some {
        let code = trim_spec(strip(t, "/join "@)->0);
        &&& r matches Some(e) && e.len() == 1 && (e[0] matches InputEffect::AcceptInvite { code: c } && c@ == code)
        &&& status_set(before, after, "joining "@ + code + "…"@)
    } else if t == "/leave"@ {
        match before.nav.current_guild {
            Some(g) if g.0 != 0 => r == Some(seq![InputEffect::LeaveGuild { guild: g }]) && after == before,
            _ => r == Some(Seq::<InputEffect>::empty()) && status_set(before, after, "not in a server (select a server channel)"@),
        }
    } else if strip(t, "/dm "@) is Some {
        match arg_id(strip(t, "/dm "@)->0) {
            Some(uid) => r == Some(seq![InputEffect::CreateDm { user: SnowflakeID(uid) }]) && after == before,
            None => r == Some(Seq::<InputEffect>::empty()) && status_set(before, after, "usage: /dm <numeric user id>"@),
        }
    } else if strip(t, "/unwatch "@) is Some {
        match arg_id(strip(t, "/unwatch "@)->0) {
            Some(uid) => {
                let mid = AppState {
                    streams: Streams {
                        watching_streams: after.streams.watching_streams,
                        big_streams: after.streams.big_streams,
                        ..before.streams
                    },
                    ..before
                };
                &&& after.streams.watching_streams@ == before.streams.watching_streams@.filter(not_user(uid))
                &&& after.streams.big_streams@ == before.streams.big_streams@.remove(uid)
                &&& status_set(mid, after, "stopped watching "@ + dec(uid as nat))
                &&& r == Some(gw(before, GatewayAction::StopOneStream { uid }))
            },
            None => r == Some(Seq::<InputEffect>::empty()) && status_set(before, after, "usage: /unwatch <uid> | /unwatch (all)"@),
        }
    } else if t == "/watch off"@ || t == "/unwatch"@ {
        let mid = AppState {
            streams: Streams { watching_streams: after.streams.watching_streams, big_streams: after.streams.big_streams, ..before.streams },
            ..before
        };
        &&& after.streams.watching_streams@.len() == 0
        &&& after.streams.big_streams@ == Set::<u64>::empty()
        &&& status_set(mid, after, "stream view closed"@)
        &&& r == Some(gw(before, GatewayAction::StopStream))
    } else if t == "/stream"@ {
        status_set(before, after, "Go Live: requesting…"@) && r == Some(gw(before, GatewayAction::GoLive))
    } else if t == "/unstream"@ {
        status_set(before, after, "Go Live: stopping"@) && r == Some(gw(before, GatewayAction::StopGoLive))
    } else if t == "/mute"@ {
        r matches Some(e) && voice_toggled(before, after, false, e)
    } else if t == "/deafen"@ {
        r matches Some(e) && voice_toggled(before, after, true, e)
    } else if strip(t, "/big "@) is Some {
        match arg_id(strip(t, "/big "@)->0) {
            Some(uid) => {
                let big = !before.streams.big_streams@.contains(uid);
                let mid = AppState { streams: Streams { big_streams: after.streams.big_streams, ..before.streams }, ..before };
                &&& after.streams.big_streams@ == (if big { before.streams.big_streams@.insert(uid) } else { before.streams.big_streams@.remove(uid) })
                &&& status_set(mid, after, "stream "@ + dec(uid as nat) + (if big { ": grand"@ } else { ": PiP"@ }))
                &&& r == Some(Seq::<InputEffect>::empty())
            },
            None => r == Some(Seq::<InputEffect>::empty()) && status_set(before, after, "usage: /big <uid> | /big (all)"@),
        }
    } else if t == "/big"@ {
        &&& r == Some(Seq::<InputEffect>::empty())
        &&& if before.streams.watching_streams@.len() == 0 {
            status_set(before, after, "no stream to resize"@)
        } else {
            let mid = AppState { streams: Streams { big_streams: after.streams.big_streams, ..before.streams }, ..before };
            &&& after.streams.big_streams@ == (if all_big(before) { Set::<u64>::empty() } else { before.streams.big_streams@.union(watched_ids(before)) })
            &&& status_set(mid, after, "stream view: "@ + (if all_big(before) { "PiP"@ } else { "grand (tous)"@ }))
        }
    } else if strip(t, "/watch "@) is Some {
        match arg_id(strip(t, "/watch "@)->0) {
            Some(uid) => {
                let ws = before.streams.watching_streams@;
                let ws2 = if !ws.contains(SnowflakeID(uid)) && ws.len() < 4 { ws.push(SnowflakeID(uid)) } else { ws };
                let key = watch_key(before, uid);
                let mid = AppState {
                    streams: Streams {
                        watching_streams: after.streams.watching_streams,
                        pending_streams: after.streams.pending_streams,
                        ..before.streams
                    },
                    ..before
                };
                &&& after.streams.watching_streams@ == ws2
                &&& match key {
                    Some(k) => pending_updated(before.streams.pending_streams@, after.streams.pending_streams@, k,
                        PendingStream { uid, token: None, endpoint: None, server: None }),
                    None => after.streams.pending_streams == before.streams.pending_streams,
                }
                &&& status_set(mid, after, "watching "@ + dec(uid as nat) + " ("@ + dec(ws2.len()) + " stream(s); Ctrl+B=resize, Esc=close)"@)
                &&& r matches Some(e) && match key {
                    Some(k) => if before.gateway_connected {
                        e.len() == 1 && (e[0] matches InputEffect::Gateway(GatewayAction::WatchStream { stream_key: sk, user: u })
                            && sk@ == k && u == SnowflakeID(uid))
                    } else {
                        e.len() == 0
                    },
                    None => e.len() == 0,
                }
            },
            None => r == Some(Seq::<InputEffect>::empty()) && status_set(before, after, "usage: /watch <numeric user id> | /watch off"@),
        }
    } else if t == "/call"@ {
        &&& match (before.nav.current_channel, before.nav.current_guild) {
            (Some(c), Some(g)) if before.gateway_connected => {
                &&& r == Some(seq![InputEffect::Gateway(if g.0 == 0 {
                    GatewayAction::JoinDmCall { channel: c }
                } else {
                    GatewayAction::JoinVoice { guild: g, channel: c }
                })])
                &&& status_set(before, after, "calling…"@)
            },
            _ => r == Some(Seq::<InputEffect>::empty()) && status_set(before, after, "open a DM/channel first"@),
        }
    } else {
        r is None && after == before
    }
}

pub(crate) fn set_status_to(state: &mut AppState, text: String)
    ensures
        status_set(*old(state), *final(state), text@),
{
    state.set_status(text);
}

fn contains_id(v: &Vec<SnowflakeID>, id: u64) -> (r: bool)
    ensures
        r == v@.contains(SnowflakeID(id)),
{
    let mut i: usize = 0;
    while i < v.len()
        invariant
            0 <= i <= v.len(),
            forall|j: int| 0 <= j < i ==> v@[j] != SnowflakeID(id),
        decreases v.len() - i,
    {
        if v[i].0 == id {
            assert(v@[i as int] == SnowflakeID(id));
            return true;
        }
        i += 1;
    }
    false
}

pub(crate) fn all_big_exec(state: &AppState) -> (r: bool)
    ensures
        r == all_big(*state),
{
    let v = &state.streams.watching_streams;
    let mut i: usize = 0;
    while i < v.len()
        invariant
            0 <= i <= v.len(),
            v@ == state.streams.watching_streams@,
            forall|j: int| 0 <= j < i ==> state.streams.big_streams@.contains(#[trigger] v@[j].0),
        decreases v.len() - i,
    {
        if !state.streams.big_streams.contains(&v[i].0) {
            return false;
        }
        i += 1;
    }
    true
}

pub(crate) fn enlarge_all(state: &mut AppState)
    ensures
        final(state).streams.big_streams@ == old(state).streams.big_streams@.union(watched_ids(*old(state))),
        *final(state) == (AppState {
            streams: Streams { big_streams: final(state).streams.big_streams, ..old(state).streams },
            ..*old(state)
        }),
{
    let n = state.streams.watching_streams.len();
    let ghost ws = old(state).streams.watching_streams@;
    let mut i: usize = 0;
    while i < n
        invariant
            0 <= i <= n,
            n == ws.len(),
            ws == state.streams.watching_streams@,
            state.streams.big_streams@ == old(state).streams.big_streams@.union(ws.take(i as int).map_values(|x: SnowflakeID| x.0).to_set()),
            *state == (AppState {
                streams: Streams { big_streams: state.streams.big_streams, ..old(state).streams },
                ..*old(state)
            }),
        decreases n - i,
    {
        let u = state.streams.watching_streams[i].0;
        state.streams.big_streams.insert(u);
        assert(ws.take(i + 1).map_values(|x: SnowflakeID| x.0) =~= ws.take(i as int).map_values(|x: SnowflakeID| x.0).push(u));
        assert(state.streams.big_streams@ =~= old(state).streams.big_streams@.union(ws.take(i + 1).map_values(|x: SnowflakeID| x.0).to_set()));
        i += 1;
    }
    assert(ws.take(n as int) =~= ws);
}

/// Runs a slash command typed as `raw` (see [`command_rel`]); gives none when `raw` is no
/// command handled here.
pub fn try_global_command(state: &mut AppState, raw: &str) -> (r: Option<Vec<InputEffect>>)
    requires
        keys_unique(old(state).streams.pending_streams@),
    ensures
        keys_unique(final(state).streams.pending_streams@),
        command_rel(*old(state), *final(state), raw@, match r { Some(v) => Some(v@), None => None }),
{
    let t = trim(raw);
    let t = t.as_str();
    let mut out: Vec<InputEffect> = Vec::new();
    match strip_prefix(t, "/join ") {
        Some(rest) => {
            let code = trim(rest.as_str());
            let mut st = owned("joining ");
            push_str(&mut st, code.as_str());
            push_str(&mut st, "…");
            set_status_to(state, st);
            out.push(InputEffect::AcceptInvite { code });
            return Some(out);
        },
        None => {},
    }
    if crate::state::str_eq(t, "/leave") {
        match state.nav.current_guild {
            Some(g) => {
                if g.0 != 0 {
                    out.push(InputEffect::LeaveGuild { guild: g });
                    return Some(out);
                }
            },
            None => {},
        }
        set_status_to(state, owned("not in a server (select a server channel)"));
        return Some(out);
    }
    match strip_prefix(t, "/dm ") {
        Some(rest) => {
            match parse_u64(trim(rest.as_str()).as_str()) {
                Some(uid) => {
                    out.push(InputEffect::CreateDm { user: SnowflakeID(uid) });
                },
                None => {
                    set_status_to(state, owned("usage: /dm <numeric user id>"));
                },
            }
            return Some(out);
        },
        None => {},
    }
    match strip_prefix(t, "/unwatch ") {
        Some(rest) => {
            match parse_u64(trim(rest.as_str()).as_str()) {
                Some(uid) => {
                    let mut w: Vec<SnowflakeID> = Vec::new();
                    std::mem::swap(&mut w, &mut state.streams.watching_streams);
                    state.streams.watching_streams = without_user(w, uid);
                    state.streams.big_streams.remove(&uid);
                    let mut st = owned("stopped watching ");
                    push_decimal(&mut st, uid);
                    set_status_to(state, st);
                    if state.gateway_connected {
                        out.push(InputEffect::Gateway(GatewayAction::StopOneStream { uid }));
                    }
                },
                None => {
                    set_status_to(state, owned("usage: /unwatch <uid> | /unwatch (all)"));
                },
            }
            return Some(out);
        },
        None => {},
    }
    if crate::state::str_eq(t, "/watch off") || crate::state::str_eq(t, "/unwatch") {
        state.streams.watching_streams = Vec::new();
        state.streams.big_streams.clear();
        set_status_to(state, owned("stream view closed"));
        if state.gateway_connected {
            out.push(InputEffect::Gateway(GatewayAction::StopStream));
        }
        return Some(out);
    }
    if crate::state::str_eq(t, "/stream") {
        set_status_to(state, owned("Go Live: requesting…"));
        if state.gateway_connected {
            out.push(InputEffect::Gateway(GatewayAction::GoLive));
        }
        return Some(out);
    }
    if crate::state::str_eq(t, "/unstream") {
        set_status_to(state, owned("Go Live: stopping"));
        if state.gateway_connected {
            out.push(InputEffect::Gateway(GatewayAction::StopGoLive));
        }
        return Some(out);
    }
    if crate::state::str_eq(t, "/mute") {
        return Some(toggle_voice_state(state, false));
    }
    if crate::state::str_eq(t, "/deafen") {
        return Some(toggle_voice_state(state, true));
    }
    match strip_prefix(t, "/big ") {
        Some(rest) => {
            match parse_u64(trim(rest.as_str()).as_str()) {
                Some(uid) => {
                    let big = if state.streams.big_streams.contains(&uid) {
                        state.streams.big_streams.remove(&uid);
                        false
                    } else {
                        state.streams.big_streams.insert(uid);
                        true
                    };
                    let mut st = owned("stream ");
                    push_decimal(&mut st, uid);
                    push_str(&mut st, if big { ": grand" } else { ": PiP" });
                    set_status_to(state, st);
                },
                None => {
                    set_status_to(state, owned("usage: /big <uid> | /big (all)"));
                },
            }
            return Some(out);
        },
        None => {},
    }
    if crate::state::str_eq(t, "/big") {
        if state.streams.watching_streams.len() == 0 {
            set_status_to(state, owned("no stream to resize"));
        } else {
            let ab = all_big_exec(state);
            if ab {
                state.streams.big_streams.clear();
            } else {
                enlarge_all(state);
            }
            let mut st = owned("stream view: ");
            push_str(&mut st, if ab { "PiP" } else { "grand (tous)" });
            set_status_to(state, st);
        }
        return Some(out);
    }
    match strip_prefix(t, "/watch ") {
        Some(rest) => {
            match parse_u64(trim(rest.as_str()).as_str()) {
                Some(uid) => {
                    if !contains_id(&state.streams.watching_streams, uid) && state.streams.watching_streams.len() < 4 {
                        state.streams.watching_streams.push(SnowflakeID(uid));
                    }
                    let chan = match state.voice.voice_channel {
                        Some(c) => Some(c),
                        None => state.nav.current_channel,
                    };
                    let key: Option<String> = match chan {
                        Some(c) => {
                            let mut k = String::new();
                            let in_guild = match state.nav.current_guild {
                                Some(g) => g.0 != 0,
                                None => false,
                            };
                            if in_guild {
                                push_str(&mut k, "guild:");
                                push_decimal(&mut k, (state.nav.current_guild.unwrap()).0);
                                push_str(&mut k, ":");
                            } else {
                                push_str(&mut k, "call:");
                            }
                            push_decimal(&mut k, c.0);
                            push_str(&mut k, ":");
                            push_decimal(&mut k, uid);
                            Some(k)
                        },
                        None => None,
                    };
                    match &key {
                        Some(k) => {
                            set_pending(&mut state.streams.pending_streams, k.as_str(), PendingStream { uid, token: None, endpoint: None, server: None });
                        },
                        None => {},
                    }
                    let n = state.streams.watching_streams.len();
                    let mut st = owned("watching ");
                    push_decimal(&mut st, uid);
                    push_str(&mut st, " (");
                    push_decimal(&mut st, n as u64);
                    push_str(&mut st, " stream(s); Ctrl+B=resize, Esc=close)");
                    set_status_to(state, st);
                    match key {
                        Some(k) => {
                            if state.gateway_connected {
                                out.push(InputEffect::Gateway(GatewayAction::WatchStream { stream_key: k, user: SnowflakeID(uid) }));
                            }
                        },
                        None => {},
                    }
                },
                None => {
                    set_status_to(state, owned("usage: /watch <numeric user id> | /watch off"));
                },
            }
            return Some(out);
        },
        None => {},
    }
    if crate::state::str_eq(t, "/call") {
        match (state.nav.current_channel, state.nav.current_guild) {
            (Some(c), Some(g)) => {
                if state.gateway_connected {
                    let a = if g.0 == 0 {
                        GatewayAction::JoinDmCall { channel: c }
                    } else {
                        GatewayAction::JoinVoice { guild: g, channel: c }
                    };
                    out.push(InputEffect::Gateway(a));
                    set_status_to(state, owned("calling…"));
                    return Some(out);
                }
            },
            _ => {},
        }
        set_status_to(state, owned("open a DM/channel first"));
        return Some(out);
    }
    None
}

/// Outcome of an invite acceptance: the joined guild's name (or `server`) on the status
/// line, or the error.
pub fn accept_invite_done(state: &mut AppState, outcome: Result<Option<String>, String>)
    ensures
        match outcome {
            Ok(n) => status_set(*old(state), *final(state), "joined "@ + match n { Some(x) => x@, None => "server"@ }),
            Err(e) => status_set(*old(state), *final(state), "join failed: "@ + e@),
        },
{
    match outcome {
        Ok(n) => {
            let mut st = owned("joined ");
            match n {
                Some(x) => push_str(&mut st, x.as_str()),
                None => push_str(&mut st, "server"),
            }
            set_status_to(state, st);
        },
        Err(e) => {
            let mut st = owned("join failed: ");
            push_str(&mut st, e.as_str());
            set_status_to(state, st);
        },
    }
}

/// Outcome of leaving guild `g`: its channel list goes, it is deselected when selected, and
/// the status says so; or the error.
pub fn leave_guild_done(state: &mut AppState, g: SnowflakeID, outcome: Result<(), String>)
    ensures
        match outcome {
            Ok(()) => {
                let mid = AppState {
                    channels_by_guild: final(state).channels_by_guild,
                    nav: if old(state).nav.current_guild == Some(g) {
                        Nav { current_guild: None, current_channel: None, ..old(state).nav }
                    } else {
                        old(state).nav
                    },
                    ..*old(state)
                };
                &&& final(state).channels_by_guild@ == old(state).channels_by_guild@.remove(g.0)
                &&& status_set(mid, *final(state), "left server"@)
            },
            Err(e) => status_set(*old(state), *final(state), "leave failed: "@ + e@),
        },
{
    match outcome {
        Ok(()) => {
            state.channels_by_guild.remove(&g.0);
            if state.nav.current_guild == Some(g) {
                state.nav.current_guild = None;
                state.nav.current_channel = None;
            }
            set_status_to(state, owned("left server"));
        },
        Err(e) => {
            let mut st = owned("leave failed: ");
            push_str(&mut st, e.as_str());
            set_status_to(state, st);
        },
    }
}

/// The DM entry opened with user `rid` as channel `cid` named `name`.
pub open spec fn dm_entry_ok(c: ChannelSummary, cid: u64, name: Seq<char>, rid: SnowflakeID) -> bool {
    &&& c.id == SnowflakeID(cid)
    &&& c.name@ == name
    &&& c.recipient_id == Some(rid)
    &&& c.kind == 1
    &&& c.parent_id is None
    &&& c.position == 0
    &&& c.last_activity == 0
    &&& c.avatar_url is None
}

/// Outcome of opening a DM with user `rid`: the reply's channel id (0 when it does not
/// parse) and name (`DM` when absent); the channel joins the DM list unless listed, is
/// selected with the message pane focused, and the status says so; or the error.
pub fn create_dm_done(state: &mut AppState, rid: SnowflakeID, outcome: Result<(Option<String>, Option<String>), String>)
    ensures
        match outcome {
            Ok((id, n)) => {
                let cid = match id { Some(x) => match parse_u64_spec(x@) { Some(v) => v, None => 0 }, None => 0 };
                let name = match n { Some(x) => x@, None => "DM"@ };
                let dms = chans_of(old(state).channels_by_guild@, 0);
                let mid = AppState {
                    channels_by_guild: final(state).channels_by_guild,
                    nav: Nav { current_guild: Some(SnowflakeID(0)), current_channel: Some(SnowflakeID(cid)), focus: Focus::Messages, ..old(state).nav },
                    ..*old(state)
                };
                &&& final(state).channels_by_guild@ == old(state).channels_by_guild@.insert(0, final(state).channels_by_guild@[0])
                &&& if has_channel(dms, cid) {
                    final(state).channels_by_guild@[0]@ == dms
                } else {
                    &&& final(state).channels_by_guild@[0]@.drop_last() == dms
                    &&& final(state).channels_by_guild@[0]@.len() == dms.len() + 1
                    &&& dm_entry_ok(final(state).channels_by_guild@[0]@.last(), cid, name, rid)
                }
                &&& status_set(mid, *final(state), "DM with "@ + name + " opened"@)
            },
            Err(e) => status_set(*old(state), *final(state), "dm failed: "@ + e@),
        },
{
    match outcome {
        Ok((id, n)) => {
            let cid = match &id {
                Some(x) => match parse_u64(x.as_str()) {
                    Some(v) => v,
                    None => 0,
                },
                None => 0,
            };
            let name = match n {
                Some(x) => x,
                None => owned("DM"),
            };
            let mut dms = match state.channels_by_guild.remove(&0) {
                Some(v) => v,
                None => Vec::new(),
            };
            let ghost d0 = dms@;
            assert(d0 == chans_of(old(state).channels_by_guild@, 0));
            if !channel_in(dms.as_slice(), cid) {
                dms.push(ChannelSummary {
                    id: SnowflakeID(cid),
                    name: name.clone(),
                    recipient_id: Some(rid),
                    kind: 1,
                    parent_id: None,
                    position: 0,
                    last_activity: 0,
                    avatar_url: None,
                });
                assert(dms@.drop_last() =~= d0);
            }
            state.channels_by_guild.insert(0, dms);
            assert(state.channels_by_guild@ =~= old(state).channels_by_guild@.insert(0, state.channels_by_guild@[0]));
            state.nav.current_guild = Some(SnowflakeID(0));
            state.nav.current_channel = Some(SnowflakeID(cid));
            state.nav.focus = Focus::Messages;
            let mut st = owned("DM with ");
            push_str(&mut st, name.as_str());
            push_str(&mut st, " opened");
            set_status_to(state, st);
        },
        Err(e) => {
            let mut st = owned("dm failed: ");
            push_str(&mut st, e.as_str());
            set_status_to(state, st);
        },
    }
}

/// Outcome of a REST request whose success and failure are reported on the status line:
/// `ok_text`, or `err_prefix` followed by the error.
pub fn report_outcome(state: &mut AppState, ok_text: &str, err_prefix: &str, outcome: Result<(), String>)
    ensures
        match outcome {
            Ok(()) => status_set(*old(state), *final(state), ok_text@),
            Err(e) => status_set(*old(state), *final(state), err_prefix@ + e@),
        },
{
    match outcome {
        Ok(()) => set_status_to(state, owned(ok_text)),
        Err(e) => {
            let mut st = owned(err_prefix);
            push_str(&mut st, e.as_str());
            set_status_to(state, st);
        },
    }
}

/// The input line has the form of a slash command handled by [`try_global_command`].
pub open spec fn command_form(raw: Seq<char>) -> bool {
    let t = trim_spec(raw);
    &&& seq_starts_with(trim_start_spec(raw), "/"@)
    &&& {
        ||| seq_starts_with(raw, "/join "@)
        ||| t == "/leave"@
        ||| seq_starts_with(raw, "/dm "@)
        ||| seq_starts_with(raw, "/watch "@)
        ||| t == "/unwatch"@
        ||| seq_starts_with(raw, "/unwatch "@)
        ||| t == "/big"@
        ||| seq_starts_with(raw, "/big "@)
        ||| t == "/stream"@
        ||| t == "/unstream"@
        ||| t == "/mute"@
        ||| t == "/deafen"@
        ||| t == "/call"@
    }
}

/// The entries of the input history by their characters.
pub open spec fn history_view(v: Seq<String>) -> Seq<Seq<char>> {
    v.map_values(|s: String| s@)
}

/// The history after entering `raw`: appended unless it repeats the last entry, the oldest
/// entry dropped past 200.
pub open spec fn history_after(h: Seq<Seq<char>>, raw: Seq<char>) -> Seq<Seq<char>> {
    if h.len() > 0 && h.last() == raw {
        h
    } else {
        let h2 = h.push(raw);
        if h2.len() > 200 { h2.drop_first() } else { h2 }
    }
}

/// The nonce of a message sent at `now_ms`: the time shifted into the upper bits of a
/// snowflake.
pub open spec fn nonce_at(now_ms: u64) -> u64 {
    (now_ms << 22u64) as u64
}

/// The state and effects of sending the input line `before.compose.input` from state
/// `before` (history already updated), when it is no command: with no channel selected the
/// status says so; otherwise the line is emptied, editing and answering end, and the line
/// becomes an edit of the message being edited, an upload of the file named after
/// `/upload `, or a new message answering the message being answered.
pub open spec fn message_sent(before: AppState, after: AppState, now_ms: u64, r: Seq<InputEffect>) -> bool {
    let raw = before.compose.input@;
    match before.nav.current_channel {
        None => status_set(before, after, "no channel selected"@) && r.len() == 0,
        Some(cid) => {
            let mid = AppState {
                compose: Compose { input: after.compose.input, editing_message: None, replying_to: None, ..before.compose },
                ..before
            };
            &&& after.compose.input@.len() == 0
            &&& match before.compose.editing_message {
                Some(mid_id) => {
                    &&& after == mid
                    &&& r.len() == 1
                    &&& (r[0] matches InputEffect::EditMessage { channel: c, message: m, content: x } && c == cid && m == mid_id && x@ == raw)
                },
                None => match strip(raw, "/upload "@) {
                    Some(p) => {
                        &&& status_set(mid, after, "uploading "@ + trim_spec(p) + "…"@)
                        &&& r.len() == 1
                        &&& (r[0] matches InputEffect::UploadFile { channel: c, path: x, nonce: n } && c == cid && x@ == trim_spec(p) && n == nonce_at(now_ms))
                    },
                    None => {
                        &&& after == mid
                        &&& r.len() == 1
                        &&& (r[0] matches InputEffect::SendMessage { channel: c, content: x, nonce: n, reply_to: rt }
                            && c == cid && x@ == raw && n == nonce_at(now_ms) && rt == before.compose.replying_to)
                    },
                },
            }
        },
    }
}

/// The trimmed text is a slash command handled by [`try_global_command`].
pub open spec fn is_command(raw: Seq<char>) -> bool {
    let t = trim_spec(raw);
    ||| strip(t, "/join "@) is Some
    ||| t == "/leave"@
    ||| strip(t, "/dm "@) is Some
    ||| strip(t, "/unwatch "@) is Some
    ||| t == "/watch off"@
    ||| t == "/unwatch"@
    ||| t == "/stream"@
    ||| t == "/unstream"@
    ||| t == "/mute"@
    ||| t == "/deafen"@
    ||| strip(t, "/big "@) is Some
    ||| t == "/big"@
    ||| strip(t, "/watch "@) is Some
    ||| t == "/call"@
}

/// The state and effects after Enter in the input line: a blank line does nothing; else the
/// line enters the history (see [`history_after`]), then runs as a slash command when it
/// has the form of one (see [`command_form`], [`command_rel`]), the line being emptied, or
/// is sent (see [`message_sent`]).
pub open spec fn input_sent(before: AppState, after: AppState, now_ms: u64, r: Seq<InputEffect>) -> bool {
    let raw = before.compose.input@;
    if trim_spec(raw).len() == 0 {
        after == before && r.len() == 0
    } else {
        let s1 = AppState {
            compose: Compose { input_history: after.compose.input_history, history_pos: None, ..before.compose },
            ..before
        };
        &&& history_view(after.compose.input_history@) == history_after(history_view(before.compose.input_history@), raw)
        &&& if command_form(raw) && is_command(raw) {
            &&& command_rel(s1, AppState { compose: s1.compose, ..after }, raw, Some(r))
            &&& after.compose == (Compose { input: after.compose.input, ..s1.compose })
            &&& after.compose.input@.len() == 0
        } else {
            message_sent(s1, after, now_ms, r)
        }
    }
}

proof fn lemma_command_none(before: AppState, after: AppState, raw: Seq<char>, r: Option<Seq<InputEffect>>)
    requires
        command_rel(before, after, raw, r),
    ensures
        r is None <==> !is_command(raw),
        r is None ==> after == before,
{
}

fn command_form_exec(raw: &str) -> (r: bool)
    requires
        trim_spec(raw@).len() > 0,
    ensures
        r == command_form(raw@),
{
    let t = trim(raw);
    let tc = chars_of(t.as_str());
    proof {
        reveal_strlit("/");
        let ts = trim_start_spec(raw@);
        let k = ts.len() - trail_ws(ts);
        lemma_trail_ws_bound(ts);
        assert(trim_spec(raw@) == ts.take(k));
        assert(trim_spec(raw@)[0] == ts[0]);
        assert(ts.len() >= 1);
        assert(seq_starts_with(ts, "/"@) <==> ts[0] == '/') by {
            if ts[0] == '/' {
                assert(ts.subrange(0, 1) =~= "/"@);
            }
            if seq_starts_with(ts, "/"@) {
                assert(ts.subrange(0, 1)[0] == ts[0]);
            }
        }
    }
    let slash = tc[0] == '/';
    let ts = t.as_str();
    slash && (starts_with(raw, "/join ") || crate::state::str_eq(ts, "/leave") || starts_with(raw, "/dm ")
        || starts_with(raw, "/watch ") || crate::state::str_eq(ts, "/unwatch") || starts_with(raw, "/unwatch ")
        || crate::state::str_eq(ts, "/big") || starts_with(raw, "/big ") || crate::state::str_eq(ts, "/stream")
        || crate::state::str_eq(ts, "/unstream") || crate::state::str_eq(ts, "/mute") || crate::state::str_eq(ts, "/deafen")
        || crate::state::str_eq(ts, "/call"))
}

fn send_message_part(state: &mut AppState, now_ms: u64) -> (r: Vec<InputEffect>)
    ensures
        message_sent(*old(state), *final(state), now_ms, r@),
{
    let mut out: Vec<InputEffect> = Vec::new();
    let cid = match state.nav.current_channel {
        Some(c) => c,
        None => {
            set_status_to(state, owned("no channel selected"));
            return out;
        },
    };
    let mut body = String::new();
    std::mem::swap(&mut body, &mut state.compose.input);
    let editing = state.compose.editing_message.take();
    let reply_to = state.compose.replying_to.take();
    match editing {
        Some(mid) => {
            out.push(InputEffect::EditMessage { channel: cid, message: mid, content: body });
            return out;
        },
        None => {},
    }
    let nonce: u64 = now_ms << 22u64;
    match strip_prefix(body.as_str(), "/upload ") {
        Some(p) => {
            let path = trim(p.as_str());
            let mut st = owned("uploading ");
            push_str(&mut st, path.as_str());
            push_str(&mut st, "…");
            set_status_to(state, st);
            out.push(InputEffect::UploadFile { channel: cid, path, nonce });
        },
        None => {
            out.push(InputEffect::SendMessage { channel: cid, content: body, nonce, reply_to });
        },
    }
    out
}

/// Sends the input line (see [`input_sent`]).
pub fn send_input(state: &mut AppState, now_ms: u64) -> (r: Vec<InputEffect>)
    requires
        keys_unique(old(state).streams.pending_streams@),
    ensures
        keys_unique(final(state).streams.pending_streams@),
        input_sent(*old(state), *final(state), now_ms, r@),
{
    let raw = state.compose.input.clone();
    if trim(raw.as_str()).as_str().is_empty() {
        return Vec::new();
    }
    let n = state.compose.input_history.len();
    let same = n > 0 && crate::state::str_eq(state.compose.input_history[n - 1].as_str(), raw.as_str());
    let ghost h0 = state.compose.input_history@;
    if !same {
        state.compose.input_history.push(raw.clone());
        assert(history_view(state.compose.input_history@) =~= history_view(h0).push(raw@));
        if state.compose.input_history.len() > 200 {
            let ghost h1 = state.compose.input_history@;
            state.compose.input_history.remove(0);
            assert(history_view(state.compose.input_history@) =~= history_view(h1).drop_first());
        }
    } else {
        assert(history_view(h0).last() == h0[n - 1]@);
    }
    state.compose.history_pos = None;
    let ghost s1 = *state;
    if command_form_exec(raw.as_str()) {
        match try_global_command(state, raw.as_str()) {
            Some(e) => {
                state.compose.input = String::new();
                return e;
            },
            None => {
                proof {
                    lemma_command_none(s1, *state, raw@, None);
                }
            },
        }
    }
    send_message_part(state, now_ms)
}

/// A digit's character reads back as the digit.
proof fn lemma_digit_round(d: nat)
    requires
        d < 10,
    ensures
        crate::decimal::digit_value(crate::decimal::digit_char(d)) == d,
        crate::decimal::is_digit(crate::decimal::digit_char(d)),
{
}

/// The decimal text of a number is all digits, not empty, and spells the number.
pub proof fn lemma_dec_digits(n: nat)
    ensures
        dec(n).len() > 0,
        crate::decimal::all_digits(dec(n)),
        crate::decimal::digits_value(dec(n)) == n,
    decreases n,
{
    reveal_with_fuel(dec, 2);
    lemma_digit_round(n % 10);
    if n < 10 {
        assert(dec(n).drop_last() =~= Seq::<char>::empty());
        assert(dec(n).last() == crate::decimal::digit_char(n));
        assert(crate::decimal::digits_value(dec(n).drop_last()) == 0);
    } else {
        lemma_dec_digits(n / 10);
        let d = dec(n);
        assert(d.drop_last() == dec(n / 10));
        assert(d.last() == crate::decimal::digit_char(n % 10));
        assert((n / 10) * 10 + n % 10 == n) by (nonlinear_arith);
        assert forall|i: int| 0 <= i < d.len() implies crate::decimal::is_digit(#[trigger] d[i]) by {
            if i < d.len() - 1 {
                assert(d[i] == dec(n / 10)[i]);
            }
        }
    }
}

/// The decimal text of a 64-bit number parses back to it.
pub proof fn lemma_dec_parses(n: u64)
    ensures
        parse_u64_spec(dec(n as nat)) == Some(n),
        trim_spec(dec(n as nat)) == dec(n as nat),
{
    lemma_dec_digits(n as nat);
    let d = dec(n as nat);
    assert(crate::decimal::is_digit(d[0]));
    assert(crate::decimal::is_digit(d.last()));
    lemma_trim_plain(d);
}

/// Text that starts and ends with a character other than white space is its own trim.
pub proof fn lemma_trim_plain(s: Seq<char>)
    requires
        s.len() > 0,
        !is_ws(s[0]),
        !is_ws(s.last()),
    ensures
        trim_spec(s) == s,
{
    assert(crate::text::lead_ws(s) == 0);
    assert(trim_start_spec(s) =~= s);
    assert(trail_ws(s) == 0);
    assert(s.take(s.len() as int) =~= s);
}

/// A command `/<word> <number>` is its own trim, and what follows its prefix is the
/// number's text.
#[verifier::rlimit(40)]
proof fn lemma_command_arg(prefix: Seq<char>, n: u64)
    requires
        prefix.len() > 0,
        !is_ws(prefix[0]),
    ensures
        trim_spec(prefix + dec(n as nat)) == prefix + dec(n as nat),
        strip(prefix + dec(n as nat), prefix) == Some(dec(n as nat)),
        arg_id(dec(n as nat)) == Some(n),
{
    lemma_dec_parses(n);
    lemma_dec_digits(n as nat);
    let d = dec(n as nat);
    let t = prefix + d;
    assert(t[0] == prefix[0]);
    assert(t.last() == d[d.len() - 1]);
    assert(crate::decimal::is_digit(d[d.len() - 1]));
    lemma_trim_plain(t);
    assert(t.take(prefix.len() as int) =~= prefix);
    assert(t.skip(prefix.len() as int) =~= d);
    assert(trim_spec(d) == d);
}

/// `/watch N` keeps the watch list free of repeats and at most four long: the stream is
/// added when it is not watched yet and fewer than four are.
pub proof fn law_watch_list_bounded(before: AppState, after: AppState, n: u64, r: Option<Seq<InputEffect>>)
    requires
        before.streams.watching_streams@.no_duplicates(),
        before.streams.watching_streams@.len() <= 4,
        command_rel(before, after, "/watch "@ + dec(n as nat), r),
    ensures
        r is Some,
        after.streams.watching_streams@ == (if !before.streams.watching_streams@.contains(SnowflakeID(n))
            && before.streams.watching_streams@.len() < 4 {
            before.streams.watching_streams@.push(SnowflakeID(n))
        } else {
            before.streams.watching_streams@
        }),
        after.streams.watching_streams@.no_duplicates(),
        after.streams.watching_streams@.len() <= 4,
{
    reveal_strlit("/watch ");
    reveal_strlit("/join ");
    reveal_strlit("/leave");
    reveal_strlit("/dm ");
    reveal_strlit("/unwatch ");
    reveal_strlit("/watch off");
    reveal_strlit("/unwatch");
    reveal_strlit("/stream");
    reveal_strlit("/unstream");
    reveal_strlit("/mute");
    reveal_strlit("/deafen");
    reveal_strlit("/big ");
    reveal_strlit("/big");
    reveal_strlit("/call");
    let p = "/watch "@;
    lemma_command_arg(p, n);
    let t = p + dec(n as nat);
    lemma_dec_digits(n as nat);
    assert(t[1] == 'w' && t[2] == 'a' && t[0] == '/');
    assert(crate::decimal::is_digit(t[7]));
    assert(!seq_starts_with(t, "/join "@)) by { assert(t[1] != "/join "@[1]); }
    assert(t != "/leave"@) by { assert(t[1] != "/leave"@[1]); }
    assert(!seq_starts_with(t, "/dm "@)) by { assert(t[1] != "/dm "@[1]); }
    assert(!seq_starts_with(t, "/unwatch "@)) by { assert(t[1] != "/unwatch "@[1]); }
    assert(t != "/watch off"@) by { assert(t[7] != "/watch off"@[7]); }
    assert(t != "/unwatch"@) by { assert(t[1] != "/unwatch"@[1]); }
    assert(t != "/stream"@) by { assert(t[1] != "/stream"@[1]); }
    assert(t != "/unstream"@) by { assert(t[1] != "/unstream"@[1]); }
    assert(t != "/mute"@) by { assert(t[1] != "/mute"@[1]); }
    assert(t != "/deafen"@) by { assert(t[1] != "/deafen"@[1]); }
    assert(!seq_starts_with(t, "/big "@)) by { assert(t[1] != "/big "@[1]); }
    assert(t != "/big"@) by { assert(t[1] != "/big"@[1]); }
    let ws = before.streams.watching_streams@;
    if !ws.contains(SnowflakeID(n)) && ws.len() < 4 {
        let w2 = ws.push(SnowflakeID(n));
        assert forall|i: int, j: int| 0 <= i < w2.len() && 0 <= j < w2.len() && i != j implies w2[i] != w2[j] by {
            if i < ws.len() && j < ws.len() {
            } else if i == ws.len() {
                assert(ws.contains(w2[j]) || j == ws.len());
            } else {
                assert(ws.contains(w2[i]));
            }
        }
    }
}

/// `/big N` twice leaves the set of enlarged streams as it was: the first call enlarges the
/// stream or shrinks it back, the second undoes that.
pub proof fn law_big_toggle_twice(s0: AppState, s1: AppState, s2: AppState, n: u64, r1: Option<Seq<InputEffect>>, r2: Option<Seq<InputEffect>>)
    requires
        command_rel(s0, s1, "/big "@ + dec(n as nat), r1),
        command_rel(s1, s2, "/big "@ + dec(n as nat), r2),
    ensures
        s1.streams.big_streams@ == (if s0.streams.big_streams@.contains(n) {
            s0.streams.big_streams@.remove(n)
        } else {
            s0.streams.big_streams@.insert(n)
        }),
        s2.streams.big_streams@ == s0.streams.big_streams@,
{
    reveal_strlit("/join ");
    reveal_strlit("/leave");
    reveal_strlit("/dm ");
    reveal_strlit("/unwatch ");
    reveal_strlit("/watch off");
    reveal_strlit("/unwatch");
    reveal_strlit("/stream");
    reveal_strlit("/unstream");
    reveal_strlit("/mute");
    reveal_strlit("/deafen");
    reveal_strlit("/big ");
    let p = "/big "@;
    lemma_command_arg(p, n);
    let t = p + dec(n as nat);
    lemma_dec_digits(n as nat);
    assert(t[1] == 'b' && t[0] == '/');
    assert(!seq_starts_with(t, "/join "@)) by { assert(t[1] != "/join "@[1]); }
    assert(t != "/leave"@) by { assert(t[1] != "/leave"@[1]); }
    assert(!seq_starts_with(t, "/dm "@)) by { assert(t[1] != "/dm "@[1]); }
    assert(!seq_starts_with(t, "/unwatch "@)) by { assert(t[1] != "/unwatch "@[1]); }
    assert(t != "/watch off"@) by { assert(t[1] != "/watch off"@[1]); }
    assert(t != "/unwatch"@) by { assert(t[1] != "/unwatch"@[1]); }
    assert(t != "/stream"@) by { assert(t[1] != "/stream"@[1]); }
    assert(t != "/unstream"@) by { assert(t[1] != "/unstream"@[1]); }
    assert(t != "/mute"@) by { assert(t[1] != "/mute"@[1]); }
    assert(t != "/deafen"@) by { assert(t[1] != "/deafen"@[1]); }
    let b0 = s0.streams.big_streams@;
    if b0.contains(n) {
        assert(b0.remove(n).insert(n) =~= b0);
    } else {
        assert(b0.insert(n).remove(n) =~= b0);
    }
}

/// No entry of `h` repeats the one before it.
pub open spec fn no_adjacent_repeats(h: Seq<Seq<char>>) -> bool {
    forall|i: int| 0 <= i < h.len() - 1 ==> #[trigger] h[i] != h[i + 1]
}

/// Entering lines keeps the input history at most 200 long with no entry repeating the one
/// before it, and ends it with the line entered (a blank line leaves everything as it was).
pub proof fn law_history_bounded(before: AppState, after: AppState, now_ms: u64, r: Seq<InputEffect>)
    requires
        input_sent(before, after, now_ms, r),
        before.compose.input_history@.len() <= 200,
        no_adjacent_repeats(history_view(before.compose.input_history@)),
    ensures
        after.compose.input_history@.len() <= 200,
        no_adjacent_repeats(history_view(after.compose.input_history@)),
        trim_spec(before.compose.input@).len() > 0 ==>
            history_view(after.compose.input_history@).last() == before.compose.input@,
{
    let h = history_view(before.compose.input_history@);
    let raw = before.compose.input@;
    if trim_spec(raw).len() > 0 {
        let h2 = history_view(after.compose.input_history@);
        assert(h2.len() == after.compose.input_history@.len());
        if !(h.len() > 0 && h.last() == raw) {
            let p = h.push(raw);
            assert forall|i: int| 0 <= i < p.len() - 1 implies #[trigger] p[i] != p[i + 1] by {
                if i < h.len() - 1 {
                    assert(p[i] == h[i] && p[i + 1] == h[i + 1]);
                } else {
                    assert(p[i] == h.last() && p[i + 1] == raw);
                }
            }
            if p.len() > 200 {
                let q = p.drop_first();
                assert forall|i: int| 0 <= i < q.len() - 1 implies #[trigger] q[i] != q[i + 1] by {
                    assert(q[i] == p[i + 1] && q[i + 1] == p[i + 2]);
                }
            }
        }
    }
}

} // verus!
