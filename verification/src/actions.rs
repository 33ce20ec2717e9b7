use vstd::prelude::*;
use crate::appstate::{AppState, Nav, Streams, Voice, keys_of};
use crate::decimal::{dec, push_decimal, u64_to_string};
use crate::events::{first_pos, lemma_first_pos, lemma_first_pos_at};
use crate::gateway::GatewayAction;
use crate::snowflake::SnowflakeID;
use crate::state::PendingStream;
use crate::streams::{entry_of, find_pending, keys_unique, pending_entry, pending_pos, pending_updated, set_pending};
use crate::text::{owned, push_str};

verus! {

broadcast use {vstd::std_specs::hash::group_hash_axioms, vstd::seq_lib::group_seq_properties};

/// What the gateway task sends or does after an interface request: gateway commands (ids
/// in decimal) and disconnections of running voice and stream connections.
#[derive(Clone, Debug)]
pub enum GatewayOut {
    ForceJoinVocal { guild: String, channel: String },
    JoinDmCall { channel: String },
    LeaveVocal { guild: String },
    DisconnectVoice,
    RequestGuildMembers { guild: String },
    WatchStream { stream_key: String },
    StopWatchingStream { stream_key: String },
    DisconnectStream { uid: u64 },
    CreateStream { guild: Option<String>, channel: String },
    DeleteStream { stream_key: String },
    DisconnectGolive,
    SetVoiceState { guild: Option<String>, channel: String, mute: bool, deaf: bool },
}

/// The guild of the current call in decimal, unless it is the DM pseudo-guild.
pub open spec fn call_guild_text(s: AppState) -> Option<Seq<char>> {
    match s.voice.joining_voice_guild {
        Some(g) if g.0 != 0 => Some(dec(g.0 as nat)),
        _ => None,
    }
}

fn call_guild_string(s: &AppState) -> (r: Option<String>)
    ensures
        match r {
            Some(x) => call_guild_text(*s) == Some(x@),
            None => call_guild_text(*s) is None,
        },
{
    match s.voice.joining_voice_guild {
        Some(g) => if g.0 != 0 { Some(u64_to_string(g.0)) } else { None },
        None => None,
    }
}

/// The key under which the own stream is broadcast: `guild:G:C:U` in a guild, `call:C:U`
/// in a call.
pub open spec fn golive_key_text(guild: Option<Seq<char>>, c: Seq<char>, u: Seq<char>) -> Seq<char> {
    match guild {
        Some(g) => "guild:"@ + g + ":"@ + c + ":"@ + u,
        None => "call:"@ + c + ":"@ + u,
    }
}

/// The stream keys of `v`, in order.
pub open spec fn stream_keys(v: Seq<(String, PendingStream)>) -> Seq<Seq<char>> {
    v.map_values(|e: (String, PendingStream)| e.0@)
}

/// The keys of the streams being set up, in order (the gateway pings each periodically).
pub fn stream_ping_keys(state: &AppState) -> (r: Vec<String>)
    ensures
        r@.map_values(|k: String| k@) == stream_keys(state.streams.pending_streams@),
{
    let v = &state.streams.pending_streams;
    let mut out: Vec<String> = Vec::new();
    let mut i: usize = 0;
    while i < v.len()
        invariant
            0 <= i <= v.len(),
            out@.map_values(|k: String| k@) == stream_keys(v@.take(i as int)),
        decreases v.len() - i,
    {
        let ghost before = out@;
        out.push(v[i].0.clone());
        assert(out@.map_values(|k: String| k@) =~= before.map_values(|k: String| k@).push(v@[i as int].0@));
        assert(stream_keys(v@.take(i + 1)) =~= stream_keys(v@.take(i as int)).push(v@[i as int].0@));
        i += 1;
    }
    assert(v@.take(v.len() as int) =~= v@);
    out
}

/// Holds for the stream entry of user `uid`.
pub open spec fn uid_is(uid: u64) -> spec_fn((String, PendingStream)) -> bool {
    |e: (String, PendingStream)| e.1.uid == uid
}

fn find_uid(v: &Vec<(String, PendingStream)>, uid: u64) -> (r: Option<usize>)
    ensures
        match r {
            Some(i) => i < v.len() && i as int == first_pos(v@, uid_is(uid)),
            None => first_pos(v@, uid_is(uid)) == -1,
        },
{
    let mut i: usize = 0;
    while i < v.len()
        invariant
            0 <= i <= v.len(),
            forall|j: int| 0 <= j < i ==> !(uid_is(uid))(v@[j]),
        decreases v.len() - i,
    {
        if v[i].1.uid == uid {
            proof {
                lemma_first_pos_at(v@, uid_is(uid), i as int);
            }
            return Some(i);
        }
        i += 1;
    }
    proof {
        lemma_first_pos(v@, uid_is(uid));
    }
    None
}

/// Removing an entry keeps the keys unique.
proof fn lemma_remove_unique(v: Seq<(String, PendingStream)>, i: int)
    requires
        keys_unique(v),
        0 <= i < v.len(),
    ensures
        keys_unique(v.remove(i)),
{
    let w = v.remove(i);
    assert forall|a: int, b: int| 0 <= a < b < w.len() implies w[a].0@ != w[b].0@ by {
        let a0 = if a < i { a } else { a + 1 };
        let b0 = if b < i { b } else { b + 1 };
        assert(w[a] == v[a0]);
        assert(w[b] == v[b0]);
    }
}

/// `r` and `after` are what [`handle_action`] gives and leaves for request `a` on `before`.
pub open spec fn action_rel(before: AppState, after: AppState, a: GatewayAction, r: Seq<GatewayOut>) -> bool {
    match a {
        GatewayAction::JoinVoice { guild, channel } => {
            &&& after.voice == (Voice {
                joining_voice_token: None,
                joining_voice_endpoint: None,
                joining_voice_session: None,
                joining_voice_guild: Some(guild),
                voice_status: after.voice.voice_status,
                ..before.voice
            })
            &&& after.voice.voice_status@ == "joining voice "@ + dec(channel.0 as nat) + "…"@
            &&& after == (AppState { voice: after.voice, ..before })
            &&& r.len() == 1
            &&& r[0] matches GatewayOut::ForceJoinVocal { guild: g, channel: c } && g@ == dec(guild.0 as nat) && c@ == dec(channel.0 as nat)
        },
        GatewayAction::JoinDmCall { channel } => {
            &&& after.voice == (Voice {
                joining_voice_token: None,
                joining_voice_endpoint: None,
                joining_voice_session: None,
                joining_voice_guild: None,
                voice_channel: Some(channel),
                voice_status: after.voice.voice_status,
                ..before.voice
            })
            &&& after.voice.voice_status@ == "calling DM "@ + dec(channel.0 as nat) + "…"@
            &&& after == (AppState { voice: after.voice, ..before })
            &&& r.len() == 1
            &&& r[0] matches GatewayOut::JoinDmCall { channel: c } && c@ == dec(channel.0 as nat)
        },
        GatewayAction::LeaveVoice { guild } => {
            &&& after.voice == (Voice {
                voice_channel: None,
                voice_running: false,
                voice_status: after.voice.voice_status,
                ..before.voice
            })
            &&& after.voice.voice_status@ == "left voice"@
            &&& after == (AppState { voice: after.voice, ..before })
            &&& r.len() == (if before.voice.voice_running { 2int } else { 1int })
            &&& r[0] matches GatewayOut::LeaveVocal { guild: g } && g@ == dec(guild.0 as nat)
            &&& before.voice.voice_running ==> r[1] == GatewayOut::DisconnectVoice
        },
        GatewayAction::RequestMembers { guild } => {
            &&& after == before
            &&& r.len() == 1
            &&& r[0] matches GatewayOut::RequestGuildMembers { guild: g } && g@ == dec(guild.0 as nat)
        },
        GatewayAction::WatchStream { stream_key, user } => {
            &&& pending_updated(
                before.streams.pending_streams@,
                after.streams.pending_streams@,
                stream_key@,
                PendingStream { uid: user.0, ..pending_entry(before.streams.pending_streams@, stream_key@) },
            )
            &&& after.streams == (Streams { pending_streams: after.streams.pending_streams, ..before.streams })
            &&& after.voice == (Voice { voice_status: after.voice.voice_status, ..before.voice })
            &&& after.voice.voice_status@ == "requesting stream "@ + stream_key@ + "…"@
            &&& after == (AppState { streams: after.streams, voice: after.voice, ..before })
            &&& r == seq![GatewayOut::WatchStream { stream_key }]
        },
        GatewayAction::StopStream => {
            let keys = stream_keys(before.streams.pending_streams@);
            let n = keys.len();
            &&& after.streams.pending_streams@.len() == 0
            &&& after.streams.stream_conns@ == Set::<u64>::empty()
            &&& after.streams == (Streams {
                pending_streams: after.streams.pending_streams,
                stream_conns: after.streams.stream_conns,
                ..before.streams
            })
            &&& after == (AppState { streams: after.streams, ..before })
            &&& r.len() == n + before.streams.stream_conns@.len()
            &&& forall|i: int| 0 <= i < n ==> ((#[trigger] r[i]) matches GatewayOut::StopWatchingStream { stream_key: k } && k@ == keys[i])
            &&& forall|i: int| n <= i < r.len() ==> (#[trigger] r[i]) is DisconnectStream
            &&& forall|u: u64| before.streams.stream_conns@.contains(u) <==> exists|i: int| n <= i < r.len() && #[trigger] r[i] == (GatewayOut::DisconnectStream { uid: u })
        },
        GatewayAction::StopOneStream { uid } => {
            let p = first_pos(before.streams.pending_streams@, uid_is(uid));
            let had = before.streams.stream_conns@.contains(uid);
            &&& after.streams.pending_streams@ == (if p >= 0 { before.streams.pending_streams@.remove(p) } else { before.streams.pending_streams@ })
            &&& after.streams.stream_conns@ == before.streams.stream_conns@.remove(uid)
            &&& after.streams == (Streams {
                pending_streams: after.streams.pending_streams,
                stream_conns: after.streams.stream_conns,
                ..before.streams
            })
            &&& after == (AppState { streams: after.streams, ..before })
            &&& r.len() == (if p >= 0 { 1int } else { 0int }) + (if had { 1int } else { 0int })
            &&& p >= 0 ==> (r[0] matches GatewayOut::StopWatchingStream { stream_key: k } && k == before.streams.pending_streams@[p].0)
            &&& had ==> r.last() == (GatewayOut::DisconnectStream { uid })
        },
        GatewayAction::GoLive => {
            match (before.voice.voice_channel, before.people.my_user_id) {
                (Some(c), Some(u)) => {
                    let key = golive_key_text(call_guild_text(before), dec(c.0 as nat), dec(u.0 as nat));
                    &&& after.streams.golive_key matches Some(k) && k@ == key
                    &&& pending_updated(
                        before.streams.pending_streams@,
                        after.streams.pending_streams@,
                        key,
                        PendingStream { uid: u.0, ..pending_entry(before.streams.pending_streams@, key) },
                    )
                    &&& after.streams == (Streams {
                        golive_key: after.streams.golive_key,
                        pending_streams: after.streams.pending_streams,
                        ..before.streams
                    })
                    &&& after == (AppState { streams: after.streams, ..before })
                    &&& r.len() == 1
                    &&& r[0] matches GatewayOut::CreateStream { guild: g, channel: ch }
                        && ch@ == dec(c.0 as nat) && (match g { Some(x) => Some(x@), None => None }) == call_guild_text(before)
                },
                _ => {
                    &&& after.nav == (Nav { status_line: after.nav.status_line, ..before.nav })
                    &&& after.nav.status_line@ == "join a voice channel first"@
                    &&& after == (AppState { nav: after.nav, ..before })
                    &&& r.len() == 0
                },
            }
        },
        GatewayAction::StopGoLive => {
            &&& after.streams.golive_key is None
            &&& !after.streams.golive_running
            &&& after.streams.pending_streams@ == (match before.streams.golive_key {
                Some(k) if pending_pos(before.streams.pending_streams@, k@) >= 0 => before.streams.pending_streams@.remove(
                    pending_pos(before.streams.pending_streams@, k@),
                ),
                _ => before.streams.pending_streams@,
            })
            &&& after.streams == (Streams {
                golive_key: None,
                golive_running: false,
                pending_streams: after.streams.pending_streams,
                ..before.streams
            })
            &&& after == (AppState { streams: after.streams, ..before })
            &&& r.len() == (if before.streams.golive_key is Some { 1int } else { 0int }) + (if before.streams.golive_running { 1int } else { 0int })
            &&& (before.streams.golive_key matches Some(k) ==> r[0] == (GatewayOut::DeleteStream { stream_key: k }))
            &&& before.streams.golive_running ==> r.last() == GatewayOut::DisconnectGolive
        },
        GatewayAction::SetVoiceState { mute, deaf } => {
            &&& after == before
            &&& match before.voice.voice_channel {
                Some(c) => r.len() == 1 && (r[0] matches GatewayOut::SetVoiceState { guild: g, channel: ch, mute: m, deaf: d }
                    && ch@ == dec(c.0 as nat) && (match g { Some(x) => Some(x@), None => None }) == call_guild_text(before)
                    && m == mute && d == deaf),
                None => r.len() == 0,
            }
        },
    }
}

/// The elements of a set, each once, in its iteration order.
pub fn set_elems(m: &std::collections::HashSet<u64>) -> (r: Vec<u64>)
    ensures
        r@.to_set() == m@,
        r@.no_duplicates(),
        r@.len() == m@.len(),
{
    let mut out: Vec<u64> = Vec::new();
    for k in it: m.iter()
        invariant
            out@ == it.seq().unref().take(it.index() as int),
            it.index() <= it.seq().len(),
            it.seq().unref().to_set() == m@,
            it.seq().no_duplicates(),
            it.seq().len() == m@.len(),
        ensures
            out@.to_set() == m@,
            out@.no_duplicates(),
            out@.len() == m@.len(),
    {
        out.push(*k);
        proof {
            assert(it.seq().unref().take(it.index() + 1) =~= it.seq().unref().take(it.index() as int).push(*k));
        }
    }
    out
}

/// Carries out an interface request on the state and gives what the gateway task sends or
/// does for it (see [`action_rel`]).
pub fn handle_action(state: &mut AppState, a: GatewayAction) -> (r: Vec<GatewayOut>)
    requires
        keys_unique(old(state).streams.pending_streams@),
    ensures
        keys_unique(final(state).streams.pending_streams@),
        action_rel(*old(state), *final(state), a, r@),
{
    let mut out: Vec<GatewayOut> = Vec::new();
    match a {
        GatewayAction::JoinVoice { guild, channel } => {
            state.voice.joining_voice_token = None;
            state.voice.joining_voice_endpoint = None;
            state.voice.joining_voice_session = None;
            state.voice.joining_voice_guild = Some(guild);
            let mut st = owned("joining voice ");
            push_decimal(&mut st, channel.0);
            push_str(&mut st, "…");
            state.voice.voice_status = st;
            out.push(GatewayOut::ForceJoinVocal { guild: u64_to_string(guild.0), channel: u64_to_string(channel.0) });
        },
        GatewayAction::JoinDmCall { channel } => {
            state.voice.joining_voice_token = None;
            state.voice.joining_voice_endpoint = None;
            state.voice.joining_voice_session = None;
            state.voice.joining_voice_guild = None;
            state.voice.voice_channel = Some(channel);
            let mut st = owned("calling DM ");
            push_decimal(&mut st, channel.0);
            push_str(&mut st, "…");
            state.voice.voice_status = st;
            out.push(GatewayOut::JoinDmCall { channel: u64_to_string(channel.0) });
        },
        GatewayAction::LeaveVoice { guild } => {
            out.push(GatewayOut::LeaveVocal { guild: u64_to_string(guild.0) });
            state.voice.voice_channel = None;
            state.voice.voice_status = owned("left voice");
            if state.voice.voice_running {
                state.voice.voice_running = false;
                out.push(GatewayOut::DisconnectVoice);
            }
        },
        GatewayAction::RequestMembers { guild } => {
            out.push(GatewayOut::RequestGuildMembers { guild: u64_to_string(guild.0) });
        },
        GatewayAction::WatchStream { stream_key, user } => {
            let e = entry_of(&state.streams.pending_streams, stream_key.as_str());
            set_pending(&mut state.streams.pending_streams, stream_key.as_str(), PendingStream { uid: user.0, ..e });
            let mut st = owned("requesting stream ");
            push_str(&mut st, stream_key.as_str());
            push_str(&mut st, "…");
            state.voice.voice_status = st;
            out.push(GatewayOut::WatchStream { stream_key });
        },
        GatewayAction::StopStream => {
            let keys = stream_ping_keys(state);
            let conns = set_elems(&state.streams.stream_conns);
            state.streams.stream_conns.clear();
            state.streams.pending_streams = Vec::new();
            let ghost n = keys@.len();
            let mut i: usize = 0;
            for k in it: keys.into_iter()
                invariant
                    out@.len() == it.index(),
                    it.seq() == keys@,
                    forall|j: int| 0 <= j < it.index() ==> ((#[trigger] out@[j]) matches GatewayOut::StopWatchingStream { stream_key: kk } && kk == keys@[j]),
            {
                out.push(GatewayOut::StopWatchingStream { stream_key: k });
            }
            let mut j: usize = 0;
            while j < conns.len()
                invariant
                    0 <= j <= conns.len(),
                    out@.len() == keys@.len() + j,
                    forall|q: int| 0 <= q < keys@.len() ==> ((#[trigger] out@[q]) matches GatewayOut::StopWatchingStream { stream_key: kk } && kk == keys@[q]),
                    forall|q: int| 0 <= q < j ==> out@[keys@.len() + q] == (GatewayOut::DisconnectStream { uid: conns@[q] }),
                decreases conns.len() - j,
            {
                out.push(GatewayOut::DisconnectStream { uid: conns[j] });
                j += 1;
            }
            proof {
                assert(stream_keys(old(state).streams.pending_streams@) == keys@.map_values(|k: String| k@));
                assert forall|u: u64| old(state).streams.stream_conns@.contains(u) implies exists|q: int|
                    keys@.len() <= q < out@.len() && #[trigger] out@[q] == (GatewayOut::DisconnectStream { uid: u }) by {
                    assert(conns@.to_set().contains(u));
                    let q = choose|q: int| 0 <= q < conns@.len() && conns@[q] == u;
                    assert(out@[keys@.len() + q] == (GatewayOut::DisconnectStream { uid: u }));
                }
                assert forall|q: int| keys@.len() <= q < out@.len() implies (#[trigger] out@[q]) is DisconnectStream by {
                    assert(out@[keys@.len() + (q - keys@.len())] == (GatewayOut::DisconnectStream { uid: conns@[q - keys@.len()] }));
                }
                assert forall|u: u64| (exists|q: int| keys@.len() <= q < out@.len() && #[trigger] out@[q] == (GatewayOut::DisconnectStream { uid: u }))
                    implies old(state).streams.stream_conns@.contains(u) by {
                    let q = choose|q: int| keys@.len() <= q < out@.len() && #[trigger] out@[q] == (GatewayOut::DisconnectStream { uid: u });
                    assert(out@[keys@.len() + (q - keys@.len())] == (GatewayOut::DisconnectStream { uid: conns@[q - keys@.len()] }));
                    assert(conns@.to_set().contains(conns@[q - keys@.len()]));
                }
                assert forall|q: int| 0 <= q < keys@.len() implies (#[trigger] out@[q]) matches GatewayOut::StopWatchingStream { stream_key: kk }
                    && kk@ == stream_keys(old(state).streams.pending_streams@)[q] by {
                    assert(stream_keys(old(state).streams.pending_streams@)[q] == keys@[q]@);
                }
            }
        },
        GatewayAction::StopOneStream { uid } => {
            match find_uid(&state.streams.pending_streams, uid) {
                Some(i) => {
                    proof {
                        lemma_remove_unique(state.streams.pending_streams@, i as int);
                    }
                    let (k, _) = state.streams.pending_streams.remove(i);
                    out.push(GatewayOut::StopWatchingStream { stream_key: k });
                },
                None => {},
            }
            if state.streams.stream_conns.remove(&uid) {
                out.push(GatewayOut::DisconnectStream { uid });
            }
        },
        GatewayAction::GoLive => {
            match (state.voice.voice_channel, state.people.my_user_id) {
                (Some(c), Some(u)) => {
                    let guild = call_guild_string(state);
                    let cs = u64_to_string(c.0);
                    let us = u64_to_string(u.0);
                    let mut key = String::new();
                    match &guild {
                        Some(g) => {
                            push_str(&mut key, "guild:");
                            push_str(&mut key, g.as_str());
                            push_str(&mut key, ":");
                        },
                        None => {
                            push_str(&mut key, "call:");
                        },
                    }
                    push_str(&mut key, cs.as_str());
                    push_str(&mut key, ":");
                    push_str(&mut key, us.as_str());
                    state.streams.golive_key = Some(key.clone());
                    let e = entry_of(&state.streams.pending_streams, key.as_str());
                    set_pending(&mut state.streams.pending_streams, key.as_str(), PendingStream { uid: u.0, ..e });
                    out.push(GatewayOut::CreateStream { guild, channel: cs });
                },
                _ => {
                    state.nav.status_line = owned("join a voice channel first");
                },
            }
        },
        GatewayAction::StopGoLive => {
            let k = state.streams.golive_key.take();
            match &k {
                Some(key) => {
                    match find_pending(&state.streams.pending_streams, key.as_str()) {
                        Some(i) => {
                            proof {
                                lemma_remove_unique(state.streams.pending_streams@, i as int);
                            }
                            state.streams.pending_streams.remove(i);
                        },
                        None => {},
                    }
                },
                None => {},
            }
            match k {
                Some(key) => out.push(GatewayOut::DeleteStream { stream_key: key }),
                None => {},
            }
            if state.streams.golive_running {
                state.streams.golive_running = false;
                out.push(GatewayOut::DisconnectGolive);
            }
        },
        GatewayAction::SetVoiceState { mute, deaf } => {
            match state.voice.voice_channel {
                Some(c) => {
                    let guild = call_guild_string(state);
                    out.push(GatewayOut::SetVoiceState { guild, channel: u64_to_string(c.0), mute, deaf });
                },
                None => {},
            }
        },
    }
    out
}

} // verus!
