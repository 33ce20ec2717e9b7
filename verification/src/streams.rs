use vstd::prelude::*;
use crate::appstate::{AppState, Streams, Voice};
use crate::decimal::{dec, push_decimal, u64_to_string};
use crate::events::{first_pos, lemma_first_pos, lemma_first_pos_at};
use crate::receive_struct::gateway_events::StreamEvent;
use crate::snowflake::SnowflakeID;
use crate::state::{PendingStream, copy_opt, str_eq};
use crate::text::{owned, push_str};
use crate::voice_events::{VoiceSignal, channel_string, channel_text};

verus! {

broadcast use {vstd::std_specs::hash::group_hash_axioms, vstd::seq_lib::group_seq_properties};

/// Holds for the stream entry of key `k`.
pub open spec fn key_is(k: Seq<char>) -> spec_fn((String, PendingStream)) -> bool {
    |e: (String, PendingStream)| e.0@ == k
}

/// Position of the entry of key `k`, or -1.
pub open spec fn pending_pos(v: Seq<(String, PendingStream)>, k: Seq<char>) -> int {
    first_pos(v, key_is(k))
}

/// No key occurs twice among the stream entries.
pub open spec fn keys_unique(v: Seq<(String, PendingStream)>) -> bool {
    forall|i: int, j: int| 0 <= i < j < v.len() ==> v[i].0@ != v[j].0@
}

/// A stream entry with nothing known yet.
pub open spec fn empty_stream() -> PendingStream {
    PendingStream { uid: 0, token: None, endpoint: None, server: None }
}

/// The entry of key `k`, or an empty one.
pub open spec fn pending_entry(v: Seq<(String, PendingStream)>, k: Seq<char>) -> PendingStream {
    let p = pending_pos(v, k);
    if p >= 0 { v[p].1 } else { empty_stream() }
}

/// `new` is `old` with the entry of key `k` set to `e` (appended when there was none).
pub open spec fn pending_updated(old: Seq<(String, PendingStream)>, new: Seq<(String, PendingStream)>, k: Seq<char>, e: PendingStream) -> bool {
    let p = pending_pos(old, k);
    if p >= 0 {
        new == old.update(p, (old[p].0, e))
    } else {
        &&& new.len() == old.len() + 1
        &&& new.drop_last() == old
        &&& new.last().0@ == k
        &&& new.last().1 == e
    }
}

/// The position of key `k` in `v`, if any.
pub fn find_pending(v: &Vec<(String, PendingStream)>, k: &str) -> (r: Option<usize>)
    ensures
        match r {
            Some(i) => i < v.len() && i as int == pending_pos(v@, k@),
            None => pending_pos(v@, k@) == -1,
        },
{
    let mut i: usize = 0;
    while i < v.len()
        invariant
            0 <= i <= v.len(),
            forall|j: int| 0 <= j < i ==> !(key_is(k@))(v@[j]),
        decreases v.len() - i,
    {
        if str_eq(v[i].0.as_str(), k) {
            proof {
                lemma_first_pos_at(v@, key_is(k@), i as int);
            }
            return Some(i);
        }
        i += 1;
    }
    proof {
        lemma_first_pos(v@, key_is(k@));
    }
    None
}

/// Sets the entry of key `k` to `e`.
pub(crate) fn set_pending(v: &mut Vec<(String, PendingStream)>, k: &str, e: PendingStream)
    requires
        keys_unique(old(v)@),
    ensures
        pending_updated(old(v)@, final(v)@, k@, e),
        keys_unique(final(v)@),
{
    match find_pending(v, k) {
        Some(i) => {
            let ghost v0 = v@;
            let (key, _) = v.remove(i);
            v.insert(i, (key, e));
            assert(v@ =~= v0.update(i as int, (v0[i as int].0, e)));
        },
        None => {
            let ghost v0 = v@;
            proof {
                lemma_first_pos(v0, key_is(k@));
            }
            v.push((owned(k), e));
            assert(v@.drop_last() =~= v0);
            assert forall|i: int, j: int| 0 <= i < j < v@.len() implies v@[i].0@ != v@[j].0@ by {
                if j == v@.len() - 1 {
                    assert(!(key_is(k@))(v0[i]));
                }
            }
        },
    }
}

/// A copy of the entry of key `k`, or an empty entry.
pub(crate) fn entry_of(v: &Vec<(String, PendingStream)>, k: &str) -> (r: PendingStream)
    ensures
        r == pending_entry(v@, k@),
{
    match find_pending(v, k) {
        Some(i) => {
            let p = &v[i].1;
            PendingStream { uid: p.uid, token: copy_opt(&p.token), endpoint: copy_opt(&p.endpoint), server: copy_opt(&p.server) }
        },
        None => PendingStream { uid: 0, token: None, endpoint: None, server: None },
    }
}

/// The stream entry after a stream create event: the stream server is recorded when given.
pub open spec fn created_stream(e: PendingStream, d: StreamEvent) -> PendingStream {
    match d.rtc_server_id {
        Some(s) => PendingStream { server: Some(s), ..e },
        None => e,
    }
}

/// The stream entry after a stream server update: token and endpoint are recorded when
/// given, and the guild as the server when none is known yet.
pub open spec fn served_stream(e: PendingStream, d: StreamEvent) -> PendingStream {
    let e1 = match d.token { Some(t) => PendingStream { token: Some(t), ..e }, None => e };
    let e2 = match d.endpoint { Some(t) => PendingStream { endpoint: Some(t), ..e1 }, None => e1 };
    if e2.server is None && d.guild_id is Some { PendingStream { server: d.guild_id, ..e2 } } else { e2 }
}

/// The state after a stream create (see [`created_stream`]).
pub open spec fn stream_create_rel(before: AppState, after: AppState, d: StreamEvent) -> bool {
    &&& (keys_unique(after.streams.pending_streams@))
    &&& (match d.stream_key {
            Some(k) => pending_updated(
                before.streams.pending_streams@,
                after.streams.pending_streams@,
                k@,
                created_stream(pending_entry(before.streams.pending_streams@, k@), d),
            ),
            None => after.streams.pending_streams@ == before.streams.pending_streams@,
        })
    &&& (after.streams == (Streams { pending_streams: after.streams.pending_streams, ..before.streams }))
    &&& (after == (AppState { streams: after.streams, ..before }))
}

/// Records a created stream under its key (nothing happens without a key).
pub fn apply_stream_create(d: &StreamEvent, state: &mut AppState)
    requires
        keys_unique(old(state).streams.pending_streams@),
    ensures
        stream_create_rel(*old(state), *final(state), *d),
{
    match &d.stream_key {
        Some(k) => {
            let e = entry_of(&state.streams.pending_streams, k.as_str());
            let e2 = match &d.rtc_server_id {
                Some(s) => PendingStream { server: Some(s.clone()), ..e },
                None => e,
            };
            set_pending(&mut state.streams.pending_streams, k.as_str(), e2);
        },
        None => {},
    }
}

/// A watch connection for the stream of key `k` can open: the stream is known, not
/// connected yet, has a user, a token, an endpoint and a server, and the own user id is
/// known.
pub open spec fn stream_ready(s: AppState, k: Seq<char>) -> bool {
    let p = pending_pos(s.streams.pending_streams@, k);
    &&& p >= 0
    &&& {
        let e = s.streams.pending_streams@[p].1;
        &&& !s.streams.stream_conns@.contains(e.uid)
        &&& e.token is Some
        &&& e.endpoint is Some
        &&& e.server is Some
        &&& e.uid != 0
    }
    &&& s.people.my_user_id is Some
}

/// `r` and `after` are what [`maybe_start_stream`] gives and leaves on `before`.
pub open spec fn stream_start_rel(before: AppState, after: AppState, session: Seq<char>, k: Seq<char>, r: Option<(u64, VoiceSignal)>) -> bool {
    if stream_ready(before, k) {
        let e = before.streams.pending_streams@[pending_pos(before.streams.pending_streams@, k)].1;
        &&& r is Some
        &&& (r->0).0 == e.uid
        &&& {
            let v = (r->0).1;
            &&& v.guild_id == e.server->0
            &&& v.user_id@ == dec((before.people.my_user_id->0).0 as nat)
            &&& v.channel_id@ == channel_text(before.voice.voice_channel)
            &&& v.session_id@ == session
            &&& v.token == e.token->0
            &&& v.endpoint == e.endpoint->0
            &&& v.input_device is None
            &&& v.output_device is None
            &&& !v.dsp_rx
            &&& !v.dsp_tx
            &&& v.watch_uid == Some(e.uid)
            &&& v.server_id_override == e.server
            &&& !v.broadcast
        }
        &&& after.streams == (Streams { stream_conns: after.streams.stream_conns, ..before.streams })
        &&& after.streams.stream_conns@ == before.streams.stream_conns@.insert(e.uid)
        &&& after.voice == (Voice { voice_status: after.voice.voice_status, ..before.voice })
        &&& after.voice.voice_status@ == "stream "@ + dec(e.uid as nat) + ": connecting…"@
        &&& after == (AppState { streams: after.streams, voice: after.voice, ..before })
    } else {
        &&& r is None
        &&& after == before
    }
}

/// Opens a watch connection for the stream of key `stream_key` once everything it needs is
/// known (see [`stream_start_rel`]); gives the streamer's id and the signal.
pub fn maybe_start_stream(state: &mut AppState, session_id: &str, stream_key: &str) -> (r: Option<(u64, VoiceSignal)>)
    ensures
        stream_start_rel(*old(state), *final(state), session_id@, stream_key@, r),
{
    let i = match find_pending(&state.streams.pending_streams, stream_key) {
        Some(i) => i,
        None => return None,
    };
    let p = &state.streams.pending_streams[i].1;
    if state.streams.stream_conns.contains(&p.uid) {
        return None;
    }
    let (token, endpoint, server, uid) = match (&p.token, &p.endpoint, &p.server, state.people.my_user_id) {
        (Some(t), Some(e), Some(s), Some(u)) => (t.clone(), e.clone(), s.clone(), u.0),
        _ => return None,
    };
    if p.uid == 0 {
        return None;
    }
    let buid = p.uid;
    let signal = VoiceSignal {
        guild_id: server.clone(),
        user_id: u64_to_string(uid),
        channel_id: channel_string(state.voice.voice_channel),
        session_id: owned(session_id),
        token,
        endpoint,
        input_device: None,
        output_device: None,
        dsp_rx: false,
        dsp_tx: false,
        watch_uid: Some(buid),
        server_id_override: Some(server),
        broadcast: false,
    };
    state.streams.stream_conns.insert(buid);
    let mut status = String::new();
    proof {
        reveal_strlit("stream ");
        reveal_strlit(": connecting…");
    }
    push_str(&mut status, "stream ");
    push_decimal(&mut status, buid);
    push_str(&mut status, ": connecting…");
    state.voice.voice_status = status;
    Some((buid, signal))
}

/// The broadcast connection for the stream of key `k` can open: none is running, the
/// stream is known with a token, an endpoint and a server, and the own user id is known.
pub open spec fn golive_ready(s: AppState, k: Seq<char>) -> bool {
    let p = pending_pos(s.streams.pending_streams@, k);
    &&& !s.streams.golive_running
    &&& p >= 0
    &&& {
        let e = s.streams.pending_streams@[p].1;
        &&& e.token is Some
        &&& e.endpoint is Some
        &&& e.server is Some
    }
    &&& s.people.my_user_id is Some
}

/// `r` and `after` are what [`maybe_start_golive`] gives and leaves on `before`.
pub open spec fn golive_start_rel(before: AppState, after: AppState, session: Seq<char>, k: Seq<char>, r: Option<VoiceSignal>) -> bool {
    if golive_ready(before, k) {
        let e = before.streams.pending_streams@[pending_pos(before.streams.pending_streams@, k)].1;
        &&& r is Some
        &&& {
            let v = r->0;
            &&& v.guild_id == e.server->0
            &&& v.user_id@ == dec((before.people.my_user_id->0).0 as nat)
            &&& v.channel_id@ == channel_text(before.voice.voice_channel)
            &&& v.session_id@ == session
            &&& v.token == e.token->0
            &&& v.endpoint == e.endpoint->0
            &&& v.input_device is None
            &&& v.output_device is None
            &&& !v.dsp_rx
            &&& !v.dsp_tx
            &&& v.watch_uid is None
            &&& v.server_id_override == e.server
            &&& v.broadcast
        }
        &&& after.streams == (Streams { golive_running: true, ..before.streams })
        &&& after.voice == (Voice { voice_status: after.voice.voice_status, ..before.voice })
        &&& after.voice.voice_status@ == "Go Live: connecting…"@
        &&& after == (AppState { streams: after.streams, voice: after.voice, ..before })
    } else {
        &&& r is None
        &&& after == before
    }
}

/// Opens the broadcast connection for the own stream of key `stream_key` once everything it
/// needs is known (see [`golive_start_rel`]).
pub fn maybe_start_golive(state: &mut AppState, session_id: &str, stream_key: &str) -> (r: Option<VoiceSignal>)
    ensures
        golive_start_rel(*old(state), *final(state), session_id@, stream_key@, r),
{
    if state.streams.golive_running {
        return None;
    }
    let i = match find_pending(&state.streams.pending_streams, stream_key) {
        Some(i) => i,
        None => return None,
    };
    let p = &state.streams.pending_streams[i].1;
    let (token, endpoint, server, uid) = match (&p.token, &p.endpoint, &p.server, state.people.my_user_id) {
        (Some(t), Some(e), Some(s), Some(u)) => (t.clone(), e.clone(), s.clone(), u.0),
        _ => return None,
    };
    let signal = VoiceSignal {
        guild_id: server.clone(),
        user_id: u64_to_string(uid),
        channel_id: channel_string(state.voice.voice_channel),
        session_id: owned(session_id),
        token,
        endpoint,
        input_device: None,
        output_device: None,
        dsp_rx: false,
        dsp_tx: false,
        watch_uid: None,
        server_id_override: Some(server),
        broadcast: true,
    };
    state.streams.golive_running = true;
    proof {
        reveal_strlit("Go Live: connecting…");
    }
    state.voice.voice_status = owned("Go Live: connecting…");
    Some(signal)
}

/// A stream connection to open: a watch connection for a user's stream, or the broadcast
/// of the own stream.
#[derive(Clone, Debug)]
pub enum StreamStart {
    Watch(u64, VoiceSignal),
    Broadcast(VoiceSignal),
}

/// Whether the client broadcasts the stream of key `k`.
pub open spec fn is_own_stream(s: AppState, k: Seq<char>) -> bool {
    s.streams.golive_key matches Some(g) && g@ == k
}

/// The state and result after a stream server update (see [`apply_stream_server`]).
pub open spec fn stream_server_rel(before: AppState, after: AppState, d: StreamEvent, session_id: Seq<char>, r: Option<StreamStart>) -> bool {
    &&& (keys_unique(after.streams.pending_streams@))
    &&& (match d.stream_key {
            Some(k) => {
                let mid = AppState {
                    streams: Streams { pending_streams: after.streams.pending_streams, ..before.streams },
                    ..before
                };
                &&& pending_updated(
                    before.streams.pending_streams@,
                    after.streams.pending_streams@,
                    k@,
                    served_stream(pending_entry(before.streams.pending_streams@, k@), d),
                )
                &&& if is_own_stream(before, k@) {
                    golive_start_rel(mid, after, session_id, k@, match r {
                        Some(StreamStart::Broadcast(v)) => Some(v),
                        _ => None,
                    }) && !(r matches Some(StreamStart::Watch(_, _)))
                } else {
                    stream_start_rel(mid, after, session_id, k@, match r {
                        Some(StreamStart::Watch(u, v)) => Some((u, v)),
                        _ => None,
                    }) && !(r matches Some(StreamStart::Broadcast(_)))
                }
            },
            None => r is None && after == before,
        })
}

/// Applies a stream server update (nothing happens without a key): the stream's token,
/// endpoint and server are recorded (see [`served_stream`]), then the broadcast connection
/// is tried when the stream is the client's own, else a watch connection.
pub fn apply_stream_server(d: &StreamEvent, state: &mut AppState, session_id: &str) -> (r: Option<StreamStart>)
    requires
        keys_unique(old(state).streams.pending_streams@),
    ensures
        stream_server_rel(*old(state), *final(state), *d, session_id@, r),
{
    let k = match &d.stream_key {
        Some(k) => k,
        None => return None,
    };
    let e = entry_of(&state.streams.pending_streams, k.as_str());
    let e1 = match &d.token {
        Some(t) => PendingStream { token: Some(t.clone()), ..e },
        None => e,
    };
    let e2 = match &d.endpoint {
        Some(t) => PendingStream { endpoint: Some(t.clone()), ..e1 },
        None => e1,
    };
    let e3 = if e2.server.is_none() && d.guild_id.is_some() {
        PendingStream { server: copy_opt(&d.guild_id), ..e2 }
    } else {
        e2
    };
    set_pending(&mut state.streams.pending_streams, k.as_str(), e3);
    let ours = match &state.streams.golive_key {
        Some(g) => str_eq(g.as_str(), k.as_str()),
        None => false,
    };
    if ours {
        match maybe_start_golive(state, session_id, k.as_str()) {
            Some(v) => Some(StreamStart::Broadcast(v)),
            None => None,
        }
    } else {
        match maybe_start_stream(state, session_id, k.as_str()) {
            Some((u, v)) => Some(StreamStart::Watch(u, v)),
            None => None,
        }
    }
}

/// Keeps the watched streams of users other than `uid`.
pub open spec fn not_user(uid: u64) -> spec_fn(SnowflakeID) -> bool {
    |x: SnowflakeID| x.0 != uid
}

pub(crate) fn without_user(v: Vec<SnowflakeID>, uid: u64) -> (r: Vec<SnowflakeID>)
    ensures
        r@ == v@.filter(not_user(uid)),
{
    let ghost s = v@;
    let mut out: Vec<SnowflakeID> = Vec::new();
    for x in it: v.into_iter()
        invariant
            it.seq() == s,
            out@ == it.seq().take(it.index() as int).filter(not_user(uid)),
    {
        proof {
            assert(it.seq().take(it.index() + 1) =~= it.seq().take(it.index() as int).push(x));
            it.seq().take(it.index() as int).lemma_filter_push(x, not_user(uid));
        }
        if x.0 != uid {
            out.push(x);
        }
    }
    assert(s.take(s.len() as int) =~= s);
    out
}

/// The state and result after a stream delete (see [`apply_stream_delete`]).
pub open spec fn stream_delete_rel(before: AppState, after: AppState, d: StreamEvent, r: Option<u64>) -> bool {
    &&& (keys_unique(after.streams.pending_streams@))
    &&& (({
            let old_p = before.streams.pending_streams@;
            match d.stream_key {
                Some(k) if pending_pos(old_p, k@) >= 0 => {
                    let p = pending_pos(old_p, k@);
                    let uid = old_p[p].1.uid;
                    &&& after.streams == (Streams {
                        pending_streams: after.streams.pending_streams,
                        watching_streams: after.streams.watching_streams,
                        stream_conns: after.streams.stream_conns,
                        ..before.streams
                    })
                    &&& after.streams.pending_streams@ == old_p.remove(p)
                    &&& after.streams.watching_streams@ == before.streams.watching_streams@.filter(not_user(uid))
                    &&& after.streams.stream_conns@ == before.streams.stream_conns@.remove(uid)
                    &&& r == (if before.streams.stream_conns@.contains(uid) { Some(uid) } else { None })
                    &&& after == (AppState { streams: after.streams, ..before })
                },
                _ => r is None && after == before,
            }
        }))
}

/// Applies a stream delete (nothing happens without a key or without an entry for it): the
/// entry goes, its user's stream is no longer watched and its watch connection, when one
/// runs, is closed; gives the user whose connection is to be disconnected.
pub fn apply_stream_delete(d: &StreamEvent, state: &mut AppState) -> (r: Option<u64>)
    requires
        keys_unique(old(state).streams.pending_streams@),
    ensures
        stream_delete_rel(*old(state), *final(state), *d, r),
{
    let k = match &d.stream_key {
        Some(k) => k,
        None => return None,
    };
    let i = match find_pending(&state.streams.pending_streams, k.as_str()) {
        Some(i) => i,
        None => return None,
    };
    let ghost v0 = state.streams.pending_streams@;
    let (_, p) = state.streams.pending_streams.remove(i);
    assert forall|a: int, b: int| 0 <= a < b < state.streams.pending_streams@.len()
        implies state.streams.pending_streams@[a].0@ != state.streams.pending_streams@[b].0@ by {
        let a0 = if a < i { a } else { a + 1 };
        let b0 = if b < i { b } else { b + 1 };
        assert(state.streams.pending_streams@[a] == v0[a0]);
        assert(state.streams.pending_streams@[b] == v0[b0]);
    }
    let uid = p.uid;
    let mut w: Vec<SnowflakeID> = Vec::new();
    std::mem::swap(&mut w, &mut state.streams.watching_streams);
    state.streams.watching_streams = without_user(w, uid);
    let was = state.streams.stream_conns.remove(&uid);
    if was { Some(uid) } else { None }
}

} // verus!
