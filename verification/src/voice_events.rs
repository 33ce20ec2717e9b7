use std::collections::HashMap;
use vstd::prelude::*;
use crate::appstate::{AppState, People, Voice, display_name_of, keys_of};
use crate::decimal::{dec, parse_u64, parse_u64_spec, u64_to_string};
use crate::events::{note, noted, opt_chars};
use crate::ready_state::{dir_view, member_map_view};
use crate::receive_struct::voice_server_update::VoiceServerUpdateData;
use crate::receive_struct::voice_state_update::VoiceStateUpdateData;
use crate::snowflake::SnowflakeID;
use crate::state::{MemberView, VoiceMember, copy_opt, mv, mvs};
use crate::text::{owned, trim, trim_spec};

verus! {

broadcast use {vstd::std_specs::hash::group_hash_axioms, vstd::seq_lib::group_seq_properties};

/// What a voice connection is opened with: ids as decimal strings, the session, the
/// server's token and endpoint, audio devices and filters, and for a stream the watched
/// user, the stream server and whether it is a broadcast.
#[derive(Clone, Debug)]
pub struct VoiceSignal {
    pub guild_id: String,
    pub user_id: String,
    pub channel_id: String,
    pub session_id: String,
    pub token: String,
    pub endpoint: String,
    pub input_device: Option<String>,
    pub output_device: Option<String>,
    pub dsp_rx: bool,
    pub dsp_tx: bool,
    pub watch_uid: Option<u64>,
    pub server_id_override: Option<String>,
    pub broadcast: bool,
}

/// A voice connection to open: its signal, whether a running one is to be disconnected
/// first, and the microphone and sound mute flags to send at once, when either is set.
#[derive(Clone, Debug)]
pub struct VoiceStart {
    pub signal: VoiceSignal,
    pub replace_previous: bool,
    pub mute_deaf: Option<(bool, bool)>,
}

/// The decimal form of an optional channel, `0` when there is none.
pub open spec fn channel_text(c: Option<SnowflakeID>) -> Seq<char> {
    match c {
        Some(c) => dec(c.0 as nat),
        None => "0"@,
    }
}

pub fn channel_string(c: Option<SnowflakeID>) -> (r: String)
    ensures
        r@ == channel_text(c),
{
    match c {
        Some(c) => u64_to_string(c.0),
        None => {
            proof {
                reveal_strlit("0");
            }
            owned("0")
        },
    }
}

/// A call connection can open: token, endpoint, session, guild and own user id are known.
pub open spec fn voice_ready(s: AppState) -> bool {
    &&& s.voice.joining_voice_token is Some
    &&& s.voice.joining_voice_endpoint is Some
    &&& s.voice.joining_voice_session is Some
    &&& s.voice.joining_voice_guild is Some
    &&& s.people.my_user_id is Some
}

/// `r` and `after` are what [`maybe_start_voice`] gives and leaves on `before`: when the
/// call connection can open, its signal from the state, the pending token, endpoint and
/// session consumed, the connection marked running and the status set; else nothing.
pub open spec fn voice_start_rel(before: AppState, after: AppState, r: Option<VoiceStart>) -> bool {
    if voice_ready(before) {
        &&& r is Some
        &&& {
            let v = r->0;
            &&& v.signal.guild_id@ == dec((before.voice.joining_voice_guild->0).0 as nat)
            &&& v.signal.user_id@ == dec((before.people.my_user_id->0).0 as nat)
            &&& v.signal.channel_id@ == channel_text(before.voice.voice_channel)
            &&& v.signal.session_id == before.voice.joining_voice_session->0
            &&& v.signal.token == before.voice.joining_voice_token->0
            &&& v.signal.endpoint == before.voice.joining_voice_endpoint->0
            &&& v.signal.input_device == before.voice.voice_input_device
            &&& v.signal.output_device == before.voice.voice_output_device
            &&& v.signal.dsp_rx == before.prefs.dsp_rx
            &&& v.signal.dsp_tx == before.prefs.dsp_tx
            &&& v.signal.watch_uid is None
            &&& v.signal.server_id_override is None
            &&& !v.signal.broadcast
            &&& v.replace_previous == before.voice.voice_running
            &&& v.mute_deaf == (if before.voice.self_mute || before.voice.self_deaf {
                Some((before.voice.self_mute, before.voice.self_deaf))
            } else {
                None
            })
        }
        &&& after.voice == (Voice {
            joining_voice_token: None,
            joining_voice_endpoint: None,
            joining_voice_session: None,
            voice_status: after.voice.voice_status,
            voice_running: true,
            ..before.voice
        })
        &&& after.voice.voice_status@ == "voice: connecting…"@
        &&& after == (AppState { voice: after.voice, ..before })
    } else {
        &&& r is None
        &&& after == before
    }
}

/// Opens the call connection once everything it needs is known (see [`voice_start_rel`]).
pub fn maybe_start_voice(state: &mut AppState) -> (r: Option<VoiceStart>)
    ensures
        voice_start_rel(*old(state), *final(state), r),
{
    let ready = state.voice.joining_voice_token.is_some() && state.voice.joining_voice_endpoint.is_some()
        && state.voice.joining_voice_session.is_some() && state.voice.joining_voice_guild.is_some()
        && state.people.my_user_id.is_some();
    if !ready {
        return None;
    }
    let token = match &state.voice.joining_voice_token {
        Some(t) => t.clone(),
        None => String::new(),
    };
    let endpoint = match &state.voice.joining_voice_endpoint {
        Some(t) => t.clone(),
        None => String::new(),
    };
    let session = match &state.voice.joining_voice_session {
        Some(t) => t.clone(),
        None => String::new(),
    };
    let guild = match state.voice.joining_voice_guild {
        Some(g) => g.0,
        None => 0,
    };
    let uid = match state.people.my_user_id {
        Some(u) => u.0,
        None => 0,
    };
    let signal = VoiceSignal {
        guild_id: u64_to_string(guild),
        user_id: u64_to_string(uid),
        channel_id: channel_string(state.voice.voice_channel),
        session_id: session,
        token,
        endpoint,
        input_device: copy_opt(&state.voice.voice_input_device),
        output_device: copy_opt(&state.voice.voice_output_device),
        dsp_rx: state.prefs.dsp_rx,
        dsp_tx: state.prefs.dsp_tx,
        watch_uid: None,
        server_id_override: None,
        broadcast: false,
    };
    let mute_deaf = if state.voice.self_mute || state.voice.self_deaf {
        Some((state.voice.self_mute, state.voice.self_deaf))
    } else {
        None
    };
    let replace_previous = state.voice.voice_running;
    state.voice.voice_running = true;
    proof {
        reveal_strlit("voice: connecting…");
    }
    state.voice.voice_status = owned("voice: connecting…");
    state.voice.joining_voice_token = None;
    state.voice.joining_voice_endpoint = None;
    state.voice.joining_voice_session = None;
    Some(VoiceStart { signal, replace_previous, mute_deaf })
}

/// Keeps the members other than `uid`.
pub open spec fn member_is_not(uid: u64) -> spec_fn(MemberView) -> bool {
    |m: MemberView| m.id.0 != uid
}

/// The members of channel `k` after user `uid` moved to channel `ch` (or left voice) as
/// `mem`: the user is dropped from every channel and appended to `ch`.
pub open spec fn moved_list(m: Map<u64, Seq<MemberView>>, uid: u64, ch: Option<u64>, mem: MemberView, k: u64) -> Seq<MemberView> {
    let base = if m.contains_key(k) { m[k].filter(member_is_not(uid)) } else { Seq::empty() };
    if ch == Some(k) { base.push(mem) } else { base }
}

/// Voice members by channel after user `uid` moved to `ch` as `mem`; channels left
/// without members are dropped.
pub open spec fn voice_moved(m: Map<u64, Seq<MemberView>>, uid: u64, ch: Option<u64>, mem: MemberView) -> Map<u64, Seq<MemberView>> {
    Map::new(
        |k: u64| (m.contains_key(k) || ch == Some(k)) && moved_list(m, uid, ch, mem, k).len() > 0,
        |k: u64| moved_list(m, uid, ch, mem, k),
    )
}

/// The members of `v` other than `uid`.
fn strip_member(v: Vec<VoiceMember>, uid: u64) -> (r: Vec<VoiceMember>)
    ensures
        mvs(r@) == mvs(v@).filter(member_is_not(uid)),
{
    let ghost s = v@;
    let mut out: Vec<VoiceMember> = Vec::new();
    for m in it: v.into_iter()
        invariant
            it.seq() == s,
            mvs(out@) == mvs(it.seq().take(it.index() as int)).filter(member_is_not(uid)),
    {
        proof {
            assert(mvs(it.seq().take(it.index() + 1)) =~= mvs(it.seq().take(it.index() as int)).push(mv(m)));
            mvs(it.seq().take(it.index() as int)).lemma_filter_push(mv(m), member_is_not(uid));
        }
        let ghost before = out@;
        if m.id.0 != uid {
            out.push(m);
            assert(mvs(out@) =~= mvs(before).push(mv(m)));
        }
    }
    assert(s.take(s.len() as int) =~= s);
    out
}

/// Voice members of `src` after user `uid` moved to `ch`; the member pushed is built from
/// the remaining arguments.
fn move_member(
    src: HashMap<u64, Vec<VoiceMember>>,
    uid: u64,
    ch: Option<SnowflakeID>,
    name: &String,
    mute: bool,
    deaf: bool,
    video: bool,
    stream: bool,
) -> (r: HashMap<u64, Vec<VoiceMember>>)
    ensures
        member_map_view(r@) == voice_moved(
            member_map_view(src@),
            uid,
            match ch { Some(c) => Some(c.0), None => None },
            MemberView { id: SnowflakeID(uid), name: name@, mute, deaf, video, stream },
        ),
{
    let ghost m0 = member_map_view(src@);
    let ghost cho: Option<u64> = match ch { Some(c) => Some(c.0), None => None };
    let ghost mem = MemberView { id: SnowflakeID(uid), name: name@, mute, deaf, video, stream };
    let keys = keys_of(&src);
    let mut src = src;
    let mut out: HashMap<u64, Vec<VoiceMember>> = HashMap::new();
    let mut i: usize = 0;
    while i < keys.len()
        invariant
            0 <= i <= keys.len(),
            keys@.to_set() == m0.dom(),
            keys@.no_duplicates(),
            mem == (MemberView { id: SnowflakeID(uid), name: name@, mute, deaf, video, stream }),
            cho == (match ch { Some(c) => Some(c.0), None => None }),
            forall|k: u64| m0.contains_key(k) && !keys@.take(i as int).contains(k)
                ==> #[trigger] src@.contains_key(k),
            forall|k: u64| #[trigger] src@.contains_key(k) ==> mvs(src@[k]@) == m0[k],
            member_map_view(out@) == Map::new(
                |k: u64| keys@.take(i as int).contains(k) && moved_list(m0, uid, cho, mem, k).len() > 0,
                |k: u64| moved_list(m0, uid, cho, mem, k),
            ),
        decreases keys.len() - i,
    {
        let k = keys[i];
        assert(keys@.to_set().contains(k));
        assert(!keys@.take(i as int).contains(k));
        assert(src@.contains_key(k));
        let ghost src0 = src@;
        let list = match src.remove(&k) {
            Some(l) => l,
            None => Vec::new(),
        };
        let mut kept = strip_member(list, uid);
        let is_target = match ch {
            Some(c) => c.0 == k,
            None => false,
        };
        if is_target {
            let ghost before = kept@;
            let vm = VoiceMember { id: SnowflakeID(uid), name: name.clone(), mute, deaf, video, stream };
            assert(mv(vm) == mem);
            kept.push(vm);
            assert(mvs(kept@) =~= mvs(before).push(mem));
        }
        assert(mvs(kept@) == moved_list(m0, uid, cho, mem, k));
        let ghost out0 = out@;
        let ghost kv = mvs(kept@);
        if kept.len() > 0 {
            out.insert(k, kept);
            assert(member_map_view(out@) =~= member_map_view(out0).insert(k, kv));
        }
        proof {
            assert(kv.len() == moved_list(m0, uid, cho, mem, k).len());
            assert(keys@.take(i + 1) =~= keys@.take(i as int).push(k));
            assert(forall|k2: u64| keys@.take(i + 1).contains(k2) <==> (keys@.take(i as int).contains(k2) || k2 == k));
            assert forall|k2: u64| m0.contains_key(k2) && !keys@.take(i + 1).contains(k2)
                implies #[trigger] src@.contains_key(k2) by {
                assert(k2 != k);
                assert(!keys@.take(i as int).contains(k2));
                assert(src0.contains_key(k2));
            }
            assert forall|k2: u64| #[trigger] src@.contains_key(k2) implies mvs(src@[k2]@) == m0[k2] by {
                assert(src0.contains_key(k2));
            }
            assert(member_map_view(out@) =~= Map::new(
                |k2: u64| keys@.take(i + 1).contains(k2) && moved_list(m0, uid, cho, mem, k2).len() > 0,
                |k2: u64| moved_list(m0, uid, cho, mem, k2),
            ));
        }
        i += 1;
    }
    assert(keys@.take(keys.len() as int) =~= keys@);
    proof {
        assert forall|k: u64| keys@.contains(k) <==> m0.contains_key(k) by {
            if m0.contains_key(k) {
                assert(keys@.to_set().contains(k));
            }
        }
    }
    let ghost out1 = out@;
    assert(member_map_view(out1) =~= Map::new(
        |k: u64| m0.contains_key(k) && moved_list(m0, uid, cho, mem, k).len() > 0,
        |k: u64| moved_list(m0, uid, cho, mem, k),
    ));
    match ch {
        Some(c) => {
            if !keys_contains(&keys, c.0) {
                let mut one: Vec<VoiceMember> = Vec::new();
                let vm = VoiceMember { id: SnowflakeID(uid), name: name.clone(), mute, deaf, video, stream };
                assert(mv(vm) == mem);
                one.push(vm);
                assert(mvs(one@) =~= seq![mem]);
                assert(!m0.contains_key(c.0));
                assert(moved_list(m0, uid, cho, mem, c.0) =~= seq![mem]);
                out.insert(c.0, one);
                assert(member_map_view(out@) =~= member_map_view(out1).insert(c.0, seq![mem]));
            }
        },
        None => {},
    }
    assert(member_map_view(out@) =~= voice_moved(m0, uid, cho, mem));
    out
}

/// `true` when `keys` holds `k`.
fn keys_contains(keys: &Vec<u64>, k: u64) -> (r: bool)
    ensures
        r == keys@.contains(k),
{
    let mut i: usize = 0;
    while i < keys.len()
        invariant
            0 <= i <= keys.len(),
            forall|j: int| 0 <= j < i ==> keys@[j] != k,
        decreases keys.len() - i,
    {
        if keys[i] == k {
            return true;
        }
        i += 1;
    }
    false
}

/// The name a voice state offers for its member: the first of global and display name that
/// is not blank.
pub open spec fn voice_offered_name(global: Seq<char>, display: Seq<char>) -> Option<Seq<char>> {
    if trim_spec(global).len() > 0 {
        Some(global)
    } else if trim_spec(display).len() > 0 {
        Some(display)
    } else {
        None
    }
}

/// The name directory after a voice state update.
pub open spec fn voice_state_dir(d: VoiceStateUpdateData, dir: Map<u64, Seq<char>>) -> Map<u64, Seq<char>> {
    match d.member {
        Some(m) => noted(dir, d.user_id.0, voice_offered_name(m.user.global_name@, m.user.display_name@), m.user.username@),
        None => dir,
    }
}

/// The voice member entry of the user of a voice state update, named `name`.
pub open spec fn voice_state_member(d: VoiceStateUpdateData, name: Seq<char>) -> MemberView {
    MemberView {
        id: d.user_id,
        name,
        mute: d.mute || d.self_mute,
        deaf: d.deaf || d.self_deaf,
        video: d.self_video,
        stream: match d.self_stream { Some(b) => b, None => false },
    }
}

/// The state and result after a voice state update (see [`apply_voice_state`]).
pub open spec fn voice_state_rel(before: AppState, after: AppState, d: VoiceStateUpdateData, r: Option<VoiceStart>) -> bool {
    &&& (dir_view(after.people.user_dir@) == voice_state_dir(d, dir_view(before.people.user_dir@)))
    &&& (after.people == (People { user_dir: after.people.user_dir, ..before.people }))
    &&& (member_map_view(after.voice.voice_members@) == voice_moved(
            member_map_view(before.voice.voice_members@),
            d.user_id.0,
            match d.channel_id { Some(c) => Some(c.0), None => None },
            voice_state_member(d, display_name_of(after.people.user_dir@, d.user_id.0)),
        ))
    &&& (before.people.my_user_id == Some(d.user_id) ==> voice_start_rel(
            AppState {
                voice: Voice {
                    voice_members: after.voice.voice_members,
                    joining_voice_session: if d.channel_id is Some { Some(d.session_id) } else { before.voice.joining_voice_session },
                    voice_channel: d.channel_id,
                    ..before.voice
                },
                people: after.people,
                ..before
            },
            after,
            r,
        ))
    &&& (before.people.my_user_id != Some(d.user_id) ==> {
            &&& r is None
            &&& after == (AppState {
                voice: Voice { voice_members: after.voice.voice_members, ..before.voice },
                people: after.people,
                ..before
            })
        })
}

/// Applies a voice state update: records the member's name, moves the user to the new
/// channel in the member lists (or out of voice) and, when the user is the client's own,
/// records the call's session and channel and tries to open the call connection.
pub fn apply_voice_state(d: &VoiceStateUpdateData, state: &mut AppState) -> (r: Option<VoiceStart>)
    ensures
        voice_state_rel(*old(state), *final(state), *d, r),
{
    let uid = d.user_id;
    match &d.member {
        Some(m) => {
            let offered: Option<&str> = if !trim(m.user.global_name.as_str()).as_str().is_empty() {
                Some(m.user.global_name.as_str())
            } else if !trim(m.user.display_name.as_str()).as_str().is_empty() {
                Some(m.user.display_name.as_str())
            } else {
                None
            };
            assert(opt_chars(offered) == voice_offered_name(m.user.global_name@, m.user.display_name@));
            note(state, uid, offered, m.user.username.as_str());
        },
        None => {
            assert(dir_view(state.people.user_dir@) == voice_state_dir(*d, dir_view(old(state).people.user_dir@)));
        },
    }
    let name = state.display_name(uid);
    let mut src: HashMap<u64, Vec<VoiceMember>> = HashMap::new();
    std::mem::swap(&mut src, &mut state.voice.voice_members);
    let stream = match d.self_stream {
        Some(b) => b,
        None => false,
    };
    let moved = move_member(src, uid.0, d.channel_id, &name, d.mute || d.self_mute, d.deaf || d.self_deaf, d.self_video, stream);
    state.voice.voice_members = moved;
    let mine = match state.people.my_user_id {
        Some(me) => me.0 == uid.0,
        None => false,
    };
    if mine {
        match d.channel_id {
            Some(ch) => {
                state.voice.joining_voice_session = Some(d.session_id.clone());
                state.voice.voice_channel = Some(ch);
            },
            None => {
                state.voice.voice_channel = None;
            },
        }
        maybe_start_voice(state)
    } else {
        None
    }
}

/// The state and result after a voice server update (see [`apply_voice_server`]).
pub open spec fn voice_server_rel(before: AppState, after: AppState, d: VoiceServerUpdateData, r: Option<VoiceStart>) -> bool {
    &&& (voice_start_rel(
            AppState {
                voice: Voice {
                    joining_voice_token: Some(d.token),
                    joining_voice_endpoint: Some(d.endpoint),
                    joining_voice_guild: match d.guild_id {
                        Some(g) => match parse_u64_spec(g@) {
                            Some(n) => Some(SnowflakeID(n)),
                            None => before.voice.voice_channel,
                        },
                        None => before.voice.voice_channel,
                    },
                    ..before.voice
                },
                ..before
            },
            after,
            r,
        ))
}

/// Applies a voice server update: records the call server's token and endpoint and the
/// guild (the one named, else the current voice channel), then tries to open the call
/// connection.
pub fn apply_voice_server(d: &VoiceServerUpdateData, state: &mut AppState) -> (r: Option<VoiceStart>)
    ensures
        voice_server_rel(*old(state), *final(state), *d, r),
{
    state.voice.joining_voice_token = Some(d.token.clone());
    state.voice.joining_voice_endpoint = Some(d.endpoint.clone());
    let g = match &d.guild_id {
        Some(g) => parse_u64(g.as_str()),
        None => None,
    };
    match g {
        Some(n) => {
            state.voice.joining_voice_guild = Some(SnowflakeID(n));
        },
        None => {
            state.voice.joining_voice_guild = state.voice.voice_channel;
        },
    }
    maybe_start_voice(state)
}

/// After a voice state update for user `uid` (as the member `mem`), the user is listed in
/// no channel but its new one `ch`, where it stands once and last; every listed channel has
/// members; the other members of each channel stay, in order.
pub proof fn law_voice_member_once(m: Map<u64, Seq<MemberView>>, uid: u64, ch: Option<u64>, mem: MemberView)
    requires
        mem.id.0 == uid,
    ensures
        forall|k: u64| #[trigger] voice_moved(m, uid, ch, mem).contains_key(k) ==> voice_moved(m, uid, ch, mem)[k].len() > 0,
        forall|k: u64, i: int| voice_moved(m, uid, ch, mem).contains_key(k) && ch != Some(k)
            && 0 <= i < voice_moved(m, uid, ch, mem)[k].len() ==> (#[trigger] voice_moved(m, uid, ch, mem)[k][i]).id.0 != uid,
        forall|c: u64| ch == Some(c) ==> {
            &&& #[trigger] voice_moved(m, uid, ch, mem).contains_key(c)
            &&& voice_moved(m, uid, ch, mem)[c].last() == mem
            &&& forall|i: int| 0 <= i < voice_moved(m, uid, ch, mem)[c].len() - 1 ==> (#[trigger] voice_moved(m, uid, ch, mem)[c][i]).id.0 != uid
        },
        forall|k: u64| m.contains_key(k) && ch != Some(k) && #[trigger] voice_moved(m, uid, ch, mem).contains_key(k) ==>
            voice_moved(m, uid, ch, mem)[k] == m[k].filter(member_is_not(uid)),
{
    broadcast use vstd::seq_lib::group_filter_ensures;
    let r = voice_moved(m, uid, ch, mem);
    assert forall|k: u64, i: int| r.contains_key(k) && ch != Some(k) && 0 <= i < r[k].len() implies (#[trigger] r[k][i]).id.0 != uid by {
        assert(r[k] == moved_list(m, uid, ch, mem, k));
        if m.contains_key(k) {
            assert((member_is_not(uid))(m[k].filter(member_is_not(uid))[i]));
        }
    }
    assert forall|c: u64| ch == Some(c) implies {
        &&& #[trigger] r.contains_key(c)
        &&& r[c].last() == mem
        &&& forall|i: int| 0 <= i < r[c].len() - 1 ==> (#[trigger] r[c][i]).id.0 != uid
    } by {
        let base = if m.contains_key(c) { m[c].filter(member_is_not(uid)) } else { Seq::empty() };
        assert(moved_list(m, uid, ch, mem, c) == base.push(mem));
        assert(r.contains_key(c));
        assert forall|i: int| 0 <= i < r[c].len() - 1 implies (#[trigger] r[c][i]).id.0 != uid by {
            assert(r[c][i] == base[i]);
            if m.contains_key(c) {
                assert((member_is_not(uid))(m[c].filter(member_is_not(uid))[i]));
            }
        }
    }
}

} // verus!
