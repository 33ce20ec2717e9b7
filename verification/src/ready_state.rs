use std::collections::HashMap;
use vstd::prelude::*;
use crate::appstate::AppState;
use crate::decimal::{dec, parse_u64, parse_u64_spec, push_decimal, u64_to_string};
use crate::ingest::{dm_summary, dm_view, guild_channel_summaries, guild_channels_spec, icon_url_for, icon_url_spec};
use crate::receive_struct::ready::{Guild, GuildVoiceState, ReadyData, UserStub, guild_display_name};
use crate::snowflake::SnowflakeID;
use crate::sorting::{elems, key_of, keyed, lemma_sort_map, map_elems, sort_by_key, stable_sort};
use crate::state::{ChanView, ChannelSummary, GuildSummary, GuildView, MemberView, VoiceMember, cv, cvs, gv, mv, mvs};
use crate::text::{owned, push_str, trim, trim_spec};

verus! {

broadcast use {vstd::std_specs::hash::group_hash_axioms, vstd::seq_lib::group_seq_properties};

/// The icon hash of a guild: its properties' icon, else its own icon.
pub open spec fn icon_hash(g: Guild) -> Option<Seq<char>> {
    match g.properties {
        Some(p) if p.icon is Some => Some(p.icon->0@),
        _ => match g.icon {
            Some(i) => Some(i@),
            None => None,
        },
    }
}

/// The server bar entry of a guild of the ready payload.
pub open spec fn ready_guild_view(g: Guild) -> GuildView {
    GuildView {
        id: g.id,
        name: guild_display_name(g),
        icon_url: match icon_hash(g) {
            Some(h) => Some(icon_url_spec(g.id.0, h)),
            None => None,
        },
    }
}

/// The server bar after the ready payload: the direct-message entry first when the
/// payload lists DM channels, then the guilds in order.
pub open spec fn ready_guilds(d: ReadyData) -> Seq<GuildView> {
    (if d.private_channels is Some {
        seq![GuildView { id: SnowflakeID(0), name: "@ Direct Messages"@, icon_url: None }]
    } else {
        Seq::<GuildView>::empty()
    }) + d.guilds@.map_values(|g: Guild| ready_guild_view(g))
}

/// The DM channel list: most recent activity first, ties in payload order.
pub open spec fn dm_list(d: ReadyData) -> Seq<ChanView> {
    elems(stable_sort(d.private_channels->0@.map_values(
        |dm: crate::receive_struct::ready::PrivateChannels| (seq![-(dm_view(dm, d.users@).last_activity as int)], dm_view(dm, d.users@)),
    )))
}

/// Channel lists by guild after folding in the guilds `gs` (a repeated guild id keeps the
/// last list).
pub open spec fn guild_lists_fold(gs: Seq<Guild>, base: Map<u64, Seq<ChanView>>) -> Map<u64, Seq<ChanView>>
    decreases gs.len(),
{
    if gs.len() == 0 {
        base
    } else {
        guild_lists_fold(gs.drop_last(), base).insert(gs.last().id.0, guild_channels_spec(gs.last()))
    }
}

/// Channel lists by guild after the ready payload: the DM list under guild zero when the
/// payload lists DM channels, and each guild's channel list.
pub open spec fn ready_channels(d: ReadyData) -> Map<u64, Seq<ChanView>> {
    let base = if d.private_channels is Some {
        Map::<u64, Seq<ChanView>>::empty().insert(0, dm_list(d))
    } else {
        Map::<u64, Seq<ChanView>>::empty()
    };
    guild_lists_fold(d.guilds@, base)
}

/// The voice member that a voice state of the payload adds: the member's user name when
/// it is not empty, else the user id in decimal.
pub open spec fn ready_member(vs: GuildVoiceState, uid: u64) -> MemberView {
    MemberView {
        id: SnowflakeID(uid),
        name: match vs.member_username {
            Some(n) if n@.len() > 0 => n@,
            _ => dec(uid as nat),
        },
        mute: vs.mute || vs.self_mute,
        deaf: vs.deaf || vs.self_deaf,
        video: vs.self_video,
        stream: vs.self_stream,
    }
}

/// The raw id parsed, when present and numeric.
pub open spec fn opt_parse(s: Option<String>) -> Option<u64> {
    match s {
        Some(x) => parse_u64_spec(x@),
        None => None,
    }
}

/// Voice members by channel after adding the voice states `vs` in order; states whose
/// user or channel id does not parse are skipped.
pub open spec fn voice_fold(vs: Seq<GuildVoiceState>, m: Map<u64, Seq<MemberView>>) -> Map<u64, Seq<MemberView>>
    decreases vs.len(),
{
    if vs.len() == 0 {
        m
    } else {
        let r = voice_fold(vs.drop_last(), m);
        let v = vs.last();
        match (opt_parse(v.user_id), opt_parse(v.channel_id)) {
            (Some(u), Some(c)) => r.insert(c, (if r.contains_key(c) { r[c] } else { Seq::empty() }).push(ready_member(v, u))),
            _ => r,
        }
    }
}

/// Voice members by channel after the guilds `gs`.
pub open spec fn voice_guilds(gs: Seq<Guild>) -> Map<u64, Seq<MemberView>>
    decreases gs.len(),
{
    if gs.len() == 0 {
        Map::empty()
    } else {
        voice_fold(gs.last().voice_states@, voice_guilds(gs.drop_last()))
    }
}

/// The name recorded for a listed user: the trimmed global name when not blank, else the
/// trimmed user name.
pub open spec fn listed_name(u: UserStub) -> Seq<char> {
    match u.global_name {
        Some(g) if trim_spec(g@).len() > 0 => trim_spec(g@),
        _ => trim_spec(u.username@),
    }
}

/// The user directory after recording the listed users in order (users whose id does not
/// parse or whose name is blank are skipped).
pub open spec fn dir_fold(us: Seq<UserStub>, m: Map<u64, Seq<char>>) -> Map<u64, Seq<char>>
    decreases us.len(),
{
    if us.len() == 0 {
        m
    } else {
        let r = dir_fold(us.drop_last(), m);
        let u = us.last();
        match parse_u64_spec(u.id@) {
            Some(id) if listed_name(u).len() > 0 => r.insert(id, listed_name(u)),
            _ => r,
        }
    }
}

/// Channel lists by their views.
pub open spec fn chan_map_view(m: Map<u64, Vec<ChannelSummary>>) -> Map<u64, Seq<ChanView>> {
    m.map_values(|v: Vec<ChannelSummary>| cvs(v@))
}

/// Voice members by their views.
pub open spec fn member_map_view(m: Map<u64, Vec<VoiceMember>>) -> Map<u64, Seq<MemberView>> {
    m.map_values(|v: Vec<VoiceMember>| mvs(v@))
}

/// A directory by the characters of its names.
pub open spec fn dir_view(m: Map<u64, String>) -> Map<u64, Seq<char>> {
    m.map_values(|s: String| s@)
}

/// The views of guild entries.
pub open spec fn gvs(s: Seq<GuildSummary>) -> Seq<GuildView> {
    s.map_values(|g: GuildSummary| gv(g))
}

fn ready_guild(g: &Guild) -> (r: GuildSummary)
    ensures
        gv(r) == ready_guild_view(*g),
{
    let hash: Option<&String> = match &g.properties {
        Some(p) => match &p.icon {
            Some(i) => Some(i),
            None => match &g.icon {
                Some(i) => Some(i),
                None => None,
            },
        },
        None => match &g.icon {
            Some(i) => Some(i),
            None => None,
        },
    };
    GuildSummary {
        id: g.id,
        name: owned(g.display_name()),
        icon_url: match hash {
            Some(h) => Some(icon_url_for(g.id, h.as_str())),
            None => None,
        },
    }
}

/// The server bar entries of the ready payload.
pub fn ready_guild_list(d: &ReadyData) -> (r: Vec<GuildSummary>)
    ensures
        gvs(r@) == ready_guilds(*d),
{
    let mut out: Vec<GuildSummary> = Vec::new();
    if d.private_channels.is_some() {
        out.push(GuildSummary { id: SnowflakeID(0), name: owned("@ Direct Messages"), icon_url: None });
    }
    let ghost head = gvs(out@);
    let mut i: usize = 0;
    while i < d.guilds.len()
        invariant
            0 <= i <= d.guilds.len(),
            head == (if d.private_channels is Some {
                seq![GuildView { id: SnowflakeID(0), name: "@ Direct Messages"@, icon_url: None }]
            } else {
                Seq::<GuildView>::empty()
            }),
            gvs(out@) =~= head + d.guilds@.take(i as int).map_values(|g: Guild| ready_guild_view(g)),
        decreases d.guilds.len() - i,
    {
        let ghost before = gvs(out@);
        out.push(ready_guild(&d.guilds[i]));
        assert(d.guilds@.take(i + 1).map_values(|g: Guild| ready_guild_view(g)) =~= d.guilds@.take(i as int).map_values(|g: Guild| ready_guild_view(g)).push(ready_guild_view(d.guilds@[i as int])));
        assert(gvs(out@) =~= before.push(ready_guild_view(d.guilds@[i as int])));
        i += 1;
    }
    assert(d.guilds@.take(d.guilds.len() as int) =~= d.guilds@);
    out
}

/// The DM channel list of the ready payload (which must list DM channels).
pub fn ready_dm_list(d: &ReadyData) -> (r: Vec<ChannelSummary>)
    requires
        d.private_channels is Some,
    ensures
        cvs(r@) == dm_list(*d),
{
    let dms = match &d.private_channels {
        Some(v) => v,
        None => { return Vec::new(); },
    };
    let ghost spec_list = d.private_channels->0@.map_values(
        |dm: crate::receive_struct::ready::PrivateChannels| (seq![-(dm_view(dm, d.users@).last_activity as int)], dm_view(dm, d.users@)),
    );
    let mut kd: Vec<(Vec<i128>, ChannelSummary)> = Vec::new();
    let mut i: usize = 0;
    while i < dms.len()
        invariant
            0 <= i <= dms.len(),
            dms@ == d.private_channels->0@,
            spec_list == d.private_channels->0@.map_values(
                |dm: crate::receive_struct::ready::PrivateChannels| (seq![-(dm_view(dm, d.users@).last_activity as int)], dm_view(dm, d.users@)),
            ),
            map_elems(keyed(kd@), |c: ChannelSummary| cv(c)) =~= spec_list.take(i as int),
        decreases dms.len() - i,
    {
        let c = dm_summary(&dms[i], d.users.as_slice());
        let mut k: Vec<i128> = Vec::new();
        k.push(-(c.last_activity as i128));
        assert(key_of(k@) =~= seq![-(cv(c).last_activity as int)]);
        let ghost before = kd@;
        kd.push((k, c));
        assert(map_elems(keyed(kd@), |c: ChannelSummary| cv(c)) =~= map_elems(keyed(before), |c: ChannelSummary| cv(c)).push((seq![-(cv(c).last_activity as int)], cv(c))));
        i += 1;
    }
    assert(spec_list.take(dms.len() as int) =~= spec_list);
    let ghost kv = keyed(kd@);
    proof {
        lemma_sort_map(kv, |c: ChannelSummary| cv(c));
    }
    let r = sort_by_key(kd);
    assert(cvs(r@) =~= elems(stable_sort(map_elems(kv, |c: ChannelSummary| cv(c)))));
    r
}

fn fold_guild_lists(gs: &[Guild], m: &mut HashMap<u64, Vec<ChannelSummary>>)
    ensures
        chan_map_view(final(m)@) == guild_lists_fold(gs@, chan_map_view(old(m)@)),
{
    let ghost base = chan_map_view(m@);
    let mut i: usize = 0;
    while i < gs.len()
        invariant
            0 <= i <= gs.len(),
            chan_map_view(m@) == guild_lists_fold(gs@.take(i as int), base),
        decreases gs.len() - i,
    {
        assert(gs@.take(i + 1).drop_last() =~= gs@.take(i as int));
        let v = guild_channel_summaries(&gs[i]);
        let ghost before = m@;
        m.insert(gs[i].id.0, v);
        assert(chan_map_view(m@) =~= chan_map_view(before).insert(gs@[i as int].id.0, guild_channels_spec(gs@[i as int])));
        i += 1;
    }
    assert(gs@.take(gs.len() as int) =~= gs@);
}

fn member_name(vs: &GuildVoiceState, uid: u64) -> (r: String)
    ensures
        r@ == ready_member(*vs, uid).name,
{
    match &vs.member_username {
        Some(n) => if !n.as_str().is_empty() { n.clone() } else { u64_to_string(uid) },
        None => u64_to_string(uid),
    }
}

fn opt_parse_exec(s: &Option<String>) -> (r: Option<u64>)
    ensures
        r == opt_parse(*s),
{
    match s {
        Some(x) => parse_u64(x.as_str()),
        None => None,
    }
}

fn fold_voice(vs: &[GuildVoiceState], m: &mut HashMap<u64, Vec<VoiceMember>>)
    ensures
        member_map_view(final(m)@) == voice_fold(vs@, member_map_view(old(m)@)),
{
    let ghost base = member_map_view(m@);
    let mut i: usize = 0;
    while i < vs.len()
        invariant
            0 <= i <= vs.len(),
            member_map_view(m@) == voice_fold(vs@.take(i as int), base),
        decreases vs.len() - i,
    {
        assert(vs@.take(i + 1).drop_last() =~= vs@.take(i as int));
        let v = &vs[i];
        let u = opt_parse_exec(&v.user_id);
        let c = opt_parse_exec(&v.channel_id);
        match (u, c) {
            (Some(uid), Some(ch)) => {
                let ghost before = m@;
                let mut list = match m.remove(&ch) {
                    Some(l) => l,
                    None => Vec::new(),
                };
                let vm = VoiceMember {
                    id: SnowflakeID(uid),
                    name: member_name(v, uid),
                    mute: v.mute || v.self_mute,
                    deaf: v.deaf || v.self_deaf,
                    video: v.self_video,
                    stream: v.self_stream,
                };
                assert(mv(vm) == ready_member(*v, uid));
                let ghost l0 = list@;
                list.push(vm);
                assert(mvs(list@) =~= mvs(l0).push(mv(vm)));
                m.insert(ch, list);
                assert(member_map_view(m@) =~= member_map_view(before).insert(ch,
                    (if member_map_view(before).contains_key(ch) { member_map_view(before)[ch] } else { Seq::empty() }).push(ready_member(*v, uid))));
            },
            _ => {},
        }
        i += 1;
    }
    assert(vs@.take(vs.len() as int) =~= vs@);
}

fn fold_voice_guilds(gs: &[Guild]) -> (r: HashMap<u64, Vec<VoiceMember>>)
    ensures
        member_map_view(r@) == voice_guilds(gs@),
{
    let mut m: HashMap<u64, Vec<VoiceMember>> = HashMap::new();
    assert(member_map_view(m@) =~= Map::empty());
    let mut i: usize = 0;
    while i < gs.len()
        invariant
            0 <= i <= gs.len(),
            member_map_view(m@) == voice_guilds(gs@.take(i as int)),
        decreases gs.len() - i,
    {
        assert(gs@.take(i + 1).drop_last() =~= gs@.take(i as int));
        fold_voice(gs[i].voice_states.as_slice(), &mut m);
        i += 1;
    }
    assert(gs@.take(gs.len() as int) =~= gs@);
    m
}

fn listed_name_exec(u: &UserStub) -> (r: String)
    ensures
        r@ == listed_name(*u),
{
    match &u.global_name {
        Some(g) => {
            let t = trim(g.as_str());
            if !t.as_str().is_empty() { t } else { trim(u.username.as_str()) }
        },
        None => trim(u.username.as_str()),
    }
}

fn fold_dir(us: &[UserStub], m: &mut HashMap<u64, String>)
    ensures
        dir_view(final(m)@) == dir_fold(us@, dir_view(old(m)@)),
{
    let ghost base = dir_view(m@);
    let mut i: usize = 0;
    while i < us.len()
        invariant
            0 <= i <= us.len(),
            dir_view(m@) == dir_fold(us@.take(i as int), base),
        decreases us.len() - i,
    {
        assert(us@.take(i + 1).drop_last() =~= us@.take(i as int));
        match parse_u64(us[i].id.as_str()) {
            Some(id) => {
                let name = listed_name_exec(&us[i]);
                if !name.as_str().is_empty() {
                    let ghost before = m@;
                    m.insert(id, name);
                    assert(dir_view(m@) =~= dir_view(before).insert(id, listed_name(us@[i as int])));
                }
            },
            None => {},
        }
        i += 1;
    }
    assert(us@.take(us.len() as int) =~= us@);
}

/// The status line after the ready payload.
pub open spec fn ready_status(n: nat) -> Seq<char> {
    "READY — "@ + dec(n) + " servers"@
}

/// The state after the ready payload (see `AppState::apply_ready`).
pub open spec fn ready_rel(before: AppState, after: AppState, d: ReadyData) -> bool {
    &&& (gvs(after.guilds@) == ready_guilds(d))
    &&& (chan_map_view(after.channels_by_guild@) == ready_channels(d))
    &&& (member_map_view(after.voice.voice_members@) == voice_guilds(d.guilds@))
    &&& (dir_view(after.people.user_dir@) == ({
            let m = dir_fold(d.users@, dir_view(before.people.user_dir@));
            match d.user {
                Some(u) => if m.contains_key(u.id.0) { m } else { m.insert(u.id.0, u.username@) },
                None => m,
            }
        }))
    &&& (after.people.my_user_id == (match d.user { Some(u) => Some(u.id), None => before.people.my_user_id }))
    &&& (after.people.my_username@ == (match d.user { Some(u) => u.username@, None => before.people.my_username@ }))
    &&& (after.nav.current_guild == (match before.nav.current_guild {
            Some(g) => Some(g),
            None => if ready_guilds(d).len() > 0 { Some(ready_guilds(d)[0].id) } else { None },
        }))
    &&& (after.nav.conn_status@ == "online"@)
    &&& (after.nav.status_line@ == ready_status(ready_guilds(d).len()))
    &&& (after.nav == (crate::appstate::Nav {
            current_guild: after.nav.current_guild,
            conn_status: after.nav.conn_status,
            status_line: after.nav.status_line,
            ..before.nav
        }))
    &&& (after.people.presence == before.people.presence)
    &&& (after.people.typing == before.people.typing)
    &&& (after.people.guild_members == before.people.guild_members)
    &&& (after.people.members_requested == before.people.members_requested)
    &&& (after.voice == (crate::appstate::Voice { voice_members: after.voice.voice_members, ..before.voice }))
    &&& (after == (AppState {
            guilds: after.guilds,
            channels_by_guild: after.channels_by_guild,
            voice: after.voice,
            people: after.people,
            nav: after.nav,
            ..before
        }))
}

impl AppState {
    /// Takes in the ready payload: the server bar, the channel lists and the voice members
    /// are replaced by those of the payload; listed users are recorded in the directory
    /// (the own user too, under its user name, when not already there); the own id and
    /// name are set; the first server is selected when none was; the connection is online
    /// and the status line counts the servers.
    pub fn apply_ready(&mut self, d: &ReadyData)
        ensures
            ready_rel(*old(self), *final(self), *d),
    {
        let guilds = ready_guild_list(d);
        let mut chans: HashMap<u64, Vec<ChannelSummary>> = HashMap::new();
        if d.private_channels.is_some() {
            let dl = ready_dm_list(d);
            chans.insert(0, dl);
        }
        proof {
            let base = if d.private_channels is Some {
                Map::<u64, Seq<ChanView>>::empty().insert(0, dm_list(*d))
            } else {
                Map::<u64, Seq<ChanView>>::empty()
            };
            assert(chan_map_view(chans@) =~= base);
        }
        fold_guild_lists(d.guilds.as_slice(), &mut chans);
        let vm = fold_voice_guilds(d.guilds.as_slice());
        self.guilds = guilds;
        self.channels_by_guild = chans;
        self.voice.voice_members = vm;
        fold_dir(d.users.as_slice(), &mut self.people.user_dir);
        match &d.user {
            Some(u) => {
                self.people.my_user_id = Some(u.id);
                if !self.people.user_dir.contains_key(&u.id.0) {
                    let ghost before = self.people.user_dir@;
                    self.people.user_dir.insert(u.id.0, u.username.clone());
                    assert(dir_view(self.people.user_dir@) =~= dir_view(before).insert(u.id.0, u.username@));
                }
                self.people.my_username = u.username.clone();
            },
            None => {},
        }
        if self.nav.current_guild.is_none() {
            if self.guilds.len() > 0 {
                self.nav.current_guild = Some(self.guilds[0].id);
            }
        }
        self.nav.conn_status = owned("online");
        let mut st = owned("READY — ");
        push_decimal(&mut st, self.guilds.len() as u64);
        push_str(&mut st, " servers");
        self.nav.status_line = st;
    }
}

} // verus!
