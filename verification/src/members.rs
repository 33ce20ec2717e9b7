use std::collections::HashSet;
use vstd::prelude::*;
use crate::actions::set_elems;
use crate::appstate::{AppState, copy_toast, display_name_of, keys_of, live_toasts, toast_alive, toast_ttl_secs};
use crate::search::{guild_name_of, status_of};
use crate::snowflake::SnowflakeID;
use crate::sorting::{elems, key_of, keyed, lemma_sort_from, lemma_sort_map, lemma_sort_sorted, lex_lt, map_elems, sort_by_key, stable_sort};
use crate::state::{ChannelSummary, GuildSummary, PresenceStatus, Toast, rank_of, typing_ttl_ms};
use crate::text::{chars_of, owned, to_lowercase, unicode_lowercase};

verus! {

broadcast use {vstd::std_specs::hash::group_hash_axioms, vstd::seq_lib::group_seq_properties};

/// The guild whose members are listed: the selected one, unless it is the DM pseudo-guild.
pub open spec fn member_guild(s: AppState) -> Option<u64> {
    match s.nav.current_guild {
        Some(g) if g.0 != 0 => Some(g.0),
        _ => None,
    }
}

/// The ids seen in guild `g`: authors of messages and members of voice channels of its
/// listed channels.
pub open spec fn seen_in(s: AppState, cs: Seq<ChannelSummary>) -> Set<u64> {
    Set::new(|u: u64| exists|i: int| 0 <= i < cs.len() && #[trigger] seen_at(s, cs[i].id.0, u))
}

/// User `u` wrote a message in channel `c` or is in its voice members.
pub open spec fn seen_at(s: AppState, c: u64, u: u64) -> bool {
    ||| (s.messages@.contains_key(c) && exists|j: int| 0 <= j < s.messages@[c]@.len() && #[trigger] s.messages@[c]@[j].author_id.0 == u)
    ||| (s.voice.voice_members@.contains_key(c) && exists|j: int| 0 <= j < s.voice.voice_members@[c]@.len() && #[trigger] s.voice.voice_members@[c]@[j].id.0 == u)
}

/// The ids listed in the member pane: the guild's roster when known, else the users seen in
/// its channels; everyone in the directory outside a guild, or when that gives no one.
pub open spec fn member_ids(s: AppState) -> Set<u64> {
    let base = match member_guild(s) {
        Some(g) => if s.people.guild_members@.contains_key(g) && s.people.guild_members@[g]@.len() > 0 {
            s.people.guild_members@[g]@
        } else if s.channels_by_guild@.contains_key(g) {
            seen_in(s, s.channels_by_guild@[g]@)
        } else {
            Set::empty()
        },
        None => s.people.user_dir@.dom(),
    };
    if base.len() == 0 { s.people.user_dir@.dom() } else { base }
}

/// The first guild entry with id `id`.
pub open spec fn first_guild_name(gs: Seq<GuildSummary>, id: u64) -> Option<Seq<char>>
    decreases gs.len(),
{
    if gs.len() == 0 {
        None
    } else if gs[0].id.0 == id {
        Some(gs[0].name@)
    } else {
        first_guild_name(gs.drop_first(), id)
    }
}

/// The heading of the member pane: the guild's name (or `server`), or `everyone known`.
pub open spec fn member_scope(s: AppState) -> Seq<char> {
    match member_guild(s) {
        Some(g) => match first_guild_name(s.guilds@, g) {
            Some(n) => n,
            None => "server"@,
        },
        None => "everyone known"@,
    }
}

/// The sort key of a member: status rank, then the code points of the lower-case name.
pub open spec fn member_key(name: Seq<char>, p: PresenceStatus) -> Seq<int> {
    seq![rank_of(p)] + unicode_lowercase(name).map_values(|c: char| (c as u32) as int)
}

/// A member entry by its plain values.
pub open spec fn member_entry(s: AppState, id: u64) -> (Seq<int>, (Seq<char>, PresenceStatus)) {
    let n = display_name_of(s.people.user_dir@, id);
    let p = status_of(s.people.presence@, id);
    (member_key(n, p), (n, p))
}

/// Member entries by their plain values.
pub open spec fn member_view(v: Seq<(String, PresenceStatus)>) -> Seq<(Seq<char>, PresenceStatus)> {
    v.map_values(|e: (String, PresenceStatus)| (e.0@, e.1))
}

fn first_guild_name_exec(gs: &Vec<GuildSummary>, id: u64) -> (r: Option<String>)
    ensures
        match r {
            Some(n) => first_guild_name(gs@, id) == Some(n@),
            None => first_guild_name(gs@, id) is None,
        },
{
    let mut i: usize = 0;
    while i < gs.len()
        invariant
            0 <= i <= gs.len(),
            first_guild_name(gs@, id) == first_guild_name(gs@.skip(i as int), id),
        decreases gs.len() - i,
    {
        assert(gs@.skip(i as int)[0] == gs@[i as int]);
        assert(gs@.skip(i as int).drop_first() =~= gs@.skip(i + 1));
        if gs[i].id.0 == id {
            return Some(gs[i].name.clone());
        }
        i += 1;
    }
    None
}

fn key_chars(rank: i128, s: &str) -> (r: Vec<i128>)
    ensures
        key_of(r@) == seq![rank as int] + s@.map_values(|c: char| (c as u32) as int),
{
    let cs = chars_of(s);
    let mut k: Vec<i128> = Vec::new();
    k.push(rank);
    let mut i: usize = 0;
    while i < cs.len()
        invariant
            0 <= i <= cs.len(),
            cs@ == s@,
            key_of(k@) == seq![rank as int] + cs@.take(i as int).map_values(|c: char| (c as u32) as int),
        decreases cs.len() - i,
    {
        let v = cs[i] as u32 as i128;
        assert(v as int == (cs@[i as int] as u32) as int);
        let ghost k0 = k@;
        k.push(v);
        assert(key_of(k@) =~= key_of(k0).push((cs@[i as int] as u32) as int));
        assert(cs@.take(i + 1).map_values(|c: char| (c as u32) as int) =~= cs@.take(i as int).map_values(|c: char| (c as u32) as int).push((cs@[i as int] as u32) as int));
        assert(key_of(k@) =~= seq![rank as int] + cs@.take(i + 1).map_values(|c: char| (c as u32) as int));
        i += 1;
    }
    assert(cs@.take(cs.len() as int) =~= cs@);
    k
}

/// Adds the users seen in the channels `cs` to `ids`.
fn add_seen(s: &AppState, cs: &Vec<ChannelSummary>, ids: &mut HashSet<u64>)
    ensures
        final(ids)@ == old(ids)@.union(seen_in(*s, cs@)),
{
    let ghost base = ids@;
    let mut i: usize = 0;
    while i < cs.len()
        invariant
            0 <= i <= cs.len(),
            ids@ == base.union(seen_in(*s, cs@.take(i as int))),
        decreases cs.len() - i,
    {
        let c = cs[i].id.0;
        let ghost before = ids@;
        match s.messages.get(&c) {
            Some(ms) => {
                let mut j: usize = 0;
                while j < ms.len()
                    invariant
                        0 <= j <= ms.len(),
                        s.messages@.contains_key(c) && s.messages@[c]@ == ms@,
                        ids@ == before.union(Set::new(|u: u64| exists|q: int| 0 <= q < j && ms@[q].author_id.0 == u)),
                    decreases ms.len() - j,
                {
                    ids.insert(ms[j].author_id.0);
                    assert(ids@ =~= before.union(Set::new(|u: u64| exists|q: int| 0 <= q < j + 1 && ms@[q].author_id.0 == u)));
                    j += 1;
                }
            },
            None => {},
        }
        let ghost mid = ids@;
        match s.voice.voice_members.get(&c) {
            Some(vs) => {
                let mut j: usize = 0;
                while j < vs.len()
                    invariant
                        0 <= j <= vs.len(),
                        s.voice.voice_members@.contains_key(c) && s.voice.voice_members@[c]@ == vs@,
                        ids@ == mid.union(Set::new(|u: u64| exists|q: int| 0 <= q < j && vs@[q].id.0 == u)),
                    decreases vs.len() - j,
                {
                    ids.insert(vs[j].id.0);
                    assert(ids@ =~= mid.union(Set::new(|u: u64| exists|q: int| 0 <= q < j + 1 && vs@[q].id.0 == u)));
                    j += 1;
                }
            },
            None => {},
        }
        proof {
            assert(cs@.take(i + 1) =~= cs@.take(i as int).push(cs@[i as int]));
            assert forall|u: u64| ids@.contains(u) <==> base.union(seen_in(*s, cs@.take(i + 1))).contains(u) by {
                if ids@.contains(u) && !before.contains(u) {
                    assert(seen_at(*s, cs@.take(i + 1)[i as int].id.0, u));
                }
                if seen_in(*s, cs@.take(i + 1)).contains(u) {
                    let w = choose|w: int| 0 <= w < i + 1 && #[trigger] seen_at(*s, cs@.take(i + 1)[w].id.0, u);
                    if w < i {
                        assert(cs@.take(i as int)[w] == cs@.take(i + 1)[w]);
                        assert(seen_in(*s, cs@.take(i as int)).contains(u));
                    }
                }
                if seen_in(*s, cs@.take(i as int)).contains(u) {
                    let w = choose|w: int| 0 <= w < i && #[trigger] seen_at(*s, cs@.take(i as int)[w].id.0, u);
                    assert(cs@.take(i as int)[w] == cs@.take(i + 1)[w]);
                }
            }
            assert(ids@ =~= base.union(seen_in(*s, cs@.take(i + 1))));
        }
        i += 1;
    }
    assert(cs@.take(cs.len() as int) =~= cs@);
}

fn insert_all(ids: &mut HashSet<u64>, ks: &Vec<u64>)
    ensures
        final(ids)@ == old(ids)@.union(ks@.to_set()),
{
    let ghost base = ids@;
    let mut i: usize = 0;
    while i < ks.len()
        invariant
            0 <= i <= ks.len(),
            ids@ == base.union(ks@.take(i as int).to_set()),
        decreases ks.len() - i,
    {
        ids.insert(ks[i]);
        assert(ks@.take(i + 1) =~= ks@.take(i as int).push(ks@[i as int]));
        assert(ids@ =~= base.union(ks@.take(i + 1).to_set()));
        i += 1;
    }
    assert(ks@.take(ks.len() as int) =~= ks@);
}

impl AppState {
    /// The member pane: its heading (see [`member_scope`]) and the names and statuses of
    /// the users of [`member_ids`], by status (online, idle, do not disturb, offline), then
    /// by lower-case name; users that tie keep the order of the set `ids` was read in.
    pub fn member_list(&self) -> (r: (String, Vec<(String, PresenceStatus)>))
        ensures
            r.0@ == member_scope(*self),
            exists|ord: Seq<u64>| #![trigger ord.to_set()] {
                &&& ord.to_set() == member_ids(*self)
                &&& ord.no_duplicates()
                &&& member_view(r.1@) == elems(stable_sort(ord.map_values(|id: u64| member_entry(*self, id))))
            },
            forall|i: int, j: int| 0 <= i < j < r.1@.len() ==> {
                &&& ((#[trigger] r.1@[j]).1 is Online ==> (#[trigger] r.1@[i]).1 is Online)
                &&& (r.1@[i].1 is Offline ==> r.1@[j].1 is Offline)
            },
    {
        let mut ids: HashSet<u64> = HashSet::new();
        let guild = match self.nav.current_guild {
            Some(g) => if g.0 != 0 { Some(g.0) } else { None },
            None => None,
        };
        let scope = match guild {
            Some(g) => {
                let roster_used = match self.people.guild_members.get(&g) {
                    Some(r) => {
                        if r.len() > 0 {
                            let ks = set_elems(r);
                            insert_all(&mut ids, &ks);
                            assert(ids@ =~= r@);
                            true
                        } else {
                            false
                        }
                    },
                    None => false,
                };
                if !roster_used {
                    match self.channels_by_guild.get(&g) {
                        Some(cs) => {
                            add_seen(self, cs, &mut ids);
                            assert(ids@ =~= seen_in(*self, cs@));
                        },
                        None => {
                            assert(ids@ =~= Set::<u64>::empty());
                        },
                    }
                }
                match first_guild_name_exec(&self.guilds, g) {
                    Some(n) => n,
                    None => owned("server"),
                }
            },
            None => {
                let ks = keys_of(&self.people.user_dir);
                insert_all(&mut ids, &ks);
                assert(ids@ =~= self.people.user_dir@.dom());
                owned("everyone known")
            },
        };
        if ids.len() == 0 {
            let ks = keys_of(&self.people.user_dir);
            ids = HashSet::new();
            insert_all(&mut ids, &ks);
            assert(ids@ =~= self.people.user_dir@.dom());
        }
        assert(ids@ == member_ids(*self));
        let order = set_elems(&ids);
        let mut kv: Vec<(Vec<i128>, (String, PresenceStatus))> = Vec::new();
        let mut i: usize = 0;
        while i < order.len()
            invariant
                0 <= i <= order.len(),
                map_elems(keyed(kv@), |e: (String, PresenceStatus)| (e.0@, e.1)) =~= order@.take(i as int).map_values(|id: u64| member_entry(*self, id)),
            decreases order.len() - i,
        {
            let id = order[i];
            let name = self.display_name(SnowflakeID(id));
            let p = self.presence_of(SnowflakeID(id));
            let low = to_lowercase(name.as_str());
            let k = key_chars(p.rank(), low.as_str());
            let ghost k0 = kv@;
            kv.push((k, (name, p)));
            assert(map_elems(keyed(kv@), |e: (String, PresenceStatus)| (e.0@, e.1)) =~= map_elems(keyed(k0), |e: (String, PresenceStatus)| (e.0@, e.1)).push(member_entry(*self, id)));
            assert(order@.take(i + 1).map_values(|id: u64| member_entry(*self, id)) =~= order@.take(i as int).map_values(|id: u64| member_entry(*self, id)).push(member_entry(*self, id)));
            i += 1;
        }
        assert(order@.take(order.len() as int) =~= order@);
        let ghost kk = keyed(kv@);
        proof {
            lemma_sort_map(kk, |e: (String, PresenceStatus)| (e.0@, e.1));
        }
        let sorted = sort_by_key(kv);
        assert(member_view(sorted@) =~= elems(stable_sort(map_elems(kk, |e: (String, PresenceStatus)| (e.0@, e.1)))));
        proof {
            let v = member_view(sorted@);
            law_member_status_order(*self, order@, v);
            assert forall|i: int, j: int| 0 <= i < j < sorted@.len() implies {
                &&& ((#[trigger] sorted@[j]).1 is Online ==> (#[trigger] sorted@[i]).1 is Online)
                &&& (sorted@[i].1 is Offline ==> sorted@[j].1 is Offline)
            } by {
                assert(v[i].1 == sorted@[i].1 && v[j].1 == sorted@[j].1);
            }
        }
        (scope, sorted)
    }

    /// The names of the users typing in channel `channel` at `now_ms`, other than the
    /// client's own user, in the order they started.
    pub fn typing_names(&self, channel: SnowflakeID, now_ms: u64) -> (r: Vec<String>)
        ensures
            r@.map_values(|n: String| n@) == typing_list(*self, channel.0, now_ms),
    {
        let mut out: Vec<String> = Vec::new();
        match self.people.typing.get(&channel.0) {
            Some(v) => {
                let mut i: usize = 0;
                while i < v.len()
                    invariant
                        0 <= i <= v.len(),
                        self.people.typing@.contains_key(channel.0) && self.people.typing@[channel.0]@ == v@,
                        out@.map_values(|n: String| n@) == typing_from(v@.take(i as int), *self, now_ms),
                    decreases v.len() - i,
                {
                    assert(v@.take(i + 1).drop_last() =~= v@.take(i as int));
                    let (u, t) = v[i];
                    let mine = match self.people.my_user_id {
                        Some(me) => me.0 == u.0,
                        None => false,
                    };
                    let age: u64 = if now_ms >= t { now_ms - t } else { 0 };
                    if !mine && age < 9000 {
                        let ghost before = out@;
                        out.push(self.display_name(u));
                        assert(out@.map_values(|n: String| n@) =~= before.map_values(|n: String| n@).push(display_name_of(self.people.user_dir@, u.0)));
                    }
                    i += 1;
                }
                assert(v@.take(v.len() as int) =~= v@);
            },
            None => {},
        }
        out
    }

    /// The toasts on screen at `now_ms`: the live ones, newest first, at most three (see
    /// [`cap_rev_live`]).
    pub fn active_toasts(&self, now_ms: u64) -> (r: Vec<Toast>)
        ensures
            r@ == cap_rev_live(self.panels.notifications@, now_ms, toast_ttl_secs(self.prefs)),
    {
        let ttl = self.toast_ttl();
        let v = &self.panels.notifications;
        let mut out: Vec<Toast> = Vec::new();
        let mut i = v.len();
        while i > 0 && out.len() < 3
            invariant
                i <= v.len(),
                out@ == cap_rev_live(v@.skip(i as int), now_ms, ttl),
                ttl == toast_ttl_secs(self.prefs),
            decreases i,
        {
            assert(v@.skip(i - 1).drop_first() =~= v@.skip(i as int));
            assert(v@.skip(i - 1)[0] == v@[i - 1]);
            if crate::appstate::alive(&v[i - 1], now_ms, ttl) {
                out.push(copy_toast(&v[i - 1]));
            }
            i -= 1;
        }
        proof {
            if i > 0 {
                lemma_cap_full(v@, 0, i as int, now_ms, ttl);
            }
            assert(v@.skip(0) =~= v@);
        }
        out
    }
}

/// The names typing in `v` at `now` (entries of the own user and expired ones skipped).
pub open spec fn typing_from(v: Seq<(SnowflakeID, u64)>, s: AppState, now: u64) -> Seq<Seq<char>>
    decreases v.len(),
{
    if v.len() == 0 {
        Seq::empty()
    } else {
        let r = typing_from(v.drop_last(), s, now);
        let (u, t) = v.last();
        if s.people.my_user_id != Some(u) && (if now >= t { now - t } else { 0 }) < typing_ttl_ms() {
            r.push(display_name_of(s.people.user_dir@, u.0))
        } else {
            r
        }
    }
}

/// The names typing in channel `c` at `now`.
pub open spec fn typing_list(s: AppState, c: u64, now: u64) -> Seq<Seq<char>> {
    if s.people.typing@.contains_key(c) { typing_from(s.people.typing@[c]@, s, now) } else { Seq::empty() }
}

/// The live toasts among `v` from the newest, stopping at three.
pub open spec fn cap_rev_live(v: Seq<Toast>, now: u64, ttl: u64) -> Seq<Toast>
    decreases v.len(),
{
    if v.len() == 0 {
        Seq::empty()
    } else {
        let r = cap_rev_live(v.drop_first(), now, ttl);
        if r.len() < 3 && toast_alive(v[0], now, ttl) { r.push(v[0]) } else { r }
    }
}

/// Once three toasts are taken from a suffix, older toasts add nothing.
proof fn lemma_cap_full(v: Seq<Toast>, j: int, i: int, now: u64, ttl: u64)
    requires
        0 <= j <= i <= v.len(),
        cap_rev_live(v.skip(i), now, ttl).len() >= 3,
    ensures
        cap_rev_live(v.skip(j), now, ttl) == cap_rev_live(v.skip(i), now, ttl),
    decreases i - j,
{
    if j < i {
        lemma_cap_full(v, j + 1, i, now, ttl);
        assert(v.skip(j).drop_first() =~= v.skip(j + 1));
    }
}


/// The code points of the lower-case form of a name.
pub open spec fn lower_codes(name: Seq<char>) -> Seq<int> {
    unicode_lowercase(name).map_values(|c: char| (c as u32) as int)
}

/// The member list is grouped by status: every online member comes before every idle, do
/// not disturb and offline one, idle before do not disturb and offline, do not disturb
/// before offline; offline members come last; members of one status come by their
/// lower-case names (the list of [`AppState::member_list`], for the
/// order `ord` in which it read the users).
pub proof fn law_member_status_order(s: AppState, ord: Seq<u64>, v: Seq<(Seq<char>, PresenceStatus)>)
    requires
        v == elems(stable_sort(ord.map_values(|id: u64| member_entry(s, id)))),
    ensures
        forall|i: int, j: int| 0 <= i < j < v.len() ==> {
            &&& ((#[trigger] v[j]).1 is Online ==> (#[trigger] v[i]).1 is Online)
            &&& (v[i].1 is Offline ==> v[j].1 is Offline)
            &&& (v[i].1 is Dnd ==> v[j].1 is Dnd || v[j].1 is Offline)
            &&& (v[i].1 is Idle ==> !(v[j].1 is Online))
            &&& (v[j].1 is Idle ==> v[i].1 is Online || v[i].1 is Idle)
            &&& (v[i].1 == v[j].1 ==> !lex_lt(lower_codes(v[j].0), lower_codes(v[i].0)))
        },
{
    let es = ord.map_values(|id: u64| member_entry(s, id));
    let t = stable_sort(es);
    lemma_sort_sorted(es);
    assert forall|i: int, j: int| 0 <= i < j < v.len() implies {
        &&& ((#[trigger] v[j]).1 is Online ==> (#[trigger] v[i]).1 is Online)
        &&& (v[i].1 is Offline ==> v[j].1 is Offline)
        &&& (v[i].1 is Dnd ==> v[j].1 is Dnd || v[j].1 is Offline)
        &&& (v[i].1 is Idle ==> !(v[j].1 is Online))
        &&& (v[j].1 is Idle ==> v[i].1 is Online || v[i].1 is Idle)
        &&& (v[i].1 == v[j].1 ==> !lex_lt(lower_codes(v[j].0), lower_codes(v[i].0)))
    } by {
        lemma_sort_from(es, i);
        lemma_sort_from(es, j);
        let a = choose|a: int| 0 <= a < es.len() && es[a] == t[i];
        let b = choose|b: int| 0 <= b < es.len() && es[b] == t[j];
        let ki = t[i].0;
        let kj = t[j].0;
        assert(ki == member_key(t[i].1.0, t[i].1.1));
        assert(kj == member_key(t[j].1.0, t[j].1.1));
        assert(ki[0] == rank_of(t[i].1.1));
        assert(kj[0] == rank_of(t[j].1.1));
        assert(!lex_lt(kj, ki));
        assert(kj[0] >= ki[0]);
        assert(v[i] == t[i].1 && v[j] == t[j].1);
        assert(ki.drop_first() =~= lower_codes(v[i].0));
        assert(kj.drop_first() =~= lower_codes(v[j].0));
    }
}

} // verus!
