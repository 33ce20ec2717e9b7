use std::collections::HashMap;
use vstd::prelude::*;
use crate::appstate::{AppState, Search, has_channel, keys_of, channel_in};
use crate::snowflake::SnowflakeID;
use crate::sorting::{elems, key_of, keyed, lemma_sort_keeps, lemma_sort_map, map_elems, sort_by_key, stable_sort};
use crate::state::{ChannelSummary, DisplayMessage, GuildSummary, PresenceStatus, SearchHit, lower_name_of};
use crate::text::{chars_of, contains, owned, push_str, seq_contains, seq_starts_with, starts_with, to_lowercase, trim, trim_spec, unicode_lowercase};

verus! {

broadcast use {vstd::std_specs::hash::group_hash_axioms, vstd::seq_lib::group_seq_properties};

/// A quick-switcher entry by the characters of its strings.
pub struct HitView {
    pub icon: char,
    pub label: Seq<char>,
    pub sub: Seq<char>,
    pub guild: Option<SnowflakeID>,
    pub channel: Option<SnowflakeID>,
}

/// The view of a quick-switcher entry.
pub open spec fn hv(h: SearchHit) -> HitView {
    HitView { icon: h.icon, label: h.label@, sub: h.sub@, guild: h.guild, channel: h.channel }
}

/// Number of bytes of the UTF-8 encoding of a character.
pub open spec fn utf8_width(c: char) -> int {
    if (c as u32) < 0x80 { 1 } else if (c as u32) < 0x800 { 2 } else if (c as u32) < 0x10000 { 3 } else { 4 }
}

/// Number of bytes of the UTF-8 encoding of `s` (`str::len`).
pub open spec fn utf8_len(s: Seq<char>) -> int
    decreases s.len(),
{
    if s.len() == 0 { 0 } else { utf8_len(s.drop_last()) + utf8_width(s.last()) }
}

/// Byte length of a string, counted over its characters.
pub fn byte_len(s: &str) -> (r: u128)
    ensures
        r == utf8_len(s@),
        r <= 4 * usize::MAX,
{
    let cs = chars_of(s);
    let mut n: u128 = 0;
    let mut i: usize = 0;
    while i < cs.len()
        invariant
            0 <= i <= cs.len(),
            cs@ == s@,
            n == utf8_len(cs@.take(i as int)),
            n <= 4 * i,
        decreases cs.len() - i,
    {
        assert(cs@.take(i + 1).drop_last() =~= cs@.take(i as int));
        let c = cs[i];
        let w: u128 = if (c as u32) < 0x80 { 1 } else if (c as u32) < 0x800 { 2 } else if (c as u32) < 0x10000 { 3 } else { 4 };
        n = n + w;
        i += 1;
    }
    assert(cs@.take(cs.len() as int) =~= cs@);
    n
}

/// How well a name matches the query `q` (already lower-case): 0 for equal, 1 for a
/// prefix, 2 for a part of it, none otherwise; names compare by their lower-case forms.
pub open spec fn score_of(h: Seq<char>, q: Seq<char>) -> Option<int> {
    let l = unicode_lowercase(h);
    if l == q {
        Some(0)
    } else if seq_starts_with(l, q) {
        Some(1)
    } else if seq_contains(l, q) {
        Some(2)
    } else {
        None
    }
}

fn score(h: &str, q: &str) -> (r: Option<i128>)
    ensures
        match r {
            Some(v) => score_of(h@, q@) == Some(v as int),
            None => score_of(h@, q@) is None,
        },
{
    let l = to_lowercase(h);
    if crate::state::str_eq(l.as_str(), q) {
        Some(0)
    } else if starts_with(l.as_str(), q) {
        Some(1)
    } else if contains(l.as_str(), q) {
        Some(2)
    } else {
        None
    }
}

/// A keyed entry: sorted by score, then by the byte length of the label.
pub open spec fn keyed_hit(score: int, h: HitView) -> (Seq<int>, HitView) {
    (seq![score, utf8_len(h.label)], h)
}

/// Entries for the guilds whose name matches (the DM pseudo-guild excluded).
pub open spec fn guild_hits(gs: Seq<GuildSummary>, q: Seq<char>) -> Seq<(Seq<int>, HitView)>
    decreases gs.len(),
{
    if gs.len() == 0 {
        Seq::empty()
    } else {
        let r = guild_hits(gs.drop_last(), q);
        let g = gs.last();
        if g.id.0 != 0 && score_of(g.name@, q) is Some {
            r.push(keyed_hit(score_of(g.name@, q)->0, HitView { icon: '#', label: g.name@, sub: "server"@, guild: Some(g.id), channel: None }))
        } else {
            r
        }
    }
}

/// The name of guild `id` (the last entry with that id), if listed.
pub open spec fn guild_name_of(gs: Seq<GuildSummary>, id: u64) -> Option<Seq<char>>
    decreases gs.len(),
{
    if gs.len() == 0 {
        None
    } else if gs.last().id.0 == id {
        Some(gs.last().name@)
    } else {
        guild_name_of(gs.drop_last(), id)
    }
}

/// The icon of a channel kind: a speaker for voice and stage, `@` for direct and group
/// messages, `#` for the rest.
pub open spec fn chan_icon(k: i64) -> char {
    if k == 2 || k == 13 { '🔊' } else if k == 1 || k == 3 { '@' } else { '#' }
}

/// Where a channel of guild `gid` is listed.
pub open spec fn chan_sub(gs: Seq<GuildSummary>, gid: u64) -> Seq<char> {
    if gid == 0 {
        "direct message"@
    } else {
        match guild_name_of(gs, gid) {
            Some(n) => n,
            None => "server"@,
        }
    }
}

/// Entries for the channels of list `cs` (of guild `gid`) whose name matches.
pub open spec fn list_hits(cs: Seq<ChannelSummary>, gid: u64, gs: Seq<GuildSummary>, q: Seq<char>) -> Seq<(Seq<int>, HitView)>
    decreases cs.len(),
{
    if cs.len() == 0 {
        Seq::empty()
    } else {
        let r = list_hits(cs.drop_last(), gid, gs, q);
        let c = cs.last();
        match score_of(c.name@, q) {
            Some(s) => r.push(keyed_hit(s + 1, HitView {
                icon: chan_icon(c.kind),
                label: c.name@,
                sub: chan_sub(gs, gid),
                guild: Some(SnowflakeID(gid)),
                channel: Some(c.id),
            })),
            None => r,
        }
    }
}

/// Entries for the channels of the guilds `ks`, in that order.
pub open spec fn chan_hits(ks: Seq<u64>, m: Map<u64, Vec<ChannelSummary>>, gs: Seq<GuildSummary>, q: Seq<char>) -> Seq<(Seq<int>, HitView)>
    decreases ks.len(),
{
    if ks.len() == 0 {
        Seq::empty()
    } else {
        chan_hits(ks.drop_last(), m, gs, q) + list_hits(m[ks.last()]@, ks.last(), gs, q)
    }
}

/// The DM channel with user `uid` (the last such entry), if listed.
pub open spec fn dm_for(dms: Seq<ChannelSummary>, uid: u64) -> Option<SnowflakeID>
    decreases dms.len(),
{
    if dms.len() == 0 {
        None
    } else if dms.last().recipient_id == Some(SnowflakeID(uid)) {
        Some(dms.last().id)
    } else {
        dm_for(dms.drop_last(), uid)
    }
}

/// The status of a user, offline when unknown.
pub open spec fn status_of(pres: Map<u64, PresenceStatus>, uid: u64) -> PresenceStatus {
    if pres.contains_key(uid) { pres[uid] } else { PresenceStatus::Offline }
}

/// Entries for the users `ks` of the directory whose name matches.
pub open spec fn user_hits(ks: Seq<u64>, dir: Map<u64, String>, pres: Map<u64, PresenceStatus>, dms: Seq<ChannelSummary>, q: Seq<char>) -> Seq<(Seq<int>, HitView)>
    decreases ks.len(),
{
    if ks.len() == 0 {
        Seq::empty()
    } else {
        let r = user_hits(ks.drop_last(), dir, pres, dms, q);
        let k = ks.last();
        match score_of(dir[k]@, q) {
            Some(s) => r.push(keyed_hit(s + 1, HitView {
                icon: '@',
                label: dir[k]@,
                sub: "user · "@ + lower_name_of(status_of(pres, k)),
                guild: match dm_for(dms, k) { Some(_) => Some(SnowflakeID(0)), None => None },
                channel: dm_for(dms, k),
            })),
            None => r,
        }
    }
}

/// The first guild of `ks` that lists channel `c`.
pub open spec fn owner_in(ks: Seq<u64>, m: Map<u64, Vec<ChannelSummary>>, c: u64) -> Option<u64>
    decreases ks.len(),
{
    if ks.len() == 0 {
        None
    } else if has_channel(m[ks[0]]@, c) {
        Some(ks[0])
    } else {
        owner_in(ks.drop_first(), m, c)
    }
}

/// The entry for a message of channel `cid` that matches.
pub open spec fn msg_hit(m: DisplayMessage, cid: u64, owner: Option<u64>, gs: Seq<GuildSummary>) -> (Seq<int>, HitView) {
    keyed_hit(5, HitView {
        icon: '"',
        label: m.author@ + ": "@ + m.content@,
        sub: match owner {
            Some(g) => match guild_name_of(gs, g) {
                Some(n) => n,
                None => "direct message"@,
            },
            None => "direct message"@,
        },
        guild: match owner { Some(g) => Some(SnowflakeID(g)), None => None },
        channel: Some(SnowflakeID(cid)),
    })
}

/// Entries for the messages of `ms` (newest first) whose lower-case text contains `q`.
pub open spec fn rev_msg_hits(ms: Seq<DisplayMessage>, cid: u64, owner: Option<u64>, gs: Seq<GuildSummary>, q: Seq<char>) -> Seq<(Seq<int>, HitView)>
    decreases ms.len(),
{
    if ms.len() == 0 {
        Seq::empty()
    } else {
        let r = rev_msg_hits(ms.drop_first(), cid, owner, gs, q);
        if seq_contains(unicode_lowercase(ms[0].content@), q) { r.push(msg_hit(ms[0], cid, owner, gs)) } else { r }
    }
}

/// Entries for the messages of the channels `ks`, in that order.
pub open spec fn msg_hits(ks: Seq<u64>, msgs: Map<u64, Vec<DisplayMessage>>, gks: Seq<u64>, m: Map<u64, Vec<ChannelSummary>>, gs: Seq<GuildSummary>, q: Seq<char>) -> Seq<(Seq<int>, HitView)>
    decreases ks.len(),
{
    if ks.len() == 0 {
        Seq::empty()
    } else {
        let k = ks.last();
        msg_hits(ks.drop_last(), msgs, gks, m, gs, q) + rev_msg_hits(msgs[k]@, k, owner_in(gks, m, k), gs, q)
    }
}

/// At most the first `n` elements.
pub open spec fn cap<T>(s: Seq<T>, n: nat) -> Seq<T> {
    if s.len() <= n { s } else { s.take(n as int) }
}

/// The quick-switcher results for query text `input`, given the iteration orders of the
/// channel lists (`gks`), the directory (`uks`) and the message lists (`mks`): guilds,
/// channels, users, and the first 40 matching messages (newest first in each channel), by
/// score then label length, stable, at most 80.
pub open spec fn search_results_spec(s: AppState, gks: Seq<u64>, uks: Seq<u64>, mks: Seq<u64>) -> Seq<HitView> {
    hits_for_query(s, unicode_lowercase(trim_spec(s.search.search_input@)), gks, uks, mks)
}

/// The results for the lower-cased query `q`, the guild, user and message keys walked in the
/// orders `gks`, `uks` and `mks`: the matching guilds, channels, users and at most 40
/// messages, sorted by their keys (stable), at most 80.
pub open spec fn hits_for_query(s: AppState, q: Seq<char>, gks: Seq<u64>, uks: Seq<u64>, mks: Seq<u64>) -> Seq<HitView> {
    let dms = if s.channels_by_guild@.contains_key(0) { s.channels_by_guild@[0]@ } else { Seq::empty() };
    let all = guild_hits(s.guilds@, q)
        + chan_hits(gks, s.channels_by_guild@, s.guilds@, q)
        + user_hits(uks, s.people.user_dir@, s.people.presence@, dms, q)
        + cap(msg_hits(mks, s.messages@, gks, s.channels_by_guild@, s.guilds@, q), 40);
    cap(elems(stable_sort(all)), 80)
}

/// Keyed entries by their plain values.
pub open spec fn entries_view(v: Seq<(Vec<i128>, SearchHit)>) -> Seq<(Seq<int>, HitView)> {
    v.map_values(|e: (Vec<i128>, SearchHit)| (key_of(e.0@), hv(e.1)))
}

fn entry(score: i128, h: SearchHit) -> (r: (Vec<i128>, SearchHit))
    requires
        0 <= score <= 10,
    ensures
        (key_of(r.0@), hv(r.1)) == keyed_hit(score as int, hv(h)),
{
    let n = byte_len(h.label.as_str());
    let mut k: Vec<i128> = Vec::new();
    k.push(score);
    k.push(n as i128);
    assert(key_of(k@) =~= seq![score as int, utf8_len(h.label@)]);
    (k, h)
}

proof fn lemma_utf8_len_bound(s: Seq<char>)
    ensures
        0 <= utf8_len(s) <= 4 * s.len(),
    decreases s.len(),
{
    if s.len() > 0 {
        lemma_utf8_len_bound(s.drop_last());
    }
}

fn push_entry(out: &mut Vec<(Vec<i128>, SearchHit)>, score: i128, h: SearchHit)
    requires
        0 <= score <= 10,
    ensures
        entries_view(final(out)@) == entries_view(old(out)@).push(keyed_hit(score as int, hv(h))),
{
    let e = entry(score, h);
    let ghost before = out@;
    out.push(e);
    assert(entries_view(out@) =~= entries_view(before).push(keyed_hit(score as int, hv(h))));
}

fn add_guild_hits(gs: &Vec<GuildSummary>, q: &str, out: &mut Vec<(Vec<i128>, SearchHit)>)
    ensures
        entries_view(final(out)@) == entries_view(old(out)@) + guild_hits(gs@, q@),
{
    let ghost base = entries_view(out@);
    let mut i: usize = 0;
    while i < gs.len()
        invariant
            0 <= i <= gs.len(),
            entries_view(out@) == base + guild_hits(gs@.take(i as int), q@),
        decreases gs.len() - i,
    {
        assert(gs@.take(i + 1).drop_last() =~= gs@.take(i as int));
        let g = &gs[i];
        if g.id.0 != 0 {
            match score(g.name.as_str(), q) {
                Some(sc) => {
                    push_entry(out, sc, SearchHit { icon: '#', label: g.name.clone(), sub: owned("server"), guild: Some(g.id), channel: None });
                },
                None => {},
            }
        }
        i += 1;
    }
    assert(gs@.take(gs.len() as int) =~= gs@);
}

fn guild_name_exec(gs: &Vec<GuildSummary>, id: u64) -> (r: Option<String>)
    ensures
        match r {
            Some(n) => guild_name_of(gs@, id) == Some(n@),
            None => guild_name_of(gs@, id) is None,
        },
{
    let mut i = gs.len();
    while i > 0
        invariant
            i <= gs.len(),
            guild_name_of(gs@, id) == guild_name_of(gs@.take(i as int), id),
        decreases i,
    {
        assert(gs@.take(i - 1) =~= gs@.take(i as int).drop_last());
        if gs[i - 1].id.0 == id {
            return Some(gs[i - 1].name.clone());
        }
        i -= 1;
    }
    proof {
        assert(gs@.take(gs.len() as int) =~= gs@);
    }
    None
}

proof fn lemma_take_full<T>(s: Seq<T>)
    ensures
        s.take(s.len() as int) == s,
{
    assert(s.take(s.len() as int) =~= s);
}

fn chan_icon_of(k: i64) -> (r: char)
    ensures
        r == chan_icon(k),
{
    if k == 2 || k == 13 { '🔊' } else if k == 1 || k == 3 { '@' } else { '#' }
}

fn chan_sub_of(gs: &Vec<GuildSummary>, gid: u64) -> (r: String)
    ensures
        r@ == chan_sub(gs@, gid),
{
    if gid == 0 {
        owned("direct message")
    } else {
        match guild_name_exec(gs, gid) {
            Some(n) => n,
            None => owned("server"),
        }
    }
}

fn add_list_hits(cs: &Vec<ChannelSummary>, gid: u64, gs: &Vec<GuildSummary>, q: &str, out: &mut Vec<(Vec<i128>, SearchHit)>)
    ensures
        entries_view(final(out)@) == entries_view(old(out)@) + list_hits(cs@, gid, gs@, q@),
{
    let ghost base = entries_view(out@);
    let mut i: usize = 0;
    while i < cs.len()
        invariant
            0 <= i <= cs.len(),
            entries_view(out@) == base + list_hits(cs@.take(i as int), gid, gs@, q@),
        decreases cs.len() - i,
    {
        assert(cs@.take(i + 1).drop_last() =~= cs@.take(i as int));
        let c = &cs[i];
        match score(c.name.as_str(), q) {
            Some(sc) => {
                push_entry(out, sc + 1, SearchHit {
                    icon: chan_icon_of(c.kind),
                    label: c.name.clone(),
                    sub: chan_sub_of(gs, gid),
                    guild: Some(SnowflakeID(gid)),
                    channel: Some(c.id),
                });
            },
            None => {},
        }
        i += 1;
    }
    assert(cs@.take(cs.len() as int) =~= cs@);
}

fn add_chan_hits(ks: &Vec<u64>, m: &HashMap<u64, Vec<ChannelSummary>>, gs: &Vec<GuildSummary>, q: &str, out: &mut Vec<(Vec<i128>, SearchHit)>)
    requires
        forall|i: int| 0 <= i < ks@.len() ==> m@.contains_key(#[trigger] ks@[i]),
    ensures
        entries_view(final(out)@) == entries_view(old(out)@) + chan_hits(ks@, m@, gs@, q@),
{
    let ghost base = entries_view(out@);
    let mut i: usize = 0;
    while i < ks.len()
        invariant
            0 <= i <= ks.len(),
            forall|j: int| 0 <= j < ks@.len() ==> m@.contains_key(#[trigger] ks@[j]),
            entries_view(out@) == base + chan_hits(ks@.take(i as int), m@, gs@, q@),
        decreases ks.len() - i,
    {
        assert(ks@.take(i + 1).drop_last() =~= ks@.take(i as int));
        let k = ks[i];
        assert(m@.contains_key(ks@[i as int]));
        match m.get(&k) {
            Some(cs) => {
                add_list_hits(cs, k, gs, q, out);
            },
            None => {},
        }
        i += 1;
    }
    assert(ks@.take(ks.len() as int) =~= ks@);
}

fn dm_for_exec(dms: &[ChannelSummary], uid: u64) -> (r: Option<SnowflakeID>)
    ensures
        r == dm_for(dms@, uid),
{
    let mut i = dms.len();
    while i > 0
        invariant
            i <= dms.len(),
            dm_for(dms@, uid) == dm_for(dms@.take(i as int), uid),
        decreases i,
    {
        assert(dms@.take(i - 1) =~= dms@.take(i as int).drop_last());
        match dms[i - 1].recipient_id {
            Some(r) => {
                if r.0 == uid {
                    return Some(dms[i - 1].id);
                }
            },
            None => {},
        }
        i -= 1;
    }
    assert(dms@.take(dms.len() as int) =~= dms@);
    None
}

fn add_user_hits(ks: &Vec<u64>, state: &AppState, dms: &[ChannelSummary], q: &str, out: &mut Vec<(Vec<i128>, SearchHit)>)
    requires
        forall|i: int| 0 <= i < ks@.len() ==> state.people.user_dir@.contains_key(#[trigger] ks@[i]),
    ensures
        entries_view(final(out)@) == entries_view(old(out)@) + user_hits(ks@, state.people.user_dir@, state.people.presence@, dms@, q@),
{
    let ghost base = entries_view(out@);
    let mut i: usize = 0;
    while i < ks.len()
        invariant
            0 <= i <= ks.len(),
            forall|j: int| 0 <= j < ks@.len() ==> state.people.user_dir@.contains_key(#[trigger] ks@[j]),
            entries_view(out@) == base + user_hits(ks@.take(i as int), state.people.user_dir@, state.people.presence@, dms@, q@),
        decreases ks.len() - i,
    {
        assert(ks@.take(i + 1).drop_last() =~= ks@.take(i as int));
        let k = ks[i];
        assert(state.people.user_dir@.contains_key(ks@[i as int]));
        match state.people.user_dir.get(&k) {
            Some(name) => {
                match score(name.as_str(), q) {
                    Some(sc) => {
                        let dm = dm_for_exec(dms, k);
                        let mut sub = owned("user · ");
                        push_str(&mut sub, state.presence_of(SnowflakeID(k)).lower_name());
                        push_entry(out, sc + 1, SearchHit {
                            icon: '@',
                            label: name.clone(),
                            sub,
                            guild: match dm {
                                Some(_) => Some(SnowflakeID(0)),
                                None => None,
                            },
                            channel: dm,
                        });
                    },
                    None => {},
                }
            },
            None => {},
        }
        i += 1;
    }
    assert(ks@.take(ks.len() as int) =~= ks@);
}

fn owner_exec(ks: &Vec<u64>, m: &HashMap<u64, Vec<ChannelSummary>>, c: u64) -> (r: Option<u64>)
    requires
        forall|i: int| 0 <= i < ks@.len() ==> m@.contains_key(#[trigger] ks@[i]),
    ensures
        r == owner_in(ks@, m@, c),
{
    let mut i: usize = 0;
    while i < ks.len()
        invariant
            0 <= i <= ks.len(),
            forall|j: int| 0 <= j < ks@.len() ==> m@.contains_key(#[trigger] ks@[j]),
            owner_in(ks@, m@, c) == owner_in(ks@.skip(i as int), m@, c),
        decreases ks.len() - i,
    {
        assert(ks@.skip(i as int)[0] == ks@[i as int]);
        assert(ks@.skip(i as int).drop_first() =~= ks@.skip(i + 1));
        assert(m@.contains_key(ks@[i as int]));
        match m.get(&ks[i]) {
            Some(cs) => {
                if channel_in(cs.as_slice(), c) {
                    return Some(ks[i]);
                }
            },
            None => {},
        }
        i += 1;
    }
    None
}

fn msg_hit_exec(m: &DisplayMessage, cid: u64, owner: Option<u64>, gs: &Vec<GuildSummary>) -> (r: SearchHit)
    ensures
        keyed_hit(5, hv(r)) == msg_hit(*m, cid, owner, gs@),
{
    let mut label = m.author.clone();
    push_str(&mut label, ": ");
    push_str(&mut label, m.content.as_str());
    let sub = match owner {
        Some(g) => match guild_name_exec(gs, g) {
            Some(n) => n,
            None => owned("direct message"),
        },
        None => owned("direct message"),
    };
    let guild = match owner {
        Some(g) => Some(SnowflakeID(g)),
        None => None,
    };
    SearchHit { icon: '"', label, sub, guild, channel: Some(SnowflakeID(cid)) }
}

fn add_msg_hits(
    mks: &Vec<u64>,
    msgs: &HashMap<u64, Vec<DisplayMessage>>,
    gks: &Vec<u64>,
    m: &HashMap<u64, Vec<ChannelSummary>>,
    gs: &Vec<GuildSummary>,
    q: &str,
    out: &mut Vec<(Vec<i128>, SearchHit)>,
)
    requires
        forall|i: int| 0 <= i < mks@.len() ==> msgs@.contains_key(#[trigger] mks@[i]),
        forall|i: int| 0 <= i < gks@.len() ==> m@.contains_key(#[trigger] gks@[i]),
    ensures
        entries_view(final(out)@) == entries_view(old(out)@) + cap(msg_hits(mks@, msgs@, gks@, m@, gs@, q@), 40),
{
    let ghost base = entries_view(out@);
    let mut count: usize = 0;
    let mut i: usize = 0;
    while i < mks.len()
        invariant
            0 <= i <= mks.len(),
            forall|j: int| 0 <= j < mks@.len() ==> msgs@.contains_key(#[trigger] mks@[j]),
            forall|j: int| 0 <= j < gks@.len() ==> m@.contains_key(#[trigger] gks@[j]),
            count == cap(msg_hits(mks@.take(i as int), msgs@, gks@, m@, gs@, q@), 40).len(),
            entries_view(out@) == base + cap(msg_hits(mks@.take(i as int), msgs@, gks@, m@, gs@, q@), 40),
        decreases mks.len() - i,
    {
        assert(mks@.take(i + 1).drop_last() =~= mks@.take(i as int));
        let k = mks[i];
        assert(msgs@.contains_key(mks@[i as int]));
        let owner = owner_exec(gks, m, k);
        let ghost prev = msg_hits(mks@.take(i as int), msgs@, gks@, m@, gs@, q@);
        match msgs.get(&k) {
            Some(ms) => {
                let ghost full = ms@;
                let mut j = ms.len();
                while j > 0
                    invariant
                        j <= ms.len(),
                        full == ms@,
                        count == cap(prev + rev_msg_hits(ms@.skip(j as int), k, owner, gs@, q@), 40).len(),
                        entries_view(out@) == base + cap(prev + rev_msg_hits(ms@.skip(j as int), k, owner, gs@, q@), 40),
                    decreases j,
                {
                    let ghost cur = prev + rev_msg_hits(ms@.skip(j as int), k, owner, gs@, q@);
                    assert(ms@.skip(j - 1).drop_first() =~= ms@.skip(j as int));
                    assert(ms@.skip(j - 1)[0] == ms@[j - 1]);
                    let mm = &ms[j - 1];
                    let low = to_lowercase(mm.content.as_str());
                    if contains(low.as_str(), q) {
                        let ghost nxt = cur.push(msg_hit(*mm, k, owner, gs@));
                        assert(prev + rev_msg_hits(ms@.skip(j - 1), k, owner, gs@, q@) =~= nxt);
                        if count < 40 {
                            let h = msg_hit_exec(mm, k, owner, gs);
                            push_entry(out, 5, h);
                            assert(cap(nxt, 40) =~= cap(cur, 40).push(msg_hit(*mm, k, owner, gs@)));
                            count += 1;
                        } else {
                            assert(cap(nxt, 40) =~= cap(cur, 40));
                        }
                    } else {
                        assert(prev + rev_msg_hits(ms@.skip(j - 1), k, owner, gs@, q@) =~= cur);
                    }
                    j -= 1;
                }
                assert(ms@.skip(0) =~= ms@);
                assert(msg_hits(mks@.take(i + 1), msgs@, gks@, m@, gs@, q@) =~= prev + rev_msg_hits(ms@, k, owner, gs@, q@));
            },
            None => {},
        }
        i += 1;
    }
    assert(mks@.take(mks.len() as int) =~= mks@);
}

/// The views of quick-switcher entries.
pub open spec fn hvs(v: Seq<SearchHit>) -> Seq<HitView> {
    v.map_values(|h: SearchHit| hv(h))
}

/// The state after recomputing the quick-switcher results (see `AppState::rebuild_search`).
pub open spec fn search_rebuilt(before: AppState, after: AppState) -> bool {
    &&& (after.search == (Search {
            search_cursor: 0,
            search_results: after.search.search_results,
            ..before.search
        }))
    &&& (trim_spec(before.search.search_input@).len() == 0 ==> after.search.search_results@.len() == 0)
    &&& (trim_spec(before.search.search_input@).len() > 0 ==> exists|gks: Seq<u64>, uks: Seq<u64>, mks: Seq<u64>| {
            &&& #[trigger] gks.to_set() == before.channels_by_guild@.dom()
            &&& #[trigger] uks.to_set() == before.people.user_dir@.dom()
            &&& #[trigger] mks.to_set() == before.messages@.dom()
            &&& gks.no_duplicates() && uks.no_duplicates() && mks.no_duplicates()
            &&& hvs(after.search.search_results@) == search_results_spec(before, gks, uks, mks)
        })
    &&& (after == (AppState { search: after.search, ..before }))
}

impl AppState {
    /// Recomputes the quick-switcher results for the query (see [`search_results_spec`]);
    /// an empty query gives none. The cursor returns to the top.
    pub fn rebuild_search(&mut self)
        ensures
            search_rebuilt(*old(self), *final(self)),
    {
        let t = trim(self.search.search_input.as_str());
        let q = to_lowercase(t.as_str());
        let hits = if q.as_str().is_empty() { Vec::new() } else { self.search_hits(q.as_str()) };
        self.search.search_cursor = 0;
        self.search.search_results = hits;
    }

    /// The quick-switcher results for the lower-cased query `q` (see [`hits_for_query`]),
    /// the keys of the maps walked in some order.
    pub fn search_hits(&self, q: &str) -> (r: Vec<SearchHit>)
        ensures
            exists|gks: Seq<u64>, uks: Seq<u64>, mks: Seq<u64>| {
                &&& #[trigger] gks.to_set() == self.channels_by_guild@.dom()
                &&& #[trigger] uks.to_set() == self.people.user_dir@.dom()
                &&& #[trigger] mks.to_set() == self.messages@.dom()
                &&& gks.no_duplicates() && uks.no_duplicates() && mks.no_duplicates()
                &&& hvs(r@) == hits_for_query(*self, q@, gks, uks, mks)
            },
    {
        let gks = keys_of(&self.channels_by_guild);
        let uks = keys_of(&self.people.user_dir);
        let mks = keys_of(&self.messages);
        proof {
            assert forall|i: int| 0 <= i < gks@.len() implies self.channels_by_guild@.contains_key(#[trigger] gks@[i]) by {
                assert(gks@.to_set().contains(gks@[i]));
            }
            assert forall|i: int| 0 <= i < uks@.len() implies self.people.user_dir@.contains_key(#[trigger] uks@[i]) by {
                assert(uks@.to_set().contains(uks@[i]));
            }
            assert forall|i: int| 0 <= i < mks@.len() implies self.messages@.contains_key(#[trigger] mks@[i]) by {
                assert(mks@.to_set().contains(mks@[i]));
            }
        }
        let mut all: Vec<(Vec<i128>, SearchHit)> = Vec::new();
        add_guild_hits(&self.guilds, q, &mut all);
        add_chan_hits(&gks, &self.channels_by_guild, &self.guilds, q, &mut all);
        let dms: &[ChannelSummary] = match self.channels_by_guild.get(&0) {
            Some(v) => v.as_slice(),
            None => &[],
        };
        add_user_hits(&uks, self, dms, q, &mut all);
        add_msg_hits(&mks, &self.messages, &gks, &self.channels_by_guild, &self.guilds, q, &mut all);
        let ghost kv = keyed(all@);
        proof {
            lemma_sort_map(kv, |h: SearchHit| hv(h));
            assert(entries_view(all@) =~= map_elems(kv, |h: SearchHit| hv(h)));
        }
        let mut res = sort_by_key(all);
        proof {
            assert(hvs(res@) =~= elems(stable_sort(map_elems(kv, |h: SearchHit| hv(h)))));
        }
        let ghost full = res@;
        res.truncate(80);
        proof {
            assert(hvs(res@) =~= cap(hvs(full), 80));
        }
        proof {
            let ghost spec_all = guild_hits(self.guilds@, q@)
                + chan_hits(gks@, self.channels_by_guild@, self.guilds@, q@)
                + user_hits(uks@, self.people.user_dir@, self.people.presence@, dms@, q@)
                + cap(msg_hits(mks@, self.messages@, gks@, self.channels_by_guild@, self.guilds@, q@), 40);
            assert(entries_view(all@) == spec_all);
            assert(hvs(res@) == hits_for_query(*self, q@, gks@, uks@, mks@));
        }
        res
    }
}


/// A name whose lower-case form contains the query matches it.
proof fn lemma_contained_scores(h: Seq<char>, q: Seq<char>)
    requires
        seq_contains(unicode_lowercase(h), q),
    ensures
        score_of(h, q) is Some,
{
}

/// A guild of `gs` (not the DM pseudo-guild) whose name matches has an entry among the
/// guild hits.
proof fn lemma_guild_hits_has(gs: Seq<GuildSummary>, q: Seq<char>, i: int)
    requires
        0 <= i < gs.len(),
        gs[i].id.0 != 0,
        score_of(gs[i].name@, q) is Some,
    ensures
        exists|k: int| 0 <= k < guild_hits(gs, q).len() && {
            let h = (#[trigger] guild_hits(gs, q)[k]).1;
            h.label == gs[i].name@ && h.guild == Some(gs[i].id) && h.channel is None
        },
    decreases gs.len(),
{
    let r = guild_hits(gs.drop_last(), q);
    if i == gs.len() - 1 {
        assert(guild_hits(gs, q)[r.len() as int].1.label == gs[i].name@);
    } else {
        assert(gs.drop_last()[i] == gs[i]);
        lemma_guild_hits_has(gs.drop_last(), q, i);
        let k = choose|k: int| 0 <= k < r.len() && {
            let h = (#[trigger] r[k]).1;
            h.label == gs[i].name@ && h.guild == Some(gs[i].id) && h.channel is None
        };
        assert(guild_hits(gs, q)[k] == r[k]);
    }
}

/// A channel of list `cs` (of guild `gid`) whose name matches has an entry among the list's
/// hits.
proof fn lemma_list_hits_has(cs: Seq<ChannelSummary>, gid: u64, gs: Seq<GuildSummary>, q: Seq<char>, i: int)
    requires
        0 <= i < cs.len(),
        score_of(cs[i].name@, q) is Some,
    ensures
        exists|k: int| 0 <= k < list_hits(cs, gid, gs, q).len() && {
            let h = (#[trigger] list_hits(cs, gid, gs, q)[k]).1;
            h.label == cs[i].name@ && h.channel == Some(cs[i].id) && h.guild == Some(SnowflakeID(gid))
        },
    decreases cs.len(),
{
    let r = list_hits(cs.drop_last(), gid, gs, q);
    if i == cs.len() - 1 {
        assert(list_hits(cs, gid, gs, q)[r.len() as int].1.label == cs[i].name@);
    } else {
        assert(cs.drop_last()[i] == cs[i]);
        lemma_list_hits_has(cs.drop_last(), gid, gs, q, i);
        let k = choose|k: int| 0 <= k < r.len() && {
            let h = (#[trigger] r[k]).1;
            h.label == cs[i].name@ && h.channel == Some(cs[i].id) && h.guild == Some(SnowflakeID(gid))
        };
        assert(list_hits(cs, gid, gs, q)[k] == r[k]);
    }
}

/// A channel of guild `ks[a]` whose name matches has an entry among the channel hits.
proof fn lemma_chan_hits_has(ks: Seq<u64>, m: Map<u64, Vec<ChannelSummary>>, gs: Seq<GuildSummary>, q: Seq<char>, a: int, i: int)
    requires
        0 <= a < ks.len(),
        0 <= i < m[ks[a]]@.len(),
        score_of(m[ks[a]]@[i].name@, q) is Some,
    ensures
        exists|k: int| 0 <= k < chan_hits(ks, m, gs, q).len() && {
            let h = (#[trigger] chan_hits(ks, m, gs, q)[k]).1;
            h.label == m[ks[a]]@[i].name@ && h.channel == Some(m[ks[a]]@[i].id) && h.guild == Some(SnowflakeID(ks[a]))
        },
    decreases ks.len(),
{
    let r = chan_hits(ks.drop_last(), m, gs, q);
    let c = m[ks[a]]@[i];
    if a == ks.len() - 1 {
        let l = list_hits(m[ks.last()]@, ks.last(), gs, q);
        lemma_list_hits_has(m[ks.last()]@, ks.last(), gs, q, i);
        let k = choose|k: int| 0 <= k < l.len() && {
            let h = (#[trigger] l[k]).1;
            h.label == c.name@ && h.channel == Some(c.id) && h.guild == Some(SnowflakeID(ks[a]))
        };
        assert(chan_hits(ks, m, gs, q)[r.len() + k] == l[k]);
    } else {
        assert(ks.drop_last()[a] == ks[a]);
        lemma_chan_hits_has(ks.drop_last(), m, gs, q, a, i);
        let k = choose|k: int| 0 <= k < r.len() && {
            let h = (#[trigger] r[k]).1;
            h.label == c.name@ && h.channel == Some(c.id) && h.guild == Some(SnowflakeID(ks[a]))
        };
        assert(chan_hits(ks, m, gs, q)[k] == r[k]);
    }
}

/// A user `ks[a]` whose directory name matches has an entry among the user hits.
proof fn lemma_user_hits_has(ks: Seq<u64>, dir: Map<u64, String>, pres: Map<u64, PresenceStatus>, dms: Seq<ChannelSummary>, q: Seq<char>, a: int)
    requires
        0 <= a < ks.len(),
        score_of(dir[ks[a]]@, q) is Some,
    ensures
        exists|k: int| 0 <= k < user_hits(ks, dir, pres, dms, q).len() && {
            let h = (#[trigger] user_hits(ks, dir, pres, dms, q)[k]).1;
            h.label == dir[ks[a]]@ && h.icon == '@' && h.channel == dm_for(dms, ks[a])
        },
    decreases ks.len(),
{
    let r = user_hits(ks.drop_last(), dir, pres, dms, q);
    if a == ks.len() - 1 {
        assert(user_hits(ks, dir, pres, dms, q)[r.len() as int].1.label == dir[ks[a]]@);
    } else {
        assert(ks.drop_last()[a] == ks[a]);
        lemma_user_hits_has(ks.drop_last(), dir, pres, dms, q, a);
        let k = choose|k: int| 0 <= k < r.len() && {
            let h = (#[trigger] r[k]).1;
            h.label == dir[ks[a]]@ && h.icon == '@' && h.channel == dm_for(dms, ks[a])
        };
        assert(user_hits(ks, dir, pres, dms, q)[k] == r[k]);
    }
}

/// An entry of the unsorted hits is among the results when the results stay under the cap.
proof fn lemma_result_has(s: AppState, q: Seq<char>, gks: Seq<u64>, uks: Seq<u64>, mks: Seq<u64>, j: int)
    requires
        hits_for_query(s, q, gks, uks, mks).len() < 80,
        ({
            let dms = if s.channels_by_guild@.contains_key(0) { s.channels_by_guild@[0]@ } else { Seq::empty() };
            let all = guild_hits(s.guilds@, q)
                + chan_hits(gks, s.channels_by_guild@, s.guilds@, q)
                + user_hits(uks, s.people.user_dir@, s.people.presence@, dms, q)
                + cap(msg_hits(mks, s.messages@, gks, s.channels_by_guild@, s.guilds@, q), 40);
            0 <= j < all.len()
        }),
    ensures
        ({
            let dms = if s.channels_by_guild@.contains_key(0) { s.channels_by_guild@[0]@ } else { Seq::empty() };
            let all = guild_hits(s.guilds@, q)
                + chan_hits(gks, s.channels_by_guild@, s.guilds@, q)
                + user_hits(uks, s.people.user_dir@, s.people.presence@, dms, q)
                + cap(msg_hits(mks, s.messages@, gks, s.channels_by_guild@, s.guilds@, q), 40);
            exists|k: int| 0 <= k < hits_for_query(s, q, gks, uks, mks).len()
                && #[trigger] hits_for_query(s, q, gks, uks, mks)[k] == all[j].1
        }),
{
    let dms = if s.channels_by_guild@.contains_key(0) { s.channels_by_guild@[0]@ } else { Seq::empty() };
    let all = guild_hits(s.guilds@, q)
        + chan_hits(gks, s.channels_by_guild@, s.guilds@, q)
        + user_hits(uks, s.people.user_dir@, s.people.presence@, dms, q)
        + cap(msg_hits(mks, s.messages@, gks, s.channels_by_guild@, s.guilds@, q), 40);
    let st = stable_sort(all);
    let e = elems(st);
    let r = hits_for_query(s, q, gks, uks, mks);
    assert(r == cap(e, 80));
    assert(e.len() <= 80);
    assert(r == e);
    lemma_sort_keeps(all, j);
    let i = choose|i: int| 0 <= i < st.len() && st[i] == all[j];
    assert(r[i] == all[j].1);
}

/// The quick switcher finds every server whose lower-case name contains the (lower-cased)
/// query: while the results stay under their cap of 80, one of them is that server.
pub proof fn law_search_finds_guild(s: AppState, q: Seq<char>, gks: Seq<u64>, uks: Seq<u64>, mks: Seq<u64>, i: int)
    requires
        0 <= i < s.guilds@.len(),
        s.guilds@[i].id.0 != 0,
        seq_contains(unicode_lowercase(s.guilds@[i].name@), q),
        hits_for_query(s, q, gks, uks, mks).len() < 80,
    ensures
        exists|k: int| 0 <= k < hits_for_query(s, q, gks, uks, mks).len() && {
            let h = #[trigger] hits_for_query(s, q, gks, uks, mks)[k];
            h.label == s.guilds@[i].name@ && h.guild == Some(s.guilds@[i].id) && h.channel is None
        },
{
    let g = s.guilds@[i];
    lemma_contained_scores(g.name@, q);
    lemma_guild_hits_has(s.guilds@, q, i);
    let gh = guild_hits(s.guilds@, q);
    let k = choose|k: int| 0 <= k < gh.len() && {
        let h = (#[trigger] gh[k]).1;
        h.label == g.name@ && h.guild == Some(g.id) && h.channel is None
    };
    let dms = if s.channels_by_guild@.contains_key(0) { s.channels_by_guild@[0]@ } else { Seq::empty() };
    let all = gh
        + chan_hits(gks, s.channels_by_guild@, s.guilds@, q)
        + user_hits(uks, s.people.user_dir@, s.people.presence@, dms, q)
        + cap(msg_hits(mks, s.messages@, gks, s.channels_by_guild@, s.guilds@, q), 40);
    assert(all[k] == gh[k]);
    lemma_result_has(s, q, gks, uks, mks, k);
}

/// The quick switcher finds every channel whose lower-case name contains the (lower-cased)
/// query, in each channel list walked (guild `gks[a]`): while the results stay under their
/// cap of 80, one of them is that channel of that guild.
pub proof fn law_search_finds_channel(s: AppState, q: Seq<char>, gks: Seq<u64>, uks: Seq<u64>, mks: Seq<u64>, a: int, i: int)
    requires
        0 <= a < gks.len(),
        0 <= i < s.channels_by_guild@[gks[a]]@.len(),
        seq_contains(unicode_lowercase(s.channels_by_guild@[gks[a]]@[i].name@), q),
        hits_for_query(s, q, gks, uks, mks).len() < 80,
    ensures
        exists|k: int| 0 <= k < hits_for_query(s, q, gks, uks, mks).len() && {
            let h = #[trigger] hits_for_query(s, q, gks, uks, mks)[k];
            let c = s.channels_by_guild@[gks[a]]@[i];
            h.label == c.name@ && h.channel == Some(c.id) && h.guild == Some(SnowflakeID(gks[a]))
        },
{
    let c = s.channels_by_guild@[gks[a]]@[i];
    lemma_contained_scores(c.name@, q);
    lemma_chan_hits_has(gks, s.channels_by_guild@, s.guilds@, q, a, i);
    let gh = guild_hits(s.guilds@, q);
    let ch = chan_hits(gks, s.channels_by_guild@, s.guilds@, q);
    let k = choose|k: int| 0 <= k < ch.len() && {
        let h = (#[trigger] ch[k]).1;
        h.label == c.name@ && h.channel == Some(c.id) && h.guild == Some(SnowflakeID(gks[a]))
    };
    let dms = if s.channels_by_guild@.contains_key(0) { s.channels_by_guild@[0]@ } else { Seq::empty() };
    let all = gh + ch
        + user_hits(uks, s.people.user_dir@, s.people.presence@, dms, q)
        + cap(msg_hits(mks, s.messages@, gks, s.channels_by_guild@, s.guilds@, q), 40);
    assert(all[gh.len() + k] == ch[k]);
    lemma_result_has(s, q, gks, uks, mks, gh.len() + k);
}

/// The quick switcher finds every user of the directory (walked in the order `uks`) whose
/// lower-case name contains the (lower-cased) query: while the results stay under their cap
/// of 80, one of them is that user.
pub proof fn law_search_finds_user(s: AppState, q: Seq<char>, gks: Seq<u64>, uks: Seq<u64>, mks: Seq<u64>, a: int)
    requires
        0 <= a < uks.len(),
        seq_contains(unicode_lowercase(s.people.user_dir@[uks[a]]@), q),
        hits_for_query(s, q, gks, uks, mks).len() < 80,
    ensures
        exists|k: int| 0 <= k < hits_for_query(s, q, gks, uks, mks).len() && {
            let h = #[trigger] hits_for_query(s, q, gks, uks, mks)[k];
            h.label == s.people.user_dir@[uks[a]]@ && h.icon == '@'
        },
{
    let n = s.people.user_dir@[uks[a]]@;
    lemma_contained_scores(n, q);
    let dms = if s.channels_by_guild@.contains_key(0) { s.channels_by_guild@[0]@ } else { Seq::empty() };
    lemma_user_hits_has(uks, s.people.user_dir@, s.people.presence@, dms, q, a);
    let gh = guild_hits(s.guilds@, q);
    let ch = chan_hits(gks, s.channels_by_guild@, s.guilds@, q);
    let uh = user_hits(uks, s.people.user_dir@, s.people.presence@, dms, q);
    let k = choose|k: int| 0 <= k < uh.len() && {
        let h = (#[trigger] uh[k]).1;
        h.label == n && h.icon == '@' && h.channel == dm_for(dms, uks[a])
    };
    let all = gh + ch + uh
        + cap(msg_hits(mks, s.messages@, gks, s.channels_by_guild@, s.guilds@, q), 40);
    assert(all[gh.len() + ch.len() + k] == uh[k]);
    lemma_result_has(s, q, gks, uks, mks, gh.len() + ch.len() + k);
}

} // verus!
