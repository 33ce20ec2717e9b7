use std::collections::HashMap;
use vstd::prelude::*;
use crate::decimal::{dec, parse_u64, parse_u64_spec, push_decimal, u64_to_string};
use crate::receive_struct::ready::{Channel, Guild, PrivateChannels, Recipient, Thread, UserStub};
use crate::snowflake::SnowflakeID;
use crate::sorting::{elems, key_of, keyed, lemma_sort_from, lemma_sort_map, lemma_sort_sorted, lex_lt, map_elems, sort_by_key, stable_sort};
use crate::state::{ChanView, ChannelSummary, cv, cvs};
use crate::text::{owned, push_str, seq_starts_with, starts_with};

verus! {

broadcast use {vstd::std_specs::hash::group_hash_axioms, vstd::seq_lib::group_seq_properties};

/// The file extension of an avatar or icon: `gif` for animated hashes (`a_` prefix),
/// `png` otherwise.
pub open spec fn image_ext(hash: Seq<char>) -> Seq<char> {
    if seq_starts_with(hash, "a_"@) { "gif"@ } else { "png"@ }
}

/// The address of a guild icon.
pub open spec fn icon_url_spec(guild: u64, hash: Seq<char>) -> Seq<char> {
    "https://cdn.discordapp.com/icons/"@ + dec(guild as nat) + "/"@ + hash + "."@ + image_ext(hash)
        + "?size=4096"@
}

/// The address of a user avatar.
pub open spec fn avatar_url_spec(user: Seq<char>, hash: Seq<char>) -> Seq<char> {
    "https://cdn.discordapp.com/avatars/"@ + user + "/"@ + hash + "."@ + image_ext(hash) + "?size=64"@
}

fn ext_of(hash: &str) -> (r: &'static str)
    ensures
        r@ == image_ext(hash@),
{
    if starts_with(hash, "a_") { "gif" } else { "png" }
}

/// The address of the icon `hash` of guild `guild_id`.
pub fn icon_url_for(guild_id: SnowflakeID, hash: &str) -> (r: String)
    ensures
        r@ == icon_url_spec(guild_id.0, hash@),
{
    let mut s = owned("https://cdn.discordapp.com/icons/");
    push_decimal(&mut s, guild_id.0);
    push_str(&mut s, "/");
    push_str(&mut s, hash);
    push_str(&mut s, ".");
    push_str(&mut s, ext_of(hash));
    push_str(&mut s, "?size=4096");
    s
}

/// The address of the avatar `hash` of user `user_id`.
pub fn avatar_url_for(user_id: &str, hash: &str) -> (r: String)
    ensures
        r@ == avatar_url_spec(user_id@, hash@),
{
    let mut s = owned("https://cdn.discordapp.com/avatars/");
    push_str(&mut s, user_id);
    push_str(&mut s, "/");
    push_str(&mut s, hash);
    push_str(&mut s, ".");
    push_str(&mut s, ext_of(hash));
    push_str(&mut s, "?size=64");
    s
}

/// Index of the last user of `users` with id `id` (a table built from the list keeps the
/// last entry of a repeated id).
pub open spec fn last_user_index(users: Seq<UserStub>, id: Seq<char>) -> int
    decreases users.len(),
{
    if users.len() == 0 {
        -1
    } else if users.last().id@ == id {
        users.len() - 1
    } else {
        last_user_index(users.drop_last(), id)
    }
}

/// The user of the table with id `id`, if any.
pub open spec fn table_user(users: Seq<UserStub>, id: Seq<char>) -> Option<UserStub> {
    let i = last_user_index(users, id);
    if i >= 0 { Some(users[i]) } else { None }
}

proof fn lemma_last_user_index(users: Seq<UserStub>, id: Seq<char>)
    ensures
        -1 <= last_user_index(users, id) < users.len(),
        last_user_index(users, id) >= 0 ==> users[last_user_index(users, id)].id@ == id,
    decreases users.len(),
{
    if users.len() > 0 && users.last().id@ != id {
        lemma_last_user_index(users.drop_last(), id);
    }
}

/// Looks up a user of the ready payload by raw id.
pub fn find_user<'a>(users: &'a [UserStub], id: &str) -> (r: Option<&'a UserStub>)
    ensures
        match r {
            Some(u) => table_user(users@, id@) == Some(*u),
            None => table_user(users@, id@) is None,
        },
{
    let mut i = users.len();
    proof { lemma_last_user_index(users@, id@); }
    while i > 0
        invariant
            0 <= i <= users.len(),
            last_user_index(users@, id@) == last_user_index(users@.take(i as int), id@),
        decreases i,
    {
        let ghost t = users@.take(i as int);
        assert(t.last() == users@[i - 1]);
        if crate::state::str_eq(users[i - 1].id.as_str(), id) {
            proof { lemma_last_user_index(users@, id@); }
            return Some(&users[i - 1]);
        }
        assert(t.drop_last() =~= users@.take(i - 1));
        i -= 1;
    }
    proof { lemma_last_user_index(users@, id@); }
    None
}

/// The elements of `list` joined by `sep`.
pub open spec fn join(list: Seq<Seq<char>>, sep: Seq<char>) -> Seq<char>
    decreases list.len(),
{
    if list.len() == 0 {
        Seq::empty()
    } else if list.len() == 1 {
        list[0]
    } else {
        join(list.drop_last(), sep) + sep + list.last()
    }
}

/// User names of the recipients.
pub open spec fn recipient_names(rs: Seq<Recipient>) -> Seq<Seq<char>> {
    rs.map_values(|r: Recipient| r.username@)
}

/// Names of the recipient ids by the user table, `?` for unknown ids.
pub open spec fn id_names(ids: Seq<String>, users: Seq<UserStub>) -> Seq<Seq<char>> {
    ids.map_values(|i: String| match table_user(users, i@) {
        Some(u) => u.username@,
        None => "?"@,
    })
}

/// The label of a DM channel: its name when it has a non-empty one, else its recipients'
/// names, else the names of its recipient ids by the user table.
pub open spec fn dm_label_spec(dm: PrivateChannels, users: Seq<UserStub>) -> Seq<char> {
    if dm.name is Some && dm.name->0@.len() > 0 {
        dm.name->0@
    } else if dm.recipients@.len() > 0 {
        join(recipient_names(dm.recipients@), ", "@)
    } else {
        join(id_names(dm.recipient_ids@, users), ", "@)
    }
}

/// Label of a DM channel.
pub fn dm_label(dm: &PrivateChannels, users: &[UserStub]) -> (r: String)
    ensures
        r@ == dm_label_spec(*dm, users@),
{
    if let Some(name) = &dm.name {
        if !name.as_str().is_empty() {
            return name.clone();
        }
    }
    let mut out = String::new();
    if dm.recipients.len() > 0 {
        let ghost names = recipient_names(dm.recipients@);
        let mut i: usize = 0;
        while i < dm.recipients.len()
            invariant
                0 <= i <= dm.recipients.len(),
                names == recipient_names(dm.recipients@),
                out@ == join(names.take(i as int), ", "@),
            decreases dm.recipients.len() - i,
        {
            assert(names.take(i + 1).drop_last() =~= names.take(i as int));
            if i > 0 {
                push_str(&mut out, ", ");
            }
            push_str(&mut out, dm.recipients[i].username.as_str());
            i += 1;
        }
        assert(names.take(dm.recipients.len() as int) =~= names);
        return out;
    }
    let ghost names = id_names(dm.recipient_ids@, users@);
    let mut i: usize = 0;
    while i < dm.recipient_ids.len()
        invariant
            0 <= i <= dm.recipient_ids.len(),
            names == id_names(dm.recipient_ids@, users@),
            out@ == join(names.take(i as int), ", "@),
        decreases dm.recipient_ids.len() - i,
    {
        assert(names.take(i + 1).drop_last() =~= names.take(i as int));
        if i > 0 {
            push_str(&mut out, ", ");
        }
        match find_user(users, dm.recipient_ids[i].as_str()) {
            Some(u) => push_str(&mut out, u.username.as_str()),
            None => push_str(&mut out, "?"),
        }
        i += 1;
    }
    assert(names.take(dm.recipient_ids.len() as int) =~= names);
    out
}

/// The avatar of a one-to-one DM channel: its first recipient's avatar, or, without
/// recipients, the avatar that the user table gives its first recipient id.
pub open spec fn dm_avatar_spec(dm: PrivateChannels, users: Seq<UserStub>) -> Option<Seq<char>> {
    if dm.type_field != 1 {
        None
    } else if dm.recipients@.len() > 0 {
        let r = dm.recipients@[0];
        match r.avatar {
            Some(a) => Some(avatar_url_spec(r.id@, a@)),
            None => None,
        }
    } else if dm.recipient_ids@.len() > 0 {
        let rid = dm.recipient_ids@[0]@;
        match table_user(users, rid) {
            Some(u) => match u.avatar {
                Some(a) => Some(avatar_url_spec(rid, a@)),
                None => None,
            },
            None => None,
        }
    } else {
        None
    }
}

/// Avatar address of a DM channel.
pub fn dm_avatar_url(dm: &PrivateChannels, users: &[UserStub]) -> (r: Option<String>)
    ensures
        match r {
            Some(s) => dm_avatar_spec(*dm, users@) == Some(s@),
            None => dm_avatar_spec(*dm, users@) is None,
        },
{
    if dm.type_field != 1 {
        return None;
    }
    if dm.recipients.len() > 0 {
        let r = &dm.recipients[0];
        return match &r.avatar {
            Some(a) => Some(avatar_url_for(r.id.as_str(), a.as_str())),
            None => None,
        };
    }
    if dm.recipient_ids.len() == 0 {
        return None;
    }
    let rid = dm.recipient_ids[0].as_str();
    match find_user(users, rid) {
        Some(u) => match &u.avatar {
            Some(a) => Some(avatar_url_for(rid, a.as_str())),
            None => None,
        },
        None => None,
    }
}

/// The recipient of a one-to-one DM: its first recipient id when that parses, else its
/// first recipient's id when that parses.
pub open spec fn dm_recipient_spec(dm: PrivateChannels) -> Option<SnowflakeID> {
    if dm.type_field != 1 {
        None
    } else {
        let a = if dm.recipient_ids@.len() > 0 { parse_u64_spec(dm.recipient_ids@[0]@) } else { None };
        match a {
            Some(n) => Some(SnowflakeID(n)),
            None => {
                let b = if dm.recipients@.len() > 0 { parse_u64_spec(dm.recipients@[0].id@) } else { None };
                match b {
                    Some(n) => Some(SnowflakeID(n)),
                    None => None,
                }
            },
        }
    }
}

fn dm_recipient(dm: &PrivateChannels) -> (r: Option<SnowflakeID>)
    ensures
        r == dm_recipient_spec(*dm),
{
    if dm.type_field != 1 {
        return None;
    }
    let a = if dm.recipient_ids.len() > 0 { parse_u64(dm.recipient_ids[0].as_str()) } else { None };
    match a {
        Some(n) => Some(SnowflakeID(n)),
        None => {
            let b = if dm.recipients.len() > 0 { parse_u64(dm.recipients[0].id.as_str()) } else { None };
            match b {
                Some(n) => Some(SnowflakeID(n)),
                None => None,
            }
        },
    }
}

/// The entry listed for a DM channel.
pub open spec fn dm_view(dm: PrivateChannels, users: Seq<UserStub>) -> ChanView {
    ChanView {
        id: dm.id,
        name: dm_label_spec(dm, users),
        recipient_id: dm_recipient_spec(dm),
        kind: dm.type_field,
        parent_id: None,
        position: 0,
        last_activity: match dm.last_message_id { Some(m) => m.0, None => 0 },
        avatar_url: dm_avatar_spec(dm, users),
    }
}

/// An optional string by its characters.
pub open spec fn opt_str(o: Option<String>) -> Option<Seq<char>> {
    match o {
        Some(s) => Some(s@),
        None => None,
    }
}

/// The entry listed for DM channel `dm`.
pub fn dm_summary(dm: &PrivateChannels, users: &[UserStub]) -> (r: ChannelSummary)
    ensures
        cv(r) == dm_view(*dm, users@),
{
    ChannelSummary {
        id: dm.id,
        kind: dm.type_field,
        position: 0,
        parent_id: None,
        name: dm_label(dm, users),
        recipient_id: dm_recipient(dm),
        last_activity: match dm.last_message_id { Some(m) => m.0, None => 0 },
        avatar_url: dm_avatar_url(dm, users),
    }
}

/// The entry listed for a guild channel.
pub open spec fn channel_view(c: Channel) -> ChanView {
    ChanView {
        id: c.id,
        name: c.name@,
        recipient_id: None,
        kind: c.type_field,
        parent_id: c.parent_id,
        position: c.position,
        last_activity: match c.last_message_id { Some(m) => m.0, None => 0 },
        avatar_url: None,
    }
}

/// The entry listed for a thread: its name behind an arrow, at position zero.
pub open spec fn thread_view(t: Thread) -> ChanView {
    ChanView {
        id: t.id,
        name: "↳ "@ + t.name@,
        recipient_id: None,
        kind: t.type_field,
        parent_id: t.parent_id,
        position: 0,
        last_activity: match t.last_message_id { Some(m) => m.0, None => 0 },
        avatar_url: None,
    }
}

/// The threads of `ts` under channel `p`, in order.
pub open spec fn threads_under(ts: Seq<Thread>, p: u64) -> Seq<ChanView>
    decreases ts.len(),
{
    if ts.len() == 0 {
        Seq::empty()
    } else {
        let r = threads_under(ts.drop_last(), p);
        if ts.last().parent_id == Some(SnowflakeID(p)) { r.push(thread_view(ts.last())) } else { r }
    }
}

/// `true` for non-category channels whose parent is `p`.
pub open spec fn in_block(c: ChanView, p: Option<SnowflakeID>) -> bool {
    c.kind != 4 && c.parent_id == p
}

/// The non-category channels of `cs` with parent `p`, in order, each followed by its
/// threads.
pub open spec fn block(cs: Seq<ChanView>, ts: Seq<Thread>, p: Option<SnowflakeID>) -> Seq<ChanView>
    decreases cs.len(),
{
    if cs.len() == 0 {
        Seq::empty()
    } else {
        let r = block(cs.drop_last(), ts, p);
        if in_block(cs.last(), p) { r + seq![cs.last()] + threads_under(ts, cs.last().id.0) } else { r }
    }
}

/// Voice and stage channels sort after the others.
pub open spec fn kind_group(k: i64) -> int {
    if k == 2 || k == 13 { 1 } else { 0 }
}

/// Sort key of guild channels: group, position, id.
pub open spec fn chan_key(c: ChanView) -> Seq<int> {
    seq![kind_group(c.kind), c.position as int, c.id.0 as int]
}

/// Sort key of categories: position, id.
pub open spec fn cat_key(c: ChanView) -> Seq<int> {
    seq![c.position as int, c.id.0 as int]
}

/// The guild's channels sorted by group, position and id.
pub open spec fn sorted_channels(g: Guild) -> Seq<ChanView> {
    elems(stable_sort(g.channels@.map_values(|c: Channel| (chan_key(channel_view(c)), channel_view(c)))))
}

/// The categories among `cs`, keyed for sorting.
pub open spec fn category_keys(cs: Seq<ChanView>) -> Seq<(Seq<int>, ChanView)>
    decreases cs.len(),
{
    if cs.len() == 0 {
        Seq::empty()
    } else {
        let r = category_keys(cs.drop_last());
        if cs.last().kind == 4 { r.push((cat_key(cs.last()), cs.last())) } else { r }
    }
}

/// Each category followed by its block.
pub open spec fn category_blocks(cats: Seq<ChanView>, cs: Seq<ChanView>, ts: Seq<Thread>) -> Seq<ChanView>
    decreases cats.len(),
{
    if cats.len() == 0 {
        Seq::empty()
    } else {
        category_blocks(cats.drop_last(), cs, ts) + seq![cats.last()] + block(cs, ts, Some(cats.last().id))
    }
}

/// The channel list of a guild: channels without parent (each followed by its threads),
/// then each category by position and id, followed by its channels and their threads;
/// channels are taken in the order of group (voice and stage last), position and id.
pub open spec fn guild_channels_spec(g: Guild) -> Seq<ChanView> {
    let sc = sorted_channels(g);
    let cats = elems(stable_sort(category_keys(sc)));
    block(sc, g.threads@, None) + category_blocks(cats, sc, g.threads@)
}

fn channel_summary(c: &Channel) -> (r: ChannelSummary)
    ensures
        cv(r) == channel_view(*c),
{
    ChannelSummary {
        id: c.id,
        kind: c.type_field,
        position: c.position,
        parent_id: c.parent_id,
        name: c.name.clone(),
        recipient_id: None,
        last_activity: match c.last_message_id { Some(m) => m.0, None => 0 },
        avatar_url: None,
    }
}

fn thread_summary(t: &Thread) -> (r: ChannelSummary)
    ensures
        cv(r) == thread_view(*t),
{
    let mut name = owned("↳ ");
    push_str(&mut name, t.name.as_str());
    ChannelSummary {
        id: t.id,
        kind: t.type_field,
        position: 0,
        parent_id: t.parent_id,
        name,
        recipient_id: None,
        last_activity: match t.last_message_id { Some(m) => m.0, None => 0 },
        avatar_url: None,
    }
}

/// Appends the threads under channel `p`.
fn push_threads(out: &mut Vec<ChannelSummary>, ts: &[Thread], p: u64)
    ensures
        cvs(final(out)@) == cvs(old(out)@) + threads_under(ts@, p),
{
    let mut i: usize = 0;
    let ghost o0 = cvs(out@);
    while i < ts.len()
        invariant
            0 <= i <= ts.len(),
            cvs(out@) == o0 + threads_under(ts@.take(i as int), p),
        decreases ts.len() - i,
    {
        assert(ts@.take(i + 1).drop_last() =~= ts@.take(i as int));
        let matches = match ts[i].parent_id {
            Some(x) => x.0 == p,
            None => false,
        };
        if matches {
            let ghost before = out@;
            out.push(thread_summary(&ts[i]));
            assert(cvs(out@) =~= cvs(before).push(cv(out@.last())));
        }
        i += 1;
    }
    assert(ts@.take(ts.len() as int) =~= ts@);
}

/// Appends the block of channels of `cs` with parent `p`.
fn push_block(out: &mut Vec<ChannelSummary>, cs: &[ChannelSummary], ts: &[Thread], p: Option<SnowflakeID>)
    ensures
        cvs(final(out)@) == cvs(old(out)@) + block(cvs(cs@), ts@, p),
{
    let mut i: usize = 0;
    let ghost o0 = cvs(out@);
    while i < cs.len()
        invariant
            0 <= i <= cs.len(),
            cvs(out@) == o0 + block(cvs(cs@.take(i as int)), ts@, p),
        decreases cs.len() - i,
    {
        assert(cvs(cs@.take(i + 1)).drop_last() =~= cvs(cs@.take(i as int)));
        assert(cvs(cs@.take(i + 1)).last() == cv(cs@[i as int]));
        let c = &cs[i];
        if c.kind != 4 && c.parent_id == p {
            let ghost before = cvs(out@);
            out.push(c.duplicate());
            assert(cvs(out@) =~= before.push(cv(*c)));
            push_threads(out, ts, c.id.0);
            assert(cvs(out@) =~= before + seq![cv(*c)] + threads_under(ts@, c.id.0));
        }
        i += 1;
    }
    assert(cs@.take(cs.len() as int) =~= cs@);
}

/// The channel list of a guild; its channels without category come in channel order (see
/// [`channel_precedes`]).
pub fn guild_channel_summaries(g: &Guild) -> (r: Vec<ChannelSummary>)
    ensures
        cvs(r@) == guild_channels_spec(*g),
        block_in_channel_order(cvs(r@), None),
{
    let mut keyed_chans: Vec<(Vec<i128>, ChannelSummary)> = Vec::new();
    let ghost spec_list = g.channels@.map_values(|c: Channel| (chan_key(channel_view(c)), channel_view(c)));
    let mut i: usize = 0;
    while i < g.channels.len()
        invariant
            0 <= i <= g.channels.len(),
            spec_list == g.channels@.map_values(|c: Channel| (chan_key(channel_view(c)), channel_view(c))),
            map_elems(keyed(keyed_chans@), |c: ChannelSummary| cv(c)) =~= spec_list.take(i as int),
        decreases g.channels.len() - i,
    {
        let c = channel_summary(&g.channels[i]);
        let grp: i128 = if c.kind == 2 || c.kind == 13 { 1 } else { 0 };
        let mut k: Vec<i128> = Vec::new();
        k.push(grp);
        k.push(c.position as i128);
        k.push(c.id.0 as i128);
        assert(key_of(k@) =~= chan_key(cv(c)));
        let ghost before = keyed_chans@;
        keyed_chans.push((k, c));
        assert(map_elems(keyed(keyed_chans@), |c: ChannelSummary| cv(c)) =~= map_elems(keyed(before), |c: ChannelSummary| cv(c)).push((chan_key(cv(c)), cv(c))));
        i += 1;
    }
    assert(spec_list.take(g.channels.len() as int) =~= spec_list);
    let ghost kv = keyed(keyed_chans@);
    proof {
        lemma_sort_map(kv, |c: ChannelSummary| cv(c));
    }
    let sc = sort_by_key(keyed_chans);
    proof {
        assert(cvs(sc@) =~= elems(stable_sort(map_elems(kv, |c: ChannelSummary| cv(c)))));
    }
    // Categories, by position and id.
    let mut keyed_cats: Vec<(Vec<i128>, ChannelSummary)> = Vec::new();
    let mut j: usize = 0;
    while j < sc.len()
        invariant
            0 <= j <= sc.len(),
            map_elems(keyed(keyed_cats@), |c: ChannelSummary| cv(c)) =~= category_keys(cvs(sc@.take(j as int))),
        decreases sc.len() - j,
    {
        assert(cvs(sc@.take(j + 1)).drop_last() =~= cvs(sc@.take(j as int)));
        assert(cvs(sc@.take(j + 1)).last() == cv(sc@[j as int]));
        if sc[j].kind == 4 {
            let c = sc[j].duplicate();
            let mut k: Vec<i128> = Vec::new();
            k.push(c.position as i128);
            k.push(c.id.0 as i128);
            assert(key_of(k@) =~= cat_key(cv(c)));
            let ghost before = keyed_cats@;
            keyed_cats.push((k, c));
            assert(map_elems(keyed(keyed_cats@), |c: ChannelSummary| cv(c)) =~= map_elems(keyed(before), |c: ChannelSummary| cv(c)).push((cat_key(cv(c)), cv(c))));
        }
        j += 1;
    }
    assert(sc@.take(sc.len() as int) =~= sc@);
    let ghost kc = keyed(keyed_cats@);
    proof {
        lemma_sort_map(kc, |c: ChannelSummary| cv(c));
    }
    let cats = sort_by_key(keyed_cats);
    proof {
        assert(cvs(cats@) =~= elems(stable_sort(map_elems(kc, |c: ChannelSummary| cv(c)))));
    }
    let mut out: Vec<ChannelSummary> = Vec::new();
    push_block(&mut out, sc.as_slice(), g.threads.as_slice(), None);
    let ghost head = cvs(out@);
    let mut q: usize = 0;
    while q < cats.len()
        invariant
            0 <= q <= cats.len(),
            cvs(out@) == head + category_blocks(cvs(cats@.take(q as int)), cvs(sc@), g.threads@),
        decreases cats.len() - q,
    {
        assert(cvs(cats@.take(q + 1)).drop_last() =~= cvs(cats@.take(q as int)));
        assert(cvs(cats@.take(q + 1)).last() == cv(cats@[q as int]));
        let ghost before = cvs(out@);
        out.push(cats[q].duplicate());
        assert(cvs(out@) =~= before.push(cv(cats@[q as int])));
        push_block(&mut out, sc.as_slice(), g.threads.as_slice(), Some(cats[q].id));
        assert(cvs(out@) =~= before + seq![cv(cats@[q as int])] + block(cvs(sc@), g.threads@, Some(cats@[q as int].id)));
        q += 1;
    }
    assert(cats@.take(cats.len() as int) =~= cats@);
    proof {
        law_channel_list_by_position(*g);
    }
    out
}

/// Where the image of id `id` is kept in the cache folder `dir`: the file named after the
/// id with the `bin` extension, under the folder (joined with a `/` unless the folder
/// ends with one or is empty).
pub open spec fn cache_path_text(dir: Seq<char>, id: u64) -> Seq<char> {
    let name = crate::decimal::dec(id as nat) + ".bin"@;
    if dir.len() == 0 {
        name
    } else if dir.last() == '/' {
        dir + name
    } else {
        dir + "/"@ + name
    }
}

/// Where the image of id `id` is kept in the cache folder `dir` (see [`cache_path_text`]).
pub fn cache_path(dir: &str, id: SnowflakeID) -> (r: String)
    ensures
        r@ == cache_path_text(dir@, id.0),
{
    let mut out = owned(dir);
    let cs = crate::text::chars_of(dir);
    if cs.len() > 0 && cs[cs.len() - 1] != '/' {
        push_str(&mut out, "/");
    }
    crate::decimal::push_decimal(&mut out, id.0);
    push_str(&mut out, ".bin");
    proof {
        if dir@.len() == 0 {
            assert(out@ =~= cache_path_text(dir@, id.0));
        }
    }
    out
}

/// The icons of the servers that have one, in order.
pub open spec fn guild_icons(gs: Seq<crate::state::GuildSummary>) -> Seq<(u64, Seq<char>)>
    decreases gs.len(),
{
    if gs.len() == 0 {
        Seq::empty()
    } else {
        let r = guild_icons(gs.drop_last());
        match gs.last().icon_url {
            Some(u) => r.push((gs.last().id.0, u@)),
            None => r,
        }
    }
}

/// The avatars of the channels that have one, in order.
pub open spec fn channel_avatars(cs: Seq<ChannelSummary>) -> Seq<(u64, Seq<char>)>
    decreases cs.len(),
{
    if cs.len() == 0 {
        Seq::empty()
    } else {
        let r = channel_avatars(cs.drop_last());
        match cs.last().avatar_url {
            Some(u) => r.push((cs.last().id.0, u@)),
            None => r,
        }
    }
}

/// Images by their plain values.
pub open spec fn jobs_view(v: Seq<(SnowflakeID, String)>) -> Seq<(u64, Seq<char>)> {
    v.map_values(|p: (SnowflakeID, String)| (p.0.0, p.1@))
}

/// The thumbnails to load: the server icons, then the avatars of the first 64
/// direct-message channels that have one.
pub open spec fn thumbnail_list(s: crate::appstate::AppState) -> Seq<(u64, Seq<char>)> {
    let dms = channel_avatars(crate::appstate::chans_of(s.channels_by_guild@, crate::state::dm_guild()));
    guild_icons(s.guilds@) + dms.take(if dms.len() < 64 { dms.len() as int } else { 64 })
}

/// The thumbnails to load (see [`thumbnail_list`]).
pub fn thumbnail_jobs(state: &crate::appstate::AppState) -> (r: Vec<(SnowflakeID, String)>)
    ensures
        jobs_view(r@) == thumbnail_list(*state),
{
    let mut out: Vec<(SnowflakeID, String)> = Vec::new();
    let gs = &state.guilds;
    let mut i: usize = 0;
    while i < gs.len()
        invariant
            0 <= i <= gs.len(),
            jobs_view(out@) == guild_icons(gs@.take(i as int)),
        decreases gs.len() - i,
    {
        assert(gs@.take(i + 1).drop_last() =~= gs@.take(i as int));
        match &gs[i].icon_url {
            Some(u) => {
                let ghost before = out@;
                out.push((gs[i].id, u.clone()));
                assert(jobs_view(out@) =~= jobs_view(before).push((gs@[i as int].id.0, u@)));
            },
            None => {},
        }
        i += 1;
    }
    assert(gs@.take(gs.len() as int) =~= gs@);
    let ghost head = out@;
    match state.channels_by_guild.get(&0) {
        Some(dms) => {
            let mut k: usize = 0;
            let mut taken: usize = 0;
            while k < dms.len() && taken < 64
                invariant
                    0 <= k <= dms.len(),
                    taken <= 64,
                    taken == channel_avatars(dms@.take(k as int)).len(),
                    jobs_view(out@) == jobs_view(head) + channel_avatars(dms@.take(k as int)),
                decreases dms.len() - k,
            {
                assert(dms@.take(k + 1).drop_last() =~= dms@.take(k as int));
                match &dms[k].avatar_url {
                    Some(u) => {
                        let ghost before = out@;
                        out.push((dms[k].id, u.clone()));
                        assert(jobs_view(out@) =~= jobs_view(before).push((dms@[k as int].id.0, u@)));
                        taken += 1;
                    },
                    None => {},
                }
                k += 1;
            }
            proof {
                let all = channel_avatars(dms@);
                lemma_avatars_prefix(dms@, k as int);
                if taken < 64 {
                    assert(k == dms.len());
                    assert(dms@.take(k as int) =~= dms@);
                } else {
                    assert(all.take(64) =~= channel_avatars(dms@.take(k as int)));
                }
            }
        },
        None => {
            assert(crate::appstate::chans_of(state.channels_by_guild@, 0) =~= Seq::<ChannelSummary>::empty());
            assert(channel_avatars(Seq::<ChannelSummary>::empty()).take(0) =~= Seq::<(u64, Seq<char>)>::empty());
        },
    }
    out
}

/// The avatars of a prefix are a prefix of the avatars.
proof fn lemma_avatars_prefix(cs: Seq<ChannelSummary>, k: int)
    requires
        0 <= k <= cs.len(),
    ensures
        channel_avatars(cs.take(k)).len() <= channel_avatars(cs).len(),
        channel_avatars(cs.take(k)) =~= channel_avatars(cs).take(channel_avatars(cs.take(k)).len() as int),
    decreases cs.len(),
{
    if k < cs.len() {
        assert(cs.drop_last().take(k) =~= cs.take(k));
        lemma_avatars_prefix(cs.drop_last(), k);
    } else {
        assert(cs.take(k) =~= cs);
    }
}

/// The report of a thumbnail load.
pub open spec fn thumbnail_report(from_disk: u64, from_net: u64, failed: u64, total: u64) -> Seq<char> {
    "thumbnails: "@ + dec(from_disk as nat) + " cached, "@ + dec(from_net as nat) + " downloaded, "@
        + dec(failed as nat) + " failed (of "@ + dec(total as nat) + ")"@
}

/// The report of a thumbnail load (see [`thumbnail_report`]).
pub fn thumbnail_summary(from_disk: u64, from_net: u64, failed: u64, total: u64) -> (r: String)
    ensures
        r@ == thumbnail_report(from_disk, from_net, failed, total),
{
    let mut t = owned("thumbnails: ");
    push_decimal(&mut t, from_disk);
    push_str(&mut t, " cached, ");
    push_decimal(&mut t, from_net);
    push_str(&mut t, " downloaded, ");
    push_decimal(&mut t, failed);
    push_str(&mut t, " failed (of ");
    push_decimal(&mut t, total);
    push_str(&mut t, ")");
    t
}


/// Channel `a` may be listed before channel `b`: voice and stage channels after the others,
/// then by ascending position, then by ascending id.
pub open spec fn channel_precedes(a: ChanView, b: ChanView) -> bool {
    &&& kind_group(a.kind) <= kind_group(b.kind)
    &&& kind_group(a.kind) == kind_group(b.kind) ==> a.position <= b.position
    &&& kind_group(a.kind) == kind_group(b.kind) && a.position == b.position ==> a.id.0 <= b.id.0
}

/// Channels in list order: each may be listed before every later one.
pub open spec fn in_channel_order(v: Seq<ChanView>) -> bool {
    forall|i: int, j: int| 0 <= i < j < v.len() ==> channel_precedes(#[trigger] v[i], #[trigger] v[j])
}

/// The entries listed with parent `p` (categories and other entries left aside) in list
/// order.
pub open spec fn block_in_channel_order(v: Seq<ChanView>, p: Option<SnowflakeID>) -> bool {
    forall|i: int, j: int| 0 <= i < j < v.len() && in_block(#[trigger] v[i], p) && in_block(#[trigger] v[j], p)
        ==> channel_precedes(v[i], v[j])
}

/// The guild's channels, taken in sort order, come with voice and stage channels last, and
/// by ascending position within each kind group, whatever their ids; ids only break ties.
pub proof fn law_sorted_channels_by_position(g: Guild)
    ensures
        in_channel_order(sorted_channels(g)),
{
    let es = g.channels@.map_values(|c: Channel| (chan_key(channel_view(c)), channel_view(c)));
    let t = stable_sort(es);
    let v = sorted_channels(g);
    lemma_sort_sorted(es);
    assert forall|i: int, j: int| 0 <= i < j < v.len() implies channel_precedes(#[trigger] v[i], #[trigger] v[j]) by {
        lemma_sort_from(es, i);
        lemma_sort_from(es, j);
        let a = choose|a: int| 0 <= a < es.len() && es[a] == t[i];
        let b = choose|b: int| 0 <= b < es.len() && es[b] == t[j];
        let ki = t[i].0;
        let kj = t[j].0;
        assert(v[i] == t[i].1 && v[j] == t[j].1);
        assert(ki == chan_key(v[i]));
        assert(kj == chan_key(v[j]));
        assert(!lex_lt(kj, ki));
        assert(ki.drop_first() =~= seq![v[i].position as int, v[i].id.0 as int]);
        assert(kj.drop_first() =~= seq![v[j].position as int, v[j].id.0 as int]);
        assert(ki.drop_first().drop_first() =~= seq![v[i].id.0 as int]);
        assert(kj.drop_first().drop_first() =~= seq![v[j].id.0 as int]);
        if kind_group(v[j].kind) < kind_group(v[i].kind) {
            assert(lex_lt(kj, ki));
        }
        if kind_group(v[j].kind) == kind_group(v[i].kind) && v[j].position < v[i].position {
            assert(lex_lt(kj.drop_first(), ki.drop_first()));
            assert(lex_lt(kj, ki));
        }
        if kind_group(v[j].kind) == kind_group(v[i].kind) && v[j].position == v[i].position && v[j].id.0 < v[i].id.0 {
            assert(lex_lt(kj.drop_first().drop_first(), ki.drop_first().drop_first()));
            assert(lex_lt(kj.drop_first(), ki.drop_first()));
            assert(lex_lt(kj, ki));
        }
    }
}


/// The threads listed under channel `p` all have `p` as parent.
proof fn lemma_threads_under_parent(ts: Seq<Thread>, p: u64)
    ensures
        forall|i: int| 0 <= i < threads_under(ts, p).len() ==> (#[trigger] threads_under(ts, p)[i]).parent_id == Some(SnowflakeID(p)),
    decreases ts.len(),
{
    if ts.len() > 0 {
        lemma_threads_under_parent(ts.drop_last(), p);
    }
}

/// No channel listed with parent `p` has itself as that parent.
pub open spec fn no_self_parent(cs: Seq<ChanView>, p: Option<SnowflakeID>) -> bool {
    forall|k: int| 0 <= k < cs.len() && in_block(#[trigger] cs[k], p) ==> Some(cs[k].id) != p
}

/// The entries of a block listed with parent `p` are channels of `cs`.
proof fn lemma_block_entries(cs: Seq<ChanView>, ts: Seq<Thread>, p: Option<SnowflakeID>)
    requires
        no_self_parent(cs, p),
    ensures
        forall|i: int| 0 <= i < block(cs, ts, p).len() && (#[trigger] block(cs, ts, p)[i]).parent_id == p
            ==> exists|k: int| 0 <= k < cs.len() && #[trigger] cs[k] == block(cs, ts, p)[i],
    decreases cs.len(),
{
    if cs.len() > 0 {
        let d = cs.drop_last();
        assert(no_self_parent(d, p)) by {
            assert forall|k: int| 0 <= k < d.len() && in_block(#[trigger] d[k], p) implies Some(d[k].id) != p by {
                assert(d[k] == cs[k]);
            }
        }
        lemma_block_entries(d, ts, p);
        let r = block(d, ts, p);
        let x = cs.last();
        if in_block(x, p) {
            let th = threads_under(ts, x.id.0);
            lemma_threads_under_parent(ts, x.id.0);
            let out = r + seq![x] + th;
            assert(block(cs, ts, p) == out);
            assert(Some(cs[cs.len() - 1].id) != p);
            assert forall|i: int| 0 <= i < out.len() && (#[trigger] out[i]).parent_id == p
                implies exists|k: int| 0 <= k < cs.len() && #[trigger] cs[k] == out[i] by {
                if i < r.len() {
                    assert(out[i] == r[i]);
                    if r[i].parent_id == p {
                        let k = choose|k: int| 0 <= k < d.len() && #[trigger] d[k] == r[i];
                        assert(cs[k] == d[k]);
                    }
                } else if i == r.len() {
                    assert(out[i] == cs[cs.len() - 1]);
                } else {
                    assert(out[i] == th[i - r.len() - 1]);
                }
            }
        } else {
            assert forall|i: int| 0 <= i < r.len() && r[i].parent_id == p
                implies exists|k: int| 0 <= k < cs.len() && #[trigger] cs[k] == r[i] by {
                let k = choose|k: int| 0 <= k < d.len() && #[trigger] d[k] == r[i];
                assert(cs[k] == d[k]);
            }
        }
    }
}

/// The channels of a block keep the order of `cs`: when `cs` is ordered by position within
/// each kind group, so are the block's channels.
proof fn lemma_block_ordered(cs: Seq<ChanView>, ts: Seq<Thread>, p: Option<SnowflakeID>)
    requires
        no_self_parent(cs, p),
        in_channel_order(cs),
    ensures
        block_in_channel_order(block(cs, ts, p), p),
    decreases cs.len(),
{
    if cs.len() > 0 {
        let d = cs.drop_last();
        assert(no_self_parent(d, p)) by {
            assert forall|k: int| 0 <= k < d.len() && in_block(#[trigger] d[k], p) implies Some(d[k].id) != p by {
                assert(d[k] == cs[k]);
            }
        }
        assert(in_channel_order(d)) by {
            assert forall|i: int, j: int| 0 <= i < j < d.len() implies channel_precedes(#[trigger] d[i], #[trigger] d[j]) by {
                assert(d[i] == cs[i] && d[j] == cs[j]);
            }
        }
        lemma_block_ordered(d, ts, p);
        lemma_block_entries(d, ts, p);
        let r = block(d, ts, p);
        let x = cs.last();
        if in_block(x, p) {
            let th = threads_under(ts, x.id.0);
            lemma_threads_under_parent(ts, x.id.0);
            let out = r + seq![x] + th;
            assert(block(cs, ts, p) == out);
            assert(Some(cs[cs.len() - 1].id) != p);
            assert forall|i: int, j: int| 0 <= i < j < out.len() && in_block(#[trigger] out[i], p) && in_block(#[trigger] out[j], p)
                implies channel_precedes(out[i], out[j]) by {
                if j < r.len() {
                    assert(out[i] == r[i] && out[j] == r[j]);
                } else if j == r.len() {
                    assert(out[i] == r[i]);
                    assert(out[j] == cs[cs.len() - 1]);
                    let k = choose|k: int| 0 <= k < d.len() && #[trigger] d[k] == r[i];
                    assert(cs[k] == d[k]);
                } else {
                    assert(out[j] == th[j - r.len() - 1]);
                }
            }
        }
    }
}


/// Every entry of a block has parent `p` or some parent.
proof fn lemma_block_parents(cs: Seq<ChanView>, ts: Seq<Thread>, p: Option<SnowflakeID>)
    ensures
        forall|i: int| 0 <= i < block(cs, ts, p).len()
            ==> (#[trigger] block(cs, ts, p)[i]).parent_id == p || block(cs, ts, p)[i].parent_id is Some,
    decreases cs.len(),
{
    if cs.len() > 0 {
        lemma_block_parents(cs.drop_last(), ts, p);
        let r = block(cs.drop_last(), ts, p);
        let x = cs.last();
        if in_block(x, p) {
            let th = threads_under(ts, x.id.0);
            lemma_threads_under_parent(ts, x.id.0);
            let out = r + seq![x] + th;
            assert forall|i: int| 0 <= i < out.len() implies (#[trigger] out[i]).parent_id == p || out[i].parent_id is Some by {
                if i < r.len() {
                    assert(out[i] == r[i]);
                } else if i > r.len() {
                    assert(out[i] == th[i - r.len() - 1]);
                }
            }
        }
    }
}

/// The categories picked from `cs` are categories.
proof fn lemma_category_keys_kind(cs: Seq<ChanView>)
    ensures
        forall|i: int| 0 <= i < category_keys(cs).len() ==> (#[trigger] category_keys(cs)[i]).1.kind == 4,
    decreases cs.len(),
{
    if cs.len() > 0 {
        lemma_category_keys_kind(cs.drop_last());
    }
}

/// The category part of the list holds categories and entries with a parent.
proof fn lemma_category_blocks_entries(cats: Seq<ChanView>, cs: Seq<ChanView>, ts: Seq<Thread>)
    requires
        forall|k: int| 0 <= k < cats.len() ==> (#[trigger] cats[k]).kind == 4,
    ensures
        forall|i: int| 0 <= i < category_blocks(cats, cs, ts).len()
            ==> (#[trigger] category_blocks(cats, cs, ts)[i]).kind == 4 || category_blocks(cats, cs, ts)[i].parent_id is Some,
    decreases cats.len(),
{
    if cats.len() > 0 {
        let d = cats.drop_last();
        assert forall|k: int| 0 <= k < d.len() implies (#[trigger] d[k]).kind == 4 by {
            assert(d[k] == cats[k]);
        }
        lemma_category_blocks_entries(d, cs, ts);
        let r = category_blocks(d, cs, ts);
        let c = cats.last();
        let b = block(cs, ts, Some(c.id));
        lemma_block_parents(cs, ts, Some(c.id));
        let out = r + seq![c] + b;
        assert(category_blocks(cats, cs, ts) == out);
        assert(cats[cats.len() - 1].kind == 4);
        assert forall|i: int| 0 <= i < out.len() implies (#[trigger] out[i]).kind == 4 || out[i].parent_id is Some by {
            if i < r.len() {
                assert(out[i] == r[i]);
            } else if i > r.len() {
                assert(out[i] == b[i - r.len() - 1]);
            }
        }
    }
}

/// The channel list built from the READY payload orders channels by position: among the
/// channels without category, and among the channels of each category (unless one is its own
/// parent), voice and stage channels come last, and those of one kind group by ascending
/// position, whatever their ids; ids only break ties.
pub proof fn law_channel_list_by_position(g: Guild)
    ensures
        in_channel_order(sorted_channels(g)),
        block_in_channel_order(guild_channels_spec(g), None),
        forall|p: Option<SnowflakeID>| no_self_parent(sorted_channels(g), p)
            ==> #[trigger] block_in_channel_order(block(sorted_channels(g), g.threads@, p), p),
{
    let sc = sorted_channels(g);
    let ts = g.threads@;
    law_sorted_channels_by_position(g);
    assert forall|p: Option<SnowflakeID>| no_self_parent(sc, p)
        implies #[trigger] block_in_channel_order(block(sc, ts, p), p) by {
        lemma_block_ordered(sc, ts, p);
    }
    let ck = category_keys(sc);
    let cats = elems(stable_sort(ck));
    lemma_category_keys_kind(sc);
    lemma_sort_sorted(ck);
    assert forall|k: int| 0 <= k < cats.len() implies (#[trigger] cats[k]).kind == 4 by {
        lemma_sort_from(ck, k);
        let a = choose|a: int| 0 <= a < ck.len() && ck[a] == stable_sort(ck)[k];
    }
    lemma_category_blocks_entries(cats, sc, ts);
    assert(no_self_parent(sc, None));
    lemma_block_ordered(sc, ts, None);
    let b = block(sc, ts, None);
    let cb = category_blocks(cats, sc, ts);
    let out = b + cb;
    assert(guild_channels_spec(g) == out);
    assert forall|i: int, j: int| 0 <= i < j < out.len() && in_block(#[trigger] out[i], None) && in_block(#[trigger] out[j], None)
        implies channel_precedes(out[i], out[j]) by {
        if j >= b.len() {
            assert(out[j] == cb[j - b.len()]);
        } else {
            assert(out[i] == b[i] && out[j] == b[j]);
        }
    }
}

} // verus!
