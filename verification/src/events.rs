use std::collections::{HashMap, HashSet};
use vstd::prelude::*;
use crate::appstate::{AppState, keys_of};
use crate::appstate::{People, chosen_name};
use crate::receive_struct::channel_create::ChannelCreateData;
use crate::receive_struct::message_delete::MessageDeleteData;
use crate::receive_struct::presence_update::PresenceData;
use crate::receive_struct::typing_start::TypingData;
use crate::receive_struct::gateway_events::{ChunkMember, ChunkPresence, GuildMemberChunk, MessageReactionAdd, MessageReactionRemove, ReactionEmoji};
use crate::decimal::{parse_u64, parse_u64_spec};
use crate::ready_state::dir_view;
use crate::text::owned;
use crate::snowflake::SnowflakeID;
use crate::sorting::{elems, insert_pos, key_of, keyed, lex_lt, sort_by_key, stable_sort};
use crate::state::{str_eq, ChannelSummary, DisplayMessage, PresenceStatus, presence_of_text, typing_ttl_ms};

verus! {

broadcast use {vstd::std_specs::hash::group_hash_axioms, vstd::seq_lib::group_seq_properties};

/// Keeps the messages whose id is not `id`.
pub open spec fn not_msg(id: u64) -> spec_fn(DisplayMessage) -> bool {
    |m: DisplayMessage| m.id.0 != id
}

/// Keeps the channels whose id is not `id`.
pub open spec fn not_chan(id: u64) -> spec_fn(ChannelSummary) -> bool {
    |c: ChannelSummary| c.id.0 != id
}

/// The messages of `v` whose id is not `id`, in order.
fn without_message(v: Vec<DisplayMessage>, id: u64) -> (r: Vec<DisplayMessage>)
    ensures
        r@ == v@.filter(not_msg(id)),
{
    let ghost s = v@;
    let mut out: Vec<DisplayMessage> = Vec::new();
    for m in it: v.into_iter()
        invariant
            it.seq() == s,
            out@ == it.seq().take(it.index() as int).filter(not_msg(id)),
    {
        proof {
            assert(it.seq().take(it.index() + 1) =~= it.seq().take(it.index() as int).push(m));
            it.seq().take(it.index() as int).lemma_filter_push(m, not_msg(id));
        }
        if m.id.0 != id {
            out.push(m);
        }
    }
    assert(s.take(s.len() as int) =~= s);
    out
}

/// The state after a message delete: the messages with the deleted id leave the list of
/// their channel.
pub open spec fn message_delete_rel(before: AppState, after: AppState, d: MessageDeleteData) -> bool {
    &&& (before.messages@.contains_key(d.channel_id.0) ==> {
            &&& after.messages@ == before.messages@.insert(d.channel_id.0, after.messages@[d.channel_id.0])
            &&& after.messages@[d.channel_id.0]@ == before.messages@[d.channel_id.0]@.filter(not_msg(d.id.0))
        })
    &&& (!before.messages@.contains_key(d.channel_id.0) ==> after.messages@ == before.messages@)
    &&& (after == (AppState { messages: after.messages, ..before }))
}

/// Removes from the list of channel `d.channel_id` the messages with id `d.id`.
pub fn apply_message_delete(d: &MessageDeleteData, state: &mut AppState)
    ensures
        message_delete_rel(*old(state), *final(state), *d),
{
    match state.messages.remove(&d.channel_id.0) {
        Some(buf) => {
            let kept = without_message(buf, d.id.0);
            state.messages.insert(d.channel_id.0, kept);
            proof {
                assert(state.messages@ =~= old(state).messages@.insert(d.channel_id.0, state.messages@[d.channel_id.0]));
            }
        },
        None => {
            proof {
                assert(state.messages@ =~= old(state).messages@);
            }
        },
    }
}

/// The channels of `v` whose id is not `id`, in order.
fn without_channel(v: Vec<ChannelSummary>, id: u64) -> (r: Vec<ChannelSummary>)
    ensures
        r@ == v@.filter(not_chan(id)),
{
    let ghost s = v@;
    let mut out: Vec<ChannelSummary> = Vec::new();
    for c in it: v.into_iter()
        invariant
            it.seq() == s,
            out@ == it.seq().take(it.index() as int).filter(not_chan(id)),
    {
        proof {
            assert(it.seq().take(it.index() + 1) =~= it.seq().take(it.index() as int).push(c));
            it.seq().take(it.index() as int).lemma_filter_push(c, not_chan(id));
        }
        if c.id.0 != id {
            out.push(c);
        }
    }
    assert(s.take(s.len() as int) =~= s);
    out
}

/// The state after a channel delete: the channel leaves the list of every guild.
pub open spec fn channel_delete_rel(before: AppState, after: AppState, id: SnowflakeID) -> bool {
    &&& (after.channels_by_guild@.dom() == before.channels_by_guild@.dom())
    &&& (forall|g: u64| #[trigger] before.channels_by_guild@.contains_key(g)
            ==> after.channels_by_guild@[g]@ == before.channels_by_guild@[g]@.filter(not_chan(id.0)))
    &&& (after == (AppState { channels_by_guild: after.channels_by_guild, ..before }))
}

/// Removes channel `id` from the list of every guild.
pub fn apply_channel_delete(id: SnowflakeID, state: &mut AppState)
    ensures
        channel_delete_rel(*old(state), *final(state), id),
{
    let keys = keys_of(&state.channels_by_guild);
    let ghost m0 = state.channels_by_guild@;
    let mut i: usize = 0;
    while i < keys.len()
        invariant
            0 <= i <= keys.len(),
            keys@.to_set() == m0.dom(),
            keys@.no_duplicates(),
            state.channels_by_guild@.dom() == m0.dom(),
            forall|j: int| 0 <= j < i ==> (#[trigger] state.channels_by_guild@[keys@[j]])@ == m0[keys@[j]]@.filter(not_chan(id.0)),
            forall|g: u64| m0.contains_key(g) && !keys@.take(i as int).contains(g)
                ==> #[trigger] state.channels_by_guild@[g] == m0[g],
            *state == (AppState { channels_by_guild: state.channels_by_guild, ..*old(state) }),
        decreases keys.len() - i,
    {
        let g = keys[i];
        assert(keys@.to_set().contains(g));
        assert(!keys@.take(i as int).contains(g));
        let ghost before = state.channels_by_guild@;
        match state.channels_by_guild.remove(&g) {
            Some(list) => {
                let kept = without_channel(list, id.0);
                state.channels_by_guild.insert(g, kept);
            },
            None => {},
        }
        proof {
            assert forall|g2: u64| m0.contains_key(g2) && !keys@.take(i + 1).contains(g2)
                implies #[trigger] state.channels_by_guild@[g2] == m0[g2] by {
                assert(keys@.take(i + 1) =~= keys@.take(i as int).push(g));
                assert(g2 != g);
            }
            assert forall|j: int| 0 <= j < i + 1 implies (#[trigger] state.channels_by_guild@[keys@[j]])@ == m0[keys@[j]]@.filter(not_chan(id.0)) by {
                if j < i {
                    assert(keys@[j] != g);
                }
            }
            assert(state.channels_by_guild@.dom() =~= m0.dom());
        }
        i += 1;
    }
    proof {
        assert forall|g: u64| #[trigger] old(state).channels_by_guild@.contains_key(g)
            implies state.channels_by_guild@[g]@ == old(state).channels_by_guild@[g]@.filter(not_chan(id.0)) by {
            assert(keys@.to_set().contains(g));
            let j = choose|j: int| 0 <= j < keys@.len() && keys@[j] == g;
        }
    }
}

/// Sort key of a channel added by an event: parent (0 when none), position, kind.
pub open spec fn chan_order_key(c: ChannelSummary) -> Seq<int> {
    seq![match c.parent_id { Some(p) => p.0 as int, None => 0 }, c.position as int, c.kind as int]
}

/// The channels of `s` keyed by [`chan_order_key`].
pub open spec fn keyed_by_order(s: Seq<ChannelSummary>) -> Seq<(Seq<int>, ChannelSummary)> {
    s.map_values(|c: ChannelSummary| (chan_order_key(c), c))
}

/// The channel entry that a channel create or update event describes.
pub open spec fn event_channel(d: ChannelCreateData) -> ChannelSummary {
    ChannelSummary {
        id: d.id,
        name: d.name,
        recipient_id: None,
        kind: d.type_field,
        parent_id: d.parent_id,
        position: d.position,
        last_activity: match d.last_message_id { Some(m) => m.0, None => 0 },
        avatar_url: None,
    }
}

/// `i` is the first position of `s` that holds channel `id`.
pub open spec fn first_chan_at(s: Seq<ChannelSummary>, id: u64, i: int) -> bool {
    &&& 0 <= i < s.len()
    &&& s[i].id.0 == id
    &&& forall|j: int| 0 <= j < i ==> s[j].id.0 != id
}

/// The first position of `s` whose element satisfies `p`, or -1.
pub open spec fn first_pos<T>(s: Seq<T>, p: spec_fn(T) -> bool) -> int
    decreases s.len(),
{
    if s.len() == 0 {
        -1
    } else {
        let q = first_pos(s.drop_last(), p);
        if q >= 0 { q } else if p(s.last()) { s.len() - 1 } else { -1 }
    }
}

pub proof fn lemma_first_pos<T>(s: Seq<T>, p: spec_fn(T) -> bool)
    ensures
        first_pos(s, p) == -1 <==> forall|j: int| 0 <= j < s.len() ==> !p(s[j]),
        first_pos(s, p) >= 0 ==> {
            &&& first_pos(s, p) < s.len()
            &&& p(s[first_pos(s, p)])
            &&& forall|j: int| 0 <= j < first_pos(s, p) ==> !p(s[j])
        },
        first_pos(s, p) >= -1,
    decreases s.len(),
{
    if s.len() > 0 {
        lemma_first_pos(s.drop_last(), p);
        assert(forall|j: int| 0 <= j < s.len() - 1 ==> s[j] == s.drop_last()[j]);
        if first_pos(s.drop_last(), p) == -1 && !p(s.last()) {
            assert forall|j: int| 0 <= j < s.len() implies !p(s[j]) by {
                if j < s.len() - 1 {
                    assert(s[j] == s.drop_last()[j]);
                }
            }
        }
        if first_pos(s, p) == -1 {
            assert(s[s.len() - 1] == s.last());
        }
    }
}

/// A position `i` whose element satisfies `p`, with none before it, is the first.
pub proof fn lemma_first_pos_at<T>(s: Seq<T>, p: spec_fn(T) -> bool, i: int)
    requires
        0 <= i < s.len(),
        p(s[i]),
        forall|j: int| 0 <= j < i ==> !p(s[j]),
    ensures
        first_pos(s, p) == i,
{
    lemma_first_pos(s, p);
    let q = first_pos(s, p);
    if q != i {
        if q >= 0 && q < i {
            assert(!p(s[q]));
        }
    }
}

/// Holds for channel `id`.
pub open spec fn chan_is(id: u64) -> spec_fn(ChannelSummary) -> bool {
    |c: ChannelSummary| c.id.0 == id
}

/// The first position of `s` that holds channel `id`, or -1.
pub open spec fn chan_pos(s: Seq<ChannelSummary>, id: u64) -> int {
    first_pos(s, chan_is(id))
}

/// The list of a guild after a channel create or update event: the first entry of the
/// same channel is replaced; a new channel is appended and the list stably sorted by
/// parent, position and kind.
pub open spec fn upserted(s: Seq<ChannelSummary>, c: ChannelSummary) -> Seq<ChannelSummary> {
    let p = chan_pos(s, c.id.0);
    if p >= 0 {
        s.update(p, c)
    } else {
        elems(stable_sort(keyed_by_order(s.push(c))))
    }
}

/// Stable sort of channels by parent, position and kind.
fn sort_channels(v: Vec<ChannelSummary>) -> (r: Vec<ChannelSummary>)
    ensures
        r@ == elems(stable_sort(keyed_by_order(v@))),
{
    let ghost s = v@;
    let mut kv: Vec<(Vec<i128>, ChannelSummary)> = Vec::new();
    for c in it: v.into_iter()
        invariant
            it.seq() == s,
            keyed(kv@) == keyed_by_order(it.seq().take(it.index() as int)),
    {
        let p: i128 = match c.parent_id {
            Some(p) => p.0 as i128,
            None => 0,
        };
        let mut k: Vec<i128> = Vec::new();
        k.push(p);
        k.push(c.position as i128);
        k.push(c.kind as i128);
        assert(key_of(k@) =~= chan_order_key(c));
        let ghost before = kv@;
        kv.push((k, c));
        proof {
            assert(it.seq().take(it.index() + 1) =~= it.seq().take(it.index() as int).push(c));
            assert(keyed(kv@) =~= keyed(before).push((chan_order_key(c), c)));
            assert(keyed_by_order(it.seq().take(it.index() + 1)) =~= keyed_by_order(it.seq().take(it.index() as int)).push((chan_order_key(c), c)));
        }
    }
    assert(s.take(s.len() as int) =~= s);
    sort_by_key(kv)
}

/// The first position of `v` that holds channel `id`, if any.
fn find_channel(v: &Vec<ChannelSummary>, id: u64) -> (r: Option<usize>)
    ensures
        match r {
            Some(i) => i < v.len() && i as int == chan_pos(v@, id),
            None => chan_pos(v@, id) == -1,
        },
{
    let mut i: usize = 0;
    while i < v.len()
        invariant
            0 <= i <= v.len(),
            forall|j: int| 0 <= j < i ==> v@[j].id.0 != id,
        decreases v.len() - i,
    {
        if v[i].id.0 == id {
            proof {
                lemma_first_pos_at(v@, chan_is(id), i as int);
            }
            return Some(i);
        }
        i += 1;
    }
    proof {
        lemma_first_pos(v@, chan_is(id));
    }
    None
}

/// The state after a channel create or update (see [`upserted`]).
pub open spec fn channel_upsert_rel(before: AppState, after: AppState, d: ChannelCreateData) -> bool {
    &&& (after.channels_by_guild@ == before.channels_by_guild@.insert(d.guild_id.0, after.channels_by_guild@[d.guild_id.0]))
    &&& (after.channels_by_guild@[d.guild_id.0]@ == upserted(
            if before.channels_by_guild@.contains_key(d.guild_id.0) { before.channels_by_guild@[d.guild_id.0]@ } else { Seq::empty() },
            event_channel(d),
        ))
    &&& (after == (AppState { channels_by_guild: after.channels_by_guild, ..before }))
}

/// Records a created or updated channel in the list of its guild (see [`upserted`]).
pub fn apply_channel_upsert(d: &ChannelCreateData, state: &mut AppState)
    ensures
        channel_upsert_rel(*old(state), *final(state), *d),
{
    let summary = ChannelSummary {
        id: d.id,
        name: d.name.clone(),
        recipient_id: None,
        kind: d.type_field,
        parent_id: d.parent_id,
        position: d.position,
        last_activity: match d.last_message_id {
            Some(m) => m.0,
            None => 0,
        },
        avatar_url: None,
    };
    assert(summary == event_channel(*d));
    let mut list = match state.channels_by_guild.remove(&d.guild_id.0) {
        Some(l) => l,
        None => Vec::new(),
    };
    let ghost l0 = list@;
    assert(l0 == (if old(state).channels_by_guild@.contains_key(d.guild_id.0) { old(state).channels_by_guild@[d.guild_id.0]@ } else { Seq::empty() }));
    match find_channel(&list, d.id.0) {
        Some(i) => {
            list.remove(i);
            list.insert(i, summary);
            assert(list@ =~= l0.update(i as int, summary));
            assert(list@ == upserted(l0, summary));
        },
        None => {
            list.push(summary);
            list = sort_channels(list);
            assert(list@ == upserted(l0, summary));
        },
    }
    state.channels_by_guild.insert(d.guild_id.0, list);
    proof {
        assert(state.channels_by_guild@ =~= old(state).channels_by_guild@.insert(d.guild_id.0, state.channels_by_guild@[d.guild_id.0]));
    }
}

/// The name directory after an event names user `id` (see [`chosen_name`]).
pub open spec fn noted(dir: Map<u64, Seq<char>>, id: u64, global: Option<Seq<char>>, username: Seq<char>) -> Map<u64, Seq<char>> {
    match chosen_name(global, username) {
        Some(n) => dir.insert(id, n),
        None => dir,
    }
}

/// The view of an optional string slice.
pub open spec fn opt_chars(o: Option<&str>) -> Option<Seq<char>> {
    match o {
        Some(s) => Some(s@),
        None => None,
    }
}

/// [`AppState::note_user`] in terms of [`noted`].
pub fn note(state: &mut AppState, id: SnowflakeID, global: Option<&str>, username: &str)
    ensures
        dir_view(final(state).people.user_dir@) == noted(dir_view(old(state).people.user_dir@), id.0, opt_chars(global), username@),
        final(state).people == (People { user_dir: final(state).people.user_dir, ..old(state).people }),
        *final(state) == (AppState { people: final(state).people, ..*old(state) }),
{
    state.note_user(id, global, username);
    assert(dir_view(state.people.user_dir@) =~= noted(dir_view(old(state).people.user_dir@), id.0, opt_chars(global), username@));
}

/// The state after a presence update: the user's status and name are recorded.
pub open spec fn presence_rel(before: AppState, after: AppState, d: PresenceData) -> bool {
    &&& (after.people.presence@ == before.people.presence@.insert(d.user.id.0, presence_of_text(d.status@)))
    &&& (dir_view(after.people.user_dir@) == noted(
            dir_view(before.people.user_dir@),
            d.user.id.0,
            match d.user.global_name { Some(g) => Some(g@), None => None },
            match d.user.username { Some(u) => u@, None => Seq::empty() },
        ))
    &&& (after.people == (People {
            presence: after.people.presence,
            user_dir: after.people.user_dir,
            ..before.people
        }))
    &&& (after == (AppState { people: after.people, ..before }))
}

/// Records the status and the name of the user of a presence update.
pub fn apply_presence_update(d: &PresenceData, state: &mut AppState)
    ensures
        presence_rel(*old(state), *final(state), *d),
{
    let st = PresenceStatus::parse(d.status.as_str());
    state.people.presence.insert(d.user.id.0, st);
    let g: Option<&str> = match &d.user.global_name {
        Some(x) => Some(x.as_str()),
        None => None,
    };
    let u: &str = match &d.user.username {
        Some(x) => x.as_str(),
        None => "",
    };
    proof {
        reveal_strlit("");
    }
    note(state, d.user.id, g, u);
}

/// Keeps the typing entries of other users that are younger than the typing lifetime
/// at `now` (the age of an entry stamped in the future is zero).
pub open spec fn typing_keep(uid: u64, now: u64) -> spec_fn((SnowflakeID, u64)) -> bool {
    |e: (SnowflakeID, u64)| e.0.0 != uid && (if now >= e.1 { now - e.1 } else { 0 }) < typing_ttl_ms()
}

/// The typing list of a channel after user `uid` starts typing at `now`.
pub open spec fn typing_after(v: Seq<(SnowflakeID, u64)>, uid: u64, now: u64) -> Seq<(SnowflakeID, u64)> {
    v.filter(typing_keep(uid, now)).push((SnowflakeID(uid), now))
}

/// The entries of `v` kept by [`typing_keep`].
fn keep_typing(v: Vec<(SnowflakeID, u64)>, uid: u64, now: u64) -> (r: Vec<(SnowflakeID, u64)>)
    ensures
        r@ == v@.filter(typing_keep(uid, now)),
{
    let ghost s = v@;
    let mut out: Vec<(SnowflakeID, u64)> = Vec::new();
    for e in it: v.into_iter()
        invariant
            it.seq() == s,
            out@ == it.seq().take(it.index() as int).filter(typing_keep(uid, now)),
    {
        proof {
            assert(it.seq().take(it.index() + 1) =~= it.seq().take(it.index() as int).push(e));
            it.seq().take(it.index() as int).lemma_filter_push(e, typing_keep(uid, now));
        }
        let age: u64 = if now >= e.1 { now - e.1 } else { 0 };
        if e.0.0 != uid && age < 9000 {
            out.push(e);
        }
    }
    assert(s.take(s.len() as int) =~= s);
    out
}

/// The state after a typing start at `now_ms` (see [`typing_after`]).
pub open spec fn typing_rel(before: AppState, after: AppState, d: TypingData, now_ms: u64) -> bool {
    &&& (after.people.typing@ == before.people.typing@.insert(d.channel_id.0, after.people.typing@[d.channel_id.0]))
    &&& (after.people.typing@[d.channel_id.0]@ == typing_after(
            if before.people.typing@.contains_key(d.channel_id.0) { before.people.typing@[d.channel_id.0]@ } else { Seq::empty() },
            d.user_id.0,
            now_ms,
        ))
    &&& (dir_view(after.people.user_dir@) == match d.member {
            Some(m) => noted(dir_view(before.people.user_dir@), d.user_id.0, match m.user.global_name { Some(g) => Some(g@), None => None }, m.user.username@),
            None => dir_view(before.people.user_dir@),
        })
    &&& (after.people == (People {
            typing: after.people.typing,
            user_dir: after.people.user_dir,
            ..before.people
        }))
    &&& (after == (AppState { people: after.people, ..before }))
}

/// Records that user `d.user_id` types in channel `d.channel_id` at `now_ms`: the user's
/// older entry and expired entries of the channel are dropped, the new one is appended;
/// the member's name is recorded when the event carries it.
pub fn apply_typing_start(d: &TypingData, state: &mut AppState, now_ms: u64)
    ensures
        typing_rel(*old(state), *final(state), *d, now_ms),
        final(state).people.typing@.contains_key(d.channel_id.0),
        final(state).people.typing@[d.channel_id.0]@.last() == (d.user_id, now_ms),
        forall|i: int| 0 <= i < final(state).people.typing@[d.channel_id.0]@.len() - 1
            ==> (#[trigger] final(state).people.typing@[d.channel_id.0]@[i]).0 != d.user_id,
{
    match &d.member {
        Some(m) => {
            let g: Option<&str> = match &m.user.global_name {
                Some(x) => Some(x.as_str()),
                None => None,
            };
            note(state, d.user_id, g, m.user.username.as_str());
        },
        None => {},
    }
    let ghost p1 = state.people;
    let list = match state.people.typing.remove(&d.channel_id.0) {
        Some(l) => l,
        None => Vec::new(),
    };
    let mut kept = keep_typing(list, d.user_id.0, now_ms);
    kept.push((d.user_id, now_ms));
    state.people.typing.insert(d.channel_id.0, kept);
    proof {
        assert(state.people.typing@ =~= old(state).people.typing@.insert(d.channel_id.0, state.people.typing@[d.channel_id.0]));
        law_typing_user_once(*old(state), *state, *d, now_ms);
    }
}

/// No user is listed twice in a typing list.
pub open spec fn typing_users_distinct(v: Seq<(SnowflakeID, u64)>) -> bool {
    forall|i: int, j: int| 0 <= i < j < v.len() ==> (#[trigger] v[i]).0 != (#[trigger] v[j]).0
}

/// Dropping entries keeps the users of a typing list distinct.
proof fn lemma_filter_users_distinct(v: Seq<(SnowflakeID, u64)>, f: spec_fn((SnowflakeID, u64)) -> bool)
    requires
        typing_users_distinct(v),
    ensures
        typing_users_distinct(v.filter(f)),
    decreases v.len(),
{
    reveal(Seq::filter);
    if v.len() > 0 {
        let d = v.drop_last();
        assert(typing_users_distinct(d)) by {
            assert forall|i: int, j: int| 0 <= i < j < d.len() implies (#[trigger] d[i]).0 != (#[trigger] d[j]).0 by {
                assert(d[i] == v[i] && d[j] == v[j]);
            }
        }
        lemma_filter_users_distinct(d, f);
        let fd = d.filter(f);
        if f(v.last()) {
            let out = fd.push(v.last());
            assert forall|i: int, j: int| 0 <= i < j < out.len() implies (#[trigger] out[i]).0 != (#[trigger] out[j]).0 by {
                if j == out.len() - 1 {
                    d.lemma_filter_contains_rev(f, fd[i]);
                    let k = choose|k: int| 0 <= k < d.len() && d[k] == fd[i];
                    assert(v[k] == d[k]);
                    assert(v[v.len() - 1] == v.last());
                } else {
                    assert(out[i] == fd[i] && out[j] == fd[j]);
                }
            }
        }
    }
}

/// The age at `now` of an entry stamped at `stamp` (zero for a stamp in the future).
pub open spec fn typing_age(stamp: u64, now: u64) -> int {
    if now >= stamp { now - stamp } else { 0 }
}

/// After user `u` starts typing in channel `c`, the typing list of `c` ends with the new
/// entry of `u` at `now_ms`, holds no other entry of `u`, and lists no user twice if the
/// list before did not; the other entries are those of the list before that are younger
/// than the typing lifetime; the lists of the other channels are unchanged.
pub proof fn law_typing_user_once(before: AppState, after: AppState, d: TypingData, now_ms: u64)
    requires
        typing_rel(before, after, d, now_ms),
    ensures
        ({
            let l = after.people.typing@[d.channel_id.0]@;
            &&& after.people.typing@.contains_key(d.channel_id.0)
            &&& l.len() > 0
            &&& l.last() == (d.user_id, now_ms)
            &&& forall|i: int| 0 <= i < l.len() - 1 ==> (#[trigger] l[i]).0 != d.user_id
            &&& (before.people.typing@.contains_key(d.channel_id.0)
                ==> typing_users_distinct(before.people.typing@[d.channel_id.0]@))
                ==> typing_users_distinct(l)
            &&& forall|i: int| 0 <= i < l.len() - 1 ==> {
                &&& before.people.typing@.contains_key(d.channel_id.0)
                &&& before.people.typing@[d.channel_id.0]@.contains(#[trigger] l[i])
                &&& typing_age(l[i].1, now_ms) < typing_ttl_ms()
            }
            &&& before.people.typing@.contains_key(d.channel_id.0) ==> forall|k: int|
                0 <= k < before.people.typing@[d.channel_id.0]@.len()
                && (#[trigger] before.people.typing@[d.channel_id.0]@[k]).0 != d.user_id
                && typing_age(before.people.typing@[d.channel_id.0]@[k].1, now_ms) < typing_ttl_ms()
                ==> l.contains(before.people.typing@[d.channel_id.0]@[k])
        }),
        forall|c: u64| c != d.channel_id.0 ==> after.people.typing@.contains_key(c) == before.people.typing@.contains_key(c)
            && (after.people.typing@.contains_key(c) ==> #[trigger] after.people.typing@[c] == before.people.typing@[c]),
{
    let c = d.channel_id.0;
    let uid = d.user_id.0;
    let v = if before.people.typing@.contains_key(c) { before.people.typing@[c]@ } else { Seq::<(SnowflakeID, u64)>::empty() };
    let f = typing_keep(uid, now_ms);
    let fv = v.filter(f);
    let l = after.people.typing@[c]@;
    assert(l == fv.push((SnowflakeID(uid), now_ms)));
    assert(after.people.typing@.contains_key(c));
    assert forall|i: int| 0 <= i < l.len() - 1 implies (#[trigger] l[i]).0 != d.user_id && {
        &&& before.people.typing@.contains_key(c)
        &&& before.people.typing@[c]@.contains(l[i])
        &&& typing_age(l[i].1, now_ms) < typing_ttl_ms()
    } by {
        assert(l[i] == fv[i]);
        v.lemma_filter_pred(f, i);
        v.lemma_filter_contains_rev(f, fv[i]);
    }
    if before.people.typing@.contains_key(c) {
        assert forall|k: int| 0 <= k < v.len() && (#[trigger] v[k]).0 != d.user_id && typing_age(v[k].1, now_ms) < typing_ttl_ms()
            implies l.contains(v[k]) by {
            v.lemma_filter_contains(f, k);
            let m = choose|m: int| 0 <= m < fv.len() && fv[m] == v[k];
            assert(l[m] == fv[m]);
        }
    }
    if typing_users_distinct(v) {
        lemma_filter_users_distinct(v, f);
        assert forall|i: int, j: int| 0 <= i < j < l.len() implies (#[trigger] l[i]).0 != (#[trigger] l[j]).0 by {
            if j < l.len() - 1 {
                assert(l[i] == fv[i] && l[j] == fv[j]);
            } else {
                assert(l[i] == fv[i]);
                v.lemma_filter_pred(f, i);
            }
        }
    }
    if !before.people.typing@.contains_key(c) {
        assert(typing_users_distinct(v));
    }
}

/// The name under which a reaction is counted: the emoji's name, else its id, else `?`.
pub open spec fn reaction_label(e: ReactionEmoji) -> Seq<char> {
    match e.name {
        Some(n) => n@,
        None => match e.id {
            Some(i) => i@,
            None => "?"@,
        },
    }
}

fn reaction_label_of(e: &ReactionEmoji) -> (r: String)
    ensures
        r@ == reaction_label(*e),
{
    match &e.name {
        Some(n) => n.clone(),
        None => match &e.id {
            Some(i) => i.clone(),
            None => {
                proof {
                    reveal_strlit("?");
                }
                owned("?")
            },
        },
    }
}

/// Holds for message `id`.
pub open spec fn msg_is(id: u64) -> spec_fn(DisplayMessage) -> bool {
    |m: DisplayMessage| m.id.0 == id
}

/// Holds for the reaction counted under `name`.
pub open spec fn reaction_is(name: Seq<char>) -> spec_fn((String, u32)) -> bool {
    |r: (String, u32)| r.0@ == name
}

/// `new` is `old` after one more reaction `name`: the first entry of that name counts one
/// more, or a new entry with count 1 is appended.
pub open spec fn reaction_added(old: Seq<(String, u32)>, new: Seq<(String, u32)>, name: Seq<char>) -> bool {
    let p = first_pos(old, reaction_is(name));
    if p >= 0 {
        new == old.update(p, (old[p].0, (old[p].1 + 1) as u32))
    } else {
        &&& new.len() == old.len() + 1
        &&& new.drop_last() == old
        &&& new.last().0@ == name
        &&& new.last().1 == 1
    }
}

/// `new` is `old` after one reaction `name` less: the first entry of that name counts one
/// less, and goes when its count was at most one; nothing changes when there is none.
pub open spec fn reaction_removed(old: Seq<(String, u32)>, new: Seq<(String, u32)>, name: Seq<char>) -> bool {
    let p = first_pos(old, reaction_is(name));
    if p >= 0 {
        if old[p].1 <= 1 {
            new == old.remove(p)
        } else {
            new == old.update(p, (old[p].0, (old[p].1 - 1) as u32))
        }
    } else {
        new == old
    }
}

/// The message lists `new` are `old` with the reactions of the first message `mid` of
/// channel `c` changed as `change` relates them; nothing changes when there is no such
/// message.
pub open spec fn reactions_changed(
    old: Map<u64, Vec<DisplayMessage>>,
    new: Map<u64, Vec<DisplayMessage>>,
    c: u64,
    mid: u64,
    change: spec_fn(Seq<(String, u32)>, Seq<(String, u32)>) -> bool,
) -> bool {
    if old.contains_key(c) && first_pos(old[c]@, msg_is(mid)) >= 0 {
        let q = first_pos(old[c]@, msg_is(mid));
        &&& new == old.insert(c, new[c])
        &&& new[c]@.len() == old[c]@.len()
        &&& forall|j: int| 0 <= j < old[c]@.len() && j != q ==> new[c]@[j] == old[c]@[j]
        &&& new[c]@[q] == (DisplayMessage { reactions: new[c]@[q].reactions, ..old[c]@[q] })
        &&& change(old[c]@[q].reactions@, new[c]@[q].reactions@)
    } else {
        new == old
    }
}

/// The count of reaction `name` on the first message `mid` of channel `c`, where there is
/// such a message and reaction, can grow by one.
pub open spec fn reaction_room(msgs: Map<u64, Vec<DisplayMessage>>, c: u64, mid: u64, name: Seq<char>) -> bool {
    msgs.contains_key(c) && first_pos(msgs[c]@, msg_is(mid)) >= 0 ==> {
        let m = msgs[c]@[first_pos(msgs[c]@, msg_is(mid))];
        let p = first_pos(m.reactions@, reaction_is(name));
        p >= 0 ==> m.reactions@[p].1 < u32::MAX
    }
}

/// The first position of message `id` in `v`, if any.
fn find_message(v: &Vec<DisplayMessage>, id: u64) -> (r: Option<usize>)
    ensures
        match r {
            Some(i) => i < v.len() && i as int == first_pos(v@, msg_is(id)),
            None => first_pos(v@, msg_is(id)) == -1,
        },
{
    let mut i: usize = 0;
    while i < v.len()
        invariant
            0 <= i <= v.len(),
            forall|j: int| 0 <= j < i ==> !(msg_is(id))(v@[j]),
        decreases v.len() - i,
    {
        if v[i].id.0 == id {
            proof {
                lemma_first_pos_at(v@, msg_is(id), i as int);
            }
            return Some(i);
        }
        i += 1;
    }
    proof {
        lemma_first_pos(v@, msg_is(id));
    }
    None
}

/// The first position of reaction `name` in `v`, if any.
fn find_reaction(v: &Vec<(String, u32)>, name: &str) -> (r: Option<usize>)
    ensures
        match r {
            Some(i) => i < v.len() && i as int == first_pos(v@, reaction_is(name@)),
            None => first_pos(v@, reaction_is(name@)) == -1,
        },
{
    let mut i: usize = 0;
    while i < v.len()
        invariant
            0 <= i <= v.len(),
            forall|j: int| 0 <= j < i ==> !(reaction_is(name@))(v@[j]),
        decreases v.len() - i,
    {
        if str_eq(v[i].0.as_str(), name) {
            proof {
                lemma_first_pos_at(v@, reaction_is(name@), i as int);
            }
            return Some(i);
        }
        i += 1;
    }
    proof {
        lemma_first_pos(v@, reaction_is(name@));
    }
    None
}

/// `true` when the reaction that `d` adds can be counted (see [`reaction_room`]).
pub fn reaction_fits(d: &MessageReactionAdd, state: &AppState) -> (r: bool)
    ensures
        r == reaction_room(state.messages@, d.channel_id.0, d.message_id.0, reaction_label(d.emoji)),
{
    let name = reaction_label_of(&d.emoji);
    match state.messages.get(&d.channel_id.0) {
        Some(buf) => match find_message(buf, d.message_id.0) {
            Some(q) => match find_reaction(&buf[q].reactions, name.as_str()) {
                Some(p) => buf[q].reactions[p].1 < u32::MAX,
                None => true,
            },
            None => true,
        },
        None => true,
    }
}

/// The state after a reaction is added (see [`reaction_added`]).
pub open spec fn reaction_add_rel(before: AppState, after: AppState, d: MessageReactionAdd) -> bool {
    &&& (reactions_changed(
            before.messages@,
            after.messages@,
            d.channel_id.0,
            d.message_id.0,
            |a: Seq<(String, u32)>, b: Seq<(String, u32)>| reaction_added(a, b, reaction_label(d.emoji)),
        ))
    &&& (after == (AppState { messages: after.messages, ..before }))
}

/// Counts one more reaction on a message (see [`reaction_added`]).
pub fn apply_reaction_add(d: &MessageReactionAdd, state: &mut AppState)
    requires
        reaction_room(old(state).messages@, d.channel_id.0, d.message_id.0, reaction_label(d.emoji)),
    ensures
        reaction_add_rel(*old(state), *final(state), *d),
{
    let name = reaction_label_of(&d.emoji);
    let c = d.channel_id.0;
    let ghost m0 = state.messages@;
    match state.messages.remove(&c) {
        Some(mut buf) => {
            let ghost b0 = buf@;
            match find_message(&buf, d.message_id.0) {
                Some(q) => {
                    let mut m = buf.remove(q);
                    let ghost r0 = m.reactions@;
                    match find_reaction(&m.reactions, name.as_str()) {
                        Some(p) => {
                            let (n, k) = m.reactions.remove(p);
                            m.reactions.insert(p, (n, k + 1));
                            assert(m.reactions@ =~= r0.update(p as int, (r0[p as int].0, (r0[p as int].1 + 1) as u32)));
                        },
                        None => {
                            m.reactions.push((name, 1));
                            assert(m.reactions@.drop_last() =~= r0);
                        },
                    }
                    let ghost m1 = m;
                    buf.insert(q, m);
                    assert(buf@ =~= b0.update(q as int, m1));
                    assert(reaction_added(r0, buf@[q as int].reactions@, name@));
                    assert(buf@[q as int] == (DisplayMessage { reactions: buf@[q as int].reactions, ..b0[q as int] }));
                },
                None => {},
            }
            state.messages.insert(c, buf);
            assert(state.messages@ =~= m0.insert(c, state.messages@[c]));
            assert(m0[c]@ == b0);
            proof {
                if first_pos(b0, msg_is(d.message_id.0)) < 0 {
                    assert(state.messages@ =~= m0);
                }
            }
        },
        None => {
            assert(state.messages@ =~= m0);
        },
    }
}

/// The state after a reaction is removed (see [`reaction_removed`]).
pub open spec fn reaction_remove_rel(before: AppState, after: AppState, d: MessageReactionRemove) -> bool {
    &&& (reactions_changed(
            before.messages@,
            after.messages@,
            d.channel_id.0,
            d.message_id.0,
            |a: Seq<(String, u32)>, b: Seq<(String, u32)>| reaction_removed(a, b, reaction_label(d.emoji)),
        ))
    &&& (after == (AppState { messages: after.messages, ..before }))
}

/// Counts one reaction less on a message (see [`reaction_removed`]).
pub fn apply_reaction_remove(d: &MessageReactionRemove, state: &mut AppState)
    ensures
        reaction_remove_rel(*old(state), *final(state), *d),
{
    let name = reaction_label_of(&d.emoji);
    let c = d.channel_id.0;
    let ghost m0 = state.messages@;
    match state.messages.remove(&c) {
        Some(mut buf) => {
            let ghost b0 = buf@;
            match find_message(&buf, d.message_id.0) {
                Some(q) => {
                    let mut m = buf.remove(q);
                    let ghost r0 = m.reactions@;
                    match find_reaction(&m.reactions, name.as_str()) {
                        Some(p) => {
                            if m.reactions[p].1 <= 1 {
                                m.reactions.remove(p);
                            } else {
                                let (n, k) = m.reactions.remove(p);
                                m.reactions.insert(p, (n, k - 1));
                                assert(m.reactions@ =~= r0.update(p as int, (r0[p as int].0, (r0[p as int].1 - 1) as u32)));
                            }
                        },
                        None => {},
                    }
                    let ghost m1 = m;
                    buf.insert(q, m);
                    assert(buf@ =~= b0.update(q as int, m1));
                    assert(reaction_removed(r0, buf@[q as int].reactions@, name@));
                    assert(buf@[q as int] == (DisplayMessage { reactions: buf@[q as int].reactions, ..b0[q as int] }));
                },
                None => {},
            }
            state.messages.insert(c, buf);
            assert(state.messages@ =~= m0.insert(c, state.messages@[c]));
            assert(m0[c]@ == b0);
            proof {
                if first_pos(b0, msg_is(d.message_id.0)) < 0 {
                    assert(state.messages@ =~= m0);
                }
            }
        },
        None => {
            assert(state.messages@ =~= m0);
        },
    }
}

/// The parsed user id of a member chunk entry, when it has one.
pub open spec fn chunk_user_id(m: ChunkMember) -> Option<u64> {
    match m.user {
        Some(u) => match u.id {
            Some(i) => parse_u64_spec(i@),
            None => None,
        },
        None => None,
    }
}

/// The name directory after the entries `ms` of a member chunk, in order.
pub open spec fn chunk_dir(ms: Seq<ChunkMember>, dir: Map<u64, Seq<char>>) -> Map<u64, Seq<char>>
    decreases ms.len(),
{
    if ms.len() == 0 {
        dir
    } else {
        let d0 = chunk_dir(ms.drop_last(), dir);
        let m = ms.last();
        match chunk_user_id(m) {
            Some(uid) => noted(
                d0,
                uid,
                match m.user->0.global_name { Some(g) => Some(g@), None => None },
                match m.user->0.username { Some(u) => u@, None => Seq::empty() },
            ),
            None => d0,
        }
    }
}

/// The user ids of the entries `ms` of a member chunk.
pub open spec fn chunk_ids(ms: Seq<ChunkMember>) -> Set<u64>
    decreases ms.len(),
{
    if ms.len() == 0 {
        Set::empty()
    } else {
        match chunk_user_id(ms.last()) {
            Some(uid) => chunk_ids(ms.drop_last()).insert(uid),
            None => chunk_ids(ms.drop_last()),
        }
    }
}

/// Statuses after the presences `ps` of a member chunk, in order; entries without a
/// parsable user id or a status are skipped.
pub open spec fn chunk_presence(ps: Seq<ChunkPresence>, m: Map<u64, PresenceStatus>) -> Map<u64, PresenceStatus>
    decreases ps.len(),
{
    if ps.len() == 0 {
        m
    } else {
        let m0 = chunk_presence(ps.drop_last(), m);
        let p = ps.last();
        match (p.user_id, p.status) {
            (Some(i), Some(st)) => match parse_u64_spec(i@) {
                Some(uid) => m0.insert(uid, presence_of_text(st@)),
                None => m0,
            },
            _ => m0,
        }
    }
}

fn chunk_user_id_of(m: &ChunkMember) -> (r: Option<u64>)
    ensures
        r == chunk_user_id(*m),
{
    match &m.user {
        Some(u) => match &u.id {
            Some(i) => parse_u64(i.as_str()),
            None => None,
        },
        None => None,
    }
}

/// The state after a member chunk: names, roster and statuses recorded.
pub open spec fn member_chunk_rel(before: AppState, after: AppState, d: GuildMemberChunk) -> bool {
    &&& (dir_view(after.people.user_dir@) == chunk_dir(d.members@, dir_view(before.people.user_dir@)))
    &&& (after.people.presence@ == chunk_presence(d.presences@, before.people.presence@))
    &&& (chunk_ids(d.members@) == Set::<u64>::empty()
            ==> after.people.guild_members@ == before.people.guild_members@)
    &&& (chunk_ids(d.members@) != Set::<u64>::empty() ==> {
            &&& after.people.guild_members@ == before.people.guild_members@.insert(
                d.guild_id.0, after.people.guild_members@[d.guild_id.0])
            &&& after.people.guild_members@[d.guild_id.0]@ == (
                if before.people.guild_members@.contains_key(d.guild_id.0) {
                    before.people.guild_members@[d.guild_id.0]@
                } else {
                    Set::<u64>::empty()
                }).union(chunk_ids(d.members@))
        })
    &&& (after.people == (People {
            user_dir: after.people.user_dir,
            presence: after.people.presence,
            guild_members: after.people.guild_members,
            ..before.people
        }))
    &&& (after == (AppState { people: after.people, ..before }))
}

/// Applies a member chunk: the members' names are recorded, their ids join the guild's
/// roster, and the statuses of the chunk's presences are recorded.
pub fn apply_member_chunk(d: &GuildMemberChunk, state: &mut AppState)
    ensures
        member_chunk_rel(*old(state), *final(state), *d),
{
    let gid = d.guild_id.0;
    let ghost dir0 = dir_view(state.people.user_dir@);
    let ghost gm0 = state.people.guild_members@;
    let ghost base: Set<u64> = if gm0.contains_key(gid) { gm0[gid]@ } else { Set::empty() };
    let mut i: usize = 0;
    while i < d.members.len()
        invariant
            0 <= i <= d.members.len(),
            dir_view(state.people.user_dir@) == chunk_dir(d.members@.take(i as int), dir0),
            base == (if gm0.contains_key(gid) { gm0[gid]@ } else { Set::<u64>::empty() }),
            chunk_ids(d.members@.take(i as int)) == Set::<u64>::empty() ==> state.people.guild_members@ == gm0,
            chunk_ids(d.members@.take(i as int)) != Set::<u64>::empty() ==> {
                &&& state.people.guild_members@ == gm0.insert(gid, state.people.guild_members@[gid])
                &&& state.people.guild_members@[gid]@ == base.union(chunk_ids(d.members@.take(i as int)))
            },
            state.people == (People {
                user_dir: state.people.user_dir,
                guild_members: state.people.guild_members,
                ..old(state).people
            }),
            *state == (AppState { people: state.people, ..*old(state) }),
        decreases d.members.len() - i,
    {
        let m = &d.members[i];
        assert(d.members@.take(i + 1).drop_last() =~= d.members@.take(i as int));
        match chunk_user_id_of(m) {
            Some(uid) => {
                let (g, un): (Option<&str>, &str) = match &m.user {
                    Some(u) => (
                        match &u.global_name {
                            Some(x) => Some(x.as_str()),
                            None => None,
                        },
                        match &u.username {
                            Some(x) => x.as_str(),
                            None => "",
                        },
                    ),
                    None => (None, ""),
                };
                proof {
                    reveal_strlit("");
                }
                note(state, SnowflakeID(uid), g, un);
                let ghost gm1 = state.people.guild_members@;
                let mut set = match state.people.guild_members.remove(&gid) {
                    Some(st) => st,
                    None => HashSet::new(),
                };
                set.insert(uid);
                state.people.guild_members.insert(gid, set);
                proof {
                    assert(chunk_ids(d.members@.take(i + 1)).contains(uid));
                    assert(state.people.guild_members@ =~= gm0.insert(gid, state.people.guild_members@[gid]));
                    assert(state.people.guild_members@[gid]@ =~= base.union(chunk_ids(d.members@.take(i + 1))));
                }
            },
            None => {},
        }
        i += 1;
    }
    assert(d.members@.take(d.members.len() as int) =~= d.members@);
    let ghost p0 = state.people.presence@;
    let mut j: usize = 0;
    while j < d.presences.len()
        invariant
            0 <= j <= d.presences.len(),
            state.people.presence@ == chunk_presence(d.presences@.take(j as int), p0),
            state.people == (People {
                user_dir: state.people.user_dir,
                guild_members: state.people.guild_members,
                presence: state.people.presence,
                ..old(state).people
            }),
            dir_view(state.people.user_dir@) == chunk_dir(d.members@, dir0),
            chunk_ids(d.members@) == Set::<u64>::empty() ==> state.people.guild_members@ == gm0,
            chunk_ids(d.members@) != Set::<u64>::empty() ==> {
                &&& state.people.guild_members@ == gm0.insert(gid, state.people.guild_members@[gid])
                &&& state.people.guild_members@[gid]@ == base.union(chunk_ids(d.members@))
            },
            *state == (AppState { people: state.people, ..*old(state) }),
        decreases d.presences.len() - j,
    {
        let p = &d.presences[j];
        assert(d.presences@.take(j + 1).drop_last() =~= d.presences@.take(j as int));
        match (&p.user_id, &p.status) {
            (Some(i), Some(st)) => match parse_u64(i.as_str()) {
                Some(uid) => {
                    state.people.presence.insert(uid, PresenceStatus::parse(st.as_str()));
                },
                None => {},
            },
            _ => {},
        }
        j += 1;
    }
    assert(d.presences@.take(d.presences.len() as int) =~= d.presences@);
}

/// Counting one more reaction `name` and then one less leaves the reactions as they were,
/// where every count was at least one and the one of `name` could grow.
pub proof fn law_reaction_add_then_remove(a: Seq<(String, u32)>, b: Seq<(String, u32)>, c: Seq<(String, u32)>, name: Seq<char>)
    requires
        forall|i: int| 0 <= i < a.len() ==> 1 <= (#[trigger] a[i]).1,
        first_pos(a, reaction_is(name)) >= 0 ==> a[first_pos(a, reaction_is(name))].1 < u32::MAX,
        reaction_added(a, b, name),
        reaction_removed(b, c, name),
    ensures
        c == a,
{
    lemma_first_pos(a, reaction_is(name));
    let p = first_pos(a, reaction_is(name));
    if p >= 0 {
        assert forall|j: int| 0 <= j < p implies !(reaction_is(name))(#[trigger] b[j]) by {
            assert(b[j] == a[j]);
        }
        lemma_first_pos_at(b, reaction_is(name), p);
        assert(c =~= a);
    } else {
        assert forall|j: int| 0 <= j < a.len() implies !(reaction_is(name))(#[trigger] b[j]) by {
            assert(b[j] == b.drop_last()[j]);
        }
        lemma_first_pos_at(b, reaction_is(name), a.len() as int);
        assert(c =~= a);
    }
}

/// A reaction added to a message of a channel and then removed leaves the channel's
/// messages as they were, that message's reactions included, where every count on it was
/// at least one and the count of that reaction could grow; nothing else changes.
pub proof fn law_reaction_event_round_trip(s0: AppState, s1: AppState, s2: AppState, d1: MessageReactionAdd, d2: MessageReactionRemove)
    requires
        d2.channel_id == d1.channel_id,
        d2.message_id == d1.message_id,
        reaction_label(d2.emoji) == reaction_label(d1.emoji),
        s0.messages@.contains_key(d1.channel_id.0),
        first_pos(s0.messages@[d1.channel_id.0]@, msg_is(d1.message_id.0)) >= 0,
        ({
            let m = s0.messages@[d1.channel_id.0]@[first_pos(s0.messages@[d1.channel_id.0]@, msg_is(d1.message_id.0))];
            forall|i: int| 0 <= i < m.reactions@.len() ==> 1 <= (#[trigger] m.reactions@[i]).1
        }),
        reaction_room(s0.messages@, d1.channel_id.0, d1.message_id.0, reaction_label(d1.emoji)),
        reaction_add_rel(s0, s1, d1),
        reaction_remove_rel(s1, s2, d2),
    ensures
        s2.messages@.dom() == s0.messages@.dom(),
        forall|k: u64| k != d1.channel_id.0 && #[trigger] s0.messages@.contains_key(k) ==> s2.messages@[k] == s0.messages@[k],
        s2.messages@[d1.channel_id.0]@.len() == s0.messages@[d1.channel_id.0]@.len(),
        forall|j: int| 0 <= j < s0.messages@[d1.channel_id.0]@.len() ==>
            (#[trigger] s2.messages@[d1.channel_id.0]@[j]) == (DisplayMessage {
                reactions: s2.messages@[d1.channel_id.0]@[j].reactions,
                ..s0.messages@[d1.channel_id.0]@[j]
            }),
        forall|j: int| 0 <= j < s0.messages@[d1.channel_id.0]@.len() ==>
            (#[trigger] s2.messages@[d1.channel_id.0]@[j]).reactions@ == s0.messages@[d1.channel_id.0]@[j].reactions@,
        s2 == (AppState { messages: s2.messages, ..s0 }),
{
    let c = d1.channel_id.0;
    let mid = d1.message_id.0;
    let name = reaction_label(d1.emoji);
    let l0 = s0.messages@[c]@;
    let q = first_pos(l0, msg_is(mid));
    lemma_first_pos(l0, msg_is(mid));
    let l1 = s1.messages@[c]@;
    assert(s1.messages@.contains_key(c));
    assert forall|j: int| 0 <= j < q implies !(msg_is(mid))(#[trigger] l1[j]) by {
        assert(l1[j] == l0[j]);
    }
    assert(l1[q].id == l0[q].id);
    lemma_first_pos_at(l1, msg_is(mid), q);
    law_reaction_add_then_remove(l0[q].reactions@, l1[q].reactions@, s2.messages@[c]@[q].reactions@, name);
    assert(s2.messages@.dom() =~= s0.messages@.dom());
}

/// No two entries of a channel list share an id.
pub open spec fn ids_unique(s: Seq<ChannelSummary>) -> bool {
    forall|i: int, j: int| 0 <= i < s.len() && 0 <= j < s.len() && i != j ==> (#[trigger] s[i]).id != (#[trigger] s[j]).id
}

/// Some entry of `s` is channel `id`.
pub open spec fn lists_id(s: Seq<ChannelSummary>, id: SnowflakeID) -> bool {
    exists|i: int| 0 <= i < s.len() && (#[trigger] s[i]).id == id
}

proof fn lemma_insert_pos_bound(r: Seq<(Seq<int>, ChannelSummary)>, k: Seq<int>)
    ensures
        0 <= insert_pos(r, k) <= r.len(),
    decreases r.len(),
{
    if r.len() > 0 && !lex_lt(k, r[0].0) {
        lemma_insert_pos_bound(r.drop_first(), k);
    }
}

/// Sorting keeps the channels and their ids: the same length, the same ids listed, and
/// ids that were unique stay unique.
#[verifier::spinoff_prover]
#[verifier::rlimit(60)]
proof fn lemma_sort_keeps_ids(s: Seq<(Seq<int>, ChannelSummary)>)
    ensures
        stable_sort(s).len() == s.len(),
        forall|id: SnowflakeID| #[trigger] lists_id(elems(stable_sort(s)), id) == lists_id(elems(s), id),
        ids_unique(elems(s)) ==> ids_unique(elems(stable_sort(s))),
    decreases s.len(),
{
    if s.len() > 0 {
        let d = s.drop_last();
        lemma_sort_keeps_ids(d);
        let r = stable_sort(d);
        let x = s.last();
        let p = insert_pos(r, x.0);
        lemma_insert_pos_bound(r, x.0);
        let t = r.insert(p, x);
        assert(stable_sort(s) == t);
        let et = elems(t);
        let er = elems(r);
        let es = elems(s);
        let ed = elems(d);
        assert(ed =~= es.drop_last());
        assert forall|id: SnowflakeID| #[trigger] lists_id(et, id) == lists_id(es, id) by {
            if lists_id(et, id) {
                let i = choose|i: int| 0 <= i < et.len() && et[i].id == id;
                if i < p {
                    assert(er[i] == et[i]);
                    assert(lists_id(er, id));
                    let j = choose|j: int| 0 <= j < ed.len() && ed[j].id == id;
                    assert(es[j] == ed[j]);
                } else if i == p {
                    assert(es[s.len() - 1] == x.1);
                } else {
                    assert(er[i - 1] == et[i]);
                    assert(lists_id(er, id));
                    let j = choose|j: int| 0 <= j < ed.len() && ed[j].id == id;
                    assert(es[j] == ed[j]);
                }
            }
            if lists_id(es, id) {
                let j = choose|j: int| 0 <= j < es.len() && es[j].id == id;
                if j == s.len() - 1 {
                    assert(et[p] == x.1);
                } else {
                    assert(ed[j] == es[j]);
                    assert(lists_id(ed, id));
                    assert(lists_id(er, id));
                    let i = choose|i: int| 0 <= i < er.len() && er[i].id == id;
                    if i < p {
                        assert(et[i] == er[i]);
                    } else {
                        assert(et[i + 1] == er[i]);
                    }
                }
            }
        }
        if ids_unique(es) {
            assert(ids_unique(ed)) by {
                assert forall|i: int, j: int| 0 <= i < ed.len() && 0 <= j < ed.len() && i != j implies (#[trigger] ed[i]).id != (#[trigger] ed[j]).id by {
                    assert(ed[i] == es[i] && ed[j] == es[j]);
                }
            }
            assert(!lists_id(ed, x.1.id)) by {
                if lists_id(ed, x.1.id) {
                    let j = choose|j: int| 0 <= j < ed.len() && ed[j].id == x.1.id;
                    assert(es[j] == ed[j]);
                    assert(es[s.len() - 1] == x.1);
                }
            }
            assert(!lists_id(er, x.1.id));
            assert forall|i: int, j: int| 0 <= i < et.len() && 0 <= j < et.len() && i != j implies (#[trigger] et[i]).id != (#[trigger] et[j]).id by {
                if i == p {
                    let jj = if j < p { j } else { j - 1 };
                    assert(et[j] == er[jj]);
                } else if j == p {
                    let ii = if i < p { i } else { i - 1 };
                    assert(et[i] == er[ii]);
                } else {
                    let ii = if i < p { i } else { i - 1 };
                    let jj = if j < p { j } else { j - 1 };
                    assert(et[i] == er[ii] && et[j] == er[jj]);
                }
            }
        }
    }
}

/// A channel create or update keeps the ids of a guild's channel list unique, and the
/// list then holds the channel as the event describes it, once; a new channel leaves the
/// list sorted by parent, position and kind.
pub proof fn law_upsert_keeps_ids_unique(s: Seq<ChannelSummary>, c: ChannelSummary)
    requires
        ids_unique(s),
    ensures
        ids_unique(upserted(s, c)),
        exists|i: int| 0 <= i < upserted(s, c).len() && #[trigger] upserted(s, c)[i] == c,
        upserted(s, c).len() == (if lists_id(s, c.id) { s.len() } else { s.len() + 1 }),
        !lists_id(s, c.id) ==> forall|i: int, j: int| 0 <= i < j < upserted(s, c).len() ==>
            !lex_lt(chan_order_key(#[trigger] upserted(s, c)[j]), chan_order_key(#[trigger] upserted(s, c)[i])),
{
    let p = chan_pos(s, c.id.0);
    lemma_first_pos(s, chan_is(c.id.0));
    if p >= 0 {
        let u = s.update(p, c);
        assert(u[p] == c);
        assert forall|i: int, j: int| 0 <= i < u.len() && 0 <= j < u.len() && i != j implies (#[trigger] u[i]).id != (#[trigger] u[j]).id by {
            if i != p && j != p {
                assert(u[i] == s[i] && u[j] == s[j]);
            } else if i == p {
                assert(u[j] == s[j]);
                assert(s[p].id.0 == c.id.0);
            } else {
                assert(u[i] == s[i]);
                assert(s[p].id.0 == c.id.0);
            }
        }
        assert(s[p].id == c.id);
    } else {
        let t = s.push(c);
        assert(!lists_id(s, c.id)) by {
            if lists_id(s, c.id) {
                let j = choose|j: int| 0 <= j < s.len() && s[j].id == c.id;
                assert(!(chan_is(c.id.0))(s[j]));
            }
        }
        assert(ids_unique(t)) by {
            assert forall|i: int, j: int| 0 <= i < t.len() && 0 <= j < t.len() && i != j implies (#[trigger] t[i]).id != (#[trigger] t[j]).id by {
                if i < s.len() && j < s.len() {
                    assert(t[i] == s[i] && t[j] == s[j]);
                } else if i == s.len() {
                    assert(t[j] == s[j]);
                    assert(!(chan_is(c.id.0))(s[j]));
                } else {
                    assert(t[i] == s[i]);
                    assert(!(chan_is(c.id.0))(s[i]));
                }
            }
        }
        let k = keyed_by_order(t);
        assert(elems(k) =~= t);
        lemma_sort_keeps_ids(k);
        let out = elems(stable_sort(k));
        assert(lists_id(t, c.id)) by { assert(t[s.len() as int] == c); }
        assert(lists_id(out, c.id));
        crate::sorting::lemma_sort_sorted(k);
        let st = stable_sort(k);
        assert forall|a: int| 0 <= a < st.len() implies (#[trigger] st[a]).0 == chan_order_key(st[a].1) by {
            crate::sorting::lemma_sort_from(k, a);
            let j = choose|j: int| 0 <= j < k.len() && k[j] == st[a];
        }
        assert forall|a: int, b: int| 0 <= a < b < out.len() implies
            !lex_lt(chan_order_key(#[trigger] out[b]), chan_order_key(#[trigger] out[a])) by {
            assert(st[a].0 == chan_order_key(out[a]));
            assert(st[b].0 == chan_order_key(out[b]));
        }
        let i = choose|i: int| 0 <= i < out.len() && out[i].id == c.id;
        assert(out[i] == c) by {
            lemma_sort_elems_from(k, i);
            let j = choose|j: int| 0 <= j < t.len() && t[j] == out[i];
            if j < s.len() {
                assert(t[j] == s[j]);
                assert(!(chan_is(c.id.0))(s[j]));
            }
        }
    }
}

/// Every element of a stable sort comes from the sorted sequence.
proof fn lemma_sort_elems_from(k: Seq<(Seq<int>, ChannelSummary)>, i: int)
    requires
        0 <= i < stable_sort(k).len(),
    ensures
        exists|j: int| 0 <= j < k.len() && elems(k)[j] == #[trigger] elems(stable_sort(k))[i],
    decreases k.len(),
{
    if k.len() > 0 {
        let d = k.drop_last();
        let r = stable_sort(d);
        let x = k.last();
        let p = insert_pos(r, x.0);
        lemma_insert_pos_bound(r, x.0);
        lemma_sort_keeps_ids(d);
        let t = r.insert(p, x);
        assert(stable_sort(k) == t);
        if i == p {
            assert(elems(k)[k.len() - 1] == elems(t)[i]);
        } else {
            let ii = if i < p { i } else { i - 1 };
            assert(elems(t)[i] == elems(r)[ii]);
            lemma_sort_elems_from(d, ii);
            let j = choose|j: int| 0 <= j < d.len() && elems(d)[j] == elems(r)[ii];
            assert(elems(k)[j] == elems(d)[j]);
        }
    }
}

/// At most one entry of `s` is channel `id`.
pub open spec fn id_at_most_once(s: Seq<ChannelSummary>, id: SnowflakeID) -> bool {
    forall|i: int, j: int| 0 <= i < s.len() && 0 <= j < s.len() && i != j && (#[trigger] s[i]).id == id ==> (#[trigger] s[j]).id != id
}

/// Sorting keeps a channel that is listed at most once listed at most once.
#[verifier::spinoff_prover]
#[verifier::rlimit(60)]
proof fn lemma_sort_keeps_id_once(s: Seq<(Seq<int>, ChannelSummary)>, id: SnowflakeID)
    requires
        id_at_most_once(elems(s), id),
    ensures
        id_at_most_once(elems(stable_sort(s)), id),
    decreases s.len(),
{
    if s.len() > 0 {
        let d = s.drop_last();
        let es = elems(s);
        let ed = elems(d);
        assert(ed =~= es.drop_last());
        assert(id_at_most_once(ed, id)) by {
            assert forall|i: int, j: int| 0 <= i < ed.len() && 0 <= j < ed.len() && i != j && (#[trigger] ed[i]).id == id implies (#[trigger] ed[j]).id != id by {
                assert(ed[i] == es[i] && ed[j] == es[j]);
            }
        }
        lemma_sort_keeps_id_once(d, id);
        lemma_sort_keeps_ids(d);
        let r = stable_sort(d);
        let x = s.last();
        let p = insert_pos(r, x.0);
        lemma_insert_pos_bound(r, x.0);
        let t = r.insert(p, x);
        assert(stable_sort(s) == t);
        let et = elems(t);
        let er = elems(r);
        if x.1.id == id {
            assert(!lists_id(ed, id)) by {
                if lists_id(ed, id) {
                    let j = choose|j: int| 0 <= j < ed.len() && ed[j].id == id;
                    assert(es[j] == ed[j]);
                    assert(es[s.len() - 1] == x.1);
                }
            }
            assert(!lists_id(er, id));
        }
        assert forall|i: int, j: int| 0 <= i < et.len() && 0 <= j < et.len() && i != j && (#[trigger] et[i]).id == id implies (#[trigger] et[j]).id != id by {
            if i == p {
                let jj = if j < p { j } else { j - 1 };
                assert(et[j] == er[jj]);
            } else if j == p {
                let ii = if i < p { i } else { i - 1 };
                assert(et[i] == er[ii]);
                if x.1.id == id {
                    assert(lists_id(er, id));
                }
            } else {
                let ii = if i < p { i } else { i - 1 };
                let jj = if j < p { j } else { j - 1 };
                assert(et[i] == er[ii] && et[j] == er[jj]);
            }
        }
    }
}

/// A channel create or update of a channel listed at most once leaves it listed exactly
/// once, as the event describes it; every other entry is kept (in place when the channel
/// was listed).
pub proof fn law_upsert_lists_once(s: Seq<ChannelSummary>, c: ChannelSummary)
    requires
        id_at_most_once(s, c.id),
    ensures
        exists|i: int| 0 <= i < upserted(s, c).len() && #[trigger] upserted(s, c)[i] == c
            && forall|j: int| 0 <= j < upserted(s, c).len() && j != i ==> (#[trigger] upserted(s, c)[j]).id != c.id,
        lists_id(s, c.id) ==> upserted(s, c).len() == s.len()
            && forall|j: int| 0 <= j < s.len() && s[j].id != c.id ==> #[trigger] upserted(s, c)[j] == s[j],
{
    let p = chan_pos(s, c.id.0);
    lemma_first_pos(s, chan_is(c.id.0));
    if p >= 0 {
        let u = s.update(p, c);
        assert(s[p].id == c.id);
        assert(u[p] == c);
        assert forall|j: int| 0 <= j < u.len() && j != p implies (#[trigger] u[j]).id != c.id by {
            assert(u[j] == s[j]);
        }
        assert forall|j: int| 0 <= j < s.len() && s[j].id != c.id implies #[trigger] u[j] == s[j] by {}
        assert(upserted(s, c) == u);
        assert(0 <= p < u.len() && u[p] == c && forall|j: int| 0 <= j < u.len() && j != p ==> (#[trigger] u[j]).id != c.id);
    } else {
        let t = s.push(c);
        assert(!lists_id(s, c.id)) by {
            if lists_id(s, c.id) {
                let j = choose|j: int| 0 <= j < s.len() && s[j].id == c.id;
                assert(!(chan_is(c.id.0))(s[j]));
            }
        }
        let k = keyed_by_order(t);
        assert(elems(k) =~= t);
        assert(id_at_most_once(t, c.id)) by {
            assert forall|i: int, j: int| 0 <= i < t.len() && 0 <= j < t.len() && i != j && (#[trigger] t[i]).id == c.id implies (#[trigger] t[j]).id != c.id by {
                if i < s.len() {
                    assert(t[i] == s[i]);
                } else if j < s.len() {
                    assert(t[j] == s[j]);
                }
            }
        }
        lemma_sort_keeps_id_once(k, c.id);
        lemma_sort_keeps_ids(k);
        let out = elems(stable_sort(k));
        assert(lists_id(t, c.id)) by { assert(t[s.len() as int] == c); }
        assert(lists_id(out, c.id));
        let i = choose|i: int| 0 <= i < out.len() && out[i].id == c.id;
        assert(out[i] == c) by {
            lemma_sort_elems_from(k, i);
            let j = choose|j: int| 0 <= j < t.len() && t[j] == out[i];
            if j < s.len() {
                assert(t[j] == s[j]);
                assert(!(chan_is(c.id.0))(s[j]));
            }
        }
        assert forall|j: int| 0 <= j < out.len() && j != i implies (#[trigger] out[j]).id != c.id by {}
        assert(upserted(s, c) == out);
        assert(0 <= i < out.len() && out[i] == c && forall|j: int| 0 <= j < out.len() && j != i ==> (#[trigger] out[j]).id != c.id);
    }
}

} // verus!
