use vstd::prelude::*;
use crate::appstate::{AppState, Nav, Panels, People, Unread, appended, display_name_of, guild_lists, msgs_of};
use crate::decimal::{dec, push_decimal};
use crate::events::{chan_is, chan_pos, first_pos, lemma_first_pos, lemma_first_pos_at, note, noted};
use crate::message_view::{display_message_from, displays, rfc3339_millis};
use crate::ready_state::dir_view;
use crate::receive_struct::message_create::MessageCreateData;
use crate::snowflake::SnowflakeID;
use crate::state::{ChannelSummary, DisplayMessage, Toast, UiPrefs};
use crate::appstate::{last_n, live_toasts, toast_ttl_secs};
use crate::text::{contains, first_chars, owned, push_str, seq_contains, take_chars};

verus! {

broadcast use {vstd::std_specs::hash::group_hash_axioms, vstd::seq_lib::group_seq_properties};

/// Keeps the typing entries of users other than `uid`.
pub open spec fn not_typist(uid: u64) -> spec_fn((SnowflakeID, u64)) -> bool {
    |e: (SnowflakeID, u64)| e.0.0 != uid
}

fn drop_typist(v: Vec<(SnowflakeID, u64)>, uid: u64) -> (r: Vec<(SnowflakeID, u64)>)
    ensures
        r@ == v@.filter(not_typist(uid)),
{
    let ghost s = v@;
    let mut out: Vec<(SnowflakeID, u64)> = Vec::new();
    for e in it: v.into_iter()
        invariant
            it.seq() == s,
            out@ == it.seq().take(it.index() as int).filter(not_typist(uid)),
    {
        proof {
            assert(it.seq().take(it.index() + 1) =~= it.seq().take(it.index() as int).push(e));
            it.seq().take(it.index() as int).lemma_filter_push(e, not_typist(uid));
        }
        if e.0.0 != uid {
            out.push(e);
        }
    }
    assert(s.take(s.len() as int) =~= s);
    out
}

/// `new` is the toast list `old` after raising a toast titled `title` with text `body` at
/// `now` (see `AppState::push_toast`).
pub open spec fn toasted(old: Seq<Toast>, new: Seq<Toast>, prefs: UiPrefs, now: u64, title: Seq<char>, body: Seq<char>) -> bool {
    if !prefs.toast_enabled {
        new == old
    } else {
        &&& new.len() > 0
        &&& new.last().title@ == title
        &&& new.last().body@ == body
        &&& new.last().at_ms == now
        &&& new == last_n(live_toasts(old, now, toast_ttl_secs(prefs)).push(new.last()), 5)
    }
}

/// A message text addresses user `me` (an `<@id` mention) or everyone (`@everyone`,
/// `@here`).
pub open spec fn mentions(content: Seq<char>, me: Option<SnowflakeID>) -> bool {
    ||| (me matches Some(id) && seq_contains(content, "<@"@ + dec(id.0 as nat)))
    ||| seq_contains(content, "@everyone"@)
    ||| seq_contains(content, "@here"@)
}

fn mentions_of(content: &str, me: Option<SnowflakeID>) -> (r: bool)
    ensures
        r == mentions(content@, me),
{
    let mine = match me {
        Some(id) => {
            let mut pat = owned("<@");
            push_decimal(&mut pat, id.0);
            contains(content, pat.as_str())
        },
        None => false,
    };
    mine || contains(content, "@everyone") || contains(content, "@here")
}

/// The DM list after a message in channel `c`: that channel's entry takes the message id
/// as its last activity and moves to the front.
pub open spec fn dm_bumped(dms: Seq<ChannelSummary>, c: u64, activity: u64) -> Seq<ChannelSummary> {
    let p = chan_pos(dms, c);
    if p >= 0 {
        seq![ChannelSummary { last_activity: activity, ..dms[p] }] + dms.remove(p)
    } else {
        dms
    }
}

/// Notification state after a message from someone else in a channel not on screen: the
/// channel and the guild listing it (`owner`, some guild when several do) are unread, the
/// channel counts one more unread message, and a toast is raised for a direct message, or
/// for a mention when mention notices are on.
pub open spec fn notified(
    before: AppState,
    after: AppState,
    c: u64,
    owner: Option<u64>,
    who: Seq<char>,
    content: Seq<char>,
    now: u64,
) -> bool {
    let cnt = if before.unread.unread_count@.contains_key(c) { before.unread.unread_count@[c] } else { 0 };
    let body = take_chars(content, 160);
    &&& match owner {
        Some(g) => guild_lists(before.channels_by_guild@, g, c),
        None => forall|g: u64| !guild_lists(before.channels_by_guild@, g, c),
    }
    &&& after.unread.unread_count@ == before.unread.unread_count@.insert(c, (cnt + 1) as u32)
    &&& after.unread.unread@ == match owner {
        Some(g) => before.unread.unread@.insert(c).insert(g),
        None => before.unread.unread@.insert(c),
    }
    &&& if owner == Some(0u64) {
        toasted(before.panels.notifications@, after.panels.notifications@, before.prefs, now, who, body)
    } else if before.prefs.notify_mentions && mentions(content, before.people.my_user_id) {
        toasted(before.panels.notifications@, after.panels.notifications@, before.prefs, now, "@ "@ + who, body)
    } else {
        after.panels.notifications@ == before.panels.notifications@
    }
    &&& after.panels == (Panels { notifications: after.panels.notifications, ..before.panels })
    &&& after == (AppState { unread: after.unread, panels: after.panels, ..before })
}

/// Records a message from someone else in a channel not on screen (see [`notified`]).
fn notify_message(state: &mut AppState, c: SnowflakeID, author: SnowflakeID, content: &str, now_ms: u64)
    requires
        (if old(state).unread.unread_count@.contains_key(c.0) { old(state).unread.unread_count@[c.0] } else { 0u32 }) < u32::MAX,
    ensures
        exists|owner: Option<u64>| notified(
            *old(state),
            *final(state),
            c.0,
            owner,
            display_name_of(old(state).people.user_dir@, author.0),
            content@,
            now_ms,
        ),
{
    state.unread.unread.insert(c.0);
    let cnt = state.unread_n(c);
    state.unread.unread_count.insert(c.0, cnt + 1);
    let owner = state.find_guild_for_channel(c);
    match owner {
        Some(g) => {
            state.unread.unread.insert(g.0);
        },
        None => {},
    }
    let ghost mid = *state;
    let body = first_chars(content, 160);
    let is_dm = match owner {
        Some(g) => g.0 == 0,
        None => false,
    };
    if is_dm {
        let who = state.display_name(author);
        state.push_toast(who, body, now_ms);
    } else if state.prefs.notify_mentions && mentions_of(content, state.people.my_user_id) {
        let who = state.display_name(author);
        let mut title = owned("@ ");
        push_str(&mut title, who.as_str());
        state.push_toast(title, body, now_ms);
    }
    let ghost ow: Option<u64> = match owner { Some(g) => Some(g.0), None => None };
    assert(state.unread.unread@ =~= match ow {
        Some(g) => old(state).unread.unread@.insert(c.0).insert(g),
        None => old(state).unread.unread@.insert(c.0),
    });
    assert(notified(*old(state), *state, c.0, ow, display_name_of(old(state).people.user_dir@, author.0), content@, now_ms));
}

/// The first position of channel `id` in `v`, if any.
fn chan_index(v: &Vec<ChannelSummary>, id: u64) -> (r: Option<usize>)
    ensures
        match r {
            Some(i) => i < v.len() && i as int == chan_pos(v@, id),
            None => chan_pos(v@, id) == -1,
        },
{
    let mut i: usize = 0;
    while i < v.len()
        invariant
            0 <= i <= v.len(),
            forall|j: int| 0 <= j < i ==> !(chan_is(id))(v@[j]),
        decreases v.len() - i,
    {
        if v[i].id.0 == id {
            proof {
                lemma_first_pos_at(v@, chan_is(id), i as int);
            }
            return Some(i);
        }
        i += 1;
    }
    proof {
        lemma_first_pos(v@, chan_is(id));
    }
    None
}

/// The state after a message in channel `c`, when the DM list holds `c`: its entry takes the
/// message id as last activity and moves to the front, and while the DM list is on screen
/// the cursor follows the selected channel.
pub open spec fn dm_reordered(before: AppState, after: AppState, c: u64, activity: u64) -> bool {
    let cg = before.channels_by_guild@;
    if cg.contains_key(0) && chan_pos(cg[0]@, c) >= 0 {
        let dms = dm_bumped(cg[0]@, c, activity);
        &&& after.channels_by_guild@ == cg.insert(0, after.channels_by_guild@[0])
        &&& after.channels_by_guild@[0]@ == dms
        &&& after.nav == (Nav { channel_cursor: after.nav.channel_cursor, ..before.nav })
        &&& after.nav.channel_cursor == (match (before.nav.current_guild, before.nav.current_channel) {
            (Some(g), Some(sel)) if g.0 == 0 && chan_pos(dms, sel.0) >= 0 => chan_pos(dms, sel.0) as usize,
            _ => before.nav.channel_cursor,
        })
        &&& after == (AppState { channels_by_guild: after.channels_by_guild, nav: after.nav, ..before })
    } else {
        after == before
    }
}

fn bump_dm(state: &mut AppState, c: u64, activity: u64)
    ensures
        dm_reordered(*old(state), *final(state), c, activity),
{
    let pos = match state.channels_by_guild.get(&0) {
        Some(v) => match chan_index(v, c) {
            Some(p) => p,
            None => return,
        },
        None => return,
    };
    let mut dms = match state.channels_by_guild.remove(&0) {
        Some(v) => v,
        None => return,
    };
    let ghost d0 = dms@;
    let item = dms.remove(pos);
    let bumped = ChannelSummary { last_activity: activity, ..item };
    dms.insert(0, bumped);
    assert(dms@ =~= dm_bumped(d0, c, activity));
    let sel = match (state.nav.current_guild, state.nav.current_channel) {
        (Some(g), Some(sel)) => if g.0 == 0 { chan_index(&dms, sel.0) } else { None },
        _ => None,
    };
    match sel {
        Some(p) => {
            state.nav.channel_cursor = p;
        },
        None => {},
    }
    state.channels_by_guild.insert(0, dms);
    assert(state.channels_by_guild@ =~= old(state).channels_by_guild@.insert(0, state.channels_by_guild@[0]));
}

/// The state and result after a created or edited message (see [`apply_message`]).
pub open spec fn message_rel(before: AppState, after: AppState, d: MessageCreateData, now_ms: u64, r: Vec<(SnowflakeID, String)>) -> bool {
    &&& (({
            let c = d.channel_id.0;
            let me = before.people.my_user_id;
            let dir1 = noted(
                dir_view(before.people.user_dir@),
                d.author.id.0,
                match d.author.global_name { Some(g) => Some(g@), None => None },
                d.author.username@,
            );
            let ts = match rfc3339_millis(d.timestamp@) { Some(t) => t, None => now_ms as i64 };
            let unseen = before.nav.current_channel != Some(d.channel_id) && me != Some(d.author.id);
            &&& dir_view(after.people.user_dir@) == dir1
            &&& after.people.typing@ == (if before.people.typing@.contains_key(c) {
                before.people.typing@.insert(c, after.people.typing@[c])
            } else {
                before.people.typing@
            })
            &&& before.people.typing@.contains_key(c) ==> after.people.typing@[c]@
                == before.people.typing@[c]@.filter(not_typist(d.author.id.0))
            &&& after.people == (People { user_dir: after.people.user_dir, typing: after.people.typing, ..before.people })
            &&& after.messages@ == before.messages@.insert(c, after.messages@[c])
            &&& after.messages@[c]@ == appended(msgs_of(before.messages@, c), after.messages@[c]@.last())
            &&& displays(after.messages@[c]@.last(), d, me, ts)
            &&& r@ == after.messages@[c]@.last().attachment_images@
            &&& ({
                let s1 = AppState { people: after.people, messages: after.messages, ..before };
                exists|s2: AppState| {
                    &&& #[trigger] dm_reordered(s2, after, c, d.id.0)
                    &&& if unseen {
                        exists|owner: Option<u64>| #[trigger] notified(s1, s2, c, owner, display_name_of(after.people.user_dir@, d.author.id.0), d.content@, now_ms)
                    } else {
                        s2 == s1
                    }
                }
            })
        }))
}

/// Applies a created or edited message: the author's name is recorded, the author stops
/// typing in the channel, the message is appended to the channel's list (see
/// `AppState::push_message`), a message from someone else in a channel not on screen is
/// counted unread and may raise a toast (see [`notified`]), and a DM channel moves to the
/// front of the DM list (see [`dm_reordered`]). Gives the images to fetch.
pub fn apply_message(d: &MessageCreateData, state: &mut AppState, now_ms: u64) -> (r: Vec<(SnowflakeID, String)>)
    requires
        (if old(state).unread.unread_count@.contains_key(d.channel_id.0) {
            old(state).unread.unread_count@[d.channel_id.0]
        } else {
            0u32
        }) < u32::MAX,
    ensures
        message_rel(*old(state), *final(state), *d, now_ms, r),
{
    let c = d.channel_id;
    let my_id = state.people.my_user_id;
    let (msg, images) = display_message_from(d, my_id, now_ms as i64);
    let g: Option<&str> = match &d.author.global_name {
        Some(x) => Some(x.as_str()),
        None => None,
    };
    note(state, d.author.id, g, d.author.username.as_str());
    match state.people.typing.remove(&c.0) {
        Some(list) => {
            let kept = drop_typist(list, d.author.id.0);
            state.people.typing.insert(c.0, kept);
        },
        None => {},
    }
    let ghost m1 = msg;
    state.push_message(c, msg);
    assert(state.messages@[c.0]@.last() == m1);
    assert(state.messages@[c.0]@ == appended(msgs_of(old(state).messages@, c.0), m1));
    let ghost s1 = *state;
    let is_current = match state.nav.current_channel {
        Some(cur) => cur.0 == c.0,
        None => false,
    };
    let is_self = match my_id {
        Some(m) => m.0 == d.author.id.0,
        None => false,
    };
    if !is_current && !is_self {
        notify_message(state, c, d.author.id, d.content.as_str(), now_ms);
    }
    let ghost s2 = *state;
    bump_dm(state, c.0, d.id.0);
    assert(dm_reordered(s2, *state, c.0, d.id.0));
    proof {
        if !old(state).people.typing@.contains_key(c.0) {
            assert(s1.people.typing@ =~= old(state).people.typing@);
        } else {
            assert(s1.people.typing@ =~= old(state).people.typing@.insert(c.0, s1.people.typing@[c.0]));
        }
    }
    images
}

} // verus!
