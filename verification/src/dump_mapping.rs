use vstd::prelude::*;
use std::collections::HashMap;
use crate::receive_struct::ready::{Channel, ChannelOverride, Guild, PrivateChannels, ReadyData, Recipient, Thread, UserGuildSetting, UserStub, guild_display_name};
use crate::ingest::{find_user, recipient_names, table_user};
use crate::console::{LogKind, LogLine, lines_view};
use crate::decimal::{dec, push_decimal};
use crate::dump_format::{channel_type, channel_type_text};
use crate::text::push_str;
use crate::snowflake::SnowflakeID;
use crate::text::owned;

verus! {

broadcast use vstd::seq_lib::group_seq_properties;

/// A map of names by their text.
pub open spec fn names_view(m: Map<u64, String>) -> Map<u64, Seq<char>> {
    m.map_values(|s: String| s@)
}

/// `m` with each entry of `es` put in, in order (a later entry wins).
pub open spec fn insert_all(m: Map<u64, Seq<char>>, es: Seq<(u64, Seq<char>)>) -> Map<u64, Seq<char>>
    decreases es.len(),
{
    if es.len() == 0 {
        m
    } else {
        insert_all(m, es.drop_last()).insert(es.last().0, es.last().1)
    }
}

/// Inserting into a map of names, seen through its texts.
pub proof fn lemma_names_insert(m: Map<u64, String>, k: u64, v: String)
    ensures
        names_view(m.insert(k, v)) == names_view(m).insert(k, v@),
{
    assert(names_view(m.insert(k, v)) =~= names_view(m).insert(k, v@));
}

/// Puts `name` under `k`.
pub fn put_name(m: &mut HashMap<u64, String>, k: u64, name: String)
    ensures
        names_view(final(m)@) == names_view(old(m)@).insert(k, name@),
{
    proof {
        lemma_names_insert(old(m)@, k, name);
    }
    m.insert(k, name);
}

/// The mark of a muted guild or channel: `muted` when muted, `notif` when only its
/// notifications are muted, else nothing.
pub open spec fn mute_mark(muted: bool, notifications: i64, full: Seq<char>, notif: Seq<char>) -> Seq<char> {
    if muted { full } else if notifications == 1 { notif } else { Seq::empty() }
}

/// The mute marks that a guild setting gives: the guild's (`[MUTED]`, `[MUTED Notif]`),
/// then each channel override's (`MUTED`, `MUTED Notif`).
pub open spec fn setting_marks(x: UserGuildSetting) -> Seq<(u64, Seq<char>)> {
    (match x.guild_id {
        Some(g) => seq![(g.0, mute_mark(x.muted, x.message_notifications, "[MUTED]"@, "[MUTED Notif]"@))],
        None => Seq::empty(),
    }) + x.channel_overrides@.map_values(|o: ChannelOverride| (o.channel_id.0, mute_mark(o.muted, o.message_notifications, "MUTED"@, "MUTED Notif"@)))
}

/// The mute marks of all guild settings, in order.
pub open spec fn all_marks(xs: Seq<UserGuildSetting>) -> Seq<(u64, Seq<char>)>
    decreases xs.len(),
{
    if xs.len() == 0 {
        Seq::empty()
    } else {
        all_marks(xs.drop_last()) + setting_marks(xs.last())
    }
}

/// Putting in two runs of entries is putting in their concatenation.
pub proof fn lemma_insert_all_concat(m: Map<u64, Seq<char>>, a: Seq<(u64, Seq<char>)>, b: Seq<(u64, Seq<char>)>)
    ensures
        insert_all(insert_all(m, a), b) == insert_all(m, a + b),
    decreases b.len(),
{
    if b.len() == 0 {
        assert(a + b =~= a);
    } else {
        lemma_insert_all_concat(m, a, b.drop_last());
        assert((a + b).drop_last() =~= a + b.drop_last());
    }
}

fn mark_text(muted: bool, notifications: i64, full: &str, notif: &str) -> (r: String)
    ensures
        r@ == mute_mark(muted, notifications, full@, notif@),
{
    if muted {
        owned(full)
    } else if notifications == 1 {
        owned(notif)
    } else {
        String::new()
    }
}

fn mark_setting(x: &UserGuildSetting, muted: &mut HashMap<u64, String>)
    ensures
        names_view(final(muted)@) == insert_all(names_view(old(muted)@), setting_marks(*x)),
{
    let ghost before = names_view(muted@);
    let ghost head: Seq<(u64, Seq<char>)> = match x.guild_id {
        Some(g) => seq![(g.0, mute_mark(x.muted, x.message_notifications, "[MUTED]"@, "[MUTED Notif]"@))],
        None => Seq::empty(),
    };
    match x.guild_id {
        Some(g) => {
            let t = mark_text(x.muted, x.message_notifications, "[MUTED]", "[MUTED Notif]");
            put_name(muted, g.0, t);
            proof {
                reveal_strlit("[MUTED]");
                reveal_strlit("[MUTED Notif]");
                assert(head.drop_last() =~= Seq::<(u64, Seq<char>)>::empty());
                assert(insert_all(before, head.drop_last()) == before);
            }
        },
        None => {
            assert(insert_all(before, head) == before);
        },
    }
    assert(names_view(muted@) == insert_all(before, head));
    let ghost mid = names_view(muted@);
    let os = &x.channel_overrides;
    let ghost marks = os@.map_values(|o: ChannelOverride| (o.channel_id.0, mute_mark(o.muted, o.message_notifications, "MUTED"@, "MUTED Notif"@)));
    let mut j: usize = 0;
    while j < os.len()
        invariant
            0 <= j <= os.len(),
            marks == os@.map_values(|o: ChannelOverride| (o.channel_id.0, mute_mark(o.muted, o.message_notifications, "MUTED"@, "MUTED Notif"@))),
            names_view(muted@) == insert_all(mid, marks.take(j as int)),
        decreases os.len() - j,
    {
        let t = mark_text(os[j].muted, os[j].message_notifications, "MUTED", "MUTED Notif");
        put_name(muted, os[j].channel_id.0, t);
        proof {
            reveal_strlit("MUTED");
            reveal_strlit("MUTED Notif");
            assert(marks.take(j + 1).drop_last() =~= marks.take(j as int));
        }
        j += 1;
    }
    proof {
        assert(marks.take(os.len() as int) =~= marks);
        lemma_insert_all_concat(before, head, marks);
    }
}

/// Records the mute marks of the guild settings of the ready payload (see
/// [`all_marks`]).
pub fn muted_server_mapping(e: &ReadyData, muted: &mut HashMap<u64, String>)
    ensures
        names_view(final(muted)@) == insert_all(names_view(old(muted)@), all_marks(e.user_guild_settings.entries@)),
{
    let xs = &e.user_guild_settings.entries;
    let mut i: usize = 0;
    while i < xs.len()
        invariant
            0 <= i <= xs.len(),
            names_view(muted@) == insert_all(names_view(old(muted)@), all_marks(xs@.take(i as int))),
        decreases xs.len() - i,
    {
        mark_setting(&xs[i], muted);
        proof {
            assert(xs@.take(i + 1).drop_last() =~= xs@.take(i as int));
            lemma_insert_all_concat(names_view(old(muted)@), all_marks(xs@.take(i as int)), setting_marks(xs@[i as int]));
        }
        i += 1;
    }
    assert(xs@.take(xs.len() as int) =~= xs@);
}

/// Adds the account's own id to the watched users, when the ready payload names the account.
pub fn get_username(e: &ReadyData, username: &mut Vec<SnowflakeID>)
    ensures
        final(username)@ == match e.user {
            Some(u) => old(username)@.push(u.id),
            None => old(username)@,
        },
{
    match &e.user {
        Some(u) => username.push(u.id),
        None => {},
    }
}

/// A channel of the server map: its type's name, id and name.
#[derive(Clone, Debug)]
pub struct ServerChannel {
    pub channel_type: String,
    pub channel_id: SnowflakeID,
    pub channel_name: String,
}

/// A guild of the server map: its member count (cut to 16 bits), id, name and channels.
#[derive(Clone, Debug)]
pub struct ServerMapping {
    pub size: u16,
    pub server_id: SnowflakeID,
    pub server_name: String,
    pub server_channels: Vec<ServerChannel>,
}

/// A server map channel by its plain values.
pub open spec fn channel_row(c: ServerChannel) -> (Seq<char>, u64, Seq<char>) {
    (c.channel_type@, c.channel_id.0, c.channel_name@)
}

/// The channels of a guild in the server map: its channels, then its threads, named
/// `Thread: ` and their name.
pub open spec fn guild_rows(g: Guild) -> Seq<(Seq<char>, u64, Seq<char>)> {
    g.channels@.map_values(|c: Channel| (channel_type_text(c.type_field), c.id.0, c.name@))
        + g.threads@.map_values(|t: Thread| (channel_type_text(t.type_field), t.id.0, "Thread: "@ + t.name@))
}

/// The channel names that a guild gives, by id.
pub open spec fn guild_entries(g: Guild) -> Seq<(u64, Seq<char>)> {
    guild_rows(g).map_values(|r: (Seq<char>, u64, Seq<char>)| (r.1, r.2))
}

/// The channel names that guilds give, in order.
pub open spec fn all_channel_entries(gs: Seq<Guild>) -> Seq<(u64, Seq<char>)>
    decreases gs.len(),
{
    if gs.len() == 0 {
        Seq::empty()
    } else {
        all_channel_entries(gs.drop_last()) + guild_entries(gs.last())
    }
}

/// A server map guild by its plain values.
pub open spec fn server_row(m: ServerMapping) -> (u16, u64, Seq<char>, Seq<(Seq<char>, u64, Seq<char>)>) {
    (m.size, m.server_id.0, m.server_name@, m.server_channels@.map_values(|c: ServerChannel| channel_row(c)))
}

/// The server map entry of a guild.
pub open spec fn guild_row(g: Guild) -> (u16, u64, Seq<char>, Seq<(Seq<char>, u64, Seq<char>)>) {
    (g.member_count as u16, g.id.0, guild_display_name(g), guild_rows(g))
}

fn push_channel(out: &mut Vec<ServerChannel>, channel_ids: &mut HashMap<u64, String>, t: i64, id: SnowflakeID, name: String)
    ensures
        final(out)@.map_values(|c: ServerChannel| channel_row(c)) == old(out)@.map_values(|c: ServerChannel| channel_row(c)).push((channel_type_text(t), id.0, name@)),
        names_view(final(channel_ids)@) == names_view(old(channel_ids)@).insert(id.0, name@),
{
    let ghost before = out@;
    out.push(ServerChannel { channel_type: channel_type(t), channel_id: id, channel_name: name.clone() });
    assert(out@.map_values(|c: ServerChannel| channel_row(c)) =~= before.map_values(|c: ServerChannel| channel_row(c)).push((channel_type_text(t), id.0, name@)));
    put_name(channel_ids, id.0, name);
}

/// The server map entry of a guild, recording its channel names.
pub fn map_guild(g: &Guild, channel_ids: &mut HashMap<u64, String>) -> (r: ServerMapping)
    ensures
        server_row(r) == guild_row(*g),
        names_view(final(channel_ids)@) == insert_all(names_view(old(channel_ids)@), guild_entries(*g)),
{
    let mut rows: Vec<ServerChannel> = Vec::new();
    let ghost m0 = names_view(channel_ids@);
    let ghost cs = g.channels@.map_values(|c: Channel| (channel_type_text(c.type_field), c.id.0, c.name@));
    let ghost ts = g.threads@.map_values(|t: Thread| (channel_type_text(t.type_field), t.id.0, "Thread: "@ + t.name@));
    let ghost proj = |r: (Seq<char>, u64, Seq<char>)| (r.1, r.2);
    let mut i: usize = 0;
    while i < g.channels.len()
        invariant
            0 <= i <= g.channels.len(),
            cs == g.channels@.map_values(|c: Channel| (channel_type_text(c.type_field), c.id.0, c.name@)),
            proj == (|r: (Seq<char>, u64, Seq<char>)| (r.1, r.2)),
            rows@.map_values(|c: ServerChannel| channel_row(c)) == cs.take(i as int),
            names_view(channel_ids@) == insert_all(m0, cs.take(i as int).map_values(proj)),
        decreases g.channels.len() - i,
    {
        let c = &g.channels[i];
        push_channel(&mut rows, channel_ids, c.type_field, c.id, c.name.clone());
        proof {
            assert(cs.take(i + 1) =~= cs.take(i as int).push(cs[i as int]));
            assert(cs.take(i + 1).map_values(proj).drop_last() =~= cs.take(i as int).map_values(proj));
        }
        i += 1;
    }
    proof {
        assert(cs.take(g.channels.len() as int) =~= cs);
    }
    let mut j: usize = 0;
    while j < g.threads.len()
        invariant
            0 <= j <= g.threads.len(),
            cs == g.channels@.map_values(|c: Channel| (channel_type_text(c.type_field), c.id.0, c.name@)),
            ts == g.threads@.map_values(|t: Thread| (channel_type_text(t.type_field), t.id.0, "Thread: "@ + t.name@)),
            proj == (|r: (Seq<char>, u64, Seq<char>)| (r.1, r.2)),
            rows@.map_values(|c: ServerChannel| channel_row(c)) == cs + ts.take(j as int),
            names_view(channel_ids@) == insert_all(m0, (cs + ts.take(j as int)).map_values(proj)),
        decreases g.threads.len() - j,
    {
        let t = &g.threads[j];
        let mut label = owned("Thread: ");
        push_str(&mut label, t.name.as_str());
        push_channel(&mut rows, channel_ids, t.type_field, t.id, label);
        proof {
            assert(cs + ts.take(j + 1) =~= (cs + ts.take(j as int)).push(ts[j as int]));
            assert((cs + ts.take(j + 1)).map_values(proj).drop_last() =~= (cs + ts.take(j as int)).map_values(proj));
        }
        j += 1;
    }
    proof {
        assert(cs.take(g.channels.len() as int) =~= cs);
        assert(ts.take(g.threads.len() as int) =~= ts);
        assert(cs + ts == guild_rows(*g));
        assert(guild_rows(*g).map_values(proj) =~= guild_entries(*g));
    }
    ServerMapping {
        size: g.member_count as u16,
        server_id: g.id,
        server_name: owned(g.display_name()),
        server_channels: rows,
    }
}

/// The guild names that guilds give, by id.
pub open spec fn guild_names(gs: Seq<Guild>) -> Seq<(u64, Seq<char>)> {
    gs.map_values(|g: Guild| (g.id.0, guild_display_name(g)))
}

/// Maps the guilds of the ready payload: the session id when it has one, the guild and
/// channel names by id, the server map, and the counts of known guilds and channels.
pub fn guild_mapping(e: &ReadyData, guild_ids: &mut HashMap<u64, String>, channel_ids: &mut HashMap<u64, String>, session_id: &mut String)
    -> (r: (Vec<ServerMapping>, Vec<LogLine>))
    ensures
        final(session_id)@ == match e.session_id {
            Some(s) => s@,
            None => old(session_id)@,
        },
        r.0@.map_values(|m: ServerMapping| server_row(m)) == e.guilds@.map_values(|g: Guild| guild_row(g)),
        names_view(final(guild_ids)@) == insert_all(names_view(old(guild_ids)@), guild_names(e.guilds@)),
        names_view(final(channel_ids)@) == insert_all(names_view(old(channel_ids)@), all_channel_entries(e.guilds@)),
        lines_view(r.1@) == seq![
            (LogKind::Info, "Server found "@ + dec(final(guild_ids)@.len())),
            (LogKind::Info, "Channel mapped "@ + dec(final(channel_ids)@.len())),
        ],
{
    match &e.session_id {
        Some(s) => {
            *session_id = s.clone();
        },
        None => {},
    }
    let gs = &e.guilds;
    let mut out: Vec<ServerMapping> = Vec::new();
    let mut i: usize = 0;
    while i < gs.len()
        invariant
            0 <= i <= gs.len(),
            out@.map_values(|m: ServerMapping| server_row(m)) == gs@.take(i as int).map_values(|g: Guild| guild_row(g)),
            names_view(guild_ids@) == insert_all(names_view(old(guild_ids)@), guild_names(gs@.take(i as int))),
            names_view(channel_ids@) == insert_all(names_view(old(channel_ids)@), all_channel_entries(gs@.take(i as int))),
        decreases gs.len() - i,
    {
        let g = &gs[i];
        let ghost c0 = names_view(channel_ids@);
        let ghost o0 = out@;
        let m = map_guild(g, channel_ids);
        put_name(guild_ids, g.id.0, owned(g.display_name()));
        out.push(m);
        proof {
            assert(gs@.take(i + 1).drop_last() =~= gs@.take(i as int));
            assert(guild_names(gs@.take(i + 1)).drop_last() =~= guild_names(gs@.take(i as int)));
            assert(out@.map_values(|m: ServerMapping| server_row(m)) =~= o0.map_values(|m: ServerMapping| server_row(m)).push(guild_row(*g)));
            assert(gs@.take(i + 1).map_values(|g: Guild| guild_row(g)) =~= gs@.take(i as int).map_values(|g: Guild| guild_row(g)).push(guild_row(*g)));
            lemma_insert_all_concat(names_view(old(channel_ids)@), all_channel_entries(gs@.take(i as int)), guild_entries(*g));
        }
        i += 1;
    }
    assert(gs@.take(gs.len() as int) =~= gs@);
    let mut lines: Vec<LogLine> = Vec::new();
    let mut a = owned("Server found ");
    push_decimal(&mut a, guild_ids.len() as u64);
    lines.push(LogLine { kind: LogKind::Info, text: a });
    let mut b = owned("Channel mapped ");
    push_decimal(&mut b, channel_ids.len() as u64);
    lines.push(LogLine { kind: LogKind::Info, text: b });
    proof {
        assert(lines_view(lines@) =~= seq![
            (LogKind::Info, "Server found "@ + dec(guild_ids@.len())),
            (LogKind::Info, "Channel mapped "@ + dec(channel_ids@.len())),
        ]);
    }
    (out, lines)
}

/// Names, each followed by a comma and a space.
pub open spec fn suffixed(names: Seq<Seq<char>>) -> Seq<char>
    decreases names.len(),
{
    if names.len() == 0 {
        Seq::empty()
    } else {
        suffixed(names.drop_last()) + names.last() + ", "@
    }
}

/// The user name of id `id` by the user table, else `fallback`.
pub open spec fn stub_name(users: Seq<UserStub>, id: Seq<char>, fallback: Seq<char>) -> Seq<char> {
    match table_user(users, id) {
        Some(u) => u.username@,
        None => fallback,
    }
}

/// The label of a DM in the console logger: its recipients (or, without recipients, the
/// names of its recipient ids, the id for an unknown one) in brackets, with the account's
/// own name last and then the DM's name; just the recipients in brackets when the payload
/// does not name the account.
pub open spec fn dm_people(e: ReadyData, dm: PrivateChannels) -> Seq<char> {
    "["@ + (if dm.recipients@.len() > 0 {
        suffixed(recipient_names(dm.recipients@))
    } else {
        suffixed(dm.recipient_ids@.map_values(|i: String| stub_name(e.users@, i@, i@)))
    }) + match e.user {
        Some(me) => me.username@ + "] "@ + match dm.name {
            Some(n) => n@,
            None => Seq::empty(),
        },
        None => "]"@,
    }
}

/// A DM of the DM map: its id, name and participants.
#[derive(Clone, Debug)]
pub struct DMMapping {
    pub channel_id: SnowflakeID,
    pub channel_name: Option<String>,
    pub participant: Vec<Recipient>,
}

/// `r` stands for recipient id `rid` known only by the user table: that id, the table's
/// name for it (empty when unknown), and nothing else.
pub open spec fn stub_recipient(r: Recipient, users: Seq<UserStub>, rid: Seq<char>) -> bool {
    &&& r.id@ == rid
    &&& r.username@ == stub_name(users, rid, Seq::empty())
    &&& r.public_flags is None
    &&& r.global_name is None
    &&& r.discriminator@.len() == 0
    &&& r.avatar is None
}

/// The participants of a DM in the DM map: its recipients, or the recipients that its
/// recipient ids stand for.
pub open spec fn participants_ok(users: Seq<UserStub>, dm: PrivateChannels, ps: Seq<Recipient>) -> bool {
    if dm.recipients@.len() > 0 {
        ps == dm.recipients@
    } else {
        &&& ps.len() == dm.recipient_ids@.len()
        &&& forall|j: int| 0 <= j < ps.len() ==> stub_recipient(#[trigger] ps[j], users, dm.recipient_ids@[j]@)
    }
}

/// `m` is the DM map entry of `dm`.
pub open spec fn dm_row_ok(users: Seq<UserStub>, dm: PrivateChannels, m: DMMapping) -> bool {
    &&& m.channel_id == dm.id
    &&& crate::dump_format::opt_seq(m.channel_name) == crate::dump_format::opt_seq(dm.name)
    &&& participants_ok(users, dm, m.participant@)
}

fn copy_opt(o: &Option<String>) -> (r: Option<String>)
    ensures
        r == *o,
{
    match o {
        Some(s) => Some(s.clone()),
        None => None,
    }
}

fn copy_recipient(r: &Recipient) -> (c: Recipient)
    ensures
        c == *r,
{
    Recipient {
        username: r.username.clone(),
        public_flags: r.public_flags,
        id: r.id.clone(),
        global_name: copy_opt(&r.global_name),
        discriminator: r.discriminator.clone(),
        avatar: copy_opt(&r.avatar),
    }
}

fn dm_label_of(e: &ReadyData, dm: &PrivateChannels) -> (r: String)
    ensures
        r@ == dm_people(*e, *dm),
{
    let mut out = owned("[");
    let ghost head = out@;
    if dm.recipients.len() > 0 {
        let ghost names = recipient_names(dm.recipients@);
        let mut i: usize = 0;
        while i < dm.recipients.len()
            invariant
                0 <= i <= dm.recipients.len(),
                names == recipient_names(dm.recipients@),
                out@ == head + suffixed(names.take(i as int)),
            decreases dm.recipients.len() - i,
        {
            assert(names.take(i + 1).drop_last() =~= names.take(i as int));
            push_str(&mut out, dm.recipients[i].username.as_str());
            push_str(&mut out, ", ");
            i += 1;
        }
        assert(names.take(dm.recipients.len() as int) =~= names);
    } else {
        let ghost names = dm.recipient_ids@.map_values(|i: String| stub_name(e.users@, i@, i@));
        let mut i: usize = 0;
        while i < dm.recipient_ids.len()
            invariant
                0 <= i <= dm.recipient_ids.len(),
                names == dm.recipient_ids@.map_values(|i: String| stub_name(e.users@, i@, i@)),
                out@ == head + suffixed(names.take(i as int)),
            decreases dm.recipient_ids.len() - i,
        {
            assert(names.take(i + 1).drop_last() =~= names.take(i as int));
            let rid = &dm.recipient_ids[i];
            match find_user(e.users.as_slice(), rid.as_str()) {
                Some(u) => push_str(&mut out, u.username.as_str()),
                None => push_str(&mut out, rid.as_str()),
            }
            push_str(&mut out, ", ");
            i += 1;
        }
        assert(names.take(dm.recipient_ids.len() as int) =~= names);
    }
    match &e.user {
        Some(me) => {
            push_str(&mut out, me.username.as_str());
            push_str(&mut out, "] ");
            match &dm.name {
                Some(n) => push_str(&mut out, n.as_str()),
                None => {},
            }
        },
        None => push_str(&mut out, "]"),
    }
    out
}

fn dm_row(e: &ReadyData, dm: &PrivateChannels) -> (r: DMMapping)
    ensures
        dm_row_ok(e.users@, *dm, r),
{
    let mut ps: Vec<Recipient> = Vec::new();
    if dm.recipients.len() > 0 {
        let mut i: usize = 0;
        while i < dm.recipients.len()
            invariant
                0 <= i <= dm.recipients.len(),
                ps@ == dm.recipients@.take(i as int),
            decreases dm.recipients.len() - i,
        {
            ps.push(copy_recipient(&dm.recipients[i]));
            assert(ps@ =~= dm.recipients@.take(i + 1));
            i += 1;
        }
        assert(dm.recipients@.take(dm.recipients.len() as int) =~= dm.recipients@);
    } else {
        let mut i: usize = 0;
        while i < dm.recipient_ids.len()
            invariant
                0 <= i <= dm.recipient_ids.len(),
                dm.recipients@.len() == 0,
                ps@.len() == i,
                forall|j: int| 0 <= j < i ==> stub_recipient(#[trigger] ps@[j], e.users@, dm.recipient_ids@[j]@),
            decreases dm.recipient_ids.len() - i,
        {
            let rid = &dm.recipient_ids[i];
            let name: String = match find_user(e.users.as_slice(), rid.as_str()) {
                Some(u) => u.username.clone(),
                None => String::new(),
            };
            ps.push(Recipient {
                username: name,
                public_flags: None,
                id: rid.clone(),
                global_name: None,
                discriminator: String::new(),
                avatar: None,
            });
            i += 1;
        }
    }
    DMMapping { channel_id: dm.id, channel_name: copy_opt(&dm.name), participant: ps }
}

/// Maps the DMs of the ready payload: each DM's label by id (see [`dm_people`]), the DM
/// map, and the count of known DMs; only `DM found 0` when the payload lists no DMs.
pub fn dm_mapping(e: &ReadyData, dm_map: &mut HashMap<u64, String>) -> (r: (Vec<DMMapping>, Vec<LogLine>))
    ensures
        match e.private_channels {
            None => {
                &&& final(dm_map)@ == old(dm_map)@
                &&& r.0@.len() == 0
                &&& lines_view(r.1@) == seq![(LogKind::Info, "DM found 0"@)]
            },
            Some(dms) => {
                &&& names_view(final(dm_map)@) == insert_all(names_view(old(dm_map)@),
                    dms@.map_values(|dm: PrivateChannels| (dm.id.0, dm_people(*e, dm))))
                &&& r.0@.len() == dms@.len()
                &&& forall|i: int| 0 <= i < dms@.len() ==> dm_row_ok(e.users@, dms@[i], #[trigger] r.0@[i])
                &&& lines_view(r.1@) == seq![(LogKind::Info, "DM found "@ + dec(final(dm_map)@.len()))]
            },
        },
{
    let mut lines: Vec<LogLine> = Vec::new();
    match &e.private_channels {
        None => {
            lines.push(LogLine { kind: LogKind::Info, text: owned("DM found 0") });
            proof {
                assert(lines_view(lines@) =~= seq![(LogKind::Info, "DM found 0"@)]);
            }
            (Vec::new(), lines)
        },
        Some(dms) => {
            let ghost es = dms@.map_values(|dm: PrivateChannels| (dm.id.0, dm_people(*e, dm)));
            let mut out: Vec<DMMapping> = Vec::new();
            let mut i: usize = 0;
            while i < dms.len()
                invariant
                    0 <= i <= dms.len(),
                    es == dms@.map_values(|dm: PrivateChannels| (dm.id.0, dm_people(*e, dm))),
                    names_view(dm_map@) == insert_all(names_view(old(dm_map)@), es.take(i as int)),
                    out@.len() == i,
                    forall|j: int| 0 <= j < i ==> dm_row_ok(e.users@, dms@[j], #[trigger] out@[j]),
                decreases dms.len() - i,
            {
                let dm = &dms[i];
                let label = dm_label_of(e, dm);
                put_name(dm_map, dm.id.0, label);
                out.push(dm_row(e, dm));
                proof {
                    assert(es.take(i + 1).drop_last() =~= es.take(i as int));
                }
                i += 1;
            }
            assert(es.take(dms.len() as int) =~= es);
            let mut t = owned("DM found ");
            push_decimal(&mut t, dm_map.len() as u64);
            lines.push(LogLine { kind: LogKind::Info, text: t });
            proof {
                assert(lines_view(lines@) =~= seq![(LogKind::Info, "DM found "@ + dec(dm_map@.len()))]);
            }
            (out, lines)
        },
    }
}

} // verus!
