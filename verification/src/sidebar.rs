use vstd::prelude::*;
use crate::appstate::{AppState, chans_of};
use crate::decimal::{dec, push_decimal};
use crate::events::{first_pos, lemma_first_pos, lemma_first_pos_at};
use crate::pane::{truncate, truncated};
use crate::snowflake::SnowflakeID;
use crate::members::typing_list;
use crate::state::{ChannelSummary, GuildSummary, PresenceStatus, VoiceMember, dm_guild};
use crate::stream_layout::{sat_sub, Area};
use crate::text::{owned, push_str, seq_starts_with, starts_with, to_uppercase, unicode_uppercase};

verus! {

broadcast use vstd::seq_lib::group_seq_properties;

/// How an entry of the channel list is drawn: a category header, an unread channel, or
/// another channel.
#[derive(Clone, Copy, Debug, PartialEq, Eq, Structural)]
pub enum RowTone {
    Category,
    Unread,
    Normal,
}

/// An entry of the channel list: its line, its tone, and the lines of the users in it when
/// it is a voice channel.
pub struct ChannelRow {
    pub text: String,
    pub tone: RowTone,
    pub voice: Vec<String>,
}

/// The marker of a channel type, after the unread mark (threads, named with a leading
/// `↳`, are indented instead).
pub open spec fn kind_prefix(kind: i64, thread: bool) -> Seq<char> {
    if thread {
        "      "@
    } else if kind == 0 {
        "  # "@
    } else if kind == 5 {
        "  📢 "@
    } else if kind == 2 {
        "  🔊 "@
    } else if kind == 13 {
        "  🎤 "@
    } else if kind == 4 {
        Seq::empty()
    } else if kind == 11 || kind == 12 {
        "      ↪ "@
    } else if kind == 15 {
        "  📂 "@
    } else {
        "  "@
    }
}

/// The unread mark: the count when there is one, a dot for a channel marked unread, else
/// `idle`.
pub open spec fn unread_mark(n: u32, unread: bool, idle: Seq<char>) -> Seq<char> {
    if n > 0 {
        "●"@ + dec(n as nat) + " "@
    } else if unread {
        "● "@
    } else {
        idle
    }
}

/// The unread count of channel `id` (zero when none).
pub open spec fn count_of(s: AppState, id: u64) -> u32 {
    if s.unread.unread_count@.contains_key(id) { s.unread.unread_count@[id] } else { 0 }
}

/// The line of a channel: a category in upper case, else its unread mark, its type marker
/// and its name, names cut to 20 characters.
pub open spec fn channel_label(s: AppState, c: ChannelSummary) -> Seq<char> {
    if c.kind == 4 {
        "▾ "@ + truncated(unicode_uppercase(c.name@), 20)
    } else {
        unread_mark(count_of(s, c.id.0), s.unread.unread@.contains(c.id.0), Seq::empty())
            + kind_prefix(c.kind, seq_starts_with(c.name@, "↳"@)) + truncated(c.name@, 20)
    }
}

/// The tone of a channel's line.
pub open spec fn row_tone(s: AppState, c: ChannelSummary) -> RowTone {
    if c.kind == 4 {
        RowTone::Category
    } else if s.unread.unread@.contains(c.id.0) {
        RowTone::Unread
    } else {
        RowTone::Normal
    }
}

/// The marks of a voice channel user: deafened, else muted; camera; screen share.
pub open spec fn voice_flags(vm: VoiceMember) -> Seq<char> {
    (if vm.deaf { " 🔇"@ } else if vm.mute { " 🔈"@ } else { Seq::empty() })
        + (if vm.video { " 📹"@ } else { Seq::empty() })
        + (if vm.stream { " 🔴"@ } else { Seq::empty() })
}

/// The line of a user in a voice channel: the name known for the user (else the one of the
/// voice state), cut to 16 characters, and its marks.
pub open spec fn voice_line(s: AppState, vm: VoiceMember) -> Seq<char> {
    let name = if s.people.user_dir@.contains_key(vm.id.0) { s.people.user_dir@[vm.id.0]@ } else { vm.name@ };
    "    ◦ "@ + truncated(name, 16) + voice_flags(vm)
}

/// The user lines under a voice or stage channel.
pub open spec fn voice_lines(s: AppState, c: ChannelSummary) -> Seq<Seq<char>> {
    if (c.kind == 2 || c.kind == 13) && s.voice.voice_members@.contains_key(c.id.0) {
        s.voice.voice_members@[c.id.0]@.map_values(|vm: VoiceMember| voice_line(s, vm))
    } else {
        Seq::empty()
    }
}

/// `r` is the entry of channel `c`.
pub open spec fn row_shows(r: ChannelRow, s: AppState, c: ChannelSummary) -> bool {
    &&& r.text@ == channel_label(s, c)
    &&& r.tone == row_tone(s, c)
    &&& r.voice@.map_values(|v: String| v@) == voice_lines(s, c)
}

fn voice_line_of(state: &AppState, vm: &VoiceMember) -> (r: String)
    ensures
        r@ == voice_line(*state, *vm),
{
    let name: &str = match state.people.user_dir.get(&vm.id.0) {
        Some(n) => n.as_str(),
        None => vm.name.as_str(),
    };
    let mut t = owned("    ◦ ");
    let cut = truncate(name, 16);
    push_str(&mut t, cut.as_str());
    if vm.deaf {
        push_str(&mut t, " 🔇");
    } else if vm.mute {
        push_str(&mut t, " 🔈");
    }
    if vm.video {
        push_str(&mut t, " 📹");
    }
    if vm.stream {
        push_str(&mut t, " 🔴");
    }
    proof {
        let f1: Seq<char> = if vm.deaf { " 🔇"@ } else if vm.mute { " 🔈"@ } else { Seq::empty() };
        let f2: Seq<char> = if vm.video { " 📹"@ } else { Seq::empty() };
        let f3: Seq<char> = if vm.stream { " 🔴"@ } else { Seq::empty() };
        assert(t@ =~= "    ◦ "@ + cut@ + f1 + f2 + f3);
    }
    t
}

fn kind_prefix_of(kind: i64, thread: bool) -> (r: &'static str)
    ensures
        r@ == kind_prefix(kind, thread),
{
    if thread {
        "      "
    } else if kind == 0 {
        "  # "
    } else if kind == 5 {
        "  📢 "
    } else if kind == 2 {
        "  🔊 "
    } else if kind == 13 {
        "  🎤 "
    } else if kind == 4 {
        proof {
            reveal_strlit("");
        }
        ""
    } else if kind == 11 || kind == 12 {
        "      ↪ "
    } else if kind == 15 {
        "  📂 "
    } else {
        "  "
    }
}

/// Appends the unread mark of a channel (see [`unread_mark`]), with `idle` for a read one.
pub(crate) fn push_unread_mark(out: &mut String, n: u32, unread: bool, idle: &str)
    ensures
        final(out)@ == old(out)@ + unread_mark(n, unread, idle@),
{
    if n > 0 {
        push_str(out, "●");
        push_decimal(out, n as u64);
        push_str(out, " ");
    } else if unread {
        push_str(out, "● ");
    } else {
        push_str(out, idle);
    }
}

/// The entry of channel `c` in the channel list (see [`row_shows`]).
pub fn channel_row(state: &AppState, c: &ChannelSummary) -> (r: ChannelRow)
    ensures
        row_shows(r, *state, *c),
{
    let unread = state.unread.unread.contains(&c.id.0);
    let text = if c.kind == 4 {
        let up = to_uppercase(c.name.as_str());
        let mut t = owned("▾ ");
        let cut = truncate(up.as_str(), 20);
        push_str(&mut t, cut.as_str());
        t
    } else {
        let n = state.unread_n(c.id);
        let mut t = String::new();
        push_unread_mark(&mut t, n, unread, "");
        proof {
            reveal_strlit("");
        }
        let thread = starts_with(c.name.as_str(), "↳");
        push_str(&mut t, kind_prefix_of(c.kind, thread));
        let cut = truncate(c.name.as_str(), 20);
        push_str(&mut t, cut.as_str());
        t
    };
    let tone = if c.kind == 4 {
        RowTone::Category
    } else if unread {
        RowTone::Unread
    } else {
        RowTone::Normal
    };
    let mut voice: Vec<String> = Vec::new();
    if c.kind == 2 || c.kind == 13 {
        match state.voice.voice_members.get(&c.id.0) {
            Some(members) => {
                let mut i: usize = 0;
                while i < members.len()
                    invariant
                        0 <= i <= members.len(),
                        state.voice.voice_members@.contains_key(c.id.0),
                        state.voice.voice_members@[c.id.0]@ == members@,
                        voice@.map_values(|v: String| v@)
                            == members@.take(i as int).map_values(|vm: VoiceMember| voice_line(*state, vm)),
                    decreases members.len() - i,
                {
                    let line = voice_line_of(state, &members[i]);
                    voice.push(line);
                    assert(members@.take(i + 1).map_values(|vm: VoiceMember| voice_line(*state, vm))
                        =~= members@.take(i as int).map_values(|vm: VoiceMember| voice_line(*state, vm))
                            .push(voice_line(*state, members@[i as int])));
                    assert(voice@.map_values(|v: String| v@)
                        =~= members@.take(i + 1).map_values(|vm: VoiceMember| voice_line(*state, vm)));
                    i += 1;
                }
                assert(members@.take(members.len() as int) =~= members@);
            },
            None => {},
        }
    }
    assert(voice@.map_values(|v: String| v@) =~= voice_lines(*state, *c));
    ChannelRow { text, tone, voice }
}

/// The channels of the selected guild, as [`AppState::current_channels`] gives them.
pub open spec fn shown_channels(s: AppState) -> Seq<ChannelSummary> {
    match s.nav.current_guild {
        Some(g) => chans_of(s.channels_by_guild@, g.0),
        None => Seq::empty(),
    }
}

/// The position in `gs` of the first guild with id `g` (-1 when none).
pub open spec fn guild_pos(gs: Seq<GuildSummary>, g: SnowflakeID) -> int {
    first_pos(gs, |x: GuildSummary| x.id == g)
}

/// The title of the channel list: the name of the selected guild cut to 24 characters,
/// else `Channels`.
pub open spec fn channel_list_title(s: AppState) -> Seq<char> {
    match s.nav.current_guild {
        Some(g) if guild_pos(s.guilds@, g) >= 0 => truncated(s.guilds@[guild_pos(s.guilds@, g)].name@, 24),
        _ => "Channels"@,
    }
}

/// The channel list of a guild: its title, its entries, and the selected one.
pub struct ChannelList {
    pub title: String,
    pub rows: Vec<ChannelRow>,
    pub selected: Option<usize>,
}

/// The channel list of the selected guild: the title (see [`channel_list_title`]), an
/// entry per channel in order (see [`row_shows`]), and the cursor kept on the last entry.
pub fn channel_list(state: &AppState) -> (r: ChannelList)
    ensures
        r.title@ == channel_list_title(*state),
        r.rows@.len() == shown_channels(*state).len(),
        forall|i: int| 0 <= i < r.rows@.len() ==> row_shows(#[trigger] r.rows@[i], *state, shown_channels(*state)[i]),
        r.selected == (if shown_channels(*state).len() == 0 {
            None
        } else if state.nav.channel_cursor < shown_channels(*state).len() - 1 {
            Some(state.nav.channel_cursor)
        } else {
            Some((shown_channels(*state).len() - 1) as usize)
        }),
{
    let chans = state.current_channels();
    let mut rows: Vec<ChannelRow> = Vec::new();
    let mut i: usize = 0;
    while i < chans.len()
        invariant
            0 <= i <= chans.len(),
            chans@ == shown_channels(*state),
            rows@.len() == i,
            forall|j: int| 0 <= j < i ==> row_shows(#[trigger] rows@[j], *state, chans@[j]),
        decreases chans.len() - i,
    {
        rows.push(channel_row(state, &chans[i]));
        i += 1;
    }
    let selected = if chans.len() == 0 {
        None
    } else if state.nav.channel_cursor < chans.len() - 1 {
        Some(state.nav.channel_cursor)
    } else {
        Some(chans.len() - 1)
    };
    let title = match state.nav.current_guild {
        Some(g) => {
            let mut k: usize = 0;
            while k < state.guilds.len() && state.guilds[k].id.0 != g.0
                invariant
                    0 <= k <= state.guilds.len(),
                    forall|j: int| 0 <= j < k ==> state.guilds@[j].id != g,
                decreases state.guilds.len() - k,
            {
                k += 1;
            }
            let found: Option<usize> = if k < state.guilds.len() { Some(k) } else { None };
            match found {
                Some(k) => {
                    proof {
                        lemma_first_pos_at(state.guilds@, |x: GuildSummary| x.id == g, k as int);
                    }
                    truncate(state.guilds[k].name.as_str(), 24)
                },
                None => {
                    proof {
                        lemma_first_pos(state.guilds@, |x: GuildSummary| x.id == g);
                    }
                    owned("Channels")
                },
            }
        },
        None => owned("Channels"),
    };
    ChannelList { title, rows, selected }
}

/// The first of `len` entries shown in `visible` rows so that entry `cursor` is on screen
/// and the rows are filled when the list allows it.
pub open spec fn first_shown(cursor: int, len: int, visible: int) -> int {
    let a = sat_sub(cursor, sat_sub(visible, 1));
    let b = sat_sub(len, if visible < len { visible } else { len });
    if a < b { a } else { b }
}

/// The first entry shown (see [`first_shown`]).
pub fn scroll_first(cursor: usize, len: usize, visible: usize) -> (r: usize)
    ensures
        r == first_shown(cursor as int, len as int, visible as int),
{
    let v1 = if visible > 0 { visible - 1 } else { 0 };
    let a = if cursor > v1 { cursor - v1 } else { 0 };
    let m = if visible < len { visible } else { len };
    let b = len - m;
    if a < b { a } else { b }
}

/// An entry of the direct-message list, drawn on two rows from row `top` of the list:
/// its position in the channel list, whether it is selected, unread, a group (drawn with a
/// group placeholder when it has no avatar), the presence of its recipient, its unread
/// mark, and its text (who is typing, else its name).
pub struct DmRow {
    pub slot: usize,
    pub top: u16,
    pub selected: bool,
    pub unread: bool,
    pub group: bool,
    pub presence: Option<PresenceStatus>,
    pub mark: String,
    pub typing: bool,
    pub body: String,
}

/// The presence of user `id` (offline when unknown).
pub open spec fn presence_in(s: AppState, id: u64) -> PresenceStatus {
    if s.people.presence@.contains_key(id) { s.people.presence@[id] } else { PresenceStatus::Offline }
}

/// Who is typing in channel `c`, when typing indicators are shown.
pub open spec fn shown_typers(s: AppState, c: u64, now_ms: u64) -> Seq<Seq<char>> {
    if s.prefs.show_typing { typing_list(s, c, now_ms) } else { Seq::empty() }
}

/// The typing line: the one user typing, or the count of users typing.
pub open spec fn typing_text(t: Seq<Seq<char>>) -> Seq<char> {
    if t.len() == 1 { t[0] + " is typing…"@ } else { dec(t.len()) + " people typing…"@ }
}

/// The text of a direct-message entry before it is cut: who is typing, else its name.
pub open spec fn dm_text(s: AppState, c: ChannelSummary, now_ms: u64) -> Seq<char> {
    let t = shown_typers(s, c.id.0, now_ms);
    if t.len() > 0 { typing_text(t) } else { c.name@ }
}

/// Columns for the text of a direct-message entry in a list `width` columns wide: what
/// follows the avatar, less the presence dot and the unread mark.
pub open spec fn dm_text_width(width: int) -> int {
    sat_sub(sat_sub(width, 5), 3)
}

/// The cursor of the list, kept on its last entry.
pub open spec fn dm_cursor(s: AppState) -> int {
    let len = shown_channels(s).len();
    if s.nav.channel_cursor < len - 1 { s.nav.channel_cursor as int } else { len - 1 }
}

/// The first entry shown in a list `height` rows high (entries take two rows).
pub open spec fn dm_first(s: AppState, height: int) -> int {
    let len = shown_channels(s).len() as int;
    let visible = if height / 2 > 1 { height / 2 } else { 1 };
    first_shown(dm_cursor(s), len, visible)
}

/// How many entries are drawn in a list `height` rows high: those from the first shown that
/// exist and whose two rows fit.
pub open spec fn dm_count(s: AppState, height: int) -> int {
    let len = shown_channels(s).len() as int;
    if len == 0 || height == 0 {
        0
    } else {
        let visible = if height / 2 > 1 { height / 2 } else { 1 };
        let last = if dm_first(s, height) + visible < len { dm_first(s, height) + visible } else { len };
        let n = last - dm_first(s, height);
        if n < height / 2 { n } else { height / 2 }
    }
}

/// `r` is the entry at `slot`, drawn `i`-th, of a list `width` columns wide at `now_ms`.
pub open spec fn dm_row_shows(r: DmRow, s: AppState, i: int, height: int, width: int, now_ms: u64) -> bool {
    let slot = dm_first(s, height) + i;
    let c = shown_channels(s)[slot];
    &&& r.slot == slot
    &&& r.top == 2 * i
    &&& r.selected == (slot == dm_cursor(s))
    &&& r.unread == s.unread.unread@.contains(c.id.0)
    &&& r.group == (c.kind == 3)
    &&& r.presence == match c.recipient_id {
        Some(u) => Some(presence_in(s, u.0)),
        None => None,
    }
    &&& r.mark@ == unread_mark(count_of(s, c.id.0), s.unread.unread@.contains(c.id.0), "  "@)
    &&& r.typing == (shown_typers(s, c.id.0, now_ms).len() > 0)
    &&& r.body@ == truncated(dm_text(s, c, now_ms), dm_text_width(width) as nat)
}

/// Every drawn entry's text can be cut to its width: the width leaves room for one
/// character, or the text is empty.
pub open spec fn dm_texts_fit(s: AppState, height: int, width: int, now_ms: u64) -> bool {
    forall|i: int| 0 <= i < dm_count(s, height) ==>
        (dm_text_width(width) > 0 || #[trigger] dm_text(s, shown_channels(s)[dm_first(s, height) + i], now_ms).len() == 0)
}

fn typing_line(t: &Vec<String>) -> (r: String)
    requires
        t@.len() > 0,
    ensures
        r@ == typing_text(t@.map_values(|n: String| n@)),
{
    if t.len() == 1 {
        let mut s = t[0].clone();
        assert(s@ == t@[0]@);
        push_str(&mut s, " is typing…");
        s
    } else {
        let mut s = String::new();
        push_decimal(&mut s, t.len() as u64);
        push_str(&mut s, " people typing…");
        s
    }
}

/// The direct-message list in a list area `height` rows high and `width` columns wide at
/// `now_ms` (see [`dm_row_shows`]); none when a drawn entry's text would have to be cut to
/// no width at all.
pub fn dm_rows(state: &AppState, height: u16, width: u16, now_ms: u64) -> (r: Option<Vec<DmRow>>)
    ensures
        match r {
            Some(rows) => {
                &&& dm_texts_fit(*state, height as int, width as int, now_ms)
                &&& rows@.len() == dm_count(*state, height as int)
                &&& forall|i: int| 0 <= i < rows@.len() ==>
                    dm_row_shows(#[trigger] rows@[i], *state, i, height as int, width as int, now_ms)
            },
            None => !dm_texts_fit(*state, height as int, width as int, now_ms),
        },
{
    let chans = state.current_channels();
    let mut rows: Vec<DmRow> = Vec::new();
    let len = chans.len();
    if len == 0 || height == 0 {
        return Some(rows);
    }
    let half = height / 2;
    let visible: usize = if half > 1 { half as usize } else { 1 };
    let cursor = if state.nav.channel_cursor < len - 1 { state.nav.channel_cursor } else { len - 1 };
    let first = scroll_first(cursor, len, visible);
    let last = if first + visible < len { first + visible } else { len };
    let n0 = last - first;
    let n = if n0 < half as usize { n0 } else { half as usize };
    assert(n == dm_count(*state, height as int));
    let w5: u16 = if width > 5 { width - 5 } else { 0 };
    let tw: u16 = if w5 > 3 { w5 - 3 } else { 0 };
    let mut i: usize = 0;
    while i < n
        invariant
            0 <= i <= n,
            n == dm_count(*state, height as int),
            chans@ == shown_channels(*state),
            first == dm_first(*state, height as int),
            cursor == dm_cursor(*state),
            first + n <= chans.len(),
            n <= height / 2,
            tw == dm_text_width(width as int),
            rows@.len() == i,
            forall|j: int| 0 <= j < i ==> dm_row_shows(#[trigger] rows@[j], *state, j, height as int, width as int, now_ms),
            forall|j: int| 0 <= j < i ==>
                (dm_text_width(width as int) > 0 || #[trigger] dm_text(*state, shown_channels(*state)[dm_first(*state, height as int) + j], now_ms).len() == 0),
        decreases n - i,
    {
        let slot = first + i;
        let c = &chans[slot];
        let unread = state.unread.unread.contains(&c.id.0);
        let typers: Vec<String> = if state.prefs.show_typing { state.typing_names(c.id, now_ms) } else { Vec::new() };
        assert(typers@.map_values(|n: String| n@) =~= shown_typers(*state, c.id.0, now_ms));
        let typing = typers.len() > 0;
        let text = if typing { typing_line(&typers) } else { c.name.clone() };
        assert(text@ == dm_text(*state, *c, now_ms));
        if tw == 0 && !text.as_str().is_empty() {
            proof {
                assert(!(dm_text_width(width as int) > 0 || dm_text(*state, shown_channels(*state)[dm_first(*state, height as int) + i], now_ms).len() == 0));
            }
            return None;
        }
        let body = truncate(text.as_str(), tw as usize);
        let mut mark = String::new();
        push_unread_mark(&mut mark, state.unread_n(c.id), unread, "  ");
        let presence = match c.recipient_id {
            Some(u) => Some(state.presence_of(u)),
            None => None,
        };
        rows.push(DmRow {
            slot,
            top: (2 * i) as u16,
            selected: slot == cursor,
            unread,
            group: c.kind == 3,
            presence,
            mark,
            typing,
            body,
        });
        i += 1;
    }
    Some(rows)
}

/// A cell of the server bar: the top of the list shows one server per cell.
pub struct ServerCell {
    pub selected: bool,
    pub unread: bool,
    /// Where the server's icon goes.
    pub icon: Area,
    /// The row of the server's name.
    pub name_area: Area,
    /// The letter drawn in place of a missing icon, padded with blanks.
    pub badge: String,
    /// Empty rows above the badge, to center it in the icon's place.
    pub badge_pad: u16,
    /// The palette color of the badge (the direct-message entry has its own color).
    pub badge_color: u8,
    /// The name line: the unread dot and the name, cut to the cell.
    pub name: String,
}

/// The title of the server bar, naming the image protocol when one was detected.
pub open spec fn server_bar_title_text(backend: Seq<char>) -> Seq<char> {
    if backend.len() == 0 { "Servers < >"@ } else { "Servers < >  [img: "@ + backend + "]"@ }
}

/// The title of the server bar (see [`server_bar_title_text`]).
pub fn server_bar_title(state: &AppState) -> (r: String)
    ensures
        r@ == server_bar_title_text(state.panels.image_backend@),
{
    if state.panels.image_backend.as_str().is_empty() {
        owned("Servers < >")
    } else {
        let mut t = owned("Servers < >  [img: ");
        push_str(&mut t, state.panels.image_backend.as_str());
        push_str(&mut t, "]");
        t
    }
}

/// Width of a server cell.
pub open spec fn server_cell_width() -> int {
    14
}

/// The servers shown in a bar `width` columns wide: the selected one (the cursor, kept
/// five from the end), and the range of cells, centered on it as far as the list allows;
/// none when there is no server or no room.
pub open spec fn server_range(s: AppState, width: int) -> Option<(int, int, int)> {
    let len = s.guilds@.len() as int;
    if len == 0 || width == 0 {
        None
    } else {
        let cells = if width / server_cell_width() > 1 { width / server_cell_width() } else { 1 };
        let cursor = if s.nav.guild_cursor < sat_sub(len, 5) { s.nav.guild_cursor as int } else { sat_sub(len, 5) };
        let f0 = sat_sub(cursor, cells / 2);
        let cap = sat_sub(len, if cells < len { cells } else { len });
        let first = if f0 < cap { f0 } else { cap };
        let last = if first + cells < len { first + cells } else { len };
        Some((cursor, first, last))
    }
}

/// The servers shown in a bar `width` columns wide (see [`server_range`]).
pub fn server_slots(state: &AppState, width: u16) -> (r: Option<(usize, usize, usize)>)
    ensures
        match r {
            Some((c, f, l)) => server_range(*state, width as int) == Some((c as int, f as int, l as int)),
            None => server_range(*state, width as int) is None,
        },
{
    let len = state.guilds.len();
    if len == 0 || width == 0 {
        return None;
    }
    let q = (width / 14) as usize;
    let cells: usize = if q > 1 { q } else { 1 };
    let l5 = if len > 5 { len - 5 } else { 0 };
    let cursor = if state.nav.guild_cursor < l5 { state.nav.guild_cursor } else { l5 };
    let half = cells / 2;
    let f0 = if cursor > half { cursor - half } else { 0 };
    let m = if cells < len { cells } else { len };
    let cap = len - m;
    let first = if f0 < cap { f0 } else { cap };
    let last = if first + cells < len { first + cells } else { len };
    Some((cursor, first, last))
}

/// A control character (general category Cc: U+0000 to U+001F and U+007F to U+009F).
pub open spec fn is_control(c: char) -> bool {
    (c as u32) <= 0x1f || (0x7f <= (c as u32) && (c as u32) <= 0x9f)
}

/// `s` without its control characters.
pub open spec fn without_controls(s: Seq<char>) -> Seq<char> {
    s.filter(|c: char| !is_control(c))
}

fn strip_controls(s: &str) -> (r: String)
    ensures
        r@ == without_controls(s@),
{
    let cs = crate::text::chars_of(s);
    let mut out = String::new();
    let mut i: usize = 0;
    while i < cs.len()
        invariant
            0 <= i <= cs.len(),
            cs@ == s@,
            out@ == without_controls(cs@.take(i as int)),
        decreases cs.len() - i,
    {
        let c = cs[i];
        let u = c as u32;
        assert(cs@.take(i + 1).drop_last() =~= cs@.take(i as int));
        if !(u <= 0x1f || (0x7f <= u && u <= 0x9f)) {
            crate::text::push_char(&mut out, c);
        }
        proof {
            assert(cs@.take(i + 1) =~= cs@.take(i as int).push(c));
            cs@.take(i as int).lemma_filter_push(c, |c: char| !is_control(c));
        }
        i += 1;
    }
    assert(cs@.take(cs.len() as int) =~= cs@);
    out
}

/// Whether a character is alphabetic or numeric in Unicode (what `char::is_alphanumeric`
/// computes; it depends on the character alone).
pub uninterp spec fn unicode_alphanumeric(c: char) -> bool;

/// `char::is_alphanumeric`: whether `c` is alphabetic or numeric in Unicode. Nothing more
/// of those tables is claimed here.
#[verifier::external_body]
fn is_alphanumeric(c: char) -> (r: bool)
    ensures
        r == unicode_alphanumeric(c),
{
    c.is_alphanumeric()
}

/// The upper-case mapping of a character, as text (what `char::to_uppercase` yields; it
/// depends on the character alone).
pub uninterp spec fn unicode_char_upper(c: char) -> Seq<char>;

/// `char::to_uppercase`, collected into a string. Nothing more of the mapping is claimed.
#[verifier::external_body]
fn char_upper(c: char) -> (r: String)
    ensures
        r@ == unicode_char_upper(c),
{
    c.to_uppercase().to_string()
}

/// The letter of a server without icon: the direct-message entry's `@`, else the first
/// letter or digit of its name in upper case, else `#`.
pub open spec fn badge_letter(g: GuildSummary) -> Seq<char> {
    if g.id.0 == dm_guild() {
        "@"@
    } else {
        let p = first_pos(g.name@, |c: char| unicode_alphanumeric(c));
        if p >= 0 { unicode_char_upper(g.name@[p]) } else { "#"@ }
    }
}

/// The name of a server in the bar: `Direct` for the direct-message entry, else its name
/// without control characters.
pub open spec fn bar_name(g: GuildSummary) -> Seq<char> {
    if g.id.0 == dm_guild() { "Direct"@ } else { without_controls(g.name@) }
}

/// Columns for the name of a server in a cell `width` wide: the cell less one, and less the
/// three bytes of the unread dot.
pub open spec fn bar_name_width(width: int, unread: bool) -> int {
    sat_sub(width, 1 + if unread { 3int } else { 0 })
}

/// The name of a server fits its cell: there is room for a character, or the name is empty.
pub open spec fn bar_name_fits(s: AppState, slot: int, cell: Area) -> bool {
    let g = s.guilds@[slot];
    bar_name_width(cell.width as int, s.unread.unread@.contains(g.id.0)) > 0 || bar_name(g).len() == 0
}

/// `r` is the cell of the server at `slot` with the cursor at `cursor`, drawn in `cell`.
pub open spec fn cell_shows(r: ServerCell, s: AppState, slot: int, cursor: int, cell: Area) -> bool {
    let g = s.guilds@[slot];
    let unread = s.unread.unread@.contains(g.id.0);
    let icon_h = if cell.height - 1 < 4 { cell.height - 1 } else { 4 };
    let icon_w = if icon_h * 2 < cell.width { icon_h * 2 } else { cell.width as int };
    let name = truncated(bar_name(g), bar_name_width(cell.width as int, unread) as nat);
    &&& r.selected == (slot == cursor)
    &&& r.unread == unread
    &&& r.icon == Area { x: (cell.x + (cell.width - icon_w) / 2) as u16, y: cell.y, width: icon_w as u16, height: icon_h as u16 }
    &&& r.name_area == Area { x: cell.x, y: (cell.y + cell.height - 1) as u16, width: cell.width, height: 1 }
    &&& r.badge@ == " "@ + badge_letter(g) + " "@
    &&& r.badge_pad == sat_sub(icon_h, 1) / 2
    &&& r.badge_color == (if g.id.0 == dm_guild() { 0 } else { (g.id.0 % 6) + 1 })
    &&& r.name@ == (if unread { "●"@ + name } else { name })
}

/// The cell of the server at `slot`, with the cursor at `cursor`, drawn in `cell` (see
/// [`cell_shows`]); none when its name would have to be cut to no width at all.
pub fn server_cell(state: &AppState, slot: usize, cursor: usize, cell: Area) -> (r: Option<ServerCell>)
    requires
        slot < state.guilds@.len(),
        cell.height >= 2,
        cell.y + cell.height <= u16::MAX,
        cell.x + cell.width <= u16::MAX,
    ensures
        match r {
            Some(c) => bar_name_fits(*state, slot as int, cell) && cell_shows(c, *state, slot as int, cursor as int, cell),
            None => !bar_name_fits(*state, slot as int, cell),
        },
{
    let g = &state.guilds[slot];
    let unread = state.unread.unread.contains(&g.id.0);
    let raw = if g.id.0 == 0 { owned("Direct") } else { strip_controls(g.name.as_str()) };
    let dot: u16 = if unread { 3 } else { 0 };
    let nw: u16 = if cell.width > 1 + dot { cell.width - (1 + dot) } else { 0 };
    if nw == 0 && !raw.as_str().is_empty() {
        return None;
    }
    let cut = truncate(raw.as_str(), nw as usize);
    let name = if unread {
        let mut t = owned("●");
        push_str(&mut t, cut.as_str());
        t
    } else {
        cut
    };
    let icon_h: u16 = if cell.height - 1 < 4 { cell.height - 1 } else { 4 };
    let icon_w: u16 = if icon_h * 2 < cell.width { icon_h * 2 } else { cell.width };
    let icon = Area { x: cell.x + (cell.width - icon_w) / 2, y: cell.y, width: icon_w, height: icon_h };
    let name_area = Area { x: cell.x, y: cell.y + cell.height - 1, width: cell.width, height: 1 };
    let mut badge = owned(" ");
    if g.id.0 == 0 {
        push_str(&mut badge, "@");
    } else {
        let cs = crate::text::chars_of(g.name.as_str());
        let mut k: usize = 0;
        while k < cs.len() && !is_alphanumeric(cs[k])
            invariant
                0 <= k <= cs.len(),
                cs@ == g.name@,
                forall|j: int| 0 <= j < k ==> !unicode_alphanumeric(#[trigger] cs@[j]),
            decreases cs.len() - k,
        {
            k += 1;
        }
        if k < cs.len() {
            proof {
                lemma_first_pos_at(g.name@, |c: char| unicode_alphanumeric(c), k as int);
            }
            let up = char_upper(cs[k]);
            push_str(&mut badge, up.as_str());
        } else {
            proof {
                lemma_first_pos(g.name@, |c: char| unicode_alphanumeric(c));
            }
            push_str(&mut badge, "#");
        }
    }
    push_str(&mut badge, " ");
    let badge_pad: u16 = (if icon_h > 1 { icon_h - 1 } else { 0 }) / 2;
    let badge_color: u8 = if g.id.0 == 0 { 0 } else { ((g.id.0 % 6) + 1) as u8 };
    Some(ServerCell { selected: slot == cursor, unread, icon, name_area, badge, badge_pad, badge_color, name })
}

/// A scrolled list keeps its cursor on screen: the entry under the cursor lies within the
/// rows shown from the first entry shown, and that first entry exists.
pub proof fn law_cursor_on_screen(cursor: int, len: int, visible: int)
    requires
        0 <= cursor < len,
        visible > 0,
    ensures
        0 <= first_shown(cursor, len, visible) <= cursor < first_shown(cursor, len, visible) + visible,
        first_shown(cursor, len, visible) < len,
{
}

} // verus!
