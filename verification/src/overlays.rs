use vstd::prelude::*;
use crate::appstate::{AppState, msgs_of};
use crate::console::LogState;
use crate::decimal::dec;
use crate::events::{first_pos, lemma_first_pos, lemma_first_pos_at};
use crate::sidebar::{first_shown, scroll_first, shown_typers, typing_text};
use crate::pane::{truncate, truncated};
use crate::appstate::setting_text;
use crate::snowflake::SnowflakeID;
use crate::state::{DisplayMessage, Focus, PresenceStatus, Toast, glyph_of, setting_labels, settings, settings_len};
use crate::stream_layout::{sat_sub, Area};
use crate::text::{contains, owned, push_str, seq_contains, trim, trim_spec};

verus! {

broadcast use vstd::seq_lib::group_seq_properties;

/// A rectangle `w` by `h` (each at most the area's) centered in `area`.
pub open spec fn centered(w: int, h: int, area: Area) -> Area {
    let cw = if w < area.width { w } else { area.width as int };
    let ch = if h < area.height { h } else { area.height as int };
    Area {
        x: (area.x + (area.width - cw) / 2) as u16,
        y: (area.y + (area.height - ch) / 2) as u16,
        width: cw as u16,
        height: ch as u16,
    }
}

/// A rectangle `w` by `h` centered in `area` (see [`centered`]).
pub fn centered_rect(w: u16, h: u16, area: Area) -> (r: Area)
    requires
        area.x + area.width <= u16::MAX,
        area.y + area.height <= u16::MAX,
    ensures
        r == centered(w as int, h as int, area),
{
    let cw = if w < area.width { w } else { area.width };
    let ch = if h < area.height { h } else { area.height };
    Area { x: area.x + (area.width - cw) / 2, y: area.y + (area.height - ch) / 2, width: cw, height: ch }
}

/// `v * k`, or the largest 16-bit number when that does not fit.
pub open spec fn sat_mul16(v: int, k: int) -> int {
    if v * k > u16::MAX { u16::MAX as int } else { v * k }
}

/// An overlay `w_tenths` tenths as wide and `h_tenths` tenths as high as the screen, in its
/// center.
pub open spec fn overlay(area: Area, w_tenths: int, h_tenths: int) -> Area {
    centered(sat_mul16(area.width as int, w_tenths) / 10, sat_mul16(area.height as int, h_tenths) / 10, area)
}

/// An overlay on the screen `area` (see [`overlay`]).
pub fn overlay_area(area: Area, w_tenths: u16, h_tenths: u16) -> (r: Area)
    requires
        area.x + area.width <= u16::MAX,
        area.y + area.height <= u16::MAX,
    ensures
        r == overlay(area, w_tenths as int, h_tenths as int),
{
    let w = area.width.checked_mul(w_tenths);
    let w: u16 = match w {
        Some(v) => v,
        None => u16::MAX,
    };
    let h = area.height.checked_mul(h_tenths);
    let h: u16 = match h {
        Some(v) => v,
        None => u16::MAX,
    };
    centered_rect(w / 10, h / 10, area)
}

/// The inside of a rectangle framed on all four sides.
pub open spec fn framed(a: Area) -> Area {
    Area {
        x: if a.width > 0 { (a.x + 1) as u16 } else { a.x },
        y: if a.height > 0 { (a.y + 1) as u16 } else { a.y },
        width: sat_sub(a.width as int, 2) as u16,
        height: sat_sub(a.height as int, 2) as u16,
    }
}

/// `s` followed by blanks up to `n` characters (left as is when it is as long).
pub open spec fn pad_right(s: Seq<char>, n: nat) -> Seq<char> {
    if s.len() >= n { s } else { s + Seq::new((n - s.len()) as nat, |i: int| ' ') }
}

fn push_padded(out: &mut String, s: &str, n: usize)
    ensures
        final(out)@ == old(out)@ + pad_right(s@, n as nat),
{
    push_str(out, s);
    let len = crate::text::chars_of(s).len();
    let mut k = len;
    let ghost base = old(out)@ + s@;
    while k < n
        invariant
            len == s@.len(),
            len <= k <= n || (k == len && len >= n),
            out@ == base + Seq::new((k - len) as nat, |i: int| ' '),
        decreases n - k,
    {
        crate::text::push_char(out, ' ');
        k += 1;
        assert(out@ =~= base + Seq::new((k - len) as nat, |i: int| ' '));
    }
    proof {
        if len >= n {
            assert(out@ =~= old(out)@ + s@);
        } else {
            assert(out@ =~= old(out)@ + pad_right(s@, n as nat));
        }
    }
}

/// The number of bytes of a character in UTF-8.
pub open spec fn utf8_width(c: char) -> nat {
    if (c as u32) < 0x80 { 1 } else if (c as u32) < 0x800 { 2 } else if (c as u32) < 0x10000 { 3 } else { 4 }
}

/// The number of bytes of a text in UTF-8 (what `str::len` gives).
pub open spec fn utf8_len(s: Seq<char>) -> nat
    decreases s.len(),
{
    if s.len() == 0 { 0 } else { utf8_len(s.drop_last()) + utf8_width(s.last()) }
}

/// The length in bytes of `s` (see [`utf8_len`]), counted up to `cap`.
pub fn byte_len_capped(s: &str, cap: u16) -> (r: usize)
    ensures
        r == (if utf8_len(s@) < cap { utf8_len(s@) } else { cap as nat }),
{
    let cs = crate::text::chars_of(s);
    let mut n: usize = 0;
    let mut i: usize = 0;
    while i < cs.len() && n < cap as usize
        invariant
            n <= cap + 4,
            0 <= i <= cs.len(),
            cs@ == s@,
            n == utf8_len(cs@.take(i as int)),
        decreases cs.len() - i,
    {
        assert(cs@.take(i + 1).drop_last() =~= cs@.take(i as int));
        let u = cs[i] as u32;
        let w: usize = if u < 0x80 { 1 } else if u < 0x800 { 2 } else if u < 0x10000 { 3 } else { 4 };
        n = n + w;
        i += 1;
    }
    proof {
        lemma_utf8_len_prefix(cs@, i as int);
        if i == cs.len() {
            assert(cs@.take(i as int) =~= cs@);
        }
    }
    if n < cap as usize { n } else { cap as usize }
}

proof fn lemma_utf8_len_prefix(s: Seq<char>, k: int)
    requires
        0 <= k <= s.len(),
    ensures
        utf8_len(s.take(k)) <= utf8_len(s),
    decreases s.len(),
{
    if k < s.len() {
        assert(s.drop_last().take(k) =~= s.take(k));
        lemma_utf8_len_prefix(s.drop_last(), k);
    } else {
        assert(s.take(k) =~= s);
    }
}

/// The status bar's key hints: those of the open overlay or edit, else of the focused pane.
pub open spec fn hints_text(s: AppState) -> Seq<char> {
    if s.search.search_open {
        "type to filter · ↑↓ select · Enter open · Esc close"@
    } else if s.panels.settings_open {
        "↑↓ move · ←→/Space change · Enter edit text · Esc save & close"@
    } else if s.panels.show_help {
        "? or Esc to close help"@
    } else if s.compose.editing_message is Some {
        "editing · Enter save · Esc cancel"@
    } else {
        match s.nav.focus {
            Focus::ServerBar => "←→ servers · Enter · Ctrl+K · m members · , set · ? help"@,
            Focus::Channels => "↑↓ · Enter · v/V voice · Alt+↑↓ unread · m members · , · ? help"@,
            Focus::Messages => "↑↓ · e edit · r reply · d del · i img · Ctrl+K · , set · ? help"@,
            Focus::Input => "type · Enter send · Tab focus · Esc cancel"@,
        }
    }
}

/// The connection word of the status bar (`connecting…` before any).
pub open spec fn conn_text(s: AppState) -> Seq<char> {
    if s.nav.conn_status@.len() == 0 { "connecting…"@ } else { s.nav.conn_status@ }
}

/// The rest of the status bar: the voice status, the status line and the hints.
pub open spec fn status_rest(s: AppState) -> Seq<char> {
    let voice = if s.voice.voice_status@.len() == 0 { Seq::empty() } else { "🔊 "@ + s.voice.voice_status@ + " · "@ };
    "│ "@ + voice + s.nav.status_line@ + " │ "@ + hints_text(s) + " "@
}

/// The status bar: the connection in its own color (green when online), then the rest.
pub struct StatusBar {
    pub conn: String,
    pub online: bool,
    pub rest: String,
}

fn hints_of(state: &AppState) -> (r: &'static str)
    ensures
        r@ == hints_text(*state),
{
    if state.search.search_open {
        "type to filter · ↑↓ select · Enter open · Esc close"
    } else if state.panels.settings_open {
        "↑↓ move · ←→/Space change · Enter edit text · Esc save & close"
    } else if state.panels.show_help {
        "? or Esc to close help"
    } else if state.compose.editing_message.is_some() {
        "editing · Enter save · Esc cancel"
    } else {
        match state.nav.focus {
            Focus::ServerBar => "←→ servers · Enter · Ctrl+K · m members · , set · ? help",
            Focus::Channels => "↑↓ · Enter · v/V voice · Alt+↑↓ unread · m members · , · ? help",
            Focus::Messages => "↑↓ · e edit · r reply · d del · i img · Ctrl+K · , set · ? help",
            Focus::Input => "type · Enter send · Tab focus · Esc cancel",
        }
    }
}

/// The status bar (see [`conn_text`] and [`status_rest`]).
pub fn status_bar(state: &AppState) -> (r: StatusBar)
    ensures
        r.conn@ == " "@ + conn_text(*state) + " "@,
        r.online == (conn_text(*state) == "online"@),
        r.rest@ == status_rest(*state),
{
    let conn_s: &str = if state.nav.conn_status.as_str().is_empty() { "connecting…" } else { state.nav.conn_status.as_str() };
    let mut conn = owned(" ");
    push_str(&mut conn, conn_s);
    push_str(&mut conn, " ");
    let online = crate::state::str_eq(conn_s, "online");
    let mut rest = owned("│ ");
    if !state.voice.voice_status.as_str().is_empty() {
        push_str(&mut rest, "🔊 ");
        push_str(&mut rest, state.voice.voice_status.as_str());
        push_str(&mut rest, " · ");
    }
    push_str(&mut rest, state.nav.status_line.as_str());
    push_str(&mut rest, " │ ");
    push_str(&mut rest, hints_of(state));
    push_str(&mut rest, " ");
    StatusBar { conn, online, rest }
}

/// Whether pane `target` has the focus (its frame is then highlighted).
pub fn is_focused(state: &AppState, target: Focus) -> (r: bool)
    ensures
        r == (state.nav.focus == target),
{
    state.nav.focus == target
}

/// How the message box is framed: while editing, while replying, or by focus.
#[derive(Clone, Copy, Debug, PartialEq, Eq, Structural)]
pub enum InputFrame {
    Editing,
    Replying,
    Focused,
    Plain,
}

/// The position of the first message with id `id` (-1 when none).
pub open spec fn msg_pos(v: Seq<DisplayMessage>, id: SnowflakeID) -> int {
    first_pos(v, |m: DisplayMessage| m.id == id)
}

/// The title of the message box: who is typing in the selected channel when indicators are
/// shown, else the edit or reply under way, else `Message`.
pub open spec fn input_title_text(s: AppState, now_ms: u64) -> Seq<char> {
    match s.nav.current_channel {
        Some(cid) => {
            let t = shown_typers(s, cid.0, now_ms);
            if t.len() == 0 {
                if s.compose.editing_message is Some {
                    "Editing (Esc to cancel)"@
                } else {
                    match s.compose.replying_to {
                        Some(rid) => {
                            let v = msgs_of(s.messages@, cid.0);
                            let who = if msg_pos(v, rid) >= 0 { v[msg_pos(v, rid)].author@ } else { Seq::empty() };
                            "Replying to "@ + who + " (Esc to cancel)"@
                        },
                        None => "Message"@,
                    }
                }
            } else {
                "Message — "@ + typing_text(t)
            }
        },
        None => "Message"@,
    }
}

/// The frame of the message box.
pub open spec fn input_frame_of(s: AppState) -> InputFrame {
    if s.compose.editing_message is Some {
        InputFrame::Editing
    } else if s.compose.replying_to is Some {
        InputFrame::Replying
    } else if s.nav.focus == Focus::Input {
        InputFrame::Focused
    } else {
        InputFrame::Plain
    }
}

/// The title and frame of the message box at `now_ms` (see [`input_title_text`] and
/// [`input_frame_of`]).
pub fn input_box(state: &AppState, now_ms: u64) -> (r: (String, InputFrame))
    ensures
        r.0@ == input_title_text(*state, now_ms),
        r.1 == input_frame_of(*state),
{
    let frame = if state.compose.editing_message.is_some() {
        InputFrame::Editing
    } else if state.compose.replying_to.is_some() {
        InputFrame::Replying
    } else if state.nav.focus == Focus::Input {
        InputFrame::Focused
    } else {
        InputFrame::Plain
    };
    let title = match state.nav.current_channel {
        Some(cid) => {
            let typers: Vec<String> = if state.prefs.show_typing { state.typing_names(cid, now_ms) } else { Vec::new() };
            assert(typers@.map_values(|n: String| n@) =~= shown_typers(*state, cid.0, now_ms));
            if typers.len() == 0 {
                if state.compose.editing_message.is_some() {
                    owned("Editing (Esc to cancel)")
                } else {
                    match state.compose.replying_to {
                        Some(rid) => {
                            let mut who = String::new();
                            match state.messages.get(&cid.0) {
                                Some(v) => {
                                    assert(v@ == msgs_of(state.messages@, cid.0));
                                    let mut k: usize = 0;
                                    while k < v.len() && v[k].id.0 != rid.0
                                        invariant
                                            0 <= k <= v.len(),
                                            forall|j: int| 0 <= j < k ==> v@[j].id != rid,
                                        decreases v.len() - k,
                                    {
                                        k += 1;
                                    }
                                    if k < v.len() {
                                        proof {
                                            lemma_first_pos_at(v@, |m: DisplayMessage| m.id == rid, k as int);
                                        }
                                        who = v[k].author.clone();
                                    } else {
                                        proof {
                                            lemma_first_pos(v@, |m: DisplayMessage| m.id == rid);
                                        }
                                    }
                                },
                                None => {
                                    assert(msgs_of(state.messages@, cid.0) =~= Seq::<DisplayMessage>::empty());
                                },
                            }
                            let mut t = owned("Replying to ");
                            push_str(&mut t, who.as_str());
                            push_str(&mut t, " (Esc to cancel)");
                            t
                        },
                        None => owned("Message"),
                    }
                }
            } else {
                let mut t = owned("Message — ");
                if typers.len() == 1 {
                    push_str(&mut t, typers[0].as_str());
                    push_str(&mut t, " is typing…");
                } else {
                    crate::decimal::push_decimal(&mut t, typers.len() as u64);
                    push_str(&mut t, " people typing…");
                }
                assert(t@ =~= "Message — "@ + typing_text(shown_typers(*state, cid.0, now_ms)));
                t
            }
        },
        None => owned("Message"),
    };
    (title, frame)
}

/// How a log line is colored, by its tag.
#[derive(Clone, Copy, Debug, PartialEq, Eq, Structural)]
pub enum LogTone {
    Error,
    Warn,
    Info,
    Voice,
    Plain,
}

/// The tone of a log line: errors, warnings, information and logins, voice lines, others.
pub open spec fn log_tone_of(l: Seq<char>) -> LogTone {
    if seq_contains(l, "[Erreur]"@) {
        LogTone::Error
    } else if seq_contains(l, "[Avertissement]"@) {
        LogTone::Warn
    } else if seq_contains(l, "[Information]"@) || seq_contains(l, "[Login]"@) {
        LogTone::Info
    } else if seq_contains(l, "[Voice"@) {
        LogTone::Voice
    } else {
        LogTone::Plain
    }
}

/// The lines of the log panel, `rows` high and scrolled `scroll` lines up from the newest:
/// the last `rows + scroll` lines of the log, less the `scroll` newest, of which the last
/// `rows`.
pub open spec fn log_panel(ring: Seq<String>, rows: int, scroll: int) -> Seq<String> {
    let take = rows + scroll;
    let recent = ring.subrange(if ring.len() > take { ring.len() - take } else { 0 }, ring.len() as int);
    let end = sat_sub(recent.len() as int, scroll);
    let start = sat_sub(end, rows);
    recent.subrange(start, end)
}

/// The log panel (see [`log_panel`]), each line with its tone (see [`log_tone_of`]).
pub fn log_view(log: &LogState, rows: u16, scroll: usize) -> (r: Vec<(LogTone, String)>)
    requires
        rows + scroll <= usize::MAX,
    ensures
        r@.map_values(|p: (LogTone, String)| p.1@) == log_panel(log.ring@, rows as int, scroll as int).map_values(|l: String| l@),
        forall|i: int| 0 <= i < r@.len() ==> (#[trigger] r@[i]).0 == log_tone_of(r@[i].1@),
{
    let lines = log.recent_logs(rows as usize + scroll);
    let end = if lines.len() > scroll { lines.len() - scroll } else { 0 };
    let start = if end > rows as usize { end - rows as usize } else { 0 };
    let mut out: Vec<(LogTone, String)> = Vec::new();
    let mut i = start;
    while i < end
        invariant
            start <= i <= end,
            end <= lines.len(),
            out@.map_values(|p: (LogTone, String)| p.1@) == lines@.subrange(start as int, i as int).map_values(|l: String| l@),
            forall|j: int| 0 <= j < out@.len() ==> (#[trigger] out@[j]).0 == log_tone_of(out@[j].1@),
        decreases end - i,
    {
        let l = &lines[i];
        let tone = if contains(l.as_str(), "[Erreur]") {
            LogTone::Error
        } else if contains(l.as_str(), "[Avertissement]") {
            LogTone::Warn
        } else if contains(l.as_str(), "[Information]") || contains(l.as_str(), "[Login]") {
            LogTone::Info
        } else if contains(l.as_str(), "[Voice") {
            LogTone::Voice
        } else {
            LogTone::Plain
        };
        let c = l.clone();
        assert(c@ == lines@[i as int]@);
        let ghost before = out@;
        out.push((tone, c));
        assert(lines@.subrange(start as int, i + 1) =~= lines@.subrange(start as int, i as int).push(lines@[i as int]));
        assert(out@.map_values(|p: (LogTone, String)| p.1@) =~= before.map_values(|p: (LogTone, String)| p.1@).push(c@));
        assert(out@.map_values(|p: (LogTone, String)| p.1@) =~= lines@.subrange(start as int, i + 1).map_values(|l: String| l@));
        i += 1;
    }
    assert(lines@.subrange(start as int, end as int) =~= log_panel(log.ring@, rows as int, scroll as int));
    out
}

/// The members panel: its title and its lines.
pub struct MembersPanel {
    pub title: String,
    pub lines: Vec<(PresenceStatus, String, String)>,
}

/// The title of the members panel for `n` members of `scope`.
pub open spec fn members_title(scope: Seq<char>, n: nat) -> Seq<char> {
    "  Members · "@ + scope + " ("@ + dec(n) + ")  (m/Esc to close)  "@
}

/// Every member shown in a panel `height` rows high and `width` wide has a name that can be
/// cut to its column: there is room for one character, or the name is empty.
pub open spec fn member_names_fit(people: Seq<(String, PresenceStatus)>, height: int, width: int) -> bool {
    forall|i: int| 0 <= i < people.len() && i < height ==> sat_sub(width, 4) > 0 || (#[trigger] people[i]).0@.len() == 0
}

/// The members panel for `people` of `scope` inside a frame `height` rows high and `width`
/// wide: the title, and for the first `height` members their presence, its glyph between
/// blanks, and their name cut to the width less four; none when a shown name would have to
/// be cut to no width at all.
pub fn members_panel(scope: &str, people: &Vec<(String, PresenceStatus)>, height: u16, width: u16) -> (r: Option<MembersPanel>)
    ensures
        match r {
            Some(p) => {
                &&& member_names_fit(people@, height as int, width as int)
                &&& p.title@ == members_title(scope@, people@.len())
                &&& p.lines@.len() == (if people@.len() < height { people@.len() as int } else { height as int })
                &&& forall|i: int| 0 <= i < p.lines@.len() ==> {
                    &&& (#[trigger] p.lines@[i]).0 == people@[i].1
                    &&& p.lines@[i].1@ == " "@ + glyph_of(people@[i].1) + " "@
                    &&& p.lines@[i].2@ == truncated(people@[i].0@, sat_sub(width as int, 4) as nat)
                }
            },
            None => !member_names_fit(people@, height as int, width as int),
        },
{
    let mut title = owned("  Members · ");
    push_str(&mut title, scope);
    push_str(&mut title, " (");
    crate::decimal::push_decimal(&mut title, people.len() as u64);
    push_str(&mut title, ")  (m/Esc to close)  ");
    let nw: usize = if width > 4 { (width - 4) as usize } else { 0 };
    let n: usize = if people.len() < height as usize { people.len() } else { height as usize };
    let mut lines: Vec<(PresenceStatus, String, String)> = Vec::new();
    let mut i: usize = 0;
    while i < n
        invariant
            0 <= i <= n,
            n <= people@.len(),
            n == (if people@.len() < height { people@.len() as int } else { height as int }),
            nw == sat_sub(width as int, 4),
            lines@.len() == i,
            forall|j: int| 0 <= j < i ==> sat_sub(width as int, 4) > 0 || (#[trigger] people@[j]).0@.len() == 0,
            forall|j: int| 0 <= j < i ==> {
                &&& (#[trigger] lines@[j]).0 == people@[j].1
                &&& lines@[j].1@ == " "@ + glyph_of(people@[j].1) + " "@
                &&& lines@[j].2@ == truncated(people@[j].0@, sat_sub(width as int, 4) as nat)
            },
        decreases n - i,
    {
        let (name, st) = (&people[i].0, people[i].1);
        if nw == 0 && !name.as_str().is_empty() {
            return None;
        }
        let mut g = owned(" ");
        push_str(&mut g, st.glyph());
        push_str(&mut g, " ");
        lines.push((st, g, truncate(name.as_str(), nw)));
        i += 1;
    }
    Some(MembersPanel { title, lines })
}

/// A row of the settings panel.
pub struct SettingLine {
    pub index: usize,
    pub selected: bool,
    pub editing: bool,
    pub label: String,
    pub value: String,
}

/// The settings cursor, kept on the last row.
pub open spec fn settings_cursor_of(s: AppState) -> int {
    if s.panels.settings_cursor < settings_len() - 1 { s.panels.settings_cursor as int } else { settings_len() - 1 }
}

/// `r` is the settings row `i`.
pub open spec fn setting_line_shows(r: SettingLine, s: AppState, i: int) -> bool {
    let selected = i == settings_cursor_of(s);
    let editing = selected && s.panels.settings_editing;
    &&& r.index == i
    &&& r.selected == selected
    &&& r.editing == editing
    &&& r.label@ == " "@ + pad_right(setting_labels()[i], 32)
    &&& r.value@ == " "@ + (if editing { s.panels.settings_buf@ + "▏"@ } else { setting_text(s.prefs, s.edit_cfg, i) })
}

/// The rows of the settings panel shown in `visible` rows, scrolled to keep the cursor
/// on screen (see [`first_shown`] and [`setting_line_shows`]).
pub fn settings_lines(state: &AppState, visible: u16) -> (r: Vec<SettingLine>)
    ensures
        ({
            let first = first_shown(settings_cursor_of(*state), settings_len() as int, visible as int);
            let last = if first + visible < settings_len() { first + visible } else { settings_len() as int };
            &&& r@.len() == last - first
            &&& forall|i: int| 0 <= i < r@.len() ==> setting_line_shows(#[trigger] r@[i], *state, first + i)
        }),
{
    let rows = settings();
    let total = rows.len();
    let cursor = if state.panels.settings_cursor < total - 1 { state.panels.settings_cursor } else { total - 1 };
    let first = scroll_first(cursor, total, visible as usize);
    let last = if first + (visible as usize) < total { first + visible as usize } else { total };
    let mut out: Vec<SettingLine> = Vec::new();
    let mut i = first;
    while i < last
        invariant
            first <= i <= last,
            last <= total,
            total == settings_len(),
            rows@.len() == total,
            forall|k: int| 0 <= k < rows@.len() ==> (#[trigger] rows@[k]).label@ == setting_labels()[k],
            cursor == settings_cursor_of(*state),
            out@.len() == i - first,
            forall|k: int| 0 <= k < out@.len() ==> setting_line_shows(#[trigger] out@[k], *state, first + k),
        decreases last - i,
    {
        let selected = i == cursor;
        let editing = selected && state.panels.settings_editing;
        let mut label = owned(" ");
        push_padded(&mut label, rows[i].label, 32);
        let mut value = owned(" ");
        if editing {
            push_str(&mut value, state.panels.settings_buf.as_str());
            push_str(&mut value, "▏");
        } else {
            let v = state.setting_display(i);
            push_str(&mut value, v.as_str());
        }
        assert(rows@[i as int].label@ == setting_labels()[i as int]);
        assert(label@ =~= " "@ + pad_right(setting_labels()[i as int], 32));
        assert(value@ =~= " "@ + (if editing { state.panels.settings_buf@ + "▏"@ } else { setting_text(state.prefs, state.edit_cfg, i as int) }));
        assert(selected == (i == settings_cursor_of(*state)));
        let ghost before = out@;
        out.push(SettingLine { index: i, selected, editing, label, value });
        assert(setting_line_shows(out@[i - first], *state, first + (i - first)));
        assert(forall|k: int| 0 <= k < before.len() ==> out@[k] == before[k]);
        i += 1;
    }
    out
}

/// A line of the search results.
pub struct SearchLine {
    pub index: usize,
    pub selected: bool,
    pub icon: String,
    pub label: String,
    pub sub: String,
}

/// The search results panel: the message shown when there are no results, and the lines.
pub struct SearchPanel {
    pub empty_text: Option<String>,
    pub lines: Vec<SearchLine>,
}

/// Columns left to a result's label in a list `width` wide: less the bytes of its detail
/// and six.
pub open spec fn label_width(width: int, sub: Seq<char>) -> int {
    sat_sub(width, (utf8_len(sub) + 6) as int)
}

/// The search cursor, kept on the last result.
pub open spec fn search_cursor_of(s: AppState) -> int {
    let total = s.search.search_results@.len() as int;
    if s.search.search_cursor < total - 1 { s.search.search_cursor as int } else { total - 1 }
}

/// The first result shown in `visible` rows.
pub open spec fn search_first(s: AppState, visible: int) -> int {
    first_shown(search_cursor_of(s), s.search.search_results@.len() as int, visible)
}

/// How many results are shown in `visible` rows.
pub open spec fn search_count(s: AppState, visible: int) -> int {
    let total = s.search.search_results@.len() as int;
    let first = search_first(s, visible);
    (if first + visible < total { first + visible } else { total }) - first
}

/// Every shown result's label can be cut to its column.
pub open spec fn search_labels_fit(s: AppState, visible: int, width: int) -> bool {
    forall|i: int| 0 <= i < search_count(s, visible) ==> {
        let h = #[trigger] s.search.search_results@[search_first(s, visible) + i];
        label_width(width, h.sub@) > 0 || h.label@.len() == 0
    }
}

/// `r` is the line of result `i` in a list `width` wide.
pub open spec fn search_line_shows(r: SearchLine, s: AppState, i: int, width: int) -> bool {
    let h = s.search.search_results@[i];
    &&& r.index == i
    &&& r.selected == (i == search_cursor_of(s))
    &&& r.icon@ == seq![h.icon] + " "@
    &&& r.label@ == truncated(h.label@, label_width(width, h.sub@) as nat)
    &&& r.sub@ == "  — "@ + h.sub@
}

/// The hint of an empty search: what can be searched while the query is blank, else that
/// nothing matched.
pub open spec fn empty_search_text(input: Seq<char>) -> Seq<char> {
    if trim_spec(input).len() == 0 { "Type to search people, channels, servers and messages…"@ } else { "No matches."@ }
}

/// The search results in a list `visible` rows high and `width` wide: a hint when there are
/// none (what to search while the query is blank, else that nothing matched); else the
/// results shown around the cursor (see [`search_line_shows`]); none when a shown label
/// would have to be cut to no width at all.
pub fn search_panel(state: &AppState, visible: u16, width: u16) -> (r: Option<SearchPanel>)
    ensures
        state.search.search_results@.len() == 0 ==> (r matches Some(p) && p.lines@.len() == 0
            && (p.empty_text matches Some(t) && t@ == empty_search_text(state.search.search_input@))),
        state.search.search_results@.len() > 0 ==> match r {
            Some(p) => {
                &&& search_labels_fit(*state, visible as int, width as int)
                &&& p.empty_text is None
                &&& p.lines@.len() == search_count(*state, visible as int)
                &&& forall|i: int| 0 <= i < p.lines@.len() ==>
                    search_line_shows(#[trigger] p.lines@[i], *state, search_first(*state, visible as int) + i, width as int)
            },
            None => !search_labels_fit(*state, visible as int, width as int),
        },
{
    let hits = &state.search.search_results;
    let total = hits.len();
    if total == 0 {
        let t = trim(state.search.search_input.as_str());
        let msg = if t.as_str().is_empty() {
            owned("Type to search people, channels, servers and messages…")
        } else {
            owned("No matches.")
        };
        return Some(SearchPanel { empty_text: Some(msg), lines: Vec::new() });
    }
    let cursor = if state.search.search_cursor < total - 1 { state.search.search_cursor } else { total - 1 };
    let first = scroll_first(cursor, total, visible as usize);
    let last = if first + (visible as usize) < total { first + visible as usize } else { total };
    let mut lines: Vec<SearchLine> = Vec::new();
    let mut i = first;
    while i < last
        invariant
            first <= i <= last,
            last <= total,
            total == hits@.len(),
            hits@ == state.search.search_results@,
            first == search_first(*state, visible as int),
            last - first == search_count(*state, visible as int),
            cursor == search_cursor_of(*state),
            lines@.len() == i - first,
            forall|k: int| 0 <= k < lines@.len() ==>
                search_line_shows(#[trigger] lines@[k], *state, first + k, width as int),
            forall|k: int| 0 <= k < i - first ==> {
                let h = #[trigger] state.search.search_results@[search_first(*state, visible as int) + k];
                label_width(width as int, h.sub@) > 0 || h.label@.len() == 0
            },
        decreases last - i,
    {
        let h = &hits[i];
        let b = byte_len_capped(h.sub.as_str(), width);
        let lw: usize = if (width as usize) > b + 6 { width as usize - (b + 6) } else { 0 };
        assert(lw == label_width(width as int, h.sub@));
        if lw == 0 && !h.label.as_str().is_empty() {
            proof {
                let k = i - first;
                assert(state.search.search_results@[search_first(*state, visible as int) + k] == *h);
                assert(!(label_width(width as int, h.sub@) > 0 || h.label@.len() == 0));
            }
            return None;
        }
        let mut icon = String::new();
        crate::text::push_char(&mut icon, h.icon);
        push_str(&mut icon, " ");
        let label = truncate(h.label.as_str(), lw);
        let mut sub = owned("  — ");
        push_str(&mut sub, h.sub.as_str());
        lines.push(SearchLine { index: i, selected: i == cursor, icon, label, sub });
        i += 1;
    }
    Some(SearchPanel { empty_text: None, lines })
}

/// A notification box: where it is drawn, its title and its text.
pub struct ToastBox {
    pub area: Area,
    pub title: String,
    pub body: String,
}

/// The width of the notification boxes on a screen `width` wide.
pub open spec fn toast_w(width: int) -> int {
    if 46 < sat_sub(width, 2) { 46 } else { sat_sub(width, 2) }
}

/// How many notification boxes fit under the server bar of the screen `area`, five rows
/// each with a blank between them.
pub open spec fn toast_room(area: Area, n: int) -> int {
    let fits = |k: int| area.y + 8 + k * 6 + 5 <= area.y + area.height;
    if n >= 1 && fits(0) {
        if n >= 2 && fits(1) {
            if n >= 3 && fits(2) { 3 } else { 2 }
        } else {
            1
        }
    } else {
        0
    }
}

/// The texts of every drawn box can be cut to their room.
pub open spec fn toasts_fit(ts: Seq<Toast>, area: Area) -> bool {
    let w = toast_w(area.width as int);
    forall|i: int| 0 <= i < toast_room(area, ts.len() as int) ==> {
        &&& (sat_sub(w, 6) > 0 || (#[trigger] ts[i]).title@.len() == 0)
        &&& (sat_sub(sat_sub(w, 2), 2) * 3 > 0 || ts[i].body@.len() == 0)
    }
}

/// `b` is the box of notification `t`, drawn `i`-th on the screen `area`: at the right,
/// under the server bar, its title and its text cut to their room.
pub open spec fn toast_box_shows(b: ToastBox, t: Toast, i: int, area: Area) -> bool {
    let w = toast_w(area.width as int);
    &&& b.area == Area {
        x: (area.x + sat_sub(area.width as int, w + 2)) as u16,
        y: (area.y + 8 + i * 6) as u16,
        width: w as u16,
        height: 5,
    }
    &&& b.title@ == " ✦ "@ + truncated(t.title@, sat_sub(w, 6) as nat) + " "@
    &&& b.body@ == truncated(t.body@, (sat_sub(sat_sub(w, 2), 2) * 3) as nat)
}

/// The notification boxes of `toasts` (at most three, newest first, as
/// [`AppState::active_toasts`] gives them) on the screen `area` (see [`toast_box_shows`]);
/// none when a drawn text would have to be cut to no width at all.
pub fn toast_boxes(toasts: &Vec<Toast>, area: Area) -> (r: Option<Vec<ToastBox>>)
    requires
        toasts@.len() <= 3,
        area.x + area.width <= u16::MAX,
        area.y + area.height < u16::MAX,
        area.y + 8 <= u16::MAX,
    ensures
        match r {
            Some(v) => {
                &&& toasts_fit(toasts@, area)
                &&& v@.len() == toast_room(area, toasts@.len() as int)
                &&& forall|i: int| 0 <= i < v@.len() ==> toast_box_shows(#[trigger] v@[i], toasts@[i], i, area)
            },
            None => !toasts_fit(toasts@, area),
        },
{
    let w2: u16 = if area.width > 2 { area.width - 2 } else { 0 };
    let w: u16 = if 46 < w2 { 46 } else { w2 };
    let tw: usize = if w > 6 { (w - 6) as usize } else { 0 };
    let inner_w: u16 = if w > 2 { w - 2 } else { 0 };
    let text_w: u16 = if inner_w > 2 { inner_w - 2 } else { 0 };
    let bw: usize = (text_w as usize) * 3;
    let bottom: u16 = area.y + area.height;
    let mut y: u16 = area.y + 8;
    let mut out: Vec<ToastBox> = Vec::new();
    let mut i: usize = 0;
    let x = area.x + (if area.width > w + 2 { area.width - (w + 2) } else { 0 });
    while i < toasts.len() && (y as u32) + 5 <= bottom as u32
        invariant
            x == area.x + sat_sub(area.width as int, w + 2),
            area.y + 8 <= u16::MAX,
            0 <= i <= toasts@.len(),
            toasts@.len() <= 3,
            y == area.y + 8 + i * 6,
            bottom == area.y + area.height,
            bottom < u16::MAX,
            w == toast_w(area.width as int),
            tw == sat_sub(w as int, 6),
            bw == sat_sub(sat_sub(w as int, 2), 2) * 3,
            i <= toast_room(area, toasts@.len() as int),
            out@.len() == i,
            forall|k: int| 0 <= k < i ==> toast_box_shows(#[trigger] out@[k], toasts@[k], k, area),
            forall|k: int| 0 <= k < i ==> {
                &&& (sat_sub(w as int, 6) > 0 || (#[trigger] toasts@[k]).title@.len() == 0)
                &&& (sat_sub(sat_sub(w as int, 2), 2) * 3 > 0 || toasts@[k].body@.len() == 0)
            },
        decreases toasts@.len() - i,
    {
        let t = &toasts[i];
        if (tw == 0 && !t.title.as_str().is_empty()) || (bw == 0 && !t.body.as_str().is_empty()) {
            assert(i < toast_room(area, toasts@.len() as int));
            return None;
        }
        let mut title = owned(" ✦ ");
        let cut = truncate(t.title.as_str(), tw);
        push_str(&mut title, cut.as_str());
        push_str(&mut title, " ");
        let body = truncate(t.body.as_str(), bw);
        out.push(ToastBox { area: Area { x, y, width: w, height: 5 }, title, body });
        y = y + 6;
        i += 1;
    }
    assert(i == toast_room(area, toasts@.len() as int));
    Some(out)
}

} // verus!
