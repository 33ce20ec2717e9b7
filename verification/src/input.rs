use vstd::prelude::*;
use crate::appstate::{AppState, Compose, Nav, Panels, Search, Voice, adjusted, guild_lists, chans_of, keys_of, msgs_of, read_rel, setting_text, text_set_rel};
use crate::state::{SettingKind, setting_kind, setting_kind_of, EditCfg};
use crate::search::{search_results_spec, hvs, search_rebuilt};
use crate::gateway::GatewayAction;
use crate::snowflake::SnowflakeID;
use crate::state::{Focus, UiPrefs, focus_next, focus_prev};
use crate::text::{chars_of, contains, is_whitespace, is_ws, owned, push_char, push_str, seq_contains, seq_starts_with, slice_vec, starts_with, string_from_chars, to_lowercase, unicode_lowercase};
use crate::events::{first_pos, lemma_first_pos, lemma_first_pos_at};
use crate::state::{ChannelSummary, textual_kind};

verus! {

broadcast use {vstd::std_specs::hash::group_hash_axioms, vstd::seq_lib::group_seq_properties};

/// A key of the keyboard, as the interface reads it.
#[derive(Clone, Copy, Debug, PartialEq, Eq, Structural)]
pub enum Key {
    Char(char),
    Esc,
    Enter,
    Tab,
    BackTab,
    Backspace,
    Up,
    Down,
    Left,
    Right,
    PageUp,
    PageDown,
    Delete,
    Other,
}

/// A key press with the Control and Alt modifiers.
#[derive(Clone, Copy, Debug, PartialEq, Eq, Structural)]
pub struct KeyPress {
    pub code: Key,
    pub ctrl: bool,
    pub alt: bool,
}

/// Outside work that a key press asks for: a gateway request, a mute or sound switch for the
/// running call connection, saving the configuration (reporting the outcome on the status
/// line or not), and REST calls whose outcomes are handed back to the state.
#[derive(Clone, Debug)]
pub enum InputEffect {
    Gateway(GatewayAction),
    VoiceMute(bool),
    VoiceDeaf(bool),
    SaveConfig { report: bool },
    Backfill { channel: SnowflakeID },
    DeleteMessage { channel: SnowflakeID, message: SnowflakeID },
    AcceptInvite { code: String },
    LeaveGuild { guild: SnowflakeID },
    CreateDm { user: SnowflakeID },
    EditMessage { channel: SnowflakeID, message: SnowflakeID, content: String },
    UploadFile { channel: SnowflakeID, path: String, nonce: u64 },
    SendMessage { channel: SnowflakeID, content: String, nonce: u64, reply_to: Option<SnowflakeID> },
}

/// `cursor` moved by `delta` and kept within `0..len` (zero when there is nothing).
pub open spec fn stepped(cursor: int, delta: int, len: int) -> int {
    if len == 0 {
        0
    } else if cursor + delta < 0 {
        0
    } else if cursor + delta > len - 1 {
        len - 1
    } else {
        cursor + delta
    }
}

/// Moves a cursor by `delta` within a list of `len` entries (see [`stepped`]); the cursor
/// is read as a signed number. For a list with entries the length and the moved cursor must
/// fit signed arithmetic.
pub fn step(cursor: usize, delta: isize, len: usize) -> (r: usize)
    requires
        len > 0 ==> len <= isize::MAX && isize::MIN <= (cursor as isize) + delta <= isize::MAX,
    ensures
        r == stepped((cursor as isize) as int, delta as int, len as int),
{
    if len == 0 {
        return 0;
    }
    let max: isize = len as isize - 1;
    let new: isize = cursor as isize + delta;
    let c: isize = if new < 0 { 0 } else if new > max { max } else { new };
    c as usize
}

/// A cursor fits the arithmetic of [`step`] for steps of at most ten.
pub open spec fn cursor_fits(c: usize) -> bool {
    c <= isize::MAX - 10
}

/// Cursors and list lengths fit the arithmetic of the navigation keys.
pub open spec fn nav_fits(s: AppState) -> bool {
    &&& cursor_fits(s.nav.guild_cursor)
    &&& cursor_fits(s.nav.channel_cursor)
    &&& cursor_fits(s.nav.message_cursor)
    &&& s.guilds@.len() <= isize::MAX
    &&& forall|g: u64| #[trigger] s.channels_by_guild@.contains_key(g) ==> s.channels_by_guild@[g]@.len() <= isize::MAX
    &&& forall|c: u64| #[trigger] s.messages@.contains_key(c) ==> s.messages@[c]@.len() <= isize::MAX
}

/// The channels on screen.
pub open spec fn shown_channels(s: AppState) -> Seq<crate::state::ChannelSummary> {
    match s.nav.current_guild {
        Some(g) => chans_of(s.channels_by_guild@, g.0),
        None => Seq::empty(),
    }
}

/// The messages on screen.
pub open spec fn shown_messages(s: AppState) -> Seq<crate::state::DisplayMessage> {
    match s.nav.current_channel {
        Some(c) => msgs_of(s.messages@, c.0),
        None => Seq::empty(),
    }
}

/// The state after moving the cursor of the focused list by `delta`; the message cursor
/// counts from the newest message, so it moves the other way.
pub open spec fn cursor_stepped(before: AppState, after: AppState, delta: int) -> bool {
    match before.nav.focus {
        Focus::ServerBar => if before.guilds@.len() == 0 {
            after == before
        } else {
            after == (AppState { nav: Nav { guild_cursor: stepped(before.nav.guild_cursor as int, delta, before.guilds@.len() as int) as usize, ..before.nav }, ..before })
        },
        Focus::Channels => if shown_channels(before).len() == 0 {
            after == before
        } else {
            after == (AppState { nav: Nav { channel_cursor: stepped(before.nav.channel_cursor as int, delta, shown_channels(before).len() as int) as usize, ..before.nav }, ..before })
        },
        Focus::Messages => if shown_messages(before).len() == 0 {
            after == before
        } else {
            after == (AppState { nav: Nav { message_cursor: stepped(before.nav.message_cursor as int, -delta, shown_messages(before).len() as int) as usize, ..before.nav }, ..before })
        },
        Focus::Input => after == before,
    }
}

/// Moves the cursor of the focused list (see [`cursor_stepped`]).
pub fn cursor_step(state: &mut AppState, delta: isize)
    requires
        nav_fits(*old(state)),
        -10 <= delta <= 10,
    ensures
        cursor_stepped(*old(state), *final(state), delta as int),
{
    match state.nav.focus {
        Focus::ServerBar => {
            if state.guilds.len() == 0 {
                return;
            }
            state.nav.guild_cursor = step(state.nav.guild_cursor, delta, state.guilds.len());
        },
        Focus::Channels => {
            let len = state.current_channels().len();
            if len == 0 {
                return;
            }
            proof {
                let g = (state.nav.current_guild->0).0;
                assert(state.channels_by_guild@.contains_key(g));
            }
            state.nav.channel_cursor = step(state.nav.channel_cursor, delta, len);
        },
        Focus::Messages => {
            let len = state.current_messages().len();
            if len == 0 {
                return;
            }
            proof {
                let c = (state.nav.current_channel->0).0;
                assert(state.messages@.contains_key(c));
            }
            state.nav.message_cursor = step(state.nav.message_cursor, -delta, len);
        },
        Focus::Input => {},
    }
}

/// Moves the server cursor by `delta` while the server bar has focus.
pub fn cursor_step_horizontal(state: &mut AppState, delta: isize)
    requires
        nav_fits(*old(state)),
        -10 <= delta <= 10,
    ensures
        if old(state).nav.focus != Focus::ServerBar || old(state).guilds@.len() == 0 {
            *final(state) == *old(state)
        } else {
            *final(state) == (AppState { nav: Nav { guild_cursor: stepped(old(state).nav.guild_cursor as int, delta as int, old(state).guilds@.len() as int) as usize, ..old(state).nav }, ..*old(state) })
        },
{
    if state.nav.focus != Focus::ServerBar || state.guilds.len() == 0 {
        return;
    }
    state.nav.guild_cursor = step(state.nav.guild_cursor, delta, state.guilds.len());
}

/// The position reached from `i` after `k` moves of `delta` around a ring of `len`.
pub open spec fn ring_pos(i: int, delta: int, len: int, k: int) -> int {
    (i + k * delta) % len
}

/// The first move count from `k` on (up to `len`) that reaches an unread channel; `len + 1`
/// when none does.
pub open spec fn first_unread_from(chans: Seq<crate::state::ChannelSummary>, unread: Set<u64>, start: int, delta: int, k: int) -> int
    decreases chans.len() + 1 - k,
{
    if k > chans.len() || k < 1 {
        chans.len() + 1int
    } else if unread.contains(chans[ring_pos(start, delta, chans.len() as int, k)].id.0) {
        k
    } else {
        first_unread_from(chans, unread, start, delta, k + 1)
    }
}

/// The state after jumping to the next (or previous, for a negative `delta`) unread channel
/// of the list on screen, going around; the status says so when there is none.
pub open spec fn jumped_unread(before: AppState, after: AppState, delta: int) -> bool {
    let cs = shown_channels(before);
    let len = cs.len() as int;
    if len == 0 {
        after == before
    } else {
        let start = if before.nav.channel_cursor < len { before.nav.channel_cursor as int } else { len - 1 };
        let k = first_unread_from(cs, before.unread.unread@, start, delta, 1);
        if k <= len {
            after == (AppState {
                nav: Nav { channel_cursor: ring_pos(start, delta, len, k) as usize, focus: Focus::Channels, ..before.nav },
                ..before
            })
        } else {
            &&& after.nav == (Nav { status_line: after.nav.status_line, ..before.nav })
            &&& after.nav.status_line@ == "no unread channels"@
            &&& after == (AppState { nav: after.nav, ..before })
        }
    }
}

/// Selects the next unread channel in the direction of `delta` (see [`jumped_unread`]).
pub fn jump_unread(state: &mut AppState, delta: isize)
    requires
        delta == 1 || delta == -1,
        shown_channels(*old(state)).len() <= isize::MAX / 2,
    ensures
        jumped_unread(*old(state), *final(state), delta as int),
{
    let len = state.current_channels().len();
    if len == 0 {
        return;
    }
    let start = if state.nav.channel_cursor < len { state.nav.channel_cursor } else { len - 1 };
    let ghost cs = shown_channels(*state);
    let ghost un = state.unread.unread@;
    let mut k: usize = 1;
    let mut i: usize = start;
    assert(start as int == ring_pos(start as int, delta as int, len as int, 0)) by (nonlinear_arith)
        requires
            0 <= start < len,
    ;
    while k <= len
        invariant
            1 <= k <= len + 1,
            len == cs.len(),
            cs == shown_channels(*old(state)),
            un == old(state).unread.unread@,
            *state == *old(state),
            start < len,
            start == (if old(state).nav.channel_cursor < len { old(state).nav.channel_cursor } else { (len - 1) as usize }),
            len <= isize::MAX / 2,
            delta == 1 || delta == -1,
            i as int == ring_pos(start as int, delta as int, len as int, k - 1),
            first_unread_from(cs, un, start as int, delta as int, 1) == first_unread_from(cs, un, start as int, delta as int, k as int),
        decreases len + 1 - k,
    {
        let ni: usize = if delta > 0 {
            if i + 1 == len { 0 } else { i + 1 }
        } else {
            if i == 0 { len - 1 } else { i - 1 }
        };
        assert(ni as int == ring_pos(start as int, delta as int, len as int, k as int)) by (nonlinear_arith)
            requires
                i as int == (start + (k - 1) * delta) % (len as int),
                ni as int == (if delta > 0 { if i + 1 == len { 0 } else { i + 1 } } else { if i == 0 { len - 1 } else { i - 1 } }),
                delta == 1 || delta == -1,
                len > 0,
                0 <= i < len,
        ;
        let id = state.current_channels()[ni].id.0;
        assert(cs[ni as int].id.0 == id);
        if state.unread.unread.contains(&id) {
            assert(first_unread_from(cs, un, start as int, delta as int, k as int) == k as int);
            state.nav.channel_cursor = ni;
            state.nav.focus = Focus::Channels;
            assert(shown_channels(*old(state)).len() as int == len as int);
            assert(ring_pos(start as int, delta as int, len as int, k as int) as usize == ni);
            assert(*state == (AppState {
                nav: Nav { channel_cursor: ring_pos(start as int, delta as int, len as int, k as int) as usize, focus: Focus::Channels, ..old(state).nav },
                ..*old(state)
            }));
            return;
        }
        assert(first_unread_from(cs, un, start as int, delta as int, k as int) == first_unread_from(cs, un, start as int, delta as int, k + 1));
        i = ni;
        k += 1;
    }
    state.nav.status_line = owned("no unread channels");
}

/// The microphone and sound flags after a toggle: toggling the sound off also mutes,
/// turning the microphone on also turns the sound on.
pub open spec fn toggled(mute: bool, deaf: bool, deaf_key: bool) -> (bool, bool) {
    if deaf_key {
        if !deaf { (true, true) } else { (mute, false) }
    } else {
        if !mute { (true, deaf) } else { (false, false) }
    }
}

/// The status text for microphone and sound flags.
pub open spec fn voice_label(mute: bool, deaf: bool) -> Seq<char> {
    if deaf {
        "deafened (Shift+D / Shift+M)"@
    } else if mute {
        "muted (Shift+M)"@
    } else {
        "live mic"@
    }
}

/// The state and effects after toggling the microphone (or, with `deaf_key`, the sound):
/// the flags and their preferences change, the configuration is saved, the status tells the
/// new state, and the running call connection and the gateway are told.
pub open spec fn voice_toggled(before: AppState, after: AppState, deaf_key: bool, r: Seq<InputEffect>) -> bool {
    let (m, d) = toggled(before.voice.self_mute, before.voice.self_deaf, deaf_key);
    &&& after.voice == (Voice { self_mute: m, self_deaf: d, ..before.voice })
    &&& after.prefs == (UiPrefs { self_mute: m, self_deaf: d, ..before.prefs })
    &&& after.nav == (Nav { status_line: after.nav.status_line, ..before.nav })
    &&& after.nav.status_line@ == "voice: "@ + voice_label(m, d)
    &&& after == (AppState { voice: after.voice, prefs: after.prefs, nav: after.nav, ..before })
    &&& r == seq![InputEffect::SaveConfig { report: false }]
        + (if before.voice.voice_running { seq![InputEffect::VoiceMute(m), InputEffect::VoiceDeaf(d)] } else { Seq::empty() })
        + (if before.gateway_connected { seq![InputEffect::Gateway(GatewayAction::SetVoiceState { mute: m, deaf: d })] } else { Seq::empty() })
}

/// Toggles the microphone, or with `deaf_key` the sound (see [`voice_toggled`]).
pub fn toggle_voice_state(state: &mut AppState, deaf_key: bool) -> (r: Vec<InputEffect>)
    ensures
        voice_toggled(*old(state), *final(state), deaf_key, r@),
        final(state).voice.self_deaf ==> final(state).voice.self_mute,
{
    if deaf_key {
        state.voice.self_deaf = !state.voice.self_deaf;
        if state.voice.self_deaf {
            state.voice.self_mute = true;
        }
    } else {
        state.voice.self_mute = !state.voice.self_mute;
        if !state.voice.self_mute {
            state.voice.self_deaf = false;
        }
    }
    let m = state.voice.self_mute;
    let d = state.voice.self_deaf;
    state.prefs.self_mute = m;
    state.prefs.self_deaf = d;
    let mut out: Vec<InputEffect> = Vec::new();
    out.push(InputEffect::SaveConfig { report: false });
    let label = if d {
        "deafened (Shift+D / Shift+M)"
    } else if m {
        "muted (Shift+M)"
    } else {
        "live mic"
    };
    let mut st = owned("voice: ");
    push_str(&mut st, label);
    state.nav.status_line = st;
    let ghost o1 = out@;
    if state.voice.voice_running {
        out.push(InputEffect::VoiceMute(m));
        out.push(InputEffect::VoiceDeaf(d));
    }
    let ghost o2 = out@;
    if state.gateway_connected {
        out.push(InputEffect::Gateway(GatewayAction::SetVoiceState { mute: m, deaf: d }));
    }
    assert(o2 =~= o1 + (if old(state).voice.voice_running { seq![InputEffect::VoiceMute(m), InputEffect::VoiceDeaf(d)] } else { Seq::empty() }));
    assert(out@ =~= o2 + (if old(state).gateway_connected { seq![InputEffect::Gateway(GatewayAction::SetVoiceState { mute: m, deaf: d })] } else { Seq::empty() }));
    out
}

/// Deafening also mutes: after either toggle the sound is never off while the microphone is
/// live, deafening sets both flags, and the flags sent to the call and to the gateway are
/// the new ones.
pub proof fn law_deafened_implies_muted(before: AppState, after: AppState, deaf_key: bool, r: Seq<InputEffect>)
    requires
        voice_toggled(before, after, deaf_key, r),
    ensures
        after.voice.self_deaf ==> after.voice.self_mute,
        after.prefs.self_deaf ==> after.prefs.self_mute,
        deaf_key && !before.voice.self_deaf ==> after.voice.self_deaf && after.voice.self_mute,
        deaf_key && before.voice.self_deaf ==> !after.voice.self_deaf && after.voice.self_mute == before.voice.self_mute,
        !deaf_key ==> after.voice.self_mute == !before.voice.self_mute,
        !deaf_key && before.voice.self_mute ==> !after.voice.self_deaf,
        before.gateway_connected ==> r.last() == InputEffect::Gateway(GatewayAction::SetVoiceState {
            mute: after.voice.self_mute,
            deaf: after.voice.self_deaf,
        }),
{
}

/// Removes the last character of `s`, if any (`String::pop`).
pub fn pop_char(s: &mut String)
    ensures
        final(s)@ == if old(s)@.len() > 0 { old(s)@.drop_last() } else { old(s)@ },
{
    let cs = chars_of(s.as_str());
    if cs.len() > 0 {
        let kept = slice_vec(cs.as_slice(), 0, cs.len() - 1);
        assert(kept@ =~= cs@.drop_last());
        *s = string_from_chars(kept.as_slice());
    }
}

/// The entry-history position is within the history.
pub open spec fn history_ok(c: Compose) -> bool {
    c.history_pos matches Some(p) ==> p < c.input_history@.len()
}

/// The state after the Up key in the input line: the previous entry of the history is
/// recalled (the newest first, staying at the oldest).
pub open spec fn history_up(before: AppState, after: AppState) -> bool {
    let len = before.compose.input_history@.len();
    if len == 0 {
        after == before
    } else {
        let pos: int = match before.compose.history_pos {
            None => len - 1,
            Some(p) => if p == 0 { 0 } else { p - 1 },
        };
        &&& after.compose == (Compose { history_pos: Some(pos as usize), input: after.compose.input, ..before.compose })
        &&& after.compose.input@ == before.compose.input_history@[pos]@
        &&& after == (AppState { compose: after.compose, ..before })
    }
}

/// The state after the Down key in the input line: the next entry of the history is
/// recalled, and past the newest the line is emptied.
pub open spec fn history_down(before: AppState, after: AppState) -> bool {
    let len = before.compose.input_history@.len();
    match before.compose.history_pos {
        Some(p) => if p + 1 < len {
            &&& after.compose == (Compose { history_pos: Some((p + 1) as usize), input: after.compose.input, ..before.compose })
            &&& after.compose.input@ == before.compose.input_history@[p + 1]@
            &&& after == (AppState { compose: after.compose, ..before })
        } else {
            &&& after.compose == (Compose { history_pos: None, input: after.compose.input, ..before.compose })
            &&& after.compose.input@.len() == 0
            &&& after == (AppState { compose: after.compose, ..before })
        },
        None => after == before,
    }
}

/// Recalls the previous history entry (see [`history_up`]).
pub fn recall_previous(state: &mut AppState)
    requires
        history_ok(old(state).compose),
    ensures
        history_up(*old(state), *final(state)),
        history_ok(final(state).compose),
{
    let len = state.compose.input_history.len();
    if len > 0 {
        let pos = match state.compose.history_pos {
            None => len - 1,
            Some(p) => if p == 0 { 0 } else { p - 1 },
        };
        state.compose.history_pos = Some(pos);
        state.compose.input = state.compose.input_history[pos].clone();
    }
}

/// Recalls the next history entry (see [`history_down`]).
pub fn recall_next(state: &mut AppState)
    requires
        history_ok(old(state).compose),
    ensures
        history_down(*old(state), *final(state)),
        history_ok(final(state).compose),
{
    let len = state.compose.input_history.len();
    match state.compose.history_pos {
        Some(p) => {
            if p + 1 < len {
                state.compose.history_pos = Some(p + 1);
                state.compose.input = state.compose.input_history[p + 1].clone();
            } else {
                state.compose.history_pos = None;
                state.compose.input = String::new();
            }
        },
        None => {},
    }
}

/// The slash commands offered by completion, in order.
pub open spec fn slash_commands() -> Seq<Seq<char>> {
    seq!["/join "@, "/leave"@, "/dm "@, "/watch "@, "/watch off"@, "/unwatch"@, "/big"@, "/stream"@,
        "/unstream"@, "/mute"@, "/deafen"@, "/call"@, "/upload "@]
}

fn slash_command_list() -> (r: Vec<&'static str>)
    ensures
        r@.map_values(|c: &str| c@) == slash_commands(),
{
    let mut v: Vec<&'static str> = Vec::new();
    v.push("/join ");
    v.push("/leave");
    v.push("/dm ");
    v.push("/watch ");
    v.push("/watch off");
    v.push("/unwatch");
    v.push("/big");
    v.push("/stream");
    v.push("/unstream");
    v.push("/mute");
    v.push("/deafen");
    v.push("/call");
    v.push("/upload ");
    assert(v@.map_values(|c: &str| c@) =~= slash_commands());
    v
}

/// Holds for a command that extends `inp`.
pub open spec fn extends(inp: Seq<char>) -> spec_fn(Seq<char>) -> bool {
    |c: Seq<char>| seq_starts_with(c, inp) && c != inp
}

/// The completion of a partial slash command: the first command that extends it, for an
/// input of at least two characters that starts with `/` and holds no space.
pub open spec fn slash_completion(inp: Seq<char>) -> Option<Seq<char>> {
    if inp.len() >= 2 && inp[0] == '/' && !inp.contains(' ') {
        let p = first_pos(slash_commands(), extends(inp));
        if p >= 0 { Some(slash_commands()[p]) } else { None }
    } else {
        None
    }
}

fn slash_completion_of(inp: &str) -> (r: Option<&'static str>)
    ensures
        match r {
            Some(c) => slash_completion(inp@) == Some(c@),
            None => slash_completion(inp@) is None,
        },
{
    let cs = chars_of(inp);
    if cs.len() < 2 || cs[0] != '/' {
        return None;
    }
    let mut j: usize = 0;
    while j < cs.len()
        invariant
            0 <= j <= cs.len(),
            cs@ == inp@,
            forall|q: int| 0 <= q < j ==> cs@[q] != ' ',
        decreases cs.len() - j,
    {
        if cs[j] == ' ' {
            assert(inp@.contains(' ')) by {
                assert(inp@[j as int] == ' ');
            }
            return None;
        }
        j += 1;
    }
    assert(!inp@.contains(' '));
    let cmds = slash_command_list();
    let mut i: usize = 0;
    while i < cmds.len()
        invariant
            0 <= i <= cmds.len(),
            cmds@.map_values(|c: &str| c@) == slash_commands(),
            inp@.len() >= 2 && inp@[0] == '/' && !inp@.contains(' '),
            forall|q: int| 0 <= q < i ==> !(extends(inp@))(slash_commands()[q]),
        decreases cmds.len() - i,
    {
        let c = cmds[i];
        assert(c@ == slash_commands()[i as int]);
        if starts_with(c, inp) && !crate::state::str_eq(c, inp) {
            proof {
                lemma_first_pos_at(slash_commands(), extends(inp@), i as int);
            }
            return Some(c);
        }
        i += 1;
    }
    proof {
        lemma_first_pos(slash_commands(), extends(inp@));
    }
    None
}

/// The position just after the last whitespace character of `s` (0 when there is none):
/// where the word being typed starts.
pub open spec fn word_start(s: Seq<char>) -> int
    decreases s.len(),
{
    if s.len() == 0 {
        0
    } else if is_ws(s.last()) {
        s.len() as int
    } else {
        word_start(s.drop_last())
    }
}

proof fn lemma_word_start(s: Seq<char>)
    ensures
        0 <= word_start(s) <= s.len(),
        forall|i: int| word_start(s) <= i < s.len() ==> !is_ws(s[i]),
    decreases s.len(),
{
    if s.len() > 0 && !is_ws(s.last()) {
        lemma_word_start(s.drop_last());
        assert(forall|i: int| 0 <= i < s.len() - 1 ==> s[i] == s.drop_last()[i]);
    }
}

/// Holds for a name whose lower-case form starts with `p`.
pub open spec fn starts_lower(p: Seq<char>) -> spec_fn(Seq<char>) -> bool {
    |n: Seq<char>| seq_starts_with(unicode_lowercase(n), p)
}

/// Holds for a name whose lower-case form contains `p`.
pub open spec fn contains_lower(p: Seq<char>) -> spec_fn(Seq<char>) -> bool {
    |n: Seq<char>| seq_contains(unicode_lowercase(n), p)
}

/// The first candidate whose lower-case form starts with `p`, else the first that contains
/// it.
pub open spec fn pick(cands: Seq<Seq<char>>, p: Seq<char>) -> Option<Seq<char>> {
    let a = first_pos(cands, starts_lower(p));
    let b = first_pos(cands, contains_lower(p));
    if a >= 0 { Some(cands[a]) } else if b >= 0 { Some(cands[b]) } else { None }
}

/// The names of the text channels on screen, in order.
pub open spec fn textual_names(cs: Seq<ChannelSummary>) -> Seq<Seq<char>>
    decreases cs.len(),
{
    if cs.len() == 0 {
        Seq::empty()
    } else {
        let r = textual_names(cs.drop_last());
        if textual_kind(cs.last().kind) { r.push(cs.last().name@) } else { r }
    }
}

/// The state and result after completing the input line (Tab): a partial slash command is
/// completed; else a word `@x` or `#x` of at least two characters is replaced by the first
/// user name (users in the directory's order `ks`) or text channel name that matches `x`
/// (see [`pick`]), followed by a space.
pub open spec fn completed(before: AppState, after: AppState, ks: Seq<u64>, r: bool) -> bool {
    let inp = before.compose.input@;
    let dir = before.people.user_dir@;
    match slash_completion(inp) {
        Some(c) => {
            &&& r
            &&& after.compose.input@ == c
            &&& after == (AppState { compose: Compose { input: after.compose.input, ..before.compose }, ..before })
        },
        None => {
            let start = word_start(inp);
            let token = inp.skip(start);
            if token.len() < 2 || (token[0] != '@' && token[0] != '#') {
                !r && after == before
            } else {
                let cands = if token[0] == '@' {
                    ks.map_values(|k: u64| dir[k]@)
                } else {
                    textual_names(shown_channels(before))
                };
                match pick(cands, unicode_lowercase(token.skip(1))) {
                    Some(n) => {
                        &&& r
                        &&& after.compose.input@ == inp.take(start) + seq![token[0]] + n + seq![' ']
                        &&& after == (AppState { compose: Compose { input: after.compose.input, ..before.compose }, ..before })
                    },
                    None => !r && after == before,
                }
            }
        },
    }
}

fn pick_name(cands: &Vec<String>, p: &str) -> (r: Option<String>)
    ensures
        match r {
            Some(n) => pick(cands@.map_values(|c: String| c@), p@) == Some(n@),
            None => pick(cands@.map_values(|c: String| c@), p@) is None,
        },
{
    let ghost cv = cands@.map_values(|c: String| c@);
    let mut i: usize = 0;
    while i < cands.len()
        invariant
            0 <= i <= cands.len(),
            cv == cands@.map_values(|c: String| c@),
            forall|q: int| 0 <= q < i ==> !(starts_lower(p@))(cv[q]),
        decreases cands.len() - i,
    {
        let low = to_lowercase(cands[i].as_str());
        if starts_with(low.as_str(), p) {
            proof {
                lemma_first_pos_at(cv, starts_lower(p@), i as int);
            }
            return Some(cands[i].clone());
        }
        i += 1;
    }
    proof {
        lemma_first_pos(cv, starts_lower(p@));
    }
    let mut j: usize = 0;
    while j < cands.len()
        invariant
            0 <= j <= cands.len(),
            cv == cands@.map_values(|c: String| c@),
            first_pos(cv, starts_lower(p@)) == -1,
            forall|q: int| 0 <= q < j ==> !(contains_lower(p@))(cv[q]),
        decreases cands.len() - j,
    {
        let low = to_lowercase(cands[j].as_str());
        if contains(low.as_str(), p) {
            proof {
                lemma_first_pos_at(cv, contains_lower(p@), j as int);
            }
            return Some(cands[j].clone());
        }
        j += 1;
    }
    proof {
        lemma_first_pos(cv, contains_lower(p@));
    }
    None
}

/// The names of the directory in the order of `ks`.
fn dir_names(state: &AppState, ks: &Vec<u64>) -> (r: Vec<String>)
    requires
        forall|i: int| 0 <= i < ks@.len() ==> state.people.user_dir@.contains_key(#[trigger] ks@[i]),
    ensures
        r@.map_values(|c: String| c@) == ks@.map_values(|k: u64| state.people.user_dir@[k]@),
{
    let mut out: Vec<String> = Vec::new();
    let mut i: usize = 0;
    while i < ks.len()
        invariant
            0 <= i <= ks.len(),
            forall|q: int| 0 <= q < ks@.len() ==> state.people.user_dir@.contains_key(#[trigger] ks@[q]),
            out@.map_values(|c: String| c@) == ks@.take(i as int).map_values(|k: u64| state.people.user_dir@[k]@),
        decreases ks.len() - i,
    {
        let k = ks[i];
        assert(state.people.user_dir@.contains_key(ks@[i as int]));
        let n = match state.people.user_dir.get(&k) {
            Some(n) => n.clone(),
            None => String::new(),
        };
        let ghost before = out@;
        out.push(n);
        assert(out@.map_values(|c: String| c@) =~= before.map_values(|c: String| c@).push(state.people.user_dir@[k]@));
        assert(ks@.take(i + 1).map_values(|k: u64| state.people.user_dir@[k]@) =~= ks@.take(i as int).map_values(|k: u64| state.people.user_dir@[k]@).push(state.people.user_dir@[k]@));
        i += 1;
    }
    assert(ks@.take(ks.len() as int) =~= ks@);
    out
}

/// The names of the text channels of `cs`.
fn textual_channel_names(cs: &[ChannelSummary]) -> (r: Vec<String>)
    ensures
        r@.map_values(|c: String| c@) == textual_names(cs@),
{
    let mut out: Vec<String> = Vec::new();
    let mut i: usize = 0;
    while i < cs.len()
        invariant
            0 <= i <= cs.len(),
            out@.map_values(|c: String| c@) == textual_names(cs@.take(i as int)),
        decreases cs.len() - i,
    {
        assert(cs@.take(i + 1).drop_last() =~= cs@.take(i as int));
        if cs[i].is_textual() {
            let ghost before = out@;
            out.push(cs[i].name.clone());
            assert(out@.map_values(|c: String| c@) =~= before.map_values(|c: String| c@).push(cs@[i as int].name@));
        }
        i += 1;
    }
    assert(cs@.take(cs.len() as int) =~= cs@);
    out
}

/// Completes the input line (see [`completed`]); gives whether it changed.
pub fn try_autocomplete(state: &mut AppState) -> (r: bool)
    ensures
        exists|ks: Seq<u64>| #![trigger ks.to_set()] ks.to_set() == old(state).people.user_dir@.dom() && ks.no_duplicates()
            && completed(*old(state), *final(state), ks, r),
{
    let ks = keys_of(&state.people.user_dir);
    let ghost kss = ks@;
    match slash_completion_of(state.compose.input.as_str()) {
        Some(c) => {
            state.compose.input = owned(c);
            assert(completed(*old(state), *state, kss, true));
            return true;
        },
        None => {},
    }
    let cs = chars_of(state.compose.input.as_str());
    let mut start = cs.len();
    while start > 0 && !is_whitespace(cs[start - 1])
        invariant
            start <= cs.len(),
            cs@ == old(state).compose.input@,
            word_start(cs@.take(start as int)) == word_start(cs@),
        decreases start,
    {
        assert(cs@.take(start - 1) =~= cs@.take(start as int).drop_last());
        start -= 1;
    }
    proof {
        assert(cs@.take(cs.len() as int) =~= cs@);
        if start > 0 {
            assert(cs@.take(start as int).last() == cs@[start - 1]);
        }
    }
    assert(word_start(cs@) == start as int);
    let ghost token = cs@.skip(start as int);
    if cs.len() - start < 2 || (cs[start] != '@' && cs[start] != '#') {
        assert(completed(*old(state), *state, kss, false));
        return false;
    }
    let sigil = cs[start];
    let rest = slice_vec(cs.as_slice(), start + 1, cs.len());
    assert(rest@ =~= token.skip(1));
    let prefix = to_lowercase(string_from_chars(rest.as_slice()).as_str());
    let names = if sigil == '@' {
        proof {
            assert forall|i: int| 0 <= i < kss.len() implies state.people.user_dir@.contains_key(#[trigger] kss[i]) by {
                assert(kss.to_set().contains(kss[i]));
            }
        }
        dir_names(state, &ks)
    } else {
        textual_channel_names(state.current_channels())
    };
    match pick_name(&names, prefix.as_str()) {
        Some(n) => {
            let head = slice_vec(cs.as_slice(), 0, start);
            let mut out = string_from_chars(head.as_slice());
            push_char(&mut out, sigil);
            push_str(&mut out, n.as_str());
            push_char(&mut out, ' ');
            assert(head@ =~= cs@.take(start as int));
            assert(out@ =~= old(state).compose.input@.take(start as int) + seq![token[0]] + n@ + seq![' ']);
            assert(token[0] == sigil);
            assert(token.len() >= 2);
            let ghost cands = if token[0] == '@' {
                kss.map_values(|k: u64| old(state).people.user_dir@[k]@)
            } else {
                textual_names(shown_channels(*old(state)))
            };
            assert(names@.map_values(|c: String| c@) == cands);
            assert(pick(cands, unicode_lowercase(token.skip(1))) == Some(n@));
            state.compose.input = out;
            assert(completed(*old(state), *state, kss, true));
            true
        },
        None => {
            assert(completed(*old(state), *state, kss, false));
            false
        },
    }
}

/// The arithmetic of adjusting any settings row by one fits.
pub open spec fn adjust_fits(s: AppState) -> bool {
    &&& i64::MIN < (s.prefs.toast_secs as i64) && (s.prefs.toast_secs as i64) < i64::MAX
    &&& i64::MIN + 50 <= (s.edit_cfg.message_buffer_size as i64) && (s.edit_cfg.message_buffer_size as i64) <= i64::MAX - 50
}

/// The settings screen is in a consistent state: its cursor is on a row.
pub open spec fn settings_ok(s: AppState) -> bool {
    s.panels.settings_cursor < 16
}

/// The state after a key on the settings screen: while a text row is edited, characters
/// and Backspace edit the text and Enter stores it; otherwise Down/`j` and Up/`k` move the
/// cursor, Left/`h` and Right/`l`/Space adjust the row, and Enter edits a text row (empty
/// for the default) or adjusts another row.
pub open spec fn settings_key_rel(before: AppState, after: AppState, k: KeyPress) -> bool {
    let i = before.panels.settings_cursor;
    let p = before.panels;
    if p.settings_editing {
        match k.code {
            Key::Char(c) => {
                &&& after.panels == (Panels { settings_buf: after.panels.settings_buf, ..p })
                &&& after.panels.settings_buf@ == p.settings_buf@.push(c)
                &&& after == (AppState { panels: after.panels, ..before })
            },
            Key::Backspace => {
                &&& after.panels == (Panels { settings_buf: after.panels.settings_buf, ..p })
                &&& after.panels.settings_buf@ == (if p.settings_buf@.len() > 0 { p.settings_buf@.drop_last() } else { p.settings_buf@ })
                &&& after == (AppState { panels: after.panels, ..before })
            },
            Key::Enter => {
                &&& after.panels == (Panels { settings_buf: after.panels.settings_buf, settings_editing: false, ..p })
                &&& after.panels.settings_buf@.len() == 0
                &&& text_set_rel(before, AppState { panels: p, ..after }, i, p.settings_buf)
            },
            _ => after == before,
        }
    } else {
        match k.code {
            Key::Down | Key::Char('j') => after == (AppState { panels: Panels { settings_cursor: if i + 1 < 15 { (i + 1) as usize } else { 15 }, ..p }, ..before }),
            Key::Up | Key::Char('k') => after == (AppState { panels: Panels { settings_cursor: if i > 0 { (i - 1) as usize } else { 0 }, ..p }, ..before }),
            Key::Left | Key::Char('h') => {
                &&& (after.prefs, after.edit_cfg) == adjusted(before.prefs, before.edit_cfg, i as int, -1)
                &&& after == (AppState { prefs: after.prefs, edit_cfg: after.edit_cfg, ..before })
            },
            Key::Right | Key::Char('l') | Key::Char(' ') => {
                &&& (after.prefs, after.edit_cfg) == adjusted(before.prefs, before.edit_cfg, i as int, 1)
                &&& after == (AppState { prefs: after.prefs, edit_cfg: after.edit_cfg, ..before })
            },
            Key::Enter => if setting_kind_of(i as int) == SettingKind::Text {
                let t = setting_text(before.prefs, before.edit_cfg, i as int);
                &&& after.panels == (Panels { settings_editing: true, settings_buf: after.panels.settings_buf, ..p })
                &&& after.panels.settings_buf@ == (if t == "(default)"@ { Seq::empty() } else { t })
                &&& after == (AppState { panels: after.panels, ..before })
            } else {
                &&& (after.prefs, after.edit_cfg) == adjusted(before.prefs, before.edit_cfg, i as int, 1)
                &&& after == (AppState { prefs: after.prefs, edit_cfg: after.edit_cfg, ..before })
            },
            _ => after == before,
        }
    }
}

/// Handles a key on the settings screen (see [`settings_key_rel`]).
pub fn handle_settings_key(k: KeyPress, state: &mut AppState)
    requires
        settings_ok(*old(state)),
        adjust_fits(*old(state)),
    ensures
        settings_key_rel(*old(state), *final(state), k),
        settings_ok(*final(state)),
{
    let i = state.panels.settings_cursor;
    if state.panels.settings_editing {
        match k.code {
            Key::Char(c) => push_char(&mut state.panels.settings_buf, c),
            Key::Backspace => pop_char(&mut state.panels.settings_buf),
            Key::Enter => {
                let mut buf = String::new();
                std::mem::swap(&mut buf, &mut state.panels.settings_buf);
                state.setting_set_text(i, buf);
                state.panels.settings_editing = false;
            },
            _ => {},
        }
        return;
    }
    match k.code {
        Key::Down | Key::Char('j') => {
            state.panels.settings_cursor = if i + 1 < 15 { i + 1 } else { 15 };
        },
        Key::Up | Key::Char('k') => {
            state.panels.settings_cursor = if i > 0 { i - 1 } else { 0 };
        },
        Key::Left | Key::Char('h') => {
            state.setting_adjust(i, -1);
        },
        Key::Right | Key::Char('l') | Key::Char(' ') => {
            state.setting_adjust(i, 1);
        },
        Key::Enter => {
            if setting_kind(i) == SettingKind::Text {
                state.panels.settings_editing = true;
                let t = state.setting_display(i);
                proof {
                    reveal_strlit("(default)");
                }
                state.panels.settings_buf = if crate::state::str_eq(t.as_str(), "(default)") { String::new() } else { t };
            } else {
                state.setting_adjust(i, 1);
            }
        },
        _ => {},
    }
}

/// `after` is `before` with the quick switcher closed and emptied.
pub open spec fn search_cleared(before: AppState, after: AppState) -> bool {
    &&& !after.search.search_open
    &&& after.search.search_input@.len() == 0
    &&& after.search.search_cursor == 0
    &&& after.search.search_results@.len() == 0
    &&& after == (AppState { search: after.search, ..before })
}

/// The guild `g` chosen for a quick-switcher entry of channel `ch`: the entry's guild, else
/// some guild that lists the channel, else the DM pseudo-guild.
pub open spec fn guild_for_hit(before: AppState, hit_guild: Option<SnowflakeID>, ch: u64, g: u64) -> bool {
    match hit_guild {
        Some(x) => g == x.0,
        None => guild_lists(before.channels_by_guild@, g, ch)
            || (g == 0 && forall|g2: u64| !guild_lists(before.channels_by_guild@, g2, ch)),
    }
}

/// The state and effects after Enter in the quick switcher: a channel entry opens the
/// channel (in its guild), marks it read and loads its history; a guild entry selects the
/// guild; the switcher closes in every case.
pub open spec fn search_enter_rel(before: AppState, after: AppState, r: Seq<InputEffect>) -> bool {
    let c = before.search.search_cursor;
    if c < before.search.search_results@.len() {
        let hit = before.search.search_results@[c as int];
        match hit.channel {
            Some(ch) => {
                let g = (after.nav.current_guild->0).0;
                let mid = AppState {
                    nav: Nav {
                        current_guild: after.nav.current_guild,
                        current_channel: Some(ch),
                        message_scroll: 0,
                        focus: Focus::Input,
                        ..before.nav
                    },
                    ..before
                };
                &&& after.nav.current_guild is Some
                &&& guild_for_hit(before, hit.guild, ch.0, g)
                &&& read_rel(mid, AppState { search: before.search, ..after }, ch)
                &&& search_cleared(AppState { search: before.search, ..after }, after)
                &&& r == seq![InputEffect::Backfill { channel: ch }]
            },
            None => match hit.guild {
                Some(g) => {
                    let mid = AppState {
                        nav: Nav { current_guild: Some(g), current_channel: None, channel_cursor: 0, focus: Focus::Channels, ..before.nav },
                        ..before
                    };
                    search_cleared(mid, after) && r.len() == 0
                },
                None => search_cleared(before, after) && r.len() == 0,
            },
        }
    } else {
        search_cleared(before, after) && r.len() == 0
    }
}

/// The state and effects after a key in the quick switcher: Down/Tab/Ctrl+N and
/// Up/BackTab/Ctrl+P move the cursor, Backspace and characters edit the query and
/// recompute the results, Enter opens the entry (see [`search_enter_rel`]).
pub open spec fn search_key_rel(before: AppState, after: AppState, k: KeyPress, r: Seq<InputEffect>) -> bool {
    let n = before.search.search_results@.len();
    let c = before.search.search_cursor;
    let down = AppState {
        search: Search { search_cursor: if n > 0 { if c + 1 < n - 1 { (c + 1) as usize } else { (n - 1) as usize } } else { c }, ..before.search },
        ..before
    };
    let up = AppState { search: Search { search_cursor: if c > 0 { (c - 1) as usize } else { 0 }, ..before.search }, ..before };
    match k.code {
        Key::Down | Key::Tab => after == down && r.len() == 0,
        Key::Up | Key::BackTab => after == up && r.len() == 0,
        Key::Char(ch) if ch == 'n' && k.ctrl => after == down && r.len() == 0,
        Key::Char(ch) if ch == 'p' && k.ctrl => after == up && r.len() == 0,
        Key::Backspace => {
            let q = if before.search.search_input@.len() > 0 { before.search.search_input@.drop_last() } else { before.search.search_input@ };
            &&& after.search.search_input@ == q
            &&& search_rebuilt(AppState { search: Search { search_input: after.search.search_input, ..before.search }, ..before }, after)
            &&& r.len() == 0
        },
        Key::Char(ch) if !k.ctrl => {
            &&& after.search.search_input@ == before.search.search_input@.push(ch)
            &&& search_rebuilt(AppState { search: Search { search_input: after.search.search_input, ..before.search }, ..before }, after)
            &&& r.len() == 0
        },
        Key::Enter => search_enter_rel(before, after, r),
        _ => after == before && r.len() == 0,
    }
}

/// Clears the quick switcher.
fn clear_search_rel(state: &mut AppState)
    ensures
        search_cleared(*old(state), *final(state)),
{
    state.clear_search();
}

/// Keys that move the quick-switcher cursor down: Down, Tab and Ctrl+N.
pub open spec fn search_down_key(k: KeyPress) -> bool {
    match k.code {
        Key::Down | Key::Tab => true,
        Key::Char(ch) => ch == 'n' && k.ctrl,
        _ => false,
    }
}

/// Handles a key in the quick switcher (see [`search_key_rel`]). Moving down from a cursor
/// at the largest `usize` over a list of results overflows.
pub fn handle_search_key(k: KeyPress, state: &mut AppState) -> (r: Vec<InputEffect>)
    requires
        search_down_key(k) && old(state).search.search_results@.len() > 0 ==> old(state).search.search_cursor < usize::MAX,
    ensures
        search_key_rel(*old(state), *final(state), k, r@),
{
    let mut out: Vec<InputEffect> = Vec::new();
    let n = state.search.search_results.len();
    let c = state.search.search_cursor;
    let is_down = match k.code {
        Key::Down | Key::Tab => true,
        Key::Char(ch) => ch == 'n' && k.ctrl,
        _ => false,
    };
    let is_up = match k.code {
        Key::Up | Key::BackTab => true,
        Key::Char(ch) => ch == 'p' && k.ctrl,
        _ => false,
    };
    if is_down {
        if n > 0 {
            state.search.search_cursor = if c + 1 < n - 1 { c + 1 } else { n - 1 };
        }
        return out;
    }
    if is_up {
        state.search.search_cursor = if c > 0 { c - 1 } else { 0 };
        return out;
    }
    match k.code {
        Key::Backspace => {
            pop_char(&mut state.search.search_input);
            state.rebuild_search();
        },
        Key::Char(ch) => {
            if !k.ctrl {
                push_char(&mut state.search.search_input, ch);
                state.rebuild_search();
            }
        },
        Key::Enter => {
            if c < n {
                let hit_channel = state.search.search_results[c].channel;
                let hit_guild = state.search.search_results[c].guild;
                match hit_channel {
                    Some(ch) => {
                        let guild = match hit_guild {
                            Some(g) => g,
                            None => match state.find_guild_for_channel(ch) {
                                Some(g) => g,
                                None => SnowflakeID(0),
                            },
                        };
                        state.nav.current_guild = Some(guild);
                        state.nav.current_channel = Some(ch);
                        state.nav.message_scroll = 0;
                        state.nav.focus = Focus::Input;
                        state.mark_read(ch);
                        clear_search_rel(state);
                        out.push(InputEffect::Backfill { channel: ch });
                    },
                    None => {
                        match hit_guild {
                            Some(g) => {
                                state.nav.current_guild = Some(g);
                                state.nav.current_channel = None;
                                state.nav.channel_cursor = 0;
                                state.nav.focus = Focus::Channels;
                                clear_search_rel(state);
                            },
                            None => {
                                clear_search_rel(state);
                            },
                        }
                    },
                }
            } else {
                clear_search_rel(state);
            }
        },
        _ => {},
    }
    out
}

/// `after` is `before` with the status line set to `text`.
pub open spec fn status_set(before: AppState, after: AppState, text: Seq<char>) -> bool {
    &&& after.nav == (Nav { status_line: after.nav.status_line, ..before.nav })
    &&& after.nav.status_line@ == text
    &&& after == (AppState { nav: after.nav, ..before })
}

fn set_status_text(state: &mut AppState, text: String)
    ensures
        status_set(*old(state), *final(state), text@),
{
    state.set_status(text);
}

/// The message under the cursor: the cursor position, or the last message when the
/// cursor is past the end.
pub open spec fn selected_index(len: int, cursor: int) -> int {
    if cursor < len { cursor } else if len > 0 { len - 1 } else { 0 }
}

/// The state and effects after Enter outside the input line: on the server bar the
/// guild under the cursor is selected; on the channel list a text channel is opened, marked
/// read and its history loaded (another kind of channel is refused on the status line); on
/// the message pane the input line takes focus.
pub open spec fn opened_rel(before: AppState, after: AppState, r: Seq<InputEffect>) -> bool {
    match before.nav.focus {
        Focus::ServerBar => {
            let i = before.nav.guild_cursor;
            if i < before.guilds@.len() {
                let g = before.guilds@[i as int];
                let mid = AppState {
                    nav: Nav {
                        current_guild: Some(g.id),
                        channel_cursor: 0,
                        current_channel: None,
                        message_scroll: 0,
                        focus: Focus::Channels,
                        ..before.nav
                    },
                    ..before
                };
                status_set(mid, after, "guild → "@ + g.name@) && r.len() == 0
            } else {
                after == before && r.len() == 0
            }
        },
        Focus::Channels => {
            let cs = shown_channels(before);
            let i = before.nav.channel_cursor;
            if i < cs.len() {
                let c = cs[i as int];
                if !textual_kind(c.kind) {
                    status_set(before, after, c.name@ + " is not a text channel"@) && r.len() == 0
                } else {
                    let mid = AppState {
                        nav: Nav { current_channel: Some(c.id), message_scroll: 0, focus: Focus::Input, ..before.nav },
                        ..before
                    };
                    &&& after.nav.status_line@ == "loading #"@ + c.name@
                    &&& read_rel(AppState { nav: Nav { status_line: after.nav.status_line, ..mid.nav }, ..mid }, after, c.id)
                    &&& r == seq![InputEffect::Backfill { channel: c.id }]
                }
            } else {
                after == before && r.len() == 0
            }
        },
        Focus::Messages => after == (AppState { nav: Nav { focus: Focus::Input, ..before.nav }, ..before }) && r.len() == 0,
        Focus::Input => after == before && r.len() == 0,
    }
}

/// Opens what is under the cursor (see [`opened_rel`]).
pub fn open_selection(state: &mut AppState) -> (r: Vec<InputEffect>)
    ensures
        opened_rel(*old(state), *final(state), r@),
{
    let mut out: Vec<InputEffect> = Vec::new();
    match state.nav.focus {
        Focus::ServerBar => {
            let i = state.nav.guild_cursor;
            if i < state.guilds.len() {
                let id = state.guilds[i].id;
                let mut st = owned("guild → ");
                push_str(&mut st, state.guilds[i].name.as_str());
                state.nav.current_guild = Some(id);
                state.nav.channel_cursor = 0;
                state.nav.current_channel = None;
                state.nav.message_scroll = 0;
                state.nav.focus = Focus::Channels;
                set_status_text(state, st);
            }
        },
        Focus::Channels => {
            let i = state.nav.channel_cursor;
            let cs = state.current_channels();
            if i < cs.len() {
                let id = cs[i].id;
                let textual = cs[i].is_textual();
                let name = cs[i].name.clone();
                if !textual {
                    let mut st = name;
                    push_str(&mut st, " is not a text channel");
                    set_status_text(state, st);
                } else {
                    state.nav.current_channel = Some(id);
                    state.nav.message_scroll = 0;
                    state.nav.focus = Focus::Input;
                    let mut st = owned("loading #");
                    push_str(&mut st, name.as_str());
                    state.nav.status_line = st;
                    state.mark_read(id);
                    out.push(InputEffect::Backfill { channel: id });
                }
            }
        },
        Focus::Messages => {
            state.nav.focus = Focus::Input;
        },
        Focus::Input => {},
    }
    out
}

/// The state after `e` in the message pane: one's own message under the cursor is loaded
/// into the input line for editing; another's is refused on the status line.
pub open spec fn edit_started(before: AppState, after: AppState) -> bool {
    let ms = shown_messages(before);
    if before.nav.focus != Focus::Messages || ms.len() == 0 {
        after == before
    } else {
        let m = ms[selected_index(ms.len() as int, before.nav.message_cursor as int)];
        if !m.is_self {
            status_set(before, after, "can only edit your own messages"@)
        } else {
            &&& after.compose == (Compose { editing_message: Some(m.id), input: after.compose.input, ..before.compose })
            &&& after.compose.input@ == m.content@
            &&& status_set(AppState { compose: after.compose, nav: Nav { focus: Focus::Input, ..before.nav }, ..before }, after, "editing — Enter to save, Esc to cancel"@)
        }
    }
}

/// Starts editing the message under the cursor (see [`edit_started`]).
pub fn start_edit(state: &mut AppState)
    ensures
        edit_started(*old(state), *final(state)),
{
    if state.nav.focus != Focus::Messages {
        return;
    }
    let ms = state.current_messages();
    let len = ms.len();
    if len == 0 {
        return;
    }
    let idx = if state.nav.message_cursor < len { state.nav.message_cursor } else { len - 1 };
    if !ms[idx].is_self {
        set_status_text(state, owned("can only edit your own messages"));
        return;
    }
    let id = ms[idx].id;
    let content = ms[idx].content.clone();
    state.compose.editing_message = Some(id);
    state.compose.input = content;
    state.nav.focus = Focus::Input;
    set_status_text(state, owned("editing — Enter to save, Esc to cancel"));
}

/// The state after `r` in the message pane: the message under the cursor becomes the one
/// answered and the input line takes focus.
pub open spec fn reply_started(before: AppState, after: AppState) -> bool {
    let ms = shown_messages(before);
    if ms.len() == 0 {
        after == before
    } else {
        let m = ms[selected_index(ms.len() as int, before.nav.message_cursor as int)];
        status_set(
            AppState {
                compose: Compose { replying_to: Some(m.id), ..before.compose },
                nav: Nav { focus: Focus::Input, ..before.nav },
                ..before
            },
            after,
            "replying to "@ + m.author@,
        )
    }
}

/// Answers the message under the cursor (see [`reply_started`]).
pub fn start_reply(state: &mut AppState)
    ensures
        reply_started(*old(state), *final(state)),
{
    let ms = state.current_messages();
    let len = ms.len();
    if len == 0 {
        return;
    }
    let idx = if state.nav.message_cursor < len { state.nav.message_cursor } else { len - 1 };
    let id = ms[idx].id;
    let mut st = owned("replying to ");
    push_str(&mut st, ms[idx].author.as_str());
    state.compose.replying_to = Some(id);
    state.nav.focus = Focus::Input;
    set_status_text(state, st);
}

/// The state after `i` in the message pane: the first image of the message under the cursor
/// is previewed when it has been fetched; otherwise the status says why not.
pub open spec fn preview_opened(before: AppState, after: AppState) -> bool {
    let ms = shown_messages(before);
    let target: Option<SnowflakeID> = if ms.len() == 0 {
        None
    } else {
        let m = ms[selected_index(ms.len() as int, before.nav.message_cursor as int)];
        if m.attachment_images@.len() > 0 { Some(m.attachment_images@[0].0) } else { None }
    };
    match target {
        Some(id) => if before.panels.loaded_images@.contains(id.0) {
            after == (AppState { panels: Panels { preview_image: Some(id), ..before.panels }, ..before })
        } else {
            status_set(before, after, "image not loaded yet"@)
        },
        None => status_set(before, after, "no image on this message"@),
    }
}

/// Previews the image of the message under the cursor (see [`preview_opened`]).
pub fn open_preview(state: &mut AppState)
    ensures
        preview_opened(*old(state), *final(state)),
{
    let ms = state.current_messages();
    let len = ms.len();
    let target: Option<SnowflakeID> = if len == 0 {
        None
    } else {
        let idx = if state.nav.message_cursor < len { state.nav.message_cursor } else { len - 1 };
        if ms[idx].attachment_images.len() > 0 { Some(ms[idx].attachment_images[0].0) } else { None }
    };
    match target {
        Some(id) => {
            if state.panels.loaded_images.contains(&id.0) {
                state.panels.preview_image = Some(id);
            } else {
                set_status_text(state, owned("image not loaded yet"));
            }
        },
        None => set_status_text(state, owned("no image on this message")),
    }
}

/// The state and effects after `d` in the message pane: deleting one's own message under
/// the cursor is requested; another's is refused on the status line.
pub open spec fn delete_requested(before: AppState, after: AppState, r: Seq<InputEffect>) -> bool {
    let ms = shown_messages(before);
    if ms.len() == 0 {
        after == before && r.len() == 0
    } else {
        let m = ms[selected_index(ms.len() as int, before.nav.message_cursor as int)];
        if !m.is_self {
            status_set(before, after, "can only delete your own messages"@) && r.len() == 0
        } else {
            after == before && r == seq![InputEffect::DeleteMessage { channel: m.channel_id, message: m.id }]
        }
    }
}

/// Requests deleting the message under the cursor (see [`delete_requested`]).
pub fn delete_selected(state: &mut AppState) -> (r: Vec<InputEffect>)
    ensures
        delete_requested(*old(state), *final(state), r@),
{
    let mut out: Vec<InputEffect> = Vec::new();
    let ms = state.current_messages();
    let len = ms.len();
    if len == 0 {
        return out;
    }
    let idx = if state.nav.message_cursor < len { state.nav.message_cursor } else { len - 1 };
    if !ms[idx].is_self {
        set_status_text(state, owned("can only delete your own messages"));
        return out;
    }
    out.push(InputEffect::DeleteMessage { channel: ms[idx].channel_id, message: ms[idx].id });
    out
}

/// The state after a delete request's reply: on success the message leaves its channel's
/// list and the status says `deleted`; on failure the status gives the error.
pub fn delete_done(state: &mut AppState, channel: SnowflakeID, message: SnowflakeID, outcome: Result<(), String>)
    ensures
        match outcome {
            Ok(()) => {
                &&& (old(state).messages@.contains_key(channel.0) ==> {
                    &&& final(state).messages@ == old(state).messages@.insert(channel.0, final(state).messages@[channel.0])
                    &&& final(state).messages@[channel.0]@ == old(state).messages@[channel.0]@.filter(crate::events::not_msg(message.0))
                })
                &&& (!old(state).messages@.contains_key(channel.0) ==> final(state).messages@ == old(state).messages@)
                &&& status_set(AppState { messages: final(state).messages, ..*old(state) }, *final(state), "deleted"@)
            },
            Err(e) => status_set(*old(state), *final(state), "delete failed: "@ + e@),
        },
{
    match outcome {
        Ok(()) => {
            let d = crate::receive_struct::message_delete::MessageDeleteData { id: message, channel_id: channel, guild_id: None };
            crate::events::apply_message_delete(&d, state);
            set_status_text(state, owned("deleted"));
        },
        Err(e) => {
            let mut st = owned("delete failed: ");
            push_str(&mut st, e.as_str());
            set_status_text(state, st);
        },
    }
}

/// The state and effects after `v` on the channel list: joining the voice or stage channel
/// under the cursor is requested, when the gateway runs.
pub open spec fn voice_join_requested(before: AppState, after: AppState, r: Seq<InputEffect>) -> bool {
    let cs = shown_channels(before);
    let i = before.nav.channel_cursor;
    if before.nav.current_guild is Some && i < cs.len() && (cs[i as int].kind == 2 || cs[i as int].kind == 13) && before.gateway_connected {
        &&& r == seq![InputEffect::Gateway(GatewayAction::JoinVoice { guild: before.nav.current_guild->0, channel: cs[i as int].id })]
        &&& status_set(before, after, "joining voice: "@ + cs[i as int].name@)
    } else {
        after == before && r.len() == 0
    }
}

/// Requests joining the voice channel under the cursor (see [`voice_join_requested`]).
pub fn join_selected_voice(state: &mut AppState) -> (r: Vec<InputEffect>)
    ensures
        voice_join_requested(*old(state), *final(state), r@),
{
    let mut out: Vec<InputEffect> = Vec::new();
    let guild = match state.nav.current_guild {
        Some(g) => g,
        None => return out,
    };
    let cs = state.current_channels();
    let i = state.nav.channel_cursor;
    if i >= cs.len() {
        return out;
    }
    if cs[i].kind != 2 && cs[i].kind != 13 {
        return out;
    }
    if !state.gateway_connected {
        return out;
    }
    let id = cs[i].id;
    let mut st = owned("joining voice: ");
    push_str(&mut st, cs[i].name.as_str());
    out.push(InputEffect::Gateway(GatewayAction::JoinVoice { guild, channel: id }));
    set_status_text(state, st);
    out
}

/// The state and effects after `V`: leaving the call's guild is requested, when the gateway
/// runs and a call guild is known.
pub open spec fn voice_leave_requested(before: AppState, after: AppState, r: Seq<InputEffect>) -> bool {
    match before.voice.joining_voice_guild {
        Some(g) if before.gateway_connected => {
            &&& r == seq![InputEffect::Gateway(GatewayAction::LeaveVoice { guild: g })]
            &&& status_set(before, after, "leaving voice"@)
        },
        _ => after == before && r.len() == 0,
    }
}

/// Requests leaving the call (see [`voice_leave_requested`]).
pub fn leave_voice(state: &mut AppState) -> (r: Vec<InputEffect>)
    ensures
        voice_leave_requested(*old(state), *final(state), r@),
{
    let mut out: Vec<InputEffect> = Vec::new();
    match state.voice.joining_voice_guild {
        Some(g) => {
            if state.gateway_connected {
                out.push(InputEffect::Gateway(GatewayAction::LeaveVoice { guild: g }));
                set_status_text(state, owned("leaving voice"));
            }
        },
        None => {},
    }
    out
}


/// Going back in the input history and then forward again returns to the entry that was
/// recalled before.
pub proof fn law_history_up_down(s0: AppState, s1: AppState, s2: AppState)
    requires
        history_ok(s0.compose),
        s0.compose.history_pos matches Some(p) && p > 0,
        history_up(s0, s1),
        history_down(s1, s2),
    ensures
        s2.compose.history_pos == s0.compose.history_pos,
        s2.compose.input@ == s0.compose.input_history@[s0.compose.history_pos->0 as int]@,
{
}

/// The quick switcher's cursor stays on a result: from a state whose cursor is on a result
/// (or that has none), the key handler accepts every key, and every key leaves the cursor on
/// a result, or no results.
pub proof fn law_search_cursor_in_bounds(before: AppState, after: AppState, k: KeyPress, r: Seq<InputEffect>)
    requires
        before.search.search_results@.len() == 0 || before.search.search_cursor < before.search.search_results@.len(),
        search_key_rel(before, after, k, r),
    ensures
        search_down_key(k) && before.search.search_results@.len() > 0 ==> before.search.search_cursor < usize::MAX,
        after.search.search_results@.len() == 0 || after.search.search_cursor < after.search.search_results@.len(),
{
    assert(before.search.search_results.len() == before.search.search_results@.len());
}

} // verus!
