use vstd::prelude::*;
use crate::appstate::{AppState, Compose, Nav, Panels, People, Search, Streams};
use crate::commands::{all_big, input_sent, send_input, watched_ids};
use crate::gateway::GatewayAction;
use crate::input::{
    InputEffect, Key, KeyPress, adjust_fits, completed, cursor_step, cursor_step_horizontal, cursor_stepped, delete_requested,
    delete_selected, edit_started, handle_search_key, handle_settings_key, history_down, history_ok, history_up,
    join_selected_voice, jump_unread, jumped_unread, leave_voice, nav_fits, open_preview, open_selection, opened_rel, pop_char,
    preview_opened, recall_next, recall_previous, reply_started, search_cleared, search_key_rel, settings_key_rel, settings_ok,
    shown_channels, start_edit, start_reply, status_set, toggle_voice_state, try_autocomplete, voice_join_requested,
    voice_leave_requested, voice_toggled,
};
use crate::snowflake::SnowflakeID;
use crate::state::{Focus, focus_next, focus_prev};
use crate::streams::keys_unique;
use crate::text::{owned, push_char, push_str};

verus! {

broadcast use {vstd::std_specs::hash::group_hash_axioms, vstd::seq_lib::group_seq_properties};

/// What the key handlers need of the state: cursors and lengths that fit their arithmetic,
/// a history position within the history, a settings cursor on a row, settings that can be
/// adjusted, a quick-switcher cursor below the maximum, and stream keys that occur once.
pub open spec fn input_ok(s: AppState) -> bool {
    &&& nav_fits(s)
    &&& shown_channels(s).len() <= isize::MAX / 2
    &&& history_ok(s.compose)
    &&& settings_ok(s)
    &&& adjust_fits(s)
    &&& s.search.search_cursor < usize::MAX
    &&& keys_unique(s.streams.pending_streams@)
}

/// The state and effects after Esc: it closes, in this order, the quick switcher, the text
/// field or else the settings screen (saving the configuration), the help, the member pane,
/// the edit (emptying the line), the reply, the image preview, the stream view (stopping the
/// streams); with nothing open it quits.
pub open spec fn escaped(before: AppState, after: AppState, r: Seq<InputEffect>) -> bool {
    let p = before.panels;
    if before.search.search_open {
        search_cleared(before, after) && r.len() == 0
    } else if p.settings_open {
        if p.settings_editing {
            &&& after.panels == (Panels { settings_editing: false, settings_buf: after.panels.settings_buf, ..p })
            &&& after.panels.settings_buf@.len() == 0
            &&& after == (AppState { panels: after.panels, ..before })
            &&& r.len() == 0
        } else {
            after == (AppState { panels: Panels { settings_open: false, ..p }, ..before }) && r == seq![InputEffect::SaveConfig { report: true }]
        }
    } else if p.show_help {
        after == (AppState { panels: Panels { show_help: false, ..p }, ..before }) && r.len() == 0
    } else if p.show_members {
        after == (AppState { panels: Panels { show_members: false, ..p }, ..before }) && r.len() == 0
    } else if before.compose.editing_message is Some {
        &&& after.compose == (Compose { editing_message: None, input: after.compose.input, ..before.compose })
        &&& after.compose.input@.len() == 0
        &&& status_set(AppState { compose: after.compose, ..before }, after, "edit cancelled"@)
        &&& r.len() == 0
    } else if before.compose.replying_to is Some {
        status_set(AppState { compose: Compose { replying_to: None, ..before.compose }, ..before }, after, "reply cancelled"@) && r.len() == 0
    } else if p.preview_image is Some {
        after == (AppState { panels: Panels { preview_image: None, ..p }, ..before }) && r.len() == 0
    } else if before.streams.watching_streams@.len() > 0 {
        let mid = AppState {
            streams: Streams { watching_streams: after.streams.watching_streams, big_streams: after.streams.big_streams, ..before.streams },
            ..before
        };
        &&& after.streams.watching_streams@.len() == 0
        &&& after.streams.big_streams@ == Set::<u64>::empty()
        &&& status_set(mid, after, "stream view closed"@)
        &&& r == (if before.gateway_connected { seq![InputEffect::Gateway(GatewayAction::StopStream)] } else { Seq::empty() })
    } else {
        after == (AppState { nav: Nav { should_quit: true, ..before.nav }, ..before }) && r.len() == 0
    }
}

fn handle_esc(state: &mut AppState) -> (r: Vec<InputEffect>)
    ensures
        escaped(*old(state), *final(state), r@),
{
    let mut out: Vec<InputEffect> = Vec::new();
    if state.search.search_open {
        state.clear_search();
        return out;
    }
    if state.panels.settings_open {
        if state.panels.settings_editing {
            state.panels.settings_editing = false;
            state.panels.settings_buf = String::new();
        } else {
            state.panels.settings_open = false;
            out.push(InputEffect::SaveConfig { report: true });
        }
        return out;
    }
    if state.panels.show_help {
        state.panels.show_help = false;
        return out;
    }
    if state.panels.show_members {
        state.panels.show_members = false;
        return out;
    }
    if state.compose.editing_message.is_some() {
        state.compose.editing_message = None;
        state.compose.input = String::new();
        state.set_status(owned("edit cancelled"));
        return out;
    }
    if state.compose.replying_to.is_some() {
        state.compose.replying_to = None;
        state.set_status(owned("reply cancelled"));
        return out;
    }
    if state.panels.preview_image.is_some() {
        state.panels.preview_image = None;
        return out;
    }
    if state.streams.watching_streams.len() > 0 {
        state.streams.watching_streams = Vec::new();
        state.streams.big_streams.clear();
        state.set_status(owned("stream view closed"));
        if state.gateway_connected {
            out.push(InputEffect::Gateway(GatewayAction::StopStream));
        }
        return out;
    }
    state.nav.should_quit = true;
    out
}

/// Outcome of saving the configuration after the settings screen closed: the status says
/// `settings saved`, or gives the error.
pub fn config_saved(state: &mut AppState, outcome: Result<(), String>)
    ensures
        match outcome {
            Ok(()) => status_set(*old(state), *final(state), "settings saved"@),
            Err(e) => status_set(*old(state), *final(state), "config save failed: "@ + e@),
        },
{
    crate::commands::report_outcome(state, "settings saved", "config save failed: ", outcome);
}

/// The state and effects after `m`: the member pane opens or closes; opening it in a
/// guild asks the gateway once for the guild's member list.
pub open spec fn members_toggled(before: AppState, after: AppState, r: Seq<InputEffect>) -> bool {
    let shown = !before.panels.show_members;
    let s1 = AppState { panels: Panels { show_members: shown, ..before.panels }, ..before };
    match before.nav.current_guild {
        Some(g) if shown && g.0 != 0 && !before.people.members_requested@.contains(g.0) => {
            let s2 = AppState {
                people: People { members_requested: after.people.members_requested, ..before.people },
                ..s1
            };
            &&& after.people.members_requested@ == before.people.members_requested@.insert(g.0)
            &&& if before.gateway_connected {
                &&& r == seq![InputEffect::Gateway(GatewayAction::RequestMembers { guild: g })]
                &&& status_set(s2, after, "requesting member list…"@)
            } else {
                r.len() == 0 && after == s2
            }
        },
        _ => after == s1 && r.len() == 0,
    }
}

fn toggle_members(state: &mut AppState) -> (r: Vec<InputEffect>)
    ensures
        members_toggled(*old(state), *final(state), r@),
{
    let mut out: Vec<InputEffect> = Vec::new();
    state.panels.show_members = !state.panels.show_members;
    if state.panels.show_members {
        match state.nav.current_guild {
            Some(g) => {
                if g.0 != 0 && !state.people.members_requested.contains(&g.0) {
                    state.people.members_requested.insert(g.0);
                    if state.gateway_connected {
                        out.push(InputEffect::Gateway(GatewayAction::RequestMembers { guild: g }));
                        state.set_status(owned("requesting member list…"));
                    }
                }
            },
            None => {},
        }
    }
    out
}

/// The state after Ctrl+B: with streams watched, all are shown large, or all small when
/// they all were large.
pub open spec fn streams_resized(before: AppState, after: AppState) -> bool {
    if before.streams.watching_streams@.len() == 0 {
        after == before
    } else {
        let mid = AppState { streams: Streams { big_streams: after.streams.big_streams, ..before.streams }, ..before };
        &&& after.streams.big_streams@ == (if all_big(before) { Set::<u64>::empty() } else { before.streams.big_streams@.union(watched_ids(before)) })
        &&& status_set(mid, after, "stream view: "@ + (if all_big(before) { "PiP"@ } else { "grand (tous)"@ }))
    }
}

fn resize_streams(state: &mut AppState)
    ensures
        streams_resized(*old(state), *final(state)),
{
    if state.streams.watching_streams.len() == 0 {
        return;
    }
    let ab = crate::commands::all_big_exec(state);
    if ab {
        state.streams.big_streams.clear();
    } else {
        crate::commands::enlarge_all(state);
    }
    let mut st = owned("stream view: ");
    push_str(&mut st, if ab { "PiP" } else { "grand (tous)" });
    crate::commands::set_status_to(state, st);
}

/// The state, result and effects of a key outside the input line: Tab and BackTab move the
/// focus, `q` quits, arrows, `h`/`j`/`k`/`l` and the page keys move cursors, Enter opens the
/// selection; in the message pane `d`/Delete, `i`, `e` and `r` delete, preview, edit and
/// answer; `v` on the channel list joins voice; `V` leaves it; other keys are not handled.
pub open spec fn nav_key_rel(before: AppState, after: AppState, k: KeyPress, handled: bool, r: Seq<InputEffect>) -> bool {
    let f = before.nav.focus;
    match k.code {
        Key::Tab => handled && r.len() == 0 && after == (AppState { nav: Nav { focus: focus_next(f), ..before.nav }, ..before }),
        Key::BackTab => handled && r.len() == 0 && after == (AppState { nav: Nav { focus: focus_prev(f), ..before.nav }, ..before }),
        Key::Char('q') => handled && r.len() == 0 && after == (AppState { nav: Nav { should_quit: true, ..before.nav }, ..before }),
        Key::Left | Key::Char('h') => handled && r.len() == 0 && (if f != Focus::ServerBar || before.guilds@.len() == 0 {
            after == before
        } else {
            cursor_stepped(before, after, -1)
        }),
        Key::Right | Key::Char('l') => handled && r.len() == 0 && (if f != Focus::ServerBar || before.guilds@.len() == 0 {
            after == before
        } else {
            cursor_stepped(before, after, 1)
        }),
        Key::Down | Key::Char('j') => handled && r.len() == 0 && cursor_stepped(before, after, 1),
        Key::Up | Key::Char('k') => handled && r.len() == 0 && cursor_stepped(before, after, -1),
        Key::PageDown => handled && r.len() == 0 && cursor_stepped(before, after, 10),
        Key::PageUp => handled && r.len() == 0 && cursor_stepped(before, after, -10),
        Key::Enter => handled && opened_rel(before, after, r),
        Key::Char('d') if f == Focus::Messages => handled && delete_requested(before, after, r),
        Key::Delete if f == Focus::Messages => handled && delete_requested(before, after, r),
        Key::Char('i') if f == Focus::Messages => handled && r.len() == 0 && preview_opened(before, after),
        Key::Char('e') if f == Focus::Messages => handled && r.len() == 0 && edit_started(before, after),
        Key::Char('r') if f == Focus::Messages => handled && r.len() == 0 && reply_started(before, after),
        Key::Char('v') if f == Focus::Channels => handled && voice_join_requested(before, after, r),
        Key::Char('V') => handled && voice_leave_requested(before, after, r),
        _ => !handled && r.len() == 0 && after == before,
    }
}

/// Handles a key outside the input line (see [`nav_key_rel`]).
pub fn handle_nav_key(k: KeyPress, state: &mut AppState) -> (r: (bool, Vec<InputEffect>))
    requires
        nav_fits(*old(state)),
    ensures
        nav_key_rel(*old(state), *final(state), k, r.0, r.1@),
{
    let f = state.nav.focus;
    let none: Vec<InputEffect> = Vec::new();
    match k.code {
        Key::Tab => {
            state.nav.focus = f.next();
            (true, none)
        },
        Key::BackTab => {
            state.nav.focus = f.prev();
            (true, none)
        },
        Key::Char('q') => {
            state.nav.should_quit = true;
            (true, none)
        },
        Key::Left | Key::Char('h') => {
            cursor_step_horizontal(state, -1);
            (true, none)
        },
        Key::Right | Key::Char('l') => {
            cursor_step_horizontal(state, 1);
            (true, none)
        },
        Key::Down | Key::Char('j') => {
            cursor_step(state, 1);
            (true, none)
        },
        Key::Up | Key::Char('k') => {
            cursor_step(state, -1);
            (true, none)
        },
        Key::PageDown => {
            cursor_step(state, 10);
            (true, none)
        },
        Key::PageUp => {
            cursor_step(state, -10);
            (true, none)
        },
        Key::Enter => (true, open_selection(state)),
        Key::Char('d') if f == Focus::Messages => (true, delete_selected(state)),
        Key::Delete if f == Focus::Messages => (true, delete_selected(state)),
        Key::Char('i') if f == Focus::Messages => {
            open_preview(state);
            (true, none)
        },
        Key::Char('e') if f == Focus::Messages => {
            start_edit(state);
            (true, none)
        },
        Key::Char('r') if f == Focus::Messages => {
            start_reply(state);
            (true, none)
        },
        Key::Char('v') if f == Focus::Channels => (true, join_selected_voice(state)),
        Key::Char('V') => (true, leave_voice(state)),
        _ => (false, none),
    }
}

/// The state, result and effects of a key in the input line: Tab completes (see
/// [`completed`]) or else moves the focus on, BackTab moves it back, characters and
/// Backspace edit the line (leaving the history), Up and Down recall history entries,
/// Enter sends the line (see [`input_sent`]); other keys are not handled.
pub open spec fn input_key_rel(before: AppState, after: AppState, k: KeyPress, now_ms: u64, handled: bool, r: Seq<InputEffect>) -> bool {
    match k.code {
        Key::Tab => handled && r.len() == 0 && exists|ks: Seq<u64>, c: bool, mid: AppState| {
            &&& #[trigger] completed(before, mid, ks, c)
            &&& ks.to_set() == before.people.user_dir@.dom()
            &&& ks.no_duplicates()
            &&& after == (if c { mid } else { AppState { nav: Nav { focus: focus_next(mid.nav.focus), ..mid.nav }, ..mid } })
        },
        Key::BackTab => handled && r.len() == 0 && after == (AppState { nav: Nav { focus: focus_prev(before.nav.focus), ..before.nav }, ..before }),
        Key::Char(c) => {
            &&& handled && r.len() == 0
            &&& after.compose == (Compose { history_pos: None, input: after.compose.input, ..before.compose })
            &&& after.compose.input@ == before.compose.input@.push(c)
            &&& after == (AppState { compose: after.compose, ..before })
        },
        Key::Backspace => {
            &&& handled && r.len() == 0
            &&& after.compose == (Compose { history_pos: None, input: after.compose.input, ..before.compose })
            &&& after.compose.input@ == (if before.compose.input@.len() > 0 { before.compose.input@.drop_last() } else { before.compose.input@ })
            &&& after == (AppState { compose: after.compose, ..before })
        },
        Key::Up => handled && r.len() == 0 && history_up(before, after),
        Key::Down => handled && r.len() == 0 && history_down(before, after),
        Key::Enter => handled && input_sent(before, after, now_ms, r),
        _ => !handled && r.len() == 0 && after == before,
    }
}

/// Handles a key in the input line (see [`input_key_rel`]).
pub fn handle_input_key(k: KeyPress, state: &mut AppState, now_ms: u64) -> (r: (bool, Vec<InputEffect>))
    requires
        history_ok(old(state).compose),
        keys_unique(old(state).streams.pending_streams@),
    ensures
        input_key_rel(*old(state), *final(state), k, now_ms, r.0, r.1@),
        history_ok(final(state).compose),
        keys_unique(final(state).streams.pending_streams@),
{
    let none: Vec<InputEffect> = Vec::new();
    match k.code {
        Key::Tab => {
            let done = try_autocomplete(state);
            let ghost mid = *state;
            if !done {
                state.nav.focus = state.nav.focus.next();
            }
            (true, none)
        },
        Key::BackTab => {
            state.nav.focus = state.nav.focus.prev();
            (true, none)
        },
        Key::Char(c) => {
            state.compose.history_pos = None;
            push_char(&mut state.compose.input, c);
            (true, none)
        },
        Key::Backspace => {
            state.compose.history_pos = None;
            pop_char(&mut state.compose.input);
            (true, none)
        },
        Key::Up => {
            recall_previous(state);
            (true, none)
        },
        Key::Down => {
            recall_next(state);
            (true, none)
        },
        Key::Enter => (true, send_input(state, now_ms)),
        _ => (false, none),
    }
}

/// The state, result and effects of a key press (see the comments of each step): Esc
/// closes what is open (see [`escaped`]); the settings screen, help and member pane take
/// the key first; outside the input line `m`, `,`, `?`, `M`/`D` toggle the member pane,
/// open the settings, toggle help, toggle the microphone or sound; Ctrl+B resizes streams,
/// Alt+Down/Up jump to unread channels, Ctrl+K toggles the quick switcher, which then takes
/// the key; Ctrl+C quits; Ctrl+L toggles the log pane; the rest goes to the input line or to
/// the navigation keys.
pub open spec fn event_rel(before: AppState, after: AppState, k: KeyPress, now_ms: u64, handled: bool, r: Seq<InputEffect>) -> bool {
    let not_input = before.nav.focus != Focus::Input;
    if k.code == Key::Esc {
        handled && escaped(before, after, r)
    } else if before.panels.settings_open {
        handled && r.len() == 0 && settings_key_rel(before, after, k)
    } else if before.panels.show_help {
        handled && r.len() == 0 && after == (AppState { panels: Panels { show_help: false, ..before.panels }, ..before })
    } else if before.panels.show_members {
        handled && r.len() == 0 && after == (AppState { panels: Panels { show_members: false, ..before.panels }, ..before })
    } else if k.code == Key::Char('m') && not_input {
        handled && members_toggled(before, after, r)
    } else if k.code == Key::Char(',') && not_input {
        handled && r.len() == 0 && after == (AppState {
            panels: Panels { settings_open: true, settings_cursor: 0, settings_editing: false, ..before.panels },
            ..before
        })
    } else if k.code == Key::Char('?') && not_input {
        handled && r.len() == 0 && after == (AppState { panels: Panels { show_help: !before.panels.show_help, ..before.panels }, ..before })
    } else if (k.code == Key::Char('M') || k.code == Key::Char('D')) && not_input {
        handled && voice_toggled(before, after, k.code == Key::Char('D'), r)
    } else if k.code == Key::Char('b') && k.ctrl {
        handled && r.len() == 0 && streams_resized(before, after)
    } else if k.alt && (k.code == Key::Down || k.code == Key::Up) {
        handled && r.len() == 0 && jumped_unread(before, after, if k.code == Key::Down { 1 } else { -1 })
    } else if k.code == Key::Char('k') && k.ctrl {
        &&& handled && r.len() == 0
        &&& if before.search.search_open {
            search_cleared(before, after)
        } else {
            &&& after.search.search_open
            &&& after.search.search_input@.len() == 0
            &&& after.search.search_cursor == 0
            &&& after.search.search_results@.len() == 0
            &&& after == (AppState { search: after.search, ..before })
        }
    } else if before.search.search_open {
        handled && search_key_rel(before, after, k, r)
    } else if k.code == Key::Char('c') && k.ctrl {
        handled && r.len() == 0 && after == (AppState { nav: Nav { should_quit: true, ..before.nav }, ..before })
    } else if k.code == Key::Char('l') && k.ctrl {
        handled && r.len() == 0 && after == (AppState {
            panels: Panels { show_logs: !before.panels.show_logs, log_scroll: 0, ..before.panels },
            ..before
        })
    } else if before.nav.focus == Focus::Input {
        input_key_rel(before, after, k, now_ms, handled, r)
    } else {
        nav_key_rel(before, after, k, handled, r)
    }
}

/// Handles a key press at clock time `now_ms` (see [`event_rel`]); gives whether the key was
/// handled and the outside work it asks for.
pub fn handle_event(k: KeyPress, state: &mut AppState, now_ms: u64) -> (r: (bool, Vec<InputEffect>))
    requires
        input_ok(*old(state)),
    ensures
        event_rel(*old(state), *final(state), k, now_ms, r.0, r.1@),
{
    let none: Vec<InputEffect> = Vec::new();
    let not_input = state.nav.focus != Focus::Input;
    if k.code == Key::Esc {
        return (true, handle_esc(state));
    }
    if state.panels.settings_open {
        handle_settings_key(k, state);
        return (true, none);
    }
    if state.panels.show_help {
        state.panels.show_help = false;
        return (true, none);
    }
    if state.panels.show_members {
        state.panels.show_members = false;
        return (true, none);
    }
    if k.code == Key::Char('m') && not_input {
        return (true, toggle_members(state));
    }
    if k.code == Key::Char(',') && not_input {
        state.panels.settings_open = true;
        state.panels.settings_cursor = 0;
        state.panels.settings_editing = false;
        return (true, none);
    }
    if k.code == Key::Char('?') && not_input {
        state.panels.show_help = !state.panels.show_help;
        return (true, none);
    }
    if (k.code == Key::Char('M') || k.code == Key::Char('D')) && not_input {
        return (true, toggle_voice_state(state, k.code == Key::Char('D')));
    }
    if k.code == Key::Char('b') && k.ctrl {
        resize_streams(state);
        return (true, none);
    }
    if k.alt && (k.code == Key::Down || k.code == Key::Up) {
        jump_unread(state, if k.code == Key::Down { 1 } else { -1 });
        return (true, none);
    }
    if k.code == Key::Char('k') && k.ctrl {
        if state.search.search_open {
            state.clear_search();
        } else {
            state.search.search_open = true;
            state.search.search_input = String::new();
            state.search.search_cursor = 0;
            state.search.search_results = Vec::new();
        }
        return (true, none);
    }
    if state.search.search_open {
        return (true, handle_search_key(k, state));
    }
    if k.code == Key::Char('c') && k.ctrl {
        state.nav.should_quit = true;
        return (true, none);
    }
    if k.code == Key::Char('l') && k.ctrl {
        state.panels.show_logs = !state.panels.show_logs;
        state.panels.log_scroll = 0;
        return (true, none);
    }
    if state.nav.focus == Focus::Input {
        handle_input_key(k, state, now_ms)
    } else {
        handle_nav_key(k, state)
    }
}

} // verus!
