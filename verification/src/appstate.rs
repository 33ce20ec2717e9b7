use std::collections::{HashMap, HashSet};
use vstd::prelude::*;
use crate::decimal::{dec, u64_to_string};
use crate::snowflake::SnowflakeID;
use crate::state::{ChannelSummary, DisplayMessage, EditCfg, Focus, GuildSummary, PendingStream, PresenceStatus, SearchHit, SettingKind, Toast, UiPrefs, VoiceMember, channel_history_cap, copy_opt, setting_kind_of, yn, yn_text};
use crate::text::{owned, trim, trim_spec};

verus! {

broadcast use {vstd::std_specs::hash::group_hash_axioms, vstd::seq_lib::group_seq_properties};

/// Where the user is looking: selection, cursors, focus and the status lines.
pub struct Nav {
    pub current_guild: Option<SnowflakeID>,
    pub current_channel: Option<SnowflakeID>,
    pub focus: Focus,
    pub guild_cursor: usize,
    pub channel_cursor: usize,
    pub message_cursor: usize,
    pub message_scroll: usize,
    pub status_line: String,
    pub conn_status: String,
    pub should_quit: bool,
}

/// The input line, its history, and the message being edited or answered.
pub struct Compose {
    pub input: String,
    pub input_history: Vec<String>,
    pub history_pos: Option<usize>,
    pub editing_message: Option<SnowflakeID>,
    pub replying_to: Option<SnowflakeID>,
}

/// What is known of users: names, statuses, who types where, server rosters.
pub struct People {
    pub my_user_id: Option<SnowflakeID>,
    pub my_username: String,
    pub user_dir: HashMap<u64, String>,
    pub presence: HashMap<u64, PresenceStatus>,
    /// Who is typing in each channel, with the clock time (ms) of the typing event.
    pub typing: HashMap<u64, Vec<(SnowflakeID, u64)>>,
    pub guild_members: HashMap<u64, HashSet<u64>>,
    pub members_requested: HashSet<u64>,
}

/// Unread markers of channels and guilds, and unread counts of channels.
pub struct Unread {
    pub unread: HashSet<u64>,
    pub unread_count: HashMap<u64, u32>,
}

/// Voice connection state.
pub struct Voice {
    pub self_mute: bool,
    pub self_deaf: bool,
    pub joining_voice_token: Option<String>,
    pub joining_voice_endpoint: Option<String>,
    pub joining_voice_session: Option<String>,
    pub joining_voice_guild: Option<SnowflakeID>,
    pub voice_channel: Option<SnowflakeID>,
    pub voice_status: String,
    pub voice_members: HashMap<u64, Vec<VoiceMember>>,
    /// Whether the voice connection is running.
    pub voice_running: bool,
    pub voice_input_device: Option<String>,
    pub voice_output_device: Option<String>,
}

/// Streams watched and broadcast.
pub struct Streams {
    pub watching_streams: Vec<SnowflakeID>,
    pub big_streams: HashSet<u64>,
    /// Streams by stream key; a key occurs at most once.
    pub pending_streams: Vec<(String, PendingStream)>,
    /// Users whose stream connection is running.
    pub stream_conns: HashSet<u64>,
    pub golive_key: Option<String>,
    /// Whether the broadcast connection is running.
    pub golive_running: bool,
}

/// The quick switcher.
pub struct Search {
    pub search_open: bool,
    pub search_input: String,
    pub search_cursor: usize,
    pub search_results: Vec<SearchHit>,
}

/// Overlays and panes other than the main three, and the image store.
pub struct Panels {
    pub show_logs: bool,
    pub log_scroll: usize,
    pub show_help: bool,
    pub show_members: bool,
    pub settings_open: bool,
    pub settings_cursor: usize,
    pub settings_editing: bool,
    pub settings_buf: String,
    pub preview_image: Option<SnowflakeID>,
    /// Ids of the images that have been fetched and decoded.
    pub loaded_images: HashSet<u64>,
    pub image_backend: String,
    pub channels_dirty: bool,
    pub notifications: Vec<Toast>,
}

/// The whole client state that the panes show and the gateway updates, as plain values.
/// Time stamps are milliseconds of the caller's clock; image data, channels to worker
/// tasks and other handles stay with the caller, which this state names by id or flag.
pub struct AppState {
    pub guilds: Vec<GuildSummary>,
    pub channels_by_guild: HashMap<u64, Vec<ChannelSummary>>,
    pub messages: HashMap<u64, Vec<DisplayMessage>>,
    pub nav: Nav,
    pub compose: Compose,
    pub people: People,
    pub unread: Unread,
    pub voice: Voice,
    pub streams: Streams,
    pub search: Search,
    pub panels: Panels,
    pub prefs: UiPrefs,
    pub edit_cfg: EditCfg,
    pub config_path: String,
    /// Whether the gateway accepts actions.
    pub gateway_connected: bool,
}

/// `true` when some channel of `v` has id `c`.
pub open spec fn has_channel(v: Seq<ChannelSummary>, c: u64) -> bool {
    exists|i: int| 0 <= i < v.len() && (#[trigger] v[i]).id.0 == c
}

/// `true` when some channel of `v` is in `unread`.
pub open spec fn any_unread(v: Seq<ChannelSummary>, unread: Set<u64>) -> bool {
    exists|i: int| 0 <= i < v.len() && unread.contains((#[trigger] v[i]).id.0)
}

/// `true` when guild `g` lists channel `c`.
pub open spec fn guild_lists(m: Map<u64, Vec<ChannelSummary>>, g: u64, c: u64) -> bool {
    m.contains_key(g) && has_channel(m[g]@, c)
}

/// The name shown for a user: the directory entry, or the id in decimal.
pub open spec fn display_name_of(dir: Map<u64, String>, id: u64) -> Seq<char> {
    if dir.contains_key(id) { dir[id]@ } else { dec(id as nat) }
}

/// The name recorded for a user from an event: the trimmed global name when it is not
/// empty, else the trimmed user name when that is not empty, else none.
pub open spec fn chosen_name(global: Option<Seq<char>>, username: Seq<char>) -> Option<Seq<char>> {
    if global is Some && trim_spec(global->0).len() > 0 {
        Some(trim_spec(global->0))
    } else if trim_spec(username).len() > 0 {
        Some(trim_spec(username))
    } else {
        None
    }
}

/// The message list of a channel after appending `m`: the oldest message is dropped first
/// when the list is at its capacity.
pub open spec fn appended(v: Seq<DisplayMessage>, m: DisplayMessage) -> Seq<DisplayMessage> {
    (if v.len() >= channel_history_cap() { v.drop_first() } else { v }).push(m)
}

/// The messages of channel `c`, or none.
pub open spec fn msgs_of(m: Map<u64, Vec<DisplayMessage>>, c: u64) -> Seq<DisplayMessage> {
    if m.contains_key(c) { m[c]@ } else { Seq::empty() }
}

/// The channels of guild `g`, or none.
pub open spec fn chans_of(m: Map<u64, Vec<ChannelSummary>>, g: u64) -> Seq<ChannelSummary> {
    if m.contains_key(g) { m[g]@ } else { Seq::empty() }
}

impl AppState {
    /// The state before anything is known: nothing listed, focus on the server bar,
    /// default preferences.
    pub fn new() -> (r: Self)
        ensures
            r.guilds@.len() == 0,
            r.channels_by_guild@ == Map::<u64, Vec<ChannelSummary>>::empty(),
            r.messages@ == Map::<u64, Vec<DisplayMessage>>::empty(),
            r.nav.current_guild is None,
            r.nav.current_channel is None,
            r.nav.focus == Focus::ServerBar,
            r.compose.input@.len() == 0,
            r.unread.unread@ == Set::<u64>::empty(),
            r.people.user_dir@ == Map::<u64, String>::empty(),
            !r.nav.should_quit,
            r.prefs.toast_enabled && r.prefs.toast_secs == 6,
    {
        AppState {
            guilds: Vec::new(),
            channels_by_guild: HashMap::new(),
            messages: HashMap::new(),
            nav: Nav {
                current_guild: None,
                current_channel: None,
                focus: Focus::ServerBar,
                guild_cursor: 0,
                channel_cursor: 0,
                message_cursor: 0,
                message_scroll: 0,
                status_line: String::new(),
                conn_status: String::new(),
                should_quit: false,
            },
            compose: Compose {
                input: String::new(),
                input_history: Vec::new(),
                history_pos: None,
                editing_message: None,
                replying_to: None,
            },
            people: People {
                my_user_id: None,
                my_username: String::new(),
                user_dir: HashMap::new(),
                presence: HashMap::new(),
                typing: HashMap::new(),
                guild_members: HashMap::new(),
                members_requested: HashSet::new(),
            },
            unread: Unread { unread: HashSet::new(), unread_count: HashMap::new() },
            voice: Voice {
                self_mute: false,
                self_deaf: false,
                joining_voice_token: None,
                joining_voice_endpoint: None,
                joining_voice_session: None,
                joining_voice_guild: None,
                voice_channel: None,
                voice_status: String::new(),
                voice_members: HashMap::new(),
                voice_running: false,
                voice_input_device: None,
                voice_output_device: None,
            },
            streams: Streams {
                watching_streams: Vec::new(),
                big_streams: HashSet::new(),
                pending_streams: Vec::new(),
                stream_conns: HashSet::new(),
                golive_key: None,
                golive_running: false,
            },
            search: Search {
                search_open: false,
                search_input: String::new(),
                search_cursor: 0,
                search_results: Vec::new(),
            },
            panels: Panels {
                show_logs: false,
                log_scroll: 0,
                show_help: false,
                show_members: false,
                settings_open: false,
                settings_cursor: 0,
                settings_editing: false,
                settings_buf: String::new(),
                preview_image: None,
                loaded_images: HashSet::new(),
                image_backend: String::new(),
                channels_dirty: false,
                notifications: Vec::new(),
            },
            prefs: UiPrefs::defaults(),
            edit_cfg: EditCfg::empty(),
            config_path: String::new(),
            gateway_connected: false,
        }
    }

    /// Replaces the status line.
    pub fn set_status(&mut self, msg: String)
        ensures
            final(self).nav == (Nav { status_line: msg, ..old(self).nav }),
            *final(self) == (AppState { nav: final(self).nav, ..*old(self) }),
    {
        self.nav.status_line = msg;
    }

    /// The name shown for user `id`.
    pub fn display_name(&self, id: SnowflakeID) -> (r: String)
        ensures
            r@ == display_name_of(self.people.user_dir@, id.0),
    {
        match self.people.user_dir.get(&id.0) {
            Some(n) => n.clone(),
            None => u64_to_string(id.0),
        }
    }

    /// Records the name of user `id` from an event, when it carries a usable one.
    pub fn note_user(&mut self, id: SnowflakeID, global: Option<&str>, username: &str)
        ensures
            final(self).people.user_dir@ == match chosen_name(
                match global { Some(g) => Some(g@), None => None },
                username@,
            ) {
                Some(n) => old(self).people.user_dir@.insert(id.0, final(self).people.user_dir@[id.0]),
                None => old(self).people.user_dir@,
            },
            chosen_name(match global { Some(g) => Some(g@), None => None }, username@) matches Some(n)
                ==> final(self).people.user_dir@[id.0]@ == n,
            final(self).people == (People { user_dir: final(self).people.user_dir, ..old(self).people }),
            *final(self) == (AppState { people: final(self).people, ..*old(self) }),
    {
        let g: Option<String> = match global {
            Some(x) => {
                let t = trim(x);
                if !t.as_str().is_empty() { Some(t) } else { None }
            },
            None => None,
        };
        let name: Option<String> = match g {
            Some(t) => Some(t),
            None => {
                let u = trim(username);
                if !u.as_str().is_empty() { Some(u) } else { None }
            },
        };
        if let Some(n) = name {
            self.people.user_dir.insert(id.0, n);
        }
    }

    /// Status of user `id`; offline when unknown.
    pub fn presence_of(&self, id: SnowflakeID) -> (r: PresenceStatus)
        ensures
            r == (if self.people.presence@.contains_key(id.0) { self.people.presence@[id.0] } else { PresenceStatus::Offline }),
    {
        match self.people.presence.get(&id.0) {
            Some(p) => *p,
            None => PresenceStatus::Offline,
        }
    }

    /// Unread count of channel `id`; zero when none.
    pub fn unread_n(&self, id: SnowflakeID) -> (r: u32)
        ensures
            r == (if self.unread.unread_count@.contains_key(id.0) { self.unread.unread_count@[id.0] } else { 0 }),
    {
        match self.unread.unread_count.get(&id.0) {
            Some(n) => *n,
            None => 0,
        }
    }

    /// Closes the quick switcher and forgets its query and results.
    pub fn clear_search(&mut self)
        ensures
            !final(self).search.search_open,
            final(self).search.search_input@.len() == 0,
            final(self).search.search_cursor == 0,
            final(self).search.search_results@.len() == 0,
            *final(self) == (AppState { search: final(self).search, ..*old(self) }),
    {
        self.search = Search { search_open: false, search_input: String::new(), search_cursor: 0, search_results: Vec::new() };
    }

    /// The channels of the selected guild (none when no guild is selected or it lists none).
    pub fn current_channels(&self) -> (r: &[ChannelSummary])
        ensures
            r@ == match self.nav.current_guild {
                Some(g) => chans_of(self.channels_by_guild@, g.0),
                None => Seq::empty(),
            },
    {
        match self.nav.current_guild {
            Some(g) => match self.channels_by_guild.get(&g.0) {
                Some(v) => v.as_slice(),
                None => &[],
            },
            None => &[],
        }
    }

    /// The messages of the selected channel (none when no channel is selected).
    pub fn current_messages(&self) -> (r: &[DisplayMessage])
        ensures
            r@ == match self.nav.current_channel {
                Some(c) => msgs_of(self.messages@, c.0),
                None => Seq::empty(),
            },
    {
        match self.nav.current_channel {
            Some(c) => match self.messages.get(&c.0) {
                Some(v) => v.as_slice(),
                None => &[],
            },
            None => &[],
        }
    }

    /// Appends a message to the list of its channel, dropping the oldest one when the list
    /// holds 500 messages.
    pub fn push_message(&mut self, channel_id: SnowflakeID, msg: DisplayMessage)
        ensures
            final(self).messages@.contains_key(channel_id.0),
            final(self).messages@ == old(self).messages@.insert(channel_id.0, final(self).messages@[channel_id.0]),
            final(self).messages@[channel_id.0]@ == appended(msgs_of(old(self).messages@, channel_id.0), msg),
            *final(self) == (AppState { messages: final(self).messages, ..*old(self) }),
    {
        let ghost old_list = msgs_of(self.messages@, channel_id.0);
        let mut buf = match self.messages.remove(&channel_id.0) {
            Some(v) => v,
            None => Vec::new(),
        };
        assert(buf@ == old_list);
        if buf.len() >= 500 {
            buf.remove(0);
        }
        buf.push(msg);
        self.messages.insert(channel_id.0, buf);
        proof {
            assert(self.messages@ =~= old(self).messages@.insert(channel_id.0, self.messages@[channel_id.0]));
        }
    }

    /// Some guild that lists channel `channel_id`, if any does.
    pub fn find_guild_for_channel(&self, channel_id: SnowflakeID) -> (r: Option<SnowflakeID>)
        ensures
            match r {
                Some(g) => guild_lists(self.channels_by_guild@, g.0, channel_id.0),
                None => forall|g: u64| !guild_lists(self.channels_by_guild@, g, channel_id.0),
            },
    {
        let keys = keys_of(&self.channels_by_guild);
        let mut i: usize = 0;
        while i < keys.len()
            invariant
                0 <= i <= keys.len(),
                keys@.to_set() == self.channels_by_guild@.dom(),
                forall|j: int| 0 <= j < i ==> !guild_lists(self.channels_by_guild@, keys@[j], channel_id.0),
            decreases keys.len() - i,
        {
            let gid = keys[i];
            match self.channels_by_guild.get(&gid) {
                Some(chans) => {
                    if channel_in(chans.as_slice(), channel_id.0) {
                        return Some(SnowflakeID(gid));
                    }
                },
                None => {},
            }
            i += 1;
        }
        proof {
            assert forall|g: u64| !guild_lists(self.channels_by_guild@, g, channel_id.0) by {
                if self.channels_by_guild@.contains_key(g) {
                    assert(keys@.to_set().contains(g));
                    let j = choose|j: int| 0 <= j < keys@.len() && keys@[j] == g;
                }
            }
        }
        None
    }
}

/// Some guild lists a channel with id `cid` named `name`.
pub open spec fn listed_channel(m: Map<u64, Vec<ChannelSummary>>, cid: u64, name: Seq<char>) -> bool {
    exists|g: u64, i: int| m.contains_key(g) && 0 <= i < m[g]@.len() && (#[trigger] m[g]@[i]).id.0 == cid && m[g]@[i].name@ == name
}

/// Every channel id has one name across the guilds' channel lists.
pub open spec fn channel_names_agree(m: Map<u64, Vec<ChannelSummary>>) -> bool {
    forall|cid: u64, a: Seq<char>, b: Seq<char>| listed_channel(m, cid, a) && listed_channel(m, cid, b) ==> a == b
}

/// The name of channel `cid` in the guilds' channel lists, when some guild lists it.
pub open spec fn channel_name_in(m: Map<u64, Vec<ChannelSummary>>, cid: u64) -> Option<Seq<char>> {
    if exists|name: Seq<char>| listed_channel(m, cid, name) {
        Some(choose|name: Seq<char>| listed_channel(m, cid, name))
    } else {
        None
    }
}

impl AppState {
    /// The name of channel `cid` in some guild that lists it.
    pub fn channel_name(&self, cid: SnowflakeID) -> (r: Option<String>)
        ensures
            match r {
                Some(n) => listed_channel(self.channels_by_guild@, cid.0, n@),
                None => channel_name_in(self.channels_by_guild@, cid.0) is None,
            },
            channel_names_agree(self.channels_by_guild@) ==> (match r {
                Some(n) => Some(n@),
                None => None,
            }) == channel_name_in(self.channels_by_guild@, cid.0),
    {
        match self.find_guild_for_channel(cid) {
            Some(g) => {
                let chans = self.channels_by_guild.get(&g.0).unwrap();
                let mut i: usize = 0;
                while i < chans.len()
                    invariant
                        0 <= i <= chans.len(),
                        self.channels_by_guild@.contains_key(g.0),
                        *chans == self.channels_by_guild@[g.0],
                        guild_lists(self.channels_by_guild@, g.0, cid.0),
                        forall|j: int| 0 <= j < i ==> chans@[j].id.0 != cid.0,
                    decreases chans.len() - i,
                {
                    if chans[i].id.0 == cid.0 {
                        let n = chans[i].name.clone();
                        proof {
                            assert(self.channels_by_guild@[g.0]@[i as int].id.0 == cid.0);
                            assert(listed_channel(self.channels_by_guild@, cid.0, n@));
                            if channel_names_agree(self.channels_by_guild@) {
                                let c = choose|name: Seq<char>| listed_channel(self.channels_by_guild@, cid.0, name);
                                assert(listed_channel(self.channels_by_guild@, cid.0, c));
                            }
                        }
                        return Some(n);
                    }
                    i += 1;
                }
                proof {
                    let k = choose|k: int| 0 <= k < chans@.len() && (#[trigger] chans@[k]).id.0 == cid.0;
                    assert(chans@[k].id.0 != cid.0);
                }
                None
            },
            None => {
                proof {
                    assert forall|name: Seq<char>| !listed_channel(self.channels_by_guild@, cid.0, name) by {
                        if listed_channel(self.channels_by_guild@, cid.0, name) {
                            let (g, i) = choose|g: u64, i: int| self.channels_by_guild@.contains_key(g) && 0 <= i < self.channels_by_guild@[g]@.len()
                                && (#[trigger] self.channels_by_guild@[g]@[i]).id.0 == cid.0 && self.channels_by_guild@[g]@[i].name@ == name;
                            assert(!guild_lists(self.channels_by_guild@, g, cid.0));
                            assert(has_channel(self.channels_by_guild@[g]@, cid.0));
                        }
                    }
                }
                None
            },
        }
    }
}

/// The keys of a map, each once, in the map's iteration order.
pub fn keys_of<V>(m: &HashMap<u64, V>) -> (r: Vec<u64>)
    ensures
        r@.to_set() == m@.dom(),
        r@.no_duplicates(),
{
    let mut out: Vec<u64> = Vec::new();
    for k in it: m.keys()
        invariant
            out@ == it.seq().unref().take(it.index() as int),
            it.index() <= it.seq().len(),
            it.seq().unref().to_set() == m@.dom(),
            it.seq().no_duplicates(),
        ensures
            out@.to_set() == m@.dom(),
            out@.no_duplicates(),
    {
        out.push(*k);
        proof {
            assert(it.seq().unref().take(it.index() + 1) =~= it.seq().unref().take(it.index() as int).push(*k));
        }
    }
    out
}


/// The state after setting text row `idx` to `val`: the voice input (row 12) or output
/// (row 13) device becomes the trimmed text, or the default when it is blank; other rows
/// change nothing.
pub open spec fn text_set_rel(before: AppState, after: AppState, idx: usize, val: String) -> bool {
    &&& (idx == 12 ==> opt_view(after.edit_cfg.voice_input_device) == device_choice(val@)
            && opt_view(after.voice.voice_input_device) == device_choice(val@)
            && after.edit_cfg == (EditCfg { voice_input_device: after.edit_cfg.voice_input_device, ..before.edit_cfg })
            && after.voice == (Voice { voice_input_device: after.voice.voice_input_device, ..before.voice }))
    &&& (idx == 13 ==> opt_view(after.edit_cfg.voice_output_device) == device_choice(val@)
            && opt_view(after.voice.voice_output_device) == device_choice(val@)
            && after.edit_cfg == (EditCfg { voice_output_device: after.edit_cfg.voice_output_device, ..before.edit_cfg })
            && after.voice == (Voice { voice_output_device: after.voice.voice_output_device, ..before.voice }))
    &&& (idx != 12 && idx != 13 ==> after == before)
    &&& (after == (AppState { edit_cfg: after.edit_cfg, voice: after.voice, ..before }))
}

/// The state after marking channel `channel_id` read (see `AppState::mark_read`).
pub open spec fn read_rel(before: AppState, after: AppState, channel_id: SnowflakeID) -> bool {
    &&& (after.unread.unread_count@ == before.unread.unread_count@.remove(channel_id.0))
    &&& ((forall|g: u64| !guild_lists(before.channels_by_guild@, g, channel_id.0))
            ==> after.unread.unread@ == before.unread.unread@.remove(channel_id.0))
    &&& ((exists|g: u64| guild_lists(before.channels_by_guild@, g, channel_id.0))
            ==> exists|g: u64| {
                &&& guild_lists(before.channels_by_guild@, g, channel_id.0)
                &&& after.unread.unread@ == ({
                    let u1 = before.unread.unread@.remove(channel_id.0);
                    if any_unread(before.channels_by_guild@[g]@, u1) { u1 } else { u1.remove(g) }
                })
            })
    &&& (after == (AppState { unread: after.unread, ..before }))
}

impl AppState {
    /// Marks channel `channel_id` read: it leaves the unread set and its count is dropped;
    /// the guild that lists it (some guild, when several do) leaves the unread set too when
    /// none of its channels is still unread.
    pub fn mark_read(&mut self, channel_id: SnowflakeID)
        ensures
            read_rel(*old(self), *final(self), channel_id),
    {
        self.unread.unread.remove(&channel_id.0);
        self.unread.unread_count.remove(&channel_id.0);
        match self.find_guild_for_channel(channel_id) {
            Some(gid) => {
                let any = match self.channels_by_guild.get(&gid.0) {
                    Some(cs) => any_in_set(cs.as_slice(), &self.unread.unread),
                    None => false,
                };
                if !any {
                    self.unread.unread.remove(&gid.0);
                }
            },
            None => {},
        }
    }

    /// The value shown for settings row `idx` (empty for rows past the last).
    pub fn setting_display(&self, idx: usize) -> (r: String)
        ensures
            r@ == setting_text(self.prefs, self.edit_cfg, idx as int),
    {
        let p = &self.prefs;
        let c = &self.edit_cfg;
        if idx == 0 { yn(p.toast_enabled) }
        else if idx == 1 { u64_to_string(p.toast_secs) }
        else if idx == 2 { yn(p.notify_mentions) }
        else if idx == 3 { yn(p.show_relative_time) }
        else if idx == 4 { yn(p.show_typing) }
        else if idx == 5 { yn(c.download_media) }
        else if idx == 6 { yn(c.debug) }
        else if idx == 7 { yn(c.print_muted_dm) }
        else if idx == 8 { yn(c.dm_track) }
        else if idx == 9 { yn(c.server_track) }
        else if idx == 10 { yn(c.track_myself) }
        else if idx == 11 { u64_to_string(c.message_buffer_size as u64) }
        else if idx == 12 { match &c.voice_input_device { Some(d) => d.clone(), None => owned("(default)") } }
        else if idx == 13 { match &c.voice_output_device { Some(d) => d.clone(), None => owned("(default)") } }
        else if idx == 14 { yn(p.dsp_rx) }
        else if idx == 15 { yn(p.dsp_tx) }
        else { String::new() }
    }

    /// Changes settings row `idx`: a switch is flipped (whatever `delta`), the toast
    /// duration moves by `delta` seconds within 1..=60, the buffer size by `50 * delta`
    /// within 50..=10000; text rows and rows past the last are left alone.
    pub fn setting_adjust(&mut self, idx: usize, delta: i64)
        requires
            idx == 1 ==> i64::MIN <= old(self).prefs.toast_secs as i64 + delta <= i64::MAX,
            idx == 11 ==> i64::MIN <= delta * 50 <= i64::MAX,
            idx == 11 ==> i64::MIN <= old(self).edit_cfg.message_buffer_size as i64 + delta * 50 <= i64::MAX,
        ensures
            (final(self).prefs, final(self).edit_cfg) == adjusted(old(self).prefs, old(self).edit_cfg, idx as int, delta as int),
            *final(self) == (AppState { prefs: final(self).prefs, edit_cfg: final(self).edit_cfg, ..*old(self) }),
    {
        let mut c = EditCfg::empty();
        std::mem::swap(&mut c, &mut self.edit_cfg);
        let (p2, c2) = adjust_values(self.prefs, c, idx, delta);
        self.prefs = p2;
        self.edit_cfg = c2;
    }

    /// Sets a text row (12: input device, 13: output device) from `val`: the trimmed text,
    /// or none when it is blank; the device of the running session changes with it.
    pub fn setting_set_text(&mut self, idx: usize, val: String)
        ensures
            text_set_rel(*old(self), *final(self), idx, val),
    {
        let t = trim(val.as_str());
        let v: Option<String> = if t.as_str().is_empty() { None } else { Some(t) };
        if idx == 12 {
            self.edit_cfg.voice_input_device = copy_opt(&v);
            self.voice.voice_input_device = v;
        } else if idx == 13 {
            self.edit_cfg.voice_output_device = copy_opt(&v);
            self.voice.voice_output_device = v;
        }
    }

    /// How long a toast stays, in whole seconds (at least one).
    pub fn toast_ttl(&self) -> (r: u64)
        ensures
            r == toast_ttl_secs(self.prefs),
    {
        if self.prefs.toast_secs < 1 { 1 } else { self.prefs.toast_secs }
    }

    /// Raises a notification at clock time `now_ms`: when toasts are enabled, expired
    /// toasts are dropped, the new one is appended, and only the five newest are kept.
    pub fn push_toast(&mut self, title: String, body: String, now_ms: u64)
        ensures
            !old(self).prefs.toast_enabled ==> *final(self) == *old(self),
            old(self).prefs.toast_enabled ==> final(self).panels.notifications@ == last_n(
                live_toasts(old(self).panels.notifications@, now_ms, toast_ttl_secs(old(self).prefs)).push(
                    Toast { title, body, at_ms: now_ms },
                ),
                5,
            ),
            final(self).panels == (Panels { notifications: final(self).panels.notifications, ..old(self).panels }),
            *final(self) == (AppState { panels: final(self).panels, ..*old(self) }),
    {
        if !self.prefs.toast_enabled {
            return;
        }
        let ttl = self.toast_ttl();
        let kept = live_only(&self.panels.notifications, now_ms, ttl);
        let mut v = kept;
        v.push(Toast { title, body, at_ms: now_ms });
        let ghost full = v@;
        let n = v.len();
        let out = if n > 5 { split_tail(v, n - 5) } else { v };
        proof {
            if n <= 5 {
                assert(last_n(full, 5) == full);
            }
        }
        self.panels.notifications = out;
    }
}

/// Preferences and configuration after adjusting settings row `idx` by `delta`.
#[verifier::rlimit(30)]
pub fn adjust_values(p: UiPrefs, c: EditCfg, idx: usize, delta: i64) -> (r: (UiPrefs, EditCfg))
    requires
        idx == 1 ==> i64::MIN <= p.toast_secs as i64 + delta <= i64::MAX,
        idx == 11 ==> i64::MIN <= delta * 50 <= i64::MAX,
        idx == 11 ==> i64::MIN <= c.message_buffer_size as i64 + delta * 50 <= i64::MAX,
    ensures
        r == adjusted(p, c, idx as int, delta as int),
{
    let mut p = p;
    let mut c = c;
    if idx == 0 { p.toast_enabled = !p.toast_enabled; }
    else if idx == 1 {
        let v = p.toast_secs as i64 + delta;
        p.toast_secs = (if v < 1 { 1 } else if v > 60 { 60 } else { v }) as u64;
    }
    else if idx == 2 { p.notify_mentions = !p.notify_mentions; }
    else if idx == 3 { p.show_relative_time = !p.show_relative_time; }
    else if idx == 4 { p.show_typing = !p.show_typing; }
    else if idx == 5 { c.download_media = !c.download_media; }
    else if idx == 6 { c.debug = !c.debug; }
    else if idx == 7 { c.print_muted_dm = !c.print_muted_dm; }
    else if idx == 8 { c.dm_track = !c.dm_track; }
    else if idx == 9 { c.server_track = !c.server_track; }
    else if idx == 10 { c.track_myself = !c.track_myself; }
    else if idx == 11 {
        let v = c.message_buffer_size as i64 + delta * 50;
        c.message_buffer_size = (if v < 50 { 50 } else if v > 10000 { 10000 } else { v }) as usize;
    }
    else if idx == 14 { p.dsp_rx = !p.dsp_rx; }
    else if idx == 15 { p.dsp_tx = !p.dsp_tx; }
    (p, c)
}

/// `true` when some channel of `v` is in `set`.
pub fn any_in_set(v: &[ChannelSummary], set: &HashSet<u64>) -> (r: bool)
    ensures
        r == any_unread(v@, set@),
{
    let mut i: usize = 0;
    while i < v.len()
        invariant
            0 <= i <= v.len(),
            forall|j: int| 0 <= j < i ==> !set@.contains(v@[j].id.0),
        decreases v.len() - i,
    {
        if set.contains(&v[i].id.0) {
            return true;
        }
        i += 1;
    }
    false
}

/// An optional string by its characters.
pub open spec fn opt_view(o: Option<String>) -> Option<Seq<char>> {
    match o {
        Some(s) => Some(s@),
        None => None,
    }
}

/// The device named by a text field: its trimmed text, or none when blank.
pub open spec fn device_choice(val: Seq<char>) -> Option<Seq<char>> {
    if trim_spec(val).len() == 0 { None } else { Some(trim_spec(val)) }
}

/// The text of a device field: the device, or `(default)`.
pub open spec fn device_text(d: Option<String>) -> Seq<char> {
    match d {
        Some(s) => s@,
        None => "(default)"@,
    }
}

/// The value shown for settings row `i`.
pub open spec fn setting_text(p: UiPrefs, c: EditCfg, i: int) -> Seq<char> {
    if i == 0 { yn_text(p.toast_enabled) }
    else if i == 1 { dec(p.toast_secs as nat) }
    else if i == 2 { yn_text(p.notify_mentions) }
    else if i == 3 { yn_text(p.show_relative_time) }
    else if i == 4 { yn_text(p.show_typing) }
    else if i == 5 { yn_text(c.download_media) }
    else if i == 6 { yn_text(c.debug) }
    else if i == 7 { yn_text(c.print_muted_dm) }
    else if i == 8 { yn_text(c.dm_track) }
    else if i == 9 { yn_text(c.server_track) }
    else if i == 10 { yn_text(c.track_myself) }
    else if i == 11 { dec(c.message_buffer_size as nat) }
    else if i == 12 { device_text(c.voice_input_device) }
    else if i == 13 { device_text(c.voice_output_device) }
    else if i == 14 { yn_text(p.dsp_rx) }
    else if i == 15 { yn_text(p.dsp_tx) }
    else { Seq::empty() }
}

/// `v` limited to `lo..=hi`.
pub open spec fn clamp(v: int, lo: int, hi: int) -> int {
    if v < lo { lo } else if v > hi { hi } else { v }
}

/// Preferences and configuration after adjusting row `i` by `delta`.
pub open spec fn adjusted(p: UiPrefs, c: EditCfg, i: int, delta: int) -> (UiPrefs, EditCfg) {
    if i == 0 { (UiPrefs { toast_enabled: !p.toast_enabled, ..p }, c) }
    else if i == 1 { (UiPrefs { toast_secs: clamp(p.toast_secs as i64 + delta, 1, 60) as u64, ..p }, c) }
    else if i == 2 { (UiPrefs { notify_mentions: !p.notify_mentions, ..p }, c) }
    else if i == 3 { (UiPrefs { show_relative_time: !p.show_relative_time, ..p }, c) }
    else if i == 4 { (UiPrefs { show_typing: !p.show_typing, ..p }, c) }
    else if i == 5 { (p, EditCfg { download_media: !c.download_media, ..c }) }
    else if i == 6 { (p, EditCfg { debug: !c.debug, ..c }) }
    else if i == 7 { (p, EditCfg { print_muted_dm: !c.print_muted_dm, ..c }) }
    else if i == 8 { (p, EditCfg { dm_track: !c.dm_track, ..c }) }
    else if i == 9 { (p, EditCfg { server_track: !c.server_track, ..c }) }
    else if i == 10 { (p, EditCfg { track_myself: !c.track_myself, ..c }) }
    else if i == 11 { (p, EditCfg { message_buffer_size: clamp(c.message_buffer_size as i64 + delta * 50, 50, 10000) as usize, ..c }) }
    else if i == 14 { (UiPrefs { dsp_rx: !p.dsp_rx, ..p }, c) }
    else if i == 15 { (UiPrefs { dsp_tx: !p.dsp_tx, ..p }, c) }
    else { (p, c) }
}

/// Adjusting a switch row twice restores the settings.
pub proof fn law_switch_twice(p: UiPrefs, c: EditCfg, i: int, d1: int, d2: int)
    requires
        setting_kind_of(i) == SettingKind::Bool,
    ensures
        ({
            let (p1, c1) = adjusted(p, c, i, d1);
            adjusted(p1, c1, i, d2)
        }) == (p, c),
{
    if i == 0 || i == 2 || i == 3 || i == 4 || i == 14 || i == 15 {
        assert(adjusted(p, c, i, d1).1 == c);
    } else if 5 <= i <= 10 {
        assert(adjusted(p, c, i, d1).0 == p);
    } else {
        assert(adjusted(p, c, i, d1) == (p, c));
    }
}

/// Adjusting keeps the toast duration within 1..=60 seconds and the buffer size within
/// 50..=10000 once they are there.
pub proof fn law_adjust_bounds(p: UiPrefs, c: EditCfg, i: int, delta: int)
    requires
        1 <= p.toast_secs <= 60,
        50 <= c.message_buffer_size <= 10000,
    ensures
        1 <= adjusted(p, c, i, delta).0.toast_secs <= 60,
        50 <= adjusted(p, c, i, delta).1.message_buffer_size <= 10000,
{
}

/// Toast lifetime in seconds: the preference, at least one.
pub open spec fn toast_ttl_secs(p: UiPrefs) -> u64 {
    if p.toast_secs < 1 { 1 } else { p.toast_secs }
}

/// `true` when a toast raised at `at` is still shown at `now` (elapsed time saturates at
/// zero).
pub open spec fn toast_alive(t: Toast, now: u64, ttl_secs: u64) -> bool {
    (if now >= t.at_ms { now - t.at_ms } else { 0 }) < ttl_secs * 1000
}

/// The toasts still shown at `now`, in order.
pub open spec fn live_toasts(v: Seq<Toast>, now: u64, ttl_secs: u64) -> Seq<Toast>
    decreases v.len(),
{
    if v.len() == 0 {
        v
    } else {
        let r = live_toasts(v.drop_last(), now, ttl_secs);
        if toast_alive(v.last(), now, ttl_secs) { r.push(v.last()) } else { r }
    }
}

/// The last `n` elements of `v` (all of them when there are fewer).
pub open spec fn last_n<T>(v: Seq<T>, n: nat) -> Seq<T> {
    if v.len() <= n { v } else { v.skip(v.len() - n) }
}

/// Copy of a toast.
pub fn copy_toast(t: &Toast) -> (r: Toast)
    ensures
        r == *t,
{
    Toast { title: t.title.clone(), body: t.body.clone(), at_ms: t.at_ms }
}

/// `true` when the toast is still shown at `now`.
pub fn alive(t: &Toast, now: u64, ttl_secs: u64) -> (r: bool)
    ensures
        r == toast_alive(*t, now, ttl_secs),
{
    let e = if now >= t.at_ms { now - t.at_ms } else { 0 };
    e / 1000 < ttl_secs
}

/// The toasts of `v` still shown at `now`.
pub fn live_only(v: &Vec<Toast>, now: u64, ttl_secs: u64) -> (r: Vec<Toast>)
    ensures
        r@ == live_toasts(v@, now, ttl_secs),
{
    let mut out: Vec<Toast> = Vec::new();
    let mut i: usize = 0;
    while i < v.len()
        invariant
            0 <= i <= v.len(),
            out@ == live_toasts(v@.take(i as int), now, ttl_secs),
        decreases v.len() - i,
    {
        assert(v@.take(i + 1).drop_last() =~= v@.take(i as int));
        if alive(&v[i], now, ttl_secs) {
            out.push(copy_toast(&v[i]));
        }
        i += 1;
    }
    assert(v@.take(v.len() as int) =~= v@);
    out
}

/// The elements of `v` from position `k` on.
pub fn split_tail<T>(v: Vec<T>, k: usize) -> (r: Vec<T>)
    requires
        k <= v.len(),
    ensures
        r@ == v@.skip(k as int),
{
    let mut v = v;
    let r = v.split_off(k);
    r
}

/// `true` when some channel of `v` has id `c`.
pub fn channel_in(v: &[ChannelSummary], c: u64) -> (r: bool)
    ensures
        r == has_channel(v@, c),
{
    let mut i: usize = 0;
    while i < v.len()
        invariant
            0 <= i <= v.len(),
            forall|j: int| 0 <= j < i ==> v@[j].id.0 != c,
        decreases v.len() - i,
    {
        if v[i].id.0 == c {
            return true;
        }
        i += 1;
    }
    false
}


/// A channel's message list never grows past its cap: appending to a list within the cap
/// keeps it within the cap, and the appended message is the newest.
pub proof fn law_message_cap(v: Seq<DisplayMessage>, m: DisplayMessage)
    requires
        v.len() <= channel_history_cap(),
    ensures
        appended(v, m).len() <= channel_history_cap(),
        appended(v, m).last() == m,
        v.len() < channel_history_cap() ==> appended(v, m).drop_last() == v,
{
    if v.len() < channel_history_cap() {
        assert(appended(v, m).drop_last() =~= v);
    }
}

} // verus!
