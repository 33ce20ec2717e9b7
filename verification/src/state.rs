use std::collections::{HashMap, HashSet};
use vstd::prelude::*;
use crate::decimal::{dec, u64_to_string};
use crate::snowflake::SnowflakeID;
use crate::text::{owned, string_from_chars, trim, trim_spec};

verus! {

broadcast use {vstd::std_specs::hash::group_hash_axioms, vstd::seq_lib::group_seq_properties};

/// The pseudo-guild under which direct-message channels are listed.
pub open spec fn dm_guild() -> u64 {
    0
}

/// How long a typing indicator stays visible, in milliseconds.
pub open spec fn typing_ttl_ms() -> u64 {
    9000
}

/// Capacity of the per-channel message list.
pub open spec fn channel_history_cap() -> nat {
    500
}

/// Online status of a user.
#[derive(Clone, Copy, Debug, PartialEq, Eq, Structural)]
pub enum PresenceStatus {
    Online,
    Idle,
    Dnd,
    Offline,
}

/// Status named by a gateway status string: `online`, `idle`, `dnd`, anything else offline.
pub open spec fn presence_of_text(s: Seq<char>) -> PresenceStatus {
    if s == "online"@ {
        PresenceStatus::Online
    } else if s == "idle"@ {
        PresenceStatus::Idle
    } else if s == "dnd"@ {
        PresenceStatus::Dnd
    } else {
        PresenceStatus::Offline
    }
}

/// The glyph drawn for a status.
pub open spec fn glyph_of(p: PresenceStatus) -> Seq<char> {
    match p {
        PresenceStatus::Online => "●"@,
        PresenceStatus::Idle => "◐"@,
        PresenceStatus::Dnd => "⏼"@,
        PresenceStatus::Offline => "○"@,
    }
}

/// String equality of two slices.
pub fn str_eq(a: &str, b: &str) -> (r: bool)
    ensures
        r == (a@ == b@),
{
    let x = owned(a);
    let y = owned(b);
    x == y
}

impl PresenceStatus {
    /// Parses a gateway status string.
    pub fn parse(s: &str) -> (r: Self)
        ensures
            r == presence_of_text(s@),
    {
        if str_eq(s, "online") {
            PresenceStatus::Online
        } else if str_eq(s, "idle") {
            PresenceStatus::Idle
        } else if str_eq(s, "dnd") {
            PresenceStatus::Dnd
        } else {
            PresenceStatus::Offline
        }
    }

    /// The glyph drawn for this status.
    pub fn glyph(self) -> (r: &'static str)
        ensures
            r@ == glyph_of(self),
    {
        match self {
            PresenceStatus::Online => "●",
            PresenceStatus::Idle => "◐",
            PresenceStatus::Dnd => "⏼",
            PresenceStatus::Offline => "○",
        }
    }

    /// Sort rank in member lists: online first, offline last.
    pub fn rank(self) -> (r: i128)
        ensures
            r == rank_of(self),
    {
        match self {
            PresenceStatus::Online => 0,
            PresenceStatus::Idle => 1,
            PresenceStatus::Dnd => 2,
            PresenceStatus::Offline => 3,
        }
    }

    /// Lower-case name of the status (`online`, `idle`, `dnd`, `offline`).
    pub fn lower_name(self) -> (r: &'static str)
        ensures
            r@ == lower_name_of(self),
    {
        match self {
            PresenceStatus::Online => "online",
            PresenceStatus::Idle => "idle",
            PresenceStatus::Dnd => "dnd",
            PresenceStatus::Offline => "offline",
        }
    }
}

/// Sort rank of a status in member lists.
pub open spec fn rank_of(p: PresenceStatus) -> int {
    match p {
        PresenceStatus::Online => 0,
        PresenceStatus::Idle => 1,
        PresenceStatus::Dnd => 2,
        PresenceStatus::Offline => 3,
    }
}

/// Lower-case name of a status.
pub open spec fn lower_name_of(p: PresenceStatus) -> Seq<char> {
    match p {
        PresenceStatus::Online => "online"@,
        PresenceStatus::Idle => "idle"@,
        PresenceStatus::Dnd => "dnd"@,
        PresenceStatus::Offline => "offline"@,
    }
}

/// The pane that has keyboard focus.
#[derive(Clone, Copy, Debug, PartialEq, Eq, Structural)]
pub enum Focus {
    ServerBar,
    Channels,
    Messages,
    Input,
}

/// Focus order used by Tab.
pub open spec fn focus_next(f: Focus) -> Focus {
    match f {
        Focus::ServerBar => Focus::Channels,
        Focus::Channels => Focus::Messages,
        Focus::Messages => Focus::Input,
        Focus::Input => Focus::ServerBar,
    }
}

/// Focus order used by Shift+Tab.
pub open spec fn focus_prev(f: Focus) -> Focus {
    match f {
        Focus::ServerBar => Focus::Input,
        Focus::Channels => Focus::ServerBar,
        Focus::Messages => Focus::Channels,
        Focus::Input => Focus::Messages,
    }
}

impl Focus {
    /// The next pane.
    pub fn next(self) -> (r: Self)
        ensures
            r == focus_next(self),
    {
        match self {
            Focus::ServerBar => Focus::Channels,
            Focus::Channels => Focus::Messages,
            Focus::Messages => Focus::Input,
            Focus::Input => Focus::ServerBar,
        }
    }

    /// The previous pane.
    pub fn prev(self) -> (r: Self)
        ensures
            r == focus_prev(self),
    {
        match self {
            Focus::ServerBar => Focus::Input,
            Focus::Channels => Focus::ServerBar,
            Focus::Messages => Focus::Channels,
            Focus::Input => Focus::Messages,
        }
    }
}

/// Moving focus forward then back, or back then forward, returns to the same pane.
pub proof fn law_focus_round_trip(f: Focus)
    ensures
        focus_prev(focus_next(f)) == f,
        focus_next(focus_prev(f)) == f,
{
}

/// Four steps forward visit every pane and return to the start.
pub proof fn law_focus_cycle(f: Focus)
    ensures
        focus_next(focus_next(focus_next(focus_next(f)))) == f,
        f != focus_next(f),
{
}

/// A server in the server bar.
#[derive(Clone, Debug)]
pub struct GuildSummary {
    pub id: SnowflakeID,
    pub name: String,
    pub icon_url: Option<String>,
}

/// A channel in the channel list.
#[derive(Clone, Debug)]
pub struct ChannelSummary {
    pub id: SnowflakeID,
    pub name: String,
    pub recipient_id: Option<SnowflakeID>,
    pub kind: i64,
    pub parent_id: Option<SnowflakeID>,
    pub position: i64,
    pub last_activity: u64,
    pub avatar_url: Option<String>,
}

/// A channel entry by the characters of its strings.
pub struct ChanView {
    pub id: SnowflakeID,
    pub name: Seq<char>,
    pub recipient_id: Option<SnowflakeID>,
    pub kind: i64,
    pub parent_id: Option<SnowflakeID>,
    pub position: i64,
    pub last_activity: u64,
    pub avatar_url: Option<Seq<char>>,
}

/// The view of a channel entry.
pub open spec fn cv(c: ChannelSummary) -> ChanView {
    ChanView {
        id: c.id,
        name: c.name@,
        recipient_id: c.recipient_id,
        kind: c.kind,
        parent_id: c.parent_id,
        position: c.position,
        last_activity: c.last_activity,
        avatar_url: match c.avatar_url { Some(u) => Some(u@), None => None },
    }
}

/// The views of channel entries.
pub open spec fn cvs(s: Seq<ChannelSummary>) -> Seq<ChanView> {
    s.map_values(|c: ChannelSummary| cv(c))
}

/// Channel kinds that hold text: text, DM, group DM, announcement, the thread kinds and
/// forum.
pub open spec fn textual_kind(k: i64) -> bool {
    k == 0 || k == 1 || k == 3 || k == 5 || k == 10 || k == 11 || k == 12 || k == 15
}

/// A copy of an optional string.
pub fn copy_opt(s: &Option<String>) -> (r: Option<String>)
    ensures
        r == *s,
{
    match s {
        Some(x) => Some(x.clone()),
        None => None,
    }
}

impl ChannelSummary {
    /// `true` for channels that hold text.
    pub fn is_textual(&self) -> (r: bool)
        ensures
            r == textual_kind(self.kind),
    {
        let k = self.kind;
        k == 0 || k == 1 || k == 3 || k == 5 || k == 10 || k == 11 || k == 12 || k == 15
    }

    /// An identical copy.
    pub fn duplicate(&self) -> (r: Self)
        ensures
            r == *self,
    {
        ChannelSummary {
            id: self.id,
            name: self.name.clone(),
            recipient_id: self.recipient_id,
            kind: self.kind,
            parent_id: self.parent_id,
            position: self.position,
            last_activity: self.last_activity,
            avatar_url: copy_opt(&self.avatar_url),
        }
    }
}

impl GuildSummary {
    /// An identical copy.
    pub fn duplicate(&self) -> (r: Self)
        ensures
            r == *self,
    {
        GuildSummary { id: self.id, name: self.name.clone(), icon_url: copy_opt(&self.icon_url) }
    }
}

/// A guild entry by the characters of its strings.
pub struct GuildView {
    pub id: SnowflakeID,
    pub name: Seq<char>,
    pub icon_url: Option<Seq<char>>,
}

/// The view of a guild entry.
pub open spec fn gv(g: GuildSummary) -> GuildView {
    GuildView { id: g.id, name: g.name@, icon_url: match g.icon_url { Some(u) => Some(u@), None => None } }
}

/// A voice channel member by the characters of its name.
pub struct MemberView {
    pub id: SnowflakeID,
    pub name: Seq<char>,
    pub mute: bool,
    pub deaf: bool,
    pub video: bool,
    pub stream: bool,
}

/// The view of a voice channel member.
pub open spec fn mv(m: VoiceMember) -> MemberView {
    MemberView { id: m.id, name: m.name@, mute: m.mute, deaf: m.deaf, video: m.video, stream: m.stream }
}

/// The views of voice channel members.
pub open spec fn mvs(s: Seq<VoiceMember>) -> Seq<MemberView> {
    s.map_values(|m: VoiceMember| mv(m))
}

/// A user in a voice channel.
#[derive(Clone, Debug)]
pub struct VoiceMember {
    pub id: SnowflakeID,
    pub name: String,
    pub mute: bool,
    pub deaf: bool,
    pub video: bool,
    pub stream: bool,
}

/// One entry of the quick-switcher results.
#[derive(Clone, Debug)]
pub struct SearchHit {
    pub icon: char,
    pub label: String,
    pub sub: String,
    pub guild: Option<SnowflakeID>,
    pub channel: Option<SnowflakeID>,
}

/// Connection details gathered for a stream that is being watched or broadcast.
#[derive(Clone, Debug)]
pub struct PendingStream {
    pub uid: u64,
    pub token: Option<String>,
    pub endpoint: Option<String>,
    pub server: Option<String>,
}

/// A desktop notification, stamped with the millisecond clock at which it was raised.
#[derive(Clone, Debug)]
pub struct Toast {
    pub title: String,
    pub body: String,
    pub at_ms: u64,
}

/// A message as the message pane shows it. The time is in milliseconds since the epoch.
#[derive(Clone, Debug)]
pub struct DisplayMessage {
    pub id: SnowflakeID,
    pub channel_id: SnowflakeID,
    pub author: String,
    pub author_id: SnowflakeID,
    pub content: String,
    pub timestamp_ms: i64,
    pub edited: bool,
    pub is_self: bool,
    pub attachment_images: Vec<(SnowflakeID, String)>,
    pub reply_to: Option<(String, String)>,
    pub reactions: Vec<(String, u32)>,
}

/// Display preferences.
#[derive(Clone, Copy, Debug)]
pub struct UiPrefs {
    pub toast_enabled: bool,
    pub toast_secs: u64,
    pub notify_mentions: bool,
    pub show_relative_time: bool,
    pub show_typing: bool,
    pub dsp_rx: bool,
    pub dsp_tx: bool,
    pub self_mute: bool,
    pub self_deaf: bool,
}

impl UiPrefs {
    /// The defaults: toasts on for six seconds, mention notices, relative times, typing
    /// indicators and both audio filters on, microphone and sound not muted.
    pub fn defaults() -> (r: Self)
        ensures
            r.toast_enabled && r.toast_secs == 6 && r.notify_mentions && r.show_relative_time
                && r.show_typing && r.dsp_rx && r.dsp_tx && !r.self_mute && !r.self_deaf,
    {
        UiPrefs {
            toast_enabled: true,
            toast_secs: 6,
            notify_mentions: true,
            show_relative_time: true,
            show_typing: true,
            dsp_rx: true,
            dsp_tx: true,
            self_mute: false,
            self_deaf: false,
        }
    }
}

/// The editable part of the configuration file.
#[derive(Clone, Debug)]
pub struct EditCfg {
    pub download_media: bool,
    pub debug: bool,
    pub print_muted_dm: bool,
    pub dm_track: bool,
    pub server_track: bool,
    pub track_myself: bool,
    pub message_buffer_size: usize,
    pub voice_input_device: Option<String>,
    pub voice_output_device: Option<String>,
}

impl EditCfg {
    /// All switches off, a zero buffer size and no devices.
    pub fn empty() -> (r: Self)
        ensures
            !r.download_media && !r.debug && !r.print_muted_dm && !r.dm_track && !r.server_track
                && !r.track_myself && r.message_buffer_size == 0 && r.voice_input_device is None
                && r.voice_output_device is None,
    {
        EditCfg {
            download_media: false,
            debug: false,
            print_muted_dm: false,
            dm_track: false,
            server_track: false,
            track_myself: false,
            message_buffer_size: 0,
            voice_input_device: None,
            voice_output_device: None,
        }
    }
}

/// How a settings row is edited.
#[derive(Clone, Copy, Debug, PartialEq, Eq, Structural)]
pub enum SettingKind {
    Bool,
    U64,
    Text,
}

/// A row of the settings screen.
#[derive(Clone, Copy, Debug)]
pub struct SettingRow {
    pub label: &'static str,
    pub kind: SettingKind,
}

/// Number of rows of the settings screen.
pub open spec fn settings_len() -> nat {
    16
}

/// Kind of each settings row: row 1 and 11 are numbers, rows 12 and 13 text, the rest
/// switches.
pub open spec fn setting_kind_of(i: int) -> SettingKind {
    if i == 1 || i == 11 {
        SettingKind::U64
    } else if i == 12 || i == 13 {
        SettingKind::Text
    } else {
        SettingKind::Bool
    }
}

/// The labels of the settings rows, in order.
pub open spec fn setting_labels() -> Seq<Seq<char>> {
    seq![
        "Desktop toasts (DM popups)"@,
        "Toast duration (seconds)"@,
        "Notify on @mentions (servers)"@,
        "Relative timestamps"@,
        "Show typing indicators"@,
        "Download media"@,
        "Debug logging"@,
        "Show muted DMs"@,
        "Track DMs"@,
        "Track servers"@,
        "Track myself"@,
        "Message buffer size"@,
        "Voice input device"@,
        "Voice output device"@,
        "RX audio filters (HPF/gate/comp/AGC)"@,
        "TX audio filters (HPF/gate/comp/AGC)"@,
    ]
}

/// The rows of the settings screen, in order.
pub fn settings() -> (r: Vec<SettingRow>)
    ensures
        r@.len() == settings_len(),
        forall|i: int| 0 <= i < r@.len() ==> (#[trigger] r@[i]).kind == setting_kind_of(i),
        forall|i: int| 0 <= i < r@.len() ==> (#[trigger] r@[i]).label@ == setting_labels()[i],
{
    let mut v: Vec<SettingRow> = Vec::new();
    v.push(SettingRow { label: "Desktop toasts (DM popups)", kind: SettingKind::Bool });
    v.push(SettingRow { label: "Toast duration (seconds)", kind: SettingKind::U64 });
    v.push(SettingRow { label: "Notify on @mentions (servers)", kind: SettingKind::Bool });
    v.push(SettingRow { label: "Relative timestamps", kind: SettingKind::Bool });
    v.push(SettingRow { label: "Show typing indicators", kind: SettingKind::Bool });
    v.push(SettingRow { label: "Download media", kind: SettingKind::Bool });
    v.push(SettingRow { label: "Debug logging", kind: SettingKind::Bool });
    v.push(SettingRow { label: "Show muted DMs", kind: SettingKind::Bool });
    v.push(SettingRow { label: "Track DMs", kind: SettingKind::Bool });
    v.push(SettingRow { label: "Track servers", kind: SettingKind::Bool });
    v.push(SettingRow { label: "Track myself", kind: SettingKind::Bool });
    v.push(SettingRow { label: "Message buffer size", kind: SettingKind::U64 });
    v.push(SettingRow { label: "Voice input device", kind: SettingKind::Text });
    v.push(SettingRow { label: "Voice output device", kind: SettingKind::Text });
    v.push(SettingRow { label: "RX audio filters (HPF/gate/comp/AGC)", kind: SettingKind::Bool });
    v.push(SettingRow { label: "TX audio filters (HPF/gate/comp/AGC)", kind: SettingKind::Bool });
    v
}

/// Kind of settings row `i`.
pub fn setting_kind(i: usize) -> (r: SettingKind)
    ensures
        r == setting_kind_of(i as int),
{
    if i == 1 || i == 11 {
        SettingKind::U64
    } else if i == 12 || i == 13 {
        SettingKind::Text
    } else {
        SettingKind::Bool
    }
}

/// `"on"` or `"off"`.
pub open spec fn yn_text(b: bool) -> Seq<char> {
    if b { "on"@ } else { "off"@ }
}

/// `"on"` or `"off"`.
pub fn yn(b: bool) -> (r: String)
    ensures
        r@ == yn_text(b),
{
    if b { owned("on") } else { owned("off") }
}

} // verus!
