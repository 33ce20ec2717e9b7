use vstd::prelude::*;
#[allow(unused_imports)]
use crate::snowflake::SnowflakeID;

verus! {

/// Gateway payload `UserGuildSettingsUpdateData` (user guild settings update), as the fields the client reads.
#[derive(Clone, Debug)]
pub struct UserGuildSettingsUpdateData {
    pub version: i64,
    pub suppress_roles: bool,
    pub suppress_everyone: bool,
    pub notify_highlights: i64,
    pub muted: bool,
    pub mute_scheduled_events: bool,
    pub mute_config: Option<MuteConfig>,
    pub mobile_push: bool,
    pub message_notifications: i64,
    pub hide_muted_channels: bool,
    pub guild_id: Option<SnowflakeID>,
    pub flags: i64,
    pub channel_overrides: Vec<ChannelOverride>,
}

/// Gateway payload `MuteConfig` (user guild settings update), as the fields the client reads.
#[derive(Clone, Debug)]
pub struct MuteConfig {
    pub selected_time_window: i64,
    pub end_time: Option<String>,
}

/// Gateway payload `ChannelOverride` (user guild settings update), as the fields the client reads.
#[derive(Clone, Debug)]
pub struct ChannelOverride {
    pub muted: bool,
    pub mute_config: Option<MuteConfig2>,
    pub message_notifications: i64,
    pub flags: Option<i64>,
    pub collapsed: bool,
    pub channel_id: SnowflakeID,
}

/// Gateway payload `MuteConfig2` (user guild settings update), as the fields the client reads.
#[derive(Clone, Debug)]
pub struct MuteConfig2 {
    pub selected_time_window: i64,
    pub end_time: Option<String>,
}

} // verus!
