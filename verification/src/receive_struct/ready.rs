use vstd::prelude::*;
#[allow(unused_imports)]
use crate::snowflake::SnowflakeID;

verus! {

/// Gateway payload `ReadyData` (ready), as the fields the client reads.
#[derive(Clone, Debug)]
pub struct ReadyData {
    pub user_settings: Option<UserSettings>,
    pub user_guild_settings: UserGuildSettingsContainer,
    pub user: Option<UserData>,
    pub sessions: Vec<SessionsData>,
    pub session_type: Option<String>,
    pub session_id: Option<String>,
    pub resume_gateway_url: Option<String>,
    pub private_channels: Option<Vec<PrivateChannels>>,
    pub users: Vec<UserStub>,
    pub guilds: Vec<Guild>,
}

/// Gateway payload `UserStub` (ready), as the fields the client reads.
#[derive(Clone, Debug)]
pub struct UserStub {
    pub id: String,
    pub username: String,
    pub global_name: Option<String>,
    pub bot: bool,
    pub avatar: Option<String>,
}

/// Gateway payload `UserGuildSettingsContainer` (ready), as the fields the client reads.
#[derive(Clone, Debug)]
pub struct UserGuildSettingsContainer {
    pub entries: Vec<UserGuildSetting>,
    pub version: i64,
    pub partial: bool,
}

/// Gateway payload `UserSettings` (ready), as the fields the client reads.
#[derive(Clone, Debug)]
pub struct UserSettings {
    pub status: String,
}

/// Gateway payload `UserGuildSetting` (ready), as the fields the client reads.
#[derive(Clone, Debug)]
pub struct UserGuildSetting {
    pub version: i64,
    pub suppress_roles: bool,
    pub suppress_everyone: bool,
    pub notify_highlights: i64,
    pub muted: bool,
    pub mute_scheduled_events: bool,
    pub mute_config: Option<MuteConfig>,
    pub mobile_push: bool,
    pub message_notifications: i64,
    pub hide_muted_channels: Option<bool>,
    pub guild_id: Option<SnowflakeID>,
    pub flags: Option<i64>,
    pub channel_overrides: Vec<ChannelOverride>,
}

/// Gateway payload `MuteConfig` (ready), as the fields the client reads.
#[derive(Clone, Debug)]
pub struct MuteConfig {
    pub selected_time_window: Option<i64>,
    pub end_time: Option<String>,
}

/// Gateway payload `ChannelOverride` (ready), as the fields the client reads.
#[derive(Clone, Debug)]
pub struct ChannelOverride {
    pub muted: bool,
    pub mute_config: Option<MuteConfig>,
    pub message_notifications: i64,
    pub collapsed: bool,
    pub channel_id: SnowflakeID,
    pub flags: Option<i64>,
}

/// Gateway payload `SessionsData` (ready), as the fields the client reads.
#[derive(Clone, Debug)]
pub struct SessionsData {
    pub status: String,
    pub session_id: String,
    pub client_info: Option<ClientInfo>,
}

/// Gateway payload `ClientInfo` (ready), as the fields the client reads.
#[derive(Clone, Debug)]
pub struct ClientInfo {
    pub client: String,
    pub os: String,
    pub version: u8,
}

/// Gateway payload `PrivateChannels` (ready), as the fields the client reads.
#[derive(Clone, Debug)]
pub struct PrivateChannels {
    pub type_field: i64,
    pub recipients: Vec<Recipient>,
    pub recipient_ids: Vec<String>,
    pub last_pin_timestamp: Option<String>,
    pub name: Option<String>,
    pub last_message_id: Option<SnowflakeID>,
    pub is_spam: Option<bool>,
    pub id: SnowflakeID,
    pub flags: i64,
}

/// Gateway payload `Recipient` (ready), as the fields the client reads.
#[derive(Clone, Debug)]
pub struct Recipient {
    pub username: String,
    pub public_flags: Option<i64>,
    pub id: String,
    pub global_name: Option<String>,
    pub discriminator: String,
    pub avatar: Option<String>,
}

/// Gateway payload `UserData` (ready), as the fields the client reads.
#[derive(Clone, Debug)]
pub struct UserData {
    pub username: String,
    pub id: SnowflakeID,
    pub global_name: String,
    pub avatar: Option<String>,
    pub email: Option<String>,
    pub discriminator: String,
    pub flags: i64,
    pub premium_type: Option<i64>,
    pub mfa_enabled: bool,
    pub verified: bool,
    pub phone: Option<String>,
    pub bio: Option<String>,
}

/// Gateway payload `Guild` (ready), as the fields the client reads.
#[derive(Clone, Debug)]
pub struct Guild {
    pub voice_states: Vec<GuildVoiceState>,
    pub id: SnowflakeID,
    pub properties: Option<GuildProperties>,
    pub name: Option<String>,
    pub icon: Option<String>,
    pub channels: Vec<Channel>,
    pub threads: Vec<Thread>,
    pub member_count: i64,
    pub large: bool,
    pub lazy: bool,
    pub joined_at: Option<String>,
}

/// Gateway payload `GuildProperties` (ready), as the fields the client reads.
#[derive(Clone, Debug)]
pub struct GuildProperties {
    pub name: Option<String>,
    pub icon: Option<String>,
    pub description: Option<String>,
    pub owner_id: Option<SnowflakeID>,
    pub banner: Option<String>,
    pub splash: Option<String>,
    pub vanity_url_code: Option<String>,
    pub features: Vec<String>,
    pub preferred_locale: Option<String>,
    pub afk_channel_id: Option<String>,
    pub afk_timeout: Option<i64>,
    pub max_members: Option<i64>,
    pub verification_level: Option<i64>,
    pub default_message_notifications: Option<i64>,
    pub explicit_content_filter: Option<i64>,
    pub mfa_level: Option<i64>,
    pub nsfw_level: Option<i64>,
    pub premium_tier: Option<i64>,
    pub system_channel_id: Option<String>,
    pub system_channel_flags: Option<i64>,
    pub public_updates_channel_id: Option<String>,
    pub rules_channel_id: Option<String>,
    pub safety_alerts_channel_id: Option<String>,
}

/// Gateway payload `Channel` (ready), as the fields the client reads.
#[derive(Clone, Debug)]
pub struct Channel {
    pub type_field: i64,
    pub id: SnowflakeID,
    pub name: String,
    pub position: i64,
    pub flags: i64,
    pub parent_id: Option<SnowflakeID>,
    pub topic: Option<String>,
    pub nsfw: Option<bool>,
    pub last_message_id: Option<SnowflakeID>,
    pub last_pin_timestamp: Option<String>,
    pub rate_limit_per_user: Option<i64>,
    pub bitrate: Option<i64>,
    pub user_limit: Option<i64>,
    pub rtc_region: Option<String>,
    pub video_quality_mode: Option<i64>,
    pub theme_color: Option<i64>,
    pub default_auto_archive_duration: Option<i64>,
    pub default_thread_rate_limit_per_user: Option<i64>,
    pub template: Option<String>,
    pub default_sort_order: Option<i64>,
    pub default_forum_layout: Option<i64>,
}

/// Gateway payload `Thread` (ready), as the fields the client reads.
#[derive(Clone, Debug)]
pub struct Thread {
    pub type_field: i64,
    pub id: SnowflakeID,
    pub name: String,
    pub flags: i64,
    pub parent_id: Option<SnowflakeID>,
    pub owner_id: Option<SnowflakeID>,
    pub guild_id: Option<SnowflakeID>,
    pub last_message_id: Option<SnowflakeID>,
    pub message_count: Option<i64>,
    pub member_count: Option<i64>,
    pub total_message_sent: Option<i64>,
    pub rate_limit_per_user: Option<i64>,
    pub member_ids_preview: Vec<String>,
    pub applied_tags: Vec<String>,
}

/// A voice state listed in a guild of the ready payload: the raw ids and the flags, each
/// flag false when absent.
#[derive(Clone, Debug)]
pub struct GuildVoiceState {
    pub user_id: Option<String>,
    pub channel_id: Option<String>,
    pub member_username: Option<String>,
    pub mute: bool,
    pub self_mute: bool,
    pub deaf: bool,
    pub self_deaf: bool,
    pub self_video: bool,
    pub self_stream: bool,
}

/// The name shown for a guild: its properties' name, else its own name, else `unknown`.
pub open spec fn guild_display_name(g: Guild) -> Seq<char> {
    match g.properties {
        Some(p) if p.name is Some => p.name->0@,
        _ => match g.name {
            Some(n) => n@,
            None => "unknown"@,
        },
    }
}

impl Guild {
    /// The name shown for this guild.
    pub fn display_name(&self) -> (r: &str)
        ensures
            r@ == guild_display_name(*self),
    {
        match &self.properties {
            Some(p) => match &p.name {
                Some(n) => return n.as_str(),
                None => {},
            },
            None => {},
        }
        match &self.name {
            Some(n) => n.as_str(),
            None => "unknown",
        }
    }
}

} // verus!
