use vstd::prelude::*;
#[allow(unused_imports)]
use crate::snowflake::SnowflakeID;

verus! {

/// Gateway payload `ChannelCreateData` (channel create), as the fields the client reads.
#[derive(Clone, Debug)]
pub struct ChannelCreateData {
    pub type_field: i64,
    pub id: SnowflakeID,
    pub name: String,
    pub guild_id: SnowflakeID,
    pub position: i64,
    pub flags: i64,
    pub parent_id: Option<SnowflakeID>,
    pub topic: Option<String>,
    pub nsfw: Option<bool>,
    pub last_message_id: Option<SnowflakeID>,
    pub last_pin_timestamp: Option<String>,
    pub rate_limit_per_user: Option<i64>,
    pub bitrate: Option<i64>,
    pub user_limit: Option<i64>,
    pub rtc_region: Option<String>,
    pub video_quality_mode: Option<i64>,
    pub permission_overwrites: Vec<PermissionOverwrite>,
    pub theme_color: Option<i64>,
}

/// Gateway payload `PermissionOverwrite` (channel create), as the fields the client reads.
#[derive(Clone, Debug)]
pub struct PermissionOverwrite {
    pub type_field: i64,
    pub id: String,
    pub deny: String,
    pub allow: String,
}

} // verus!
