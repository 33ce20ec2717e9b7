use vstd::prelude::*;
#[allow(unused_imports)]
use crate::snowflake::SnowflakeID;

verus! {

/// Gateway payload `VoiceStateUpdateData` (voice state update), as the fields the client reads.
#[derive(Clone, Debug)]
pub struct VoiceStateUpdateData {
    pub member: Option<Member>,
    pub user_id: SnowflakeID,
    pub suppress: bool,
    pub session_id: String,
    pub self_video: bool,
    pub self_mute: bool,
    pub self_deaf: bool,
    pub mute: bool,
    pub guild_id: Option<SnowflakeID>,
    pub deaf: bool,
    pub channel_id: Option<SnowflakeID>,
    pub self_stream: Option<bool>,
}

/// Gateway payload `Member` (voice state update), as the fields the client reads.
#[derive(Clone, Debug)]
pub struct Member {
    pub user: User,
    pub pending: bool,
    pub mute: bool,
    pub joined_at: String,
    pub flags: i64,
    pub deaf: bool,
}

/// Gateway payload `User` (voice state update), as the fields the client reads.
#[derive(Clone, Debug)]
pub struct User {
    pub username: String,
    pub public_flags: i64,
    pub id: SnowflakeID,
    pub global_name: String,
    pub display_name: String,
    pub discriminator: String,
    pub bot: bool,
}

} // verus!
