use vstd::prelude::*;
#[allow(unused_imports)]
use crate::snowflake::SnowflakeID;

verus! {

/// Gateway payload `TypingData` (typing start), as the fields the client reads.
#[derive(Clone, Debug)]
pub struct TypingData {
    pub user_id: SnowflakeID,
    pub timestamp: i64,
    pub member: Option<Member>,
    pub channel_id: SnowflakeID,
    pub guild_id: Option<SnowflakeID>,
}

/// Gateway payload `Member` (typing start), as the fields the client reads.
#[derive(Clone, Debug)]
pub struct Member {
    pub user: User,
    pub roles: Vec<String>,
    pub pending: bool,
    pub nick: Option<String>,
    pub mute: bool,
    pub joined_at: String,
    pub flags: i64,
    pub deaf: bool,
}

/// Gateway payload `User` (typing start), as the fields the client reads.
#[derive(Clone, Debug)]
pub struct User {
    pub username: String,
    pub public_flags: i64,
    pub id: SnowflakeID,
    pub global_name: Option<String>,
    pub display_name: Option<String>,
    pub discriminator: String,
    pub bot: bool,
    pub avatar: Option<String>,
}

} // verus!
