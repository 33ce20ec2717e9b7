use vstd::prelude::*;
#[allow(unused_imports)]
use crate::snowflake::SnowflakeID;

verus! {

/// Gateway payload `Struct` (guild member remove), as the fields the client reads.
#[derive(Clone, Debug)]
pub struct Struct {
    pub tag: String,
    pub identity_guild_id: String,
    pub identity_enabled: bool,
    pub badge: String,
}

/// Gateway payload `User` (guild member remove), as the fields the client reads.
#[derive(Clone, Debug)]
pub struct User {
    pub username: String,
    pub public_flags: i64,
    pub primary_guild: Option<Struct>,
    pub id: String,
    pub global_name: String,
    pub discriminator: String,
    pub clan: Option<Struct>,
    pub avatar: String,
}

/// Gateway payload of a member leaving a guild: the user and the guild.
#[derive(Clone, Debug)]
pub struct GuildMemberRemove {
    pub user: User,
    pub guild_id: SnowflakeID,
}

} // verus!
