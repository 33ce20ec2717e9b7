use vstd::prelude::*;
#[allow(unused_imports)]
use crate::snowflake::SnowflakeID;

verus! {

/// Gateway payload `GuildIntegrationsUpdate` (guild integration update), as the fields the client reads.
#[derive(Clone, Debug)]
pub struct GuildIntegrationsUpdate {
    pub guild_id: SnowflakeID,
}

} // verus!
