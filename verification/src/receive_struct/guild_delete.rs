use vstd::prelude::*;
#[allow(unused_imports)]
use crate::snowflake::SnowflakeID;

verus! {

/// Gateway payload of a guild delete: the guild's id.
#[derive(Clone, Debug)]
pub struct GuildDelete {
    pub id: SnowflakeID,
}

} // verus!
