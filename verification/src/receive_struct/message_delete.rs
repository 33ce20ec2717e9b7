use vstd::prelude::*;
#[allow(unused_imports)]
use crate::snowflake::SnowflakeID;

verus! {

/// Gateway payload `MessageDeleteData` (message delete), as the fields the client reads.
#[derive(Clone, Debug)]
pub struct MessageDeleteData {
    pub id: SnowflakeID,
    pub channel_id: SnowflakeID,
    pub guild_id: Option<SnowflakeID>,
}

} // verus!
