use vstd::prelude::*;
#[allow(unused_imports)]
use crate::snowflake::SnowflakeID;

verus! {

/// Gateway payload `VoiceChannelStartTimeUpdateData` (voice channel start time update), as the fields the client reads.
#[derive(Clone, Debug)]
pub struct VoiceChannelStartTimeUpdateData {
    pub start_time: Option<u64>,
    pub id: SnowflakeID,
    pub guild_id: SnowflakeID,
}

} // verus!
