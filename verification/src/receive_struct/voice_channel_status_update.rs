use vstd::prelude::*;
#[allow(unused_imports)]
use crate::snowflake::SnowflakeID;

verus! {

/// Gateway payload `VoiceChannelStatusUpdateData` (voice channel status update), as the fields the client reads.
#[derive(Clone, Debug)]
pub struct VoiceChannelStatusUpdateData {
    pub status: Option<String>,
    pub id: SnowflakeID,
    pub guild_id: SnowflakeID,
}

} // verus!
